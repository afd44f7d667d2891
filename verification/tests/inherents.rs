use poc_consensus::inherents::{
    InherentDataProvider, InherentError, PoCInherentData, INHERENT_IDENTIFIER,
};
use sp_inherents::InherentData;

#[test]
fn identifier_is_the_text() {
    assert_eq!(&INHERENT_IDENTIFIER, b"poc0slot");
}

#[test]
fn empty_data_has_no_slot() {
    assert_eq!(InherentData::new().poc_inherent_data(), Ok(None));
}

#[test]
fn provided_slot_reads_back() {
    let mut data = InherentData::new();
    let provider = InherentDataProvider::new(0x0102030405060708);
    assert_eq!(provider.provide_inherent_data(&mut data), Ok(()));
    assert_eq!(data.poc_inherent_data(), Ok(Some(0x0102030405060708)));
}

#[test]
fn slot_is_provided_once() {
    let mut data = InherentData::new();
    assert_eq!(InherentDataProvider::new(5).provide_inherent_data(&mut data), Ok(()));
    assert_eq!(
        InherentDataProvider::new(6).provide_inherent_data(&mut data),
        Err(InherentError::InherentDataExists(*b"poc0slot")),
    );
    assert_eq!(data.poc_inherent_data(), Ok(Some(5)));
}

#[test]
fn slot_is_replaced() {
    let mut data = InherentData::new();
    data.poc_replace_inherent_data(7);
    assert_eq!(data.poc_inherent_data(), Ok(Some(7)));
    data.poc_replace_inherent_data(8);
    assert_eq!(data.poc_inherent_data(), Ok(Some(8)));
}

#[test]
fn other_inherents_are_left_alone() {
    let mut data = InherentData::new();
    data.put_data(*b"timstap0", &9u64).unwrap();
    data.poc_replace_inherent_data(7);
    assert_eq!(data.get_data::<u64>(b"timstap0").unwrap(), Some(9));
}

#[test]
fn short_data_cannot_be_read() {
    let mut data = InherentData::new();
    data.put_data(*b"poc0slot", &3u32).unwrap();
    assert_eq!(
        data.poc_inherent_data(),
        Err(InherentError::DecodingFailed(*b"poc0slot")),
    );
}

#[test]
fn slot_is_counted_by_time() {
    assert_eq!(InherentDataProvider::from_timestamp_and_duration(0, 6000).slot(), 0);
    assert_eq!(InherentDataProvider::from_timestamp_and_duration(5999, 6000).slot(), 0);
    assert_eq!(InherentDataProvider::from_timestamp_and_duration(6000, 6000).slot(), 1);
    assert_eq!(InherentDataProvider::from_timestamp_and_duration(12345678, 6000).slot(), 2057);
    let provider = InherentDataProvider::from_timestamp_and_duration(u64::MAX, 1);
    assert_eq!(*provider, u64::MAX);
}

#[test]
fn provider_handles_no_error() {
    let provider = InherentDataProvider::new(5);
    assert_eq!(provider.try_handle_error(b"poc0slot", &[1u8, 2]), None);
}
