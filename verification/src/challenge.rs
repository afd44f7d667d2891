//! Announcing slots to farmers: the challenge of a slot and who is told of it.

use crate::codec::{append_bytes, array_at, le_bytes, le_value, u64_from_le, u64_to_le};
use crate::epoch::Epoch;
use crate::primitives::{Salt, Slot};
use vstd::prelude::*;

verus! {

/// The SHA-256 digest of some bytes.
pub uninterp spec fn sha256(data: Seq<u8>) -> Seq<u8>;

/// Calls `ring::digest::digest` with the algorithm SHA-256. The digest depends on the data alone.
/// It panics on data of 2^61 bytes and more, whose length in bits the algorithm cannot count.
#[verifier::external_body]
fn digest_sha256(data: &[u8]) -> (r: [u8; 32])
    requires
        data@.len() < 0x2000_0000_0000_0000,
    ensures
        r@ == sha256(data@),
{
    let digest = ring::digest::digest(&ring::digest::SHA256, data);
    digest.as_ref().try_into().unwrap()
}

/// What the challenge of a slot is a digest of: the randomness of the epoch, then the slot in
/// eight little-endian bytes.
pub open spec fn challenge_data(epoch: Epoch, slot: Slot) -> Seq<u8> {
    epoch.randomness@ + le_bytes(slot as nat, 8)
}

/// The challenge in a digest: its first eight bytes.
pub fn challenge_of_digest(digest: &[u8; 32]) -> (r: [u8; 8])
    ensures
        r@ == digest@.subrange(0, 8),
{
    array_at::<8>(digest.as_slice(), 0)
}

/// The bytes that the challenge of `slot` in `epoch` is a digest of.
pub fn challenge_input(epoch: &Epoch, slot: Slot) -> (r: Vec<u8>)
    ensures
        r@ == challenge_data(*epoch, slot),
        r@.len() == 40,
        r@.subrange(0, 32) == epoch.randomness@,
        le_value(r@.subrange(32, 40)) == slot,
{
    proof {
        law_challenge_input(*epoch, slot);
    }
    let mut data: Vec<u8> = Vec::new();
    let number: [u8; 8] = u64_to_le(slot);
    append_bytes(&mut data, epoch.randomness.as_slice());
    append_bytes(&mut data, number.as_slice());
    assert(data@ =~= challenge_data(*epoch, slot));
    data
}

/// The challenge that all farmers are given for `slot` in `epoch`.
pub fn create_global_challenge(epoch: &Epoch, slot: Slot) -> (r: [u8; 8])
    ensures
        r@ == sha256(challenge_data(*epoch, slot)).subrange(0, 8),
        forall|data: Seq<u8>|
            data.len() == 40 && data.subrange(0, 32) == epoch.randomness@ && le_value(
                data.subrange(32, 40),
            ) == slot ==> r@ == (#[trigger] sha256(data)).subrange(0, 8),
{
    proof {
        lemma_challenge_data_is_the_only_one(*epoch, slot);
    }
    let data: Vec<u8> = challenge_input(epoch, slot);
    proof {
        crate::codec::lemma_le_bytes_len(slot as nat, 8);
    }
    let digest: [u8; 32] = digest_sha256(data.as_slice());
    challenge_of_digest(&digest)
}

/// Information about new slot that just arrived
#[derive(Clone, Copy, Debug, PartialEq, Eq)]
pub struct NewSlotInfo {
    /// Slot
    pub slot: Slot,
    /// Slot challenge
    pub challenge: [u8; 8],
    /// Salt
    pub salt: Salt,
    /// Salt for the next eon
    pub next_salt: Option<Salt>,
    /// Acceptable solution range
    pub solution_range: u64,
}

/// Whether the salt has a successor: it is a number, and not the largest.
pub open spec fn salt_has_next(salt: Salt) -> bool {
    le_value(salt@) < u64::MAX
}

/// The salt of the eon after that of `salt`: the next number.
pub fn following_salt(salt: &Salt) -> (r: Salt)
    requires
        salt_has_next(*salt),
    ensures
        le_value(r@) == le_value(salt@) + 1,
{
    let number: u64 = u64_from_le(salt) + 1;
    proof {
        crate::codec::lemma_u64_bytes(number);
    }
    u64_to_le(number)
}

/// What farmers are told of a slot whose challenge is `challenge`.
pub fn slot_info(slot: Slot, challenge: [u8; 8], salt: Salt, solution_range: u64) -> (r:
    NewSlotInfo)
    requires
        salt_has_next(salt),
    ensures
        r.slot == slot,
        r.challenge == challenge,
        r.salt == salt,
        r.next_salt matches Some(next) && le_value(next@) == le_value(salt@) + 1,
        r.solution_range == solution_range,
{
    NewSlotInfo {
        slot,
        challenge,
        salt,
        next_salt: Some(following_salt(&salt)),
        solution_range,
    }
}

/// What farmers are told of `slot` in `epoch`.
pub fn new_slot_info(slot: Slot, epoch: &Epoch, salt: Salt, solution_range: u64) -> (r: NewSlotInfo)
    requires
        salt_has_next(salt),
    ensures
        r.slot == slot,
        r.challenge@ == sha256(challenge_data(*epoch, slot)).subrange(0, 8),
        forall|data: Seq<u8>|
            data.len() == 40 && data.subrange(0, 32) == epoch.randomness@ && le_value(
                data.subrange(32, 40),
            ) == slot ==> r.challenge@ == (#[trigger] sha256(data)).subrange(0, 8),
        r.salt == salt,
        r.next_salt matches Some(next) && le_value(next@) == le_value(salt@) + 1,
        r.solution_range == solution_range,
{
    slot_info(slot, create_global_challenge(epoch, slot), salt, solution_range)
}

/// A slot on its way to the subscribers, who are told of it one after the other.
pub struct Announcing<S> {
    info: NewSlotInfo,
    senders: Vec<S>,
    at: usize,
}

impl<S> Announcing<S> {
    #[verifier::type_invariant]
    spec fn wf(self) -> bool {
        self.at <= self.senders.len()
    }

    /// What each subscriber is told.
    pub closed spec fn message(self) -> NewSlotInfo {
        self.info
    }

    /// The subscribers that were reached so far.
    pub closed spec fn kept(self) -> Seq<S> {
        self.senders@.take(self.at as int)
    }

    /// The subscribers that are still to be told.
    pub closed spec fn left(self) -> Seq<S> {
        self.senders@.skip(self.at as int)
    }

    /// Starts to tell all of `senders` of a slot.
    pub fn new(info: NewSlotInfo, senders: Vec<S>) -> (r: Announcing<S>)
        ensures
            r.message() == info,
            r.kept() == Seq::<S>::empty(),
            r.left() == senders@,
    {
        Announcing { info, senders, at: 0 }
    }

    /// What each subscriber is told.
    pub fn info(&self) -> (r: NewSlotInfo)
        ensures
            r == self.message(),
    {
        self.info
    }

    /// The subscriber to tell, if there is one left.
    pub fn current(&self) -> (r: Option<&S>)
        ensures
            match r {
                Some(sender) => self.left().len() > 0 && *sender == self.left()[0],
                None => self.left().len() == 0,
            },
    {
        proof {
            use_type_invariant(self);
        }
        if self.at < self.senders.len() {
            Some(&self.senders[self.at])
        } else {
            None
        }
    }

    /// Goes on to the next subscriber. One that could not be reached is dropped.
    pub fn answered(self, delivered: bool) -> (r: Announcing<S>)
        requires
            self.left().len() > 0,
        ensures
            r.message() == self.message(),
            r.kept() == (if delivered {
                self.kept().push(self.left()[0])
            } else {
                self.kept()
            }),
            r.left() == self.left().skip(1),
    {
        proof {
            use_type_invariant(&self);
        }
        assert(self.at < self.senders.len());
        let mut senders: Vec<S> = self.senders;
        if delivered {
            let r = Announcing { info: self.info, senders, at: self.at + 1 };
            assert(r.kept() =~= self.kept().push(self.left()[0]));
            assert(r.left() =~= self.left().skip(1));
            r
        } else {
            let _ = senders.remove(self.at);
            let r = Announcing { info: self.info, senders, at: self.at };
            assert(r.kept() =~= self.kept());
            assert(r.left() =~= self.left().skip(1));
            r
        }
    }

    /// The subscribers: those that were reached, then those that are still to be told.
    pub fn subscribers(self) -> (r: Vec<S>)
        ensures
            r@ == self.kept() + self.left(),
    {
        proof {
            use_type_invariant(&self);
            assert(self.senders@ =~= self.kept() + self.left());
        }
        self.senders
    }
}

/// Those of `senders` that were reached, in their order.
pub open spec fn reached<S>(senders: Seq<S>, delivered: Seq<bool>) -> Seq<S>
    decreases senders.len(),
{
    if senders.len() == 0 {
        Seq::empty()
    } else {
        let rest = reached(senders.skip(1), delivered.skip(1));
        if delivered[0] {
            seq![senders[0]] + rest
        } else {
            rest
        }
    }
}

/// How telling the subscribers in `left` ends, where `delivered` tells of each of them whether it
/// is reached and those in `kept` were before: the messages that are sent, each with the
/// subscriber it is sent to, and the subscribers that are kept.
pub open spec fn announced<S>(
    message: NewSlotInfo,
    kept: Seq<S>,
    left: Seq<S>,
    delivered: Seq<bool>,
) -> (Seq<(S, NewSlotInfo)>, Seq<S>)
    decreases left.len(),
{
    if left.len() == 0 {
        (Seq::empty(), kept)
    } else {
        let kept_now = if delivered[0] {
            kept.push(left[0])
        } else {
            kept
        };
        let (sent, subscribers) = announced(message, kept_now, left.skip(1), delivered.skip(1));
        (seq![(left[0], message)] + sent, subscribers)
    }
}

proof fn lemma_announced<S>(
    message: NewSlotInfo,
    kept: Seq<S>,
    left: Seq<S>,
    delivered: Seq<bool>,
)
    requires
        left.len() == delivered.len(),
    ensures
        announced(message, kept, left, delivered).0 =~= left.map_values(|s: S| (s, message)),
        announced(message, kept, left, delivered).1 =~= kept + reached(left, delivered),
    decreases left.len(),
{
    if left.len() > 0 {
        let kept_now = if delivered[0] {
            kept.push(left[0])
        } else {
            kept
        };
        lemma_announced(message, kept_now, left.skip(1), delivered.skip(1));
    }
}

/// Every subscriber is told of a slot exactly once, in their order, and all of them are told the
/// same; those who stay subscribed are exactly those that were reached, in the same order.
pub proof fn law_every_subscriber_is_told_once<S>(
    message: NewSlotInfo,
    senders: Seq<S>,
    delivered: Seq<bool>,
)
    requires
        senders.len() == delivered.len(),
    ensures
        announced(message, Seq::empty(), senders, delivered) == (
            senders.map_values(|s: S| (s, message)),
            reached(senders, delivered),
        ),
{
    lemma_announced(message, Seq::empty(), senders, delivered);
    assert(Seq::<S>::empty() + reached(senders, delivered) =~= reached(senders, delivered));
}

/// Who is left subscribed is who a message was delivered to: one that was reached stays, one that
/// was not goes.
pub proof fn law_reached_are_kept<S>(senders: Seq<S>, delivered: Seq<bool>, s: S)
    requires
        senders.len() == delivered.len(),
    ensures
        reached(senders, delivered).contains(s) <==> exists|i: int|
            0 <= i < senders.len() && delivered[i] && senders[i] == s,
    decreases senders.len(),
{
    if senders.len() > 0 {
        let rest = reached(senders.skip(1), delivered.skip(1));
        let all = reached(senders, delivered);
        law_reached_are_kept(senders.skip(1), delivered.skip(1), s);
        if all.contains(s) {
            let k = choose|k: int| 0 <= k < all.len() && all[k] == s;
            if delivered[0] && k == 0 {
                assert(delivered[0] && senders[0] == s);
            } else {
                assert(rest[if delivered[0] {
                    k - 1
                } else {
                    k
                }] == s);
                assert(rest.contains(s));
                let i = choose|i: int|
                    0 <= i < senders.skip(1).len() && delivered.skip(1)[i] && senders.skip(1)[i]
                        == s;
                assert(delivered[i + 1] && senders[i + 1] == s);
            }
        }
        if exists|i: int| 0 <= i < senders.len() && delivered[i] && senders[i] == s {
            let i = choose|i: int| 0 <= i < senders.len() && delivered[i] && senders[i] == s;
            if i == 0 {
                assert(all[0] == s);
            } else {
                assert(delivered.skip(1)[i - 1] && senders.skip(1)[i - 1] == s);
                assert(rest.contains(s));
                let k = choose|k: int| 0 <= k < rest.len() && rest[k] == s;
                assert(all[if delivered[0] {
                    k + 1
                } else {
                    k
                }] == s);
            }
        }
    } else {
        assert(reached(senders, delivered).len() == 0);
    }
}

/// The challenge of a slot is a digest of forty bytes: the randomness of the epoch, and the number
/// of the slot itself, counted from the first slot of the chain and not from that of the epoch.
pub proof fn law_challenge_input(epoch: Epoch, slot: Slot)
    ensures
        challenge_data(epoch, slot).len() == 40,
        challenge_data(epoch, slot).subrange(0, 32) == epoch.randomness@,
        le_value(challenge_data(epoch, slot).subrange(32, 40)) == slot,
{
    crate::codec::lemma_u64_bytes(slot);
    let data = challenge_data(epoch, slot);
    assert(data.subrange(0, 32) =~= epoch.randomness@);
    assert(data.subrange(32, 40) =~= le_bytes(slot as nat, 8));
}

/// There are no other forty bytes that tell a randomness and a slot.
proof fn lemma_challenge_data_is_the_only_one(epoch: Epoch, slot: Slot)
    ensures
        forall|data: Seq<u8>|
            data.len() == 40 && data.subrange(0, 32) == epoch.randomness@ && le_value(
                data.subrange(32, 40),
            ) == slot ==> data == challenge_data(epoch, slot),
{
    assert forall|data: Seq<u8>|
        data.len() == 40 && data.subrange(0, 32) == epoch.randomness@ && le_value(
            data.subrange(32, 40),
        ) == slot implies data == challenge_data(epoch, slot) by {
        crate::codec::lemma_u64_value(data.subrange(32, 40));
        assert(data =~= data.subrange(0, 32) + data.subrange(32, 40));
    }
}

/// Two challenges are digests of the same bytes if and only if they are for the same slot and the
/// epochs have the same randomness: neither where an epoch starts nor how long it is plays a part.
pub proof fn law_challenge_tells_randomness_and_slot(e1: Epoch, s1: Slot, e2: Epoch, s2: Slot)
    ensures
        challenge_data(e1, s1) == challenge_data(e2, s2) <==> e1.randomness == e2.randomness && s1
            == s2,
{
    law_challenge_input(e1, s1);
    law_challenge_input(e2, s2);
    if challenge_data(e1, s1) == challenge_data(e2, s2) {
        crate::codec::lemma_array_of::<32>(e1.randomness);
        crate::codec::lemma_array_of::<32>(e2.randomness);
    }
}

/// Who is reached of some subscribers and others after them is who is reached of the first, then
/// who is reached of the others; a single one is kept if it was reached, and dropped if not.
pub proof fn law_reached_one_by_one<S>(
    first: Seq<S>,
    first_delivered: Seq<bool>,
    second: Seq<S>,
    second_delivered: Seq<bool>,
    sender: S,
    delivered: bool,
)
    requires
        first.len() == first_delivered.len(),
        second.len() == second_delivered.len(),
    ensures
        reached(first + second, first_delivered + second_delivered) == reached(
            first,
            first_delivered,
        ) + reached(second, second_delivered),
        reached(seq![sender], seq![delivered]) == (if delivered {
            seq![sender]
        } else {
            Seq::<S>::empty()
        }),
    decreases first.len(),
{
    reveal_with_fuel(reached, 2);
    if first.len() == 0 {
        assert(first + second =~= second);
        assert(first_delivered + second_delivered =~= second_delivered);
        assert(reached(first, first_delivered) + reached(second, second_delivered) =~= reached(
            second,
            second_delivered,
        ));
    } else {
        law_reached_one_by_one(
            first.skip(1),
            first_delivered.skip(1),
            second,
            second_delivered,
            sender,
            delivered,
        );
        assert((first + second).skip(1) =~= first.skip(1) + second);
        assert((first_delivered + second_delivered).skip(1) =~= first_delivered.skip(1)
            + second_delivered);
        assert(reached(first + second, first_delivered + second_delivered) =~= reached(
            first,
            first_delivered,
        ) + reached(second, second_delivered));
    }
    assert(reached(seq![sender], seq![delivered]) =~= (if delivered {
        seq![sender]
    } else {
        Seq::<S>::empty()
    }));
}

/// Every salt has a successor but the one that is all ones.
pub proof fn law_only_the_last_salt_has_no_successor(salt: Salt)
    ensures
        salt_has_next(salt) <==> exists|i: int| 0 <= i < 8 && #[trigger] salt@[i] != 255,
{
    crate::codec::law_u64_is_the_sum_of_its_digits(salt@);
    if salt_has_next(salt) {
        assert(salt@[0] != 255 || salt@[1] != 255 || salt@[2] != 255 || salt@[3] != 255 || salt@[4]
            != 255 || salt@[5] != 255 || salt@[6] != 255 || salt@[7] != 255);
    }
}


} // verus!
