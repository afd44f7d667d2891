//! The byte formats that digests are written in: little-endian integers, fixed arrays and
//! length-prefixed byte strings.

use parity_scale_codec::{Decode, Encode};
use vstd::prelude::*;

verus! {

/// The number whose little-endian digits, in base 256, are `s`.
pub open spec fn le_value(s: Seq<u8>) -> nat
    decreases s.len(),
{
    if s.len() == 0 {
        0
    } else {
        s[0] as nat + 256 * le_value(s.skip(1))
    }
}

/// The `n` lowest little-endian digits of `v` in base 256.
pub open spec fn le_bytes(v: nat, n: nat) -> Seq<u8>
    decreases n,
{
    if n == 0 {
        Seq::empty()
    } else {
        seq![(v % 256) as u8] + le_bytes(v / 256, (n - 1) as nat)
    }
}

/// How many numbers `n` base-256 digits can write.
pub open spec fn pow256(n: nat) -> nat
    decreases n,
{
    if n == 0 {
        1
    } else {
        256 * pow256((n - 1) as nat)
    }
}

pub proof fn lemma_le_bytes_len(v: nat, n: nat)
    ensures
        le_bytes(v, n).len() == n,
    decreases n,
{
    if n > 0 {
        lemma_le_bytes_len(v / 256, (n - 1) as nat);
    }
}

pub proof fn lemma_le_value_bound(s: Seq<u8>)
    ensures
        le_value(s) < pow256(s.len()),
    decreases s.len(),
{
    if s.len() > 0 {
        lemma_le_value_bound(s.skip(1));
    }
}

/// Reading a number back from its digits gives the number.
pub proof fn lemma_le_value_of_bytes(v: nat, n: nat)
    requires
        v < pow256(n),
    ensures
        le_value(le_bytes(v, n)) == v,
    decreases n,
{
    lemma_le_bytes_len(v, n);
    if n > 0 {
        lemma_le_value_of_bytes(v / 256, (n - 1) as nat);
        assert(le_bytes(v, n).skip(1) =~= le_bytes(v / 256, (n - 1) as nat));
    }
}

/// Writing out the number that some digits stand for gives the digits.
pub proof fn lemma_le_bytes_of_value(s: Seq<u8>)
    ensures
        le_bytes(le_value(s), s.len()) =~= s,
    decreases s.len(),
{
    if s.len() > 0 {
        let rest = le_value(s.skip(1));
        lemma_le_bytes_of_value(s.skip(1));
        assert((s[0] as nat + 256 * rest) % 256 == s[0] as nat);
        assert((s[0] as nat + 256 * rest) / 256 == rest);
        assert(s =~= seq![s[0]] + s.skip(1));
    }
}

/// The eight-byte case of the two lemmas above, with the bounds of `u64`.
pub proof fn lemma_u64_bytes(x: u64)
    ensures
        le_bytes(x as nat, 8).len() == 8,
        le_value(le_bytes(x as nat, 8)) == x,
{
    reveal_with_fuel(pow256, 9);
    lemma_le_bytes_len(x as nat, 8);
    lemma_le_value_of_bytes(x as nat, 8);
}

/// Eight digits stand for a number that fits in `u64`.
pub proof fn lemma_u64_value(s: Seq<u8>)
    requires
        s.len() == 8,
    ensures
        le_value(s) <= u64::MAX,
        le_bytes(le_value(s), 8) =~= s,
{
    reveal_with_fuel(pow256, 9);
    lemma_le_value_bound(s);
    lemma_le_bytes_of_value(s);
}

/// The array that holds the bytes `s`.
pub open spec fn array_of<const N: usize>(s: Seq<u8>) -> [u8; N] {
    choose|a: [u8; N]| a@ == s
}

/// An array is the one that holds its own bytes.
pub proof fn lemma_array_of<const N: usize>(a: [u8; N])
    ensures
        array_of::<N>(a@) == a,
{
    let b = array_of::<N>(a@);
    assert(b@ == a@);
    assert forall|i: int| 0 <= i < N implies b[i] == a[i] by {
        assert(b@[i] == a@[i]);
    }
    assert(b =~= a);
}

/// The eight little-endian bytes of `x`.
pub fn u64_to_le(x: u64) -> (r: [u8; 8])
    ensures
        r@ == le_bytes(x as nat, 8),
{
    let x1: u64 = x / 256;
    let x2: u64 = x1 / 256;
    let x3: u64 = x2 / 256;
    let x4: u64 = x3 / 256;
    let x5: u64 = x4 / 256;
    let x6: u64 = x5 / 256;
    let x7: u64 = x6 / 256;
    let r: [u8; 8] = [
        (x % 256) as u8,
        (x1 % 256) as u8,
        (x2 % 256) as u8,
        (x3 % 256) as u8,
        (x4 % 256) as u8,
        (x5 % 256) as u8,
        (x6 % 256) as u8,
        (x7 % 256) as u8,
    ];
    proof {
        reveal_with_fuel(le_bytes, 9);
        assert(r@ =~= le_bytes(x as nat, 8));
    }
    r
}

/// The number whose eight little-endian bytes are `b`.
pub fn u64_from_le(b: &[u8; 8]) -> (x: u64)
    ensures
        x == le_value(b@),
{
    proof {
        lemma_u64_value(b@);
        reveal_with_fuel(le_value, 9);
        lemma_skips(b@);
    }
    let v7: u64 = b[7] as u64;
    let v6: u64 = b[6] as u64 + 256 * v7;
    let v5: u64 = b[5] as u64 + 256 * v6;
    let v4: u64 = b[4] as u64 + 256 * v5;
    let v3: u64 = b[3] as u64 + 256 * v4;
    let v2: u64 = b[2] as u64 + 256 * v3;
    let v1: u64 = b[1] as u64 + 256 * v2;
    b[0] as u64 + 256 * v1
}

/// Eight bytes, dropped one at a time from the front.
proof fn lemma_skips(s: Seq<u8>)
    requires
        s.len() == 8,
    ensures
        le_value(s) == s[0] + 256 * (s[1] + 256 * (s[2] + 256 * (s[3] + 256 * (s[4] + 256 * (s[5]
            + 256 * (s[6] + 256 * s[7])))))),
{
    reveal_with_fuel(le_value, 9);
    assert forall|i: int| 0 <= i < 8 implies #[trigger] s.skip(i).skip(1) =~= s.skip(i + 1) by {}
    assert(s.skip(0) =~= s);
    assert(le_value(s.skip(8)) == 0);
    assert(le_value(s.skip(7)) == s[7] + 256 * le_value(s.skip(7).skip(1)));
    assert(le_value(s.skip(6)) == s[6] + 256 * le_value(s.skip(6).skip(1)));
    assert(le_value(s.skip(5)) == s[5] + 256 * le_value(s.skip(5).skip(1)));
    assert(le_value(s.skip(4)) == s[4] + 256 * le_value(s.skip(4).skip(1)));
    assert(le_value(s.skip(3)) == s[3] + 256 * le_value(s.skip(3).skip(1)));
    assert(le_value(s.skip(2)) == s[2] + 256 * le_value(s.skip(2).skip(1)));
    assert(le_value(s.skip(1)) == s[1] + 256 * le_value(s.skip(1).skip(1)));
}

/// Appends the bytes of `s` to `out`.
pub fn append_bytes(out: &mut Vec<u8>, s: &[u8])
    ensures
        final(out)@ == old(out)@ + s@,
{
    let mut i: usize = 0;
    while i < s.len()
        invariant
            i <= s.len(),
            out@ == old(out)@ + s@.take(i as int),
        decreases s.len() - i,
    {
        out.push(s[i]);
        i += 1;
        assert(s@.take(i as int) =~= s@.take(i - 1).push(s@[i - 1]));
    }
    assert(s@.take(i as int) =~= s@);
}

/// Whether two byte strings are the same.
pub fn bytes_eq(a: &[u8], b: &[u8]) -> (r: bool)
    ensures
        r == (a@ == b@),
{
    if a.len() != b.len() {
        return false;
    }
    let mut i: usize = 0;
    while i < a.len()
        invariant
            i <= a.len(),
            a.len() == b.len(),
            forall|j: int| 0 <= j < i ==> a@[j] == b@[j],
        decreases a.len() - i,
    {
        if a[i] != b[i] {
            return false;
        }
        i += 1;
    }
    assert(a@ =~= b@);
    true
}

/// The `N` bytes of `s` that start at `from`.
pub fn array_at<const N: usize>(s: &[u8], from: usize) -> (r: [u8; N])
    requires
        from + N <= s.len(),
    ensures
        r@ == s@.subrange(from as int, from + N),
{
    let mut r: [u8; N] = [0u8; N];
    let mut i: usize = 0;
    while i < N
        invariant
            i <= N,
            from + N <= s.len(),
            forall|j: int| 0 <= j < i ==> r@[j] == s@[from + j],
        decreases N - i,
    {
        r[i] = s[from + i];
        i += 1;
    }
    assert(r@ =~= s@.subrange(from as int, from + N));
    r
}

/// The prefix that tells the length `n` of a byte string: one, two, four or five bytes, the
/// shortest that `n` fits in, told apart by the two lowest bits.
pub open spec fn length_prefix(n: nat) -> Seq<u8> {
    if n < 0x40 {
        le_bytes(4 * n, 1)
    } else if n < 0x4000 {
        le_bytes(4 * n + 1, 2)
    } else if n < 0x4000_0000 {
        le_bytes(4 * n + 2, 4)
    } else {
        seq![3u8] + le_bytes(n, 4)
    }
}

/// A byte string behind its length prefix.
pub open spec fn prefixed(v: Seq<u8>) -> Seq<u8> {
    length_prefix(v.len()) + v
}

/// The length told by the prefix that `s` starts with, and what follows the prefix. A prefix
/// longer than its length needs is not accepted.
pub open spec fn read_length(s: Seq<u8>) -> Option<(nat, Seq<u8>)> {
    if s.len() == 0 {
        None
    } else if s[0] % 4 == 0 {
        Some((s[0] as nat / 4, s.skip(1)))
    } else if s[0] % 4 == 1 {
        if s.len() >= 2 && le_value(s.take(2)) / 4 >= 0x40 {
            Some((le_value(s.take(2)) / 4, s.skip(2)))
        } else {
            None
        }
    } else if s[0] % 4 == 2 {
        if s.len() >= 4 && le_value(s.take(4)) / 4 >= 0x4000 {
            Some((le_value(s.take(4)) / 4, s.skip(4)))
        } else {
            None
        }
    } else {
        if s[0] == 3 && s.len() >= 5 && le_value(s.subrange(1, 5)) >= 0x4000_0000 {
            Some((le_value(s.subrange(1, 5)), s.skip(5)))
        } else {
            None
        }
    }
}

/// The length-prefixed byte string that `s` starts with, and what follows it.
pub open spec fn read_prefixed(s: Seq<u8>) -> Option<(Seq<u8>, Seq<u8>)> {
    match read_length(s) {
        Some((n, rest)) => if n <= rest.len() {
            Some((rest.take(n as int), rest.skip(n as int)))
        } else {
            None
        },
        None => None,
    }
}

/// Calls `Encode::encode` of `parity_scale_codec` on a byte string. It writes the length in the
/// shortest prefix that holds it, then the bytes. It panics on more bytes than a `u32` can count.
#[verifier::external_body]
pub(crate) fn encode_prefixed(v: &[u8]) -> (r: Vec<u8>)
    requires
        v@.len() <= u32::MAX,
    ensures
        r@ == prefixed(v@),
{
    v.encode()
}

/// Calls `Vec::<u8>::decode` of `parity_scale_codec` on a byte string. It reads the length prefix,
/// refuses one that is not the shortest for its length, then takes as many bytes as the prefix
/// tells; it fails when there are fewer. The second part of the result is what it has left unread.
#[verifier::external_body]
pub(crate) fn decode_prefixed(s: &[u8]) -> (r: Option<(Vec<u8>, &[u8])>)
    ensures
        match r {
            Some((v, rest)) => read_prefixed(s@) == Some((v@, rest@)),
            None => read_prefixed(s@) is None,
        },
{
    let mut input: &[u8] = s;
    match Vec::<u8>::decode(&mut input) {
        Ok(v) => Some((v, input)),
        Err(_) => None,
    }
}

/// A byte string is read back from behind its length prefix, whatever follows it.
pub proof fn law_prefixed_reads_back(v: Seq<u8>, rest: Seq<u8>)
    requires
        v.len() <= u32::MAX,
    ensures
        read_prefixed(prefixed(v) + rest) == Some((v, rest)),
{
    let n = v.len();
    let s = prefixed(v) + rest;
    let p = length_prefix(n);
    reveal_with_fuel(pow256, 6);
    if n < 0x40 {
        reveal_with_fuel(le_bytes, 2);
        assert(p =~= seq![(4 * n % 256) as u8]);
        assert(s.skip(1) =~= v + rest);
    } else if n < 0x4000 {
        lemma_le_bytes_len(4 * n + 1, 2);
        lemma_le_value_of_bytes(4 * n + 1, 2);
        assert(p[0] == ((4 * n + 1) % 256) as u8);
        assert(s[0] == p[0]);
        assert(s.take(2) =~= p);
        assert(s.skip(2) =~= v + rest);
    } else if n < 0x4000_0000 {
        lemma_le_bytes_len(4 * n + 2, 4);
        lemma_le_value_of_bytes(4 * n + 2, 4);
        assert(p[0] == ((4 * n + 2) % 256) as u8);
        assert(s[0] == p[0]);
        assert(s.take(4) =~= p);
        assert(s.skip(4) =~= v + rest);
    } else {
        lemma_le_bytes_len(n, 4);
        lemma_le_value_of_bytes(n, 4);
        assert(s[0] == 3);
        assert(s.subrange(1, 5) =~= le_bytes(n, 4));
        assert(s.skip(5) =~= v + rest);
    }
    assert((v + rest).take(n as int) =~= v);
    assert((v + rest).skip(n as int) =~= rest);
}

/// Digit by digit, from the lowest on: the byte at a place of a number's eight bytes tells how many
/// of the power of 256 of that place are in the number.
pub proof fn law_u64_digits(x: u64)
    ensures
        le_bytes(x as nat, 8).len() == 8,
        le_bytes(x as nat, 8)[0] == x % 256,
        le_bytes(x as nat, 8)[1] == x / 0x100 % 256,
        le_bytes(x as nat, 8)[2] == x / 0x1_0000 % 256,
        le_bytes(x as nat, 8)[3] == x / 0x100_0000 % 256,
        le_bytes(x as nat, 8)[4] == x / 0x1_0000_0000 % 256,
        le_bytes(x as nat, 8)[5] == x / 0x100_0000_0000 % 256,
        le_bytes(x as nat, 8)[6] == x / 0x1_0000_0000_0000 % 256,
        le_bytes(x as nat, 8)[7] == x / 0x100_0000_0000_0000 % 256,
{
    reveal_with_fuel(le_bytes, 9);
}

/// The number that eight bytes stand for is the sum of the bytes, each times the power of 256 of
/// its place.
pub proof fn law_u64_is_the_sum_of_its_digits(s: Seq<u8>)
    requires
        s.len() == 8,
    ensures
        le_value(s) == s[0] + 0x100 * s[1] + 0x1_0000 * s[2] + 0x100_0000 * s[3] + 0x1_0000_0000
            * s[4] + 0x100_0000_0000 * s[5] + 0x1_0000_0000_0000 * s[6] + 0x100_0000_0000_0000
            * s[7],
{
    lemma_skips(s);
}

/// The two lowest bits of the first byte of a length prefix tell how long the prefix is, and the
/// rest of it tells the length: up to 63 in one byte, up to 16383 in two, up to 2^30 - 1 in four,
/// and any other in four bytes behind the first.
pub proof fn law_length_prefix(n: nat)
    requires
        n <= u32::MAX,
    ensures
        n <= 63 ==> length_prefix(n).len() == 1 && le_value(length_prefix(n)) == 4 * n,
        63 < n <= 16383 ==> length_prefix(n).len() == 2 && le_value(length_prefix(n)) == 4 * n + 1,
        16383 < n <= 1073741823 ==> length_prefix(n).len() == 4 && le_value(length_prefix(n)) == 4
            * n + 2,
        n > 1073741823 ==> length_prefix(n).len() == 5 && length_prefix(n)[0] == 3 && le_value(
            length_prefix(n).skip(1),
        ) == n,
{
    reveal_with_fuel(pow256, 6);
    lemma_le_bytes_len(4 * n, 1);
    lemma_le_bytes_len(4 * n + 1, 2);
    lemma_le_bytes_len(4 * n + 2, 4);
    lemma_le_bytes_len(n, 4);
    if n <= 63 {
        lemma_le_value_of_bytes(4 * n, 1);
    } else if n <= 16383 {
        lemma_le_value_of_bytes(4 * n + 1, 2);
    } else if n <= 1073741823 {
        lemma_le_value_of_bytes(4 * n + 2, 4);
    } else {
        lemma_le_value_of_bytes(n, 4);
        assert(length_prefix(n).skip(1) =~= le_bytes(n, 4));
    }
}

/// A length is read from nothing but its own prefix.
proof fn lemma_length_is_behind_its_prefix(s: Seq<u8>)
    ensures
        read_length(s) matches Some((n, rest)) ==> n <= u32::MAX && s == length_prefix(n) + rest,
{
    reveal_with_fuel(pow256, 6);
    if let Some((n, rest)) = read_length(s) {
        if s[0] % 4 == 0 {
            reveal_with_fuel(le_bytes, 2);
            assert(length_prefix(n) =~= seq![s[0]]);
            assert(s =~= length_prefix(n) + rest);
        } else if s[0] % 4 == 1 {
            let p = s.take(2);
            lemma_le_value_bound(p);
            lemma_le_bytes_of_value(p);
            assert(le_value(p) == p[0] + 256 * le_value(p.skip(1)));
            assert(le_value(p) % 4 == 1);
            assert(le_value(p) == 4 * n + 1);
            assert(s =~= length_prefix(n) + rest);
        } else if s[0] % 4 == 2 {
            let p = s.take(4);
            lemma_le_value_bound(p);
            lemma_le_bytes_of_value(p);
            assert(le_value(p) == p[0] + 256 * le_value(p.skip(1)));
            assert(le_value(p) % 4 == 2);
            assert(le_value(p) == 4 * n + 2);
            assert(s =~= length_prefix(n) + rest);
        } else {
            let p = s.subrange(1, 5);
            lemma_le_value_bound(p);
            lemma_le_bytes_of_value(p);
            assert(s =~= length_prefix(n) + rest);
        }
    }
}

/// A byte string is read if and only if it stands there behind its own prefix, and what follows it
/// is left.
pub proof fn law_prefixed_is_read_iff_written(s: Seq<u8>, v: Seq<u8>, rest: Seq<u8>)
    ensures
        read_prefixed(s) == Some((v, rest)) <==> v.len() <= u32::MAX && s == prefixed(v) + rest,
{
    if v.len() <= u32::MAX && s == prefixed(v) + rest {
        law_prefixed_reads_back(v, rest);
    }
    if read_prefixed(s) == Some((v, rest)) {
        lemma_length_is_behind_its_prefix(s);
        let (n, after) = read_length(s)->0;
        assert(after =~= v + rest);
        assert(s =~= prefixed(v) + rest);
    }
}

/// There is an array that starts with any bytes that it has room for.
proof fn array_upto<const N: usize>(s: Seq<u8>, n: int) -> (a: [u8; N])
    requires
        s.len() == N,
        0 <= n <= N,
    ensures
        forall|i: int| 0 <= i < n ==> a@[i] == s[i],
    decreases n,
{
    if n == 0 {
        vstd::array::spec_array_fill_for_copy_type::<u8, N>(0)
    } else {
        let before = array_upto::<N>(s, n - 1);
        let a = vstd::array::spec_array_update(before, n - 1, s[n - 1]);
        a
    }
}

/// There is an array for every byte string of its length.
pub proof fn array_from<const N: usize>(s: Seq<u8>) -> (a: [u8; N])
    requires
        s.len() == N,
    ensures
        a@ == s,
        array_of::<N>(s) == a,
        array_of::<N>(s)@ == s,
{
    let a = array_upto::<N>(s, N as int);
    assert(a@ =~= s);
    lemma_array_of::<N>(a);
    a
}

} // verus!
