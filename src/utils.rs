//! The additive payload checksum carried in every packet header.
use vstd::prelude::*;

verus! {

/// Sum of all bytes of `s`, as an unbounded natural number.
pub open spec fn byte_sum(s: Seq<u8>) -> nat
    decreases s.len(),
{
    if s.len() == 0 {
        0
    } else {
        byte_sum(s.drop_last()) + s.last() as nat
    }
}

/// The checksum of `s` started from `seed`: the byte sum modulo 2^32.
pub open spec fn checksum(s: Seq<u8>, seed: u32) -> u32 {
    ((seed as nat + byte_sum(s)) % 0x1_0000_0000) as u32
}

/// Checksum of a payload, starting from zero.
pub fn crc(buff: &[u8]) -> (r: u32)
    ensures
        r == checksum(buff@, 0),
{
    crc_seed(buff, 0)
}

/// Checksum of a payload, starting from `seed`; additions wrap modulo 2^32.
pub fn crc_seed(buff: &[u8], seed: u32) -> (r: u32)
    ensures
        r == checksum(buff@, seed),
{
    let mut r: u32 = seed;
    let mut i: usize = 0;
    while i < buff.len()
        invariant
            0 <= i <= buff@.len(),
            r == checksum(buff@.subrange(0, i as int), seed),
        decreases buff@.len() - i,
    {
        let ghost prefix = buff@.subrange(0, i as int);
        let ghost next = buff@.subrange(0, i as int + 1);
        assert(next.drop_last() =~= prefix);
        let b: u8 = buff[i];
        let s: u64 = r as u64 + b as u64;
        proof {
            let total = seed as nat + byte_sum(prefix);
            vstd::arithmetic::div_mod::lemma_add_mod_noop(
                total as int,
                b as int,
                0x1_0000_0000,
            );
            vstd::arithmetic::div_mod::lemma_mod_twice(b as int, 0x1_0000_0000);
            vstd::arithmetic::div_mod::lemma_small_mod(b as nat, 0x1_0000_0000);
        }
        r = (s % 0x1_0000_0000) as u32;
        i = i + 1;
    }
    assert(buff@.subrange(0, buff@.len() as int) =~= buff@);
    r
}

/// Appends all of `s` to `buf`.
pub fn append_bytes(buf: &mut Vec<u8>, s: &[u8])
    ensures
        final(buf)@ == old(buf)@ + s@,
{
    let mut i: usize = 0;
    while i < s.len()
        invariant
            0 <= i <= s@.len(),
            buf@ == old(buf)@ + s@.subrange(0, i as int),
        decreases s@.len() - i,
    {
        buf.push(s[i]);
        i = i + 1;
        assert(buf@ =~= old(buf)@ + s@.subrange(0, i as int));
    }
    assert(s@.subrange(0, s@.len() as int) =~= s@);
}

/// The text that a lossy UTF-8 decoding gives for `b`: invalid sequences
/// become U+FFFD.
pub uninterp spec fn utf8_lossy(b: Seq<u8>) -> Seq<char>;

/// Relies on `String::from_utf8_lossy`: the text depends on the bytes alone,
/// no bytes give no text, and valid UTF-8 is decoded unchanged.
#[verifier::external_body]
pub(crate) fn lossy_string(b: &[u8]) -> (r: String)
    ensures
        r@ == utf8_lossy(b@),
        b@.len() == 0 ==> r@.len() == 0,
        vstd::utf8::valid_utf8(b@) ==> r@ == vstd::utf8::decode_utf8(b@),
{
    String::from_utf8_lossy(b).into_owned()
}

} // verus!
