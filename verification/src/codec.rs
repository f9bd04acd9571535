//! Framing of a stored record: seven bytes of magic, version and padding in
//! front of the serialized body.

use vstd::prelude::*;

verus! {

/// Number of bytes in the prefix.
pub const HEADER_LEN: usize = 7;

/// `U`, `V`, `X`, SOH, the format version, and two bytes of padding.
pub open spec fn magic_header() -> Seq<u8> {
    seq![0x55u8, 0x56u8, 0x58u8, 0x01u8, 0x32u8, 0x04u8, 0x00u8]
}

/// `buf` begins with the prefix.
pub open spec fn has_header(buf: Seq<u8>) -> bool {
    buf.len() >= 7 && buf.take(7) == magic_header()
}

/// `body` with the prefix in front.
pub open spec fn framed(body: Seq<u8>) -> Seq<u8> {
    magic_header() + body
}

/// `buf` without the prefix, if it has one; else `buf` itself.
pub open spec fn stripped(buf: Seq<u8>) -> Seq<u8> {
    if has_header(buf) {
        buf.skip(7)
    } else {
        buf
    }
}

/// The prefix that every stored record begins with.
pub fn magic_bytes() -> (out: Vec<u8>)
    ensures
        out@ == magic_header(),
{
    let mut out: Vec<u8> = Vec::new();
    out.push(0x55u8);
    out.push(0x56u8);
    out.push(0x58u8);
    out.push(0x01u8);
    out.push(0x32u8);
    out.push(0x04u8);
    out.push(0x00u8);
    assert(out@ =~= magic_header());
    out
}

/// Whether `buf` begins with the prefix.
pub fn starts_with_header(buf: &Vec<u8>) -> (r: bool)
    ensures
        r == has_header(buf@),
{
    if buf.len() < HEADER_LEN {
        return false;
    }
    let r = buf[0] == 0x55u8 && buf[1] == 0x56u8 && buf[2] == 0x58u8 && buf[3] == 0x01u8 && buf[4]
        == 0x32u8 && buf[5] == 0x04u8 && buf[6] == 0x00u8;
    proof {
        if r {
            assert(buf@.take(7) =~= magic_header());
        } else {
            if buf@.take(7) == magic_header() {
                assert(buf@.take(7)[0] == 0x55u8);
                assert(buf@.take(7)[1] == 0x56u8);
                assert(buf@.take(7)[2] == 0x58u8);
                assert(buf@.take(7)[3] == 0x01u8);
                assert(buf@.take(7)[4] == 0x32u8);
                assert(buf@.take(7)[5] == 0x04u8);
                assert(buf@.take(7)[6] == 0x00u8);
            }
        }
    }
    r
}

/// Drops the prefix from `buf` if it is there; a buffer without it is left as
/// it is, so that records written before the prefix existed still load.
pub fn strip_header(buf: &mut Vec<u8>)
    ensures
        final(buf)@ == stripped(old(buf)@),
{
    if starts_with_header(buf) {
        let rest = buf.split_off(HEADER_LEN);
        *buf = rest;
        assert(buf@ =~= stripped(old(buf)@));
    }
}

/// Puts the prefix in front of `buf`.
pub fn add_header(buf: &mut Vec<u8>)
    ensures
        final(buf)@ == framed(old(buf)@),
        has_header(final(buf)@),
{
    let mut out = magic_bytes();
    out.append(buf);
    *buf = out;
    proof {
        framed_has_header(old(buf)@);
    }
}

/// A framed body begins with the prefix.
pub proof fn framed_has_header(body: Seq<u8>)
    ensures
        has_header(framed(body)),
        framed(body).take(7) == magic_header(),
        framed(body).len() == body.len() + 7,
{
    assert(framed(body).take(7) =~= magic_header());
}

/// Stripping what was framed gives the body back, whatever the body holds.
pub proof fn strip_undoes_frame(body: Seq<u8>)
    ensures
        stripped(framed(body)) == body,
{
    framed_has_header(body);
    assert(framed(body).skip(7) =~= body);
}

/// Framing is a function of the body: the same body gives the same bytes.
pub proof fn frame_is_injective(a: Seq<u8>, b: Seq<u8>)
    requires
        framed(a) == framed(b),
    ensures
        a == b,
{
    strip_undoes_frame(a);
    strip_undoes_frame(b);
}

/// A body that does not itself begin with the prefix reads the same with and
/// without the prefix in front.
pub proof fn legacy_body_reads_alike(body: Seq<u8>)
    requires
        !has_header(body),
    ensures
        stripped(body) == body,
        stripped(framed(body)) == stripped(body),
{
    strip_undoes_frame(body);
}

} // verus!
