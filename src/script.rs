//! Byte-level encoding of the inscription envelope script.

use bitcoin::script::{PushBytes, ScriptBuf};
use vstd::prelude::*;

verus! {

/// `OP_FALSE` (also `OP_PUSHBYTES_0`): pushes an empty item.
pub const OP_FALSE: u8 = 0x00;

/// `OP_PUSHBYTES_1`: pushes the single byte that follows it.
pub const OP_PUSHBYTES_1: u8 = 0x01;

/// `OP_PUSHDATA1`: a push whose length is written in one byte.
pub const OP_PUSHDATA1: u8 = 0x4c;

/// `OP_PUSHDATA2`: a push whose length is written in two little-endian bytes.
pub const OP_PUSHDATA2: u8 = 0x4d;

/// `OP_PUSHDATA4`: a push whose length is written in four little-endian bytes.
pub const OP_PUSHDATA4: u8 = 0x4e;

/// `OP_IF`.
pub const OP_IF: u8 = 0x63;

/// `OP_ENDIF`.
pub const OP_ENDIF: u8 = 0x68;

/// Pushes of this many bytes or more cannot be written in a script.
pub const MAX_PUSH_LEN: u64 = 0x1_0000_0000;

/// Whether a byte string can be the operand of a single push.
pub open spec fn pushable(d: Seq<u8>) -> bool {
    d.len() < MAX_PUSH_LEN
}

/// The minimal framing of a push: lengths under 76 are written as the opcode
/// itself, longer ones behind `OP_PUSHDATA1`, `OP_PUSHDATA2` or `OP_PUSHDATA4`
/// with the length in little-endian order.
pub open spec fn push_prefix(n: nat) -> Seq<u8> {
    if n < OP_PUSHDATA1 {
        seq![n as u8]
    } else if n < 0x100 {
        seq![OP_PUSHDATA1, n as u8]
    } else if n < 0x1_0000 {
        seq![OP_PUSHDATA2, (n % 0x100) as u8, (n / 0x100) as u8]
    } else {
        seq![
            OP_PUSHDATA4,
            (n % 0x100) as u8,
            ((n / 0x100) % 0x100) as u8,
            ((n / 0x1_0000) % 0x100) as u8,
            (n / 0x100_0000) as u8,
        ]
    }
}

/// The bytes of one minimal push of `d`.
pub open spec fn push_encoding(d: Seq<u8>) -> Seq<u8> {
    push_prefix(d.len()) + d
}

/// Relies on `PushBytes::try_from` for byte slices: it accepts exactly the
/// slices shorter than 2^32 bytes.
#[verifier::external_body]
fn fits_push(d: &[u8]) -> (r: bool)
    ensures
        r == pushable(d@),
{
    <&PushBytes>::try_from(d).is_ok()
}

/// Relies on `ScriptBuf::push_slice`: it appends the minimal push prefix for
/// the operand's length, then the operand.
#[verifier::external_body]
fn append_push(script: &mut Vec<u8>, d: &[u8])
    requires
        pushable(d@),
    ensures
        final(script)@ == old(script)@ + push_encoding(d@),
{
    let mut buf = ScriptBuf::from_bytes(std::mem::take(script));
    buf.push_slice(<&PushBytes>::try_from(d).unwrap());
    *script = buf.into_bytes();
}

/// The protocol tag that opens every inscription.
pub open spec fn ord_tag() -> Seq<u8> {
    seq![0x6f, 0x72, 0x64]
}

/// The inscription envelope for a MIME type and a payload:
///
/// `OP_FALSE OP_IF <"ord"> OP_PUSHBYTES_1 [OP_PUSHBYTES_1] <mime> OP_FALSE <data> OP_ENDIF`
///
/// The bracketed opcode, which gives the MIME push an explicit length opcode
/// of its own, stands there exactly when the payload (not the MIME type) is
/// shorter than 76 bytes. That the payload's length decides the framing of
/// the MIME push may well be a quirk rather than a rule of the protocol; it
/// is kept, since envelopes built otherwise would commit to other bytes.
pub open spec fn envelope(mime: Seq<u8>, data: Seq<u8>) -> Seq<u8> {
    seq![OP_FALSE, OP_IF] + push_encoding(ord_tag()) + seq![OP_PUSHBYTES_1]
        + mime_marker(data) + push_encoding(mime) + seq![OP_FALSE]
        + push_encoding(data) + seq![OP_ENDIF]
}

/// The extra `OP_PUSHBYTES_1` in front of the MIME push, present only for
/// payloads shorter than 76 bytes.
pub open spec fn mime_marker(data: Seq<u8>) -> Seq<u8> {
    if data.len() < OP_PUSHDATA1 {
        seq![OP_PUSHBYTES_1]
    } else {
        Seq::empty()
    }
}

/// Every envelope opens with `OP_FALSE OP_IF` and closes with `OP_ENDIF`, so
/// that what it carries is never executed.
pub proof fn lemma_envelope_is_guarded(mime: Seq<u8>, data: Seq<u8>)
    ensures
        envelope(mime, data).len() >= 3,
        envelope(mime, data)[0] == OP_FALSE,
        envelope(mime, data)[1] == OP_IF,
        envelope(mime, data).last() == OP_ENDIF,
{
}

/// The MIME push follows the seven bytes `OP_FALSE OP_IF <"ord"> OP_PUSHBYTES_1`.
/// For a payload shorter than 76 bytes one more `OP_PUSHBYTES_1` stands in
/// front of it; for a longer payload its minimal push comes directly.
pub proof fn lemma_mime_framing(mime: Seq<u8>, data: Seq<u8>)
    ensures
        envelope(mime, data).subrange(0, 7) == seq![OP_FALSE, OP_IF, 3u8, 0x6fu8, 0x72u8, 0x64u8, OP_PUSHBYTES_1],
        data.len() < 76 ==> envelope(mime, data)[7] == OP_PUSHBYTES_1 && envelope(mime, data).subrange(
            8,
            8 + push_encoding(mime).len() as int,
        ) == push_encoding(mime),
        data.len() >= 76 ==> envelope(mime, data).subrange(7, 7 + push_encoding(mime).len() as int)
            == push_encoding(mime),
{
    let e = envelope(mime, data);
    let head = seq![OP_FALSE, OP_IF] + push_encoding(ord_tag()) + seq![OP_PUSHBYTES_1];
    assert(head =~= seq![OP_FALSE, OP_IF, 3u8, 0x6fu8, 0x72u8, 0x64u8, OP_PUSHBYTES_1]);
    let k: int = 7 + mime_marker(data).len() as int;
    let pm = push_encoding(mime);
    let rest = seq![OP_FALSE] + push_encoding(data) + seq![OP_ENDIF];
    assert(e =~= head + mime_marker(data) + pm + rest);
    assert(e.subrange(0, 7) =~= head);
    assert(e.subrange(k, k + pm.len() as int) =~= pm);
}

/// Why an envelope could not be built.
#[derive(Debug, Clone, Copy, PartialEq, Eq, Structural)]
pub enum Error {
    /// The MIME type, of this many bytes, is too long for one push.
    MimeTooLarge(usize),
    /// The payload, of this many bytes, is too long for one push.
    DataTooLarge(usize),
}

/// What building the envelope for `mime` and `data` returns: the MIME type is
/// checked first, then the payload.
pub open spec fn envelope_result(mime: Seq<u8>, data: Seq<u8>, r: Result<Vec<u8>, Error>) -> bool {
    match r {
        Ok(s) => pushable(mime) && pushable(data) && s@ == envelope(mime, data),
        Err(Error::MimeTooLarge(n)) => !pushable(mime) && n == mime.len(),
        Err(Error::DataTooLarge(n)) => pushable(mime) && !pushable(data) && n == data.len(),
    }
}

/// Appends one opcode.
fn push_opcode(script: &mut Vec<u8>, op: u8)
    ensures
        final(script)@ == old(script)@.push(op),
{
    script.push(op);
}

/// Builds the inscription envelope script for a MIME type and a payload.
pub fn envelope_script(mime: &[u8], data: &[u8]) -> (r: Result<Vec<u8>, Error>)
    ensures
        envelope_result(mime@, data@, r),
{
    if !fits_push(mime) {
        return Err(Error::MimeTooLarge(mime.len()));
    }
    if !fits_push(data) {
        return Err(Error::DataTooLarge(data.len()));
    }
    let tag: Vec<u8> = vec![0x6f, 0x72, 0x64];
    assert(tag@ == ord_tag());
    let mut script: Vec<u8> = Vec::new();
    push_opcode(&mut script, OP_FALSE);
    push_opcode(&mut script, OP_IF);
    append_push(&mut script, tag.as_slice());
    push_opcode(&mut script, OP_PUSHBYTES_1);
    if data.len() < 76 {
        push_opcode(&mut script, OP_PUSHBYTES_1);
    }
    append_push(&mut script, mime);
    push_opcode(&mut script, OP_FALSE);
    append_push(&mut script, data);
    push_opcode(&mut script, OP_ENDIF);
    assert(script@ =~= envelope(mime@, data@));
    Ok(script)
}

} // verus!
