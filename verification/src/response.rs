//! The HTTP response, byte for byte.
//!
//! Every client receives the same fixed response: a status line, a
//! `Content-Type` line, a `Content-Disposition` line carrying the file
//! name, a `Content-Length` line carrying the payload's byte length in
//! decimal, a blank line, and then the payload itself, unchanged. Header
//! lines end with a bare newline, not the standard pair: the wire format
//! is kept exactly as existing clients expect it.
//!
//! [`spec_response`] pins the full byte sequence down;
//! [`build_response`] produces exactly that sequence.
//! [`lemma_response_serves_payload`] states that the response carries the
//! cached payload untouched, and [`lemma_content_length_exact`] that the
//! `Content-Length` digits denote exactly the payload's length.

use crate::decimal::digits_value;
use crate::decimal::spec_decimal;
use crate::decimal::u64_to_decimal;
use vstd::prelude::*;

verus! {

/// The status line `HTTP/1.1 200 OK` with its newline.
pub open spec fn status_line() -> Seq<u8> {
    seq![72u8, 84u8, 84u8, 80u8, 47u8, 49u8, 46u8, 49u8, 32u8, 50u8, 48u8, 48u8, 32u8, 79u8, 75u8, 10u8]
}

fn push_status_line(out: &mut Vec<u8>)
    ensures
        final(out)@ == old(out)@ + status_line(),
{
    out.push(72);
    out.push(84);
    out.push(84);
    out.push(80);
    out.push(47);
    out.push(49);
    out.push(46);
    out.push(49);
    out.push(32);
    out.push(50);
    out.push(48);
    out.push(48);
    out.push(32);
    out.push(79);
    out.push(75);
    out.push(10);
    proof {
        assert(out@ =~= old(out)@ + status_line());
    }
}

/// The fixed `Content-Type` header line with its newline.
pub open spec fn content_type_line() -> Seq<u8> {
    seq![67u8, 111u8, 110u8, 116u8, 101u8, 110u8, 116u8, 45u8, 84u8, 121u8, 112u8, 101u8, 58u8, 32u8, 97u8, 112u8, 112u8, 108u8, 105u8, 99u8, 97u8, 116u8, 105u8, 111u8, 110u8, 47u8, 111u8, 99u8, 116u8, 101u8, 116u8, 45u8, 115u8, 116u8, 114u8, 101u8, 97u8, 109u8, 59u8, 32u8, 99u8, 104u8, 97u8, 114u8, 115u8, 101u8, 116u8, 61u8, 117u8, 116u8, 102u8, 45u8, 56u8, 10u8]
}

fn push_content_type_line(out: &mut Vec<u8>)
    ensures
        final(out)@ == old(out)@ + content_type_line(),
{
    out.push(67);
    out.push(111);
    out.push(110);
    out.push(116);
    out.push(101);
    out.push(110);
    out.push(116);
    out.push(45);
    out.push(84);
    out.push(121);
    out.push(112);
    out.push(101);
    out.push(58);
    out.push(32);
    out.push(97);
    out.push(112);
    out.push(112);
    out.push(108);
    out.push(105);
    out.push(99);
    out.push(97);
    out.push(116);
    out.push(105);
    out.push(111);
    out.push(110);
    out.push(47);
    out.push(111);
    out.push(99);
    out.push(116);
    out.push(101);
    out.push(116);
    out.push(45);
    out.push(115);
    out.push(116);
    out.push(114);
    out.push(101);
    out.push(97);
    out.push(109);
    out.push(59);
    out.push(32);
    out.push(99);
    out.push(104);
    out.push(97);
    out.push(114);
    out.push(115);
    out.push(101);
    out.push(116);
    out.push(61);
    out.push(117);
    out.push(116);
    out.push(102);
    out.push(45);
    out.push(56);
    out.push(10);
    proof {
        assert(out@ =~= old(out)@ + content_type_line());
    }
}

/// The `Content-Disposition` header up to the opening quote of the name.
pub open spec fn disposition_prefix() -> Seq<u8> {
    seq![67u8, 111u8, 110u8, 116u8, 101u8, 110u8, 116u8, 45u8, 68u8, 105u8, 115u8, 112u8, 111u8, 115u8, 105u8, 116u8, 105u8, 111u8, 110u8, 58u8, 32u8, 97u8, 116u8, 116u8, 97u8, 99u8, 104u8, 109u8, 101u8, 110u8, 116u8, 59u8, 32u8, 102u8, 105u8, 108u8, 101u8, 110u8, 97u8, 109u8, 101u8, 61u8, 34u8]
}

fn push_disposition_prefix(out: &mut Vec<u8>)
    ensures
        final(out)@ == old(out)@ + disposition_prefix(),
{
    out.push(67);
    out.push(111);
    out.push(110);
    out.push(116);
    out.push(101);
    out.push(110);
    out.push(116);
    out.push(45);
    out.push(68);
    out.push(105);
    out.push(115);
    out.push(112);
    out.push(111);
    out.push(115);
    out.push(105);
    out.push(116);
    out.push(105);
    out.push(111);
    out.push(110);
    out.push(58);
    out.push(32);
    out.push(97);
    out.push(116);
    out.push(116);
    out.push(97);
    out.push(99);
    out.push(104);
    out.push(109);
    out.push(101);
    out.push(110);
    out.push(116);
    out.push(59);
    out.push(32);
    out.push(102);
    out.push(105);
    out.push(108);
    out.push(101);
    out.push(110);
    out.push(97);
    out.push(109);
    out.push(101);
    out.push(61);
    out.push(34);
    proof {
        assert(out@ =~= old(out)@ + disposition_prefix());
    }
}

/// The closing quote of the file name and the line's newline.
pub open spec fn disposition_suffix() -> Seq<u8> {
    seq![34u8, 10u8]
}

fn push_disposition_suffix(out: &mut Vec<u8>)
    ensures
        final(out)@ == old(out)@ + disposition_suffix(),
{
    out.push(34);
    out.push(10);
    proof {
        assert(out@ =~= old(out)@ + disposition_suffix());
    }
}

/// The `Content-Length` header up to the digits.
pub open spec fn length_prefix() -> Seq<u8> {
    seq![67u8, 111u8, 110u8, 116u8, 101u8, 110u8, 116u8, 45u8, 76u8, 101u8, 110u8, 103u8, 116u8, 104u8, 58u8, 32u8]
}

fn push_length_prefix(out: &mut Vec<u8>)
    ensures
        final(out)@ == old(out)@ + length_prefix(),
{
    out.push(67);
    out.push(111);
    out.push(110);
    out.push(116);
    out.push(101);
    out.push(110);
    out.push(116);
    out.push(45);
    out.push(76);
    out.push(101);
    out.push(110);
    out.push(103);
    out.push(116);
    out.push(104);
    out.push(58);
    out.push(32);
    proof {
        assert(out@ =~= old(out)@ + length_prefix());
    }
}

/// The newline ending the `Content-Length` line and the blank line before the payload.
pub open spec fn head_end() -> Seq<u8> {
    seq![10u8, 10u8]
}

fn push_head_end(out: &mut Vec<u8>)
    ensures
        final(out)@ == old(out)@ + head_end(),
{
    out.push(10);
    out.push(10);
    proof {
        assert(out@ =~= old(out)@ + head_end());
    }
}

/// Append a copy of `src` to `out`.
fn push_all(out: &mut Vec<u8>, src: &Vec<u8>)
    ensures
        final(out)@ == old(out)@ + src@,
{
    let mut k: usize = 0;
    while k < src.len()
        invariant
            k <= src@.len(),
            out@ == old(out)@ + src@.subrange(0, k as int),
        decreases src@.len() - k,
    {
        let b = src[k];
        out.push(b);
        proof {
            assert(old(out)@ + src@.subrange(0, k + 1 as int) =~= (old(out)@ + src@.subrange(
                0,
                k as int,
            )).push(src@[k as int]));
        }
        k += 1;
    }
    proof {
        assert(src@.subrange(0, src@.len() as int) =~= src@);
    }
}

/// The head of the response: all header lines for a file called `name`
/// whose contents are `len` bytes long, ending with the blank line.
pub open spec fn response_head(name: Seq<u8>, len: nat) -> Seq<u8> {
    status_line() + content_type_line() + disposition_prefix() + name + disposition_suffix()
        + length_prefix() + spec_decimal(len) + head_end()
}

/// The complete response for a file called `name` with contents
/// `payload`: the head followed by the payload bytes, unchanged.
pub open spec fn spec_response(name: Seq<u8>, payload: Seq<u8>) -> Seq<u8> {
    response_head(name, payload.len()) + payload
}

/// Build the full response that is written to every accepted client.
pub fn build_response(name: &Vec<u8>, payload: &Vec<u8>) -> (response: Vec<u8>)
    ensures
        response@ == spec_response(name@, payload@),
{
    let mut response: Vec<u8> = Vec::new();
    push_status_line(&mut response);
    push_content_type_line(&mut response);
    push_disposition_prefix(&mut response);
    push_all(&mut response, name);
    push_disposition_suffix(&mut response);
    push_length_prefix(&mut response);
    let digits = u64_to_decimal(payload.len() as u64);
    push_all(&mut response, &digits);
    push_head_end(&mut response);
    push_all(&mut response, payload);
    proof {
        assert(response@ =~= spec_response(name@, payload@));
    }
    response
}

/// The bytes served to a client end with the cached payload, byte for
/// byte: the response is the head followed by exactly the payload, for
/// every file name and every payload, empty and binary contents included.
pub proof fn lemma_response_serves_payload(name: Seq<u8>, payload: Seq<u8>)
    ensures
        spec_response(name, payload).len() == response_head(name, payload.len()).len()
            + payload.len(),
        spec_response(name, payload).subrange(
            response_head(name, payload.len()).len() as int,
            spec_response(name, payload).len() as int,
        ) == payload,
{
    assert(spec_response(name, payload).subrange(
        response_head(name, payload.len()).len() as int,
        spec_response(name, payload).len() as int,
    ) =~= payload);
}

/// The `Content-Length` value stands right after the length prefix in
/// the head; it is a non-empty run of decimal digit characters, and it
/// denotes exactly the payload's byte length.
pub proof fn lemma_content_length_exact(name: Seq<u8>, payload: Seq<u8>)
    ensures
        ({
            let head = response_head(name, payload.len());
            let start = status_line().len() + content_type_line().len()
                + disposition_prefix().len() + name.len() + disposition_suffix().len()
                + length_prefix().len();
            let digits = spec_decimal(payload.len());
            &&& head.subrange(start as int, start as int + digits.len() as int) == digits
            &&& digits.len() >= 1
            &&& forall|i: int| 0 <= i < digits.len() ==> 48 <= #[trigger] digits[i] <= 57
            &&& digits_value(digits) == payload.len()
        }),
{
    let head = response_head(name, payload.len());
    let start = status_line().len() + content_type_line().len() + disposition_prefix().len()
        + name.len() + disposition_suffix().len() + length_prefix().len();
    let digits = spec_decimal(payload.len());
    crate::decimal::lemma_decimal_shape(payload.len());
    crate::decimal::lemma_decimal_value(payload.len());
    assert(head.subrange(start as int, start as int + digits.len() as int) =~= digits);
}

} // verus!
