//! Serialization of a domain event to the JSON document handed to the
//! selection engine.
//!
//! The document has one fixed shape: an object with the credit and debit
//! identifiers as strings and the amount as a decimal number. The
//! identifiers are JSON-safe by the event invariant, so no escaping is
//! needed.

use vstd::prelude::*;
use vstd::string::*;
use crate::bytes::{ascii_bytes, push_bytes};
use crate::event::{ident_wf, json_safe_char, BankEvent};

verus! {

/// The decimal digits of a number, most significant first.
pub open spec fn dec_bytes_of(n: nat) -> Seq<u8>
    decreases n,
{
    if n < 10 {
        seq![(48 + n) as u8]
    } else {
        dec_bytes_of(n / 10) + seq![(48 + (n % 10)) as u8]
    }
}

/// Appends the decimal digits of `n` to `out`.
pub fn push_dec_u32(out: &mut Vec<u8>, n: u32)
    ensures
        final(out)@ == old(out)@ + dec_bytes_of(n as nat),
    decreases n,
{
    if n >= 10 {
        push_dec_u32(out, n / 10);
    }
    out.push((48 + (n % 10)) as u8);
    proof {
        assert(out@ =~= old(out)@ + dec_bytes_of(n as nat));
    }
}

/// The bytes `{"credit":"`, in ASCII codes.
pub open spec fn frame_head() -> Seq<u8> {
    seq![123u8, 34u8, 99u8, 114u8, 101u8, 100u8, 105u8, 116u8, 34u8, 58u8, 34u8]
}

/// The bytes `","debit":"`, in ASCII codes.
pub open spec fn frame_debit() -> Seq<u8> {
    seq![34u8, 44u8, 34u8, 100u8, 101u8, 98u8, 105u8, 116u8, 34u8, 58u8, 34u8]
}

/// The bytes `","amount":`, in ASCII codes.
pub open spec fn frame_amount() -> Seq<u8> {
    seq![34u8, 44u8, 34u8, 97u8, 109u8, 111u8, 117u8, 110u8, 116u8, 34u8, 58u8]
}

/// The document of an event with the given identifier bytes and amount:
/// `{"credit":"` then the credit bytes, `","debit":"` then the debit bytes,
/// `","amount":` then the decimal digits, then the closing brace.
pub open spec fn event_doc_bytes(credit: Seq<u8>, debit: Seq<u8>, amount: nat) -> Seq<u8> {
    frame_head() + credit + frame_debit() + debit + frame_amount() + dec_bytes_of(amount)
        + seq![125u8]
}

/// A byte that may stand in a JSON string without escaping: printable
/// ASCII other than the quote and the backslash.
pub open spec fn json_safe_byte(b: u8) -> bool {
    b != 34 && b != 92 && 32 <= b && b < 127
}

/// A byte sequence of JSON-safe bytes only.
pub open spec fn json_safe_bytes(s: Seq<u8>) -> bool {
    forall|i: int| 0 <= i < s.len() ==> #[trigger] json_safe_byte(s[i])
}

/// A byte sequence that is the document of some event with JSON-safe
/// identifiers and an amount the serializer can take (it renders a 32-bit
/// number). Every such document is valid JSON whose number a parser can
/// hold: the framing is fixed, the identifier bytes need no escaping, and
/// the amount is at most ten plain decimal digits.
pub open spec fn valid_event_doc(s: Seq<u8>) -> bool {
    exists|credit: Seq<u8>, debit: Seq<u8>, amount: nat|
        s == #[trigger] event_doc_bytes(credit, debit, amount) && json_safe_bytes(credit)
            && json_safe_bytes(debit) && amount <= u32::MAX
}

/// The bytes of JSON-safe identifier text are JSON-safe.
pub proof fn lemma_ident_bytes_json_safe(s: Seq<char>)
    requires
        ident_wf(s),
    ensures
        json_safe_bytes(ascii_bytes(s)),
{
    assert forall|i: int| 0 <= i < ascii_bytes(s).len() implies #[trigger] json_safe_byte(
        ascii_bytes(s)[i],
    ) by {
        assert(json_safe_char(s[i]));
    }
}

fn push_frame_head(out: &mut Vec<u8>)
    ensures
        final(out)@ == old(out)@ + frame_head(),
{
    out.push(123u8);
    out.push(34u8);
    out.push(99u8);
    out.push(114u8);
    out.push(101u8);
    out.push(100u8);
    out.push(105u8);
    out.push(116u8);
    out.push(34u8);
    out.push(58u8);
    out.push(34u8);
    proof {
        assert(out@ =~= old(out)@ + frame_head());
    }
}

fn push_frame_debit(out: &mut Vec<u8>)
    ensures
        final(out)@ == old(out)@ + frame_debit(),
{
    out.push(34u8);
    out.push(44u8);
    out.push(34u8);
    out.push(100u8);
    out.push(101u8);
    out.push(98u8);
    out.push(105u8);
    out.push(116u8);
    out.push(34u8);
    out.push(58u8);
    out.push(34u8);
    proof {
        assert(out@ =~= old(out)@ + frame_debit());
    }
}

fn push_frame_amount(out: &mut Vec<u8>)
    ensures
        final(out)@ == old(out)@ + frame_amount(),
{
    out.push(34u8);
    out.push(44u8);
    out.push(34u8);
    out.push(97u8);
    out.push(109u8);
    out.push(111u8);
    out.push(117u8);
    out.push(110u8);
    out.push(116u8);
    out.push(34u8);
    out.push(58u8);
    proof {
        assert(out@ =~= old(out)@ + frame_amount());
    }
}

fn push_ident(out: &mut Vec<u8>, s: &str)
    requires
        ident_wf(s@),
    ensures
        final(out)@ == old(out)@ + ascii_bytes(s@),
{
    proof {
        assert forall|i: int| 0 <= i < s@.len() implies '\0' <= #[trigger] s@[i] <= '\u{7f}' by {
            assert(json_safe_char(s@[i]));
        }
        assert(vstd::string::is_ascii(s));
        vstd::string::is_ascii_spec_bytes(s);
        assert(s.spec_bytes() =~= ascii_bytes(s@));
    }
    let b = s.as_bytes();
    push_bytes(out, b);
}

/// Serializes an event to its JSON document.
pub fn event_document(e: &BankEvent) -> (out: Vec<u8>)
    requires
        e.wf(),
    ensures
        out@ == event_doc_bytes(ascii_bytes(e.credit@), ascii_bytes(e.debit@), e.amount as nat),
{
    let mut out: Vec<u8> = Vec::new();
    push_frame_head(&mut out);
    push_ident(&mut out, e.credit.as_str());
    push_frame_debit(&mut out);
    push_ident(&mut out, e.debit.as_str());
    push_frame_amount(&mut out);
    push_dec_u32(&mut out, e.amount as u32);
    out.push(125u8);
    proof {
        assert(out@ =~= event_doc_bytes(
            ascii_bytes(e.credit@),
            ascii_bytes(e.debit@),
            e.amount as nat,
        ));
    }
    out
}

} // verus!
