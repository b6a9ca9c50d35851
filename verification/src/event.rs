//! The domain event: a simulated bank transfer, freshly generated on every
//! tick of a subscription stream.

use vstd::prelude::*;
use crate::random::{new_v4_uuid, rng_range_i32, uuid_hyphenated, uuid_text_wf};
use crate::{AMOUNT_MAX, AMOUNT_MIN};

verus! {

/// A character that may stand in a JSON string without escaping: printable
/// ASCII other than the quote and the backslash.
pub open spec fn json_safe_char(c: char) -> bool {
    (c as int) != 34 && (c as int) != 92 && 32 <= (c as int) && (c as int) < 127
}

/// A transfer party identifier as the serializer accepts it: every character
/// JSON-safe.
pub open spec fn ident_wf(s: Seq<char>) -> bool {
    forall|i: int| 0 <= i < s.len() ==> #[trigger] json_safe_char(s[i])
}

/// Hyphenated identifier text is JSON-safe: hyphens and lowercase
/// hexadecimal digits need no escaping.
pub proof fn lemma_uuid_text_ident_wf(s: Seq<char>)
    requires
        uuid_text_wf(s),
    ensures
        ident_wf(s),
{
    assert forall|i: int| 0 <= i < s.len() implies #[trigger] json_safe_char(s[i]) by {
        assert(s[i] == '-' || ('0' <= s[i] <= '9') || ('a' <= s[i] <= 'f'));
    }
}

/// One simulated transfer. Created fresh on every tick, never mutated,
/// discarded after filtering.
pub struct BankEvent {
    /// Identifier of the credited party.
    pub credit: String,
    /// Identifier of the debited party.
    pub debit: String,
    /// Transferred amount, drawn uniformly from the fixed inclusive range.
    pub amount: i32,
}

impl BankEvent {
    /// The event invariant: the amount lies in the fixed range and both
    /// identifiers are JSON-safe text.
    pub open spec fn wf(self) -> bool {
        &&& AMOUNT_MIN <= self.amount <= AMOUNT_MAX
        &&& ident_wf(self.credit@)
        &&& ident_wf(self.debit@)
    }

    /// Builds an event from its parts.
    pub fn new(credit: String, debit: String, amount: i32) -> (e: BankEvent)
        requires
            AMOUNT_MIN <= amount <= AMOUNT_MAX,
            ident_wf(credit@),
            ident_wf(debit@),
        ensures
            e.wf(),
            e.credit@ == credit@,
            e.debit@ == debit@,
            e.amount == amount,
    {
        BankEvent { credit, debit, amount }
    }
}

/// Generates one event: an amount drawn from the fixed range and two fresh
/// random party identifiers, each in canonical hyphenated text.
pub fn generate_event(rng: &mut rand::rngs::ThreadRng) -> (e: BankEvent)
    ensures
        e.wf(),
        uuid_text_wf(e.credit@),
        uuid_text_wf(e.debit@),
{
    let amount = rng_range_i32(rng, AMOUNT_MIN, AMOUNT_MAX);
    let credit_id = new_v4_uuid();
    let credit = uuid_hyphenated(&credit_id);
    let debit_id = new_v4_uuid();
    let debit = uuid_hyphenated(&debit_id);
    proof {
        lemma_uuid_text_ident_wf(credit@);
        lemma_uuid_text_ident_wf(debit@);
    }
    BankEvent { credit, debit, amount }
}

} // verus!
