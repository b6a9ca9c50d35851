//! The output batch of one subscription pull.
//!
//! The selection engine turns one event document into a finite ordered
//! sequence of outcomes, each a JSON value or a per-item error. The batch
//! keeps them in order: values pass through, errors become output-level
//! messages with a fixed prefix. An error never aborts the batch.

use vstd::prelude::*;
use vstd::string::*;

verus! {

/// One outcome of the selection engine for one document.
pub enum SelectionOutcome {
    /// A selected JSON value.
    Value(serde_json::Value),
    /// A per-item evaluation error, already rendered as text.
    Error(String),
}

/// One item of an output batch.
pub enum BatchItem {
    /// A value to hand to the subscriber.
    Data(serde_json::Value),
    /// An output-level error attached to this position of the batch.
    Failure(String),
}

/// The batch one pull yields: values and errors, in the engine's order.
pub struct Batch {
    /// The items, in evaluation order.
    pub items: Vec<BatchItem>,
}

/// Whether `p` is a prefix of `s`.
pub open spec fn has_prefix(s: Seq<char>, p: Seq<char>) -> bool {
    p.len() <= s.len() && s.subrange(0, p.len() as int) == p
}

/// The message prefix of a per-item error.
pub open spec fn item_error_prefix() -> Seq<char> {
    "Failed to process event: "@
}

/// How one batch item corresponds to one engine outcome: a value passes
/// through, an error keeps its position and gains the fixed prefix.
pub open spec fn item_matches(o: SelectionOutcome, it: BatchItem) -> bool {
    match o {
        SelectionOutcome::Value(v) => it matches BatchItem::Data(w) && w == v,
        SelectionOutcome::Error(m) => it matches BatchItem::Failure(t) && t@ == item_error_prefix()
            + m@,
    }
}

/// How a whole batch corresponds to the engine's outcome sequence:
/// item by item, in order, none dropped and none added.
pub open spec fn batch_matches(outs: Seq<SelectionOutcome>, items: Seq<BatchItem>) -> bool {
    &&& items.len() == outs.len()
    &&& forall|i: int| 0 <= i < outs.len() ==> #[trigger] item_matches(outs[i], items[i])
}

/// A batch that mirrors some outcome sequence of the engine, item by item:
/// values passed through, errors prefixed, order and count kept.
pub open spec fn from_some_outcomes(items: Seq<BatchItem>) -> bool {
    exists|outs: Seq<SelectionOutcome>| batch_matches(outs, items)
}

/// Builds the output batch from the engine's outcomes. Total: a per-item
/// error becomes an item of the batch, never a failure of the pull.
pub fn apply_outcomes(outs: Vec<SelectionOutcome>) -> (batch: Batch)
    ensures
        batch_matches(outs@, batch.items@),
{
    let ghost all = outs@;
    let mut rest = outs;
    let mut items: Vec<BatchItem> = Vec::new();
    while rest.len() > 0
        invariant
            items@.len() + rest@.len() == all.len(),
            rest@ == all.subrange(items@.len() as int, all.len() as int),
            forall|i: int| 0 <= i < items@.len() ==> #[trigger] item_matches(all[i], items@[i]),
        decreases rest@.len(),
    {
        let o = rest.remove(0);
        proof {
            assert(o == all[items@.len() as int]);
            assert(rest@ =~= all.subrange(items@.len() as int + 1, all.len() as int));
        }
        match o {
            SelectionOutcome::Value(v) => {
                items.push(BatchItem::Data(v));
            },
            SelectionOutcome::Error(m) => {
                let mut msg: String = "Failed to process event: ".to_owned();
                msg.append(m.as_str());
                items.push(BatchItem::Failure(msg));
            },
        }
    }
    proof {
        assert(all.subrange(items@.len() as int, all.len() as int).len() == 0);
    }
    Batch { items }
}

/// Per-item error isolation: in a batch that mirrors the engine's outcomes,
/// an error among them becomes an output-level message at its own position,
/// every value around it passes through unchanged, and the batch is
/// complete — the error aborts neither the batch nor the stream.
pub proof fn lemma_error_isolation(outs: Seq<SelectionOutcome>, items: Seq<BatchItem>)
    requires
        batch_matches(outs, items),
    ensures
        items.len() == outs.len(),
        forall|i: int|
            0 <= i < outs.len() && outs[i] is Error ==> ((#[trigger] items[i]) matches
                BatchItem::Failure(t) && has_prefix(t@, item_error_prefix())),
        forall|i: int|
            0 <= i < outs.len() && outs[i] is Value ==> ((#[trigger] items[i]) matches
                BatchItem::Data(v) && v == outs[i]->Value_0),
{
    assert forall|i: int| 0 <= i < outs.len() && outs[i] is Error implies ((#[trigger] items[i])
        matches BatchItem::Failure(t) && has_prefix(t@, item_error_prefix())) by {
        assert(item_matches(outs[i], items[i]));
        let t = items[i]->Failure_0;
        assert(t@.subrange(0, item_error_prefix().len() as int) =~= item_error_prefix());
    }
    assert forall|i: int| 0 <= i < outs.len() && outs[i] is Value implies ((#[trigger] items[i])
        matches BatchItem::Data(v) && v == outs[i]->Value_0) by {
        assert(item_matches(outs[i], items[i]));
    }
}

} // verus!
