//! The subscription stream: a cancellable, logically infinite sequence of
//! filtered event batches.
//!
//! Each pull generates one fresh event, serializes it, evaluates the stored
//! selection against it, and yields the batch. Per-item selection errors
//! stay in the batch; a selection the engine refuses is fatal and closes
//! the stream for every later pull. Pacing between pulls is the caller's
//! duty: the caller suspends for the fixed inter-event interval before each
//! pull.

use vstd::prelude::*;
use vstd::string::*;
use crate::batch::{
    apply_outcomes, batch_matches, from_some_outcomes, has_prefix, item_error_prefix,
    item_matches, Batch, BatchItem, SelectionOutcome,
};
use crate::bytes::ascii_bytes;
use crate::doc::{event_doc_bytes, event_document, lemma_ident_bytes_json_safe, valid_event_doc};
use crate::engine::{jq_accepts, jq_new, jq_select};
use crate::event::generate_event;
use crate::json::parse_document;
use crate::random::fresh_rng;

verus! {

/// The message of a pull on a stream that a fatal error has closed.
pub open spec fn closed_message() -> Seq<char> {
    "subscription closed after a fatal error"@
}

/// The message prefix of a pull that failed in the selection engine:
/// fatal for the whole subscription.
pub open spec fn filter_error_prefix() -> Seq<char> {
    "Failed to filter events: "@
}

/// One subscription's stream. It exclusively owns its selection engine
/// handle and its random generator state for its lifetime.
pub struct BankEventStream {
    jq: grafbase_sdk::jq_selection::JqSelection,
    rng: rand::rngs::ThreadRng,
    selection: String,
    failed: bool,
}

impl BankEventStream {
    /// The stored selection expression.
    pub closed spec fn selection_text(self) -> Seq<char> {
        self.selection@
    }

    /// Whether the stream can still emit: false once a fatal error closed it.
    pub closed spec fn live(self) -> bool {
        !self.failed
    }

    /// Creates a stream over a selection expression, with a fresh engine and
    /// a fresh random generator of its own.
    pub fn new(selection: String) -> (s: Self)
        ensures
            s.live(),
            s.selection_text() == selection@,
    {
        BankEventStream { jq: jq_new(), rng: fresh_rng(), selection, failed: false }
    }

    /// One pull: generates an event, filters it through the selection, and
    /// yields the batch.
    ///
    /// On a live stream the pull succeeds exactly when the engine accepts
    /// the stored selection; the batch then mirrors the engine's outcomes,
    /// item by item, so a per-item error never ends the stream. A
    /// selection the engine refuses closes the stream with the filter
    /// error; every later pull fails with the closed message.
    pub fn pull(&mut self) -> (r: Result<Batch, String>)
        ensures
            final(self).selection_text() == old(self).selection_text(),
            !old(self).live() ==> !final(self).live() && (r matches Err(m) && m@
                == closed_message()),
            old(self).live() ==> (r is Ok <==> jq_accepts(old(self).selection_text())),
            r is Ok ==> old(self).live() && final(self).live(),
            r is Ok ==> from_some_outcomes(r->Ok_0.items@),
            r is Ok ==> forall|i: int|
                0 <= i < r->Ok_0.items@.len() ==> ((#[trigger] r->Ok_0.items@[i]) matches
                    BatchItem::Failure(t) ==> has_prefix(t@, item_error_prefix())),
            r matches Err(m) ==> (old(self).live() ==> !final(self).live() && has_prefix(
                m@,
                filter_error_prefix(),
            )),
    {
        if self.failed {
            return Err("subscription closed after a fatal error".to_owned());
        }
        let event = generate_event(&mut self.rng);
        let doc = event_document(&event);
        proof {
            lemma_ident_bytes_json_safe(event.credit@);
            lemma_ident_bytes_json_safe(event.debit@);
            assert(valid_event_doc(doc@)) by {
                assert(doc@ == event_doc_bytes(
                    ascii_bytes(event.credit@),
                    ascii_bytes(event.debit@),
                    event.amount as nat,
                ));
            }
        }
        let value = match parse_document(doc.as_slice()) {
            Ok(v) => v,
            Err(detail) => {
                // Cannot arise: an event document is valid JSON and parses.
                proof {
                    assert(false);
                }
                return Err(detail);
            },
        };
        let outcomes = match jq_select(&mut self.jq, self.selection.as_str(), value) {
            Ok(outs) => outs,
            Err(detail) => {
                self.failed = true;
                let mut msg: String = "Failed to filter events: ".to_owned();
                msg.append(detail.as_str());
                proof {
                    assert(msg@.subrange(0, filter_error_prefix().len() as int)
                        =~= filter_error_prefix());
                }
                return Err(msg);
            },
        };
        let ghost outs_snapshot = outcomes@;
        let batch = apply_outcomes(outcomes);
        proof {
            assert(from_some_outcomes(batch.items@)) by {
                assert(batch_matches(outs_snapshot, batch.items@));
            }
            assert forall|i: int|
                0 <= i < batch.items@.len() implies ((#[trigger] batch.items@[i]) matches
                BatchItem::Failure(t) ==> has_prefix(t@, item_error_prefix())) by {
                assert(item_matches(outs_snapshot[i], batch.items@[i]));
                if batch.items@[i] is Failure {
                    let t = batch.items@[i]->Failure_0;
                    assert(t@.subrange(0, item_error_prefix().len() as int)
                        =~= item_error_prefix());
                }
            }
        }
        Ok(batch)
    }
}

} // verus!
