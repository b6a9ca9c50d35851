//! Trusted boundary to the jq-like selection engine.
//!
//! The engine is an external collaborator: it compiles a selection
//! expression, caches it, and evaluates it against one JSON document,
//! producing an ordered sequence of per-item results. Whether a selection
//! compiles depends on its text alone, so acceptance carries a name. The
//! results do not: the dialect includes filters that read the clock and
//! the process environment, so two evaluations of one pair may differ, and
//! everything built from the outcomes is verified for every value they
//! could take.

use vstd::prelude::*;
use crate::batch::SelectionOutcome;

verus! {

#[verifier::external_type_specification]
#[verifier::external_body]
pub struct ExJqSelection(grafbase_sdk::jq_selection::JqSelection);

/// Whether the engine accepts a selection expression: loading and
/// compiling run against a fixed set of definitions and depend on the
/// selection text alone, and a compiled selection is cached by its text,
/// so acceptance is a function of the text.
pub uninterp spec fn jq_accepts(selection: Seq<char>) -> bool;

/// Relies on JqSelection::new: a fresh engine with an empty cache of
/// compiled selections.
#[verifier::external_body]
pub(crate) fn jq_new() -> grafbase_sdk::jq_selection::JqSelection {
    grafbase_sdk::jq_selection::JqSelection::new()
}

/// Relies on JqSelection::select: it fails exactly when the selection does
/// not load or compile, which depends on the selection text alone; on
/// success it yields the engine's per-item results in evaluation order.
/// Nothing more is promised of the outcomes: the dialect has filters that
/// read the clock or the environment, so they are no function of the
/// arguments. Caveat: the dialect also has filters that exit the process
/// and selections whose result stream never ends, on which this call does
/// not return; the selections this extension receives come from the
/// schema's directives, not from subscribers' requests.
#[verifier::external_body]
pub(crate) fn jq_select(
    jq: &mut grafbase_sdk::jq_selection::JqSelection,
    selection: &str,
    doc: serde_json::Value,
) -> (r: Result<Vec<SelectionOutcome>, String>)
    ensures
        r is Ok <==> jq_accepts(selection@),
{
    match jq.select(selection, doc) {
        Ok(results) => Ok(
            results.map(
                |item| match item {
                    Ok(v) => SelectionOutcome::Value(v),
                    Err(e) => SelectionOutcome::Error(e.to_string()),
                },
            ).collect(),
        ),
        Err(e) => Err(e.to_string()),
    }
}

} // verus!
