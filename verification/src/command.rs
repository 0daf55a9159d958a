//! Mapping the free-text command field onto the closed set of supported
//! operations.
use vstd::prelude::*;
use crate::text::str_eq;

verus! {

/// The closed set of operations the gateway supports.
#[derive(Copy, Clone, Debug, PartialEq, Eq, Structural)]
pub enum OperationKind {
    Paraphrase,
    Summarize,
    Translate,
}

/// The operation a raw command string denotes, if any; matching is
/// case-sensitive and exact.
pub open spec fn spec_command_op(c: Seq<char>) -> Option<OperationKind> {
    if c == "paraphrase"@ {
        Some(OperationKind::Paraphrase)
    } else if c == "summarize"@ {
        Some(OperationKind::Summarize)
    } else if c == "translate"@ {
        Some(OperationKind::Translate)
    } else {
        None
    }
}

/// Maps the raw command string to its operation; unknown commands yield
/// `None` and are rejected by the caller.
pub fn parse_command(c: &str) -> (r: Option<OperationKind>)
    ensures
        r == spec_command_op(c@),
{
    if str_eq(c, "paraphrase") {
        Some(OperationKind::Paraphrase)
    } else if str_eq(c, "summarize") {
        Some(OperationKind::Summarize)
    } else if str_eq(c, "translate") {
        Some(OperationKind::Translate)
    } else {
        None
    }
}

} // verus!
