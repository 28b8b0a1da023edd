use vstd::prelude::*;

verus! {

/// A query the consumer-facing surface sends to the orchestrator.
#[derive(Clone, Copy, PartialEq, Eq, Structural, Debug)]
pub enum EcobeeQuery {
    Status,
}

} // verus!
