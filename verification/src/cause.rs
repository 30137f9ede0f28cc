//! What a failure stems from.
use vstd::prelude::*;

use crate::fault::Fault;
use crate::lifecycle_steps::LifecycleStep;

verus! {

/// Whether messages, outermost first, end with those of a cause.
pub open spec fn stems_from(messages: Seq<Seq<char>>, cause: Seq<Seq<char>>) -> bool {
    &&& messages.len() >= cause.len()
    &&& forall|i: int|
        0 <= i < cause.len() ==> messages[messages.len() - cause.len() + i] == #[trigger] cause[i]
}

/// Whether a procedure ends with a failure that stems from a cause.
pub open spec fn fails_because<Stage, Outcome>(
    step: LifecycleStep<Stage, Outcome>,
    cause: Fault,
) -> bool {
    step matches LifecycleStep::Finished(Err(fault)) && stems_from(fault@, cause@)
}

} // verus!
