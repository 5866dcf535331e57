//! The check on handing push constants to a pipeline.

use vstd::prelude::*;
use crate::descriptor::pipeline_layout::PipelineLayoutPushConstantsCompatible;

verus! {

/// Why push constants cannot be used with a pipeline.
#[derive(Clone, Copy, Debug, PartialEq, Eq, Structural)]
pub enum CheckPushConstantsValidityError {
    /// The push constants are incompatible with the pipeline layout.
    IncompatiblePushConstants,
}

impl CheckPushConstantsValidityError {
    /// A sentence that describes the error.
    pub fn description(&self) -> (s: &'static str)
        ensures
            s@ == "the push constants are incompatible with the pipeline layout"@,
    {
        "the push constants are incompatible with the pipeline layout"
    }
}

/// The verdict on push constants of which the layout has said whether they
/// are compatible with it. There is nothing between a yes and a no.
pub fn push_constants_verdict(compatible: bool) -> (r: Result<(), CheckPushConstantsValidityError>)
    ensures
        compatible ==> r == Ok::<(), CheckPushConstantsValidityError>(()),
        !compatible ==> r == Err::<(), _>(
            CheckPushConstantsValidityError::IncompatiblePushConstants,
        ),
{
    if !compatible {
        return Err(CheckPushConstantsValidityError::IncompatiblePushConstants);
    }
    Ok(())
}

/// Checks whether push constants are compatible with the pipeline.
pub fn check_push_constants_validity<Pl, Pc>(pipeline: &Pl, push_constants: &Pc) -> (r: Result<
    (),
    CheckPushConstantsValidityError,
>) where Pl: ?Sized + PipelineLayoutPushConstantsCompatible<Pc>, Pc: ?Sized
    ensures
        pipeline.compatible(push_constants) ==> r == Ok::<(), CheckPushConstantsValidityError>(
            (),
        ),
        !pipeline.compatible(push_constants) ==> r == Err::<(), _>(
            CheckPushConstantsValidityError::IncompatiblePushConstants,
        ),
{
    push_constants_verdict(pipeline.is_compatible(push_constants))
}

} // verus!
