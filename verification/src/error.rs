//! The ways in which start-up, a resource or a frame can fail.
use vstd::prelude::*;

verus! {

/// Start-up failed. Nothing can be drawn after any of these.
#[derive(Clone, Debug, PartialEq, Eq)]
pub enum InitError {
    /// The window offers no pixel format that the renderer can draw into.
    SurfaceUnavailable,
    /// The driver refused to make a context.
    ContextCreationFailed,
    /// The driver lacks an entry point that the renderer cannot do without.
    MissingExtension(String),
}

/// A GPU object could not be made or remade. Whatever the attempt had
/// allocated has been released again.
#[derive(Clone, Debug, PartialEq, Eq)]
pub enum ResourceError {
    /// The driver made no object; the text is its reason.
    AllocationFailed(String),
    /// Every handle that a context can hand out is taken.
    OutOfHandles,
    /// A width or a height that is not positive.
    InvalidDimensions(i32, i32),
    /// More vertices than a draw call can count.
    TooManyVertices(usize),
    /// The framebuffer's completeness check gave this status.
    IncompleteFramebuffer(u32),
    /// The shader of this stage did not compile; the text is the driver's log.
    CompileFailed(u32, String),
    /// The compiled stages did not link into a program.
    LinkFailed(String),
    /// The pipeline did not validate.
    PipelineInvalid(String),
    /// The program has no active uniform of this name.
    UniformNotFound(String),
}

/// A frame could not be finished.
#[derive(Clone, Debug, PartialEq, Eq)]
pub enum FrameError {
    /// A hook of the application gave up, with this reason.
    Handler(String),
    /// An effect could not rebuild one of its resources.
    Resource(ResourceError),
    /// The finished frame could not be shown.
    Present(String),
}

impl FrameError {
    /// What the outcome of work on a resource is as the outcome of a frame
    /// or a resize.
    pub open spec fn spec_of(outcome: Result<(), ResourceError>) -> Result<(), FrameError> {
        match outcome {
            Ok(()) => Ok(()),
            Err(error) => Err(FrameError::Resource(error)),
        }
    }

    /// Computes [`FrameError::spec_of`].
    #[verifier::when_used_as_spec(spec_of)]
    pub fn of(outcome: Result<(), ResourceError>) -> (framed: Result<(), FrameError>)
        ensures
            framed == FrameError::spec_of(outcome),
    {
        match outcome {
            Ok(()) => Ok(()),
            Err(error) => Err(FrameError::Resource(error)),
        }
    }
}

} // verus!
