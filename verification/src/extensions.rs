//! The entry points that the renderer looks up in the driver by name.
use vstd::prelude::*;
use crate::app::AppContext;
use crate::command::{Command, UniformLocation};
use crate::error::InitError;

verus! {

/// How many entry points are looked up.
pub const ENTRY_POINTS: usize = 11;

/// How many of them, counted from the first, the renderer cannot do without.
/// They make separable programs and program pipelines. The remaining three
/// make up the bindless-texture capability.
pub const REQUIRED_ENTRY_POINTS: usize = 8;

/// The name of the entry point at `index`, in the order in which they are
/// looked up.
pub open spec fn entry_point(index: int) -> &'static str {
    if index == 0 {
        "glCreateShaderProgramv"
    } else if index == 1 {
        "glCreateProgramPipelines"
    } else if index == 2 {
        "glUseProgramStages"
    } else if index == 3 {
        "glValidateProgramPipeline"
    } else if index == 4 {
        "glGetProgramPipelineiv"
    } else if index == 5 {
        "glGetProgramPipelineInfoLog"
    } else if index == 6 {
        "glBindProgramPipeline"
    } else if index == 7 {
        "glDeleteProgramPipelines"
    } else if index == 8 {
        "glGetTextureHandleARB"
    } else if index == 9 {
        "glMakeTextureHandleResidentARB"
    } else {
        "glProgramUniform1ui64ARB"
    }
}

/// Computes [`entry_point`].
pub fn entry_point_name(index: usize) -> (name: &'static str)
    ensures
        name == entry_point(index as int),
{
    if index == 0 {
        "glCreateShaderProgramv"
    } else if index == 1 {
        "glCreateProgramPipelines"
    } else if index == 2 {
        "glUseProgramStages"
    } else if index == 3 {
        "glValidateProgramPipeline"
    } else if index == 4 {
        "glGetProgramPipelineiv"
    } else if index == 5 {
        "glGetProgramPipelineInfoLog"
    } else if index == 6 {
        "glBindProgramPipeline"
    } else if index == 7 {
        "glDeleteProgramPipelines"
    } else if index == 8 {
        "glGetTextureHandleARB"
    } else if index == 9 {
        "glMakeTextureHandleResidentARB"
    } else {
        "glProgramUniform1ui64ARB"
    }
}

/// Whether the look-up of entry point `index` is recorded in `resolved`, and
/// found it.
pub open spec fn resolved_at(resolved: Seq<bool>, index: int) -> bool {
    0 <= index < resolved.len() && resolved[index]
}

/// Whether every entry point of the bindless-texture capability was found.
pub open spec fn bindless_resolved(resolved: Seq<bool>) -> bool {
    forall|i: int| REQUIRED_ENTRY_POINTS <= i < ENTRY_POINTS ==> resolved_at(resolved, i)
}

/// Whether `outcome` is what loading gives when the look-ups ended as
/// `resolved` says.
///
/// Loading succeeds exactly when every required entry point was found. The
/// bindless capability is then usable if all three of its entry points were
/// found, and not at all otherwise. A failure names the first required entry
/// point that is missing.
pub open spec fn loads_as(resolved: Seq<bool>, outcome: Result<Extensions, InitError>) -> bool {
    match outcome {
        Ok(extensions) => {
            &&& forall|i: int| 0 <= i < REQUIRED_ENTRY_POINTS ==> resolved_at(resolved, i)
            &&& extensions.bindless == bindless_resolved(resolved)
        },
        Err(InitError::MissingExtension(name)) => exists|i: int|
            {
                &&& 0 <= i < REQUIRED_ENTRY_POINTS
                &&& !resolved_at(resolved, i)
                &&& forall|j: int| 0 <= j < i ==> resolved_at(resolved, j)
                &&& name@ == #[trigger] entry_point(i)@
            },
        Err(_) => false,
    }
}

/// A driver without the bindless capability is good enough: when every
/// required entry point is found and one of the others is not, loading
/// succeeds, and the capability is off.
pub proof fn lemma_missing_capability_is_not_fatal(
    resolved: Seq<bool>,
    outcome: Result<Extensions, InitError>,
)
    requires
        forall|i: int| 0 <= i < REQUIRED_ENTRY_POINTS ==> resolved_at(resolved, i),
        exists|i: int| REQUIRED_ENTRY_POINTS <= i < ENTRY_POINTS && !resolved_at(resolved, i),
        loads_as(resolved, outcome),
    ensures
        outcome == Ok::<Extensions, InitError>(Extensions { bindless: false }),
{
}

/// A driver without a required entry point is not good enough: loading
/// fails, and the error names the first such entry point in the order of
/// look-up.
pub proof fn lemma_missing_requirement_is_fatal(
    resolved: Seq<bool>,
    outcome: Result<Extensions, InitError>,
    missing: int,
)
    requires
        0 <= missing < REQUIRED_ENTRY_POINTS,
        !resolved_at(resolved, missing),
        forall|j: int| 0 <= j < missing ==> resolved_at(resolved, j),
        loads_as(resolved, outcome),
    ensures
        outcome matches Err(InitError::MissingExtension(name)) && name@ == entry_point(missing)@,
{
    match outcome {
        Ok(_) => {},
        Err(InitError::MissingExtension(name)) => {
            let i = choose|i: int|
                {
                    &&& 0 <= i < REQUIRED_ENTRY_POINTS
                    &&& !resolved_at(resolved, i)
                    &&& forall|j: int| 0 <= j < i ==> resolved_at(resolved, j)
                    &&& name@ == #[trigger] entry_point(i)@
                };
            assert(i == missing) by {
                if i < missing {
                    assert(resolved_at(resolved, i));
                } else if missing < i {
                    assert(resolved_at(resolved, missing));
                }
            }
        },
        Err(_) => {},
    }
}

/// The optional capabilities of the driver that were found at start-up.
#[derive(Clone, Copy, Debug, PartialEq, Eq, Structural)]
pub struct Extensions {
    /// Textures can be sampled through resident 64-bit handles.
    pub bindless: bool,
}

impl Extensions {
    /// Queues the call that fetches the bindless handle of `texture`, and
    /// returns the handle: `texture` widened. Without the bindless capability
    /// nothing is queued and there is no handle.
    pub fn get_texture_handle(&self, context: &mut AppContext, texture: u32) -> (handle: Option<
        u64,
    >)
        ensures
            self.bindless ==> handle == Some(texture as u64) && final(context)@ == old(
                context,
            )@.submit(Command::GetTextureHandle { texture, handle: texture as u64 }),
            !self.bindless ==> handle.is_none() && final(context)@ == old(context)@,
    {
        if self.bindless {
            let handle = texture as u64;
            context.submit(Command::GetTextureHandle { texture, handle });
            Some(handle)
        } else {
            None
        }
    }

    /// Queues the call that makes `handle` resident, and says whether it
    /// did: without the bindless capability nothing is queued.
    pub fn make_resident(&self, context: &mut AppContext, handle: u64) -> (queued: bool)
        ensures
            queued == self.bindless,
            self.bindless ==> final(context)@ == old(context)@.submit(
                Command::MakeTextureHandleResident { handle },
            ),
            !self.bindless ==> final(context)@ == old(context)@,
    {
        if self.bindless {
            context.submit(Command::MakeTextureHandleResident { handle });
        }
        self.bindless
    }

    /// Queues the call that sets the sampler uniform at `location` of
    /// `program` to the texture behind `handle`, and says whether it did:
    /// without the bindless capability nothing is queued.
    pub fn set_bindless_uniform(
        &self,
        context: &mut AppContext,
        program: u32,
        location: UniformLocation,
        handle: u64,
    ) -> (queued: bool)
        ensures
            queued == self.bindless,
            self.bindless ==> final(context)@ == old(context)@.submit(
                Command::ProgramUniformHandle { program, location: location.slot, handle },
            ),
            !self.bindless ==> final(context)@ == old(context)@,
    {
        if self.bindless {
            context.submit(
                Command::ProgramUniformHandle { program, location: location.slot, handle },
            );
        }
        self.bindless
    }

    /// Decides from the recorded look-ups whether the renderer can start.
    ///
    /// `resolved[i]` says whether entry point `i` was found; one that
    /// `resolved` is too short to hold counts as missing.
    pub fn from_resolved(resolved: &[bool]) -> (outcome: Result<Extensions, InitError>)
        ensures
            loads_as(resolved@, outcome),
    {
        let mut index: usize = 0;
        while index < REQUIRED_ENTRY_POINTS
            invariant
                0 <= index <= REQUIRED_ENTRY_POINTS,
                forall|j: int| 0 <= j < index ==> resolved_at(resolved@, j),
            decreases REQUIRED_ENTRY_POINTS - index,
        {
            if !(index < resolved.len() && resolved[index]) {
                let name = entry_point_name(index).to_owned();
                assert(name@ == entry_point(index as int)@);
                return Err(InitError::MissingExtension(name));
            }
            index += 1;
        }
        let mut bindless = true;
        while index < ENTRY_POINTS
            invariant
                REQUIRED_ENTRY_POINTS <= index <= ENTRY_POINTS,
                bindless == (forall|i: int|
                    REQUIRED_ENTRY_POINTS <= i < index ==> resolved_at(resolved@, i)),
            decreases ENTRY_POINTS - index,
        {
            let found = index < resolved.len() && resolved[index];
            assert(found == resolved_at(resolved@, index as int));
            bindless = bindless && found;
            index += 1;
        }
        Ok(Extensions { bindless })
    }

    /// Looks every entry point up through `get_proc_address`, in order, and
    /// decides as [`Extensions::from_resolved`] does.
    ///
    /// `get_proc_address` takes an entry point's name and says whether the
    /// driver has it.
    pub fn load_extensions(get_proc_address: impl Fn(&str) -> bool) -> (outcome: Result<
        Extensions,
        InitError,
    >)
        requires
            forall|name: &str| call_requires(get_proc_address, (name,)),
        ensures
            exists|resolved: Seq<bool>|
                {
                    &&& resolved.len() == ENTRY_POINTS
                    &&& forall|i: int|
                        0 <= i < ENTRY_POINTS ==> call_ensures(
                            get_proc_address,
                            (entry_point(i),),
                            #[trigger] resolved[i],
                        )
                    &&& loads_as(resolved, outcome)
                },
    {
        let mut resolved: Vec<bool> = Vec::new();
        let mut index: usize = 0;
        while index < ENTRY_POINTS
            invariant
                0 <= index <= ENTRY_POINTS,
                resolved@.len() == index,
                forall|name: &str| call_requires(get_proc_address, (name,)),
                forall|i: int|
                    0 <= i < index ==> call_ensures(
                        get_proc_address,
                        (entry_point(i),),
                        #[trigger] resolved@[i],
                    ),
            decreases ENTRY_POINTS - index,
        {
            let found = get_proc_address(entry_point_name(index));
            resolved.push(found);
            index += 1;
        }
        Extensions::from_resolved(resolved.as_slice())
    }
}

} // verus!
