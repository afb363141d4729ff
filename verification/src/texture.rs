//! Two-dimensional textures with immutable storage.
use vstd::prelude::*;
use crate::app::{
    lemma_done_within_history, lemma_followed_by_queuing, lemma_followed_by_transitive,
    AppContext, ContextView,
};
use crate::command::{Command, Reply};
use crate::error::ResourceError;
use crate::gl::{
    CLAMP_TO_EDGE, NEAREST, TEXTURE_2D, TEXTURE_MAG_FILTER, TEXTURE_MIN_FILTER, TEXTURE_WRAP_S,
    TEXTURE_WRAP_T,
};
use crate::pending::{
    all_neutral, disciplined, grants, lemma_finished_work_settles, lemma_granted_work_succeeds,
    lemma_settled_follows, quiet, yielding, Progress, Step,
};

verus! {

/// A texture on the GPU, owned by this value.
///
/// Every texture is sampled without filtering and clamped at its edges.
#[derive(Debug, PartialEq, Eq)]
pub struct Texture {
    /// The handle of the texture.
    pub id: u32,
    /// The format of its storage.
    pub format: u32,
    /// Its width in pixels.
    pub width: i32,
    /// Its height in pixels.
    pub height: i32,
    /// The resident handle to sample it by, where the driver has the
    /// bindless capability.
    pub handle: Option<u64>,
}

impl Texture {
    /// The texture of handle `id` with the given storage. With `bindless` it
    /// is sampled through a resident handle, which is `id` widened.
    pub open spec fn with_storage(
        id: u32,
        width: i32,
        height: i32,
        format: u32,
        bindless: bool,
    ) -> Texture {
        Texture {
            id,
            format,
            width,
            height,
            handle: if bindless {
                Some(id as u64)
            } else {
                None
            },
        }
    }

    /// The calls that make this texture: create it, give it storage of one
    /// level, fix its sampling, and, where it has a bindless handle, fetch
    /// the handle and make it resident. Once it is created, deleting it takes
    /// the work back.
    pub open spec fn setup(self) -> Seq<Step> {
        let sampled = seq![
            Step::creating(
                Command::CreateTexture { texture: self.id, target: TEXTURE_2D },
                Command::DeleteTexture { texture: self.id },
            ),
            Step::plain(
                Command::TextureStorage2d {
                    texture: self.id,
                    levels: 1,
                    format: self.format,
                    width: self.width,
                    height: self.height,
                },
            ),
            Step::plain(
                Command::TextureParameterI32 {
                    texture: self.id,
                    parameter: TEXTURE_MIN_FILTER,
                    value: NEAREST as i32,
                },
            ),
            Step::plain(
                Command::TextureParameterI32 {
                    texture: self.id,
                    parameter: TEXTURE_MAG_FILTER,
                    value: NEAREST as i32,
                },
            ),
            Step::plain(
                Command::TextureParameterI32 {
                    texture: self.id,
                    parameter: TEXTURE_WRAP_S,
                    value: CLAMP_TO_EDGE as i32,
                },
            ),
            Step::plain(
                Command::TextureParameterI32 {
                    texture: self.id,
                    parameter: TEXTURE_WRAP_T,
                    value: CLAMP_TO_EDGE as i32,
                },
            ),
        ];
        match self.handle {
            Some(handle) => sampled + seq![
                Step::plain(Command::GetTextureHandle { texture: self.id, handle }),
                Step::plain(Command::MakeTextureHandleResident { handle }),
            ],
            None => sampled,
        }
    }

    /// The plan that makes a texture accounts for the one object it makes.
    pub proof fn lemma_setup_disciplined(self)
        ensures
            disciplined(self.setup()),
    {
    }

    /// Taking back the plan that makes a texture leaves the viewport and the
    /// draw target as they are, and so does deleting the texture.
    pub proof fn lemma_setup_quiet(self)
        ensures
            quiet(self.setup()),
            all_neutral(self.discard()),
            all_neutral(Seq::<Command>::empty()),
    {
    }

    /// Without the bindless capability a texture is still made, and is made
    /// without a handle: its plan is the six calls that create it, give it
    /// storage and fix its sampling, and none of them fetches a handle or
    /// makes one resident.
    pub proof fn lemma_fallback_without_bindless(
        context: ContextView,
        width: i32,
        height: i32,
        format: u32,
    )
        requires
            !context.extensions.bindless,
            width > 0,
            height > 0,
            context.handles_left() >= 1,
        ensures
            Texture::planned(context, width, height, format) matches Ok(texture)
                && texture.handle.is_none() && texture.setup().len() == 6 && forall|i: int|
                0 <= i < 6 ==> !((#[trigger] texture.setup()[i]).command is GetTextureHandle) && !(
                texture.setup()[i].command is MakeTextureHandleResident),
    {
    }

    /// The texture that `context` would make with the given storage, or why
    /// it would make none: a size that is not positive is refused, and so is
    /// any texture once the handles have run out.
    pub open spec fn planned(context: ContextView, width: i32, height: i32, format: u32) -> Result<
        Texture,
        ResourceError,
    > {
        if width <= 0 || height <= 0 {
            Err(ResourceError::InvalidDimensions(width, height))
        } else if context.handles_left() < 1 {
            Err(ResourceError::OutOfHandles)
        } else {
            Ok(
                Texture::with_storage(
                    context.next,
                    width,
                    height,
                    format,
                    context.extensions.bindless,
                ),
            )
        }
    }

    /// Appends to `steps` the calls that make the texture of handle `id`,
    /// and returns that texture.
    pub(crate) fn stage(
        steps: &mut Vec<Step>,
        id: u32,
        width: i32,
        height: i32,
        format: u32,
        bindless: bool,
    ) -> (texture: Texture)
        ensures
            texture == Texture::with_storage(id, width, height, format, bindless),
            final(steps)@ == old(steps)@ + texture.setup(),
    {
        let handle = if bindless {
            Some(id as u64)
        } else {
            None
        };
        let texture = Texture { id, format, width, height, handle };
        let ghost before = steps@;
        steps.push(
            Step::creating(
                Command::CreateTexture { texture: id, target: TEXTURE_2D },
                Command::DeleteTexture { texture: id },
            ),
        );
        steps.push(
            Step::plain(Command::TextureStorage2d { texture: id, levels: 1, format, width, height }),
        );
        steps.push(
            Step::plain(
                Command::TextureParameterI32 {
                    texture: id,
                    parameter: TEXTURE_MIN_FILTER,
                    value: NEAREST as i32,
                },
            ),
        );
        steps.push(
            Step::plain(
                Command::TextureParameterI32 {
                    texture: id,
                    parameter: TEXTURE_MAG_FILTER,
                    value: NEAREST as i32,
                },
            ),
        );
        steps.push(
            Step::plain(
                Command::TextureParameterI32 {
                    texture: id,
                    parameter: TEXTURE_WRAP_S,
                    value: CLAMP_TO_EDGE as i32,
                },
            ),
        );
        steps.push(
            Step::plain(
                Command::TextureParameterI32 {
                    texture: id,
                    parameter: TEXTURE_WRAP_T,
                    value: CLAMP_TO_EDGE as i32,
                },
            ),
        );
        match handle {
            Some(handle) => {
                steps.push(Step::plain(Command::GetTextureHandle { texture: id, handle }));
                steps.push(Step::plain(Command::MakeTextureHandleResident { handle }));
            },
            None => {},
        }
        assert(steps@ =~= before + texture.setup());
        texture
    }

    /// Whether `progress` is the work of making a texture with the given
    /// storage when the context is `earlier`, and `planned` the context once
    /// the work is laid out.
    ///
    /// The work is [`Texture::setup`] of the texture that
    /// [`Texture::planned`] gives, and takes one handle. It queues `commit`
    /// when it succeeds. Where `planned` gives an error the work is done at
    /// once, with that error, and the context is as it was.
    pub open spec fn begins(
        earlier: ContextView,
        width: i32,
        height: i32,
        format: u32,
        commit: Seq<Command>,
        progress: Progress<Texture>,
        planned: ContextView,
    ) -> bool {
        match Texture::planned(earlier, width, height, format) {
            Ok(texture) => progress.starts(texture, texture.setup(), commit, Seq::empty())
                && planned == earlier.taking(1),
            Err(error) => progress == Progress::Done(Err::<Texture, ResourceError>(error))
                && planned == earlier,
        }
    }

    /// Starts the work of making a texture, which queues `commit` when it
    /// succeeds.
    fn start(
        context: &mut AppContext,
        width: i32,
        height: i32,
        format: u32,
        commit: Vec<Command>,
    ) -> (progress: Progress<Texture>)
        ensures
            Texture::begins(
                old(context)@,
                width,
                height,
                format,
                commit@,
                progress,
                final(context)@,
            ),
    {
        if width <= 0 || height <= 0 {
            return Progress::Done(Err(ResourceError::InvalidDimensions(width, height)));
        }
        let id = match context.reserve(1) {
            Some(id) => id,
            None => {
                return Progress::Done(Err(ResourceError::OutOfHandles));
            },
        };
        let mut steps: Vec<Step> = Vec::new();
        let bindless = context.extensions().bindless;
        let texture = Texture::stage(&mut steps, id, width, height, format, bindless);
        assert(steps@ =~= texture.setup());
        Progress::begin(context, texture, steps, commit, Vec::new())
    }

    /// Starts making a texture of `width` by `height` pixels in `format`,
    /// and leaves the calls to whoever carries the work on.
    pub fn begin(context: &mut AppContext, width: i32, height: i32, format: u32) -> (progress:
        Progress<Texture>)
        ensures
            Texture::begins(
                old(context)@,
                width,
                height,
                format,
                Seq::empty(),
                progress,
                final(context)@,
            ),
    {
        Texture::start(context, width, height, format, Vec::new())
    }

    /// Makes a texture of `width` by `height` pixels in `format`, with
    /// `execute` to carry out the calls.
    ///
    /// The work is that of [`Texture::begin`], carried through as
    /// [`Progress::settle`] does. A size that is not positive, and a context
    /// without a handle left, give their error before any call is made. A
    /// driver that refuses nothing gives the texture that
    /// [`Texture::planned`] gives.
    pub fn new<F: Fn(&Command) -> Reply>(
        context: &mut AppContext,
        execute: &F,
        width: i32,
        height: i32,
        format: u32,
    ) -> (outcome: Result<Texture, ResourceError>)
        requires
            forall|command: &Command| call_requires(*execute, (command,)),
        ensures
            exists|progress: Progress<Texture>, planned: ContextView|
                {
                    &&& Texture::begins(
                        old(context)@,
                        width,
                        height,
                        format,
                        Seq::empty(),
                        progress,
                        planned,
                    )
                    &&& #[trigger] progress.settles_as(
                        *execute,
                        planned,
                        final(context)@,
                        outcome,
                    )
                },
            match Texture::planned(old(context)@, width, height, format) {
                Ok(texture) => grants(*execute, texture.setup()) ==> outcome == Ok::<
                    Texture,
                    ResourceError,
                >(texture),
                Err(error) => outcome == Err::<Texture, ResourceError>(error),
            },
    {
        let progress = Texture::begin(context, width, height, format);
        let ghost planned = context@;
        let outcome = progress.settle(context, execute);
        proof {
            if progress is Done {
                lemma_finished_work_settles(progress, *execute, planned, context@, outcome);
            } else if grants(*execute, progress.plan()) {
                lemma_granted_work_succeeds(progress, *execute, planned, context@, outcome);
            }
        }
        outcome
    }

    /// The call that deletes this texture, which is queued once the texture
    /// that takes its place is made.
    pub open spec fn discard(self) -> Seq<Command> {
        seq![Command::DeleteTexture { texture: self.id }]
    }

    /// Starts making the texture that takes this one's place at a new size,
    /// in the same format, and leaves the calls to whoever carries the work
    /// on.
    ///
    /// This texture stays as it is until the new one is complete; it is
    /// deleted by the call that is queued when the work succeeds. When the
    /// work fails, this texture is untouched and still usable.
    pub fn begin_resize(&self, context: &mut AppContext, width: i32, height: i32) -> (progress:
        Progress<Texture>)
        ensures
            Texture::begins(
                old(context)@,
                width,
                height,
                self.format,
                self.discard(),
                progress,
                final(context)@,
            ),
    {
        let mut commit: Vec<Command> = Vec::new();
        commit.push(Command::DeleteTexture { texture: self.id });
        assert(commit@ =~= self.discard());
        Texture::start(context, width, height, self.format, commit)
    }

    /// Gives this texture a new size, with `execute` to carry out the calls.
    ///
    /// The work is that of [`Texture::begin_resize`], carried through as
    /// [`Progress::settle`] does. When it succeeds, this is the new texture,
    /// and the old one is deleted. When it fails, this texture is as it was.
    /// Either way the viewport and the draw target are where they were. A
    /// driver that refuses nothing gives the texture that
    /// [`Texture::planned`] gives, so that resizing twice to one size leaves
    /// the size and the format that resizing once leaves.
    pub fn resize<F: Fn(&Command) -> Reply>(
        &mut self,
        context: &mut AppContext,
        execute: &F,
        width: i32,
        height: i32,
    ) -> (outcome: Result<(), ResourceError>)
        requires
            forall|command: &Command| call_requires(*execute, (command,)),
        ensures
            exists|progress: Progress<Texture>, planned: ContextView|
                {
                    &&& Texture::begins(
                        old(context)@,
                        width,
                        height,
                        old(self).format,
                        old(self).discard(),
                        progress,
                        planned,
                    )
                    &&& #[trigger] progress.settles_as(
                        *execute,
                        planned,
                        final(context)@,
                        yielding(outcome, *final(self)),
                    )
                },
            outcome.is_err() ==> *final(self) == *old(self),
            old(context)@.followed_by(final(context)@),
            final(context)@.state == old(context)@.state,
            match Texture::planned(old(context)@, width, height, old(self).format) {
                Ok(texture) => grants(*execute, texture.setup()) ==> outcome.is_ok() && *final(self) == texture,
                Err(error) => outcome == Err::<(), ResourceError>(error),
            },
    {
        let ghost earlier = context@;
        let progress = self.begin_resize(context, width, height);
        let ghost planned = context@;
        let settled = progress.settle(context, execute);
        proof {
            if progress is Done {
                lemma_finished_work_settles(progress, *execute, planned, context@, settled);
            } else if grants(*execute, progress.plan()) {
                lemma_granted_work_succeeds(progress, *execute, planned, context@, settled);
            }
            lemma_done_within_history(*old(context));
            self.lemma_setup_quiet();
            if progress is More {
                progress->More_0.value().lemma_setup_quiet();
            }
            lemma_settled_follows(progress, *execute, planned, context@, settled);
            lemma_followed_by_queuing(earlier, Seq::empty());
            lemma_followed_by_transitive(earlier, planned, context@);
        }
        match settled {
            Ok(texture) => {
                *self = texture;
                assert(progress.settles_as(*execute, planned, context@, yielding(Ok(()), *self)));
                Ok(())
            },
            Err(error) => {
                assert(progress.settles_as(
                    *execute,
                    planned,
                    context@,
                    yielding(Err(error), *self),
                ));
                Err(error)
            },
        }
    }

    /// Queues the calls that bind this texture to the texture unit `unit`.
    pub fn activate_texture(&self, context: &mut AppContext, unit: u32)
        ensures
            final(context)@ == old(context)@.submit(Command::ActiveTexture { unit }).submit(
                Command::BindTexture { target: TEXTURE_2D, texture: Some(self.id) },
            ),
    {
        context.submit(Command::ActiveTexture { unit });
        context.submit(Command::BindTexture { target: TEXTURE_2D, texture: Some(self.id) });
    }

    /// Queues the call that deletes this texture, and gives the value up.
    pub fn delete(self, context: &mut AppContext)
        ensures
            final(context)@ == old(context)@.submit(Command::DeleteTexture { texture: self.id }),
    {
        context.submit(Command::DeleteTexture { texture: self.id });
    }
}

} // verus!
