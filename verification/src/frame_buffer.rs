//! Off-screen render targets: a framebuffer with a colour and a depth texture.
use vstd::prelude::*;
use crate::app::{
    lemma_done_within_history, lemma_followed_by_queuing, lemma_followed_by_transitive, replay,
    AppContext, ContextView,
};
use crate::command::{Command, GpuState, Reply, Viewport};
use crate::error::ResourceError;
use crate::gl::{
    COLOR_ATTACHMENT0, DEPTH_ATTACHMENT, DEPTH_COMPONENT24, FRAMEBUFFER, FRAMEBUFFER_COMPLETE,
    FRAMEBUFFER_INCOMPLETE_ATTACHMENT, FRAMEBUFFER_INCOMPLETE_DRAW_BUFFER,
    FRAMEBUFFER_INCOMPLETE_LAYER_TARGETS, FRAMEBUFFER_INCOMPLETE_MISSING_ATTACHMENT,
    FRAMEBUFFER_INCOMPLETE_MULTISAMPLE, FRAMEBUFFER_INCOMPLETE_READ_BUFFER, FRAMEBUFFER_UNDEFINED,
    FRAMEBUFFER_UNSUPPORTED, RGBA8,
};
use crate::pending::{
    all_neutral, answers, disciplined, grants, lemma_disciplined_concat,
    lemma_finished_work_settles, lemma_granted_work_succeeds, lemma_quiet_concat,
    lemma_settled_follows, logged, quiet, verdict, verdict_at, yielding, Check, Progress, Step,
};
use crate::texture::Texture;

verus! {

/// An off-screen render target, owned by this value together with its two
/// textures. One exists only once the driver has found it complete.
#[derive(Debug, PartialEq, Eq)]
pub struct FrameBuffer {
    /// The handle of the framebuffer.
    pub id: u32,
    /// The width of both textures, in pixels.
    pub width: i32,
    /// The height of both textures, in pixels.
    pub height: i32,
    /// The colour texture, eight bits to each of four channels.
    pub texture: Texture,
    /// The depth texture, of 24 bits.
    pub depth_texture: Texture,
}

/// What a framebuffer's status code says, in words.
pub open spec fn status_text(status: u32) -> &'static str {
    if status == FRAMEBUFFER_COMPLETE {
        "Framebuffer complete"
    } else if status == FRAMEBUFFER_UNDEFINED {
        "Framebuffer undefined"
    } else if status == FRAMEBUFFER_INCOMPLETE_ATTACHMENT {
        "Incomplete attachment"
    } else if status == FRAMEBUFFER_INCOMPLETE_MISSING_ATTACHMENT {
        "Incomplete attachment"
    } else if status == FRAMEBUFFER_INCOMPLETE_DRAW_BUFFER {
        "Incomplete draw buffer"
    } else if status == FRAMEBUFFER_INCOMPLETE_READ_BUFFER {
        "Incomplete read buffer"
    } else if status == FRAMEBUFFER_UNSUPPORTED {
        "Framebuffer unsupported"
    } else if status == FRAMEBUFFER_INCOMPLETE_MULTISAMPLE {
        "Incomplete multisample"
    } else if status == FRAMEBUFFER_INCOMPLETE_LAYER_TARGETS {
        "Incomplete layer targets"
    } else {
        "Unknown framebuffer error"
    }
}

impl FrameBuffer {
    /// The framebuffer of handle `id` whose textures have the two handles
    /// after it.
    pub open spec fn with_size(id: u32, width: i32, height: i32, bindless: bool) -> FrameBuffer {
        FrameBuffer {
            id,
            width,
            height,
            texture: Texture::with_storage((id + 1) as u32, width, height, RGBA8, bindless),
            depth_texture: Texture::with_storage(
                (id + 2) as u32,
                width,
                height,
                DEPTH_COMPONENT24,
                bindless,
            ),
        }
    }

    /// This framebuffer with two new textures of another size, which have
    /// the handles `id` and the one after it.
    pub open spec fn with_textures(self, id: u32, width: i32, height: i32, bindless: bool)
        -> FrameBuffer {
        FrameBuffer {
            id: self.id,
            width,
            height,
            texture: Texture::with_storage(id, width, height, RGBA8, bindless),
            depth_texture: Texture::with_storage(
                (id + 1) as u32,
                width,
                height,
                DEPTH_COMPONENT24,
                bindless,
            ),
        }
    }

    /// The call that attaches the colour texture `texture` to this
    /// framebuffer.
    pub open spec fn attach_color(self, texture: u32) -> Command {
        Command::NamedFramebufferTexture {
            framebuffer: self.id,
            attachment: COLOR_ATTACHMENT0,
            texture,
            level: 0,
        }
    }

    /// The call that attaches the depth texture `texture` to this
    /// framebuffer.
    pub open spec fn attach_depth(self, texture: u32) -> Command {
        Command::NamedFramebufferTexture {
            framebuffer: self.id,
            attachment: DEPTH_ATTACHMENT,
            texture,
            level: 0,
        }
    }

    /// The step that asks the driver whether this framebuffer is complete,
    /// and fails unless it is.
    pub open spec fn completeness_check(self) -> Step {
        Step::checked(
            Command::CheckNamedFramebufferStatus { framebuffer: self.id, target: FRAMEBUFFER },
            Check::Complete,
        )
    }

    /// The calls that make this framebuffer: create it, make the colour
    /// texture and then the depth texture, attach both, and check that the
    /// result is complete.
    pub open spec fn setup(self) -> Seq<Step> {
        seq![
            Step::creating(
                Command::CreateFramebuffer { framebuffer: self.id },
                Command::DeleteFramebuffer { framebuffer: self.id },
            ),
        ] + self.texture.setup() + self.depth_texture.setup() + seq![
            Step::plain(self.attach_color(self.texture.id)),
            Step::plain(self.attach_depth(self.depth_texture.id)),
            self.completeness_check(),
        ]
    }

    /// The calls that give `self` the textures of `next` in place of its
    /// own: make the two new textures, attach them, and check that the
    /// framebuffer is complete. Taking an attachment back attaches the old
    /// texture again.
    pub open spec fn refit(self, next: FrameBuffer) -> Seq<Step> {
        next.texture.setup() + next.depth_texture.setup() + seq![
            Step::reversible(
                self.attach_color(next.texture.id),
                self.attach_color(self.texture.id),
            ),
            Step::reversible(
                self.attach_depth(next.depth_texture.id),
                self.attach_depth(self.depth_texture.id),
            ),
            self.completeness_check(),
        ]
    }

    /// The plan that makes a framebuffer accounts for the three objects it
    /// makes, and so does the plan that gives it new textures for the two.
    pub proof fn lemma_plans_disciplined(self, next: FrameBuffer)
        ensures
            disciplined(self.setup()),
            disciplined(self.refit(next)),
    {
        self.texture.lemma_setup_disciplined();
        self.depth_texture.lemma_setup_disciplined();
        next.texture.lemma_setup_disciplined();
        next.depth_texture.lemma_setup_disciplined();
        let head = seq![
            Step::creating(
                Command::CreateFramebuffer { framebuffer: self.id },
                Command::DeleteFramebuffer { framebuffer: self.id },
            ),
        ];
        let tail = seq![
            Step::plain(self.attach_color(self.texture.id)),
            Step::plain(self.attach_depth(self.depth_texture.id)),
            self.completeness_check(),
        ];
        let refit_tail = seq![
            Step::reversible(
                self.attach_color(next.texture.id),
                self.attach_color(self.texture.id),
            ),
            Step::reversible(
                self.attach_depth(next.depth_texture.id),
                self.attach_depth(self.depth_texture.id),
            ),
            self.completeness_check(),
        ];
        assert(disciplined(head));
        assert(disciplined(tail));
        assert(disciplined(refit_tail));
        lemma_disciplined_concat(head, self.texture.setup());
        lemma_disciplined_concat(head + self.texture.setup(), self.depth_texture.setup());
        lemma_disciplined_concat(
            head + self.texture.setup() + self.depth_texture.setup(),
            tail,
        );
        lemma_disciplined_concat(next.texture.setup(), next.depth_texture.setup());
        lemma_disciplined_concat(next.texture.setup() + next.depth_texture.setup(), refit_tail);
    }

    /// Taking back the plan that gives this framebuffer the textures of
    /// `next` leaves the viewport and the draw target as they are, and so
    /// does deleting the old textures.
    pub proof fn lemma_plans_quiet(self, next: FrameBuffer)
        ensures
            quiet(self.refit(next)),
            all_neutral(self.discard()),
            all_neutral(Seq::<Command>::empty()),
    {
        next.texture.lemma_setup_quiet();
        next.depth_texture.lemma_setup_quiet();
        let tail = seq![
            Step::reversible(
                self.attach_color(next.texture.id),
                self.attach_color(self.texture.id),
            ),
            Step::reversible(
                self.attach_depth(next.depth_texture.id),
                self.attach_depth(self.depth_texture.id),
            ),
            self.completeness_check(),
        ];
        assert(quiet(tail));
        lemma_quiet_concat(next.texture.setup(), next.depth_texture.setup());
        lemma_quiet_concat(next.texture.setup() + next.depth_texture.setup(), tail);
    }

    /// Only a complete framebuffer is handed over: the last step of making
    /// one, and of giving one new textures, is the completeness check, and
    /// no answer passes that check but the status of a complete framebuffer.
    pub proof fn lemma_checked_for_completeness(
        self,
        next: FrameBuffer,
        reply: Reply,
        log: String,
    )
        ensures
            self.setup().last() == self.completeness_check(),
            self.refit(next).last() == self.completeness_check(),
            verdict(self.completeness_check().check, reply, log).is_none() <==> reply
                == Reply::Status(FRAMEBUFFER_COMPLETE),
    {
    }

    /// A driver that refuses nothing of the plan that makes this framebuffer
    /// finds the framebuffer complete: whatever it answers to the
    /// completeness check is the status of a complete framebuffer.
    pub proof fn lemma_granted_target_is_complete<F: Fn(&Command) -> Reply>(
        self,
        execute: F,
        reply: Reply,
    )
        requires
            grants(execute, self.setup()),
            call_ensures(execute, (&self.completeness_check().command,), reply),
        ensures
            reply == Reply::Status(FRAMEBUFFER_COMPLETE),
    {
        let plan = self.setup();
        let last = plan.len() - 1;
        let log: String = arbitrary();
        assert(plan[last] == self.completeness_check());
        assert(verdict(plan[last].check, reply, log).is_none());
        self.lemma_checked_for_completeness(self, reply, log);
    }

    /// A framebuffer that has been made, or resized, has been found complete
    /// by the driver: when the work of making `self`, or of giving `self`
    /// the textures of `next`, comes to a framebuffer, the driver's last
    /// answer was the status of a complete framebuffer.
    pub proof fn lemma_made_only_when_complete(
        self,
        next: FrameBuffer,
        progress: Progress<FrameBuffer>,
        replies: Seq<Reply>,
        earlier: ContextView,
        later: ContextView,
        made: FrameBuffer,
    )
        requires
            progress matches Progress::More(pending) && pending.position() == 0 && (pending.plan()
                == self.setup() || pending.plan() == self.refit(next)),
            progress.comes_to(replies, earlier, later, Ok(made)),
        ensures
            replies.len() > 0,
            replies.last() == Reply::Status(FRAMEBUFFER_COMPLETE),
    {
        let pending = progress->More_0;
        let plan = pending.plan();
        let last = replies.len() - 1;
        self.lemma_checked_for_completeness(
            next,
            replies[last],
            logged(pending.log(), replies.take(last)),
        );
        assert(plan.last() == self.completeness_check());
        assert(verdict_at(plan, 0, pending.log(), replies, last).is_none());
    }

    /// Resizing is idempotent: a framebuffer resized to a size, and resized
    /// to that size once more, reports the size, the handle and the formats
    /// that it reported after the first resize, and has passed the same
    /// completeness check.
    pub proof fn lemma_resize_idempotent(
        self,
        first: ContextView,
        second: ContextView,
        width: i32,
        height: i32,
    )
        requires
            self.resized(first, width, height).is_ok(),
            self.resized(first, width, height).unwrap().resized(second, width, height).is_ok(),
        ensures
            ({
                let once = self.resized(first, width, height).unwrap();
                let twice = once.resized(second, width, height).unwrap();
                &&& twice.id == once.id
                &&& twice.width == once.width == width
                &&& twice.height == once.height == height
                &&& twice.texture.width == once.texture.width
                &&& twice.texture.height == once.texture.height
                &&& twice.texture.format == once.texture.format
                &&& twice.depth_texture.width == once.depth_texture.width
                &&& twice.depth_texture.height == once.depth_texture.height
                &&& twice.depth_texture.format == once.depth_texture.format
                &&& once.refit(twice).last() == self.refit(once).last()
            }),
    {
    }

    /// The framebuffer that `context` would make at the given size, or why
    /// it would make none: a size that is not positive is refused, and so is
    /// any framebuffer when fewer than three handles are left.
    pub open spec fn planned(context: ContextView, width: i32, height: i32) -> Result<
        FrameBuffer,
        ResourceError,
    > {
        if width <= 0 || height <= 0 {
            Err(ResourceError::InvalidDimensions(width, height))
        } else if context.handles_left() < 3 {
            Err(ResourceError::OutOfHandles)
        } else {
            Ok(FrameBuffer::with_size(context.next, width, height, context.extensions.bindless))
        }
    }

    /// The framebuffer that takes this one's place at the given size, or why
    /// there is none: a size that is not positive is refused, and so is any
    /// resize when fewer than two handles are left.
    pub open spec fn resized(self, context: ContextView, width: i32, height: i32) -> Result<
        FrameBuffer,
        ResourceError,
    > {
        if width <= 0 || height <= 0 {
            Err(ResourceError::InvalidDimensions(width, height))
        } else if context.handles_left() < 2 {
            Err(ResourceError::OutOfHandles)
        } else {
            Ok(self.with_textures(context.next, width, height, context.extensions.bindless))
        }
    }

    /// Appends to `steps` the calls that make the framebuffer of handle `id`,
    /// whose textures take the two handles after it, and returns that
    /// framebuffer.
    pub(crate) fn stage(
        steps: &mut Vec<Step>,
        id: u32,
        width: i32,
        height: i32,
        bindless: bool,
    ) -> (frame_buffer: FrameBuffer)
        requires
            id <= u32::MAX - 2,
        ensures
            frame_buffer == FrameBuffer::with_size(id, width, height, bindless),
            final(steps)@ == old(steps)@ + frame_buffer.setup(),
    {
        let ghost before = steps@;
        steps.push(
            Step::creating(
                Command::CreateFramebuffer { framebuffer: id },
                Command::DeleteFramebuffer { framebuffer: id },
            ),
        );
        let texture = Texture::stage(steps, id + 1, width, height, RGBA8, bindless);
        let depth_texture = Texture::stage(
            steps,
            id + 2,
            width,
            height,
            DEPTH_COMPONENT24,
            bindless,
        );
        let frame_buffer = FrameBuffer { id, width, height, texture, depth_texture };
        steps.push(
            Step::plain(
                Command::NamedFramebufferTexture {
                    framebuffer: id,
                    attachment: COLOR_ATTACHMENT0,
                    texture: frame_buffer.texture.id,
                    level: 0,
                },
            ),
        );
        steps.push(
            Step::plain(
                Command::NamedFramebufferTexture {
                    framebuffer: id,
                    attachment: DEPTH_ATTACHMENT,
                    texture: frame_buffer.depth_texture.id,
                    level: 0,
                },
            ),
        );
        steps.push(
            Step::checked(
                Command::CheckNamedFramebufferStatus { framebuffer: id, target: FRAMEBUFFER },
                Check::Complete,
            ),
        );
        assert(steps@ =~= before + frame_buffer.setup());
        frame_buffer
    }

    /// The call that is queued once a framebuffer is made: it makes the
    /// window the draw target again.
    pub open spec fn release() -> Seq<Command> {
        seq![Command::BindFramebuffer { target: FRAMEBUFFER, framebuffer: None }]
    }

    /// Whether `progress` is the work of making a render target of the given
    /// size when the context is `earlier`, and `planned` the context once the
    /// work is laid out.
    ///
    /// The work is [`FrameBuffer::setup`] of the framebuffer that
    /// [`FrameBuffer::planned`] gives, and takes three handles. When it
    /// succeeds, the call that makes the window the draw target again is
    /// queued. Where `planned` gives an error the work is done at once, with
    /// that error, and the context is as it was.
    pub open spec fn begins(
        earlier: ContextView,
        width: i32,
        height: i32,
        progress: Progress<FrameBuffer>,
        planned: ContextView,
    ) -> bool {
        match FrameBuffer::planned(earlier, width, height) {
            Ok(frame_buffer) => progress.starts(
                frame_buffer,
                frame_buffer.setup(),
                FrameBuffer::release(),
                Seq::empty(),
            ) && planned == earlier.taking(3),
            Err(error) => progress == Progress::Done(Err::<FrameBuffer, ResourceError>(error))
                && planned == earlier,
        }
    }

    /// Starts making a render target of `width` by `height` pixels, and
    /// leaves the calls to whoever carries the work on.
    pub fn begin(context: &mut AppContext, width: i32, height: i32) -> (progress: Progress<
        FrameBuffer,
    >)
        ensures
            FrameBuffer::begins(old(context)@, width, height, progress, final(context)@),
    {
        if width <= 0 || height <= 0 {
            return Progress::Done(Err(ResourceError::InvalidDimensions(width, height)));
        }
        let id = match context.reserve(3) {
            Some(id) => id,
            None => {
                return Progress::Done(Err(ResourceError::OutOfHandles));
            },
        };
        let mut steps: Vec<Step> = Vec::new();
        let bindless = context.extensions().bindless;
        let frame_buffer = FrameBuffer::stage(&mut steps, id, width, height, bindless);
        assert(steps@ =~= frame_buffer.setup());
        let mut commit: Vec<Command> = Vec::new();
        commit.push(Command::BindFramebuffer { target: FRAMEBUFFER, framebuffer: None });
        assert(commit@ =~= FrameBuffer::release());
        Progress::begin(context, frame_buffer, steps, commit, Vec::new())
    }

    /// Makes a render target of `width` by `height` pixels, with `execute`
    /// to carry out the calls.
    ///
    /// The work is that of [`FrameBuffer::begin`], carried through as
    /// [`Progress::settle`] does. A size that is not positive is refused
    /// before any call is made, and a framebuffer that the driver does not
    /// find complete is taken apart again and reported with its status. A
    /// driver that refuses nothing, and finds the framebuffer complete,
    /// gives the framebuffer that [`FrameBuffer::planned`] gives, of the
    /// size asked for.
    pub fn new<F: Fn(&Command) -> Reply>(
        context: &mut AppContext,
        execute: &F,
        width: i32,
        height: i32,
    ) -> (outcome: Result<FrameBuffer, ResourceError>)
        requires
            forall|command: &Command| call_requires(*execute, (command,)),
        ensures
            exists|progress: Progress<FrameBuffer>, planned: ContextView|
                {
                    &&& FrameBuffer::begins(old(context)@, width, height, progress, planned)
                    &&& #[trigger] progress.settles_as(
                        *execute,
                        planned,
                        final(context)@,
                        outcome,
                    )
                },
            match FrameBuffer::planned(old(context)@, width, height) {
                Ok(frame_buffer) => grants(*execute, frame_buffer.setup()) ==> outcome == Ok::<
                    FrameBuffer,
                    ResourceError,
                >(frame_buffer),
                Err(error) => outcome == Err::<FrameBuffer, ResourceError>(error),
            },
    {
        let progress = FrameBuffer::begin(context, width, height);
        let ghost planned = context@;
        let outcome = progress.settle(context, execute);
        proof {
            if progress is Done {
                lemma_finished_work_settles(progress, *execute, planned, context@, outcome);
            } else if grants(*execute, progress.plan()) {
                lemma_granted_work_succeeds(progress, *execute, planned, context@, outcome);
            }
        }
        outcome
    }

    /// The calls that make this framebuffer the draw target, with the
    /// viewport covering it.
    pub open spec fn binding(self) -> Seq<Command> {
        seq![
            Command::Viewport { x: 0, y: 0, width: self.width, height: self.height },
            Command::BindFramebuffer { target: FRAMEBUFFER, framebuffer: Some(self.id) },
        ]
    }

    /// The calls that make `viewport` the viewport and the window the draw
    /// target.
    pub open spec fn unbinding(viewport: Viewport) -> Seq<Command> {
        seq![
            Command::Viewport {
                x: viewport.x,
                y: viewport.y,
                width: viewport.width,
                height: viewport.height,
            },
            Command::BindFramebuffer { target: FRAMEBUFFER, framebuffer: None },
        ]
    }

    /// Binding leaves the viewport covering this framebuffer and draw calls
    /// going to it.
    pub proof fn lemma_binding_moves_state(self, state: GpuState)
        ensures
            replay(state, self.binding()) == (GpuState {
                viewport: Viewport { x: 0, y: 0, width: self.width, height: self.height },
                target: Some(self.id),
            }),
    {
        reveal_with_fuel(replay, 3);
        let binding = self.binding();
        assert(binding.drop_last() =~= seq![binding[0]]);
        assert(binding.drop_last().drop_last() =~= Seq::<Command>::empty());
    }

    /// Unbinding leaves the viewport given and draw calls going to the
    /// window.
    pub proof fn lemma_unbinding_moves_state(state: GpuState, viewport: Viewport)
        ensures
            replay(state, FrameBuffer::unbinding(viewport)) == (GpuState { viewport, target: None }),
    {
        reveal_with_fuel(replay, 3);
        let unbinding = FrameBuffer::unbinding(viewport);
        assert(unbinding.drop_last() =~= seq![unbinding[0]]);
        assert(unbinding.drop_last().drop_last() =~= Seq::<Command>::empty());
    }

    /// The calls that delete this framebuffer's two textures.
    pub open spec fn discard(self) -> Seq<Command> {
        seq![
            Command::DeleteTexture { texture: self.texture.id },
            Command::DeleteTexture { texture: self.depth_texture.id },
        ]
    }

    /// Appends to `steps` the calls that give this framebuffer two new
    /// textures, which take the handle `id` and the one after it, and to
    /// `commit` the calls that delete the old ones. Returns the framebuffer
    /// with the new textures.
    pub(crate) fn stage_refit(
        &self,
        steps: &mut Vec<Step>,
        commit: &mut Vec<Command>,
        id: u32,
        width: i32,
        height: i32,
        bindless: bool,
    ) -> (frame_buffer: FrameBuffer)
        requires
            id <= u32::MAX - 1,
        ensures
            frame_buffer == self.with_textures(id, width, height, bindless),
            final(steps)@ == old(steps)@ + self.refit(frame_buffer),
            final(commit)@ == old(commit)@ + self.discard(),
    {
        let ghost before = steps@;
        let ghost before_commit = commit@;
        let texture = Texture::stage(steps, id, width, height, RGBA8, bindless);
        let depth_texture = Texture::stage(
            steps,
            id + 1,
            width,
            height,
            DEPTH_COMPONENT24,
            bindless,
        );
        let frame_buffer = FrameBuffer { id: self.id, width, height, texture, depth_texture };
        steps.push(
            Step::reversible(
                Command::NamedFramebufferTexture {
                    framebuffer: self.id,
                    attachment: COLOR_ATTACHMENT0,
                    texture: frame_buffer.texture.id,
                    level: 0,
                },
                Command::NamedFramebufferTexture {
                    framebuffer: self.id,
                    attachment: COLOR_ATTACHMENT0,
                    texture: self.texture.id,
                    level: 0,
                },
            ),
        );
        steps.push(
            Step::reversible(
                Command::NamedFramebufferTexture {
                    framebuffer: self.id,
                    attachment: DEPTH_ATTACHMENT,
                    texture: frame_buffer.depth_texture.id,
                    level: 0,
                },
                Command::NamedFramebufferTexture {
                    framebuffer: self.id,
                    attachment: DEPTH_ATTACHMENT,
                    texture: self.depth_texture.id,
                    level: 0,
                },
            ),
        );
        steps.push(
            Step::checked(
                Command::CheckNamedFramebufferStatus { framebuffer: self.id, target: FRAMEBUFFER },
                Check::Complete,
            ),
        );
        commit.push(Command::DeleteTexture { texture: self.texture.id });
        commit.push(Command::DeleteTexture { texture: self.depth_texture.id });
        assert(steps@ =~= before + self.refit(frame_buffer));
        assert(commit@ =~= before_commit + self.discard());
        frame_buffer
    }

    /// Whether `progress` is the work of giving this framebuffer a new size
    /// when the context is `earlier`, and `planned` the context once the work
    /// is laid out.
    ///
    /// The work is [`FrameBuffer::refit`] towards the framebuffer that
    /// [`FrameBuffer::resized`] gives, and takes two handles. The old
    /// textures stay attached until the new ones are made, and are deleted by
    /// the calls that are queued when the work succeeds. When a step fails,
    /// the old textures are attached again and the new ones deleted. Where
    /// `resized` gives an error the work is done at once, with that error,
    /// and the context is as it was.
    pub open spec fn begins_resize(
        self,
        earlier: ContextView,
        width: i32,
        height: i32,
        progress: Progress<FrameBuffer>,
        planned: ContextView,
    ) -> bool {
        match self.resized(earlier, width, height) {
            Ok(frame_buffer) => progress.starts(
                frame_buffer,
                self.refit(frame_buffer),
                self.discard(),
                Seq::empty(),
            ) && planned == earlier.taking(2),
            Err(error) => progress == Progress::Done(Err::<FrameBuffer, ResourceError>(error))
                && planned == earlier,
        }
    }

    /// Starts making the framebuffer that takes this one's place at a new
    /// size, and leaves the calls to whoever carries the work on. The new
    /// framebuffer keeps this one's handle and has two new textures.
    pub fn begin_resize(&self, context: &mut AppContext, width: i32, height: i32) -> (progress:
        Progress<FrameBuffer>)
        ensures
            self.begins_resize(old(context)@, width, height, progress, final(context)@),
    {
        if width <= 0 || height <= 0 {
            return Progress::Done(Err(ResourceError::InvalidDimensions(width, height)));
        }
        let id = match context.reserve(2) {
            Some(id) => id,
            None => {
                return Progress::Done(Err(ResourceError::OutOfHandles));
            },
        };
        let mut steps: Vec<Step> = Vec::new();
        let mut commit: Vec<Command> = Vec::new();
        let bindless = context.extensions().bindless;
        let frame_buffer = self.stage_refit(&mut steps, &mut commit, id, width, height, bindless);
        assert(steps@ =~= self.refit(frame_buffer));
        assert(commit@ =~= self.discard());
        Progress::begin(context, frame_buffer, steps, commit, Vec::new())
    }

    /// Gives this framebuffer a new size, with `execute` to carry out the
    /// calls.
    ///
    /// The work is that of [`FrameBuffer::begin_resize`], carried through as
    /// [`Progress::settle`] does. When it succeeds, this framebuffer has its
    /// new size and two new textures, and keeps its handle. When it fails,
    /// this framebuffer is as it was, with its old textures attached. Either
    /// way the viewport and the draw target are where they were. A driver
    /// that refuses nothing, and finds the framebuffer complete, gives the
    /// framebuffer that [`FrameBuffer::resized`] gives, so that resizing
    /// twice to one size leaves the size, the handle and the completeness
    /// that resizing once leaves.
    pub fn resize<F: Fn(&Command) -> Reply>(
        &mut self,
        context: &mut AppContext,
        execute: &F,
        width: i32,
        height: i32,
    ) -> (outcome: Result<(), ResourceError>)
        requires
            forall|command: &Command| call_requires(*execute, (command,)),
        ensures
            exists|progress: Progress<FrameBuffer>, planned: ContextView|
                {
                    &&& old(self).begins_resize(old(context)@, width, height, progress, planned)
                    &&& #[trigger] progress.settles_as(
                        *execute,
                        planned,
                        final(context)@,
                        yielding(outcome, *final(self)),
                    )
                },
            outcome.is_err() ==> *final(self) == *old(self),
            outcome.is_ok() ==> final(self).id == old(self).id && final(self).width == width
                && final(self).height == height,
            old(context)@.followed_by(final(context)@),
            final(context)@.state == old(context)@.state,
            match old(self).resized(old(context)@, width, height) {
                Ok(frame_buffer) => {
                    &&& grants(*execute, old(self).refit(frame_buffer)) ==> outcome.is_ok()
                        && *final(self) == frame_buffer
                    &&& final(context)@.next == old(context)@.next + 2
                },
                Err(error) => {
                    &&& outcome == Err::<(), ResourceError>(error)
                    &&& final(context)@.next == old(context)@.next
                },
            },
    {
        let ghost earlier = context@;
        let progress = self.begin_resize(context, width, height);
        let ghost planned = context@;
        let settled = progress.settle(context, execute);
        proof {
            if progress is Done {
                lemma_finished_work_settles(progress, *execute, planned, context@, settled);
            } else if grants(*execute, progress.plan()) {
                lemma_granted_work_succeeds(progress, *execute, planned, context@, settled);
            }
            lemma_done_within_history(*old(context));
            if progress is More {
                self.lemma_plans_quiet(progress->More_0.value());
                let replies = choose|replies: Seq<Reply>|
                    {
                        &&& answers(*execute, progress.plan(), progress.position(), replies)
                        &&& #[trigger] progress.comes_to(replies, planned, context@, settled)
                    };
            }
            lemma_settled_follows(progress, *execute, planned, context@, settled);
            lemma_followed_by_queuing(earlier, Seq::empty());
            lemma_followed_by_transitive(earlier, planned, context@);
        }
        match settled {
            Ok(frame_buffer) => {
                *self = frame_buffer;
                assert(progress.settles_as(*execute, planned, context@, yielding(Ok(()), *self)));
                Ok(())
            },
            Err(error) => {
                assert(progress.settles_as(
                    *execute,
                    planned,
                    context@,
                    yielding(Err(error), *self),
                ));
                Err(error)
            },
        }
    }

    /// Queues the calls that make this framebuffer the draw target: the
    /// viewport is set to cover it, and draw calls are sent to it.
    pub fn bind(&self, context: &mut AppContext)
        ensures
            final(context)@ == old(context)@.submit(
                Command::Viewport { x: 0, y: 0, width: self.width, height: self.height },
            ).submit(Command::BindFramebuffer { target: FRAMEBUFFER, framebuffer: Some(self.id) }),
    {
        context.submit(Command::Viewport { x: 0, y: 0, width: self.width, height: self.height });
        context.submit(Command::BindFramebuffer { target: FRAMEBUFFER, framebuffer: Some(self.id) });
    }

    /// Queues the calls that end drawing into this framebuffer: the viewport
    /// is set to the one given, and draw calls are sent to the window.
    pub fn unbind(&self, context: &mut AppContext, x: i32, y: i32, width: i32, height: i32)
        ensures
            final(context)@ == old(context)@.submit(Command::Viewport { x, y, width, height })
                .submit(Command::BindFramebuffer { target: FRAMEBUFFER, framebuffer: None }),
    {
        context.submit(Command::Viewport { x, y, width, height });
        context.submit(Command::BindFramebuffer { target: FRAMEBUFFER, framebuffer: None });
    }

    /// Queues the calls that delete the framebuffer and then its two
    /// textures, and gives the value up.
    pub fn delete(self, context: &mut AppContext)
        ensures
            final(context)@ == old(context)@.submit(
                Command::DeleteFramebuffer { framebuffer: self.id },
            ).submit(Command::DeleteTexture { texture: self.texture.id }).submit(
                Command::DeleteTexture { texture: self.depth_texture.id },
            ),
    {
        context.submit(Command::DeleteFramebuffer { framebuffer: self.id });
        self.texture.delete(context);
        self.depth_texture.delete(context);
    }

    /// Says in words what a framebuffer's status code means.
    pub fn print_frame_buffer_status(status: u32) -> (text: &'static str)
        ensures
            text == status_text(status),
    {
        if status == FRAMEBUFFER_COMPLETE {
            "Framebuffer complete"
        } else if status == FRAMEBUFFER_UNDEFINED {
            "Framebuffer undefined"
        } else if status == FRAMEBUFFER_INCOMPLETE_ATTACHMENT {
            "Incomplete attachment"
        } else if status == FRAMEBUFFER_INCOMPLETE_MISSING_ATTACHMENT {
            "Incomplete attachment"
        } else if status == FRAMEBUFFER_INCOMPLETE_DRAW_BUFFER {
            "Incomplete draw buffer"
        } else if status == FRAMEBUFFER_INCOMPLETE_READ_BUFFER {
            "Incomplete read buffer"
        } else if status == FRAMEBUFFER_UNSUPPORTED {
            "Framebuffer unsupported"
        } else if status == FRAMEBUFFER_INCOMPLETE_MULTISAMPLE {
            "Incomplete multisample"
        } else if status == FRAMEBUFFER_INCOMPLETE_LAYER_TARGETS {
            "Incomplete layer targets"
        } else {
            "Unknown framebuffer error"
        }
    }
}

} // verus!
