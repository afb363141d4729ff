//! The pixelation effect: an animated pattern drawn at a coarse resolution
//! and then stretched over the target without filtering.
use vstd::prelude::*;
use crate::app::{lemma_replay_concat, lemma_replay_neutral, replay, AppContext, ContextView};
use crate::command::{Command, GpuState, Reply, Size, UniformLocation, Viewport};
use crate::effects::{quad, quad_corners, Effect, Scale};
use crate::error::{FrameError, ResourceError};
use crate::frame_buffer::FrameBuffer;
use crate::gl::{
    FRAGMENT_SHADER, FRAGMENT_SHADER_BIT, FRAMEBUFFER, TEXTURE0, TEXTURE_2D, TRIANGLE_FAN,
    VERTEX_SHADER,
};
use crate::pending::{disciplined, lemma_disciplined_concat, yielding, Progress, Step};
use crate::program::{Pipeline, Shader};
use crate::shader::{lemma_lookup_disciplined, lookup, stage_lookup};
use crate::vertex_array::VertexArray;
use crate::vertex_buffer::{in_memory, VertexBuffer};

verus! {

/// How many handles a pixelation effect takes.
pub const HANDLES: u32 = 11;

/// The name of the uniform that holds the time.
pub open spec fn elapsed_uniform() -> &'static str {
    "Elapsed"
}

/// The name of the sampler uniform that reads the coarse image.
pub open spec fn texture_uniform() -> &'static str {
    "FBO"
}

/// The texts of the three shaders of a pixelation effect.
#[derive(Debug, PartialEq, Eq)]
pub struct PixelateSources {
    /// The vertex stage, shared by both passes.
    pub vertex: String,
    /// The fragment stage that draws the pattern.
    pub fragment: String,
    /// The fragment stage that stretches the coarse image over the target.
    pub display: String,
}

/// The pixelation effect, which owns everything it draws with.
#[derive(Debug, PartialEq, Eq)]
pub struct Pixelate {
    /// How much coarser than the window the pattern is drawn.
    pub scale: Scale,
    /// The coarse render target.
    pub fbo: FrameBuffer,
    pub vertex_shader: Shader,
    /// The program that draws the pattern.
    pub fragment_shader: Shader,
    /// The program that stretches the coarse image over the target.
    pub display_shader: Shader,
    /// Where `display_shader` takes the coarse image from.
    pub texture_loc: UniformLocation,
    /// Where `fragment_shader` takes the time from.
    pub elapsed_loc: UniformLocation,
    pub pipeline: Pipeline,
    /// The square that both passes draw.
    pub vertex_array: VertexArray,
}

impl Pixelate {
    /// The effect whose objects have the handles from `first` on, in the
    /// order in which they are made, and whose target has the given size.
    pub open spec fn assembled(first: u32, width: i32, height: i32, scale: Scale, bindless: bool)
        -> Pixelate {
        Pixelate {
            scale,
            fbo: FrameBuffer::with_size(first, width, height, bindless),
            vertex_shader: Shader { id: (first + 3) as u32, stage: VERTEX_SHADER },
            fragment_shader: Shader { id: (first + 4) as u32, stage: FRAGMENT_SHADER },
            elapsed_loc: UniformLocation { slot: (first + 5) as u32 },
            display_shader: Shader { id: (first + 6) as u32, stage: FRAGMENT_SHADER },
            texture_loc: UniformLocation { slot: (first + 7) as u32 },
            pipeline: Pipeline { id: (first + 8) as u32 },
            vertex_array: VertexArray {
                id: (first + 10) as u32,
                vertex_buffer: VertexBuffer::holding(
                    (first + 9) as u32,
                    quad_corners().len() as int,
                ),
            },
        }
    }

    /// The calls that make this effect: its target, the vertex program, the
    /// pattern program and the location of its time uniform, the display
    /// program and the location of its sampler, the pipeline of the vertex
    /// and the pattern program, and the square.
    pub open spec fn setup(
        self,
        sources: PixelateSources,
        elapsed_name: String,
        texture_name: String,
        data: Vec<u8>,
    ) -> Seq<Step> {
        self.fbo.setup() + self.vertex_shader.setup(sources.vertex) + self.fragment_shader.setup(
            sources.fragment,
        ) + seq![lookup(self.fragment_shader.id, elapsed_name, self.elapsed_loc.slot)]
            + self.display_shader.setup(sources.display) + seq![
            lookup(self.display_shader.id, texture_name, self.texture_loc.slot),
        ] + self.pipeline.setup(self.vertex_shader.id, self.fragment_shader.id)
            + self.vertex_array.vertex_buffer.setup(data) + self.vertex_array.setup()
    }

    /// The effect that `context` would make for a window of `size`, or why
    /// it would make none. The target has the window's size divided by
    /// `scale`; where that leaves no pixels the effect is refused, and so it
    /// is when fewer than eleven handles are left.
    pub open spec fn planned(context: ContextView, size: Size, scale: Scale) -> Result<
        Pixelate,
        ResourceError,
    > {
        let width = scale.scaled(size.width);
        let height = scale.scaled(size.height);
        if width <= 0 || height <= 0 {
            Err(ResourceError::InvalidDimensions(width, height))
        } else if context.handles_left() < HANDLES {
            Err(ResourceError::OutOfHandles)
        } else {
            Ok(Pixelate::assembled(context.next, width, height, scale, context.extensions.bindless))
        }
    }

    /// Whether `progress` is the work that makes `pixelate` from `sources`.
    pub open spec fn builds(
        progress: Progress<Pixelate>,
        pixelate: Pixelate,
        sources: PixelateSources,
    ) -> bool {
        exists|elapsed_name: String, texture_name: String, data: Vec<u8>|
            {
                &&& elapsed_name@ == elapsed_uniform()@
                &&& texture_name@ == texture_uniform()@
                &&& in_memory(quad_corners(), data@)
                &&& #[trigger] progress.starts(
                    pixelate,
                    pixelate.setup(sources, elapsed_name, texture_name, data),
                    seq![Command::BindFramebuffer { target: FRAMEBUFFER, framebuffer: None }],
                    Seq::empty(),
                )
            }
    }

    /// Whether `progress` is the work of making a pixelation effect for a
    /// window of `size` when the context is `earlier`, and `planned` the
    /// context once the work is laid out.
    ///
    /// The work is [`Pixelate::setup`] of the effect that
    /// [`Pixelate::planned`] gives, with the uniform names
    /// [`elapsed_uniform`] and [`texture_uniform`] and the bytes of
    /// [`quad_corners`]; it takes eleven handles. On success the call that
    /// makes the window the draw target again is queued. Where `planned`
    /// gives an error the work is done at once, with that error, and the
    /// context is as it was.
    pub open spec fn begins(
        earlier: ContextView,
        size: Size,
        scale: Scale,
        sources: PixelateSources,
        progress: Progress<Pixelate>,
        planned: ContextView,
    ) -> bool {
        match Pixelate::planned(earlier, size, scale) {
            Ok(pixelate) => Pixelate::builds(progress, pixelate, sources) && planned
                == earlier.taking(HANDLES as int),
            Err(error) => progress == Progress::Done(Err::<Pixelate, ResourceError>(error))
                && planned == earlier,
        }
    }

    /// Starts making a pixelation effect for a window of `size`, and leaves
    /// the calls to whoever carries the work on.
    pub fn begin(context: &mut AppContext, size: &Size, scale: Scale, sources: PixelateSources) -> (progress:
        Progress<Pixelate>)
        ensures
            Pixelate::begins(old(context)@, *size, scale, sources, progress, final(context)@),
    {
        let width = scale.extent(size.width);
        let height = scale.extent(size.height);
        if width <= 0 || height <= 0 {
            return Progress::Done(Err(ResourceError::InvalidDimensions(width, height)));
        }
        let first = match context.reserve(HANDLES) {
            Some(first) => first,
            None => {
                return Progress::Done(Err(ResourceError::OutOfHandles));
            },
        };
        let bindless = context.extensions().bindless;
        let PixelateSources { vertex, fragment, display } = sources;
        let elapsed_name = "Elapsed".to_owned();
        let texture_name = "FBO".to_owned();
        let vertices = quad();
        let mut steps: Vec<Step> = Vec::new();
        let fbo = FrameBuffer::stage(&mut steps, first, width, height, bindless);
        let vertex_shader = Shader::stage(&mut steps, first + 3, VERTEX_SHADER, vertex);
        let fragment_shader = Shader::stage(&mut steps, first + 4, FRAGMENT_SHADER, fragment);
        let elapsed_loc = stage_lookup(&mut steps, fragment_shader.id, elapsed_name, first + 5);
        let display_shader = Shader::stage(&mut steps, first + 6, FRAGMENT_SHADER, display);
        let texture_loc = stage_lookup(&mut steps, display_shader.id, texture_name, first + 7);
        let pipeline = Pipeline::stage(
            &mut steps,
            first + 8,
            vertex_shader.id,
            fragment_shader.id,
        );
        let (vertex_buffer, Ghost(data)) = VertexBuffer::stage(
            &mut steps,
            first + 9,
            vertices.as_slice(),
        );
        let vertex_array = VertexArray::stage(&mut steps, first + 10, vertex_buffer);
        let pixelate = Pixelate {
            scale,
            fbo,
            vertex_shader,
            fragment_shader,
            display_shader,
            texture_loc,
            elapsed_loc,
            pipeline,
            vertex_array,
        };
        assert(steps@ =~= pixelate.setup(sources, elapsed_name, texture_name, data));
        let mut commit: Vec<Command> = Vec::new();
        commit.push(Command::BindFramebuffer { target: FRAMEBUFFER, framebuffer: None });
        assert(commit@ =~= seq![
            Command::BindFramebuffer { target: FRAMEBUFFER, framebuffer: None },
        ]);
        let progress = Progress::begin(context, pixelate, steps, commit, Vec::new());
        assert(progress.starts(
            pixelate,
            pixelate.setup(sources, elapsed_name, texture_name, data),
            seq![Command::BindFramebuffer { target: FRAMEBUFFER, framebuffer: None }],
            Seq::empty(),
        ));
        progress
    }

    /// Makes a pixelation effect for a window of `size`, with `execute` to
    /// carry out the calls.
    ///
    /// The work is that of [`Pixelate::begin`], carried through as
    /// [`Progress::settle`] does: whatever the driver refuses ends it, and
    /// what had been made is deleted.
    pub fn new<F: Fn(&Command) -> Reply>(
        context: &mut AppContext,
        execute: &F,
        size: &Size,
        scale: Scale,
        sources: PixelateSources,
    ) -> (outcome: Result<Pixelate, ResourceError>)
        requires
            forall|command: &Command| call_requires(*execute, (command,)),
        ensures
            exists|progress: Progress<Pixelate>, planned: ContextView|
                {
                    &&& Pixelate::begins(old(context)@, *size, scale, sources, progress, planned)
                    &&& #[trigger] progress.settles_as(
                        *execute,
                        planned,
                        final(context)@,
                        outcome,
                    )
                },
    {
        Pixelate::begin(context, size, scale, sources).settle(context, execute)
    }

    /// This effect with another target.
    pub open spec fn with_target(self, fbo: FrameBuffer) -> Pixelate {
        Pixelate { fbo, ..self }
    }

    /// The calls that draw the square with `program` at the fragment stage.
    pub open spec fn pass(self, program: u32) -> Seq<Command> {
        seq![
            Command::UseProgramStages {
                pipeline: self.pipeline.id,
                stages: FRAGMENT_SHADER_BIT,
                program,
            },
            Command::ValidateProgramPipeline { pipeline: self.pipeline.id },
            Command::BindProgramPipeline { pipeline: self.pipeline.id },
        ] + self.vertex_array.drawing(TRIANGLE_FAN)
    }

    /// The calls that hand the coarse image to the display program: through
    /// its bindless handle where the texture has one and the driver the
    /// capability, and else through texture unit 0.
    pub open spec fn sampling(self, bindless: bool) -> Seq<Command> {
        match self.fbo.texture.handle {
            Some(handle) if bindless => seq![
                Command::ProgramUniformHandle {
                    program: self.display_shader.id,
                    location: self.texture_loc.slot,
                    handle,
                },
            ],
            _ => seq![
                Command::ActiveTexture { unit: TEXTURE0 },
                Command::BindTexture { target: TEXTURE_2D, texture: Some(self.fbo.texture.id) },
                Command::ProgramUniform1I32 {
                    program: self.display_shader.id,
                    location: self.texture_loc.slot,
                    value: 0,
                },
            ],
        }
    }

    /// The calls of one application of the effect.
    ///
    /// First the pattern is drawn into the coarse target, at time `elapsed`,
    /// and `restore` is made the viewport again. Then the coarse image is
    /// drawn over `target`, after which `restore` is made the viewport once
    /// more; or, where there is no target, over the window.
    pub open spec fn rendering(
        self,
        restore: Viewport,
        elapsed: u32,
        bindless: bool,
        target: Option<&FrameBuffer>,
    ) -> Seq<Command> {
        let coarse = self.fbo.binding() + seq![
            Command::ProgramUniform1F32 {
                program: self.fragment_shader.id,
                location: self.elapsed_loc.slot,
                bits: elapsed,
            },
        ] + self.pass(self.fragment_shader.id) + FrameBuffer::unbinding(restore);
        let display = self.sampling(bindless) + self.pass(self.display_shader.id);
        match target {
            Some(target) => coarse + target.binding() + display + FrameBuffer::unbinding(restore),
            None => coarse + display,
        }
    }

    /// Applying the effect is neutral to the viewport: wherever the driver
    /// was before, once it has carried out the calls of one application the
    /// viewport is `restore` and draw calls go to the window.
    pub proof fn lemma_rendering_restores_viewport(
        self,
        state: GpuState,
        restore: Viewport,
        elapsed: u32,
        bindless: bool,
        target: Option<&FrameBuffer>,
    )
        ensures
            replay(state, self.rendering(restore, elapsed, bindless, target)) == (GpuState {
                viewport: restore,
                target: None,
            }),
    {
        let uniform = seq![
            Command::ProgramUniform1F32 {
                program: self.fragment_shader.id,
                location: self.elapsed_loc.slot,
                bits: elapsed,
            },
        ];
        let pattern = uniform + self.pass(self.fragment_shader.id);
        let display = self.sampling(bindless) + self.pass(self.display_shader.id);
        let unbinding = FrameBuffer::unbinding(restore);
        let coarse = self.fbo.binding() + uniform + self.pass(self.fragment_shader.id) + unbinding;
        let restored = GpuState { viewport: restore, target: None };
        assert(coarse =~= self.fbo.binding() + pattern + unbinding);
        self.fbo.lemma_binding_moves_state(state);
        lemma_replay_concat(state, self.fbo.binding(), pattern);
        lemma_replay_neutral(replay(state, self.fbo.binding()), pattern);
        lemma_replay_concat(state, self.fbo.binding() + pattern, unbinding);
        FrameBuffer::lemma_unbinding_moves_state(
            replay(state, self.fbo.binding() + pattern),
            restore,
        );
        assert(replay(state, coarse) == restored);
        match target {
            Some(target) => {
                let whole = coarse + target.binding() + display + unbinding;
                target.lemma_binding_moves_state(restored);
                lemma_replay_concat(state, coarse, target.binding());
                lemma_replay_concat(state, coarse + target.binding(), display);
                lemma_replay_neutral(replay(state, coarse + target.binding()), display);
                lemma_replay_concat(state, coarse + target.binding() + display, unbinding);
                FrameBuffer::lemma_unbinding_moves_state(
                    replay(state, coarse + target.binding() + display),
                    restore,
                );
            },
            None => {
                lemma_replay_concat(state, coarse, display);
                lemma_replay_neutral(restored, display);
            },
        }
    }

    /// The plan that makes the effect accounts for the nine objects it
    /// makes.
    pub proof fn lemma_setup_disciplined(
        self,
        sources: PixelateSources,
        elapsed_name: String,
        texture_name: String,
        data: Vec<u8>,
    )
        ensures
            disciplined(self.setup(sources, elapsed_name, texture_name, data)),
    {
        let target = self.fbo.setup();
        let vertex = self.vertex_shader.setup(sources.vertex);
        let fragment = self.fragment_shader.setup(sources.fragment);
        let elapsed = seq![lookup(self.fragment_shader.id, elapsed_name, self.elapsed_loc.slot)];
        let display = self.display_shader.setup(sources.display);
        let texture = seq![lookup(self.display_shader.id, texture_name, self.texture_loc.slot)];
        let pipeline = self.pipeline.setup(self.vertex_shader.id, self.fragment_shader.id);
        let buffer = self.vertex_array.vertex_buffer.setup(data);
        let array = self.vertex_array.setup();
        self.fbo.lemma_plans_disciplined(self.fbo);
        self.vertex_shader.lemma_setup_disciplined(sources.vertex);
        self.fragment_shader.lemma_setup_disciplined(sources.fragment);
        lemma_lookup_disciplined(self.fragment_shader.id, elapsed_name, self.elapsed_loc.slot);
        self.display_shader.lemma_setup_disciplined(sources.display);
        lemma_lookup_disciplined(self.display_shader.id, texture_name, self.texture_loc.slot);
        self.pipeline.lemma_setup_disciplined(self.vertex_shader.id, self.fragment_shader.id);
        self.vertex_array.vertex_buffer.lemma_setup_disciplined(data);
        self.vertex_array.lemma_setup_disciplined();
        lemma_disciplined_concat(target, vertex);
        lemma_disciplined_concat(target + vertex, fragment);
        lemma_disciplined_concat(target + vertex + fragment, elapsed);
        lemma_disciplined_concat(target + vertex + fragment + elapsed, display);
        lemma_disciplined_concat(target + vertex + fragment + elapsed + display, texture);
        lemma_disciplined_concat(
            target + vertex + fragment + elapsed + display + texture,
            pipeline,
        );
        lemma_disciplined_concat(
            target + vertex + fragment + elapsed + display + texture + pipeline,
            buffer,
        );
        lemma_disciplined_concat(
            target + vertex + fragment + elapsed + display + texture + pipeline + buffer,
            array,
        );
    }

    /// Queues the calls that draw the effect into `target`, or into the
    /// window where there is none, and leave the viewport at the rectangle
    /// given.
    pub fn render(
        &self,
        context: &mut AppContext,
        x: i32,
        y: i32,
        width: i32,
        height: i32,
        target: Option<&FrameBuffer>,
    )
        ensures
            final(context)@ == old(context)@.drawn(
                self.rendering(
                    Viewport { x, y, width, height },
                    old(context)@.elapsed,
                    old(context)@.extensions.bindless,
                    target,
                ),
                GpuState { viewport: Viewport { x, y, width, height }, target: None },
            ),
    {
        let ghost before = context@;
        let ghost restore = Viewport { x, y, width, height };
        let elapsed = context.elapsed();
        self.fbo.bind(context);
        self.fragment_shader.uniform_1f(context, self.elapsed_loc, elapsed);
        self.draw_pass(context, self.fragment_shader.id);
        self.fbo.unbind(context, x, y, width, height);
        assert(context@.history =~= before.history + (self.fbo.binding() + seq![
            Command::ProgramUniform1F32 {
                program: self.fragment_shader.id,
                location: self.elapsed_loc.slot,
                bits: elapsed,
            },
        ] + self.pass(self.fragment_shader.id) + FrameBuffer::unbinding(restore)));
        if let Some(target) = target {
            target.bind(context);
        }
        let sampled = match self.fbo.texture.handle {
            Some(handle) => self.display_shader.uniform_1ui_arb(context, self.texture_loc, handle),
            None => false,
        };
        if !sampled {
            self.fbo.texture.activate_texture(context, TEXTURE0);
            self.display_shader.uniform_1i(context, self.texture_loc, 0);
        }
        self.draw_pass(context, self.display_shader.id);
        if let Some(target) = target {
            target.unbind(context, x, y, width, height);
        }
        assert(context@.history =~= before.history + self.rendering(
            restore,
            before.elapsed,
            before.extensions.bindless,
            target,
        ));
    }

    /// Queues [`Pixelate::pass`].
    fn draw_pass(&self, context: &mut AppContext, program: u32)
        ensures
            final(context)@ == old(context)@.drawn(self.pass(program), old(context)@.state),
    {
        self.pipeline.use_shader(context, FRAGMENT_SHADER_BIT, program);
        self.pipeline.bind(context);
        self.vertex_array.draw(context, TRIANGLE_FAN);
        assert(context@.history =~= old(context)@.history + self.pass(program));
    }

    /// Queues the calls that delete everything the effect owns, and gives
    /// the value up.
    pub fn delete(self, context: &mut AppContext)
        ensures
            final(context)@ == old(context)@.drawn(self.teardown(), old(context)@.state),
    {
        let ghost teardown = self.teardown();
        self.fbo.delete(context);
        self.vertex_shader.delete(context);
        self.fragment_shader.delete(context);
        self.display_shader.delete(context);
        self.pipeline.delete(context);
        self.vertex_array.delete(context);
        assert(context@.history =~= old(context)@.history + teardown);
    }

    /// The calls that delete everything the effect owns.
    pub open spec fn teardown(self) -> Seq<Command> {
        seq![
            Command::DeleteFramebuffer { framebuffer: self.fbo.id },
            Command::DeleteTexture { texture: self.fbo.texture.id },
            Command::DeleteTexture { texture: self.fbo.depth_texture.id },
            Command::DeleteProgram { program: self.vertex_shader.id },
            Command::DeleteProgram { program: self.fragment_shader.id },
            Command::DeleteProgram { program: self.display_shader.id },
            Command::DeleteProgramPipeline { pipeline: self.pipeline.id },
            Command::DeleteVertexArray { vertex_array: self.vertex_array.id },
            Command::DeleteBuffer { buffer: self.vertex_array.vertex_buffer.id },
        ]
    }
}

impl Effect for Pixelate {
    open spec fn specified(&self) -> bool {
        true
    }

    open spec fn infallible(&self) -> bool {
        true
    }

    /// Applying the effect succeeds, and queues the calls of one
    /// application and nothing else.
    open spec fn applied(
        &self,
        earlier: ContextView,
        later: ContextView,
        source: Option<&FrameBuffer>,
        target: Option<&FrameBuffer>,
        outcome: Result<(), FrameError>,
    ) -> bool {
        &&& outcome.is_ok()
        &&& later == earlier.drawn(
            self.drawing(earlier, source, target),
            GpuState { viewport: earlier.state.viewport, target: None },
        )
    }

    /// Adapting the effect leaves the viewport and the draw target where
    /// they were. Where it succeeds, the effect fits the window; where it
    /// fails, it fails for a resource.
    open spec fn adapted(
        &self,
        earlier: ContextView,
        later: ContextView,
        size: Size,
        outcome: Result<(), FrameError>,
    ) -> bool {
        &&& later.state == earlier.state
        &&& outcome.is_ok() ==> self.fits(size)
        &&& outcome matches Err(error) ==> error is Resource
    }

    open spec fn drawing(
        &self,
        context: ContextView,
        source: Option<&FrameBuffer>,
        target: Option<&FrameBuffer>,
    ) -> Seq<Command> {
        self.rendering(context.state.viewport, context.elapsed, context.extensions.bindless, target)
    }

    /// Queues the calls that draw the effect into `target`, or into the
    /// window where there is none. The effect reads no source, and never
    /// fails.
    fn apply(
        &self,
        context: &mut AppContext,
        source: Option<&FrameBuffer>,
        target: Option<&FrameBuffer>,
    ) -> (outcome: Result<(), FrameError>)
        ensures
            outcome.is_ok(),
            final(context)@ == old(context)@.drawn(
                self.drawing(old(context)@, source, target),
                GpuState { viewport: old(context)@.state.viewport, target: None },
            ),
    {
        let viewport = context.viewport();
        self.render(context, viewport.x, viewport.y, viewport.width, viewport.height, target);
        Ok(())
    }

    /// The effect fits a window when its target has the size of the window
    /// divided by the scale.
    open spec fn fits(&self, size: Size) -> bool {
        &&& self.fbo.width == self.scale.scaled(size.width)
        &&& self.fbo.height == self.scale.scaled(size.height)
    }

    /// Gives the effect's target the size of a window of `size` divided by
    /// the scale, with `execute` to carry out the calls.
    ///
    /// The work is that of [`FrameBuffer::resize`] on the target, and
    /// nothing but the target changes. When it fails, the effect is as it
    /// was. The window's own target is never touched, and the viewport and
    /// the draw target are afterwards where they were.
    fn resize<F: Fn(&Command) -> Reply>(
        &mut self,
        context: &mut AppContext,
        execute: &F,
        size: &Size,
    ) -> (outcome: Result<(), FrameError>)
        ensures
            exists|progress: Progress<FrameBuffer>, planned: ContextView, resized: Result<
                (),
                ResourceError,
            >|
                {
                    &&& old(self).fbo.begins_resize(
                        old(context)@,
                        old(self).scale.scaled(size.width),
                        old(self).scale.scaled(size.height),
                        progress,
                        planned,
                    )
                    &&& #[trigger] progress.settles_as(
                        *execute,
                        planned,
                        final(context)@,
                        yielding(resized, final(self).fbo),
                    )
                    &&& outcome == FrameError::of(resized)
                },
            *final(self) == old(self).with_target(final(self).fbo),
            outcome.is_err() ==> *final(self) == *old(self),
            outcome.is_ok() ==> final(self).fbo.width == old(self).scale.scaled(size.width)
                && final(self).fbo.height == old(self).scale.scaled(size.height),
            final(context)@.state == old(context)@.state,
    {
        let width = self.scale.extent(size.width);
        let height = self.scale.extent(size.height);
        FrameError::of(self.fbo.resize(context, execute, width, height))
    }
}

} // verus!
