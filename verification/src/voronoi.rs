//! The Voronoi effect: a pattern of cells around a set of points, drawn by a
//! fragment shader over the whole target.
use vstd::prelude::*;
use crate::app::{
    lemma_followed_by_queuing, lemma_replay_concat, lemma_replay_neutral, replay, AppContext,
    ContextView,
};
use crate::command::{Command, GpuState, Reply, Size, UniformLocation, Viewport};
use crate::effects::{quad, quad_corners, Effect};
use crate::error::{FrameError, ResourceError};
use crate::frame_buffer::FrameBuffer;
use crate::gl::{FRAMEBUFFER, TRIANGLE_FAN};
use crate::pending::{disciplined, lemma_disciplined_concat, Progress, Step};
use crate::shader::{flatten, flattened, lookup, stage_lookup, Shader};
use crate::vertex_array::VertexArray;
use crate::vertex_buffer::{in_memory, VertexBuffer};

verus! {

/// How many handles a Voronoi effect takes.
pub const HANDLES: u32 = 6;

/// The name of the uniform that holds the points.
pub open spec fn points_uniform() -> &'static str {
    "Points"
}

/// The texts of the two shaders of a Voronoi effect.
#[derive(Debug, PartialEq, Eq)]
pub struct VoronoiSources {
    /// The vertex shader.
    pub vertex: String,
    /// The fragment shader, which draws the cells.
    pub fragment: String,
}

/// The Voronoi effect, which owns everything it draws with.
#[derive(Debug, PartialEq, Eq)]
pub struct Voronoi {
    /// The points that the cells lie around, as the IEEE-754 bits of their
    /// coordinates.
    pub points: Vec<(u32, u32)>,
    pub shader_program: Shader,
    /// Where the program takes the points from.
    pub points_loc: UniformLocation,
    /// The square that the effect draws.
    pub vertex_array: VertexArray,
}

impl Voronoi {
    /// Whether this is the effect around `points` whose objects have the
    /// handles from `first` on, in the order in which they are made.
    pub open spec fn assembled(self, first: u32, points: Seq<(u32, u32)>) -> bool {
        &&& self.points@ == points
        &&& self.shader_program == (Shader { id: (first + 2) as u32 })
        &&& self.points_loc == (UniformLocation { slot: (first + 3) as u32 })
        &&& self.vertex_array == (VertexArray {
            id: (first + 5) as u32,
            vertex_buffer: VertexBuffer::holding((first + 4) as u32, quad_corners().len() as int),
        })
    }

    /// The calls that make this effect: its program, the location of the
    /// points uniform, the upload of the points, and the square. `first` is
    /// the handle of the vertex shader, and the fragment shader has the one
    /// after it.
    pub open spec fn setup(
        self,
        first: u32,
        sources: VoronoiSources,
        points_name: String,
        coordinates: Vec<u32>,
        data: Vec<u8>,
    ) -> Seq<Step> {
        self.shader_program.setup(first, (first + 1) as u32, sources.vertex, sources.fragment)
            + seq![
            lookup(self.shader_program.id, points_name, self.points_loc.slot),
            Step::plain(
                Command::Uniform2F32Slice { location: self.points_loc.slot, bits: coordinates },
            ),
        ] + self.vertex_array.vertex_buffer.setup(data) + self.vertex_array.setup()
    }

    /// Whether `progress` is the work that makes a Voronoi effect around
    /// `points` from `sources`, with the handles from `first` on.
    pub open spec fn builds(
        progress: Progress<Voronoi>,
        first: u32,
        points: Seq<(u32, u32)>,
        sources: VoronoiSources,
    ) -> bool {
        exists|voronoi: Voronoi, points_name: String, coordinates: Vec<u32>, data: Vec<u8>|
            {
                &&& voronoi.assembled(first, points)
                &&& points_name@ == points_uniform()@
                &&& coordinates@ == flattened(points)
                &&& in_memory(quad_corners(), data@)
                &&& #[trigger] progress.starts(
                    voronoi,
                    voronoi.setup(first, sources, points_name, coordinates, data),
                    Shader::discard(first, (first + 1) as u32),
                    Seq::empty(),
                )
            }
    }

    /// Whether `progress` is the work of making a Voronoi effect around
    /// `points` when the context is `earlier`, and `planned` the context once
    /// the work is laid out.
    ///
    /// The work is [`Voronoi::setup`], with the uniform name
    /// [`points_uniform`], the coordinates of `points` in a row and the
    /// bytes of [`quad_corners`]; it takes six handles. On success the calls
    /// that delete the two shaders are queued. When fewer than six handles
    /// are left the work is done at once, with that error, and the context
    /// is as it was.
    pub open spec fn begins(
        earlier: ContextView,
        sources: VoronoiSources,
        points: Seq<(u32, u32)>,
        progress: Progress<Voronoi>,
        planned: ContextView,
    ) -> bool {
        if earlier.handles_left() >= HANDLES {
            &&& planned == earlier.taking(HANDLES as int)
            &&& Voronoi::builds(progress, earlier.next, points, sources)
        } else {
            &&& planned == earlier
            &&& progress == Progress::Done(
                Err::<Voronoi, ResourceError>(ResourceError::OutOfHandles),
            )
        }
    }

    /// Starts making a Voronoi effect around `points`, and leaves the calls
    /// to whoever carries the work on.
    pub fn begin(context: &mut AppContext, sources: VoronoiSources, points: Vec<(u32, u32)>) -> (progress:
        Progress<Voronoi>)
        ensures
            Voronoi::begins(old(context)@, sources, points@, progress, final(context)@),
    {
        let first = match context.reserve(HANDLES) {
            Some(first) => first,
            None => {
                return Progress::Done(Err(ResourceError::OutOfHandles));
            },
        };
        let VoronoiSources { vertex, fragment } = sources;
        let points_name = "Points".to_owned();
        let coordinates = flatten(&points);
        let ghost uploaded = coordinates;
        let vertices = quad();
        let mut steps: Vec<Step> = Vec::new();
        let mut commit: Vec<Command> = Vec::new();
        let shader_program = Shader::stage(&mut steps, &mut commit, first, vertex, fragment);
        let points_loc = stage_lookup(&mut steps, shader_program.id, points_name, first + 3);
        steps.push(
            Step::plain(Command::Uniform2F32Slice { location: points_loc.slot, bits: coordinates }),
        );
        let (vertex_buffer, Ghost(data)) = VertexBuffer::stage(
            &mut steps,
            first + 4,
            vertices.as_slice(),
        );
        let vertex_array = VertexArray::stage(&mut steps, first + 5, vertex_buffer);
        let voronoi = Voronoi { points, shader_program, points_loc, vertex_array };
        assert(steps@ =~= voronoi.setup(first, sources, points_name, uploaded, data));
        assert(commit@ =~= Shader::discard(first, (first + 1) as u32));
        let progress = Progress::begin(context, voronoi, steps, commit, Vec::new());
        assert(voronoi.assembled(first, points@));
        assert(progress.starts(
            voronoi,
            voronoi.setup(first, sources, points_name, uploaded, data),
            Shader::discard(first, (first + 1) as u32),
            Seq::empty(),
        ));
        progress
    }

    /// Makes a Voronoi effect around `points`, with `execute` to carry out
    /// the calls.
    ///
    /// The work is that of [`Voronoi::begin`], carried through as
    /// [`Progress::settle`] does: whatever the driver refuses ends it, and
    /// what had been made is deleted.
    pub fn new<F: Fn(&Command) -> Reply>(
        context: &mut AppContext,
        execute: &F,
        sources: VoronoiSources,
        points: Vec<(u32, u32)>,
    ) -> (outcome: Result<Voronoi, ResourceError>)
        requires
            forall|command: &Command| call_requires(*execute, (command,)),
        ensures
            exists|progress: Progress<Voronoi>, planned: ContextView|
                {
                    &&& Voronoi::begins(old(context)@, sources, points@, progress, planned)
                    &&& #[trigger] progress.settles_as(
                        *execute,
                        planned,
                        final(context)@,
                        outcome,
                    )
                },
    {
        Voronoi::begin(context, sources, points).settle(context, execute)
    }

    /// The calls that draw the square with the effect's program.
    pub open spec fn pass(self) -> Seq<Command> {
        seq![Command::UseProgram { program: Some(self.shader_program.id) }]
            + self.vertex_array.drawing(TRIANGLE_FAN)
    }

    /// The calls of one application of the effect: into `target` where there
    /// is one, after which `restore` is made the viewport again, and else
    /// into the window with `restore` as the viewport.
    pub open spec fn rendering(self, restore: Viewport, target: Option<&FrameBuffer>) -> Seq<
        Command,
    > {
        match target {
            Some(target) => target.binding() + self.pass() + FrameBuffer::unbinding(restore),
            None => FrameBuffer::unbinding(restore) + self.pass(),
        }
    }

    /// Applying the effect is neutral to the viewport: wherever the driver
    /// was before, once it has carried out the calls of one application the
    /// viewport is `restore` and draw calls go to the window.
    pub proof fn lemma_rendering_restores_viewport(
        self,
        state: GpuState,
        restore: Viewport,
        target: Option<&FrameBuffer>,
    )
        ensures
            replay(state, self.rendering(restore, target)) == (GpuState {
                viewport: restore,
                target: None,
            }),
    {
        let unbinding = FrameBuffer::unbinding(restore);
        match target {
            Some(target) => {
                target.lemma_binding_moves_state(state);
                lemma_replay_concat(state, target.binding(), self.pass());
                lemma_replay_neutral(replay(state, target.binding()), self.pass());
                lemma_replay_concat(state, target.binding() + self.pass(), unbinding);
                FrameBuffer::lemma_unbinding_moves_state(
                    replay(state, target.binding() + self.pass()),
                    restore,
                );
            },
            None => {
                FrameBuffer::lemma_unbinding_moves_state(state, restore);
                lemma_replay_concat(state, unbinding, self.pass());
                lemma_replay_neutral(replay(state, unbinding), self.pass());
            },
        }
    }

    /// The plan that makes the effect accounts for the five objects it
    /// makes.
    pub proof fn lemma_setup_disciplined(
        self,
        first: u32,
        sources: VoronoiSources,
        points_name: String,
        coordinates: Vec<u32>,
        data: Vec<u8>,
    )
        ensures
            disciplined(self.setup(first, sources, points_name, coordinates, data)),
    {
        let program = self.shader_program.setup(
            first,
            (first + 1) as u32,
            sources.vertex,
            sources.fragment,
        );
        let upload = seq![
            lookup(self.shader_program.id, points_name, self.points_loc.slot),
            Step::plain(
                Command::Uniform2F32Slice { location: self.points_loc.slot, bits: coordinates },
            ),
        ];
        let buffer = self.vertex_array.vertex_buffer.setup(data);
        let array = self.vertex_array.setup();
        self.shader_program.lemma_setup_disciplined(
            first,
            (first + 1) as u32,
            sources.vertex,
            sources.fragment,
        );
        assert(disciplined(upload));
        self.vertex_array.vertex_buffer.lemma_setup_disciplined(data);
        self.vertex_array.lemma_setup_disciplined();
        lemma_disciplined_concat(program, upload);
        lemma_disciplined_concat(program + upload, buffer);
        lemma_disciplined_concat(program + upload + buffer, array);
    }

    /// Queues the calls that draw the effect into the window, with the
    /// rectangle given as the viewport.
    pub fn render(&self, context: &mut AppContext, x: i32, y: i32, width: i32, height: i32)
        ensures
            final(context)@ == old(context)@.drawn(
                self.rendering(Viewport { x, y, width, height }, None),
                GpuState { viewport: Viewport { x, y, width, height }, target: None },
            ),
    {
        context.submit(Command::Viewport { x, y, width, height });
        context.submit(Command::BindFramebuffer { target: FRAMEBUFFER, framebuffer: None });
        self.draw_pass(context);
        assert(context@.history =~= old(context)@.history + self.rendering(
            Viewport { x, y, width, height },
            None,
        ));
    }

    /// Queues [`Voronoi::pass`].
    fn draw_pass(&self, context: &mut AppContext)
        ensures
            final(context)@ == old(context)@.drawn(self.pass(), old(context)@.state),
    {
        self.shader_program.use_program(context);
        self.vertex_array.draw(context, TRIANGLE_FAN);
        assert(context@.history =~= old(context)@.history + self.pass());
    }

    /// The calls that delete everything the effect owns.
    pub open spec fn teardown(self) -> Seq<Command> {
        seq![
            Command::DeleteProgram { program: self.shader_program.id },
            Command::DeleteVertexArray { vertex_array: self.vertex_array.id },
            Command::DeleteBuffer { buffer: self.vertex_array.vertex_buffer.id },
        ]
    }

    /// Queues the calls that delete everything the effect owns, and gives
    /// the value up.
    pub fn delete(self, context: &mut AppContext)
        ensures
            final(context)@ == old(context)@.drawn(self.teardown(), old(context)@.state),
    {
        let ghost teardown = self.teardown();
        self.shader_program.delete(context);
        self.vertex_array.delete(context);
        assert(context@.history =~= old(context)@.history + teardown);
    }
}

impl Effect for Voronoi {
    open spec fn specified(&self) -> bool {
        true
    }

    open spec fn infallible(&self) -> bool {
        true
    }

    /// Applying the effect succeeds, and queues the calls of one
    /// application and nothing else.
    open spec fn applied(
        &self,
        earlier: ContextView,
        later: ContextView,
        source: Option<&FrameBuffer>,
        target: Option<&FrameBuffer>,
        outcome: Result<(), FrameError>,
    ) -> bool {
        &&& outcome.is_ok()
        &&& later == earlier.drawn(
            self.drawing(earlier, source, target),
            GpuState { viewport: earlier.state.viewport, target: None },
        )
    }

    /// The effect has nothing to adapt.
    open spec fn steadfast(&self) -> bool {
        true
    }

    /// Adapting the effect succeeds and changes nothing.
    open spec fn adapted(
        &self,
        earlier: ContextView,
        later: ContextView,
        size: Size,
        outcome: Result<(), FrameError>,
    ) -> bool {
        outcome.is_ok() && later == earlier
    }

    open spec fn drawing(
        &self,
        context: ContextView,
        source: Option<&FrameBuffer>,
        target: Option<&FrameBuffer>,
    ) -> Seq<Command> {
        self.rendering(context.state.viewport, target)
    }

    /// Queues the calls that draw the effect into `target`, or into the
    /// window where there is none. The effect reads no source, and never
    /// fails.
    fn apply(
        &self,
        context: &mut AppContext,
        source: Option<&FrameBuffer>,
        target: Option<&FrameBuffer>,
    ) -> (outcome: Result<(), FrameError>)
        ensures
            outcome.is_ok(),
            final(context)@ == old(context)@.drawn(
                self.drawing(old(context)@, source, target),
                GpuState { viewport: old(context)@.state.viewport, target: None },
            ),
    {
        let viewport = context.viewport();
        match target {
            Some(target) => {
                target.bind(context);
                self.draw_pass(context);
                target.unbind(context, viewport.x, viewport.y, viewport.width, viewport.height);
                assert(context@.history =~= old(context)@.history + self.rendering(
                    viewport,
                    Some(target),
                ));
            },
            None => {
                self.render(context, viewport.x, viewport.y, viewport.width, viewport.height);
            },
        }
        Ok(())
    }

    /// The effect draws at the size of its target, whatever that is: nothing
    /// changes, and no call is made.
    fn resize<F: Fn(&Command) -> Reply>(
        &mut self,
        context: &mut AppContext,
        execute: &F,
        size: &Size,
    ) -> (outcome: Result<(), FrameError>)
        ensures
            outcome.is_ok(),
            *final(self) == *old(self),
            final(context)@ == old(context)@,
    {
        proof {
            lemma_followed_by_queuing(context@, Seq::empty());
        }
        Ok(())
    }
}

} // verus!
