//! Separable programs of a single stage, and the pipelines that combine them.
use vstd::prelude::*;
use crate::app::{AppContext, ContextView};
use crate::command::{Command, Reply, UniformLocation};
use crate::error::ResourceError;
use crate::gl::{FRAGMENT_SHADER_BIT, VERTEX_SHADER_BIT};
use crate::pending::{
    answers, disciplined, logged, made, released, unwind, verdict_at, Check, Object, ObjectKind,
    Progress, Step,
};
use crate::shader::{locate, locates};

verus! {

/// A separable program of one shader stage, owned by this value.
#[derive(Debug, PartialEq, Eq)]
pub struct Shader {
    /// The handle of the program.
    pub id: u32,
    /// The stage that the program runs at.
    pub stage: u32,
}

impl Shader {
    /// The calls that make this program from `source`: compile and link it
    /// in one call, fetch the log, and check that it linked.
    pub open spec fn setup(self, source: String) -> Seq<Step> {
        seq![
            Step::creating(
                Command::CreateShaderProgram { program: self.id, stage: self.stage, source },
                Command::DeleteProgram { program: self.id },
            ),
            Step::plain(Command::GetProgramInfoLog { program: self.id }),
            Step::checked(
                Command::GetProgramLinkStatus { program: self.id },
                Check::Compiled(self.stage),
            ),
        ]
    }

    /// The plan that makes a program accounts for the one object it makes.
    pub proof fn lemma_setup_disciplined(self, source: String)
        ensures
            disciplined(self.setup(source)),
    {
    }

    /// Whether `execute` makes the program but finds that its text does not
    /// compile or link: it does not refuse to create the program, it gives
    /// `log` as the program's info log, and it does not report the program
    /// as linked.
    pub open spec fn rejected_by<F: Fn(&Command) -> Reply>(
        self,
        execute: F,
        source: String,
        log: String,
    ) -> bool {
        &&& forall|reply: Reply| #[trigger]
            call_ensures(
                execute,
                (&Command::CreateShaderProgram { program: self.id, stage: self.stage, source },),
                reply,
            ) ==> !(reply is Failed)
        &&& forall|reply: Reply| #[trigger]
            call_ensures(execute, (&Command::GetProgramInfoLog { program: self.id },), reply)
                ==> reply == Reply::Text(log)
        &&& forall|reply: Reply| #[trigger]
            call_ensures(execute, (&Command::GetProgramLinkStatus { program: self.id },), reply)
                ==> reply != Reply::Flag(true)
    }

    /// A text that does not compile or link gives no program: where the
    /// driver rejects the text with the log `log`, the work of making the
    /// program fails with the stage and that log, and the one call that it
    /// queues deletes the one object that it had made.
    pub proof fn lemma_rejected_text_fails<F: Fn(&Command) -> Reply>(
        self,
        execute: F,
        source: String,
        log: String,
        progress: Progress<Shader>,
        earlier: ContextView,
        later: ContextView,
        outcome: Result<Shader, ResourceError>,
    )
        requires
            self.rejected_by(execute, source, log),
            progress.starts(self, self.setup(source), Seq::empty(), Seq::empty()),
            progress.settles_as(execute, earlier, later, outcome),
        ensures
            outcome == Err::<Shader, ResourceError>(ResourceError::CompileFailed(self.stage, log)),
            later == earlier.submit_all(seq![Command::DeleteProgram { program: self.id }]).flushed(),
            made(self.setup(source), 2) == seq![Object { kind: ObjectKind::Program, id: self.id }],
            released(seq![Command::DeleteProgram { program: self.id }]) == made(
                self.setup(source),
                2,
            ),
    {
        let pending = progress->More_0;
        let plan = self.setup(source);
        let replies = choose|replies: Seq<Reply>|
            {
                &&& answers(execute, progress.plan(), progress.position(), replies)
                &&& #[trigger] progress.comes_to(replies, earlier, later, outcome)
            };
        let last = replies.len() - 1;
        reveal_with_fuel(logged, 3);
        reveal_with_fuel(unwind, 3);
        reveal_with_fuel(made, 3);
        reveal_with_fuel(released, 3);
        assert(plan.len() == 3);
        if replies.len() >= 1 {
            assert(call_ensures(execute, (&plan[0].command,), replies[0]));
            assert(verdict_at(plan, 0, pending.log(), replies, 0).is_none());
        }
        if replies.len() >= 2 {
            assert(call_ensures(execute, (&plan[1].command,), replies[1]));
            assert(verdict_at(plan, 0, pending.log(), replies, 1).is_none());
        }
        if replies.len() >= 3 {
            assert(call_ensures(execute, (&plan[2].command,), replies[2]));
            assert(replies.take(2).drop_last() =~= replies.take(1));
            assert(replies.take(2).last() == replies[1]);
            assert(logged(pending.log(), replies.take(2)) == log);
            assert(verdict_at(plan, 0, pending.log(), replies, 2) == Some(
                ResourceError::CompileFailed(self.stage, log),
            ));
        }
        assert(unwind(plan, 2) =~= seq![Command::DeleteProgram { program: self.id }]);
        assert(unwind(plan, 2) + Seq::<Command>::empty() =~= unwind(plan, 2));
        let deleting = seq![Command::DeleteProgram { program: self.id }];
        assert(deleting.drop_first() =~= Seq::<Command>::empty());
    }

    /// Appends to `steps` the calls that make the program of handle `id`,
    /// and returns that program.
    pub(crate) fn stage(steps: &mut Vec<Step>, id: u32, shader_type: u32, source: String) -> (shader:
        Shader)
        ensures
            shader == (Shader { id, stage: shader_type }),
            final(steps)@ == old(steps)@ + shader.setup(source),
    {
        let ghost before = steps@;
        let shader = Shader { id, stage: shader_type };
        steps.push(
            Step::creating(
                Command::CreateShaderProgram { program: id, stage: shader_type, source },
                Command::DeleteProgram { program: id },
            ),
        );
        steps.push(Step::plain(Command::GetProgramInfoLog { program: id }));
        steps.push(
            Step::checked(Command::GetProgramLinkStatus { program: id }, Check::Compiled(shader_type)),
        );
        assert(steps@ =~= before + shader.setup(source));
        shader
    }

    /// Whether `progress` is the work of making a program of the stage
    /// `shader_type` from `source` when the context is `earlier`, and
    /// `planned` the context once the work is laid out.
    ///
    /// The work is [`Shader::setup`] on a text that reads as `source` does,
    /// and takes one handle. When no handle is left the work is done at
    /// once, with that error, and the context is as it was.
    pub open spec fn begins(
        earlier: ContextView,
        shader_type: u32,
        source: Seq<char>,
        progress: Progress<Shader>,
        planned: ContextView,
    ) -> bool {
        if earlier.handles_left() >= 1 {
            &&& planned == earlier.taking(1)
            &&& exists|text: String|
                text@ == source && #[trigger] progress.starts(
                    Shader { id: earlier.next, stage: shader_type },
                    (Shader { id: earlier.next, stage: shader_type }).setup(text),
                    Seq::empty(),
                    Seq::empty(),
                )
        } else {
            &&& planned == earlier
            &&& progress == Progress::Done(Err::<Shader, ResourceError>(ResourceError::OutOfHandles))
        }
    }

    /// Starts making a program of the stage `shader_type` from `source`, and
    /// leaves the calls to whoever carries the work on.
    pub fn begin(context: &mut AppContext, shader_type: u32, source: &str) -> (progress: Progress<
        Shader,
    >)
        ensures
            Shader::begins(old(context)@, shader_type, source@, progress, final(context)@),
    {
        let id = match context.reserve(1) {
            Some(id) => id,
            None => {
                return Progress::Done(Err(ResourceError::OutOfHandles));
            },
        };
        let text = source.to_owned();
        let mut steps: Vec<Step> = Vec::new();
        let shader = Shader::stage(&mut steps, id, shader_type, text);
        assert(steps@ =~= shader.setup(text));
        let progress = Progress::begin(context, shader, steps, Vec::new(), Vec::new());
        assert(progress.starts(
            Shader { id, stage: shader_type },
            (Shader { id, stage: shader_type }).setup(text),
            Seq::empty(),
            Seq::empty(),
        ));
        progress
    }

    /// Makes a program of the stage `shader_type` from `source`, with
    /// `execute` to carry out the calls.
    ///
    /// The work is that of [`Shader::begin`], carried through as
    /// [`Progress::settle`] does: a text that does not compile or link ends
    /// it with the stage and the driver's log, and the program is deleted.
    pub fn new<F: Fn(&Command) -> Reply>(
        context: &mut AppContext,
        execute: &F,
        shader_type: u32,
        source: &str,
    ) -> (outcome: Result<Shader, ResourceError>)
        requires
            forall|command: &Command| call_requires(*execute, (command,)),
        ensures
            exists|progress: Progress<Shader>, planned: ContextView|
                {
                    &&& Shader::begins(old(context)@, shader_type, source@, progress, planned)
                    &&& #[trigger] progress.settles_as(
                        *execute,
                        planned,
                        final(context)@,
                        outcome,
                    )
                },
    {
        Shader::begin(context, shader_type, source).settle(context, execute)
    }

    /// Starts asking for the location of the uniform `name`, and leaves the
    /// call to whoever carries the work on.
    pub fn begin_get_loc(&self, context: &mut AppContext, name: &str) -> (progress: Progress<
        UniformLocation,
    >)
        ensures
            locates(old(context)@, self.id, name@, progress, final(context)@),
    {
        locate(context, self.id, name)
    }

    /// Asks for the location of the uniform `name`, with `execute` to carry
    /// out the call.
    ///
    /// The work is that of [`Shader::begin_get_loc`], carried through as
    /// [`Progress::settle`] does: a program without such a uniform ends it
    /// with the name.
    pub fn get_loc<F: Fn(&Command) -> Reply>(
        &self,
        context: &mut AppContext,
        execute: &F,
        name: &str,
    ) -> (outcome: Result<UniformLocation, ResourceError>)
        requires
            forall|command: &Command| call_requires(*execute, (command,)),
        ensures
            exists|progress: Progress<UniformLocation>, planned: ContextView|
                {
                    &&& locates(old(context)@, self.id, name@, progress, planned)
                    &&& #[trigger] progress.settles_as(
                        *execute,
                        planned,
                        final(context)@,
                        outcome,
                    )
                },
    {
        self.begin_get_loc(context, name).settle(context, execute)
    }

    /// Queues the call that points the sampler uniform at `location` to the
    /// texture behind the bindless handle `val`, and says whether it did:
    /// without the bindless capability nothing is queued.
    pub fn uniform_1ui_arb(&self, context: &mut AppContext, location: UniformLocation, val: u64)
        -> (queued: bool)
        ensures
            queued == old(context)@.extensions.bindless,
            queued ==> final(context)@ == old(context)@.submit(
                Command::ProgramUniformHandle {
                    program: self.id,
                    location: location.slot,
                    handle: val,
                },
            ),
            !queued ==> final(context)@ == old(context)@,
    {
        let extensions = context.extensions();
        extensions.set_bindless_uniform(context, self.id, location, val)
    }

    /// Queues the call that sets a float uniform of this program to the
    /// number whose IEEE-754 bits are `val`.
    pub fn uniform_1f(&self, context: &mut AppContext, location: UniformLocation, val: u32)
        ensures
            final(context)@ == old(context)@.submit(
                Command::ProgramUniform1F32 {
                    program: self.id,
                    location: location.slot,
                    bits: val,
                },
            ),
    {
        context.submit(
            Command::ProgramUniform1F32 { program: self.id, location: location.slot, bits: val },
        );
    }

    /// Queues the call that sets an integer uniform of this program.
    pub fn uniform_1i(&self, context: &mut AppContext, location: UniformLocation, val: i32)
        ensures
            final(context)@ == old(context)@.submit(
                Command::ProgramUniform1I32 {
                    program: self.id,
                    location: location.slot,
                    value: val,
                },
            ),
    {
        context.submit(
            Command::ProgramUniform1I32 { program: self.id, location: location.slot, value: val },
        );
    }

    /// Queues the call that deletes this program, and gives the value up.
    pub fn delete(self, context: &mut AppContext)
        ensures
            final(context)@ == old(context)@.submit(Command::DeleteProgram { program: self.id }),
    {
        context.submit(Command::DeleteProgram { program: self.id });
    }
}

/// A program pipeline, owned by this value. It runs one separable program at
/// the vertex stage and one at the fragment stage.
#[derive(Debug, PartialEq, Eq)]
pub struct Pipeline {
    /// The handle of the pipeline.
    pub id: u32,
}

impl Pipeline {
    /// The calls that make this pipeline of the programs `vertex` and
    /// `fragment`: create it, put each program at its stage, validate, fetch
    /// the log, and check that it validated.
    pub open spec fn setup(self, vertex: u32, fragment: u32) -> Seq<Step> {
        seq![
            Step::creating(
                Command::CreateProgramPipeline { pipeline: self.id },
                Command::DeleteProgramPipeline { pipeline: self.id },
            ),
            Step::plain(
                Command::UseProgramStages {
                    pipeline: self.id,
                    stages: VERTEX_SHADER_BIT,
                    program: vertex,
                },
            ),
            Step::plain(
                Command::UseProgramStages {
                    pipeline: self.id,
                    stages: FRAGMENT_SHADER_BIT,
                    program: fragment,
                },
            ),
            Step::plain(Command::ValidateProgramPipeline { pipeline: self.id }),
            Step::plain(Command::GetProgramPipelineInfoLog { pipeline: self.id }),
            Step::checked(
                Command::GetProgramPipelineValidateStatus { pipeline: self.id },
                Check::Valid,
            ),
        ]
    }

    /// The plan that makes a pipeline accounts for the one object it makes.
    pub proof fn lemma_setup_disciplined(self, vertex: u32, fragment: u32)
        ensures
            disciplined(self.setup(vertex, fragment)),
    {
    }

    /// Appends to `steps` the calls that make the pipeline of handle `id`,
    /// and returns that pipeline.
    pub(crate) fn stage(steps: &mut Vec<Step>, id: u32, vertex: u32, fragment: u32) -> (pipeline:
        Pipeline)
        ensures
            pipeline == (Pipeline { id }),
            final(steps)@ == old(steps)@ + pipeline.setup(vertex, fragment),
    {
        let ghost before = steps@;
        let pipeline = Pipeline { id };
        steps.push(
            Step::creating(
                Command::CreateProgramPipeline { pipeline: id },
                Command::DeleteProgramPipeline { pipeline: id },
            ),
        );
        steps.push(
            Step::plain(
                Command::UseProgramStages {
                    pipeline: id,
                    stages: VERTEX_SHADER_BIT,
                    program: vertex,
                },
            ),
        );
        steps.push(
            Step::plain(
                Command::UseProgramStages {
                    pipeline: id,
                    stages: FRAGMENT_SHADER_BIT,
                    program: fragment,
                },
            ),
        );
        steps.push(Step::plain(Command::ValidateProgramPipeline { pipeline: id }));
        steps.push(Step::plain(Command::GetProgramPipelineInfoLog { pipeline: id }));
        steps.push(
            Step::checked(Command::GetProgramPipelineValidateStatus { pipeline: id }, Check::Valid),
        );
        assert(steps@ =~= before + pipeline.setup(vertex, fragment));
        pipeline
    }

    /// Whether `progress` is the work of making a pipeline of the programs
    /// `vertex` and `fragment` when the context is `earlier`, and `planned`
    /// the context once the work is laid out.
    ///
    /// The work is [`Pipeline::setup`], and takes one handle. When no handle
    /// is left the work is done at once, with that error, and the context is
    /// as it was.
    pub open spec fn begins(
        earlier: ContextView,
        vertex: u32,
        fragment: u32,
        progress: Progress<Pipeline>,
        planned: ContextView,
    ) -> bool {
        if earlier.handles_left() >= 1 {
            &&& planned == earlier.taking(1)
            &&& progress.starts(
                Pipeline { id: earlier.next },
                (Pipeline { id: earlier.next }).setup(vertex, fragment),
                Seq::empty(),
                Seq::empty(),
            )
        } else {
            &&& planned == earlier
            &&& progress == Progress::Done(
                Err::<Pipeline, ResourceError>(ResourceError::OutOfHandles),
            )
        }
    }

    /// Starts making a pipeline of a vertex and a fragment program, and
    /// leaves the calls to whoever carries the work on.
    pub fn begin(context: &mut AppContext, vertex_shader: &Shader, fragment_shader: &Shader) -> (progress:
        Progress<Pipeline>)
        ensures
            Pipeline::begins(
                old(context)@,
                vertex_shader.id,
                fragment_shader.id,
                progress,
                final(context)@,
            ),
    {
        let id = match context.reserve(1) {
            Some(id) => id,
            None => {
                return Progress::Done(Err(ResourceError::OutOfHandles));
            },
        };
        let mut steps: Vec<Step> = Vec::new();
        let pipeline = Pipeline::stage(&mut steps, id, vertex_shader.id, fragment_shader.id);
        assert(steps@ =~= pipeline.setup(vertex_shader.id, fragment_shader.id));
        Progress::begin(context, pipeline, steps, Vec::new(), Vec::new())
    }

    /// Makes a pipeline of a vertex and a fragment program, with `execute`
    /// to carry out the calls.
    ///
    /// The work is that of [`Pipeline::begin`], carried through as
    /// [`Progress::settle`] does: a pipeline that does not validate ends it
    /// with the driver's log, and is deleted.
    pub fn new<F: Fn(&Command) -> Reply>(
        context: &mut AppContext,
        execute: &F,
        vertex_shader: &Shader,
        fragment_shader: &Shader,
    ) -> (outcome: Result<Pipeline, ResourceError>)
        requires
            forall|command: &Command| call_requires(*execute, (command,)),
        ensures
            exists|progress: Progress<Pipeline>, planned: ContextView|
                {
                    &&& Pipeline::begins(
                        old(context)@,
                        vertex_shader.id,
                        fragment_shader.id,
                        progress,
                        planned,
                    )
                    &&& #[trigger] progress.settles_as(
                        *execute,
                        planned,
                        final(context)@,
                        outcome,
                    )
                },
    {
        Pipeline::begin(context, vertex_shader, fragment_shader).settle(context, execute)
    }

    /// Queues the calls that put the program `shader_id` at the stages
    /// `stage` of this pipeline, and validate the pipeline again.
    pub fn use_shader(&self, context: &mut AppContext, stage: u32, shader_id: u32)
        ensures
            final(context)@ == old(context)@.submit(
                Command::UseProgramStages { pipeline: self.id, stages: stage, program: shader_id },
            ).submit(Command::ValidateProgramPipeline { pipeline: self.id }),
    {
        context.submit(
            Command::UseProgramStages { pipeline: self.id, stages: stage, program: shader_id },
        );
        context.submit(Command::ValidateProgramPipeline { pipeline: self.id });
    }

    /// Queues the call that makes this the pipeline that draw calls run.
    pub fn bind(&self, context: &mut AppContext)
        ensures
            final(context)@ == old(context)@.submit(
                Command::BindProgramPipeline { pipeline: self.id },
            ),
    {
        context.submit(Command::BindProgramPipeline { pipeline: self.id });
    }

    /// Queues the call that deletes this pipeline, and gives the value up.
    pub fn delete(self, context: &mut AppContext)
        ensures
            final(context)@ == old(context)@.submit(
                Command::DeleteProgramPipeline { pipeline: self.id },
            ),
    {
        context.submit(Command::DeleteProgramPipeline { pipeline: self.id });
    }
}

} // verus!
