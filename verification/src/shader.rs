//! Programs linked from a vertex and a fragment shader.
use vstd::prelude::*;
use crate::app::{AppContext, ContextView};
use crate::command::{Command, Reply, UniformLocation};
use crate::error::ResourceError;
use crate::gl::{FRAGMENT_SHADER, VERTEX_SHADER};
use crate::pending::{
    answers, disciplined, lemma_disciplined_concat, logged, made, unwind, verdict_at, Check,
    Object, ObjectKind, Progress, Step,
};

verus! {

/// The coordinates of `points` in a row: x0, y0, x1, y1, and so on.
pub open spec fn flattened(points: Seq<(u32, u32)>) -> Seq<u32> {
    Seq::new(
        2 * points.len(),
        |i: int|
            if i % 2 == 0 {
                points[i / 2].0
            } else {
                points[i / 2].1
            },
    )
}

/// Computes [`flattened`].
pub fn flatten(points: &Vec<(u32, u32)>) -> (coordinates: Vec<u32>)
    ensures
        coordinates@ == flattened(points@),
{
    let mut coordinates: Vec<u32> = Vec::new();
    let mut index: usize = 0;
    while index < points.len()
        invariant
            0 <= index <= points@.len(),
            coordinates@.len() == 2 * index,
            forall|i: int|
                0 <= i < 2 * index ==> #[trigger] coordinates@[i] == flattened(points@)[i],
        decreases points@.len() - index,
    {
        let point = points[index];
        coordinates.push(point.0);
        coordinates.push(point.1);
        index += 1;
    }
    assert(coordinates@ =~= flattened(points@));
    coordinates
}

/// The calls that make the shader of handle `shader` from `source`: create
/// it, hand it the text, compile it, fetch the log, and check that it
/// compiled.
pub open spec fn compile(shader: u32, stage: u32, source: String) -> Seq<Step> {
    seq![
        Step::creating(Command::CreateShader { shader, stage }, Command::DeleteShader { shader }),
        Step::plain(Command::ShaderSource { shader, source }),
        Step::plain(Command::CompileShader { shader }),
        Step::plain(Command::GetShaderInfoLog { shader }),
        Step::checked(Command::GetShaderCompileStatus { shader }, Check::Compiled(stage)),
    ]
}

/// The step that asks for the location of uniform `name` of `program`, names
/// it `slot`, and fails if the program has no such uniform.
pub open spec fn lookup(program: u32, name: String, slot: u32) -> Step {
    Step::checked(
        Command::GetUniformLocation { program, name, location: slot },
        Check::Located(name),
    )
}

/// The plan that makes a shader accounts for the one object it makes, and a
/// look-up makes none.
pub proof fn lemma_compile_disciplined(shader: u32, stage: u32, source: String)
    ensures
        disciplined(compile(shader, stage, source)),
{
}

/// A look-up makes no object and deletes none.
pub proof fn lemma_lookup_disciplined(program: u32, name: String, slot: u32)
    ensures
        disciplined(seq![lookup(program, name, slot)]),
{
}

/// Appends [`compile`] to `steps`.
fn stage_compile(steps: &mut Vec<Step>, shader: u32, stage: u32, source: String)
    ensures
        final(steps)@ == old(steps)@ + compile(shader, stage, source),
{
    let ghost before = steps@;
    steps.push(
        Step::creating(Command::CreateShader { shader, stage }, Command::DeleteShader { shader }),
    );
    steps.push(Step::plain(Command::ShaderSource { shader, source }));
    steps.push(Step::plain(Command::CompileShader { shader }));
    steps.push(Step::plain(Command::GetShaderInfoLog { shader }));
    steps.push(Step::checked(Command::GetShaderCompileStatus { shader }, Check::Compiled(stage)));
    assert(steps@ =~= before + compile(shader, stage, source));
}

/// Appends [`lookup`] to `steps`, and returns the location.
pub(crate) fn stage_lookup(steps: &mut Vec<Step>, program: u32, name: String, slot: u32) -> (location:
    UniformLocation)
    ensures
        location.slot == slot,
        final(steps)@ == old(steps)@.push(lookup(program, name, slot)),
{
    let wanted = name.clone();
    steps.push(
        Step::checked(
            Command::GetUniformLocation { program, name, location: slot },
            Check::Located(wanted),
        ),
    );
    UniformLocation { slot }
}

/// Whether `progress` is the work of asking for the location of the uniform
/// `name` of `program` when the context is `earlier`, and `planned` the
/// context once the work is laid out.
///
/// The work is the one step [`lookup`], and takes one handle, by which the
/// location is named. When no handle is left the work is done at once, with
/// that error, and the context is as it was.
pub open spec fn locates(
    earlier: ContextView,
    program: u32,
    name: Seq<char>,
    progress: Progress<UniformLocation>,
    planned: ContextView,
) -> bool {
    if earlier.handles_left() >= 1 {
        &&& planned == earlier.taking(1)
        &&& exists|text: String|
            text@ == name && #[trigger] progress.starts(
                UniformLocation { slot: earlier.next },
                seq![lookup(program, text, earlier.next)],
                Seq::empty(),
                Seq::empty(),
            )
    } else {
        &&& planned == earlier
        &&& progress == Progress::Done(
            Err::<UniformLocation, ResourceError>(ResourceError::OutOfHandles),
        )
    }
}

/// Starts asking for the location of uniform `name` of `program`.
pub(crate) fn locate(context: &mut AppContext, program: u32, name: &str) -> (progress: Progress<
    UniformLocation,
>)
    ensures
        locates(old(context)@, program, name@, progress, final(context)@),
{
    let slot = match context.reserve(1) {
        Some(slot) => slot,
        None => {
            return Progress::Done(Err(ResourceError::OutOfHandles));
        },
    };
    let text = name.to_owned();
    let mut steps: Vec<Step> = Vec::new();
    let location = stage_lookup(&mut steps, program, text, slot);
    assert(steps@ =~= seq![lookup(program, text, slot)]);
    let progress = Progress::begin(context, location, steps, Vec::new(), Vec::new());
    assert(progress.starts(
        UniformLocation { slot },
        seq![lookup(program, text, slot)],
        Seq::empty(),
        Seq::empty(),
    ));
    progress
}

/// A linked program of a vertex and a fragment stage, owned by this value.
#[derive(Debug, PartialEq, Eq)]
pub struct Shader {
    /// The handle of the program.
    pub id: u32,
}

impl Shader {
    /// The calls that make this program from the two texts: compile the
    /// vertex shader `vertex`, then the fragment shader `fragment`, create
    /// the program, attach both, link, fetch the log, and check that it
    /// linked.
    pub open spec fn setup(
        self,
        vertex: u32,
        fragment: u32,
        vertex_source: String,
        fragment_source: String,
    ) -> Seq<Step> {
        compile(vertex, VERTEX_SHADER, vertex_source) + compile(
            fragment,
            FRAGMENT_SHADER,
            fragment_source,
        ) + seq![
            Step::creating(
                Command::CreateProgram { program: self.id },
                Command::DeleteProgram { program: self.id },
            ),
            Step::plain(Command::AttachShader { program: self.id, shader: vertex }),
            Step::plain(Command::AttachShader { program: self.id, shader: fragment }),
            Step::plain(Command::LinkProgram { program: self.id }),
            Step::plain(Command::GetProgramInfoLog { program: self.id }),
            Step::checked(Command::GetProgramLinkStatus { program: self.id }, Check::Linked),
        ]
    }

    /// The plan that makes a program accounts for the three objects it
    /// makes.
    pub proof fn lemma_setup_disciplined(
        self,
        vertex: u32,
        fragment: u32,
        vertex_source: String,
        fragment_source: String,
    )
        ensures
            disciplined(self.setup(vertex, fragment, vertex_source, fragment_source)),
    {
        let first = compile(vertex, VERTEX_SHADER, vertex_source);
        let second = compile(fragment, FRAGMENT_SHADER, fragment_source);
        let tail = seq![
            Step::creating(
                Command::CreateProgram { program: self.id },
                Command::DeleteProgram { program: self.id },
            ),
            Step::plain(Command::AttachShader { program: self.id, shader: vertex }),
            Step::plain(Command::AttachShader { program: self.id, shader: fragment }),
            Step::plain(Command::LinkProgram { program: self.id }),
            Step::plain(Command::GetProgramInfoLog { program: self.id }),
            Step::checked(Command::GetProgramLinkStatus { program: self.id }, Check::Linked),
        ];
        lemma_compile_disciplined(vertex, VERTEX_SHADER, vertex_source);
        lemma_compile_disciplined(fragment, FRAGMENT_SHADER, fragment_source);
        assert(disciplined(tail));
        lemma_disciplined_concat(first, second);
        lemma_disciplined_concat(first + second, tail);
    }

    /// Whether `execute` makes the vertex shader `vertex` but finds that its
    /// text does not compile: it does not refuse to create the shader, it
    /// gives `log` as the shader's info log, and it does not report the
    /// shader as compiled.
    pub open spec fn rejected_by<F: Fn(&Command) -> Reply>(
        execute: F,
        vertex: u32,
        log: String,
    ) -> bool {
        &&& forall|reply: Reply| #[trigger]
            call_ensures(
                execute,
                (&Command::CreateShader { shader: vertex, stage: VERTEX_SHADER },),
                reply,
            ) ==> !(reply is Failed)
        &&& forall|reply: Reply| #[trigger]
            call_ensures(execute, (&Command::GetShaderInfoLog { shader: vertex },), reply)
                ==> reply == Reply::Text(log)
        &&& forall|reply: Reply| #[trigger]
            call_ensures(execute, (&Command::GetShaderCompileStatus { shader: vertex },), reply)
                ==> reply != Reply::Flag(true)
    }

    /// A vertex shader that does not compile gives no program: where the
    /// driver rejects its text with the log `log`, the work of making the
    /// program fails with the vertex stage and that log, before a program
    /// object is asked for, and the one call that it queues deletes the one
    /// object that it had made.
    pub proof fn lemma_rejected_text_fails<F: Fn(&Command) -> Reply>(
        self,
        execute: F,
        vertex: u32,
        fragment: u32,
        vertex_source: String,
        fragment_source: String,
        log: String,
        progress: Progress<Shader>,
        earlier: ContextView,
        later: ContextView,
        outcome: Result<Shader, ResourceError>,
    )
        requires
            Shader::rejected_by(execute, vertex, log),
            progress.starts(
                self,
                self.setup(vertex, fragment, vertex_source, fragment_source),
                Shader::discard(vertex, fragment),
                Seq::empty(),
            ),
            progress.settles_as(execute, earlier, later, outcome),
        ensures
            outcome == Err::<Shader, ResourceError>(
                ResourceError::CompileFailed(VERTEX_SHADER, log),
            ),
            later == earlier.submit_all(seq![Command::DeleteShader { shader: vertex }]).flushed(),
            made(self.setup(vertex, fragment, vertex_source, fragment_source), 4) == seq![
                Object { kind: ObjectKind::Shader, id: vertex },
            ],
    {
        let pending = progress->More_0;
        let plan = self.setup(vertex, fragment, vertex_source, fragment_source);
        let head = compile(vertex, VERTEX_SHADER, vertex_source);
        let replies = choose|replies: Seq<Reply>|
            {
                &&& answers(execute, progress.plan(), progress.position(), replies)
                &&& #[trigger] progress.comes_to(replies, earlier, later, outcome)
            };
        reveal_with_fuel(logged, 2);
        reveal_with_fuel(unwind, 5);
        reveal_with_fuel(made, 5);
        assert(plan.len() == 16);
        assert forall|i: int| 0 <= i < 5 implies plan[i] == head[i] by {}
        if replies.len() >= 1 {
            assert(call_ensures(execute, (&plan[0].command,), replies[0]));
            assert(verdict_at(plan, 0, pending.log(), replies, 0).is_none());
        }
        if replies.len() >= 2 {
            assert(verdict_at(plan, 0, pending.log(), replies, 1).is_none());
        }
        if replies.len() >= 3 {
            assert(verdict_at(plan, 0, pending.log(), replies, 2).is_none());
        }
        if replies.len() >= 4 {
            assert(verdict_at(plan, 0, pending.log(), replies, 3).is_none());
        }
        if replies.len() >= 5 {
            assert(call_ensures(execute, (&plan[3].command,), replies[3]));
            assert(call_ensures(execute, (&plan[4].command,), replies[4]));
            assert(replies.take(4).last() == replies[3]);
            assert(logged(pending.log(), replies.take(4)) == log);
            assert(verdict_at(plan, 0, pending.log(), replies, 4) == Some(
                ResourceError::CompileFailed(VERTEX_SHADER, log),
            ));
        }
        assert(unwind(plan, 4) =~= seq![Command::DeleteShader { shader: vertex }]);
        assert(unwind(plan, 4) + Seq::<Command>::empty() =~= unwind(plan, 4));
    }

    /// The calls that delete the two shaders once the program is linked.
    pub open spec fn discard(vertex: u32, fragment: u32) -> Seq<Command> {
        seq![Command::DeleteShader { shader: vertex }, Command::DeleteShader { shader: fragment }]
    }

    /// Appends to `steps` the calls that make a program whose vertex shader
    /// has the handle `first`, its fragment shader the next and the program
    /// the one after, and to `commit` the calls that delete the two shaders.
    pub(crate) fn stage(
        steps: &mut Vec<Step>,
        commit: &mut Vec<Command>,
        first: u32,
        vertex_source: String,
        fragment_source: String,
    ) -> (shader: Shader)
        requires
            first <= u32::MAX - 2,
        ensures
            shader.id == first + 2,
            final(steps)@ == old(steps)@ + shader.setup(
                first,
                (first + 1) as u32,
                vertex_source,
                fragment_source,
            ),
            final(commit)@ == old(commit)@ + Shader::discard(first, (first + 1) as u32),
    {
        let ghost before = steps@;
        let ghost before_commit = commit@;
        let vertex = first;
        let fragment = first + 1;
        let program = first + 2;
        stage_compile(steps, vertex, VERTEX_SHADER, vertex_source);
        stage_compile(steps, fragment, FRAGMENT_SHADER, fragment_source);
        steps.push(
            Step::creating(Command::CreateProgram { program }, Command::DeleteProgram { program }),
        );
        steps.push(Step::plain(Command::AttachShader { program, shader: vertex }));
        steps.push(Step::plain(Command::AttachShader { program, shader: fragment }));
        steps.push(Step::plain(Command::LinkProgram { program }));
        steps.push(Step::plain(Command::GetProgramInfoLog { program }));
        steps.push(Step::checked(Command::GetProgramLinkStatus { program }, Check::Linked));
        commit.push(Command::DeleteShader { shader: vertex });
        commit.push(Command::DeleteShader { shader: fragment });
        let shader = Shader { id: program };
        assert(steps@ =~= before + shader.setup(vertex, fragment, vertex_source, fragment_source));
        assert(commit@ =~= before_commit + Shader::discard(vertex, fragment));
        shader
    }

    /// Whether `progress` is the work that makes a program from texts that
    /// read `vertex_source` and `fragment_source`, with the three handles
    /// from `first` on.
    pub open spec fn builds(
        progress: Progress<Shader>,
        first: u32,
        vertex_source: Seq<char>,
        fragment_source: Seq<char>,
    ) -> bool {
        exists|vertex_text: String, fragment_text: String|
            {
                &&& vertex_text@ == vertex_source
                &&& fragment_text@ == fragment_source
                &&& #[trigger] progress.starts(
                    Shader { id: (first + 2) as u32 },
                    (Shader { id: (first + 2) as u32 }).setup(
                        first,
                        (first + 1) as u32,
                        vertex_text,
                        fragment_text,
                    ),
                    Shader::discard(first, (first + 1) as u32),
                    Seq::empty(),
                )
            }
    }

    /// Whether `progress` is the work of making a program from the two texts
    /// when the context is `earlier`, and `planned` the context once the work
    /// is laid out.
    ///
    /// The work is [`Shader::setup`], with three handles: the vertex
    /// shader's, the fragment shader's and the program's. When it succeeds,
    /// the calls that delete the two shaders are queued. When fewer than
    /// three handles are left the work is done at once, with that error, and
    /// the context is as it was.
    pub open spec fn begins(
        earlier: ContextView,
        vertex_source: Seq<char>,
        fragment_source: Seq<char>,
        progress: Progress<Shader>,
        planned: ContextView,
    ) -> bool {
        if earlier.handles_left() >= 3 {
            &&& planned == earlier.taking(3)
            &&& Shader::builds(progress, earlier.next, vertex_source, fragment_source)
        } else {
            &&& planned == earlier
            &&& progress == Progress::Done(Err::<Shader, ResourceError>(ResourceError::OutOfHandles))
        }
    }

    /// Starts making a program from the texts of its two shaders, and leaves
    /// the calls to whoever carries the work on.
    pub fn begin(context: &mut AppContext, vertex_source: &str, fragment_source: &str) -> (progress:
        Progress<Shader>)
        ensures
            Shader::begins(
                old(context)@,
                vertex_source@,
                fragment_source@,
                progress,
                final(context)@,
            ),
    {
        let first = match context.reserve(3) {
            Some(first) => first,
            None => {
                return Progress::Done(Err(ResourceError::OutOfHandles));
            },
        };
        let vertex_text = vertex_source.to_owned();
        let fragment_text = fragment_source.to_owned();
        let mut steps: Vec<Step> = Vec::new();
        let mut commit: Vec<Command> = Vec::new();
        let shader = Shader::stage(&mut steps, &mut commit, first, vertex_text, fragment_text);
        assert(steps@ =~= shader.setup(first, (first + 1) as u32, vertex_text, fragment_text));
        assert(commit@ =~= Shader::discard(first, (first + 1) as u32));
        let progress = Progress::begin(context, shader, steps, commit, Vec::new());
        assert(progress.starts(
            Shader { id: (first + 2) as u32 },
            (Shader { id: (first + 2) as u32 }).setup(
                first,
                (first + 1) as u32,
                vertex_text,
                fragment_text,
            ),
            Shader::discard(first, (first + 1) as u32),
            Seq::empty(),
        ));
        progress
    }

    /// Makes a program from the texts of its two shaders, with `execute` to
    /// carry out the calls.
    ///
    /// The work is that of [`Shader::begin`], carried through as
    /// [`Progress::settle`] does: a shader that does not compile, and a
    /// program that does not link, end it with the driver's log, and what
    /// had been made is deleted.
    pub fn new<F: Fn(&Command) -> Reply>(
        context: &mut AppContext,
        execute: &F,
        vertex_source: &str,
        fragment_source: &str,
    ) -> (outcome: Result<Shader, ResourceError>)
        requires
            forall|command: &Command| call_requires(*execute, (command,)),
        ensures
            exists|progress: Progress<Shader>, planned: ContextView|
                {
                    &&& Shader::begins(
                        old(context)@,
                        vertex_source@,
                        fragment_source@,
                        progress,
                        planned,
                    )
                    &&& #[trigger] progress.settles_as(
                        *execute,
                        planned,
                        final(context)@,
                        outcome,
                    )
                },
    {
        Shader::begin(context, vertex_source, fragment_source).settle(context, execute)
    }

    /// Starts asking for the location of the uniform `name`, and leaves the
    /// call to whoever carries the work on.
    pub fn begin_get_loc(&self, context: &mut AppContext, name: &str) -> (progress: Progress<
        UniformLocation,
    >)
        ensures
            locates(old(context)@, self.id, name@, progress, final(context)@),
    {
        locate(context, self.id, name)
    }

    /// Asks for the location of the uniform `name`, with `execute` to carry
    /// out the call.
    ///
    /// The work is that of [`Shader::begin_get_loc`], carried through as
    /// [`Progress::settle`] does: a program without such a uniform ends it
    /// with the name.
    pub fn get_loc<F: Fn(&Command) -> Reply>(
        &self,
        context: &mut AppContext,
        execute: &F,
        name: &str,
    ) -> (outcome: Result<UniformLocation, ResourceError>)
        requires
            forall|command: &Command| call_requires(*execute, (command,)),
        ensures
            exists|progress: Progress<UniformLocation>, planned: ContextView|
                {
                    &&& locates(old(context)@, self.id, name@, progress, planned)
                    &&& #[trigger] progress.settles_as(
                        *execute,
                        planned,
                        final(context)@,
                        outcome,
                    )
                },
    {
        self.begin_get_loc(context, name).settle(context, execute)
    }

    /// Queues the call that makes this the program that draw calls run.
    pub fn use_program(&self, context: &mut AppContext)
        ensures
            final(context)@ == old(context)@.submit(Command::UseProgram { program: Some(self.id) }),
    {
        context.submit(Command::UseProgram { program: Some(self.id) });
    }

    /// Queues the call that sets an integer uniform of the program in use.
    pub fn uniform_1i(&self, context: &mut AppContext, location: &UniformLocation, v0: i32)
        ensures
            final(context)@ == old(context)@.submit(
                Command::Uniform1I32 { location: location.slot, value: v0 },
            ),
    {
        context.submit(Command::Uniform1I32 { location: location.slot, value: v0 });
    }

    /// Queues the call that sets a float uniform of the program in use to
    /// the number whose IEEE-754 bits are `v0`.
    pub fn uniform_1f(&self, context: &mut AppContext, location: &UniformLocation, v0: u32)
        ensures
            final(context)@ == old(context)@.submit(
                Command::Uniform1F32 { location: location.slot, bits: v0 },
            ),
    {
        context.submit(Command::Uniform1F32 { location: location.slot, bits: v0 });
    }

    /// Queues the call that sets an array of two-component float uniforms of
    /// the program in use to `points`, given as the IEEE-754 bits of their
    /// coordinates.
    pub fn uniform_2f_slice(
        &self,
        context: &mut AppContext,
        location: &UniformLocation,
        points: &Vec<(u32, u32)>,
    )
        ensures
            exists|coordinates: Vec<u32>|
                coordinates@ == flattened(points@) && final(context)@ == #[trigger] old(
                    context,
                )@.submit(Command::Uniform2F32Slice { location: location.slot, bits: coordinates }),
    {
        let coordinates = flatten(points);
        let ghost uploaded = coordinates;
        context.submit(Command::Uniform2F32Slice { location: location.slot, bits: coordinates });
        assert(context@ == old(context)@.submit(
            Command::Uniform2F32Slice { location: location.slot, bits: uploaded },
        ));
    }

    /// Queues the call that deletes this program, and gives the value up.
    pub fn delete(self, context: &mut AppContext)
        ensures
            final(context)@ == old(context)@.submit(Command::DeleteProgram { program: self.id }),
    {
        context.submit(Command::DeleteProgram { program: self.id });
    }
}

} // verus!
