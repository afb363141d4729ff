//! Work on GPU objects that takes several calls, any of which the driver may
//! refuse.
//!
//! Such work is laid out in advance as a plan of [`Step`]s. One call at a
//! time is carried out, and [`Pending::advance`] decides from the driver's
//! answer whether to go on, to finish, or to give up and take back what the
//! steps so far have done. [`Progress::settle`] runs that loop over a
//! function that carries out calls; a program that would rather carry them
//! out itself runs the loop itself.
use vstd::prelude::*;
use crate::app::{
    lemma_followed_by_queuing, lemma_replay_neutral, neutral, AppContext, ContextView,
};
use crate::command::{Command, Reply};
use crate::error::ResourceError;
use crate::gl::FRAMEBUFFER_COMPLETE;

verus! {

/// What the answer to a call must be for the work to go on.
#[derive(Clone, Debug, PartialEq, Eq)]
pub enum Check {
    /// Any answer will do.
    Nothing,
    /// The driver made the object.
    Created,
    /// The status is that of a complete framebuffer.
    Complete,
    /// The flag is set: the shader of this stage compiled.
    Compiled(u32),
    /// The flag is set: the program linked.
    Linked,
    /// The flag is set: the pipeline validated.
    Valid,
    /// The flag is set: the program has the uniform of this name.
    Located(String),
}

/// One call of a plan, the check on its answer, and the call that takes it
/// back should a later step fail.
#[derive(Clone, Debug, PartialEq, Eq)]
pub struct Step {
    pub command: Command,
    pub check: Check,
    pub undo: Option<Command>,
}

impl Step {
    /// A step whose answer is not looked at and that leaves nothing to take
    /// back.
    pub open spec fn spec_plain(command: Command) -> Step {
        Step { command, check: Check::Nothing, undo: None }
    }

    /// Computes [`Step::spec_plain`].
    #[verifier::when_used_as_spec(spec_plain)]
    pub fn plain(command: Command) -> (step: Step)
        ensures
            step == Step::spec_plain(command),
    {
        Step { command, check: Check::Nothing, undo: None }
    }

    /// A step whose answer must pass `check` and that leaves nothing to take
    /// back.
    pub open spec fn spec_checked(command: Command, check: Check) -> Step {
        Step { command, check, undo: None }
    }

    /// Computes [`Step::spec_checked`].
    #[verifier::when_used_as_spec(spec_checked)]
    pub fn checked(command: Command, check: Check) -> (step: Step)
        ensures
            step == Step::spec_checked(command, check),
    {
        Step { command, check, undo: None }
    }

    /// A step whose answer is not looked at and which `undo` takes back.
    pub open spec fn spec_reversible(command: Command, undo: Command) -> Step {
        Step { command, check: Check::Nothing, undo: Some(undo) }
    }

    /// Computes [`Step::spec_reversible`].
    #[verifier::when_used_as_spec(spec_reversible)]
    pub fn reversible(command: Command, undo: Command) -> (step: Step)
        ensures
            step == Step::spec_reversible(command, undo),
    {
        Step { command, check: Check::Nothing, undo: Some(undo) }
    }

    /// A step that makes an object, which `undo` deletes again.
    pub open spec fn spec_creating(command: Command, undo: Command) -> Step {
        Step { command, check: Check::Created, undo: Some(undo) }
    }

    /// Computes [`Step::spec_creating`].
    #[verifier::when_used_as_spec(spec_creating)]
    pub fn creating(command: Command, undo: Command) -> (step: Step)
        ensures
            step == Step::spec_creating(command, undo),
    {
        Step { command, check: Check::Created, undo: Some(undo) }
    }
}

/// The error that `reply` amounts to under `check`, if it is one. `log` is
/// the driver's last info log.
pub open spec fn verdict(check: Check, reply: Reply, log: String) -> Option<ResourceError> {
    match check {
        Check::Nothing => None,
        Check::Created => match reply {
            Reply::Failed(reason) => Some(ResourceError::AllocationFailed(reason)),
            _ => None,
        },
        Check::Complete => match reply {
            Reply::Status(status) => if status == FRAMEBUFFER_COMPLETE {
                None
            } else {
                Some(ResourceError::IncompleteFramebuffer(status))
            },
            _ => Some(ResourceError::IncompleteFramebuffer(0)),
        },
        Check::Compiled(stage) => if reply == Reply::Flag(true) {
            None
        } else {
            Some(ResourceError::CompileFailed(stage, log))
        },
        Check::Linked => if reply == Reply::Flag(true) {
            None
        } else {
            Some(ResourceError::LinkFailed(log))
        },
        Check::Valid => if reply == Reply::Flag(true) {
            None
        } else {
            Some(ResourceError::PipelineInvalid(log))
        },
        Check::Located(name) => if reply == Reply::Flag(true) {
            None
        } else {
            Some(ResourceError::UniformNotFound(name))
        },
    }
}

/// The driver's last info log once `reply` has come in.
pub open spec fn noted(log: String, reply: Reply) -> String {
    match reply {
        Reply::Text(text) => text,
        _ => log,
    }
}

/// The calls that take back the first `executed` steps of `plan`, the latest
/// step first.
pub open spec fn unwind(plan: Seq<Step>, executed: int) -> Seq<Command>
    decreases executed,
{
    if executed <= 0 {
        Seq::empty()
    } else {
        match plan[executed - 1].undo {
            Some(command) => seq![command] + unwind(plan, executed - 1),
            None => unwind(plan, executed - 1),
        }
    }
}

/// The kinds of object that the driver makes.
#[derive(Clone, Copy, Debug, PartialEq, Eq, Structural)]
pub enum ObjectKind {
    Texture,
    Framebuffer,
    Shader,
    Program,
    Pipeline,
    Buffer,
    VertexArray,
}

/// An object of the driver: its kind and its handle.
#[derive(Clone, Copy, Debug, PartialEq, Eq, Structural)]
pub struct Object {
    pub kind: ObjectKind,
    pub id: u32,
}

/// The object that `command` asks the driver to make, if it asks for one.
pub open spec fn makes(command: Command) -> Option<Object> {
    match command {
        Command::CreateTexture { texture, .. } => Some(
            Object { kind: ObjectKind::Texture, id: texture },
        ),
        Command::CreateFramebuffer { framebuffer } => Some(
            Object { kind: ObjectKind::Framebuffer, id: framebuffer },
        ),
        Command::CreateShader { shader, .. } => Some(
            Object { kind: ObjectKind::Shader, id: shader },
        ),
        Command::CreateProgram { program } => Some(
            Object { kind: ObjectKind::Program, id: program },
        ),
        Command::CreateShaderProgram { program, .. } => Some(
            Object { kind: ObjectKind::Program, id: program },
        ),
        Command::CreateProgramPipeline { pipeline } => Some(
            Object { kind: ObjectKind::Pipeline, id: pipeline },
        ),
        Command::CreateBuffer { buffer } => Some(Object { kind: ObjectKind::Buffer, id: buffer }),
        Command::CreateVertexArray { vertex_array } => Some(
            Object { kind: ObjectKind::VertexArray, id: vertex_array },
        ),
        _ => None,
    }
}

/// The object that `command` deletes, if it deletes one.
pub open spec fn deletes(command: Command) -> Option<Object> {
    match command {
        Command::DeleteTexture { texture } => Some(
            Object { kind: ObjectKind::Texture, id: texture },
        ),
        Command::DeleteFramebuffer { framebuffer } => Some(
            Object { kind: ObjectKind::Framebuffer, id: framebuffer },
        ),
        Command::DeleteShader { shader } => Some(Object { kind: ObjectKind::Shader, id: shader }),
        Command::DeleteProgram { program } => Some(
            Object { kind: ObjectKind::Program, id: program },
        ),
        Command::DeleteProgramPipeline { pipeline } => Some(
            Object { kind: ObjectKind::Pipeline, id: pipeline },
        ),
        Command::DeleteBuffer { buffer } => Some(Object { kind: ObjectKind::Buffer, id: buffer }),
        Command::DeleteVertexArray { vertex_array } => Some(
            Object { kind: ObjectKind::VertexArray, id: vertex_array },
        ),
        _ => None,
    }
}

/// Whether `step` accounts for what it makes: a step that asks for an object
/// fails unless the driver made it, and is taken back by deleting that
/// object; any other step is taken back without deleting anything.
pub open spec fn accounted(step: Step) -> bool {
    match makes(step.command) {
        Some(object) => {
            &&& step.check == Check::Created
            &&& step.undo matches Some(undo) && deletes(undo) == Some(object)
        },
        None => match step.undo {
            Some(undo) => deletes(undo).is_none(),
            None => true,
        },
    }
}

/// Whether every step of `plan` accounts for what it makes.
pub open spec fn disciplined(plan: Seq<Step>) -> bool {
    forall|i: int| 0 <= i < plan.len() ==> accounted(#[trigger] plan[i])
}

/// The objects that the first `executed` steps of `plan` make, the latest
/// first.
pub open spec fn made(plan: Seq<Step>, executed: int) -> Seq<Object>
    decreases executed,
{
    if executed <= 0 {
        Seq::empty()
    } else {
        match makes(plan[executed - 1].command) {
            Some(object) => seq![object] + made(plan, executed - 1),
            None => made(plan, executed - 1),
        }
    }
}

/// The objects that `commands` delete, in the order in which they do.
pub open spec fn released(commands: Seq<Command>) -> Seq<Object>
    decreases commands.len(),
{
    if commands.len() == 0 {
        Seq::empty()
    } else {
        match deletes(commands.first()) {
            Some(object) => seq![object] + released(commands.drop_first()),
            None => released(commands.drop_first()),
        }
    }
}

/// Nothing leaks: when a disciplined plan is taken back after `executed` of
/// its steps, the objects deleted are exactly the objects that those steps
/// made, each once, the latest first.
pub proof fn lemma_unwind_releases_what_was_made(plan: Seq<Step>, executed: int)
    requires
        disciplined(plan),
        0 <= executed <= plan.len(),
    ensures
        released(unwind(plan, executed)) == made(plan, executed),
    decreases executed,
{
    if executed > 0 {
        lemma_unwind_releases_what_was_made(plan, executed - 1);
        let step = plan[executed - 1];
        assert(accounted(step));
        match step.undo {
            Some(undo) => {
                let commands = seq![undo] + unwind(plan, executed - 1);
                assert(commands.first() == undo);
                assert(commands.drop_first() =~= unwind(plan, executed - 1));
            },
            None => {},
        }
    }
}

/// Two disciplined plans in a row are a disciplined plan.
pub proof fn lemma_disciplined_concat(first: Seq<Step>, second: Seq<Step>)
    requires
        disciplined(first),
        disciplined(second),
    ensures
        disciplined(first + second),
{
    assert forall|i: int| 0 <= i < (first + second).len() implies accounted(
        #[trigger] (first + second)[i],
    ) by {
        if i < first.len() {
            assert((first + second)[i] == first[i]);
        } else {
            assert((first + second)[i] == second[i - first.len()]);
        }
    }
}

/// Judges `reply` under `check`: the error it amounts to, or else the info
/// log to go on with.
fn judge(check: &Check, reply: Reply, log: String) -> (outcome: Result<String, ResourceError>)
    ensures
        match verdict(*check, reply, log) {
            Some(error) => outcome == Err::<String, ResourceError>(error),
            None => outcome == Ok::<String, ResourceError>(noted(log, reply)),
        },
{
    match check {
        Check::Nothing => match reply {
            Reply::Text(text) => Ok(text),
            _ => Ok(log),
        },
        Check::Created => match reply {
            Reply::Failed(reason) => Err(ResourceError::AllocationFailed(reason)),
            Reply::Text(text) => Ok(text),
            _ => Ok(log),
        },
        Check::Complete => match reply {
            Reply::Status(status) => if status == FRAMEBUFFER_COMPLETE {
                Ok(log)
            } else {
                Err(ResourceError::IncompleteFramebuffer(status))
            },
            _ => Err(ResourceError::IncompleteFramebuffer(0)),
        },
        Check::Compiled(stage) => match reply {
            Reply::Flag(true) => Ok(log),
            _ => Err(ResourceError::CompileFailed(*stage, log)),
        },
        Check::Linked => match reply {
            Reply::Flag(true) => Ok(log),
            _ => Err(ResourceError::LinkFailed(log)),
        },
        Check::Valid => match reply {
            Reply::Flag(true) => Ok(log),
            _ => Err(ResourceError::PipelineInvalid(log)),
        },
        Check::Located(name) => match reply {
            Reply::Flag(true) => Ok(log),
            _ => Err(ResourceError::UniformNotFound(name.clone())),
        },
    }
}

/// Collects [`unwind`] of the whole of `steps`.
fn unwound(steps: Vec<Step>) -> (commands: Vec<Command>)
    ensures
        commands@ == unwind(steps@, steps@.len() as int),
{
    let ghost plan = steps@;
    let mut steps = steps;
    let mut commands: Vec<Command> = Vec::new();
    while steps.len() > 0
        invariant
            steps@.len() <= plan.len(),
            steps@ == plan.take(steps@.len() as int),
            commands@ + unwind(plan, steps@.len() as int) == unwind(plan, plan.len() as int),
        decreases steps@.len(),
    {
        let ghost before = commands@;
        let ghost executed = steps@.len() as int;
        let step = steps.pop().unwrap();
        assert(step == plan[executed - 1]);
        assert(steps@ =~= plan.take(executed - 1));
        match step.undo {
            Some(command) => {
                commands.push(command);
                assert(commands@ + unwind(plan, executed - 1) =~= before + unwind(
                    plan,
                    executed,
                ));
            },
            None => {},
        }
    }
    assert(commands@ + Seq::<Command>::empty() =~= commands@);
    commands
}

/// Work that waits for the driver's answer to its next call.
pub struct Pending<T> {
    value: T,
    steps: Vec<Step>,
    cursor: usize,
    log: String,
    commit: Vec<Command>,
    abort: Vec<Command>,
}

/// Where work on GPU objects has got to.
pub enum Progress<T> {
    /// A call is waiting to be carried out.
    More(Pending<T>),
    /// The work has ended, with the object that it made or with the reason
    /// why it made none.
    Done(Result<T, ResourceError>),
}

impl<T> Pending<T> {
    #[verifier::type_invariant]
    spec fn well_formed(self) -> bool {
        self.cursor < self.steps@.len()
    }

    /// The steps of the work, first to last.
    pub closed spec fn plan(self) -> Seq<Step> {
        self.steps@
    }

    /// How many steps are done. The call that waits is that of the step
    /// after them.
    pub closed spec fn position(self) -> int {
        self.cursor as int
    }

    /// The driver's last info log.
    pub closed spec fn log(self) -> String {
        self.log
    }

    /// What the work yields if every step passes its check.
    pub closed spec fn value(self) -> T {
        self.value
    }

    /// The calls that are queued once the last step has passed its check.
    pub closed spec fn commit(self) -> Seq<Command> {
        self.commit@
    }

    /// The calls that are queued, after those that take back the steps done,
    /// when a step fails its check.
    pub closed spec fn abort(self) -> Seq<Command> {
        self.abort@
    }

    /// The call that waits to be carried out.
    pub fn command(&self) -> (command: &Command)
        ensures
            0 <= self.position() < self.plan().len(),
            *command == self.plan()[self.position()].command,
    {
        proof {
            use_type_invariant(self);
        }
        &self.steps[self.cursor].command
    }

    /// How many steps are left, the waiting one included.
    pub fn remaining(&self) -> (count: usize)
        ensures
            count == self.plan().len() - self.position(),
            count > 0,
    {
        proof {
            use_type_invariant(self);
        }
        self.steps.len() - self.cursor
    }

    /// Takes the driver's answer to the waiting call.
    ///
    /// If the answer fails the step's check, the work ends with the error
    /// that [`verdict`] gives, and the calls that take back the steps done so
    /// far are queued, the latest step first, and after them the work's
    /// abort calls. If it passes and the step was the last, the work ends
    /// with its value and its commit calls are queued. Otherwise the next
    /// step waits and nothing is queued.
    pub fn advance(self, context: &mut AppContext, reply: Reply) -> (next: Progress<T>)
        ensures
            0 <= self.position() < self.plan().len(),
            match verdict(self.plan()[self.position()].check, reply, self.log()) {
                Some(error) => {
                    &&& next == Progress::Done(Err::<T, ResourceError>(error))
                    &&& final(context)@ == old(context)@.submit_all(
                        unwind(self.plan(), self.position()) + self.abort(),
                    )
                },
                None => if self.position() + 1 == self.plan().len() {
                    &&& next == Progress::Done(Ok::<T, ResourceError>(self.value()))
                    &&& final(context)@ == old(context)@.submit_all(self.commit())
                } else {
                    &&& next matches Progress::More(pending)
                    &&& pending.plan() == self.plan()
                    &&& pending.position() == self.position() + 1
                    &&& pending.log() == noted(self.log(), reply)
                    &&& pending.value() == self.value()
                    &&& pending.commit() == self.commit()
                    &&& pending.abort() == self.abort()
                    &&& final(context)@ == old(context)@
                },
            },
    {
        proof {
            use_type_invariant(&self);
        }
        let Pending { value, steps, cursor, log, commit, abort } = self;
        let mut steps = steps;
        let count = steps.len();
        match judge(&steps[cursor].check, reply, log) {
            Err(error) => {
                let ghost plan = steps@;
                steps.truncate(cursor);
                proof {
                    lemma_unwind_prefix(plan, cursor as int, cursor as int);
                }
                let mut commands = unwound(steps);
                let mut abort = abort;
                commands.append(&mut abort);
                context.submit_all(commands);
                Progress::Done(Err(error))
            },
            Ok(log) => {
                if cursor + 1 == count {
                    context.submit_all(commit);
                    Progress::Done(Ok(value))
                } else {
                    Progress::More(Pending { value, steps, cursor: cursor + 1, log, commit, abort })
                }
            },
        }
    }
}

/// Taking back the first steps of a plan depends on those steps alone.
pub proof fn lemma_unwind_prefix(plan: Seq<Step>, kept: int, executed: int)
    requires
        0 <= executed <= kept <= plan.len(),
    ensures
        unwind(plan.take(kept), executed) == unwind(plan, executed),
    decreases executed,
{
    if executed > 0 {
        lemma_unwind_prefix(plan, kept, executed - 1);
    }
}

/// The driver's last info log once `replies` have come in, one after the
/// other, when it was `log` before them.
pub open spec fn logged(log: String, replies: Seq<Reply>) -> String
    decreases replies.len(),
{
    if replies.len() == 0 {
        log
    } else {
        noted(logged(log, replies.drop_last()), replies.last())
    }
}

/// Whether `replies` are answers that `execute` can give to the calls of the
/// steps of `plan` from step `first` on, one to each.
pub open spec fn answers<F: Fn(&Command) -> Reply>(
    execute: F,
    plan: Seq<Step>,
    first: int,
    replies: Seq<Reply>,
) -> bool {
    &&& 0 <= first
    &&& first + replies.len() <= plan.len()
    &&& forall|j: int|
        0 <= j < replies.len() ==> call_ensures(
            execute,
            (&plan[first + j].command,),
            #[trigger] replies[j],
        )
}

/// What the answer `replies[index]` amounts to under the check of its step,
/// when the steps from `first` on are answered by `replies` and the info log
/// was `log` before the first of them.
pub open spec fn verdict_at(
    plan: Seq<Step>,
    first: int,
    log: String,
    replies: Seq<Reply>,
    index: int,
) -> Option<ResourceError> {
    verdict(plan[first + index].check, replies[index], logged(log, replies.take(index)))
}

/// Whether each of the first `count` of `replies` passes the check of its
/// step.
pub open spec fn passing(
    plan: Seq<Step>,
    first: int,
    log: String,
    replies: Seq<Reply>,
    count: int,
) -> bool {
    forall|j: int| 0 <= j < count ==> (#[trigger] verdict_at(plan, first, log, replies, j)).is_none()
}

/// Whether every call of `commands` leaves the viewport and the draw target
/// as they are.
pub open spec fn all_neutral(commands: Seq<Command>) -> bool {
    forall|i: int| 0 <= i < commands.len() ==> neutral(#[trigger] commands[i])
}

/// Whether taking `step` back leaves the viewport and the draw target as
/// they are.
pub open spec fn hushed(step: Step) -> bool {
    step.undo matches Some(undo) ==> neutral(undo)
}

/// Whether taking back any step of `plan` leaves the viewport and the draw
/// target as they are.
pub open spec fn quiet(plan: Seq<Step>) -> bool {
    forall|i: int| 0 <= i < plan.len() ==> hushed(#[trigger] plan[i])
}

/// Two quiet plans in a row are a quiet plan.
pub proof fn lemma_quiet_concat(first: Seq<Step>, second: Seq<Step>)
    requires
        quiet(first),
        quiet(second),
    ensures
        quiet(first + second),
{
    assert forall|i: int| 0 <= i < (first + second).len() implies hushed(
        #[trigger] (first + second)[i],
    ) by {
        if i < first.len() {
            assert((first + second)[i] == first[i]);
        } else {
            assert((first + second)[i] == second[i - first.len()]);
        }
    }
}

/// Taking back steps of a quiet plan leaves the viewport and the draw target
/// as they are.
pub proof fn lemma_unwind_quiet(plan: Seq<Step>, executed: int)
    requires
        quiet(plan),
        0 <= executed <= plan.len(),
    ensures
        all_neutral(unwind(plan, executed)),
    decreases executed,
{
    if executed > 0 {
        lemma_unwind_quiet(plan, executed - 1);
        let rest = unwind(plan, executed - 1);
        assert(hushed(plan[executed - 1]));
        match plan[executed - 1].undo {
            Some(undo) => {
                assert forall|i: int| 0 <= i < (seq![undo] + rest).len() implies neutral(
                    #[trigger] (seq![undo] + rest)[i],
                ) by {
                    if i > 0 {
                        assert((seq![undo] + rest)[i] == rest[i - 1]);
                    }
                }
            },
            None => {},
        }
    }
}

/// Work that has settled has only added to what was queued, and has handed
/// it all over. Where the plan is quiet, and the calls that the work queues
/// at its end are neutral, the viewport and the draw target are where they
/// were.
pub proof fn lemma_settled_follows<T, F: Fn(&Command) -> Reply>(
    progress: Progress<T>,
    execute: F,
    earlier: ContextView,
    later: ContextView,
    outcome: Result<T, ResourceError>,
)
    requires
        earlier.done <= earlier.history.len(),
        progress.settles_as(execute, earlier, later, outcome),
    ensures
        earlier.followed_by(later),
        later.next == earlier.next,
        later.done == later.history.len(),
        progress matches Progress::Done(_) ==> later.state == earlier.state,
        progress matches Progress::More(pending) ==> (quiet(pending.plan()) && all_neutral(
            pending.commit(),
        ) && all_neutral(pending.abort()) ==> later.state == earlier.state),
{
    let replies = choose|replies: Seq<Reply>|
        {
            &&& answers(execute, progress.plan(), progress.position(), replies)
            &&& #[trigger] progress.comes_to(replies, earlier, later, outcome)
        };
    match progress {
        Progress::Done(_) => {
            lemma_followed_by_queuing(earlier, Seq::empty());
        },
        Progress::More(pending) => match outcome {
            Ok(_) => {
                lemma_followed_by_queuing(earlier, pending.commit());
                if all_neutral(pending.commit()) {
                    lemma_replay_neutral(earlier.state, pending.commit());
                }
            },
            Err(_) => {
                let undone = unwind(pending.plan(), pending.position() + replies.len() - 1);
                lemma_followed_by_queuing(earlier, undone + pending.abort());
                if quiet(pending.plan()) && all_neutral(pending.abort()) {
                    lemma_unwind_quiet(pending.plan(), pending.position() + replies.len() - 1);
                    assert forall|i: int| 0 <= i < (undone + pending.abort()).len() implies neutral(
                        #[trigger] (undone + pending.abort())[i],
                    ) by {
                        if i < undone.len() {
                            assert((undone + pending.abort())[i] == undone[i]);
                        } else {
                            assert((undone + pending.abort())[i] == pending.abort()[i
                                - undone.len()]);
                        }
                    }
                    lemma_replay_neutral(earlier.state, undone + pending.abort());
                }
            },
        },
    }
}

/// What work on a value in place comes to: the value as it is afterwards
/// where the work succeeded, and its error where it failed.
pub open spec fn yielding<T>(outcome: Result<(), ResourceError>, value: T) -> Result<
    T,
    ResourceError,
> {
    match outcome {
        Ok(()) => Ok(value),
        Err(error) => Err(error),
    }
}

/// Whether `execute` refuses nothing that `plan` asks of it: whatever it
/// answers to the call of a step passes the check of that step.
pub open spec fn grants<F: Fn(&Command) -> Reply>(execute: F, plan: Seq<Step>) -> bool {
    forall|i: int, reply: Reply, log: String|
        0 <= i < plan.len() && call_ensures(execute, (&plan[i].command,), reply) ==> (
        #[trigger] verdict(plan[i].check, reply, log)).is_none()
}

/// Work succeeds when the driver refuses nothing: where `execute` grants
/// the plan of work that it carries out, the work yields its value, and its
/// commit calls are queued and handed over.
pub proof fn lemma_granted_work_succeeds<T, F: Fn(&Command) -> Reply>(
    progress: Progress<T>,
    execute: F,
    earlier: ContextView,
    later: ContextView,
    outcome: Result<T, ResourceError>,
)
    requires
        progress is More,
        grants(execute, progress.plan()),
        progress.settles_as(execute, earlier, later, outcome),
    ensures
        outcome == Ok::<T, ResourceError>(progress->More_0.value()),
        later == earlier.submit_all(progress->More_0.commit()).flushed(),
{
    let pending = progress->More_0;
    let replies = choose|replies: Seq<Reply>|
        {
            &&& answers(execute, progress.plan(), progress.position(), replies)
            &&& #[trigger] progress.comes_to(replies, earlier, later, outcome)
        };
    if outcome.is_err() {
        let last = replies.len() - 1;
        let log = logged(pending.log(), replies.take(last));
        assert(call_ensures(
            execute,
            (&pending.plan()[pending.position() + last].command,),
            replies[last],
        ));
        assert(verdict(pending.plan()[pending.position() + last].check, replies[last], log).is_none());
        assert(verdict_at(pending.plan(), pending.position(), pending.log(), replies, last).is_some());
    }
}

/// Work that is done when it is settled comes to what it had: its outcome
/// is handed on, and nothing but what was queued is handed over.
pub proof fn lemma_finished_work_settles<T, F: Fn(&Command) -> Reply>(
    progress: Progress<T>,
    execute: F,
    earlier: ContextView,
    later: ContextView,
    outcome: Result<T, ResourceError>,
)
    requires
        progress is Done,
        progress.settles_as(execute, earlier, later, outcome),
    ensures
        outcome == progress->Done_0,
        later == earlier.flushed(),
{
    let replies = choose|replies: Seq<Reply>|
        {
            &&& answers(execute, progress.plan(), progress.position(), replies)
            &&& #[trigger] progress.comes_to(replies, earlier, later, outcome)
        };
}

/// Failed work leaves nothing behind: when work on a disciplined plan fails,
/// the calls that it queues delete exactly the objects that the steps before
/// the failed one have made, the latest first, before its abort calls.
pub proof fn lemma_failed_work_leaves_nothing<T>(
    progress: Progress<T>,
    replies: Seq<Reply>,
    earlier: ContextView,
    later: ContextView,
    error: ResourceError,
)
    requires
        progress is More,
        disciplined(progress.plan()),
        progress.position() == 0,
        progress.comes_to(replies, earlier, later, Err(error)),
    ensures
        progress matches Progress::More(pending) && replies.len() > 0 && later
            == earlier.submit_all(
            unwind(pending.plan(), replies.len() - 1) + pending.abort(),
        ).flushed() && released(unwind(pending.plan(), replies.len() - 1)) == made(
            pending.plan(),
            replies.len() - 1,
        ),
{
    match progress {
        Progress::More(pending) => {
            lemma_unwind_releases_what_was_made(pending.plan(), replies.len() - 1);
        },
        Progress::Done(_) => {},
    }
}

impl<T> Progress<T> {
    /// How many steps are left to do.
    pub open spec fn remaining(self) -> int {
        match self {
            Progress::More(pending) => pending.plan().len() - pending.position(),
            Progress::Done(_) => 0,
        }
    }

    /// Whether `outcome` and `later` are what this work comes to when the
    /// driver answers the calls of its steps, from the waiting one on, with
    /// `replies`, and the context is `earlier` when it starts.
    ///
    /// In every case the calls that were queued, and those that the work
    /// queues at its end, have been handed over. Work that is done yields
    /// what it has, and takes no answer. Work succeeds when there is an
    /// answer to every step and each passes its check; it then yields its
    /// value and queues its commit calls. Work fails when the last answer
    /// fails its check and those before it pass theirs; it then yields the
    /// error that the last answer amounts to, and queues the calls that take
    /// back the steps before the failed one, and then its abort calls.
    pub open spec fn comes_to(
        self,
        replies: Seq<Reply>,
        earlier: ContextView,
        later: ContextView,
        outcome: Result<T, ResourceError>,
    ) -> bool {
        match self {
            Progress::Done(result) => {
                &&& replies.len() == 0
                &&& outcome == result
                &&& later == earlier.flushed()
            },
            Progress::More(pending) => {
                let plan = pending.plan();
                let first = pending.position();
                let last = replies.len() - 1;
                match outcome {
                    Ok(value) => {
                        &&& first + replies.len() == plan.len()
                        &&& passing(plan, first, pending.log(), replies, replies.len() as int)
                        &&& value == pending.value()
                        &&& later == earlier.submit_all(pending.commit()).flushed()
                    },
                    Err(error) => {
                        &&& 0 <= last
                        &&& first + last < plan.len()
                        &&& passing(plan, first, pending.log(), replies, last)
                        &&& verdict_at(plan, first, pending.log(), replies, last) == Some(error)
                        &&& later == earlier.submit_all(
                            unwind(plan, first + last) + pending.abort(),
                        ).flushed()
                    },
                }
            },
        }
    }

    /// The steps of the work, where it has any left.
    pub open spec fn plan(self) -> Seq<Step> {
        match self {
            Progress::More(pending) => pending.plan(),
            Progress::Done(_) => Seq::empty(),
        }
    }

    /// How many steps of the work are done.
    pub open spec fn position(self) -> int {
        match self {
            Progress::More(pending) => pending.position(),
            Progress::Done(_) => 0,
        }
    }

    /// Whether `outcome` and `later` are what this work can come to when
    /// `execute` carries out its calls and the context is `earlier` when it
    /// starts: there are answers that `execute` can give to the calls of its
    /// steps, in order, with which it comes to them as
    /// [`Progress::comes_to`] says.
    pub open spec fn settles_as<F: Fn(&Command) -> Reply>(
        self,
        execute: F,
        earlier: ContextView,
        later: ContextView,
        outcome: Result<T, ResourceError>,
    ) -> bool {
        exists|replies: Seq<Reply>|
            {
                &&& answers(execute, self.plan(), self.position(), replies)
                &&& #[trigger] self.comes_to(replies, earlier, later, outcome)
            }
    }

    /// Carries the work through to its end.
    ///
    /// First `execute` carries out the calls that are queued. Then, as long
    /// as a call of the work waits, `execute` carries it out and its answer
    /// is taken. At the end `execute` carries out what the work has queued.
    pub fn settle<F: Fn(&Command) -> Reply>(self, context: &mut AppContext, execute: &F) -> (outcome:
        Result<T, ResourceError>)
        requires
            forall|command: &Command| call_requires(*execute, (command,)),
        ensures
            self.settles_as(*execute, old(context)@, final(context)@, outcome),
    {
        let ghost start = context@;
        context.flush(execute);
        let ghost earlier = context@;
        let ghost mut replies: Seq<Reply> = Seq::empty();
        let mut progress = self;
        if let Progress::More(pending) = &progress {
            proof {
                use_type_invariant(pending);
            }
        }
        loop
            invariant
                forall|command: &Command| call_requires(*execute, (command,)),
                start == old(context)@,
                earlier == start.flushed(),
                answers(*execute, self.plan(), self.position(), replies),
                match self {
                    Progress::Done(result) => progress == self && context@ == earlier
                        && replies.len() == 0,
                    Progress::More(pending) => match progress {
                        Progress::More(current) => {
                            &&& current.plan() == pending.plan()
                            &&& current.value() == pending.value()
                            &&& current.commit() == pending.commit()
                            &&& current.abort() == pending.abort()
                            &&& current.position() == pending.position() + replies.len()
                            &&& current.position() < pending.plan().len()
                            &&& current.log() == logged(pending.log(), replies)
                            &&& context@ == earlier
                            &&& passing(
                                pending.plan(),
                                pending.position(),
                                pending.log(),
                                replies,
                                replies.len() as int,
                            )
                        },
                        Progress::Done(result) => self.comes_to(
                            replies,
                            start,
                            context@.flushed(),
                            result,
                        ),
                    },
                },
            decreases progress.remaining(),
        {
            match progress {
                Progress::Done(outcome) => {
                    context.flush(execute);
                    assert(self.comes_to(replies, start, context@, outcome));
                    return outcome;
                },
                Progress::More(current) => {
                    let ghost before = replies;
                    let ghost plan = current.plan();
                    let ghost first = self.position();
                    let ghost log = self->More_0.log();
                    let reply = execute(current.command());
                    progress = current.advance(context, reply);
                    proof {
                        replies = before.push(reply);
                        assert(replies.take(before.len() as int) =~= before);
                        assert(replies.drop_last() =~= before);
                        assert forall|j: int| 0 <= j < before.len() implies verdict_at(
                            plan,
                            first,
                            log,
                            replies,
                            j,
                        ) == verdict_at(plan, first, log, before, j) by {
                            assert(replies.take(j) =~= before.take(j));
                        }
                        assert(verdict_at(plan, first, log, replies, before.len() as int)
                            == verdict(plan[first + before.len()].check, reply, logged(log, before)));
                    }
                },
            }
        }
    }

    /// Whether this is work that has `plan` before it and none of it done,
    /// with an empty info log, and that yields `value`, queues `commit` on
    /// success and `abort` after a failure.
    pub open spec fn starts(
        self,
        value: T,
        plan: Seq<Step>,
        commit: Seq<Command>,
        abort: Seq<Command>,
    ) -> bool {
        &&& self matches Progress::More(pending)
        &&& pending.plan() == plan
        &&& pending.position() == 0
        &&& pending.log()@.len() == 0
        &&& pending.value() == value
        &&& pending.commit() == commit
        &&& pending.abort() == abort
    }

    /// Starts work that yields `value` once every step of `steps` has passed
    /// its check.
    ///
    /// With no steps the work is done at once: `commit` is queued and the
    /// value is handed over. Otherwise the first step waits.
    pub fn begin(
        context: &mut AppContext,
        value: T,
        steps: Vec<Step>,
        commit: Vec<Command>,
        abort: Vec<Command>,
    ) -> (progress: Progress<T>)
        ensures
            steps@.len() == 0 ==> progress == Progress::Done(Ok::<T, ResourceError>(value))
                && final(context)@ == old(context)@.submit_all(commit@),
            steps@.len() > 0 ==> progress.starts(value, steps@, commit@, abort@) && final(context)@ == old(context)@,
    {
        if steps.len() == 0 {
            context.submit_all(commit);
            Progress::Done(Ok(value))
        } else {
            Progress::More(Pending { value, steps, cursor: 0, log: String::new(), commit, abort })
        }
    }
}

} // verus!
