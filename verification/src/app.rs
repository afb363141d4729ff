//! The renderer's context: what it knows of the window and of the driver's
//! state, and the calls that wait to be carried out.
use vstd::prelude::*;
use crate::command::{extent, extent_of, Command, GpuState, Reply, Size, Viewport};
use crate::error::FrameError;
use crate::extensions::Extensions;
use crate::gl::{COLOR_BUFFER_BIT, DEPTH_BUFFER_BIT};

verus! {

/// The IEEE-754 bits of `0.2`, the grey that the window is cleared to.
pub const CLEAR_GREY: u32 = 0x3E4C_CCCD;

/// The IEEE-754 bits of `1.0`.
pub const OPAQUE: u32 = 0x3F80_0000;

/// The state that `commands` leave the driver in when it was in `state`
/// before the first of them.
pub open spec fn replay(state: GpuState, commands: Seq<Command>) -> GpuState
    decreases commands.len(),
{
    if commands.len() == 0 {
        state
    } else {
        replay(state, commands.drop_last()).after(commands.last())
    }
}

/// Whether `command` leaves the viewport and the draw target as they are.
pub open spec fn neutral(command: Command) -> bool {
    !(command is Viewport) && !(command is BindFramebuffer)
}

/// What an [`AppContext`] stands for.
pub ghost struct ContextView {
    /// The size of the window's drawable area.
    pub size: Size,
    /// The capabilities found at start-up.
    pub extensions: Extensions,
    /// The IEEE-754 bits of the milliseconds since the renderer started.
    pub elapsed: u32,
    /// The driver's state once it has carried out every call in `history`.
    pub state: GpuState,
    /// Every call that has been queued, oldest first.
    pub history: Seq<Command>,
    /// How many calls of `history`, counted from the oldest, have been
    /// handed over to be carried out. The rest wait.
    pub done: nat,
    /// The next handle to hand out.
    pub next: u32,
}

impl ContextView {
    /// The calls that wait to be carried out, oldest first.
    pub open spec fn queue(self) -> Seq<Command> {
        self.history.skip(self.done as int)
    }

    /// The context after the calls that waited have been handed over.
    pub open spec fn flushed(self) -> ContextView {
        ContextView { done: self.history.len(), ..self }
    }

    /// The context after `command` has been queued.
    pub open spec fn submit(self, command: Command) -> ContextView {
        ContextView {
            state: self.state.after(command),
            history: self.history.push(command),
            ..self
        }
    }

    /// The context after `commands` have been queued, in order.
    pub open spec fn submit_all(self, commands: Seq<Command>) -> ContextView {
        ContextView {
            state: replay(self.state, commands),
            history: self.history + commands,
            ..self
        }
    }

    /// The context after `count` handles have been handed out.
    pub open spec fn taking(self, count: int) -> ContextView {
        ContextView { next: (self.next + count) as u32, ..self }
    }

    /// How many handles are left to hand out.
    pub open spec fn handles_left(self) -> int {
        u32::MAX - self.next
    }

    /// The context once `commands` are queued and have left the driver in
    /// `state`.
    pub open spec fn drawn(self, commands: Seq<Command>, state: GpuState) -> ContextView {
        ContextView { history: self.history + commands, state, ..self }
    }

    /// Whether `later` is this context after more calls have been queued.
    /// Handles may have been handed out, and calls handed over.
    pub open spec fn followed_by(self, later: ContextView) -> bool {
        &&& later.size == self.size
        &&& later.extensions == self.extensions
        &&& later.elapsed == self.elapsed
        &&& later.next >= self.next
        &&& later.done >= self.done
        &&& self.history.is_prefix_of(later.history)
    }

    /// Whether `later` is this context after more calls have been queued,
    /// with the viewport as it is here.
    pub open spec fn settled_in(self, later: ContextView) -> bool {
        &&& self.followed_by(later)
        &&& later.state.viewport == self.state.viewport
    }

    /// Whether `later` is this context after more calls have been queued,
    /// with the viewport as it is here, the window as the draw target, and
    /// no handle handed out.
    pub open spec fn restored_in(self, later: ContextView) -> bool {
        &&& self.settled_in(later)
        &&& later.next == self.next
        &&& later.state.target.is_none()
    }
}

/// The state of a driver that has carried out no call yet: drawing goes to
/// the window, and the viewport is whatever the window system made it.
pub open spec fn starting(viewport: Viewport) -> GpuState {
    GpuState { viewport, target: None }
}

impl ContextView {
    /// Whether the model agrees with the calls: a driver that carries out
    /// every call ever queued ends up in `state`. The viewport that it
    /// starts out with does not matter, since the first call of every
    /// context sets it.
    pub open spec fn consistent(self) -> bool {
        forall|viewport: Viewport|
            self.state == #[trigger] replay(starting(viewport), self.history)
    }
}

/// The model keeps agreeing with the calls: the context that
/// [`AppContext::new`] makes is consistent, and so is a consistent context
/// after calls have been queued or handed over, after handles have been
/// handed out, and after the size or the time have been set.
pub proof fn lemma_model_follows_calls(
    context: ContextView,
    size: Size,
    extensions: Extensions,
    command: Command,
    commands: Seq<Command>,
    count: int,
    elapsed: u32,
)
    requires
        context.consistent(),
    ensures
        AppContext::initial(size, extensions).consistent(),
        context.submit(command).consistent(),
        context.submit_all(commands).consistent(),
        context.drawn(commands, replay(context.state, commands)).consistent(),
        context.flushed().consistent(),
        context.taking(count).consistent(),
        (ContextView { size, ..context }).consistent(),
        (ContextView { elapsed, ..context }).consistent(),
{
    let initial = AppContext::initial(size, extensions);
    assert forall|viewport: Viewport|
        initial.state == #[trigger] replay(starting(viewport), initial.history) by {
        reveal_with_fuel(replay, 3);
        assert(initial.history.drop_last() =~= seq![initial.history[0]]);
        assert(initial.history.drop_last().drop_last() =~= Seq::<Command>::empty());
    }
    assert forall|viewport: Viewport|
        context.submit(command).state == #[trigger] replay(
            starting(viewport),
            context.submit(command).history,
        ) by {
        assert(context.history.push(command).drop_last() =~= context.history);
        assert(context.state == replay(starting(viewport), context.history));
    }
    assert forall|viewport: Viewport|
        context.submit_all(commands).state == #[trigger] replay(
            starting(viewport),
            context.submit_all(commands).history,
        ) by {
        lemma_replay_concat(starting(viewport), context.history, commands);
        assert(context.state == replay(starting(viewport), context.history));
    }
}

/// Calls in a row leave the driver where the later ones leave it when they
/// start from where the earlier ones left it.
pub proof fn lemma_replay_concat(state: GpuState, first: Seq<Command>, second: Seq<Command>)
    ensures
        replay(state, first + second) == replay(replay(state, first), second),
    decreases second.len(),
{
    if second.len() == 0 {
        assert(first + second =~= first);
    } else {
        assert((first + second).drop_last() =~= first + second.drop_last());
        lemma_replay_concat(state, first, second.drop_last());
    }
}

/// Calls that are all neutral leave the driver where it was.
pub proof fn lemma_replay_neutral(state: GpuState, commands: Seq<Command>)
    requires
        forall|i: int| 0 <= i < commands.len() ==> neutral(#[trigger] commands[i]),
    ensures
        replay(state, commands) == state,
    decreases commands.len(),
{
    if commands.len() > 0 {
        lemma_replay_neutral(state, commands.drop_last());
    }
}

/// Handles are never handed out twice: after `count` handles have been
/// handed out, the next one lies above them all, and so does every one that
/// is handed out later.
pub proof fn lemma_handles_never_repeat(context: ContextView, count: int, later: int)
    requires
        0 <= count,
        0 <= later,
        count + later <= context.handles_left(),
    ensures
        context.taking(count).next == context.next + count,
        context.taking(count).taking(later) == context.taking(count + later),
        context.taking(count).handles_left() == context.handles_left() - count,
{
}

/// A context that is followed by a second, which is followed by a third, is
/// followed by the third.
pub proof fn lemma_followed_by_transitive(
    first: ContextView,
    second: ContextView,
    third: ContextView,
)
    requires
        first.followed_by(second),
        second.followed_by(third),
    ensures
        first.followed_by(third),
{
    assert(first.history =~= third.history.subrange(0, first.history.len() as int)) by {
        assert(first.history =~= second.history.subrange(0, first.history.len() as int));
        assert(second.history =~= third.history.subrange(0, second.history.len() as int));
    }
}

/// A context is followed by what it becomes when calls are queued, and when
/// the queued calls are handed over.
pub proof fn lemma_followed_by_queuing(context: ContextView, commands: Seq<Command>)
    ensures
        context.followed_by(context),
        context.followed_by(context.submit_all(commands)),
        context.done <= context.history.len() ==> context.followed_by(
            context.submit_all(commands).flushed(),
        ),
{
    assert(context.history =~= context.history.subrange(0, context.history.len() as int));
    assert(context.history =~= (context.history + commands).subrange(
        0,
        context.history.len() as int,
    ));
}

/// A context in which a call has been queued is not the context that it was
/// before, and neither is any context that follows.
pub proof fn lemma_queuing_lengthens(earlier: ContextView, command: Command, later: ContextView)
    requires
        earlier.submit(command).followed_by(later),
    ensures
        later != earlier,
        later.history.len() > earlier.history.len(),
{
}

/// A context that is restored in a second, which is restored in a third, is
/// restored in the third.
pub proof fn lemma_restored_in_transitive(
    first: ContextView,
    second: ContextView,
    third: ContextView,
)
    requires
        first.restored_in(second),
        second.restored_in(third),
    ensures
        first.restored_in(third),
{
    lemma_followed_by_transitive(first, second, third);
}

/// Whether `replies` are answers that `execute` can give to `commands`, one
/// to each.
pub open spec fn carried_out<F: Fn(&Command) -> Reply>(
    execute: F,
    commands: Seq<Command>,
    replies: Seq<Reply>,
) -> bool {
    &&& replies.len() == commands.len()
    &&& forall|i: int|
        0 <= i < commands.len() ==> call_ensures(execute, (&commands[i],), #[trigger] replies[i])
}

/// The renderer's context.
///
/// It holds the size of the window, the capabilities of the driver, a model
/// of the driver's viewport and draw target, and the calls that have been
/// asked for and not yet carried out. The model says where the driver will be
/// once it has carried them all out, in order.
pub struct AppContext {
    size: Size,
    extensions: Extensions,
    elapsed: u32,
    state: GpuState,
    flushed: Ghost<Seq<Command>>,
    queue: Vec<Command>,
    next: u32,
}

impl View for AppContext {
    type V = ContextView;

    closed spec fn view(&self) -> ContextView {
        ContextView {
            size: self.size,
            extensions: self.extensions,
            elapsed: self.elapsed,
            state: self.state,
            history: self.flushed@ + self.queue@,
            done: self.flushed@.len(),
            next: self.next,
        }
    }
}

/// No more calls have been handed over than were ever queued.
pub proof fn lemma_done_within_history(context: AppContext)
    ensures
        context@.done <= context@.history.len(),
{
}

impl AppContext {
    /// What a context for a window of `size` starts as: the viewport covers
    /// the window, drawing goes to the window, and the calls that set the
    /// viewport and the clear colour wait to be carried out.
    pub open spec fn initial(size: Size, extensions: Extensions) -> ContextView {
        let viewport = Viewport {
            x: 0,
            y: 0,
            width: extent_of(size.width),
            height: extent_of(size.height),
        };
        ContextView {
            size,
            extensions,
            elapsed: 0,
            state: GpuState { viewport, target: None },
            done: 0,
            history: seq![
                Command::Viewport { x: 0, y: 0, width: viewport.width, height: viewport.height },
                Command::ClearColor {
                    red: CLEAR_GREY,
                    green: CLEAR_GREY,
                    blue: CLEAR_GREY,
                    alpha: OPAQUE,
                },
            ],
            next: 1,
        }
    }

    /// Makes the context for a window of `size` whose driver offers
    /// `extensions`.
    pub fn new(size: Size, extensions: Extensions) -> (context: AppContext)
        ensures
            context@ == AppContext::initial(size, extensions),
    {
        let width = extent(size.width);
        let height = extent(size.height);
        let mut queue: Vec<Command> = Vec::new();
        queue.push(Command::Viewport { x: 0, y: 0, width, height });
        queue.push(
            Command::ClearColor {
                red: CLEAR_GREY,
                green: CLEAR_GREY,
                blue: CLEAR_GREY,
                alpha: OPAQUE,
            },
        );
        let context = AppContext {
            size,
            extensions,
            elapsed: 0,
            state: GpuState { viewport: Viewport { x: 0, y: 0, width, height }, target: None },
            flushed: Ghost(Seq::empty()),
            queue,
            next: 1,
        };
        assert(context@.history =~= AppContext::initial(size, extensions).history);
        context
    }

    /// The size of the window's drawable area.
    pub fn size(&self) -> (size: Size)
        ensures
            size == self@.size,
    {
        self.size
    }

    /// The capabilities found at start-up.
    pub fn extensions(&self) -> (extensions: Extensions)
        ensures
            extensions == self@.extensions,
    {
        self.extensions
    }

    /// The IEEE-754 bits of the milliseconds since the renderer started, as
    /// last set.
    pub fn elapsed(&self) -> (bits: u32)
        ensures
            bits == self@.elapsed,
    {
        self.elapsed
    }

    /// The viewport that is active once the queued calls are carried out.
    pub fn viewport(&self) -> (viewport: Viewport)
        ensures
            viewport == self@.state.viewport,
    {
        self.state.viewport
    }

    /// The framebuffer that drawing goes to once the queued calls are carried
    /// out; `None` is the window.
    pub fn target(&self) -> (target: Option<u32>)
        ensures
            target == self@.state.target,
    {
        self.state.target
    }

    /// How many calls wait to be carried out.
    pub fn queued(&self) -> (count: usize)
        ensures
            count == self@.queue().len(),
    {
        self.queue.len()
    }

    /// Sets the time that effects animate by.
    pub fn set_elapsed(&mut self, bits: u32)
        ensures
            final(self)@ == (ContextView { elapsed: bits, ..old(self)@ }),
    {
        self.elapsed = bits;
    }

    /// Records the window's new size. The viewport is left as it is.
    pub fn set_size(&mut self, size: Size)
        ensures
            final(self)@ == (ContextView { size, ..old(self)@ }),
    {
        self.size = size;
    }

    /// Queues one call.
    pub fn submit(&mut self, command: Command)
        ensures
            final(self)@ == old(self)@.submit(command),
    {
        self.state = self.state.step(&command);
        self.queue.push(command);
        assert(self@.history =~= old(self)@.history.push(command));
    }

    /// Queues `commands`, in order.
    pub fn submit_all(&mut self, commands: Vec<Command>)
        ensures
            final(self)@ == old(self)@.submit_all(commands@),
    {
        let mut commands = commands;
        let mut state = self.state;
        let mut index: usize = 0;
        while index < commands.len()
            invariant
                0 <= index <= commands@.len(),
                state == replay(self.state, commands@.take(index as int)),
            decreases commands@.len() - index,
        {
            assert(commands@.take(index + 1).drop_last() =~= commands@.take(index as int));
            state = state.step(&commands[index]);
            index += 1;
        }
        assert(commands@.take(index as int) =~= commands@);
        self.state = state;
        let ghost given = commands@;
        self.queue.append(&mut commands);
        assert(self@.history =~= old(self)@.history + given);
    }

    /// Hands the queued calls over, oldest first, and leaves none queued.
    pub fn take_commands(&mut self) -> (commands: Vec<Command>)
        ensures
            commands@ == old(self)@.queue(),
            final(self)@ == old(self)@.flushed(),
    {
        let mut commands: Vec<Command> = Vec::new();
        core::mem::swap(&mut self.queue, &mut commands);
        proof {
            self.flushed@ = self.flushed@ + commands@;
        }
        assert(self@.history =~= old(self)@.history);
        assert(commands@ =~= old(self)@.queue());
        commands
    }

    /// Has `execute` carry out the queued calls, oldest first, and leaves
    /// none queued. The answers are not looked at: each call has merely got
    /// one.
    pub fn flush<F: Fn(&Command) -> Reply>(&mut self, execute: &F)
        requires
            forall|command: &Command| call_requires(*execute, (command,)),
        ensures
            final(self)@ == old(self)@.flushed(),
            exists|replies: Seq<Reply>| #[trigger]
                carried_out(*execute, old(self)@.queue(), replies),
    {
        let commands = self.take_commands();
        let ghost mut replies: Seq<Reply> = Seq::empty();
        let mut index: usize = 0;
        while index < commands.len()
            invariant
                0 <= index <= commands@.len(),
                forall|command: &Command| call_requires(*execute, (command,)),
                carried_out(*execute, commands@.take(index as int), replies),
            decreases commands@.len() - index,
        {
            let reply = execute(&commands[index]);
            proof {
                replies = replies.push(reply);
            }
            index += 1;
        }
        assert(commands@.take(index as int) =~= commands@);
    }

    /// How many handles are left to hand out.
    pub fn handles_left(&self) -> (count: u32)
        ensures
            count == self@.handles_left(),
    {
        u32::MAX - self.next
    }

    /// Hands out `count` handles that this context has not handed out before:
    /// the one returned and those that follow it. Gives `None`, and hands
    /// out nothing, when fewer are left.
    pub fn reserve(&mut self, count: u32) -> (first: Option<u32>)
        ensures
            count <= old(self)@.handles_left() ==> first == Some(old(self)@.next) && final(self)@
                == old(self)@.taking(count as int),
            count > old(self)@.handles_left() ==> first.is_none() && final(self)@ == old(self)@,
    {
        if count <= u32::MAX - self.next {
            let first = self.next;
            self.next = self.next + count;
            Some(first)
        } else {
            None
        }
    }
}

/// The hooks by which an application takes part in the frame loop.
pub trait HandleApp {
    /// Whether neither the update hook nor the render hook of this
    /// application can fail. An application that does not say so may fail a
    /// frame.
    open spec fn dependable(&self) -> bool {
        false
    }

    /// Whether the update hook, run with the context `context`, can leave
    /// this application behind and give `outcome`. An application that does
    /// not say what its update hook gives leaves this open.
    open spec fn updated(&self, context: ContextView, outcome: Result<(), FrameError>) -> bool {
        true
    }

    /// Whether the render hook can leave this application behind, turn the
    /// context `earlier` into `later` and give `outcome`: what the
    /// application drew, and whether it could. An application that does not
    /// say what it draws leaves this open.
    open spec fn drew(
        &self,
        earlier: ContextView,
        later: ContextView,
        outcome: Result<(), FrameError>,
    ) -> bool {
        true
    }

    /// Whether what this application draws with is adapted to a window of
    /// `size`. An application that has nothing to adapt, or does not say
    /// what it adapts, fits every window.
    open spec fn fits(&self, size: Size) -> bool {
        true
    }

    /// Whether the resize hook, asked to adapt to a window of `size`, can
    /// leave this application behind, turn the context `earlier` into
    /// `later` and give `outcome`. An application that does not say what its
    /// resize hook gives leaves this open.
    open spec fn resized(
        &self,
        earlier: ContextView,
        later: ContextView,
        size: Size,
        outcome: Result<(), FrameError>,
    ) -> bool {
        true
    }

    /// Advances the application's own state, before anything is drawn.
    ///
    /// What it leaves and gives is what [`HandleApp::updated`] says. A
    /// dependable application succeeds, and stays dependable.
    fn update(&mut self, context: &AppContext) -> (outcome: Result<(), FrameError>)
        ensures
            final(self).updated(context@, outcome),
            old(self).dependable() ==> outcome.is_ok() && final(self).dependable(),
    ;

    /// Queues the calls that draw the frame.
    ///
    /// Whether it succeeds or not, it leaves the viewport as it found it and
    /// the window as the draw target, and hands out no handle. What it has
    /// drawn, and what it gives, is what [`HandleApp::drew`] says. A
    /// dependable application succeeds, and stays dependable.
    fn render(&mut self, context: &mut AppContext) -> (outcome: Result<(), FrameError>)
        ensures
            old(context)@.restored_in(final(context)@),
            final(self).drew(old(context)@, final(context)@, outcome),
            old(self).dependable() ==> outcome.is_ok() && final(self).dependable(),
    ;

    /// Adapts what the application draws with to a window of `size`.
    ///
    /// Whether it succeeds or not, it leaves the viewport as it found it.
    /// What it leaves and gives is what [`HandleApp::resized`] says. When it
    /// succeeds, the application fits the window.
    fn resize(&mut self, context: &mut AppContext, size: &Size) -> (outcome: Result<
        (),
        FrameError,
    >)
        ensures
            old(context)@.settled_in(final(context)@),
            final(self).resized(old(context)@, final(context)@, *size, outcome),
            outcome.is_ok() ==> final(self).fits(*size),
    ;

    /// Takes note of a frame or a resize that failed.
    fn handle_error(&self, error: FrameError);
}

/// The mask that clears both the colour and the depth of the draw target.
pub const CLEAR_MASK: u32 = DEPTH_BUFFER_BIT | COLOR_BUFFER_BIT;

/// A context together with the application that draws through it.
pub struct Runtime<H: HandleApp> {
    pub context: AppContext,
    pub handler: H,
}

impl<H: HandleApp> Runtime<H> {
    /// Puts a context and an application together.
    pub fn new(context: AppContext, handler: H) -> (runtime: Runtime<H>)
        ensures
            runtime.context == context,
            runtime.handler == handler,
    {
        Runtime { context, handler }
    }

    /// Whether `later` is what a frame that has drawn leaves of the context
    /// `earlier`: the clear of the draw target was queued, and after it what
    /// the application drew, which left the viewport as it was and the
    /// window as the draw target.
    pub open spec fn drawn(earlier: ContextView, later: ContextView) -> bool {
        earlier.submit(Command::Clear { mask: CLEAR_MASK }).restored_in(later)
    }

    /// Whether a frame that turns the context `earlier` into `later`, leaves
    /// the application `handler` behind and gives `outcome` is a frame as
    /// the runtime runs it.
    ///
    /// Either the update hook has failed: then nothing is queued, and the
    /// outcome is the error that the hook gave. Or the update hook has
    /// succeeded: then the clear of the draw target is queued, after it what
    /// the render hook drew, which left the viewport as it was and the
    /// window as the draw target, and the outcome is what the render hook
    /// gave.
    pub open spec fn framed(
        earlier: ContextView,
        later: ContextView,
        handler: H,
        outcome: Result<(), FrameError>,
    ) -> bool {
        if later == earlier {
            outcome.is_err() && handler.updated(earlier, outcome)
        } else {
            &&& exists|updating: H, passed: Result<(), FrameError>|
                passed.is_ok() && #[trigger] updating.updated(earlier, passed)
            &&& Runtime::<H>::drawn(earlier, later)
            &&& handler.drew(earlier.submit(Command::Clear { mask: CLEAR_MASK }), later, outcome)
        }
    }

    /// Takes the update hook's outcome: where the hook has failed, nothing
    /// is queued and its error is handed on; where it has succeeded, the
    /// clear of the colour and the depth of the draw target is queued.
    pub fn after_update(context: &mut AppContext, updated: Result<(), FrameError>) -> (outcome:
        Result<(), FrameError>)
        ensures
            outcome == updated,
            final(context)@ == (if updated.is_ok() {
                old(context)@.submit(Command::Clear { mask: CLEAR_MASK })
            } else {
                old(context)@
            }),
    {
        if updated.is_ok() {
            context.submit(Command::Clear { mask: CLEAR_MASK });
        }
        updated
    }

    /// Queues the calls of one frame: the application is updated, the draw
    /// target is cleared, and the application draws.
    ///
    /// An error of the update hook ends the frame before anything is
    /// queued; an error of the render hook ends it after the clear. Either
    /// is handed on as it is. A frame that succeeds has drawn. The frame of
    /// a dependable application succeeds, and leaves it dependable: nothing
    /// but a hook fails a frame.
    pub fn render(&mut self) -> (outcome: Result<(), FrameError>)
        ensures
            Runtime::<H>::framed(
                old(self).context@,
                final(self).context@,
                final(self).handler,
                outcome,
            ),
            outcome.is_ok() ==> Runtime::<H>::drawn(old(self).context@, final(self).context@),
            old(self).handler.dependable() ==> outcome.is_ok() && final(self).handler.dependable(),
    {
        let ghost earlier = self.context@;
        let updated = self.handler.update(&self.context);
        let ghost updating = self.handler;
        let ghost passed = updated;
        match Runtime::<H>::after_update(&mut self.context, updated) {
            Ok(()) => {
                let outcome = self.handler.render(&mut self.context);
                proof {
                    assert(passed.is_ok() && updating.updated(earlier, passed));
                    lemma_queuing_lengthens(
                        earlier,
                        Command::Clear { mask: CLEAR_MASK },
                        self.context@,
                    );
                }
                outcome
            },
            Err(error) => Err(error),
        }
    }

    /// The context `earlier` once the window has the size `size`: the size is
    /// recorded, and the call that makes the viewport cover the window is
    /// queued.
    pub open spec fn fitted(earlier: ContextView, size: Size) -> ContextView {
        (ContextView { size, ..earlier }).submit(
            Command::Viewport {
                x: 0,
                y: 0,
                width: extent_of(size.width),
                height: extent_of(size.height),
            },
        )
    }

    /// Takes note of the window's new size, makes the viewport cover the
    /// window, and lets the application adapt.
    ///
    /// What the resize hook gives is handed on as it is, its error too; the
    /// context has the new size and viewport all the same. When the resize
    /// succeeds, the application fits the window.
    pub fn resize(&mut self, size: Size) -> (outcome: Result<(), FrameError>)
        ensures
            Runtime::<H>::fitted(old(self).context@, size).settled_in(final(self).context@),
            final(self).handler.resized(
                Runtime::<H>::fitted(old(self).context@, size),
                final(self).context@,
                size,
                outcome,
            ),
            outcome.is_ok() ==> final(self).handler.fits(size),
    {
        self.context.set_size(size);
        self.context.submit(
            Command::Viewport { x: 0, y: 0, width: extent(size.width), height: extent(size.height) },
        );
        self.handler.resize(&mut self.context, &size)
    }
}

/// What the window tells the renderer.
#[derive(Clone, Copy, Debug, PartialEq, Eq, Structural)]
pub enum Signal {
    /// The window exists and can be drawn into.
    Ready,
    /// The window's drawable area has this size now.
    Resized(Size),
    /// The window wants a new frame.
    RedrawRequested,
    /// The window is to be closed.
    CloseRequested,
}

/// What the embedding program is to do after a signal. Whatever it is, the
/// calls that the context has queued are carried out first.
#[derive(Clone, Copy, Debug, PartialEq, Eq, Structural)]
pub enum Action {
    /// Nothing more.
    Nothing,
    /// Make the window's surface and context, and hand a runtime to
    /// [`App::initialized`].
    Initialize,
    /// Show the frame, and ask the window for the next one.
    Present,
    /// Ask the window for the next frame without showing this one.
    Redraw,
    /// End the process.
    Exit,
}

/// What becomes of a frame: a finished one is shown, and a failed one is
/// skipped and its error reported.
pub open spec fn frame_action(outcome: Result<(), FrameError>) -> (Action, Option<FrameError>) {
    match outcome {
        Ok(()) => (Action::Present, None),
        Err(error) => (Action::Redraw, Some(error)),
    }
}

/// Computes [`frame_action`].
pub fn after_frame(outcome: Result<(), FrameError>) -> (next: (Action, Option<FrameError>))
    ensures
        next == frame_action(outcome),
{
    match outcome {
        Ok(()) => (Action::Present, None),
        Err(error) => (Action::Redraw, Some(error)),
    }
}

/// Whether the renderer has a window to draw into yet.
pub enum AppState<H: HandleApp> {
    Uninitialized,
    Initialized(Runtime<H>),
}

/// The renderer as the window's event loop sees it.
pub struct App<H: HandleApp> {
    pub state: AppState<H>,
}

impl<H: HandleApp> App<H> {
    /// Whether the renderer has its runtime.
    pub open spec fn is_initialized(self) -> bool {
        self.state is Initialized
    }

    /// The context of the runtime.
    pub open spec fn context(self) -> ContextView
        recommends
            self.is_initialized(),
    {
        self.state->Initialized_0.context@
    }

    /// The application of the runtime.
    pub open spec fn handler(self) -> H
        recommends
            self.is_initialized(),
    {
        self.state->Initialized_0.handler
    }

    /// Makes a renderer that waits for its window.
    pub fn new() -> (app: App<H>)
        ensures
            !app.is_initialized(),
    {
        App { state: AppState::Uninitialized }
    }

    /// Says what to do when the window is ready: initialize, unless that has
    /// been done.
    pub fn resumed(&self) -> (action: Action)
        ensures
            action == (if self.is_initialized() {
                Action::Nothing
            } else {
                Action::Initialize
            }),
    {
        match &self.state {
            AppState::Uninitialized => Action::Initialize,
            AppState::Initialized(_) => Action::Nothing,
        }
    }

    /// Takes the runtime that initializing has made.
    ///
    /// A renderer that has none yet keeps it from now on. One that has a
    /// runtime stays as it is and hands the new one back.
    pub fn initialized(&mut self, runtime: Runtime<H>) -> (surplus: Option<Runtime<H>>)
        ensures
            final(self).is_initialized(),
            old(self).is_initialized() ==> *final(self) == *old(self) && surplus == Some(runtime),
            !old(self).is_initialized() ==> final(self).state == AppState::Initialized(runtime)
                && surplus.is_none(),
    {
        match &self.state {
            AppState::Uninitialized => {
                self.state = AppState::Initialized(runtime);
                None
            },
            AppState::Initialized(_) => Some(runtime),
        }
    }

    /// Reacts to a signal of the window.
    ///
    /// A renderer keeps its runtime once it has one, whatever the signal.
    /// Closing ends the process. A ready window is answered as
    /// [`App::resumed`] says. Without a runtime, a redraw and a resize do
    /// nothing. With one, a redraw runs a frame as [`Runtime::render`] does:
    /// a frame that succeeds is to be shown, and one that fails is reported
    /// to the application's error hook and skipped, so that the frame of a
    /// dependable application is always shown; a resize runs
    /// [`Runtime::resize`], and reports a failure to the same hook.
    pub fn window_event(&mut self, event: Signal) -> (action: Action)
        ensures
            final(self).is_initialized() == old(self).is_initialized(),
            !old(self).is_initialized() ==> *final(self) == *old(self),
            match event {
                Signal::CloseRequested => action == Action::Exit && *final(self) == *old(self),
                Signal::Ready => action == (if old(self).is_initialized() {
                    Action::Nothing
                } else {
                    Action::Initialize
                }) && *final(self) == *old(self),
                Signal::RedrawRequested => if old(self).is_initialized() {
                    &&& exists|outcome: Result<(), FrameError>|
                        {
                            &&& #[trigger] Runtime::<H>::framed(
                                old(self).context(),
                                final(self).context(),
                                final(self).handler(),
                                outcome,
                            )
                            &&& action == frame_action(outcome).0
                        }
                    &&& action == Action::Present ==> Runtime::<H>::drawn(
                        old(self).context(),
                        final(self).context(),
                    )
                    &&& action == Action::Present || action == Action::Redraw
                    &&& old(self).handler().dependable() ==> action == Action::Present && final(self).handler().dependable()
                } else {
                    action == Action::Nothing
                },
                Signal::Resized(size) => action == Action::Nothing && (old(
                    self,
                ).is_initialized() ==> {
                    &&& Runtime::<H>::fitted(old(self).context(), size).settled_in(
                        final(self).context(),
                    )
                    &&& exists|outcome: Result<(), FrameError>|
                        {
                            &&& #[trigger] final(self).handler().resized(
                                Runtime::<H>::fitted(old(self).context(), size),
                                final(self).context(),
                                size,
                                outcome,
                            )
                            &&& outcome.is_ok() ==> final(self).handler().fits(size)
                        }
                }),
            },
    {
        let ghost mut given: Result<(), FrameError> = arbitrary();
        let action = match event {
            Signal::CloseRequested => Action::Exit,
            Signal::Ready => self.resumed(),
            Signal::RedrawRequested => match &mut self.state {
                AppState::Uninitialized => Action::Nothing,
                AppState::Initialized(runtime) => {
                    let outcome = runtime.render();
                    proof {
                        given = outcome;
                    }
                    let (action, error) = after_frame(outcome);
                    match error {
                        Some(error) => {
                            runtime.handler.handle_error(error);
                        },
                        None => {},
                    }
                    action
                },
            },
            Signal::Resized(size) => match &mut self.state {
                AppState::Uninitialized => Action::Nothing,
                AppState::Initialized(runtime) => {
                    let outcome = runtime.resize(size);
                    proof {
                        given = outcome;
                    }
                    match outcome {
                        Ok(()) => {},
                        Err(error) => {
                            runtime.handler.handle_error(error);
                        },
                    }
                    Action::Nothing
                },
            },
        };
        proof {
            if old(self).is_initialized() {
                match event {
                    Signal::RedrawRequested => {
                        assert(Runtime::<H>::framed(
                            old(self).context(),
                            self.context(),
                            self.handler(),
                            given,
                        ));
                    },
                    Signal::Resized(size) => {
                        assert(self.handler().resized(
                            Runtime::<H>::fitted(old(self).context(), size),
                            self.context(),
                            size,
                            given,
                        ));
                    },
                    _ => {},
                }
            }
        }
        action
    }
}

} // verus!
