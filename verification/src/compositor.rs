//! The application that draws a chain of effects and nothing else.
use vstd::prelude::*;
use crate::app::{
    lemma_followed_by_queuing, lemma_followed_by_transitive, AppContext, ContextView, HandleApp,
};
use crate::command::{extent, extent_of, Command, Reply, Size};
use crate::effects::{Chain, Effect};
use crate::error::{FrameError, ResourceError};
use crate::frame_buffer::FrameBuffer;
use crate::pending::{grants, yielding, Progress};

verus! {

/// The means to carry out driver calls: a function that takes any call and
/// returns the driver's answer.
pub struct Executor<F: Fn(&Command) -> Reply> {
    execute: F,
}

impl<F: Fn(&Command) -> Reply> Executor<F> {
    #[verifier::type_invariant]
    spec fn ready(self) -> bool {
        forall|command: &Command| call_requires(self.execute, (command,))
    }

    /// The function that carries the calls out.
    pub closed spec fn function(self) -> F {
        self.execute
    }

    /// Wraps `execute`.
    pub fn new(execute: F) -> (executor: Executor<F>)
        requires
            forall|command: &Command| call_requires(execute, (command,)),
        ensures
            executor.function() == execute,
    {
        Executor { execute }
    }

    /// The function that carries the calls out. It takes any call.
    pub fn get(&self) -> (execute: &F)
        ensures
            *execute == self.function(),
            forall|command: &Command| call_requires(*execute, (command,)),
    {
        proof {
            use_type_invariant(self);
        }
        &self.execute
    }
}

/// A chain of effects together with the means to carry out driver calls,
/// which resizing needs.
pub struct Compositor<E: Effect, F: Fn(&Command) -> Reply> {
    pub chain: Chain<E>,
    pub executor: Executor<F>,
}

impl<E: Effect, F: Fn(&Command) -> Reply> Compositor<E, F> {
    /// The effects that are drawn.
    pub open spec fn chain(self) -> Chain<E> {
        self.chain
    }

    /// Makes the application that draws `chain`.
    pub fn new(chain: Chain<E>, executor: Executor<F>) -> (compositor: Compositor<E, F>)
        ensures
            compositor.chain == chain,
            compositor.executor == executor,
    {
        Compositor { chain, executor }
    }

    /// Whether a resize to a window of `size` that leaves this compositor
    /// behind has failed at step `done`, with `outcome`, and turned the
    /// context `earlier` into `later`.
    ///
    /// The steps are those of [`Chain::resized_through`]. Where the step is
    /// an effect, the outcome is what adapting that effect gave. Where it is
    /// a target, the target is as it was, and the outcome is the error of
    /// resizing that target to the size of the window, as an error of a
    /// resource: the refusal of a window without pixels or of a context
    /// without handles, or what the driver refused.
    pub open spec fn failed_at(
        self,
        done: int,
        earlier: ContextView,
        later: ContextView,
        size: Size,
        outcome: Result<(), FrameError>,
    ) -> bool {
        if done % 2 == 0 {
            &&& outcome.is_err()
            &&& exists|before: ContextView|
                earlier.settled_in(before) && #[trigger] self.chain.effect_at(done / 2).adapted(
                    before,
                    later,
                    size,
                    outcome,
                )
        } else {
            exists|
                before: ContextView,
                progress: Progress<FrameBuffer>,
                planned: ContextView,
                error: ResourceError,
            |
                #![trigger
                    self.chain.rest@[(done - 1) / 2].0.begins_resize(
                        before,
                        extent_of(size.width),
                        extent_of(size.height),
                        progress,
                        planned,
                    ),
                    progress.settles_as(
                        self.executor.function(),
                        planned,
                        later,
                        Err::<FrameBuffer, ResourceError>(error),
                    ),
                ]
                {
                    &&& earlier.settled_in(before)
                    &&& self.chain.rest@[(done - 1) / 2].0.begins_resize(
                        before,
                        extent_of(size.width),
                        extent_of(size.height),
                        progress,
                        planned,
                    )
                    &&& progress.settles_as(
                        self.executor.function(),
                        planned,
                        later,
                        Err::<FrameBuffer, ResourceError>(error),
                    )
                    &&& outcome == Err::<(), FrameError>(FrameError::Resource(error))
                }
        }
    }

    /// Whether a resize to a window of `size` is sure to succeed when the
    /// context is `context`: no effect can fail to adapt, and where there
    /// are targets between effects, the window has pixels, two handles are
    /// left for each target, and the driver refuses nothing of the plan
    /// that gives a target new textures.
    pub open spec fn assured(self, context: ContextView, size: Size) -> bool {
        &&& forall|stage: int|
            0 <= stage < self.chain.stages() ==> (#[trigger] self.chain.effect_at(
                stage,
            )).steadfast()
        &&& self.chain.rest@.len() > 0 ==> {
            &&& extent_of(size.width) > 0
            &&& extent_of(size.height) > 0
            &&& context.handles_left() >= 2 * self.chain.rest@.len()
            &&& forall|index: int, next: FrameBuffer|
                0 <= index < self.chain.rest@.len() ==> grants(
                    self.executor.function(),
                    #[trigger] self.chain.rest@[index].0.refit(next),
                )
        }
    }

    /// The effects that are drawn.
    pub fn effects(&self) -> (chain: &Chain<E>)
        ensures
            *chain == self.chain(),
    {
        &self.chain
    }
}

impl<E: Effect, F: Fn(&Command) -> Reply> HandleApp for Compositor<E, F> {
    /// The application is as dependable as its effects: updating never
    /// fails, and drawing fails only where an effect does.
    open spec fn dependable(&self) -> bool {
        self.chain.infallible()
    }

    /// Updating always succeeds.
    open spec fn updated(&self, context: ContextView, outcome: Result<(), FrameError>) -> bool {
        outcome.is_ok()
    }

    /// Drawing succeeds where no effect can fail, and where it succeeds and
    /// every effect says which calls it queues, the calls queued are those
    /// of the effects, one effect after the other.
    open spec fn drew(
        &self,
        earlier: ContextView,
        later: ContextView,
        outcome: Result<(), FrameError>,
    ) -> bool {
        &&& self.chain.infallible() ==> outcome.is_ok()
        &&& outcome.is_ok() && self.chain.specified() ==> later == self.chain.drawn_through(
            earlier,
            self.chain.stages() as int,
        )
    }

    /// The application fits a window when every effect fits it and every
    /// target between two effects has its size.
    open spec fn fits(&self, size: Size) -> bool {
        &&& forall|stage: int|
            0 <= stage < self.chain.stages() ==> (#[trigger] self.chain.effect_at(stage)).fits(
                size,
            )
        &&& forall|index: int|
            0 <= index < self.chain.rest@.len() ==> {
                &&& (#[trigger] self.chain.rest@[index]).0.width == extent_of(size.width)
                &&& self.chain.rest@[index].0.height == extent_of(size.height)
            }
    }

    /// A resize that succeeds leaves an application that fits the window.
    /// One that fails has failed at one of its steps, with the outcome of
    /// that step.
    open spec fn resized(
        &self,
        earlier: ContextView,
        later: ContextView,
        size: Size,
        outcome: Result<(), FrameError>,
    ) -> bool {
        &&& outcome.is_ok() ==> self.fits(size)
        &&& outcome.is_err() ==> exists|done: int|
            0 <= done <= 2 * self.chain.rest@.len() && #[trigger] self.failed_at(
                done,
                earlier,
                later,
                size,
                outcome,
            )
    }

    /// The effects have no state of their own to advance.
    fn update(&mut self, context: &AppContext) -> (outcome: Result<(), FrameError>)
        ensures
            outcome.is_ok(),
            final(self).chain() == old(self).chain(),
    {
        Ok(())
    }

    /// Queues the calls that draw every effect, in order, as
    /// [`Chain::apply`] does.
    fn render(&mut self, context: &mut AppContext) -> (outcome: Result<(), FrameError>)
        ensures
            final(self).chain() == old(self).chain(),
            outcome.is_ok() && old(self).chain().specified() ==> final(context)@ == old(
                self,
            ).chain().drawn_through(
                old(context)@,
                old(self).chain().stages() as int,
            ),
    {
        self.chain.apply(context)
    }

    /// Resizes every effect to the window's new size, in order, and before
    /// each but the first the target that it reads, which gets the size of
    /// the window.
    ///
    /// When the resize succeeds, every effect fits the window and every
    /// target has its size. The first target or effect that cannot be
    /// resized ends the resize, and its error is returned, that of a target
    /// as the error of a resource; what was resized before it keeps its new
    /// size, and the targets from there on and the effects after it stay as
    /// they were. The viewport is afterwards what it was before. A resize
    /// that is [`Compositor::assured`] succeeds.
    fn resize(&mut self, context: &mut AppContext, size: &Size) -> (outcome: Result<
        (),
        FrameError,
    >)
        ensures
            outcome.is_ok() ==> final(self).chain().resized_through(
                old(self).chain(),
                *size,
                2 * old(self).chain().rest@.len() as int + 1,
            ),
            outcome.is_err() ==> exists|done: int|
                {
                    &&& 0 <= done <= 2 * old(self).chain().rest@.len()
                    &&& #[trigger] final(self).chain().resized_through(
                        old(self).chain(),
                        *size,
                        done,
                    )
                    &&& final(self).failed_at(
                        done,
                        old(context)@,
                        final(context)@,
                        *size,
                        outcome,
                    )
                },
            old(self).assured(old(context)@, *size) ==> outcome.is_ok(),
            final(self).executor == old(self).executor,
    {
        proof {
            lemma_followed_by_queuing(context@, Seq::empty());
        }
        let execute = self.executor.get();
        let ghost start = context@;
        let ghost earlier = self.chain;
        let ghost assured = self.assured(start, *size);
        let width = extent(size.width);
        let height = extent(size.height);
        proof {
            if assured {
                assert(earlier.effect_at(0).steadfast());
            }
        }
        let adapted = self.chain.first.resize(context, execute, size);
        if adapted.is_err() {
            proof {
                assert(0int / 2 == 0 && 0int % 2 == 0);
                assert(self.chain.effect_at(0int / 2).adapted(start, context@, *size, adapted));
                assert(self.failed_at(0, start, context@, *size, adapted));
                assert(self.chain().resized_through(old(self).chain(), *size, 0));
            }
            return adapted;
        }
        let count = self.chain.rest.len();
        let mut index: usize = 0;
        while index < count
            invariant
                0 <= index <= count,
                count == self.chain.rest@.len(),
                earlier == old(self).chain,
                self.executor == old(self).executor,
                *execute == self.executor.function(),
                assured == old(self).assured(start, *size),
                count == earlier.rest@.len(),
                forall|command: &Command| call_requires(*execute, (command,)),
                start == old(context)@,
                start.settled_in(context@),
                assured ==> context@.next == start.next + 2 * index,
                self.chain.first.fits(*size),
                width == extent_of(size.width),
                height == extent_of(size.height),
                forall|i: int|
                    0 <= i < index ==> self.chain.link_fits(earlier, i, *size) && (
                    #[trigger] self.chain.rest@[i]).1.fits(*size),
                forall|i: int|
                    index <= i < count ==> (#[trigger] self.chain.rest@[i]) == earlier.rest@[i],
            decreases count - index,
        {
            let ghost held = self.chain.rest@;
            let (mut link, mut effect) = self.chain.rest.remove(index);
            let ghost before = context@;
            let ghost linking = link;
            proof {
                assert(held[index as int] == earlier.rest@[index as int]);
                assert(earlier.effect_at(index + 1) == effect);
                if assured {
                    assert(grants(
                        *execute,
                        earlier.rest@[index as int].0.refit(
                            linking.with_textures(
                                before.next,
                                width,
                                height,
                                before.extensions.bindless,
                            ),
                        ),
                    ));
                }
            }
            let linked = link.resize(context, execute, width, height);
            let ghost between = context@;
            let outcome = match FrameError::of(linked) {
                Ok(()) => effect.resize(context, execute, size),
                Err(error) => Err(error),
            };
            proof {
                lemma_followed_by_queuing(between, Seq::empty());
                lemma_followed_by_transitive(before, between, context@);
                lemma_followed_by_transitive(start, before, context@);
                lemma_followed_by_transitive(start, before, between);
            }
            self.chain.rest.insert(index, (link, effect));
            assert(self.chain.rest@ =~= held.update(index as int, (link, effect)));
            if outcome.is_err() {
                proof {
                    let done = if linked.is_ok() {
                        2 * index + 2
                    } else {
                        2 * index + 1
                    };
                    assert forall|stage: int| 0 <= stage < self.chain.stages() implies {
                        &&& 2 * stage < done ==> (#[trigger] self.chain.effect_at(stage)).fits(
                            *size,
                        )
                        &&& 2 * stage > done ==> self.chain.effect_at(stage)
                            == earlier.effect_at(stage)
                    } by {
                        if stage > 0 {
                            assert(self.chain.effect_at(stage) == self.chain.rest@[stage - 1].1);
                        }
                    }
                    assert(self.chain().resized_through(old(self).chain(), *size, done));
                    if linked.is_ok() {
                        assert(done / 2 == index + 1 && done % 2 == 0);
                        assert(self.chain.effect_at(index + 1) == effect);
                        assert(start.settled_in(between));
                        assert(self.chain.effect_at(done / 2).adapted(
                            between,
                            context@,
                            *size,
                            outcome,
                        ));
                        assert(self.failed_at(done, start, context@, *size, outcome));
                    } else {
                        let error = linked->Err_0;
                        let (progress, planned) = choose|
                            progress: Progress<FrameBuffer>,
                            planned: ContextView,
                        |
                            {
                                &&& linking.begins_resize(before, width, height, progress, planned)
                                &&& #[trigger] progress.settles_as(
                                    *execute,
                                    planned,
                                    between,
                                    yielding(linked, link),
                                )
                            };
                        assert((done - 1) / 2 == index && done % 2 == 1);
                        assert(link == linking);
                        assert(context@ == between);
                        assert(self.chain.rest@[(done - 1) / 2].0 == linking);
                        assert(yielding(linked, link) == Err::<FrameBuffer, ResourceError>(error));
                        assert(self.chain.rest@[(done - 1) / 2].0.begins_resize(
                            before,
                            extent_of(size.width),
                            extent_of(size.height),
                            progress,
                            planned,
                        ));
                        assert(progress.settles_as(
                            self.executor.function(),
                            planned,
                            context@,
                            Err::<FrameBuffer, ResourceError>(error),
                        ));
                        assert(outcome == Err::<(), FrameError>(FrameError::Resource(error)));
                        assert(self.failed_at(done, start, context@, *size, outcome));
                    }
                }
                return outcome;
            }
            index += 1;
        }
        proof {
            assert forall|stage: int| 0 <= stage < self.chain.stages() implies {
                &&& 2 * stage < 2 * count + 1 ==> (#[trigger] self.chain.effect_at(stage)).fits(
                    *size,
                )
                &&& 2 * stage > 2 * count + 1 ==> self.chain.effect_at(stage)
                    == earlier.effect_at(stage)
            } by {
                if stage > 0 {
                    assert(self.chain.effect_at(stage) == self.chain.rest@[stage - 1].1);
                }
            }
        }
        Ok(())
    }

    /// Lets the error go: a frame or a resize that failed is tried again
    /// when the window next asks.
    fn handle_error(&self, error: FrameError) {
    }
}

} // verus!
