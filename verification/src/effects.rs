//! What every compositing stage has in common.
use vstd::prelude::*;
use crate::app::{lemma_restored_in_transitive, AppContext, ContextView};
use crate::command::{extent_of, Command, GpuState, Reply, Size, MAX_EXTENT};
use crate::error::FrameError;
use crate::frame_buffer::FrameBuffer;

verus! {

/// The IEEE-754 bits of `-1.0`.
pub const MINUS_ONE: u32 = 0xBF80_0000;

/// The IEEE-754 bits of `0.0`.
pub const ZERO: u32 = 0x0000_0000;

/// The IEEE-754 bits of `1.0`.
pub const ONE: u32 = 0x3F80_0000;

/// The corners of the square that covers the whole viewport, as the IEEE-754
/// bits of their coordinates: bottom left, top left, top right, bottom right,
/// each as x, y, z.
pub open spec fn quad_corners() -> Seq<u32> {
    seq![
        MINUS_ONE,
        MINUS_ONE,
        ZERO,
        MINUS_ONE,
        ONE,
        ZERO,
        ONE,
        ONE,
        ZERO,
        ONE,
        MINUS_ONE,
        ZERO,
    ]
}

/// Computes [`quad_corners`].
pub fn quad() -> (vertices: Vec<u32>)
    ensures
        vertices@ == quad_corners(),
{
    let mut vertices: Vec<u32> = Vec::new();
    vertices.push(MINUS_ONE);
    vertices.push(MINUS_ONE);
    vertices.push(ZERO);
    vertices.push(MINUS_ONE);
    vertices.push(ONE);
    vertices.push(ZERO);
    vertices.push(ONE);
    vertices.push(ONE);
    vertices.push(ZERO);
    vertices.push(ONE);
    vertices.push(MINUS_ONE);
    vertices.push(ZERO);
    assert(vertices@ =~= quad_corners());
    vertices
}

/// The factor by which an effect's own resolution is coarser than the
/// window's, as a fraction.
#[derive(Clone, Copy, Debug, PartialEq, Eq, Structural)]
pub struct Scale {
    pub numerator: u32,
    pub denominator: u32,
}

impl Scale {
    /// `pixels` divided by the factor and rounded down, and no more than the
    /// driver's largest size. Division by a factor of zero gives that largest
    /// size, save that nothing divided by zero is nothing.
    pub open spec fn scaled(self, pixels: u32) -> i32 {
        let product = pixels as int * self.denominator as int;
        if self.numerator == 0 {
            if product == 0 {
                0
            } else {
                MAX_EXTENT as i32
            }
        } else if product / (self.numerator as int) > MAX_EXTENT {
            MAX_EXTENT as i32
        } else {
            (product / (self.numerator as int)) as i32
        }
    }

    /// Computes [`Scale::scaled`].
    pub fn extent(&self, pixels: u32) -> (extent: i32)
        ensures
            extent == self.scaled(pixels),
            0 <= extent,
    {
        assert(0 <= pixels as int * self.denominator as int <= 0xFFFF_FFFF * 0xFFFF_FFFF)
            by (nonlinear_arith)
            requires
                0 <= pixels <= 0xFFFF_FFFF,
                0 <= self.denominator <= 0xFFFF_FFFF,
        ;
        let product: u64 = (pixels as u64) * (self.denominator as u64);
        if self.numerator == 0 {
            if product == 0 {
                0
            } else {
                MAX_EXTENT as i32
            }
        } else {
            let quotient: u64 = product / (self.numerator as u64);
            if quotient > MAX_EXTENT as u64 {
                MAX_EXTENT as i32
            } else {
                quotient as i32
            }
        }
    }
}

/// One stage of the compositing chain.
pub trait Effect: Sized {
    /// Whether [`Effect::drawing`] says which calls this effect queues. An
    /// effect that does not say is still held to leave the viewport and the
    /// draw target in order.
    open spec fn specified(&self) -> bool {
        false
    }

    /// The calls by which this effect draws when the context is `context`
    /// before it starts. It reads from `source`, if there is one, and draws
    /// into `target`, or into the window if there is none.
    open spec fn drawing(
        &self,
        context: ContextView,
        source: Option<&FrameBuffer>,
        target: Option<&FrameBuffer>,
    ) -> Seq<Command> {
        Seq::empty()
    }

    /// Whether applying this effect cannot fail. An effect that does not say
    /// so may fail.
    open spec fn infallible(&self) -> bool {
        false
    }

    /// Whether applying this effect, reading `source` and drawing into
    /// `target`, can turn the context `earlier` into `later` and give
    /// `outcome`. An effect that does not say what applying it gives leaves
    /// this open.
    open spec fn applied(
        &self,
        earlier: ContextView,
        later: ContextView,
        source: Option<&FrameBuffer>,
        target: Option<&FrameBuffer>,
        outcome: Result<(), FrameError>,
    ) -> bool {
        true
    }

    /// Queues the calls that draw this effect.
    ///
    /// Whether it succeeds or not, the viewport is afterwards what it was
    /// before, and the window is the draw target. When an effect that is
    /// [`Effect::specified`] succeeds, exactly the calls of
    /// [`Effect::drawing`] have been queued, and nothing else has changed.
    /// An effect that is [`Effect::infallible`] succeeds. What it leaves and
    /// gives is what [`Effect::applied`] says.
    fn apply(
        &self,
        context: &mut AppContext,
        source: Option<&FrameBuffer>,
        target: Option<&FrameBuffer>,
    ) -> (outcome: Result<(), FrameError>)
        ensures
            old(context)@.restored_in(final(context)@),
            outcome.is_ok() && self.specified() ==> final(context)@ == old(context)@.drawn(
                self.drawing(old(context)@, source, target),
                GpuState { viewport: old(context)@.state.viewport, target: None },
            ),
            self.infallible() ==> outcome.is_ok(),
            self.applied(old(context)@, final(context)@, source, target, outcome),
    ;

    /// Whether this effect is adapted to a window of the size `size`. An
    /// effect that has nothing to adapt, or does not say what it adapts,
    /// fits every window.
    open spec fn fits(&self, size: Size) -> bool {
        true
    }

    /// Whether adapting this effect to a window cannot fail, and takes no
    /// handle. An effect that does not say so may fail to adapt.
    open spec fn steadfast(&self) -> bool {
        false
    }

    /// Whether adapting to a window of `size` can leave this effect behind,
    /// turn the context `earlier` into `later` and give `outcome`. An effect
    /// that does not say what adapting it gives leaves this open.
    open spec fn adapted(
        &self,
        earlier: ContextView,
        later: ContextView,
        size: Size,
        outcome: Result<(), FrameError>,
    ) -> bool {
        true
    }

    /// Adapts this effect to a window of the size `size`, with `execute` to
    /// carry out the calls.
    ///
    /// It may take handles. Whether it succeeds or not, it leaves the
    /// viewport as it is. When it succeeds, the effect fits the window. A
    /// steadfast effect succeeds, takes no handle, and stays steadfast. What
    /// it leaves and gives is what [`Effect::adapted`] says.
    fn resize<F: Fn(&Command) -> Reply>(
        &mut self,
        context: &mut AppContext,
        execute: &F,
        size: &Size,
    ) -> (outcome: Result<(), FrameError>)
        requires
            forall|command: &Command| call_requires(*execute, (command,)),
        ensures
            old(context)@.settled_in(final(context)@),
            outcome.is_ok() ==> final(self).fits(*size),
            old(self).steadfast() ==> outcome.is_ok() && final(self).steadfast() && final(context)@.next == old(context)@.next,
            final(self).adapted(old(context)@, final(context)@, *size, outcome),
    ;
}

/// Effects in the order in which they are applied. Each but the last draws
/// into a render target of its own, which the next one reads.
pub struct Chain<E: Effect> {
    /// The first effect. It reads no source.
    pub first: E,
    /// The later effects, each with the target that it reads, which is the
    /// one that the effect before it draws into.
    pub rest: Vec<(FrameBuffer, E)>,
}

impl<E: Effect> Chain<E> {
    /// How many effects the chain has.
    pub open spec fn stages(self) -> nat {
        self.rest@.len() + 1
    }

    /// The effect at `stage`, counted from 0.
    pub open spec fn effect_at(self, stage: int) -> E {
        if stage == 0 {
            self.first
        } else {
            self.rest@[stage - 1].1
        }
    }

    /// What the effect at `stage` reads: nothing for the first, and for each
    /// other the target that comes with it.
    pub open spec fn source_of(&self, stage: int) -> Option<&FrameBuffer> {
        if stage == 0 {
            None
        } else {
            Some(&self.rest@[stage - 1].0)
        }
    }

    /// What the effect at `stage` draws into: the target that the next
    /// effect reads, and the window for the last.
    pub open spec fn target_of(&self, stage: int) -> Option<&FrameBuffer> {
        if stage < self.rest@.len() {
            Some(&self.rest@[stage].0)
        } else {
            None
        }
    }

    /// Whether the link at `index` is the link `earlier` with the size of a
    /// window of `size`: the same framebuffer, as large as the window.
    pub open spec fn link_fits(self, earlier: Chain<E>, index: int, size: Size) -> bool {
        &&& self.rest@[index].0.id == earlier.rest@[index].0.id
        &&& self.rest@[index].0.width == extent_of(size.width)
        &&& self.rest@[index].0.height == extent_of(size.height)
    }

    /// Whether this chain is the chain `earlier` after the first `done`
    /// steps of resizing it to a window of `size`.
    ///
    /// The steps are, in order: the first effect, and then for each later
    /// effect the target that it reads and the effect itself. An effect
    /// whose step is done fits the window, and a target whose step is done
    /// is the same framebuffer with the size of the window. A target whose
    /// step is not done is as it was, and so is an effect whose step has not
    /// been reached. The chain has as many effects as it had.
    pub open spec fn resized_through(self, earlier: Chain<E>, size: Size, done: int) -> bool {
        &&& self.rest@.len() == earlier.rest@.len()
        &&& forall|stage: int|
            0 <= stage < self.stages() ==> {
                &&& 2 * stage < done ==> (#[trigger] self.effect_at(stage)).fits(size)
                &&& 2 * stage > done ==> self.effect_at(stage) == earlier.effect_at(stage)
            }
        &&& forall|index: int|
            0 <= index < self.rest@.len() ==> if 2 * index + 1 < done {
                self.link_fits(earlier, index, size)
            } else {
                (#[trigger] self.rest@[index]).0 == earlier.rest@[index].0
            }
    }

    /// Whether applying the chain has ended at the effect at `stage`, with
    /// `outcome`: the effects before it have been applied, which turned the
    /// context `earlier` into some context with the viewport as it was, and
    /// applying that effect has turned that context into `later` and given
    /// `outcome`. Where every effect says which calls it queues, the context
    /// in between holds the calls of the effects before `stage`.
    pub open spec fn ended_at(
        &self,
        stage: int,
        earlier: ContextView,
        later: ContextView,
        outcome: Result<(), FrameError>,
    ) -> bool {
        exists|before: ContextView|
            {
                &&& stage == 0 ==> before == earlier
                &&& stage > 0 ==> earlier.restored_in(before)
                &&& self.specified() ==> before == self.drawn_through(earlier, stage)
                &&& #[trigger] self.effect_at(stage).applied(
                    before,
                    later,
                    self.source_of(stage),
                    self.target_of(stage),
                    outcome,
                )
            }
    }

    /// Whether no effect of the chain can fail.
    pub open spec fn infallible(self) -> bool {
        forall|stage: int|
            0 <= stage < self.stages() ==> (#[trigger] self.effect_at(stage)).infallible()
    }

    /// Whether every effect of the chain says which calls it queues.
    pub open spec fn specified(self) -> bool {
        forall|stage: int| 0 <= stage < self.stages() ==> (#[trigger] self.effect_at(stage)).specified()
    }

    /// The context once the first `count` effects have drawn, one after the
    /// other, when it was `context` before the first.
    pub open spec fn drawn_through(self, context: ContextView, count: int) -> ContextView
        decreases count,
    {
        if count <= 0 {
            context
        } else {
            let before = self.drawn_through(context, count - 1);
            before.drawn(
                self.effect_at(count - 1).drawing(
                    before,
                    self.source_of(count - 1),
                    self.target_of(count - 1),
                ),
                GpuState { viewport: context.state.viewport, target: None },
            )
        }
    }

    /// Makes the chain of one effect.
    pub fn new(first: E) -> (chain: Chain<E>)
        ensures
            chain.first == first,
            chain.rest@.len() == 0,
    {
        Chain { first, rest: Vec::new() }
    }

    /// Puts `effect` at the end of the chain. The effect that was last now
    /// draws into `link`, which `effect` reads.
    pub fn push(&mut self, link: FrameBuffer, effect: E)
        ensures
            final(self).first == old(self).first,
            final(self).rest@ == old(self).rest@.push((link, effect)),
    {
        self.rest.push((link, effect));
    }

    /// Queues the calls that draw every effect, in order.
    ///
    /// The first effect that fails ends the frame: its error is returned and
    /// no later effect is applied. Whether the frame succeeds or not, the
    /// viewport is afterwards what it was before, and the window is the draw
    /// target. When every effect says which calls it queues and the frame
    /// succeeds, the calls queued are those of the effects, one effect after
    /// the other. A chain of effects that cannot fail succeeds. A frame that
    /// fails has ended at the effect that failed, with the error that this
    /// effect gave.
    pub fn apply(&self, context: &mut AppContext) -> (outcome: Result<(), FrameError>)
        ensures
            old(context)@.restored_in(final(context)@),
            self.infallible() ==> outcome.is_ok(),
            outcome.is_err() ==> exists|stage: int|
                0 <= stage < self.stages() && #[trigger] self.ended_at(
                    stage,
                    old(context)@,
                    final(context)@,
                    outcome,
                ),
            outcome.is_ok() && self.specified() ==> final(context)@ == self.drawn_through(
                old(context)@,
                self.stages() as int,
            ),
    {
        let ghost start = context@;
        let count = self.rest.len();
        let first_target = if count > 0 {
            Some(&self.rest[0].0)
        } else {
            None
        };
        let applied = self.first.apply(context, None, first_target);
        if applied.is_err() {
            proof {
                assert(self.source_of(0) == None::<&FrameBuffer>);
                assert(self.target_of(0) == first_target);
                assert(self.drawn_through(start, 0) == start);
                assert(self.effect_at(0).applied(
                    start,
                    context@,
                    self.source_of(0),
                    self.target_of(0),
                    applied,
                ));
                assert(self.ended_at(0, start, context@, applied));
            }
            return applied;
        }
        assert(self.specified() ==> context@ == self.drawn_through(start, 1)) by {
            assert(self.drawn_through(start, 0) == start);
            assert(self.source_of(0) == None::<&FrameBuffer>);
            assert(self.target_of(0) == first_target);
            assert(self.effect_at(0) == self.first);
        }
        let mut index: usize = 0;
        while index < count
            invariant
                0 <= index <= count,
                count == self.rest@.len(),
                start == old(context)@,
                start.restored_in(context@),
                self.specified() ==> context@ == self.drawn_through(start, index + 1),
            decreases count - index,
        {
            let ghost before = context@;
            let target = if index + 1 < count {
                Some(&self.rest[index + 1].0)
            } else {
                None
            };
            let stage = &self.rest[index];
            let outcome = stage.1.apply(context, Some(&stage.0), target);
            proof {
                lemma_restored_in_transitive(start, before, context@);
            }
            if outcome.is_err() {
                proof {
                    assert(self.effect_at(index + 1) == stage.1);
                    assert(self.source_of(index + 1) == Some(&stage.0));
                    assert(self.target_of(index + 1) == target);
                    assert(self.effect_at(index + 1).applied(
                        before,
                        context@,
                        self.source_of(index + 1),
                        self.target_of(index + 1),
                        outcome,
                    ));
                    assert(self.ended_at(index + 1, start, context@, outcome));
                }
                return outcome;
            }
            assert(self.specified() ==> context@ == self.drawn_through(start, index + 2)) by {
                assert(self.effect_at(index + 1) == stage.1);
                assert(self.source_of(index + 1) == Some(&stage.0));
                assert(self.target_of(index + 1) == target);
            }
            index += 1;
        }
        Ok(())
    }
}

} // verus!
