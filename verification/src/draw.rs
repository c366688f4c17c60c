//! The draw stage: one buffer taken, filled and passed on per tick.

use crate::buffer::Buffer;
use crate::conduit::ChannelClosed;
use vstd::prelude::*;

verus! {

/// Records the visual state of the moment into a frame buffer.
pub trait Painter<T>: Sized {
    /// What there is to see of one entity.
    type Visual;

    /// What one call of `draw` may make of the painter and of the target. A
    /// painter that says nothing here may do anything.
    open spec fn painted(
        before: Self,
        visuals: &[&Self::Visual],
        target_before: T,
        after: Self,
        target_after: T,
    ) -> bool {
        true
    }

    /// Clears `target` and records one draw per visual into it. Neither the
    /// target nor the visuals are kept beyond the call.
    fn draw(&mut self, visuals: &[&Self::Visual], target: &mut T)
        ensures
            Self::painted(*old(self), visuals, *old(target), *final(self), *final(target)),
    ;
}

/// The draw step of a tick.
pub struct DrawSystem<P> {
    painter: P,
}

impl<P> DrawSystem<P> {
    /// The painter of the stage.
    pub closed spec fn spec_painter(&self) -> P {
        self.painter
    }

    /// A draw stage that paints with `painter`.
    pub fn new(painter: P) -> (stage: Self)
        ensures
            stage.spec_painter() == painter,
    {
        DrawSystem { painter }
    }

    /// The painter.
    pub fn painter(&self) -> (painter: &P)
        ensures
            *painter == self.spec_painter(),
    {
        &self.painter
    }

    /// The draw step, given what the free conduit answered. A buffer is
    /// painted once, with the visuals, and handed back for the ready
    /// conduit: the same buffer with the contents that the painter left. A
    /// closed conduit ends the step without drawing and without complaint.
    pub fn run<T>(
        &mut self,
        acquired: Result<Buffer<T>, ChannelClosed>,
        visuals: &[&P::Visual],
    ) -> (filled: Option<Buffer<T>>) where P: Painter<T>
        ensures
            acquired is Ok <==> filled is Some,
            acquired is Ok ==> filled->Some_0@.tag == acquired->Ok_0@.tag,
            acquired is Err ==> final(self).spec_painter() == old(self).spec_painter(),
            acquired is Ok ==> P::painted(
                old(self).spec_painter(),
                visuals,
                acquired->Ok_0@.contents,
                final(self).spec_painter(),
                filled->Some_0@.contents,
            ),
    {
        match acquired {
            Ok(mut buffer) => {
                self.painter.draw(visuals, buffer.contents_mut());
                Some(buffer)
            },
            Err(_) => None,
        }
    }
}

} // verus!
