//! The ring of ownership: a free conduit, a ready conduit and the two stages
//! between them.
//!
//! Buffers go round in one direction only. The draw stage takes a buffer
//! from `free`, fills it and sends it into `ready`; the presentation stage
//! takes it from `ready`, submits it and sends it back into `free`.

use crate::buffer::{Buffer, BufferView};
use crate::conduit::{ChannelClosed, Conduit, SendError};
use std::collections::VecDeque;
use vstd::prelude::*;

verus! {

/// Where every buffer of a pool is, as a mathematical value.
pub struct RingView<T> {
    /// The buffers awaiting reuse, oldest first.
    pub free: Seq<Buffer<T>>,
    /// The filled buffers awaiting submission, oldest first.
    pub ready: Seq<Buffer<T>>,
    /// The tag of the buffer that the draw stage holds.
    pub drawing: Option<usize>,
    /// The tag of the buffer that the presentation stage holds.
    pub presenting: Option<usize>,
    /// The tags of the buffers that a stage could not pass on, the other
    /// side being gone; they stay with that stage.
    pub stranded: Seq<usize>,
    /// The number of buffers the pool was seeded with.
    pub size: nat,
    /// Whether the simulation side still has its endpoints.
    pub simulation_attached: bool,
    /// Whether the presentation side still has its endpoints.
    pub presentation_attached: bool,
}

/// One move of a stage on the ring.
pub enum RingOp<T> {
    /// The draw stage asks `free` for a buffer.
    RecvFree,
    /// The draw stage sends a buffer into `ready`.
    SendReady(Buffer<T>),
    /// The presentation stage asks `ready` for a buffer.
    RecvReady,
    /// The presentation stage sends a buffer back into `free`.
    SendFree(Buffer<T>),
    /// The simulation side drops its endpoints.
    DetachSimulation,
    /// The presentation side drops its endpoints.
    DetachPresentation,
}

impl<T> RingView<T> {
    /// The number of buffers in circulation: those waiting in either conduit
    /// and those in flight with either stage, held or stranded.
    pub open spec fn in_circulation(self) -> nat {
        self.free.len() + self.ready.len() + self.stranded.len() + (if self.drawing is Some {
            1nat
        } else {
            0nat
        }) + (if self.presenting is Some {
            1nat
        } else {
            0nat
        })
    }

    /// Every tag of the pool is in exactly one place: once in one of the
    /// conduits, or with one of the stages.
    pub open spec fn wf(self) -> bool {
        &&& self.in_circulation() == self.size
        &&& forall|i: int| 0 <= i < self.free.len() ==> (#[trigger] self.free[i])@.tag < self.size
        &&& forall|i: int|
            0 <= i < self.ready.len() ==> (#[trigger] self.ready[i])@.tag < self.size
        &&& self.drawing matches Some(t) ==> t < self.size
        &&& self.presenting matches Some(t) ==> t < self.size
        &&& forall|i: int, j: int|
            0 <= i < j < self.free.len() ==> (#[trigger] self.free[i])@.tag != (
            #[trigger] self.free[j])@.tag
        &&& forall|i: int, j: int|
            0 <= i < j < self.ready.len() ==> (#[trigger] self.ready[i])@.tag != (
            #[trigger] self.ready[j])@.tag
        &&& forall|i: int, j: int|
            0 <= i < self.free.len() && 0 <= j < self.ready.len() ==> (
            #[trigger] self.free[i])@.tag != (#[trigger] self.ready[j])@.tag
        &&& forall|i: int|
            0 <= i < self.free.len() ==> self.drawing != Some((#[trigger] self.free[i])@.tag)
                && self.presenting != Some(self.free[i]@.tag)
        &&& forall|i: int|
            0 <= i < self.ready.len() ==> self.drawing != Some((#[trigger] self.ready[i])@.tag)
                && self.presenting != Some(self.ready[i]@.tag)
        &&& self.drawing is Some ==> self.drawing != self.presenting
        &&& forall|k: int|
            0 <= k < self.stranded.len() ==> (#[trigger] self.stranded[k]) < self.size
                && self.drawing != Some(self.stranded[k]) && self.presenting != Some(
                self.stranded[k],
            )
        &&& forall|k: int, l: int|
            0 <= k < l < self.stranded.len() ==> (#[trigger] self.stranded[k]) != (
            #[trigger] self.stranded[l])
        &&& forall|i: int, k: int|
            0 <= i < self.free.len() && 0 <= k < self.stranded.len() ==> (
            #[trigger] self.free[i])@.tag != (#[trigger] self.stranded[k])
        &&& forall|i: int, k: int|
            0 <= i < self.ready.len() && 0 <= k < self.stranded.len() ==> (
            #[trigger] self.ready[i])@.tag != (#[trigger] self.stranded[k])
    }

    /// The ring right after seeding: the buffers wait in `free` in the order
    /// of `contents`, tagged by their place in it.
    pub open spec fn seeded_from(self, contents: Seq<T>) -> bool {
        &&& self.size == contents.len()
        &&& self.free.len() == contents.len()
        &&& forall|i: int|
            0 <= i < contents.len() ==> (#[trigger] self.free[i])@.tag == i
                && self.free[i]@.contents == contents[i]
        &&& self.ready.len() == 0
        &&& self.stranded.len() == 0
        &&& self.drawing is None
        &&& self.presenting is None
        &&& self.simulation_attached
        &&& self.presentation_attached
    }

    /// What the draw stage is told when it asks `free` for a buffer.
    pub open spec fn recv_free_result(self) -> Result<Option<Buffer<T>>, ChannelClosed> {
        if self.free.len() > 0 {
            Ok(Some(self.free[0]))
        } else if self.presentation_attached {
            Ok(None)
        } else {
            Err(ChannelClosed)
        }
    }

    /// The ring after the draw stage asked `free` for a buffer.
    pub open spec fn after_recv_free(self) -> Self {
        if self.free.len() > 0 {
            RingView { free: self.free.skip(1), drawing: Some(self.free[0]@.tag), ..self }
        } else {
            self
        }
    }

    /// What the draw stage is told when it sends `buffer` into `ready`.
    pub open spec fn send_ready_result(self, buffer: Buffer<T>) -> Result<
        (),
        SendError<Buffer<T>>,
    > {
        if self.presentation_attached {
            Ok(())
        } else {
            Err(SendError::Closed(buffer))
        }
    }

    /// The ring after the draw stage sent `buffer` into `ready`. A buffer
    /// that is not taken is stranded with the stage.
    pub open spec fn after_send_ready(self, buffer: Buffer<T>) -> Self {
        if self.presentation_attached {
            RingView { ready: self.ready.push(buffer), drawing: None, ..self }
        } else {
            RingView { stranded: self.stranded.push(buffer@.tag), drawing: None, ..self }
        }
    }

    /// What the presentation stage is told when it asks `ready` for a buffer.
    pub open spec fn recv_ready_result(self) -> Result<Option<Buffer<T>>, ChannelClosed> {
        if self.ready.len() > 0 {
            Ok(Some(self.ready[0]))
        } else if self.simulation_attached {
            Ok(None)
        } else {
            Err(ChannelClosed)
        }
    }

    /// The ring after the presentation stage asked `ready` for a buffer.
    pub open spec fn after_recv_ready(self) -> Self {
        if self.ready.len() > 0 {
            RingView { ready: self.ready.skip(1), presenting: Some(self.ready[0]@.tag), ..self }
        } else {
            self
        }
    }

    /// What the presentation stage is told when it sends `buffer` back into
    /// `free`.
    pub open spec fn send_free_result(self, buffer: Buffer<T>) -> Result<
        (),
        SendError<Buffer<T>>,
    > {
        if self.simulation_attached {
            Ok(())
        } else {
            Err(SendError::Closed(buffer))
        }
    }

    /// The ring after the presentation stage sent `buffer` back into `free`.
    /// A buffer that is not taken is stranded with the stage.
    pub open spec fn after_send_free(self, buffer: Buffer<T>) -> Self {
        if self.simulation_attached {
            RingView { free: self.free.push(buffer), presenting: None, ..self }
        } else {
            RingView { stranded: self.stranded.push(buffer@.tag), presenting: None, ..self }
        }
    }

    /// The ring after the simulation side dropped its endpoints.
    pub open spec fn after_detach_simulation(self) -> Self {
        RingView { simulation_attached: false, ..self }
    }

    /// The ring after the presentation side dropped its endpoints.
    pub open spec fn after_detach_presentation(self) -> Self {
        RingView { presentation_attached: false, ..self }
    }

    /// Whether a stage that keeps to the protocol may make the move: a stage
    /// asks for a buffer only while it holds none, and sends only the buffer
    /// it holds.
    pub open spec fn permits(self, op: RingOp<T>) -> bool {
        match op {
            RingOp::RecvFree => self.drawing is None,
            RingOp::SendReady(buffer) => self.drawing == Some(buffer@.tag),
            RingOp::RecvReady => self.presenting is None,
            RingOp::SendFree(buffer) => self.presenting == Some(buffer@.tag),
            RingOp::DetachSimulation => true,
            RingOp::DetachPresentation => true,
        }
    }

    /// The ring after the move.
    pub open spec fn apply(self, op: RingOp<T>) -> Self {
        match op {
            RingOp::RecvFree => self.after_recv_free(),
            RingOp::SendReady(buffer) => self.after_send_ready(buffer),
            RingOp::RecvReady => self.after_recv_ready(),
            RingOp::SendFree(buffer) => self.after_send_free(buffer),
            RingOp::DetachSimulation => self.after_detach_simulation(),
            RingOp::DetachPresentation => self.after_detach_presentation(),
        }
    }

    /// The ring after a whole run of moves, taken in order.
    pub open spec fn apply_all(self, ops: Seq<RingOp<T>>) -> Self
        decreases ops.len(),
    {
        if ops.len() == 0 {
            self
        } else {
            self.apply_all(ops.drop_last()).apply(ops.last())
        }
    }

    /// The buffers that the draw stage got into `ready` over the run, in
    /// the order in which it sent them.
    pub open spec fn sent_ready(self, ops: Seq<RingOp<T>>) -> Seq<Buffer<T>>
        decreases ops.len(),
    {
        if ops.len() == 0 {
            Seq::empty()
        } else {
            let before = self.apply_all(ops.drop_last());
            let earlier = self.sent_ready(ops.drop_last());
            match ops.last() {
                RingOp::SendReady(buffer) => if before.presentation_attached {
                    earlier.push(buffer)
                } else {
                    earlier
                },
                _ => earlier,
            }
        }
    }

    /// The buffers that the presentation stage was handed from `ready` over
    /// the run, in the order in which it received them.
    pub open spec fn received_ready(self, ops: Seq<RingOp<T>>) -> Seq<Buffer<T>>
        decreases ops.len(),
    {
        if ops.len() == 0 {
            Seq::empty()
        } else {
            let before = self.apply_all(ops.drop_last());
            let earlier = self.received_ready(ops.drop_last());
            match ops.last() {
                RingOp::RecvReady => if before.ready.len() > 0 {
                    earlier.push(before.ready[0])
                } else {
                    earlier
                },
                _ => earlier,
            }
        }
    }

    /// Whether every move of the run is one that the protocol permits at
    /// the point where it is made.
    pub open spec fn permits_all(self, ops: Seq<RingOp<T>>) -> bool
        decreases ops.len(),
    {
        ops.len() > 0 ==> self.permits_all(ops.drop_last()) && self.apply_all(
            ops.drop_last(),
        ).permits(ops.last())
    }
}

/// The number of buffers that gives double buffering: while one is shown,
/// the next is filled.
pub const DOUBLE_BUFFERING: usize = 2;

/// The pool of frame buffers and the two conduits they travel through.
///
/// No method blocks. Where a stage would have to wait, the answer says so,
/// and the caller waits and asks again.
pub struct Ring<T> {
    free: Conduit<Buffer<T>>,
    ready: Conduit<Buffer<T>>,
    drawing: Option<usize>,
    presenting: Option<usize>,
    stranded: Vec<usize>,
}

impl<T> View for Ring<T> {
    type V = RingView<T>;

    closed spec fn view(&self) -> RingView<T> {
        RingView {
            free: self.free@.queue,
            ready: self.ready@.queue,
            drawing: self.drawing,
            presenting: self.presenting,
            stranded: self.stranded@,
            size: self.free@.capacity,
            simulation_attached: self.free@.receiver_open,
            presentation_attached: self.free@.sender_open,
        }
    }
}

impl<T> Ring<T> {
    /// Both conduits are made for the whole pool, and each side holds the
    /// sending end of one and the receiving end of the other.
    pub closed spec fn coherent(&self) -> bool {
        &&& self.free.wf()
        &&& self.ready.wf()
        &&& self.ready@.capacity == self.free@.capacity
        &&& self.ready@.sender_open == self.free@.receiver_open
        &&& self.ready@.receiver_open == self.free@.sender_open
    }

    /// The conduits fit together and every buffer is in exactly one place.
    pub open spec fn wf(&self) -> bool {
        self.coherent() && self@.wf()
    }

    /// Seeds one buffer for each item of `contents` into `free`, in that
    /// order, before either stage begins.
    pub fn new(contents: Vec<T>) -> (ring: Self)
        ensures
            ring.wf(),
            ring@.seeded_from(contents@),
    {
        let ghost seeds = contents@;
        let mut rest = contents;
        let n = rest.len();
        let mut queue: VecDeque<Buffer<T>> = VecDeque::new();
        while rest.len() > 0
            invariant
                n == seeds.len(),
                rest@.len() <= n,
                rest@ == seeds.take(rest@.len() as int),
                queue@.len() == n - rest@.len(),
                forall|i: int|
                    0 <= i < queue@.len() ==> (#[trigger] queue@[i])@ == (BufferView {
                        tag: (rest@.len() + i) as usize,
                        contents: seeds[rest@.len() + i],
                    }),
            decreases rest@.len(),
        {
            let tag = rest.len() - 1;
            let item = rest.pop().unwrap();
            let ghost before = queue@;
            queue.push_front(Buffer::new(tag, item));
            assert forall|i: int| 0 <= i < queue@.len() implies (#[trigger] queue@[i])@ == (
            BufferView {
                tag: (rest@.len() + i) as usize,
                contents: seeds[rest@.len() + i],
            }) by {
                if i > 0 {
                    assert(queue@[i] == before[i - 1]);
                }
            }
        }
        Ring {
            free: Conduit::seeded(queue, n),
            ready: Conduit::new(n),
            drawing: None,
            presenting: None,
            stranded: Vec::new(),
        }
    }

    /// The draw stage asks `free` for a buffer. `Ok(None)` says that none
    /// waits yet; `Err` says that none will come, the presentation side
    /// being gone.
    pub fn recv_free(&mut self) -> (r: Result<Option<Buffer<T>>, ChannelClosed>)
        requires
            old(self).wf(),
            old(self)@.drawing is None,
        ensures
            final(self).wf(),
            r == old(self)@.recv_free_result(),
            final(self)@ == old(self)@.after_recv_free(),
    {
        match self.free.recv() {
            Ok(Some(buffer)) => {
                self.drawing = Some(buffer.tag());
                Ok(Some(buffer))
            },
            Ok(None) => Ok(None),
            Err(closed) => Err(closed),
        }
    }

    /// The draw stage sends the buffer it holds into `ready`. The buffer
    /// comes back, stranded, when the presentation side is gone; for want
    /// of room it never does.
    pub fn send_ready(&mut self, buffer: Buffer<T>) -> (r: Result<(), SendError<Buffer<T>>>)
        requires
            old(self).wf(),
            old(self)@.drawing == Some(buffer@.tag),
        ensures
            final(self).wf(),
            r == old(self)@.send_ready_result(buffer),
            final(self)@ == old(self)@.after_send_ready(buffer),
    {
        let tag = buffer.tag();
        let r = self.ready.send(buffer);
        if r.is_err() {
            self.stranded.push(tag);
        }
        self.drawing = None;
        r
    }

    /// The presentation stage asks `ready` for a buffer. `Ok(None)` says
    /// that none waits yet; `Err` says that none will come, the simulation
    /// side being gone.
    pub fn recv_ready(&mut self) -> (r: Result<Option<Buffer<T>>, ChannelClosed>)
        requires
            old(self).wf(),
            old(self)@.presenting is None,
        ensures
            final(self).wf(),
            r == old(self)@.recv_ready_result(),
            final(self)@ == old(self)@.after_recv_ready(),
    {
        match self.ready.recv() {
            Ok(Some(buffer)) => {
                self.presenting = Some(buffer.tag());
                Ok(Some(buffer))
            },
            Ok(None) => Ok(None),
            Err(closed) => Err(closed),
        }
    }

    /// The presentation stage sends the buffer it holds back into `free`.
    /// The buffer comes back, stranded, when the simulation side is gone;
    /// for want of room it never does.
    pub fn send_free(&mut self, buffer: Buffer<T>) -> (r: Result<(), SendError<Buffer<T>>>)
        requires
            old(self).wf(),
            old(self)@.presenting == Some(buffer@.tag),
        ensures
            final(self).wf(),
            r == old(self)@.send_free_result(buffer),
            final(self)@ == old(self)@.after_send_free(buffer),
    {
        let tag = buffer.tag();
        let r = self.free.send(buffer);
        if r.is_err() {
            self.stranded.push(tag);
        }
        self.presenting = None;
        r
    }

    /// The simulation side drops its endpoints: the receiving end of `free`
    /// and the sending end of `ready`.
    pub fn detach_simulation(&mut self)
        requires
            old(self).wf(),
        ensures
            final(self).wf(),
            final(self)@ == old(self)@.after_detach_simulation(),
    {
        self.free.close_receiver();
        self.ready.close_sender();
    }

    /// The presentation side drops its endpoints: the sending end of `free`
    /// and the receiving end of `ready`.
    pub fn detach_presentation(&mut self)
        requires
            old(self).wf(),
        ensures
            final(self).wf(),
            final(self)@ == old(self)@.after_detach_presentation(),
    {
        self.free.close_sender();
        self.ready.close_receiver();
    }

    /// The number of buffers the pool was seeded with.
    pub fn size(&self) -> (n: usize)
        ensures
            n == self@.size,
    {
        self.free.capacity()
    }

    /// The number of buffers waiting in `free`.
    pub fn free_len(&self) -> (n: usize)
        requires
            self.wf(),
        ensures
            n == self@.free.len(),
    {
        self.free.len()
    }

    /// The number of buffers waiting in `ready`.
    pub fn ready_len(&self) -> (n: usize)
        requires
            self.wf(),
        ensures
            n == self@.ready.len(),
    {
        self.ready.len()
    }

    /// The tag of the buffer that the draw stage holds.
    pub fn drawing(&self) -> (t: Option<usize>)
        ensures
            t == self@.drawing,
    {
        self.drawing
    }

    /// The tag of the buffer that the presentation stage holds.
    pub fn presenting(&self) -> (t: Option<usize>)
        ensures
            t == self@.presenting,
    {
        self.presenting
    }

    /// The number of buffers that could not be passed on.
    pub fn stranded(&self) -> (n: usize)
        ensures
            n == self@.stranded.len(),
    {
        self.stranded.len()
    }

    /// Whether the simulation side still has its endpoints.
    pub fn simulation_attached(&self) -> (b: bool)
        ensures
            b == self@.simulation_attached,
    {
        self.free.receiver_open()
    }

    /// Whether the presentation side still has its endpoints.
    pub fn presentation_attached(&self) -> (b: bool)
        ensures
            b == self@.presentation_attached,
    {
        self.free.sender_open()
    }

    /// Counts the buffers in circulation: it is always the number seeded.
    pub fn in_circulation(&self) -> (n: usize)
        requires
            self.wf(),
        ensures
            n == self@.in_circulation(),
            n == self@.size,
    {
        let held: usize = if self.drawing.is_some() { 1 } else { 0 };
        let shown: usize = if self.presenting.is_some() { 1 } else { 0 };
        let size = self.free.capacity();
        assert(self@.free.len() + self@.ready.len() + self@.stranded.len() + held + shown
            == size);
        self.free.len() + self.ready.len() + self.stranded.len() + held + shown
    }
}

/// No permitted move creates, loses or duplicates a buffer: the ring stays
/// well formed, and the number of buffers in circulation stays the number
/// that was seeded.
pub proof fn lemma_move_keeps_circulation<T>(ring: RingView<T>, op: RingOp<T>)
    requires
        ring.wf(),
        ring.permits(op),
    ensures
        ring.apply(op).wf(),
        ring.apply(op).size == ring.size,
        ring.apply(op).in_circulation() == ring.in_circulation(),
        ring.in_circulation() == ring.size,
{
}

/// At all times the number of buffers in circulation is the number that was
/// seeded: it holds right after seeding, and after any run of permitted
/// moves.
pub proof fn lemma_circulation_is_constant<T>(
    ring: RingView<T>,
    contents: Seq<T>,
    ops: Seq<RingOp<T>>,
)
    requires
        ring.seeded_from(contents),
        ring.permits_all(ops),
    ensures
        ring.wf(),
        ring.in_circulation() == contents.len(),
        ring.apply_all(ops).wf(),
        ring.apply_all(ops).in_circulation() == contents.len(),
    decreases ops.len(),
{
    if ops.len() > 0 {
        lemma_circulation_is_constant(ring, contents, ops.drop_last());
        lemma_move_keeps_circulation(ring.apply_all(ops.drop_last()), ops.last());
    }
}

/// A draw stage that waits on an empty `free` does not wait for ever once
/// the presentation side is gone: its request then fails.
pub proof fn lemma_detaching_releases_draw_stage<T>(ring: RingView<T>)
    requires
        ring.free.len() == 0,
    ensures
        ring.recv_free_result() == Ok::<Option<Buffer<T>>, ChannelClosed>(None)
            ==> ring.presentation_attached,
        ring.after_detach_presentation().recv_free_result() == Err::<
            Option<Buffer<T>>,
            ChannelClosed,
        >(ChannelClosed),
{
}

/// A presentation stage that waits on an empty `ready` does not wait for
/// ever once the simulation side is gone: its request then fails.
pub proof fn lemma_detaching_releases_presentation_stage<T>(ring: RingView<T>)
    requires
        ring.ready.len() == 0,
    ensures
        ring.recv_ready_result() == Ok::<Option<Buffer<T>>, ChannelClosed>(None)
            ==> ring.simulation_attached,
        ring.after_detach_simulation().recv_ready_result() == Err::<
            Option<Buffer<T>>,
            ChannelClosed,
        >(ChannelClosed),
{
}

/// The draw stage cannot run ahead of the presentation stage by more than
/// the pool: when every buffer is filled or being shown, its request for a
/// free one is answered with "wait", never with a buffer.
pub proof fn lemma_backpressure<T>(ring: RingView<T>)
    requires
        ring.wf(),
        ring.drawing is None,
        ring.presentation_attached,
        ring.ready.len() + ring.stranded.len() + (if ring.presenting is Some {
            1nat
        } else {
            0nat
        }) == ring.size,
    ensures
        ring.recv_free_result() == Ok::<Option<Buffer<T>>, ChannelClosed>(None),
        ring.after_recv_free() == ring,
{
}

/// Over any run of moves, `ready` hands out what was sent into it, in the
/// order in which it was sent, nothing skipped, repeated or reordered: what
/// waited at first followed by what was sent is what was received followed
/// by what waits at the end.
pub proof fn lemma_ready_keeps_order<T>(ring: RingView<T>, ops: Seq<RingOp<T>>)
    ensures
        ring.ready + ring.sent_ready(ops) == ring.received_ready(ops) + ring.apply_all(ops).ready,
    decreases ops.len(),
{
    if ops.len() == 0 {
        assert(ring.ready + ring.sent_ready(ops) =~= ring.received_ready(ops) + ring.apply_all(
            ops,
        ).ready);
    } else {
        let earlier = ops.drop_last();
        lemma_ready_keeps_order(ring, earlier);
        let before = ring.apply_all(earlier);
        assert(ring.ready + ring.sent_ready(earlier) == ring.received_ready(earlier)
            + before.ready);
        assert(ring.ready + ring.sent_ready(ops) =~= ring.received_ready(ops) + ring.apply_all(
            ops,
        ).ready) by {
            match ops.last() {
                RingOp::SendReady(buffer) => {
                    if before.presentation_attached {
                        assert(ring.ready + ring.sent_ready(earlier).push(buffer) =~= (ring.ready
                            + ring.sent_ready(earlier)).push(buffer));
                        assert(ring.received_ready(earlier) + before.ready.push(buffer) =~= (
                        ring.received_ready(earlier) + before.ready).push(buffer));
                    }
                },
                RingOp::RecvReady => {
                    if before.ready.len() > 0 {
                        assert(ring.received_ready(earlier).push(before.ready[0])
                            + before.ready.skip(1) =~= ring.received_ready(earlier)
                            + before.ready);
                    }
                },
                _ => {},
            }
        }
    }
}

/// From the seeding on, nothing is submitted that was not filled before:
/// whatever the run, the buffers that the presentation stage has received
/// are the first of those that the draw stage has sent, one for one.
pub proof fn lemma_received_were_sent<T>(ring: RingView<T>, contents: Seq<T>, ops: Seq<RingOp<T>>)
    requires
        ring.seeded_from(contents),
    ensures
        ring.received_ready(ops).len() <= ring.sent_ready(ops).len(),
        forall|i: int|
            0 <= i < ring.received_ready(ops).len() ==> #[trigger] ring.received_ready(ops)[i]
                == ring.sent_ready(ops)[i],
{
    lemma_ready_keeps_order(ring, ops);
    let sent = ring.sent_ready(ops);
    let received = ring.received_ready(ops);
    let waiting = ring.apply_all(ops).ready;
    assert(ring.ready =~= Seq::empty());
    assert(ring.ready + sent =~= sent);
    assert(sent == received + waiting);
    assert forall|i: int| 0 <= i < received.len() implies #[trigger] received[i] == sent[i] by {
        assert((received + waiting)[i] == received[i]);
    }
}

/// A buffer has one owner. What the draw stage holds for writing is neither
/// what the presentation stage holds for reading nor waiting in a conduit,
/// and the same holds the other way round.
pub proof fn lemma_exclusive_ownership<T>(ring: RingView<T>)
    requires
        ring.wf(),
    ensures
        ring.drawing is Some ==> ring.drawing != ring.presenting,
        forall|i: int|
            0 <= i < ring.free.len() ==> Some((#[trigger] ring.free[i])@.tag) != ring.drawing
                && Some(ring.free[i]@.tag) != ring.presenting,
        forall|i: int|
            0 <= i < ring.ready.len() ==> Some((#[trigger] ring.ready[i])@.tag) != ring.drawing
                && Some(ring.ready[i]@.tag) != ring.presenting,
        forall|i: int, j: int|
            0 <= i < ring.free.len() && 0 <= j < ring.ready.len() ==> (
            #[trigger] ring.free[i])@.tag != (#[trigger] ring.ready[j])@.tag,
        forall|k: int|
            0 <= k < ring.stranded.len() ==> Some(#[trigger] ring.stranded[k]) != ring.drawing
                && Some(ring.stranded[k]) != ring.presenting,
{
}

} // verus!
