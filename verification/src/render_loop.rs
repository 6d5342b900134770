//! The render loop as a state machine. The program around it draws what
//! [`RenderLoop::begin_frame`] describes, presents the frame, drains the
//! window's events and hands them to [`RenderLoop::end_frame`], until
//! `begin_frame` has nothing more to draw.

use crate::animation::{
    advance, in_range, lemma_offset_after_step, next_offset, offset_after, OFFSET_MIN,
};
use crate::frame::{frame_at, shows, Frame, Scene};
use vstd::prelude::*;

verus! {

/// Whether the loop still draws.
#[derive(Clone, Copy, Debug, PartialEq, Eq, Structural)]
pub enum LoopState {
    /// Frames are drawn.
    Running,
    /// The window was asked to close; nothing is drawn any more.
    Closed,
}

/// What the loop needs to know of an event of the window.
#[derive(Clone, Copy, Debug, PartialEq, Eq, Structural)]
pub enum WindowEvent {
    /// The user asked for the window to be closed.
    CloseRequested,
    /// Anything else.
    Other,
}

/// Some event of the batch asks for the window to be closed.
pub open spec fn close_requested(events: Seq<WindowEvent>) -> bool {
    exists|i: int| 0 <= i < events.len() && events[i] == WindowEvent::CloseRequested
}

/// Tells whether some event of the batch asks for the window to be closed.
pub fn requests_close(events: &[WindowEvent]) -> (b: bool)
    ensures
        b == close_requested(events@),
{
    let mut i: usize = 0;
    while i < events.len()
        invariant
            i <= events.len(),
            forall|j: int| 0 <= j < i ==> events@[j] != WindowEvent::CloseRequested,
        decreases events.len() - i,
    {
        match events[i] {
            WindowEvent::CloseRequested => {
                return true;
            },
            WindowEvent::Other => {},
        }
        i += 1;
    }
    false
}

/// The loop as mathematical values.
pub struct LoopModel {
    pub scene: Scene,
    pub state: LoopState,
    pub offset: int,
}

impl LoopModel {
    /// The offset lies in the range the animation sweeps.
    pub open spec fn wf(self) -> bool {
        in_range(self.offset)
    }

    /// A loop that has drawn nothing yet: running, at the lower bound.
    pub open spec fn initial(scene: Scene) -> LoopModel {
        LoopModel { scene, state: LoopState::Running, offset: OFFSET_MIN as int }
    }

    /// The loop after it has started its next frame: the offset has advanced
    /// if the loop is running, and nothing has changed if it is closed.
    pub open spec fn begin_frame(self) -> LoopModel {
        match self.state {
            LoopState::Running => LoopModel { offset: next_offset(self.offset), ..self },
            LoopState::Closed => self,
        }
    }

    /// The loop after a batch of events: closed if it was closed or an event
    /// asks for it, and otherwise unchanged.
    pub open spec fn end_frame(self, events: Seq<WindowEvent>) -> LoopModel {
        if close_requested(events) {
            LoopModel { state: LoopState::Closed, ..self }
        } else {
            self
        }
    }

    /// The loop after it has gone round once for each batch of events: a
    /// frame begun, then ended with that batch.
    pub open spec fn run(self, batches: Seq<Seq<WindowEvent>>) -> LoopModel
        decreases batches.len(),
    {
        if batches.len() == 0 {
            self
        } else {
            self.begin_frame().end_frame(batches.first()).run(batches.drop_first())
        }
    }

    /// How many frames are drawn while the loop goes round once for each
    /// batch of events: a round draws if the loop is running when it starts.
    pub open spec fn frames_drawn(self, batches: Seq<Seq<WindowEvent>>) -> nat
        decreases batches.len(),
    {
        if batches.len() == 0 {
            0
        } else {
            let drawn: nat = if self.state is Running {
                1
            } else {
                0
            };
            drawn + self.begin_frame().end_frame(batches.first()).frames_drawn(
                batches.drop_first(),
            )
        }
    }
}

/// Batch `k` is the first that holds a request to close.
pub open spec fn first_close_at(batches: Seq<Seq<WindowEvent>>, k: int) -> bool {
    &&& 0 <= k < batches.len()
    &&& close_requested(batches[k])
    &&& forall|j: int| 0 <= j < k ==> !close_requested(#[trigger] batches[j])
}

/// The render loop: the scene it draws, whether it still runs, and the offset
/// of the frame drawn last.
pub struct RenderLoop {
    scene: Scene,
    state: LoopState,
    offset: i32,
}

impl View for RenderLoop {
    type V = LoopModel;

    closed spec fn view(&self) -> LoopModel {
        LoopModel { scene: self.scene, state: self.state, offset: self.offset as int }
    }
}

impl RenderLoop {
    #[verifier::type_invariant]
    spec fn inv(&self) -> bool {
        self@.wf()
    }

    /// Starts a loop for `scene`.
    pub fn new(scene: Scene) -> (r: RenderLoop)
        ensures
            r@ == LoopModel::initial(scene),
            r@.wf(),
    {
        RenderLoop { scene, state: LoopState::Running, offset: OFFSET_MIN }
    }

    /// The scene this loop draws.
    pub fn scene(&self) -> (s: Scene)
        ensures
            s == self@.scene,
    {
        self.scene
    }

    /// Whether the loop runs or has been closed.
    pub fn state(&self) -> (s: LoopState)
        ensures
            s == self@.state,
    {
        self.state
    }

    /// Whether the loop still draws.
    pub fn is_running(&self) -> (b: bool)
        ensures
            b == (self@.state is Running),
    {
        match self.state {
            LoopState::Running => true,
            LoopState::Closed => false,
        }
    }

    /// The offset of the frame drawn last, or the lower bound before the
    /// first frame. It never leaves the range of the animation.
    pub fn offset(&self) -> (t: i32)
        ensures
            t == self@.offset,
            in_range(t as int),
    {
        proof {
            use_type_invariant(self);
        }
        self.offset
    }

    /// Starts the next frame. While the loop runs, the offset advances by
    /// one step and the frame to draw is returned. Once it is closed there is
    /// no frame, and nothing changes.
    pub fn begin_frame(&mut self) -> (r: Option<Frame>)
        ensures
            final(self)@ == old(self)@.begin_frame(),
            final(self)@.wf(),
            match r {
                Some(frame) => old(self)@.state is Running && shows(
                    frame,
                    final(self)@.scene,
                    final(self)@.offset,
                ),
                None => old(self)@.state is Closed,
            },
    {
        proof {
            use_type_invariant(&*self);
        }
        match self.state {
            LoopState::Running => {
                self.offset = advance(self.offset);
                Some(frame_at(self.scene, self.offset))
            },
            LoopState::Closed => None,
        }
    }

    /// Ends the frame with the events that the window has gathered since the
    /// last one. A request to close ends the loop; other events are ignored.
    pub fn end_frame(&mut self, events: &[WindowEvent])
        ensures
            final(self)@ == old(self)@.end_frame(events@),
            final(self)@.wf(),
    {
        proof {
            use_type_invariant(&*self);
        }
        if requests_close(events) {
            self.state = LoopState::Closed;
        }
    }
}

/// A request to close ends the loop, whatever state it was in.
pub proof fn lemma_close_request_closes(m: LoopModel, events: Seq<WindowEvent>)
    requires
        close_requested(events),
    ensures
        m.end_frame(events).state is Closed,
{
}

/// Events that do not ask to close leave the loop as it is.
pub proof fn lemma_other_events_are_ignored(m: LoopModel, events: Seq<WindowEvent>)
    requires
        !close_requested(events),
    ensures
        m.end_frame(events) == m,
{
}

/// Closed is final: a closed loop begins no frame, and no events reopen it.
pub proof fn lemma_closed_is_final(m: LoopModel, events: Seq<WindowEvent>)
    requires
        m.state is Closed,
    ensures
        m.begin_frame() == m,
        m.end_frame(events) == m,
{
}

/// A closed loop draws nothing more and stays as it is, however long the
/// program goes on feeding it events.
pub proof fn lemma_closed_draws_nothing(m: LoopModel, batches: Seq<Seq<WindowEvent>>)
    requires
        m.state is Closed,
    ensures
        m.frames_drawn(batches) == 0,
        m.run(batches) == m,
    decreases batches.len(),
{
    if batches.len() > 0 {
        lemma_closed_is_final(m, batches.first());
        lemma_closed_draws_nothing(m, batches.drop_first());
    }
}

/// The offset stays in the range of the animation through every round.
pub proof fn lemma_run_stays_in_range(m: LoopModel, batches: Seq<Seq<WindowEvent>>)
    requires
        m.wf(),
    ensures
        m.run(batches).wf(),
    decreases batches.len(),
{
    if batches.len() > 0 {
        lemma_run_stays_in_range(
            m.begin_frame().end_frame(batches.first()),
            batches.drop_first(),
        );
    }
}

/// While no batch asks to close, a running loop draws one frame per round,
/// keeps running, and its offset advances by one step per frame.
pub proof fn lemma_draws_while_open(m: LoopModel, batches: Seq<Seq<WindowEvent>>)
    requires
        m.state is Running,
        forall|j: int| 0 <= j < batches.len() ==> !close_requested(#[trigger] batches[j]),
    ensures
        m.frames_drawn(batches) == batches.len(),
        m.run(batches).state is Running,
        m.run(batches).scene == m.scene,
        m.run(batches).offset == offset_after(m.offset, batches.len()),
    decreases batches.len(),
{
    if batches.len() > 0 {
        let next = m.begin_frame().end_frame(batches.first());
        let rest = batches.drop_first();
        assert forall|j: int| 0 <= j < rest.len() implies !close_requested(
            #[trigger] rest[j],
        ) by {
            assert(rest[j] == batches[j + 1]);
        }
        lemma_draws_while_open(next, rest);
        lemma_offset_after_step(m.offset, rest.len());
    }
}

/// A running loop whose first request to close arrives in batch `k` draws
/// exactly the frames of rounds 0 to `k` and none after: `k + 1` frames in
/// all, the last at the offset reached after `k + 1` steps. It ends closed.
pub proof fn lemma_draws_until_closed(m: LoopModel, batches: Seq<Seq<WindowEvent>>, k: int)
    requires
        m.state is Running,
        first_close_at(batches, k),
    ensures
        m.frames_drawn(batches) == k + 1,
        m.run(batches).state is Closed,
        m.run(batches).scene == m.scene,
        m.run(batches).offset == offset_after(m.offset, (k + 1) as nat),
    decreases batches.len(),
{
    let next = m.begin_frame().end_frame(batches.first());
    let rest = batches.drop_first();
    if k == 0 {
        lemma_closed_draws_nothing(next, rest);
        assert(offset_after(m.offset, 1) == next_offset(offset_after(m.offset, 0)));
    } else {
        assert(!close_requested(batches[0]));
        assert(first_close_at(rest, k - 1)) by {
            assert(rest[k - 1] == batches[k]);
            assert forall|j: int| 0 <= j < k - 1 implies !close_requested(#[trigger] rest[j]) by {
                assert(rest[j] == batches[j + 1]);
            }
        }
        lemma_draws_until_closed(next, rest, k - 1);
        lemma_offset_after_step(m.offset, k as nat);
    }
}

} // verus!
