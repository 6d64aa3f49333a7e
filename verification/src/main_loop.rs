//! The order of work in the main loop.
use vstd::prelude::*;

use crate::capture::BufferData;
use crate::state::CaptureState;

verus! {

/// How long to wait for an event at most, in milliseconds: about 60 frames a
/// second.
pub const WAIT_MS: u8 = 16;

/// What to do next.
#[derive(Clone, Copy, Debug, PartialEq, Eq, Structural)]
pub enum LoopAction {
    /// Dispatch the Wayland events that have come in.
    Dispatch,
    /// Let PipeWire do what it can without waiting.
    Iterate,
    /// Draw the frame; if that fails, go on.
    Render,
    /// Send the requests that are queued.
    Flush,
    /// Wait until something comes in from either side, or the time is over.
    Wait { timeout_ms: u8 },
    /// Leave the loop.
    Stop,
}

/// The work of the loop, by what was done last.
#[derive(Clone, Copy, Debug, PartialEq, Eq, Structural)]
pub enum MainLoop {
    /// A turn begins.
    Top,
    Dispatched,
    Iterated,
    Rendered,
    Flushed,
}

impl MainLoop {
    /// What is next, given whether the window is still open and whether a frame
    /// is ready to be shown, and where that leaves the loop.
    pub open spec fn spec_next(self, running: bool, frame_ready: bool) -> (MainLoop, LoopAction) {
        match self {
            MainLoop::Dispatched => (MainLoop::Iterated, LoopAction::Iterate),
            MainLoop::Iterated if frame_ready => (MainLoop::Rendered, LoopAction::Render),
            MainLoop::Iterated | MainLoop::Rendered => (MainLoop::Flushed, LoopAction::Flush),
            MainLoop::Flushed if !frame_ready => (
                MainLoop::Top,
                LoopAction::Wait { timeout_ms: WAIT_MS },
            ),
            MainLoop::Top | MainLoop::Flushed => if running {
                (MainLoop::Dispatched, LoopAction::Dispatch)
            } else {
                (MainLoop::Top, LoopAction::Stop)
            },
        }
    }

    /// Decides what is next. A frame that is to be drawn is no longer new.
    pub fn next<F>(&mut self, running: bool, cap: &mut CaptureState<F>) -> (action: LoopAction)
        ensures
            (*final(self), action) == old(self).spec_next(running, old(cap).frame_ready),
            *final(cap) == (CaptureState::<F> {
                frame_ready: old(cap).frame_ready && action !is Render,
                ..*old(cap)
            }),
            action is Render <==> *old(self) is Iterated && old(cap).frame_ready,
            action is Stop <==> !running && (*old(self) is Top || (*old(self) is Flushed && old(
                cap,
            ).frame_ready)),
            action is Wait <==> *old(self) is Flushed && !old(cap).frame_ready,
            action matches LoopAction::Wait { timeout_ms } ==> timeout_ms == 16,
            old(cap).wf() ==> final(cap).wf() && (action is Render ==> final(cap).frame is Some),
    {
        match *self {
            MainLoop::Dispatched => {
                *self = MainLoop::Iterated;
                LoopAction::Iterate
            },
            MainLoop::Iterated => {
                if cap.frame_ready {
                    cap.frame_ready = false;
                    *self = MainLoop::Rendered;
                    LoopAction::Render
                } else {
                    *self = MainLoop::Flushed;
                    LoopAction::Flush
                }
            },
            MainLoop::Rendered => {
                *self = MainLoop::Flushed;
                LoopAction::Flush
            },
            MainLoop::Flushed => {
                if !cap.frame_ready {
                    *self = MainLoop::Top;
                    LoopAction::Wait { timeout_ms: WAIT_MS }
                } else {
                    self.begin(running)
                }
            },
            MainLoop::Top => self.begin(running),
        }
    }

    fn begin(&mut self, running: bool) -> (action: LoopAction)
        ensures
            (*final(self), action) == MainLoop::Top.spec_next(running, true),
    {
        if running {
            *self = MainLoop::Dispatched;
            LoopAction::Dispatch
        } else {
            *self = MainLoop::Top;
            LoopAction::Stop
        }
    }
}

/// A turn of the loop with nothing new to show: events, PipeWire, flush, wait;
/// and with a frame that is ready when PipeWire has been let run, it is drawn
/// before the flush. In either case the wait follows, and the loop is back at
/// the top.
pub proof fn lemma_turn(ready: bool)
    ensures
        MainLoop::Top.spec_next(true, false) == (MainLoop::Dispatched, LoopAction::Dispatch),
        MainLoop::Dispatched.spec_next(true, ready) == (MainLoop::Iterated, LoopAction::Iterate),
        ready ==> MainLoop::Iterated.spec_next(true, ready) == (
            MainLoop::Rendered,
            LoopAction::Render,
        ),
        !ready ==> MainLoop::Iterated.spec_next(true, ready) == (
            MainLoop::Flushed,
            LoopAction::Flush,
        ),
        MainLoop::Rendered.spec_next(true, false) == (MainLoop::Flushed, LoopAction::Flush),
        MainLoop::Flushed.spec_next(true, false) == (
            MainLoop::Top,
            LoopAction::Wait { timeout_ms: WAIT_MS },
        ),
{
}

/// The order of work is the same in every state of the window and of the capture,
/// with three exceptions: drawing takes a frame that is ready, waiting takes that
/// none is, and a new turn takes a window that is still open.
pub proof fn lemma_order_of_work(running: bool, ready: bool)
    ensures
        MainLoop::Dispatched.spec_next(running, ready) == (
            MainLoop::Iterated,
            LoopAction::Iterate,
        ),
        MainLoop::Iterated.spec_next(running, true) == (MainLoop::Rendered, LoopAction::Render),
        MainLoop::Iterated.spec_next(running, false) == (MainLoop::Flushed, LoopAction::Flush),
        MainLoop::Rendered.spec_next(running, ready) == (MainLoop::Flushed, LoopAction::Flush),
        MainLoop::Flushed.spec_next(running, false) == (
            MainLoop::Top,
            LoopAction::Wait { timeout_ms: 16 },
        ),
        MainLoop::Flushed.spec_next(running, true) == MainLoop::Top.spec_next(running, ready),
        MainLoop::Top.spec_next(true, ready) == (MainLoop::Dispatched, LoopAction::Dispatch),
        MainLoop::Top.spec_next(false, ready) == (MainLoop::Top, LoopAction::Stop),
{
}

/// A DMA-BUF that is stored while PipeWire runs is drawn in the same turn,
/// whatever was captured or drawn before it.
pub proof fn lemma_stored_frame_is_drawn<F>(
    cap: CaptureState<F>,
    data: BufferData,
    fd: F,
    running: bool,
)
    ensures
        MainLoop::Iterated.spec_next(running, cap.with_dmabuf(data, fd).frame_ready).1
            == LoopAction::Render,
{
}

/// A frame is drawn only when one is ready, and the loop is left only at the end
/// of a turn, when the window has been closed.
pub proof fn lemma_render_and_stop(at: MainLoop, running: bool, ready: bool)
    ensures
        at.spec_next(running, ready).1 is Render <==> at is Iterated && ready,
        at.spec_next(running, ready).1 is Stop ==> !running && (at is Top || at is Flushed),
        !running && at is Top ==> at.spec_next(running, ready) == (MainLoop::Top, LoopAction::Stop),
{
}

} // verus!
