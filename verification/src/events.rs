//! The event dispatcher: one incoming event becomes a state mutation, a
//! batch of draw commands, and a verdict — keep redrawing, or terminate.
//! `Elapsed` and `Interrupted` are terminal; their commands are the
//! cleanup, never a further redraw.
use vstd::prelude::*;
use crate::render::changes_cmds;
use crate::render::cleanup_cmds;
use crate::render::lemma_cmds_view_concat;
use crate::render::cmds_view;
use crate::render::draw_all;
use crate::render::fits;
use crate::render::spec_changes_cmds;
use crate::render::spec_cleanup_cmds;
use crate::render::spec_full_cmds;
use crate::render::DrawCmd;
use crate::state::State;
use crate::state::StateView;

verus! {

/// One poll-iteration event.
pub enum Event {
    /// The sampled terminal dimensions differ from the last-known ones.
    WindowSizeChange(u16, u16),
    /// An external interrupt signal has been observed.
    CtrlC,
    /// The tick: the current instant, sampled this iteration.
    Timeout(u64),
}

/// Why the timer stops.
#[derive(Clone, Copy, PartialEq, Eq, Structural, Debug)]
pub enum Cause {
    Elapsed,
    Interrupted,
}

/// What an event led to.
#[derive(Clone, Copy, PartialEq, Eq, Structural, Debug)]
pub enum Disposition {
    /// The screen was redrawn; the loop goes on.
    Redraw,
    /// A terminal transition: cleanup was emitted and the loop must end.
    Terminate(Cause),
}

/// The state after a geometry change: only the dimensions move.
pub open spec fn with_geometry(s: StateView, w: int, h: int) -> StateView {
    StateView { width: w, height: h, ..s }
}

/// The state after a tick at `now`: only the remaining span moves.
pub open spec fn with_remaining(s: StateView, remaining: int) -> StateView {
    StateView { remaining, ..s }
}

/// Dispatches one event onto the state.
///
/// A geometry change updates the dimensions and redraws everything — the
/// full redraw, then the incremental one, both laid out with the new
/// dimensions. A tick past the end instant terminates as `Elapsed` with
/// the cleanup alone, before any further incremental redraw; an earlier
/// tick recomputes the remaining span and redraws incrementally. An
/// interrupt terminates as `Interrupted` with the cleanup alone, whatever
/// time remains.
pub fn handle_event(event: Event, state: &mut State) -> (r: (Vec<DrawCmd>, Disposition))
    requires
        old(state)@.wf(),
        match event {
            Event::WindowSizeChange(w, h) => fits(
                w as int,
                h as int,
                old(state)@.task,
                old(state)@.duration,
            ),
            Event::Timeout(now) => now > old(state)@.end || (now >= old(state)@.start && fits(
                old(state)@.width,
                old(state)@.height,
                old(state)@.task,
                old(state)@.duration,
            )),
            Event::CtrlC => true,
        },
    ensures
        final(state)@.wf(),
        match event {
            Event::WindowSizeChange(w, h) => {
                &&& final(state)@ == with_geometry(old(state)@, w as int, h as int)
                &&& r.1 == Disposition::Redraw
                &&& exists|a: Seq<char>, b: Seq<char>|
                    cmds_view(r.0@) == #[trigger] spec_full_cmds(final(state)@, a, b)
                        + spec_changes_cmds(final(state)@)
            },
            Event::Timeout(now) => {
                if now > old(state)@.end {
                    &&& final(state)@ == old(state)@
                    &&& r.1 == Disposition::Terminate(Cause::Elapsed)
                    &&& cmds_view(r.0@) == spec_cleanup_cmds()
                } else {
                    &&& final(state)@ == with_remaining(old(state)@, old(state)@.end - now)
                    &&& r.1 == Disposition::Redraw
                    &&& cmds_view(r.0@) == spec_changes_cmds(final(state)@)
                }
            },
            Event::CtrlC => {
                &&& final(state)@ == old(state)@
                &&& r.1 == Disposition::Terminate(Cause::Interrupted)
                &&& cmds_view(r.0@) == spec_cleanup_cmds()
            },
        },
{
    match event {
        Event::WindowSizeChange(w, h) => {
            state.width = w;
            state.height = h;
            let mut cmds = draw_all(state);
            let mut tail = changes_cmds(state);
            let ghost head = cmds@;
            let ghost tail0 = tail@;
            cmds.append(&mut tail);
            proof {
                assert(state@ == with_geometry(old(state)@, w as int, h as int));
                lemma_cmds_view_concat(head, tail0);
                let (a, b) = choose|a: Seq<char>, b: Seq<char>|
                    cmds_view(head) == #[trigger] spec_full_cmds(state@, a, b);
                assert(cmds_view(cmds@) == spec_full_cmds(state@, a, b) + spec_changes_cmds(
                    state@,
                ));
            }
            (cmds, Disposition::Redraw)
        },
        Event::CtrlC => (cleanup_cmds(), Disposition::Terminate(Cause::Interrupted)),
        Event::Timeout(now) => {
            if now > state.end {
                (cleanup_cmds(), Disposition::Terminate(Cause::Elapsed))
            } else {
                state.remaining = state.end - now;
                (changes_cmds(state), Disposition::Redraw)
            }
        },
    }
}

} // verus!
