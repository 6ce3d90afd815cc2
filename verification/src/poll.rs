//! The poll loop's decisions: one `step` per iteration takes the sampled
//! geometry, the sampled instant and the interrupt flag, dispatches the
//! iteration's events in their fixed order — geometry first, then the
//! tick, then the interrupt — and says whether to sleep (and for how
//! long) or to stop. The unverified shell samples, emits the commands,
//! sleeps and loops.
use vstd::prelude::*;
use crate::events::handle_event;
use crate::events::with_geometry;
use crate::events::with_remaining;
use crate::events::Cause;
use crate::events::Event;
use crate::render::cleanup_cmds;
use crate::render::cmds_view;
use crate::render::lemma_cmds_view_concat;
use crate::render::fits;
use crate::render::spec_changes_cmds;
use crate::render::spec_cleanup_cmds;
use crate::render::spec_full_cmds;
use crate::render::CmdView;
use crate::render::DrawCmd;
use crate::state::State;

verus! {

/// What the loop does after one step.
#[derive(Clone, Copy, PartialEq, Eq, Structural, Debug)]
pub enum Control {
    /// Keep running; sleep up to this many seconds before the next step.
    Sleep(u64),
    /// Stop: the cleanup has been emitted and nothing more is drawn.
    Stop(Cause),
}

/// The commands one running step emits: the full and incremental redraw
/// on a geometry change, the tick's incremental redraw, and, on an
/// interrupt, the cleanup, last and exactly once. `s1` is the state the
/// geometry event left (the tick not yet applied), `s2` the state after
/// the tick; `a` and `b` are the clock labels of the full redraw.
pub open spec fn spec_step_cmds(
    changed: bool,
    interrupted: bool,
    s1: crate::state::StateView,
    s2: crate::state::StateView,
    a: Seq<char>,
    b: Seq<char>,
) -> Seq<CmdView> {
    (if changed {
        spec_full_cmds(s1, a, b) + spec_changes_cmds(s1)
    } else {
        Seq::<CmdView>::empty()
    }) + spec_changes_cmds(s2) + (if interrupted {
        spec_cleanup_cmds()
    } else {
        Seq::<CmdView>::empty()
    })
}

/// Whether `cmds` is one running step's command list for these states:
/// some pair of clock labels fills the full redraw's two clock slots.
pub open spec fn is_step_cmds(
    cmds: Seq<CmdView>,
    changed: bool,
    interrupted: bool,
    s1: crate::state::StateView,
    s2: crate::state::StateView,
) -> bool {
    exists|a: Seq<char>, b: Seq<char>|
        cmds == #[trigger] spec_step_cmds(changed, interrupted, s1, s2, a, b)
}

/// What one `step` call promises, relating the poller before (`pre`) and
/// after (`post`) to the sampled inputs, the emitted commands and the
/// verdict.
pub open spec fn step_post(
    pre: Poller,
    post: Poller,
    width: u16,
    height: u16,
    now: u64,
    interrupted: bool,
    cmds: Seq<DrawCmd>,
    ctl: Control,
) -> bool {
    let s0 = pre.state@;
    if now >= s0.end {
        &&& post == pre
        &&& cmds_view(cmds) == spec_cleanup_cmds()
        &&& ctl == Control::Stop(Cause::Elapsed)
    } else {
        let changed = width != pre.last_width || height != pre.last_height;
        let s1 = if changed {
            with_geometry(s0, width as int, height as int)
        } else {
            s0
        };
        let s2 = with_remaining(s1, s0.end - now);
        &&& post.state@ == s2
        &&& post.last_width == width
        &&& post.last_height == height
        &&& is_step_cmds(cmds_view(cmds), changed, interrupted, s1, s2)
        &&& ctl == (if interrupted {
            Control::Stop(Cause::Interrupted)
        } else {
            Control::Sleep(if s2.remaining > 120 { 10u64 } else { 1u64 })
        })
    }
}

/// The poll loop's record: the timer state plus the last-known terminal
/// dimensions, which start at zero so the first step always lays the
/// screen out in full.
pub struct Poller {
    pub state: State,
    pub last_width: u16,
    pub last_height: u16,
}

impl Poller {
    /// The step invariant: a well-formed state whose dimensions leave
    /// room for the layout.
    pub open spec fn wf(self) -> bool {
        &&& self.state@.wf()
        &&& fits(self.state@.width, self.state@.height, self.state@.task, self.state@.duration)
    }

    /// One poll iteration.
    ///
    /// A step at or past the end instant stops as `Elapsed` with the
    /// cleanup alone — no further remaining-time text is drawn. Before
    /// the end, a geometry change redraws everything with the new
    /// dimensions, the tick recomputes the remaining span and redraws it,
    /// and an interrupt observed this iteration stops as `Interrupted`
    /// with the cleanup emitted exactly once, last. Otherwise the loop
    /// sleeps: up to ten seconds while over two minutes remain, up to one
    /// second in the final countdown.
    #[verifier::rlimit(100)]
    #[verifier::spinoff_prover]
    pub fn step(&mut self, width: u16, height: u16, now: u64, interrupted: bool) -> (r: (
        Vec<DrawCmd>,
        Control,
    ))
        requires
            old(self).wf(),
            fits(width as int, height as int, old(self).state@.task, old(self).state@.duration),
            now >= old(self).state@.start,
        ensures
            final(self).wf(),
            step_post(*old(self), *final(self), width, height, now, interrupted, r.0@, r.1),
    {
        let ghost s0 = self.state@;
        if now >= self.state.end {
            return (cleanup_cmds(), Control::Stop(Cause::Elapsed));
        }
        let mut cmds: Vec<DrawCmd> = Vec::new();
        let ghost changed = width != self.last_width || height != self.last_height;
        let ghost s1 = if changed {
            with_geometry(s0, width as int, height as int)
        } else {
            s0
        };
        let ghost mut wa: Seq<char> = Seq::empty();
        let ghost mut wb: Seq<char> = Seq::empty();
        if width != self.last_width || height != self.last_height {
            let (mut c, _d) = handle_event(Event::WindowSizeChange(width, height), &mut self.state);
            let ghost c0 = c@;
            cmds.append(&mut c);
            self.last_width = width;
            self.last_height = height;
            proof {
                let (a, b) = choose|a: Seq<char>, b: Seq<char>|
                    cmds_view(c0) == #[trigger] spec_full_cmds(s1, a, b) + spec_changes_cmds(s1);
                wa = a;
                wb = b;
                lemma_cmds_view_concat(Seq::empty(), c0);
                assert(cmds_view(cmds@) == spec_full_cmds(s1, wa, wb) + spec_changes_cmds(s1));
            }
        }
        let ghost head = cmds@;
        let (mut c2, _d2) = handle_event(Event::Timeout(now), &mut self.state);
        let ghost c20 = c2@;
        cmds.append(&mut c2);
        let ghost s2 = self.state@;
        proof {
            lemma_cmds_view_concat(head, c20);
            assert(s2 == with_remaining(s1, s0.end - now));
            assert(cmds_view(cmds@) == (if changed {
                spec_full_cmds(s1, wa, wb) + spec_changes_cmds(s1)
            } else {
                Seq::<CmdView>::empty()
            }) + spec_changes_cmds(s2));
        }
        if interrupted {
            let (mut c3, _d3) = handle_event(Event::CtrlC, &mut self.state);
            let ghost c30 = c3@;
            let ghost mid = cmds@;
            cmds.append(&mut c3);
            proof {
                lemma_cmds_view_concat(mid, c30);
                assert(cmds_view(cmds@) == spec_step_cmds(changed, interrupted, s1, s2, wa, wb));
                assert(is_step_cmds(cmds_view(cmds@), changed, interrupted, s1, s2));
                assert(step_post(
                    *old(self),
                    *self,
                    width,
                    height,
                    now,
                    interrupted,
                    cmds@,
                    Control::Stop(Cause::Interrupted),
                ));
            }
            return (cmds, Control::Stop(Cause::Interrupted));
        }
        let sleep: u64 = if self.state.remaining > 120 {
            10
        } else {
            1
        };
        proof {
            assert(cmds_view(cmds@) + Seq::<CmdView>::empty() =~= cmds_view(cmds@));
            assert(cmds_view(cmds@) == spec_step_cmds(changed, interrupted, s1, s2, wa, wb));
            assert(is_step_cmds(cmds_view(cmds@), changed, interrupted, s1, s2));
            assert(step_post(
                *old(self),
                *self,
                width,
                height,
                now,
                interrupted,
                cmds@,
                Control::Sleep(if self.state.remaining > 120 { 10u64 } else { 1u64 }),
            ));
        }
        (cmds, Control::Sleep(sleep))
    }
}

} // verus!
