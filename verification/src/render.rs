//! The renderer: the full redraw that lays every element out, the
//! incremental redraw that repaints only the remaining-time line and the
//! progress bar, and the cleanup that restores the terminal. Each is a
//! pure computation to a sequence of draw commands; an unverified shell
//! turns the commands into terminal writes.
use vstd::prelude::*;
use vstd::string::StrSliceExecFns;
use vstd::string::StringExecFns;
use crate::duration_text::dec_len;
use crate::duration_text::dec_seq;
use crate::duration_text::duration_label;
use crate::duration_text::spec_duration_label;
use crate::progress::num_bar_fill;
use crate::progress::spec_bar_fill;
use crate::state::State;
use crate::state::StateView;

verus! {

/// A display color of the draw vocabulary.
#[derive(Clone, Copy, PartialEq, Eq, Structural, Debug)]
pub enum Color {
    LightRed,
    LightBlue,
    Blue,
    White,
}

/// One terminal draw command. `Goto` columns and rows are one-based cell
/// coordinates.
#[derive(Debug)]
pub enum DrawCmd {
    ClearAll,
    Goto(u16, u16),
    SetFg(Color),
    ResetFg,
    SetBg(Color),
    ResetBg,
    Bold,
    ResetStyle,
    HideCursor,
    ShowCursor,
    Text(String),
}

/// The model of a draw command.
pub ghost enum CmdView {
    ClearAll,
    Goto(int, int),
    SetFg(Color),
    ResetFg,
    SetBg(Color),
    ResetBg,
    Bold,
    ResetStyle,
    HideCursor,
    ShowCursor,
    Text(Seq<char>),
}

impl View for DrawCmd {
    type V = CmdView;

    open spec fn view(&self) -> CmdView {
        match self {
            DrawCmd::ClearAll => CmdView::ClearAll,
            DrawCmd::Goto(x, y) => CmdView::Goto(*x as int, *y as int),
            DrawCmd::SetFg(c) => CmdView::SetFg(*c),
            DrawCmd::ResetFg => CmdView::ResetFg,
            DrawCmd::SetBg(c) => CmdView::SetBg(*c),
            DrawCmd::ResetBg => CmdView::ResetBg,
            DrawCmd::Bold => CmdView::Bold,
            DrawCmd::ResetStyle => CmdView::ResetStyle,
            DrawCmd::HideCursor => CmdView::HideCursor,
            DrawCmd::ShowCursor => CmdView::ShowCursor,
            DrawCmd::Text(s) => CmdView::Text(s@),
        }
    }
}

/// The model of a command list.
pub open spec fn cmds_view(s: Seq<DrawCmd>) -> Seq<CmdView> {
    s.map_values(|c: DrawCmd| c@)
}

/// The geometry and labels leave room for every layout computation: the
/// end time sits thirteen cells left of the right edge (which also leaves
/// the bar, inset four cells from either edge, at least one cell), the
/// remaining-time line sits above the bottom, and the centered labels are
/// no wider than the viewport.
pub open spec fn fits(width: int, height: int, task: Option<Seq<char>>, duration: int) -> bool {
    &&& 13 <= width
    &&& 3 <= height
    &&& (task matches Some(t) ==> t.len() <= width)
    &&& 11 + dec_seq((duration / 60) as nat).len() <= width
}

/// The cleanup commands: restore the cursor, the foreground color and the
/// text style. They run on every termination path.
pub open spec fn spec_cleanup_cmds() -> Seq<CmdView> {
    seq![CmdView::ShowCursor, CmdView::ResetFg, CmdView::ResetStyle]
}

/// Emits the cleanup commands.
pub fn cleanup_cmds() -> (r: Vec<DrawCmd>)
    ensures
        cmds_view(r@) == spec_cleanup_cmds(),
{
    let mut v: Vec<DrawCmd> = Vec::new();
    v.push(DrawCmd::ShowCursor);
    v.push(DrawCmd::ResetFg);
    v.push(DrawCmd::ResetStyle);
    proof {
        assert(cmds_view(v@) =~= spec_cleanup_cmds());
    }
    v
}

/// The full-redraw commands: clear the viewport; center the task label at
/// mid-height in bold light red; put the start time at the left margin of
/// the top line, the total duration in whole minutes at its center, and
/// the end time near its right edge; hide the cursor last.
pub open spec fn spec_full_cmds(s: StateView, start_label: Seq<char>, end_label: Seq<char>) -> Seq<
    CmdView,
> {
    seq![CmdView::ClearAll] + (match s.task {
        Some(t) => seq![
            CmdView::Bold,
            CmdView::SetFg(Color::LightRed),
            CmdView::Goto(s.width / 2 - t.len() / 2, s.height / 2),
            CmdView::Text(t),
            CmdView::ResetFg,
            CmdView::ResetStyle,
        ],
        None => seq![],
    }) + seq![
        CmdView::Goto(4, 2),
        CmdView::ResetFg,
        CmdView::Text("Start: "@),
        CmdView::SetFg(Color::LightBlue),
        CmdView::Text(start_label),
        CmdView::Goto(s.width / 2 - (11 + dec_seq((s.duration / 60) as nat).len() as int) / 2, 2),
        CmdView::ResetFg,
        CmdView::Text("Duration: "@),
        CmdView::SetFg(Color::LightBlue),
        CmdView::Text(dec_seq((s.duration / 60) as nat) + "m"@),
        CmdView::Goto(s.width - 13, 2),
        CmdView::ResetFg,
        CmdView::Text("End: "@),
        CmdView::SetFg(Color::LightBlue),
        CmdView::Text(end_label),
        CmdView::HideCursor,
    ]
}

/// Computes the full-redraw commands from the state and the two clock
/// labels.
pub fn full_cmds(state: &State, start_label: &str, end_label: &str) -> (r: Vec<DrawCmd>)
    requires
        fits(state@.width, state@.height, state@.task, state@.duration),
    ensures
        cmds_view(r@) == spec_full_cmds(state@, start_label@, end_label@),
{
    let mut v: Vec<DrawCmd> = Vec::new();
    v.push(DrawCmd::ClearAll);
    match &state.task {
        Some(t) => {
            let tl = t.as_str().unicode_len();
            v.push(DrawCmd::Bold);
            v.push(DrawCmd::SetFg(Color::LightRed));
            v.push(DrawCmd::Goto(state.width / 2 - (tl / 2) as u16, state.height / 2));
            v.push(DrawCmd::Text(t.clone()));
            v.push(DrawCmd::ResetFg);
            v.push(DrawCmd::ResetStyle);
        },
        None => {},
    }
    v.push(DrawCmd::Goto(4, 2));
    v.push(DrawCmd::ResetFg);
    v.push(DrawCmd::Text("Start: ".to_owned()));
    v.push(DrawCmd::SetFg(Color::LightBlue));
    v.push(DrawCmd::Text(start_label.to_owned()));
    let minutes = state.duration / 60;
    let dlen = 11 + dec_len(minutes);
    v.push(DrawCmd::Goto(state.width / 2 - (dlen / 2) as u16, 2));
    v.push(DrawCmd::ResetFg);
    v.push(DrawCmd::Text("Duration: ".to_owned()));
    v.push(DrawCmd::SetFg(Color::LightBlue));
    v.push(DrawCmd::Text(u64_dec_m(minutes)));
    v.push(DrawCmd::Goto(state.width - 13, 2));
    v.push(DrawCmd::ResetFg);
    v.push(DrawCmd::Text("End: ".to_owned()));
    v.push(DrawCmd::SetFg(Color::LightBlue));
    v.push(DrawCmd::Text(end_label.to_owned()));
    v.push(DrawCmd::HideCursor);
    proof {
        assert(cmds_view(v@) =~= spec_full_cmds(state@, start_label@, end_label@));
    }
    v
}

/// The whole minutes with an `"m"` suffix, as on the top line.
fn u64_dec_m(n: u64) -> (r: String)
    ensures
        r@ == dec_seq(n as nat) + "m"@,
{
    crate::duration_text::u64_dec(n).concat("m")
}

/// One blank cell per column of `[lo, hi)` on row `row`.
pub open spec fn spec_bar_cells(lo: int, hi: int, row: int) -> Seq<CmdView>
    decreases hi - lo,
{
    if lo >= hi {
        seq![]
    } else {
        seq![CmdView::Goto(lo, row), CmdView::Text(" "@)] + spec_bar_cells(lo + 1, hi, row)
    }
}

/// The incremental-redraw commands: rewrite the remaining-time line at
/// the bottom left, then repaint the whole bar row exactly once — the bar
/// spans the viewport inset four cells from either edge, its first `fill`
/// cells (the elapsed fraction of its own width) on a blue background and
/// the rest on a white one.
pub open spec fn spec_changes_cmds(s: StateView) -> Seq<CmdView> {
    let fill = spec_bar_fill(s.remaining, s.duration, s.width - 8);
    seq![
        CmdView::Goto(4, s.height - 3),
        CmdView::ResetFg,
        CmdView::Text("Remaining: "@),
        CmdView::SetFg(Color::LightBlue),
        CmdView::Text(spec_duration_label(s.remaining as nat)),
        CmdView::SetBg(Color::Blue),
    ] + spec_bar_cells(4, 4 + fill, s.height - 1) + seq![
        CmdView::ResetBg,
        CmdView::SetBg(Color::White),
    ] + spec_bar_cells(4 + fill, s.width - 4, s.height - 1) + seq![CmdView::ResetBg]
}

/// Pushes one blank cell per column of `[lo, hi)` on row `row`.
fn push_bar_cells(v: &mut Vec<DrawCmd>, lo: u16, hi: u16, row: u16)
    ensures
        cmds_view(final(v)@) == cmds_view(old(v)@) + spec_bar_cells(lo as int, hi as int, row as int),
{
    let mut c = lo;
    while c < hi
        invariant
            lo <= c,
            c <= hi || c == lo,
            cmds_view(v@) == cmds_view(old(v)@) + spec_bar_cells(lo as int, c as int, row as int),
        decreases hi - c,
    {
        let ghost v0 = v@;
        v.push(DrawCmd::Goto(c, row));
        v.push(DrawCmd::Text(" ".to_owned()));
        proof {
            assert(cmds_view(v@) =~= cmds_view(v0).push(CmdView::Goto(c as int, row as int)).push(
                CmdView::Text(" "@),
            ));
            lemma_bar_cells_snoc(lo as int, c as int + 1, row as int);
            assert(cmds_view(v@) =~= cmds_view(old(v)@) + spec_bar_cells(
                lo as int,
                c as int + 1,
                row as int,
            ));
        }
        c = c + 1;
    }
    proof {
        assert(cmds_view(v@) =~= cmds_view(old(v)@) + spec_bar_cells(
            lo as int,
            hi as int,
            row as int,
        ));
    }
}

/// Growing the column range by one appends one cell's two commands.
proof fn lemma_bar_cells_snoc(lo: int, hi: int, row: int)
    requires
        lo < hi,
    ensures
        spec_bar_cells(lo, hi, row) == spec_bar_cells(lo, hi - 1, row) + seq![
            CmdView::Goto(hi - 1, row),
            CmdView::Text(" "@),
        ],
    decreases hi - lo,
{
    let cell = seq![CmdView::Goto(hi - 1, row), CmdView::Text(" "@)];
    if lo == hi - 1 {
        assert(spec_bar_cells(lo + 1, hi, row) =~= Seq::<CmdView>::empty());
        assert(spec_bar_cells(lo, hi - 1, row) =~= Seq::<CmdView>::empty());
        assert(spec_bar_cells(lo, hi, row) =~= spec_bar_cells(lo, hi - 1, row) + cell);
    } else {
        lemma_bar_cells_snoc(lo + 1, hi, row);
        let head = seq![CmdView::Goto(lo, row), CmdView::Text(" "@)];
        assert(spec_bar_cells(lo, hi, row) == head + spec_bar_cells(lo + 1, hi, row));
        assert(spec_bar_cells(lo, hi - 1, row) == head + spec_bar_cells(lo + 1, hi - 1, row));
        assert(head + (spec_bar_cells(lo + 1, hi - 1, row) + cell) =~= (head + spec_bar_cells(
            lo + 1,
            hi - 1,
            row,
        )) + cell);
    }
}

/// Computes the incremental-redraw commands.
pub fn changes_cmds(state: &State) -> (r: Vec<DrawCmd>)
    requires
        state@.wf(),
        fits(state@.width, state@.height, state@.task, state@.duration),
    ensures
        cmds_view(r@) == spec_changes_cmds(state@),
{
    let ghost fill_spec = spec_bar_fill(state@.remaining, state@.duration, state@.width - 8);
    let ghost row = state@.height - 1;
    let ghost line = seq![
        CmdView::Goto(4, state@.height - 3),
        CmdView::ResetFg,
        CmdView::Text("Remaining: "@),
        CmdView::SetFg(Color::LightBlue),
        CmdView::Text(spec_duration_label(state@.remaining as nat)),
        CmdView::SetBg(Color::Blue),
    ];
    let ghost bar1 = spec_bar_cells(4, 4 + fill_spec, row);
    let ghost swap = seq![CmdView::ResetBg, CmdView::SetBg(Color::White)];
    let ghost bar2 = spec_bar_cells(4 + fill_spec, state@.width - 4, row);
    let mut v: Vec<DrawCmd> = Vec::new();
    v.push(DrawCmd::Goto(4, state.height - 3));
    v.push(DrawCmd::ResetFg);
    v.push(DrawCmd::Text("Remaining: ".to_owned()));
    v.push(DrawCmd::SetFg(Color::LightBlue));
    v.push(DrawCmd::Text(duration_label(state.remaining)));
    v.push(DrawCmd::SetBg(Color::Blue));
    proof {
        assert(cmds_view(v@) =~= line);
    }
    let bar_size = state.width - 8;
    let fill = num_bar_fill(state.remaining, state.duration, bar_size);
    push_bar_cells(&mut v, 4, 4 + fill, state.height - 1);
    proof {
        assert(cmds_view(v@) == line + bar1);
    }
    v.push(DrawCmd::ResetBg);
    v.push(DrawCmd::SetBg(Color::White));
    proof {
        assert(cmds_view(v@) =~= line + bar1 + swap);
    }
    push_bar_cells(&mut v, 4 + fill, state.width - 4, state.height - 1);
    proof {
        assert(cmds_view(v@) == line + bar1 + swap + bar2);
    }
    v.push(DrawCmd::ResetBg);
    proof {
        assert(cmds_view(v@) =~= line + bar1 + swap + bar2 + seq![CmdView::ResetBg]);
        assert(cmds_view(v@) =~= spec_changes_cmds(state@));
    }
    v
}

/// The model of a concatenation is the concatenation of the models.
pub proof fn lemma_cmds_view_concat(a: Seq<DrawCmd>, b: Seq<DrawCmd>)
    ensures
        cmds_view(a + b) == cmds_view(a) + cmds_view(b),
{
    assert(cmds_view(a + b) =~= cmds_view(a) + cmds_view(b));
}

/// Relies on `chrono`: renders the clock time (`"%l:%M"`) of the given
/// wall-clock second in the machine's local time zone. The result depends
/// on the time zone, so nothing is stated of it; an instant the calendar
/// cannot place yields nothing.
#[verifier::external_body]
fn clock_label(epoch_secs: u64) -> (r: Option<String>)
{
    let t = chrono::TimeZone::timestamp_opt(&chrono::Local, epoch_secs as i64, 0).single()?;
    Some(t.format("%l:%M").to_string())
}

/// Computes the full-redraw commands for the state, with the start and
/// end clock labels read from the local calendar: some pair of labels
/// fills the two clock slots, whatever the time zone said.
pub fn draw_all(state: &State) -> (r: Vec<DrawCmd>)
    requires
        fits(state@.width, state@.height, state@.task, state@.duration),
    ensures
        exists|a: Seq<char>, b: Seq<char>| cmds_view(r@) == #[trigger] spec_full_cmds(state@, a, b),
{
    let start_label = match clock_label(state.start) {
        Some(s) => s,
        None => String::new(),
    };
    let end_label = match clock_label(state.end) {
        Some(s) => s,
        None => String::new(),
    };
    let r = full_cmds(state, start_label.as_str(), end_label.as_str());
    proof {
        assert(cmds_view(r@) == spec_full_cmds(state@, start_label@, end_label@));
    }
    r
}

} // verus!
