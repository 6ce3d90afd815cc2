use romodoro::duration_text::duration_label;
use romodoro::events::handle_event;
use romodoro::events::Cause;
use romodoro::events::Disposition;
use romodoro::events::Event;
use romodoro::poll::Control;
use romodoro::poll::Poller;
use romodoro::progress::num_bar_fill;
use romodoro::render::cleanup_cmds;
use romodoro::render::full_cmds;
use romodoro::render::Color;
use romodoro::render::DrawCmd;
use romodoro::state::initialize_state;
use romodoro::state::make_state;

#[test]
fn initialize_state_tests() {
    let state = initialize_state(20, 80, None, Some("15m"), 1_000_000);
    assert_eq!(true, state.is_ok());

    let state = initialize_state(20, 80, None, Some("15"), 1_000_000);
    assert_eq!(false, state.is_ok());
    match state {
        Err(e) => assert_eq!("'15' is not a valid duration.", e.message()),
        Ok(_) => panic!("a bare number must not parse as a duration"),
    }
}

#[test]
fn duration_str_tests() {
    assert_eq!("0s  ", duration_label(0));
    assert_eq!("3s  ", duration_label(3));
    assert_eq!("60s  ", duration_label(60));
    assert_eq!("2m  ", duration_label(61));
}

#[test]
fn num_bar_fill_tests() {
    assert_eq!(40, num_bar_fill(30, 60, 80));
}

#[test]
fn duration_label_rounds_minutes_up() {
    assert_eq!("11m  ", duration_label(600));
    assert_eq!("60m  ", duration_label(3599));
    assert_eq!("3m  ", duration_label(120));
}

#[test]
fn bar_fill_monotonic_in_elapsed_fraction() {
    // Fixed total and width: less remaining never means less fill.
    assert_eq!(20, num_bar_fill(45, 60, 80));
    assert_eq!(40, num_bar_fill(30, 60, 80));
    assert_eq!(60, num_bar_fill(15, 60, 80));
    assert_eq!(0, num_bar_fill(60, 60, 80));
    assert_eq!(80, num_bar_fill(0, 60, 80));
}

#[test]
fn initialize_applies_parsed_duration() {
    // Through the humantime call: the parsed seconds land in the state.
    let s = initialize_state(80, 24, None, Some("90s"), 5_000).unwrap_or_else(|_| {
        panic!("a plain seconds span must parse");
    });
    assert_eq!(90, s.duration);
    let s = initialize_state(80, 24, None, Some("2h"), 5_000).unwrap_or_else(|_| {
        panic!("an hours span must parse");
    });
    assert_eq!(7200, s.duration);
}

#[test]
fn initialize_invariants() {
    let s = initialize_state(80, 24, Some("write".to_string()), Some("15m"), 7_000)
        .unwrap_or_else(|_| panic!("a minutes span must parse"));
    assert_eq!(7_000, s.start);
    assert_eq!(s.duration, s.end - s.start);
    assert_eq!(s.duration, s.remaining);
    assert_eq!(900, s.duration);
}

#[test]
fn initialize_defaults_to_twenty_five_minutes() {
    let s = initialize_state(80, 24, None, None, 1_000).unwrap_or_else(|_| {
        panic!("the default duration needs no text");
    });
    assert_eq!(1500, s.duration);
    assert_eq!(2500, s.end);
}

#[test]
fn initialize_rejects_zero_duration() {
    let r = initialize_state(80, 24, None, Some("0s"), 1_000);
    match r {
        Err(e) => assert_eq!("'0s' is not a valid duration.", e.message()),
        Ok(_) => panic!("a zero duration must be rejected"),
    }
}

#[test]
fn initialize_rejects_duration_beyond_clock() {
    // A span the clock cannot hold an end instant for is rejected at
    // construction rather than started.
    let r = initialize_state(80, 24, None, Some("1m"), u64::MAX);
    match r {
        Err(e) => assert_eq!("'1m' is not a valid duration.", e.message()),
        Ok(_) => panic!("an end instant past the clock must be rejected"),
    }
}

#[test]
fn initialize_rejects_overlong_duration_text() {
    // Long enough to spell the parser's one overflowing corner (the
    // largest second count plus a nanosecond carry); the length bound
    // turns it away without parsing.
    let r = initialize_state(80, 24, None, Some("5124095576030431h15s1000ms"), 0);
    match r {
        Err(e) => assert_eq!(
            "'5124095576030431h15s1000ms' is not a valid duration.",
            e.message()
        ),
        Ok(_) => panic!("an overlong duration text must be rejected"),
    }
}

fn is_cleanup(cmds: &[DrawCmd]) -> bool {
    cmds.len() == 3
        && matches!(cmds[0], DrawCmd::ShowCursor)
        && matches!(cmds[1], DrawCmd::ResetFg)
        && matches!(cmds[2], DrawCmd::ResetStyle)
}

#[test]
fn cleanup_restores_cursor_color_style() {
    let cmds = cleanup_cmds();
    assert!(is_cleanup(&cmds));
}

#[test]
fn tick_past_end_terminates_without_redraw() {
    let mut s = make_state(80, 24, None, 60, 1_000);
    let (cmds, d) = handle_event(Event::Timeout(1_061), &mut s);
    assert_eq!(Disposition::Terminate(Cause::Elapsed), d);
    assert!(is_cleanup(&cmds));
}

#[test]
fn tick_before_end_updates_remaining_and_redraws() {
    let mut s = make_state(80, 24, None, 60, 1_000);
    let (cmds, d) = handle_event(Event::Timeout(1_020), &mut s);
    assert_eq!(Disposition::Redraw, d);
    assert_eq!(40, s.remaining);
    // The incremental redraw rewrites the remaining-time line...
    assert!(cmds
        .iter()
        .any(|c| matches!(c, DrawCmd::Text(t) if t == "40s  ")));
    // ...and never touches the cursor or clears the screen.
    assert!(!cmds
        .iter()
        .any(|c| matches!(c, DrawCmd::ShowCursor | DrawCmd::HideCursor | DrawCmd::ClearAll)));
}

#[test]
fn bar_repaints_exactly_once_within_its_width() {
    let mut s = make_state(80, 24, None, 60, 1_000);
    let (cmds, _d) = handle_event(Event::Timeout(1_030), &mut s);
    // The bar spans columns 4..76 on row 23: 72 cells, each painted once.
    let bar_cells: Vec<u16> = cmds
        .iter()
        .filter_map(|c| match c {
            DrawCmd::Goto(x, 23) => Some(*x),
            _ => None,
        })
        .collect();
    assert_eq!(72, bar_cells.len());
    assert_eq!(4, bar_cells[0]);
    assert_eq!(75, bar_cells[71]);
    // Half the time elapsed: 36 cells in the filled treatment, then the
    // swap to the unfilled one.
    let swap = cmds
        .iter()
        .position(|c| matches!(c, DrawCmd::SetBg(Color::White)))
        .unwrap();
    let filled = cmds[..swap]
        .iter()
        .filter(|c| matches!(c, DrawCmd::Goto(_, 23)))
        .count();
    assert_eq!(36, filled);
}

#[test]
fn interrupt_terminates_whatever_remains() {
    let mut s = make_state(80, 24, None, 1500, 1_000);
    s.remaining = 1499;
    let (cmds, d) = handle_event(Event::CtrlC, &mut s);
    assert_eq!(Disposition::Terminate(Cause::Interrupted), d);
    assert!(is_cleanup(&cmds));
}

#[test]
fn geometry_change_redraws_with_new_dimensions() {
    let mut s = make_state(80, 24, None, 1500, 1_000);
    let (cmds, d) = handle_event(Event::WindowSizeChange(100, 30), &mut s);
    assert_eq!(Disposition::Redraw, d);
    assert_eq!(100, s.width);
    assert_eq!(30, s.height);
    // The state moved before any command was laid out: the end-time slot
    // sits thirteen cells left of the new right edge.
    assert!(cmds.iter().any(|c| matches!(c, DrawCmd::Goto(87, 2))));
    assert!(matches!(cmds[0], DrawCmd::ClearAll));
}

#[test]
fn full_redraw_centers_task_and_duration() {
    let s = make_state(80, 24, Some("ab".to_string()), 1500, 1_000);
    let cmds = full_cmds(&s, "9:00", "9:25");
    // Task "ab" centered: column 40 - 1, row 12, in bold light red.
    assert!(matches!(cmds[1], DrawCmd::Bold));
    assert!(matches!(cmds[2], DrawCmd::SetFg(Color::LightRed)));
    assert!(matches!(cmds[3], DrawCmd::Goto(39, 12)));
    assert!(matches!(&cmds[4], DrawCmd::Text(t) if t == "ab"));
    // "Duration: 25m" is thirteen cells wide: centered at 40 - 6.
    assert!(cmds.iter().any(|c| matches!(c, DrawCmd::Goto(34, 2))));
    assert!(cmds
        .iter()
        .any(|c| matches!(c, DrawCmd::Text(t) if t == "25m")));
    assert!(matches!(cmds[cmds.len() - 1], DrawCmd::HideCursor));
}

#[test]
fn step_at_end_cleans_up_and_stops() {
    // A 25-minute countdown; the tick lands exactly on the end instant.
    let state = initialize_state(80, 24, None, None, 1_000).unwrap_or_else(|_| {
        panic!("the default duration needs no text");
    });
    let end = state.end;
    let mut p = Poller { state, last_width: 0, last_height: 0 };
    let (cmds, ctl) = p.step(80, 24, end, false);
    assert_eq!(Control::Stop(Cause::Elapsed), ctl);
    assert!(is_cleanup(&cmds));
    assert!(!cmds.iter().any(|c| matches!(c, DrawCmd::Text(_))));
}

#[test]
fn interrupt_mid_run_cleans_up_once_then_nothing() {
    let state = initialize_state(80, 24, None, None, 1_000).unwrap_or_else(|_| {
        panic!("the default duration needs no text");
    });
    let mut p = Poller { state, last_width: 0, last_height: 0 };
    let (cmds, ctl) = p.step(80, 24, 1_100, true);
    assert_eq!(Control::Stop(Cause::Interrupted), ctl);
    assert!(p.state.remaining > 0);
    // Cleanup happened exactly once, at the very end: nothing is drawn
    // after it.
    let show_count = cmds
        .iter()
        .filter(|c| matches!(c, DrawCmd::ShowCursor))
        .count();
    assert_eq!(1, show_count);
    assert!(is_cleanup(&cmds[cmds.len() - 3..]));
}

#[test]
fn step_keeps_running_and_adapts_cadence() {
    let state = initialize_state(80, 24, None, None, 1_000).unwrap_or_else(|_| {
        panic!("the default duration needs no text");
    });
    let mut p = Poller { state, last_width: 0, last_height: 0 };
    // Far from the end: a long sleep.
    let (cmds, ctl) = p.step(80, 24, 1_100, false);
    assert_eq!(Control::Sleep(10), ctl);
    assert_eq!(1_400, p.state.remaining);
    // The first step lays the screen out in full.
    assert!(matches!(cmds[0], DrawCmd::ClearAll));
    assert_eq!(80, p.last_width);
    assert_eq!(24, p.last_height);
    // In the final two minutes: a short sleep, and no further full
    // redraw while the geometry holds still.
    let (cmds, ctl) = p.step(80, 24, 2_450, false);
    assert_eq!(Control::Sleep(1), ctl);
    assert_eq!(50, p.state.remaining);
    assert!(!cmds.iter().any(|c| matches!(c, DrawCmd::ClearAll)));
    assert!(cmds
        .iter()
        .any(|c| matches!(c, DrawCmd::Text(t) if t == "50s  ")));
}
