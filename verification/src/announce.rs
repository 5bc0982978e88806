//! The words the menu bar and the notifications show for the timer: the
//! menu-bar title, its tooltip, the label of the start/pause menu entry, and
//! the notification sent when a phase runs out.

use vstd::prelude::*;

use crate::timer::{phase_label_spec, Phase, RunState, Snapshot, Transition};

verus! {

/// ASCII letters lowered; every other character kept.
pub open spec fn ascii_lowercase(s: Seq<char>) -> Seq<char> {
    s.map_values(|c: char| if 'A' <= c <= 'Z' { ((c as int) + 32) as char } else { c })
}

pub open spec fn lower_label_spec(phase: Phase) -> Seq<char> {
    match phase {
        Phase::Focus => "focus"@,
        Phase::ShortBreak => "short break"@,
        Phase::LongBreak => "long break"@,
    }
}

/// The lower-case phase names are the phase labels with their capitals lowered.
pub proof fn lemma_lower_labels_are_lowercased(phase: Phase)
    ensures
        lower_label_spec(phase) == ascii_lowercase(phase_label_spec(phase)),
{
    reveal_strlit("Focus");
    reveal_strlit("focus");
    reveal_strlit("Short break");
    reveal_strlit("short break");
    reveal_strlit("Long break");
    reveal_strlit("long break");
    assert(lower_label_spec(phase) =~= ascii_lowercase(phase_label_spec(phase)));
}

fn lower_label(phase: Phase) -> (r: &'static str)
    ensures
        r@ == lower_label_spec(phase),
{
    match phase {
        Phase::Focus => "focus",
        Phase::ShortBreak => "short break",
        Phase::LongBreak => "long break",
    }
}

pub open spec fn toggle_verb_spec(state: RunState) -> Seq<char> {
    match state {
        RunState::Running => "Pause "@,
        RunState::Paused => "Resume "@,
        RunState::Idle => "Start "@,
    }
}

/// The start/pause menu entry: what a click would do, to which phase.
pub fn toggle_label(state: RunState, phase: Phase) -> (r: String)
    ensures
        r@ == toggle_verb_spec(state) + lower_label_spec(phase),
{
    let verb = match state {
        RunState::Running => "Pause ",
        RunState::Paused => "Resume ",
        RunState::Idle => "Start ",
    };
    let mut label = String::from_str(verb);
    label.append(lower_label(phase));
    label
}

/// The menu-bar title. An idle timer shows the glyph alone: a menu bar that
/// counts at you when you are not in a session is the opposite of calm.
pub open spec fn tray_title_spec(show_clock: bool, state: RunState, clock: Seq<char>) -> Option<
    Seq<char>,
> {
    if show_clock && state is Running {
        Some(clock)
    } else if show_clock && state is Paused {
        Some(clock + " paused"@)
    } else {
        None
    }
}

pub fn tray_title(show_clock: bool, snapshot: &Snapshot) -> (r: Option<String>)
    ensures
        r matches Some(t) ==> tray_title_spec(show_clock, snapshot.state, snapshot.clock@)
            == Some(t@),
        r is None ==> tray_title_spec(show_clock, snapshot.state, snapshot.clock@) is None,
{
    if show_clock && snapshot.state == RunState::Running {
        Some(snapshot.clock.clone())
    } else if show_clock && snapshot.state == RunState::Paused {
        let mut title = snapshot.clock.clone();
        title.append(" paused");
        Some(title)
    } else {
        None
    }
}

/// `label · clock`, as the tooltip and the notifications show a phase.
pub fn phase_and_clock(snapshot: &Snapshot) -> (r: String)
    ensures
        r@ == snapshot.phase_label@ + " · "@ + snapshot.clock@,
{
    let mut text = snapshot.phase_label.clone();
    text.append(" · ");
    text.append(snapshot.clock.as_str());
    text
}

pub open spec fn notification_title_spec(t: Transition) -> Seq<char> {
    match t.ended {
        Phase::Focus => "Focus complete"@,
        _ => "Break over"@,
    }
}

pub open spec fn notification_line_spec(t: Transition) -> Seq<char> {
    match t.ended {
        Phase::Focus => if t.next is LongBreak {
            "Take a long break. You have earned it."@
        } else if t.auto_started {
            "Your break has started."@
        } else {
            "Time for a break when you are ready."@
        },
        _ => if t.auto_started {
            "Back to it. Focus has started."@
        } else {
            "Ready when you are."@
        },
    }
}

/// The notification for a phase that ended: a title, and a body of one line
/// about what comes next followed by the new phase and its clock. Only a
/// phase that ran to zero is announced, and only when notifications are on.
pub fn notification(transition: &Transition, snapshot: &Snapshot, enabled: bool) -> (r: Option<
    (String, String),
>)
    ensures
        r is Some <==> transition.completed && enabled,
        r matches Some((title, body)) ==> {
            &&& title@ == notification_title_spec(*transition)
            &&& title@ == if transition.ended is Focus {
                "Focus complete"@
            } else {
                "Break over"@
            }
            &&& body@ == notification_line_spec(*transition) + "\n"@ + snapshot.phase_label@
                + " · "@ + snapshot.clock@
        },
{
    if !(transition.completed && enabled) {
        return None;
    }
    let (title, line) = match transition.ended {
        Phase::Focus => (
            "Focus complete",
            if transition.next == Phase::LongBreak {
                "Take a long break. You have earned it."
            } else if transition.auto_started {
                "Your break has started."
            } else {
                "Time for a break when you are ready."
            },
        ),
        Phase::ShortBreak | Phase::LongBreak => (
            "Break over",
            if transition.auto_started {
                "Back to it. Focus has started."
            } else {
                "Ready when you are."
            },
        ),
    };
    let mut body = String::from_str(line);
    body.append("\n");
    let rest = phase_and_clock(snapshot);
    body.append(rest.as_str());
    assert(body@ =~= notification_line_spec(*transition) + "\n"@ + snapshot.phase_label@ + " · "@
        + snapshot.clock@);
    Some((String::from_str(title), body))
}

/// The menu bar shows a countdown only during a session: an idle timer,
/// or a hidden clock, leaves the glyph alone; a paused one says so.
pub proof fn lemma_idle_timer_is_quiet(show_clock: bool, state: RunState, clock: Seq<char>)
    ensures
        state is Idle ==> tray_title_spec(show_clock, state, clock) is None,
        !show_clock ==> tray_title_spec(show_clock, state, clock) is None,
        show_clock && state is Running ==> tray_title_spec(show_clock, state, clock) == Some(
            clock,
        ),
        show_clock && state is Paused ==> tray_title_spec(show_clock, state, clock) == Some(
            clock + " paused"@,
        ),
{
}

/// The end of focus is titled "Focus complete" and the end of either break
/// "Break over"; the first line says what comes next: a long break is
/// earned, a break has started or waits, focus has started or waits.
pub proof fn lemma_notification_wording(t: Transition)
    ensures
        t.ended is Focus ==> notification_title_spec(t) == "Focus complete"@,
        t.ended.is_break_spec() ==> notification_title_spec(t) == "Break over"@,
        t.ended is Focus && t.next is LongBreak ==> notification_line_spec(t)
            == "Take a long break. You have earned it."@,
        t.ended is Focus && !(t.next is LongBreak) && t.auto_started ==> notification_line_spec(t)
            == "Your break has started."@,
        t.ended is Focus && !(t.next is LongBreak) && !t.auto_started ==> notification_line_spec(t)
            == "Time for a break when you are ready."@,
        t.ended.is_break_spec() && t.auto_started ==> notification_line_spec(t)
            == "Back to it. Focus has started."@,
        t.ended.is_break_spec() && !t.auto_started ==> notification_line_spec(t)
            == "Ready when you are."@,
{
}

/// The start/pause entry names what a click does: pause a running timer,
/// resume a paused one, start an idle one.
pub proof fn lemma_toggle_wording(state: RunState, phase: Phase)
    ensures
        state is Running ==> toggle_verb_spec(state) == "Pause "@,
        state is Paused ==> toggle_verb_spec(state) == "Resume "@,
        state is Idle ==> toggle_verb_spec(state) == "Start "@,
        lower_label_spec(phase) == ascii_lowercase(phase_label_spec(phase)),
{
    lemma_lower_labels_are_lowercased(phase);
}

} // verus!
