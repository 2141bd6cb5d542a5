//! What holds of the supervisor whatever the host reports, proved over the
//! model [`State`].

use crate::handshake::{announced_port, announcement, has_sentinel, lemma_announcement_is_read};
use crate::launcher::{needs_permissions, LaunchError, Platform};
use crate::supervisor::{Action, Event, Phase, State};
use vstd::prelude::*;

verus! {

/// The reports of `lines` arriving on standard output, in order.
pub open spec fn line_events(lines: Seq<Seq<char>>) -> Seq<Event> {
    lines.map_values(|line: Seq<char>| Event::Line(line))
}

/// The reports of a launch that gets as far as a running process.
pub open spec fn successful_launch(platform: Platform) -> Seq<Event> {
    if needs_permissions(platform) {
        seq![
            Event::Launch,
            Event::Located { exists: true },
            Event::Prepared { ok: true },
            Event::Spawned { ok: true },
        ]
    } else {
        seq![Event::Launch, Event::Located { exists: true }, Event::Spawned { ok: true }]
    }
}

/// Running one more report is one more step.
pub proof fn lemma_run_push(state: State, events: Seq<Event>, event: Event)
    ensures
        state.run(events.push(event)) == state.run(events).next(event),
{
    assert(events.push(event).drop_last() =~= events);
}

/// Running two sequences of reports one after the other is running their
/// concatenation.
pub proof fn lemma_run_concat(state: State, first: Seq<Event>, second: Seq<Event>)
    ensures
        state.run(first + second) == state.run(first).run(second),
    decreases second.len(),
{
    if second.len() == 0 {
        assert(first + second =~= first);
    } else {
        lemma_run_concat(state, first, second.drop_last());
        assert((first + second).drop_last() =~= first + second.drop_last());
        assert((first + second).last() == second.last());
    }
}

/// A port is known only while a process runs: this holds at the start and no
/// report breaks it.
pub proof fn lemma_valid_is_kept(state: State, event: Event)
    requires
        state.valid(),
    ensures
        State::initial(state.platform).valid(),
        state.next(event).valid(),
        state.next(event).port is Some ==> state.next(event).phase.holds_process(),
{
}

/// No sequence of reports leads from the start to a state that knows a port
/// without a running process.
pub proof fn lemma_reachable_is_valid(platform: Platform, events: Seq<Event>)
    ensures
        State::initial(platform).run(events).valid(),
    decreases events.len(),
{
    if events.len() > 0 {
        lemma_reachable_is_valid(platform, events.drop_last());
        lemma_valid_is_kept(State::initial(platform).run(events.drop_last()), events.last());
    }
}

/// The port is written whole: after any report it is absent, what it was
/// before, or the port that the reported line announces.
pub proof fn lemma_port_is_written_whole(state: State, event: Event)
    ensures
        ({
            let port = state.next(event).port;
            ||| port is None
            ||| port == state.port
            ||| event matches Event::Line(line) && port == announced_port(line)
        }),
{
}

/// A launch that succeeds ends in the handshake, with a process and no port.
pub proof fn lemma_launch_reaches_handshake(platform: Platform)
    ensures
        State::initial(platform).run(successful_launch(platform)) == State::initial(platform).at(
            Phase::Handshaking,
        ),
{
    let start = State::initial(platform);
    reveal_with_fuel(State::run, 5);
    let events = successful_launch(platform);
    if needs_permissions(platform) {
        assert(events.drop_last() =~= seq![
            Event::Launch,
            Event::Located { exists: true },
            Event::Prepared { ok: true },
        ]);
        assert(events.drop_last().drop_last() =~= seq![
            Event::Launch,
            Event::Located { exists: true },
        ]);
        assert(events.drop_last().drop_last().drop_last() =~= seq![Event::Launch]);
        assert(events.drop_last().drop_last().drop_last().drop_last() =~= Seq::<Event>::empty());
    } else {
        assert(events.drop_last() =~= seq![Event::Launch, Event::Located { exists: true }]);
        assert(events.drop_last().drop_last() =~= seq![Event::Launch]);
        assert(events.drop_last().drop_last().drop_last() =~= Seq::<Event>::empty());
    }
}

/// Where the executable is missing, the launch is given up as not found: no
/// process is created and no port is known.
pub proof fn lemma_missing_executable(platform: Platform)
    ensures
        ({
            let asked = State::initial(platform).next(Event::Launch);
            let after = asked.next(Event::Located { exists: false });
            &&& asked.action(Event::Located { exists: false }) == Action::Abort(
                LaunchError::NotFound,
            )
            &&& after.phase == Phase::Failed(LaunchError::NotFound)
            &&& !after.phase.holds_process()
            &&& after.port is None
        }),
{
}

/// Only a step of the launch can end startup: the host is asked to give up
/// only on a report about the executable or the process, only with the error
/// of that step, and never on anything that standard output brings.
pub proof fn lemma_only_launch_steps_abort(state: State, event: Event, error: LaunchError)
    requires
        state.action(event) == Action::Abort(error),
    ensures
        state.next(event).phase == Phase::Failed(error),
        match error {
            LaunchError::NotFound => state.phase is Locating && event == (Event::Located {
                exists: false,
            }),
            LaunchError::PermissionError => state.phase is Preparing && event == (Event::Prepared {
                ok: false,
            }),
            LaunchError::SpawnError => state.phase is Spawning && event == (Event::Spawned {
                ok: false,
            }),
        },
{
}

/// During the handshake, a line that announces a port ends the handshake with
/// that port, and a closure of the stream after it changes nothing.
pub proof fn lemma_announced_port_is_learned(state: State, line: Seq<char>, port: u16)
    requires
        state.phase is Handshaking,
        announced_port(line) == Some(port),
    ensures
        state.next(Event::Line(line)).port == Some(port),
        state.next(Event::Line(line)).phase is Serving,
        state.action(Event::Line(line)) == Action::StartDrain,
        state.next(Event::Line(line)).next(Event::Closed) == state.next(Event::Line(line)),
{
}

/// For every port: a backend that is launched, writes the one line that
/// announces the port and closes its output is then known to listen on that
/// port.
pub proof fn lemma_single_announcement(platform: Platform, port: u16)
    ensures
        State::initial(platform).run(
            successful_launch(platform) + seq![Event::Line(announcement(port)), Event::Closed],
        ).port == Some(port),
{
    let start = State::initial(platform);
    let tail = seq![Event::Line(announcement(port)), Event::Closed];
    lemma_run_concat(start, successful_launch(platform), tail);
    lemma_launch_reaches_handshake(platform);
    lemma_announcement_is_read(port);
    let handshaking = start.at(Phase::Handshaking);
    lemma_announced_port_is_learned(handshaking, announcement(port), port);
    reveal_with_fuel(State::run, 3);
    assert(tail.drop_last() =~= seq![Event::Line(announcement(port))]);
    assert(tail.drop_last().drop_last() =~= Seq::<Event>::empty());
}

/// During the handshake, a line that announces no port changes nothing and
/// reading goes on. This covers a line without the sentinel and a line whose
/// text after the sentinel is no port.
pub proof fn lemma_log_line_is_passed_over(state: State, line: Seq<char>)
    requires
        state.phase is Handshaking,
        announced_port(line) is None,
    ensures
        state.next(Event::Line(line)) == state,
        state.action(Event::Line(line)) == Action::ReadLine,
{
}

/// During the handshake, lines that announce no port leave the supervisor as
/// it was, however many there are.
pub proof fn lemma_log_lines_are_passed_over(state: State, lines: Seq<Seq<char>>)
    requires
        state.phase is Handshaking,
        forall|i: int| 0 <= i < lines.len() ==> announced_port(#[trigger] lines[i]) is None,
    ensures
        state.run(line_events(lines)) == state,
    decreases lines.len(),
{
    if lines.len() > 0 {
        lemma_log_lines_are_passed_over(state, lines.drop_last());
        assert(line_events(lines).drop_last() =~= line_events(lines.drop_last()));
        assert(line_events(lines).last() == Event::Line(lines.last()));
    }
}

/// A backend that is launched and closes its output without ever writing a
/// line that starts with the sentinel leaves the port absent, and startup goes
/// on: the supervisor serves, and the host is asked to start the drain.
pub proof fn lemma_silent_backend(platform: Platform, lines: Seq<Seq<char>>)
    requires
        forall|i: int| 0 <= i < lines.len() ==> !has_sentinel(#[trigger] lines[i]),
    ensures
        ({
            let start = State::initial(platform);
            let reading = start.run(successful_launch(platform) + line_events(lines));
            let closed = start.run(
                successful_launch(platform) + line_events(lines).push(Event::Closed),
            );
            &&& reading.action(Event::Closed) == Action::StartDrain
            &&& closed.phase is Serving
            &&& closed.port is None
        }),
{
    let start = State::initial(platform);
    let handshaking = start.at(Phase::Handshaking);
    lemma_launch_reaches_handshake(platform);
    lemma_log_lines_are_passed_over(handshaking, lines);
    lemma_run_concat(start, successful_launch(platform), line_events(lines));
    lemma_run_concat(start, successful_launch(platform), line_events(lines).push(Event::Closed));
    lemma_run_push(handshaking, line_events(lines), Event::Closed);
}

/// Once the handshake is over, nothing but shutdown changes the supervisor:
/// the port is set at most once in the life of a process.
pub proof fn lemma_serving_until_shutdown(state: State, events: Seq<Event>)
    requires
        state.phase is Serving,
        forall|i: int| 0 <= i < events.len() ==> !(#[trigger] events[i] is Shutdown),
    ensures
        state.run(events) == state,
    decreases events.len(),
{
    if events.len() > 0 {
        lemma_serving_until_shutdown(state, events.drop_last());
        assert(!(events[events.len() - 1] is Shutdown));
    }
}

/// The first line that announces a port decides: the lines before it are
/// passed over, and nothing that standard output brings after it changes the
/// port.
pub proof fn lemma_first_announcement_wins(
    state: State,
    before: Seq<Seq<char>>,
    line: Seq<char>,
    port: u16,
    after: Seq<Seq<char>>,
)
    requires
        state.phase is Handshaking,
        forall|i: int| 0 <= i < before.len() ==> announced_port(#[trigger] before[i]) is None,
        announced_port(line) == Some(port),
    ensures
        state.run(line_events(before.push(line) + after)).port == Some(port),
        state.run(line_events(before.push(line) + after).push(Event::Closed)).port == Some(port),
{
    let learned = state.next(Event::Line(line));
    lemma_log_lines_are_passed_over(state, before);
    assert(line_events(before.push(line)) =~= line_events(before).push(Event::Line(line)));
    lemma_run_push(state, line_events(before), Event::Line(line));
    assert(line_events(before.push(line) + after) =~= line_events(before.push(line))
        + line_events(after));
    lemma_run_concat(state, line_events(before.push(line)), line_events(after));
    lemma_serving_until_shutdown(learned, line_events(after));
    lemma_run_push(state, line_events(before.push(line) + after), Event::Closed);
}

/// A launched backend whose output holds lines that announce nothing, among
/// them lines with the sentinel and no port behind it, and then a line that
/// announces a port, is known to listen on that port.
pub proof fn lemma_port_learned_after_log_lines(
    platform: Platform,
    before: Seq<Seq<char>>,
    line: Seq<char>,
    port: u16,
)
    requires
        forall|i: int| 0 <= i < before.len() ==> announced_port(#[trigger] before[i]) is None,
        announced_port(line) == Some(port),
    ensures
        State::initial(platform).run(successful_launch(platform) + line_events(before)).port
            is None,
        State::initial(platform).run(
            successful_launch(platform) + line_events(before.push(line)),
        ).port == Some(port),
{
    let start = State::initial(platform);
    let handshaking = start.at(Phase::Handshaking);
    lemma_launch_reaches_handshake(platform);
    lemma_run_concat(start, successful_launch(platform), line_events(before));
    lemma_run_concat(start, successful_launch(platform), line_events(before.push(line)));
    lemma_log_lines_are_passed_over(handshaking, before);
    assert(before.push(line) + Seq::<Seq<char>>::empty() =~= before.push(line));
    lemma_first_announcement_wins(handshaking, before, line, port, Seq::empty());
}

/// After shutdown no port is known and no process exists, whatever the state
/// was; where nothing was started, shutdown changes nothing and asks for
/// nothing.
pub proof fn lemma_shutdown_clears(state: State)
    requires
        state.valid(),
    ensures
        state.next(Event::Shutdown).port is None,
        !state.next(Event::Shutdown).phase.holds_process(),
        state.action(Event::Shutdown) == Action::Nothing,
        state.phase is Idle ==> state.next(Event::Shutdown) == state,
{
}

/// After shutdown the port stays absent until a new launch is asked for.
pub proof fn lemma_port_stays_absent(state: State, events: Seq<Event>)
    requires
        forall|i: int| 0 <= i < events.len() ==> !(#[trigger] events[i] is Launch),
    ensures
        state.next(Event::Shutdown).run(events) == state.next(Event::Shutdown),
        state.next(Event::Shutdown).run(events).port is None,
    decreases events.len(),
{
    if events.len() > 0 {
        lemma_port_stays_absent(state, events.drop_last());
        assert(!(events[events.len() - 1] is Launch));
    }
}

} // verus!
