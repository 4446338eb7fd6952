use compat_gate::gate::evaluate;
use compat_gate::probe::{
    primary_version, routine_version, ProbeEvent, ProbeState, SYSTEM_LIBRARY, VERSION_ROUTINE,
};
use compat_gate::version::OsVersion;

fn run(start: ProbeState, events: &[ProbeEvent]) -> ProbeState {
    let mut state = start;
    for event in events {
        state = state.advance(*event);
    }
    state
}

fn primary(code: i32, major: u32, minor: u32) -> ProbeEvent {
    ProbeEvent::PrimaryReturned { code, reported: OsVersion::new(major, minor) }
}

fn routine(status: i32, major: u32, minor: u32) -> ProbeEvent {
    ProbeEvent::RoutineReturned { status, reported: OsVersion::new(major, minor) }
}

const LIBRARY_FOUND: ProbeEvent = ProbeEvent::LibraryLookup { found: true };
const LIBRARY_MISSING: ProbeEvent = ProbeEvent::LibraryLookup { found: false };
const SYMBOL_FOUND: ProbeEvent = ProbeEvent::SymbolLookup { found: true };
const SYMBOL_MISSING: ProbeEvent = ProbeEvent::SymbolLookup { found: false };
const BASELINE: ProbeState = ProbeState::Resolved(OsVersion { major: 6, minor: 1 });

#[test]
fn detection_starts_with_the_primary_query() {
    assert_eq!(ProbeState::start(), ProbeState::QueryPrimary);
    assert_eq!(ProbeState::start().resolved(), None);
}

#[test]
fn primary_success_is_any_code_but_zero() {
    let reported = OsVersion::new(10, 0);
    assert_eq!(primary_version(1, reported), Some(reported));
    assert_eq!(primary_version(-1, reported), Some(reported));
    assert_eq!(primary_version(2, reported), Some(reported));
    assert_eq!(primary_version(i32::MAX, reported), Some(reported));
    assert_eq!(primary_version(i32::MIN, reported), Some(reported));
    assert_eq!(primary_version(0, reported), None);
}

#[test]
fn routine_success_is_status_zero_only() {
    let reported = OsVersion::new(10, 0);
    assert_eq!(routine_version(0, reported), reported);
    assert_eq!(routine_version(1, reported), OsVersion::new(6, 1));
    assert_eq!(routine_version(-1, reported), OsVersion::new(6, 1));
    assert_eq!(routine_version(-1073741823, reported), OsVersion::new(6, 1));
    assert_eq!(routine_version(i32::MAX, reported), OsVersion::new(6, 1));
    assert_eq!(routine_version(i32::MIN, reported), OsVersion::new(6, 1));
}

#[test]
fn primary_success_resolves_at_once() {
    let state = ProbeState::start().advance(primary(1, 10, 0));
    assert_eq!(state, ProbeState::Resolved(OsVersion::new(10, 0)));
    assert_eq!(state.resolved(), Some(OsVersion::new(10, 0)));
    let state = ProbeState::start().advance(primary(1, 6, 2));
    assert_eq!(state.resolved(), Some(OsVersion { major: 6, minor: 2 }));
}

#[test]
fn primary_failure_asks_for_the_library() {
    assert_eq!(ProbeState::start().advance(primary(0, 10, 0)), ProbeState::LocateLibrary);
    assert_eq!(ProbeState::start().advance(primary(0, 0, 0)), ProbeState::LocateLibrary);
}

#[test]
fn fallback_walks_its_three_steps() {
    let state = ProbeState::LocateLibrary.advance(LIBRARY_FOUND);
    assert_eq!(state, ProbeState::ResolveSymbol);
    assert_eq!(state.resolved(), None);
    let state = state.advance(SYMBOL_FOUND);
    assert_eq!(state, ProbeState::InvokeRoutine);
    assert_eq!(state.resolved(), None);
    let state = state.advance(routine(0, 10, 0));
    assert_eq!(state, ProbeState::Resolved(OsVersion::new(10, 0)));
}

#[test]
fn missing_library_gives_the_baseline() {
    assert_eq!(ProbeState::LocateLibrary.advance(LIBRARY_MISSING), BASELINE);
}

#[test]
fn missing_symbol_gives_the_baseline() {
    assert_eq!(ProbeState::ResolveSymbol.advance(SYMBOL_MISSING), BASELINE);
}

#[test]
fn failed_routine_gives_the_baseline() {
    assert_eq!(ProbeState::InvokeRoutine.advance(routine(1, 10, 0)), BASELINE);
    assert_eq!(ProbeState::InvokeRoutine.advance(routine(-1073741823, 10, 0)), BASELINE);
}

#[test]
fn failed_primary_leaves_the_result_to_the_fallback() {
    let fallbacks: [&[ProbeEvent]; 5] = [
        &[LIBRARY_MISSING],
        &[LIBRARY_FOUND, SYMBOL_MISSING],
        &[LIBRARY_FOUND, SYMBOL_FOUND, routine(1, 10, 0)],
        &[LIBRARY_FOUND, SYMBOL_FOUND, routine(0, 10, 0)],
        &[LIBRARY_FOUND, SYMBOL_FOUND, routine(0, 6, 3)],
    ];
    for rest in fallbacks {
        let alone = run(ProbeState::LocateLibrary, rest);
        for garbage in [(0, 0), (10, 0), (6, 2), (u32::MAX, u32::MAX)] {
            let mut events = vec![primary(0, garbage.0, garbage.1)];
            events.extend_from_slice(rest);
            assert_eq!(run(ProbeState::start(), &events), alone);
        }
    }
}

#[test]
fn undetected_system_resolves_to_the_baseline_and_passes() {
    let failures: [&[ProbeEvent]; 3] = [
        &[primary(0, 10, 0), LIBRARY_MISSING],
        &[primary(0, 10, 0), LIBRARY_FOUND, SYMBOL_MISSING],
        &[primary(0, 10, 0), LIBRARY_FOUND, SYMBOL_FOUND, routine(5, 10, 0)],
    ];
    for events in failures {
        let state = run(ProbeState::start(), events);
        assert_eq!(state, BASELINE);
        let version = state.resolved().unwrap();
        assert_eq!(version, OsVersion::new(6, 1));
        for bypass in [false, true] {
            let decision = evaluate(version, bypass);
            assert!(decision.allowed);
            assert_eq!(decision.display_label, "Windows 7");
        }
    }
}

#[test]
fn fallback_report_of_windows_10_is_refused() {
    let state = run(
        ProbeState::start(),
        &[primary(0, 6, 2), LIBRARY_FOUND, SYMBOL_FOUND, routine(0, 10, 0)],
    );
    let version = state.resolved().unwrap();
    assert_eq!(version, OsVersion::new(10, 0));
    let decision = evaluate(version, false);
    assert!(!decision.allowed);
    assert_eq!(decision.display_label, "Windows 10/11");
}

#[test]
fn primary_report_of_windows_10_is_refused() {
    let state = run(ProbeState::start(), &[primary(1, 10, 0)]);
    let decision = evaluate(state.resolved().unwrap(), false);
    assert!(!decision.allowed);
    assert_eq!(decision.display_label, "Windows 10/11");
}

#[test]
fn resolved_state_ignores_later_events() {
    let done = ProbeState::Resolved(OsVersion::new(10, 0));
    for event in [
        primary(1, 6, 1),
        primary(0, 6, 1),
        LIBRARY_FOUND,
        LIBRARY_MISSING,
        SYMBOL_FOUND,
        SYMBOL_MISSING,
        routine(0, 6, 1),
        routine(1, 6, 1),
    ] {
        assert_eq!(done.advance(event), done);
    }
}

#[test]
fn event_that_answers_another_call_counts_as_failure() {
    for event in [LIBRARY_FOUND, LIBRARY_MISSING, SYMBOL_FOUND, SYMBOL_MISSING, routine(0, 10, 0)] {
        assert_eq!(ProbeState::QueryPrimary.advance(event), ProbeState::LocateLibrary);
    }
    for event in [primary(1, 10, 0), SYMBOL_FOUND, SYMBOL_MISSING, routine(0, 10, 0)] {
        assert_eq!(ProbeState::LocateLibrary.advance(event), BASELINE);
    }
    for event in [primary(1, 10, 0), LIBRARY_FOUND, LIBRARY_MISSING, routine(0, 10, 0)] {
        assert_eq!(ProbeState::ResolveSymbol.advance(event), BASELINE);
    }
    for event in [primary(1, 10, 0), LIBRARY_FOUND, SYMBOL_FOUND, SYMBOL_MISSING] {
        assert_eq!(ProbeState::InvokeRoutine.advance(event), BASELINE);
    }
}

#[test]
fn four_events_always_resolve() {
    let events = [
        primary(0, 10, 0),
        primary(1, 10, 0),
        LIBRARY_FOUND,
        LIBRARY_MISSING,
        SYMBOL_FOUND,
        SYMBOL_MISSING,
        routine(0, 10, 0),
        routine(1, 10, 0),
    ];
    for a in events {
        for b in events {
            for c in events {
                for d in events {
                    let state = run(ProbeState::start(), &[a, b, c, d]);
                    assert!(state.resolved().is_some());
                }
            }
        }
    }
}

#[test]
fn names_of_library_and_routine() {
    assert_eq!(SYSTEM_LIBRARY, "ntdll.dll");
    assert_eq!(VERSION_ROUTINE, "RtlGetVersion");
}

struct ScriptedHost {
    primary_code: i32,
    primary_record: OsVersion,
    library_found: bool,
    symbol_found: bool,
    routine_status: i32,
    routine_record: OsVersion,
    calls: Vec<&'static str>,
}

fn detect(host: &mut ScriptedHost) -> OsVersion {
    let mut state = ProbeState::start();
    loop {
        let event = match state {
            ProbeState::QueryPrimary => {
                host.calls.push("primary");
                ProbeEvent::PrimaryReturned { code: host.primary_code, reported: host.primary_record }
            }
            ProbeState::LocateLibrary => {
                host.calls.push("library");
                ProbeEvent::LibraryLookup { found: host.library_found }
            }
            ProbeState::ResolveSymbol => {
                host.calls.push("symbol");
                ProbeEvent::SymbolLookup { found: host.symbol_found }
            }
            ProbeState::InvokeRoutine => {
                host.calls.push("routine");
                ProbeEvent::RoutineReturned {
                    status: host.routine_status,
                    reported: host.routine_record,
                }
            }
            ProbeState::Resolved(version) => return version,
        };
        state = state.advance(event);
    }
}

fn host(primary_code: i32, library_found: bool, symbol_found: bool, routine_status: i32) -> ScriptedHost {
    ScriptedHost {
        primary_code,
        primary_record: OsVersion::new(6, 2),
        library_found,
        symbol_found,
        routine_status,
        routine_record: OsVersion::new(10, 0),
        calls: Vec::new(),
    }
}

#[test]
fn detection_makes_only_the_calls_it_needs() {
    let mut h = host(1, true, true, 0);
    assert_eq!(detect(&mut h), OsVersion::new(6, 2));
    assert_eq!(h.calls, vec!["primary"]);

    let mut h = host(0, false, true, 0);
    assert_eq!(detect(&mut h), OsVersion::new(6, 1));
    assert_eq!(h.calls, vec!["primary", "library"]);

    let mut h = host(0, true, false, 0);
    assert_eq!(detect(&mut h), OsVersion::new(6, 1));
    assert_eq!(h.calls, vec!["primary", "library", "symbol"]);

    let mut h = host(0, true, true, 3);
    assert_eq!(detect(&mut h), OsVersion::new(6, 1));
    assert_eq!(h.calls, vec!["primary", "library", "symbol", "routine"]);

    let mut h = host(0, true, true, 0);
    assert_eq!(detect(&mut h), OsVersion::new(10, 0));
    assert_eq!(h.calls, vec!["primary", "library", "symbol", "routine"]);
}

#[test]
fn detection_is_primary_else_routine_else_baseline() {
    for primary_code in [0, 1, -1] {
        for library_found in [false, true] {
            for symbol_found in [false, true] {
                for routine_status in [0, 1, -1] {
                    let mut h = host(primary_code, library_found, symbol_found, routine_status);
                    let expected = if primary_code != 0 {
                        OsVersion::new(6, 2)
                    } else if library_found && symbol_found && routine_status == 0 {
                        OsVersion::new(10, 0)
                    } else {
                        OsVersion::new(6, 1)
                    };
                    assert_eq!(detect(&mut h), expected);
                }
            }
        }
    }
}
