//! Two-tier detection of the system version.
//!
//! The documented version query comes first. Where it fails, a routine of a
//! system library that is always loaded is looked up by name and called in its
//! place; where any step of that fails too, the baseline stands in for the
//! version. The calls themselves belong to the host program. This module
//! holds the decisions between them: a `ProbeState` names the call that is due
//! next, the host makes it and reports a `ProbeEvent`, and `advance` answers
//! with the state that follows.

use crate::gate::decision_for;
use crate::version::OsVersion;
use vstd::prelude::*;

verus! {

/// The system library in which the fallback routine is looked up.
pub const SYSTEM_LIBRARY: &'static str = "ntdll.dll";

/// The exported name of the fallback routine.
pub const VERSION_ROUTINE: &'static str = "RtlGetVersion";

/// What the host program reports after the call that a state asked for.
#[derive(Clone, Copy, Debug, PartialEq, Eq, Structural)]
pub enum ProbeEvent {
    /// The documented query returned `code` and left `reported` in its record.
    PrimaryReturned { code: i32, reported: OsVersion },
    /// The system library was looked up among the loaded modules.
    LibraryLookup { found: bool },
    /// The routine was looked up among the exports of the library.
    SymbolLookup { found: bool },
    /// The routine returned `status` and left `reported` in its record.
    RoutineReturned { status: i32, reported: OsVersion },
}

/// Where the detection stands: the call that is due, or the result.
#[derive(Clone, Copy, Debug, PartialEq, Eq, Structural)]
pub enum ProbeState {
    /// Ask the documented version query.
    QueryPrimary,
    /// Look up the system library.
    LocateLibrary,
    /// Look up the routine in the library.
    ResolveSymbol,
    /// Call the routine.
    InvokeRoutine,
    /// Done: the version to go on with.
    Resolved(OsVersion),
}

/// The documented query succeeds with any return code but zero, and only
/// then is its record a version.
pub open spec fn primary_version_spec(code: i32, reported: OsVersion) -> Option<OsVersion> {
    if code != 0 {
        Some(reported)
    } else {
        None
    }
}

/// The fallback routine succeeds with status zero; with any other status the
/// baseline takes the place of its record.
pub open spec fn routine_version_spec(status: i32, reported: OsVersion) -> OsVersion {
    if status == 0 {
        reported
    } else {
        OsVersion::baseline_spec()
    }
}

/// Reads the answer of the documented query.
pub fn primary_version(code: i32, reported: OsVersion) -> (version: Option<OsVersion>)
    ensures
        version == primary_version_spec(code, reported),
        version is Some <==> code != 0,
{
    if code != 0 {
        Some(reported)
    } else {
        None
    }
}

/// Reads the answer of the fallback routine. There is always a version to go
/// on with.
pub fn routine_version(status: i32, reported: OsVersion) -> (version: OsVersion)
    ensures
        version == routine_version_spec(status, reported),
{
    if status == 0 {
        reported
    } else {
        OsVersion::baseline()
    }
}

impl ProbeState {
    /// The number of calls that may still be due.
    pub open spec fn calls_left(self) -> nat {
        match self {
            ProbeState::QueryPrimary => 4,
            ProbeState::LocateLibrary => 3,
            ProbeState::ResolveSymbol => 2,
            ProbeState::InvokeRoutine => 1,
            ProbeState::Resolved(_) => 0,
        }
    }

    /// The version that the detection has ended with, if it has ended.
    pub open spec fn version(self) -> Option<OsVersion> {
        match self {
            ProbeState::Resolved(version) => Some(version),
            _ => None,
        }
    }

    /// The state that follows `self` once `event` is reported.
    ///
    /// An event that is no answer to the call that was due counts as that
    /// call's failure. A resolved state stays as it is.
    pub open spec fn advance_spec(self, event: ProbeEvent) -> ProbeState {
        match self {
            ProbeState::QueryPrimary => match event {
                ProbeEvent::PrimaryReturned { code, reported } => match primary_version_spec(
                    code,
                    reported,
                ) {
                    Some(version) => ProbeState::Resolved(version),
                    None => ProbeState::LocateLibrary,
                },
                _ => ProbeState::LocateLibrary,
            },
            ProbeState::LocateLibrary => match event {
                ProbeEvent::LibraryLookup { found: true } => ProbeState::ResolveSymbol,
                _ => ProbeState::Resolved(OsVersion::baseline_spec()),
            },
            ProbeState::ResolveSymbol => match event {
                ProbeEvent::SymbolLookup { found: true } => ProbeState::InvokeRoutine,
                _ => ProbeState::Resolved(OsVersion::baseline_spec()),
            },
            ProbeState::InvokeRoutine => match event {
                ProbeEvent::RoutineReturned { status, reported } => ProbeState::Resolved(
                    routine_version_spec(status, reported),
                ),
                _ => ProbeState::Resolved(OsVersion::baseline_spec()),
            },
            ProbeState::Resolved(version) => ProbeState::Resolved(version),
        }
    }

    /// The state after a whole sequence of events, reported in order.
    pub open spec fn after(self, events: Seq<ProbeEvent>) -> ProbeState
        decreases events.len(),
    {
        if events.len() == 0 {
            self
        } else {
            self.advance_spec(events[0]).after(events.drop_first())
        }
    }

    /// The state in which every detection begins.
    pub fn start() -> (state: ProbeState)
        ensures
            state == ProbeState::QueryPrimary,
    {
        ProbeState::QueryPrimary
    }

    /// The detected version, once there is one.
    pub fn resolved(&self) -> (version: Option<OsVersion>)
        ensures
            version == self.version(),
            version is None <==> self.calls_left() > 0,
    {
        match *self {
            ProbeState::Resolved(v) => Some(v),
            _ => None,
        }
    }

    /// Takes the report of the call that was due and says what is due next.
    pub fn advance(self, event: ProbeEvent) -> (next: ProbeState)
        ensures
            next == self.advance_spec(event),
            self.calls_left() > 0 ==> next.calls_left() < self.calls_left(),
            self.calls_left() == 0 ==> next == self,
    {
        match self {
            ProbeState::QueryPrimary => match event {
                ProbeEvent::PrimaryReturned { code, reported } => match primary_version(
                    code,
                    reported,
                ) {
                    Some(version) => ProbeState::Resolved(version),
                    None => ProbeState::LocateLibrary,
                },
                _ => ProbeState::LocateLibrary,
            },
            ProbeState::LocateLibrary => match event {
                ProbeEvent::LibraryLookup { found: true } => ProbeState::ResolveSymbol,
                _ => ProbeState::Resolved(OsVersion::baseline()),
            },
            ProbeState::ResolveSymbol => match event {
                ProbeEvent::SymbolLookup { found: true } => ProbeState::InvokeRoutine,
                _ => ProbeState::Resolved(OsVersion::baseline()),
            },
            ProbeState::InvokeRoutine => match event {
                ProbeEvent::RoutineReturned { status, reported } => ProbeState::Resolved(
                    routine_version(status, reported),
                ),
                _ => ProbeState::Resolved(OsVersion::baseline()),
            },
            ProbeState::Resolved(version) => ProbeState::Resolved(version),
        }
    }

    /// Every report brings an unresolved detection closer to its end, so no
    /// detection takes more than four calls.
    pub proof fn lemma_run_resolves(self, events: Seq<ProbeEvent>)
        requires
            events.len() >= self.calls_left(),
        ensures
            self.after(events) is Resolved,
        decreases events.len(),
    {
        if events.len() > 0 {
            self.advance_spec(events[0]).lemma_run_resolves(events.drop_first());
        }
    }

    /// A resolved detection keeps its version, whatever is reported after it.
    pub proof fn lemma_resolved_is_final(version: OsVersion, events: Seq<ProbeEvent>)
        ensures
            ProbeState::Resolved(version).after(events) == ProbeState::Resolved(version),
        decreases events.len(),
    {
        if events.len() > 0 {
            ProbeState::lemma_resolved_is_final(version, events.drop_first());
        }
    }

    /// Where the documented query succeeds, its record is the detected
    /// version and nothing else is called.
    pub proof fn lemma_primary_success_resolves(code: i32, reported: OsVersion)
        requires
            code != 0,
        ensures
            ProbeState::QueryPrimary.advance_spec(ProbeEvent::PrimaryReturned { code, reported })
                == ProbeState::Resolved(reported),
    {
    }

    /// Where the documented query fails, the detection goes on exactly as the
    /// fallback alone would: what the failed query left in its record has no
    /// part in the result.
    pub proof fn lemma_primary_failure_defers_to_fallback(
        reported: OsVersion,
        rest: Seq<ProbeEvent>,
    )
        ensures
            ProbeState::QueryPrimary.after(
                seq![ProbeEvent::PrimaryReturned { code: 0, reported }] + rest,
            ) == ProbeState::LocateLibrary.after(rest),
    {
        let events = seq![ProbeEvent::PrimaryReturned { code: 0, reported }] + rest;
        assert(events[0] == ProbeEvent::PrimaryReturned { code: 0, reported });
        assert(events.drop_first() =~= rest);
    }
}

/// How the system would answer each of the four calls, were it made.
pub ghost struct SystemAnswers {
    pub primary_code: i32,
    pub primary_record: OsVersion,
    pub library_found: bool,
    pub symbol_found: bool,
    pub routine_status: i32,
    pub routine_record: OsVersion,
}

impl SystemAnswers {
    /// Some step of the fallback fails: the library is not loaded, the
    /// routine is not among its exports, or the routine reports an error.
    pub open spec fn fallback_fails(self) -> bool {
        !self.library_found || !self.symbol_found || self.routine_status != 0
    }

    /// What the fallback yields: the routine's record where every step
    /// succeeds, the baseline where any step fails.
    pub open spec fn fallback_version(self) -> OsVersion {
        if self.library_found && self.symbol_found {
            routine_version_spec(self.routine_status, self.routine_record)
        } else {
            OsVersion::baseline_spec()
        }
    }

    /// What the detection as a whole yields: the record of the documented
    /// query where that succeeds, and what the fallback yields where not.
    pub open spec fn detected_version(self) -> OsVersion {
        match primary_version_spec(self.primary_code, self.primary_record) {
            Some(version) => version,
            None => self.fallback_version(),
        }
    }

    /// The reports of a fallback on this system. Each step is taken only if
    /// the one before it succeeded.
    pub open spec fn fallback_events(self) -> Seq<ProbeEvent> {
        let library = ProbeEvent::LibraryLookup { found: self.library_found };
        let symbol = ProbeEvent::SymbolLookup { found: self.symbol_found };
        let routine = ProbeEvent::RoutineReturned {
            status: self.routine_status,
            reported: self.routine_record,
        };
        if !self.library_found {
            seq![library]
        } else if !self.symbol_found {
            seq![library, symbol]
        } else {
            seq![library, symbol, routine]
        }
    }

    /// The reports of a whole detection on this system. The fallback is
    /// entered only if the documented query failed.
    pub open spec fn events(self) -> Seq<ProbeEvent> {
        let primary = ProbeEvent::PrimaryReturned {
            code: self.primary_code,
            reported: self.primary_record,
        };
        if self.primary_code != 0 {
            seq![primary]
        } else {
            seq![primary] + self.fallback_events()
        }
    }

    /// The fallback always ends with a version, and with the baseline where
    /// any of its steps fails.
    pub proof fn lemma_fallback_resolves(self)
        ensures
            ProbeState::LocateLibrary.after(self.fallback_events()) == ProbeState::Resolved(
                self.fallback_version(),
            ),
            self.fallback_fails() ==> self.fallback_version() == OsVersion::baseline_spec(),
            !self.fallback_fails() ==> self.fallback_version() == self.routine_record,
    {
        reveal_with_fuel(ProbeState::after, 4);
        let events = self.fallback_events();
        let symbol = ProbeEvent::SymbolLookup { found: self.symbol_found };
        let routine = ProbeEvent::RoutineReturned {
            status: self.routine_status,
            reported: self.routine_record,
        };
        if !self.library_found {
            assert(events.drop_first() =~= Seq::<ProbeEvent>::empty());
        } else if !self.symbol_found {
            assert(events.drop_first() =~= seq![symbol]);
            assert(events.drop_first().drop_first() =~= Seq::<ProbeEvent>::empty());
        } else {
            assert(events.drop_first() =~= seq![symbol, routine]);
            assert(events.drop_first().drop_first() =~= seq![routine]);
            assert(events.drop_first().drop_first().drop_first() =~= Seq::<ProbeEvent>::empty());
        }
    }

    /// A detection that starts with the documented query and is told how the
    /// system answered ends with the version that the ordered fallback
    /// describes: the query's record, else the routine's record, else the
    /// baseline.
    pub proof fn lemma_detection_resolves(self)
        ensures
            ProbeState::QueryPrimary.after(self.events()) == ProbeState::Resolved(
                self.detected_version(),
            ),
            self.primary_code != 0 ==> self.detected_version() == self.primary_record,
            self.primary_code == 0 ==> self.detected_version() == self.fallback_version(),
    {
        let primary = ProbeEvent::PrimaryReturned {
            code: self.primary_code,
            reported: self.primary_record,
        };
        if self.primary_code != 0 {
            reveal_with_fuel(ProbeState::after, 2);
            assert(self.events().drop_first() =~= Seq::<ProbeEvent>::empty());
        } else {
            ProbeState::lemma_primary_failure_defers_to_fallback(
                self.primary_record,
                self.fallback_events(),
            );
            self.lemma_fallback_resolves();
        }
    }

    /// Where the documented query fails and the fallback fails at any of its
    /// steps, the detection ends with the baseline, and the application may
    /// start with or without the bypass flag.
    pub proof fn lemma_undetected_system_is_allowed(self, bypass: bool)
        requires
            self.primary_code == 0,
            self.fallback_fails(),
        ensures
            ProbeState::QueryPrimary.after(self.events()) == ProbeState::Resolved(
                OsVersion::baseline_spec(),
            ),
            self.detected_version() == (OsVersion { major: 6, minor: 1 }),
            decision_for(self.detected_version(), bypass).allowed,
    {
        self.lemma_detection_resolves();
        self.lemma_fallback_resolves();
    }
}

} // verus!
