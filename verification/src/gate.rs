//! The compatibility gate: one decision per start of the application.

use crate::label::{label, label_text};
use crate::version::OsVersion;
use vstd::prelude::*;
use vstd::string::*;

verus! {

/// The argument that, when present, lets every version pass.
pub const BYPASS_FLAG: &'static str = "--dev";

/// The status with which the application leaves after a refusal.
pub const REFUSED_EXIT_STATUS: i32 = 1;

/// What was decided about one start of the application.
#[derive(Clone, Debug, PartialEq, Eq)]
pub struct Decision {
    /// Whether the application may start.
    pub allowed: bool,
    /// The product name of the detected version.
    pub display_label: String,
}

/// A `Decision` as contracts see it.
pub ghost struct DecisionView {
    pub allowed: bool,
    pub display_label: Seq<char>,
}

impl View for Decision {
    type V = DecisionView;

    open spec fn view(&self) -> DecisionView {
        DecisionView { allowed: self.allowed, display_label: self.display_label@ }
    }
}

/// A version that is newer than the baseline is refused, unless the caller
/// asked for the bypass.
pub open spec fn blocks(version: OsVersion, bypass: bool) -> bool {
    !bypass && version.is_newer_than_baseline()
}

/// The decision that belongs to a version and a bypass flag.
pub open spec fn decision_for(version: OsVersion, bypass: bool) -> DecisionView {
    DecisionView {
        allowed: !blocks(version, bypass),
        display_label: label_text(version.major, version.minor),
    }
}

/// Some argument is the bypass flag, letter for letter.
pub open spec fn names_bypass(args: Seq<String>) -> bool {
    exists|i: int| 0 <= i < args.len() && (#[trigger] args[i])@ == BYPASS_FLAG@
}

/// Reads the bypass flag from the arguments that the process was started
/// with. Every argument counts, whatever its place.
pub fn bypass_requested(args: &Vec<String>) -> (bypass: bool)
    ensures
        bypass == names_bypass(args@),
{
    let flag = String::from_str(BYPASS_FLAG);
    let mut i: usize = 0;
    while i < args.len()
        invariant
            i <= args.len(),
            flag@ == BYPASS_FLAG@,
            forall|j: int| 0 <= j < i ==> (#[trigger] args@[j])@ != BYPASS_FLAG@,
        decreases args.len() - i,
    {
        if args[i] == flag {
            return true;
        }
        i += 1;
    }
    false
}

/// Decides whether the application may start on `version`.
///
/// The decision is a function of the two arguments alone. A legacy version
/// always passes, a newer one passes only with `bypass`, and the label names
/// the version in either case.
pub fn evaluate(version: OsVersion, bypass: bool) -> (decision: Decision)
    ensures
        decision@ == decision_for(version, bypass),
        decision.allowed <==> bypass || version.is_legacy(),
        version.is_legacy() ==> decision.allowed,
        bypass ==> decision.allowed,
        !bypass && version.is_newer_than_baseline() ==> !decision.allowed,
        decision.display_label@ == label_text(version.major, version.minor),
{
    let allowed = bypass || !version.newer_than_baseline();
    Decision { allowed, display_label: label(version.major, version.minor) }
}

} // verus!
