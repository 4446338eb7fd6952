//! The text that is shown when the application is refused to start.

use crate::gate::Decision;
use vstd::prelude::*;
use vstd::string::*;

verus! {

/// The caption of the refusal.
pub const NOTICE_TITLE: &'static str = "Forlenza Industrial SCADA v2.1 - Compatibility Error";

/// The refusal up to the product name of the detected version: what the
/// application is and which system it requires.
pub const NOTICE_HEAD: &'static str =
    "Forlenza Industrial SCADA v2.1 requires Windows 7 or earlier.\n\nThis software is not compatible with ";

/// The refusal after the product name: whom to turn to, and the error code.
pub const NOTICE_TAIL: &'static str =
    ".\n\nPlease contact IT support for virtualization solutions.\n\nError Code: LEGACY_OS_REQUIRED";

/// The refusal for a system with the product name `label`.
pub open spec fn notice_text(label: Seq<char>) -> Seq<char> {
    NOTICE_HEAD@ + label + NOTICE_TAIL@
}

/// Writes the refusal for a system with the product name `label`.
pub fn compatibility_notice(label: &str) -> (text: String)
    ensures
        text@ == notice_text(label@),
{
    let mut text = String::from_str(NOTICE_HEAD);
    text.append(label);
    text.append(NOTICE_TAIL);
    text
}

/// The text to show for `decision`, if it is a refusal.
pub fn refusal_notice(decision: &Decision) -> (text: Option<String>)
    ensures
        text is None <==> decision.allowed,
        text matches Some(t) ==> t@ == notice_text(decision.display_label@),
{
    if decision.allowed {
        None
    } else {
        Some(compatibility_notice(decision.display_label.as_str()))
    }
}

} // verus!
