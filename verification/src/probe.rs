//! Outcome model and message layer of the runtime-environment diagnostic.
//!
//! The diagnostic asks whether the process is hosted by a Windows
//! compatibility layer, by resolving a version-reporting symbol from a system
//! library at run time. Resolution itself is unsafe, platform-gated foreign
//! code and stands outside the verified crate; it hands back one of the
//! outcomes below, and every call site depends only on this model. Here each
//! outcome is rendered to its status line, so that every branch yields a
//! fixed human-readable message and a detected version is reported verbatim.

use vstd::prelude::*;
use vstd::string::StringExecFns;

verus! {

/// What probing the hosting environment can find.
pub enum ProbeOutcome {
    /// The diagnostic targets another platform; nothing was loaded.
    NotApplicable,
    /// The system library could not be loaded.
    LoadFailed,
    /// The library loaded, but the version-reporting symbol is absent.
    NotDetected,
    /// The resolved function returned a null pointer.
    NullPointer,
    /// The resolved function's result is not valid text.
    InvalidText,
    /// The version string the resolved function reported.
    Detected(String),
}

/// The fixed text that precedes a detected version in its status line.
pub open spec fn detected_prefix() -> Seq<char> {
    "Running under Wine version: "@
}

/// The status line owed for each outcome.
pub open spec fn spec_message(o: ProbeOutcome) -> Seq<char> {
    match o {
        ProbeOutcome::NotApplicable => "Not running on Windows target"@,
        ProbeOutcome::LoadFailed => "Failed to load ntdll.dll"@,
        ProbeOutcome::NotDetected => "Not running under Wine (wine_get_version function not found in ntdll.dll)"@,
        ProbeOutcome::NullPointer => "wine_get_version returned null pointer"@,
        ProbeOutcome::InvalidText => "Wine version string is not valid UTF-8"@,
        ProbeOutcome::Detected(v) => detected_prefix() + v@,
    }
}

/// Renders the status line for an outcome. Every outcome yields a message:
/// nothing is reported as an error, and a detected version appears in the
/// line verbatim, after the fixed prefix.
pub fn diagnostic_message(outcome: &ProbeOutcome) -> (msg: String)
    ensures
        msg@ == spec_message(*outcome),
{
    match outcome {
        ProbeOutcome::NotApplicable => "Not running on Windows target".to_owned(),
        ProbeOutcome::LoadFailed => "Failed to load ntdll.dll".to_owned(),
        ProbeOutcome::NotDetected => "Not running under Wine (wine_get_version function not found in ntdll.dll)".to_owned(),
        ProbeOutcome::NullPointer => "wine_get_version returned null pointer".to_owned(),
        ProbeOutcome::InvalidText => "Wine version string is not valid UTF-8".to_owned(),
        ProbeOutcome::Detected(v) => {
            let mut msg = "Running under Wine version: ".to_owned();
            msg.append(v.as_str());
            msg
        },
    }
}

/// The message for a detected version is exactly the fixed prefix followed by
/// the version text: dropping the prefix recovers the version verbatim.
pub proof fn lemma_detected_message_has_version_verbatim(v: String)
    ensures
        spec_message(ProbeOutcome::Detected(v)) == detected_prefix() + v@,
        spec_message(ProbeOutcome::Detected(v)).skip(detected_prefix().len() as int) == v@,
{
    assert(spec_message(ProbeOutcome::Detected(v)).skip(detected_prefix().len() as int) =~= v@);
}

} // verus!
