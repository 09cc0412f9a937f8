//! The reference decision policy: an optional external verifier, consulted
//! by exit code, with a guard that exempts the verifier's own executable.
use vstd::prelude::*;
use crate::flags::{FAN_ALLOW, FAN_DENY};
use crate::decode::{needs_verdict, needs_verdict_spec, RawEvent};

verus! {

/// The verdict that unblocks a permission event.
#[derive(Clone, Copy, Debug, PartialEq, Eq, Structural)]
pub enum FanotifyResponse {
    Allow,
    Deny,
}

/// The response word written to the kernel for a verdict.
pub open spec fn response_word(v: FanotifyResponse) -> u32 {
    match v {
        FanotifyResponse::Allow => FAN_ALLOW,
        FanotifyResponse::Deny => FAN_DENY,
    }
}

impl FanotifyResponse {
    /// The response word written to the kernel for this verdict.
    pub fn bits(&self) -> (r: u32)
        ensures
            r == response_word(*self),
    {
        match self {
            FanotifyResponse::Allow => FAN_ALLOW,
            FanotifyResponse::Deny => FAN_DENY,
        }
    }
}

/// What the policy does with one permission event before any verifier runs.
#[derive(Clone, Copy, Debug, PartialEq, Eq, Structural)]
pub enum PolicyAction {
    /// The verdict is known without running anything.
    Decided(FanotifyResponse),
    /// The verifier must be run on the event's path.
    RunVerifier,
}

/// The policy's first step: with no verifier, or on the verifier's own path,
/// allow; otherwise run the verifier.
pub open spec fn policy_spec(verifier: Option<Seq<char>>, path: Seq<char>) -> PolicyAction {
    match verifier {
        None => PolicyAction::Decided(FanotifyResponse::Allow),
        Some(v) => if v == path {
            PolicyAction::Decided(FanotifyResponse::Allow)
        } else {
            PolicyAction::RunVerifier
        },
    }
}

/// The verdict for the verifier's outcome: its exit code, or none where it
/// could not be run or was killed. Only an exit code of zero allows.
pub open spec fn exit_verdict(code: Option<i32>) -> FanotifyResponse {
    if code == Some(0i32) {
        FanotifyResponse::Allow
    } else {
        FanotifyResponse::Deny
    }
}

/// Decides what to do with a permission event on `path`, given the resolved
/// path of the verifier, if one is configured.
pub fn policy_action(verifier: Option<&String>, path: &String) -> (r: PolicyAction)
    ensures
        verifier is None ==> r == policy_spec(None, path@),
        verifier matches Some(v) ==> r == policy_spec(Some(v@), path@),
{
    match verifier {
        None => PolicyAction::Decided(FanotifyResponse::Allow),
        Some(v) => if v.eq(path) {
            PolicyAction::Decided(FanotifyResponse::Allow)
        } else {
            PolicyAction::RunVerifier
        },
    }
}

/// Maps the verifier's outcome to a verdict.
pub fn verdict_of_exit(code: Option<i32>) -> (r: FanotifyResponse)
    ensures
        r == exit_verdict(code),
{
    match code {
        Some(c) => if c == 0 {
            FanotifyResponse::Allow
        } else {
            FanotifyResponse::Deny
        },
        None => FanotifyResponse::Deny,
    }
}

/// What the policy does with a decoded record: nothing for a record that is
/// not answered with a verdict, else the policy's first step on its path.
pub fn decide(record: &RawEvent, path: &String, verifier: Option<&String>) -> (r: Option<PolicyAction>)
    ensures
        !(record.has_fd && needs_verdict_spec(record.mask)) ==> r is None,
        (record.has_fd && needs_verdict_spec(record.mask)) ==> {
            &&& verifier is None ==> r == Some(policy_spec(None, path@))
            &&& verifier matches Some(v) ==> r == Some(policy_spec(Some(v@), path@))
        },
{
    if record.has_fd && needs_verdict(record.mask) {
        Some(policy_action(verifier, path))
    } else {
        None
    }
}

} // verus!
