//! The decisions of a request to the desktop location service over D-Bus.
use crate::orchestrator::OrchestratorError;
use vstd::prelude::*;

verus! {

/// The part of a D-Bus error name that marks a refused authorization.
pub const NOT_AUTHORIZED: &'static str = "NotAuthorized";

/// The desktop id the client announces.
pub const DESKTOP_ID: &'static str = "geo-loc";

/// The accuracy level requested from the service: street level.
pub const STREET_LEVEL_ACCURACY: u32 = 4;

/// How often the client's location is read before giving up.
pub const LOCATION_POLL_ATTEMPTS: u32 = 10;

/// The pause between two reads of the client's location, in milliseconds.
pub const LOCATION_POLL_INTERVAL_MS: u64 = 500;

/// The deadline for the client's location, in milliseconds.
pub const DESKTOP_TIMEOUT_MS: u64 = 5000;

/// `p` occurs in `s` at index `i`.
pub open spec fn occurs_at(s: Seq<char>, p: Seq<char>, i: int) -> bool {
    0 <= i && i + p.len() <= s.len() && s.subrange(i, i + p.len()) == p
}

pub open spec fn contains(s: Seq<char>, p: Seq<char>) -> bool {
    exists|i: int| occurs_at(s, p, i)
}

/// Whether `p` occurs in `s`.
pub fn has_substring(s: &str, p: &str) -> (r: bool)
    ensures
        r == contains(s@, p@),
{
    let n = s.unicode_len();
    let m = p.unicode_len();
    if m > n {
        assert forall|i: int| !occurs_at(s@, p@, i) by {}
        return false;
    }
    if m == 0 {
        assert(s@.subrange(0, 0) =~= p@);
        assert(occurs_at(s@, p@, 0));
        return true;
    }
    let mut i: usize = 0;
    while i <= n - m
        invariant
            n == s@.len(),
            m == p@.len(),
            1 <= m <= n,
            i <= n - m + 1,
            forall|k: int| 0 <= k < i ==> !occurs_at(s@, p@, k),
        decreases n - m + 1 - i,
    {
        let mut j: usize = 0;
        let mut same = true;
        while j < m
            invariant
                n == s@.len(),
                m == p@.len(),
                i + m <= n,
                j <= m,
                same ==> forall|t: int| 0 <= t < j ==> s@[i + t] == p@[t],
                !same ==> !occurs_at(s@, p@, i as int),
            decreases m - j,
        {
            if same && s.get_char(i + j) != p.get_char(j) {
                assert(s@.subrange(i as int, i + m)[j as int] == s@[i + j]);
                same = false;
            }
            j = j + 1;
        }
        if same {
            assert(s@.subrange(i as int, i + m) =~= p@);
            assert(occurs_at(s@, p@, i as int));
            return true;
        }
        i = i + 1;
    }
    assert forall|k: int| !occurs_at(s@, p@, k) by {
        if 0 <= k && k + p@.len() <= s@.len() {
            assert(k < i);
        }
    }
    false
}

/// The error for a failed call to the desktop service: a refused
/// authorization when the D-Bus error name says so, else an unusable service.
pub fn desktop_error(method_error_name: Option<&str>) -> (r: OrchestratorError)
    ensures
        r == (match method_error_name {
            Some(name) => if contains(name@, NOT_AUTHORIZED@) {
                OrchestratorError::AuthorizationDenied
            } else {
                OrchestratorError::ServiceDisabled
            },
            None => OrchestratorError::ServiceDisabled,
        }),
{
    match method_error_name {
        Some(name) => if has_substring(name, NOT_AUTHORIZED) {
            OrchestratorError::AuthorizationDenied
        } else {
            OrchestratorError::ServiceDisabled
        },
        None => OrchestratorError::ServiceDisabled,
    }
}

/// What to do after one read of the client's location.
#[derive(Clone, Copy, Debug, PartialEq, Eq, Structural)]
pub enum PollStep {
    /// The location object is there: read its coordinates.
    Read,
    /// Wait for the poll interval and read again.
    Retry,
    /// No location came: the request times out.
    GiveUp,
}

/// The step after read number `attempt` (counting from 0) gave `path`, the
/// location object's path if the read succeeded.
pub fn location_poll_step(attempt: u32, path: Option<&str>) -> (r: PollStep)
    ensures
        r == (if path matches Some(p) && p@.len() > 0 {
            PollStep::Read
        } else if attempt + 1 < LOCATION_POLL_ATTEMPTS {
            PollStep::Retry
        } else {
            PollStep::GiveUp
        }),
{
    if let Some(p) = path {
        if p.unicode_len() > 0 {
            return PollStep::Read;
        }
    }
    if attempt < LOCATION_POLL_ATTEMPTS - 1 {
        PollStep::Retry
    } else {
        PollStep::GiveUp
    }
}

} // verus!
