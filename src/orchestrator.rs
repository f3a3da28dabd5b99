//! Resolves the requested provider and sequences the providers of one
//! invocation: at most one fallback, and only for an automatic selection.
use crate::args::Provider;
use crate::bridge::CoreLocationError;
use crate::error::{
    Error, GENERAL_FAILURE_CODE, NETWORK_MESSAGE, PERMISSION_DENIED_CODE,
    PERMISSION_DENIED_MESSAGE, SERVICE_UNAVAILABLE_CODE, SERVICE_UNAVAILABLE_MESSAGE,
    TIMEOUT_MESSAGE,
};
use crate::location::Location;
use vstd::prelude::*;

verus! {

pub const NOT_IMPLEMENTED_MESSAGE: &'static str = "the selected provider is not available in this build";

/// How acquiring a location fails.
#[derive(Clone, Debug, PartialEq, Eq)]
pub enum OrchestratorError {
    ServiceDisabled,
    AuthorizationDenied,
    Timeout,
    Failed(String),
    Network,
    NotImplemented,
}

pub open spec fn from_core_location_spec(e: CoreLocationError) -> OrchestratorError {
    match e {
        CoreLocationError::ServiceDisabled => OrchestratorError::ServiceDisabled,
        CoreLocationError::AuthorizationDenied => OrchestratorError::AuthorizationDenied,
        CoreLocationError::Timeout => OrchestratorError::Timeout,
        CoreLocationError::Failed(reason) => OrchestratorError::Failed(reason),
    }
}

impl OrchestratorError {
    /// The error of the platform location service, kind for kind.
    pub fn from_core_location(e: CoreLocationError) -> (r: Self)
        ensures
            r == from_core_location_spec(e),
    {
        match e {
            CoreLocationError::ServiceDisabled => OrchestratorError::ServiceDisabled,
            CoreLocationError::AuthorizationDenied => OrchestratorError::AuthorizationDenied,
            CoreLocationError::Timeout => OrchestratorError::Timeout,
            CoreLocationError::Failed(reason) => OrchestratorError::Failed(reason),
        }
    }

    /// The message and exit code that the command line reports.
    pub fn to_error(&self) -> (r: Error)
        ensures
            self matches OrchestratorError::AuthorizationDenied ==> r.code == PERMISSION_DENIED_CODE
                && r.message@ == PERMISSION_DENIED_MESSAGE@,
            self matches OrchestratorError::ServiceDisabled ==> r.message@
                == SERVICE_UNAVAILABLE_MESSAGE@,
            self matches OrchestratorError::Timeout ==> r.message@ == TIMEOUT_MESSAGE@,
            self matches OrchestratorError::Network ==> r.message@ == NETWORK_MESSAGE@,
            (self matches OrchestratorError::ServiceDisabled || self matches OrchestratorError::NotImplemented)
                ==> r.code == SERVICE_UNAVAILABLE_CODE,
            (self matches OrchestratorError::Timeout || self matches OrchestratorError::Network
                || self matches OrchestratorError::Failed(_)) ==> r.code == GENERAL_FAILURE_CODE,
            self matches OrchestratorError::Failed(reason) ==> r.message@ == reason@,
            self matches OrchestratorError::NotImplemented ==> r.message@ == NOT_IMPLEMENTED_MESSAGE@,
    {
        match self {
            OrchestratorError::ServiceDisabled => Error::service_unavailable(),
            OrchestratorError::AuthorizationDenied => Error::permission_denied(),
            OrchestratorError::Timeout => Error::timeout(),
            OrchestratorError::Failed(reason) => Error {
                message: reason.as_str().to_owned(),
                code: GENERAL_FAILURE_CODE,
            },
            OrchestratorError::Network => Error::network(),
            OrchestratorError::NotImplemented => Error {
                message: NOT_IMPLEMENTED_MESSAGE.to_owned(),
                code: SERVICE_UNAVAILABLE_CODE,
            },
        }
    }
}

/// What this build can offer.
#[derive(Clone, Copy, Debug, PartialEq, Eq, Structural)]
pub struct Capabilities {
    /// The platform location service is built in.
    pub native: bool,
    /// The desktop location service is built in.
    pub desktop: bool,
}

/// The concrete provider an invocation uses. An automatic selection takes
/// the platform service where there is one, else the network lookup; an
/// explicit one passes through unchanged.
pub open spec fn resolve_spec(requested: Provider, caps: Capabilities) -> Provider {
    match requested {
        Provider::Auto => if caps.native {
            Provider::Corelocation
        } else {
            Provider::Ip
        },
        _ => requested,
    }
}

pub fn resolve(requested: Provider, caps: Capabilities) -> (r: Provider)
    ensures
        r == resolve_spec(requested, caps),
        r != Provider::Auto,
{
    match requested {
        Provider::Auto => if caps.native {
            Provider::Corelocation
        } else {
            Provider::Ip
        },
        _ => requested,
    }
}

/// The next step of an invocation.
pub enum Acquire {
    /// Ask the platform location service.
    Native,
    /// Ask the desktop location service.
    Desktop,
    /// Ask the network lookup; first tell the user how to grant location
    /// access when `remediation` is set.
    Fallback { remediation: bool },
    /// The invocation's result.
    Done(Result<Location, OrchestratorError>),
}

/// The first step for a request.
pub open spec fn begin_spec(requested: Provider, caps: Capabilities) -> Acquire {
    match resolve_spec(requested, caps) {
        Provider::Corelocation => if caps.native {
            Acquire::Native
        } else {
            Acquire::Done(Err(OrchestratorError::NotImplemented))
        },
        Provider::Geoclue => if caps.desktop {
            Acquire::Desktop
        } else {
            Acquire::Done(Err(OrchestratorError::NotImplemented))
        },
        _ => Acquire::Fallback { remediation: false },
    }
}

pub fn begin(requested: Provider, caps: Capabilities) -> (r: Acquire)
    ensures
        r == begin_spec(requested, caps),
{
    match resolve(requested, caps) {
        Provider::Corelocation => if caps.native {
            Acquire::Native
        } else {
            Acquire::Done(Err(OrchestratorError::NotImplemented))
        },
        Provider::Geoclue => if caps.desktop {
            Acquire::Desktop
        } else {
            Acquire::Done(Err(OrchestratorError::NotImplemented))
        },
        _ => Acquire::Fallback { remediation: false },
    }
}

/// The step after the platform or desktop service answered. Only an
/// automatic selection falls back, and only when the service was disabled
/// or access was denied; a denial also asks for the remediation message.
pub open spec fn after_provider_spec(requested: Provider, outcome: Result<Location, OrchestratorError>) -> Acquire {
    match outcome {
        Ok(l) => Acquire::Done(Ok(l)),
        Err(e) => if requested == Provider::Auto && e == OrchestratorError::AuthorizationDenied {
            Acquire::Fallback { remediation: true }
        } else if requested == Provider::Auto && e == OrchestratorError::ServiceDisabled {
            Acquire::Fallback { remediation: false }
        } else {
            Acquire::Done(Err(e))
        },
    }
}

pub fn after_provider(requested: Provider, outcome: Result<Location, OrchestratorError>) -> (r:
    Acquire)
    ensures
        r == after_provider_spec(requested, outcome),
        requested != Provider::Auto ==> r == Acquire::Done(outcome),
{
    match outcome {
        Ok(l) => Acquire::Done(Ok(l)),
        Err(e) => {
            let auto = requested == Provider::Auto;
            match e {
                OrchestratorError::AuthorizationDenied if auto => Acquire::Fallback {
                    remediation: true,
                },
                OrchestratorError::ServiceDisabled if auto => Acquire::Fallback {
                    remediation: false,
                },
                _ => Acquire::Done(Err(e)),
            }
        },
    }
}

/// The step after the network lookup answered: its outcome is final.
pub fn after_fallback(outcome: Result<Location, OrchestratorError>) -> (r: Acquire)
    ensures
        r == Acquire::Done(outcome),
{
    Acquire::Done(outcome)
}

/// An explicit choice of the platform service never falls back: whatever
/// the service answers is the invocation's result.
pub proof fn lemma_explicit_native_is_final(caps: Capabilities, outcome: Result<Location, OrchestratorError>)
    requires
        caps.native,
    ensures
        begin_spec(Provider::Corelocation, caps) == Acquire::Native,
        after_provider_spec(Provider::Corelocation, outcome) == Acquire::Done(outcome),
{
}

/// An automatic choice on a build with the platform service asks it first;
/// when access is denied it asks for the remediation message and then the
/// network lookup.
pub proof fn lemma_auto_denied_falls_back(caps: Capabilities)
    requires
        caps.native,
    ensures
        begin_spec(Provider::Auto, caps) == Acquire::Native,
        after_provider_spec(Provider::Auto, Err(OrchestratorError::AuthorizationDenied))
            == (Acquire::Fallback { remediation: true }),
{
}

} // verus!
