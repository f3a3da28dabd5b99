use vstd::prelude::*;

verus! {

pub const PERMISSION_DENIED_MESSAGE: &'static str = "permission denied - location services disabled\n\nTo enable location access:\n1. Open GNOME Settings (gnome-control-center)\n2. Go to Privacy & Security → Location Services\n3. Enable Location Services\n4. Ensure geo-loc.desktop is installed in /usr/share/applications/\n\nAlternatively, falling back to IP-based location...";

pub const SERVICE_UNAVAILABLE_MESSAGE: &'static str = "location service unavailable - install geoclue-2.0 package";

pub const TIMEOUT_MESSAGE: &'static str = "timeout waiting for location";

pub const NETWORK_MESSAGE: &'static str = "network error - check internet connection";

/// Exit code for a permission error.
pub const PERMISSION_DENIED_CODE: i32 = 77;

/// Exit code for a missing or unusable service.
pub const SERVICE_UNAVAILABLE_CODE: i32 = 70;

/// Exit code for every other failure.
pub const GENERAL_FAILURE_CODE: i32 = 1;

/// A failure as the command line reports it: a message and an exit code.
#[derive(Clone, Debug, PartialEq, Eq)]
pub struct Error {
    pub message: String,
    pub code: i32,
}

impl Error {
    /// Location access was refused; the message says how to grant it.
    pub fn permission_denied() -> (r: Self)
        ensures
            r.message@ == PERMISSION_DENIED_MESSAGE@,
            r.code == PERMISSION_DENIED_CODE,
    {
        Error { message: PERMISSION_DENIED_MESSAGE.to_owned(), code: PERMISSION_DENIED_CODE }
    }

    /// The location service is missing or could not be used.
    pub fn service_unavailable() -> (r: Self)
        ensures
            r.message@ == SERVICE_UNAVAILABLE_MESSAGE@,
            r.code == SERVICE_UNAVAILABLE_CODE,
    {
        Error { message: SERVICE_UNAVAILABLE_MESSAGE.to_owned(), code: SERVICE_UNAVAILABLE_CODE }
    }

    /// No location arrived before the deadline.
    pub fn timeout() -> (r: Self)
        ensures
            r.message@ == TIMEOUT_MESSAGE@,
            r.code == GENERAL_FAILURE_CODE,
    {
        Error { message: TIMEOUT_MESSAGE.to_owned(), code: GENERAL_FAILURE_CODE }
    }

    /// The network lookup failed or gave no usable coordinates.
    pub fn network() -> (r: Self)
        ensures
            r.message@ == NETWORK_MESSAGE@,
            r.code == GENERAL_FAILURE_CODE,
    {
        Error { message: NETWORK_MESSAGE.to_owned(), code: GENERAL_FAILURE_CODE }
    }
}

} // verus!
