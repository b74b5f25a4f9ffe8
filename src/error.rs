use vstd::prelude::*;

verus! {

/// Errors that the library itself decides on.
#[derive(Debug, Clone, Copy, PartialEq, Eq, Structural)]
pub enum HubError {
    /// A thing with this serial number is already registered.
    DuplicateSerial,
    /// No thing with this serial number is registered.
    UnknownSerial,
    /// The thing is still paired and must be unpaired first.
    StillPaired,
    /// There is no user token: a login is needed.
    NotLoggedIn,
    /// The authorization service refused the login.
    LoginFailed,
    /// The thing carries no certificates, so no MQTT session can be opened.
    MissingCertificates,
}

} // verus!
