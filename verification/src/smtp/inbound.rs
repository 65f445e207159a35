//! The answer that a filter gives for an inbound message, and the names
//! under which the results of message authentication are reported.
use std::borrow::Cow;
use vstd::prelude::*;
use vstd::string::*;
use vstd::utf8::encode_utf8;

verus! {

/// The answer of a filter: the reply line for the client, and whether the
/// connection is closed after it.
#[derive(Debug, PartialEq, Eq)]
pub struct FilterResponse {
    pub message: Cow<'static, str>,
    pub disconnect: bool,
}

impl Default for FilterResponse {
    fn default() -> (r: Self)
        ensures
            r.message@ == ""@,
            !r.disconnect,
    {
        FilterResponse { message: Cow::Borrowed(""), disconnect: false }
    }
}

impl FilterResponse {
    /// The message is accepted.
    pub fn accept() -> (r: Self)
        ensures
            r.message@ == "250 2.0.0 Message queued for delivery.\r\n"@,
            !r.disconnect,
    {
        FilterResponse {
            message: Cow::Borrowed("250 2.0.0 Message queued for delivery.\r\n"),
            disconnect: false,
        }
    }

    /// The message is rejected.
    pub fn reject() -> (r: Self)
        ensures
            r.message@ == "503 5.5.3 Message rejected.\r\n"@,
            !r.disconnect,
    {
        FilterResponse { message: Cow::Borrowed("503 5.5.3 Message rejected.\r\n"), disconnect: false }
    }

    /// The message cannot be taken now and may be sent again.
    pub fn temp_fail() -> (r: Self)
        ensures
            r.message@ == "451 4.3.5 Unable to accept message at this time.\r\n"@,
            !r.disconnect,
    {
        FilterResponse {
            message: Cow::Borrowed("451 4.3.5 Unable to accept message at this time.\r\n"),
            disconnect: false,
        }
    }

    /// The server is shutting down: the connection is closed.
    pub fn shutdown() -> (r: Self)
        ensures
            r.message@ == "421 4.3.0 Server shutting down.\r\n"@,
            r.disconnect,
    {
        FilterResponse { message: Cow::Borrowed("421 4.3.0 Server shutting down.\r\n"), disconnect: true }
    }

    /// The filter failed: the message may be sent again.
    pub fn server_failure() -> (r: Self)
        ensures
            r.message@ == "451 4.3.5 Unable to accept message at this time.\r\n"@,
            !r.disconnect,
    {
        FilterResponse {
            message: Cow::Borrowed("451 4.3.5 Unable to accept message at this time.\r\n"),
            disconnect: false,
        }
    }

    /// The same answer, with the connection closed after it.
    pub fn disconnect(self) -> (r: Self)
        ensures
            r.message@ == self.message@,
            r.disconnect,
    {
        FilterResponse { message: self.message, disconnect: true }
    }

    /// The bytes of the reply line.
    pub fn into_bytes(self) -> (bytes: Cow<'static, [u8]>)
        ensures
            bytes@ == encode_utf8(self.message@),
    {
        match self.message {
            Cow::Borrowed(s) => Cow::Borrowed(s.as_bytes()),
            Cow::Owned(s) => Cow::Owned(s.as_str().as_bytes_vec()),
        }
    }
}

/// A result of message authentication that has a name in reports.
pub trait AuthResult {
    /// The name of the result.
    spec fn name(&self) -> Seq<char>;

    /// The name of the result.
    fn as_str(&self) -> (name: &'static str)
        ensures
            name@ == self.name(),
    ;
}

/// The result of the check of the sender policy of a domain.
#[derive(Debug, Clone, Copy, PartialEq, Eq, Structural)]
pub enum SpfResult {
    Pass,
    Fail,
    SoftFail,
    Neutral,
    TempError,
    PermError,
    /// Nothing to check was found.
    Absent,
}

/// The result of the check that the name of the client's address leads back
/// to that address. The reason of a failure is not kept.
#[derive(Debug, Clone, Copy, PartialEq, Eq, Structural)]
pub enum IprevResult {
    Pass,
    Fail,
    TempError,
    PermError,
    /// Nothing to check was found.
    Absent,
}

/// The result of the check of a signature of a message. The reason of a
/// failure is not kept.
#[derive(Debug, Clone, Copy, PartialEq, Eq, Structural)]
pub enum DkimResult {
    Pass,
    Neutral,
    Fail,
    PermError,
    TempError,
    /// Nothing to check was found.
    Absent,
}

/// The result of the check of the policy of the sender's domain on
/// unauthenticated mail. The reason of a failure is not kept.
#[derive(Debug, Clone, Copy, PartialEq, Eq, Structural)]
pub enum DmarcResult {
    Pass,
    Fail,
    TempError,
    PermError,
    /// Nothing to check was found.
    Absent,
}

/// What the sender's domain asks to be done with unauthenticated mail.
#[derive(Debug, Clone, Copy, PartialEq, Eq, Structural)]
pub enum Policy {
    /// The policy `none`: nothing is asked for.
    NoAction,
    Quarantine,
    Reject,
    Unspecified,
}

impl AuthResult for SpfResult {
    open spec fn name(&self) -> Seq<char> {
        match self {
            SpfResult::Pass => "pass"@,
            SpfResult::Fail => "fail"@,
            SpfResult::SoftFail => "softfail"@,
            SpfResult::Neutral => "neutral"@,
            SpfResult::Absent => "none"@,
            SpfResult::TempError => "temperror"@,
            SpfResult::PermError => "permerror"@,
        }
    }

    fn as_str(&self) -> (name: &'static str) {
        match self {
            SpfResult::Pass => "pass",
            SpfResult::Fail => "fail",
            SpfResult::SoftFail => "softfail",
            SpfResult::Neutral => "neutral",
            SpfResult::Absent => "none",
            SpfResult::TempError => "temperror",
            SpfResult::PermError => "permerror",
        }
    }
}

impl AuthResult for IprevResult {
    open spec fn name(&self) -> Seq<char> {
        match self {
            IprevResult::Pass => "pass"@,
            IprevResult::Fail => "fail"@,
            IprevResult::TempError => "temperror"@,
            IprevResult::PermError => "permerror"@,
            IprevResult::Absent => "none"@,
        }
    }

    fn as_str(&self) -> (name: &'static str) {
        match self {
            IprevResult::Pass => "pass",
            IprevResult::Fail => "fail",
            IprevResult::TempError => "temperror",
            IprevResult::PermError => "permerror",
            IprevResult::Absent => "none",
        }
    }
}

impl AuthResult for DkimResult {
    open spec fn name(&self) -> Seq<char> {
        match self {
            DkimResult::Pass => "pass"@,
            DkimResult::Absent => "none"@,
            DkimResult::Neutral => "neutral"@,
            DkimResult::Fail => "fail"@,
            DkimResult::PermError => "permerror"@,
            DkimResult::TempError => "temperror"@,
        }
    }

    fn as_str(&self) -> (name: &'static str) {
        match self {
            DkimResult::Pass => "pass",
            DkimResult::Absent => "none",
            DkimResult::Neutral => "neutral",
            DkimResult::Fail => "fail",
            DkimResult::PermError => "permerror",
            DkimResult::TempError => "temperror",
        }
    }
}

impl AuthResult for DmarcResult {
    open spec fn name(&self) -> Seq<char> {
        match self {
            DmarcResult::Pass => "pass"@,
            DmarcResult::Fail => "fail"@,
            DmarcResult::TempError => "temperror"@,
            DmarcResult::PermError => "permerror"@,
            DmarcResult::Absent => "none"@,
        }
    }

    fn as_str(&self) -> (name: &'static str) {
        match self {
            DmarcResult::Pass => "pass",
            DmarcResult::Fail => "fail",
            DmarcResult::TempError => "temperror",
            DmarcResult::PermError => "permerror",
            DmarcResult::Absent => "none",
        }
    }
}

impl AuthResult for Policy {
    open spec fn name(&self) -> Seq<char> {
        match self {
            Policy::Reject => "reject"@,
            Policy::Quarantine => "quarantine"@,
            Policy::NoAction | Policy::Unspecified => "none"@,
        }
    }

    fn as_str(&self) -> (name: &'static str) {
        match self {
            Policy::Reject => "reject",
            Policy::Quarantine => "quarantine",
            Policy::NoAction | Policy::Unspecified => "none",
        }
    }
}

} // verus!
