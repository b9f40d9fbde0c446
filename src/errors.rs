//! One set of error kinds for what the device reports and for what goes
//! wrong on the way to it.
use vstd::prelude::*;
use crate::responses::ErrorResponse;
use crate::text::{chars20, same_text, str20};

verus! {

/// What went wrong, whatever its origin.
#[derive(Clone, Copy, Debug, PartialEq, Eq, Structural)]
pub enum Error {
    /// ERROR (-1)
    AtCommandError,
    /// ERROR (-2)
    AtParameterError,
    /// ERROR (-3)
    Busy,
    /// ERROR (-5)
    CouldNotJoinTheNetwork,
    /// ERROR (-7)
    Timeout,
    Unknown,
}

/// A failure of the exchange with the device, as the dispatch engine
/// reports it.
#[derive(Clone, Copy, Debug, PartialEq, Eq, Structural)]
pub enum TransportFault {
    /// Reading from the line failed.
    Read,
    /// Writing to the line failed.
    Write,
    /// No reply came in time.
    Timeout,
    /// The reply was not framed as a reply.
    InvalidResponse,
    /// The exchange was given up.
    Aborted,
    /// The reply could not be parsed.
    Parse,
    /// A generic error reply.
    Error,
    /// An equipment error with a code.
    CmeError,
    /// A network error with a code.
    CmsError,
    /// The connection failed.
    ConnectionError,
    /// An error reply matched by a custom rule.
    Custom,
}

/// The kind of a device error phrase.
pub open spec fn device_error_kind(phrase: Seq<char>) -> Error {
    if phrase == "ERROR (-1)"@ {
        Error::AtCommandError
    } else if phrase == "ERROR (-2)"@ {
        Error::AtParameterError
    } else if phrase == "ERROR (-3)"@ {
        Error::Busy
    } else if phrase == "ERROR (-5)"@ {
        Error::CouldNotJoinTheNetwork
    } else if phrase == "ERROR (-7)"@ {
        Error::Timeout
    } else {
        Error::Unknown
    }
}

/// The kind of a transport fault.
pub open spec fn fault_kind(f: TransportFault) -> Error {
    match f {
        TransportFault::Read => Error::AtCommandError,
        TransportFault::Write => Error::AtCommandError,
        TransportFault::Timeout => Error::Timeout,
        TransportFault::InvalidResponse => Error::AtCommandError,
        TransportFault::Aborted => Error::AtCommandError,
        TransportFault::Parse => Error::AtParameterError,
        TransportFault::Error => Error::AtParameterError,
        TransportFault::CmeError => Error::Unknown,
        TransportFault::CmsError => Error::Unknown,
        TransportFault::ConnectionError => Error::CouldNotJoinTheNetwork,
        TransportFault::Custom => Error::Unknown,
    }
}

/// The transport fault that a device error phrase is reported as.
pub open spec fn device_error_fault(phrase: Seq<char>) -> TransportFault {
    if phrase == "ERROR (-2)"@ {
        TransportFault::Parse
    } else if phrase == "ERROR (-3)"@ {
        TransportFault::Read
    } else if phrase == "ERROR (-7)"@ {
        TransportFault::Timeout
    } else {
        TransportFault::Error
    }
}

/// Classification is total and exact: each of the five listed phrases has
/// its own kind, and every other phrase is `Unknown`.
pub proof fn lemma_device_error_table(phrase: Seq<char>)
    ensures
        device_error_kind(phrase) == Error::Unknown <==> (phrase != "ERROR (-1)"@ && phrase
            != "ERROR (-2)"@ && phrase != "ERROR (-3)"@ && phrase != "ERROR (-5)"@ && phrase
            != "ERROR (-7)"@),
        device_error_kind("ERROR (-1)"@) == Error::AtCommandError,
        device_error_kind("ERROR (-2)"@) == Error::AtParameterError,
        device_error_kind("ERROR (-3)"@) == Error::Busy,
        device_error_kind("ERROR (-5)"@) == Error::CouldNotJoinTheNetwork,
        device_error_kind("ERROR (-7)"@) == Error::Timeout,
{
    reveal_strlit("ERROR (-1)");
    reveal_strlit("ERROR (-2)");
    reveal_strlit("ERROR (-3)");
    reveal_strlit("ERROR (-5)");
    reveal_strlit("ERROR (-7)");
    assert("ERROR (-1)"@[8] != "ERROR (-2)"@[8]);
    assert("ERROR (-1)"@[8] != "ERROR (-3)"@[8]);
    assert("ERROR (-2)"@[8] != "ERROR (-3)"@[8]);
    assert("ERROR (-1)"@[8] != "ERROR (-5)"@[8]);
    assert("ERROR (-2)"@[8] != "ERROR (-5)"@[8]);
    assert("ERROR (-3)"@[8] != "ERROR (-5)"@[8]);
    assert("ERROR (-1)"@[8] != "ERROR (-7)"@[8]);
    assert("ERROR (-2)"@[8] != "ERROR (-7)"@[8]);
    assert("ERROR (-3)"@[8] != "ERROR (-7)"@[8]);
    assert("ERROR (-5)"@[8] != "ERROR (-7)"@[8]);
}

/// Classifies a device error phrase; a phrase outside the table is `Unknown`.
pub fn classify_device_error(phrase: &str) -> (r: Error)
    ensures
        r == device_error_kind(phrase@),
{
    if same_text(phrase, "ERROR (-1)") {
        Error::AtCommandError
    } else if same_text(phrase, "ERROR (-2)") {
        Error::AtParameterError
    } else if same_text(phrase, "ERROR (-3)") {
        Error::Busy
    } else if same_text(phrase, "ERROR (-5)") {
        Error::CouldNotJoinTheNetwork
    } else if same_text(phrase, "ERROR (-7)") {
        Error::Timeout
    } else {
        Error::Unknown
    }
}

/// Classifies a transport fault.
pub fn classify_transport_fault(f: TransportFault) -> (r: Error)
    ensures
        r == fault_kind(f),
{
    match f {
        TransportFault::Read => Error::AtCommandError,
        TransportFault::Write => Error::AtCommandError,
        TransportFault::Timeout => Error::Timeout,
        TransportFault::InvalidResponse => Error::AtCommandError,
        TransportFault::Aborted => Error::AtCommandError,
        TransportFault::Parse => Error::AtParameterError,
        TransportFault::Error => Error::AtParameterError,
        TransportFault::CmeError => Error::Unknown,
        TransportFault::CmsError => Error::Unknown,
        TransportFault::ConnectionError => Error::CouldNotJoinTheNetwork,
        TransportFault::Custom => Error::Unknown,
    }
}

/// The transport fault that a device error phrase is reported as, for a
/// dispatch engine that speaks only in faults.
pub fn fault_of_device_error(phrase: &str) -> (r: TransportFault)
    ensures
        r == device_error_fault(phrase@),
{
    if same_text(phrase, "ERROR (-2)") {
        TransportFault::Parse
    } else if same_text(phrase, "ERROR (-3)") {
        TransportFault::Read
    } else if same_text(phrase, "ERROR (-7)") {
        TransportFault::Timeout
    } else {
        TransportFault::Error
    }
}

impl From<ErrorResponse> for Error {
    fn from(value: ErrorResponse) -> (r: Error) {
        classify_device_error(str20(&value.error))
    }
}

impl vstd::std_specs::convert::FromSpecImpl<ErrorResponse> for Error {
    open spec fn obeys_from_spec() -> bool {
        true
    }

    open spec fn from_spec(v: ErrorResponse) -> Error {
        device_error_kind(chars20(v.error))
    }
}

impl From<ErrorResponse> for TransportFault {
    fn from(value: ErrorResponse) -> (r: TransportFault) {
        fault_of_device_error(str20(&value.error))
    }
}

impl vstd::std_specs::convert::FromSpecImpl<ErrorResponse> for TransportFault {
    open spec fn obeys_from_spec() -> bool {
        true
    }

    open spec fn from_spec(v: ErrorResponse) -> TransportFault {
        device_error_fault(chars20(v.error))
    }
}

impl From<TransportFault> for Error {
    fn from(value: TransportFault) -> (r: Error) {
        classify_transport_fault(value)
    }
}

impl vstd::std_specs::convert::FromSpecImpl<TransportFault> for Error {
    open spec fn obeys_from_spec() -> bool {
        true
    }

    open spec fn from_spec(v: TransportFault) -> Error {
        fault_kind(v)
    }
}

} // verus!
