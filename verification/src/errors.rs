//! The error taxonomy of the settings client.
//!
//! Lookup and encoding failures are raised locally, before anything is
//! sent; protocol-level failures carry the remote's status code.  An
//! unmapped write status becomes `Unknown`, never a silent success.

use vstd::prelude::*;

use crate::value::all_digits;
use crate::value::digit_val;
use crate::value::digits_val;
use crate::value::u32_decimal;

verus! {

/// The write status codes of the settings protocol, as the remote reports
/// them in a write response.
pub const WRITE_STATUS_OK: u32 = 0;

pub const WRITE_STATUS_VALUE_REJECTED: u32 = 1;

pub const WRITE_STATUS_SETTING_REJECTED: u32 = 2;

pub const WRITE_STATUS_PARSE_FAILED: u32 = 3;

pub const WRITE_STATUS_READ_ONLY: u32 = 4;

pub const WRITE_STATUS_MODIFY_DISABLED: u32 = 5;

pub const WRITE_STATUS_SERVICE_FAILED: u32 = 6;

pub const WRITE_STATUS_TIMEOUT: u32 = 7;

/// The status a read reports when no matching response arrived within the
/// timeout bound.  The read path's own failure statuses mirror the
/// protocol layer's negative codes.
pub const READ_STATUS_TIMEOUT: u32 = 0xffff_fffe;

/// The status a read reports when the matching response's value token
/// cannot be decoded under the setting's declared kind.
pub const READ_STATUS_PARSE_ERROR: u32 = 0xffff_ffff;

/// An error of a settings call: either the request could not be encoded
/// because a field embeds the terminator the wire format forbids, or the
/// operation itself failed.
#[derive(Debug, Clone, Copy, PartialEq, Eq)]
pub enum Error<E> {
    NulError,
    Failed(E),
}

/// A remote's explicit rejection of a write, one variant per documented
/// status code, with `Unknown` for any unmapped code.
#[derive(Debug, Clone, Copy, PartialEq, Eq, Structural)]
pub enum WriteSettingError {
    ValueRejected,
    SettingRejected,
    ParseFailed,
    ReadOnly,
    ModifyDisabled,
    ServiceFailed,
    Timeout,
    Unknown,
}

/// The variant each write status code maps to.  The success code and every
/// unmapped code fall to `Unknown`: a caller reaches this map only for a
/// rejection, and an unexpected code must never read as success.
pub open spec fn spec_write_error_of(code: u32) -> WriteSettingError {
    if code == WRITE_STATUS_VALUE_REJECTED {
        WriteSettingError::ValueRejected
    } else if code == WRITE_STATUS_SETTING_REJECTED {
        WriteSettingError::SettingRejected
    } else if code == WRITE_STATUS_PARSE_FAILED {
        WriteSettingError::ParseFailed
    } else if code == WRITE_STATUS_READ_ONLY {
        WriteSettingError::ReadOnly
    } else if code == WRITE_STATUS_MODIFY_DISABLED {
        WriteSettingError::ModifyDisabled
    } else if code == WRITE_STATUS_SERVICE_FAILED {
        WriteSettingError::ServiceFailed
    } else if code == WRITE_STATUS_TIMEOUT {
        WriteSettingError::Timeout
    } else {
        WriteSettingError::Unknown
    }
}

impl From<u32> for WriteSettingError {
    fn from(n: u32) -> (r: Self) {
        match n {
            WRITE_STATUS_VALUE_REJECTED => WriteSettingError::ValueRejected,
            WRITE_STATUS_SETTING_REJECTED => WriteSettingError::SettingRejected,
            WRITE_STATUS_PARSE_FAILED => WriteSettingError::ParseFailed,
            WRITE_STATUS_READ_ONLY => WriteSettingError::ReadOnly,
            WRITE_STATUS_MODIFY_DISABLED => WriteSettingError::ModifyDisabled,
            WRITE_STATUS_SERVICE_FAILED => WriteSettingError::ServiceFailed,
            WRITE_STATUS_TIMEOUT => WriteSettingError::Timeout,
            _ => WriteSettingError::Unknown,
        }
    }
}

impl vstd::std_specs::convert::FromSpecImpl<u32> for WriteSettingError {
    open spec fn obeys_from_spec() -> bool {
        true
    }

    open spec fn from_spec(n: u32) -> Self {
        spec_write_error_of(n)
    }
}

impl From<i32> for WriteSettingError {
    fn from(n: i32) -> (r: Self) {
        WriteSettingError::from(n as u32)
    }
}

impl vstd::std_specs::convert::FromSpecImpl<i32> for WriteSettingError {
    open spec fn obeys_from_spec() -> bool {
        true
    }

    open spec fn from_spec(n: i32) -> Self {
        spec_write_error_of(n as u32)
    }
}

impl WriteSettingError {
    /// A short description of the rejection, one fixed text per variant.
    pub fn message(&self) -> (r: &'static str)
        ensures
            r@ == match self {
                WriteSettingError::ValueRejected => "setting value invalid"@,
                WriteSettingError::SettingRejected => "setting does not exist"@,
                WriteSettingError::ParseFailed => "could not parse setting value "@,
                WriteSettingError::ReadOnly => "setting is read only"@,
                WriteSettingError::ModifyDisabled => "setting is not modifiable"@,
                WriteSettingError::ServiceFailed => "system failure during setting"@,
                WriteSettingError::Timeout => "request wasn't replied in time"@,
                WriteSettingError::Unknown => "unknown settings write response"@,
            },
    {
        match self {
            WriteSettingError::ValueRejected => "setting value invalid",
            WriteSettingError::SettingRejected => "setting does not exist",
            WriteSettingError::ParseFailed => "could not parse setting value ",
            WriteSettingError::ReadOnly => "setting is read only",
            WriteSettingError::ModifyDisabled => "setting is not modifiable",
            WriteSettingError::ServiceFailed => "system failure during setting",
            WriteSettingError::Timeout => "request wasn't replied in time",
            WriteSettingError::Unknown => "unknown settings write response",
        }
    }
}

/// A failed read, carrying the status code the read path reported.
#[derive(Debug, Clone, Copy)]
pub struct ReadSettingError {
    code: u32,
}

impl ReadSettingError {
    /// The status code this error carries.
    pub closed spec fn spec_code(&self) -> u32 {
        self.code
    }

    /// The status code this error carries.
    pub fn code(&self) -> (r: u32)
        ensures
            r == self.spec_code(),
    {
        self.code
    }

    /// A short description of the failure, naming the status code in
    /// canonical decimal.
    pub fn message(&self) -> (r: String)
        ensures
            ({
                let prefix = "settings read failed with status code "@;
                let digits = r@.subrange(prefix.len() as int, r@.len() as int);
                &&& r@.len() > prefix.len()
                &&& r@.subrange(0, prefix.len() as int) == prefix
                &&& all_digits(digits)
                &&& digits_val(digits) == self.spec_code()
                &&& self.spec_code() > 0 ==> digit_val(digits[0]) != 0
            }),
    {
        let mut out = String::new();
        out.append("settings read failed with status code ");
        let digits = u32_decimal(self.code);
        out.append(digits.as_str());
        proof {
            let prefix = "settings read failed with status code "@;
            assert(out@.subrange(0, prefix.len() as int) =~= prefix);
            assert(out@.subrange(prefix.len() as int, out@.len() as int) =~= digits@);
        }
        out
    }
}

impl From<u32> for ReadSettingError {
    fn from(code: u32) -> (r: Self) {
        ReadSettingError { code }
    }
}

impl vstd::std_specs::convert::FromSpecImpl<u32> for ReadSettingError {
    open spec fn obeys_from_spec() -> bool {
        true
    }

    closed spec fn from_spec(code: u32) -> Self {
        ReadSettingError { code }
    }
}

impl From<i32> for ReadSettingError {
    fn from(code: i32) -> (r: Self) {
        ReadSettingError::from(code as u32)
    }
}

impl vstd::std_specs::convert::FromSpecImpl<i32> for ReadSettingError {
    open spec fn obeys_from_spec() -> bool {
        true
    }

    closed spec fn from_spec(code: i32) -> Self {
        ReadSettingError { code: code as u32 }
    }
}

/// A read error built from a status code carries exactly that code.
pub proof fn lemma_read_error_code_u32(code: u32)
    ensures
        (<ReadSettingError as vstd::std_specs::convert::FromSpec<u32>>::from_spec(
            code,
        )).spec_code() == code,
{
}

/// A read error built from a signed status code carries that code,
/// reinterpreted as unsigned.
pub proof fn lemma_read_error_code_i32(code: i32)
    ensures
        (<ReadSettingError as vstd::std_specs::convert::FromSpec<i32>>::from_spec(
            code,
        )).spec_code() == code as u32,
{
}

} // verus!
