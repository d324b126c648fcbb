//! The request engine: the state machine of one settings call.
//!
//! A call starts by consulting the registry and encoding a request; the
//! caller then registers a one-shot handler, sends the payload on the
//! bus, and blocks on its event.  Every payload the handler receives is
//! judged here: a matching response resolves the call, anything else is
//! ignored and the caller keeps waiting.  A timeout resolves the call
//! with the timeout error.  All of those decisions are verified; the
//! sending, the blocking and the threads around them are the caller's.

use vstd::prelude::*;

use crate::codec::joined2;
use crate::codec::joined3;
use crate::codec::spec_parse_index_resp;
use crate::codec::spec_parse_write_resp;
use crate::codec::spec_split3;
use crate::codec::encode_read_req;
use crate::codec::encode_write_req;
use crate::codec::parse_index_resp;
use crate::codec::parse_write_resp;
use crate::codec::split3;
use crate::codec::MSG_SETTINGS_READ_BY_INDEX_DONE;
use crate::codec::MSG_SETTINGS_READ_BY_INDEX_REQ;
use crate::codec::MSG_SETTINGS_READ_BY_INDEX_RESP;
use crate::codec::MSG_SETTINGS_READ_REQ;
use crate::codec::MSG_SETTINGS_READ_RESP;
use crate::codec::MSG_SETTINGS_WRITE;
use crate::codec::MSG_SETTINGS_WRITE_RESP;
use crate::errors::lemma_read_error_code_u32;
use crate::errors::spec_write_error_of;
use crate::errors::Error;
use crate::errors::ReadSettingError;
use crate::errors::WriteSettingError;
use crate::errors::READ_STATUS_PARSE_ERROR;
use crate::errors::READ_STATUS_TIMEOUT;
use crate::errors::WRITE_STATUS_OK;
use crate::registry::lookup_setting;
use crate::registry::spec_find_setting;
use crate::registry::Setting;
use crate::registry::SettingKind;
use crate::text::spec_has_nul;
use crate::text::spec_parse_bool_token;
use crate::text::str_eq;
use crate::value::decode_value;
use crate::value::spec_parse_i32;
use crate::value::SettingValue;

verus! {

/// What the caller performs to issue a textual settings request: register
/// a one-shot handler for `register_type`, then send a message of
/// `send_type` carrying `payload`.
pub struct RequestAction {
    pub register_type: u16,
    pub send_type: u16,
    pub payload: String,
}

/// What the caller performs to issue a read-by-index request: register
/// one-shot handlers for the record and end-of-table response types, then
/// send a message of `send_type` carrying `index`.
pub struct ReadByIndexAction {
    pub record_type: u16,
    pub done_type: u16,
    pub send_type: u16,
    pub index: u16,
}

/// The raw, undecoded record of one enumerated setting.  The value stays
/// textual: the enumeration path does not consult the registry per index,
/// and the format field needs the caller's own interpretation.
#[derive(Debug, Clone, PartialEq)]
pub struct ReadByIdxResult {
    pub group: String,
    pub name: String,
    pub value: String,
    pub fmt_type: String,
}

/// One read of a named setting, awaiting the matching response.
pub struct ReadRequest {
    pub group: String,
    pub name: String,
    pub kind: SettingKind,
}

impl ReadRequest {
    /// Starts a read: consults the registry for the declared kind and
    /// encodes the request payload.  An unregistered (group, name) yields
    /// nothing — no handler is registered and no message is sent; a field
    /// embedding the wire terminator fails with the encoding error.
    pub fn start(settings: &Vec<Setting>, group: &str, name: &str) -> (r: Option<
        Result<(ReadRequest, RequestAction), Error<ReadSettingError>>,
    >)
        ensures
            match spec_find_setting(settings@, group@, name@) {
                None => r is None,
                Some(s) => match r {
                    Some(Ok((req, action))) => {
                        &&& !spec_has_nul(group@)
                        &&& !spec_has_nul(name@)
                        &&& req.group@ == group@
                        &&& req.name@ == name@
                        &&& req.kind == s.kind
                        &&& action.register_type == MSG_SETTINGS_READ_RESP
                        &&& action.send_type == MSG_SETTINGS_READ_REQ
                        &&& action.payload@ == joined2(group@, name@)
                    },
                    Some(Err(e)) => (spec_has_nul(group@) || spec_has_nul(name@)) && e matches
                        Error::NulError,
                    None => false,
                },
            },
    {
        let setting = match lookup_setting(settings, group, name) {
            Some(s) => s,
            None => {
                return None;
            },
        };
        let kind = setting.kind;
        let payload = match encode_read_req(group, name) {
            Some(p) => p,
            None => {
                return Some(Err(Error::NulError));
            },
        };
        let req = ReadRequest { group: group.to_owned(), name: name.to_owned(), kind };
        let action = RequestAction {
            register_type: MSG_SETTINGS_READ_RESP,
            send_type: MSG_SETTINGS_READ_REQ,
            payload,
        };
        Some(Ok((req, action)))
    }

    /// Judges one payload delivered for the response type.  A payload
    /// that is not a well-formed response, or answers a different
    /// setting, is ignored and the caller keeps waiting.  The matching
    /// response resolves the call: its value token decodes under the
    /// declared kind, and a token the kind rejects resolves into the
    /// decode-failure status.
    pub fn on_response(&self, payload: &str) -> (r: Option<
        Result<SettingValue, Error<ReadSettingError>>,
    >)
        ensures
            match spec_split3(payload@) {
                None => r is None,
                Some((g, n, v)) => if g != self.group@ || n != self.name@ {
                    r is None
                } else {
                    match self.kind {
                        SettingKind::Integer => match spec_parse_i32(v) {
                            Some(x) => r == Some(Result::<SettingValue, Error<ReadSettingError>>::Ok(SettingValue::Integer(x))),
                            None => r matches Some(Err(Error::Failed(e))) && e.spec_code()
                                == READ_STATUS_PARSE_ERROR,
                        },
                        SettingKind::Boolean => match spec_parse_bool_token(v) {
                            Some(b) => r == Some(Result::<SettingValue, Error<ReadSettingError>>::Ok(SettingValue::Boolean(b))),
                            None => r matches Some(Err(Error::Failed(e))) && e.spec_code()
                                == READ_STATUS_PARSE_ERROR,
                        },
                        SettingKind::Float | SettingKind::Double => r matches Some(
                            Ok(SettingValue::Float(t)),
                        ) && t@ == v,
                        SettingKind::String | SettingKind::Enum | SettingKind::PackedBitfield => r
                            matches Some(Ok(SettingValue::String(t))) && t@ == v,
                    }
                },
            },
    {
        let (g, n, v) = match split3(payload) {
            Some(t) => t,
            None => {
                return None;
            },
        };
        if !str_eq(g.as_str(), self.group.as_str()) || !str_eq(n.as_str(), self.name.as_str()) {
            return None;
        }
        match decode_value(self.kind, v.as_str()) {
            Some(value) => Some(Ok(value)),
            None => {
                proof {
                    lemma_read_error_code_u32(READ_STATUS_PARSE_ERROR);
                }
                Some(Err(Error::Failed(ReadSettingError::from(READ_STATUS_PARSE_ERROR))))
            },
        }
    }

    /// Resolves the call when no matching response arrived within the
    /// timeout bound.
    pub fn on_timeout(&self) -> (e: Error<ReadSettingError>)
        ensures
            e matches Error::Failed(re) && re.spec_code() == READ_STATUS_TIMEOUT,
    {
        proof {
            lemma_read_error_code_u32(READ_STATUS_TIMEOUT);
        }
        Error::Failed(ReadSettingError::from(READ_STATUS_TIMEOUT))
    }
}

/// One write of a named setting, awaiting the remote's verdict.
pub struct WriteRequest {
    pub group: String,
    pub name: String,
    pub value: String,
}

impl WriteRequest {
    /// Starts a write: consults the registry, then encodes the request
    /// payload.  An unregistered (group, name) yields nothing — no
    /// handler is registered and no message is sent; a field embedding
    /// the wire terminator fails with the encoding error.
    pub fn start(settings: &Vec<Setting>, group: &str, name: &str, value: &str) -> (r: Option<
        Result<(WriteRequest, RequestAction), Error<WriteSettingError>>,
    >)
        ensures
            match spec_find_setting(settings@, group@, name@) {
                None => r is None,
                Some(_) => match r {
                    Some(Ok((req, action))) => {
                        &&& !spec_has_nul(group@)
                        &&& !spec_has_nul(name@)
                        &&& !spec_has_nul(value@)
                        &&& req.group@ == group@
                        &&& req.name@ == name@
                        &&& req.value@ == value@
                        &&& action.register_type == MSG_SETTINGS_WRITE_RESP
                        &&& action.send_type == MSG_SETTINGS_WRITE
                        &&& action.payload@ == joined3(group@, name@, value@)
                    },
                    Some(Err(e)) => (spec_has_nul(group@) || spec_has_nul(name@) || spec_has_nul(
                        value@,
                    )) && e matches Error::NulError,
                    None => false,
                },
            },
    {
        if lookup_setting(settings, group, name).is_none() {
            return None;
        }
        let payload = match encode_write_req(group, name, value) {
            Some(p) => p,
            None => {
                return Some(Err(Error::NulError));
            },
        };
        let req = WriteRequest {
            group: group.to_owned(),
            name: name.to_owned(),
            value: value.to_owned(),
        };
        let action = RequestAction {
            register_type: MSG_SETTINGS_WRITE_RESP,
            send_type: MSG_SETTINGS_WRITE,
            payload,
        };
        Some(Ok((req, action)))
    }

    /// Judges one payload delivered for the write response type.  A
    /// payload that is not a well-formed write response, or answers a
    /// different setting, is ignored.  The matching response resolves the
    /// call: the success status yields the write's success, every other
    /// status maps to its error variant, unmapped codes to `Unknown`.
    pub fn on_response(&self, payload: &str) -> (r: Option<Result<(), Error<WriteSettingError>>>)
        ensures
            match spec_parse_write_resp(payload@) {
                None => r is None,
                Some((status, g, n, v)) => if g != self.group@ || n != self.name@ {
                    r is None
                } else if status == WRITE_STATUS_OK {
                    r == Some(Result::<(), Error<WriteSettingError>>::Ok(()))
                } else {
                    r == Some(Result::<(), Error<WriteSettingError>>::Err(
                        Error::Failed(spec_write_error_of(status)),
                    ))
                },
            },
    {
        let (status, g, n, _v) = match parse_write_resp(payload) {
            Some(t) => t,
            None => {
                return None;
            },
        };
        if !str_eq(g.as_str(), self.group.as_str()) || !str_eq(n.as_str(), self.name.as_str()) {
            return None;
        }
        let code = status as u32;
        if code == WRITE_STATUS_OK {
            Some(Ok(()))
        } else {
            Some(Err(Error::Failed(WriteSettingError::from(code))))
        }
    }

    /// Resolves the call when no matching response arrived within the
    /// timeout bound.
    pub fn on_timeout(&self) -> (e: Error<WriteSettingError>)
        ensures
            e matches Error::Failed(we) && we == WriteSettingError::Timeout,
    {
        Error::Failed(WriteSettingError::Timeout)
    }
}

/// One read of the setting at a table index, awaiting the record or the
/// end-of-table signal.
pub struct ReadByIndexRequest {
    pub index: u16,
}

impl ReadByIndexRequest {
    /// Starts a read-by-index.  Nothing can fail locally: the index is
    /// the whole request.
    pub fn start(index: u16) -> (r: (ReadByIndexRequest, ReadByIndexAction))
        ensures
            r.0.index == index,
            r.1.record_type == MSG_SETTINGS_READ_BY_INDEX_RESP,
            r.1.done_type == MSG_SETTINGS_READ_BY_INDEX_DONE,
            r.1.send_type == MSG_SETTINGS_READ_BY_INDEX_REQ,
            r.1.index == index,
    {
        (
            ReadByIndexRequest { index },
            ReadByIndexAction {
                record_type: MSG_SETTINGS_READ_BY_INDEX_RESP,
                done_type: MSG_SETTINGS_READ_BY_INDEX_DONE,
                send_type: MSG_SETTINGS_READ_BY_INDEX_REQ,
                index,
            },
        )
    }

    /// Judges one payload delivered for either registered response type.
    /// The end-of-table signal resolves the call with no record — that is
    /// not an error.  A record for this call's index resolves it with the
    /// record; a record for another index, or a malformed payload, or an
    /// unrelated message type is ignored.
    pub fn on_response(&self, msg_type: u16, payload: &str) -> (r: Option<
        Result<Option<ReadByIdxResult>, ReadSettingError>,
    >)
        ensures
            (r == Some(Result::<Option<ReadByIdxResult>, ReadSettingError>::Ok(
                Option::<ReadByIdxResult>::None,
            ))) <==> msg_type == MSG_SETTINGS_READ_BY_INDEX_DONE,
            msg_type != MSG_SETTINGS_READ_BY_INDEX_DONE && msg_type
                != MSG_SETTINGS_READ_BY_INDEX_RESP ==> r is None,
            msg_type == MSG_SETTINGS_READ_BY_INDEX_RESP ==> match spec_parse_index_resp(payload@) {
                None => r is None,
                Some((idx, g, n, v, f)) => if idx != self.index {
                    r is None
                } else {
                    r matches Some(Ok(Some(rec))) && rec.group@ == g && rec.name@ == n
                        && rec.value@ == v && rec.fmt_type@ == f
                },
            },
    {
        if msg_type == MSG_SETTINGS_READ_BY_INDEX_DONE {
            return Some(Ok(None));
        }
        if msg_type != MSG_SETTINGS_READ_BY_INDEX_RESP {
            return None;
        }
        let (idx, group, name, value, fmt_type) = match parse_index_resp(payload) {
            Some(t) => t,
            None => {
                return None;
            },
        };
        if idx != self.index {
            return None;
        }
        Some(Ok(Some(ReadByIdxResult { group, name, value, fmt_type })))
    }

    /// Resolves the call when neither a record nor the end-of-table
    /// signal arrived within the timeout bound.
    pub fn on_timeout(&self) -> (e: ReadSettingError)
        ensures
            e.spec_code() == READ_STATUS_TIMEOUT,
    {
        proof {
            lemma_read_error_code_u32(READ_STATUS_TIMEOUT);
        }
        ReadSettingError::from(READ_STATUS_TIMEOUT)
    }
}

} // verus!
