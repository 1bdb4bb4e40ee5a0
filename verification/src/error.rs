//! Errors of the client side. One enum for the whole client; the mobile
//! boundary maps it to platform exceptions as it is.

use crate::text::{decimal, push_decimal};
use vstd::prelude::*;
use vstd::string::*;

verus! {

/// Client errors. Failures of the transport, of the file system and of JSON
/// handling are carried as their messages.
#[derive(Debug)]
pub enum CoreError {
    /// The server URL does not parse, or a path cannot be joined to it.
    InvalidBaseUrl(String),
    /// The request did not get an HTTP response.
    Network(String),
    /// The server answered with a status outside 2xx.
    Api { status: u16, message: String },
    /// Reading or writing a file failed.
    Io(String),
    /// A JSON document could not be read or written.
    Serde(String),
}

/// Whether a request that failed so is worth repeating: network failures and
/// 5xx answers are transient; 4xx answers are the client's fault and would
/// fail again.
pub open spec fn spec_is_transient(e: &CoreError) -> bool {
    match e {
        CoreError::Network(_) => true,
        CoreError::Api { status, .. } => *status >= 500,
        _ => false,
    }
}

/// The human-readable message of an error.
pub open spec fn spec_core_message(e: &CoreError) -> Seq<char> {
    match e {
        CoreError::InvalidBaseUrl(m) => "некорректный URL сервера: "@ + m@,
        CoreError::Network(m) => "сеть: "@ + m@,
        CoreError::Api { status, message } => "сервер вернул "@ + decimal(*status as nat) + ": "@
            + message@,
        CoreError::Io(m) => "ввод-вывод: "@ + m@,
        CoreError::Serde(m) => "сериализация: "@ + m@,
    }
}

impl CoreError {
    /// Whether to retry the request that failed with this error.
    pub fn is_transient(&self) -> (b: bool)
        ensures
            b == spec_is_transient(self),
    {
        match self {
            CoreError::Network(_) => true,
            CoreError::Api { status, .. } => *status >= 500,
            _ => false,
        }
    }

    /// The human-readable message of the error.
    pub fn message(&self) -> (m: String)
        ensures
            m@ == spec_core_message(self),
    {
        match self {
            CoreError::InvalidBaseUrl(m) => String::from_str("некорректный URL сервера: ").concat(
                m.as_str(),
            ),
            CoreError::Network(m) => String::from_str("сеть: ").concat(m.as_str()),
            CoreError::Api { status, message } => {
                let mut s = String::from_str("сервер вернул ");
                push_decimal(&mut s, *status as u64);
                s.append(": ");
                s.append(message.as_str());
                s
            },
            CoreError::Io(m) => String::from_str("ввод-вывод: ").concat(m.as_str()),
            CoreError::Serde(m) => String::from_str("сериализация: ").concat(m.as_str()),
        }
    }
}

} // verus!
