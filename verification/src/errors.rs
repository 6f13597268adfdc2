//! Errors surfaced to the user; each has the message the dashboard shows.
use crate::text::{decimal, owned, u64_to_decimal};
use vstd::prelude::*;
use vstd::string::*;

verus! {

#[derive(Debug)]
pub enum AppError {
    ProviderNotFound(String),
    /// Provider id and where the key should come from.
    MissingKey(String, String),
    Network(String),
    Upstream { status: u16, body: String },
    Parse(String),
    Io(String),
    Config(String),
}

pub type AppResult<T> = Result<T, AppError>;

/// The message of each error.
pub open spec fn error_message(e: AppError) -> Seq<char> {
    match e {
        AppError::ProviderNotFound(id) => "provider '"@ + id@ + "' not found"@,
        AppError::MissingKey(p, v) => "missing API key for provider '"@ + p@
            + "' — set env var "@ + v@ + " or paste in Settings"@,
        AppError::Network(m) => "network error: "@ + m@,
        AppError::Upstream { status, body } => "upstream API error ("@ + decimal(status as nat)
            + "): "@ + body@,
        AppError::Parse(m) => "invalid response: "@ + m@,
        AppError::Io(m) => "io error: "@ + m@,
        AppError::Config(m) => "config error: "@ + m@,
    }
}

impl AppError {
    /// The text the user sees for this error (what `to_string` gives).
    pub fn message(&self) -> (r: String)
        ensures
            r@ == error_message(*self),
    {
        match self {
            AppError::ProviderNotFound(id) => {
                let mut r = owned("provider '");
                r.append(id.as_str());
                r.append("' not found");
                r
            },
            AppError::MissingKey(p, v) => {
                let mut r = owned("missing API key for provider '");
                r.append(p.as_str());
                r.append("' — set env var ");
                r.append(v.as_str());
                r.append(" or paste in Settings");
                r
            },
            AppError::Network(m) => {
                let mut r = owned("network error: ");
                r.append(m.as_str());
                r
            },
            AppError::Upstream { status, body } => {
                let mut r = owned("upstream API error (");
                let d = u64_to_decimal(*status as u64);
                r.append(d.as_str());
                r.append("): ");
                r.append(body.as_str());
                r
            },
            AppError::Parse(m) => {
                let mut r = owned("invalid response: ");
                r.append(m.as_str());
                r
            },
            AppError::Io(m) => {
                let mut r = owned("io error: ");
                r.append(m.as_str());
                r
            },
            AppError::Config(m) => {
                let mut r = owned("config error: ");
                r.append(m.as_str());
                r
            },
        }
    }
}

} // verus!
