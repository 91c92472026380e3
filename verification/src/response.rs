//! The error taxonomy shared by every database administrative operation:
//! each outcome is reported as a `PgResponse`, a stable `{code, message}`
//! pair, whatever backend failure produced it.
use vstd::prelude::*;

verus! {

/// The outcome of a database administrative operation: a short code and a
/// human-readable message. On success the code is `"00000"` (the SQL-standard
/// "successful completion" identifier); on failure it is the backend's own
/// error identifier, or `"unknown"` when the backend supplied no structured
/// code.
#[derive(Debug)]
pub struct PgResponse {
    pub code: String,
    pub message: String,
}

/// What the library reads of a database driver failure: either the backend
/// replied with a structured error (a machine-readable code plus a detail
/// message), or only a generic description of the failure is available
/// (connection refused, protocol error, and the like).
#[derive(Debug)]
pub enum PgErrorInfo {
    Db { code: String, message: String },
    Other { text: String },
}

/// The code a mapped response carries for a given failure.
pub open spec fn mapped_code(e: PgErrorInfo) -> Seq<char> {
    match e {
        PgErrorInfo::Db { code, message } => code@,
        PgErrorInfo::Other { text } => "unknown"@,
    }
}

/// The message a mapped response carries for a given failure.
pub open spec fn mapped_message(e: PgErrorInfo) -> Seq<char> {
    match e {
        PgErrorInfo::Db { code, message } => message@,
        PgErrorInfo::Other { text } => text@,
    }
}

/// The detail text of a failure: the backend's message when the failure is
/// structured, its generic string form otherwise.
pub fn get_postgres_error_message(error: &PgErrorInfo) -> (m: String)
    ensures
        m@ == mapped_message(*error),
{
    match error {
        PgErrorInfo::Db { code, message } => message.clone(),
        PgErrorInfo::Other { text } => text.clone(),
    }
}

/// Maps a driver failure into the uniform response shape: a structured
/// backend error passes its code and message through verbatim; anything else
/// falls back to code `"unknown"` with the failure's string form.
pub fn create_postgres_error_response(error: &PgErrorInfo) -> (r: PgResponse)
    ensures
        r.code@ == mapped_code(*error),
        r.message@ == mapped_message(*error),
{
    match error {
        PgErrorInfo::Db { code, message } => PgResponse {
            code: code.clone(),
            message: message.clone(),
        },
        PgErrorInfo::Other { text } => PgResponse {
            code: String::from_str("unknown"),
            message: text.clone(),
        },
    }
}

/// A failure that carries no structured backend error always maps to the
/// fallback code `"unknown"`, with the failure's own text as the message.
pub proof fn lemma_unstructured_maps_to_unknown(e: PgErrorInfo)
    requires
        e is Other,
    ensures
        mapped_code(e) == "unknown"@,
        mapped_message(e) == e->Other_text@,
{
}

/// The mapper is invertible on structured errors: a response mapped from a
/// structured backend error reproduces that error's code and message exactly.
pub proof fn lemma_mapper_round_trip(e: PgErrorInfo)
    requires
        e is Db,
    ensures
        mapped_code(e) == e->Db_code@,
        mapped_message(e) == e->Db_message@,
{
}

} // verus!
