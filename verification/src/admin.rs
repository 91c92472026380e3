//! The decision half of each database administrative operation.
//!
//! Each operation independently connects, issues one statement, and maps the
//! outcome to exactly one `PgResponse`: a fixed or interpolated confirmation
//! on success, the taxonomy-mapped failure otherwise. Connecting and issuing
//! the statement are the embedding caller's part; the functions here take
//! the combined outcome (a connect-time or query-time failure, or success)
//! and decide the response.
use vstd::prelude::*;

use crate::response::{PgResponse, PgErrorInfo, mapped_code, mapped_message, create_postgres_error_response};

verus! {

/// The code every successful administrative operation reports: the
/// SQL-standard "successful completion" identifier.
pub fn success_code() -> (c: String)
    ensures
        c@ == "00000"@,
{
    String::from_str("00000")
}

/// The confirmation message for a successful database creation.
pub open spec fn create_success_message(db: Seq<char>) -> Seq<char> {
    "Successfully created database '"@ + db + "'"@
}

/// The confirmation message for a successful database rename.
pub open spec fn rename_success_message(db: Seq<char>, new_db: Seq<char>) -> Seq<char> {
    "Database "@ + db + " renamed to "@ + new_db
}

/// Decides the response of the connectivity test: success yields the fixed
/// `{"00000", "Success"}` pair, any connect-time or query-time failure yields
/// the taxonomy-mapped response as the error value.
pub fn test_connection_response(outcome: &Result<(), PgErrorInfo>) -> (r: Result<
    PgResponse,
    PgResponse,
>)
    ensures
        outcome is Ok ==> r is Ok && r->Ok_0.code@ == "00000"@ && r->Ok_0.message@
            == "Success"@,
        outcome is Err ==> r is Err && r->Err_0.code@ == mapped_code(outcome->Err_0)
            && r->Err_0.message@ == mapped_message(outcome->Err_0),
{
    match outcome {
        Ok(()) => Ok(PgResponse { code: success_code(), message: String::from_str("Success") }),
        Err(e) => Err(create_postgres_error_response(e)),
    }
}

/// Decides the response of `create_database`: success confirms the creation
/// naming the target, any failure yields the taxonomy-mapped response as the
/// error value.
pub fn create_database_response(database: &str, outcome: &Result<(), PgErrorInfo>) -> (r: Result<
    PgResponse,
    PgResponse,
>)
    ensures
        outcome is Ok ==> r is Ok && r->Ok_0.code@ == "00000"@ && r->Ok_0.message@
            == create_success_message(database@),
        outcome is Err ==> r is Err && r->Err_0.code@ == mapped_code(outcome->Err_0)
            && r->Err_0.message@ == mapped_message(outcome->Err_0),
{
    match outcome {
        Ok(()) => {
            let mut message = String::from_str("Successfully created database '");
            message.append(database);
            message.append("'");
            Ok(PgResponse { code: success_code(), message })
        },
        Err(e) => Err(create_postgres_error_response(e)),
    }
}

/// Decides the response of `rename_database`: success confirms the rename
/// naming the transition, any failure yields the taxonomy-mapped response as
/// the error value.
pub fn rename_database_response(
    database: &str,
    new_database_name: &str,
    outcome: &Result<(), PgErrorInfo>,
) -> (r: Result<PgResponse, PgResponse>)
    ensures
        outcome is Ok ==> r is Ok && r->Ok_0.code@ == "00000"@ && r->Ok_0.message@
            == rename_success_message(database@, new_database_name@),
        outcome is Err ==> r is Err && r->Err_0.code@ == mapped_code(outcome->Err_0)
            && r->Err_0.message@ == mapped_message(outcome->Err_0),
{
    match outcome {
        Ok(()) => {
            let mut message = String::from_str("Database ");
            message.append(database);
            message.append(" renamed to ");
            message.append(new_database_name);
            Ok(PgResponse { code: success_code(), message })
        },
        Err(e) => Err(create_postgres_error_response(e)),
    }
}

} // verus!
