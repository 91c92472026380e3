//! Statement text for the short-lived database administrative operations.
//!
//! Database names are interpolated into the statements (the wire protocol
//! does not support bound parameters for them), so each identifier is wrapped
//! in double-quotes with every embedded double-quote doubled before it is
//! spliced in.
use vstd::prelude::*;

use crate::text::push_char;

verus! {

/// The identifier text with every embedded double-quote doubled.
pub open spec fn escaped_ident(s: Seq<char>) -> Seq<char>
    decreases s.len(),
{
    if s.len() == 0 {
        Seq::empty()
    } else {
        escaped_ident(s.drop_last()) + (if s.last() == '"' {
            seq!['"', '"']
        } else {
            seq![s.last()]
        })
    }
}

/// The identifier wrapped in double-quotes, embedded double-quotes doubled.
pub open spec fn quoted_ident(s: Seq<char>) -> Seq<char> {
    seq!['"'] + escaped_ident(s) + seq!['"']
}

/// Quotes a database identifier defensively for interpolation into a
/// statement: wraps it in double-quotes and doubles every double-quote it
/// contains.
pub fn quote_identifier(name: &str) -> (q: String)
    ensures
        q@ == quoted_ident(name@),
{
    let n = name.unicode_len();
    let mut out = String::new();
    push_char(&mut out, '"');
    proof {
        assert(out@ =~= seq!['"'] + escaped_ident(name@.subrange(0, 0)));
    }
    let mut i: usize = 0;
    while i < n
        invariant
            i <= n,
            n == name@.len(),
            out@ == seq!['"'] + escaped_ident(name@.subrange(0, i as int)),
        decreases n - i,
    {
        let c = name.get_char(i);
        if c == '"' {
            push_char(&mut out, '"');
            push_char(&mut out, '"');
        } else {
            push_char(&mut out, c);
        }
        i = i + 1;
        proof {
            let prefix = name@.subrange(0, i as int);
            assert(prefix.drop_last() =~= name@.subrange(0, i - 1));
            assert(prefix.last() == name@[i - 1]);
            assert(out@ =~= seq!['"'] + escaped_ident(prefix));
        }
    }
    push_char(&mut out, '"');
    proof {
        assert(name@.subrange(0, n as int) =~= name@);
        assert(out@ =~= quoted_ident(name@));
    }
    out
}

/// The statement that creates the named database.
pub open spec fn create_database_statement(db: Seq<char>) -> Seq<char> {
    "CREATE DATABASE "@ + quoted_ident(db)
}

/// The statement that renames a database.
pub open spec fn rename_database_statement(db: Seq<char>, new_db: Seq<char>) -> Seq<char> {
    "ALTER DATABASE "@ + quoted_ident(db) + " RENAME TO "@ + quoted_ident(new_db) + ";"@
}

/// Builds the database-creation statement for the given name.
pub fn create_database_query(database: &str) -> (q: String)
    ensures
        q@ == create_database_statement(database@),
{
    let mut q = String::from_str("CREATE DATABASE ");
    let quoted = quote_identifier(database);
    q.append(quoted.as_str());
    q
}

/// Builds the rename statement taking `database` to `new_database_name`.
pub fn rename_database_query(database: &str, new_database_name: &str) -> (q: String)
    ensures
        q@ == rename_database_statement(database@, new_database_name@),
{
    let mut q = String::from_str("ALTER DATABASE ");
    let quoted_old = quote_identifier(database);
    q.append(quoted_old.as_str());
    q.append(" RENAME TO ");
    let quoted_new = quote_identifier(new_database_name);
    q.append(quoted_new.as_str());
    q.append(";");
    q
}

/// The trivial liveness query issued by the connectivity test.
pub fn liveness_query() -> (q: String)
    ensures
        q@ == "SELECT 1"@,
{
    String::from_str("SELECT 1")
}

} // verus!
