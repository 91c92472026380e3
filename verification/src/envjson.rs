//! Bidirectional conversion between a flat `KEY=VALUE` text format and a
//! flat JSON object.
//!
//! The `KEY=VALUE` side is this module's own logic, verified here: the text
//! is split into lines (a terminating newline ends a line, a carriage return
//! before it is stripped), and each line with an `=` contributes the pair
//! around its first `=`. The JSON side is the JSON library's work and stands
//! behind trusted wrappers; reading and writing the files is the embedding
//! caller's part.
use vstd::prelude::*;

use crate::text::push_char;

verus! {

/// A line with its terminating carriage return stripped, as the line
/// iterator strips it from a line that ended in `\r\n`.
pub open spec fn strip_cr(line: Seq<char>) -> Seq<char> {
    if line.len() > 0 && line.last() == '\r' {
        line.drop_last()
    } else {
        line
    }
}

/// The split of a line around its first `=`, or nothing when the line has
/// no `=` at all.
pub open spec fn split_at_first_eq(line: Seq<char>) -> Option<(Seq<char>, Seq<char>)>
    decreases line.len(),
{
    if line.len() == 0 {
        None
    } else if line[0] == '=' {
        Some((Seq::empty(), line.drop_first()))
    } else {
        match split_at_first_eq(line.drop_first()) {
            Some(p) => Some((seq![line[0]] + p.0, p.1)),
            None => None,
        }
    }
}

/// The contribution of one line to the pair list: one pair when the line
/// splits, nothing otherwise.
pub open spec fn pair_seq(p: Option<(Seq<char>, Seq<char>)>) -> Seq<(Seq<char>, Seq<char>)> {
    match p {
        Some(q) => seq![q],
        None => Seq::empty(),
    }
}

/// The pairs contributed by the remaining text `s`, with `cur` the part of
/// the current line read so far. A newline finishes a line (with its
/// carriage return stripped); a final unterminated fragment is a line of its
/// own, kept as it stands, and a final empty fragment is no line at all.
pub open spec fn env_pairs_from(s: Seq<char>, cur: Seq<char>) -> Seq<(Seq<char>, Seq<char>)>
    decreases s.len(),
{
    if s.len() == 0 {
        if cur.len() == 0 {
            Seq::empty()
        } else {
            pair_seq(split_at_first_eq(cur))
        }
    } else if s[0] == '\n' {
        pair_seq(split_at_first_eq(strip_cr(cur))) + env_pairs_from(s.drop_first(), Seq::empty())
    } else {
        env_pairs_from(s.drop_first(), cur.push(s[0]))
    }
}

/// The key-value pairs of a `KEY=VALUE` text: one pair per line that
/// contains an `=`, split around the first `=`, in line order.
pub open spec fn env_pairs_of(s: Seq<char>) -> Seq<(Seq<char>, Seq<char>)> {
    env_pairs_from(s, Seq::empty())
}

proof fn lemma_split_at_first_eq(line: Seq<char>, i: int)
    requires
        0 <= i < line.len(),
        line[i] == '=',
        forall|j: int| 0 <= j < i ==> line[j] != '=',
    ensures
        split_at_first_eq(line) == Some(
            (line.subrange(0, i), line.subrange(i + 1, line.len() as int)),
        ),
    decreases line.len(),
{
    if i == 0 {
        assert(line.subrange(0, 0) =~= Seq::empty());
        assert(line.drop_first() =~= line.subrange(1, line.len() as int));
    } else {
        let rest = line.drop_first();
        assert(forall|j: int| 0 <= j < i - 1 ==> rest[j] != '=');
        lemma_split_at_first_eq(rest, i - 1);
        assert(rest.subrange(0, i - 1) =~= line.subrange(1, i));
        assert(rest.subrange(i, rest.len() as int) =~= line.subrange(i + 1, line.len() as int));
        assert(seq![line[0]] + line.subrange(1, i) =~= line.subrange(0, i));
    }
}

proof fn lemma_split_no_eq(line: Seq<char>)
    requires
        forall|j: int| 0 <= j < line.len() ==> line[j] != '=',
    ensures
        split_at_first_eq(line) is None,
    decreases line.len(),
{
    if line.len() > 0 {
        lemma_split_no_eq(line.drop_first());
    }
}

/// Splits one line around its first `=`, yielding the key and value parts,
/// or nothing for a line without an `=`.
pub fn split_env_line(line: &str) -> (r: Option<(String, String)>)
    ensures
        (match r {
            Some(p) => split_at_first_eq(line@) == Some((p.0@, p.1@)),
            None => split_at_first_eq(line@) is None,
        }),
{
    let n = line.unicode_len();
    let mut i: usize = 0;
    while i < n
        invariant
            i <= n,
            n == line@.len(),
            forall|j: int| 0 <= j < i ==> line@[j] != '=',
        decreases n - i,
    {
        if line.get_char(i) == '=' {
            let key = line.substring_char(0, i).to_owned();
            let value = line.substring_char(i + 1, n).to_owned();
            proof {
                lemma_split_at_first_eq(line@, i as int);
            }
            return Some((key, value));
        }
        i = i + 1;
    }
    proof {
        lemma_split_no_eq(line@);
    }
    None
}

/// Collects the key-value pairs of a `KEY=VALUE` text, one pair per line
/// that contains an `=`, in line order.
pub fn parse_env_pairs(text: &str) -> (pairs: Vec<(String, String)>)
    ensures
        pairs.deep_view() == env_pairs_of(text@),
{
    let n = text.unicode_len();
    let mut pairs: Vec<(String, String)> = Vec::new();
    let mut cur = String::new();
    let mut k: usize = 0;
    proof {
        assert(text@.subrange(0, n as int) =~= text@);
        assert(pairs.deep_view() + env_pairs_from(text@.subrange(0, n as int), cur@)
            =~= env_pairs_of(text@));
    }
    while k < n
        invariant
            k <= n,
            n == text@.len(),
            pairs.deep_view() + env_pairs_from(text@.subrange(k as int, n as int), cur@)
                == env_pairs_of(text@),
        decreases n - k,
    {
        let ghost rem = text@.subrange(k as int, n as int);
        let ghost cur0 = cur@;
        let ghost pairs0 = pairs.deep_view();
        proof {
            assert(rem[0] == text@[k as int]);
            assert(rem.drop_first() =~= text@.subrange(k as int + 1, n as int));
        }
        let c = text.get_char(k);
        if c == '\n' {
            let line_len = cur.as_str().unicode_len();
            let line: String = if line_len > 0 && cur.as_str().get_char(line_len - 1) == '\r' {
                let stripped = cur.as_str().substring_char(0, line_len - 1).to_owned();
                proof {
                    assert(stripped@ =~= strip_cr(cur0));
                }
                stripped
            } else {
                cur
            };
            assert(line@ == strip_cr(cur0));
            match split_env_line(line.as_str()) {
                Some(p) => {
                    pairs.push(p);
                    proof {
                        assert(pairs.deep_view() =~= pairs0.push(
                            ((split_at_first_eq(strip_cr(cur0))->0).0, (split_at_first_eq(
                                strip_cr(cur0),
                            )->0).1),
                        ));
                    }
                },
                None => {},
            }
            cur = String::new();
        } else {
            push_char(&mut cur, c);
        }
        k = k + 1;
        proof {
            assert(pairs.deep_view() + env_pairs_from(
                text@.subrange(k as int, n as int),
                cur@,
            ) =~= env_pairs_of(text@));
        }
    }
    proof {
        assert(text@.subrange(n as int, n as int) =~= Seq::<char>::empty());
    }
    if !cur.as_str().is_empty() {
        let ghost cur0 = cur@;
        let ghost pairs0 = pairs.deep_view();
        match split_env_line(cur.as_str()) {
            Some(p) => {
                pairs.push(p);
                proof {
                    assert(pairs.deep_view() =~= pairs0.push(
                        ((split_at_first_eq(cur0)->0).0, (split_at_first_eq(cur0)->0).1),
                    ));
                }
            },
            None => {},
        }
    }
    proof {
        assert(pairs.deep_view() =~= env_pairs_of(text@));
    }
    pairs
}

/// The text of a flat JSON object holding the given pairs as string
/// members, as the JSON library renders it.
pub uninterp spec fn json_object_text_of(pairs: Seq<(Seq<char>, Seq<char>)>) -> Seq<char>;

/// Relies on `serde_json::to_string` over `serde_json::Map`: renders the
/// pairs as one flat JSON object of string members; the result depends on
/// the pairs alone.
#[verifier::external_body]
fn json_text_of_pairs(pairs: &Vec<(String, String)>) -> (json: String)
    ensures
        json@ == json_object_text_of(pairs.deep_view()),
{
    let object: serde_json::Map<String, serde_json::Value> = pairs.iter().map(
        |p: &(String, String)| (p.0.clone(), serde_json::Value::String(p.1.clone())),
    ).collect();
    serde_json::to_string(&object).unwrap()
}

/// Renders a `KEY=VALUE` text as a flat JSON object: one string member per
/// line that contains an `=`, split around the first `=`.
pub fn env_to_json_string(env_text: &str) -> (json: String)
    ensures
        json@ == json_object_text_of(env_pairs_of(env_text@)),
{
    let pairs = parse_env_pairs(env_text);
    json_text_of_pairs(&pairs)
}

/// What parsing a text as a flat JSON object yields: the object's entries in
/// the order the JSON library hands them out, each scalar member rendered as
/// text and each nested member marked absent; or, when the text is not valid
/// JSON, the parser's error text; or, when it is valid JSON but not an
/// object, nothing.
pub uninterp spec fn json_object_entries_of(s: Seq<char>) -> Result<
    Seq<(Seq<char>, Option<Seq<char>>)>,
    Option<Seq<char>>,
>;

/// Relies on `serde_json::from_str` and `serde_json::Value`: parses the text
/// as JSON and hands an object's entries out as plain pairs, in the order the
/// JSON library keeps them. A string member keeps its text, a number or
/// boolean member its rendered form, a null member the empty text; a nested
/// array or object member is marked absent. A text that is not valid JSON
/// yields the parser's error text; valid JSON that is not an object yields
/// the empty error. The result depends on the text alone.
#[verifier::external_body]
fn parse_json_object(s: &str) -> (r: Result<Vec<(String, Option<String>)>, Option<String>>)
    ensures
        (match r {
            Ok(entries) => json_object_entries_of(s@) == Ok::<_, Option<Seq<char>>>(
                entries.deep_view(),
            ),
            Err(failure) => json_object_entries_of(s@) == Err::<
                Seq<(Seq<char>, Option<Seq<char>>)>,
                _,
            >(failure.deep_view()),
        }),
{
    match serde_json::from_str::<serde_json::Value>(s) {
        Err(e) => Err(Some(e.to_string())),
        Ok(serde_json::Value::Object(object)) => Ok(object.into_iter().map(|(k, v)| (k, match v {
            serde_json::Value::String(x) => Some(x),
            serde_json::Value::Number(x) => Some(x.to_string()),
            serde_json::Value::Bool(x) => Some(x.to_string()),
            serde_json::Value::Null => Some(String::new()),
            _ => None,
        })).collect()),
        Ok(_) => Err(None),
    }
}

/// The `KEY=VALUE` text of a list of object entries: one `key=value` line
/// per present value, in entry order; entries whose value is absent (nested
/// members) contribute nothing.
pub open spec fn env_text_of_entries(entries: Seq<(Seq<char>, Option<Seq<char>>)>) -> Seq<char>
    decreases entries.len(),
{
    if entries.len() == 0 {
        Seq::empty()
    } else {
        env_text_of_entries(entries.drop_last()) + (match entries.last().1 {
            Some(v) => entries.last().0 + seq!['='] + v + seq!['\n'],
            None => Seq::empty(),
        })
    }
}

/// Writes the entries as `KEY=VALUE` lines, skipping entries whose value is
/// absent.
fn render_env_text(entries: &Vec<(String, Option<String>)>) -> (text: String)
    ensures
        text@ == env_text_of_entries(entries.deep_view()),
{
    let mut text = String::new();
    let n = entries.len();
    let mut i: usize = 0;
    proof {
        assert(text@ =~= env_text_of_entries(entries.deep_view().subrange(0, 0)));
    }
    while i < n
        invariant
            i <= n,
            n == entries@.len(),
            text@ == env_text_of_entries(entries.deep_view().subrange(0, i as int)),
        decreases n - i,
    {
        match &entries[i].1 {
            Some(v) => {
                text.append(entries[i].0.as_str());
                push_char(&mut text, '=');
                text.append(v.as_str());
                push_char(&mut text, '\n');
            },
            None => {},
        }
        i = i + 1;
        proof {
            let prefix = entries.deep_view().subrange(0, i as int);
            assert(prefix.drop_last() =~= entries.deep_view().subrange(0, i - 1));
            assert(prefix.last() == entries@[i - 1].deep_view());
            assert(text@ =~= env_text_of_entries(prefix));
        }
    }
    proof {
        assert(entries.deep_view().subrange(0, n as int) =~= entries.deep_view());
    }
    text
}

/// Why a JSON text could not be turned into a `KEY=VALUE` text: it was not
/// valid JSON (with the parser's error text), or it was valid JSON whose
/// top level is not an object.
#[derive(Debug)]
pub enum EnvConvertError {
    InvalidJson { text: String },
    NotAnObject,
}

/// Turns the text of a flat JSON object into a `KEY=VALUE` text: one line
/// per scalar member, nested members skipped. A text that is not valid JSON,
/// or whose top level is not an object, is rejected.
pub fn json_string_to_env(json_str: &str) -> (r: Result<String, EnvConvertError>)
    ensures
        (json_object_entries_of(json_str@) matches Ok(entries) ==> r is Ok && r->Ok_0@
            == env_text_of_entries(entries)),
        (json_object_entries_of(json_str@) matches Err(Some(t)) ==> r matches Err(
            EnvConvertError::InvalidJson { text },
        ) && text@ == t),
        (json_object_entries_of(json_str@) matches Err(None) ==> r matches Err(
            EnvConvertError::NotAnObject,
        )),
{
    match parse_json_object(json_str) {
        Ok(entries) => Ok(render_env_text(&entries)),
        Err(Some(text)) => Err(EnvConvertError::InvalidJson { text }),
        Err(None) => Err(EnvConvertError::NotAnObject),
    }
}

} // verus!
