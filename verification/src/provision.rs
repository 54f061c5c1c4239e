//! Databases of their own for runs that must not see each other's rows.
//!
//! A run gets a database named after a freshly drawn identifier. Creating
//! it, bringing its schema up to date and connecting to it are the caller's
//! business; what the database is called, and the statement that creates
//! it, are settled here.

use crate::identity::{
    hyphenated, is_random, lemma_hyphenated_is_injective, lemma_hyphenated_is_plain, random, written,
};
use vstd::prelude::*;

verus! {

/// The statement that creates a database, as text: the name stands between
/// double quotes, as an identifier that is taken letter for letter.
pub open spec fn creation_of(name: Seq<char>) -> Seq<char> {
    "CREATE DATABASE \""@ + name + "\";"@
}

/// The name of the database that belongs to an identifier: the identifier's
/// written form.
pub fn database_name(id: u128) -> (name: String)
    ensures
        name@ == hyphenated(id),
{
    written(id)
}

/// Draws an identifier and names a database after it. The identifier is
/// handed back with the name.
pub fn fresh_database_name() -> (fresh: (u128, String))
    ensures
        is_random(fresh.0),
        fresh.1@ == hyphenated(fresh.0),
{
    let id: u128 = random();
    (id, database_name(id))
}

/// The statement that creates the database of the given name.
pub fn create_database(name: &str) -> (statement: String)
    ensures
        statement@ == creation_of(name@),
{
    let mut statement = String::from_str("CREATE DATABASE \"");
    statement.append(name);
    statement.append("\";");
    statement
}

/// A name that was made of an identifier holds no double quote, so the
/// statement that creates its database quotes it whole.
pub proof fn lemma_name_holds_no_quote(id: u128, position: int)
    requires
        0 <= position < 36,
    ensures
        hyphenated(id).len() == 36,
        hyphenated(id)[position] != '"',
{
    lemma_hyphenated_is_plain(id, position);
}

/// Runs that were given different identifiers work on different databases:
/// neither the names nor the statements that create them coincide.
pub proof fn lemma_databases_are_apart(a: u128, b: u128)
    requires
        a != b,
    ensures
        hyphenated(a) != hyphenated(b),
        creation_of(hyphenated(a)) != creation_of(hyphenated(b)),
{
    if hyphenated(a) == hyphenated(b) {
        lemma_hyphenated_is_injective(a, b);
    }
    if creation_of(hyphenated(a)) == creation_of(hyphenated(b)) {
        let head = "CREATE DATABASE \""@;
        let tail = "\";"@;
        let left = head + hyphenated(a) + tail;
        let right = head + hyphenated(b) + tail;
        let start = head.len() as int;
        assert(hyphenated(a) =~= left.subrange(start, start + 36));
        assert(hyphenated(b) =~= right.subrange(start, start + 36));
    }
}

} // verus!
