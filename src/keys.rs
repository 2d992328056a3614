//! The key scheme: partition and sort keys of each row kind.
//!
//! Titles and names are embedded verbatim, without escaping.

use crate::text::{int_text, push_int};
use crate::time::Timestamp;
use vstd::prelude::*;
use vstd::string::StringExecFns;

verus! {

/// `movie::`, the partition key prefix of movie rows.
pub open spec fn movie_prefix() -> Seq<char> {
    seq!['m', 'o', 'v', 'i', 'e', ':', ':']
}

/// `actor::`, the prefix of actor partition keys and of role sort keys.
pub open spec fn actor_prefix() -> Seq<char> {
    seq!['a', 'c', 't', 'o', 'r', ':', ':']
}

/// `meta`, the sort key of metadata rows.
pub open spec fn meta_key() -> Seq<char> {
    seq!['m', 'e', 't', 'a']
}

/// An actor's name as embedded in keys: last name, a space, first name.
pub open spec fn actor_name(last_name: Seq<char>, first_name: Seq<char>) -> Seq<char> {
    last_name + seq![' '] + first_name
}

/// `movie::{title}#{year}`.
pub open spec fn movie_pk(title: Seq<char>, year: int) -> Seq<char> {
    movie_prefix() + title + seq!['#'] + int_text(year)
}

/// `actor::{lastName} {firstName}`, the partition key of an actor and the
/// sort key of that actor's role in a movie.
pub open spec fn actor_key(last_name: Seq<char>, first_name: Seq<char>) -> Seq<char> {
    actor_prefix() + actor_name(last_name, first_name)
}

pub(crate) fn movie_prefix_string() -> (r: String)
    ensures
        r@ == movie_prefix(),
{
    let r = String::from_str("movie::");
    proof {
        reveal_strlit("movie::");
    }
    assert(r@ =~= movie_prefix());
    r
}

pub(crate) fn actor_prefix_string() -> (r: String)
    ensures
        r@ == actor_prefix(),
{
    let r = String::from_str("actor::");
    proof {
        reveal_strlit("actor::");
    }
    assert(r@ =~= actor_prefix());
    r
}

pub(crate) fn meta_key_string() -> (r: String)
    ensures
        r@ == meta_key(),
{
    let r = String::from_str("meta");
    proof {
        reveal_strlit("meta");
    }
    assert(r@ =~= meta_key());
    r
}

/// The partition key of a movie's rows.
pub fn movie_partition_key(title: &str, published_at: &Timestamp) -> (r: String)
    ensures
        r@ == movie_pk(title@, published_at.year as int),
{
    let mut r = movie_prefix_string();
    r.append(title);
    crate::text::push_char(&mut r, '#');
    push_int(&mut r, published_at.year);
    assert(r@ =~= movie_pk(title@, published_at.year as int));
    r
}

/// `actor::{lastName} {firstName}`.
pub fn actor_key_string(last_name: &str, first_name: &str) -> (r: String)
    ensures
        r@ == actor_key(last_name@, first_name@),
{
    let mut r = actor_prefix_string();
    r.append(last_name);
    crate::text::push_char(&mut r, ' ');
    r.append(first_name);
    assert(r@ =~= actor_key(last_name@, first_name@));
    r
}

/// The keys of a movie's metadata row.
pub fn movie_meta_key(title: &str, published_at: &Timestamp) -> (r: (String, String))
    ensures
        r.0@ == movie_pk(title@, published_at.year as int),
        r.1@ == meta_key(),
{
    (movie_partition_key(title, published_at), meta_key_string())
}

/// The keys of the row that records an actor's role in a movie.
pub fn movie_actor_key(
    title: &str,
    published_at: &Timestamp,
    last_name: &str,
    first_name: &str,
) -> (r: (String, String))
    ensures
        r.0@ == movie_pk(title@, published_at.year as int),
        r.1@ == actor_key(last_name@, first_name@),
{
    (movie_partition_key(title, published_at), actor_key_string(last_name, first_name))
}

/// The keys of an actor's metadata row.
pub fn actor_meta_key(last_name: &str, first_name: &str) -> (r: (String, String))
    ensures
        r.0@ == actor_key(last_name@, first_name@),
        r.1@ == meta_key(),
{
    (actor_key_string(last_name, first_name), meta_key_string())
}

/// The keys of an actor's metadata row, from the name as embedded in keys
/// (`{lastName} {firstName}`).
pub fn actor_meta_key_by_name(name: &str) -> (r: (String, String))
    ensures
        r.0@ == actor_prefix() + name@,
        r.1@ == meta_key(),
{
    let mut pk = actor_prefix_string();
    pk.append(name);
    (pk, meta_key_string())
}

/// The partition key and sort key prefix that list all roles of a movie.
pub fn movie_actor_query_prefix(title: &str, published_at: &Timestamp) -> (r: (String, String))
    ensures
        r.0@ == movie_pk(title@, published_at.year as int),
        r.1@ == actor_prefix(),
{
    (movie_partition_key(title, published_at), actor_prefix_string())
}

} // verus!
