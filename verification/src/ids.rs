//! Matrix user ids: their validation, the user name and server name they
//! hold, and the server that the bridge logs in to.

use vstd::prelude::*;
use crate::text::{
    lemma_prefix_before_concat, lemma_suffix_after_concat, prefix_before, skip_past, suffix_after,
    take_until,
};

verus! {

/// What `ruma_common::UserId::parse` reports for the string `s`: `None` when
/// it accepts `s` as a user id, else the text of its error.
pub uninterp spec fn user_id_parse_error(s: Seq<char>) -> Option<Seq<char>>;

/// Whether `s` is a user id that the Matrix library accepts.
pub open spec fn user_id_valid(s: Seq<char>) -> bool {
    user_id_parse_error(s) is None
}

/// Validates `s` with `ruma_common::UserId::parse`. Trusted: the result is
/// `Ok` exactly when that function accepts `s`, else the error's text; and an
/// accepted id starts with `@` and holds a `:`, as the library's validation
/// (`ruma_identifiers_validation::user_id::validate`) requires. Which other
/// strings it accepts (server name syntax, localpart characters, length) is
/// left to the name `user_id_parse_error`.
#[verifier::external_body]
fn parse_user_id(s: &str) -> (r: Result<(), String>)
    ensures
        match r {
            Ok(_) => user_id_parse_error(s@) is None,
            Err(msg) => user_id_parse_error(s@) == Some(msg@),
        },
        r is Ok ==> s@.len() > 0 && s@[0] == '@' && s@.contains(':'),
{
    match ruma_common::UserId::parse(s) {
        Ok(_) => Ok(()),
        Err(e) => Err(e.to_string()),
    }
}

/// Checks that `s` is a user id the Matrix library accepts; the error is the
/// library's description of what is wrong.
pub fn check_user_id(s: &str) -> (r: Result<(), String>)
    ensures
        match r {
            Ok(_) => user_id_valid(s@),
            Err(msg) => user_id_parse_error(s@) == Some(msg@),
        },
        r is Ok ==> s@.len() > 0 && s@[0] == '@' && s@.contains(':'),
{
    parse_user_id(s)
}

/// The user name in a full user id: what follows the first `@`, up to the
/// next `@` or `:`.
pub open spec fn user_name(full_user_id: Seq<char>) -> Seq<char> {
    prefix_before(prefix_before(suffix_after(full_user_id, '@'), '@'), ':')
}

/// The server name in a user id: what follows the first `:`.
pub open spec fn server_name(user_id: Seq<char>) -> Seq<char> {
    suffix_after(user_id, ':')
}

/// `prefix_before(s, c)` is a prefix of `s` that holds no `c`.
pub proof fn lemma_prefix_before_shape(s: Seq<char>, c: char)
    ensures
        prefix_before(s, c).len() <= s.len(),
        forall|j: int|
            0 <= j < prefix_before(s, c).len() ==> #[trigger] prefix_before(s, c)[j] == s[j]
                && prefix_before(s, c)[j] != c,
    decreases s.len(),
{
    if s.len() > 0 && s[0] != c {
        lemma_prefix_before_shape(s.drop_first(), c);
        let p = prefix_before(s.drop_first(), c);
        assert forall|j: int| 0 <= j < prefix_before(s, c).len() implies #[trigger] prefix_before(
            s,
            c,
        )[j] == s[j] && prefix_before(s, c)[j] != c by {
            if j > 0 {
                assert(prefix_before(s, c)[j] == p[j - 1]);
            }
        }
    }
}

/// The user name of `full_user_id`, as `split("@")` then `split(":")` give
/// it. The id must hold an `@`.
pub fn user_name_of(full_user_id: &str) -> (r: String)
    requires
        full_user_id@.contains('@'),
    ensures
        r@ == user_name(full_user_id@),
        !r@.contains('@'),
        !r@.contains(':'),
{
    let rest = match skip_past(full_user_id, '@') {
        Some(rest) => rest,
        None => {
            assert(false);
            full_user_id
        },
    };
    let segment = take_until(rest, '@');
    let name = take_until(segment, ':');
    proof {
        lemma_prefix_before_shape(segment@, ':');
        lemma_prefix_before_shape(rest@, '@');
        if name@.contains('@') {
            let k = choose|k: int| 0 <= k < name@.len() && name@[k] == '@';
            assert(name@[k] == segment@[k]);
        }
        if name@.contains(':') {
            let k = choose|k: int| 0 <= k < name@.len() && name@[k] == ':';
            assert(name@[k] != ':');
        }
    }
    name.to_owned()
}

/// The user name of a user id made of `@`, a localpart free of `@` and `:`,
/// a `:` and a server name is that localpart.
pub proof fn lemma_user_name_of_well_formed_id(localpart: Seq<char>, server: Seq<char>)
    requires
        !localpart.contains('@'),
        !localpart.contains(':'),
    ensures
        user_name(seq!['@'] + localpart + seq![':'] + server) == localpart,
{
    let id = seq!['@'] + localpart + seq![':'] + server;
    let tail = seq![':'] + server;
    assert(id.drop_first() =~= localpart + tail);
    assert(suffix_after(id, '@') == localpart + tail);
    lemma_prefix_before_concat(localpart, tail, '@');
    assert(prefix_before(tail, '@') =~= seq![':'] + prefix_before(server, '@')) by {
        assert(tail.drop_first() =~= server);
    }
    lemma_prefix_before_concat(localpart, prefix_before(tail, '@'), ':');
    assert(prefix_before(seq![':'] + prefix_before(server, '@'), ':') =~= Seq::<char>::empty());
    assert(localpart + Seq::<char>::empty() =~= localpart);
}

/// The server name of a user id made of `@`, a localpart free of `:`, a `:`
/// and a server name is that server name.
pub proof fn lemma_server_name_of_well_formed_id(localpart: Seq<char>, server: Seq<char>)
    requires
        !localpart.contains(':'),
    ensures
        server_name(seq!['@'] + localpart + seq![':'] + server) == server,
{
    let id = seq!['@'] + localpart + seq![':'] + server;
    assert(id =~= seq!['@'] + (localpart + (seq![':'] + server)));
    lemma_suffix_after_concat(seq!['@'], localpart + (seq![':'] + server), ':');
    lemma_suffix_after_concat(localpart, seq![':'] + server, ':');
    assert((seq![':'] + server).drop_first() =~= server);
}

/// The server name of a user id: what follows its first `:`.
pub fn server_name_of(user_id: &str) -> (r: String)
    requires
        user_id@.contains(':'),
    ensures
        r@ == server_name(user_id@),
{
    match skip_past(user_id, ':') {
        Some(rest) => rest.to_owned(),
        None => {
            assert(false);
            String::new()
        },
    }
}

/// The server to log in to.
#[derive(Debug)]
pub enum Homeserver {
    /// The server named in the account's user id.
    OfUserId(String),
    /// The server given in the configuration.
    Given(String),
}

/// The server that the account `full_user_id` logs in to: the one given as
/// `server_domain` unless that is empty, else the one in the user id. Fails
/// with the Matrix library's error when the user id is not valid.
pub fn resolve_homeserver(full_user_id: &str, server_domain: &str) -> (r: Result<
    Homeserver,
    String,
>)
    ensures
        match r {
            Err(msg) => user_id_parse_error(full_user_id@) == Some(msg@),
            Ok(Homeserver::OfUserId(name)) => user_id_valid(full_user_id@) && server_domain@.len()
                == 0 && name@ == server_name(full_user_id@),
            Ok(Homeserver::Given(domain)) => user_id_valid(full_user_id@) && server_domain@.len()
                > 0 && domain@ == server_domain@,
        },
{
    match check_user_id(full_user_id) {
        Err(msg) => Err(msg),
        Ok(_) => {
            if server_domain.unicode_len() == 0 {
                Ok(Homeserver::OfUserId(server_name_of(full_user_id)))
            } else {
                Ok(Homeserver::Given(server_domain.to_owned()))
            }
        },
    }
}

} // verus!
