//! Properties that relate the operations of the library to one another.
use crate::expires::Expiry;
use crate::id::{
    id_bytes, id_of_text, id_text, lemma_decoding_of_encoding, lemma_encoding_len,
    lemma_encoding_symbols, lemma_id_bytes_roundtrip, Id,
};
use crate::middleware::{
    cookie_for_update, effective_update, is_plain_cookie_text, recorded_after, leads_with_session_cookie,
    lemma_plain_cookie_pair, lemma_split_pieces_first, lemma_split_pieces_single,
    plain_cookie_piece, split_pieces, Config, SessionCookie, REMOVAL_UNIX_TIMESTAMP,
};
use crate::session::SessionUpdate;
use crate::session_store::{layered_records, loaded_record, moves_record, stores_record};
use vstd::pervasive::cloned;
use vstd::prelude::*;

verus! {

/// The text form of an id is 22 characters long and parses back to the id.
pub proof fn law_id_text_roundtrip(id: Id)
    ensures
        id_text(id).len() == 22,
        id_of_text(id_text(id)) == Some(id),
{
    lemma_id_bytes_roundtrip(id);
    lemma_encoding_len(id_bytes(id));
    lemma_decoding_of_encoding(id_bytes(id));
}

/// Once a record is stored at an id, loading that id finds a clone of the record, and every
/// other id loads as it did before.
pub proof fn law_load_after_store<R: Clone>(before: Map<Id, R>, after: Map<Id, R>, id: Id, record: R, other: Id)
    requires
        stores_record(before, after, id, record),
    ensures
        after.contains_key(id),
        cloned(record, after[id]),
        loaded_record(after, id, Some(after[id])),
        other != id ==> (after.contains_key(other) == before.contains_key(other)),
        other != id && before.contains_key(other) ==> after[other] == before[other],
{
}

/// Once a session is deleted, loading it finds nothing.
pub proof fn law_load_after_delete<R: Clone>(before: Map<Id, R>, id: Id)
    ensures
        loaded_record(before.remove(id), id, None),
{
}

/// Once a session is moved to a new id, its old id holds nothing, its new id holds a record,
/// and every other id holds what it held.
pub proof fn law_cycle_moves_session<R>(before: Map<Id, R>, after: Map<Id, R>, old_id: Id, new_id: Id, other: Id)
    requires
        moves_record(before, after, old_id, new_id),
    ensures
        old_id != new_id,
        !after.contains_key(old_id),
        after.contains_key(new_id),
        other != old_id && other != new_id ==> (after.contains_key(other) == before.contains_key(other)),
        other != old_id && other != new_id && after.contains_key(other) ==> after[other] == before[other],
{
}

/// A layered store loads a cached session from its cache, and any other from its backend.
pub proof fn law_layered_load<R: Clone>(cache: Map<Id, R>, store: Map<Id, R>, id: Id, found: Option<R>)
    requires
        loaded_record(layered_records(cache, store), id, found),
    ensures
        cache.contains_key(id) ==> (found matches Some(r) && cloned(cache[id], r)),
        !cache.contains_key(id) ==> loaded_record(store, id, found),
{
}

/// A session update recorded by the handler is what the response's cookie carries.
pub proof fn law_recorded_update_wins(update: SessionUpdate, always_set_expiry: Option<Expiry>, old_id: Option<Id>)
    ensures
        effective_update(Some(update), always_set_expiry, old_id) == Some(update),
{
}

/// Without a recorded update and without `always_set_expiry`, the response sets no cookie.
pub proof fn law_untouched_session_sets_no_cookie(old_id: Option<Id>)
    ensures
        effective_update(None, None, old_id) is None,
{
}

/// With `always_set_expiry`, an untouched session that came with the request gets its cookie
/// set again, with the same id and that expiry; a request without a session gets none.
pub proof fn law_untouched_session_renewed(expiry: Expiry, old_id: Option<Id>)
    ensures
        effective_update(None, Some(expiry), old_id) == match old_id {
            Some(id) => Some(SessionUpdate::SetCookie(id, expiry)),
            None => None,
        },
{
}

/// The cookie that sets a session carries the configured name and the text of the session's
/// id.
pub proof fn law_set_cookie_carries_id<'a>(
    config: Config<'a>,
    cookie: SessionCookie<'a>,
    id: Id,
    expiry: Expiry,
    old_id: Option<Id>,
    now_nanos: int,
)
    requires
        cookie_for_update(config, cookie, SessionUpdate::SetCookie(id, expiry), old_id, now_nanos),
    ensures
        cookie.name == config.name,
        cookie.value@ == id_text(id),
        expiry is OnSessionEnd <==> cookie.max_age is None,
        expiry matches Expiry::OnInactivity(d) ==> cookie.max_age == Some(d),
{
}

/// The cookie that sets a session, sent back by the browser, is read as that session's: the
/// `Set-Cookie` header begins with `name=` and the text of the id, cut off by a `;`, and a
/// request whose first `Cookie` header begins with that pair (or is the whole header) leads
/// with the session cookie, which the middleware reads as the id.
pub proof fn law_session_cookie_read_back<'a>(
    config: Config<'a>,
    cookie: SessionCookie<'a>,
    id: Id,
    expiry: Expiry,
    old_id: Option<Id>,
    now_nanos: int,
)
    requires
        cookie_for_update(config, cookie, SessionUpdate::SetCookie(id, expiry), old_id, now_nanos),
        config.name@.len() > 0,
        is_plain_cookie_text(config.name@),
    ensures
        split_pieces(cookie.header_text(), ';')[0] == plain_cookie_piece(0, config.name@, id_text(id)),
        leads_with_session_cookie(seq![cookie.header_text()], config.name@, id),
        leads_with_session_cookie(seq![plain_cookie_piece(0, config.name@, id_text(id))], config.name@, id),
{
    reveal_strlit("=");
    reveal_strlit("; HttpOnly");
    reveal_strlit("; SameSite=");
    let name = config.name@;
    let value = id_text(id);
    lemma_encoding_symbols(id_bytes(id));
    assert(is_plain_cookie_text(value));
    let pair = plain_cookie_piece(0, name, value);
    assert(pair =~= name + "="@ + value);
    assert forall|k: int| 0 <= k < pair.len() implies pair[k] != ';' by {
        if k < name.len() {
            assert(pair[k] == name[k]);
        } else if k > name.len() {
            assert(pair[k] == value[k - name.len() - 1]);
        }
    }
    assert(!pair.contains(';'));
    let header = cookie.header_text();
    let rest = header.subrange(pair.len() as int, header.len() as int);
    assert(header =~= pair + rest);
    assert(rest.len() > 0 && rest[0] == ';');
    lemma_split_pieces_first(pair, rest, ';');
    lemma_split_pieces_single(pair, ';');
    lemma_plain_cookie_pair(0, name, value);
}

/// Recording an operation's update keeps the last update of the request: an update replaces
/// the pending one, and an operation that makes none (one that failed) leaves it.
pub proof fn law_recording_keeps_the_last_update(pending: Option<SessionUpdate>, update: SessionUpdate)
    ensures
        recorded_after(pending, Some(update)) == Some(update),
        recorded_after(pending, None) == pending,
{
}

/// When the last operation of a request on its session sets the cookie (a creation, an update
/// or a cycle), the response's cookie carries the configured name and the text of that
/// session's id, and a request that sends it back is read as that session's.
pub proof fn law_session_operation_sets_its_cookie<'a>(
    pending: Option<SessionUpdate>,
    id: Id,
    expiry: Expiry,
    config: Config<'a>,
    cookie: SessionCookie<'a>,
    old_id: Option<Id>,
    now_nanos: int,
)
    requires
        cookie_for_update(
            config,
            cookie,
            effective_update(
                recorded_after(pending, Some(SessionUpdate::SetCookie(id, expiry))),
                config.always_set_expiry,
                old_id,
            )->0,
            old_id,
            now_nanos,
        ),
        config.name@.len() > 0,
        is_plain_cookie_text(config.name@),
    ensures
        cookie.name == config.name,
        cookie.value@ == id_text(id),
        leads_with_session_cookie(seq![cookie.header_text()], config.name@, id),
{
    law_session_cookie_read_back(config, cookie, id, expiry, old_id, now_nanos);
}

/// When the last operation of a request on its session deletes it (or finds it gone), the
/// response's cookie is the removal cookie for the request's id, which has expired once the
/// year 2000 began.
pub proof fn law_session_operation_removes_its_cookie<'a>(
    pending: Option<SessionUpdate>,
    config: Config<'a>,
    cookie: SessionCookie<'a>,
    old_id: Option<Id>,
    now_nanos: int,
)
    requires
        cookie_for_update(
            config,
            cookie,
            effective_update(recorded_after(pending, Some(SessionUpdate::Delete)), config.always_set_expiry, old_id)->0,
            old_id,
            now_nanos,
        ),
        now_nanos >= (REMOVAL_UNIX_TIMESTAMP + 1) * 1_000_000_000,
    ensures
        cookie.name == config.name,
        cookie.max_age matches Some(m) && m.total_nanoseconds() <= -1_000_000_000,
{
    law_removal_cookie_is_expired(config, cookie, old_id, now_nanos);
}

/// After the year 2000 began, the cookie that removes a deleted session has a negative
/// maximum age, of at least a second: the browser drops it at once.
pub proof fn law_removal_cookie_is_expired<'a>(
    config: Config<'a>,
    cookie: SessionCookie<'a>,
    old_id: Option<Id>,
    now_nanos: int,
)
    requires
        cookie_for_update(config, cookie, SessionUpdate::Delete, old_id, now_nanos),
        now_nanos >= (REMOVAL_UNIX_TIMESTAMP + 1) * 1_000_000_000,
    ensures
        cookie.max_age matches Some(m) && m.total_nanoseconds() <= -1_000_000_000,
{
}

/// The cookie built from a configuration carries the configuration's name and attributes
/// unchanged, whatever they are, and as value the text of the session's id (empty for none).
pub proof fn law_cookie_carries_the_configuration<'a>(
    config: Config<'a>,
    cookie: SessionCookie<'a>,
    session_id: Option<Id>,
    expiry: Expiry,
    now_nanos: int,
)
    requires
        config.builds(cookie, session_id, expiry, now_nanos),
    ensures
        cookie.name == config.name,
        cookie.http_only == config.http_only,
        cookie.same_site == config.same_site,
        cookie.secure == config.secure,
        cookie.path == config.path,
        cookie.domain == config.domain,
        session_id matches Some(id) ==> cookie.value@ == id_text(id),
        session_id is None ==> cookie.value@.len() == 0,
{
}

/// A piece of a `Cookie` header that does not parse as a cookie is skipped: the lookup goes
/// on with the pieces after it.
pub proof fn law_unparsable_piece_is_skipped(piece: Seq<char>, rest: Seq<Seq<char>>, name: Seq<char>)
    requires
        crate::middleware::cookie_pair_of(piece) is None,
    ensures
        crate::middleware::first_cookie_value(seq![piece] + rest, name)
            == crate::middleware::first_cookie_value(rest, name),
{
    assert((seq![piece] + rest).drop_first() =~= rest);
}

/// The lookup finds the first piece that parses as a cookie of the name: where every earlier
/// piece either does not parse or names another cookie, its value is what is found.
pub proof fn law_first_cookie_of_the_name_is_found(pieces: Seq<Seq<char>>, k: int, name: Seq<char>, value: Seq<char>)
    requires
        0 <= k < pieces.len(),
        crate::middleware::cookie_pair_of(pieces[k]) == Some((name, value)),
        forall|j: int|
            0 <= j < k ==> match #[trigger] crate::middleware::cookie_pair_of(pieces[j]) {
                Some(pair) => pair.0 != name,
                None => true,
            },
    ensures
        crate::middleware::first_cookie_value(pieces, name) == Some(value),
    decreases k,
{
    if k > 0 {
        assert(match crate::middleware::cookie_pair_of(pieces[0]) {
            Some(pair) => pair.0 != name,
            None => true,
        });
        let rest = pieces.drop_first();
        assert forall|j: int| 0 <= j < k - 1 implies match #[trigger] crate::middleware::cookie_pair_of(rest[j]) {
            Some(pair) => pair.0 != name,
            None => true,
        } by {
            assert(rest[j] == pieces[j + 1]);
        }
        assert(rest[k - 1] == pieces[k]);
        law_first_cookie_of_the_name_is_found(rest, k - 1, name, value);
    }
}

/// Splitting a text that starts with a piece and a `;` gives that piece, then the pieces of
/// the rest.
proof fn lemma_split_pieces_prefix(piece: Seq<char>, rest: Seq<char>)
    requires
        !piece.contains(';'),
    ensures
        split_pieces(piece + seq![';'] + rest, ';') == seq![piece] + split_pieces(rest, ';'),
    decreases rest.len(),
{
    let s = piece + seq![';'] + rest;
    if rest.len() == 0 {
        assert(s.drop_last() =~= piece);
        lemma_split_pieces_single(piece, ';');
        assert(split_pieces(rest, ';') =~= seq![Seq::<char>::empty()]);
        assert(split_pieces(s, ';') =~= seq![piece] + split_pieces(rest, ';'));
    } else {
        assert(s.drop_last() =~= piece + seq![';'] + rest.drop_last());
        lemma_split_pieces_prefix(piece, rest.drop_last());
        crate::middleware::lemma_split_pieces_nonempty(rest.drop_last(), ';');
        assert(s.last() == rest.last());
        assert(split_pieces(s, ';') =~= seq![piece] + split_pieces(rest, ';'));
    }
}

/// A `Cookie` header whose first piece does not parse as a cookie is read as the rest of the
/// header: that piece does not stop the lookup.
pub proof fn law_unparsable_cookie_does_not_stop_the_lookup(piece: Seq<char>, rest: Seq<char>, name: Seq<char>)
    requires
        !piece.contains(';'),
        crate::middleware::cookie_pair_of(piece) is None,
    ensures
        crate::middleware::request_session_id(seq![piece + seq![';'] + rest], name)
            == crate::middleware::request_session_id(seq![rest], name),
{
    lemma_split_pieces_prefix(piece, rest);
    law_unparsable_piece_is_skipped(piece, split_pieces(rest, ';'), name);
    assert(seq![piece + seq![';'] + rest].drop_first() =~= Seq::<Seq<char>>::empty());
    assert(seq![rest].drop_first() =~= Seq::<Seq<char>>::empty());
}

/// The value of a DynamoDB key is its prefix, then the 22 characters of the id's text, then its
/// suffix: it starts with the prefix and ends with the suffix, each whether or not the other
/// is there.
pub proof fn law_key_value_parts(key: crate::dynamodb::DynamoDBStoreKey, id: Id)
    ensures
        ({
            let v = crate::dynamodb::key_value(key, id);
            let p = crate::dynamodb::affix_text(key.prefix);
            let s = crate::dynamodb::affix_text(key.suffix);
            &&& v.len() == p.len() + 22 + s.len()
            &&& v.subrange(0, p.len() as int) == p
            &&& v.subrange(p.len() as int, p.len() as int + 22) == id_text(id)
            &&& v.subrange(v.len() - s.len(), v.len() as int) == s
            &&& key.prefix matches Some(prefix) ==> v.subrange(0, prefix@.len() as int) == prefix@
            &&& key.suffix matches Some(suffix) ==> v.subrange(v.len() - suffix@.len(), v.len() as int) == suffix@
        }),
{
    law_id_text_roundtrip(id);
    let v = crate::dynamodb::key_value(key, id);
    let p = crate::dynamodb::affix_text(key.prefix);
    let s = crate::dynamodb::affix_text(key.suffix);
    assert(v.subrange(0, p.len() as int) =~= p);
    assert(v.subrange(p.len() as int, p.len() as int + 22) =~= id_text(id));
    assert(v.subrange(v.len() - s.len(), v.len() as int) =~= s);
}

/// A valid PostgreSQL identifier is exactly a nonempty name that starts with a letter or `_`
/// and holds only letters (any Unicode letter, capitals included), digits 0-9, `_` and `$`.
pub proof fn law_valid_identifier_characters(name: Seq<char>)
    ensures
        crate::table_names::valid_identifier(name) <==> {
            &&& name.len() > 0
            &&& (crate::table_names::unicode_alphabetic(name[0]) || name[0] == '_')
            &&& forall|i: int|
                0 <= i < name.len() ==> {
                    let c = #[trigger] name[i];
                    crate::table_names::unicode_alphabetic(c) || 48 <= c as u32 <= 57 || c == '_' || c == '$'
                }
        },
{
    assert forall|i: int| 0 <= i < name.len() implies crate::table_names::identifier_char(name[i]) == ({
        let c = name[i];
        crate::table_names::unicode_alphabetic(c) || 48 <= c as u32 <= 57 || c == '_' || c == '$'
    }) by {}
}

} // verus!
