//! The cookie decisions of the session middleware.
//!
//! On a request, the middleware finds the session id in the request's `Cookie` headers. On the
//! response, it turns the last [`SessionUpdate`] recorded by the handler's session (or, for an
//! untouched session, the configured [`Config::always_set_expiry`]) into a `Set-Cookie`
//! header.
use crate::expires::{in_date_range, DateTime, Duration, Expiry};
use crate::id::{id_of_text, id_text, Id};
use crate::session::SessionUpdate;
use vstd::prelude::*;
use vstd::string::StringExecFns;

verus! {

/// The `SameSite` attribute of a cookie.
#[derive(Debug, Copy, Clone, PartialEq, Eq, Hash, Structural)]
pub enum SameSite {
    /// Sent only with same-site requests.
    Strict,
    /// Sent with same-site requests and cross-site top-level navigations.
    Lax,
    /// Sent with every request (`SameSite=None`).
    Unrestricted,
}

/// Reads and writes the session cookie in plain text: neither signed nor encrypted.
#[derive(Debug, Clone, Copy, PartialEq, Eq)]
pub struct PlaintextCookie;

/// The configuration options of the session middleware.
#[derive(Debug, Copy, Clone, PartialEq, Eq, Hash)]
pub struct Config<'a> {
    /// The name of the cookie.
    pub name: &'a str,
    /// Whether the cookie is HTTP only.
    pub http_only: bool,
    /// The `SameSite` policy.
    pub same_site: SameSite,
    /// Whether the cookie should be secure.
    pub secure: bool,
    /// The `Path` attribute of the cookie.
    pub path: &'a str,
    /// The `Domain` attribute of the cookie.
    pub domain: Option<&'a str>,
    /// If `None`, the cookie is only set when the session is modified. If `Some(expiry)`, the
    /// cookie of an unmodified session that came with the request is also set again, with this
    /// expiry. This manages the `Max-Age` attribute.
    pub always_set_expiry: Option<Expiry>,
}

impl Default for Config<'static> {
    fn default() -> (config: Self)
        ensures
            config.name@ == "id"@,
            config.http_only,
            config.same_site == SameSite::Strict,
            config.secure,
            config.path@ == "/"@,
            config.domain is None,
            config.always_set_expiry is None,
    {
        Config {
            name: "id",
            http_only: true,
            same_site: SameSite::Strict,
            secure: true,
            path: "/",
            domain: None,
            always_set_expiry: None,
        }
    }
}

/// A session cookie, as the middleware sets it.
#[derive(Debug, Clone, PartialEq, Eq)]
pub struct SessionCookie<'a> {
    /// The name of the cookie.
    pub name: &'a str,
    /// The value: the text of the session id, or empty.
    pub value: String,
    /// Whether the cookie is HTTP only.
    pub http_only: bool,
    /// The `SameSite` attribute.
    pub same_site: SameSite,
    /// Whether the cookie is secure.
    pub secure: bool,
    /// The `Path` attribute.
    pub path: &'a str,
    /// The `Domain` attribute.
    pub domain: Option<&'a str>,
    /// The `Max-Age` attribute; none for a cookie that ends with the browser session.
    pub max_age: Option<Duration>,
}

/// The decimal text of a natural number.
pub open spec fn natural_text(n: nat) -> Seq<char>
    decreases n,
{
    if n < 10 {
        seq![(('0' as int) + n) as char]
    } else {
        natural_text(n / 10).push((('0' as int) + n % 10) as char)
    }
}

/// The decimal text of an integer.
pub open spec fn integer_text(i: int) -> Seq<char> {
    if i < 0 {
        seq!['-'] + natural_text((-i) as nat)
    } else {
        natural_text(i as nat)
    }
}

/// The text of a `SameSite` attribute's value.
pub open spec fn same_site_text(same_site: SameSite) -> Seq<char> {
    match same_site {
        SameSite::Strict => "Strict"@,
        SameSite::Lax => "Lax"@,
        SameSite::Unrestricted => "None"@,
    }
}

/// A domain as the `Domain` attribute shows it: without a leading dot.
pub open spec fn shown_domain(domain: Seq<char>) -> Seq<char> {
    if domain.len() > 0 && domain[0] == '.' {
        domain.drop_first()
    } else {
        domain
    }
}

/// The `Set-Cookie` header value that the `cookie` crate writes for a cookie with these parts,
/// its `HttpOnly`, `SameSite` and `Secure` attributes set explicitly.
pub open spec fn set_cookie_text(
    name: Seq<char>,
    value: Seq<char>,
    http_only: bool,
    same_site: SameSite,
    secure: bool,
    path: Seq<char>,
    domain: Option<Seq<char>>,
    max_age_seconds: Option<int>,
) -> Seq<char> {
    name + "="@ + value + (if http_only {
        "; HttpOnly"@
    } else {
        Seq::empty()
    }) + "; SameSite="@ + same_site_text(same_site) + (if secure {
        "; Secure"@
    } else {
        Seq::empty()
    }) + "; Path="@ + path + (match domain {
        Some(d) => "; Domain="@ + shown_domain(d),
        None => Seq::empty(),
    }) + (match max_age_seconds {
        Some(s) => "; Max-Age="@ + integer_text(s),
        None => Seq::empty(),
    })
}

impl<'a> SessionCookie<'a> {
    /// The `Set-Cookie` header value of the cookie.
    pub open spec fn header_text(self) -> Seq<char> {
        set_cookie_text(
            self.name@,
            self.value@,
            self.http_only,
            self.same_site,
            self.secure,
            self.path@,
            match self.domain {
                Some(d) => Some(d@),
                None => None,
            },
            match self.max_age {
                Some(d) => Some(d.spec_whole_seconds() as int),
                None => None,
            },
        )
    }

    /// The `Set-Cookie` header value of the cookie.
    pub fn header_value(&self) -> (text: String)
        ensures
            text@ == self.header_text(),
    {
        format_set_cookie(self)
    }
}

/// Formats a session cookie as a `Set-Cookie` header value with the `cookie` crate:
/// `Cookie::new`, its setters, and its `Display` impl (`to_string`).
///
/// Trusted: the text is `name=value`, then `; HttpOnly` if HTTP only, `; SameSite=` and the
/// policy, `; Secure` if secure, `; Path=` and the path, `; Domain=` and the domain without a
/// leading dot if there is one, and `; Max-Age=` and the whole seconds of the maximum age if
/// there is one, as `Cookie::fmt_parameters` writes them.
#[verifier::external_body]
fn format_set_cookie(c: &SessionCookie) -> (text: String)
    ensures
        text@ == c.header_text(),
{
    let mut cookie = cookie::Cookie::new(c.name.to_string(), c.value.clone());
    cookie.set_http_only(c.http_only);
    cookie.set_same_site(match c.same_site {
        SameSite::Strict => cookie::SameSite::Strict,
        SameSite::Lax => cookie::SameSite::Lax,
        SameSite::Unrestricted => cookie::SameSite::None,
    });
    cookie.set_secure(c.secure);
    cookie.set_path(c.path.to_string());
    if let Some(domain) = c.domain {
        cookie.set_domain(domain.to_string());
    }
    cookie.set_max_age(c.max_age.map(|d| time::Duration::new(d.whole_seconds(), d.subsec_nanoseconds())));
    cookie.to_string()
}

/// The text a cookie value holds for a session id: the id's text, or empty.
pub open spec fn cookie_value_text(session_id: Option<Id>) -> Seq<char> {
    match session_id {
        Some(id) => id_text(id),
        None => Seq::empty(),
    }
}

/// `max_age` is the `Max-Age` of a cookie with the given expiry, at the instant `now_nanos`
/// (nanoseconds since the Unix epoch).
pub open spec fn max_age_at(expiry: Expiry, now_nanos: int, max_age: Option<Duration>) -> bool {
    match expiry {
        Expiry::OnSessionEnd => max_age is None,
        Expiry::OnInactivity(d) => max_age == Some(d),
        Expiry::AtDateTime(t) => max_age matches Some(m) && m.total_nanoseconds()
            == t.spec_unix_timestamp_nanos() - now_nanos,
    }
}

impl<'a> Config<'a> {
    /// `cookie` has the attributes of this configuration, the value for `session_id`, and the
    /// maximum age for `expiry` at the instant `now_nanos`.
    pub open spec fn builds(self, cookie: SessionCookie<'a>, session_id: Option<Id>, expiry: Expiry, now_nanos: int) -> bool {
        &&& cookie.name == self.name
        &&& cookie.value@ == cookie_value_text(session_id)
        &&& cookie.http_only == self.http_only
        &&& cookie.same_site == self.same_site
        &&& cookie.secure == self.secure
        &&& cookie.path == self.path
        &&& cookie.domain == self.domain
        &&& max_age_at(expiry, now_nanos, cookie.max_age)
    }

    /// The session cookie for `session_id` and `expiry`, with `now` as the current time.
    pub fn build_cookie_at(self, session_id: Option<Id>, expiry: Expiry, now: DateTime) -> (cookie: SessionCookie<'a>)
        ensures
            self.builds(cookie, session_id, expiry, now.spec_unix_timestamp_nanos()),
            cookie.name == self.name,
            cookie.http_only == self.http_only,
            cookie.same_site == self.same_site,
            cookie.secure == self.secure,
            cookie.path == self.path,
            cookie.domain == self.domain,
    {
        let value = match session_id {
            Some(id) => id.to_string(),
            None => String::new(),
        };
        let max_age = match expiry {
            Expiry::OnInactivity(duration) => Some(duration),
            Expiry::AtDateTime(datetime) => Some(datetime.since(now)),
            Expiry::OnSessionEnd => None,
        };
        SessionCookie {
            name: self.name,
            value,
            http_only: self.http_only,
            same_site: self.same_site,
            secure: self.secure,
            path: self.path,
            domain: self.domain,
            max_age,
        }
    }

    /// The session cookie for `session_id` and `expiry`, its maximum age taken at the current
    /// time.
    pub fn build_cookie(self, session_id: Option<Id>, expiry: Expiry) -> (cookie: SessionCookie<'a>)
        ensures
            exists|now_nanos: int| in_date_range(now_nanos) && #[trigger] self.builds(cookie, session_id, expiry, now_nanos),
    {
        let now = DateTime::now_utc();
        self.build_cookie_at(session_id, expiry, now)
    }
}

/// The update pending for the response's cookie once an operation that makes `update` is
/// recorded over `pending`: the operation's update replaces the pending one, and an operation
/// that makes none leaves it.
pub open spec fn recorded_after(pending: Option<SessionUpdate>, update: Option<SessionUpdate>) -> Option<
    SessionUpdate,
> {
    match update {
        Some(u) => Some(u),
        None => pending,
    }
}

/// Records the update of a session operation over the update pending for the response's
/// cookie.
pub fn record_update(pending: Option<SessionUpdate>, update: Option<SessionUpdate>) -> (recorded: Option<
    SessionUpdate,
>)
    ensures
        recorded == recorded_after(pending, update),
{
    match update {
        Some(u) => Some(u),
        None => pending,
    }
}

/// The update the response's cookie carries: the one the session recorded or else, for a
/// request that came with a session id, the configured `always_set_expiry` with that id.
pub open spec fn effective_update(
    recorded: Option<SessionUpdate>,
    always_set_expiry: Option<Expiry>,
    old_id: Option<Id>,
) -> Option<SessionUpdate> {
    match recorded {
        Some(update) => Some(update),
        None => match (always_set_expiry, old_id) {
            (Some(expiry), Some(id)) => Some(SessionUpdate::SetCookie(id, expiry)),
            _ => None,
        },
    }
}

/// The update the response's cookie carries: the one the session recorded or else, for a
/// request that came with a session id, the configured `always_set_expiry` with that id.
pub fn response_update(
    recorded: Option<SessionUpdate>,
    always_set_expiry: Option<Expiry>,
    old_id: Option<Id>,
) -> (update: Option<SessionUpdate>)
    ensures
        update == effective_update(recorded, always_set_expiry, old_id),
{
    match recorded {
        Some(update) => Some(update),
        None => match (always_set_expiry, old_id) {
            (Some(expiry), Some(id)) => Some(SessionUpdate::SetCookie(id, expiry)),
            _ => None,
        },
    }
}

/// The Unix time of 2000-01-01T00:00:00Z: a deleted session's cookie expires then.
pub const REMOVAL_UNIX_TIMESTAMP: i64 = 946684800i64;

/// The cookie that carries `update` for a request that came with `old_id`, at `now`.
///
/// A deletion gives a cookie for the old id that expired at the start of the year 2000; a
/// set gives a cookie for the new id with the new expiry.
pub open spec fn cookie_for_update<'a>(
    config: Config<'a>,
    cookie: SessionCookie<'a>,
    update: SessionUpdate,
    old_id: Option<Id>,
    now_nanos: int,
) -> bool {
    match update {
        SessionUpdate::Delete => exists|removal: DateTime|
            removal.spec_unix_timestamp_nanos() == REMOVAL_UNIX_TIMESTAMP * 1_000_000_000
                && #[trigger] config.builds(cookie, old_id, Expiry::AtDateTime(removal), now_nanos),
        SessionUpdate::SetCookie(id, expiry) => config.builds(cookie, Some(id), expiry, now_nanos),
    }
}

/// The cookie of the response, if any: for the update the session recorded or, failing that,
/// for the configured `always_set_expiry`; `now` is the current time.
pub fn response_cookie_at<'a>(
    config: Config<'a>,
    recorded: Option<SessionUpdate>,
    old_id: Option<Id>,
    now: DateTime,
) -> (cookie: Option<SessionCookie<'a>>)
    ensures
        match effective_update(recorded, config.always_set_expiry, old_id) {
            None => cookie is None,
            Some(update) => cookie matches Some(c) && cookie_for_update(
                config,
                c,
                update,
                old_id,
                now.spec_unix_timestamp_nanos(),
            ),
        },
{
    match response_update(recorded, config.always_set_expiry, old_id) {
        None => None,
        Some(SessionUpdate::Delete) => {
            match DateTime::from_unix_timestamp(REMOVAL_UNIX_TIMESTAMP) {
                Some(removal) => {
                    let c = config.build_cookie_at(old_id, Expiry::AtDateTime(removal), now);
                    assert(config.builds(c, old_id, Expiry::AtDateTime(removal), now.spec_unix_timestamp_nanos()));
                    Some(c)
                },
                None => None,
            }
        },
        Some(SessionUpdate::SetCookie(id, expiry)) => Some(config.build_cookie_at(Some(id), expiry, now)),
    }
}

/// The `Set-Cookie` header value of the response, if any, with its maximum age taken at the
/// current time.
pub fn response_set_cookie(
    config: Config,
    recorded: Option<SessionUpdate>,
    old_id: Option<Id>,
) -> (header: Option<String>)
    ensures
        effective_update(recorded, config.always_set_expiry, old_id) is None ==> header is None,
        effective_update(recorded, config.always_set_expiry, old_id) matches Some(update) ==> exists|
            c: SessionCookie,
            now_nanos: int,
        | #[trigger] cookie_for_update(config, c, update, old_id, now_nanos) && in_date_range(now_nanos)
            && (header matches Some(h) && h@ == c.header_text()),
{
    let now = DateTime::now_utc();
    match response_cookie_at(config, recorded, old_id, now) {
        Some(c) => {
            let text = c.header_value();
            Some(text)
        },
        None => None,
    }
}

/// The pieces of `s` between the occurrences of `separator`, as `str::split` gives them: one
/// more piece than there are separators, empty pieces included.
pub open spec fn split_pieces(s: Seq<char>, separator: char) -> Seq<Seq<char>>
    decreases s.len(),
{
    if s.len() == 0 {
        seq![Seq::<char>::empty()]
    } else {
        let before = split_pieces(s.drop_last(), separator);
        if s.last() == separator {
            before.push(Seq::empty())
        } else {
            before.update(before.len() - 1, before.last().push(s.last()))
        }
    }
}

/// There is always at least one piece.
pub proof fn lemma_split_pieces_nonempty(s: Seq<char>, separator: char)
    ensures
        split_pieces(s, separator).len() >= 1,
    decreases s.len(),
{
    if s.len() > 0 {
        lemma_split_pieces_nonempty(s.drop_last(), separator);
    }
}

/// The text of one piece is the same before and after splitting: a text without the separator
/// is a single piece.
pub proof fn lemma_split_pieces_single(s: Seq<char>, separator: char)
    requires
        !s.contains(separator),
    ensures
        split_pieces(s, separator) == seq![s],
    decreases s.len(),
{
    if s.len() > 0 {
        assert(!s.drop_last().contains(separator)) by {
            if s.drop_last().contains(separator) {
                let k = choose|k: int| 0 <= k < s.drop_last().len() && s.drop_last()[k] == separator;
                assert(s[k] == separator);
            }
        }
        lemma_split_pieces_single(s.drop_last(), separator);
        assert(s.last() != separator) by {
            assert(s[s.len() - 1] == s.last());
        }
        assert(s.drop_last().push(s.last()) =~= s);
        assert(split_pieces(s, separator) =~= seq![s]);
    } else {
        assert(s =~= Seq::<char>::empty());
    }
}

/// The first piece of a text is what comes before its first separator.
pub proof fn lemma_split_pieces_first(before: Seq<char>, after: Seq<char>, separator: char)
    requires
        !before.contains(separator),
        after.len() > 0,
        after[0] == separator,
    ensures
        split_pieces(before + after, separator).len() >= 2,
        split_pieces(before + after, separator)[0] == before,
    decreases after.len(),
{
    let s = before + after;
    if after.len() == 1 {
        assert(s.drop_last() =~= before);
        lemma_split_pieces_single(before, separator);
    } else {
        assert(s.drop_last() =~= before + after.drop_last());
        lemma_split_pieces_first(before, after.drop_last(), separator);
    }
}

/// Whether `c` may stand in a plain cookie name or value: an ASCII letter or digit, `-`, `_`
/// or `.`.
pub open spec fn is_plain_cookie_char(c: char) -> bool {
    ||| 48 <= c as u32 <= 57
    ||| 65 <= c as u32 <= 90
    ||| 97 <= c as u32 <= 122
    ||| c == '-'
    ||| c == '_'
    ||| c == '.'
}

/// Whether every character of `s` may stand in a plain cookie name or value.
pub open spec fn is_plain_cookie_text(s: Seq<char>) -> bool {
    forall|i: int| 0 <= i < s.len() ==> is_plain_cookie_char(#[trigger] s[i])
}

/// The text `name=value` after `spaces` spaces, as a piece of a `Cookie` header.
pub open spec fn plain_cookie_piece(spaces: nat, name: Seq<char>, value: Seq<char>) -> Seq<char> {
    Seq::new(spaces, |i: int| ' ') + name + seq!['='] + value
}

/// Whether `c` has the Unicode `White_Space` property, which `str::trim` strips: U+0009 to
/// U+000D, U+0020, U+0085, U+00A0, U+1680, U+2000 to U+200A, U+2028, U+2029, U+202F, U+205F
/// and U+3000.
pub open spec fn is_white_space(c: char) -> bool {
    let u = c as u32;
    ||| 0x9 <= u <= 0xD
    ||| u == 0x20
    ||| u == 0x85
    ||| u == 0xA0
    ||| u == 0x1680
    ||| 0x2000 <= u <= 0x200A
    ||| u == 0x2028
    ||| u == 0x2029
    ||| u == 0x202F
    ||| u == 0x205F
    ||| u == 0x3000
}

/// `s` without its leading white space.
pub open spec fn trim_start(s: Seq<char>) -> Seq<char>
    decreases s.len(),
{
    if s.len() > 0 && is_white_space(s[0]) {
        trim_start(s.drop_first())
    } else {
        s
    }
}

/// `s` without its trailing white space.
pub open spec fn trim_end(s: Seq<char>) -> Seq<char>
    decreases s.len(),
{
    if s.len() > 0 && is_white_space(s.last()) {
        trim_end(s.drop_last())
    } else {
        s
    }
}

/// `s` without its leading and trailing white space, as `str::trim` gives it.
pub open spec fn trimmed(s: Seq<char>) -> Seq<char> {
    trim_end(trim_start(s))
}

/// The index of the first `c` in `s`, if any.
pub open spec fn first_index_of(s: Seq<char>, c: char) -> Option<int>
    decreases s.len(),
{
    if s.len() == 0 {
        None
    } else if s[0] == c {
        Some(0)
    } else {
        match first_index_of(s.drop_first(), c) {
            Some(i) => Some(i + 1),
            None => None,
        }
    }
}

/// The name and value that `cookie::Cookie::parse` gives for `text` (its `name()` and
/// `value()`), `None` where it reports an error: the text before the first `;` is cut at its
/// first `=` (no `=` is an error), both sides trimmed, and an empty name is an error.
pub open spec fn cookie_pair_of(text: Seq<char>) -> Option<(Seq<char>, Seq<char>)> {
    let pair = split_pieces(text, ';')[0];
    match first_index_of(pair, '=') {
        None => None,
        Some(i) => {
            let name = trimmed(pair.subrange(0, i));
            let value = trimmed(pair.subrange(i + 1, pair.len() as int));
            if name.len() == 0 {
                None
            } else {
                Some((name, value))
            }
        },
    }
}

/// The first `c` in `before + seq![c] + after` is at the end of `before`, where `before` holds
/// no `c`.
pub proof fn lemma_first_index_of(before: Seq<char>, c: char, after: Seq<char>)
    requires
        !before.contains(c),
    ensures
        first_index_of(before + seq![c] + after, c) == Some(before.len() as int),
    decreases before.len(),
{
    let s = before + seq![c] + after;
    if before.len() > 0 {
        assert(before[0] != c);
        assert(!before.drop_first().contains(c)) by {
            if before.drop_first().contains(c) {
                let k = choose|k: int| 0 <= k < before.drop_first().len() && before.drop_first()[k] == c;
                assert(before[k + 1] == c);
            }
        }
        lemma_first_index_of(before.drop_first(), c, after);
        assert(s.drop_first() =~= before.drop_first() + seq![c] + after);
    }
}

/// Leading spaces are trimmed away, down to a text that does not start with white space.
pub proof fn lemma_trim_start_spaces(spaces: nat, t: Seq<char>)
    requires
        t.len() == 0 || !is_white_space(t[0]),
    ensures
        trim_start(Seq::new(spaces, |i: int| ' ') + t) == t,
    decreases spaces,
{
    let s = Seq::new(spaces, |i: int| ' ') + t;
    if spaces > 0 {
        assert(s[0] == ' ');
        assert(s.drop_first() =~= Seq::new((spaces - 1) as nat, |i: int| ' ') + t);
        lemma_trim_start_spaces((spaces - 1) as nat, t);
    } else {
        assert(s =~= t);
    }
}

/// Plain cookie text is left as it is by trimming.
pub proof fn lemma_trim_plain(t: Seq<char>)
    requires
        is_plain_cookie_text(t),
    ensures
        trimmed(t) == t,
{
    if t.len() > 0 {
        assert(is_plain_cookie_char(t[0]));
        assert(is_plain_cookie_char(t[t.len() - 1]));
    }
    lemma_trim_start_spaces(0, t);
    assert(Seq::new(0, |i: int| ' ') + t =~= t);
}

/// A plain cookie piece parses as its name and its value.
pub proof fn lemma_plain_cookie_pair(spaces: nat, name: Seq<char>, value: Seq<char>)
    requires
        name.len() > 0,
        is_plain_cookie_text(name),
        is_plain_cookie_text(value),
    ensures
        cookie_pair_of(plain_cookie_piece(spaces, name, value)) == Some((name, value)),
{
    let text = plain_cookie_piece(spaces, name, value);
    let head = Seq::new(spaces, |i: int| ' ') + name;
    lemma_plain_piece_parts(spaces, name, value);
    assert forall|k: int| 0 <= k < text.len() implies text[k] != ';' by {
        if k < spaces {
        } else if k < spaces + name.len() {
            assert(text[k] == name[k - spaces]);
        } else if k > spaces + name.len() {
            assert(text[k] == value[k - spaces - name.len() - 1]);
        }
    }
    assert(!text.contains(';'));
    lemma_split_pieces_single(text, ';');
    assert(!head.contains('=')) by {
        if head.contains('=') {
            let k = choose|k: int| 0 <= k < head.len() && head[k] == '=';
            assert(head[k] == text[k]);
            if k >= spaces {
                assert(is_plain_cookie_char(name[k - spaces]));
            }
        }
    }
    assert(text =~= head + seq!['='] + value);
    lemma_first_index_of(head, '=', value);
    assert(text.subrange(0, head.len() as int) =~= head);
    assert(is_plain_cookie_char(name[0]));
    lemma_trim_start_spaces(spaces, name);
    lemma_trim_plain(name);
    lemma_trim_plain(value);
    assert(text.subrange(head.len() as int + 1, text.len() as int) =~= value);
}

/// Where the spaces, the name, the `=` and the value of a plain cookie piece stand.
proof fn lemma_plain_piece_parts(spaces: nat, name: Seq<char>, value: Seq<char>)
    ensures
        plain_cookie_piece(spaces, name, value).len() == spaces + name.len() + 1 + value.len(),
        forall|k: int| 0 <= k < spaces ==> #[trigger] plain_cookie_piece(spaces, name, value)[k] == ' ',
        forall|k: int|
            0 <= k < name.len() ==> #[trigger] plain_cookie_piece(spaces, name, value)[spaces + k]
                == name[k],
        plain_cookie_piece(spaces, name, value)[spaces + name.len() as int] == '=',
        plain_cookie_piece(spaces, name, value).subrange(spaces as int, spaces + name.len() as int) == name,
        plain_cookie_piece(spaces, name, value).subrange(
            spaces + name.len() as int + 1,
            spaces + name.len() as int + 1 + value.len(),
        ) == value,
{
    let text = plain_cookie_piece(spaces, name, value);
    assert(text.subrange(spaces as int, spaces + name.len() as int) =~= name);
    assert(text.subrange(spaces + name.len() as int + 1, spaces + name.len() as int + 1 + value.len()) =~= value);
}

/// The views of a name and a value.
pub open spec fn pair_views(pair: Option<(String, String)>) -> Option<(Seq<char>, Seq<char>)> {
    match pair {
        Some((name, value)) => Some((name@, value@)),
        None => None,
    }
}

/// Parses one cookie with `cookie::Cookie::parse`, and hands back its name and value.
///
/// Trusted: as `parse_inner` in the crate's `parse.rs` does without percent-decoding, the
/// text before the first `;` is cut at its first `=`, both sides trimmed with `str::trim`;
/// no `=` (`MissingPair`) and an empty name (`EmptyName`) are its only errors, since the
/// attributes after the first `;` never make it fail.
#[verifier::external_body]
fn parse_cookie_pair(text: &str) -> (pair: Option<(String, String)>)
    ensures
        pair_views(pair) == cookie_pair_of(text@),
{
    match cookie::Cookie::parse(text) {
        Ok(c) => Some((c.name().to_string(), c.value().to_string())),
        Err(_) => None,
    }
}

/// Appends `c` to `s` (`String::push`).
///
/// Trusted: the string gains the character at its end.
#[verifier::external_body]
fn push_char(s: &mut String, c: char)
    ensures
        final(s)@ == old(s)@.push(c),
{
    s.push(c);
}

/// The value of the first of `pieces` that parses as a cookie named `name`.
pub open spec fn first_cookie_value(pieces: Seq<Seq<char>>, name: Seq<char>) -> Option<Seq<char>>
    decreases pieces.len(),
{
    if pieces.len() == 0 {
        None
    } else {
        match cookie_pair_of(pieces[0]) {
            Some(pair) => if pair.0 == name {
                Some(pair.1)
            } else {
                first_cookie_value(pieces.drop_first(), name)
            },
            None => first_cookie_value(pieces.drop_first(), name),
        }
    }
}

/// The value of the first cookie named `name` in the `Cookie` header values `headers`, each
/// split at `;`.
pub open spec fn first_cookie_value_in(headers: Seq<Seq<char>>, name: Seq<char>) -> Option<Seq<char>>
    decreases headers.len(),
{
    if headers.len() == 0 {
        None
    } else {
        match first_cookie_value(split_pieces(headers[0], ';'), name) {
            Some(value) => Some(value),
            None => first_cookie_value_in(headers.drop_first(), name),
        }
    }
}

/// The views of a sequence of strings.
pub open spec fn texts(strings: Seq<String>) -> Seq<Seq<char>> {
    strings.map_values(|s: String| s@)
}

/// The session id of a request with the `Cookie` header values `headers`: the first cookie
/// named `name`, if its value is the text of an id.
pub open spec fn request_session_id(headers: Seq<Seq<char>>, name: Seq<char>) -> Option<Id> {
    match first_cookie_value_in(headers, name) {
        Some(value) => id_of_text(value),
        None => None,
    }
}

/// The first `Cookie` header of a request begins with the cookie `name=` and the text of `id`,
/// the name plain and the rest of the header cut off at its first `;`.
pub open spec fn leads_with_session_cookie(headers: Seq<Seq<char>>, name: Seq<char>, id: Id) -> bool {
    &&& headers.len() > 0
    &&& cookie_pair_of(split_pieces(headers[0], ';')[0]) == Some((name, id_text(id)))
}

/// Splits `text` at every `;`, as `str::split` does.
pub fn split_semicolons(text: &str) -> (pieces: Vec<String>)
    ensures
        texts(pieces@) == split_pieces(text@, ';'),
{
    let mut pieces: Vec<String> = Vec::new();
    let mut current = String::new();
    let ghost mut seen: Seq<char> = Seq::empty();
    for c in it: text.chars()
        invariant
            seen == text@.subrange(0, it.index() as int),
            texts(pieces@).push(current@) == split_pieces(seen, ';'),
            it.seq() == text@,
    {
        proof {
            lemma_split_pieces_nonempty(seen, ';');
        }
        let ghost before = seen;
        if c == ';' {
            let piece = current;
            pieces.push(piece);
            current = String::new();
        } else {
            push_char(&mut current, c);
        }
        proof {
            seen = seen.push(c);
            assert(seen.drop_last() =~= before);
            assert(texts(pieces@).push(current@) =~= split_pieces(seen, ';'));
        }
    }
    proof {
        assert(seen =~= text@);
    }
    pieces.push(current);
    assert(texts(pieces@) =~= split_pieces(text@, ';'));
    pieces
}

/// The session id of a request: the first cookie named `name` in the `Cookie` header values
/// `headers` (each split at `;`), if its value is the text of an id.
pub fn session_id_from_cookie_headers(headers: &Vec<String>, name: &str) -> (id: Option<Id>)
    ensures
        id == request_session_id(texts(headers@), name@),
        // A request whose first cookie is the session cookie is read as that session's.
        forall|other: Id| #[trigger] leads_with_session_cookie(texts(headers@), name@, other) ==> id == Some(other),
{
    let wanted = String::from_str(name);
    let ghost all = texts(headers@);
    let ghost leads = exists|other: Id| #[trigger] leads_with_session_cookie(all, name@, other);
    let mut i: usize = 0;
    assert(all.skip(0) =~= all);
    while i < headers.len()
        invariant
            0 <= i <= headers.len(),
            wanted@ == name@,
            all == texts(headers@),
            leads == exists|other: Id| #[trigger] leads_with_session_cookie(all, name@, other),
            leads ==> i == 0,
            first_cookie_value_in(all, name@) == first_cookie_value_in(all.skip(i as int), name@),
        decreases headers.len() - i,
    {
        let pieces = split_semicolons(headers[i].as_str());
        let ghost ps = texts(pieces@);
        proof {
            assert(all.skip(i as int)[0] == headers@[i as int]@);
            lemma_split_pieces_nonempty(headers@[i as int]@, ';');
        }
        let mut j: usize = 0;
        assert(ps.skip(0) =~= ps);
        while j < pieces.len()
            invariant
                0 <= j <= pieces.len(),
                0 <= i < headers.len(),
                wanted@ == name@,
                all == texts(headers@),
                ps == texts(pieces@),
                ps == split_pieces(headers@[i as int]@, ';'),
                leads == exists|other: Id| #[trigger] leads_with_session_cookie(all, name@, other),
                leads ==> i == 0 && j == 0,
                first_cookie_value_in(all, name@) == first_cookie_value_in(all.skip(i as int), name@),
                first_cookie_value(ps, name@) == first_cookie_value(ps.skip(j as int), name@),
            decreases pieces.len() - j,
        {
            proof {
                assert(ps.skip(j as int)[0] == pieces@[j as int]@);
                assert(ps.skip(j as int).drop_first() =~= ps.skip(j as int + 1));
                if leads {
                    let other = choose|other: Id| #[trigger] leads_with_session_cookie(all, name@, other);
                    assert(all[0] == headers@[0]@);
                    assert(ps[0] == pieces@[0]@);
                }
            }
            match parse_cookie_pair(pieces[j].as_str()) {
                Some((cookie_name, cookie_value)) => {
                    if cookie_name == wanted {
                        return match Id::from_str(cookie_value.as_str()) {
                            Ok(id) => Some(id),
                            Err(_) => None,
                        };
                    }
                },
                None => {},
            }
            j = j + 1;
        }
        proof {
            assert(ps.skip(j as int) =~= Seq::<Seq<char>>::empty());
            assert(all.skip(i as int).drop_first() =~= all.skip(i as int + 1));
        }
        i = i + 1;
    }
    proof {
        assert(all.skip(i as int) =~= Seq::<Seq<char>>::empty());
    }
    None
}

} // verus!
