//! Building the request URL: splitting a base URL into scheme, authority and
//! base path, inserting the authentication as URL userinfo, and appending the
//! endpoint path and the query string.
//!
//! A base URL is taken as valid when it has the shape
//! `scheme "://" authority base-path`, with a non-empty scheme holding no
//! `/`, a non-empty authority, and no `?`, `#` or `@` anywhere (credentials
//! are inserted by the builder, never taken from the base URL). URL syntax
//! keeps these characters out of such a base URL by percent-encoding.

use vstd::prelude::*;

use crate::client::AuthMethod;
use crate::strutil::find_char_from;
use crate::strutil::find_from;
use crate::strutil::lacks_char;
use crate::strutil::lemma_find_from_at;
use crate::strutil::lemma_find_from_none;
use crate::strutil::lemma_find_from_spec;

verus! {

/// The index of the first `:` of `s`, which ends the scheme of a valid base
/// URL. Meaningful only when `s` holds a `:`.
pub open spec fn scheme_end(s: Seq<char>) -> int {
    find_from(s, ':', 0)->0
}

/// The index one past the authority of `s`: the first `/` after `"://"`, or
/// the end of `s`.
pub open spec fn authority_end(s: Seq<char>) -> int {
    match find_from(s, '/', scheme_end(s) + 3) {
        Some(j) => j,
        None => s.len() as int,
    }
}

/// Whether `s` is a base URL the builder accepts: `scheme "://" authority`
/// with an optional base path, a non-empty scheme holding no `/`, a
/// non-empty authority, and no `?`, `#` or `@` anywhere.
pub open spec fn is_valid_base_url(s: Seq<char>) -> bool {
    match find_from(s, ':', 0) {
        None => false,
        Some(i) => {
            &&& 1 <= i
            &&& i + 3 <= s.len()
            &&& s[i + 1] == '/'
            &&& s[i + 2] == '/'
            &&& (forall|k: int| 0 <= k < i ==> s[k] != '/')
            &&& authority_end(s) > i + 3
            &&& lacks_char(s, '?')
            &&& lacks_char(s, '#')
            &&& lacks_char(s, '@')
        },
    }
}

/// The scheme of a valid base URL, without the `"://"`.
pub open spec fn base_scheme(s: Seq<char>) -> Seq<char> {
    s.subrange(0, scheme_end(s))
}

/// The authority (host and optional port) of a valid base URL.
pub open spec fn base_authority(s: Seq<char>) -> Seq<char> {
    s.subrange(scheme_end(s) + 3, authority_end(s))
}

/// The path of a valid base URL: everything after the authority, possibly
/// empty.
pub open spec fn base_path(s: Seq<char>) -> Seq<char> {
    s.subrange(authority_end(s), s.len() as int)
}

/// The userinfo the builder embeds, without the closing `@`: for Basic
/// credentials `username ":" password`, for a bearer token
/// `"api_key:" token`.
pub open spec fn spec_userinfo_core(auth: Option<AuthMethod>) -> Seq<char> {
    match auth {
        None => Seq::empty(),
        Some(AuthMethod::Basic { username, password }) => username@ + ":"@ + password@,
        Some(AuthMethod::Bearer(token)) => "api_key:"@ + token@,
    }
}

/// The userinfo the builder embeds before the authority: empty when no
/// authentication is set, else the credentials followed by `@`.
pub open spec fn spec_userinfo(auth: Option<AuthMethod>) -> Seq<char> {
    match auth {
        None => Seq::empty(),
        Some(_) => spec_userinfo_core(auth) + "@"@,
    }
}

/// One query pair, written `key "=" value`.
pub open spec fn pair_str(k: Seq<char>, v: Seq<char>) -> Seq<char> {
    k + "="@ + v
}

/// All query pairs in order, separated by `&`.
pub open spec fn join_pairs(ps: Seq<(Seq<char>, Seq<char>)>) -> Seq<char>
    decreases ps.len(),
{
    if ps.len() == 0 {
        Seq::empty()
    } else if ps.len() == 1 {
        pair_str(ps[0].0, ps[0].1)
    } else {
        pair_str(ps[0].0, ps[0].1) + "&"@ + join_pairs(ps.drop_first())
    }
}

/// The query string: empty when there are no parameters, else `?` followed
/// by the pairs.
pub open spec fn spec_query(ps: Seq<(Seq<char>, Seq<char>)>) -> Seq<char> {
    if ps.len() == 0 {
        Seq::empty()
    } else {
        "?"@ + join_pairs(ps)
    }
}

/// The views of a parameter list's keys and values.
pub open spec fn params_view(ps: Seq<(String, String)>) -> Seq<(Seq<char>, Seq<char>)> {
    ps.map_values(|p: (String, String)| (p.0@, p.1@))
}

/// The URL the builder produces for a valid base URL: the base URL's scheme
/// and authority with the userinfo inserted between them, then the base
/// URL's path, the endpoint path, and the query string.
pub open spec fn spec_build_url(
    base: Seq<char>,
    path: Seq<char>,
    ps: Seq<(Seq<char>, Seq<char>)>,
    auth: Option<AuthMethod>,
) -> Seq<char> {
    base_scheme(base) + "://"@ + spec_userinfo(auth) + base_authority(base) + base_path(base)
        + path + spec_query(ps)
}

/// The pieces of `s` between the occurrences of `c`, in order.
pub open spec fn split_on(s: Seq<char>, c: char) -> Seq<Seq<char>>
    decreases s.len(),
    via split_on_decreases
{
    match find_from(s, c, 0) {
        None => seq![s],
        Some(i) => seq![s.subrange(0, i)] + split_on(s.subrange(i + 1, s.len() as int), c),
    }
}

#[via_fn]
proof fn split_on_decreases(s: Seq<char>, c: char) {
    lemma_find_from_spec(s, c, 0);
}

/// Appending one more pair joins it with an `&`.
proof fn lemma_join_push(ps: Seq<(Seq<char>, Seq<char>)>, p: (Seq<char>, Seq<char>))
    requires
        ps.len() > 0,
    ensures
        join_pairs(ps.push(p)) == join_pairs(ps) + "&"@ + pair_str(p.0, p.1),
    decreases ps.len(),
{
    assert(ps.push(p)[0] == ps[0]);
    if ps.len() == 1 {
        assert(ps.push(p).drop_first() =~= seq![p]);
        assert(join_pairs(seq![p]) == pair_str(p.0, p.1));
        assert(join_pairs(ps.push(p)) =~= join_pairs(ps) + "&"@ + pair_str(p.0, p.1));
    } else {
        lemma_join_push(ps.drop_first(), p);
        assert(ps.push(p).drop_first() =~= ps.drop_first().push(p));
        assert(join_pairs(ps.push(p)) =~= join_pairs(ps) + "&"@ + pair_str(p.0, p.1));
    }
}

/// Write the query string for the given parameters.
pub fn query_string(params: &Vec<(String, String)>) -> (r: String)
    ensures
        r@ == spec_query(params_view(params@)),
{
    let ghost ps = params_view(params@);
    let n = params.len();
    if n == 0 {
        return String::new();
    }
    let mut out = "?".to_owned();
    let mut i: usize = 0;
    while i < n
        invariant
            0 <= i <= n,
            n == params@.len(),
            ps == params_view(params@),
            ps.len() == n as nat,
            i == 0 ==> out@ == "?"@,
            i > 0 ==> out@ == "?"@ + join_pairs(ps.take(i as int)),
        decreases n - i,
    {
        assert(ps[i as int] == (params@[i as int].0@, params@[i as int].1@));
        if i > 0 {
            out.append("&");
        }
        let pair = &params[i];
        out.append(pair.0.as_str());
        out.append("=");
        out.append(pair.1.as_str());
        proof {
            if i == 0 {
                assert(ps.take(1).len() == 1);
                assert(ps.take(1)[0] == ps[0]);
                assert(out@ =~= "?"@ + join_pairs(ps.take(1)));
            } else {
                lemma_join_push(ps.take(i as int), ps[i as int]);
                assert(ps.take(i + 1) =~= ps.take(i as int).push(ps[i as int]));
                assert(out@ =~= "?"@ + join_pairs(ps.take(i + 1)));
            }
        }
        i = i + 1;
    }
    proof {
        assert(ps.take(n as int) =~= ps);
    }
    out
}

/// Write the userinfo for the given authentication method.
pub fn userinfo_string(auth: &Option<AuthMethod>) -> (r: String)
    ensures
        r@ == spec_userinfo(*auth),
{
    match auth {
        Option::None => String::new(),
        Option::Some(AuthMethod::Basic { username, password }) => {
            let mut s = username.clone();
            s.append(":");
            s.append(password.as_str());
            s.append("@");
            proof {
                assert(s@ =~= spec_userinfo(*auth));
            }
            s
        },
        Option::Some(AuthMethod::Bearer(token)) => {
            let mut s = "api_key:".to_owned();
            s.append(token.as_str());
            s.append("@");
            proof {
                assert(s@ =~= spec_userinfo(*auth));
            }
            s
        },
    }
}

/// The scheme of a built URL, read back: everything before the first `:`.
pub open spec fn url_scheme_of(u: Seq<char>) -> Seq<char> {
    match find_from(u, ':', 0) {
        Some(i) => u.subrange(0, i),
        None => u,
    }
}

/// Where the host part of a built URL starts: right after `"://"`.
pub open spec fn url_hostinfo_start(u: Seq<char>) -> int {
    find_from(u, ':', 0)->0 + 3
}

/// Where the host part of a built URL ends: at the next `/`, or at the end.
pub open spec fn url_hostinfo_end(u: Seq<char>) -> int {
    match find_from(u, '/', url_hostinfo_start(u)) {
        Some(j) => j,
        None => u.len() as int,
    }
}

/// The host part of a built URL: between `"://"` and the next `/`, the
/// userinfo included.
pub open spec fn url_hostinfo(u: Seq<char>) -> Seq<char> {
    u.subrange(url_hostinfo_start(u), url_hostinfo_end(u))
}

/// The userinfo of a built URL, read back: the host part up to its `@`,
/// empty when it has none.
pub open spec fn url_userinfo_of(u: Seq<char>) -> Seq<char> {
    match find_from(url_hostinfo(u), '@', 0) {
        Some(k) => url_hostinfo(u).subrange(0, k),
        None => Seq::empty(),
    }
}

/// The authority of a built URL, read back with the embedded credentials
/// ignored: the host part after its `@`, or all of it when it has none.
pub open spec fn url_authority_of(u: Seq<char>) -> Seq<char> {
    match find_from(url_hostinfo(u), '@', 0) {
        Some(k) => url_hostinfo(u).subrange(k + 1, url_hostinfo(u).len() as int),
        None => url_hostinfo(u),
    }
}

/// The path of a built URL, read back: from the end of the host part to
/// the first `?`, or to the end.
pub open spec fn url_path_of(u: Seq<char>) -> Seq<char> {
    match find_from(u, '?', url_hostinfo_end(u)) {
        Some(q) => u.subrange(url_hostinfo_end(u), q),
        None => u.subrange(url_hostinfo_end(u), u.len() as int),
    }
}

/// Credentials the userinfo lemmas accept: no `/` or `@`, which would move
/// where the host part ends or where the authority is read back from.
pub open spec fn auth_wf(auth: Option<AuthMethod>) -> bool {
    match auth {
        None => true,
        Some(AuthMethod::Basic { username, password }) => lacks_char(username@, '/')
            && lacks_char(username@, '@') && lacks_char(password@, '/') && lacks_char(
            password@,
            '@',
        ),
        Some(AuthMethod::Bearer(token)) => lacks_char(token@, '/') && lacks_char(token@, '@'),
    }
}

/// Build the full request URL from a base URL, an endpoint path, query
/// parameters and an authentication method. Nothing is returned when the
/// base URL is not one the builder accepts.
pub fn build_url_str(
    base: &str,
    path: &str,
    params: &Vec<(String, String)>,
    auth: &Option<AuthMethod>,
) -> (r: Option<String>)
    ensures
        (r is Some) == is_valid_base_url(base@),
        r is Some ==> r->0@ == spec_build_url(base@, path@, params_view(params@), *auth),
{
    let n = base.unicode_len();
    proof {
        lemma_find_from_spec(base@, ':', 0);
    }
    let colon = match find_char_from(base, ':', 0) {
        Some(i) => i,
        None => {
            return None;
        },
    };
    if colon < 1 {
        return None;
    }
    if n - colon < 3 {
        return None;
    }
    if base.get_char(colon + 1) != '/' {
        return None;
    }
    if base.get_char(colon + 2) != '/' {
        return None;
    }
    proof {
        lemma_find_from_spec(base@, '/', 0);
    }
    match find_char_from(base, '/', 0) {
        Some(j) => {
            if j != colon + 1 {
                // The first `/` comes before the scheme's end: the scheme
                // holds a `/`.
                return None;
            }
        },
        None => {
            assert(false);
            return None;
        },
    }
    if n - colon == 3 {
        // Nothing follows `"://"`: the authority is empty.
        assert(authority_end(base@) == colon + 3) by {
            lemma_find_from_spec(base@, '/', colon + 3);
        }
        return None;
    }
    proof {
        lemma_find_from_spec(base@, '/', colon + 3);
    }
    if base.get_char(colon + 3) == '/' {
        return None;
    }
    if let Some(_) = find_char_from(base, '?', 0) {
        proof {
            lemma_find_from_spec(base@, '?', 0);
        }
        return None;
    }
    if let Some(_) = find_char_from(base, '#', 0) {
        proof {
            lemma_find_from_spec(base@, '#', 0);
        }
        return None;
    }
    if let Some(_) = find_char_from(base, '@', 0) {
        proof {
            lemma_find_from_spec(base@, '@', 0);
        }
        return None;
    }
    proof {
        lemma_find_from_spec(base@, '?', 0);
        lemma_find_from_spec(base@, '#', 0);
        lemma_find_from_spec(base@, '@', 0);
        assert(authority_end(base@) > colon + 3);
        assert(is_valid_base_url(base@));
    }
    let p = colon + 3;
    let prefix = base.substring_char(0, p);
    let suffix = base.substring_char(p, n);
    let mut url = prefix.to_owned();
    let ui = userinfo_string(auth);
    url.append(ui.as_str());
    url.append(suffix);
    url.append(path);
    let q = query_string(params);
    url.append(q.as_str());
    proof {
        reveal_strlit("://");
        assert(base_scheme(base@) + "://"@ =~= base@.subrange(0, p as int));
        assert(colon + 3 <= authority_end(base@) <= base@.len());
        assert(base_authority(base@) + base_path(base@) =~= base@.subrange(
            p as int,
            base@.len() as int,
        ));
        assert(url@ =~= spec_build_url(base@, path@, params_view(params@), *auth));
    }
    Some(url)
}

/// What the URL builder keeps of a valid base URL. Reading the built URL
/// back: its scheme and its authority — embedded credentials ignored — are
/// the base URL's, its path is the base URL's path followed by the
/// endpoint's path, and its userinfo is exactly the embedded credentials.
pub proof fn lemma_url_parts(
    base: Seq<char>,
    path: Seq<char>,
    ps: Seq<(Seq<char>, Seq<char>)>,
    auth: Option<AuthMethod>,
)
    requires
        is_valid_base_url(base),
        path.len() > 0,
        path[0] == '/',
        lacks_char(path, '?'),
        auth_wf(auth),
    ensures
        ({
            let u = spec_build_url(base, path, ps, auth);
            &&& url_scheme_of(u) == base_scheme(base)
            &&& url_userinfo_of(u) == spec_userinfo_core(auth)
            &&& url_authority_of(u) == base_authority(base)
            &&& url_path_of(u) == base_path(base) + path
        }),
{
    reveal_strlit("://");
    reveal_strlit(":");
    reveal_strlit("@");
    reveal_strlit("api_key:");
    reveal_strlit("?");
    let i0 = scheme_end(base);
    lemma_find_from_spec(base, ':', 0);
    lemma_find_from_spec(base, '/', i0 + 3);
    let sch = base_scheme(base);
    let ui = spec_userinfo(auth);
    let core = spec_userinfo_core(auth);
    let au = base_authority(base);
    let bp = base_path(base);
    let q = spec_query(ps);
    let u = spec_build_url(base, path, ps, auth);
    let ae = authority_end(base);
    let s1 = i0 + 3;
    let s2 = s1 + ui.len();
    let s3 = s2 + au.len();
    let s4 = s3 + bp.len();
    let s5 = s4 + path.len();
    assert(sch.len() == i0);
    assert(i0 + 3 < ae <= base.len());
    assert(au.len() == ae - (i0 + 3));
    assert(bp.len() == base.len() - ae);
    assert(u.len() == s5 + q.len());
    // Where each piece of the built URL sits.
    assert(forall|k: int| 0 <= k < i0 ==> u[k] == sch[k]);
    assert(u[i0] == ':' && u[i0 + 1] == '/' && u[i0 + 2] == '/');
    assert(forall|k: int| 0 <= k < ui.len() ==> u[s1 + k] == ui[k]);
    assert(forall|k: int| 0 <= k < au.len() ==> u[s2 + k] == au[k]);
    assert(forall|k: int| 0 <= k < bp.len() ==> u[s3 + k] == bp[k]);
    assert(forall|k: int| 0 <= k < path.len() ==> u[s4 + k] == path[k]);
    assert(forall|k: int| 0 <= k < q.len() ==> u[s5 + k] == q[k]);
    // What characters each piece holds.
    assert(forall|k: int| 0 <= k < i0 ==> sch[k] != ':');
    assert(lacks_char(ui, '/') && lacks_char(core, '@')) by {
        match auth {
            None => {},
            Some(AuthMethod::Basic { username, password }) => {
                assert(forall|k: int| 0 <= k < ui.len() ==> ui[k] != '/');
                assert(forall|k: int| 0 <= k < core.len() ==> core[k] != '@');
            },
            Some(AuthMethod::Bearer(token)) => {
                assert(forall|k: int| 0 <= k < ui.len() ==> ui[k] != '/');
                assert(forall|k: int| 0 <= k < core.len() ==> core[k] != '@');
            },
        }
    }
    assert(forall|k: int| 0 <= k < au.len() ==> au[k] != '/' && au[k] != '@');
    assert(forall|k: int| 0 <= k < bp.len() ==> bp[k] != '?');
    // The scheme is read back unchanged.
    lemma_find_from_at(u, ':', 0, i0);
    assert(url_scheme_of(u) =~= sch);
    // The host part is read back as userinfo plus authority.
    assert(bp.len() > 0 ==> bp[0] == '/');
    assert(u[s3] == '/');
    assert(forall|k: int| s1 <= k < s3 ==> u[k] != '/');
    lemma_find_from_at(u, '/', s1, s3);
    assert(url_hostinfo_start(u) == s1);
    assert(url_hostinfo_end(u) == s3);
    let h = url_hostinfo(u);
    assert(h =~= ui + au);
    // The userinfo ends at its `@`, and the authority follows it.
    match auth {
        None => {
            assert(h =~= au);
            lemma_find_from_none(h, '@', 0);
            assert(url_userinfo_of(u) =~= core);
            assert(url_authority_of(u) =~= au);
        },
        Some(_) => {
            assert(ui =~= core + "@"@);
            assert(h[core.len() as int] == '@');
            assert(forall|k: int| 0 <= k < core.len() ==> h[k] != '@');
            lemma_find_from_at(h, '@', 0, core.len() as int);
            assert(url_userinfo_of(u) =~= core);
            assert(url_authority_of(u) =~= au);
        },
    }
    // The path is read back as the two paths concatenated.
    if ps.len() == 0 {
        assert(q.len() == 0);
        assert(forall|k: int| s3 <= k < u.len() ==> u[k] != '?');
        lemma_find_from_none(u, '?', s3);
        assert(url_path_of(u) =~= bp + path);
    } else {
        assert(q[0] == '?');
        assert(u[s5] == '?');
        assert(forall|k: int| s3 <= k < s5 ==> u[k] != '?');
        lemma_find_from_at(u, '?', s3, s5);
        assert(url_path_of(u) =~= bp + path);
    }
}

/// Every key-value pair appears in the query string exactly once, written
/// `key "=" value` and separated from the next by `&`: cutting the joined
/// pairs at the `&`s gives back exactly one piece per pair, in order.
pub proof fn lemma_query_pairs_exact(ps: Seq<(Seq<char>, Seq<char>)>)
    requires
        ps.len() > 0,
        forall|i: int| 0 <= i < ps.len() ==> lacks_char(#[trigger] (ps[i].0), '&') && lacks_char(
            ps[i].1,
            '&',
        ),
    ensures
        spec_query(ps) == "?"@ + join_pairs(ps),
        split_on(join_pairs(ps), '&').len() == ps.len(),
        forall|i: int| 0 <= i < ps.len() ==> #[trigger] split_on(join_pairs(ps), '&')[i]
            == pair_str(ps[i].0, ps[i].1),
    decreases ps.len(),
{
    reveal_strlit("=");
    reveal_strlit("&");
    let j = join_pairs(ps);
    let p0 = pair_str(ps[0].0, ps[0].1);
    assert(forall|k: int| 0 <= k < p0.len() ==> p0[k] != '&');
    if ps.len() == 1 {
        assert(j == p0);
        lemma_find_from_none(j, '&', 0);
        assert(split_on(j, '&') =~= seq![j]);
    } else {
        let rest = join_pairs(ps.drop_first());
        assert(j == p0 + "&"@ + rest);
        assert(j[p0.len() as int] == '&');
        assert(forall|k: int| 0 <= k < p0.len() ==> j[k] == p0[k]);
        lemma_find_from_at(j, '&', 0, p0.len() as int);
        assert(j.subrange(0, p0.len() as int) =~= p0);
        assert(j.subrange(p0.len() as int + 1, j.len() as int) =~= rest);
        assert(forall|i: int| 0 <= i < ps.drop_first().len() ==> lacks_char(
            #[trigger] (ps.drop_first()[i].0),
            '&',
        ) && lacks_char(ps.drop_first()[i].1, '&')) by {
            assert(forall|i: int| 0 <= i < ps.drop_first().len() ==> ps.drop_first()[i] == ps[
                i + 1
            ]);
        }
        lemma_query_pairs_exact(ps.drop_first());
        assert(split_on(j, '&') == seq![p0] + split_on(rest, '&'));
        assert(forall|i: int| 1 <= i < ps.len() ==> #[trigger] split_on(j, '&')[i] == split_on(
            rest,
            '&',
        )[i - 1]);
        assert(forall|i: int| 1 <= i < ps.len() ==> #[trigger] split_on(rest, '&')[i - 1]
            == pair_str(ps.drop_first()[i - 1].0, ps.drop_first()[i - 1].1));
        assert(forall|i: int| 0 <= i < ps.drop_first().len() ==> ps.drop_first()[i] == ps[i + 1]);
    }
}

} // verus!
