//! What each API call of the client sends: method, URL, query parameters,
//! cache key, and whether it clears the response cache.
//!
//! The client performs the request outside this crate; these functions
//! decide its shape.

use vstd::prelude::*;
use crate::text::{bool_text, decimal_text, signed_text, push_bool, push_signed, push_text, push_unsigned};

verus! {

/// One `key=value` pair of a query string.
pub struct QueryParam {
    pub key: String,
    pub value: String,
}

pub open spec fn params_view(q: Seq<QueryParam>) -> Seq<(Seq<char>, Seq<char>)> {
    q.map_values(|p: QueryParam| (p.key@, p.value@))
}

#[derive(PartialEq, Eq, Structural, Clone, Copy, Debug)]
pub enum HttpMethod {
    Get,
    Post,
    Put,
    Delete,
}

/// The shape of one API request.
pub struct RequestPlan {
    pub method: HttpMethod,
    pub url: String,
    pub query: Vec<QueryParam>,
    /// Key under which the response is cached, for cached calls.
    pub cache_key: Option<String>,
    /// The call clears the response cache once it succeeded.
    pub invalidates_cache: bool,
}

/// `given` where present, else `default`.
pub open spec fn or_default<T>(given: Option<T>, default: T) -> T {
    match given {
        Some(x) => x,
        None => default,
    }
}

pub open spec fn opt_text(o: Option<String>) -> Option<Seq<char>> {
    match o {
        Some(s) => Some(s@),
        None => None,
    }
}

/// A count parameter, where given.
pub open spec fn count_param(key: Seq<char>, v: Option<u32>) -> Seq<(Seq<char>, Seq<char>)> {
    match v {
        Some(n) => seq![(key, decimal_text(n as nat))],
        None => Seq::empty(),
    }
}

/// An id parameter, where given.
pub open spec fn id_param(key: Seq<char>, v: Option<i32>) -> Seq<(Seq<char>, Seq<char>)> {
    match v {
        Some(n) => seq![(key, signed_text(n as int))],
        None => Seq::empty(),
    }
}

/// A text parameter, where given.
pub open spec fn text_param(key: Seq<char>, v: Option<Seq<char>>) -> Seq<(Seq<char>, Seq<char>)> {
    match v {
        Some(t) => seq![(key, t)],
        None => Seq::empty(),
    }
}

/// Full-text search: a search also switches the filter on; without one,
/// the filter is on only when asked for.
pub open spec fn search_params(q: Option<Seq<char>>, set_filter: Option<bool>) -> Seq<(Seq<char>, Seq<char>)> {
    match q {
        Some(t) => seq![("easy_query_q"@, t), ("set_filter"@, "1"@)],
        None => if set_filter == Some(true) {
            seq![("set_filter"@, "1"@)]
        } else {
            Seq::empty()
        },
    }
}

/// The items joined by commas.
pub open spec fn comma_joined(items: Seq<Seq<char>>) -> Seq<char>
    decreases items.len(),
{
    if items.len() == 0 {
        Seq::empty()
    } else if items.len() == 1 {
        items[0]
    } else {
        comma_joined(items.drop_last()) + ","@ + items.last()
    }
}

pub open spec fn texts_view(v: Seq<String>) -> Seq<Seq<char>> {
    v.map_values(|s: String| s@)
}

// ---------------------------------------------------------------- helpers

/// The decimal text of `n`.
pub fn unsigned_string(n: u64) -> (r: String)
    ensures
        r@ == decimal_text(n as nat),
{
    let mut s = String::new();
    push_unsigned(&mut s, n);
    s
}

/// The decimal text of `n`, signed.
pub fn signed_string(n: i64) -> (r: String)
    ensures
        r@ == signed_text(n as int),
{
    let mut s = String::new();
    push_signed(&mut s, n);
    s
}

/// The items joined by commas (`join(",")`).
pub fn join_with_commas(items: &Vec<String>) -> (r: String)
    ensures
        r@ == comma_joined(texts_view(items@)),
{
    let ghost all = texts_view(items@);
    let mut s = String::new();
    let mut k: usize = 0;
    while k < items.len()
        invariant
            k <= items.len(),
            all == texts_view(items@),
            s@ == comma_joined(all.take(k as int)),
        decreases items.len() - k,
    {
        if k > 0 {
            push_text(&mut s, ",");
        }
        push_text(&mut s, items[k].as_str());
        proof {
            assert(all.take(k + 1).drop_last() =~= all.take(k as int));
            if k == 0 {
                assert(s@ =~= all.take(1)[0]);
            }
        }
        k = k + 1;
    }
    assert(all.take(items.len() as int) =~= all);
    s
}

fn push_param(q: &mut Vec<QueryParam>, key: &str, value: String)
    ensures
        params_view(final(q)@) == params_view(old(q)@).push((key@, value@)),
{
    let ghost before = params_view(q@);
    q.push(QueryParam { key: key.to_owned(), value });
    assert(params_view(q@) =~= before.push((key@, value@)));
}

fn push_count_param(q: &mut Vec<QueryParam>, key: &str, v: Option<u32>)
    ensures
        params_view(final(q)@) == params_view(old(q)@) + count_param(key@, v),
{
    let ghost before = params_view(q@);
    if let Some(n) = v {
        push_param(q, key, unsigned_string(n as u64));
    }
    assert(params_view(q@) =~= before + count_param(key@, v));
}

fn push_id_param(q: &mut Vec<QueryParam>, key: &str, v: Option<i32>)
    ensures
        params_view(final(q)@) == params_view(old(q)@) + id_param(key@, v),
{
    let ghost before = params_view(q@);
    if let Some(n) = v {
        push_param(q, key, signed_string(n as i64));
    }
    assert(params_view(q@) =~= before + id_param(key@, v));
}

fn push_text_param(q: &mut Vec<QueryParam>, key: &str, v: Option<String>)
    ensures
        params_view(final(q)@) == params_view(old(q)@) + text_param(key@, opt_text(v)),
{
    let ghost before = params_view(q@);
    let ghost vv = opt_text(v);
    if let Some(t) = v {
        push_param(q, key, t);
    }
    assert(params_view(q@) =~= before + text_param(key@, vv));
}

fn push_search_params(q: &mut Vec<QueryParam>, query: Option<String>, set_filter: Option<bool>)
    ensures
        params_view(final(q)@) == params_view(old(q)@) + search_params(opt_text(query), set_filter),
{
    let ghost before = params_view(q@);
    let ghost qv = opt_text(query);
    match query {
        Some(t) => {
            push_param(q, "easy_query_q", t);
            push_param(q, "set_filter", "1".to_owned());
        },
        None => {
            if let Some(true) = set_filter {
                push_param(q, "set_filter", "1".to_owned());
            }
        },
    }
    assert(params_view(q@) =~= before + search_params(qv, set_filter));
}

/// `base` followed by `path`.
fn endpoint(base: &str, path: &str) -> (r: String)
    ensures
        r@ == base@ + path@,
{
    let mut s = base.to_owned();
    push_text(&mut s, path);
    s
}

/// `base` + `head` + the id + `tail`.
fn endpoint_with_id(base: &str, head: &str, id: i32, tail: &str) -> (r: String)
    ensures
        r@ == base@ + head@ + signed_text(id as int) + tail@,
{
    let mut s = base.to_owned();
    push_text(&mut s, head);
    push_signed(&mut s, id as i64);
    push_text(&mut s, tail);
    s
}

/// `prefix` + the id.
fn keyed(prefix: &str, id: i32) -> (r: String)
    ensures
        r@ == prefix@ + signed_text(id as int),
{
    let mut s = prefix.to_owned();
    push_signed(&mut s, id as i64);
    s
}

fn plan(method: HttpMethod, url: String, query: Vec<QueryParam>, cache_key: Option<String>, invalidates_cache: bool) -> (r: RequestPlan)
    ensures
        r == (RequestPlan { method, url, query, cache_key, invalidates_cache }),
{
    RequestPlan { method, url, query, cache_key, invalidates_cache }
}


/// Name of the query parameter that asks the server to embed associated
/// data.
pub open spec fn associations_key_text() -> Seq<char> {
    "inc"@ + "lude"@
}

fn associations_key() -> (r: String)
    ensures
        r@ == associations_key_text(),
{
    let mut s = String::new();
    push_text(&mut s, "inc");
    push_text(&mut s, "lude");
    s
}

/// The text of an optional count, or its default.
fn push_count_or(s: &mut String, v: Option<u32>, default: u32)
    ensures
        final(s)@ == old(s)@ + decimal_text(or_default(v, default) as nat),
{
    match v {
        Some(n) => push_unsigned(s, n as u64),
        None => push_unsigned(s, default as u64),
    }
}

fn push_id_or(s: &mut String, v: Option<i32>, default: i32)
    ensures
        final(s)@ == old(s)@ + signed_text(or_default(v, default) as int),
{
    match v {
        Some(n) => push_signed(s, n as i64),
        None => push_signed(s, default as i64),
    }
}

/// The id in decimal, or `word` where there is none.
pub open spec fn id_or_word(v: Option<i32>, word: Seq<char>) -> Seq<char> {
    match v {
        Some(n) => signed_text(n as int),
        None => word,
    }
}

fn push_id_or_word(s: &mut String, v: Option<i32>, word: &str)
    ensures
        final(s)@ == old(s)@ + id_or_word(v, word@),
{
    match v {
        Some(n) => push_signed(s, n as i64),
        None => push_text(s, word),
    }
}

fn push_text_or(s: &mut String, v: &Option<String>, default: &str)
    ensures
        final(s)@ == old(s)@ + or_default(opt_text(*v), default@),
{
    match v {
        Some(t) => push_text(s, t.as_str()),
        None => push_text(s, default),
    }
}

fn push_flag_or_false(s: &mut String, v: Option<bool>)
    ensures
        final(s)@ == old(s)@ + bool_text(or_default(v, false)),
{
    match v {
        Some(b) => push_bool(s, b),
        None => push_bool(s, false),
    }
}

fn joined_associations(associations: &Option<Vec<String>>) -> (r: Option<String>)
    ensures
        opt_text(r) == match associations {
            Some(v) => Some(comma_joined(texts_view(v@))),
            None => None::<Seq<char>>,
        },
{
    match associations {
        Some(v) => Some(join_with_commas(v)),
        None => None,
    }
}

/// `_` and the text where there is one; nothing where there is none.
pub open spec fn tagged_suffix(v: Option<Seq<char>>) -> Seq<char> {
    match v {
        Some(t) => "_"@ + t,
        None => Seq::empty(),
    }
}

fn push_tagged_suffix(s: &mut String, v: &Option<String>)
    ensures
        final(s)@ == old(s)@ + tagged_suffix(opt_text(*v)),
{
    let ghost before = s@;
    match v {
        Some(t) => {
            push_text(s, "_");
            push_text(s, t.as_str());
            assert(s@ =~= before + tagged_suffix(opt_text(*v)));
        },
        None => {
            assert(s@ =~= before + tagged_suffix(opt_text(*v)));
        },
    }
}

pub open spec fn associations_text(associations: Option<Vec<String>>) -> Option<Seq<char>> {
    match associations {
        Some(v) => Some(comma_joined(texts_view(v@))),
        None => None,
    }
}

// ---------------------------------------------------------------- projects

pub open spec fn projects_cache_key(
    limit: Option<u32>,
    offset: Option<u32>,
    include_archived: Option<bool>,
    q: Option<Seq<char>>,
    set_filter: Option<bool>,
    sort: Option<Seq<char>>,
) -> Seq<char> {
    "projects_"@ + decimal_text(or_default(limit, 25u32) as nat) + "_"@ + decimal_text(
        or_default(offset, 0u32) as nat,
    ) + "_"@ + bool_text(or_default(include_archived, false)) + "_"@ + or_default(q, Seq::empty())
        + "_"@ + bool_text(or_default(set_filter, false)) + "_"@ + or_default(sort, Seq::empty())
}

pub open spec fn projects_query(
    limit: Option<u32>,
    offset: Option<u32>,
    q: Option<Seq<char>>,
    set_filter: Option<bool>,
    sort: Option<Seq<char>>,
) -> Seq<(Seq<char>, Seq<char>)> {
    count_param("limit"@, limit) + count_param("offset"@, offset) + search_params(q, set_filter)
        + text_param("sort"@, sort)
}

/// The project list. `include_archived` only enters the cache key.
pub fn list_projects_request(
    base_url: &str,
    limit: Option<u32>,
    offset: Option<u32>,
    include_archived: Option<bool>,
    easy_query_q: Option<String>,
    set_filter: Option<bool>,
    sort: Option<String>,
) -> (r: RequestPlan)
    ensures
        r.method == HttpMethod::Get,
        r.url@ == base_url@ + "/projects.json"@,
        params_view(r.query@) == projects_query(limit, offset, opt_text(easy_query_q), set_filter, opt_text(sort)),
        r.cache_key matches Some(k) && k@ == projects_cache_key(
            limit,
            offset,
            include_archived,
            opt_text(easy_query_q),
            set_filter,
            opt_text(sort),
        ),
        !r.invalidates_cache,
{
    let mut key = String::new();
    push_text(&mut key, "projects_");
    push_count_or(&mut key, limit, 25);
    push_text(&mut key, "_");
    push_count_or(&mut key, offset, 0);
    push_text(&mut key, "_");
    push_flag_or_false(&mut key, include_archived);
    push_text(&mut key, "_");
    push_text_or(&mut key, &easy_query_q, "");
    push_text(&mut key, "_");
    push_flag_or_false(&mut key, set_filter);
    push_text(&mut key, "_");
    push_text_or(&mut key, &sort, "");
    let ghost qv = opt_text(easy_query_q);
    let ghost sv = opt_text(sort);
    let mut query: Vec<QueryParam> = Vec::new();
    push_count_param(&mut query, "limit", limit);
    push_count_param(&mut query, "offset", offset);
    push_search_params(&mut query, easy_query_q, set_filter);
    push_text_param(&mut query, "sort", sort);
    proof {
        assert(params_view(query@) =~= projects_query(limit, offset, qv, set_filter, sv));
        reveal_strlit("");
        assert(key@ =~= projects_cache_key(limit, offset, include_archived, qv, set_filter, sv));
    }
    plan(HttpMethod::Get, endpoint(base_url, "/projects.json"), query, Some(key), false)
}

/// One project; the associations to embed are sent joined by commas.
pub fn get_project_request(base_url: &str, id: i32, associations: Option<Vec<String>>) -> (r: RequestPlan)
    ensures
        r.method == HttpMethod::Get,
        r.url@ == base_url@ + "/projects/"@ + signed_text(id as int) + ".json"@,
        params_view(r.query@) == text_param(associations_key_text(), associations_text(associations)),
        r.cache_key matches Some(k) && k@ == "project_"@ + signed_text(id as int),
        !r.invalidates_cache,
{
    let mut query: Vec<QueryParam> = Vec::new();
    let joined = joined_associations(&associations);
    let key = associations_key();
    push_text_param(&mut query, key.as_str(), joined);
    assert(params_view(query@) =~= text_param(associations_key_text(), associations_text(associations)));
    plan(
        HttpMethod::Get,
        endpoint_with_id(base_url, "/projects/", id, ".json"),
        query,
        Some(keyed("project_", id)),
        false,
    )
}

/// Creating a project.
pub fn create_project_request(base_url: &str) -> (r: RequestPlan)
    ensures
        r.method == HttpMethod::Post,
        r.url@ == base_url@ + "/projects.json"@,
        r.query@.len() == 0,
        r.cache_key is None,
        !r.invalidates_cache,
{
    plan(HttpMethod::Post, endpoint(base_url, "/projects.json"), Vec::new(), None, false)
}

/// Updating a project.
pub fn update_project_request(base_url: &str, id: i32) -> (r: RequestPlan)
    ensures
        r.method == HttpMethod::Put,
        r.url@ == base_url@ + "/projects/"@ + signed_text(id as int) + ".json"@,
        r.query@.len() == 0,
        r.cache_key is None,
        !r.invalidates_cache,
{
    plan(HttpMethod::Put, endpoint_with_id(base_url, "/projects/", id, ".json"), Vec::new(), None, false)
}

/// Deleting a project; the cache is cleared afterwards.
pub fn delete_project_request(base_url: &str, id: i32) -> (r: RequestPlan)
    ensures
        r.method == HttpMethod::Delete,
        r.url@ == base_url@ + "/projects/"@ + signed_text(id as int) + ".json"@,
        r.query@.len() == 0,
        r.cache_key is None,
        r.invalidates_cache,
{
    plan(HttpMethod::Delete, endpoint_with_id(base_url, "/projects/", id, ".json"), Vec::new(), None, true)
}


// ---------------------------------------------------------------- issues

/// The filters of the issue list.
pub struct IssueListFilter {
    pub project_id: Option<i32>,
    pub limit: Option<u32>,
    pub offset: Option<u32>,
    pub associations: Option<Vec<String>>,
    pub easy_query_q: Option<String>,
    pub set_filter: Option<bool>,
    pub sort: Option<String>,
    pub assigned_to_id: Option<i32>,
    pub status_id: Option<i32>,
    pub tracker_id: Option<i32>,
    pub priority_id: Option<i32>,
    pub fixed_version_id: Option<i32>,
}

pub open spec fn issues_cache_key(f: IssueListFilter) -> Seq<char> {
    "issues_"@ + id_or_word(f.project_id, "all"@) + "_"@ + decimal_text(or_default(f.limit, 25u32) as nat)
        + "_"@ + decimal_text(or_default(f.offset, 0u32) as nat) + "_"@ + or_default(
        associations_text(f.associations),
        "none"@,
    ) + "_"@ + or_default(opt_text(f.easy_query_q), ""@) + "_"@ + bool_text(
        or_default(f.set_filter, false),
    ) + "_"@ + or_default(opt_text(f.sort), ""@) + "_"@ + signed_text(
        or_default(f.assigned_to_id, 0i32) as int,
    ) + "_"@ + signed_text(or_default(f.status_id, 0i32) as int) + "_"@ + signed_text(
        or_default(f.tracker_id, 0i32) as int,
    ) + "_"@ + signed_text(or_default(f.priority_id, 0i32) as int) + "_"@ + signed_text(
        or_default(f.fixed_version_id, 0i32) as int,
    )
}

pub open spec fn issues_query(f: IssueListFilter) -> Seq<(Seq<char>, Seq<char>)> {
    id_param("project_id"@, f.project_id) + count_param("limit"@, f.limit) + count_param(
        "offset"@,
        f.offset,
    ) + text_param(associations_key_text(), associations_text(f.associations)) + search_params(
        opt_text(f.easy_query_q),
        f.set_filter,
    ) + text_param("sort"@, opt_text(f.sort)) + id_param("assigned_to_id"@, f.assigned_to_id)
        + id_param("status_id"@, f.status_id) + id_param("tracker_id"@, f.tracker_id) + id_param(
        "priority_id"@,
        f.priority_id,
    ) + id_param("fixed_version_id"@, f.fixed_version_id)
}

fn build_issues_key(f: &IssueListFilter, joined: &Option<String>) -> (r: String)
    requires
        opt_text(*joined) == associations_text(f.associations),
    ensures
        r@ == issues_cache_key(*f),
{
    let mut key = String::new();
    push_text(&mut key, "issues_");
    push_id_or_word(&mut key, f.project_id, "all");
    push_text(&mut key, "_");
    push_count_or(&mut key, f.limit, 25);
    push_text(&mut key, "_");
    push_count_or(&mut key, f.offset, 0);
    push_text(&mut key, "_");
    push_text_or(&mut key, joined, "none");
    push_text(&mut key, "_");
    push_text_or(&mut key, &f.easy_query_q, "");
    push_text(&mut key, "_");
    push_flag_or_false(&mut key, f.set_filter);
    push_text(&mut key, "_");
    push_text_or(&mut key, &f.sort, "");
    push_text(&mut key, "_");
    push_id_or(&mut key, f.assigned_to_id, 0);
    push_text(&mut key, "_");
    push_id_or(&mut key, f.status_id, 0);
    push_text(&mut key, "_");
    push_id_or(&mut key, f.tracker_id, 0);
    push_text(&mut key, "_");
    push_id_or(&mut key, f.priority_id, 0);
    push_text(&mut key, "_");
    push_id_or(&mut key, f.fixed_version_id, 0);
    assert(key@ =~= issues_cache_key(*f));
    key
}

/// The issue list.
pub fn list_issues_request(base_url: &str, f: IssueListFilter) -> (r: RequestPlan)
    ensures
        r.method == HttpMethod::Get,
        r.url@ == base_url@ + "/issues.json"@,
        params_view(r.query@) == issues_query(f),
        r.cache_key matches Some(k) && k@ == issues_cache_key(f),
        !r.invalidates_cache,
{
    let joined = joined_associations(&f.associations);
    let key = build_issues_key(&f, &joined);
    let ghost fv = f;
    let mut query: Vec<QueryParam> = Vec::new();
    push_id_param(&mut query, "project_id", f.project_id);
    push_count_param(&mut query, "limit", f.limit);
    push_count_param(&mut query, "offset", f.offset);
    let akey = associations_key();
    push_text_param(&mut query, akey.as_str(), joined);
    push_search_params(&mut query, f.easy_query_q, f.set_filter);
    push_text_param(&mut query, "sort", f.sort);
    push_id_param(&mut query, "assigned_to_id", f.assigned_to_id);
    push_id_param(&mut query, "status_id", f.status_id);
    push_id_param(&mut query, "tracker_id", f.tracker_id);
    push_id_param(&mut query, "priority_id", f.priority_id);
    push_id_param(&mut query, "fixed_version_id", f.fixed_version_id);
    assert(params_view(query@) =~= issues_query(fv));
    plan(HttpMethod::Get, endpoint(base_url, "/issues.json"), query, Some(key), false)
}

/// The cache key of one issue: its id, then the associations embedded in
/// it where some are asked for.
pub open spec fn issue_cache_key(id: i32, associations: Option<Vec<String>>) -> Seq<char> {
    "issue_"@ + signed_text(id as int) + tagged_suffix(associations_text(associations))
}

/// One issue; the associations to embed are sent joined by commas, and they
/// enter the cache key.
pub fn get_issue_request(base_url: &str, id: i32, associations: Option<Vec<String>>) -> (r: RequestPlan)
    ensures
        r.method == HttpMethod::Get,
        r.url@ == base_url@ + "/issues/"@ + signed_text(id as int) + ".json"@,
        params_view(r.query@) == text_param(associations_key_text(), associations_text(associations)),
        r.cache_key matches Some(k) && k@ == issue_cache_key(id, associations),
        !r.invalidates_cache,
{
    let mut query: Vec<QueryParam> = Vec::new();
    let joined = joined_associations(&associations);
    let mut cache_key = keyed("issue_", id);
    push_tagged_suffix(&mut cache_key, &joined);
    assert(cache_key@ =~= issue_cache_key(id, associations));
    let key = associations_key();
    push_text_param(&mut query, key.as_str(), joined);
    assert(params_view(query@) =~= text_param(associations_key_text(), associations_text(associations)));
    plan(HttpMethod::Get, endpoint_with_id(base_url, "/issues/", id, ".json"), query, Some(cache_key), false)
}

/// Creating an issue.
pub fn create_issue_request(base_url: &str) -> (r: RequestPlan)
    ensures
        r.method == HttpMethod::Post,
        r.url@ == base_url@ + "/issues.json"@,
        r.query@.len() == 0,
        r.cache_key is None,
        !r.invalidates_cache,
{
    plan(HttpMethod::Post, endpoint(base_url, "/issues.json"), Vec::new(), None, false)
}

/// Updating an issue; the cache is cleared afterwards, so that later reads
/// see the update.
pub fn update_issue_request(base_url: &str, id: i32) -> (r: RequestPlan)
    ensures
        r.method == HttpMethod::Put,
        r.url@ == base_url@ + "/issues/"@ + signed_text(id as int) + ".json"@,
        r.query@.len() == 0,
        r.cache_key is None,
        r.invalidates_cache,
{
    plan(HttpMethod::Put, endpoint_with_id(base_url, "/issues/", id, ".json"), Vec::new(), None, true)
}

/// Metadata of an attachment.
pub fn get_attachment_request(base_url: &str, id: i32) -> (r: RequestPlan)
    ensures
        r.method == HttpMethod::Get,
        r.url@ == base_url@ + "/attachments/"@ + signed_text(id as int) + ".json"@,
        r.query@.len() == 0,
        r.cache_key is None,
        !r.invalidates_cache,
{
    plan(HttpMethod::Get, endpoint_with_id(base_url, "/attachments/", id, ".json"), Vec::new(), None, false)
}

/// Where the content of an attachment is fetched: its `content_url`, or
/// else the download path built from its id and file name.
pub fn attachment_download_url(base_url: &str, id: i32, filename: &str, content_url: Option<String>) -> (r: String)
    ensures
        r@ == match content_url {
            Some(u) => u@,
            None => base_url@ + "/attachments/download/"@ + signed_text(id as int) + "/"@ + filename@,
        },
{
    match content_url {
        Some(u) => u,
        None => {
            let mut s = base_url.to_owned();
            push_text(&mut s, "/attachments/download/");
            push_signed(&mut s, id as i64);
            push_text(&mut s, "/");
            push_text(&mut s, filename);
            s
        },
    }
}

/// Adding a watcher to an issue.
pub fn add_issue_watcher_request(base_url: &str, issue_id: i32) -> (r: RequestPlan)
    ensures
        r.method == HttpMethod::Post,
        r.url@ == base_url@ + "/issues/"@ + signed_text(issue_id as int) + "/watchers.json"@,
        r.query@.len() == 0,
        r.cache_key is None,
        !r.invalidates_cache,
{
    plan(HttpMethod::Post, endpoint_with_id(base_url, "/issues/", issue_id, "/watchers.json"), Vec::new(), None, false)
}

/// Removing a watcher from an issue.
pub fn remove_issue_watcher_request(base_url: &str, issue_id: i32, user_id: i32) -> (r: RequestPlan)
    ensures
        r.method == HttpMethod::Delete,
        r.url@ == base_url@ + "/issues/"@ + signed_text(issue_id as int) + "/watchers/"@ + signed_text(
            user_id as int,
        ) + ".json"@,
        r.query@.len() == 0,
        r.cache_key is None,
        !r.invalidates_cache,
{
    let mut url = endpoint_with_id(base_url, "/issues/", issue_id, "/watchers/");
    push_signed(&mut url, user_id as i64);
    push_text(&mut url, ".json");
    plan(HttpMethod::Delete, url, Vec::new(), None, false)
}

// ---------------------------------------------------------------- users

pub open spec fn users_cache_key(
    limit: Option<u32>,
    offset: Option<u32>,
    q: Option<Seq<char>>,
    set_filter: Option<bool>,
    sort: Option<Seq<char>>,
    status: Option<Seq<char>>,
) -> Seq<char> {
    "users_"@ + decimal_text(or_default(limit, 25u32) as nat) + "_"@ + decimal_text(
        or_default(offset, 0u32) as nat,
    ) + "_"@ + or_default(q, ""@) + "_"@ + bool_text(or_default(set_filter, false)) + "_"@
        + or_default(sort, ""@) + tagged_suffix(status)
}

pub open spec fn users_query(
    limit: Option<u32>,
    offset: Option<u32>,
    q: Option<Seq<char>>,
    set_filter: Option<bool>,
    sort: Option<Seq<char>>,
    status: Option<Seq<char>>,
) -> Seq<(Seq<char>, Seq<char>)> {
    count_param("limit"@, limit) + count_param("offset"@, offset) + search_params(q, set_filter)
        + text_param("sort"@, sort) + text_param("status"@, status)
}

/// The user list; every filter, the status too, enters the cache key.
pub fn list_users_request(
    base_url: &str,
    limit: Option<u32>,
    offset: Option<u32>,
    easy_query_q: Option<String>,
    set_filter: Option<bool>,
    sort: Option<String>,
    status: Option<String>,
) -> (r: RequestPlan)
    ensures
        r.method == HttpMethod::Get,
        r.url@ == base_url@ + "/users.json"@,
        params_view(r.query@) == users_query(
            limit,
            offset,
            opt_text(easy_query_q),
            set_filter,
            opt_text(sort),
            opt_text(status),
        ),
        r.cache_key matches Some(k) && k@ == users_cache_key(
            limit,
            offset,
            opt_text(easy_query_q),
            set_filter,
            opt_text(sort),
            opt_text(status),
        ),
        !r.invalidates_cache,
{
    let mut key = String::new();
    push_text(&mut key, "users_");
    push_count_or(&mut key, limit, 25);
    push_text(&mut key, "_");
    push_count_or(&mut key, offset, 0);
    push_text(&mut key, "_");
    push_text_or(&mut key, &easy_query_q, "");
    push_text(&mut key, "_");
    push_flag_or_false(&mut key, set_filter);
    push_text(&mut key, "_");
    push_text_or(&mut key, &sort, "");
    push_tagged_suffix(&mut key, &status);
    let ghost qv = opt_text(easy_query_q);
    let ghost sv = opt_text(sort);
    let ghost stv = opt_text(status);
    let mut query: Vec<QueryParam> = Vec::new();
    push_count_param(&mut query, "limit", limit);
    push_count_param(&mut query, "offset", offset);
    push_search_params(&mut query, easy_query_q, set_filter);
    push_text_param(&mut query, "sort", sort);
    push_text_param(&mut query, "status", status);
    assert(params_view(query@) =~= users_query(limit, offset, qv, set_filter, sv, stv));
    assert(key@ =~= users_cache_key(limit, offset, qv, set_filter, sv, stv));
    plan(HttpMethod::Get, endpoint(base_url, "/users.json"), query, Some(key), false)
}

/// One user.
pub fn get_user_request(base_url: &str, id: i32) -> (r: RequestPlan)
    ensures
        r.method == HttpMethod::Get,
        r.url@ == base_url@ + "/users/"@ + signed_text(id as int) + ".json"@,
        r.query@.len() == 0,
        r.cache_key matches Some(k) && k@ == "user_"@ + signed_text(id as int),
        !r.invalidates_cache,
{
    plan(HttpMethod::Get, endpoint_with_id(base_url, "/users/", id, ".json"), Vec::new(), Some(keyed("user_", id)), false)
}

// ---------------------------------------------------------------- time entries

/// The filters of the time entry list.
pub struct TimeEntryListFilter {
    pub project_id: Option<i32>,
    pub issue_id: Option<i32>,
    pub user_id: Option<i32>,
    pub limit: Option<u32>,
    pub offset: Option<u32>,
    pub from_date: Option<String>,
    pub to_date: Option<String>,
}

/// A project, issue, user or date filter is given.
pub open spec fn time_entries_filtered(f: TimeEntryListFilter) -> bool {
    f.project_id is Some || f.issue_id is Some || f.user_id is Some || f.from_date is Some
        || f.to_date is Some
}

pub open spec fn time_entries_cache_key(f: TimeEntryListFilter) -> Seq<char> {
    "time_entries_"@ + id_or_word(f.project_id, "all"@) + "_"@ + id_or_word(f.issue_id, "all"@) + "_"@
        + id_or_word(f.user_id, "all"@) + "_"@ + decimal_text(or_default(f.limit, 25u32) as nat) + "_"@
        + decimal_text(or_default(f.offset, 0u32) as nat) + "_"@ + or_default(
        opt_text(f.from_date),
        "none"@,
    ) + "_"@ + or_default(opt_text(f.to_date), "none"@)
}

/// A filtered list switches the filter on first.
pub open spec fn time_entries_query(f: TimeEntryListFilter) -> Seq<(Seq<char>, Seq<char>)> {
    (if time_entries_filtered(f) {
        seq![("set_filter"@, "1"@)]
    } else {
        Seq::empty()
    }) + id_param("project_id"@, f.project_id) + id_param("issue_id"@, f.issue_id) + id_param(
        "user_id"@,
        f.user_id,
    ) + count_param("limit"@, f.limit) + count_param("offset"@, f.offset) + text_param(
        "from"@,
        opt_text(f.from_date),
    ) + text_param("to"@, opt_text(f.to_date))
}

/// The time entry list.
pub fn list_time_entries_request(base_url: &str, f: TimeEntryListFilter) -> (r: RequestPlan)
    ensures
        r.method == HttpMethod::Get,
        r.url@ == base_url@ + "/time_entries.json"@,
        params_view(r.query@) == time_entries_query(f),
        r.cache_key matches Some(k) && k@ == time_entries_cache_key(f),
        !r.invalidates_cache,
{
    let mut key = String::new();
    push_text(&mut key, "time_entries_");
    push_id_or_word(&mut key, f.project_id, "all");
    push_text(&mut key, "_");
    push_id_or_word(&mut key, f.issue_id, "all");
    push_text(&mut key, "_");
    push_id_or_word(&mut key, f.user_id, "all");
    push_text(&mut key, "_");
    push_count_or(&mut key, f.limit, 25);
    push_text(&mut key, "_");
    push_count_or(&mut key, f.offset, 0);
    push_text(&mut key, "_");
    push_text_or(&mut key, &f.from_date, "none");
    push_text(&mut key, "_");
    push_text_or(&mut key, &f.to_date, "none");
    assert(key@ =~= time_entries_cache_key(f));
    let ghost fv = f;
    let has_filter = f.project_id.is_some() || f.issue_id.is_some() || f.user_id.is_some()
        || f.from_date.is_some() || f.to_date.is_some();
    let mut query: Vec<QueryParam> = Vec::new();
    if has_filter {
        push_param(&mut query, "set_filter", "1".to_owned());
    }
    push_id_param(&mut query, "project_id", f.project_id);
    push_id_param(&mut query, "issue_id", f.issue_id);
    push_id_param(&mut query, "user_id", f.user_id);
    push_count_param(&mut query, "limit", f.limit);
    push_count_param(&mut query, "offset", f.offset);
    push_text_param(&mut query, "from", f.from_date);
    push_text_param(&mut query, "to", f.to_date);
    assert(params_view(query@) =~= time_entries_query(fv));
    plan(HttpMethod::Get, endpoint(base_url, "/time_entries.json"), query, Some(key), false)
}

/// The time entries of one issue.
pub fn issue_time_entries_request(base_url: &str, issue_id: i32, limit: Option<u32>, offset: Option<u32>) -> (r: RequestPlan)
    ensures
        r.method == HttpMethod::Get,
        r.url@ == base_url@ + "/issues/"@ + signed_text(issue_id as int) + "/time_entries.json"@,
        params_view(r.query@) == count_param("limit"@, limit) + count_param("offset"@, offset),
        r.cache_key matches Some(k) && k@ == "issue_"@ + signed_text(issue_id as int) + "_time_entries_"@
            + decimal_text(or_default(limit, 25u32) as nat) + "_"@ + decimal_text(or_default(offset, 0u32) as nat),
        !r.invalidates_cache,
{
    let mut key = keyed("issue_", issue_id);
    push_text(&mut key, "_time_entries_");
    push_count_or(&mut key, limit, 25);
    push_text(&mut key, "_");
    push_count_or(&mut key, offset, 0);
    let mut query: Vec<QueryParam> = Vec::new();
    push_count_param(&mut query, "limit", limit);
    push_count_param(&mut query, "offset", offset);
    assert(params_view(query@) =~= count_param("limit"@, limit) + count_param("offset"@, offset));
    plan(
        HttpMethod::Get,
        endpoint_with_id(base_url, "/issues/", issue_id, "/time_entries.json"),
        query,
        Some(key),
        false,
    )
}

/// Creating a time entry.
pub fn create_time_entry_request(base_url: &str) -> (r: RequestPlan)
    ensures
        r.method == HttpMethod::Post,
        r.url@ == base_url@ + "/time_entries.json"@,
        r.query@.len() == 0,
        r.cache_key is None,
        !r.invalidates_cache,
{
    plan(HttpMethod::Post, endpoint(base_url, "/time_entries.json"), Vec::new(), None, false)
}

// ---------------------------------------------------------------- milestones

pub open spec fn milestones_cache_key(
    limit: Option<u32>,
    offset: Option<u32>,
    project_id: Option<i32>,
    status: Option<Seq<char>>,
    q: Option<Seq<char>>,
) -> Seq<char> {
    "milestones_"@ + decimal_text(or_default(limit, 25u32) as nat) + "_"@ + decimal_text(
        or_default(offset, 0u32) as nat,
    ) + "_"@ + signed_text(or_default(project_id, 0i32) as int) + "_"@ + or_default(status, "all"@)
        + "_"@ + or_default(q, ""@)
}

pub open spec fn milestones_query(
    limit: Option<u32>,
    offset: Option<u32>,
    status: Option<Seq<char>>,
    q: Option<Seq<char>>,
) -> Seq<(Seq<char>, Seq<char>)> {
    count_param("limit"@, limit) + count_param("offset"@, offset) + text_param("status"@, status)
        + text_param("easy_query_q"@, q)
}

/// The milestone (version) list. The project id only enters the cache key.
pub fn list_milestones_request(
    base_url: &str,
    limit: Option<u32>,
    offset: Option<u32>,
    project_id: Option<i32>,
    status: Option<String>,
    easy_query_q: Option<String>,
) -> (r: RequestPlan)
    ensures
        r.method == HttpMethod::Get,
        r.url@ == base_url@ + "/versions.json"@,
        params_view(r.query@) == milestones_query(limit, offset, opt_text(status), opt_text(easy_query_q)),
        r.cache_key matches Some(k) && k@ == milestones_cache_key(
            limit,
            offset,
            project_id,
            opt_text(status),
            opt_text(easy_query_q),
        ),
        !r.invalidates_cache,
{
    let mut key = String::new();
    push_text(&mut key, "milestones_");
    push_count_or(&mut key, limit, 25);
    push_text(&mut key, "_");
    push_count_or(&mut key, offset, 0);
    push_text(&mut key, "_");
    push_id_or(&mut key, project_id, 0);
    push_text(&mut key, "_");
    push_text_or(&mut key, &status, "all");
    push_text(&mut key, "_");
    push_text_or(&mut key, &easy_query_q, "");
    let ghost stv = opt_text(status);
    let ghost qv = opt_text(easy_query_q);
    let mut query: Vec<QueryParam> = Vec::new();
    push_count_param(&mut query, "limit", limit);
    push_count_param(&mut query, "offset", offset);
    push_text_param(&mut query, "status", status);
    push_text_param(&mut query, "easy_query_q", easy_query_q);
    assert(params_view(query@) =~= milestones_query(limit, offset, stv, qv));
    assert(key@ =~= milestones_cache_key(limit, offset, project_id, stv, qv));
    plan(HttpMethod::Get, endpoint(base_url, "/versions.json"), query, Some(key), false)
}

/// One milestone.
pub fn get_milestone_request(base_url: &str, id: i32) -> (r: RequestPlan)
    ensures
        r.method == HttpMethod::Get,
        r.url@ == base_url@ + "/versions/"@ + signed_text(id as int) + ".json"@,
        r.query@.len() == 0,
        r.cache_key matches Some(k) && k@ == "milestone_"@ + signed_text(id as int),
        !r.invalidates_cache,
{
    plan(
        HttpMethod::Get,
        endpoint_with_id(base_url, "/versions/", id, ".json"),
        Vec::new(),
        Some(keyed("milestone_", id)),
        false,
    )
}

/// Creating a milestone in a project; the cache is cleared afterwards.
pub fn create_milestone_request(base_url: &str, project_id: i32) -> (r: RequestPlan)
    ensures
        r.method == HttpMethod::Post,
        r.url@ == base_url@ + "/projects/"@ + signed_text(project_id as int) + "/versions.json"@,
        r.query@.len() == 0,
        r.cache_key is None,
        r.invalidates_cache,
{
    plan(
        HttpMethod::Post,
        endpoint_with_id(base_url, "/projects/", project_id, "/versions.json"),
        Vec::new(),
        None,
        true,
    )
}

/// Updating a milestone; the cache is cleared afterwards.
pub fn update_milestone_request(base_url: &str, id: i32) -> (r: RequestPlan)
    ensures
        r.method == HttpMethod::Put,
        r.url@ == base_url@ + "/versions/"@ + signed_text(id as int) + ".json"@,
        r.query@.len() == 0,
        r.cache_key is None,
        r.invalidates_cache,
{
    plan(HttpMethod::Put, endpoint_with_id(base_url, "/versions/", id, ".json"), Vec::new(), None, true)
}

/// Deleting a milestone; the cache is cleared afterwards.
pub fn delete_milestone_request(base_url: &str, id: i32) -> (r: RequestPlan)
    ensures
        r.method == HttpMethod::Delete,
        r.url@ == base_url@ + "/versions/"@ + signed_text(id as int) + ".json"@,
        r.query@.len() == 0,
        r.cache_key is None,
        r.invalidates_cache,
{
    plan(HttpMethod::Delete, endpoint_with_id(base_url, "/versions/", id, ".json"), Vec::new(), None, true)
}


// ---------------------------------------------------------------- laws

/// The pair that switches the server-side filter on.
pub open spec fn filter_switch() -> (Seq<char>, Seq<char>) {
    ("set_filter"@, "1"@)
}

proof fn lemma_not_switch_key(k: Seq<char>)
    requires
        k.len() != 10 || k[0] != 's',
    ensures
        k != "set_filter"@,
{
    reveal_strlit("set_filter");
    if k.len() == 10 {
        assert("set_filter"@[0] == 's');
    } else {
        assert("set_filter"@.len() == 10);
    }
}

proof fn lemma_concat_contains<A>(a: Seq<A>, b: Seq<A>, x: A)
    ensures
        (a + b).contains(x) <==> a.contains(x) || b.contains(x),
{
    if (a + b).contains(x) {
        let i = choose|i: int| 0 <= i < (a + b).len() && (a + b)[i] == x;
        if i < a.len() {
            assert(a[i] == x);
        } else {
            assert(b[i - a.len()] == x);
        }
    }
    if a.contains(x) {
        let i = choose|i: int| 0 <= i < a.len() && a[i] == x;
        assert((a + b)[i] == x);
    }
    if b.contains(x) {
        let i = choose|i: int| 0 <= i < b.len() && b[i] == x;
        assert((a + b)[i + a.len()] == x);
    }
}

proof fn lemma_single_contains<A>(y: A, x: A)
    ensures
        seq![y].contains(x) <==> y == x,
{
    if y == x {
        assert(seq![y][0] == x);
    }
}

proof fn lemma_count_param_no_switch(key: Seq<char>, v: Option<u32>)
    requires
        key != "set_filter"@,
    ensures
        !count_param(key, v).contains(filter_switch()),
{
    if let Some(n) = v {
        lemma_single_contains((key, decimal_text(n as nat)), filter_switch());
    }
}

proof fn lemma_id_param_no_switch(key: Seq<char>, v: Option<i32>)
    requires
        key != "set_filter"@,
    ensures
        !id_param(key, v).contains(filter_switch()),
{
    if let Some(n) = v {
        lemma_single_contains((key, signed_text(n as int)), filter_switch());
    }
}

proof fn lemma_text_param_no_switch(key: Seq<char>, v: Option<Seq<char>>)
    requires
        key != "set_filter"@,
    ensures
        !text_param(key, v).contains(filter_switch()),
{
    if let Some(t) = v {
        lemma_single_contains((key, t), filter_switch());
    }
}

proof fn lemma_search_switch(q: Option<Seq<char>>, set_filter: Option<bool>)
    ensures
        search_params(q, set_filter).contains(filter_switch()) <==> (q is Some || set_filter == Some(true)),
{
    reveal_strlit("easy_query_q");
    reveal_strlit("set_filter");
    if let Some(t) = q {
        assert(search_params(q, set_filter)[1] == filter_switch());
    } else if set_filter == Some(true) {
        assert(search_params(q, set_filter)[0] == filter_switch());
    }
}

/// Law: a project list switches the server-side filter on exactly when a
/// search text is given or the filter is asked for.
pub proof fn lemma_projects_filter_switch(
    limit: Option<u32>,
    offset: Option<u32>,
    q: Option<Seq<char>>,
    set_filter: Option<bool>,
    sort: Option<Seq<char>>,
)
    ensures
        projects_query(limit, offset, q, set_filter, sort).contains(filter_switch()) <==> (q is Some
            || set_filter == Some(true)),
{
    reveal_strlit("limit");
    reveal_strlit("offset");
    reveal_strlit("sort");
    reveal_strlit("set_filter");
    let a = count_param("limit"@, limit);
    let b = count_param("offset"@, offset);
    let c = search_params(q, set_filter);
    let d = text_param("sort"@, sort);
    lemma_not_switch_key("limit"@);
    lemma_count_param_no_switch("limit"@, limit);
    lemma_not_switch_key("offset"@);
    lemma_count_param_no_switch("offset"@, offset);
    lemma_search_switch(q, set_filter);
    lemma_not_switch_key("sort"@);
    lemma_text_param_no_switch("sort"@, sort);
    lemma_concat_contains(a, b, filter_switch());
    lemma_concat_contains(a + b, c, filter_switch());
    lemma_concat_contains(a + b + c, d, filter_switch());
}

/// Law: a user list switches the server-side filter on exactly when a
/// search text is given or the filter is asked for.
pub proof fn lemma_users_filter_switch(
    limit: Option<u32>,
    offset: Option<u32>,
    q: Option<Seq<char>>,
    set_filter: Option<bool>,
    sort: Option<Seq<char>>,
    status: Option<Seq<char>>,
)
    ensures
        users_query(limit, offset, q, set_filter, sort, status).contains(filter_switch()) <==> (q is Some
            || set_filter == Some(true)),
{
    reveal_strlit("limit");
    reveal_strlit("offset");
    reveal_strlit("sort");
    reveal_strlit("status");
    reveal_strlit("set_filter");
    let a = count_param("limit"@, limit);
    let b = count_param("offset"@, offset);
    let c = search_params(q, set_filter);
    let d = text_param("sort"@, sort);
    let e = text_param("status"@, status);
    lemma_not_switch_key("limit"@);
    lemma_count_param_no_switch("limit"@, limit);
    lemma_not_switch_key("offset"@);
    lemma_count_param_no_switch("offset"@, offset);
    lemma_search_switch(q, set_filter);
    lemma_not_switch_key("sort"@);
    lemma_text_param_no_switch("sort"@, sort);
    lemma_not_switch_key("status"@);
    lemma_text_param_no_switch("status"@, status);
    lemma_concat_contains(a, b, filter_switch());
    lemma_concat_contains(a + b, c, filter_switch());
    lemma_concat_contains(a + b + c, d, filter_switch());
    lemma_concat_contains(a + b + c + d, e, filter_switch());
}

/// Law: an issue list switches the server-side filter on exactly when a
/// search text is given or the filter is asked for.
pub proof fn lemma_issues_filter_switch(f: IssueListFilter)
    ensures
        issues_query(f).contains(filter_switch()) <==> (f.easy_query_q is Some || f.set_filter == Some(
            true,
        )),
{
    reveal_strlit("project_id");
    reveal_strlit("limit");
    reveal_strlit("offset");
    reveal_strlit("inc");
    reveal_strlit("lude");
    reveal_strlit("sort");
    reveal_strlit("assigned_to_id");
    reveal_strlit("status_id");
    reveal_strlit("tracker_id");
    reveal_strlit("priority_id");
    reveal_strlit("fixed_version_id");
    reveal_strlit("set_filter");
    let x = filter_switch();
    let p1 = id_param("project_id"@, f.project_id);
    let p2 = count_param("limit"@, f.limit);
    let p3 = count_param("offset"@, f.offset);
    let p4 = text_param(associations_key_text(), associations_text(f.associations));
    let p5 = search_params(opt_text(f.easy_query_q), f.set_filter);
    let p6 = text_param("sort"@, opt_text(f.sort));
    let p7 = id_param("assigned_to_id"@, f.assigned_to_id);
    let p8 = id_param("status_id"@, f.status_id);
    let p9 = id_param("tracker_id"@, f.tracker_id);
    let p10 = id_param("priority_id"@, f.priority_id);
    let p11 = id_param("fixed_version_id"@, f.fixed_version_id);
    assert(associations_key_text() != "set_filter"@) by {
        assert(associations_key_text()[0] == 'i');
    }
    assert("project_id"@ != "set_filter"@) by {
        assert("project_id"@[0] != "set_filter"@[0]);
    }
    lemma_not_switch_key("project_id"@);
    lemma_id_param_no_switch("project_id"@, f.project_id);
    lemma_not_switch_key("limit"@);
    lemma_count_param_no_switch("limit"@, f.limit);
    lemma_not_switch_key("offset"@);
    lemma_count_param_no_switch("offset"@, f.offset);
    lemma_text_param_no_switch(associations_key_text(), associations_text(f.associations));
    lemma_search_switch(opt_text(f.easy_query_q), f.set_filter);
    lemma_not_switch_key("sort"@);
    lemma_text_param_no_switch("sort"@, opt_text(f.sort));
    lemma_not_switch_key("assigned_to_id"@);
    lemma_id_param_no_switch("assigned_to_id"@, f.assigned_to_id);
    lemma_not_switch_key("status_id"@);
    lemma_id_param_no_switch("status_id"@, f.status_id);
    lemma_not_switch_key("tracker_id"@);
    lemma_id_param_no_switch("tracker_id"@, f.tracker_id);
    lemma_not_switch_key("priority_id"@);
    lemma_id_param_no_switch("priority_id"@, f.priority_id);
    lemma_not_switch_key("fixed_version_id"@);
    lemma_id_param_no_switch("fixed_version_id"@, f.fixed_version_id);
    lemma_concat_contains(p1, p2, x);
    lemma_concat_contains(p1 + p2, p3, x);
    lemma_concat_contains(p1 + p2 + p3, p4, x);
    lemma_concat_contains(p1 + p2 + p3 + p4, p5, x);
    lemma_concat_contains(p1 + p2 + p3 + p4 + p5, p6, x);
    lemma_concat_contains(p1 + p2 + p3 + p4 + p5 + p6, p7, x);
    lemma_concat_contains(p1 + p2 + p3 + p4 + p5 + p6 + p7, p8, x);
    lemma_concat_contains(p1 + p2 + p3 + p4 + p5 + p6 + p7 + p8, p9, x);
    lemma_concat_contains(p1 + p2 + p3 + p4 + p5 + p6 + p7 + p8 + p9, p10, x);
    lemma_concat_contains(p1 + p2 + p3 + p4 + p5 + p6 + p7 + p8 + p9 + p10, p11, x);
}

/// Law: a time entry list switches the server-side filter on, as its first
/// parameter, exactly when a project, issue, user or date is given.
pub proof fn lemma_time_entries_filter_switch(f: TimeEntryListFilter)
    ensures
        time_entries_query(f).contains(filter_switch()) <==> time_entries_filtered(f),
        time_entries_filtered(f) ==> time_entries_query(f)[0] == filter_switch(),
{
    reveal_strlit("project_id");
    reveal_strlit("issue_id");
    reveal_strlit("user_id");
    reveal_strlit("limit");
    reveal_strlit("offset");
    reveal_strlit("from");
    reveal_strlit("to");
    reveal_strlit("set_filter");
    let x = filter_switch();
    let p0: Seq<(Seq<char>, Seq<char>)> = if time_entries_filtered(f) {
        seq![x]
    } else {
        Seq::empty()
    };
    let p1 = id_param("project_id"@, f.project_id);
    let p2 = id_param("issue_id"@, f.issue_id);
    let p3 = id_param("user_id"@, f.user_id);
    let p4 = count_param("limit"@, f.limit);
    let p5 = count_param("offset"@, f.offset);
    let p6 = text_param("from"@, opt_text(f.from_date));
    let p7 = text_param("to"@, opt_text(f.to_date));
    assert("project_id"@ != "set_filter"@) by {
        assert("project_id"@[0] != "set_filter"@[0]);
    }
    lemma_not_switch_key("project_id"@);
    lemma_id_param_no_switch("project_id"@, f.project_id);
    lemma_not_switch_key("issue_id"@);
    lemma_id_param_no_switch("issue_id"@, f.issue_id);
    lemma_not_switch_key("user_id"@);
    lemma_id_param_no_switch("user_id"@, f.user_id);
    lemma_not_switch_key("limit"@);
    lemma_count_param_no_switch("limit"@, f.limit);
    lemma_not_switch_key("offset"@);
    lemma_count_param_no_switch("offset"@, f.offset);
    lemma_not_switch_key("from"@);
    lemma_text_param_no_switch("from"@, opt_text(f.from_date));
    lemma_not_switch_key("to"@);
    lemma_text_param_no_switch("to"@, opt_text(f.to_date));
    if time_entries_filtered(f) {
        lemma_single_contains(x, x);
    }
    lemma_concat_contains(p0, p1, x);
    lemma_concat_contains(p0 + p1, p2, x);
    lemma_concat_contains(p0 + p1 + p2, p3, x);
    lemma_concat_contains(p0 + p1 + p2 + p3, p4, x);
    lemma_concat_contains(p0 + p1 + p2 + p3 + p4, p5, x);
    lemma_concat_contains(p0 + p1 + p2 + p3 + p4 + p5, p6, x);
    lemma_concat_contains(p0 + p1 + p2 + p3 + p4 + p5 + p6, p7, x);
    assert(time_entries_query(f) == p0 + p1 + p2 + p3 + p4 + p5 + p6 + p7);
}

// ---------------------------------------------------------------- cache

/// What the response cache holds for a plan: the answer stored under the
/// plan's key, if any. The client stores each answer of a keyed call under
/// its key and clears the whole cache after a call whose plan says so;
/// entries may also expire, and what is said here holds of those that remain.
pub open spec fn cached_answer<V>(cache: Map<Seq<char>, V>, plan: RequestPlan) -> Option<V> {
    match plan.cache_key {
        Some(k) => if cache.contains_key(k@) {
            Some(cache[k@])
        } else {
            None
        },
        None => None,
    }
}

/// The cache after a call of `plan` that was answered with `answer`: cleared
/// where the plan clears it; otherwise a keyed call that missed stores its
/// answer, and a call that hit leaves the cache as it was.
pub open spec fn cache_after_call<V>(cache: Map<Seq<char>, V>, plan: RequestPlan, answer: V) -> Map<Seq<char>, V> {
    if plan.invalidates_cache {
        Map::empty()
    } else {
        match plan.cache_key {
            Some(k) => if cache.contains_key(k@) {
                cache
            } else {
                cache.insert(k@, answer)
            },
            None => cache,
        }
    }
}

proof fn lemma_suffix_apart(p: Seq<char>, a: Option<Seq<char>>, b: Option<Seq<char>>)
    requires
        a != b,
    ensures
        p + tagged_suffix(a) != p + tagged_suffix(b),
{
    reveal_strlit("_");
    let ka = p + tagged_suffix(a);
    let kb = p + tagged_suffix(b);
    if ka == kb {
        match (a, b) {
            (Some(x), Some(y)) => {
                assert(ka.skip(p.len() + 1int) =~= x);
                assert(kb.skip(p.len() + 1int) =~= y);
            },
            (Some(x), None) => {
                assert(ka.len() == p.len() + 1 + x.len());
                assert(kb.len() == p.len());
            },
            (None, Some(y)) => {
                assert(kb.len() == p.len() + 1 + y.len());
                assert(ka.len() == p.len());
            },
            (None, None) => {},
        }
    }
}

/// Law: two user listings that differ only in their status filter are
/// cached under different keys.
pub proof fn lemma_users_key_tells_status(
    limit: Option<u32>,
    offset: Option<u32>,
    q: Option<Seq<char>>,
    set_filter: Option<bool>,
    sort: Option<Seq<char>>,
    status_a: Option<Seq<char>>,
    status_b: Option<Seq<char>>,
)
    requires
        status_a != status_b,
    ensures
        users_cache_key(limit, offset, q, set_filter, sort, status_a) != users_cache_key(
            limit,
            offset,
            q,
            set_filter,
            sort,
            status_b,
        ),
{
    let p = "users_"@ + decimal_text(or_default(limit, 25u32) as nat) + "_"@ + decimal_text(
        or_default(offset, 0u32) as nat,
    ) + "_"@ + or_default(q, ""@) + "_"@ + bool_text(or_default(set_filter, false)) + "_"@
        + or_default(sort, ""@);
    lemma_suffix_apart(p, status_a, status_b);
}

/// Law: two reads of one issue that embed different associations are
/// cached under different keys.
pub proof fn lemma_issue_key_tells_associations(id: i32, a: Option<Vec<String>>, b: Option<Vec<String>>)
    requires
        associations_text(a) != associations_text(b),
    ensures
        issue_cache_key(id, a) != issue_cache_key(id, b),
{
    lemma_suffix_apart("issue_"@ + signed_text(id as int), associations_text(a), associations_text(b));
}

/// Law: storing the answer of one keyed call never changes what a call
/// under another key finds in the cache.
pub proof fn lemma_cache_keeps_other_keys<V>(cache: Map<Seq<char>, V>, a: RequestPlan, b: RequestPlan, x: V)
    requires
        !a.invalidates_cache,
        a.cache_key matches Some(ka) && b.cache_key matches Some(kb) && ka@ != kb@,
    ensures
        cached_answer(cache_after_call(cache, a, x), b) == cached_answer(cache, b),
{
}

/// Law: a user listing with one status filter never answers, from the
/// cache, a listing with another.
pub proof fn lemma_users_cached_apart<V>(
    cache: Map<Seq<char>, V>,
    a: RequestPlan,
    b: RequestPlan,
    x: V,
    limit: Option<u32>,
    offset: Option<u32>,
    q: Option<Seq<char>>,
    set_filter: Option<bool>,
    sort: Option<Seq<char>>,
    status_a: Option<Seq<char>>,
    status_b: Option<Seq<char>>,
)
    requires
        !a.invalidates_cache,
        a.cache_key matches Some(k) && k@ == users_cache_key(limit, offset, q, set_filter, sort, status_a),
        b.cache_key matches Some(k) && k@ == users_cache_key(limit, offset, q, set_filter, sort, status_b),
        status_a != status_b,
    ensures
        cached_answer(cache_after_call(cache, a, x), b) == cached_answer(cache, b),
{
    lemma_users_key_tells_status(limit, offset, q, set_filter, sort, status_a, status_b);
}

/// Law: a read of an issue with one set of embedded associations never
/// answers, from the cache, a read of it with another.
pub proof fn lemma_issue_reads_cached_apart<V>(
    cache: Map<Seq<char>, V>,
    a: RequestPlan,
    b: RequestPlan,
    x: V,
    id: i32,
    assoc_a: Option<Vec<String>>,
    assoc_b: Option<Vec<String>>,
)
    requires
        !a.invalidates_cache,
        a.cache_key matches Some(k) && k@ == issue_cache_key(id, assoc_a),
        b.cache_key matches Some(k) && k@ == issue_cache_key(id, assoc_b),
        associations_text(assoc_a) != associations_text(assoc_b),
    ensures
        cached_answer(cache_after_call(cache, a, x), b) == cached_answer(cache, b),
{
    lemma_issue_key_tells_associations(id, assoc_a, assoc_b);
}

/// Law: after a call whose plan clears the cache (an issue update, among
/// others), no read is answered from the cache.
pub proof fn lemma_cleared_cache_answers_nothing<V>(cache: Map<Seq<char>, V>, update: RequestPlan, read: RequestPlan, x: V)
    requires
        update.invalidates_cache,
    ensures
        cached_answer(cache_after_call(cache, update, x), read) is None,
{
}

// ---------------------------------------------------------------- queries

/// How many of the options are given.
pub open spec fn given_count(flags: Seq<bool>) -> int
    decreases flags.len(),
{
    if flags.len() == 0 {
        0
    } else {
        given_count(flags.drop_last()) + if flags.last() {
            1int
        } else {
            0int
        }
    }
}

proof fn lemma_concat_has<A>(a: Seq<A>, b: Seq<A>)
    ensures
        forall|x: A| #[trigger] (a + b).contains(x) <==> a.contains(x) || b.contains(x),
{
    assert forall|x: A| #[trigger] (a + b).contains(x) <==> a.contains(x) || b.contains(x) by {
        lemma_concat_contains(a, b, x);
    }
}

proof fn lemma_param_has<A>(y: A)
    ensures
        seq![y].contains(y),
{
    assert(seq![y][0] == y);
}

proof fn lemma_has_left<A>(a: Seq<A>, b: Seq<A>, x: A)
    requires
        a.contains(x),
    ensures
        (a + b).contains(x),
{
    let i = choose|i: int| 0 <= i < a.len() && a[i] == x;
    assert((a + b)[i] == x);
}

proof fn lemma_has_right<A>(a: Seq<A>, b: Seq<A>, x: A)
    requires
        b.contains(x),
    ensures
        (a + b).contains(x),
{
    let i = choose|i: int| 0 <= i < b.len() && b[i] == x;
    assert((a + b)[a.len() + i] == x);
}

/// Law: an issue list sends each filter it is given, with its value, and one
/// parameter per given filter (two for a search: the text and the switch).
pub proof fn lemma_issue_query_sends_filters(f: IssueListFilter)
    ensures
        f.project_id matches Some(n) ==> issues_query(f).contains(("project_id"@, signed_text(n as int))),
        f.limit matches Some(n) ==> issues_query(f).contains(("limit"@, decimal_text(n as nat))),
        f.offset matches Some(n) ==> issues_query(f).contains(("offset"@, decimal_text(n as nat))),
        f.associations matches Some(v) ==> issues_query(f).contains((associations_key_text(), comma_joined(texts_view(v@)))),
        f.easy_query_q matches Some(t) ==> issues_query(f).contains(("easy_query_q"@, t@)),
        f.sort matches Some(t) ==> issues_query(f).contains(("sort"@, t@)),
        f.assigned_to_id matches Some(n) ==> issues_query(f).contains(("assigned_to_id"@, signed_text(n as int))),
        f.status_id matches Some(n) ==> issues_query(f).contains(("status_id"@, signed_text(n as int))),
        f.tracker_id matches Some(n) ==> issues_query(f).contains(("tracker_id"@, signed_text(n as int))),
        f.priority_id matches Some(n) ==> issues_query(f).contains(("priority_id"@, signed_text(n as int))),
        f.fixed_version_id matches Some(n) ==> issues_query(f).contains(("fixed_version_id"@, signed_text(n as int))),
{
    let p1 = id_param("project_id"@, f.project_id);
    let p2 = count_param("limit"@, f.limit);
    let p3 = count_param("offset"@, f.offset);
    let p4 = text_param(associations_key_text(), associations_text(f.associations));
    let p5 = search_params(opt_text(f.easy_query_q), f.set_filter);
    let p6 = text_param("sort"@, opt_text(f.sort));
    let p7 = id_param("assigned_to_id"@, f.assigned_to_id);
    let p8 = id_param("status_id"@, f.status_id);
    let p9 = id_param("tracker_id"@, f.tracker_id);
    let p10 = id_param("priority_id"@, f.priority_id);
    let p11 = id_param("fixed_version_id"@, f.fixed_version_id);
    assert(issues_query(f) == p1 + p2 + p3 + p4 + p5 + p6 + p7 + p8 + p9 + p10 + p11);
    if let Some(n) = f.project_id {
        lemma_param_has(("project_id"@, signed_text(n as int)));
        lemma_has_left(p1, p2, ("project_id"@, signed_text(n as int)));
        lemma_has_left(p1 + p2, p3, ("project_id"@, signed_text(n as int)));
        lemma_has_left(p1 + p2 + p3, p4, ("project_id"@, signed_text(n as int)));
        lemma_has_left(p1 + p2 + p3 + p4, p5, ("project_id"@, signed_text(n as int)));
        lemma_has_left(p1 + p2 + p3 + p4 + p5, p6, ("project_id"@, signed_text(n as int)));
        lemma_has_left(p1 + p2 + p3 + p4 + p5 + p6, p7, ("project_id"@, signed_text(n as int)));
        lemma_has_left(p1 + p2 + p3 + p4 + p5 + p6 + p7, p8, ("project_id"@, signed_text(n as int)));
        lemma_has_left(p1 + p2 + p3 + p4 + p5 + p6 + p7 + p8, p9, ("project_id"@, signed_text(n as int)));
        lemma_has_left(p1 + p2 + p3 + p4 + p5 + p6 + p7 + p8 + p9, p10, ("project_id"@, signed_text(n as int)));
        lemma_has_left(p1 + p2 + p3 + p4 + p5 + p6 + p7 + p8 + p9 + p10, p11, ("project_id"@, signed_text(n as int)));
    }
    if let Some(n) = f.limit {
        lemma_param_has(("limit"@, decimal_text(n as nat)));
        lemma_has_right(p1, p2, ("limit"@, decimal_text(n as nat)));
        lemma_has_left(p1 + p2, p3, ("limit"@, decimal_text(n as nat)));
        lemma_has_left(p1 + p2 + p3, p4, ("limit"@, decimal_text(n as nat)));
        lemma_has_left(p1 + p2 + p3 + p4, p5, ("limit"@, decimal_text(n as nat)));
        lemma_has_left(p1 + p2 + p3 + p4 + p5, p6, ("limit"@, decimal_text(n as nat)));
        lemma_has_left(p1 + p2 + p3 + p4 + p5 + p6, p7, ("limit"@, decimal_text(n as nat)));
        lemma_has_left(p1 + p2 + p3 + p4 + p5 + p6 + p7, p8, ("limit"@, decimal_text(n as nat)));
        lemma_has_left(p1 + p2 + p3 + p4 + p5 + p6 + p7 + p8, p9, ("limit"@, decimal_text(n as nat)));
        lemma_has_left(p1 + p2 + p3 + p4 + p5 + p6 + p7 + p8 + p9, p10, ("limit"@, decimal_text(n as nat)));
        lemma_has_left(p1 + p2 + p3 + p4 + p5 + p6 + p7 + p8 + p9 + p10, p11, ("limit"@, decimal_text(n as nat)));
    }
    if let Some(n) = f.offset {
        lemma_param_has(("offset"@, decimal_text(n as nat)));
        lemma_has_right(p1 + p2, p3, ("offset"@, decimal_text(n as nat)));
        lemma_has_left(p1 + p2 + p3, p4, ("offset"@, decimal_text(n as nat)));
        lemma_has_left(p1 + p2 + p3 + p4, p5, ("offset"@, decimal_text(n as nat)));
        lemma_has_left(p1 + p2 + p3 + p4 + p5, p6, ("offset"@, decimal_text(n as nat)));
        lemma_has_left(p1 + p2 + p3 + p4 + p5 + p6, p7, ("offset"@, decimal_text(n as nat)));
        lemma_has_left(p1 + p2 + p3 + p4 + p5 + p6 + p7, p8, ("offset"@, decimal_text(n as nat)));
        lemma_has_left(p1 + p2 + p3 + p4 + p5 + p6 + p7 + p8, p9, ("offset"@, decimal_text(n as nat)));
        lemma_has_left(p1 + p2 + p3 + p4 + p5 + p6 + p7 + p8 + p9, p10, ("offset"@, decimal_text(n as nat)));
        lemma_has_left(p1 + p2 + p3 + p4 + p5 + p6 + p7 + p8 + p9 + p10, p11, ("offset"@, decimal_text(n as nat)));
    }
    if let Some(v) = f.associations {
        lemma_param_has((associations_key_text(), comma_joined(texts_view(v@))));
        lemma_has_right(p1 + p2 + p3, p4, (associations_key_text(), comma_joined(texts_view(v@))));
        lemma_has_left(p1 + p2 + p3 + p4, p5, (associations_key_text(), comma_joined(texts_view(v@))));
        lemma_has_left(p1 + p2 + p3 + p4 + p5, p6, (associations_key_text(), comma_joined(texts_view(v@))));
        lemma_has_left(p1 + p2 + p3 + p4 + p5 + p6, p7, (associations_key_text(), comma_joined(texts_view(v@))));
        lemma_has_left(p1 + p2 + p3 + p4 + p5 + p6 + p7, p8, (associations_key_text(), comma_joined(texts_view(v@))));
        lemma_has_left(p1 + p2 + p3 + p4 + p5 + p6 + p7 + p8, p9, (associations_key_text(), comma_joined(texts_view(v@))));
        lemma_has_left(p1 + p2 + p3 + p4 + p5 + p6 + p7 + p8 + p9, p10, (associations_key_text(), comma_joined(texts_view(v@))));
        lemma_has_left(p1 + p2 + p3 + p4 + p5 + p6 + p7 + p8 + p9 + p10, p11, (associations_key_text(), comma_joined(texts_view(v@))));
    }
    if let Some(t) = f.easy_query_q {
        assert(p5[0] == ("easy_query_q"@, t@));
        lemma_has_right(p1 + p2 + p3 + p4, p5, ("easy_query_q"@, t@));
        lemma_has_left(p1 + p2 + p3 + p4 + p5, p6, ("easy_query_q"@, t@));
        lemma_has_left(p1 + p2 + p3 + p4 + p5 + p6, p7, ("easy_query_q"@, t@));
        lemma_has_left(p1 + p2 + p3 + p4 + p5 + p6 + p7, p8, ("easy_query_q"@, t@));
        lemma_has_left(p1 + p2 + p3 + p4 + p5 + p6 + p7 + p8, p9, ("easy_query_q"@, t@));
        lemma_has_left(p1 + p2 + p3 + p4 + p5 + p6 + p7 + p8 + p9, p10, ("easy_query_q"@, t@));
        lemma_has_left(p1 + p2 + p3 + p4 + p5 + p6 + p7 + p8 + p9 + p10, p11, ("easy_query_q"@, t@));
    }
    if let Some(t) = f.sort {
        lemma_param_has(("sort"@, t@));
        lemma_has_right(p1 + p2 + p3 + p4 + p5, p6, ("sort"@, t@));
        lemma_has_left(p1 + p2 + p3 + p4 + p5 + p6, p7, ("sort"@, t@));
        lemma_has_left(p1 + p2 + p3 + p4 + p5 + p6 + p7, p8, ("sort"@, t@));
        lemma_has_left(p1 + p2 + p3 + p4 + p5 + p6 + p7 + p8, p9, ("sort"@, t@));
        lemma_has_left(p1 + p2 + p3 + p4 + p5 + p6 + p7 + p8 + p9, p10, ("sort"@, t@));
        lemma_has_left(p1 + p2 + p3 + p4 + p5 + p6 + p7 + p8 + p9 + p10, p11, ("sort"@, t@));
    }
    if let Some(n) = f.assigned_to_id {
        lemma_param_has(("assigned_to_id"@, signed_text(n as int)));
        lemma_has_right(p1 + p2 + p3 + p4 + p5 + p6, p7, ("assigned_to_id"@, signed_text(n as int)));
        lemma_has_left(p1 + p2 + p3 + p4 + p5 + p6 + p7, p8, ("assigned_to_id"@, signed_text(n as int)));
        lemma_has_left(p1 + p2 + p3 + p4 + p5 + p6 + p7 + p8, p9, ("assigned_to_id"@, signed_text(n as int)));
        lemma_has_left(p1 + p2 + p3 + p4 + p5 + p6 + p7 + p8 + p9, p10, ("assigned_to_id"@, signed_text(n as int)));
        lemma_has_left(p1 + p2 + p3 + p4 + p5 + p6 + p7 + p8 + p9 + p10, p11, ("assigned_to_id"@, signed_text(n as int)));
    }
    if let Some(n) = f.status_id {
        lemma_param_has(("status_id"@, signed_text(n as int)));
        lemma_has_right(p1 + p2 + p3 + p4 + p5 + p6 + p7, p8, ("status_id"@, signed_text(n as int)));
        lemma_has_left(p1 + p2 + p3 + p4 + p5 + p6 + p7 + p8, p9, ("status_id"@, signed_text(n as int)));
        lemma_has_left(p1 + p2 + p3 + p4 + p5 + p6 + p7 + p8 + p9, p10, ("status_id"@, signed_text(n as int)));
        lemma_has_left(p1 + p2 + p3 + p4 + p5 + p6 + p7 + p8 + p9 + p10, p11, ("status_id"@, signed_text(n as int)));
    }
    if let Some(n) = f.tracker_id {
        lemma_param_has(("tracker_id"@, signed_text(n as int)));
        lemma_has_right(p1 + p2 + p3 + p4 + p5 + p6 + p7 + p8, p9, ("tracker_id"@, signed_text(n as int)));
        lemma_has_left(p1 + p2 + p3 + p4 + p5 + p6 + p7 + p8 + p9, p10, ("tracker_id"@, signed_text(n as int)));
        lemma_has_left(p1 + p2 + p3 + p4 + p5 + p6 + p7 + p8 + p9 + p10, p11, ("tracker_id"@, signed_text(n as int)));
    }
    if let Some(n) = f.priority_id {
        lemma_param_has(("priority_id"@, signed_text(n as int)));
        lemma_has_right(p1 + p2 + p3 + p4 + p5 + p6 + p7 + p8 + p9, p10, ("priority_id"@, signed_text(n as int)));
        lemma_has_left(p1 + p2 + p3 + p4 + p5 + p6 + p7 + p8 + p9 + p10, p11, ("priority_id"@, signed_text(n as int)));
    }
    if let Some(n) = f.fixed_version_id {
        lemma_param_has(("fixed_version_id"@, signed_text(n as int)));
        lemma_has_right(p1 + p2 + p3 + p4 + p5 + p6 + p7 + p8 + p9 + p10, p11, ("fixed_version_id"@, signed_text(n as int)));
    }
}

/// Law: an issue list sends one parameter per given filter, two for a
/// search (the text and the switch), one for a switch asked for alone.
pub proof fn lemma_issue_query_size(f: IssueListFilter)
    ensures
        issues_query(f).len() == (if f.project_id is Some { 1int } else { 0int }) + (if f.limit is Some { 1int } else { 0int }) + (if f.offset is Some { 1int } else { 0int }) + (if f.associations is Some { 1int } else { 0int }) + (if f.easy_query_q is Some { 2int } else if f.set_filter == Some(true) { 1int } else { 0int }) + (if f.sort is Some { 1int } else { 0int }) + (if f.assigned_to_id is Some { 1int } else { 0int }) + (if f.status_id is Some { 1int } else { 0int }) + (if f.tracker_id is Some { 1int } else { 0int }) + (if f.priority_id is Some { 1int } else { 0int }) + (if f.fixed_version_id is Some { 1int } else { 0int }),
{
    reveal_strlit("set_filter");
}

/// Law: a project list sends the page size, the page offset, the search text
/// and the order it is given, each with its value.
pub proof fn lemma_project_query_sends_filters(limit: Option<u32>, offset: Option<u32>, q: Option<Seq<char>>, set_filter: Option<bool>, sort: Option<Seq<char>>)
    ensures
        limit matches Some(n) ==> projects_query(limit, offset, q, set_filter, sort).contains(("limit"@, decimal_text(n as nat))),
        offset matches Some(n) ==> projects_query(limit, offset, q, set_filter, sort).contains(("offset"@, decimal_text(n as nat))),
        q matches Some(t) ==> projects_query(limit, offset, q, set_filter, sort).contains(("easy_query_q"@, t)),
        sort matches Some(t) ==> projects_query(limit, offset, q, set_filter, sort).contains(("sort"@, t)),
{
    let a = count_param("limit"@, limit);
    let b = count_param("offset"@, offset);
    let c = search_params(q, set_filter);
    let d = text_param("sort"@, sort);
    assert(projects_query(limit, offset, q, set_filter, sort) == a + b + c + d);
    if let Some(n) = limit {
        lemma_param_has(("limit"@, decimal_text(n as nat)));
        lemma_has_left(a, b, ("limit"@, decimal_text(n as nat)));
        lemma_has_left(a + b, c, ("limit"@, decimal_text(n as nat)));
        lemma_has_left(a + b + c, d, ("limit"@, decimal_text(n as nat)));
    }
    if let Some(n) = offset {
        lemma_param_has(("offset"@, decimal_text(n as nat)));
        lemma_has_right(a, b, ("offset"@, decimal_text(n as nat)));
        lemma_has_left(a + b, c, ("offset"@, decimal_text(n as nat)));
        lemma_has_left(a + b + c, d, ("offset"@, decimal_text(n as nat)));
    }
    if let Some(t) = q {
        assert(c[0] == ("easy_query_q"@, t));
        lemma_has_right(a + b, c, ("easy_query_q"@, t));
        lemma_has_left(a + b + c, d, ("easy_query_q"@, t));
    }
    if let Some(t) = sort {
        lemma_param_has(("sort"@, t));
        lemma_has_right(a + b + c, d, ("sort"@, t));
    }
}

/// Law: a project list sends one parameter per given option, two for a
/// search (the text and the switch), one for a switch asked for alone.
pub proof fn lemma_project_query_size(limit: Option<u32>, offset: Option<u32>, q: Option<Seq<char>>, set_filter: Option<bool>, sort: Option<Seq<char>>)
    ensures
        projects_query(limit, offset, q, set_filter, sort).len() == (if limit is Some { 1int } else { 0int }) + (if offset is Some { 1int } else { 0int }) + (if q is Some { 2int } else if set_filter == Some(true) { 1int } else { 0int }) + (if sort is Some { 1int } else { 0int }),
{
}

/// Law: a user list sends the page size, the page offset, the search text,
/// the order and the status it is given, each with its value.
pub proof fn lemma_user_query_sends_filters(limit: Option<u32>, offset: Option<u32>, q: Option<Seq<char>>, set_filter: Option<bool>, sort: Option<Seq<char>>, status: Option<Seq<char>>)
    ensures
        limit matches Some(n) ==> users_query(limit, offset, q, set_filter, sort, status).contains(("limit"@, decimal_text(n as nat))),
        offset matches Some(n) ==> users_query(limit, offset, q, set_filter, sort, status).contains(("offset"@, decimal_text(n as nat))),
        q matches Some(t) ==> users_query(limit, offset, q, set_filter, sort, status).contains(("easy_query_q"@, t)),
        sort matches Some(t) ==> users_query(limit, offset, q, set_filter, sort, status).contains(("sort"@, t)),
        status matches Some(t) ==> users_query(limit, offset, q, set_filter, sort, status).contains(("status"@, t)),
{
    let a = count_param("limit"@, limit);
    let b = count_param("offset"@, offset);
    let c = search_params(q, set_filter);
    let d = text_param("sort"@, sort);
    let e = text_param("status"@, status);
    assert(users_query(limit, offset, q, set_filter, sort, status) == a + b + c + d + e);
    if let Some(n) = limit {
        lemma_param_has(("limit"@, decimal_text(n as nat)));
        lemma_has_left(a, b, ("limit"@, decimal_text(n as nat)));
        lemma_has_left(a + b, c, ("limit"@, decimal_text(n as nat)));
        lemma_has_left(a + b + c, d, ("limit"@, decimal_text(n as nat)));
        lemma_has_left(a + b + c + d, e, ("limit"@, decimal_text(n as nat)));
    }
    if let Some(n) = offset {
        lemma_param_has(("offset"@, decimal_text(n as nat)));
        lemma_has_right(a, b, ("offset"@, decimal_text(n as nat)));
        lemma_has_left(a + b, c, ("offset"@, decimal_text(n as nat)));
        lemma_has_left(a + b + c, d, ("offset"@, decimal_text(n as nat)));
        lemma_has_left(a + b + c + d, e, ("offset"@, decimal_text(n as nat)));
    }
    if let Some(t) = q {
        assert(c[0] == ("easy_query_q"@, t));
        lemma_has_right(a + b, c, ("easy_query_q"@, t));
        lemma_has_left(a + b + c, d, ("easy_query_q"@, t));
        lemma_has_left(a + b + c + d, e, ("easy_query_q"@, t));
    }
    if let Some(t) = sort {
        lemma_param_has(("sort"@, t));
        lemma_has_right(a + b + c, d, ("sort"@, t));
        lemma_has_left(a + b + c + d, e, ("sort"@, t));
    }
    if let Some(t) = status {
        lemma_param_has(("status"@, t));
        lemma_has_right(a + b + c + d, e, ("status"@, t));
    }
}

/// Law: a user list sends one parameter per given option, two for a search
/// (the text and the switch), one for a switch asked for alone.
pub proof fn lemma_user_query_size(limit: Option<u32>, offset: Option<u32>, q: Option<Seq<char>>, set_filter: Option<bool>, sort: Option<Seq<char>>, status: Option<Seq<char>>)
    ensures
        users_query(limit, offset, q, set_filter, sort, status).len() == (if limit is Some { 1int } else { 0int }) + (if offset is Some { 1int } else { 0int }) + (if q is Some { 2int } else if set_filter == Some(true) { 1int } else { 0int }) + (if sort is Some { 1int } else { 0int }) + (if status is Some { 1int } else { 0int }),
{
}

/// Law: a time entry list sends the project, issue, user, page size, page
/// offset and dates it is given, each with its value.
pub proof fn lemma_time_entry_query_sends_filters(f: TimeEntryListFilter)
    ensures
        f.project_id matches Some(n) ==> time_entries_query(f).contains(("project_id"@, signed_text(n as int))),
        f.issue_id matches Some(n) ==> time_entries_query(f).contains(("issue_id"@, signed_text(n as int))),
        f.user_id matches Some(n) ==> time_entries_query(f).contains(("user_id"@, signed_text(n as int))),
        f.limit matches Some(n) ==> time_entries_query(f).contains(("limit"@, decimal_text(n as nat))),
        f.offset matches Some(n) ==> time_entries_query(f).contains(("offset"@, decimal_text(n as nat))),
        f.from_date matches Some(t) ==> time_entries_query(f).contains(("from"@, t@)),
        f.to_date matches Some(t) ==> time_entries_query(f).contains(("to"@, t@)),
{
    let p0 = if time_entries_filtered(f) { seq![filter_switch()] } else { Seq::empty() };
    let p1 = id_param("project_id"@, f.project_id);
    let p2 = id_param("issue_id"@, f.issue_id);
    let p3 = id_param("user_id"@, f.user_id);
    let p4 = count_param("limit"@, f.limit);
    let p5 = count_param("offset"@, f.offset);
    let p6 = text_param("from"@, opt_text(f.from_date));
    let p7 = text_param("to"@, opt_text(f.to_date));
    assert(time_entries_query(f) == p0 + p1 + p2 + p3 + p4 + p5 + p6 + p7);
    if let Some(n) = f.project_id {
        lemma_param_has(("project_id"@, signed_text(n as int)));
        lemma_has_right(p0, p1, ("project_id"@, signed_text(n as int)));
        lemma_has_left(p0 + p1, p2, ("project_id"@, signed_text(n as int)));
        lemma_has_left(p0 + p1 + p2, p3, ("project_id"@, signed_text(n as int)));
        lemma_has_left(p0 + p1 + p2 + p3, p4, ("project_id"@, signed_text(n as int)));
        lemma_has_left(p0 + p1 + p2 + p3 + p4, p5, ("project_id"@, signed_text(n as int)));
        lemma_has_left(p0 + p1 + p2 + p3 + p4 + p5, p6, ("project_id"@, signed_text(n as int)));
        lemma_has_left(p0 + p1 + p2 + p3 + p4 + p5 + p6, p7, ("project_id"@, signed_text(n as int)));
    }
    if let Some(n) = f.issue_id {
        lemma_param_has(("issue_id"@, signed_text(n as int)));
        lemma_has_right(p0 + p1, p2, ("issue_id"@, signed_text(n as int)));
        lemma_has_left(p0 + p1 + p2, p3, ("issue_id"@, signed_text(n as int)));
        lemma_has_left(p0 + p1 + p2 + p3, p4, ("issue_id"@, signed_text(n as int)));
        lemma_has_left(p0 + p1 + p2 + p3 + p4, p5, ("issue_id"@, signed_text(n as int)));
        lemma_has_left(p0 + p1 + p2 + p3 + p4 + p5, p6, ("issue_id"@, signed_text(n as int)));
        lemma_has_left(p0 + p1 + p2 + p3 + p4 + p5 + p6, p7, ("issue_id"@, signed_text(n as int)));
    }
    if let Some(n) = f.user_id {
        lemma_param_has(("user_id"@, signed_text(n as int)));
        lemma_has_right(p0 + p1 + p2, p3, ("user_id"@, signed_text(n as int)));
        lemma_has_left(p0 + p1 + p2 + p3, p4, ("user_id"@, signed_text(n as int)));
        lemma_has_left(p0 + p1 + p2 + p3 + p4, p5, ("user_id"@, signed_text(n as int)));
        lemma_has_left(p0 + p1 + p2 + p3 + p4 + p5, p6, ("user_id"@, signed_text(n as int)));
        lemma_has_left(p0 + p1 + p2 + p3 + p4 + p5 + p6, p7, ("user_id"@, signed_text(n as int)));
    }
    if let Some(n) = f.limit {
        lemma_param_has(("limit"@, decimal_text(n as nat)));
        lemma_has_right(p0 + p1 + p2 + p3, p4, ("limit"@, decimal_text(n as nat)));
        lemma_has_left(p0 + p1 + p2 + p3 + p4, p5, ("limit"@, decimal_text(n as nat)));
        lemma_has_left(p0 + p1 + p2 + p3 + p4 + p5, p6, ("limit"@, decimal_text(n as nat)));
        lemma_has_left(p0 + p1 + p2 + p3 + p4 + p5 + p6, p7, ("limit"@, decimal_text(n as nat)));
    }
    if let Some(n) = f.offset {
        lemma_param_has(("offset"@, decimal_text(n as nat)));
        lemma_has_right(p0 + p1 + p2 + p3 + p4, p5, ("offset"@, decimal_text(n as nat)));
        lemma_has_left(p0 + p1 + p2 + p3 + p4 + p5, p6, ("offset"@, decimal_text(n as nat)));
        lemma_has_left(p0 + p1 + p2 + p3 + p4 + p5 + p6, p7, ("offset"@, decimal_text(n as nat)));
    }
    if let Some(t) = f.from_date {
        lemma_param_has(("from"@, t@));
        lemma_has_right(p0 + p1 + p2 + p3 + p4 + p5, p6, ("from"@, t@));
        lemma_has_left(p0 + p1 + p2 + p3 + p4 + p5 + p6, p7, ("from"@, t@));
    }
    if let Some(t) = f.to_date {
        lemma_param_has(("to"@, t@));
        lemma_has_right(p0 + p1 + p2 + p3 + p4 + p5 + p6, p7, ("to"@, t@));
    }
}

/// Law: a time entry list sends one parameter per given option, and the
/// filter switch once when any project, issue, user or date is given.
pub proof fn lemma_time_entry_query_size(f: TimeEntryListFilter)
    ensures
        time_entries_query(f).len() == (if f.project_id is Some || f.issue_id is Some || f.user_id is Some || f.from_date is Some || f.to_date is Some { 1int } else { 0int }) + (if f.project_id is Some { 1int } else { 0int }) + (if f.issue_id is Some { 1int } else { 0int }) + (if f.user_id is Some { 1int } else { 0int }) + (if f.limit is Some { 1int } else { 0int }) + (if f.offset is Some { 1int } else { 0int }) + (if f.from_date is Some { 1int } else { 0int }) + (if f.to_date is Some { 1int } else { 0int }),
{
}

/// Law: a milestone list sends the page size, the page offset, the status
/// and the search text it is given, each with its value.
pub proof fn lemma_milestone_query_sends_filters(limit: Option<u32>, offset: Option<u32>, status: Option<Seq<char>>, q: Option<Seq<char>>)
    ensures
        limit matches Some(n) ==> milestones_query(limit, offset, status, q).contains(("limit"@, decimal_text(n as nat))),
        offset matches Some(n) ==> milestones_query(limit, offset, status, q).contains(("offset"@, decimal_text(n as nat))),
        status matches Some(t) ==> milestones_query(limit, offset, status, q).contains(("status"@, t)),
        q matches Some(t) ==> milestones_query(limit, offset, status, q).contains(("easy_query_q"@, t)),
{
    let a = count_param("limit"@, limit);
    let b = count_param("offset"@, offset);
    let c = text_param("status"@, status);
    let d = text_param("easy_query_q"@, q);
    assert(milestones_query(limit, offset, status, q) == a + b + c + d);
    if let Some(n) = limit {
        lemma_param_has(("limit"@, decimal_text(n as nat)));
        lemma_has_left(a, b, ("limit"@, decimal_text(n as nat)));
        lemma_has_left(a + b, c, ("limit"@, decimal_text(n as nat)));
        lemma_has_left(a + b + c, d, ("limit"@, decimal_text(n as nat)));
    }
    if let Some(n) = offset {
        lemma_param_has(("offset"@, decimal_text(n as nat)));
        lemma_has_right(a, b, ("offset"@, decimal_text(n as nat)));
        lemma_has_left(a + b, c, ("offset"@, decimal_text(n as nat)));
        lemma_has_left(a + b + c, d, ("offset"@, decimal_text(n as nat)));
    }
    if let Some(t) = status {
        lemma_param_has(("status"@, t));
        lemma_has_right(a + b, c, ("status"@, t));
        lemma_has_left(a + b + c, d, ("status"@, t));
    }
    if let Some(t) = q {
        lemma_param_has(("easy_query_q"@, t));
        lemma_has_right(a + b + c, d, ("easy_query_q"@, t));
    }
}

/// Law: a milestone list sends one parameter per given option.
pub proof fn lemma_milestone_query_size(limit: Option<u32>, offset: Option<u32>, status: Option<Seq<char>>, q: Option<Seq<char>>)
    ensures
        milestones_query(limit, offset, status, q).len() == (if limit is Some { 1int } else { 0int }) + (if offset is Some { 1int } else { 0int }) + (if status is Some { 1int } else { 0int }) + (if q is Some { 1int } else { 0int }),
{
}

} // verus!
