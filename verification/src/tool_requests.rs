//! Which API calls each tool makes, with which arguments, and the client's
//! settings.

use vstd::prelude::*;
use crate::requests::{
    get_project_request, list_projects_request, list_users_request, IssueListFilter, RequestPlan,
    TimeEntryListFilter, or_default, opt_text, params_view, users_query, users_cache_key,
    projects_query, projects_cache_key, associations_text, HttpMethod, text_param,
    associations_key_text,
};
use crate::text::signed_text;
use crate::messages::reported_total;

verus! {

/// Arguments of the issue listing tool.
pub struct ListIssuesArgs {
    pub project_id: Option<i32>,
    pub limit: Option<u32>,
    pub offset: Option<u32>,
    pub associations: Option<Vec<String>>,
    pub search: Option<String>,
    pub sort: Option<String>,
    pub assigned_to_id: Option<i32>,
    pub status_id: Option<i32>,
    pub tracker_id: Option<i32>,
    pub priority_id: Option<i32>,
}

/// The arguments of the issue listing when none are given: 25 issues.
pub fn default_list_issues_args() -> (r: ListIssuesArgs)
    ensures
        r == (ListIssuesArgs {
            project_id: None,
            limit: Some(25),
            offset: None,
            associations: None,
            search: None,
            sort: None,
            assigned_to_id: None,
            status_id: None,
            tracker_id: None,
            priority_id: None,
        }),
{
    ListIssuesArgs {
        project_id: None,
        limit: Some(25),
        offset: None,
        associations: None,
        search: None,
        sort: None,
        assigned_to_id: None,
        status_id: None,
        tracker_id: None,
        priority_id: None,
    }
}

/// The issue list the listing tool asks for: the search goes in as
/// full-text query; the filter switch and milestone are left unset.
pub fn list_issues_tool_filter(a: ListIssuesArgs) -> (r: IssueListFilter)
    ensures
        r == (IssueListFilter {
            project_id: a.project_id,
            limit: a.limit,
            offset: a.offset,
            associations: a.associations,
            easy_query_q: a.search,
            set_filter: None,
            sort: a.sort,
            assigned_to_id: a.assigned_to_id,
            status_id: a.status_id,
            tracker_id: a.tracker_id,
            priority_id: a.priority_id,
            fixed_version_id: None,
        }),
{
    IssueListFilter {
        project_id: a.project_id,
        limit: a.limit,
        offset: a.offset,
        associations: a.associations,
        easy_query_q: a.search,
        set_filter: None,
        sort: a.sort,
        assigned_to_id: a.assigned_to_id,
        status_id: a.status_id,
        tracker_id: a.tracker_id,
        priority_id: a.priority_id,
        fixed_version_id: None,
    }
}

/// Arguments of the user listing tool.
pub struct ListUsersArgs {
    pub limit: Option<u32>,
    pub offset: Option<u32>,
    pub search: Option<String>,
    pub sort: Option<String>,
    pub status: Option<String>,
}

/// The arguments of the user listing when none are given: 25 users.
pub fn default_list_users_args() -> (r: ListUsersArgs)
    ensures
        r == (ListUsersArgs { limit: Some(25), offset: None, search: None, sort: None, status: None }),
{
    ListUsersArgs { limit: Some(25), offset: None, search: None, sort: None, status: None }
}

/// The request of the user listing tool: the search as full-text query,
/// the filter switch unset.
pub fn list_users_tool_request(base_url: &str, a: ListUsersArgs) -> (r: RequestPlan)
    ensures
        r.method == HttpMethod::Get,
        r.url@ == base_url@ + "/users.json"@,
        params_view(r.query@) == users_query(
            a.limit,
            a.offset,
            opt_text(a.search),
            None,
            opt_text(a.sort),
            opt_text(a.status),
        ),
        r.cache_key matches Some(k) && k@ == users_cache_key(
            a.limit,
            a.offset,
            opt_text(a.search),
            None,
            opt_text(a.sort),
            opt_text(a.status),
        ),
        !r.invalidates_cache,
{
    list_users_request(base_url, a.limit, a.offset, a.search, None, a.sort, a.status)
}

/// Sections of the project report; each is on unless switched off.
pub struct ReportSections {
    pub time_entries: bool,
    pub issues: bool,
    pub users: bool,
}

pub fn report_sections(time_entries: Option<bool>, issues: Option<bool>, users: Option<bool>) -> (r: ReportSections)
    ensures
        r.time_entries == or_default(time_entries, true),
        r.issues == or_default(issues, true),
        r.users == or_default(users, true),
{
    ReportSections {
        time_entries: match time_entries {
            Some(b) => b,
            None => true,
        },
        issues: match issues {
            Some(b) => b,
            None => true,
        },
        users: match users {
            Some(b) => b,
            None => true,
        },
    }
}


/// Issues of a page of the enumeration scan.
pub fn enumeration_page_filter(project_id: Option<i32>, limit: u32, offset: u32) -> (r: IssueListFilter)
    ensures
        r == (IssueListFilter {
            project_id,
            limit: Some(limit),
            offset: Some(offset),
            associations: None,
            easy_query_q: None,
            set_filter: None,
            sort: None,
            assigned_to_id: None,
            status_id: None,
            tracker_id: None,
            priority_id: None,
            fixed_version_id: None,
        }),
{
    IssueListFilter {
        project_id,
        limit: Some(limit),
        offset: Some(offset),
        associations: None,
        easy_query_q: None,
        set_filter: None,
        sort: None,
        assigned_to_id: None,
        status_id: None,
        tracker_id: None,
        priority_id: None,
        fixed_version_id: None,
    }
}

/// Up to `limit` issues, of one project or of all.
pub fn issues_up_to(project_id: Option<i32>, limit: u32) -> (r: IssueListFilter)
    ensures
        r == (IssueListFilter {
            project_id,
            limit: Some(limit),
            offset: None,
            associations: None,
            easy_query_q: None,
            set_filter: None,
            sort: None,
            assigned_to_id: None,
            status_id: None,
            tracker_id: None,
            priority_id: None,
            fixed_version_id: None,
        }),
{
    IssueListFilter {
        project_id,
        limit: Some(limit),
        offset: None,
        associations: None,
        easy_query_q: None,
        set_filter: None,
        sort: None,
        assigned_to_id: None,
        status_id: None,
        tracker_id: None,
        priority_id: None,
        fixed_version_id: None,
    }
}

/// Issues of the project report: up to 1000 of the project.
pub fn report_issues_filter(project_id: i32) -> (r: IssueListFilter)
    ensures
        r == (IssueListFilter { project_id: Some(project_id), limit: Some(1000), offset: None, ..r }),
        r.associations is None && r.easy_query_q is None && r.set_filter is None && r.sort is None,
        r.assigned_to_id is None && r.status_id is None && r.tracker_id is None,
        r.priority_id is None && r.fixed_version_id is None,
{
    issues_up_to(Some(project_id), 1000)
}

/// Issues of the dashboard: up to 1000 of all projects.
pub fn dashboard_issues_filter() -> (r: IssueListFilter)
    ensures
        r.project_id is None && r.limit == Some(1000u32) && r.offset is None,
        r.associations is None && r.easy_query_q is None && r.set_filter is None && r.sort is None,
        r.assigned_to_id is None && r.status_id is None && r.tracker_id is None,
        r.priority_id is None && r.fixed_version_id is None,
{
    issues_up_to(None, 1000)
}

/// Issues asked for per page of the workload.
pub const WORKLOAD_PAGE_LIMIT: u32 = 100;

/// One page of the workload: the issues assigned to the user, from `offset` on.
pub fn workload_issues_filter(user_id: i32, offset: u32) -> (r: IssueListFilter)
    ensures
        r == (IssueListFilter {
            project_id: None,
            limit: Some(WORKLOAD_PAGE_LIMIT),
            offset: Some(offset),
            associations: None,
            easy_query_q: None,
            set_filter: None,
            sort: None,
            assigned_to_id: Some(user_id),
            status_id: None,
            tracker_id: None,
            priority_id: None,
            fixed_version_id: None,
        }),
{
    IssueListFilter {
        project_id: None,
        limit: Some(WORKLOAD_PAGE_LIMIT),
        offset: Some(offset),
        associations: None,
        easy_query_q: None,
        set_filter: None,
        sort: None,
        assigned_to_id: Some(user_id),
        status_id: None,
        tracker_id: None,
        priority_id: None,
        fixed_version_id: None,
    }
}

/// Where the next page starts: an empty page ends the listing; otherwise the
/// offset moves on by `limit`, and the listing ends once that reaches the
/// reported total.
pub open spec fn next_page_start(offset: u32, limit: u32, page_len: nat, total_count: Option<i32>) -> Option<u32> {
    if page_len == 0 || offset + limit >= reported_total(total_count, page_len) {
        None
    } else {
        Some((offset + limit) as u32)
    }
}

/// The offset of the next page to fetch, or `None` when the listing is done.
pub fn next_page_offset(offset: u32, limit: u32, page_len: usize, total_count: Option<i32>) -> (r: Option<u32>)
    ensures
        r == next_page_start(offset, limit, page_len as nat, total_count),
        r matches Some(n) ==> offset + limit == n && n < reported_total(total_count, page_len as nat),
{
    let total: i32 = match total_count {
        Some(t) => t,
        None => #[verifier::truncate] (page_len as i32),
    };
    let next: u64 = offset as u64 + limit as u64;
    if page_len == 0 || next >= total as i64 as u64 || total < 0 {
        None
    } else {
        Some(next as u32)
    }
}

/// Time entries of one project or user, up to `limit`, within the dates.
pub fn time_entries_up_to(
    project_id: Option<i32>,
    user_id: Option<i32>,
    limit: u32,
    from_date: Option<String>,
    to_date: Option<String>,
) -> (r: TimeEntryListFilter)
    ensures
        r == (TimeEntryListFilter {
            project_id,
            issue_id: None,
            user_id,
            limit: Some(limit),
            offset: None,
            from_date,
            to_date,
        }),
{
    TimeEntryListFilter { project_id, issue_id: None, user_id, limit: Some(limit), offset: None, from_date, to_date }
}

/// The project of the report, with its trackers and enabled modules.
pub fn report_project_request(base_url: &str, project_id: i32) -> (r: RequestPlan)
    ensures
        r.method == HttpMethod::Get,
        r.url@ == base_url@ + "/projects/"@ + signed_text(project_id as int) + ".json"@,
        params_view(r.query@) == text_param(associations_key_text(), Some("trackers,enabled_modules"@)),
        r.cache_key matches Some(k) && k@ == "project_"@ + signed_text(project_id as int),
        !r.invalidates_cache,
{
    let mut v: Vec<String> = Vec::new();
    v.push("trackers".to_owned());
    v.push("enabled_modules".to_owned());
    let ghost vv = v;
    let r = get_project_request(base_url, project_id, Some(v));
    proof {
        reveal_strlit("trackers");
        reveal_strlit("enabled_modules");
        reveal_strlit("trackers,enabled_modules");
        reveal_strlit(",");
        assert(associations_text(Some(vv)) =~= Some("trackers,enabled_modules"@)) by {
            let items = crate::requests::texts_view(vv@);
            assert(items.len() == 2);
            assert(items[0] == "trackers"@);
            assert(items[1] == "enabled_modules"@);
            assert(crate::requests::comma_joined(items.drop_last()) == items.drop_last()[0]);
            assert(crate::requests::comma_joined(items) =~= "trackers"@ + ","@ + "enabled_modules"@);
        }
    }
    r
}

/// Users of the report: the first 100.
pub fn report_users_request(base_url: &str) -> (r: RequestPlan)
    ensures
        r.method == HttpMethod::Get,
        r.url@ == base_url@ + "/users.json"@,
        params_view(r.query@) == users_query(Some(100), None, None, None, None, None),
        r.cache_key matches Some(k) && k@ == users_cache_key(Some(100), None, None, None, None, None),
        !r.invalidates_cache,
{
    list_users_request(base_url, Some(100), None, None, None, None, None)
}

/// Projects of the dashboard: the first 100, archived ones left out.
pub fn dashboard_projects_request(base_url: &str) -> (r: RequestPlan)
    ensures
        r.method == HttpMethod::Get,
        r.url@ == base_url@ + "/projects.json"@,
        params_view(r.query@) == projects_query(Some(100), None, None, None, None),
        r.cache_key matches Some(k) && k@ == projects_cache_key(Some(100), None, Some(false), None, None, None),
        !r.invalidates_cache,
{
    list_projects_request(base_url, Some(100), None, Some(false), None, None, None)
}

// ---------------------------------------------------------------- client settings

/// The client's part of the configuration.
pub struct ClientConfig {
    pub base_url: String,
    pub api_key: Option<String>,
    pub timeout_seconds: u64,
    pub user_agent: String,
    pub cache_enabled: bool,
    pub cache_max_entries: u64,
    pub cache_ttl_seconds: u64,
    pub rate_limiting_enabled: bool,
    pub requests_per_minute: u32,
    pub burst_size: u32,
}

pub struct CacheSettings {
    pub max_entries: u64,
    pub ttl_seconds: u64,
}

pub struct RateLimitSettings {
    pub requests_per_minute: u32,
    pub burst_size: u32,
}

/// What the client is built from.
pub struct ClientSettings {
    pub base_url: String,
    pub api_key: String,
    pub timeout_seconds: u64,
    pub user_agent: String,
    pub cache: Option<CacheSettings>,
    pub rate_limit: Option<RateLimitSettings>,
}

/// The client's settings. The API key is required; the cache and the rate
/// limit are there when enabled. A rate limit of zero requests is not
/// admitted (the limiter cannot be built from it).
pub fn client_settings(config: ClientConfig) -> (r: Result<ClientSettings, String>)
    requires
        config.rate_limiting_enabled ==> config.requests_per_minute > 0 && config.burst_size > 0,
    ensures
        r is Err <==> config.api_key is None,
        r matches Err(m) ==> m@ == "Chybí API klíč pro EasyProject"@,
        r matches Ok(s) ==> {
            &&& s.base_url == config.base_url
            &&& Some(s.api_key) == config.api_key
            &&& s.timeout_seconds == config.timeout_seconds
            &&& s.user_agent == config.user_agent
            &&& s.cache is Some == config.cache_enabled
            &&& (s.cache matches Some(c) ==> c.max_entries == config.cache_max_entries
                && c.ttl_seconds == config.cache_ttl_seconds)
            &&& s.rate_limit is Some == config.rate_limiting_enabled
            &&& (s.rate_limit matches Some(l) ==> l.requests_per_minute == config.requests_per_minute
                && l.burst_size == config.burst_size)
        },
{
    let cache = if config.cache_enabled {
        Some(CacheSettings { max_entries: config.cache_max_entries, ttl_seconds: config.cache_ttl_seconds })
    } else {
        None
    };
    let rate_limit = if config.rate_limiting_enabled {
        Some(RateLimitSettings { requests_per_minute: config.requests_per_minute, burst_size: config.burst_size })
    } else {
        None
    };
    match config.api_key {
        Some(api_key) => Ok(
            ClientSettings {
                base_url: config.base_url,
                api_key,
                timeout_seconds: config.timeout_seconds,
                user_agent: config.user_agent,
                cache,
                rate_limit,
            },
        ),
        None => Err("Chybí API klíč pro EasyProject".to_owned()),
    }
}

/// The header that carries the API key.
pub fn auth_header_name() -> (r: &'static str)
    ensures
        r@ == "X-Redmine-API-Key"@,
{
    "X-Redmine-API-Key"
}

/// Law: a non-empty page is followed by the page one `limit` further on
/// while that start lies below the reported total; an empty page, or a start
/// at or past the total, ends the listing.
pub proof fn lemma_next_page(offset: u32, limit: u32, page_len: nat, total_count: Option<i32>)
    ensures
        (page_len > 0 && offset + limit < reported_total(total_count, page_len)) ==> next_page_start(
            offset,
            limit,
            page_len,
            total_count,
        ) == Some((offset + limit) as u32),
        (page_len == 0 || offset + limit >= reported_total(total_count, page_len)) ==> next_page_start(
            offset,
            limit,
            page_len,
            total_count,
        ) is None,
        next_page_start(offset, limit, page_len, total_count) matches Some(n) ==> n > offset || limit == 0,
{
}

} // verus!
