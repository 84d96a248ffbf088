use easyproject_mcp_server::requests::{
    attachment_download_url, get_issue_request, join_with_commas, list_issues_request,
    list_milestones_request, list_projects_request, list_time_entries_request, list_users_request,
    remove_issue_watcher_request, signed_string, unsigned_string, update_issue_request, HttpMethod, IssueListFilter,
    QueryParam, TimeEntryListFilter,
};

fn pairs(q: &[QueryParam]) -> Vec<(String, String)> {
    q.iter().map(|p| (p.key.clone(), p.value.clone())).collect()
}

fn p(k: &str, v: &str) -> (String, String) {
    (k.to_string(), v.to_string())
}

#[test]
fn decimal_rendering() {
    assert_eq!(unsigned_string(0), "0");
    assert_eq!(unsigned_string(1234567890), "1234567890");
    assert_eq!(signed_string(-42), "-42");
    assert_eq!(signed_string(i64::MIN), "-9223372036854775808");
}

#[test]
fn projects_search_switches_filter_on() {
    let r = list_projects_request(
        "https://ep.example",
        Some(10),
        None,
        Some(true),
        Some("abc".to_string()),
        None,
        Some("name".to_string()),
    );
    assert_eq!(r.method, HttpMethod::Get);
    assert_eq!(r.url, "https://ep.example/projects.json");
    assert_eq!(
        pairs(&r.query),
        vec![p("limit", "10"), p("easy_query_q", "abc"), p("set_filter", "1"), p("sort", "name")]
    );
    assert_eq!(r.cache_key.as_deref(), Some("projects_10_0_true_abc_false_name"));
    assert!(!r.invalidates_cache);
}

#[test]
fn projects_without_filters() {
    let r = list_projects_request("u", None, None, None, None, None, None);
    assert!(r.query.is_empty());
    assert_eq!(r.cache_key.as_deref(), Some("projects_25_0_false__false_"));
    let r = list_projects_request("u", None, None, None, None, Some(true), None);
    assert_eq!(pairs(&r.query), vec![p("set_filter", "1")]);
    let r = list_projects_request("u", None, None, None, None, Some(false), None);
    assert!(r.query.is_empty());
}

#[test]
fn issues_query_and_key() {
    let f = IssueListFilter {
        project_id: Some(175),
        limit: Some(100),
        offset: Some(200),
        associations: Some(vec!["journals".to_string(), "watchers".to_string()]),
        easy_query_q: None,
        set_filter: Some(true),
        sort: None,
        assigned_to_id: Some(101),
        status_id: None,
        tracker_id: Some(-1),
        priority_id: None,
        fixed_version_id: None,
    };
    let r = list_issues_request("b", f);
    assert_eq!(r.url, "b/issues.json");
    assert_eq!(
        pairs(&r.query),
        vec![
            p("project_id", "175"),
            p("limit", "100"),
            p("offset", "200"),
            ("inc".to_string() + "lude", "journals,watchers".to_string()),
            p("set_filter", "1"),
            p("assigned_to_id", "101"),
            p("tracker_id", "-1"),
        ]
    );
    assert_eq!(
        r.cache_key.as_deref(),
        Some("issues_175_100_200_journals,watchers__true__101_0_-1_0_0")
    );
}

#[test]
fn issues_defaults_in_key() {
    let f = IssueListFilter {
        project_id: None,
        limit: None,
        offset: None,
        associations: None,
        easy_query_q: None,
        set_filter: None,
        sort: None,
        assigned_to_id: None,
        status_id: None,
        tracker_id: None,
        priority_id: None,
        fixed_version_id: None,
    };
    let r = list_issues_request("b", f);
    assert!(r.query.is_empty());
    assert_eq!(r.cache_key.as_deref(), Some("issues_all_25_0_none__false__0_0_0_0_0"));
}

#[test]
fn one_issue_with_associations() {
    let r = get_issue_request("b", 7, Some(vec!["attachments".to_string()]));
    assert_eq!(r.url, "b/issues/7.json");
    assert_eq!(pairs(&r.query), vec![("inc".to_string() + "lude", "attachments".to_string())]);
    assert_eq!(r.cache_key.as_deref(), Some("issue_7_attachments"));
    let journals = get_issue_request("b", 7, Some(vec!["journals".to_string(), "watchers".to_string()]));
    assert_eq!(journals.cache_key.as_deref(), Some("issue_7_journals,watchers"));
    let bare = get_issue_request("b", 7, None);
    assert_eq!(bare.cache_key.as_deref(), Some("issue_7"));
    let word = get_issue_request("b", 7, Some(vec!["none".to_string()]));
    assert_eq!(word.cache_key.as_deref(), Some("issue_7_none"));
    assert_ne!(word.cache_key, bare.cache_key);
    assert!(update_issue_request("b", 7).invalidates_cache);
}

#[test]
fn users_status_in_key() {
    let r = list_users_request("b", None, Some(5), None, None, None, Some("active".to_string()));
    assert_eq!(pairs(&r.query), vec![p("offset", "5"), p("status", "active")]);
    assert_eq!(r.cache_key.as_deref(), Some("users_25_5__false__active"));
    let locked = list_users_request("b", None, Some(5), None, None, None, Some("locked".to_string()));
    assert_eq!(locked.cache_key.as_deref(), Some("users_25_5__false__locked"));
    let none = list_users_request("b", None, Some(5), None, None, None, None);
    assert_eq!(none.cache_key.as_deref(), Some("users_25_5__false_"));
}

#[test]
fn time_entries_filter_comes_first() {
    let f = TimeEntryListFilter {
        project_id: None,
        issue_id: None,
        user_id: Some(3),
        limit: Some(1000),
        offset: None,
        from_date: Some("2024-01-01".to_string()),
        to_date: None,
    };
    let r = list_time_entries_request("b", f);
    assert_eq!(
        pairs(&r.query),
        vec![p("set_filter", "1"), p("user_id", "3"), p("limit", "1000"), p("from", "2024-01-01")]
    );
    assert_eq!(r.cache_key.as_deref(), Some("time_entries_all_all_3_1000_0_2024-01-01_none"));
    let f = TimeEntryListFilter {
        project_id: None,
        issue_id: None,
        user_id: None,
        limit: Some(10),
        offset: None,
        from_date: None,
        to_date: None,
    };
    let r = list_time_entries_request("b", f);
    assert_eq!(pairs(&r.query), vec![p("limit", "10")]);
}

#[test]
fn milestones_project_only_in_key() {
    let r = list_milestones_request("b", None, None, Some(9), None, Some("x".to_string()));
    assert_eq!(pairs(&r.query), vec![p("easy_query_q", "x")]);
    assert_eq!(r.cache_key.as_deref(), Some("milestones_25_0_9_all_x"));
}

#[test]
fn watcher_and_attachment_urls() {
    let r = remove_issue_watcher_request("b", 12, 34);
    assert_eq!(r.method, HttpMethod::Delete);
    assert_eq!(r.url, "b/issues/12/watchers/34.json");
    assert_eq!(attachment_download_url("b", 5, "a.png", None), "b/attachments/download/5/a.png");
    assert_eq!(attachment_download_url("b", 5, "a.png", Some("c".to_string())), "c");
}

#[test]
fn joining() {
    assert_eq!(join_with_commas(&vec![]), "");
    assert_eq!(join_with_commas(&vec!["a".to_string()]), "a");
    assert_eq!(join_with_commas(&vec!["a".to_string(), "bc".to_string()]), "a,bc");
}
