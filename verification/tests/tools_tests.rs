use easyproject_mcp_server::attachment::{inline_download_message, save_failed_message, saved_download_message};
use easyproject_mcp_server::dates::{parse_optional_date, CalendarDate};
use easyproject_mcp_server::issue_update::{
    assign_changes, complete_changes, default_done_ratio, merge_issue_update, new_issue_draft,
    watcher_report, CurrentIssue, IssueChanges, NewIssue, WatcherOutcome,
};
use easyproject_mcp_server::messages::{
    failure_message, failure_with_id_message, failure_with_name_message, issue_assigned_message, issue_completed_message, issue_created_message,
    issue_detail_message, issue_updated_message, issues_found_message, person_name,
    report_message, titled_json_message, unknown_tool_message, user_detail_message,
    users_found_message, workload_message,
};
use easyproject_mcp_server::registry::{enabled_tools, tool_name, ToolEntry, ToolGroups, ToolKind, ToolRegistry};
use easyproject_mcp_server::response::{
    check_add_watcher_status, check_download_status, check_remove_watcher_status,
    interpret_response, status_text, text_is_blank, update_reply_needs_reread, ResponseBody,
};
use easyproject_mcp_server::tool_requests::{
    client_settings, default_list_issues_args, default_list_users_args, list_issues_tool_filter,
    list_users_tool_request, next_page_offset, report_project_request, report_sections,
    workload_issues_filter, ClientConfig,
};
use easyproject_mcp_server::requests::list_issues_request;

fn current() -> CurrentIssue<f64> {
    CurrentIssue {
        project_id: 175,
        tracker_id: 1,
        status_id: 2,
        priority_id: 12,
        subject: "Login".to_string(),
        description: Some("popis".to_string()),
        category_id: None,
        fixed_version_id: Some(7),
        assigned_to_id: Some(101),
        parent_id: None,
        estimated_hours: Some(2.5),
        start_date: CalendarDate::new(2024, 5, 1),
        due_date: None,
        done_ratio: Some(10),
    }
}

#[test]
fn default_ratio_is_full() {
    assert_eq!(default_done_ratio(), 100);
}

#[test]
fn update_keeps_what_is_not_given() {
    let mut c: IssueChanges<f64> = assign_changes(5, 126);
    c.subject = Some("Nový název".to_string());
    c.notes = Some("poznámka".to_string());
    c.watcher_user_ids = Some(vec![1]);
    let d = merge_issue_update(c, current());
    assert_eq!(d.project_id, 175);
    assert_eq!(d.subject, "Nový název");
    assert_eq!(d.assigned_to_id, Some(126));
    assert_eq!(d.description.as_deref(), Some("popis"));
    assert_eq!(d.fixed_version_id, Some(7));
    assert_eq!(d.estimated_hours, Some(2.5));
    assert_eq!(d.done_ratio, Some(10));
    assert!(d.watcher_user_ids.is_none());
    assert_eq!(d.notes.as_deref(), Some("poznámka"));
}

#[test]
fn complete_sets_ratio_only() {
    let d = merge_issue_update(complete_changes::<f64>(5, 100), current());
    assert_eq!(d.done_ratio, Some(100));
    assert_eq!(d.assigned_to_id, Some(101));
    assert_eq!(d.status_id, 2);
    assert!(d.notes.is_none());
}

#[test]
fn create_draft_copies_arguments() {
    let d = new_issue_draft(NewIssue::<f64> {
        project_id: 1,
        tracker_id: 2,
        status_id: 3,
        priority_id: 4,
        subject: "s".to_string(),
        description: None,
        category_id: Some(5),
        fixed_version_id: None,
        assigned_to_id: Some(6),
        parent_issue_id: None,
        estimated_hours: Some(1.0),
        start_date: None,
        due_date: None,
        done_ratio: Some(0),
        watcher_user_ids: Some(vec![126]),
    });
    assert_eq!((d.project_id, d.tracker_id, d.status_id, d.priority_id), (1, 2, 3, 4));
    assert_eq!(d.watcher_user_ids, Some(vec![126]));
    assert!(d.notes.is_none());
}

#[test]
fn watcher_notes() {
    let out = vec![
        WatcherOutcome { user_id: 126, error: None },
        WatcherOutcome { user_id: 5, error: Some("API error 422: already".to_string()) },
        WatcherOutcome { user_id: 7, error: Some("HTTP error 403 Forbidden".to_string()) },
    ];
    assert_eq!(
        watcher_report(&out),
        "\n  + watcher 126 přidán\n  ⚠ watcher 7 selhalo: HTTP error 403 Forbidden"
    );
    assert_eq!(watcher_report(&vec![]), "");
}

#[test]
fn response_interpretation() {
    assert!(matches!(interpret_response(200, " \n\t".to_string()), Ok(ResponseBody::EmptyObject)));
    match interpret_response(201, "{\"a\":[1,true]}".to_string()) {
        Ok(ResponseBody::Json(v)) => assert_eq!(v, serde_json::from_str::<serde_json::Value>("{ \"a\" : [1, true] }").unwrap()),
        _ => panic!("expected the parsed body"),
    }
    match interpret_response(404, "nic".to_string()) {
        Err(e) => {
            assert_eq!(e.status, 404);
            assert_eq!(e.message, "HTTP error 404 Not Found: nic");
        }
        Ok(_) => panic!("expected an error"),
    }
    match interpret_response(200, "{oops".to_string()) {
        Err(e) => {
            assert_eq!(e.status, 500);
            assert!(e.message.starts_with("Chyba parsování JSON: "));
            assert!(e.message.ends_with(". Response: {oops"));
        }
        Ok(_) => panic!("expected an error"),
    }
    assert_eq!(status_text(599), "599 <unknown status code>");
    assert!(text_is_blank("\u{3000}\u{a0}"));
    assert!(!text_is_blank(" x "));
}

#[test]
fn status_checks() {
    assert!(check_download_status(200, 1).is_ok());
    assert_eq!(check_download_status(500, 9).unwrap_err().message, "Download failed for attachment 9");
    assert!(check_add_watcher_status(204, 1, 2).is_ok());
    assert_eq!(check_add_watcher_status(422, 1, 2).unwrap_err().message, "Add watcher 2 → issue 1 failed");
    assert!(check_remove_watcher_status(404, 1, 2).is_ok());
    let e = check_remove_watcher_status(403, 1, 2).unwrap_err();
    assert_eq!((e.status, e.message.as_str()), (403, "Remove watcher 2 from issue 1 failed"));
}

#[test]
fn download_texts() {
    let m = inline_download_message("a.txt", &b"Man".to_vec(), &Some("text/plain".to_string()));
    assert_eq!(m, "Příloha a.txt (3 B, text/plain): base64 níže\n\ndata:text/plain;base64,TWFu");
    let m = inline_download_message("b", &b"Ma".to_vec(), &None);
    assert!(m.ends_with("data:application/octet-stream;base64,TWE="));
    let m = inline_download_message("b", &b"M".to_vec(), &None);
    assert!(m.ends_with(";base64,TQ=="));
    assert_eq!(
        saved_download_message("/tmp/x", "x.png", 10, &None),
        "Příloha uložena: /tmp/x\n  filename: x.png\n  size: 10 B\n  content_type: —"
    );
    assert_eq!(save_failed_message("/tmp/x", "denied"), "Chyba zápisu '/tmp/x': denied");
}

#[test]
fn tool_texts() {
    assert_eq!(issues_found_message(2, None, "[]"), "Nalezeno 2 úkolů (celkem: 2):\n\n[]");
    assert_eq!(users_found_message(1, Some(40), "{}"), "Nalezeno 1 uživatelů (celkem: 40):\n\n{}");
    assert_eq!(issue_detail_message("S", "{}"), "Detail úkolu 'S':\n\n{}");
    assert_eq!(issue_created_message("S", 9, "", "{}"), "Úkol 'S' byl úspěšně vytvořen s ID 9:\n\n{}");
    assert_eq!(issue_updated_message("S", 9, "\n  x", "{}"), "Úkol 'S' (ID: 9) byl úspěšně aktualizován:\n  x\n\n{}");
    assert_eq!(issue_assigned_message(4, 126), "Úkol 4 byl úspěšně přiřazen uživateli 126.");
    assert_eq!(issue_completed_message(4, 100), "Úkol 4 byl úspěšně označen jako dokončený (100%).");
    assert_eq!(person_name(&Some("Jan".to_string()), &None), "Jan N/A");
    assert_eq!(user_detail_message(&None, &None, "{}"), "Detail uživatele 'N/A N/A':\n\n{}");
    assert_eq!(
        workload_message(&Some("j@x.cz".to_string()), &Some("Jan".to_string()), &Some("V".to_string()), "{}"),
        "Pracovní vytížení uživatele 'j@x.cz' (Jan V):\n\n{}"
    );
    assert_eq!(report_message("P", 175, "{}"), "Sestava pro projekt 'P' (ID: 175):\n\n{}");
    assert_eq!(titled_json_message("Dashboard data", "{}"), "Dashboard data:\n\n{}");
    assert_eq!(failure_message("Chyba při získávání úkolů", "x"), "Chyba při získávání úkolů: x");
    assert_eq!(unknown_tool_message("nope"), "Tool 'nope' nenalezen");
}

#[test]
fn registry_groups_and_lookup() {
    let all = ToolGroups { projects: true, issues: true, users: true, time_entries: true, reports: true, milestones: true };
    assert_eq!(enabled_tools(all).len(), 30);
    let some = ToolGroups { projects: false, issues: true, users: false, time_entries: false, reports: true, milestones: false };
    let kinds = enabled_tools(some);
    let names: Vec<&str> = kinds.iter().map(|k| tool_name(*k)).collect();
    assert_eq!(
        names,
        vec![
            "list_issues", "get_issue", "create_issue", "update_issue", "assign_issue",
            "complete_task", "get_issue_enumerations", "get_attachment", "download_attachment",
            "generate_project_report", "get_dashboard_data"
        ]
    );
    assert_eq!(tool_name(ToolKind::LogTime), "log_time");

    let mut reg: ToolRegistry<u32> = ToolRegistry::new();
    assert_eq!(reg.tool_count(), 0);
    reg.register(ToolEntry { name: "a".to_string(), description: "A".to_string(), input_schema: serde_json::Value::Null, executor: 1 });
    reg.register(ToolEntry { name: "b".to_string(), description: "B".to_string(), input_schema: serde_json::Value::Bool(true), executor: 2 });
    reg.register(ToolEntry { name: "a".to_string(), description: "A2".to_string(), input_schema: serde_json::Value::Null, executor: 3 });
    assert_eq!(reg.tool_count(), 2);
    assert!(reg.has_tool("a") && reg.has_tool("b") && !reg.has_tool("c"));
    assert_eq!(reg.find_tool("a"), Some(&3));
    assert_eq!(reg.find_tool("c"), None);
    let listed = reg.list_tools();
    assert_eq!(listed.len(), 2);
    assert_eq!(listed[0].name, "a");
    assert_eq!(listed[0].description, "A2");
    assert_eq!(listed[1].input_schema.schema_type, "object");
    assert_eq!(listed[1].input_schema.properties, Some(serde_json::Value::Bool(true)));
    assert_eq!(listed[1].input_schema.additional_properties, Some(false));
    assert!(listed[1].input_schema.required.is_none());
}

#[test]
fn all_thirty_tools_register_under_distinct_names() {
    let all = ToolGroups { projects: true, issues: true, users: true, time_entries: true, reports: true, milestones: true };
    let mut reg: ToolRegistry<ToolKind> = ToolRegistry::new();
    for k in enabled_tools(all) {
        reg.register(ToolEntry { name: tool_name(k).to_string(), description: String::new(), input_schema: serde_json::Value::Null, executor: k });
    }
    assert_eq!(reg.tool_count(), 30);
    assert_eq!(reg.list_tools().len(), 30);
    let found = enabled_tools(all).iter().filter(|k| reg.has_tool(tool_name(**k))).count();
    assert_eq!(found, reg.tool_count());
    assert_eq!(reg.find_tool("complete_task"), Some(&ToolKind::CompleteIssue));
    assert!(reg.has_tool("log_time"));
}

#[test]
fn tool_arguments() {
    let a = default_list_issues_args();
    assert_eq!(a.limit, Some(25));
    let mut a = a;
    a.search = Some("login".to_string());
    let r = list_issues_request("b", list_issues_tool_filter(a));
    assert_eq!(r.cache_key.as_deref(), Some("issues_all_25_0_none_login_false__0_0_0_0_0"));
    let r = list_users_tool_request("b", default_list_users_args());
    assert_eq!(r.cache_key.as_deref(), Some("users_25_0__false_"));
    let r = report_project_request("b", 3);
    assert_eq!(r.query[0].value, "trackers,enabled_modules");
    let s = report_sections(None, Some(false), None);
    assert!(s.time_entries && !s.issues && s.users);
}

#[test]
fn settings_require_api_key() {
    let cfg = |key: Option<String>| ClientConfig {
        base_url: "https://ep".to_string(),
        api_key: key,
        timeout_seconds: 30,
        user_agent: "ua".to_string(),
        cache_enabled: true,
        cache_max_entries: 100,
        cache_ttl_seconds: 60,
        rate_limiting_enabled: false,
        requests_per_minute: 0,
        burst_size: 0,
    };
    assert_eq!(client_settings(cfg(None)).err().as_deref(), Some("Chybí API klíč pro EasyProject"));
    let s = client_settings(cfg(Some("k".to_string()))).ok().unwrap();
    assert_eq!(s.api_key, "k");
    assert!(s.cache.is_some() && s.rate_limit.is_none());
}

#[test]
fn milestone_dates() {
    let d = parse_optional_date(&Some("2025-12-01".to_string())).unwrap();
    assert_eq!((d.year(), d.month(), d.day()), (2025, 12, 1));
    assert!(parse_optional_date(&Some("1.12.2025".to_string())).is_none());
    assert!(parse_optional_date(&None).is_none());
}

#[test]
fn update_reply_reread() {
    assert!(update_reply_needs_reread(&ResponseBody::EmptyObject));
    assert!(update_reply_needs_reread(&ResponseBody::Json(serde_json::Value::Object(serde_json::Map::new()))));
    let mut m = serde_json::Map::new();
    m.insert("issue".to_string(), serde_json::Value::Null);
    assert!(!update_reply_needs_reread(&ResponseBody::Json(serde_json::Value::Object(m))));
    assert!(!update_reply_needs_reread(&ResponseBody::Json(serde_json::Value::Null)));
}

#[test]
fn workload_pages() {
    let f = workload_issues_filter(7, 200);
    assert_eq!(f.assigned_to_id, Some(7));
    assert_eq!((f.limit, f.offset, f.project_id), (Some(100), Some(200), None));
    let r = list_issues_request("b", workload_issues_filter(7, 0));
    assert_eq!(r.query.iter().map(|q| (q.key.as_str(), q.value.as_str())).collect::<Vec<_>>(),
        vec![("limit", "100"), ("offset", "0"), ("assigned_to_id", "7")]);
    assert_eq!(next_page_offset(0, 100, 100, Some(250)), Some(100));
    assert_eq!(next_page_offset(200, 100, 50, Some(250)), None);
    assert_eq!(next_page_offset(0, 100, 0, Some(250)), None);
    assert_eq!(next_page_offset(0, 100, 100, None), None);
    assert_eq!(next_page_offset(0, 100, 100, Some(-1)), None);
}

#[test]
fn failure_texts_with_ids() {
    assert_eq!(failure_with_id_message("Chyba při získávání úkolu", 12, "x"), "Chyba při získávání úkolu 12: x");
    assert_eq!(failure_with_name_message("Chyba při vytváření úkolu", "Login", "y"), "Chyba při vytváření úkolu 'Login': y");
}
