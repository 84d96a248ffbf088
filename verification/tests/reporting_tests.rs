use easyproject_mcp_server::dates::{parse_iso_date, CalendarDate};
use easyproject_mcp_server::reporting::{
    assigned_issue_selection, count_selected, kept, dashboard_issue_figures, dashboard_issue_selection,
    project_figures, project_selection, report_issue_figures, report_issue_selection,
    tally_by_label, text_in_window, time_entry_selection, workload_issue_figures, IssueFacts,
    ProjectFacts, ProjectStatus, TimeEntryFacts,
};

fn d(y: i32, m: u32, day: u32) -> CalendarDate {
    CalendarDate::new(y, m, day).unwrap()
}

fn issue(id: i32, project: i32, status: &str, prio: &str, assignee: Option<i32>, ratio: Option<i32>, created: Option<CalendarDate>, due: Option<CalendarDate>) -> IssueFacts {
    IssueFacts {
        id,
        project_id: project,
        status_name: status.to_string(),
        priority_name: prio.to_string(),
        assigned_to_id: assignee,
        done_ratio: ratio,
        created_on: created,
        due_date: due,
    }
}

fn sample() -> Vec<IssueFacts> {
    vec![
        issue(1, 175, "Nový", "Normální", Some(101), Some(0), Some(d(2024, 1, 10)), Some(d(2024, 2, 1))),
        issue(2, 175, "Hotovo", "Vysoká", Some(126), Some(100), Some(d(2024, 3, 5)), Some(d(2024, 1, 1))),
        issue(3, 189, "Realizace", "Normální", Some(101), Some(50), None, Some(d(2023, 12, 31))),
        issue(4, 189, "Nový", "Nízká", None, None, Some(d(2023, 12, 31)), None),
        issue(5, 175, "Realizace", "Normální", Some(101), Some(150), Some(d(2024, 6, 1)), None),
    ]
}

#[test]
fn window_compares_text() {
    let from = Some("2024-01-01".to_string());
    let to = Some("2024-03-05".to_string());
    assert!(text_in_window("2024-03-05", &from, &to));
    assert!(text_in_window("2024-01-01", &from, &to));
    assert!(!text_in_window("2023-12-31", &from, &to));
    assert!(!text_in_window("2024-03-06", &None, &to));
    assert!(text_in_window("2024-03-06", &from, &None));
    assert!(text_in_window("anything", &None, &None));
    assert!(text_in_window("2024-03-05 x", &None, &Some("2024-03-06".to_string())));
}

#[test]
fn report_selection_and_figures() {
    let issues = sample();
    let keep = report_issue_selection(&issues, &Some("2024-01-01".to_string()), &None);
    // issue 3 has no creation day and passes; issue 4 is too early
    assert_eq!(keep, vec![true, true, true, false, true]);
    let f = report_issue_figures(&issues, &keep);
    assert_eq!((f.total, f.completed, f.in_progress, f.pending), (4, 1, 1, 2));
    let all = report_issue_selection(&issues, &None, &None);
    assert_eq!(all, vec![true; 5]);
}

#[test]
fn dashboard_filters_and_overdue() {
    let issues = sample();
    let keep = dashboard_issue_selection(&issues, &Some(vec![175]), Some(101), &None, &None);
    assert_eq!(keep, vec![true, false, false, false, true]);
    let all = dashboard_issue_selection(&issues, &None, None, &None, &None);
    let f = dashboard_issue_figures(&issues, &all, d(2024, 1, 15));
    assert_eq!(f.total, 5);
    assert_eq!(f.completed, 1);
    assert_eq!(f.in_progress, 1);
    assert_eq!(f.pending, 4);
    // issue 3 due 2023-12-31 at 50 %; issue 2 is done
    assert_eq!(f.overdue, 1);
    let f = dashboard_issue_figures(&issues, &all, d(2024, 2, 2));
    assert_eq!(f.overdue, 2);
}

#[test]
fn workload_counts() {
    let issues = sample();
    let keep = assigned_issue_selection(&issues, 101);
    assert_eq!(keep, vec![true, false, true, false, true]);
    let f = workload_issue_figures(&issues, &keep);
    // ratio 150 is neither completed, in progress nor pending
    assert_eq!((f.total, f.completed, f.in_progress, f.pending), (3, 0, 1, 1));
}

#[test]
fn time_entries_and_projects() {
    let entries = vec![
        TimeEntryFacts { project_id: 1, spent_on: d(2024, 5, 1) },
        TimeEntryFacts { project_id: 2, spent_on: d(2024, 5, 2) },
        TimeEntryFacts { project_id: 1, spent_on: d(2024, 4, 30) },
    ];
    let keep = time_entry_selection(&entries, &Some(vec![1]), &Some("2024-05-01".to_string()), &None);
    assert_eq!(keep, vec![true, false, false]);
    assert_eq!(count_selected(&keep), 1);
    let projects = vec![
        ProjectFacts { id: 1, status: ProjectStatus::Active },
        ProjectFacts { id: 2, status: ProjectStatus::Closed },
        ProjectFacts { id: 3, status: ProjectStatus::Archived },
        ProjectFacts { id: 4, status: ProjectStatus::Other },
    ];
    let keep = project_selection(&projects, &None);
    let f = project_figures(&projects, &keep);
    assert_eq!((f.total, f.active, f.closed, f.archived), (4, 1, 1, 1));
    let keep = project_selection(&projects, &Some(vec![2, 3]));
    let f = project_figures(&projects, &keep);
    assert_eq!((f.total, f.active, f.closed, f.archived), (2, 0, 1, 1));
}

#[test]
fn tallies_by_status_and_priority() {
    let issues = sample();
    let keep = vec![true; 5];
    let mut t: Vec<(String, usize)> = tally_by_label(&issues, &keep, true).into_iter().map(|c| (c.name, c.count)).collect();
    t.sort();
    assert_eq!(t, vec![("Hotovo".to_string(), 1), ("Nový".to_string(), 2), ("Realizace".to_string(), 2)]);
    let mut t: Vec<(String, usize)> = tally_by_label(&issues, &vec![false, true, true, false, false], false).into_iter().map(|c| (c.name, c.count)).collect();
    t.sort();
    assert_eq!(t, vec![("Normální".to_string(), 1), ("Vysoká".to_string(), 1)]);
}

#[test]
fn tally_counts_add_up_to_selection() {
    let issues = sample();
    let keep = vec![true, false, true, true, false];
    let total: usize = tally_by_label(&issues, &keep, false).iter().map(|c| c.count).sum();
    assert_eq!(total, count_selected(&keep));
    assert_eq!(total, 3);
}

#[test]
fn dates() {
    assert!(CalendarDate::new(2024, 2, 29).is_some());
    assert!(CalendarDate::new(2023, 2, 29).is_none());
    assert!(CalendarDate::new(1900, 2, 29).is_none());
    assert!(CalendarDate::new(2000, 2, 29).is_some());
    assert!(CalendarDate::new(2024, 4, 31).is_none());
    assert!(CalendarDate::new(2024, 13, 1).is_none());
    assert!(CalendarDate::new(-4, 2, 29).is_some());
    assert_eq!(d(2024, 3, 5).to_iso_text(), "2024-03-05");
    assert_eq!(d(12345, 1, 2).to_iso_text(), "+12345-01-02");
    assert_eq!(d(-1, 12, 31).to_iso_text(), "-0001-12-31");
    assert!(d(2024, 1, 31).is_before(&d(2024, 2, 1)));
    assert!(!d(2024, 2, 1).is_before(&d(2024, 2, 1)));
    let p = parse_iso_date("2024-07-09").unwrap();
    assert_eq!((p.year(), p.month(), p.day()), (2024, 7, 9));
    assert!(parse_iso_date("2024-02-30").is_none());
    assert!(parse_iso_date("yesterday").is_none());
}

#[test]
fn kept_takes_marked_items_in_order() {
    assert_eq!(kept(vec!["a", "b", "c", "d"], &vec![true, false, false, true]), vec!["a", "d"]);
    assert_eq!(kept(Vec::<u8>::new(), &vec![]), Vec::<u8>::new());
}
