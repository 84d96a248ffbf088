use easyproject_mcp_server::enumeration::{
    EnumerationScan, EnumerationValue, IssueEnumerationFacts, ScanAction,
};

fn v(id: i32, name: &str) -> EnumerationValue {
    EnumerationValue { id, name: name.to_string() }
}

fn facts(s: (i32, &str), p: (i32, &str), t: (i32, &str)) -> IssueEnumerationFacts {
    IssueEnumerationFacts { status: v(s.0, s.1), priority: v(p.0, p.1), tracker: v(t.0, t.1) }
}

fn ids(vals: &[EnumerationValue]) -> Vec<(i32, String)> {
    vals.iter().map(|e| (e.id, e.name.clone())).collect()
}

fn offset_of(a: &ScanAction) -> Option<(u32, u32)> {
    match a {
        ScanAction::FetchPage { limit, offset } => Some((*limit, *offset)),
        ScanAction::Complete => None,
    }
}

#[test]
fn scan_collects_sorted_unique_values() {
    let mut scan = EnumerationScan::new();
    let a = scan.next_action();
    assert_eq!(offset_of(&a), Some((100, 0)));
    assert!(scan.awaiting_page());
    scan.record_page(
        &vec![
            facts((3, "Realizace"), (12, "Normální"), (1, "Úkol")),
            facts((2, "Nový"), (20, "Urgentní"), (5, "Chyba")),
            facts((3, "Realizace 2"), (12, "Normální"), (1, "Úkol")),
        ],
        Some(250),
    );
    assert!(!scan.awaiting_page());
    let a = scan.next_action();
    assert_eq!(offset_of(&a), Some((100, 100)));
    scan.record_page(&vec![facts((4, "Hotovo"), (29, "Nízká"), (1, "Úkol"))], Some(250));
    let a = scan.next_action();
    assert_eq!(offset_of(&a), Some((100, 200)));
    scan.record_page(&vec![facts((2, "Nový"), (13, "Vysoká"), (3, "Požadavek"))], Some(250));
    // offset 300 >= 250: the scan is over
    assert!(offset_of(&scan.next_action()).is_none());
    let r = scan.into_response();
    assert_eq!(
        ids(&r.statuses),
        vec![(2, "Nový".to_string()), (3, "Realizace 2".to_string()), (4, "Hotovo".to_string())]
    );
    assert_eq!(
        ids(&r.priorities),
        vec![
            (12, "Normální".to_string()),
            (13, "Vysoká".to_string()),
            (20, "Urgentní".to_string()),
            (29, "Nízká".to_string())
        ]
    );
    assert_eq!(
        ids(&r.trackers),
        vec![(1, "Úkol".to_string()), (3, "Požadavek".to_string()), (5, "Chyba".to_string())]
    );
}

#[test]
fn empty_page_ends_scan() {
    let mut scan = EnumerationScan::new();
    assert!(offset_of(&scan.next_action()).is_some());
    scan.record_page(&vec![], None);
    assert!(offset_of(&scan.next_action()).is_none());
    assert!(offset_of(&scan.next_action()).is_none());
    let r = scan.into_response();
    assert!(r.statuses.is_empty() && r.priorities.is_empty() && r.trackers.is_empty());
}

#[test]
fn scan_stops_after_twenty_pages() {
    let mut scan = EnumerationScan::new();
    let mut fetched = 0;
    loop {
        match scan.next_action() {
            ScanAction::FetchPage { limit, offset } => {
                assert_eq!(limit, 100);
                assert_eq!(offset, 100 * fetched);
                fetched += 1;
                scan.record_page(&vec![facts((1, "a"), (1, "b"), (1, "c"))], Some(i32::MAX));
            }
            ScanAction::Complete => break,
        }
    }
    assert_eq!(fetched, 20);
}

#[test]
fn missing_total_uses_page_length() {
    let mut scan = EnumerationScan::new();
    scan.next_action();
    // 2 issues and no total: offset 100 >= 2 ends the scan
    scan.record_page(&vec![facts((1, "a"), (1, "b"), (1, "c")), facts((2, "a"), (2, "b"), (2, "c"))], None);
    assert!(offset_of(&scan.next_action()).is_none());
}

#[test]
fn negative_total_wraps_as_unsigned() {
    let mut scan = EnumerationScan::new();
    scan.next_action();
    // -1 as u32 is u32::MAX: the scan goes on
    scan.record_page(&vec![facts((1, "a"), (1, "b"), (1, "c"))], Some(-1));
    assert_eq!(offset_of(&scan.next_action()), Some((100, 100)));
}
