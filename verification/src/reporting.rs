//! The figures of the report, dashboard and workload tools: which issues,
//! time entries and projects a request selects, and how many of them are
//! completed, in progress, pending or overdue.
//!
//! A selection is a list of flags, one per item, in the order of the items.
//! Sums of hours and completion rates are floating point and are computed
//! from these selections outside this crate.

use vstd::prelude::*;
use crate::dates::{CalendarDate, day_before};
use crate::text::{less_text, text_less};

verus! {

/// What the figures read of an issue.
pub struct IssueFacts {
    pub id: i32,
    pub project_id: i32,
    pub status_name: String,
    pub priority_name: String,
    pub assigned_to_id: Option<i32>,
    pub done_ratio: Option<i32>,
    /// Day of creation (UTC).
    pub created_on: Option<CalendarDate>,
    pub due_date: Option<CalendarDate>,
}

/// What the figures read of a time entry.
pub struct TimeEntryFacts {
    pub project_id: i32,
    pub spent_on: CalendarDate,
}

/// Status of a project.
#[derive(PartialEq, Eq, Structural, Clone, Copy, Debug)]
pub enum ProjectStatus {
    Active,
    Closed,
    Archived,
    /// Any other status.
    Other,
}

/// What the figures read of a project.
pub struct ProjectFacts {
    pub id: i32,
    pub status: ProjectStatus,
}

/// Number of indices `j < n` that satisfy `p`.
pub open spec fn count_where(n: nat, p: spec_fn(int) -> bool) -> nat
    decreases n,
{
    if n == 0 {
        0
    } else {
        count_where((n - 1) as nat, p) + if p(n - 1) {
            1nat
        } else {
            0nat
        }
    }
}

/// A date text lies in the window: not before `from`, not after `to`
/// (comparison of strings, as the tools compare dates).
pub open spec fn in_window(text: Seq<char>, from: Option<Seq<char>>, to: Option<Seq<char>>) -> bool {
    &&& (from matches Some(f) ==> !text_less(text, f))
    &&& (to matches Some(t) ==> !text_less(t, text))
}

/// An issue passes the date window by its creation day; an issue without
/// a creation day passes.
pub open spec fn created_in_window(i: IssueFacts, from: Option<Seq<char>>, to: Option<Seq<char>>) -> bool {
    match i.created_on {
        Some(d) => in_window(d.iso_text(), from, to),
        None => true,
    }
}

/// An id passes an optional list of ids: every id passes when there is no list.
pub open spec fn id_listed(ids: Option<Vec<i32>>, id: i32) -> bool {
    match ids {
        Some(v) => v@.contains(id),
        None => true,
    }
}

/// The done ratio of an issue, 0 where it has none.
pub open spec fn ratio(i: IssueFacts) -> int {
    match i.done_ratio {
        Some(r) => r as int,
        None => 0,
    }
}

pub open spec fn is_completed(i: IssueFacts) -> bool {
    ratio(i) == 100
}

pub open spec fn is_in_progress(i: IssueFacts) -> bool {
    0 < ratio(i) < 100
}

pub open spec fn is_not_started(i: IssueFacts) -> bool {
    ratio(i) == 0
}

/// Due strictly before `today` and not completed to 100 %.
pub open spec fn is_overdue(i: IssueFacts, today: CalendarDate) -> bool {
    &&& i.due_date matches Some(d)
    &&& day_before(d.ymd(), today.ymd())
    &&& ratio(i) < 100
}

// ---------------------------------------------------------------- counting lemmas

/// `a` and `b` split `p`: disjoint parts of it, so their counts add up to
/// at most that of `p`, and to exactly that where they cover it.
proof fn lemma_count_disjoint(
    n: nat,
    p: spec_fn(int) -> bool,
    a: spec_fn(int) -> bool,
    b: spec_fn(int) -> bool,
)
    requires
        forall|j: int| 0 <= j < n ==> (#[trigger] a(j) ==> p(j)) && (b(j) ==> p(j)) && !(a(j) && b(j)),
    ensures
        count_where(n, a) + count_where(n, b) <= count_where(n, p),
        (forall|j: int| 0 <= j < n && #[trigger] p(j) ==> a(j) || b(j)) ==> count_where(n, a)
            + count_where(n, b) == count_where(n, p),
    decreases n,
{
    if n > 0 {
        lemma_count_disjoint((n - 1) as nat, p, a, b);
        assert(a(n - 1) ==> p(n - 1));
        assert(b(n - 1) ==> p(n - 1));
    }
}

// ---------------------------------------------------------------- selections

/// Whether a date text lies in the window.
pub fn text_in_window(text: &str, from: &Option<String>, to: &Option<String>) -> (r: bool)
    ensures
        r == in_window(text@, from.deep_view(), to.deep_view()),
{
    let after_from = match from {
        Some(f) => !less_text(text, f.as_str()),
        None => true,
    };
    let before_to = match to {
        Some(t) => !less_text(t.as_str(), text),
        None => true,
    };
    after_from && before_to
}

fn issue_created_in_window(issue: &IssueFacts, from: &Option<String>, to: &Option<String>) -> (r: bool)
    ensures
        r == created_in_window(*issue, from.deep_view(), to.deep_view()),
{
    match &issue.created_on {
        Some(d) => {
            let text = d.to_iso_text();
            text_in_window(text.as_str(), from, to)
        },
        None => true,
    }
}

fn id_in_list(ids: &Option<Vec<i32>>, id: i32) -> (r: bool)
    ensures
        r == id_listed(*ids, id),
{
    match ids {
        Some(v) => {
            let mut k: usize = 0;
            while k < v.len()
                invariant
                    k <= v.len(),
                    *ids == Some(*v),
                    forall|j: int| 0 <= j < k ==> v@[j] != id,
                decreases v.len() - k,
            {
                if v[k] == id {
                    assert(v@[k as int] == id);
                    assert(v@.contains(id));
                    return true;
                }
                k = k + 1;
            }
            assert(!v@.contains(id));
            false
        },
        None => true,
    }
}

/// Issues of the report: those created within the date window.
pub fn report_issue_selection(issues: &Vec<IssueFacts>, from: &Option<String>, to: &Option<String>) -> (keep: Vec<bool>)
    ensures
        keep.len() == issues.len(),
        forall|j: int|
            0 <= j < issues.len() ==> #[trigger] keep@[j] == created_in_window(
                issues@[j],
                from.deep_view(),
                to.deep_view(),
            ),
{
    let mut keep: Vec<bool> = Vec::new();
    let mut k: usize = 0;
    while k < issues.len()
        invariant
            k <= issues.len(),
            keep.len() == k,
            forall|j: int|
                0 <= j < k ==> #[trigger] keep@[j] == created_in_window(
                    issues@[j],
                    from.deep_view(),
                    to.deep_view(),
                ),
        decreases issues.len() - k,
    {
        let b = issue_created_in_window(&issues[k], from, to);
        keep.push(b);
        k = k + 1;
    }
    keep
}

/// The dashboard's issue filter: in one of the listed projects (if any are
/// listed), assigned to the user (if one is given), created within the
/// date window.
pub open spec fn dashboard_issue_kept(
    i: IssueFacts,
    project_ids: Option<Vec<i32>>,
    user_id: Option<i32>,
    from: Option<Seq<char>>,
    to: Option<Seq<char>>,
) -> bool {
    &&& id_listed(project_ids, i.project_id)
    &&& (user_id matches Some(u) ==> i.assigned_to_id == Some(u))
    &&& created_in_window(i, from, to)
}

/// Issues of the dashboard.
pub fn dashboard_issue_selection(
    issues: &Vec<IssueFacts>,
    project_ids: &Option<Vec<i32>>,
    user_id: Option<i32>,
    from: &Option<String>,
    to: &Option<String>,
) -> (keep: Vec<bool>)
    ensures
        keep.len() == issues.len(),
        forall|j: int|
            0 <= j < issues.len() ==> #[trigger] keep@[j] == dashboard_issue_kept(
                issues@[j],
                *project_ids,
                user_id,
                from.deep_view(),
                to.deep_view(),
            ),
{
    let mut keep: Vec<bool> = Vec::new();
    let mut k: usize = 0;
    while k < issues.len()
        invariant
            k <= issues.len(),
            keep.len() == k,
            forall|j: int|
                0 <= j < k ==> #[trigger] keep@[j] == dashboard_issue_kept(
                    issues@[j],
                    *project_ids,
                    user_id,
                    from.deep_view(),
                    to.deep_view(),
                ),
        decreases issues.len() - k,
    {
        let issue = &issues[k];
        let in_projects = id_in_list(project_ids, issue.project_id);
        let for_user = match user_id {
            Some(u) => match issue.assigned_to_id {
                Some(a) => a == u,
                None => false,
            },
            None => true,
        };
        let b = in_projects && for_user && issue_created_in_window(issue, from, to);
        keep.push(b);
        k = k + 1;
    }
    keep
}

/// Issues assigned to the user (the workload tool).
pub fn assigned_issue_selection(issues: &Vec<IssueFacts>, user_id: i32) -> (keep: Vec<bool>)
    ensures
        keep.len() == issues.len(),
        forall|j: int|
            0 <= j < issues.len() ==> #[trigger] keep@[j] == (issues@[j].assigned_to_id == Some(
                user_id,
            )),
{
    let mut keep: Vec<bool> = Vec::new();
    let mut k: usize = 0;
    while k < issues.len()
        invariant
            k <= issues.len(),
            keep.len() == k,
            forall|j: int|
                0 <= j < k ==> #[trigger] keep@[j] == (issues@[j].assigned_to_id == Some(user_id)),
        decreases issues.len() - k,
    {
        let b = match issues[k].assigned_to_id {
            Some(a) => a == user_id,
            None => false,
        };
        keep.push(b);
        k = k + 1;
    }
    keep
}

/// A time entry passes: in one of the listed projects (if any are listed)
/// and spent within the date window.
pub open spec fn time_entry_kept(
    e: TimeEntryFacts,
    project_ids: Option<Vec<i32>>,
    from: Option<Seq<char>>,
    to: Option<Seq<char>>,
) -> bool {
    id_listed(project_ids, e.project_id) && in_window(e.spent_on.iso_text(), from, to)
}

/// Time entries of the report, the dashboard and the workload.
pub fn time_entry_selection(
    entries: &Vec<TimeEntryFacts>,
    project_ids: &Option<Vec<i32>>,
    from: &Option<String>,
    to: &Option<String>,
) -> (keep: Vec<bool>)
    ensures
        keep.len() == entries.len(),
        forall|j: int|
            0 <= j < entries.len() ==> #[trigger] keep@[j] == time_entry_kept(
                entries@[j],
                *project_ids,
                from.deep_view(),
                to.deep_view(),
            ),
{
    let mut keep: Vec<bool> = Vec::new();
    let mut k: usize = 0;
    while k < entries.len()
        invariant
            k <= entries.len(),
            keep.len() == k,
            forall|j: int|
                0 <= j < k ==> #[trigger] keep@[j] == time_entry_kept(
                    entries@[j],
                    *project_ids,
                    from.deep_view(),
                    to.deep_view(),
                ),
        decreases entries.len() - k,
    {
        let e = &entries[k];
        let in_projects = id_in_list(project_ids, e.project_id);
        let text = e.spent_on.to_iso_text();
        let b = in_projects && text_in_window(text.as_str(), from, to);
        keep.push(b);
        k = k + 1;
    }
    keep
}

/// Projects of the dashboard: the listed ones, or all.
pub fn project_selection(projects: &Vec<ProjectFacts>, project_ids: &Option<Vec<i32>>) -> (keep: Vec<bool>)
    ensures
        keep.len() == projects.len(),
        forall|j: int|
            0 <= j < projects.len() ==> #[trigger] keep@[j] == id_listed(*project_ids, projects@[j].id),
{
    let mut keep: Vec<bool> = Vec::new();
    let mut k: usize = 0;
    while k < projects.len()
        invariant
            k <= projects.len(),
            keep.len() == k,
            forall|j: int|
                0 <= j < k ==> #[trigger] keep@[j] == id_listed(*project_ids, projects@[j].id),
        decreases projects.len() - k,
    {
        let b = id_in_list(project_ids, projects[k].id);
        keep.push(b);
        k = k + 1;
    }
    keep
}


// ---------------------------------------------------------------- progress figures

/// Number of selected items.
pub open spec fn selected_count(keep: Seq<bool>) -> nat {
    count_where(keep.len(), |j: int| keep[j])
}

/// Number of selected issues that satisfy `p`.
pub open spec fn selected_where(
    issues: Seq<IssueFacts>,
    keep: Seq<bool>,
    p: spec_fn(IssueFacts) -> bool,
) -> nat {
    count_where(keep.len(), |j: int| keep[j] && p(issues[j]))
}

pub open spec fn completed_count(issues: Seq<IssueFacts>, keep: Seq<bool>) -> nat {
    selected_where(issues, keep, |i: IssueFacts| is_completed(i))
}

pub open spec fn in_progress_count(issues: Seq<IssueFacts>, keep: Seq<bool>) -> nat {
    selected_where(issues, keep, |i: IssueFacts| is_in_progress(i))
}

pub open spec fn not_started_count(issues: Seq<IssueFacts>, keep: Seq<bool>) -> nat {
    selected_where(issues, keep, |i: IssueFacts| is_not_started(i))
}

pub open spec fn overdue_count(issues: Seq<IssueFacts>, keep: Seq<bool>, today: CalendarDate) -> nat {
    selected_where(issues, keep, |i: IssueFacts| is_overdue(i, today))
}

/// Counts of the selected issues.
pub struct IssueFigures {
    pub total: usize,
    pub completed: usize,
    pub in_progress: usize,
    pub pending: usize,
}

/// Counts of the selected issues on the dashboard.
pub struct DashboardIssueFigures {
    pub total: usize,
    pub completed: usize,
    pub in_progress: usize,
    pub pending: usize,
    pub overdue: usize,
}

struct Tally {
    total: usize,
    completed: usize,
    in_progress: usize,
    not_started: usize,
    overdue: usize,
}

fn tally(issues: &Vec<IssueFacts>, keep: &Vec<bool>, today: Option<CalendarDate>) -> (r: Tally)
    requires
        keep.len() == issues.len(),
    ensures
        r.total == selected_count(keep@),
        r.completed == completed_count(issues@, keep@),
        r.in_progress == in_progress_count(issues@, keep@),
        r.not_started == not_started_count(issues@, keep@),
        today matches Some(t) ==> r.overdue == overdue_count(issues@, keep@, t),
{
    let ghost ks = keep@;
    let ghost is = issues@;
    let ghost p_sel = |j: int| ks[j];
    let ghost p_done = |j: int| ks[j] && is_completed(is[j]);
    let ghost p_prog = |j: int| ks[j] && is_in_progress(is[j]);
    let ghost p_zero = |j: int| ks[j] && is_not_started(is[j]);
    let ghost p_late = |j: int| ks[j] && (today matches Some(t) && is_overdue(is[j], t));
    let mut r = Tally { total: 0, completed: 0, in_progress: 0, not_started: 0, overdue: 0 };
    let mut k: usize = 0;
    while k < issues.len()
        invariant
            k <= issues.len(),
            keep.len() == issues.len(),
            ks == keep@,
            is == issues@,
            p_sel == (|j: int| ks[j]),
            p_done == (|j: int| ks[j] && is_completed(is[j])),
            p_prog == (|j: int| ks[j] && is_in_progress(is[j])),
            p_zero == (|j: int| ks[j] && is_not_started(is[j])),
            p_late == (|j: int| ks[j] && (today matches Some(t) && is_overdue(is[j], t))),
            r.total == count_where(k as nat, p_sel),
            r.completed == count_where(k as nat, p_done),
            r.in_progress == count_where(k as nat, p_prog),
            r.not_started == count_where(k as nat, p_zero),
            r.overdue == count_where(k as nat, p_late),
            r.total <= k,
            r.completed <= k,
            r.in_progress <= k,
            r.not_started <= k,
            r.overdue <= k,
        decreases issues.len() - k,
    {
        if keep[k] {
            let issue = &issues[k];
            let ratio: i32 = match issue.done_ratio {
                Some(x) => x,
                None => 0,
            };
            r.total = r.total + 1;
            if ratio == 100 {
                r.completed = r.completed + 1;
            }
            if 0 < ratio && ratio < 100 {
                r.in_progress = r.in_progress + 1;
            }
            if ratio == 0 {
                r.not_started = r.not_started + 1;
            }
            let late = match (&issue.due_date, &today) {
                (Some(d), Some(t)) => d.is_before(t) && ratio < 100,
                _ => false,
            };
            if late {
                r.overdue = r.overdue + 1;
            }
        }
        proof {
            let k1 = (k + 1) as nat;
            assert(count_where(k1, p_sel) == count_where(k as nat, p_sel) + if p_sel(k as int) { 1nat } else { 0nat });
            assert(count_where(k1, p_done) == count_where(k as nat, p_done) + if p_done(k as int) { 1nat } else { 0nat });
            assert(count_where(k1, p_prog) == count_where(k as nat, p_prog) + if p_prog(k as int) { 1nat } else { 0nat });
            assert(count_where(k1, p_zero) == count_where(k as nat, p_zero) + if p_zero(k as int) { 1nat } else { 0nat });
            assert(count_where(k1, p_late) == count_where(k as nat, p_late) + if p_late(k as int) { 1nat } else { 0nat });
        }
        k = k + 1;
    }
    proof {
        assert(p_done == (|j: int| keep@[j] && (|i: IssueFacts| is_completed(i))(issues@[j])));
        assert(p_prog == (|j: int| keep@[j] && (|i: IssueFacts| is_in_progress(i))(issues@[j])));
        assert(p_zero == (|j: int| keep@[j] && (|i: IssueFacts| is_not_started(i))(issues@[j])));
        if today is Some {
            let t = today->0;
            assert(p_late == (|j: int| keep@[j] && (|i: IssueFacts| is_overdue(i, t))(issues@[j])));
        }
    }
    r
}

/// Figures of the project report: `pending` is what is neither completed
/// nor in progress.
pub fn report_issue_figures(issues: &Vec<IssueFacts>, keep: &Vec<bool>) -> (r: IssueFigures)
    requires
        keep.len() == issues.len(),
    ensures
        r.total == selected_count(keep@),
        r.completed == completed_count(issues@, keep@),
        r.in_progress == in_progress_count(issues@, keep@),
        r.pending == r.total - r.completed - r.in_progress,
        r.completed + r.in_progress + r.pending == r.total,
{
    let t = tally(issues, keep, None);
    proof {
        lemma_report_counts_fit(issues@, keep@);
    }
    IssueFigures {
        total: t.total,
        completed: t.completed,
        in_progress: t.in_progress,
        pending: t.total - t.completed - t.in_progress,
    }
}

/// Figures of the dashboard: `pending` is what is not completed; `overdue`
/// counts issues due before `today` and not completed.
pub fn dashboard_issue_figures(issues: &Vec<IssueFacts>, keep: &Vec<bool>, today: CalendarDate) -> (r: DashboardIssueFigures)
    requires
        keep.len() == issues.len(),
    ensures
        r.total == selected_count(keep@),
        r.completed == completed_count(issues@, keep@),
        r.in_progress == in_progress_count(issues@, keep@),
        r.pending == r.total - r.completed,
        r.overdue == overdue_count(issues@, keep@, today),
        r.overdue <= r.pending,
        r.in_progress <= r.pending,
{
    let t = tally(issues, keep, Some(today));
    proof {
        lemma_dashboard_counts_fit(issues@, keep@, today);
    }
    DashboardIssueFigures {
        total: t.total,
        completed: t.completed,
        in_progress: t.in_progress,
        pending: t.total - t.completed,
        overdue: t.overdue,
    }
}

/// Figures of a user's workload: `pending` counts issues at 0 %.
pub fn workload_issue_figures(issues: &Vec<IssueFacts>, keep: &Vec<bool>) -> (r: IssueFigures)
    requires
        keep.len() == issues.len(),
    ensures
        r.total == selected_count(keep@),
        r.completed == completed_count(issues@, keep@),
        r.in_progress == in_progress_count(issues@, keep@),
        r.pending == not_started_count(issues@, keep@),
        r.completed + r.in_progress + r.pending <= r.total,
{
    let t = tally(issues, keep, None);
    proof {
        lemma_workload_counts_bounded(issues@, keep@);
    }
    IssueFigures {
        total: t.total,
        completed: t.completed,
        in_progress: t.in_progress,
        pending: t.not_started,
    }
}

/// Law: in the report, completed and in-progress issues are disjoint parts
/// of the selection, so `pending` is never negative.
pub proof fn lemma_report_counts_fit(issues: Seq<IssueFacts>, keep: Seq<bool>)
    requires
        keep.len() == issues.len(),
    ensures
        completed_count(issues, keep) + in_progress_count(issues, keep) <= selected_count(keep),
{
    let n = keep.len();
    lemma_count_disjoint(
        n,
        |j: int| keep[j],
        |j: int| keep[j] && (|i: IssueFacts| is_completed(i))(issues[j]),
        |j: int| keep[j] && (|i: IssueFacts| is_in_progress(i))(issues[j]),
    );
}

/// Law: on the dashboard, overdue issues and issues in progress are among
/// the pending (not completed) ones.
pub proof fn lemma_dashboard_counts_fit(issues: Seq<IssueFacts>, keep: Seq<bool>, today: CalendarDate)
    requires
        keep.len() == issues.len(),
    ensures
        completed_count(issues, keep) <= selected_count(keep),
        overdue_count(issues, keep, today) + completed_count(issues, keep) <= selected_count(keep),
        in_progress_count(issues, keep) + completed_count(issues, keep) <= selected_count(keep),
{
    let n = keep.len();
    let sel = |j: int| keep[j];
    let done = |j: int| keep[j] && (|i: IssueFacts| is_completed(i))(issues[j]);
    lemma_count_disjoint(n, sel, |j: int| keep[j] && (|i: IssueFacts| is_overdue(i, today))(issues[j]), done);
    lemma_count_disjoint(n, sel, |j: int| keep[j] && (|i: IssueFacts| is_in_progress(i))(issues[j]), done);
}

/// Law: in a workload, completed, in-progress and not-started issues never
/// count more than the selection.
pub proof fn lemma_workload_counts_bounded(issues: Seq<IssueFacts>, keep: Seq<bool>)
    requires
        keep.len() == issues.len(),
    ensures
        completed_count(issues, keep) + in_progress_count(issues, keep) + not_started_count(issues, keep)
            <= selected_count(keep),
{
    let n = keep.len();
    let sel = |j: int| keep[j];
    let done = |j: int| keep[j] && (|i: IssueFacts| is_completed(i))(issues[j]);
    let prog = |j: int| keep[j] && (|i: IssueFacts| is_in_progress(i))(issues[j]);
    let zero = |j: int| keep[j] && (|i: IssueFacts| is_not_started(i))(issues[j]);
    let done_or_prog = |j: int| keep[j] && (is_completed(issues[j]) || is_in_progress(issues[j]));
    lemma_count_disjoint(n, done_or_prog, done, prog);
    lemma_count_disjoint(n, sel, done_or_prog, zero);
}

/// Law: where every selected issue has a done ratio between 0 and 100, the
/// workload's completed, in-progress and pending issues make up the whole
/// selection.
pub proof fn lemma_workload_counts_cover(issues: Seq<IssueFacts>, keep: Seq<bool>)
    requires
        keep.len() == issues.len(),
        forall|j: int| 0 <= j < keep.len() && keep[j] ==> 0 <= #[trigger] ratio(issues[j]) <= 100,
    ensures
        completed_count(issues, keep) + in_progress_count(issues, keep) + not_started_count(issues, keep)
            == selected_count(keep),
{
    let n = keep.len();
    let sel = |j: int| keep[j];
    let done = |j: int| keep[j] && (|i: IssueFacts| is_completed(i))(issues[j]);
    let prog = |j: int| keep[j] && (|i: IssueFacts| is_in_progress(i))(issues[j]);
    let zero = |j: int| keep[j] && (|i: IssueFacts| is_not_started(i))(issues[j]);
    let done_or_prog = |j: int| keep[j] && (is_completed(issues[j]) || is_in_progress(issues[j]));
    lemma_count_disjoint(n, done_or_prog, done, prog);
    assert forall|j: int| 0 <= j < n && #[trigger] sel(j) implies done_or_prog(j) || zero(j) by {
        assert(0 <= ratio(issues[j]) <= 100);
    }
    lemma_count_disjoint(n, sel, done_or_prog, zero);
}


// ---------------------------------------------------------------- other figures

proof fn lemma_count_step(n: nat, p: spec_fn(int) -> bool)
    ensures
        count_where(n + 1, p) == count_where(n, p) + if p(n as int) {
            1nat
        } else {
            0nat
        },
{
    assert(((n + 1) as nat - 1) as nat == n);
}

proof fn lemma_count_none(n: nat, p: spec_fn(int) -> bool)
    requires
        forall|j: int| 0 <= j < n ==> !#[trigger] p(j),
    ensures
        count_where(n, p) == 0,
    decreases n,
{
    if n > 0 {
        lemma_count_none((n - 1) as nat, p);
    }
}

/// The items whose mark is set, in order.
pub open spec fn kept_items<T>(items: Seq<T>, keep: Seq<bool>) -> Seq<T>
    decreases items.len(),
{
    if items.len() == 0 {
        Seq::empty()
    } else {
        kept_items(items.drop_last(), keep.take(items.len() - 1)) + if keep[items.len() - 1] {
            seq![items.last()]
        } else {
            Seq::empty()
        }
    }
}

/// The items of a selection: those whose mark is set, in order.
pub fn kept<T>(items: Vec<T>, keep: &Vec<bool>) -> (r: Vec<T>)
    requires
        keep.len() == items.len(),
    ensures
        r@ == kept_items(items@, keep@),
{
    let ghost all = items@;
    let n: usize = items.len();
    let mut rest = items;
    let mut r: Vec<T> = Vec::new();
    let mut k: usize = 0;
    while k < n
        invariant
            k <= n,
            n == all.len(),
            keep.len() == n,
            rest@ == all.subrange(k as int, n as int),
            r@ == kept_items(all.take(k as int), keep@.take(k as int)),
        decreases n - k,
    {
        let x = rest.remove(0);
        proof {
            let t = all.take(k + 1);
            assert(t.drop_last() =~= all.take(k as int));
            assert(keep@.take(k + 1).take(k as int) =~= keep@.take(k as int));
            assert(t.last() == all[k as int]);
        }
        if keep[k] {
            r.push(x);
        }
        k = k + 1;
        proof {
            assert(rest@ =~= all.subrange(k as int, n as int));
        }
    }
    assert(all.take(n as int) =~= all);
    assert(keep@.take(n as int) =~= keep@);
    r
}

/// Number of selected items (time entries, issues, users, ...).
pub fn count_selected(keep: &Vec<bool>) -> (r: usize)
    ensures
        r == selected_count(keep@),
{
    let ghost ks = keep@;
    let mut c: usize = 0;
    let mut k: usize = 0;
    while k < keep.len()
        invariant
            k <= keep.len(),
            ks == keep@,
            c == count_where(k as nat, |j: int| ks[j]),
            c <= k,
        decreases keep.len() - k,
    {
        proof {
            lemma_count_step(k as nat, |j: int| ks[j]);
        }
        if keep[k] {
            c = c + 1;
        }
        k = k + 1;
    }
    c
}

/// Counts of the selected projects by status.
pub struct ProjectFigures {
    pub total: usize,
    pub active: usize,
    pub closed: usize,
    pub archived: usize,
}

pub open spec fn projects_with(projects: Seq<ProjectFacts>, keep: Seq<bool>, s: ProjectStatus) -> nat {
    count_where(keep.len(), |j: int| keep[j] && projects[j].status == s)
}

/// How many selected projects are active, closed and archived.
pub fn project_figures(projects: &Vec<ProjectFacts>, keep: &Vec<bool>) -> (r: ProjectFigures)
    requires
        keep.len() == projects.len(),
    ensures
        r.total == selected_count(keep@),
        r.active == projects_with(projects@, keep@, ProjectStatus::Active),
        r.closed == projects_with(projects@, keep@, ProjectStatus::Closed),
        r.archived == projects_with(projects@, keep@, ProjectStatus::Archived),
        r.active + r.closed + r.archived <= r.total,
{
    let ghost ks = keep@;
    let ghost ps = projects@;
    let mut r = ProjectFigures { total: 0, active: 0, closed: 0, archived: 0 };
    let mut k: usize = 0;
    while k < keep.len()
        invariant
            k <= keep.len(),
            keep.len() == projects.len(),
            ks == keep@,
            ps == projects@,
            r.total == count_where(k as nat, |j: int| ks[j]),
            r.active == count_where(k as nat, |j: int| ks[j] && ps[j].status == ProjectStatus::Active),
            r.closed == count_where(k as nat, |j: int| ks[j] && ps[j].status == ProjectStatus::Closed),
            r.archived == count_where(k as nat, |j: int| ks[j] && ps[j].status == ProjectStatus::Archived),
            r.active + r.closed + r.archived <= r.total,
            r.total <= k,
        decreases keep.len() - k,
    {
        proof {
            lemma_count_step(k as nat, |j: int| ks[j]);
            lemma_count_step(k as nat, |j: int| ks[j] && ps[j].status == ProjectStatus::Active);
            lemma_count_step(k as nat, |j: int| ks[j] && ps[j].status == ProjectStatus::Closed);
            lemma_count_step(k as nat, |j: int| ks[j] && ps[j].status == ProjectStatus::Archived);
        }
        if keep[k] {
            r.total = r.total + 1;
            match projects[k].status {
                ProjectStatus::Active => {
                    r.active = r.active + 1;
                },
                ProjectStatus::Closed => {
                    r.closed = r.closed + 1;
                },
                ProjectStatus::Archived => {
                    r.archived = r.archived + 1;
                },
                ProjectStatus::Other => {},
            }
        }
        k = k + 1;
    }
    r
}

/// How many selected issues carry a given status or priority name.
pub struct NameCount {
    pub name: String,
    pub count: usize,
}

/// The status name (or, for `by_status == false`, the priority name) of an issue.
pub open spec fn issue_label(i: IssueFacts, by_status: bool) -> Seq<char> {
    if by_status {
        i.status_name@
    } else {
        i.priority_name@
    }
}

/// Number of selected issues whose label is `name`.
pub open spec fn label_count(issues: Seq<IssueFacts>, keep: Seq<bool>, by_status: bool, name: Seq<char>) -> nat {
    count_where(keep.len(), |j: int| keep[j] && issue_label(issues[j], by_status) == name)
}

/// The tally lists each label once, with the number of selected issues that
/// carry it, and every label of a selected issue is listed.
pub open spec fn is_label_tally(
    issues: Seq<IssueFacts>,
    keep: Seq<bool>,
    by_status: bool,
    tally: Seq<NameCount>,
) -> bool {
    &&& forall|a: int, b: int| 0 <= a < b < tally.len() ==> tally[a].name@ != tally[b].name@
    &&& forall|a: int|
        0 <= a < tally.len() ==> #[trigger] tally[a].count == label_count(issues, keep, by_status, tally[a].name@)
            && tally[a].count > 0
    &&& forall|j: int|
        0 <= j < keep.len() && #[trigger] keep[j] ==> exists|a: int|
            0 <= a < tally.len() && tally[a].name@ == issue_label(issues[j], by_status)
}

/// The sum of the counts of a tally.
pub open spec fn tally_total(tally: Seq<NameCount>) -> nat
    decreases tally.len(),
{
    if tally.len() == 0 {
        0
    } else {
        tally_total(tally.drop_last()) + tally.last().count as nat
    }
}

proof fn lemma_tally_total_push(t: Seq<NameCount>, x: NameCount)
    ensures
        tally_total(t.push(x)) == tally_total(t) + x.count,
{
    assert(t.push(x).drop_last() =~= t);
}

proof fn lemma_tally_total_update(t: Seq<NameCount>, a: int, x: NameCount)
    requires
        0 <= a < t.len(),
    ensures
        tally_total(t.update(a, x)) + t[a].count == tally_total(t) + x.count,
    decreases t.len(),
{
    let u = t.update(a, x);
    if a < t.len() - 1 {
        assert(u.drop_last() =~= t.drop_last().update(a, x));
        lemma_tally_total_update(t.drop_last(), a, x);
    } else {
        assert(u.drop_last() =~= t.drop_last());
    }
}

fn label_of(issue: &IssueFacts, by_status: bool) -> (r: &String)
    ensures
        r@ == issue_label(*issue, by_status),
{
    if by_status {
        &issue.status_name
    } else {
        &issue.priority_name
    }
}

/// Selected issues counted by status name (`by_status`) or by priority name.
pub fn tally_by_label(issues: &Vec<IssueFacts>, keep: &Vec<bool>, by_status: bool) -> (r: Vec<NameCount>)
    requires
        keep.len() == issues.len(),
    ensures
        is_label_tally(issues@, keep@, by_status, r@),
        tally_total(r@) == selected_count(keep@),
{
    let ghost ks = keep@;
    let ghost is = issues@;
    let mut r: Vec<NameCount> = Vec::new();
    let mut k: usize = 0;
    while k < keep.len()
        invariant
            k <= keep.len(),
            keep.len() == issues.len(),
            ks == keep@,
            is == issues@,
            forall|a: int, b: int| 0 <= a < b < r.len() ==> r@[a].name@ != r@[b].name@,
            forall|a: int|
                0 <= a < r.len() ==> #[trigger] r@[a].count == count_where(
                    k as nat,
                    |j: int| ks[j] && issue_label(is[j], by_status) == r@[a].name@,
                ) && r@[a].count > 0 && r@[a].count <= k,
            forall|j: int|
                0 <= j < k && #[trigger] ks[j] ==> exists|a: int|
                    0 <= a < r.len() && r@[a].name@ == issue_label(is[j], by_status),
            tally_total(r@) == count_where(k as nat, |j: int| ks[j]),
        decreases keep.len() - k,
    {
        if keep[k] {
            let label = label_of(&issues[k], by_status);
            let mut a: usize = 0;
            while a < r.len() && !(r[a].name == *label)
                invariant
                    a <= r.len(),
                    forall|b: int| 0 <= b < a ==> r@[b].name@ != label@,
                decreases r.len() - a,
            {
                a = a + 1;
            }
            let ghost before = r@;
            if a < r.len() {
                let c = r[a].count;
                let name = r[a].name.clone();
                proof {
                    lemma_tally_total_update(r@, a as int, NameCount { name, count: (c + 1) as usize });
                }
                r.set(a, NameCount { name, count: c + 1 });
            } else {
                let fresh = NameCount { name: label.clone(), count: 1 };
                proof {
                    lemma_tally_total_push(r@, fresh);
                }
                r.push(fresh);
                proof {
                    lemma_count_none(
                        k as nat,
                        |j: int| ks[j] && issue_label(is[j], by_status) == label@,
                    );
                }
            }
            proof {
                assert forall|b: int| 0 <= b < r.len() implies #[trigger] r@[b].count == count_where(
                    (k + 1) as nat,
                    |j: int| ks[j] && issue_label(is[j], by_status) == r@[b].name@,
                ) by {
                    lemma_count_step(k as nat, |j: int| ks[j] && issue_label(is[j], by_status) == r@[b].name@);
                }
                assert forall|j: int| 0 <= j < k + 1 && #[trigger] ks[j] implies exists|b: int|
                    0 <= b < r.len() && r@[b].name@ == issue_label(is[j], by_status) by {
                    if j < k {
                        let b = choose|b: int| 0 <= b < before.len() && before[b].name@ == issue_label(is[j], by_status);
                        assert(r@[b].name@ == before[b].name@);
                    } else {
                        assert(r@[a as int].name@ == label@);
                    }
                }
            }
        } else {
            proof {
                assert forall|b: int| 0 <= b < r.len() implies #[trigger] r@[b].count == count_where(
                    (k + 1) as nat,
                    |j: int| ks[j] && issue_label(is[j], by_status) == r@[b].name@,
                ) by {
                    lemma_count_step(k as nat, |j: int| ks[j] && issue_label(is[j], by_status) == r@[b].name@);
                }
            }
        }
        proof {
            lemma_count_step(k as nat, |j: int| ks[j]);
        }
        k = k + 1;
    }
    r
}

// ---------------------------------------------------------------- window laws

/// Law: an issue passes the report's date window exactly when it has no
/// creation day, or its day's text is not before `from` (where given) and
/// not after `to` (where given).
pub proof fn lemma_report_window(i: IssueFacts, from: Option<Seq<char>>, to: Option<Seq<char>>)
    ensures
        i.created_on is None ==> created_in_window(i, from, to),
        i.created_on matches Some(d) ==> (created_in_window(i, from, to) <==> (
        (from matches Some(f) ==> !text_less(d.iso_text(), f))
            && (to matches Some(t) ==> !text_less(t, d.iso_text())))),
{
}

/// Law: the dashboard keeps an issue exactly when it lies in one of the
/// listed projects (if any are listed), is assigned to the given user (if
/// one is given), and was created within the date window (if it has a
/// creation day).
pub proof fn lemma_dashboard_keeps(
    i: IssueFacts,
    project_ids: Option<Vec<i32>>,
    user_id: Option<i32>,
    from: Option<Seq<char>>,
    to: Option<Seq<char>>,
)
    ensures
        dashboard_issue_kept(i, project_ids, user_id, from, to) <==> {
            &&& (project_ids matches Some(v) ==> v@.contains(i.project_id))
            &&& (user_id matches Some(u) ==> i.assigned_to_id == Some(u))
            &&& (i.created_on matches Some(d) ==> (from matches Some(f) ==> !text_less(d.iso_text(), f))
                && (to matches Some(t) ==> !text_less(t, d.iso_text())))
        },
{
}

/// Law: a time entry is kept exactly when it lies in one of the listed
/// projects (if any are listed) and its day's text is not before `from`
/// and not after `to` (where given).
pub proof fn lemma_time_entry_keeps(
    e: TimeEntryFacts,
    project_ids: Option<Vec<i32>>,
    from: Option<Seq<char>>,
    to: Option<Seq<char>>,
)
    ensures
        time_entry_kept(e, project_ids, from, to) <==> {
            &&& (project_ids matches Some(v) ==> v@.contains(e.project_id))
            &&& (from matches Some(f) ==> !text_less(e.spent_on.iso_text(), f))
            &&& (to matches Some(t) ==> !text_less(t, e.spent_on.iso_text()))
        },
{
}

/// Law: the order of texts is strict and total: of two different texts
/// exactly one comes first, and no text comes before itself.
pub proof fn lemma_text_order(a: Seq<char>, b: Seq<char>)
    ensures
        !text_less(a, a),
        !(text_less(a, b) && text_less(b, a)),
        a != b ==> text_less(a, b) || text_less(b, a),
    decreases a.len(),
{
    if a.len() > 0 && b.len() > 0 {
        lemma_text_order(a.drop_first(), b.drop_first());
        if a[0] == b[0] && a.drop_first() == b.drop_first() {
            assert(a =~= b) by {
                assert forall|i: int| 0 <= i < a.len() implies a[i] == b[i] by {
                    if i > 0 {
                        assert(a[i] == a.drop_first()[i - 1]);
                        assert(b[i] == b.drop_first()[i - 1]);
                    }
                }
            }
        }
        if a[0] != b[0] {
            let x = a[0];
            let y = b[0];
            vstd::utf8::char_u32_cast(x, x as u32);
            vstd::utf8::char_u32_cast(y, y as u32);
            assert((x as u32) != (y as u32));
        }
    } else if a.len() > 0 {
        lemma_text_order(a.drop_first(), a.drop_first());
    } else if b.len() == 0 {
        assert(a =~= b);
    }
}

/// Law: an issue counts as completed exactly when its done ratio is 100, as
/// in progress exactly when its ratio lies strictly between 0 and 100, as
/// not started exactly when it has no ratio or a ratio of 0, and as overdue
/// exactly when it is due before `today` and not completed to 100 %.
pub proof fn lemma_issue_states(i: IssueFacts, today: CalendarDate)
    ensures
        is_completed(i) <==> i.done_ratio == Some(100i32),
        is_in_progress(i) <==> (i.done_ratio matches Some(r) && 0 < r && r < 100),
        is_not_started(i) <==> (i.done_ratio is None || i.done_ratio == Some(0i32)),
        is_overdue(i, today) <==> (i.due_date matches Some(d) && day_before(d.ymd(), today.ymd()) && !(
        i.done_ratio matches Some(r) && r >= 100)),
{
}

} // verus!
