//! Building the issue bodies of the create, update, assign and complete
//! tools, and the notes on watchers added after a create or update.
//!
//! `H` stands for the type of estimated hours, a floating-point number that
//! this crate only carries.

use vstd::prelude::*;
use crate::dates::CalendarDate;
use crate::text::{push_signed, push_text, contains_text, signed_text, text_contains};

verus! {

/// The body of an issue create or update request.
pub struct IssueDraft<H> {
    pub project_id: i32,
    pub tracker_id: i32,
    pub status_id: i32,
    pub priority_id: i32,
    pub subject: String,
    pub description: Option<String>,
    pub category_id: Option<i32>,
    pub fixed_version_id: Option<i32>,
    pub assigned_to_id: Option<i32>,
    pub parent_issue_id: Option<i32>,
    pub estimated_hours: Option<H>,
    pub start_date: Option<CalendarDate>,
    pub due_date: Option<CalendarDate>,
    pub done_ratio: Option<i32>,
    pub watcher_user_ids: Option<Vec<i32>>,
    pub notes: Option<String>,
}

/// The arguments of the create tool.
pub struct NewIssue<H> {
    pub project_id: i32,
    pub tracker_id: i32,
    pub status_id: i32,
    pub priority_id: i32,
    pub subject: String,
    pub description: Option<String>,
    pub category_id: Option<i32>,
    pub fixed_version_id: Option<i32>,
    pub assigned_to_id: Option<i32>,
    pub parent_issue_id: Option<i32>,
    pub estimated_hours: Option<H>,
    pub start_date: Option<CalendarDate>,
    pub due_date: Option<CalendarDate>,
    pub done_ratio: Option<i32>,
    pub watcher_user_ids: Option<Vec<i32>>,
}

/// The arguments of the update tool: the issue and the fields to change.
pub struct IssueChanges<H> {
    pub id: i32,
    pub subject: Option<String>,
    pub description: Option<String>,
    pub status_id: Option<i32>,
    pub priority_id: Option<i32>,
    pub assigned_to_id: Option<i32>,
    pub done_ratio: Option<i32>,
    pub estimated_hours: Option<H>,
    pub start_date: Option<CalendarDate>,
    pub due_date: Option<CalendarDate>,
    pub watcher_user_ids: Option<Vec<i32>>,
    pub fixed_version_id: Option<i32>,
    pub category_id: Option<i32>,
    pub parent_issue_id: Option<i32>,
    pub tracker_id: Option<i32>,
    pub notes: Option<String>,
}

/// The fields of an issue as the server has it now.
pub struct CurrentIssue<H> {
    pub project_id: i32,
    pub tracker_id: i32,
    pub status_id: i32,
    pub priority_id: i32,
    pub subject: String,
    pub description: Option<String>,
    pub category_id: Option<i32>,
    pub fixed_version_id: Option<i32>,
    pub assigned_to_id: Option<i32>,
    pub parent_id: Option<i32>,
    pub estimated_hours: Option<H>,
    pub start_date: Option<CalendarDate>,
    pub due_date: Option<CalendarDate>,
    pub done_ratio: Option<i32>,
}

/// `a` where it is given, else `b`.
pub open spec fn given_or<T>(a: Option<T>, b: T) -> T {
    match a {
        Some(x) => x,
        None => b,
    }
}

/// `a` where it is given, else `b` (which may be missing too).
pub open spec fn given_or_else<T>(a: Option<T>, b: Option<T>) -> Option<T> {
    match a {
        Some(x) => Some(x),
        None => b,
    }
}

/// The update body: each field the change gives, else the current value;
/// the project always stays; watchers are added separately; the note is
/// the change's note.
pub open spec fn merged_draft<H>(c: IssueChanges<H>, cur: CurrentIssue<H>) -> IssueDraft<H> {
    IssueDraft {
        project_id: cur.project_id,
        tracker_id: given_or(c.tracker_id, cur.tracker_id),
        status_id: given_or(c.status_id, cur.status_id),
        priority_id: given_or(c.priority_id, cur.priority_id),
        subject: given_or(c.subject, cur.subject),
        description: given_or_else(c.description, cur.description),
        category_id: given_or_else(c.category_id, cur.category_id),
        fixed_version_id: given_or_else(c.fixed_version_id, cur.fixed_version_id),
        assigned_to_id: given_or_else(c.assigned_to_id, cur.assigned_to_id),
        parent_issue_id: given_or_else(c.parent_issue_id, cur.parent_id),
        estimated_hours: given_or_else(c.estimated_hours, cur.estimated_hours),
        start_date: given_or_else(c.start_date, cur.start_date),
        due_date: given_or_else(c.due_date, cur.due_date),
        done_ratio: given_or_else(c.done_ratio, cur.done_ratio),
        watcher_user_ids: None,
        notes: c.notes,
    }
}

fn or_value<T>(a: Option<T>, b: T) -> (r: T)
    ensures
        r == given_or(a, b),
{
    match a {
        Some(x) => x,
        None => b,
    }
}

fn or_option<T>(a: Option<T>, b: Option<T>) -> (r: Option<T>)
    ensures
        r == given_or_else(a, b),
{
    match a {
        Some(x) => Some(x),
        None => b,
    }
}

/// The body of the update request for `changes` applied to `current`.
pub fn merge_issue_update<H>(changes: IssueChanges<H>, current: CurrentIssue<H>) -> (r: IssueDraft<H>)
    ensures
        r == merged_draft(changes, current),
{
    IssueDraft {
        project_id: current.project_id,
        tracker_id: or_value(changes.tracker_id, current.tracker_id),
        status_id: or_value(changes.status_id, current.status_id),
        priority_id: or_value(changes.priority_id, current.priority_id),
        subject: or_value(changes.subject, current.subject),
        description: or_option(changes.description, current.description),
        category_id: or_option(changes.category_id, current.category_id),
        fixed_version_id: or_option(changes.fixed_version_id, current.fixed_version_id),
        assigned_to_id: or_option(changes.assigned_to_id, current.assigned_to_id),
        parent_issue_id: or_option(changes.parent_issue_id, current.parent_id),
        estimated_hours: or_option(changes.estimated_hours, current.estimated_hours),
        start_date: or_option(changes.start_date, current.start_date),
        due_date: or_option(changes.due_date, current.due_date),
        done_ratio: or_option(changes.done_ratio, current.done_ratio),
        watcher_user_ids: None,
        notes: changes.notes,
    }
}

/// The body of the create request: the arguments as given, with no note.
pub fn new_issue_draft<H>(args: NewIssue<H>) -> (r: IssueDraft<H>)
    ensures
        r == (IssueDraft {
            project_id: args.project_id,
            tracker_id: args.tracker_id,
            status_id: args.status_id,
            priority_id: args.priority_id,
            subject: args.subject,
            description: args.description,
            category_id: args.category_id,
            fixed_version_id: args.fixed_version_id,
            assigned_to_id: args.assigned_to_id,
            parent_issue_id: args.parent_issue_id,
            estimated_hours: args.estimated_hours,
            start_date: args.start_date,
            due_date: args.due_date,
            done_ratio: args.done_ratio,
            watcher_user_ids: args.watcher_user_ids,
            notes: None,
        }),
{
    IssueDraft {
        project_id: args.project_id,
        tracker_id: args.tracker_id,
        status_id: args.status_id,
        priority_id: args.priority_id,
        subject: args.subject,
        description: args.description,
        category_id: args.category_id,
        fixed_version_id: args.fixed_version_id,
        assigned_to_id: args.assigned_to_id,
        parent_issue_id: args.parent_issue_id,
        estimated_hours: args.estimated_hours,
        start_date: args.start_date,
        due_date: args.due_date,
        done_ratio: args.done_ratio,
        watcher_user_ids: args.watcher_user_ids,
        notes: None,
    }
}

/// Changes that touch nothing of issue `id`.
pub open spec fn no_changes<H>(id: i32) -> IssueChanges<H> {
    IssueChanges {
        id,
        subject: None,
        description: None,
        status_id: None,
        priority_id: None,
        assigned_to_id: None,
        done_ratio: None,
        estimated_hours: None,
        start_date: None,
        due_date: None,
        watcher_user_ids: None,
        fixed_version_id: None,
        category_id: None,
        parent_issue_id: None,
        tracker_id: None,
        notes: None,
    }
}

/// The issue as a body, unchanged.
pub open spec fn draft_of_current<H>(cur: CurrentIssue<H>) -> IssueDraft<H> {
    IssueDraft {
        project_id: cur.project_id,
        tracker_id: cur.tracker_id,
        status_id: cur.status_id,
        priority_id: cur.priority_id,
        subject: cur.subject,
        description: cur.description,
        category_id: cur.category_id,
        fixed_version_id: cur.fixed_version_id,
        assigned_to_id: cur.assigned_to_id,
        parent_issue_id: cur.parent_id,
        estimated_hours: cur.estimated_hours,
        start_date: cur.start_date,
        due_date: cur.due_date,
        done_ratio: cur.done_ratio,
        watcher_user_ids: None,
        notes: None,
    }
}

/// The changes of the assign tool: only the assignee.
pub open spec fn assign_changes_spec<H>(id: i32, user: i32) -> IssueChanges<H> {
    IssueChanges { assigned_to_id: Some(user), ..no_changes::<H>(id) }
}

/// The changes of the complete tool: only the done ratio.
pub open spec fn complete_changes_spec<H>(id: i32, ratio: i32) -> IssueChanges<H> {
    IssueChanges { done_ratio: Some(ratio), ..no_changes::<H>(id) }
}

/// The done ratio that completing an issue sets when none is given.
pub fn default_done_ratio() -> (r: i32)
    ensures
        r == 100,
{
    100
}

/// The update of the assign tool: only the assignee.
pub fn assign_changes<H>(id: i32, assigned_to_id: i32) -> (r: IssueChanges<H>)
    ensures
        r == assign_changes_spec::<H>(id, assigned_to_id),
{
    IssueChanges {
        id,
        subject: None,
        description: None,
        status_id: None,
        priority_id: None,
        assigned_to_id: Some(assigned_to_id),
        done_ratio: None,
        estimated_hours: None,
        start_date: None,
        due_date: None,
        watcher_user_ids: None,
        fixed_version_id: None,
        category_id: None,
        parent_issue_id: None,
        tracker_id: None,
        notes: None,
    }
}

/// The update of the complete tool: only the done ratio.
pub fn complete_changes<H>(id: i32, done_ratio: i32) -> (r: IssueChanges<H>)
    ensures
        r == complete_changes_spec::<H>(id, done_ratio),
{
    IssueChanges {
        id,
        subject: None,
        description: None,
        status_id: None,
        priority_id: None,
        assigned_to_id: None,
        done_ratio: Some(done_ratio),
        estimated_hours: None,
        start_date: None,
        due_date: None,
        watcher_user_ids: None,
        fixed_version_id: None,
        category_id: None,
        parent_issue_id: None,
        tracker_id: None,
        notes: None,
    }
}

/// Law: an update that gives no field sends the issue back as it is.
pub proof fn lemma_empty_update_keeps_issue<H>(id: i32, cur: CurrentIssue<H>)
    ensures
        merged_draft(no_changes::<H>(id), cur) == draft_of_current(cur),
{
}

/// Law: an update never moves the issue to another project.
pub proof fn lemma_update_keeps_project<H>(c: IssueChanges<H>, cur: CurrentIssue<H>)
    ensures
        merged_draft(c, cur).project_id == cur.project_id,
{
}

/// Law: assigning changes the assignee and nothing else.
pub proof fn lemma_assign_changes_only_assignee<H>(id: i32, user: i32, cur: CurrentIssue<H>)
    ensures
        merged_draft(assign_changes_spec::<H>(id, user), cur) == (IssueDraft {
            assigned_to_id: Some(user),
            ..draft_of_current(cur)
        }),
{
}

/// Law: completing changes the done ratio and nothing else.
pub proof fn lemma_complete_changes_only_ratio<H>(id: i32, ratio: i32, cur: CurrentIssue<H>)
    ensures
        merged_draft(complete_changes_spec::<H>(id, ratio), cur) == (IssueDraft {
            done_ratio: Some(ratio),
            ..draft_of_current(cur)
        }),
{
}

/// Law: an update body carries every field the change gives, and the current
/// value of every field it leaves out; the project is always the current
/// one, watchers are not sent with it, and the note is the change's note.
pub proof fn lemma_update_applies_given_fields<H>(c: IssueChanges<H>, cur: CurrentIssue<H>)
    ensures
        ({
            let d = merged_draft(c, cur);
            &&& d.project_id == cur.project_id
            &&& (c.tracker_id matches Some(x) ==> d.tracker_id == x)
            &&& (c.tracker_id is None ==> d.tracker_id == cur.tracker_id)
            &&& (c.status_id matches Some(x) ==> d.status_id == x)
            &&& (c.status_id is None ==> d.status_id == cur.status_id)
            &&& (c.priority_id matches Some(x) ==> d.priority_id == x)
            &&& (c.priority_id is None ==> d.priority_id == cur.priority_id)
            &&& (c.subject matches Some(x) ==> d.subject == x)
            &&& (c.subject is None ==> d.subject == cur.subject)
            &&& (c.description is Some ==> d.description == c.description)
            &&& (c.description is None ==> d.description == cur.description)
            &&& (c.category_id is Some ==> d.category_id == c.category_id)
            &&& (c.category_id is None ==> d.category_id == cur.category_id)
            &&& (c.fixed_version_id is Some ==> d.fixed_version_id == c.fixed_version_id)
            &&& (c.fixed_version_id is None ==> d.fixed_version_id == cur.fixed_version_id)
            &&& (c.assigned_to_id is Some ==> d.assigned_to_id == c.assigned_to_id)
            &&& (c.assigned_to_id is None ==> d.assigned_to_id == cur.assigned_to_id)
            &&& (c.parent_issue_id is Some ==> d.parent_issue_id == c.parent_issue_id)
            &&& (c.parent_issue_id is None ==> d.parent_issue_id == cur.parent_id)
            &&& (c.estimated_hours is Some ==> d.estimated_hours == c.estimated_hours)
            &&& (c.estimated_hours is None ==> d.estimated_hours == cur.estimated_hours)
            &&& (c.start_date is Some ==> d.start_date == c.start_date)
            &&& (c.start_date is None ==> d.start_date == cur.start_date)
            &&& (c.due_date is Some ==> d.due_date == c.due_date)
            &&& (c.due_date is None ==> d.due_date == cur.due_date)
            &&& (c.done_ratio is Some ==> d.done_ratio == c.done_ratio)
            &&& (c.done_ratio is None ==> d.done_ratio == cur.done_ratio)
            &&& d.watcher_user_ids is None
            &&& d.notes == c.notes
        }),
{
}

// ---------------------------------------------------------------- watchers

/// How adding one watcher went: `error` holds the error text on failure.
pub struct WatcherOutcome {
    pub user_id: i32,
    pub error: Option<String>,
}

pub open spec fn watcher_note(uid: i32, error: Option<Seq<char>>) -> Seq<char> {
    match error {
        None => "\n  + watcher "@ + signed_text(uid as int) + " přidán"@,
        Some(e) => if text_contains(e, "422"@) {
            Seq::<char>::empty()
        } else {
            "\n  ⚠ watcher "@ + signed_text(uid as int) + " selhalo: "@ + e
        },
    }
}

/// The notes for a run of watcher additions, in order. A failure whose
/// text mentions 422 (the user already watches) adds no note.
pub open spec fn watcher_notes(outcomes: Seq<WatcherOutcome>) -> Seq<char>
    decreases outcomes.len(),
{
    if outcomes.len() == 0 {
        Seq::<char>::empty()
    } else {
        watcher_notes(outcomes.drop_last()) + watcher_note(
            outcomes.last().user_id,
            outcomes.last().error.deep_view(),
        )
    }
}

/// The text that reports the watchers added after a create or update.
pub fn watcher_report(outcomes: &Vec<WatcherOutcome>) -> (r: String)
    ensures
        r@ == watcher_notes(outcomes@),
{
    let mut s = String::new();
    let mut k: usize = 0;
    while k < outcomes.len()
        invariant
            k <= outcomes.len(),
            s@ == watcher_notes(outcomes@.take(k as int)),
        decreases outcomes.len() - k,
    {
        let o = &outcomes[k];
        let ghost before = s@;
        match &o.error {
            None => {
                push_text(&mut s, "\n  + watcher ");
                push_signed(&mut s, o.user_id as i64);
                push_text(&mut s, " přidán");
            },
            Some(e) => {
                if !contains_text(e.as_str(), "422") {
                    push_text(&mut s, "\n  ⚠ watcher ");
                    push_signed(&mut s, o.user_id as i64);
                    push_text(&mut s, " selhalo: ");
                    push_text(&mut s, e.as_str());
                }
            },
        }
        proof {
            assert(outcomes@.take(k + 1).drop_last() =~= outcomes@.take(k as int));
            assert(s@ =~= before + watcher_note(o.user_id, o.error.deep_view()));
        }
        k = k + 1;
    }
    assert(outcomes@.take(outcomes.len() as int) =~= outcomes@);
    s
}

/// Law: a watcher that was added is reported with its id; a failure is
/// reported with its id and error text, unless the text mentions 422 (the
/// user already watches), which is reported not at all.
pub proof fn lemma_watcher_note(uid: i32, error: Option<Seq<char>>)
    ensures
        error is None ==> watcher_note(uid, error) == "\n  + watcher "@ + signed_text(uid as int) + " přidán"@,
        error matches Some(e) ==> (text_contains(e, "422"@) ==> watcher_note(uid, error).len() == 0),
        error matches Some(e) ==> (!text_contains(e, "422"@) ==> watcher_note(uid, error) == "\n  ⚠ watcher "@
            + signed_text(uid as int) + " selhalo: "@ + e),
{
}

} // verus!
