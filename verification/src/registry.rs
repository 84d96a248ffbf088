//! The MCP tools on offer: which tools a configuration enables, and the
//! registry that finds a tool by name and lists them.
//!
//! `E` is whatever runs a tool; this crate only keeps it under its name.

use vstd::prelude::*;
use crate::text::same_text;

verus! {

/// The tools of the server.
#[derive(PartialEq, Eq, Structural, Clone, Copy, Debug)]
pub enum ToolKind {
    ListProjects,
    GetProject,
    CreateProject,
    UpdateProject,
    DeleteProject,
    ListIssues,
    GetIssue,
    CreateIssue,
    UpdateIssue,
    AssignIssue,
    CompleteIssue,
    GetIssueEnumerations,
    GetAttachment,
    DownloadAttachment,
    ListUsers,
    GetUser,
    GetUserWorkload,
    ListTimeEntries,
    GetTimeEntry,
    CreateTimeEntry,
    UpdateTimeEntry,
    DeleteTimeEntry,
    LogTime,
    GenerateProjectReport,
    GetDashboardData,
    ListMilestones,
    GetMilestone,
    CreateMilestone,
    UpdateMilestone,
    DeleteMilestone,
}

/// The name under which a tool is offered.
pub open spec fn tool_name_text(k: ToolKind) -> Seq<char> {
    match k {
        ToolKind::ListProjects => "list_projects"@,
        ToolKind::GetProject => "get_project"@,
        ToolKind::CreateProject => "create_project"@,
        ToolKind::UpdateProject => "update_project"@,
        ToolKind::DeleteProject => "delete_project"@,
        ToolKind::ListIssues => "list_issues"@,
        ToolKind::GetIssue => "get_issue"@,
        ToolKind::CreateIssue => "create_issue"@,
        ToolKind::UpdateIssue => "update_issue"@,
        ToolKind::AssignIssue => "assign_issue"@,
        ToolKind::CompleteIssue => "complete_task"@,
        ToolKind::GetIssueEnumerations => "get_issue_enumerations"@,
        ToolKind::GetAttachment => "get_attachment"@,
        ToolKind::DownloadAttachment => "download_attachment"@,
        ToolKind::ListUsers => "list_users"@,
        ToolKind::GetUser => "get_user"@,
        ToolKind::GetUserWorkload => "get_user_workload"@,
        ToolKind::ListTimeEntries => "list_time_entries"@,
        ToolKind::GetTimeEntry => "get_time_entry"@,
        ToolKind::CreateTimeEntry => "create_time_entry"@,
        ToolKind::UpdateTimeEntry => "update_time_entry"@,
        ToolKind::DeleteTimeEntry => "delete_time_entry"@,
        ToolKind::LogTime => "log_time"@,
        ToolKind::GenerateProjectReport => "generate_project_report"@,
        ToolKind::GetDashboardData => "get_dashboard_data"@,
        ToolKind::ListMilestones => "list_milestones"@,
        ToolKind::GetMilestone => "get_milestone"@,
        ToolKind::CreateMilestone => "create_milestone"@,
        ToolKind::UpdateMilestone => "update_milestone"@,
        ToolKind::DeleteMilestone => "delete_milestone"@,
    }
}

/// The name of a tool.
pub fn tool_name(k: ToolKind) -> (r: &'static str)
    ensures
        r@ == tool_name_text(k),
{
    match k {
        ToolKind::ListProjects => "list_projects",
        ToolKind::GetProject => "get_project",
        ToolKind::CreateProject => "create_project",
        ToolKind::UpdateProject => "update_project",
        ToolKind::DeleteProject => "delete_project",
        ToolKind::ListIssues => "list_issues",
        ToolKind::GetIssue => "get_issue",
        ToolKind::CreateIssue => "create_issue",
        ToolKind::UpdateIssue => "update_issue",
        ToolKind::AssignIssue => "assign_issue",
        ToolKind::CompleteIssue => "complete_task",
        ToolKind::GetIssueEnumerations => "get_issue_enumerations",
        ToolKind::GetAttachment => "get_attachment",
        ToolKind::DownloadAttachment => "download_attachment",
        ToolKind::ListUsers => "list_users",
        ToolKind::GetUser => "get_user",
        ToolKind::GetUserWorkload => "get_user_workload",
        ToolKind::ListTimeEntries => "list_time_entries",
        ToolKind::GetTimeEntry => "get_time_entry",
        ToolKind::CreateTimeEntry => "create_time_entry",
        ToolKind::UpdateTimeEntry => "update_time_entry",
        ToolKind::DeleteTimeEntry => "delete_time_entry",
        ToolKind::LogTime => "log_time",
        ToolKind::GenerateProjectReport => "generate_project_report",
        ToolKind::GetDashboardData => "get_dashboard_data",
        ToolKind::ListMilestones => "list_milestones",
        ToolKind::GetMilestone => "get_milestone",
        ToolKind::CreateMilestone => "create_milestone",
        ToolKind::UpdateMilestone => "update_milestone",
        ToolKind::DeleteMilestone => "delete_milestone",
    }
}

/// The tool that carries a name, if any.
pub open spec fn tool_of_name(n: Seq<char>) -> Option<ToolKind> {
    if n == "list_projects"@ {
        Some(ToolKind::ListProjects)
    } else if n == "get_project"@ {
        Some(ToolKind::GetProject)
    } else if n == "create_project"@ {
        Some(ToolKind::CreateProject)
    } else if n == "update_project"@ {
        Some(ToolKind::UpdateProject)
    } else if n == "delete_project"@ {
        Some(ToolKind::DeleteProject)
    } else if n == "list_issues"@ {
        Some(ToolKind::ListIssues)
    } else if n == "get_issue"@ {
        Some(ToolKind::GetIssue)
    } else if n == "create_issue"@ {
        Some(ToolKind::CreateIssue)
    } else if n == "update_issue"@ {
        Some(ToolKind::UpdateIssue)
    } else if n == "assign_issue"@ {
        Some(ToolKind::AssignIssue)
    } else if n == "complete_task"@ {
        Some(ToolKind::CompleteIssue)
    } else if n == "get_issue_enumerations"@ {
        Some(ToolKind::GetIssueEnumerations)
    } else if n == "get_attachment"@ {
        Some(ToolKind::GetAttachment)
    } else if n == "download_attachment"@ {
        Some(ToolKind::DownloadAttachment)
    } else if n == "list_users"@ {
        Some(ToolKind::ListUsers)
    } else if n == "get_user"@ {
        Some(ToolKind::GetUser)
    } else if n == "get_user_workload"@ {
        Some(ToolKind::GetUserWorkload)
    } else if n == "list_time_entries"@ {
        Some(ToolKind::ListTimeEntries)
    } else if n == "get_time_entry"@ {
        Some(ToolKind::GetTimeEntry)
    } else if n == "create_time_entry"@ {
        Some(ToolKind::CreateTimeEntry)
    } else if n == "update_time_entry"@ {
        Some(ToolKind::UpdateTimeEntry)
    } else if n == "delete_time_entry"@ {
        Some(ToolKind::DeleteTimeEntry)
    } else if n == "log_time"@ {
        Some(ToolKind::LogTime)
    } else if n == "generate_project_report"@ {
        Some(ToolKind::GenerateProjectReport)
    } else if n == "get_dashboard_data"@ {
        Some(ToolKind::GetDashboardData)
    } else if n == "list_milestones"@ {
        Some(ToolKind::ListMilestones)
    } else if n == "get_milestone"@ {
        Some(ToolKind::GetMilestone)
    } else if n == "create_milestone"@ {
        Some(ToolKind::CreateMilestone)
    } else if n == "update_milestone"@ {
        Some(ToolKind::UpdateMilestone)
    } else if n == "delete_milestone"@ {
        Some(ToolKind::DeleteMilestone)
    } else {
        None
    }
}

proof fn lemma_name_gives_tool(k: ToolKind)
    ensures
        tool_of_name(tool_name_text(k)) == Some(k),
{
    reveal_strlit("list_projects");
    assert("list_projects"@.len() == 13 && "list_projects"@[0] == 'l' && "list_projects"@[4] == '_');
    reveal_strlit("get_project");
    assert("get_project"@.len() == 11 && "get_project"@[0] == 'g' && "get_project"@[4] == 'p');
    reveal_strlit("create_project");
    assert("create_project"@.len() == 14 && "create_project"@[0] == 'c' && "create_project"@[4] == 't');
    reveal_strlit("update_project");
    assert("update_project"@.len() == 14 && "update_project"@[0] == 'u' && "update_project"@[4] == 't');
    reveal_strlit("delete_project");
    assert("delete_project"@.len() == 14 && "delete_project"@[0] == 'd' && "delete_project"@[4] == 't');
    reveal_strlit("list_issues");
    assert("list_issues"@.len() == 11 && "list_issues"@[0] == 'l' && "list_issues"@[4] == '_');
    reveal_strlit("get_issue");
    assert("get_issue"@.len() == 9 && "get_issue"@[0] == 'g' && "get_issue"@[4] == 'i');
    reveal_strlit("create_issue");
    assert("create_issue"@.len() == 12 && "create_issue"@[0] == 'c' && "create_issue"@[4] == 't');
    reveal_strlit("update_issue");
    assert("update_issue"@.len() == 12 && "update_issue"@[0] == 'u' && "update_issue"@[4] == 't');
    reveal_strlit("assign_issue");
    assert("assign_issue"@.len() == 12 && "assign_issue"@[0] == 'a' && "assign_issue"@[4] == 'g');
    reveal_strlit("complete_task");
    assert("complete_task"@.len() == 13 && "complete_task"@[0] == 'c' && "complete_task"@[4] == 'l');
    reveal_strlit("get_issue_enumerations");
    assert("get_issue_enumerations"@.len() == 22 && "get_issue_enumerations"@[0] == 'g' && "get_issue_enumerations"@[4] == 'i');
    reveal_strlit("get_attachment");
    assert("get_attachment"@.len() == 14 && "get_attachment"@[0] == 'g' && "get_attachment"@[4] == 'a');
    reveal_strlit("download_attachment");
    assert("download_attachment"@.len() == 19 && "download_attachment"@[0] == 'd' && "download_attachment"@[4] == 'l');
    reveal_strlit("list_users");
    assert("list_users"@.len() == 10 && "list_users"@[0] == 'l' && "list_users"@[4] == '_');
    reveal_strlit("get_user");
    assert("get_user"@.len() == 8 && "get_user"@[0] == 'g' && "get_user"@[4] == 'u');
    reveal_strlit("get_user_workload");
    assert("get_user_workload"@.len() == 17 && "get_user_workload"@[0] == 'g' && "get_user_workload"@[4] == 'u');
    reveal_strlit("list_time_entries");
    assert("list_time_entries"@.len() == 17 && "list_time_entries"@[0] == 'l' && "list_time_entries"@[4] == '_');
    reveal_strlit("get_time_entry");
    assert("get_time_entry"@.len() == 14 && "get_time_entry"@[0] == 'g' && "get_time_entry"@[4] == 't');
    reveal_strlit("create_time_entry");
    assert("create_time_entry"@.len() == 17 && "create_time_entry"@[0] == 'c' && "create_time_entry"@[4] == 't');
    reveal_strlit("update_time_entry");
    assert("update_time_entry"@.len() == 17 && "update_time_entry"@[0] == 'u' && "update_time_entry"@[4] == 't');
    reveal_strlit("delete_time_entry");
    assert("delete_time_entry"@.len() == 17 && "delete_time_entry"@[0] == 'd' && "delete_time_entry"@[4] == 't');
    reveal_strlit("log_time");
    assert("log_time"@.len() == 8 && "log_time"@[0] == 'l' && "log_time"@[4] == 't');
    reveal_strlit("generate_project_report");
    assert("generate_project_report"@.len() == 23 && "generate_project_report"@[0] == 'g' && "generate_project_report"@[4] == 'r');
    reveal_strlit("get_dashboard_data");
    assert("get_dashboard_data"@.len() == 18 && "get_dashboard_data"@[0] == 'g' && "get_dashboard_data"@[4] == 'd');
    reveal_strlit("list_milestones");
    assert("list_milestones"@.len() == 15 && "list_milestones"@[0] == 'l' && "list_milestones"@[4] == '_');
    reveal_strlit("get_milestone");
    assert("get_milestone"@.len() == 13 && "get_milestone"@[0] == 'g' && "get_milestone"@[4] == 'm');
    reveal_strlit("create_milestone");
    assert("create_milestone"@.len() == 16 && "create_milestone"@[0] == 'c' && "create_milestone"@[4] == 't');
    reveal_strlit("update_milestone");
    assert("update_milestone"@.len() == 16 && "update_milestone"@[0] == 'u' && "update_milestone"@[4] == 't');
    reveal_strlit("delete_milestone");
    assert("delete_milestone"@.len() == 16 && "delete_milestone"@[0] == 'd' && "delete_milestone"@[4] == 't');
    match k {
        ToolKind::ListProjects => {},
        ToolKind::GetProject => {},
        ToolKind::CreateProject => {},
        ToolKind::UpdateProject => {},
        ToolKind::DeleteProject => {},
        ToolKind::ListIssues => {},
        ToolKind::GetIssue => {},
        ToolKind::CreateIssue => {},
        ToolKind::UpdateIssue => {},
        ToolKind::AssignIssue => {},
        ToolKind::CompleteIssue => {},
        ToolKind::GetIssueEnumerations => {},
        ToolKind::GetAttachment => {},
        ToolKind::DownloadAttachment => {},
        ToolKind::ListUsers => {},
        ToolKind::GetUser => {},
        ToolKind::GetUserWorkload => {},
        ToolKind::ListTimeEntries => {},
        ToolKind::GetTimeEntry => {},
        ToolKind::CreateTimeEntry => {},
        ToolKind::UpdateTimeEntry => {},
        ToolKind::DeleteTimeEntry => {},
        ToolKind::LogTime => {},
        ToolKind::GenerateProjectReport => {},
        ToolKind::GetDashboardData => {},
        ToolKind::ListMilestones => {},
        ToolKind::GetMilestone => {},
        ToolKind::CreateMilestone => {},
        ToolKind::UpdateMilestone => {},
        ToolKind::DeleteMilestone => {},
    }
}

/// Law: different tools carry different names.
pub proof fn lemma_tool_names_differ(a: ToolKind, b: ToolKind)
    requires
        a != b,
    ensures
        tool_name_text(a) != tool_name_text(b),
{
    lemma_name_gives_tool(a);
    lemma_name_gives_tool(b);
}

/// Which groups of tools the configuration switches on.
#[derive(Clone, Copy, Debug)]
pub struct ToolGroups {
    pub projects: bool,
    pub issues: bool,
    pub users: bool,
    pub time_entries: bool,
    pub reports: bool,
    pub milestones: bool,
}

pub open spec fn project_tools() -> Seq<ToolKind> {
    seq![
        ToolKind::ListProjects,
        ToolKind::GetProject,
        ToolKind::CreateProject,
        ToolKind::UpdateProject,
        ToolKind::DeleteProject,
    ]
}

/// The issue group brings the attachment tools with it.
pub open spec fn issue_tools() -> Seq<ToolKind> {
    seq![
        ToolKind::ListIssues,
        ToolKind::GetIssue,
        ToolKind::CreateIssue,
        ToolKind::UpdateIssue,
        ToolKind::AssignIssue,
        ToolKind::CompleteIssue,
        ToolKind::GetIssueEnumerations,
        ToolKind::GetAttachment,
        ToolKind::DownloadAttachment,
    ]
}

pub open spec fn user_tools() -> Seq<ToolKind> {
    seq![ToolKind::ListUsers, ToolKind::GetUser, ToolKind::GetUserWorkload]
}

pub open spec fn time_entry_tools() -> Seq<ToolKind> {
    seq![
        ToolKind::ListTimeEntries,
        ToolKind::GetTimeEntry,
        ToolKind::CreateTimeEntry,
        ToolKind::UpdateTimeEntry,
        ToolKind::DeleteTimeEntry,
        ToolKind::LogTime,
    ]
}

pub open spec fn report_tools() -> Seq<ToolKind> {
    seq![ToolKind::GenerateProjectReport, ToolKind::GetDashboardData]
}

pub open spec fn milestone_tools() -> Seq<ToolKind> {
    seq![
        ToolKind::ListMilestones,
        ToolKind::GetMilestone,
        ToolKind::CreateMilestone,
        ToolKind::UpdateMilestone,
        ToolKind::DeleteMilestone,
    ]
}

pub open spec fn group_if(on: bool, tools: Seq<ToolKind>) -> Seq<ToolKind> {
    if on {
        tools
    } else {
        Seq::empty()
    }
}

/// The tools a configuration enables, group by group.
pub open spec fn enabled_tool_kinds(g: ToolGroups) -> Seq<ToolKind> {
    group_if(g.projects, project_tools()) + group_if(g.issues, issue_tools()) + group_if(
        g.users,
        user_tools(),
    ) + group_if(g.time_entries, time_entry_tools()) + group_if(g.reports, report_tools())
        + group_if(g.milestones, milestone_tools())
}

fn push_group(v: &mut Vec<ToolKind>, on: bool, tools: &[ToolKind])
    ensures
        final(v)@ == old(v)@ + group_if(on, tools@),
{
    let ghost before = v@;
    if on {
        let mut k: usize = 0;
        while k < tools.len()
            invariant
                k <= tools.len(),
                v@ == before + tools@.take(k as int),
            decreases tools.len() - k,
        {
            v.push(tools[k]);
            assert(before + tools@.take(k + 1) =~= (before + tools@.take(k as int)).push(tools@[k as int]));
            k = k + 1;
        }
        assert(tools@.take(tools.len() as int) =~= tools@);
    } else {
        assert(v@ =~= before + group_if(on, tools@));
    }
}

/// The tools a configuration enables.
pub fn enabled_tools(g: ToolGroups) -> (r: Vec<ToolKind>)
    ensures
        r@ == enabled_tool_kinds(g),
{
    let mut v: Vec<ToolKind> = Vec::new();
    let projects = [
        ToolKind::ListProjects,
        ToolKind::GetProject,
        ToolKind::CreateProject,
        ToolKind::UpdateProject,
        ToolKind::DeleteProject,
    ];
    let issues = [
        ToolKind::ListIssues,
        ToolKind::GetIssue,
        ToolKind::CreateIssue,
        ToolKind::UpdateIssue,
        ToolKind::AssignIssue,
        ToolKind::CompleteIssue,
        ToolKind::GetIssueEnumerations,
        ToolKind::GetAttachment,
        ToolKind::DownloadAttachment,
    ];
    let users = [ToolKind::ListUsers, ToolKind::GetUser, ToolKind::GetUserWorkload];
    let time_entries = [
        ToolKind::ListTimeEntries,
        ToolKind::GetTimeEntry,
        ToolKind::CreateTimeEntry,
        ToolKind::UpdateTimeEntry,
        ToolKind::DeleteTimeEntry,
        ToolKind::LogTime,
    ];
    let reports = [ToolKind::GenerateProjectReport, ToolKind::GetDashboardData];
    let milestones = [
        ToolKind::ListMilestones,
        ToolKind::GetMilestone,
        ToolKind::CreateMilestone,
        ToolKind::UpdateMilestone,
        ToolKind::DeleteMilestone,
    ];
    assert(projects@ =~= project_tools());
    assert(issues@ =~= issue_tools());
    assert(users@ =~= user_tools());
    assert(time_entries@ =~= time_entry_tools());
    assert(reports@ =~= report_tools());
    assert(milestones@ =~= milestone_tools());
    push_group(&mut v, g.projects, projects.as_slice());
    push_group(&mut v, g.issues, issues.as_slice());
    push_group(&mut v, g.users, users.as_slice());
    push_group(&mut v, g.time_entries, time_entries.as_slice());
    push_group(&mut v, g.reports, reports.as_slice());
    push_group(&mut v, g.milestones, milestones.as_slice());
    assert(v@ =~= enabled_tool_kinds(g));
    v
}


/// The position of a tool in the list of all tools, group by group.
pub open spec fn tool_rank(k: ToolKind) -> int {
    match k {
        ToolKind::ListProjects => 0,
        ToolKind::GetProject => 1,
        ToolKind::CreateProject => 2,
        ToolKind::UpdateProject => 3,
        ToolKind::DeleteProject => 4,
        ToolKind::ListIssues => 5,
        ToolKind::GetIssue => 6,
        ToolKind::CreateIssue => 7,
        ToolKind::UpdateIssue => 8,
        ToolKind::AssignIssue => 9,
        ToolKind::CompleteIssue => 10,
        ToolKind::GetIssueEnumerations => 11,
        ToolKind::GetAttachment => 12,
        ToolKind::DownloadAttachment => 13,
        ToolKind::ListUsers => 14,
        ToolKind::GetUser => 15,
        ToolKind::GetUserWorkload => 16,
        ToolKind::ListTimeEntries => 17,
        ToolKind::GetTimeEntry => 18,
        ToolKind::CreateTimeEntry => 19,
        ToolKind::UpdateTimeEntry => 20,
        ToolKind::DeleteTimeEntry => 21,
        ToolKind::LogTime => 22,
        ToolKind::GenerateProjectReport => 23,
        ToolKind::GetDashboardData => 24,
        ToolKind::ListMilestones => 25,
        ToolKind::GetMilestone => 26,
        ToolKind::CreateMilestone => 27,
        ToolKind::UpdateMilestone => 28,
        ToolKind::DeleteMilestone => 29,
    }
}

/// The ranks rise strictly along the sequence and lie in `lo..hi`.
pub open spec fn ranks_rise_within(s: Seq<ToolKind>, lo: int, hi: int) -> bool {
    &&& forall|i: int, j: int| 0 <= i < j < s.len() ==> tool_rank(#[trigger] s[i]) < tool_rank(#[trigger] s[j])
    &&& forall|i: int| 0 <= i < s.len() ==> lo <= tool_rank(#[trigger] s[i]) && tool_rank(s[i]) < hi
}

proof fn lemma_ranks_concat(a: Seq<ToolKind>, b: Seq<ToolKind>, lo: int, mid: int, hi: int)
    requires
        lo <= mid <= hi,
        ranks_rise_within(a, lo, mid),
        ranks_rise_within(b, mid, hi),
    ensures
        ranks_rise_within(a + b, lo, hi),
{
    let c = a + b;
    assert forall|i: int, j: int| 0 <= i < j < c.len() implies tool_rank(#[trigger] c[i]) < tool_rank(
        #[trigger] c[j],
    ) by {
        if j < a.len() {
            assert(c[i] == a[i] && c[j] == a[j]);
        } else if i >= a.len() {
            assert(c[i] == b[i - a.len()] && c[j] == b[j - a.len()]);
        } else {
            assert(c[i] == a[i] && c[j] == b[j - a.len()]);
            assert(tool_rank(a[i]) < mid);
            assert(mid <= tool_rank(b[j - a.len()]));
        }
    }
    assert forall|i: int| 0 <= i < c.len() implies lo <= tool_rank(#[trigger] c[i]) && tool_rank(c[i]) < hi by {
        if i < a.len() {
            assert(c[i] == a[i]);
            assert(lo <= tool_rank(a[i]) < mid);
        } else {
            assert(c[i] == b[i - a.len()]);
            assert(mid <= tool_rank(b[i - a.len()]) < hi);
        }
    }
}

proof fn lemma_group_ranks(on: bool, tools: Seq<ToolKind>, lo: int, hi: int)
    requires
        ranks_rise_within(tools, lo, hi),
    ensures
        ranks_rise_within(group_if(on, tools), lo, hi),
{
}

proof fn lemma_groups_ranked()
    ensures
        ranks_rise_within(project_tools(), 0, 5),
        ranks_rise_within(issue_tools(), 5, 14),
        ranks_rise_within(user_tools(), 14, 17),
        ranks_rise_within(time_entry_tools(), 17, 23),
        ranks_rise_within(report_tools(), 23, 25),
        ranks_rise_within(milestone_tools(), 25, 30),
{
}

/// Law: the tools a configuration enables are each enabled once and carry
/// pairwise different names.
pub proof fn lemma_enabled_tools_distinct(g: ToolGroups)
    ensures
        forall|i: int, j: int|
            0 <= i < j < enabled_tool_kinds(g).len() ==> #[trigger] enabled_tool_kinds(g)[i]
                != #[trigger] enabled_tool_kinds(g)[j] && tool_name_text(enabled_tool_kinds(g)[i])
                != tool_name_text(enabled_tool_kinds(g)[j]),
{
    lemma_groups_ranked();
    let p = group_if(g.projects, project_tools());
    let i = group_if(g.issues, issue_tools());
    let u = group_if(g.users, user_tools());
    let t = group_if(g.time_entries, time_entry_tools());
    let r = group_if(g.reports, report_tools());
    let m = group_if(g.milestones, milestone_tools());
    lemma_group_ranks(g.projects, project_tools(), 0, 5);
    lemma_group_ranks(g.issues, issue_tools(), 5, 14);
    lemma_group_ranks(g.users, user_tools(), 14, 17);
    lemma_group_ranks(g.time_entries, time_entry_tools(), 17, 23);
    lemma_group_ranks(g.reports, report_tools(), 23, 25);
    lemma_group_ranks(g.milestones, milestone_tools(), 25, 30);
    lemma_ranks_concat(p, i, 0, 5, 14);
    lemma_ranks_concat(p + i, u, 0, 14, 17);
    lemma_ranks_concat(p + i + u, t, 0, 17, 23);
    lemma_ranks_concat(p + i + u + t, r, 0, 23, 25);
    lemma_ranks_concat(p + i + u + t + r, m, 0, 25, 30);
    let s = enabled_tool_kinds(g);
    assert(s == p + i + u + t + r + m);
    assert forall|a: int, b: int| 0 <= a < b < s.len() implies #[trigger] s[a] != #[trigger] s[b]
        && tool_name_text(s[a]) != tool_name_text(s[b]) by {
        assert(tool_rank(s[a]) < tool_rank(s[b]));
        lemma_tool_names_differ(s[a], s[b]);
    }
}

// ---------------------------------------------------------------- registry

/// A tool as it is registered: its name, description, input schema, and
/// what runs it.
pub struct ToolEntry<E> {
    pub name: String,
    pub description: String,
    pub input_schema: serde_json::Value,
    pub executor: E,
}

/// The input schema of a listed tool.
pub struct ToolInputSchema {
    pub schema_type: String,
    pub properties: Option<serde_json::Value>,
    pub required: Option<Vec<String>>,
    pub additional_properties: Option<bool>,
}

/// A tool as the MCP `tools/list` answer shows it.
pub struct Tool {
    pub name: String,
    pub description: String,
    pub input_schema: ToolInputSchema,
}

/// Copies a JSON value (`Clone` of `serde_json::Value`, which the crate
/// derives: the copy is the same value).
#[verifier::external_body]
fn clone_json(v: &serde_json::Value) -> (r: serde_json::Value)
    ensures
        r == *v,
{
    v.clone()
}

/// The names of the entries, in order.
pub open spec fn entry_names<E>(s: Seq<ToolEntry<E>>) -> Seq<Seq<char>> {
    s.map_values(|t: ToolEntry<E>| t.name@)
}

/// No name occurs twice.
pub open spec fn names_distinct<E>(s: Seq<ToolEntry<E>>) -> bool {
    forall|i: int, j: int| 0 <= i < j < s.len() ==> s[i].name@ != s[j].name@
}

/// Some entry carries the name.
pub open spec fn has_name<E>(s: Seq<ToolEntry<E>>, n: Seq<char>) -> bool {
    exists|i: int| 0 <= i < s.len() && #[trigger] s[i].name@ == n
}

/// The position of the entry with the name.
pub open spec fn position_of<E>(s: Seq<ToolEntry<E>>, n: Seq<char>) -> int {
    choose|i: int| 0 <= i < s.len() && #[trigger] s[i].name@ == n
}

/// Registering an entry: it replaces the entry of the same name, or joins
/// at the end.
pub open spec fn with_entry<E>(s: Seq<ToolEntry<E>>, e: ToolEntry<E>) -> Seq<ToolEntry<E>> {
    if has_name(s, e.name@) {
        s.update(position_of(s, e.name@), e)
    } else {
        s.push(e)
    }
}

/// What runs the tool of that name, if one is registered.
pub open spec fn lookup<E>(s: Seq<ToolEntry<E>>, n: Seq<char>) -> Option<E> {
    if has_name(s, n) {
        Some(s[position_of(s, n)].executor)
    } else {
        None
    }
}

/// The registered tools, each name once.
pub struct ToolRegistry<E> {
    tools: Vec<ToolEntry<E>>,
}

impl<E> ToolRegistry<E> {
    /// The entries in order of registration.
    pub closed spec fn entries(&self) -> Seq<ToolEntry<E>> {
        self.tools@
    }

    pub open spec fn wf(&self) -> bool {
        names_distinct(self.entries())
    }

    /// A registry with no tools.
    pub fn new() -> (r: Self)
        ensures
            r.wf(),
            r.entries() == Seq::<ToolEntry<E>>::empty(),
    {
        ToolRegistry { tools: Vec::new() }
    }

    /// Registers a tool under its name; a tool registered earlier under the
    /// same name is replaced.
    pub fn register(&mut self, entry: ToolEntry<E>)
        requires
            old(self).wf(),
        ensures
            final(self).wf(),
            final(self).entries() == with_entry(old(self).entries(), entry),
    {
        let ghost s = self.tools@;
        let ghost e = entry;
        let mut i: usize = 0;
        while i < self.tools.len() && !(self.tools[i].name == entry.name)
            invariant
                i <= self.tools.len(),
                self.tools@ == s,
                forall|j: int| 0 <= j < i ==> s[j].name@ != entry.name@,
            decreases self.tools.len() - i,
        {
            i = i + 1;
        }
        if i < self.tools.len() {
            proof {
                assert(s[i as int].name@ == e.name@);
                let p = position_of(s, e.name@);
                if p != i as int {
                    if p < i {
                        assert(s[p].name@ != e.name@);
                    } else {
                        assert(s[i as int].name@ != s[p].name@);
                    }
                }
            }
            self.tools.set(i, entry);
        } else {
            proof {
                if has_name(s, e.name@) {
                    let p = position_of(s, e.name@);
                    assert(s[p].name@ != e.name@);
                }
            }
            self.tools.push(entry);
        }
    }

    /// Number of registered tools.
    pub fn tool_count(&self) -> (r: usize)
        ensures
            r == self.entries().len(),
    {
        self.tools.len()
    }

    /// Whether a tool of that name is registered.
    pub fn has_tool(&self, tool_name: &str) -> (r: bool)
        ensures
            r == has_name(self.entries(), tool_name@),
    {
        let mut i: usize = 0;
        while i < self.tools.len()
            invariant
                i <= self.tools.len(),
                forall|j: int| 0 <= j < i ==> self.tools@[j].name@ != tool_name@,
            decreases self.tools.len() - i,
        {
            if same_text(self.tools[i].name.as_str(), tool_name) {
                assert(self.tools@[i as int].name@ == tool_name@);
                return true;
            }
            i = i + 1;
        }
        false
    }

    /// What runs the tool of that name.
    pub fn find_tool(&self, tool_name: &str) -> (r: Option<&E>)
        requires
            self.wf(),
        ensures
            r is Some == has_name(self.entries(), tool_name@),
            r matches Some(x) ==> *x == lookup(self.entries(), tool_name@)->0,
    {
        let mut i: usize = 0;
        while i < self.tools.len()
            invariant
                i <= self.tools.len(),
                self.wf(),
                forall|j: int| 0 <= j < i ==> self.tools@[j].name@ != tool_name@,
            decreases self.tools.len() - i,
        {
            if same_text(self.tools[i].name.as_str(), tool_name) {
                proof {
                    let s = self.tools@;
                    assert(s[i as int].name@ == tool_name@);
                    let p = position_of(s, tool_name@);
                    if p != i as int {
                        if p < i {
                            assert(s[p].name@ != tool_name@);
                        } else {
                            assert(s[i as int].name@ != s[p].name@);
                        }
                    }
                }
                return Some(&self.tools[i].executor);
            }
            i = i + 1;
        }
        None
    }

    /// The tools as `tools/list` shows them: each takes an object whose
    /// properties are the tool's input schema and admits no others.
    pub fn list_tools(&self) -> (r: Vec<Tool>)
        ensures
            r.len() == self.entries().len(),
            forall|i: int|
                0 <= i < r.len() ==> {
                    &&& #[trigger] r@[i].name@ == self.entries()[i].name@
                    &&& r@[i].description@ == self.entries()[i].description@
                    &&& r@[i].input_schema.schema_type@ == "object"@
                    &&& r@[i].input_schema.properties == Some(self.entries()[i].input_schema)
                    &&& r@[i].input_schema.required is None
                    &&& r@[i].input_schema.additional_properties == Some(false)
                },
    {
        let mut r: Vec<Tool> = Vec::new();
        let mut i: usize = 0;
        while i < self.tools.len()
            invariant
                i <= self.tools.len(),
                r.len() == i,
                forall|k: int|
                    0 <= k < i ==> {
                        &&& #[trigger] r@[k].name@ == self.tools@[k].name@
                        &&& r@[k].description@ == self.tools@[k].description@
                        &&& r@[k].input_schema.schema_type@ == "object"@
                        &&& r@[k].input_schema.properties == Some(self.tools@[k].input_schema)
                        &&& r@[k].input_schema.required is None
                        &&& r@[k].input_schema.additional_properties == Some(false)
                    },
            decreases self.tools.len() - i,
        {
            let t = &self.tools[i];
            let tool = Tool {
                name: t.name.clone(),
                description: t.description.clone(),
                input_schema: ToolInputSchema {
                    schema_type: "object".to_owned(),
                    properties: Some(clone_json(&t.input_schema)),
                    required: None,
                    additional_properties: Some(false),
                },
            };
            r.push(tool);
            i = i + 1;
        }
        r
    }
}

/// Law: a registered tool is found under its name, and runs with what was
/// registered last under that name.
pub proof fn lemma_register_then_find<E>(s: Seq<ToolEntry<E>>, e: ToolEntry<E>)
    requires
        names_distinct(s),
    ensures
        has_name(with_entry(s, e), e.name@),
        lookup(with_entry(s, e), e.name@) == Some(e.executor),
{
    let t = with_entry(s, e);
    if has_name(s, e.name@) {
        let p = position_of(s, e.name@);
        assert(t[p].name@ == e.name@);
        let q = position_of(t, e.name@);
        if q != p {
            assert(t[q] == s[q]);
            if q < p {
                assert(s[q].name@ != s[p].name@);
            } else {
                assert(s[p].name@ != s[q].name@);
            }
        }
    } else {
        assert(t[s.len() as int].name@ == e.name@);
        let q = position_of(t, e.name@);
        if q != s.len() {
            assert(t[q] == s[q]);
        }
    }
}

/// Law: registering a tool leaves every other name as it was.
pub proof fn lemma_register_keeps_others<E>(s: Seq<ToolEntry<E>>, e: ToolEntry<E>, n: Seq<char>)
    requires
        names_distinct(s),
        n != e.name@,
    ensures
        has_name(with_entry(s, e), n) == has_name(s, n),
        lookup(with_entry(s, e), n) == lookup(s, n),
{
    let t = with_entry(s, e);
    if has_name(s, n) {
        let p = position_of(s, n);
        if has_name(s, e.name@) {
            assert(p != position_of(s, e.name@));
        }
        assert(t[p] == s[p]);
        let q = position_of(t, n);
        if q != p {
            assert(t[q] == s[q]);
            if q < p {
                assert(s[q].name@ != s[p].name@);
            } else {
                assert(s[p].name@ != s[q].name@);
            }
        }
    }
    if has_name(t, n) {
        let q = position_of(t, n);
        if q < s.len() {
            assert(t[q] == s[q]);
        }
    }
}

/// The names under which tools are registered.
pub open spec fn registered_names<E>(s: Seq<ToolEntry<E>>) -> Set<Seq<char>> {
    entry_names(s).to_set()
}

/// Law: the number of tools (`tool_count`, and the length of `list_tools`)
/// is the number of different names registered, and a name is among them
/// exactly when `has_tool` finds it.
pub proof fn lemma_count_is_names<E>(r: &ToolRegistry<E>)
    requires
        r.wf(),
    ensures
        registered_names(r.entries()).len() == r.entries().len(),
        forall|n: Seq<char>| #[trigger] registered_names(r.entries()).contains(n) <==> has_name(r.entries(), n),
{
    let s = r.entries();
    let names = entry_names(s);
    assert forall|i: int, j: int| 0 <= i < names.len() && 0 <= j < names.len() && i != j implies names[i]
        != names[j] by {
        if i < j {
            assert(s[i].name@ != s[j].name@);
        } else {
            assert(s[j].name@ != s[i].name@);
        }
    }
    names.unique_seq_to_set();
    assert forall|n: Seq<char>| #[trigger] registered_names(s).contains(n) <==> has_name(s, n) by {
        if names.contains(n) {
            let i = choose|i: int| 0 <= i < names.len() && names[i] == n;
            assert(s[i].name@ == n);
        }
        if has_name(s, n) {
            let i = choose|i: int| 0 <= i < s.len() && #[trigger] s[i].name@ == n;
            assert(names[i] == n);
        }
    }
}

/// Law: registering a name that is taken keeps the number of tools; a new
/// name adds one.
pub proof fn lemma_register_count<E>(s: Seq<ToolEntry<E>>, e: ToolEntry<E>)
    ensures
        has_name(s, e.name@) ==> with_entry(s, e).len() == s.len(),
        !has_name(s, e.name@) ==> with_entry(s, e).len() == s.len() + 1,
{
}

} // verus!
