//! The texts with which the tools answer.

use vstd::prelude::*;
use crate::text::{decimal_text, push_signed, push_text, push_unsigned, signed_text};

verus! {

/// The total a listing reports: the server's total count, or else the
/// length of the page (as `len as i32`).
pub open spec fn reported_total(total_count: Option<i32>, page_len: nat) -> i32 {
    match total_count {
        Some(t) => t,
        None => #[verifier::truncate] (page_len as i32),
    }
}

/// A listing answer: `prefix`, the page size, `noun`, the total, the JSON.
fn listing_message(prefix: &str, noun: &str, page_len: usize, total_count: Option<i32>, json: &str) -> (r: String)
    ensures
        r@ == prefix@ + decimal_text(page_len as nat) + noun@ + signed_text(
            reported_total(total_count, page_len as nat) as int,
        ) + "):\n\n"@ + json@,
{
    let total: i32 = match total_count {
        Some(t) => t,
        None => #[verifier::truncate] (page_len as i32),
    };
    let mut s = String::new();
    push_text(&mut s, prefix);
    push_unsigned(&mut s, page_len as u64);
    push_text(&mut s, noun);
    push_signed(&mut s, total as i64);
    push_text(&mut s, "):\n\n");
    push_text(&mut s, json);
    s
}

/// The answer of the issue listing.
pub fn issues_found_message(page_len: usize, total_count: Option<i32>, json: &str) -> (r: String)
    ensures
        r@ == "Nalezeno "@ + decimal_text(page_len as nat) + " úkolů (celkem: "@ + signed_text(
            reported_total(total_count, page_len as nat) as int,
        ) + "):\n\n"@ + json@,
{
    listing_message("Nalezeno ", " úkolů (celkem: ", page_len, total_count, json)
}

/// The answer of the user listing.
pub fn users_found_message(page_len: usize, total_count: Option<i32>, json: &str) -> (r: String)
    ensures
        r@ == "Nalezeno "@ + decimal_text(page_len as nat) + " uživatelů (celkem: "@ + signed_text(
            reported_total(total_count, page_len as nat) as int,
        ) + "):\n\n"@ + json@,
{
    listing_message("Nalezeno ", " uživatelů (celkem: ", page_len, total_count, json)
}

/// The answer with one issue.
pub fn issue_detail_message(subject: &str, json: &str) -> (r: String)
    ensures
        r@ == "Detail úkolu '"@ + subject@ + "':\n\n"@ + json@,
{
    let mut s = String::new();
    push_text(&mut s, "Detail úkolu '");
    push_text(&mut s, subject);
    push_text(&mut s, "':\n\n");
    push_text(&mut s, json);
    s
}

/// The answer after creating an issue, with the watcher notes.
pub fn issue_created_message(subject: &str, id: i32, watcher_notes: &str, json: &str) -> (r: String)
    ensures
        r@ == "Úkol '"@ + subject@ + "' byl úspěšně vytvořen s ID "@ + signed_text(id as int) + ":"@
            + watcher_notes@ + "\n\n"@ + json@,
{
    let mut s = String::new();
    push_text(&mut s, "Úkol '");
    push_text(&mut s, subject);
    push_text(&mut s, "' byl úspěšně vytvořen s ID ");
    push_signed(&mut s, id as i64);
    push_text(&mut s, ":");
    push_text(&mut s, watcher_notes);
    push_text(&mut s, "\n\n");
    push_text(&mut s, json);
    s
}

/// The answer after updating an issue, with the watcher notes.
pub fn issue_updated_message(subject: &str, id: i32, watcher_notes: &str, json: &str) -> (r: String)
    ensures
        r@ == "Úkol '"@ + subject@ + "' (ID: "@ + signed_text(id as int) + ") byl úspěšně aktualizován:"@
            + watcher_notes@ + "\n\n"@ + json@,
{
    let mut s = String::new();
    push_text(&mut s, "Úkol '");
    push_text(&mut s, subject);
    push_text(&mut s, "' (ID: ");
    push_signed(&mut s, id as i64);
    push_text(&mut s, ") byl úspěšně aktualizován:");
    push_text(&mut s, watcher_notes);
    push_text(&mut s, "\n\n");
    push_text(&mut s, json);
    s
}

/// The answer after assigning an issue.
pub fn issue_assigned_message(id: i32, user_id: i32) -> (r: String)
    ensures
        r@ == "Úkol "@ + signed_text(id as int) + " byl úspěšně přiřazen uživateli "@ + signed_text(
            user_id as int,
        ) + "."@,
{
    let mut s = String::new();
    push_text(&mut s, "Úkol ");
    push_signed(&mut s, id as i64);
    push_text(&mut s, " byl úspěšně přiřazen uživateli ");
    push_signed(&mut s, user_id as i64);
    push_text(&mut s, ".");
    s
}

/// The answer after completing an issue.
pub fn issue_completed_message(id: i32, done_ratio: i32) -> (r: String)
    ensures
        r@ == "Úkol "@ + signed_text(id as int) + " byl úspěšně označen jako dokončený ("@ + signed_text(
            done_ratio as int,
        ) + "%)."@,
{
    let mut s = String::new();
    push_text(&mut s, "Úkol ");
    push_signed(&mut s, id as i64);
    push_text(&mut s, " byl úspěšně označen jako dokončený (");
    push_signed(&mut s, done_ratio as i64);
    push_text(&mut s, "%).");
    s
}

/// A name part, or `N/A` where it is missing.
pub open spec fn name_part(p: Option<Seq<char>>) -> Seq<char> {
    match p {
        Some(t) => t,
        None => "N/A"@,
    }
}

fn push_name_part(s: &mut String, p: &Option<String>)
    ensures
        final(s)@ == old(s)@ + name_part(p.deep_view()),
{
    match p {
        Some(t) => push_text(s, t.as_str()),
        None => push_text(s, "N/A"),
    }
}

/// First and last name of a user, `N/A` standing for a missing part.
pub fn person_name(firstname: &Option<String>, lastname: &Option<String>) -> (r: String)
    ensures
        r@ == name_part(firstname.deep_view()) + " "@ + name_part(lastname.deep_view()),
{
    let mut s = String::new();
    push_name_part(&mut s, firstname);
    push_text(&mut s, " ");
    push_name_part(&mut s, lastname);
    s
}

/// The answer with one user.
pub fn user_detail_message(firstname: &Option<String>, lastname: &Option<String>, json: &str) -> (r: String)
    ensures
        r@ == "Detail uživatele '"@ + name_part(firstname.deep_view()) + " "@ + name_part(
            lastname.deep_view(),
        ) + "':\n\n"@ + json@,
{
    let mut s = String::new();
    push_text(&mut s, "Detail uživatele '");
    let name = person_name(firstname, lastname);
    push_text(&mut s, name.as_str());
    push_text(&mut s, "':\n\n");
    push_text(&mut s, json);
    s
}

/// The answer of the workload tool.
pub fn workload_message(
    mail: &Option<String>,
    firstname: &Option<String>,
    lastname: &Option<String>,
    json: &str,
) -> (r: String)
    ensures
        r@ == "Pracovní vytížení uživatele '"@ + name_part(mail.deep_view()) + "' ("@ + name_part(
            firstname.deep_view(),
        ) + " "@ + name_part(lastname.deep_view()) + "):\n\n"@ + json@,
{
    let mut s = String::new();
    push_text(&mut s, "Pracovní vytížení uživatele '");
    push_name_part(&mut s, mail);
    push_text(&mut s, "' (");
    let name = person_name(firstname, lastname);
    push_text(&mut s, name.as_str());
    push_text(&mut s, "):\n\n");
    push_text(&mut s, json);
    s
}

/// The answer of the project report.
pub fn report_message(project_name: &str, project_id: i32, json: &str) -> (r: String)
    ensures
        r@ == "Sestava pro projekt '"@ + project_name@ + "' (ID: "@ + signed_text(project_id as int)
            + "):\n\n"@ + json@,
{
    let mut s = String::new();
    push_text(&mut s, "Sestava pro projekt '");
    push_text(&mut s, project_name);
    push_text(&mut s, "' (ID: ");
    push_signed(&mut s, project_id as i64);
    push_text(&mut s, "):\n\n");
    push_text(&mut s, json);
    s
}

/// A heading, a blank line, and the JSON (dashboard, attachment metadata).
pub fn titled_json_message(title: &str, json: &str) -> (r: String)
    ensures
        r@ == title@ + ":\n\n"@ + json@,
{
    let mut s = String::new();
    push_text(&mut s, title);
    push_text(&mut s, ":\n\n");
    push_text(&mut s, json);
    s
}

/// An error answer: what failed, then the error.
pub fn failure_message(context: &str, error_text: &str) -> (r: String)
    ensures
        r@ == context@ + ": "@ + error_text@,
{
    let mut s = String::new();
    push_text(&mut s, context);
    push_text(&mut s, ": ");
    push_text(&mut s, error_text);
    s
}


/// An error answer about one item: what failed, the item's id, the error.
pub fn failure_with_id_message(context: &str, id: i32, error_text: &str) -> (r: String)
    ensures
        r@ == context@ + " "@ + signed_text(id as int) + ": "@ + error_text@,
{
    let mut s = String::new();
    push_text(&mut s, context);
    push_text(&mut s, " ");
    push_signed(&mut s, id as i64);
    push_text(&mut s, ": ");
    push_text(&mut s, error_text);
    s
}

/// An error answer about a named item: what failed, the quoted name, the
/// error.
pub fn failure_with_name_message(context: &str, name: &str, error_text: &str) -> (r: String)
    ensures
        r@ == context@ + " '"@ + name@ + "': "@ + error_text@,
{
    let mut s = String::new();
    push_text(&mut s, context);
    push_text(&mut s, " '");
    push_text(&mut s, name);
    push_text(&mut s, "': ");
    push_text(&mut s, error_text);
    s
}

/// The error for a tool that is not registered.
pub fn unknown_tool_message(tool_name: &str) -> (r: String)
    ensures
        r@ == "Tool '"@ + tool_name@ + "' nenalezen"@,
{
    let mut s = String::new();
    push_text(&mut s, "Tool '");
    push_text(&mut s, tool_name);
    push_text(&mut s, "' nenalezen");
    s
}

} // verus!
