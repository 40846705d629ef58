//! The texts the bot shows and logs.

use crate::calendar::iso_date_text;
use crate::modals::{ReleaseSubmission, SubmissionView};
use vstd::prelude::*;

verus! {

/// The label of a release, or "self" for a self-released one.
pub open spec fn label_or_self(label: Option<Seq<char>>) -> Seq<char> {
    match label {
        Some(l) => l,
        None => "self"@,
    }
}

/// `{artist} - {name} ({label or self})`
pub open spec fn summary_text(s: SubmissionView) -> Seq<char> {
    s.artist + " - "@ + s.name + " ("@ + label_or_self(s.label) + ")"@
}

/// `Added Release: {artist} - {name} [{label or self}] {YYYY-MM-DD}`
pub open spec fn added_release_text(s: SubmissionView) -> Seq<char> {
    "Added Release: "@ + s.artist + " - "@ + s.name + " ["@ + label_or_self(s.label) + "] "@
        + iso_date_text(s.release_date)
}

/// `{name}'s account was created at {created_at}`
pub open spec fn account_age_text(name: Seq<char>, created_at: Seq<char>) -> Seq<char> {
    name + "'s account was created at "@ + created_at
}

/// The name under which a member appears: the guild nickname, else the
/// global display name, else the user name.
pub open spec fn display_name_text(
    nick: Option<Seq<char>>,
    global_name: Option<Seq<char>>,
    name: Seq<char>,
) -> Seq<char> {
    match nick {
        Some(n) => n,
        None => match global_name {
            Some(g) => g,
            None => name,
        },
    }
}

/// The label of a release, or "self".
fn label_or_self_string(label: &Option<String>) -> (r: String)
    ensures
        r@ == label_or_self(crate::modals::option_view(*label)),
{
    match label {
        Some(l) => l.clone(),
        None => String::from_str("self"),
    }
}

/// The name under which a member appears: the guild nickname, else the
/// global display name, else the user name.
pub fn display_name(nick: Option<String>, global_name: Option<String>, name: String) -> (r: String)
    ensures
        r@ == display_name_text(
            crate::modals::option_view(nick),
            crate::modals::option_view(global_name),
            name@,
        ),
{
    match nick {
        Some(n) => n,
        None => match global_name {
            Some(g) => g,
            None => name,
        },
    }
}

/// The line that sums a release up: `{artist} - {name} ({label or self})`.
pub fn release_summary(submission: &ReleaseSubmission) -> (r: String)
    ensures
        r@ == summary_text(submission@),
{
    let mut text = submission.artist.clone();
    text.append(" - ");
    text.append(submission.name.as_str());
    text.append(" (");
    let label = label_or_self_string(&submission.label);
    text.append(label.as_str());
    text.append(")");
    text
}

/// The line logged when a release is stored:
/// `Added Release: {artist} - {name} [{label or self}] {YYYY-MM-DD}`.
pub fn added_release_line(submission: &ReleaseSubmission) -> (r: String)
    ensures
        r@ == added_release_text(submission@),
{
    let mut text = String::from_str("Added Release: ");
    text.append(submission.artist.as_str());
    text.append(" - ");
    text.append(submission.name.as_str());
    text.append(" [");
    let label = label_or_self_string(&submission.label);
    text.append(label.as_str());
    text.append("] ");
    let date = submission.release_date.format_ymd();
    text.append(date.as_str());
    text
}

/// The reply to the `age` command.
pub fn account_age_message(name: &str, created_at: &str) -> (r: String)
    ensures
        r@ == account_age_text(name@, created_at@),
{
    let mut text = String::from_str(name);
    text.append("'s account was created at ");
    text.append(created_at);
    text
}

/// The texts of the message that confirms an added release.
pub struct AddSuccessMessage {
    /// The name of the member who added the release.
    pub author: String,
    /// `{artist} - {name} ({label or self})`
    pub summary: String,
    /// The release date, `YYYY-MM-DD`.
    pub release_date: String,
    /// The footer, `via Scheduardo`.
    pub footer: String,
}

/// The texts of the message that confirms a release added by a member
/// with the given guild nickname, global display name and user name.
pub fn create_add_success_message(
    nick: Option<String>,
    global_name: Option<String>,
    name: String,
    submission: &ReleaseSubmission,
) -> (r: AddSuccessMessage)
    ensures
        r.author@ == display_name_text(
            crate::modals::option_view(nick),
            crate::modals::option_view(global_name),
            name@,
        ),
        r.summary@ == summary_text(submission@),
        r.release_date@ == iso_date_text(submission@.release_date),
        r.footer@ == "via Scheduardo"@,
{
    AddSuccessMessage {
        author: display_name(nick, global_name, name),
        summary: release_summary(submission),
        release_date: submission.release_date.to_string(),
        footer: String::from_str("via Scheduardo"),
    }
}

/// Law: the summary of a release shows, in this order and whatever they
/// are, the artist, ` - `, the release title, ` (`, the label (or `self`
/// where there is none) and `)`, and nothing else.
pub proof fn lemma_summary_shows_every_part(s: SubmissionView)
    ensures
        ({
            let text = summary_text(s);
            let a = s.artist.len() as int;
            let n = s.name.len() as int;
            let label = match s.label {
                Some(l) => l,
                None => "self"@,
            };
            &&& text.len() == a + n + label.len() + 6
            &&& text.subrange(0, a) == s.artist
            &&& text.subrange(a, a + 3) == " - "@
            &&& text.subrange(a + 3, a + 3 + n) == s.name
            &&& text.subrange(a + 3 + n, a + 5 + n) == " ("@
            &&& text.subrange(a + 5 + n, a + 5 + n + label.len()) == label
            &&& text[text.len() - 1] == ')'
        }),
{
    reveal_strlit(" - ");
    reveal_strlit(" (");
    reveal_strlit(")");
    reveal_strlit("self");
    let text = summary_text(s);
    let a = s.artist.len() as int;
    let n = s.name.len() as int;
    let label = label_or_self(s.label);
    assert(text =~= s.artist + " - "@ + s.name + " ("@ + label + ")"@);
    assert(text.subrange(0, a) =~= s.artist);
    assert(text.subrange(a, a + 3) =~= " - "@);
    assert(text.subrange(a + 3, a + 3 + n) =~= s.name);
    assert(text.subrange(a + 3 + n, a + 5 + n) =~= " ("@);
    assert(text.subrange(a + 5 + n, a + 5 + n + label.len()) =~= label);
}

/// Law: the log line of an added release shows, in this order, `Added
/// Release: `, the artist, ` - `, the release title, ` [`, the label (or
/// `self`), `] ` and the `YYYY-MM-DD` date, and nothing else.
pub proof fn lemma_added_release_line_shows_every_part(s: SubmissionView)
    ensures
        ({
            let text = added_release_text(s);
            let a = s.artist.len() as int;
            let n = s.name.len() as int;
            let label = match s.label {
                Some(l) => l,
                None => "self"@,
            };
            let l = label.len() as int;
            &&& text.len() == 15 + a + 3 + n + 2 + l + 2 + iso_date_text(s.release_date).len()
            &&& text.subrange(0, 15) == "Added Release: "@
            &&& text.subrange(15, 15 + a) == s.artist
            &&& text.subrange(15 + a, 18 + a) == " - "@
            &&& text.subrange(18 + a, 18 + a + n) == s.name
            &&& text.subrange(18 + a + n, 20 + a + n) == " ["@
            &&& text.subrange(20 + a + n, 20 + a + n + l) == label
            &&& text.subrange(20 + a + n + l, 22 + a + n + l) == "] "@
            &&& text.subrange(22 + a + n + l, text.len() as int) == iso_date_text(s.release_date)
        }),
{
    reveal_strlit("Added Release: ");
    reveal_strlit(" - ");
    reveal_strlit(" [");
    reveal_strlit("] ");
    reveal_strlit("self");
    let text = added_release_text(s);
    let a = s.artist.len() as int;
    let n = s.name.len() as int;
    let label = label_or_self(s.label);
    let l = label.len() as int;
    let date = iso_date_text(s.release_date);
    assert(text =~= "Added Release: "@ + s.artist + " - "@ + s.name + " ["@ + label + "] "@ + date);
    assert(text.subrange(0, 15) =~= "Added Release: "@);
    assert(text.subrange(15, 15 + a) =~= s.artist);
    assert(text.subrange(15 + a, 18 + a) =~= " - "@);
    assert(text.subrange(18 + a, 18 + a + n) =~= s.name);
    assert(text.subrange(18 + a + n, 20 + a + n) =~= " ["@);
    assert(text.subrange(20 + a + n, 20 + a + n + l) =~= label);
    assert(text.subrange(20 + a + n + l, 22 + a + n + l) =~= "] "@);
    assert(text.subrange(22 + a + n + l, text.len() as int) =~= date);
}

/// Law: the name a member appears under is the guild nickname where there
/// is one, else the global display name where there is one, else the user
/// name.
pub proof fn lemma_display_name_choice(
    nick: Option<Seq<char>>,
    global_name: Option<Seq<char>>,
    name: Seq<char>,
)
    ensures
        nick matches Some(n) ==> display_name_text(nick, global_name, name) == n,
        nick is None ==> (global_name matches Some(g) ==> display_name_text(
            nick,
            global_name,
            name,
        ) == g),
        nick is None && global_name is None ==> display_name_text(nick, global_name, name) == name,
{
}

} // verus!
