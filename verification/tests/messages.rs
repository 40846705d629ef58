use scheduality::calendar::CalendarDate;
use scheduality::messages::{
    account_age_message, added_release_line, create_add_success_message, display_name,
    release_summary,
};
use scheduality::modals::ReleaseSubmission;

fn submission(label: Option<&str>) -> ReleaseSubmission {
    ReleaseSubmission {
        artist: "Aphex Twin".to_string(),
        name: "Syro".to_string(),
        label: label.map(|l| l.to_string()),
        release_date: CalendarDate::from_ymd_opt(2014, 9, 19).unwrap(),
    }
}

#[test]
fn summary_names_the_label_or_self() {
    assert_eq!(release_summary(&submission(Some("Warp"))), "Aphex Twin - Syro (Warp)");
    assert_eq!(release_summary(&submission(None)), "Aphex Twin - Syro (self)");
}

#[test]
fn added_release_line_has_the_iso_date() {
    assert_eq!(
        added_release_line(&submission(Some("Warp"))),
        "Added Release: Aphex Twin - Syro [Warp] 2014-09-19"
    );
    assert_eq!(
        added_release_line(&submission(None)),
        "Added Release: Aphex Twin - Syro [self] 2014-09-19"
    );
}

#[test]
fn display_name_prefers_nickname_then_global_name() {
    let s = |x: &str| x.to_string();
    assert_eq!(display_name(Some(s("nick")), Some(s("global")), s("user")), "nick");
    assert_eq!(display_name(None, Some(s("global")), s("user")), "global");
    assert_eq!(display_name(None, None, s("user")), "user");
    assert_eq!(display_name(Some(s("nick")), None, s("user")), "nick");
}

#[test]
fn age_message() {
    assert_eq!(
        account_age_message("ferris", "2016-05-01T10:00:00Z"),
        "ferris's account was created at 2016-05-01T10:00:00Z"
    );
}

#[test]
fn success_message_texts() {
    let m = create_add_success_message(None, Some("Global".to_string()), "user".to_string(),
        &submission(None));
    assert_eq!(m.author, "Global");
    assert_eq!(m.summary, "Aphex Twin - Syro (self)");
    assert_eq!(m.release_date, "2014-09-19");
    assert_eq!(m.footer, "via Scheduardo");
}
