use scheduality::calendar::CalendarDate;
use scheduality::server::{
    add_release_reply, add_release_reply_for, create_entity_reply, delete_entity_plan,
    delete_entity_reply, plan_delete_entity, DeleteEntityPlan,
};

const ID_TEXT: &str = "67e55044-10b1-426f-9247-bb680e5fe0c8";
const ID_VALUE: u128 = 0x67e5504410b1426f9247bb680e5fe0c8;

#[test]
fn add_release_echoes_valid_submissions() {
    assert_eq!(add_release_reply("echo".to_string(), "20240101"), "echo");
}

#[test]
fn add_release_refuses_bad_dates() {
    for date in ["2024-01-01", "20241301", "20230229", "hello", ""] {
        assert_eq!(
            add_release_reply("echo".to_string(), date),
            "Invalid Date Format (use yyyymmdd)",
            "{date}"
        );
    }
}

#[test]
fn add_release_reply_for_parsed_dates() {
    let date = CalendarDate::from_ymd_opt(2024, 1, 1);
    assert_eq!(add_release_reply_for("echo".to_string(), date), "echo");
    assert_eq!(
        add_release_reply_for("echo".to_string(), None),
        "Invalid Date Format (use yyyymmdd)"
    );
}

#[test]
fn created_entity_is_named_by_its_simple_uuid() {
    assert_eq!(create_entity_reply(ID_VALUE), "67e5504410b1426f9247bb680e5fe0c8");
    assert_eq!(create_entity_reply(0), "00000000000000000000000000000000");
}

#[test]
fn delete_plan_for_a_uuid() {
    match plan_delete_entity(ID_TEXT) {
        DeleteEntityPlan::Delete { query, entity } => {
            assert_eq!(entity, ID_VALUE);
            assert_eq!(query, format!("DELETE FROM Entity WHERE uid = {ID_TEXT}"));
        }
        DeleteEntityPlan::Reply(text) => panic!("unexpected reply {text}"),
    }
    match plan_delete_entity("67e5504410b1426f9247bb680e5fe0c8") {
        DeleteEntityPlan::Delete { entity, .. } => assert_eq!(entity, ID_VALUE),
        DeleteEntityPlan::Reply(text) => panic!("unexpected reply {text}"),
    }
}

#[test]
fn delete_plan_for_other_texts() {
    for text in ["", "not-a-uuid", "67e55044-10b1-426f-9247"] {
        match plan_delete_entity(text) {
            DeleteEntityPlan::Reply(reply) => {
                assert_eq!(reply, "Something went wrong: could not parse Guild uuid")
            }
            DeleteEntityPlan::Delete { .. } => panic!("{text} parsed"),
        }
    }
    assert!(matches!(delete_entity_plan(None), DeleteEntityPlan::Reply(_)));
}

#[test]
fn delete_replies() {
    assert_eq!(
        delete_entity_reply(ID_VALUE, true),
        "Entity 67e5504410b1426f9247bb680e5fe0c8 deleted successfully"
    );
    assert_eq!(
        delete_entity_reply(ID_VALUE, false),
        "Something went wrong: Could not delete Entitiy 67e5504410b1426f9247bb680e5fe0c8"
    );
}
