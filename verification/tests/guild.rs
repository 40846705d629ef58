use scheduality::events::{plan_event, BotEvent, EventPlan};
use scheduality::guild::{
    AddReleaseAction, AddReleaseEvent, AddReleaseFlow, PrivilegeCheck, PrivilegeStep,
};

#[test]
fn privilege_check_stops_at_the_first_role_held() {
    let mut check = PrivilegeCheck::new(vec![11, 22, 33]);
    assert_eq!(check.next_step(), PrivilegeStep::CheckRole(11));
    check.record(false);
    assert_eq!(check.next_step(), PrivilegeStep::CheckRole(22));
    check.record(true);
    assert_eq!(check.next_step(), PrivilegeStep::Finished(true));
}

#[test]
fn privilege_check_asks_every_role_before_refusing() {
    let mut check = PrivilegeCheck::new(vec![11, 22]);
    let mut asked = vec![];
    while let PrivilegeStep::CheckRole(role) = check.next_step() {
        asked.push(role);
        check.record(false);
    }
    assert_eq!(asked, vec![11, 22]);
    assert_eq!(check.next_step(), PrivilegeStep::Finished(false));
    assert_eq!(PrivilegeCheck::new(vec![]).next_step(), PrivilegeStep::Finished(false));
}

#[test]
fn privilege_check_casts_stored_roles_to_u64() {
    let check = PrivilegeCheck::new(vec![-1]);
    assert_eq!(check.next_step(), PrivilegeStep::CheckRole(u64::MAX));
}

#[test]
fn owner_adds_a_new_release_with_a_label() {
    let mut flow = AddReleaseFlow::new(100, 7, true);
    assert_eq!(flow.next_action(), AddReleaseAction::FetchOwner { guild: 100 });
    flow.advance(AddReleaseEvent::Owner(7));
    assert_eq!(flow.next_action(), AddReleaseAction::CheckPrivilege);
    flow.advance(AddReleaseEvent::Privileged(false));
    assert_eq!(flow.next_action(), AddReleaseAction::FindRelease { with_label: true });
    flow.advance(AddReleaseEvent::ReleaseFound(None));
    assert_eq!(flow.next_action(), AddReleaseAction::FetchArtist);
    flow.advance(AddReleaseEvent::ArtistId(3));
    assert_eq!(flow.next_action(), AddReleaseAction::FetchLabel);
    flow.advance(AddReleaseEvent::LabelId(Some(4)));
    assert_eq!(
        flow.next_action(),
        AddReleaseAction::InsertRelease { artist_id: 3, label_id: Some(4) }
    );
    flow.advance(AddReleaseEvent::ReleaseInserted(55));
    assert_eq!(flow.next_action(), AddReleaseAction::FetchUser { user: 7 });
    flow.advance(AddReleaseEvent::UserId(8));
    assert_eq!(flow.next_action(), AddReleaseAction::FetchGuild { guild: 100 });
    flow.advance(AddReleaseEvent::GuildId(9));
    assert_eq!(
        flow.next_action(),
        AddReleaseAction::Link { guild_id: 9, release_id: 55, user_id: 8 }
    );
    flow.advance(AddReleaseEvent::Linked);
    assert_eq!(flow.next_action(), AddReleaseAction::Finish);
}

#[test]
fn release_without_label_skips_the_label() {
    let mut flow = AddReleaseFlow::new(1, 2, false);
    flow.advance(AddReleaseEvent::Owner(99));
    flow.advance(AddReleaseEvent::Privileged(true));
    assert_eq!(flow.next_action(), AddReleaseAction::FindRelease { with_label: false });
    flow.advance(AddReleaseEvent::ReleaseFound(None));
    flow.advance(AddReleaseEvent::ArtistId(3));
    assert_eq!(
        flow.next_action(),
        AddReleaseAction::InsertRelease { artist_id: 3, label_id: None }
    );
}

#[test]
fn found_release_is_reused() {
    let mut flow = AddReleaseFlow::new(1, 2, false);
    flow.advance(AddReleaseEvent::Owner(2));
    flow.advance(AddReleaseEvent::Privileged(false));
    flow.advance(AddReleaseEvent::ReleaseFound(Some(42)));
    assert_eq!(flow.next_action(), AddReleaseAction::FetchUser { user: 2 });
    flow.advance(AddReleaseEvent::UserId(5));
    flow.advance(AddReleaseEvent::GuildId(6));
    assert_eq!(
        flow.next_action(),
        AddReleaseAction::Link { guild_id: 6, release_id: 42, user_id: 5 }
    );
}

#[test]
fn stranger_is_refused() {
    let mut flow = AddReleaseFlow::new(1, 2, true);
    flow.advance(AddReleaseEvent::Owner(3));
    flow.advance(AddReleaseEvent::Privileged(false));
    assert_eq!(flow.next_action(), AddReleaseAction::Finish);
}

#[test]
fn snowflakes_are_compared_as_i64() {
    let big = u64::MAX;
    let mut flow = AddReleaseFlow::new(big, big, false);
    assert_eq!(flow.next_action(), AddReleaseAction::FetchOwner { guild: -1 });
    flow.advance(AddReleaseEvent::Owner(-1));
    flow.advance(AddReleaseEvent::Privileged(false));
    assert_eq!(flow.next_action(), AddReleaseAction::FindRelease { with_label: false });
}

#[test]
fn event_plans() {
    assert_eq!(plan_event(BotEvent::Ready), EventPlan::InitialiseDatabase);
    assert_eq!(plan_event(BotEvent::GuildCreate), EventPlan::AddGuild);
    assert_eq!(plan_event(BotEvent::GuildDelete), EventPlan::RemoveGuild);
    assert_eq!(
        plan_event(BotEvent::InteractionCreate { is_modal: true }),
        EventPlan::HandleModalSubmission
    );
    assert_eq!(plan_event(BotEvent::InteractionCreate { is_modal: false }), EventPlan::Ignore);
    assert_eq!(plan_event(BotEvent::Other), EventPlan::Ignore);
}
