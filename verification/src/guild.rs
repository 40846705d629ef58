//! Decisions around a guild's releases: who may add a release, and the
//! order of the lookups and writes that adding one takes. The database
//! and Discord calls themselves are made by the caller, which reports
//! their results back.

use vstd::prelude::*;

verus! {

/// Whether the user `user` may add releases to a guild: they own it, or
/// they hold one of its privileged roles. Snowflakes are stored as `i64`,
/// so the user's `u64` id is compared through `as i64`.
pub open spec fn may_add(owner: i64, user: u64, privileged: bool) -> bool {
    owner == user as i64 || privileged
}

/// What the privilege check wants next.
#[derive(Clone, Copy, Debug, PartialEq, Eq)]
pub enum PrivilegeStep {
    /// Ask Discord whether the user holds this role.
    CheckRole(u64),
    /// The check is over: whether the user holds a privileged role.
    Finished(bool),
}

/// Whether a user holds one of a guild's privileged roles, asked role by
/// role in order and stopping at the first role held.
pub struct PrivilegeCheck {
    roles: Vec<i64>,
    next: usize,
    privileged: bool,
    answers: Ghost<Seq<bool>>,
}

impl PrivilegeCheck {
    /// The privileged roles of the guild, as stored.
    pub closed spec fn roles(&self) -> Seq<i64> {
        self.roles@
    }

    /// Discord's answers so far, one per role asked, in order.
    pub closed spec fn answers(&self) -> Seq<bool> {
        self.answers@
    }

    /// No role asked about so far is held, and some role is left to ask about.
    pub open spec fn asks_more(&self) -> bool {
        !self.answers().contains(true) && self.answers().len() < self.roles().len()
    }

    pub closed spec fn wf(&self) -> bool {
        &&& self.next == self.answers@.len()
        &&& self.next <= self.roles@.len() <= usize::MAX
        &&& self.privileged == self.answers@.contains(true)
        &&& forall|i: int| 0 <= i < self.answers@.len() - 1 ==> !self.answers@[i]
    }

    /// A check of the given privileged roles, nothing asked yet.
    pub fn new(roles: Vec<i64>) -> (r: Self)
        ensures
            r.wf(),
            r.roles() == roles@,
            r.answers() == Seq::<bool>::empty(),
    {
        // A vector's length fits in a `usize`.
        let count = roles.len();
        assert(roles@.len() == count);
        PrivilegeCheck { roles, next: 0, privileged: false, answers: Ghost(Seq::empty()) }
    }

    /// What to do next: once a role is held, or once every role has been
    /// asked about, the check is over; otherwise ask about the next role.
    pub fn next_step(&self) -> (r: PrivilegeStep)
        requires
            self.wf(),
        ensures
            self.answers().len() <= self.roles().len(),
            self.answers().contains(true) ==> r == PrivilegeStep::Finished(true),
            !self.answers().contains(true) && self.answers().len() == self.roles().len() ==> r
                == PrivilegeStep::Finished(false),
            self.asks_more() ==> r == PrivilegeStep::CheckRole(self.roles()[self.answers().len() as int] as u64),
    {
        if self.privileged {
            PrivilegeStep::Finished(true)
        } else if self.next == self.roles.len() {
            PrivilegeStep::Finished(false)
        } else {
            PrivilegeStep::CheckRole(self.roles[self.next] as u64)
        }
    }

    /// Records Discord's answer about the role last asked for.
    pub fn record(&mut self, has_role: bool)
        requires
            old(self).wf(),
            old(self).asks_more(),
        ensures
            final(self).wf(),
            final(self).roles() == old(self).roles(),
            final(self).answers() == old(self).answers().push(has_role),
    {
        proof {
            let a = self.answers@;
            assert(!a.contains(true)) by {
                if a.contains(true) {
                    assert(self.privileged);
                }
            }
            assert forall|i: int| 0 <= i < a.push(has_role).len() - 1 implies !a.push(
                has_role,
            )[i] by {
                if a[i] {
                    assert(a.contains(true));
                }
            }
            if has_role {
                assert(a.push(has_role)[a.len() as int]);
            } else {
                assert forall|i: int| 0 <= i < a.push(has_role).len() implies !a.push(
                    has_role,
                )[i] by {
                    if i < a.len() && a[i] {
                        assert(a.contains(true));
                    }
                }
            }
        }
        self.next = self.next + 1;
        self.privileged = has_role;
        self.answers = Ghost(self.answers@.push(has_role));
    }
}

/// Where adding a release to a guild stands.
#[derive(Clone, Copy, Debug, PartialEq, Eq)]
pub enum AddReleaseStage {
    /// Waiting for the snowflake of the guild's owner.
    AwaitOwner,
    /// Waiting for whether the user holds a privileged role.
    AwaitPrivilege { owner: i64 },
    /// Waiting for the id of a stored release equal to the submitted one.
    AwaitRelease,
    /// Waiting for the id of the release's artist (found or inserted).
    AwaitArtist,
    /// Waiting for the id of the release's label (found or inserted).
    AwaitLabel { artist_id: i32 },
    /// Waiting for the id of the newly inserted release.
    AwaitInsert { artist_id: i32, label_id: Option<i32> },
    /// Waiting for the id of the user (found or inserted).
    AwaitUser { release_id: i32 },
    /// Waiting for the id of the guild.
    AwaitGuild { release_id: i32, user_id: i32 },
    /// Waiting for the release to be linked to the guild.
    AwaitLink { guild_id: i32, release_id: i32, user_id: i32 },
    /// Nothing left to do.
    Done,
}

/// What the caller is to do next while adding a release to a guild.
#[derive(Clone, Copy, Debug, PartialEq, Eq)]
pub enum AddReleaseAction {
    /// Look up the snowflake of the owner of the guild with this snowflake.
    FetchOwner { guild: i64 },
    /// Check whether the user holds one of the guild's privileged roles
    /// (see `PrivilegeCheck`).
    CheckPrivilege,
    /// Look up a stored release with the submission's artist, name, date
    /// and label (`with_label`), or no label (`!with_label`).
    FindRelease { with_label: bool },
    /// Find or insert the submission's artist.
    FetchArtist,
    /// Find or insert the submission's label.
    FetchLabel,
    /// Insert the release with these artist and label ids.
    InsertRelease { artist_id: i32, label_id: Option<i32> },
    /// Find or insert the user with this snowflake.
    FetchUser { user: i64 },
    /// Look up the id of the guild with this snowflake.
    FetchGuild { guild: i64 },
    /// Link the release to the guild, on behalf of the user.
    Link { guild_id: i32, release_id: i32, user_id: i32 },
    /// Adding the release is over.
    Finish,
}

/// What the caller reports back after an action.
#[derive(Clone, Copy, Debug, PartialEq, Eq)]
pub enum AddReleaseEvent {
    Owner(i64),
    Privileged(bool),
    ReleaseFound(Option<i32>),
    ArtistId(i32),
    LabelId(Option<i32>),
    ReleaseInserted(i32),
    UserId(i32),
    GuildId(i32),
    Linked,
}

/// The event that answers the action a stage asks for.
pub open spec fn answers(stage: AddReleaseStage, event: AddReleaseEvent) -> bool {
    match stage {
        AddReleaseStage::AwaitOwner => event is Owner,
        AddReleaseStage::AwaitPrivilege { .. } => event is Privileged,
        AddReleaseStage::AwaitRelease => event is ReleaseFound,
        AddReleaseStage::AwaitArtist => event is ArtistId,
        AddReleaseStage::AwaitLabel { .. } => event is LabelId,
        AddReleaseStage::AwaitInsert { .. } => event is ReleaseInserted,
        AddReleaseStage::AwaitUser { .. } => event is UserId,
        AddReleaseStage::AwaitGuild { .. } => event is GuildId,
        AddReleaseStage::AwaitLink { .. } => event is Linked,
        AddReleaseStage::Done => false,
    }
}

/// Stages reached only after the user was found allowed to add releases.
pub open spec fn past_permission(stage: AddReleaseStage) -> bool {
    !(stage is AwaitOwner || stage is AwaitPrivilege || stage is Done)
}

/// Adding a submitted release to a guild on behalf of a user: the guild's
/// owner and the user's privileges decide whether the user may; a release
/// equal to the submitted one is reused, else it is inserted; then the
/// release is linked to the guild.
pub struct AddReleaseFlow {
    guild: u64,
    user: u64,
    has_label: bool,
    stage: AddReleaseStage,
    granted: Ghost<bool>,
}

impl AddReleaseFlow {
    pub closed spec fn guild(&self) -> u64 {
        self.guild
    }

    pub closed spec fn user(&self) -> u64 {
        self.user
    }

    /// Whether the submitted release has a label.
    pub closed spec fn has_label(&self) -> bool {
        self.has_label
    }

    pub closed spec fn stage(&self) -> AddReleaseStage {
        self.stage
    }

    /// Whether the owner and privilege answers allowed the user to add the
    /// release.
    pub closed spec fn granted(&self) -> bool {
        self.granted@
    }

    pub closed spec fn wf(&self) -> bool {
        past_permission(self.stage) ==> self.granted@
    }

    /// Adding a release with or without a label, to the guild with
    /// snowflake `guild`, on behalf of the user with snowflake `user`.
    pub fn new(guild: u64, user: u64, has_label: bool) -> (r: Self)
        ensures
            r.wf(),
            r.guild() == guild,
            r.user() == user,
            r.has_label() == has_label,
            r.stage() == AddReleaseStage::AwaitOwner,
    {
        AddReleaseFlow { guild, user, has_label, stage: AddReleaseStage::AwaitOwner, granted: Ghost(false) }
    }

    /// The action the current stage asks for; a release is linked only
    /// once the user was allowed to add it.
    pub fn next_action(&self) -> (r: AddReleaseAction)
        requires
            self.wf(),
        ensures
            r == action_of(self.stage(), self.guild(), self.user(), self.has_label()),
            r is Link ==> self.granted(),
    {
        match self.stage {
            AddReleaseStage::AwaitOwner => AddReleaseAction::FetchOwner { guild: self.guild as i64 },
            AddReleaseStage::AwaitPrivilege { .. } => AddReleaseAction::CheckPrivilege,
            AddReleaseStage::AwaitRelease => AddReleaseAction::FindRelease { with_label: self.has_label },
            AddReleaseStage::AwaitArtist => AddReleaseAction::FetchArtist,
            AddReleaseStage::AwaitLabel { .. } => AddReleaseAction::FetchLabel,
            AddReleaseStage::AwaitInsert { artist_id, label_id } => AddReleaseAction::InsertRelease {
                artist_id,
                label_id,
            },
            AddReleaseStage::AwaitUser { .. } => AddReleaseAction::FetchUser { user: self.user as i64 },
            AddReleaseStage::AwaitGuild { .. } => AddReleaseAction::FetchGuild { guild: self.guild as i64 },
            AddReleaseStage::AwaitLink { guild_id, release_id, user_id } => AddReleaseAction::Link {
                guild_id,
                release_id,
                user_id,
            },
            AddReleaseStage::Done => AddReleaseAction::Finish,
        }
    }

    /// Moves on with the result of the action asked for.
    pub fn advance(&mut self, event: AddReleaseEvent)
        requires
            old(self).wf(),
            answers(old(self).stage(), event),
        ensures
            final(self).wf(),
            final(self).guild() == old(self).guild(),
            final(self).user() == old(self).user(),
            final(self).has_label() == old(self).has_label(),
            !(old(self).stage() is AwaitPrivilege) ==> final(self).granted() == old(
                self,
            ).granted(),
            final(self).stage() == next_stage(
                old(self).stage(),
                event,
                old(self).user(),
                old(self).has_label(),
            ),
            old(self).stage() is AwaitPrivilege ==> final(self).granted() == may_add(
                old(self).stage()->owner,
                old(self).user(),
                event->Privileged_0,
            ),
    {
        let user = self.user;
        let has_label = self.has_label;
        let next = match (self.stage, event) {
            (AddReleaseStage::AwaitOwner, AddReleaseEvent::Owner(owner)) => AddReleaseStage::AwaitPrivilege { owner },
            (AddReleaseStage::AwaitPrivilege { owner }, AddReleaseEvent::Privileged(privileged)) => {
                let allowed = owner == user as i64 || privileged;
                self.granted = Ghost(allowed);
                if allowed {
                    AddReleaseStage::AwaitRelease
                } else {
                    AddReleaseStage::Done
                }
            },
            (AddReleaseStage::AwaitRelease, AddReleaseEvent::ReleaseFound(found)) => match found {
                Some(release_id) => AddReleaseStage::AwaitUser { release_id },
                None => AddReleaseStage::AwaitArtist,
            },
            (AddReleaseStage::AwaitArtist, AddReleaseEvent::ArtistId(artist_id)) => if has_label {
                AddReleaseStage::AwaitLabel { artist_id }
            } else {
                AddReleaseStage::AwaitInsert { artist_id, label_id: None }
            },
            (AddReleaseStage::AwaitLabel { artist_id }, AddReleaseEvent::LabelId(label_id)) => AddReleaseStage::AwaitInsert { artist_id, label_id },
            (AddReleaseStage::AwaitInsert { .. }, AddReleaseEvent::ReleaseInserted(release_id)) => AddReleaseStage::AwaitUser { release_id },
            (AddReleaseStage::AwaitUser { release_id }, AddReleaseEvent::UserId(user_id)) => AddReleaseStage::AwaitGuild { release_id, user_id },
            (AddReleaseStage::AwaitGuild { release_id, user_id }, AddReleaseEvent::GuildId(guild_id)) => AddReleaseStage::AwaitLink { guild_id, release_id, user_id },
            (_, _) => AddReleaseStage::Done,
        };
        self.stage = next;
    }
}

/// The action a stage asks for.
pub open spec fn action_of(stage: AddReleaseStage, guild: u64, user: u64, has_label: bool) -> AddReleaseAction {
    match stage {
        AddReleaseStage::AwaitOwner => AddReleaseAction::FetchOwner { guild: guild as i64 },
        AddReleaseStage::AwaitPrivilege { .. } => AddReleaseAction::CheckPrivilege,
        AddReleaseStage::AwaitRelease => AddReleaseAction::FindRelease { with_label: has_label },
        AddReleaseStage::AwaitArtist => AddReleaseAction::FetchArtist,
        AddReleaseStage::AwaitLabel { .. } => AddReleaseAction::FetchLabel,
        AddReleaseStage::AwaitInsert { artist_id, label_id } => AddReleaseAction::InsertRelease { artist_id, label_id },
        AddReleaseStage::AwaitUser { .. } => AddReleaseAction::FetchUser { user: user as i64 },
        AddReleaseStage::AwaitGuild { .. } => AddReleaseAction::FetchGuild { guild: guild as i64 },
        AddReleaseStage::AwaitLink { guild_id, release_id, user_id } => AddReleaseAction::Link { guild_id, release_id, user_id },
        AddReleaseStage::Done => AddReleaseAction::Finish,
    }
}

/// The stage that follows a stage on the event that answers it.
pub open spec fn next_stage(stage: AddReleaseStage, event: AddReleaseEvent, user: u64, has_label: bool) -> AddReleaseStage {
    match (stage, event) {
        (AddReleaseStage::AwaitOwner, AddReleaseEvent::Owner(owner)) => AddReleaseStage::AwaitPrivilege { owner },
        (AddReleaseStage::AwaitPrivilege { owner }, AddReleaseEvent::Privileged(privileged)) => if may_add(owner, user, privileged) {
            AddReleaseStage::AwaitRelease
        } else {
            AddReleaseStage::Done
        },
        (AddReleaseStage::AwaitRelease, AddReleaseEvent::ReleaseFound(found)) => match found {
            Some(release_id) => AddReleaseStage::AwaitUser { release_id },
            None => AddReleaseStage::AwaitArtist,
        },
        (AddReleaseStage::AwaitArtist, AddReleaseEvent::ArtistId(artist_id)) => if has_label {
            AddReleaseStage::AwaitLabel { artist_id }
        } else {
            AddReleaseStage::AwaitInsert { artist_id, label_id: None }
        },
        (AddReleaseStage::AwaitLabel { artist_id }, AddReleaseEvent::LabelId(label_id)) => AddReleaseStage::AwaitInsert { artist_id, label_id },
        (AddReleaseStage::AwaitInsert { .. }, AddReleaseEvent::ReleaseInserted(release_id)) => AddReleaseStage::AwaitUser { release_id },
        (AddReleaseStage::AwaitUser { release_id }, AddReleaseEvent::UserId(user_id)) => AddReleaseStage::AwaitGuild { release_id, user_id },
        (AddReleaseStage::AwaitGuild { release_id, user_id }, AddReleaseEvent::GuildId(guild_id)) => AddReleaseStage::AwaitLink { guild_id, release_id, user_id },
        (_, _) => AddReleaseStage::Done,
    }
}

/// An upper bound on the number of actions left before the flow is done.
pub open spec fn steps_left(stage: AddReleaseStage) -> nat {
    match stage {
        AddReleaseStage::AwaitOwner => 9,
        AddReleaseStage::AwaitPrivilege { .. } => 8,
        AddReleaseStage::AwaitRelease => 7,
        AddReleaseStage::AwaitArtist => 6,
        AddReleaseStage::AwaitLabel { .. } => 5,
        AddReleaseStage::AwaitInsert { .. } => 4,
        AddReleaseStage::AwaitUser { .. } => 3,
        AddReleaseStage::AwaitGuild { .. } => 2,
        AddReleaseStage::AwaitLink { .. } => 1,
        AddReleaseStage::Done => 0,
    }
}

/// Law: every answered action brings the flow closer to its end, so
/// adding a release always finishes.
pub proof fn lemma_flow_progresses(
    stage: AddReleaseStage,
    event: AddReleaseEvent,
    user: u64,
    has_label: bool,
)
    requires
        answers(stage, event),
    ensures
        steps_left(next_stage(stage, event, user, has_label)) < steps_left(stage),
{
}

/// Law: a user who neither owns the guild nor holds a privileged role is
/// answered by finishing at once, with nothing looked up or written.
pub proof fn lemma_refused_user_finishes(
    owner: i64,
    user: u64,
    privileged: bool,
    guild: u64,
    has_label: bool,
)
    requires
        !may_add(owner, user, privileged),
    ensures
        next_stage(
            (AddReleaseStage::AwaitPrivilege { owner }),
            AddReleaseEvent::Privileged(privileged),
            user,
            has_label,
        ) == AddReleaseStage::Done,
        action_of(AddReleaseStage::Done, guild, user, has_label) == AddReleaseAction::Finish,
{
}

/// Law: a release equal to the submitted one is reused: once found, the
/// flow goes on to the user and guild and never inserts a release.
pub proof fn lemma_found_release_reused(release_id: i32, user: u64, has_label: bool)
    ensures
        next_stage(
            AddReleaseStage::AwaitRelease,
            AddReleaseEvent::ReleaseFound(Some(release_id)),
            user,
            has_label,
        ) == (AddReleaseStage::AwaitUser { release_id }),
{
}

proof fn lemma_snowflake_as_i64(owner: i64, user: u64)
    ensures
        (owner == user as i64) <==> (owner as u64 == user),
        (user as i64) as u64 == user,
{
    assert((owner == user as i64) <==> (owner as u64 == user)) by (bit_vector);
    assert((user as i64) as u64 == user) by (bit_vector);
}

/// Law: who may add a release. Once the owner's stored snowflake and the
/// privilege answer are known, the flow goes on to the release exactly when
/// the stored owner snowflake is the user's snowflake (read back as `u64`,
/// all 64 bits) or the user holds a privileged role; otherwise it ends.
pub proof fn lemma_permission(owner: i64, user: u64, privileged: bool, has_label: bool)
    ensures
        next_stage(
            (AddReleaseStage::AwaitPrivilege { owner }),
            AddReleaseEvent::Privileged(privileged),
            user,
            has_label,
        ) == if owner as u64 == user || privileged {
            AddReleaseStage::AwaitRelease
        } else {
            AddReleaseStage::Done
        },
{
    lemma_snowflake_as_i64(owner, user);
}

/// Law: the owner of a guild may always add a release: with the user's own
/// snowflake stored as owner, the flow goes on to the release whatever the
/// privilege answer.
pub proof fn lemma_owner_may_add(user: u64, privileged: bool, has_label: bool)
    ensures
        may_add(user as i64, user, privileged),
        next_stage(
            (AddReleaseStage::AwaitPrivilege { owner: user as i64 }),
            AddReleaseEvent::Privileged(privileged),
            user,
            has_label,
        ) == AddReleaseStage::AwaitRelease,
{
    lemma_snowflake_as_i64(user as i64, user);
}

/// Law: every lookup of the user or the guild names the submitting user's
/// and the guild's own snowflakes: stored as `i64`, they read back as the
/// same `u64`.
pub proof fn lemma_lookups_name_the_snowflakes(
    stage: AddReleaseStage,
    guild: u64,
    user: u64,
    has_label: bool,
)
    ensures
        stage is AwaitOwner ==> (match action_of(stage, guild, user, has_label) {
            AddReleaseAction::FetchOwner { guild: g } => g as u64 == guild,
            _ => false,
        }),
        stage is AwaitUser ==> (match action_of(stage, guild, user, has_label) {
            AddReleaseAction::FetchUser { user: u } => u as u64 == user,
            _ => false,
        }),
        stage is AwaitGuild ==> (match action_of(stage, guild, user, has_label) {
            AddReleaseAction::FetchGuild { guild: g } => g as u64 == guild,
            _ => false,
        }),
{
    lemma_snowflake_as_i64(0, user);
    lemma_snowflake_as_i64(0, guild);
}

} // verus!
