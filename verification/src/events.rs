//! What the bot does on each gateway event.

use vstd::prelude::*;

verus! {

/// The kind of a gateway event, as far as the bot tells events apart.
#[derive(Clone, Copy, Debug, PartialEq, Eq)]
pub enum BotEvent {
    /// The bot is connected and ready.
    Ready,
    /// The bot joined a guild (or a guild became available).
    GuildCreate,
    /// The bot left a guild (or a guild became unavailable).
    GuildDelete,
    /// A user interacted with the bot; `is_modal` for a modal submission.
    InteractionCreate { is_modal: bool },
    /// Any other event.
    Other,
}

/// What the bot does on an event.
#[derive(Clone, Copy, Debug, PartialEq, Eq)]
pub enum EventPlan {
    /// Create the tables, views and functions of the database, then
    /// announce that the bot is online.
    InitialiseDatabase,
    /// Store the guild and its owner.
    AddGuild,
    /// Delete the guild.
    RemoveGuild,
    /// Read the submitted release, add it to the guild, and confirm it.
    HandleModalSubmission,
    /// Nothing.
    Ignore,
}

/// The plan for each kind of event: only modal submissions among the
/// interactions are handled.
pub fn plan_event(event: BotEvent) -> (r: EventPlan)
    ensures
        r == match event {
            BotEvent::Ready => EventPlan::InitialiseDatabase,
            BotEvent::GuildCreate => EventPlan::AddGuild,
            BotEvent::GuildDelete => EventPlan::RemoveGuild,
            BotEvent::InteractionCreate { is_modal } => if is_modal {
                EventPlan::HandleModalSubmission
            } else {
                EventPlan::Ignore
            },
            BotEvent::Other => EventPlan::Ignore,
        },
{
    match event {
        BotEvent::Ready => EventPlan::InitialiseDatabase,
        BotEvent::GuildCreate => EventPlan::AddGuild,
        BotEvent::GuildDelete => EventPlan::RemoveGuild,
        BotEvent::InteractionCreate { is_modal } => {
            if is_modal {
                EventPlan::HandleModalSubmission
            } else {
                EventPlan::Ignore
            }
        },
        BotEvent::Other => EventPlan::Ignore,
    }
}

} // verus!
