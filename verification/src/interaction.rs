//! The data contract of the interaction platform, as this library reads
//! it: inbound interaction objects, the response payload shape, and the
//! command descriptors the startup registration job uploads.

use vstd::prelude::*;

verus! {

/// Interaction type code of a liveness probe.
pub const INTERACTION_PING: u8 = 1;

/// Interaction type code of an application command invocation.
pub const INTERACTION_COMMAND: u8 = 2;

/// Interaction type code of a modal/form submission.
pub const INTERACTION_MODAL: u8 = 5;

/// Response type code of a bare acknowledgement.
pub const RESPONSE_PONG: u8 = 1;

/// Response type code of a channel message carrying content.
pub const RESPONSE_CHANNEL_MESSAGE: u8 = 4;

/// The platform user an interaction speaks for.
#[derive(Debug, PartialEq, Eq)]
pub struct User {
    pub id: String,
    pub username: String,
}

impl Clone for User {
    fn clone(&self) -> (u: Self)
        ensures
            u == *self,
    {
        User { id: self.id.clone(), username: self.username.clone() }
    }
}

/// Guild-membership wrapper that may carry the acting user when the
/// direct user field is absent.
#[derive(Debug, PartialEq, Eq)]
pub struct Member {
    pub user: Option<User>,
}

/// One parsed application command inside an interaction.
#[derive(Debug, PartialEq, Eq)]
pub struct AppCommand {
    pub name: String,
    pub command_type: u8,
}

/// One authenticated inbound webhook request, already parsed.
#[derive(Debug, PartialEq, Eq)]
pub struct Interaction {
    pub id: String,
    pub application_id: String,
    /// The declared interaction type code.
    pub kind: u8,
    pub guild_id: String,
    /// The channel the interaction happened in, when the platform sent one.
    pub channel_id: Option<String>,
    pub data: Option<AppCommand>,
    /// The acting user, when sent directly.
    pub user: Option<User>,
    /// Fallback carrier of the acting user.
    pub member: Option<Member>,
}

/// The response payload handed back to the platform.
#[derive(Debug, PartialEq, Eq)]
pub struct ResponseOject {
    /// Response type code: acknowledgement or channel message.
    pub kind: u8,
    pub data: Option<MessageObject>,
}

/// The message body of a channel-message response.
#[derive(Debug, PartialEq, Eq)]
pub struct MessageObject {
    pub content: String,
}

/// One command descriptor uploaded by the startup registration job.
#[derive(Debug, PartialEq, Eq)]
pub struct Command {
    pub name: String,
    pub kind: u8,
    pub description: String,
}

/// The list of command descriptors read from configuration.
#[derive(Debug, PartialEq, Eq)]
pub struct Commands {
    pub commands: Vec<Command>,
}

/// The closed classification of an interaction's declared type code.
#[derive(Debug, PartialEq, Eq, Structural, Clone, Copy)]
pub enum InteractionKind {
    /// Liveness probe: answered with a fixed acknowledgement.
    Ping,
    /// Application command invocation: routed by command name.
    Command,
    /// Modal/form submission.
    ModalSubmit,
    /// Any other type code: answered with a generic failure, never a crash.
    Unknown,
}

pub open spec fn spec_classify(t: u8) -> InteractionKind {
    if t == INTERACTION_PING {
        InteractionKind::Ping
    } else if t == INTERACTION_COMMAND {
        InteractionKind::Command
    } else if t == INTERACTION_MODAL {
        InteractionKind::ModalSubmit
    } else {
        InteractionKind::Unknown
    }
}

/// Classify a declared interaction type code.
pub fn classify(t: u8) -> (k: InteractionKind)
    ensures
        k == spec_classify(t),
{
    if t == INTERACTION_PING {
        InteractionKind::Ping
    } else if t == INTERACTION_COMMAND {
        InteractionKind::Command
    } else if t == INTERACTION_MODAL {
        InteractionKind::ModalSubmit
    } else {
        InteractionKind::Unknown
    }
}

/// How the acting user was resolved: the direct user field wins, the
/// member-nested user is the fallback, and neither may be present.
#[derive(Debug, PartialEq, Eq)]
pub enum UserResolution {
    DirectUser(User),
    MemberUser(User),
    NoUser,
}

pub open spec fn spec_resolve_user(i: Interaction) -> UserResolution {
    match i.user {
        Some(u) => UserResolution::DirectUser(u),
        None => match i.member {
            Some(m) => match m.user {
                Some(u) => UserResolution::MemberUser(u),
                None => UserResolution::NoUser,
            },
            None => UserResolution::NoUser,
        },
    }
}

/// The resolved acting user, wherever it came from.
pub open spec fn spec_resolved_user(i: Interaction) -> Option<User> {
    match spec_resolve_user(i) {
        UserResolution::DirectUser(u) => Some(u),
        UserResolution::MemberUser(u) => Some(u),
        UserResolution::NoUser => None,
    }
}

/// Resolve the acting user of an interaction, preferring the direct user
/// field over the member-nested one.
pub fn resolve_user(i: &Interaction) -> (r: UserResolution)
    ensures
        r == spec_resolve_user(*i),
{
    match &i.user {
        Some(u) => UserResolution::DirectUser(u.clone()),
        None => match &i.member {
            Some(m) => match &m.user {
                Some(u) => UserResolution::MemberUser(u.clone()),
                None => UserResolution::NoUser,
            },
            None => UserResolution::NoUser,
        },
    }
}

} // verus!
