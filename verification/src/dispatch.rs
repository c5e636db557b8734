//! Routing of authenticated interactions: classify by declared type,
//! route commands by name to the handlers, and render every outcome as a
//! response payload. Handlers mutate state only through the session
//! store's atomic operations.

use vstd::prelude::*;
use vstd::string::StringExecFns;

use crate::campaign::Campaign;
use crate::interaction::{
    classify, resolve_user, spec_classify, spec_resolved_user, AppCommand, Interaction,
    InteractionKind, MessageObject, ResponseOject, UserResolution, RESPONSE_CHANNEL_MESSAGE,
    RESPONSE_PONG,
};
use crate::player::Player;
use crate::store::{
    channel_count, contains_channel, index_of_channel, CreateOutcome, JoinOutcome, SessionStore,
    StartOutcome,
};
use crate::text::str_eq;

verus! {

/// A channel-message response carrying exactly this content.
pub open spec fn is_message(r: ResponseOject, content: Seq<char>) -> bool {
    &&& r.kind == RESPONSE_CHANNEL_MESSAGE
    &&& r.data matches Some(m) && m.content@ == content
}

/// The roster rendered one display name per line, in join order.
pub open spec fn spec_roster_lines(players: Seq<Player>) -> Seq<char>
    decreases players.len(),
{
    if players.len() == 0 {
        Seq::<char>::empty()
    } else {
        spec_roster_lines(players.drop_last()) + players.last().display_name@ + "\n"@
    }
}

/// Everything the `init` handler may do: reject an interaction without a
/// channel, report an existing campaign (running or not) without change,
/// or create the one campaign for the channel.
pub open spec fn init_post(
    i: Interaction,
    pre: SessionStore,
    post: SessionStore,
    r: ResponseOject,
) -> bool {
    &&& i.channel_id is None ==> post == pre && is_message(r, "could not process command"@)
    &&& i.channel_id matches Some(ch) ==> {
        let s = pre.campaigns@;
        &&& contains_channel(s, ch@) ==> {
            let c = s[index_of_channel(s, ch@)];
            &&& post == pre
            &&& is_message(
                r,
                if c.active {
                    "a campaign is already active in this channel"@
                } else {
                    "a campaign already exists for this channel but has not started"@
                },
            )
        }
        &&& !contains_channel(s, ch@) ==> {
            &&& post.campaigns@.len() == s.len() + 1
            &&& post.campaigns@.drop_last() == s
            &&& post.campaigns@.last().channel_id@ == ch@
            &&& post.campaigns@.last().active == false
            &&& post.campaigns@.last().players@ == Seq::<Player>::empty()
            &&& post.campaigns@.last().current_player is None
            &&& channel_count(post.campaigns@, ch@) == 1
            &&& is_message(
                r,
                "created new campaign; use join to add players and start to begin"@,
            )
        }
    }
}

/// Everything the `join` handler may do: reject a missing user or channel,
/// report a missing campaign or an already-joined id without change, or
/// append the resolved user to the roster and render the whole roster.
pub open spec fn join_post(
    i: Interaction,
    pre: SessionStore,
    post: SessionStore,
    r: ResponseOject,
) -> bool {
    &&& spec_resolved_user(i) is None ==> post == pre && is_message(r, "unable to add user"@)
    &&& spec_resolved_user(i) matches Some(u) ==> {
        &&& i.channel_id is None ==> post == pre && is_message(r, "could not process command"@)
        &&& i.channel_id matches Some(ch) ==> {
            let s = pre.campaigns@;
            &&& !contains_channel(s, ch@) ==> post == pre && is_message(
                r,
                "no campaign exists for this channel; create one first"@,
            )
            &&& contains_channel(s, ch@) ==> {
                let idx = index_of_channel(s, ch@);
                let c = s[idx];
                &&& c.has_player(u.id@) ==> {
                    &&& post == pre
                    &&& r.kind == RESPONSE_CHANNEL_MESSAGE
                    &&& r.data matches Some(m) && (exists|j: int| #![auto]
                        0 <= j < c.players@.len() && c.players@[j].id@ == u.id@ && m.content@
                            == c.players@[j].display_name@ + " has already joinned"@)
                }
                &&& !c.has_player(u.id@) ==> {
                    &&& post.campaigns@ == s.update(idx, post.campaigns@[idx])
                    &&& post.campaigns@[idx].players@.len() == c.players@.len() + 1
                    &&& post.campaigns@[idx].players@.drop_last() == c.players@
                    &&& Campaign::is_fresh_player(
                        post.campaigns@[idx].players@.last(),
                        u.id@,
                        u.username@,
                    )
                    &&& post.campaigns@[idx].active == c.active
                    &&& post.campaigns@[idx].channel_id == c.channel_id
                    &&& post.campaigns@[idx].current_player == c.current_player
                    &&& is_message(
                        r,
                        "added to the campaign; current party:\n"@ + spec_roster_lines(
                            post.campaigns@[idx].players@,
                        ),
                    )
                }
            }
        }
    }
}

/// Everything the `start` handler may do: reject a missing channel, report
/// a missing campaign or one already running without change, or activate
/// the campaign and hand the turn to the first player, if any.
pub open spec fn start_post(
    i: Interaction,
    pre: SessionStore,
    post: SessionStore,
    r: ResponseOject,
) -> bool {
    &&& i.channel_id is None ==> post == pre && is_message(r, "could not process command"@)
    &&& i.channel_id matches Some(ch) ==> {
        let s = pre.campaigns@;
        &&& !contains_channel(s, ch@) ==> post == pre && is_message(
            r,
            "no campaign exists for this channel; create one first"@,
        )
        &&& contains_channel(s, ch@) ==> {
            let idx = index_of_channel(s, ch@);
            let c = s[idx];
            &&& c.active ==> post == pre && is_message(r, "campaign already started"@)
            &&& !c.active ==> {
                &&& post.campaigns@ == s.update(idx, post.campaigns@[idx])
                &&& post.campaigns@[idx].active == true
                &&& post.campaigns@[idx].players@ == c.players@
                &&& post.campaigns@[idx].channel_id == c.channel_id
                &&& post.campaigns@[idx].current_player == (if c.players@.len() > 0 {
                    Some(0usize)
                } else {
                    None
                })
                &&& is_message(r, "campaign started"@)
            }
        }
    }
}

/// A channel-message response around this content.
fn response_message(content: &str) -> (r: ResponseOject)
    ensures
        is_message(r, content@),
{
    ResponseOject {
        kind: RESPONSE_CHANNEL_MESSAGE,
        data: Some(MessageObject { content: content.to_owned() }),
    }
}

/// The join notice: a fixed prefix, then the roster one name per line.
fn roster_message(players: &Vec<Player>) -> (r: ResponseOject)
    ensures
        is_message(r, "added to the campaign; current party:\n"@ + spec_roster_lines(players@)),
{
    let mut content = "added to the campaign; current party:\n".to_owned();
    let n = players.len();
    let mut i: usize = 0;
    proof {
        assert(players@.take(0) =~= Seq::<Player>::empty());
        assert(content@ =~= "added to the campaign; current party:\n"@ + spec_roster_lines(
            players@.take(0),
        ));
    }
    while i < n
        invariant
            n == players@.len(),
            i <= n,
            content@ == "added to the campaign; current party:\n"@ + spec_roster_lines(
                players@.take(i as int),
            ),
        decreases n - i,
    {
        content.append(players[i].display_name.as_str());
        content.append("\n");
        i = i + 1;
        proof {
            assert(players@.take(i as int).drop_last() =~= players@.take(i - 1));
            assert(players@.take(i as int).last() == players@[i - 1]);
            assert(content@ =~= "added to the campaign; current party:\n"@ + spec_roster_lines(
                players@.take(i as int),
            ));
        }
    }
    proof {
        assert(players@.take(n as int) =~= players@);
    }
    ResponseOject { kind: RESPONSE_CHANNEL_MESSAGE, data: Some(MessageObject { content }) }
}

/// Handle the `init` command: create the channel's campaign unless one
/// exists, and say which of the three situations held.
pub fn init(store: &mut SessionStore, interaction: &Interaction) -> (r: ResponseOject)
    requires
        old(store).wf(),
    ensures
        final(store).wf(),
        init_post(*interaction, *old(store), *final(store), r),
{
    let channel = match &interaction.channel_id {
        Some(ch) => ch,
        None => {
            return response_message("could not process command");
        },
    };
    match store.create_if_absent(channel.as_str()) {
        CreateOutcome::Created => response_message(
            "created new campaign; use join to add players and start to begin",
        ),
        CreateOutcome::AlreadyExists(active) => {
            if active {
                response_message("a campaign is already active in this channel")
            } else {
                response_message("a campaign already exists for this channel but has not started")
            }
        },
    }
}

/// Handle the `join` command: resolve the acting user (direct field first,
/// member-nested as fallback), then add them to the channel's campaign and
/// render the outcome.
pub fn join(store: &mut SessionStore, interaction: &Interaction) -> (r: ResponseOject)
    requires
        old(store).wf(),
    ensures
        final(store).wf(),
        join_post(*interaction, *old(store), *final(store), r),
{
    let user = match resolve_user(interaction) {
        UserResolution::DirectUser(u) => u,
        UserResolution::MemberUser(u) => u,
        UserResolution::NoUser => {
            return response_message("unable to add user");
        },
    };
    let channel = match &interaction.channel_id {
        Some(ch) => ch,
        None => {
            return response_message("could not process command");
        },
    };
    match store.join(channel.as_str(), user.id.as_str(), user.username.as_str()) {
        JoinOutcome::NoCampaign => response_message(
            "no campaign exists for this channel; create one first",
        ),
        JoinOutcome::AlreadyJoined(name) => {
            let mut content = name;
            content.append(" has already joinned");
            ResponseOject {
                kind: RESPONSE_CHANNEL_MESSAGE,
                data: Some(MessageObject { content }),
            }
        },
        JoinOutcome::Joined(roster) => roster_message(&roster),
    }
}

/// Handle the `start` command: activate the channel's campaign and hand
/// the turn to the first player.
pub fn start(store: &mut SessionStore, interaction: &Interaction) -> (r: ResponseOject)
    requires
        old(store).wf(),
    ensures
        final(store).wf(),
        start_post(*interaction, *old(store), *final(store), r),
{
    let channel = match &interaction.channel_id {
        Some(ch) => ch,
        None => {
            return response_message("could not process command");
        },
    };
    match store.start(channel.as_str()) {
        StartOutcome::NoCampaign => response_message(
            "no campaign exists for this channel; create one first",
        ),
        StartOutcome::AlreadyActive => response_message("campaign already started"),
        StartOutcome::Started => response_message("campaign started"),
    }
}

/// Handle the `action` command: acknowledge receipt without touching any
/// session state; action resolution is out of this core's scope.
pub fn action(_interaction: &Interaction) -> (r: ResponseOject)
    ensures
        is_message(r, "acknowledged"@),
{
    response_message("acknowledged")
}

/// Classify an authenticated interaction and route it: a ping gets the
/// fixed acknowledgement, a command is routed by name, a modal submission
/// is acknowledged, and anything else gets a generic failure response.
pub fn dispatch(store: &mut SessionStore, interaction: &Interaction) -> (r: ResponseOject)
    requires
        old(store).wf(),
    ensures
        final(store).wf(),
        spec_classify(interaction.kind) == InteractionKind::Ping ==> *final(store) == *old(store)
            && r.kind == RESPONSE_PONG && r.data is None,
        spec_classify(interaction.kind) == InteractionKind::ModalSubmit ==> *final(store) == *old(
            store,
        ) && is_message(r, "acknowledged"@),
        spec_classify(interaction.kind) == InteractionKind::Unknown ==> *final(store) == *old(store)
            && is_message(r, "could not process command"@),
        spec_classify(interaction.kind) == InteractionKind::Command ==> {
            &&& interaction.data is None ==> *final(store) == *old(store) && is_message(
                r,
                "could not process command"@,
            )
            &&& interaction.data matches Some(cmd) ==> (if cmd.name@ == "init"@ {
                init_post(*interaction, *old(store), *final(store), r)
            } else if cmd.name@ == "join"@ {
                join_post(*interaction, *old(store), *final(store), r)
            } else if cmd.name@ == "start"@ {
                start_post(*interaction, *old(store), *final(store), r)
            } else if cmd.name@ == "action"@ {
                *final(store) == *old(store) && is_message(r, "acknowledged"@)
            } else {
                *final(store) == *old(store) && is_message(r, "could not process command"@)
            })
        },
{
    match classify(interaction.kind) {
        InteractionKind::Ping => ResponseOject { kind: RESPONSE_PONG, data: None },
        InteractionKind::Command => {
            match &interaction.data {
                None => response_message("could not process command"),
                Some(cmd) => {
                    if str_eq(cmd.name.as_str(), "init") {
                        init(store, interaction)
                    } else if str_eq(cmd.name.as_str(), "join") {
                        join(store, interaction)
                    } else if str_eq(cmd.name.as_str(), "start") {
                        start(store, interaction)
                    } else if str_eq(cmd.name.as_str(), "action") {
                        action(interaction)
                    } else {
                        response_message("could not process command")
                    }
                },
            }
        },
        InteractionKind::ModalSubmit => response_message("acknowledged"),
        InteractionKind::Unknown => response_message("could not process command"),
    }
}

} // verus!
