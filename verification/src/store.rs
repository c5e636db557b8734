//! The session store: the collection of all campaigns, one per channel.
//! The caller that serves requests concurrently guards a store with a
//! single lock and calls one operation per critical section; each
//! operation here is a complete check-then-act step, so serializing the
//! calls serializes the state.

use vstd::prelude::*;

use crate::campaign::Campaign;
use crate::player::Player;
use crate::text::str_eq;

verus! {

/// What `create_if_absent` found or did.
#[derive(Debug, PartialEq, Eq, Structural, Clone, Copy)]
pub enum CreateOutcome {
    /// A campaign for the channel already existed; carries its `active`
    /// flag so the caller can say whether it is running or merely created.
    AlreadyExists(bool),
    /// No campaign existed; one was created, inactive and empty.
    Created,
}

/// What `join` found or did.
#[derive(Debug, PartialEq)]
pub enum JoinOutcome {
    /// No campaign exists for the channel.
    NoCampaign,
    /// A player with the same id is already on the roster; carries that
    /// player's display name.
    AlreadyJoined(String),
    /// The player was appended; carries the full post-join roster, in
    /// join order.
    Joined(Vec<Player>),
}

/// What `start` found or did.
#[derive(Debug, PartialEq, Eq, Structural, Clone, Copy)]
pub enum StartOutcome {
    NoCampaign,
    /// The campaign was already running; nothing changed.
    AlreadyActive,
    /// The campaign became active and the turn went to the first player,
    /// if any.
    Started,
}

/// What `advance_turn` found or did.
#[derive(Debug, PartialEq, Eq, Structural, Clone, Copy)]
pub enum AdvanceOutcome {
    NoCampaign,
    Advanced,
}

/// Some campaign in `s` is bound to this channel.
pub open spec fn contains_channel(s: Seq<Campaign>, channel_id: Seq<char>) -> bool {
    exists|i: int| #![auto] 0 <= i < s.len() && s[i].channel_id@ == channel_id
}

/// The index of the campaign bound to this channel (unique in a
/// well-formed store).
pub open spec fn index_of_channel(s: Seq<Campaign>, channel_id: Seq<char>) -> int {
    choose|i: int| 0 <= i < s.len() && s[i].channel_id@ == channel_id
}

/// How many campaigns in `s` are bound to this channel.
pub open spec fn channel_count(s: Seq<Campaign>, channel_id: Seq<char>) -> int
    decreases s.len(),
{
    if s.len() == 0 {
        0
    } else {
        channel_count(s.drop_last(), channel_id) + if s.last().channel_id@ == channel_id {
            1int
        } else {
            0int
        }
    }
}

pub struct SessionStore {
    /// All campaigns for the process lifetime.
    pub campaigns: Vec<Campaign>,
}

/// Everything one `create_if_absent` call for `channel_id` may do: report
/// an existing campaign (with its `active` flag) and change nothing, or
/// append the one new inactive, empty campaign; either way exactly one
/// campaign for the channel exists afterwards.
pub open spec fn create_if_absent_post(
    pre: SessionStore,
    post: SessionStore,
    channel_id: Seq<char>,
    r: CreateOutcome,
) -> bool {
    &&& contains_channel(pre.campaigns@, channel_id) ==> {
        &&& post == pre
        &&& r == CreateOutcome::AlreadyExists(
            pre.campaigns@[index_of_channel(pre.campaigns@, channel_id)].active,
        )
    }
    &&& !contains_channel(pre.campaigns@, channel_id) ==> {
        &&& r == CreateOutcome::Created
        &&& post.campaigns@.len() == pre.campaigns@.len() + 1
        &&& post.campaigns@.drop_last() == pre.campaigns@
        &&& post.campaigns@.last().channel_id@ == channel_id
        &&& post.campaigns@.last().active == false
        &&& post.campaigns@.last().players@ == Seq::<Player>::empty()
        &&& post.campaigns@.last().current_player is None
    }
    &&& channel_count(post.campaigns@, channel_id) == 1
}

impl SessionStore {
    /// Channels are pairwise distinct and every campaign is well formed.
    pub open spec fn wf(self) -> bool {
        &&& forall|i: int, j: int|
            0 <= i < j < self.campaigns@.len() ==> self.campaigns@[i].channel_id@
                != self.campaigns@[j].channel_id@
        &&& forall|i: int| 0 <= i < self.campaigns@.len() ==> (#[trigger] self.campaigns@[i]).wf()
    }

    /// The store starts empty.
    pub fn new() -> (s: SessionStore)
        ensures
            s.campaigns@ == Seq::<Campaign>::empty(),
            s.wf(),
    {
        SessionStore { campaigns: Vec::new() }
    }

    fn find_index(&self, channel_id: &str) -> (r: Option<usize>)
        ensures
            r matches Some(i) ==> i < self.campaigns@.len() && self.campaigns@[i as int].channel_id@
                == channel_id@,
            r is None <==> !contains_channel(self.campaigns@, channel_id@),
    {
        let n = self.campaigns.len();
        let mut i: usize = 0;
        while i < n
            invariant
                n == self.campaigns@.len(),
                i <= n,
                forall|j: int| #![auto] 0 <= j < i ==> self.campaigns@[j].channel_id@ != channel_id@,
            decreases n - i,
        {
            if str_eq(self.campaigns[i].channel_id.as_str(), channel_id) {
                return Some(i);
            }
            i = i + 1;
        }
        None
    }

    /// Read-only lookup of the campaign bound to a channel.
    pub fn find_by_channel(&self, channel_id: &str) -> (r: Option<&Campaign>)
        ensures
            r matches Some(c) ==> c.channel_id@ == channel_id@ && (exists|i: int| #![auto]
                0 <= i < self.campaigns@.len() && self.campaigns@[i] == *c),
            r is None <==> !contains_channel(self.campaigns@, channel_id@),
    {
        match self.find_index(channel_id) {
            Some(i) => Some(&self.campaigns[i]),
            None => None,
        }
    }

    /// Create a campaign for the channel unless one exists. One atomic
    /// check-then-act step: afterwards exactly one campaign for the
    /// channel exists either way.
    pub fn create_if_absent(&mut self, channel_id: &str) -> (r: CreateOutcome)
        requires
            old(self).wf(),
        ensures
            final(self).wf(),
            create_if_absent_post(*old(self), *final(self), channel_id@, r),
    {
        proof {
            lemma_channel_count_bounds(self.campaigns@, channel_id@);
            lemma_channel_count_unique(self.campaigns@, channel_id@);
        }
        match self.find_index(channel_id) {
            Some(i) => {
                proof {
                    let w = index_of_channel(self.campaigns@, channel_id@);
                    assert(self.campaigns@[w].channel_id@ == channel_id@);
                    assert(w == i as int);
                }
                CreateOutcome::AlreadyExists(self.campaigns[i].active)
            },
            None => {
                let c = Campaign::new(channel_id);
                self.campaigns.push(c);
                proof {
                    assert(self.campaigns@.drop_last() =~= old(self).campaigns@);
                    lemma_channel_count_push(old(self).campaigns@, c, channel_id@);
                    lemma_channel_count_bounds(old(self).campaigns@, channel_id@);
                }
                CreateOutcome::Created
            },
        }
    }
    /// Append a player to the channel's campaign unless the id is already
    /// on its roster; report the roster after the join so the caller can
    /// render it without a second lookup.
    pub fn join(&mut self, channel_id: &str, user_id: &str, display_name: &str) -> (r: JoinOutcome)
        requires
            old(self).wf(),
        ensures
            final(self).wf(),
            !contains_channel(old(self).campaigns@, channel_id@) ==> r == JoinOutcome::NoCampaign
                && *final(self) == *old(self),
            contains_channel(old(self).campaigns@, channel_id@) ==> ({
                let i = index_of_channel(old(self).campaigns@, channel_id@);
                let c = old(self).campaigns@[i];
                &&& c.has_player(user_id@) ==> {
                    &&& *final(self) == *old(self)
                    &&& r matches JoinOutcome::AlreadyJoined(name) && (exists|j: int| #![auto]
                        0 <= j < c.players@.len() && c.players@[j].id@ == user_id@
                            && c.players@[j].display_name == name)
                }
                &&& !c.has_player(user_id@) ==> {
                    &&& final(self).campaigns@ == old(self).campaigns@.update(
                        i,
                        final(self).campaigns@[i],
                    )
                    &&& final(self).campaigns@[i].players@.len() == c.players@.len() + 1
                    &&& final(self).campaigns@[i].players@.drop_last() == c.players@
                    &&& Campaign::is_fresh_player(
                        final(self).campaigns@[i].players@.last(),
                        user_id@,
                        display_name@,
                    )
                    &&& final(self).campaigns@[i].active == c.active
                    &&& final(self).campaigns@[i].channel_id == c.channel_id
                    &&& final(self).campaigns@[i].current_player == c.current_player
                    &&& r matches JoinOutcome::Joined(roster) && roster@
                        == final(self).campaigns@[i].players@
                }
            }),
    {
        let idx = match self.find_index(channel_id) {
            Some(i) => i,
            None => {
                return JoinOutcome::NoCampaign;
            },
        };
        proof {
            let w = index_of_channel(self.campaigns@, channel_id@);
            assert(self.campaigns@[w].channel_id@ == channel_id@);
            assert(w == idx as int);
        }
        let c_ref = &self.campaigns[idx];
        match c_ref.find_player(user_id) {
            Some(j) => {
                let name = self.campaigns[idx].players[j].display_name.clone();
                JoinOutcome::AlreadyJoined(name)
            },
            None => {
                let mut c = self.campaigns.remove(idx);
                let added = c.add_player(user_id, display_name);
                let roster = clone_roster(&c.players);
                self.campaigns.insert(idx, c);
                proof {
                    assert(self.campaigns@ =~= old(self).campaigns@.update(
                        idx as int,
                        self.campaigns@[idx as int],
                    ));
                }
                JoinOutcome::Joined(roster)
            },
        }
    }

    /// Start the channel's campaign: flip `active` on the first start and
    /// hand the turn to the first player, if any. Starting twice changes
    /// nothing.
    pub fn start(&mut self, channel_id: &str) -> (r: StartOutcome)
        requires
            old(self).wf(),
        ensures
            final(self).wf(),
            !contains_channel(old(self).campaigns@, channel_id@) ==> r == StartOutcome::NoCampaign
                && *final(self) == *old(self),
            contains_channel(old(self).campaigns@, channel_id@) ==> ({
                let i = index_of_channel(old(self).campaigns@, channel_id@);
                let c = old(self).campaigns@[i];
                &&& c.active ==> r == StartOutcome::AlreadyActive && *final(self) == *old(self)
                &&& !c.active ==> {
                    &&& r == StartOutcome::Started
                    &&& final(self).campaigns@ == old(self).campaigns@.update(
                        i,
                        final(self).campaigns@[i],
                    )
                    &&& final(self).campaigns@[i].active == true
                    &&& final(self).campaigns@[i].players@ == c.players@
                    &&& final(self).campaigns@[i].channel_id == c.channel_id
                    &&& final(self).campaigns@[i].current_player == (if c.players@.len() > 0 {
                        Some(0usize)
                    } else {
                        None
                    })
                }
            }),
    {
        let idx = match self.find_index(channel_id) {
            Some(i) => i,
            None => {
                return StartOutcome::NoCampaign;
            },
        };
        proof {
            let w = index_of_channel(self.campaigns@, channel_id@);
            assert(self.campaigns@[w].channel_id@ == channel_id@);
            assert(w == idx as int);
        }
        if self.campaigns[idx].active {
            return StartOutcome::AlreadyActive;
        }
        let mut c = self.campaigns.remove(idx);
        c.start();
        self.campaigns.insert(idx, c);
        proof {
            assert(self.campaigns@ =~= old(self).campaigns@.update(
                idx as int,
                self.campaigns@[idx as int],
            ));
        }
        StartOutcome::Started
    }

    /// Move the turn of the channel's campaign to the next player in join
    /// order, wrapping to the first; with no holder yet, default to the
    /// first player, if any.
    pub fn advance_turn(&mut self, channel_id: &str) -> (r: AdvanceOutcome)
        requires
            old(self).wf(),
        ensures
            final(self).wf(),
            !contains_channel(old(self).campaigns@, channel_id@) ==> r == AdvanceOutcome::NoCampaign
                && *final(self) == *old(self),
            contains_channel(old(self).campaigns@, channel_id@) ==> ({
                let i = index_of_channel(old(self).campaigns@, channel_id@);
                let c = old(self).campaigns@[i];
                &&& r == AdvanceOutcome::Advanced
                &&& final(self).campaigns@ == old(self).campaigns@.update(
                    i,
                    final(self).campaigns@[i],
                )
                &&& final(self).campaigns@[i].active == c.active
                &&& final(self).campaigns@[i].players@ == c.players@
                &&& final(self).campaigns@[i].channel_id == c.channel_id
                &&& (c.current_player matches Some(p) ==> final(self).campaigns@[i].current_player
                    matches Some(k) && k as int == (p as int + 1) % (c.players@.len() as int))
                &&& c.current_player is None && c.players@.len() > 0
                    ==> final(self).campaigns@[i].current_player == Some(0usize)
                &&& c.current_player is None && c.players@.len() == 0
                    ==> final(self).campaigns@[i].current_player is None
            }),
    {
        let idx = match self.find_index(channel_id) {
            Some(i) => i,
            None => {
                return AdvanceOutcome::NoCampaign;
            },
        };
        proof {
            let w = index_of_channel(self.campaigns@, channel_id@);
            assert(self.campaigns@[w].channel_id@ == channel_id@);
            assert(w == idx as int);
        }
        let mut c = self.campaigns.remove(idx);
        c.advance_turn();
        self.campaigns.insert(idx, c);
        proof {
            assert(self.campaigns@ =~= old(self).campaigns@.update(
                idx as int,
                self.campaigns@[idx as int],
            ));
        }
        AdvanceOutcome::Advanced
    }
}

/// A copy of the roster, entry for entry.
fn clone_roster(players: &Vec<Player>) -> (r: Vec<Player>)
    ensures
        r@ == players@,
{
    let n = players.len();
    let mut out: Vec<Player> = Vec::new();
    let mut i: usize = 0;
    while i < n
        invariant
            n == players@.len(),
            i <= n,
            out@ == players@.take(i as int),
        decreases n - i,
    {
        out.push(players[i].clone());
        i = i + 1;
        proof {
            assert(out@ =~= players@.take(i as int));
        }
    }
    proof {
        assert(players@.take(n as int) =~= players@);
    }
    out
}

/// In any store, the number of campaigns bound to a channel is zero
/// exactly when none is, and positive exactly when one is present.
pub proof fn lemma_channel_count_bounds(s: Seq<Campaign>, channel_id: Seq<char>)
    ensures
        channel_count(s, channel_id) >= 0,
        channel_count(s, channel_id) > 0 <==> contains_channel(s, channel_id),
    decreases s.len(),
{
    if s.len() > 0 {
        lemma_channel_count_bounds(s.drop_last(), channel_id);
        if contains_channel(s.drop_last(), channel_id) {
            let i = choose|i: int| #![auto]
                0 <= i < s.drop_last().len() && s.drop_last()[i].channel_id@ == channel_id;
            assert(s[i].channel_id@ == channel_id);
        }
        if contains_channel(s, channel_id) && s.last().channel_id@ != channel_id {
            let i = choose|i: int| #![auto] 0 <= i < s.len() && s[i].channel_id@ == channel_id;
            assert(s.drop_last()[i].channel_id@ == channel_id);
        }
    }
}

/// Appending a campaign adds its channel to the count and nothing else.
pub proof fn lemma_channel_count_push(s: Seq<Campaign>, c: Campaign, channel_id: Seq<char>)
    ensures
        channel_count(s.push(c), channel_id) == channel_count(s, channel_id) + (
        if c.channel_id@ == channel_id {
            1int
        } else {
            0int
        }),
{
    assert(s.push(c).drop_last() =~= s);
    assert(s.push(c).last() == c);
}

/// Identical `create_if_absent` calls for one channel are idempotent: in
/// any serialized run — and the store's single lock serializes all calls —
/// that starts from a store without a campaign for the channel, the first
/// call alone reports `Created`, every later call reports `AlreadyExists`,
/// and exactly one campaign for the channel exists after each call.
/// `stores[k]` is the store before call `k`; `outcomes[k]` its outcome.
pub proof fn lemma_create_if_absent_idempotent(
    stores: Seq<SessionStore>,
    outcomes: Seq<CreateOutcome>,
    channel_id: Seq<char>,
)
    requires
        stores.len() == outcomes.len() + 1,
        outcomes.len() >= 1,
        !contains_channel(stores[0].campaigns@, channel_id),
        forall|k: int|
            0 <= k < outcomes.len() ==> create_if_absent_post(
                stores[k],
                stores[k + 1],
                channel_id,
                #[trigger] outcomes[k],
            ),
    ensures
        outcomes[0] == CreateOutcome::Created,
        forall|k: int| 1 <= k < outcomes.len() ==> (#[trigger] outcomes[k]) is AlreadyExists,
        forall|k: int|
            1 <= k < stores.len() ==> #[trigger] channel_count(stores[k].campaigns@, channel_id)
                == 1,
{
    assert(create_if_absent_post(stores[0], stores[1], channel_id, outcomes[0]));
    assert forall|k: int|
        1 <= k < stores.len() implies #[trigger] channel_count(stores[k].campaigns@, channel_id)
        == 1 by {
        assert(create_if_absent_post(stores[k - 1], stores[k], channel_id, outcomes[k - 1]));
    }
    assert forall|k: int|
        1 <= k < outcomes.len() implies (#[trigger] outcomes[k]) is AlreadyExists by {
        assert(create_if_absent_post(stores[k - 1], stores[k], channel_id, outcomes[k - 1]));
        lemma_channel_count_bounds(stores[k].campaigns@, channel_id);
        assert(contains_channel(stores[k].campaigns@, channel_id));
        assert(create_if_absent_post(stores[k], stores[k + 1], channel_id, outcomes[k]));
    }
}

/// With pairwise-distinct channels, at most one campaign is bound to any
/// channel: repeating `create_if_absent` for the same channel cannot make
/// a second one.
pub proof fn lemma_channel_count_unique(s: Seq<Campaign>, channel_id: Seq<char>)
    requires
        forall|i: int, j: int| 0 <= i < j < s.len() ==> s[i].channel_id@ != s[j].channel_id@,
    ensures
        channel_count(s, channel_id) <= 1,
    decreases s.len(),
{
    if s.len() > 0 {
        lemma_channel_count_unique(s.drop_last(), channel_id);
        if s.last().channel_id@ == channel_id {
            lemma_channel_count_bounds(s.drop_last(), channel_id);
            if contains_channel(s.drop_last(), channel_id) {
                let i = choose|i: int| #![auto]
                    0 <= i < s.drop_last().len() && s.drop_last()[i].channel_id@ == channel_id;
                assert(s[i].channel_id@ == channel_id);
                assert(s[s.len() - 1].channel_id@ == channel_id);
            }
        }
    }
}

} // verus!
