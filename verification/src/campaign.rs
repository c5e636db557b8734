//! One game session bound to a single channel: an ordered roster of
//! players (insertion order is turn order) and a turn pointer into it.

use vstd::prelude::*;

use crate::player::{Player, STARTING_HEALTH};
use crate::text::str_eq;

verus! {

pub struct Campaign {
    /// Whether the session has been started.
    pub active: bool,
    /// The roster, in join order; the order is the turn rotation.
    pub players: Vec<Player>,
    /// The channel this campaign is bound to; immutable after creation.
    pub channel_id: String,
    /// Index into `players` of whoever holds the turn; absent before the
    /// session is started.
    pub current_player: Option<usize>,
}

impl Campaign {
    /// Roster ids are pairwise distinct, and the turn pointer, when
    /// present, is a valid roster index.
    pub open spec fn wf(self) -> bool {
        &&& forall|i: int, j: int|
            0 <= i < j < self.players@.len() ==> self.players@[i].id@ != self.players@[j].id@
        &&& self.current_player matches Some(i) ==> i < self.players@.len()
    }

    /// Some roster entry carries this user id.
    pub open spec fn has_player(self, user_id: Seq<char>) -> bool {
        exists|i: int| #![auto] 0 <= i < self.players@.len() && self.players@[i].id@ == user_id
    }

    /// What `add_player` appends when the id is new to the roster.
    pub open spec fn is_fresh_player(p: Player, user_id: Seq<char>, display_name: Seq<char>) -> bool {
        &&& p.id@ == user_id
        &&& p.display_name@ == display_name
        &&& p.health == STARTING_HEALTH
    }

    /// A campaign starts inactive, with an empty roster and no turn holder.
    pub fn new(channel_id: &str) -> (c: Campaign)
        ensures
            c.active == false,
            c.players@ == Seq::<Player>::empty(),
            c.channel_id@ == channel_id@,
            c.current_player is None,
            c.wf(),
    {
        Campaign {
            active: false,
            players: Vec::new(),
            channel_id: channel_id.to_owned(),
            current_player: None,
        }
    }

    /// Index of the roster entry carrying this user id, if any.
    pub fn find_player(&self, user_id: &str) -> (r: Option<usize>)
        ensures
            r matches Some(i) ==> i < self.players@.len() && self.players@[i as int].id@
                == user_id@,
            r is None <==> !self.has_player(user_id@),
    {
        let n = self.players.len();
        let mut i: usize = 0;
        while i < n
            invariant
                n == self.players@.len(),
                i <= n,
                forall|j: int| #![auto] 0 <= j < i ==> self.players@[j].id@ != user_id@,
            decreases n - i,
        {
            if str_eq(self.players[i].id.as_str(), user_id) {
                return Some(i);
            }
            i = i + 1;
        }
        None
    }

    /// Append a player with this id unless one already carries it; on a
    /// duplicate, report the existing display name and change nothing.
    pub fn add_player(&mut self, user_id: &str, display_name: &str) -> (r: Option<String>)
        requires
            old(self).wf(),
        ensures
            final(self).wf(),
            old(self).has_player(user_id@) ==> {
                &&& *final(self) == *old(self)
                &&& r matches Some(name) && (exists|i: int| #![auto]
                    0 <= i < old(self).players@.len() && old(self).players@[i].id@ == user_id@
                        && old(self).players@[i].display_name == name)
            },
            !old(self).has_player(user_id@) ==> {
                &&& r is None
                &&& final(self).players@.len() == old(self).players@.len() + 1
                &&& final(self).players@.drop_last() == old(self).players@
                &&& Self::is_fresh_player(final(self).players@.last(), user_id@, display_name@)
                &&& final(self).active == old(self).active
                &&& final(self).channel_id == old(self).channel_id
                &&& final(self).current_player == old(self).current_player
            },
            final(self).has_player(user_id@),
    {
        match self.find_player(user_id) {
            Some(i) => {
                let name = self.players[i].display_name.clone();
                Some(name)
            },
            None => {
                let p = Player::new(user_id.to_owned(), display_name.to_owned());
                self.players.push(p);
                proof {
                    assert(self.players@.drop_last() =~= old(self).players@);
                    let n = old(self).players@.len() as int;
                    assert(self.players@[n].id@ == user_id@);
                }
                None
            },
        }
    }

    /// Flip `active` on the first start and hand the turn to the first
    /// roster entry, if any; a second start changes nothing.
    pub fn start(&mut self) -> (was_active: bool)
        requires
            old(self).wf(),
        ensures
            final(self).wf(),
            was_active == old(self).active,
            old(self).active ==> *final(self) == *old(self),
            !old(self).active ==> {
                &&& final(self).active == true
                &&& final(self).players@ == old(self).players@
                &&& final(self).channel_id == old(self).channel_id
                &&& final(self).current_player == (if old(self).players@.len() > 0 {
                    Some(0usize)
                } else {
                    None
                })
            },
    {
        if self.active {
            return true;
        }
        self.active = true;
        self.current_player = if self.players.len() > 0 {
            Some(0)
        } else {
            None
        };
        false
    }

    /// Move the turn to the next roster entry, wrapping at the end; with
    /// no holder yet, default to the first entry; with an empty roster,
    /// leave the turn unset.
    pub fn advance_turn(&mut self)
        requires
            old(self).wf(),
        ensures
            final(self).wf(),
            final(self).active == old(self).active,
            final(self).players@ == old(self).players@,
            final(self).channel_id == old(self).channel_id,
            old(self).current_player matches Some(i) ==> final(self).current_player matches Some(k)
                && k as int == (i as int + 1) % (old(self).players@.len() as int),
            old(self).current_player is None && old(self).players@.len() > 0
                ==> final(self).current_player == Some(0usize),
            old(self).current_player is None && old(self).players@.len() == 0
                ==> final(self).current_player is None,
    {
        let len = self.players.len();
        match self.current_player {
            Some(i) => {
                self.current_player = Some((i + 1) % len);
            },
            None => {
                self.current_player = if len > 0 {
                    Some(0)
                } else {
                    None
                };
            },
        }
    }
}

} // verus!
