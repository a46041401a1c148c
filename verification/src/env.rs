//! The environment in which the arbiter runs: the ledger's clock, what the
//! arbiter has stored on the ledger, and the authorizations that were
//! presented with the call at hand.
//!
//! The arbiter keeps two kinds of entries. Its configuration (the
//! administrator, the game hub, the proof verifier, its own executable) never
//! expires. A session lives for a bounded number of ledgers after it was last
//! written; when that time has lapsed the session is gone for good, though
//! nothing removes it: every read passes it over.

use std::collections::HashMap;
use vstd::prelude::*;

use crate::address::Address;
use crate::game::{view_of, zero_digest, GameState, GameStateView};

verus! {

/// For how many ledgers a session outlives its last write.
pub const GAME_TTL_LEDGERS: u32 = 518_400;

/// The keys under which the arbiter stores its entries.
#[derive(Copy, Clone, Debug, PartialEq, Eq, Structural)]
pub enum DataKey {
    /// The session with the given id.
    Game(u32),
    /// The address of the game hub, which is told of results.
    GameHubAddress,
    /// The address of the proof verifier, for the parties to consult.
    VerifierAddress,
    /// The administrator.
    Admin,
}

/// A session as it is stored: with the last ledger at which it is live.
struct StoredGame {
    game: GameState,
    live_until: u64,
}

/// A stored session as a mathematical value.
pub struct StoredGameView {
    pub game: GameStateView,
    pub live_until: u64,
}

impl View for StoredGame {
    type V = StoredGameView;

    closed spec fn view(&self) -> StoredGameView {
        StoredGameView { game: self.game@, live_until: self.live_until }
    }
}

/// The environment of the arbiter.
pub struct Env {
    ledger: u32,
    auths: Vec<Address>,
    admin: Option<Address>,
    game_hub: Option<Address>,
    verifier: Option<Address>,
    executable: [u8; 32],
    games: HashMap<u32, StoredGame>,
}

/// The environment as a mathematical value.
pub struct EnvView {
    /// The sequence number of the current ledger.
    pub ledger: u32,
    /// The parties that have authorized the call at hand.
    pub auths: Set<Seq<u8>>,
    /// The administrator, once configured.
    pub admin: Option<Seq<u8>>,
    /// The game hub, once configured.
    pub game_hub: Option<Seq<u8>>,
    /// The proof verifier, once configured.
    pub verifier: Option<Seq<u8>>,
    /// The digest of the arbiter's executable.
    pub executable: Seq<u8>,
    /// The stored sessions by their ids, lapsed ones included.
    pub games: Map<u32, StoredGameView>,
}

impl EnvView {
    /// The invariant of the store: each session is well-formed and is stored
    /// under its own id.
    pub open spec fn wf(self) -> bool {
        forall|id: u32| #[trigger]
            self.games.contains_key(id) ==> self.games[id].game.wf() && self.games[id].game.session_id
                == id
    }

    /// Whether `who` has authorized the call at hand.
    pub open spec fn authorized(self, who: Seq<u8>) -> bool {
        self.auths.contains(who)
    }

    /// Whether the administrator is configured and has authorized the call
    /// at hand.
    pub open spec fn admin_authorized(self) -> bool {
        self.admin is Some && self.authorized(self.admin->0)
    }

    /// Whether a session is stored under `session_id` and has not lapsed.
    pub open spec fn live(self, session_id: u32) -> bool {
        self.games.contains_key(session_id) && self.ledger <= self.games[session_id].live_until
    }

    /// The session that a read of `session_id` finds.
    pub open spec fn game(self, session_id: u32) -> Option<GameStateView> {
        if self.live(session_id) {
            Some(self.games[session_id].game)
        } else {
            None
        }
    }

    /// Whether a read of `key` finds an entry.
    pub open spec fn has(self, key: DataKey) -> bool {
        match key {
            DataKey::Game(session_id) => self.live(session_id),
            DataKey::GameHubAddress => self.game_hub is Some,
            DataKey::VerifierAddress => self.verifier is Some,
            DataKey::Admin => self.admin is Some,
        }
    }

    /// The last ledger at which a session that is written now is live.
    pub open spec fn fresh_live_until(self) -> u64 {
        (self.ledger + GAME_TTL_LEDGERS) as u64
    }

    /// The environment after `game` was written under its id: it replaces
    /// what was stored there, and its lifetime starts anew.
    pub open spec fn put(self, game: GameStateView) -> EnvView {
        EnvView {
            games: self.games.insert(
                game.session_id,
                StoredGameView { game, live_until: self.fresh_live_until() },
            ),
            ..self
        }
    }

    /// The environment when the clock has moved on to `sequence`; the clock
    /// never moves back.
    pub open spec fn advanced_to(self, sequence: u32) -> EnvView {
        EnvView { ledger: if sequence > self.ledger { sequence } else { self.ledger }, ..self }
    }

    /// The environment at ledger 0 with nothing stored and nothing authorized.
    pub open spec fn empty() -> EnvView {
        EnvView {
            ledger: 0,
            auths: Set::empty(),
            admin: None,
            game_hub: None,
            verifier: None,
            executable: zero_digest(),
            games: Map::empty(),
        }
    }
}

impl View for Env {
    type V = EnvView;

    closed spec fn view(&self) -> EnvView {
        EnvView {
            ledger: self.ledger,
            auths: Set::new(
                |who: Seq<u8>|
                    exists|i: int| 0 <= i < self.auths@.len() && (#[trigger] self.auths@[i])@ == who,
            ),
            admin: view_of(self.admin),
            game_hub: view_of(self.game_hub),
            verifier: view_of(self.verifier),
            executable: self.executable@,
            games: self.games@.map_values(|s: StoredGame| s@),
        }
    }
}

/// A copy of an identity that may be absent.
fn copy_of(who: &Option<Address>) -> (copy: Option<Address>)
    ensures
        view_of(copy) == view_of(*who),
{
    match who {
        Some(a) => Some(a.clone()),
        None => None,
    }
}

impl Env {
    /// The invariant of the environment: each session in it is well-formed
    /// and is stored under its own id.
    #[verifier::type_invariant]
    pub closed spec fn inv(self) -> bool {
        forall|id: u32| #[trigger]
            self.games@.contains_key(id) ==> self.games@[id].game@.wf()
                && self.games@[id].game.session_id == id
    }

    /// The invariant of the environment, said of its view.
    pub proof fn lemma_inv_wf(self)
        requires
            self.inv(),
        ensures
            self@.wf(),
    {
    }

    /// An environment at ledger 0 with nothing stored and nothing authorized.
    pub fn new() -> (env: Env)
        ensures
            env@ == EnvView::empty(),
            env@.wf(),
    {
        let env = Env {
            ledger: 0,
            auths: Vec::new(),
            admin: None,
            game_hub: None,
            verifier: None,
            executable: [0u8; 32],
            games: HashMap::new(),
        };
        assert(env@.auths =~= Set::empty());
        assert(env@.games =~= Map::empty());
        assert(env@.executable =~= zero_digest());
        env
    }

    /// The sequence number of the current ledger.
    pub fn ledger_sequence(&self) -> (sequence: u32)
        ensures
            sequence == self@.ledger,
    {
        self.ledger
    }

    /// Moves the clock on to the ledger `sequence`. The clock never moves
    /// back: an earlier `sequence` leaves it where it is.
    pub fn advance_to(&mut self, sequence: u32)
        ensures
            final(self)@ == old(self)@.advanced_to(sequence),
            final(self)@.wf(),
    {
        proof {
            use_type_invariant(&*self);
        }
        if sequence > self.ledger {
            self.ledger = sequence;
        }
    }

    /// Records that `who` has authorized the call at hand.
    pub fn authorize(&mut self, who: Address)
        ensures
            final(self)@ == (EnvView { auths: old(self)@.auths.insert(who@), ..old(self)@ }),
            final(self)@.wf(),
    {
        proof {
            use_type_invariant(&*self);
        }
        let ghost before = self.auths@;
        // Taken out for the write and put back after it, as in `put_game`.
        let mut auths: Vec<Address> = Vec::new();
        std::mem::swap(&mut self.auths, &mut auths);
        auths.push(who);
        self.auths = auths;
        proof {
            assert forall|a: Seq<u8>| self@.auths.contains(a) <==> old(self)@.auths.insert(
                who@,
            ).contains(a) by {
                if self@.auths.contains(a) {
                    let i = choose|i: int|
                        0 <= i < self.auths@.len() && (#[trigger] self.auths@[i])@ == a;
                    if i < before.len() {
                        assert(before[i]@ == a);
                    }
                }
                if old(self)@.auths.contains(a) {
                    let i = choose|i: int| 0 <= i < before.len() && (#[trigger] before[i])@ == a;
                    assert(self.auths@[i]@ == a);
                }
                if a == who@ {
                    assert(self.auths@[before.len() as int]@ == a);
                }
            }
            assert(self@.auths =~= old(self)@.auths.insert(who@));
        }
    }

    /// Forgets all authorizations: the next call starts with none.
    pub fn clear_authorizations(&mut self)
        ensures
            final(self)@ == (EnvView { auths: Set::empty(), ..old(self)@ }),
            final(self)@.wf(),
    {
        proof {
            use_type_invariant(&*self);
        }
        self.auths = Vec::new();
        assert(self@.auths =~= Set::empty());
    }

    /// Whether `who` has authorized the call at hand.
    pub fn is_authorized(&self, who: &Address) -> (yes: bool)
        ensures
            yes == self@.authorized(who@),
    {
        let mut i: usize = 0;
        while i < self.auths.len()
            invariant
                i <= self.auths@.len(),
                forall|j: int| 0 <= j < i ==> (#[trigger] self.auths@[j])@ != who@,
            decreases self.auths@.len() - i,
        {
            if self.auths[i] == *who {
                return true;
            }
            i += 1;
        }
        false
    }

    /// Whether the administrator is configured and has authorized the call
    /// at hand.
    pub fn is_admin_authorized(&self) -> (yes: bool)
        ensures
            yes == self@.admin_authorized(),
    {
        match &self.admin {
            Some(admin) => self.is_authorized(admin),
            None => false,
        }
    }

    /// Whether a read of `key` finds an entry.
    pub fn has(&self, key: &DataKey) -> (found: bool)
        ensures
            found == self@.has(*key),
    {
        match key {
            DataKey::Game(session_id) => {
                match self.games.get(session_id) {
                    Some(stored) => self.ledger as u64 <= stored.live_until,
                    None => false,
                }
            },
            DataKey::GameHubAddress => self.game_hub.is_some(),
            DataKey::VerifierAddress => self.verifier.is_some(),
            DataKey::Admin => self.admin.is_some(),
        }
    }

    /// The administrator, if one is configured.
    pub fn stored_admin(&self) -> (who: Option<Address>)
        ensures
            view_of(who) == self@.admin,
    {
        copy_of(&self.admin)
    }

    /// The game hub, if one is configured.
    pub fn stored_game_hub(&self) -> (who: Option<Address>)
        ensures
            view_of(who) == self@.game_hub,
    {
        copy_of(&self.game_hub)
    }

    /// The proof verifier, if one is configured.
    pub fn stored_verifier(&self) -> (who: Option<Address>)
        ensures
            view_of(who) == self@.verifier,
    {
        copy_of(&self.verifier)
    }

    /// The digest of the arbiter's executable.
    pub fn executable(&self) -> (digest: [u8; 32])
        ensures
            digest@ == self@.executable,
    {
        self.executable
    }

    /// The session that is stored under `session_id`, unless there is none
    /// or its lifetime has lapsed.
    pub fn game(&self, session_id: u32) -> (found: Option<GameState>)
        ensures
            match found {
                Some(game) => self@.game(session_id) == Some(game@),
                None => self@.game(session_id) is None,
            },
            found matches Some(game) ==> game@.wf() && game.session_id == session_id,
    {
        proof {
            use_type_invariant(self);
        }
        match self.games.get(&session_id) {
            Some(stored) => {
                if self.ledger as u64 <= stored.live_until {
                    Some(stored.game.clone())
                } else {
                    None
                }
            },
            None => None,
        }
    }

    /// The last ledger at which the session under `session_id` is live, if
    /// it is live now.
    pub fn live_until(&self, session_id: u32) -> (ledger: Option<u64>)
        ensures
            match ledger {
                Some(ledger) => self@.live(session_id) && self@.games[session_id].live_until
                    == ledger,
                None => !self@.live(session_id),
            },
    {
        match self.games.get(&session_id) {
            Some(stored) => {
                if self.ledger as u64 <= stored.live_until {
                    Some(stored.live_until)
                } else {
                    None
                }
            },
            None => None,
        }
    }

    /// Writes `game` under its id. It replaces what was stored there, lapsed
    /// or not, and its lifetime starts anew: it is live through the next
    /// `GAME_TTL_LEDGERS` ledgers.
    pub fn put_game(&mut self, game: GameState)
        requires
            game@.wf(),
        ensures
            final(self)@ == old(self)@.put(game@),
            final(self)@.wf(),
    {
        proof {
            use_type_invariant(&*self);
        }
        let live_until = self.ledger as u64 + GAME_TTL_LEDGERS as u64;
        let session_id = game.session_id;
        let stored = StoredGame { game, live_until };
        // The map is taken out for the write and put back after it, so that
        // the environment's invariant holds at every step.
        let mut games: HashMap<u32, StoredGame> = HashMap::new();
        std::mem::swap(&mut self.games, &mut games);
        games.insert(session_id, stored);
        self.games = games;
        proof {
            assert(self.games@ == old(self).games@.insert(session_id, stored));
            assert(self@.games =~= old(self)@.put(stored.game@).games);
        }
    }

    /// Writes the administrator. The environment does not ask who writes:
    /// the arbiter's operations do.
    pub fn store_admin(&mut self, who: Address)
        ensures
            final(self)@ == (EnvView { admin: Some(who@), ..old(self)@ }),
            final(self)@.wf(),
    {
        proof {
            use_type_invariant(&*self);
        }
        self.admin = Some(who);
    }

    /// Writes the address of the game hub.
    pub fn store_game_hub(&mut self, who: Address)
        ensures
            final(self)@ == (EnvView { game_hub: Some(who@), ..old(self)@ }),
            final(self)@.wf(),
    {
        proof {
            use_type_invariant(&*self);
        }
        self.game_hub = Some(who);
    }

    /// Writes the address of the proof verifier.
    pub fn store_verifier(&mut self, who: Address)
        ensures
            final(self)@ == (EnvView { verifier: Some(who@), ..old(self)@ }),
            final(self)@.wf(),
    {
        proof {
            use_type_invariant(&*self);
        }
        self.verifier = Some(who);
    }

    /// Writes the digest of the arbiter's executable.
    pub fn store_executable(&mut self, digest: [u8; 32])
        ensures
            final(self)@ == (EnvView { executable: digest@, ..old(self)@ }),
            final(self)@.wf(),
    {
        proof {
            use_type_invariant(&*self);
        }
        self.executable = digest;
    }
}

} // verus!
