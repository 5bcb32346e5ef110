use vstd::prelude::*;
use crate::role::{Role, RoleState};
use crate::components::FactionSetup;

verus! {

/// The stages of the day/night cycle.
#[derive(Clone, Copy, Debug, PartialEq, Eq, Structural)]
pub enum PhaseType {
    Briefing,
    Obituary,
    Discussion,
    Nomination,
    Testimony,
    Judgement,
    FinalWords,
    Dusk,
    Night,
}

/// Messages this engine hands to the chat collaborator.
#[derive(Clone, Copy, Debug, PartialEq, Eq, Structural)]
pub enum ChatMessageVariant {
    /// A True Wildcard could not turn into `role`.
    WildcardConvertFailed { role: Role },
}

/// A player's seat: the role state they hold and whether they are alive.
#[derive(Clone, Copy, Debug, PartialEq, Eq, Structural)]
pub struct Player {
    pub role_state: RoleState,
    pub alive: bool,
}

/// A reference to a player by position in the game's player list.
#[derive(Clone, Copy, Debug, PartialEq, Eq, Structural)]
pub struct PlayerReference {
    pub index: usize,
}

/// A message queued for delivery to a single player.
#[derive(Clone, Copy, Debug, PartialEq, Eq, Structural)]
pub struct PrivateMessage {
    pub recipient: PlayerReference,
    pub message: ChatMessageVariant,
}

/// Game configuration read by this engine.
pub struct Settings {
    pub enabled_roles: Vec<Role>,
}

/// The aggregate root: players, settings, the current phase, the private messages
/// queued for the chat collaborator, and the faction setups that have run, in order.
pub struct Game {
    pub players: Vec<Player>,
    pub settings: Settings,
    pub phase: PhaseType,
    pub outbox: Vec<PrivateMessage>,
    pub setup_log: Vec<FactionSetup>,
}

/// The mathematical model of a game.
pub struct GameView {
    pub players: Seq<Player>,
    pub enabled_roles: Seq<Role>,
    pub phase: PhaseType,
    pub outbox: Seq<PrivateMessage>,
    pub setup_log: Seq<FactionSetup>,
}

impl View for Game {
    type V = GameView;

    open spec fn view(&self) -> GameView {
        GameView {
            players: self.players@,
            enabled_roles: self.settings.enabled_roles@,
            phase: self.phase,
            outbox: self.outbox@,
            setup_log: self.setup_log@,
        }
    }
}

impl GameView {
    /// `player` names a seat of this game.
    pub open spec fn has_player(self, player: PlayerReference) -> bool {
        player.index < self.players.len()
    }

    /// The game with `player`'s role state replaced wholesale.
    pub open spec fn with_role(self, player: PlayerReference, state: RoleState) -> GameView {
        GameView {
            players: self.players.update(
                player.index as int,
                Player { role_state: state, alive: self.players[player.index as int].alive },
            ),
            ..self
        }
    }

    /// The game with one more private message queued.
    pub open spec fn with_message(self, player: PlayerReference, message: ChatMessageVariant) -> GameView {
        GameView {
            outbox: self.outbox.push(PrivateMessage { recipient: player, message }),
            ..self
        }
    }

    /// The game with one more faction setup recorded.
    pub open spec fn with_setup(self, setup: FactionSetup) -> GameView {
        GameView { setup_log: self.setup_log.push(setup), ..self }
    }
}

impl Game {
    /// A game in its briefing phase with nothing queued and no faction set up yet.
    pub fn new(players: Vec<Player>, enabled_roles: Vec<Role>) -> (r: Game)
        ensures
            r@.players == players@,
            r@.enabled_roles == enabled_roles@,
            r@.phase == PhaseType::Briefing,
            r@.outbox == Seq::<PrivateMessage>::empty(),
            r@.setup_log == Seq::<FactionSetup>::empty(),
    {
        Game {
            players,
            settings: Settings { enabled_roles },
            phase: PhaseType::Briefing,
            outbox: Vec::new(),
            setup_log: Vec::new(),
        }
    }
}

impl PlayerReference {
    /// The reference to seat `index`, if the game has it.
    pub fn new(game: &Game, index: usize) -> (r: Option<PlayerReference>)
        ensures
            r == (if index < game@.players.len() {
                Some(PlayerReference { index })
            } else {
                None::<PlayerReference>
            }),
    {
        if index < game.players.len() {
            Some(PlayerReference { index })
        } else {
            None
        }
    }

    /// Whether this player is alive.
    pub fn alive(self, game: &Game) -> (r: bool)
        requires
            game@.has_player(self),
        ensures
            r == game@.players[self.index as int].alive,
    {
        game.players[self.index].alive
    }

    /// The role state this player holds.
    pub fn role_state(self, game: &Game) -> (r: RoleState)
        requires
            game@.has_player(self),
        ensures
            r == game@.players[self.index as int].role_state,
    {
        game.players[self.index].role_state
    }

    /// Replaces this player's role state wholesale; the old state is discarded.
    pub fn set_role(self, game: &mut Game, state: RoleState)
        requires
            old(game)@.has_player(self),
        ensures
            final(game)@ == old(game)@.with_role(self, state),
    {
        let alive = game.players[self.index].alive;
        game.players.set(self.index, Player { role_state: state, alive });
    }

    /// Queues a message that only this player will see.
    pub fn add_private_chat_message(self, game: &mut Game, message: ChatMessageVariant)
        ensures
            final(game)@ == old(game)@.with_message(self, message),
    {
        game.outbox.push(PrivateMessage { recipient: self, message });
    }
}

} // verus!
