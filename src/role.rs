use vstd::prelude::*;
use crate::game::{Game, GameView, PhaseType, PlayerReference};
use crate::true_wildcard::{TrueWildcard, wildcard_phase_start_result};

verus! {

/// The closed set of roles a player can hold.
#[derive(Clone, Copy, Debug, PartialEq, Eq, Structural)]
pub enum Role {
    Consigliere,
    Consort,
    Doctor,
    Escort,
    Godfather,
    Sheriff,
    Veteran,
    Vigilante,
    TrueWildcard,
}

/// The team a role belongs to.
#[derive(Clone, Copy, Debug, PartialEq, Eq, Structural)]
pub enum Faction {
    Town,
    Mafia,
    Neutral,
    Cult,
}

/// Static facts about a role; never changed during a game.
#[derive(Clone, Copy, Debug, PartialEq, Eq, Structural)]
pub struct RoleMetadata {
    pub faction: Faction,
    pub defense: u8,
    /// `None` means that any number of players may hold the role.
    pub maximum_count: Option<u8>,
}

/// Private state of a Veteran.
#[derive(Clone, Copy, Debug, PartialEq, Eq, Structural)]
pub struct Veteran {
    pub alerts_remaining: u8,
}

/// Private state of a Vigilante.
#[derive(Clone, Copy, Debug, PartialEq, Eq, Structural)]
pub struct Vigilante {
    pub bullets_remaining: u8,
    pub killed_townie: bool,
}

impl Default for Veteran {
    fn default() -> (r: Self)
        ensures
            r.alerts_remaining == 1,
    {
        Veteran { alerts_remaining: 1 }
    }
}

impl Default for Vigilante {
    fn default() -> (r: Self)
        ensures
            r.bullets_remaining == 1,
            !r.killed_townie,
    {
        Vigilante { bullets_remaining: 1, killed_townie: false }
    }
}

/// The state a player carries for the role they hold: exactly one arm is live.
#[derive(Clone, Copy, Debug, PartialEq, Eq, Structural)]
pub enum RoleState {
    Consigliere,
    Consort,
    Doctor,
    Escort,
    Godfather,
    Sheriff,
    Veteran(Veteran),
    Vigilante(Vigilante),
    TrueWildcard(TrueWildcard),
}

/// The state a role starts with: every declared field at its default.
pub open spec fn default_state_of(role: Role) -> RoleState {
    match role {
        Role::Consigliere => RoleState::Consigliere,
        Role::Consort => RoleState::Consort,
        Role::Doctor => RoleState::Doctor,
        Role::Escort => RoleState::Escort,
        Role::Godfather => RoleState::Godfather,
        Role::Sheriff => RoleState::Sheriff,
        Role::Veteran => RoleState::Veteran(Veteran { alerts_remaining: 1 }),
        Role::Vigilante => RoleState::Vigilante(Vigilante { bullets_remaining: 1, killed_townie: false }),
        Role::TrueWildcard => RoleState::TrueWildcard(TrueWildcard { role: Role::TrueWildcard }),
    }
}

/// The catalog's metadata table.
pub open spec fn metadata_of(role: Role) -> RoleMetadata {
    match role {
        Role::Consigliere => RoleMetadata { faction: Faction::Mafia, defense: 0, maximum_count: None },
        Role::Consort => RoleMetadata { faction: Faction::Mafia, defense: 0, maximum_count: None },
        Role::Doctor => RoleMetadata { faction: Faction::Town, defense: 0, maximum_count: None },
        Role::Escort => RoleMetadata { faction: Faction::Town, defense: 0, maximum_count: None },
        Role::Godfather => RoleMetadata { faction: Faction::Mafia, defense: 1, maximum_count: Some(1) },
        Role::Sheriff => RoleMetadata { faction: Faction::Town, defense: 0, maximum_count: None },
        Role::Veteran => RoleMetadata { faction: Faction::Town, defense: 0, maximum_count: Some(1) },
        Role::Vigilante => RoleMetadata { faction: Faction::Town, defense: 0, maximum_count: None },
        Role::TrueWildcard => RoleMetadata { faction: Faction::Neutral, defense: 0, maximum_count: None },
    }
}

/// The role whose state this is.
pub open spec fn role_of(state: RoleState) -> Role {
    match state {
        RoleState::Consigliere => Role::Consigliere,
        RoleState::Consort => Role::Consort,
        RoleState::Doctor => Role::Doctor,
        RoleState::Escort => Role::Escort,
        RoleState::Godfather => Role::Godfather,
        RoleState::Sheriff => Role::Sheriff,
        RoleState::Veteran(_) => Role::Veteran,
        RoleState::Vigilante(_) => Role::Vigilante,
        RoleState::TrueWildcard(_) => Role::TrueWildcard,
    }
}

impl Role {
    /// A fresh state for this role, with every field at its default.
    pub fn default_state(self) -> (r: RoleState)
        ensures
            r == default_state_of(self),
            role_of(r) == self,
    {
        match self {
            Role::Consigliere => RoleState::Consigliere,
            Role::Consort => RoleState::Consort,
            Role::Doctor => RoleState::Doctor,
            Role::Escort => RoleState::Escort,
            Role::Godfather => RoleState::Godfather,
            Role::Sheriff => RoleState::Sheriff,
            Role::Veteran => RoleState::Veteran(Veteran::default()),
            Role::Vigilante => RoleState::Vigilante(Vigilante::default()),
            Role::TrueWildcard => RoleState::TrueWildcard(TrueWildcard::default()),
        }
    }

    /// Faction, defense and maximum count of this role.
    pub fn metadata(self) -> (r: RoleMetadata)
        ensures
            r == metadata_of(self),
    {
        match self {
            Role::Consigliere => RoleMetadata { faction: Faction::Mafia, defense: 0, maximum_count: None },
            Role::Consort => RoleMetadata { faction: Faction::Mafia, defense: 0, maximum_count: None },
            Role::Doctor => RoleMetadata { faction: Faction::Town, defense: 0, maximum_count: None },
            Role::Escort => RoleMetadata { faction: Faction::Town, defense: 0, maximum_count: None },
            Role::Godfather => RoleMetadata { faction: Faction::Mafia, defense: 1, maximum_count: Some(1) },
            Role::Sheriff => RoleMetadata { faction: Faction::Town, defense: 0, maximum_count: None },
            Role::Veteran => RoleMetadata { faction: Faction::Town, defense: 0, maximum_count: Some(1) },
            Role::Vigilante => RoleMetadata { faction: Faction::Town, defense: 0, maximum_count: None },
            Role::TrueWildcard => RoleMetadata { faction: Faction::Neutral, defense: 0, maximum_count: None },
        }
    }
}

impl RoleState {
    /// The role whose state this is.
    pub fn role(&self) -> (r: Role)
        ensures
            r == role_of(*self),
    {
        match self {
            RoleState::Consigliere => Role::Consigliere,
            RoleState::Consort => Role::Consort,
            RoleState::Doctor => Role::Doctor,
            RoleState::Escort => Role::Escort,
            RoleState::Godfather => Role::Godfather,
            RoleState::Sheriff => Role::Sheriff,
            RoleState::Veteran(_) => Role::Veteran,
            RoleState::Vigilante(_) => Role::Vigilante,
            RoleState::TrueWildcard(_) => Role::TrueWildcard,
        }
    }

    /// Dispatches the phase-start event to this state's handler, if it has one.
    pub fn on_phase_start(self, game: &mut Game, actor: PlayerReference, phase: PhaseType)
        requires
            old(game)@.has_player(actor),
        ensures
            final(game)@ == phase_start_result(old(game)@, self, actor, phase),
    {
        match self {
            RoleState::TrueWildcard(w) => w.on_phase_start(game, actor, phase),
            _ => {},
        }
    }

    /// Metadata of the role this state belongs to.
    pub fn metadata(&self) -> (r: RoleMetadata)
        ensures
            r == metadata_of(role_of(*self)),
    {
        self.role().metadata()
    }
}

/// What dispatching the phase-start event to `state`, held by `actor`, does to the game.
/// Roles without a phase-start handler leave the game as it is.
pub open spec fn phase_start_result(
    game: GameView,
    state: RoleState,
    actor: PlayerReference,
    phase: PhaseType,
) -> GameView {
    match state {
        RoleState::TrueWildcard(w) => wildcard_phase_start_result(game, w, actor, phase),
        _ => game,
    }
}

/// Whether `state` declares a handler for the phase-start event.
pub open spec fn handles_phase_start(state: RoleState) -> bool {
    state is TrueWildcard
}

/// Every role of the catalog has a default state, and that state belongs to the role.
pub proof fn lemma_catalog_exhaustive(role: Role)
    ensures
        role_of(default_state_of(role)) == role,
        metadata_of(role) == metadata_of(role_of(default_state_of(role))),
{
}


/// A role with no phase-start handler leaves the game, and so its own state,
/// exactly as it was.
pub proof fn lemma_no_handler_noop(
    game: GameView,
    state: RoleState,
    actor: PlayerReference,
    phase: PhaseType,
)
    requires
        !handles_phase_start(state),
    ensures
        phase_start_result(game, state, actor, phase) == game,
{
}

} // verus!
