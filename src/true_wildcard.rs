use vstd::prelude::*;
use crate::game::{ChatMessageVariant, Game, GameView, PhaseType, PlayerReference, PrivateMessage};
use crate::role::{Role, RoleState, default_state_of, phase_start_result};
use crate::role_list::{can_generate, role_can_generate};

verus! {

/// Private state of a True Wildcard: the role it will turn into.
/// Holding `Role::TrueWildcard` means that no target has been chosen.
#[derive(Clone, Copy, Debug, PartialEq, Eq, Structural)]
pub struct TrueWildcard {
    pub role: Role,
}

impl Default for TrueWildcard {
    fn default() -> (r: Self)
        ensures
            r.role == Role::TrueWildcard,
    {
        TrueWildcard { role: Role::TrueWildcard }
    }
}

/// What an attempt by `actor` to become `target` does to the game: nothing when no
/// target is chosen; the target's default state when the game enables it; otherwise
/// one private notice to `actor` naming the rejected role.
pub open spec fn become_role_result(game: GameView, actor: PlayerReference, target: Role) -> GameView {
    if target == Role::TrueWildcard {
        game
    } else if can_generate(target, game.enabled_roles, Seq::empty()) {
        game.with_role(actor, default_state_of(target))
    } else {
        game.with_message(actor, ChatMessageVariant::WildcardConvertFailed { role: target })
    }
}

/// The wildcard acts at the start of the night, and only while its holder is alive.
pub open spec fn wildcard_phase_start_result(
    game: GameView,
    wildcard: TrueWildcard,
    actor: PlayerReference,
    phase: PhaseType,
) -> GameView {
    if phase == PhaseType::Night && game.players[actor.index as int].alive {
        become_role_result(game, actor, wildcard.role)
    } else {
        game
    }
}

impl TrueWildcard {
    /// Phase-start handler: at night a living holder tries to become the chosen role.
    pub fn on_phase_start(self, game: &mut Game, actor: PlayerReference, phase: PhaseType)
        requires
            old(game)@.has_player(actor),
        ensures
            final(game)@ == wildcard_phase_start_result(old(game)@, self, actor, phase),
    {
        match phase {
            PhaseType::Night => {
                if !actor.alive(game) {
                    return;
                }
                self.become_role(game, actor);
            },
            _ => {},
        }
    }

    /// Replaces `actor`'s state with the chosen role's default state if the game
    /// enables that role, and otherwise tells `actor` privately that it failed.
    pub fn become_role(&self, game: &mut Game, actor: PlayerReference)
        requires
            old(game)@.has_player(actor),
        ensures
            final(game)@ == become_role_result(old(game)@, actor, self.role),
    {
        if self.role == Role::TrueWildcard {
            return;
        }
        let excluded: [Role; 0] = [];
        if role_can_generate(self.role, &game.settings.enabled_roles, &excluded) {
            actor.set_role(game, self.role.default_state());
        } else {
            actor.add_private_chat_message(game, ChatMessageVariant::WildcardConvertFailed { role: self.role });
        }
    }
}


/// A wildcard that has chosen no target changes nothing and sends nothing,
/// whatever the phase.
pub proof fn lemma_self_target_noop(game: GameView, actor: PlayerReference, phase: PhaseType)
    ensures
        become_role_result(game, actor, Role::TrueWildcard) == game,
        phase_start_result(
            game,
            RoleState::TrueWildcard(TrueWildcard { role: Role::TrueWildcard }),
            actor,
            phase,
        ) == game,
{
}

/// At night, a living wildcard whose target is enabled becomes exactly the target's
/// default state; nobody else changes and no message is sent.
pub proof fn lemma_transformation_succeeds(game: GameView, actor: PlayerReference, target: Role)
    requires
        game.has_player(actor),
        game.players[actor.index as int].alive,
        target != Role::TrueWildcard,
        game.enabled_roles.contains(target),
    ensures
        ({
            let after = phase_start_result(
                game,
                RoleState::TrueWildcard(TrueWildcard { role: target }),
                actor,
                PhaseType::Night,
            );
            &&& after.players[actor.index as int].role_state == default_state_of(target)
            &&& after.players[actor.index as int].alive
            &&& after.players.len() == game.players.len()
            &&& forall|i: int|
                0 <= i < game.players.len() && i != actor.index ==> after.players[i] == game.players[i]
            &&& after.outbox == game.outbox
        }),
{
}

/// At night, a living wildcard whose target is not enabled keeps its state, and
/// exactly one private notice naming the target is queued for it.
pub proof fn lemma_transformation_rejected(game: GameView, actor: PlayerReference, target: Role)
    requires
        game.has_player(actor),
        game.players[actor.index as int].alive,
        target != Role::TrueWildcard,
        !game.enabled_roles.contains(target),
    ensures
        ({
            let after = phase_start_result(
                game,
                RoleState::TrueWildcard(TrueWildcard { role: target }),
                actor,
                PhaseType::Night,
            );
            &&& after.players == game.players
            &&& after.outbox == game.outbox.push(
                PrivateMessage {
                    recipient: actor,
                    message: ChatMessageVariant::WildcardConvertFailed { role: target },
                },
            )
        }),
{
}

/// A dead holder's wildcard does nothing, whether or not its target is enabled.
pub proof fn lemma_dead_player_skipped(game: GameView, actor: PlayerReference, wildcard: TrueWildcard)
    requires
        game.has_player(actor),
        !game.players[actor.index as int].alive,
    ensures
        phase_start_result(game, RoleState::TrueWildcard(wildcard), actor, PhaseType::Night) == game,
{
}

} // verus!
