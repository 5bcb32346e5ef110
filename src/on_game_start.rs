use vstd::prelude::*;
use crate::components::{Cult, FactionSetup, Mafia, PuppeteerMarionette};
use crate::game::{Game, GameView};

verus! {

/// The order in which the faction setups run when a game starts.
pub open spec fn faction_setup_order() -> Seq<FactionSetup> {
    seq![FactionSetup::Mafia, FactionSetup::Cult, FactionSetup::PuppeteerMarionette]
}

/// The game after every faction setup has run once, in order.
pub open spec fn game_start_result(game: GameView) -> GameView {
    GameView { setup_log: game.setup_log + faction_setup_order(), ..game }
}

/// The game-start broadcaster.
pub struct OnGameStart;

impl OnGameStart {
    /// Runs each faction's setup once, in the fixed order of `faction_setup_order`.
    pub fn invoke(game: &mut Game)
        ensures
            final(game)@ == game_start_result(old(game)@),
    {
        Mafia::on_game_start(game);
        Cult::on_game_start(game);
        PuppeteerMarionette::on_game_start(game);
        assert(game@.setup_log =~= old(game)@.setup_log + faction_setup_order());
    }
}


/// Starting a game appends the faction setups in one fixed order, Mafia, then Cult,
/// then Puppeteer and marionettes, and two equal games end up equal.
pub proof fn lemma_game_start_order(game: GameView, other: GameView)
    ensures
        game_start_result(game).setup_log == game.setup_log + seq![
            FactionSetup::Mafia,
            FactionSetup::Cult,
            FactionSetup::PuppeteerMarionette,
        ],
        game_start_result(game).players == game.players,
        game_start_result(game).outbox == game.outbox,
        game == other ==> game_start_result(game) == game_start_result(other),
{
}

} // verus!
