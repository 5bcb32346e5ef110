use vstd::prelude::*;
use crate::game::Game;

verus! {

/// The faction-level setup routines that run once when a game starts.
#[derive(Clone, Copy, Debug, PartialEq, Eq, Structural)]
pub enum FactionSetup {
    Mafia,
    Cult,
    PuppeteerMarionette,
}

/// Setup hook of the Mafia faction.
pub struct Mafia;

/// Setup hook of the Cult faction.
pub struct Cult;

/// Setup hook of the Puppeteer and its marionettes.
pub struct PuppeteerMarionette;

/// Records that `setup` has run.
fn record_setup(game: &mut Game, setup: FactionSetup)
    ensures
        final(game)@ == old(game)@.with_setup(setup),
{
    game.setup_log.push(setup);
}

impl Mafia {
    pub fn on_game_start(game: &mut Game)
        ensures
            final(game)@ == old(game)@.with_setup(FactionSetup::Mafia),
    {
        record_setup(game, FactionSetup::Mafia);
    }
}

impl Cult {
    pub fn on_game_start(game: &mut Game)
        ensures
            final(game)@ == old(game)@.with_setup(FactionSetup::Cult),
    {
        record_setup(game, FactionSetup::Cult);
    }
}

impl PuppeteerMarionette {
    pub fn on_game_start(game: &mut Game)
        ensures
            final(game)@ == old(game)@.with_setup(FactionSetup::PuppeteerMarionette),
    {
        record_setup(game, FactionSetup::PuppeteerMarionette);
    }
}

} // verus!
