use mafia_server::components::FactionSetup;
use mafia_server::game::{ChatMessageVariant, Game, PhaseType, Player, PlayerReference, PrivateMessage};
use mafia_server::on_game_start::OnGameStart;
use mafia_server::role::{Faction, Role, RoleMetadata, RoleState, Veteran, Vigilante};
use mafia_server::role_list::{contains_role, role_can_generate};
use mafia_server::true_wildcard::TrueWildcard;

const ALL_ROLES: [Role; 9] = [
    Role::Consigliere,
    Role::Consort,
    Role::Doctor,
    Role::Escort,
    Role::Godfather,
    Role::Sheriff,
    Role::Veteran,
    Role::Vigilante,
    Role::TrueWildcard,
];

fn wildcard(target: Role) -> RoleState {
    RoleState::TrueWildcard(TrueWildcard { role: target })
}

fn one_player_game(state: RoleState, alive: bool, enabled: Vec<Role>) -> Game {
    Game::new(vec![Player { role_state: state, alive }], enabled)
}

#[test]
fn default_state_belongs_to_its_role() {
    for role in ALL_ROLES {
        assert_eq!(role.default_state().role(), role);
        assert_eq!(role.default_state().metadata(), role.metadata());
    }
}

#[test]
fn default_field_values() {
    assert_eq!(Role::Veteran.default_state(), RoleState::Veteran(Veteran { alerts_remaining: 1 }));
    assert_eq!(
        Role::Vigilante.default_state(),
        RoleState::Vigilante(Vigilante { bullets_remaining: 1, killed_townie: false })
    );
    assert_eq!(Role::TrueWildcard.default_state(), wildcard(Role::TrueWildcard));
    assert_eq!(Role::Doctor.default_state(), RoleState::Doctor);
    assert_eq!(Veteran::default().alerts_remaining, 1);
    assert_eq!(TrueWildcard::default().role, Role::TrueWildcard);
}

#[test]
fn metadata_values() {
    assert_eq!(
        Role::TrueWildcard.metadata(),
        RoleMetadata { faction: Faction::Neutral, defense: 0, maximum_count: None }
    );
    assert_eq!(
        Role::Godfather.metadata(),
        RoleMetadata { faction: Faction::Mafia, defense: 1, maximum_count: Some(1) }
    );
    assert_eq!(Role::Doctor.metadata().faction, Faction::Town);
}

#[test]
fn self_target_is_noop() {
    let mut game = one_player_game(wildcard(Role::TrueWildcard), true, vec![Role::Doctor]);
    let p = PlayerReference::new(&game, 0).unwrap();
    TrueWildcard { role: Role::TrueWildcard }.become_role(&mut game, p);
    wildcard(Role::TrueWildcard).on_phase_start(&mut game, p, PhaseType::Night);
    assert_eq!(p.role_state(&game), wildcard(Role::TrueWildcard));
    assert!(game.outbox.is_empty());
}

#[test]
fn transformation_succeeds_when_enabled() {
    let mut game = one_player_game(wildcard(Role::Doctor), true, vec![Role::Sheriff, Role::Doctor]);
    let p = PlayerReference::new(&game, 0).unwrap();
    let state = p.role_state(&game);
    state.on_phase_start(&mut game, p, PhaseType::Night);
    assert_eq!(p.role_state(&game), Role::Doctor.default_state());
    assert_eq!(p.role_state(&game).metadata().faction, Faction::Town);
    assert!(game.outbox.is_empty());
}

#[test]
fn transformation_into_field_role_gets_defaults() {
    let mut game = one_player_game(wildcard(Role::Vigilante), true, vec![Role::Vigilante]);
    let p = PlayerReference::new(&game, 0).unwrap();
    p.role_state(&game).on_phase_start(&mut game, p, PhaseType::Night);
    assert_eq!(
        p.role_state(&game),
        RoleState::Vigilante(Vigilante { bullets_remaining: 1, killed_townie: false })
    );
}

#[test]
fn transformation_rejected_when_not_enabled() {
    let mut game = one_player_game(wildcard(Role::Doctor), true, vec![Role::Sheriff]);
    let p = PlayerReference::new(&game, 0).unwrap();
    p.role_state(&game).on_phase_start(&mut game, p, PhaseType::Night);
    assert_eq!(p.role_state(&game), wildcard(Role::Doctor));
    assert_eq!(
        game.outbox,
        vec![PrivateMessage {
            recipient: p,
            message: ChatMessageVariant::WildcardConvertFailed { role: Role::Doctor }
        }]
    );
}

#[test]
fn dead_player_is_skipped() {
    for enabled in [vec![Role::Doctor], vec![]] {
        let mut game = one_player_game(wildcard(Role::Doctor), false, enabled);
        let p = PlayerReference::new(&game, 0).unwrap();
        p.role_state(&game).on_phase_start(&mut game, p, PhaseType::Night);
        assert_eq!(p.role_state(&game), wildcard(Role::Doctor));
        assert!(game.outbox.is_empty());
    }
}

#[test]
fn wildcard_waits_outside_the_night() {
    let mut game = one_player_game(wildcard(Role::Doctor), true, vec![Role::Doctor]);
    let p = PlayerReference::new(&game, 0).unwrap();
    p.role_state(&game).on_phase_start(&mut game, p, PhaseType::Discussion);
    assert_eq!(p.role_state(&game), wildcard(Role::Doctor));
    assert!(game.outbox.is_empty());
}

#[test]
fn only_the_actor_changes() {
    let players = vec![
        Player { role_state: RoleState::Sheriff, alive: true },
        Player { role_state: wildcard(Role::Doctor), alive: true },
    ];
    let mut game = Game::new(players, vec![Role::Doctor]);
    let p = PlayerReference::new(&game, 1).unwrap();
    p.role_state(&game).on_phase_start(&mut game, p, PhaseType::Night);
    assert_eq!(game.players[0], Player { role_state: RoleState::Sheriff, alive: true });
    assert_eq!(game.players[1], Player { role_state: RoleState::Doctor, alive: true });
}

#[test]
fn game_start_runs_faction_setups_in_order() {
    let expected = vec![FactionSetup::Mafia, FactionSetup::Cult, FactionSetup::PuppeteerMarionette];
    let mut first = one_player_game(RoleState::Doctor, true, vec![Role::Doctor]);
    let mut second = one_player_game(RoleState::Doctor, true, vec![Role::Doctor]);
    OnGameStart::invoke(&mut first);
    OnGameStart::invoke(&mut second);
    assert_eq!(first.setup_log, expected);
    assert_eq!(second.setup_log, first.setup_log);
    assert_eq!(first.players, vec![Player { role_state: RoleState::Doctor, alive: true }]);
}

#[test]
fn roles_without_handler_do_nothing() {
    for role in ALL_ROLES {
        if role == Role::TrueWildcard {
            continue;
        }
        let state = role.default_state();
        let mut game = one_player_game(state, true, vec![]);
        let p = PlayerReference::new(&game, 0).unwrap();
        for phase in [PhaseType::Night, PhaseType::Briefing, PhaseType::Dusk] {
            state.on_phase_start(&mut game, p, phase);
        }
        assert_eq!(p.role_state(&game), state);
        assert!(game.outbox.is_empty());
        assert!(game.setup_log.is_empty());
    }
}

#[test]
fn eligibility_honours_exclusions() {
    let enabled = vec![Role::Doctor, Role::Sheriff];
    assert!(role_can_generate(Role::Doctor, &enabled, &[]));
    assert!(!role_can_generate(Role::Doctor, &enabled, &[Role::Doctor]));
    assert!(!role_can_generate(Role::Veteran, &enabled, &[]));
    assert!(contains_role(&[Role::Escort, Role::Consort], Role::Consort));
    assert!(!contains_role(&[], Role::Consort));
}

#[test]
fn player_reference_bounds() {
    let game = one_player_game(RoleState::Escort, true, vec![]);
    assert_eq!(PlayerReference::new(&game, 0), Some(PlayerReference { index: 0 }));
    assert_eq!(PlayerReference::new(&game, 1), None);
    assert!(PlayerReference::new(&game, 0).unwrap().alive(&game));
}
