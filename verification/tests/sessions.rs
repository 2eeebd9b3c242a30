//! Tests of the session manager and the per-session state machine.

use stellar_dynasties::Error;
use stellar_dynasties::GameState;
use stellar_dynasties::PlotAction;
use stellar_dynasties::StellarDynasties;

const ADMIN: u64 = 900;
const HUB: u64 = 901;
const PLAYER1: u64 = 100;
const PLAYER2: u64 = 200;

fn setup() -> StellarDynasties {
    StellarDynasties::new(ADMIN, HUB)
}

#[test]
fn test_start_session() {
    let mut m = setup();

    m.start_session(1u32, PLAYER1, PLAYER2, 1000i128, 1000i128).unwrap();

    let game = m.get_game(1u32).unwrap();
    assert_eq!(game.player1, PLAYER1);
    assert_eq!(game.player2, PLAYER2);
    assert_eq!(game.player1_prestige, 50);
    assert_eq!(game.player2_prestige, 50);
    assert_eq!(game.round, 1);
    assert!(!game.ended);
}

#[test]
fn test_commit_plot() {
    let mut m = setup();

    m.start_session(1u32, PLAYER1, PLAYER2, 1000i128, 1000i128).unwrap();

    // Create a plot hash
    let plot_hash = [1u8; 32];
    m.commit_plot(1u32, PLAYER1, plot_hash).unwrap();

    let game = m.get_game(1u32).unwrap();
    assert!(game.player1_plot_hash.is_some());
    assert!(game.player2_plot_hash.is_none());
}

#[test]
fn test_full_round() {
    let mut m = setup();

    m.start_session(1u32, PLAYER1, PLAYER2, 1000i128, 1000i128).unwrap();

    // Both players commit plots
    let hash1 = [1u8; 32];
    let hash2 = [2u8; 32];
    m.commit_plot(1u32, PLAYER1, hash1).unwrap();
    m.commit_plot(1u32, PLAYER2, hash2).unwrap();

    // Both players verify plots (action 0 = assassination, action 1 = bribery)
    let proof1: Vec<u8> = vec![10u8; 64];
    let proof2: Vec<u8> = vec![20u8; 64];
    m.verify_plot(1u32, PLAYER1, 0u32, &proof1, hash1).unwrap();
    m.verify_plot(1u32, PLAYER2, 1u32, &proof2, hash2).unwrap();

    // Resolve round: Assassination(0) beats Bribery(1) => player1 wins
    let game = m.resolve_round(1u32).unwrap();
    assert_eq!(game.round, 2); // Advanced to round 2
    assert!(game.player1_prestige > 50); // Player1 gained prestige
    assert!(game.player2_prestige < 50); // Player2 lost prestige
}

/// Run one full commit-verify-resolve round in an existing session:
/// player one plays Assassination, player two Bribery.
fn play_assassination_beats_bribery_round(m: &mut StellarDynasties, id: u32) -> GameState {
    let hash1 = [1u8; 32];
    let hash2 = [2u8; 32];
    m.commit_plot(id, PLAYER1, hash1).unwrap();
    m.commit_plot(id, PLAYER2, hash2).unwrap();
    let proof_bytes: Vec<u8> = vec![10u8; 64];
    m.verify_plot(id, PLAYER1, 0u32, &proof_bytes, hash1).unwrap();
    m.verify_plot(id, PLAYER2, 1u32, &proof_bytes, hash2).unwrap();
    m.resolve_round(id).unwrap()
}

#[test]
fn full_round_exact_scores() {
    let mut m = setup();
    m.start_session(1u32, PLAYER1, PLAYER2, 1000i128, 1000i128).unwrap();

    let game = play_assassination_beats_bribery_round(&mut m, 1u32);
    assert_eq!(game.player1_prestige, 80);
    assert_eq!(game.player2_prestige, 40);
    assert_eq!(game.round, 2);
    assert!(!game.ended);
    // Per-round fields are cleared for the next round.
    assert!(game.player1_plot_hash.is_none());
    assert!(game.player2_plot_hash.is_none());
    assert!(!game.player1_plot_verified);
    assert!(!game.player2_plot_verified);
    assert!(game.player1_action.is_none());
    assert!(game.player2_action.is_none());
    assert!(game.winner.is_none());
}

#[test]
fn three_rounds_end_with_player1_winning() {
    let mut m = setup();
    m.start_session(1u32, PLAYER1, PLAYER2, 1000i128, 1000i128).unwrap();

    let game = play_assassination_beats_bribery_round(&mut m, 1u32);
    assert_eq!((game.player1_prestige, game.player2_prestige), (80, 40));
    assert!(!game.ended);
    let game = play_assassination_beats_bribery_round(&mut m, 1u32);
    assert_eq!((game.player1_prestige, game.player2_prestige), (110, 30));
    assert!(!game.ended);
    let game = play_assassination_beats_bribery_round(&mut m, 1u32);
    assert_eq!((game.player1_prestige, game.player2_prestige), (140, 20));
    assert!(game.ended);
    assert_eq!(game.round, 3);
    assert_eq!(game.winner, Some(PLAYER1));

    // The ended session accepts no further operation.
    assert_eq!(m.commit_plot(1u32, PLAYER1, [1u8; 32]), Err(Error::SessionEnded));
    let proof_bytes: Vec<u8> = Vec::new();
    assert_eq!(
        m.verify_plot(1u32, PLAYER1, 0u32, &proof_bytes, [1u8; 32]),
        Err(Error::SessionEnded)
    );
    assert_eq!(m.resolve_round(1u32).unwrap_err(), Error::SessionEnded);
}

#[test]
fn tie_break_selects_player1() {
    let mut m = setup();
    m.start_session(1u32, PLAYER1, PLAYER2, 0i128, 0i128).unwrap();

    // Three drawn rounds: both play Bribery every time, +5 each per round.
    for _ in 0..3 {
        let hash1 = [3u8; 32];
        let hash2 = [4u8; 32];
        m.commit_plot(1u32, PLAYER1, hash1).unwrap();
        m.commit_plot(1u32, PLAYER2, hash2).unwrap();
        let proof_bytes: Vec<u8> = Vec::new();
        m.verify_plot(1u32, PLAYER1, 1u32, &proof_bytes, hash1).unwrap();
        m.verify_plot(1u32, PLAYER2, 1u32, &proof_bytes, hash2).unwrap();
        m.resolve_round(1u32).unwrap();
    }
    let game = m.get_game(1u32).unwrap();
    assert_eq!(game.player1_prestige, 65);
    assert_eq!(game.player2_prestige, 65);
    assert!(game.ended);
    assert_eq!(game.winner, Some(PLAYER1));
}

#[test]
fn start_session_same_player_rejected() {
    let mut m = setup();
    assert_eq!(
        m.start_session(1u32, PLAYER1, PLAYER1, 1000i128, 1000i128),
        Err(Error::SamePlayer)
    );
    // No session was created.
    assert_eq!(m.get_game(1u32).unwrap_err(), Error::SessionNotFound);
}

#[test]
fn start_session_duplicate_id_rejected() {
    let mut m = setup();
    m.start_session(1u32, PLAYER1, PLAYER2, 1000i128, 1000i128).unwrap();
    assert_eq!(
        m.start_session(1u32, PLAYER1, PLAYER2, 500i128, 500i128),
        Err(Error::AlreadyStarted)
    );
    // The stored session keeps its original stakes.
    let game = m.get_game(1u32).unwrap();
    assert_eq!(game.player1_points, 1000);
    assert_eq!(game.player2_points, 1000);
}

#[test]
fn operations_on_missing_session_rejected() {
    let mut m = setup();
    assert_eq!(m.get_game(7u32).unwrap_err(), Error::SessionNotFound);
    assert_eq!(m.commit_plot(7u32, PLAYER1, [1u8; 32]), Err(Error::SessionNotFound));
    let proof_bytes: Vec<u8> = Vec::new();
    assert_eq!(
        m.verify_plot(7u32, PLAYER1, 0u32, &proof_bytes, [1u8; 32]),
        Err(Error::SessionNotFound)
    );
    assert_eq!(m.resolve_round(7u32).unwrap_err(), Error::SessionNotFound);
}

#[test]
fn commit_by_stranger_rejected() {
    let mut m = setup();
    m.start_session(1u32, PLAYER1, PLAYER2, 1000i128, 1000i128).unwrap();
    assert_eq!(m.commit_plot(1u32, 999u64, [1u8; 32]), Err(Error::NotPlayer));
    let proof_bytes: Vec<u8> = Vec::new();
    assert_eq!(
        m.verify_plot(1u32, 999u64, 0u32, &proof_bytes, [1u8; 32]),
        Err(Error::NotPlayer)
    );
}

#[test]
fn commit_twice_rejected_and_first_kept() {
    let mut m = setup();
    m.start_session(1u32, PLAYER1, PLAYER2, 1000i128, 1000i128).unwrap();
    let first = [1u8; 32];
    let second = [9u8; 32];
    m.commit_plot(1u32, PLAYER1, first).unwrap();
    assert_eq!(m.commit_plot(1u32, PLAYER1, second), Err(Error::AlreadyCommitted));
    // The first commitment is unchanged: verifying against it succeeds,
    // while the rejected second hash does not match.
    let proof_bytes: Vec<u8> = Vec::new();
    assert_eq!(
        m.verify_plot(1u32, PLAYER1, 0u32, &proof_bytes, second),
        Err(Error::InvalidProof)
    );
    assert_eq!(m.verify_plot(1u32, PLAYER1, 0u32, &proof_bytes, first), Ok(true));
}

#[test]
fn verify_without_commitment_rejected() {
    let mut m = setup();
    m.start_session(1u32, PLAYER1, PLAYER2, 1000i128, 1000i128).unwrap();
    let proof_bytes: Vec<u8> = Vec::new();
    assert_eq!(
        m.verify_plot(1u32, PLAYER1, 0u32, &proof_bytes, [1u8; 32]),
        Err(Error::PlotNotCommitted)
    );
}

#[test]
fn verify_invalid_action_rejected() {
    let mut m = setup();
    m.start_session(1u32, PLAYER1, PLAYER2, 1000i128, 1000i128).unwrap();
    m.commit_plot(1u32, PLAYER1, [1u8; 32]).unwrap();
    let proof_bytes: Vec<u8> = Vec::new();
    assert_eq!(
        m.verify_plot(1u32, PLAYER1, 3u32, &proof_bytes, [1u8; 32]),
        Err(Error::InvalidAction)
    );
}

#[test]
fn verify_wrong_commitment_rejected() {
    let mut m = setup();
    m.start_session(1u32, PLAYER1, PLAYER2, 1000i128, 1000i128).unwrap();
    m.commit_plot(1u32, PLAYER1, [1u8; 32]).unwrap();
    let proof_bytes: Vec<u8> = Vec::new();
    assert_eq!(
        m.verify_plot(1u32, PLAYER1, 0u32, &proof_bytes, [2u8; 32]),
        Err(Error::InvalidProof)
    );
    // The plot stays unverified.
    let game = m.get_game(1u32).unwrap();
    assert!(!game.player1_plot_verified);
    assert!(game.player1_action.is_none());
}

#[test]
fn resolve_before_both_verified_rejected() {
    let mut m = setup();
    m.start_session(1u32, PLAYER1, PLAYER2, 1000i128, 1000i128).unwrap();
    assert_eq!(m.resolve_round(1u32).unwrap_err(), Error::PlayersNotReady);
    let hash1 = [1u8; 32];
    m.commit_plot(1u32, PLAYER1, hash1).unwrap();
    m.commit_plot(1u32, PLAYER2, [2u8; 32]).unwrap();
    assert_eq!(m.resolve_round(1u32).unwrap_err(), Error::PlayersNotReady);
    let proof_bytes: Vec<u8> = Vec::new();
    m.verify_plot(1u32, PLAYER1, 0u32, &proof_bytes, hash1).unwrap();
    // One verified flag is not enough.
    assert_eq!(m.resolve_round(1u32).unwrap_err(), Error::PlayersNotReady);
}

#[test]
fn reverify_overwrites_revealed_action() {
    // The commitment slot stays filled until resolution, so a player may
    // verify again with the same commitment; the latest revealed action
    // stands.
    let mut m = setup();
    m.start_session(1u32, PLAYER1, PLAYER2, 1000i128, 1000i128).unwrap();
    let hash1 = [1u8; 32];
    let hash2 = [2u8; 32];
    m.commit_plot(1u32, PLAYER1, hash1).unwrap();
    m.commit_plot(1u32, PLAYER2, hash2).unwrap();
    let proof_bytes: Vec<u8> = Vec::new();
    m.verify_plot(1u32, PLAYER1, 0u32, &proof_bytes, hash1).unwrap();
    m.verify_plot(1u32, PLAYER1, 2u32, &proof_bytes, hash1).unwrap();
    m.verify_plot(1u32, PLAYER2, 0u32, &proof_bytes, hash2).unwrap();
    // Rebellion (the re-revealed action) beats Assassination.
    let game = m.resolve_round(1u32).unwrap();
    assert_eq!(game.player1_prestige, 70);
    assert_eq!(game.player2_prestige, 40);
}

#[test]
fn prestige_floors_at_zero_and_knockout_ends_session() {
    // A state machine step on a directly built low-prestige session:
    // the loser's prestige floors at zero and the zero ends the session.
    let mut game = GameState {
        player1: PLAYER1,
        player2: PLAYER2,
        player1_points: 0,
        player2_points: 0,
        player1_prestige: 40,
        player2_prestige: 5,
        player1_plot_hash: Some([1u8; 32]),
        player2_plot_hash: Some([2u8; 32]),
        player1_plot_verified: true,
        player2_plot_verified: true,
        player1_action: Some(PlotAction::Assassination),
        player2_action: Some(PlotAction::Bribery),
        round: 1,
        ended: false,
        winner: None,
    };
    game.resolve_round().unwrap();
    assert_eq!(game.player1_prestige, 70);
    assert_eq!(game.player2_prestige, 0);
    assert!(game.ended);
    assert_eq!(game.round, 1);
    assert_eq!(game.winner, Some(PLAYER1));
}

#[test]
fn admin_and_hub_configuration() {
    let mut m = setup();
    assert_eq!(m.get_admin(), ADMIN);
    assert_eq!(m.get_hub(), HUB);
    m.set_admin(902u64);
    assert_eq!(m.get_admin(), 902);
    assert_eq!(m.get_hub(), HUB);
    m.set_hub(903u64);
    assert_eq!(m.get_hub(), 903);
    assert_eq!(m.get_admin(), 902);
}
