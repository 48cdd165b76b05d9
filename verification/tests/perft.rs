use ml_chess::chess::board::GameState;

fn perft(state: &GameState, depth: u32) -> u64 {
    if depth == 0 {
        return 1;
    }
    let mut nodes = 0;
    for mv in state.legal_moves() {
        let mut next = GameState::from_position(state.position.duplicate());
        next.apply_move(mv).expect("legal move");
        nodes += perft(&next, depth - 1);
    }
    nodes
}

fn perft_count(depth: u32) -> u64 {
    perft(&GameState::new(), depth)
}

#[test]
fn perft_depth_1() {
    assert_eq!(perft_count(1), 20);
}

#[test]
fn perft_depth_2() {
    assert_eq!(perft_count(2), 400);
}

#[test]
fn perft_depth_3() {
    assert_eq!(perft_count(3), 8902);
}

#[test]
fn perft_from_a_position_with_castling_and_en_passant() {
    let state = GameState::from_fen("r3k2r/p1ppqpb1/bn2pnp1/3PN3/1p2P3/2N2Q1p/PPPBBPPP/R3K2R w KQkq - 0 1")
        .expect("valid FEN");
    assert_eq!(perft(&state, 1), 48);
    assert_eq!(perft(&state, 2), 2039);
}
