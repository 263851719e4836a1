use snake_sync::codec::{read_directions, read_game_over, read_position};
use snake_sync::grid::{Direction, GridPosition, GRID_HEIGHT, GRID_WIDTH};
use snake_sync::snake::{Ate, Segment, Snake};
use snake_sync::sync::{GameState, Mode, MILLIS_PER_UPDATE};
use snake_sync::ProtocolError;

/// One full tick of the two-peer exchange, frames passed by value.
fn exchange_tick(server: &mut GameState, client: &mut GameState) {
    let frame = server.server_tick();
    client.client_tick_pre();
    let reply = client.client_apply_frame(&frame).expect("valid frame");
    server.server_apply_reply(&reply).expect("valid reply");
}

fn assert_peers_identical(server: &GameState, client: &GameState, tick: usize) {
    assert_eq!(server.player1, client.player1, "entity one differs after tick {}", tick);
    assert_eq!(server.player2, client.player2, "entity two differs after tick {}", tick);
    assert_eq!(server.food, client.food, "food differs after tick {}", tick);
    assert_eq!(server.gameover, client.gameover, "game-over differs after tick {}", tick);
}

#[test]
fn new_game_has_documented_initial_state() {
    let g = GameState::new(Mode::Server, 1, GridPosition::new(10, 5));
    assert_eq!(g.player1.head.pos, GridPosition::new(GRID_WIDTH / 4, GRID_HEIGHT / 4));
    assert_eq!(
        g.player2.head.pos,
        GridPosition::new(GRID_WIDTH / 4, GRID_HEIGHT / 4 + GRID_HEIGHT / 2)
    );
    assert_eq!(g.player1.dir, Direction::Right);
    assert_eq!(g.player2.dir, Direction::Right);
    assert_eq!(g.player1.body.len(), 1);
    assert_eq!(g.player2.body.len(), 1);
    assert_eq!(g.food.pos, GridPosition::new(10, 5));
    assert!(!g.gameover);
    assert_eq!(g.update_nbr, 0);
}

#[test]
fn handshake_frame_carries_the_food_position() {
    let (server, frame) = GameState::new_server(99);
    assert!(0 <= server.food.pos.x && server.food.pos.x < GRID_WIDTH);
    assert!(0 <= server.food.pos.y && server.food.pos.y < GRID_HEIGHT);
    assert_eq!(&frame[0..4], &[0, 0, 0, 0], "only the position bytes are set");
    assert_eq!(GridPosition::from_bytes(&read_position(&frame)), server.food.pos);

    let client = GameState::new_client(3, &frame);
    assert_eq!(client.food.pos, server.food.pos);
    assert_eq!(client.mode, Mode::Client);
}

#[test]
fn two_peer_match_stays_identical_and_grows_once() {
    // Both peers start alike, food three cells ahead of entity one's head
    // on its row. After three ticks entity one has eaten exactly once and
    // the peers' simulations never diverged.
    let food = GridPosition::new(GRID_WIDTH / 4 + 3, GRID_HEIGHT / 4);
    let seed = 1234;
    let mut server = GameState::new(Mode::Server, seed, food);
    let mut client = GameState::new(Mode::Client, seed, food);

    for tick in 1..=3 {
        exchange_tick(&mut server, &mut client);
        assert_peers_identical(&server, &client, tick);
    }

    // Head plus two body segments: length three, one food eaten.
    assert_eq!(server.player1.ate, Some(Ate::Food));
    assert_eq!(server.player1.body.len(), 2);
    assert_eq!(server.player1.head.pos, GridPosition::new(GRID_WIDTH / 4 + 3, GRID_HEIGHT / 4));
    // Entity two ate nothing and kept its length.
    assert_eq!(server.player2.ate, None);
    assert_eq!(server.player2.body.len(), 1);
    // The food moved off the eaten cell's original spot only by relocation;
    // wherever it went, it is on the board.
    assert!(0 <= server.food.pos.x && server.food.pos.x < GRID_WIDTH);
    assert!(0 <= server.food.pos.y && server.food.pos.y < GRID_HEIGHT);
    assert_eq!(server.update_nbr, 3);
    assert_eq!(client.update_nbr, 3);
}

#[test]
fn relocated_food_may_land_under_a_snake() {
    // The relocation draw excludes nothing: over many seeded matches the
    // fresh food sometimes lands on a cell a snake occupies, and that is
    // accepted, not redrawn.
    let mut landed_on_snake = false;
    for seed in 0..20000u64 {
        let food = GridPosition::new(GRID_WIDTH / 4 + 1, GRID_HEIGHT / 4);
        let mut server = GameState::new(Mode::Server, seed, food);
        let frame = server.server_tick();
        assert_eq!(server.player1.ate, Some(Ate::Food));
        assert!(!read_game_over(&frame));

        let new_food = server.food.pos;
        assert!(0 <= new_food.x && new_food.x < GRID_WIDTH);
        assert!(0 <= new_food.y && new_food.y < GRID_HEIGHT);

        let occupied = server
            .player1
            .body
            .iter()
            .chain(server.player2.body.iter())
            .map(|s| s.pos)
            .chain([server.player1.head.pos, server.player2.head.pos]);
        if occupied.into_iter().any(|p| p == new_food) {
            landed_on_snake = true;
            break;
        }
    }
    assert!(landed_on_snake, "no seed put the food under a snake");
}

#[test]
fn self_collision_makes_the_match_terminal() {
    let mut server = GameState::new(Mode::Server, 2, GridPosition::new(0, 0));
    // Replace entity one with a length-three snake about to step onto its
    // own second body segment.
    server.player1 = Snake {
        head: Segment::new(GridPosition::new(5, 5)),
        dir: Direction::Down,
        body: vec![
            Segment::new(GridPosition::new(6, 5)),
            Segment::new(GridPosition::new(5, 6)),
        ],
        ate: None,
        last_update_dir: Direction::Down,
        next_dir: None,
    };

    let frame = server.server_tick();
    assert_eq!(server.player1.ate, Some(Ate::Itself));
    assert!(server.gameover);
    assert!(read_game_over(&frame));

    // The flag propagates: a client that applies this frame is terminal
    // too.
    let mut client = GameState::new(Mode::Client, 2, GridPosition::new(0, 0));
    client.client_tick_pre();
    let _ = client.client_apply_frame(&frame).expect("valid frame");
    assert!(client.gameover);
}

#[test]
fn stale_remote_outcome_is_settled_on_the_next_tick() {
    // The remote entity's consumption from the previous tick is applied at
    // the start of the server's next tick: a stale self-collision turns
    // the match terminal, a stale consumption relocates the food.
    let mut server = GameState::new(Mode::Server, 6, GridPosition::new(0, 0));
    server.player2.ate = Some(Ate::Itself);
    let frame = server.server_tick();
    assert!(server.gameover);
    assert!(read_game_over(&frame));

    let mut server = GameState::new(Mode::Server, 6, GridPosition::new(0, 0));
    server.player2.ate = Some(Ate::Food);
    let _ = server.server_tick();
    assert!(!server.gameover);
    assert!(0 <= server.food.pos.x && server.food.pos.x < GRID_WIDTH);
    assert!(0 <= server.food.pos.y && server.food.pos.y < GRID_HEIGHT);
}

#[test]
fn invalid_reply_is_fatal_and_leaves_the_server_unchanged() {
    let mut server = GameState::new(Mode::Server, 8, GridPosition::new(3, 3));
    let _ = server.server_tick();

    let before_p1 = server.player1.clone();
    let before_p2 = server.player2.clone();
    let before_food = server.food.clone();
    let before_over = server.gameover;
    let before_nbr = server.update_nbr;

    let bad_reply: [u8; 8] = [0, 7, 0, 0, 0, 0, 0, 0];
    assert_eq!(server.server_apply_reply(&bad_reply), Err(ProtocolError::InvalidDirectionByte));
    assert_eq!(server.player1, before_p1);
    assert_eq!(server.player2, before_p2);
    assert_eq!(server.food, before_food);
    assert_eq!(server.gameover, before_over);
    assert_eq!(server.update_nbr, before_nbr);
}

#[test]
fn invalid_frame_is_fatal_and_leaves_the_client_unchanged() {
    let mut client = GameState::new(Mode::Client, 8, GridPosition::new(3, 3));
    client.client_tick_pre();
    let before_p1 = client.player1.clone();
    let before_food = client.food.clone();

    let bad_frame: [u8; 8] = [1, 0, 255, 0, 0, 9, 0, 9];
    assert_eq!(client.client_apply_frame(&bad_frame), Err(ProtocolError::InvalidDirectionByte));
    assert_eq!(client.player1, before_p1);
    assert_eq!(client.food, before_food);
    assert!(!client.gameover);
}

#[test]
fn client_adopts_food_and_gameover_from_the_frame() {
    let mut client = GameState::new(Mode::Client, 8, GridPosition::new(3, 3));
    client.client_tick_pre();

    // A frame from the server: game over, entity one keeps moving right,
    // food moved to (12, 1).
    let frame: [u8; 8] = [1, 3, 3, 4, 0, 12, 0, 1];
    let reply = client.client_apply_frame(&frame).expect("valid frame");

    assert!(client.gameover);
    assert_eq!(client.food.pos, GridPosition::new(12, 1));
    // The remote entity moved on under its wire directions.
    assert_eq!(client.player1.dir, Direction::Right);

    // The reply echoes the frame outside the direction slots and carries
    // the local entity's triple inside them.
    assert_eq!(reply[0], frame[0]);
    assert_eq!(&reply[4..8], &frame[4..8]);
    let (dir, last, next) = read_directions(&reply).unwrap();
    assert_eq!(dir, client.player2.dir);
    assert_eq!(last, client.player2.last_update_dir);
    assert_eq!(next, client.player2.next_dir);
}

#[test]
fn mode_labels_name_the_roles() {
    assert_eq!(Mode::Server.label(), "Server");
    assert_eq!(Mode::Client.label(), "Client");
    assert_eq!(MILLIS_PER_UPDATE, 125, "eight updates per second");
}
