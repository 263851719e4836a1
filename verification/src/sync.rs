//! The aggregate simulation state — both snakes, the shared food, the
//! game-over flag — and the per-tick, role-asymmetric exchange steps.
//!
//! The protocol's authority invariant: the server alone relocates food and
//! raises the game-over flag; the client alone decides its own entity's
//! directions and echoes them each tick. Each peer simulates the remote
//! entity locally from the directions the remote peer supplies, so both
//! update rules must be deterministic and run in the same order. Nothing
//! in the frame detects the peers' update counts drifting apart.

use vstd::prelude::*;

use crate::codec::{
    add_position, encode_frame, frame_dirs_valid, frame_gameover, frame_position, is_game_over,
    read_directions, read_game_over, read_position, with_directions, with_position,
    write_directions, zero_frame,
};
use crate::grid::{Direction, GridPosition, GRID_HEIGHT, GRID_WIDTH};
use crate::snake::{initial_snake, snake_update, Ate, Food, Player, Snake, SnakeView, gate};
use crate::ProtocolError;
use oorandom::Rand32;

verus! {

/// Which peer this state belongs to. The role is fixed for the whole
/// match: the server owns entity one, the client entity two.
#[derive(Clone, Copy, PartialEq, Eq, Structural, Debug)]
pub enum Mode {
    Client,
    Server,
}

impl Mode {
    /// The role's name, for the surrounding display layers.
    pub fn label(&self) -> (r: &'static str)
        ensures
            *self is Client ==> r@ == "Client"@,
            *self is Server ==> r@ == "Server"@,
    {
        match self {
            Mode::Client => "Client",
            Mode::Server => "Server",
        }
    }
}

/// Milliseconds between tick boundaries: eight updates per second.
pub const MILLIS_PER_UPDATE: u64 = 125;

/// The mathematical state of a whole match as one peer sees it. The
/// generator that draws food positions is deliberately absent: no contract
/// depends on its state.
#[verifier::ext_equal]
pub ghost struct GameView {
    pub player1: SnakeView,
    pub player2: SnakeView,
    pub mode: Mode,
    pub food: GridPosition,
    pub gameover: bool,
    pub update_nbr: u128,
}

/// Where entity one starts: a quarter across and a quarter down the board.
pub open spec fn player1_start() -> GridPosition {
    GridPosition { x: (GRID_WIDTH / 4) as i16, y: (GRID_HEIGHT / 4) as i16 }
}

/// Where entity two starts: a quarter across, three quarters down.
pub open spec fn player2_start() -> GridPosition {
    GridPosition { x: (GRID_WIDTH / 4) as i16, y: (GRID_HEIGHT / 4 + GRID_HEIGHT / 2) as i16 }
}

/// A freshly constructed match: both snakes in their start rows moving
/// right, the given food, the match running, no tick applied yet.
pub open spec fn is_initial_state(g: GameView, mode: Mode, food: GridPosition) -> bool {
    &&& g.player1 == initial_snake(player1_start())
    &&& g.player2 == initial_snake(player2_start())
    &&& g.mode == mode
    &&& g.food == food
    &&& !g.gameover
    &&& g.update_nbr == 0
}

/// One peer's match state. Exactly one worker drives it; the display and
/// input layers only read completed snapshots and hand in direction
/// requests.
pub struct GameState {
    /// The entity the server owns.
    pub player1: Snake,
    /// The entity the client owns.
    pub player2: Snake,
    /// This peer's fixed role.
    pub mode: Mode,
    /// The one shared food item. Only a server relocates it.
    pub food: Food,
    /// Terminal flag; once raised it is never reset. Only a server raises
    /// it from a collision; a client adopts it from the frame.
    pub gameover: bool,
    /// Draws food positions; used by the server role only.
    pub rng: Rand32,
    /// How many ticks this peer has applied.
    pub update_nbr: u128,
}

impl View for GameState {
    type V = GameView;

    open spec fn view(&self) -> GameView {
        GameView {
            player1: self.player1@,
            player2: self.player2@,
            mode: self.mode,
            food: self.food.pos,
            gameover: self.gameover,
            update_nbr: self.update_nbr,
        }
    }
}

impl GameState {
    pub open spec fn wf(self) -> bool {
        &&& self@.player1.wf()
        &&& self@.player2.wf()
    }

    /// A match at its start, with the given food position. The server
    /// normally draws the position itself (`new_server`) and the client
    /// takes it from the handshake frame (`new_client`); this constructor
    /// is the common core of both.
    pub fn new(mode: Mode, seed: u64, food_pos: GridPosition) -> (r: GameState)
        ensures
            is_initial_state(r@, mode, food_pos),
            r.wf(),
    {
        let snake_pos_1 = GridPosition::new(GRID_WIDTH / 4, GRID_HEIGHT / 4);
        let snake_pos_2 = GridPosition::new(GRID_WIDTH / 4, GRID_HEIGHT / 4 + GRID_HEIGHT / 2);
        GameState {
            player1: Snake::new(snake_pos_1, Player::One),
            player2: Snake::new(snake_pos_2, Player::Two),
            mode,
            food: Food::new(food_pos),
            gameover: false,
            rng: Rand32::new(seed),
            update_nbr: 0,
        }
    }

    /// Server start of a match: draw the first food position — from the
    /// whole grid — and build the one-shot handshake frame that carries it
    /// in an otherwise zeroed buffer.
    pub fn new_server(seed: u64) -> (r: (GameState, [u8; 8]))
        ensures
            is_initial_state(r.0@, Mode::Server, r.0@.food),
            r.0@.food.in_grid(),
            r.0.wf(),
            r.1@ == with_position(zero_frame(), r.0@.food.bytes_spec()),
    {
        let mut state = GameState::new(Mode::Server, seed, GridPosition::new(0, 0));
        let food_pos = GridPosition::random(&mut state.rng, GRID_WIDTH, GRID_HEIGHT);
        state.food = Food::new(food_pos);
        let mut buffer: [u8; 8] = [0; 8];
        assert(buffer@ =~= zero_frame());
        let frame = add_position(&mut buffer, &state.food.to_bytes());
        (state, frame)
    }

    /// Client start of a match: adopt the food position the handshake
    /// frame carries; every other field of that frame is undefined and
    /// ignored.
    pub fn new_client(seed: u64, first_frame: &[u8; 8]) -> (r: GameState)
        ensures
            is_initial_state(r@, Mode::Client, frame_position(first_frame@)),
            r.wf(),
    {
        let pos = read_position(first_frame);
        let gp = GridPosition::from_bytes(&pos);
        GameState::new(Mode::Client, seed, gp)
    }

    /// Applies a direction request from the local input layer, through the
    /// gating rule, to the locally-owned entity. The remote entity is
    /// never steered locally.
    pub fn request_direction(&mut self, dir: Direction)
        ensures
            old(self)@.mode is Server ==> final(self)@ == (GameView {
                player1: gate(old(self)@.player1, dir),
                ..old(self)@
            }),
            old(self)@.mode is Client ==> final(self)@ == (GameView {
                player2: gate(old(self)@.player2, dir),
                ..old(self)@
            }),
    {
        match self.mode {
            Mode::Server => self.player1.request_direction(dir),
            Mode::Client => self.player2.request_direction(dir),
        }
    }

    /// Server half-tick before the exchange: update the locally-owned
    /// entity, apply the consumption effects — of that update, and of the
    /// remote entity's update from the previous tick — and build the frame
    /// to send. A consumed food is relocated to a random cell of the whole
    /// grid, occupied cells not excluded; if both entities consumed, the
    /// remote entity's relocation is drawn last and wins. A self-collision
    /// of either entity makes the match terminal.
    pub fn server_tick(&mut self) -> (frame: [u8; 8])
        requires
            old(self).wf(),
            old(self)@.mode is Server,
            !old(self)@.gameover,
        ensures
            final(self).wf(),
            ({
                let p1 = snake_update(old(self)@.player1, old(self)@.food);
                let over = p1.ate == Some(Ate::Itself) || old(self)@.player2.ate == Some(Ate::Itself);
                &&& final(self)@.player1 == p1
                &&& final(self)@.player2 == old(self)@.player2
                &&& final(self)@.mode == old(self)@.mode
                &&& final(self)@.gameover == over
                &&& final(self)@.update_nbr == old(self)@.update_nbr
                &&& ((p1.ate != Some(Ate::Food) && old(self)@.player2.ate != Some(Ate::Food))
                    ==> final(self)@.food == old(self)@.food)
                &&& ((p1.ate == Some(Ate::Food) || old(self)@.player2.ate == Some(Ate::Food))
                    ==> final(self)@.food.in_grid())
                &&& frame@ == encode_frame(over, p1.dir, p1.last_update_dir, p1.next_dir, final(self)@.food)
            }),
    {
        let mut buffer: [u8; 8] = [0; 8];
        assert(buffer@ =~= zero_frame());

        self.player1.update(&self.food);

        if let Some(ate) = self.player1.ate {
            match ate {
                Ate::Food => {
                    let new_food_pos = GridPosition::random(&mut self.rng, GRID_WIDTH, GRID_HEIGHT);
                    self.food.pos = new_food_pos;
                },
                Ate::Itself => {
                    self.gameover = true;
                },
            }
        }

        // The remote entity's outcome is the one its update recorded last
        // tick, after the reply arrived; its consumption is settled here,
        // one tick later, and overwrites the local entity's relocation.
        if let Some(ate) = self.player2.ate {
            match ate {
                Ate::Food => {
                    let new_food_pos = GridPosition::random(&mut self.rng, GRID_WIDTH, GRID_HEIGHT);
                    self.food.pos = new_food_pos;
                },
                Ate::Itself => {
                    self.gameover = true;
                },
            }
        }

        let _ = add_position(&mut buffer, &self.food.to_bytes());
        let _ = is_game_over(&mut buffer, self.gameover);
        let frame = write_directions(
            &mut buffer,
            self.player1.dir,
            self.player1.last_update_dir,
            self.player1.next_dir,
        );
        frame
    }

    /// Server half-tick after the exchange: decode the client's reply as
    /// the remote entity's direction triple — a reply's food and game-over
    /// bytes carry no authority and are ignored — apply it, and update the
    /// remote entity against the possibly just-relocated food. A reply
    /// whose strict direction slots are invalid is fatal to the tick and
    /// leaves the state untouched.
    pub fn server_apply_reply(&mut self, reply: &[u8; 8]) -> (r: Result<(), ProtocolError>)
        requires
            old(self).wf(),
            old(self)@.mode is Server,
            old(self)@.update_nbr < u128::MAX,
        ensures
            final(self).wf(),
            r is Ok <==> frame_dirs_valid(reply@),
            r is Err ==> final(self)@ == old(self)@,
            r is Err ==> r == Err::<(), ProtocolError>(ProtocolError::InvalidDirectionByte),
            r is Ok ==> final(self)@ == (GameView {
                player2: snake_update(
                    SnakeView {
                        dir: Direction::of_byte_spec(reply[1]).unwrap(),
                        last_update_dir: Direction::of_byte_spec(reply[2]).unwrap(),
                        next_dir: Direction::of_byte_spec(reply[3]),
                        ..old(self)@.player2
                    },
                    old(self)@.food,
                ),
                update_nbr: (old(self)@.update_nbr + 1) as u128,
                ..old(self)@
            }),
    {
        match read_directions(reply) {
            Err(e) => Err(e),
            Ok((dir, last_update_dir, next_dir)) => {
                self.player2.dir = dir;
                self.player2.last_update_dir = last_update_dir;
                self.player2.next_dir = next_dir;
                self.player2.update(&self.food);
                self.update_nbr = self.update_nbr + 1;
                Ok(())
            },
        }
    }

    /// Client half-tick before the exchange: update the locally-owned
    /// entity against the last-known food. Consumption has no local effect
    /// on the food — the server alone relocates it, and this peer learns
    /// the new position from the next frame.
    pub fn client_tick_pre(&mut self)
        requires
            old(self).wf(),
            old(self)@.mode is Client,
            !old(self)@.gameover,
        ensures
            final(self).wf(),
            final(self)@ == (GameView {
                player2: snake_update(old(self)@.player2, old(self)@.food),
                ..old(self)@
            }),
    {
        self.player2.update(&self.food);
    }

    /// Client half-tick after the exchange: decode the server's frame,
    /// apply the remote entity's direction triple and update that entity
    /// against the food as known before this frame arrived, then adopt the
    /// frame's food position and game-over flag as authoritative, and
    /// build the reply. The reply is the received frame with the direction
    /// slots overwritten by the locally-owned entity's triple; the server
    /// ignores its other bytes. A frame whose strict direction slots are
    /// invalid is fatal to the tick and leaves the state untouched.
    pub fn client_apply_frame(&mut self, frame: &[u8; 8]) -> (r: Result<[u8; 8], ProtocolError>)
        requires
            old(self).wf(),
            old(self)@.mode is Client,
            old(self)@.update_nbr < u128::MAX,
        ensures
            final(self).wf(),
            r is Ok <==> frame_dirs_valid(frame@),
            r is Err ==> final(self)@ == old(self)@,
            r is Err ==> r == Err::<[u8; 8], ProtocolError>(ProtocolError::InvalidDirectionByte),
            r matches Ok(reply) ==> ({
                &&& final(self)@ == (GameView {
                    player1: snake_update(
                        SnakeView {
                            dir: Direction::of_byte_spec(frame[1]).unwrap(),
                            last_update_dir: Direction::of_byte_spec(frame[2]).unwrap(),
                            next_dir: Direction::of_byte_spec(frame[3]),
                            ..old(self)@.player1
                        },
                        old(self)@.food,
                    ),
                    food: frame_position(frame@),
                    gameover: frame_gameover(frame@),
                    update_nbr: (old(self)@.update_nbr + 1) as u128,
                    ..old(self)@
                })
                &&& reply@ == with_directions(
                    frame@,
                    final(self)@.player2.dir,
                    final(self)@.player2.last_update_dir,
                    final(self)@.player2.next_dir,
                )
            }),
    {
        let pos = read_position(frame);
        let gp = GridPosition::from_bytes(&pos);
        let (dir, last_update_dir, next_dir) = match read_directions(frame) {
            Err(e) => {
                return Err(e);
            },
            Ok(t) => t,
        };

        self.player1.dir = dir;
        self.player1.last_update_dir = last_update_dir;
        self.player1.next_dir = next_dir;
        self.player1.update(&self.food);
        self.food.pos = gp;
        self.gameover = read_game_over(frame);

        let mut buffer: [u8; 8] = *frame;
        let reply = write_directions(
            &mut buffer,
            self.player2.dir,
            self.player2.last_update_dir,
            self.player2.next_dir,
        );
        self.update_nbr = self.update_nbr + 1;
        Ok(reply)
    }
}

} // verus!
