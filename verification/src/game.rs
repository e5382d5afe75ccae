use vstd::prelude::*;

use crate::board::BOARD_HEIGHT;
use crate::board::BOARD_WIDTH;
use crate::food::Food;
use crate::geometry::Vector2;
use crate::render::GlyphColor;
use crate::render::RenderCmd;
use crate::snake::Snake;
use crate::snake::SnakeModel;

verus! {

#[verifier::external_type_specification]
#[verifier::external_body]
pub struct ExThreadRng(rand::rngs::ThreadRng);

/// Relies on rand::thread_rng: a handle to the thread-local generator.
#[verifier::external_body]
fn fresh_rng() -> rand::rngs::ThreadRng {
    rand::thread_rng()
}

/// Relies on rand's Rng::gen_range over a half-open i32 range: it panics only
/// on an empty range and returns a value inside the range.
#[verifier::external_body]
fn gen_range_i32(rng: &mut rand::rngs::ThreadRng, low: i32, high: i32) -> (r: i32)
    requires
        low < high,
    ensures
        low <= r < high,
{
    rand::Rng::gen_range(rng, low..high)
}

/// Which of the game's keys are held down during one tick.
#[derive(PartialEq, Eq, Structural, Clone, Copy, Debug)]
pub struct GameInput {
    pub up: bool,
    pub down: bool,
    pub left: bool,
    pub right: bool,
    pub quit: bool,
    pub grow: bool,
}

/// What one tick of the active screen asks of the driving loop: keep going,
/// push the losing screen with the final score, start a fresh session in
/// place of everything, or end the program.
#[derive(PartialEq, Eq, Structural, Clone, Copy, Debug)]
pub enum Transition {
    Continue,
    PushLose(u32),
    ReplaceWithNewGame,
    Quit,
}

/// A cell the food may be put on: uniform over [1, width) x [1, height);
/// row 0 and column 0 are deliberately left out.
pub open spec fn food_cell(v: Vector2) -> bool {
    1 <= v.x < BOARD_WIDTH && 1 <= v.y < BOARD_HEIGHT
}

/// The velocity after the four direction keys are read, in the order up,
/// down, left, right. Each held key overwrites both axes, so diagonal
/// movement is impossible and the last key checked wins when several are held
/// at once.
pub open spec fn velocity_from_input(v: Vector2, input: GameInput) -> Vector2 {
    let v1 = if input.up {
        Vector2 { x: 0i32, y: -1i32 }
    } else {
        v
    };
    let v2 = if input.down {
        Vector2 { x: 0i32, y: 1i32 }
    } else {
        v1
    };
    let v3 = if input.left {
        Vector2 { x: -1i32, y: 0i32 }
    } else {
        v2
    };
    if input.right {
        Vector2 { x: 1i32, y: 0i32 }
    } else {
        v3
    }
}

/// The mathematical picture of one play session: the snake, the score and
/// where the food lies. The session's random generator has no mathematical
/// content and is left out.
#[verifier::ext_equal]
pub ghost struct GameModel {
    pub player: SnakeModel,
    pub score: int,
    pub food: Vector2,
}

impl GameModel {
    /// Every session keeps the snake well formed, its head on the board and
    /// its velocity one of the nine unit steps; the movement tick needs
    /// nothing more to stay in bounds.
    pub open spec fn wf(self) -> bool {
        &&& self.player.wf()
        &&& 0 <= self.player.location.x <= BOARD_WIDTH
        &&& 0 <= self.player.location.y <= BOARD_HEIGHT
        &&& -1 <= self.player.velocity.x <= 1
        &&& -1 <= self.player.velocity.y <= 1
        &&& 0 <= self.score
    }

    /// The head stands on the food.
    pub open spec fn eats(self) -> bool {
        self.player.location == self.food
    }
}

/// One play session: the snake, the score, the food and the generator that
/// places the food.
pub struct GameState {
    pub rng: rand::rngs::ThreadRng,
    pub player: Snake,
    pub score: u32,
    pub food: Food,
}

impl View for GameState {
    type V = GameModel;

    open spec fn view(&self) -> GameModel {
        GameModel { player: self.player@, score: self.score as int, food: self.food.location }
    }
}

impl GameState {
    /// A fresh session: head at (0, 1), stationary, no body, score zero. The
    /// food starts at the origin and is only placed for real by `setup`.
    pub fn new() -> (g: GameState)
        ensures
            g@.player == (SnakeModel {
                location: Vector2 { x: 0, y: 1 },
                previous_location: None::<Vector2>,
                velocity: Vector2 { x: 0, y: 0 },
                body: Seq::<Vector2>::empty(),
            }),
            g@.score == 0,
            g@.food == (Vector2 { x: 0, y: 0 }),
            g@.wf(),
    {
        GameState {
            rng: fresh_rng(),
            player: Snake::new(0, 1),
            score: 0,
            food: Food::new(0, 0),
        }
    }

    fn get_random_location(&mut self) -> (v: Vector2)
        ensures
            food_cell(v),
            final(self)@ == old(self)@,
    {
        let x = gen_range_i32(&mut self.rng, 1, BOARD_WIDTH);
        let y = gen_range_i32(&mut self.rng, 1, BOARD_HEIGHT);
        Vector2::new(x, y)
    }

    fn move_food(&mut self)
        ensures
            food_cell(final(self)@.food),
            final(self)@.player == old(self)@.player,
            final(self)@.score == old(self)@.score,
    {
        let new_location = self.get_random_location();
        self.food.location = new_location;
    }

    /// The start of a session: put the food somewhere on the open part of the
    /// board and stop the snake.
    pub fn setup(&mut self)
        ensures
            food_cell(final(self)@.food),
            final(self)@.player.velocity == (Vector2 { x: 0, y: 0 }),
            final(self)@.player.location == old(self)@.player.location,
            final(self)@.player.previous_location == old(self)@.player.previous_location,
            final(self)@.player.body == old(self)@.player.body,
            final(self)@.score == old(self)@.score,
            old(self)@.wf() ==> final(self)@.wf(),
    {
        self.move_food();
        self.player.velocity.x = 0;
        self.player.velocity.y = 0;
    }

    /// One tick of play, with the keys held this tick. In order: the feeding
    /// rule (eat, score, grow, relocate the food), the self-collision check
    /// (which ends the session at once, before any input or movement), the
    /// directional input, the quit and debug-grow keys, and the movement step.
    pub fn update(&mut self, input: GameInput) -> (t: Transition)
        requires
            old(self)@.wf(),
            old(self)@.eats() ==> old(self)@.score < u32::MAX,
        ensures
            final(self)@.wf(),
            ({
                let g0 = old(self)@;
                let fed = g0.eats();
                let p1 = if fed {
                    g0.player.grown()
                } else {
                    g0.player
                };
                let s1 = if fed {
                    g0.score + 1
                } else {
                    g0.score
                };
                &&& final(self)@.score == s1
                &&& (if fed {
                    food_cell(final(self)@.food)
                } else {
                    final(self)@.food == g0.food
                })
                &&& (if p1.self_collision() {
                    &&& t == Transition::PushLose(s1 as u32)
                    &&& final(self)@.player == p1
                } else {
                    let p2 = SnakeModel {
                        location: p1.location,
                        previous_location: p1.previous_location,
                        velocity: velocity_from_input(p1.velocity, input),
                        body: p1.body,
                    };
                    if input.quit {
                        &&& t == Transition::Quit
                        &&& final(self)@.player == p2
                    } else {
                        let p3 = if input.grow {
                            p2.grown()
                        } else {
                            p2
                        };
                        &&& t == Transition::Continue
                        &&& final(self)@.player == p3.stepped()
                    }
                })
            }),
    {
        if self.player.location == self.food.location {
            self.score = self.score + 1;
            self.player.grow();
            self.move_food();
        }

        let ghost g1 = self@;

        let mut i: usize = 0;
        #[verifier::loop_isolation(false)]
        while i < self.player.body.len()
            invariant
                self@ == g1,
                0 <= i <= g1.player.body.len(),
                forall|j: int| 0 <= j < i ==> g1.player.body[j] != g1.player.location,
            decreases g1.player.body.len() - i,
        {
            if self.player.location == self.player.body[i].location {
                proof {
                    assert(g1.player.body[i as int] == g1.player.location);
                    assert(g1.player.self_collision());
                }
                return Transition::PushLose(self.score);
            }
            i = i + 1;
        }
        proof {
            assert(!g1.player.self_collision());
        }

        if input.up {
            self.player.velocity.y = -1;
            self.player.velocity.x = 0;
        }
        if input.down {
            self.player.velocity.y = 1;
            self.player.velocity.x = 0;
        }
        if input.left {
            self.player.velocity.x = -1;
            self.player.velocity.y = 0;
        }
        if input.right {
            self.player.velocity.x = 1;
            self.player.velocity.y = 0;
        }
        if input.quit {
            return Transition::Quit;
        }
        if input.grow {
            self.player.grow();
        }

        self.player.update();

        Transition::Continue
    }

    /// Everything one frame of play shows, in drawing order: the background
    /// fill, the score readout, the snake (head, then its segments) and the
    /// food.
    pub fn render_commands(&self) -> (cmds: Vec<RenderCmd>)
        ensures
            cmds@.len() == 4 + self@.player.body.len(),
            cmds@[0] == (RenderCmd::Fill { glyph: '.', color: GlyphColor::DarkGrey }),
            cmds@[1] == (RenderCmd::ScoreLine { score: self.score }),
            cmds@[2] == (RenderCmd::Pixel {
                x: self@.player.location.x,
                y: self@.player.location.y,
                glyph: '@',
                color: GlyphColor::DarkGreen,
            }),
            forall|i: int| 0 <= i < self@.player.body.len() ==> cmds@[i + 3] == (RenderCmd::Pixel {
                x: self@.player.body[i].x,
                y: self@.player.body[i].y,
                glyph: '#',
                color: GlyphColor::Green,
            }),
            cmds@[3 + self@.player.body.len() as int] == (RenderCmd::Pixel {
                x: self@.food.x,
                y: self@.food.y,
                glyph: '*',
                color: GlyphColor::Red,
            }),
    {
        let mut cmds: Vec<RenderCmd> = Vec::new();
        cmds.push(RenderCmd::Fill { glyph: '.', color: GlyphColor::DarkGrey });
        cmds.push(RenderCmd::ScoreLine { score: self.score });
        let mut snake_cmds = self.player.draw_commands();
        cmds.append(&mut snake_cmds);
        let food_cmd = self.food.draw_command();
        cmds.push(food_cmd);
        cmds
    }
}

} // verus!
