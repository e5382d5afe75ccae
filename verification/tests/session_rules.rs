use snake_game::BodySegment;
use snake_game::GameInput;
use snake_game::GameState;
use snake_game::GlyphColor;
use snake_game::LoseInput;
use snake_game::LoseState;
use snake_game::RenderCmd;
use snake_game::Transition;
use snake_game::Vector2;
use snake_game::BOARD_HEIGHT;
use snake_game::BOARD_WIDTH;

fn no_keys() -> GameInput {
    GameInput { up: false, down: false, left: false, right: false, quit: false, grow: false }
}

fn no_lose_keys() -> LoseInput {
    LoseInput { yes: false, no: false, quit: false }
}

fn food_is_on_open_board(food: Vector2) -> bool {
    1 <= food.x && food.x < BOARD_WIDTH && 1 <= food.y && food.y < BOARD_HEIGHT
}

#[test]
fn new_session_starts_from_scratch() {
    let g = GameState::new();
    assert_eq!(g.score, 0);
    assert_eq!(g.player.location, Vector2::new(0, 1));
    assert_eq!(g.player.velocity, Vector2::new(0, 0));
    assert_eq!(g.player.body.len(), 0);
    assert_eq!(g.food.location, Vector2::new(0, 0));
}

#[test]
fn setup_places_food_on_open_board_and_stops_snake() {
    let mut g = GameState::new();
    g.player.velocity = Vector2::new(1, 0);
    g.setup();
    assert_eq!(g.player.velocity, Vector2::new(0, 0));
    assert!(food_is_on_open_board(g.food.location));
}

#[test]
fn food_placement_varies_between_setups() {
    let mut g = GameState::new();
    let mut seen = Vec::new();
    for _ in 0..50 {
        g.setup();
        seen.push((g.food.location.x, g.food.location.y));
    }
    let first = seen[0];
    assert!(seen.iter().any(|cell| *cell != first));
}

#[test]
fn eating_scores_once_grows_once_and_relocates_food() {
    let mut g = GameState::new();
    g.player.previous_location = Some(Vector2::new(0, 0));
    g.food.location = g.player.location;
    let t = g.update(no_keys());
    assert_eq!(t, Transition::Continue);
    assert_eq!(g.score, 1);
    assert_eq!(g.player.body.len(), 1);
    assert!(food_is_on_open_board(g.food.location));
}

#[test]
fn eating_grows_the_body_by_exactly_one_segment() {
    let mut g = GameState::new();
    g.player.location = Vector2::new(10, 10);
    g.player.previous_location = Some(Vector2::new(9, 10));
    g.player.body.push_back(BodySegment::new(9, 10));
    g.player.body.push_back(BodySegment::new(8, 10));
    g.food.location = Vector2::new(10, 10);
    let t = g.update(no_keys());
    assert_eq!(t, Transition::Continue);
    assert_eq!(g.score, 1);
    assert_eq!(g.player.body.len(), 3);
    assert_eq!(g.player.body[0].location, Vector2::new(9, 10));
}

#[test]
fn eating_happens_before_the_collision_check() {
    let mut g = GameState::new();
    g.player.location = Vector2::new(5, 5);
    g.player.previous_location = Some(Vector2::new(4, 5));
    g.player.body.push_back(BodySegment::new(5, 5));
    g.food.location = Vector2::new(5, 5);
    let t = g.update(no_keys());
    assert_eq!(t, Transition::PushLose(1));
    assert_eq!(g.score, 1);
    assert_eq!(g.player.body.len(), 2);
}

#[test]
fn missing_the_food_changes_nothing_about_it() {
    let mut g = GameState::new();
    g.food.location = Vector2::new(40, 10);
    let t = g.update(no_keys());
    assert_eq!(t, Transition::Continue);
    assert_eq!(g.score, 0);
    assert_eq!(g.food.location, Vector2::new(40, 10));
}

#[test]
fn self_collision_pushes_lose_screen_with_score() {
    let mut g = GameState::new();
    g.score = 7;
    g.player.location = Vector2::new(5, 5);
    g.player.previous_location = Some(Vector2::new(4, 5));
    g.player.body.push_back(BodySegment::new(5, 5));
    g.food.location = Vector2::new(40, 10);
    let mut input = no_keys();
    input.right = true;
    let t = g.update(input);
    assert_eq!(t, Transition::PushLose(7));
    assert_eq!(g.player.location, Vector2::new(5, 5));
    assert_eq!(g.player.velocity, Vector2::new(0, 0));
    assert_eq!(g.score, 7);
}

#[test]
fn direction_keys_set_unit_velocities() {
    let cases = [
        (GameInput { up: true, ..no_keys() }, Vector2::new(0, -1)),
        (GameInput { down: true, ..no_keys() }, Vector2::new(0, 1)),
        (GameInput { left: true, ..no_keys() }, Vector2::new(-1, 0)),
        (GameInput { right: true, ..no_keys() }, Vector2::new(1, 0)),
    ];
    for (input, expected) in cases {
        let mut g = GameState::new();
        g.player.location = Vector2::new(40, 10);
        g.food.location = Vector2::new(30, 5);
        let t = g.update(input);
        assert_eq!(t, Transition::Continue);
        assert_eq!(g.player.velocity, expected);
        let mut moved = Vector2::new(40, 10);
        moved.add(expected);
        assert_eq!(g.player.location, moved);
    }
}

#[test]
fn last_checked_direction_wins_when_all_keys_are_held() {
    let mut g = GameState::new();
    g.player.location = Vector2::new(40, 10);
    g.food.location = Vector2::new(30, 5);
    let input = GameInput { up: true, down: true, left: true, right: true, ..no_keys() };
    g.update(input);
    assert_eq!(g.player.velocity, Vector2::new(1, 0));
}

#[test]
fn quit_key_requests_quit_before_any_movement() {
    let mut g = GameState::new();
    g.player.location = Vector2::new(40, 10);
    g.food.location = Vector2::new(30, 5);
    let input = GameInput { right: true, quit: true, ..no_keys() };
    let t = g.update(input);
    assert_eq!(t, Transition::Quit);
    assert_eq!(g.player.velocity, Vector2::new(1, 0));
    assert_eq!(g.player.location, Vector2::new(40, 10));
}

#[test]
fn debug_grow_key_grows_without_scoring() {
    let mut g = GameState::new();
    g.player.location = Vector2::new(40, 10);
    g.player.previous_location = Some(Vector2::new(39, 10));
    g.food.location = Vector2::new(30, 5);
    let input = GameInput { grow: true, ..no_keys() };
    let t = g.update(input);
    assert_eq!(t, Transition::Continue);
    assert_eq!(g.score, 0);
    assert_eq!(g.player.body.len(), 1);
}

#[test]
fn lose_screen_replay_key_starts_a_fresh_session() {
    let lose = LoseState::new(9);
    assert_eq!(lose.update(LoseInput { yes: true, ..no_lose_keys() }), Transition::ReplaceWithNewGame);
    assert_eq!(
        lose.update(LoseInput { yes: true, no: true, quit: true }),
        Transition::ReplaceWithNewGame,
    );
    let mut fresh = GameState::new();
    fresh.setup();
    assert_eq!(fresh.score, 0);
    assert!(food_is_on_open_board(fresh.food.location));
}

#[test]
fn lose_screen_refusal_or_quit_ends_the_program() {
    let lose = LoseState::new(9);
    assert_eq!(lose.update(LoseInput { no: true, ..no_lose_keys() }), Transition::Quit);
    assert_eq!(lose.update(LoseInput { quit: true, ..no_lose_keys() }), Transition::Quit);
    assert_eq!(lose.update(no_lose_keys()), Transition::Continue);
}

#[test]
fn play_frame_draws_background_score_snake_and_food() {
    let mut g = GameState::new();
    g.score = 3;
    g.player.location = Vector2::new(6, 5);
    g.player.previous_location = Some(Vector2::new(5, 5));
    g.player.body.push_back(BodySegment::new(5, 5));
    g.food.location = Vector2::new(40, 10);
    let cmds = g.render_commands();
    assert_eq!(cmds.len(), 5);
    assert_eq!(cmds[0], RenderCmd::Fill { glyph: '.', color: GlyphColor::DarkGrey });
    assert_eq!(cmds[1], RenderCmd::ScoreLine { score: 3 });
    assert_eq!(cmds[2], RenderCmd::Pixel { x: 6, y: 5, glyph: '@', color: GlyphColor::DarkGreen });
    assert_eq!(cmds[3], RenderCmd::Pixel { x: 5, y: 5, glyph: '#', color: GlyphColor::Green });
    assert_eq!(cmds[4], RenderCmd::Pixel { x: 40, y: 10, glyph: '*', color: GlyphColor::Red });
}

#[test]
fn lose_frame_shows_death_notice_and_prompt() {
    let lose = LoseState::new(12);
    let cmds = lose.render_commands();
    assert_eq!(cmds.len(), 2);
    assert_eq!(cmds[0], RenderCmd::DeathLine { score: 12 });
    assert_eq!(cmds[1], RenderCmd::PromptLine);
}
