pub mod board;
pub mod food;
pub mod game;
pub mod geometry;
pub mod lose;
pub mod render;
pub mod snake;

pub use board::BOARD_HEIGHT;
pub use board::BOARD_WIDTH;
pub use food::Food;
pub use game::food_cell;
pub use game::GameInput;
pub use game::GameModel;
pub use game::GameState;
pub use game::Transition;
pub use geometry::Vector2;
pub use lose::LoseInput;
pub use lose::LoseState;
pub use render::GlyphColor;
pub use render::RenderCmd;
pub use snake::BodySegment;
pub use snake::Snake;
pub use snake::SnakeModel;
