mod apple;
mod base_types;
mod constants;
mod session;
mod snake;
mod stone;
mod utils;

pub use apple::conflicts_with;
pub use apple::spawn_apple_in_area;
pub use apple::Apple;
pub use apple::SPAWN_ATTEMPTS;
pub use base_types::GridArea;
pub use base_types::GridUnit;
pub use base_types::GridVector;
pub use constants::grid_area;
pub use constants::initial_velocity;
pub use constants::play_area;
pub use constants::spec_grid_area;
pub use constants::spec_initial_velocity;
pub use constants::spec_play_area;
pub use constants::CORNER_SEGMENT_LENGTH;
pub use constants::GAME_OVER_TIMEOUT;
pub use constants::GRID_SIZE_X;
pub use constants::GRID_SIZE_Y;
pub use constants::GROW_PER_APPLE;
pub use constants::INITIAL_SIZE;
pub use constants::INITIAL_SPEED;
pub use constants::SPEED_INCREASE_FRACTION;
pub use session::lemma_dying_snake_rests;
pub use session::lemma_eating_apple;
pub use session::lemma_idle_snake_stays;
pub use session::lemma_reverse_input_ignored;
pub use session::lemma_self_collision;
pub use session::spec_status;
pub use session::step_ok;
pub use session::stones_contain;
pub use session::GameStatus;
pub use session::Session;
pub use snake::applied_velocity;
pub use snake::consume_input;
pub use snake::direction_vector;
pub use snake::due;
pub use snake::is_reverse;
pub use snake::lemma_tick_wf;
pub use snake::moved;
pub use snake::spec_direction_vector;
pub use snake::spec_eats;
pub use snake::spec_new_head;
pub use snake::spec_tick;
pub use snake::stone_hit;
pub use snake::valid_velocity;
pub use snake::Direction;
pub use snake::Snake;
pub use snake::SnakeModel;
pub use stone::arm_down;
pub use stone::arm_left;
pub use stone::arm_right;
pub use stone::arm_up;
pub use stone::generate_layout;
pub use stone::layout_area_ok;
pub use stone::lemma_layout_outside;
pub use stone::level_corners;
pub use stone::spec_layout;
pub use stone::spec_stone;
pub use stone::Stone;
pub use utils::modulus;
pub use utils::random_pos;
pub use utils::wrap_in;
pub use utils::wrap_in_grid;
pub use utils::wrapped;

