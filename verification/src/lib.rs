pub mod apple;
pub mod game_engine;
pub mod game_utils;
pub mod snake;
pub mod snake_game_scene;
pub mod snake_parts;
