pub mod on_game;
pub mod player_controller;
pub mod uv;
pub mod fbx_scene;
pub mod info_debug;
pub mod network;
