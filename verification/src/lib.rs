pub mod config;
pub mod world;
pub mod player;
pub mod enemy;
pub mod platform;
pub mod laws;
