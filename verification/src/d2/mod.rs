pub mod area;
pub mod draw;
pub mod game;
pub mod unit;
