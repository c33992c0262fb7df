//! Game-side logic of the genocide Diablo II helper: configuration records,
//! the chicken (emergency exit) rules, text and box placement for the
//! on-screen overlay, area reveal planning, the byte patches that hook the
//! game's drawing routines, and the injector's choice of DLL.
pub mod config;
pub mod d2;
pub mod hack;
pub mod injector;
pub mod memory;
pub mod modules;
pub mod utils;
