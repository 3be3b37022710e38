//! The rules and state machines of "The curse of the headless goose", a small
//! keypad-driven fighting game.

pub mod action;
pub mod cooldown;
pub mod input;
pub mod keypad;
pub mod random;
pub mod fighter;
pub mod gfx;
pub mod specials;
pub mod turn;
pub mod save;
pub mod timer;
pub mod machine;
pub mod story;
