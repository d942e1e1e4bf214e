//! Remote input redirection: capture-side event normalization, the wire
//! protocol with its codec, and the replay engine that turns wire commands
//! into synthetic input actions.

pub mod codec;
pub mod display;
pub mod event;
pub mod keyboard;
pub mod mapper;
pub mod modifier;
pub mod mouse;
pub mod replay;
pub mod session;
pub mod smoother;
pub mod wire;

pub use display::DisplayParams;
pub use keyboard::{KeyboardButton, Letter, Number, Numpad, F};
pub use modifier::{Modifier, ModifierKey};
pub use mouse::{InputError, MouseButton, MouseScroll};
pub use wire::{Answer, Command};
