//! A small interactive "bark" demo core: a fixed set of speakers, a random
//! bark selector that avoids immediate repetition, and a responder that maps
//! pointer-interaction changes and timer ticks to display text, a background
//! color, and console lines.

pub mod plugin;
pub mod responder;
pub mod selector;
pub mod timer;

pub use plugin::BarrkPlugin;

pub use responder::DisplayState;
pub use responder::InteractionSignal;
pub use responder::Rgb;
pub use responder::Speaker;
pub use responder::color_of;
pub use responder::spoken_forms;
pub use selector::SelectError;
pub use selector::is_valid_pick;
pub use selector::pick_different;
pub use timer::TickTimer;
