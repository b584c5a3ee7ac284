//! Window-management core of a Wayland compositor: device capabilities,
//! hit testing, interactive grabs, window placement and fullscreen state,
//! all over plain integer geometry.

pub mod desktop;
pub mod input;
pub mod runtime;
pub mod seqs;
pub mod shell;
pub mod state;
pub mod utils;
