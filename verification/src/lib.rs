//! State machine, search filter and render projection of a terminal mail
//! dashboard, with contracts that Verus proves.

pub mod calendar;
pub mod clock;
pub mod config;
pub mod email;
pub mod text;
pub mod ui;
