//! Renderers for dictionary lookup results: plain text, ANSI-coloured terminal
//! text, and markup for desktop notifications.

pub mod formatters;
pub mod notification;
pub mod output;
