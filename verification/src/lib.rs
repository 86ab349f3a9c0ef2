//! Core logic of the chatter bot: message and embed text, reaction polls,
//! thread bookkeeping and the decisions taken on replies from the AI,
//! game, image and speech services.

pub mod utils;
pub mod errors;
pub mod network;
pub mod models;
pub mod services;
pub mod commands;
pub mod effects;
