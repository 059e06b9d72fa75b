//! Browsing, watching and chatting on Twitch streams from a terminal: the
//! state, the decisions and the text that the terminal front end shows.

pub mod text;
pub mod ui;
pub mod app;
pub mod config;
pub mod control;
pub mod db;
pub mod laws;
pub mod notify;
pub mod player;
pub mod tasks;
pub mod thumb;
pub mod twitch;
