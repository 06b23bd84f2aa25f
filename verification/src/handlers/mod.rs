pub mod class;
pub mod command;
pub mod common;
pub mod daily_practice_log;
pub mod menu;
