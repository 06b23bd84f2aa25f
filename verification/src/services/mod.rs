pub mod class;
pub mod daily_practice_log;
pub mod user;
