pub mod class;
pub mod class_deduction_history;
pub mod daily_practice_log;
pub mod storage;
pub mod user;
