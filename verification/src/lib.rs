//! Verified core of a personal-tracking chat assistant: the dialogue state
//! machine of each chat, the business rules over the four tables of the
//! store, and the rule of the per-user rate limiter. Nothing here talks to
//! the outside world: updates come in as values, and what is to be sent
//! goes out as a list of actions.

pub mod action;
pub mod bot;
pub mod commands;
pub mod config;
pub mod database;
pub mod datetime;
pub mod errors;
pub mod handlers;
pub mod keyboards;
pub mod middlewares;
pub mod rate_limiter;
pub mod repositories;
pub mod services;
pub mod state;
pub mod text;
pub mod uow;
pub mod update;
pub mod utils;
