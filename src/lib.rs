pub mod cron;
pub mod engine;
pub mod errors;
pub mod lemmas;
pub mod sizing;
pub mod state;
pub mod trigger;
