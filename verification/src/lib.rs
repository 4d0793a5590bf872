pub mod bot;
pub mod config;
pub mod reclaimer;
pub mod safety;
pub mod scanner;
pub mod sentinel;
pub mod state;
pub mod storage;
pub mod text;
