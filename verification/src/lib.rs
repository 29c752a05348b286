pub mod bot;
pub mod config;
pub mod decimal;
pub mod handlers;
pub mod inline;
pub mod policy;
pub mod risibank;
pub mod status;
