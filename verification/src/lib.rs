pub mod agent;
pub mod app;
pub mod cli;
pub mod commands;
pub mod events;
pub mod history;
pub mod model;
pub mod stream;
pub mod text;
pub mod tools;
pub mod ui;
pub mod voice;
