pub mod chapters;
pub mod cleanup;
pub mod command;
pub mod config;
pub mod error;
pub mod init;
pub mod number;
pub mod pages;
pub mod pipeline;
pub mod text;
pub mod tools;
