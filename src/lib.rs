pub mod models;
pub mod db;
pub mod page_helpers;
pub mod pages;
pub mod prompts;
pub mod navigator;
pub mod bank;
pub mod student;
pub mod laws;
