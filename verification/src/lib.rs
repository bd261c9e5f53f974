//! The logic of a local proxy between the Grok Build client and the ChatGPT
//! Codex and Kimi services.

pub mod auth;
pub mod catalog;
pub mod cli;
pub mod clock;
pub mod codexcli;
pub mod doctor;
pub mod events;
pub mod grokconfig;
pub mod json;
pub mod kimi_cli;
pub mod modelmap;
pub mod monitor;
pub mod names;
pub mod numbers;
pub mod order;
pub mod provider;
pub mod proxy;
pub mod report;
pub mod sse;
pub mod store;
pub mod table;
pub mod text;
pub mod toml;
pub mod urls;
pub mod words;
