//! Verified core of an OpenAI-compatible gateway that drives an ACP agent.

pub mod text;
pub mod json;
pub mod acp;
pub mod agent;
pub mod openai;
pub mod path;
pub mod config;
pub mod update;
pub mod logs;
pub mod http;
pub mod desktop;
