//! Playbook handling: LLM provider fallback.

pub mod handler;
