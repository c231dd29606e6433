//! LLM providers of a playbook.

pub mod fallback_provider;
