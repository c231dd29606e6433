//! Number and name translation by regular-expression rules.

pub mod engine;
