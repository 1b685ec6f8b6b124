//! Extract-function refactoring core: value objects, pure domain services and
//! the use-case orchestration, with their contracts proved by Verus.

pub mod adapters;
pub mod analysis;
pub mod code_generator;
pub mod control_flow_analyzer;
pub mod deref_rewrite;
pub mod dto;
pub mod entities;
pub mod errors;
pub mod events;
pub mod laws;
pub mod lifetime_repairer;
pub mod ownership_oracle;
pub mod ports;
pub mod search;
pub mod selection;
pub mod syntax;
pub mod text;
pub mod use_cases;
pub mod value_objects;
