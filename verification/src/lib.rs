//! A static-analysis library for container-orchestration compose manifests:
//! a schema-tolerant document model, a line-mapping index that recovers
//! source positions, a registry of security rules, and an alert model with a
//! totally ordered severity scale.
pub mod compose;
pub mod config;
pub mod containers;
pub mod formatters;
pub mod render;
pub mod rules;
pub mod security;
pub mod text;
