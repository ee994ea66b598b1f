//! Turns a structured description of an AI-agent design into a fixed-format
//! markdown specification, with the length rules that a description must meet.

pub mod config;
pub mod error;
pub mod extractors;
pub mod health;
pub mod middleware;
pub mod render;
pub mod request;
pub mod service;
pub mod text;
pub mod validation;

pub use request::{
    DesignRequest, Interface, Memory, ModelConfig, Orchestration, Prompt, Purpose, Testing, Tools,
};
pub use validation::{validate_design_request, Validate, Violation};
pub use render::{core_generate_design, render_document};
pub use service::{generate_design, generate_design_command, handle_generate, DesignResponse};
