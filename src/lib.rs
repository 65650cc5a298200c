//! Renders a container build file for a project folder from a fixed table of
//! runtime profiles, and decides how the previous build file is kept.

pub mod text;
pub mod profile;
pub mod document;
pub mod args;
pub mod output;
pub mod plan;
