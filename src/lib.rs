//! Native backend of the MarkPix image annotation tool: configuration,
//! image payload handling and the custom-action planner.
pub mod action;
pub mod clipboard;
pub mod config;
pub mod image;
pub mod text;
