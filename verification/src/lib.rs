//! Core of a measurement pipeline framework.
//!
//! Pluggable sources produce timestamped measurement points about system
//! resources, transforms modify them in flight, and outputs export them.
//! This crate provides the foundation that makes that plugin model safe:
//! the resource/consumer identity model with its stable byte encoding, the
//! measurement data model, the metric registry, the element registry, and
//! the plugin lifecycle with its startup mediator.

pub mod attributes;
pub mod codec;
pub mod exporter;
pub mod measurement;
pub mod metrics;
pub mod pipeline;
pub mod plugin;
pub mod post_processing;
pub mod rename_metrics;
pub mod resources;
pub mod text;
pub mod units;
