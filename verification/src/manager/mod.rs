//! The manager: one runs beside each aggregator, keeps the training sessions
//! and provisions their tasks.

pub mod consumer;
pub mod implementation;
pub mod provider;
pub mod types;
