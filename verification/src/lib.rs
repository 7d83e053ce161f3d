//! Orchestration of privacy-preserving federated-learning sessions over two
//! aggregation servers: the manager's session and task bookkeeping, the
//! controller's session and round state, and the client's typed gradient
//! submission.

pub mod outside;
pub mod text;
pub mod fixed;
pub mod types;
pub mod helpers;
pub mod manager;
pub mod client;
pub mod controller;
