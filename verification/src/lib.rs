//! A telemetry bridge: consumes device telemetry and discrete events from a
//! publish/subscribe bus, keeps two aggregate metrics (a total-message counter
//! and a last-known battery gauge), and renders them for a pull-based
//! metrics endpoint.

pub mod consumer;
pub mod exposition;
pub mod parser;
pub mod registry;
pub mod topic;
