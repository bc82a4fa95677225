//! Verified core of the urn-listening acoustic monitoring backend: the device
//! registry, the answers that the HTTP API gives, the reading-ingestion
//! workflow, the query texts sent to the analytics store and the service
//! configuration.

pub mod decimal;
pub mod numeric;
pub mod handlers;
pub mod device;
pub mod queries;
pub mod config;
pub mod simulation;
pub mod websocket;
pub mod store;
