//! Discovery and health-checking of Moonraker/Klipper printer controllers on
//! local IP subnets.
//!
//! The library holds the verified core of the pipeline: CIDR expansion,
//! the port/API probe plans and their outcome classification, the status
//! resolver that turns raw printer flags into one device state, the scan
//! orchestration (batching under concurrency ceilings, aggregation), and the
//! host-record lifecycle with its failure debounce. The network I/O itself
//! (TCP connects, HTTP requests) is left to the caller, which feeds the
//! outcomes back in as plain values.

pub mod addr;
pub mod api;
pub mod client;
pub mod config;
pub mod error;
pub mod host;
pub mod ip;
pub mod notify;
pub mod probe;
pub mod progress;
pub mod scan;
pub mod status;
pub mod text;
pub mod time;
