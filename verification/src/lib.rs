//! Core of a telemetry-ingestion plugin for a racing simulator.
//!
//! A background worker mirrors a producer's shared-memory telemetry into a
//! host-managed property store.  The library verifies the coordination and
//! decision logic: the atomic lock protocol between the host's control
//! entry point and the worker ([`lock`], [`protocol`]), torn-frame-safe
//! snapshot acceptance ([`frame`]), the per-feed update and staleness
//! watchdog logic ([`reader`]), process discovery and bridge lifecycle
//! decisions ([`process`]), and the worker's connect/retry session
//! ([`worker`]).  Memory mapping, process spawning and the property store
//! itself live outside the library and drive it with plain values.

pub mod frame;
pub mod lock;
pub mod process;
pub mod protocol;
pub mod reader;
pub mod worker;

pub use lock::State;
