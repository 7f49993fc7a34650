//! Core of a Modbus-over-TCP server: the domain frame vocabulary, the
//! `Service` / `NewService` handler abstraction with its conversion
//! boundary, a one-shot shutdown signal, and the server builder that
//! wires a handler factory, a listen address, an event-loop count and a
//! shutdown signal into a serving run.

pub mod frame;
pub mod server;
pub mod service;
pub mod shutdown;
