//! A verified coordination engine for sharing locally attached Android
//! devices over a network.
//!
//! A MarketMaker node brokers the network: it owns the device registry,
//! an optional whitelist for admission control, and the tunnel manager
//! that assigns a fresh local port to every lease. Supplier nodes
//! advertise devices into the registry; Consumer nodes lease them.
//! The engine here is pure state: all I/O (TCP, adb, scrcpy, process
//! daemonization) lives in the surrounding binary, which feeds the
//! engine plain values and carries its decisions out.

pub mod commands;
pub mod consumer;
pub mod device;
pub mod errors;
pub mod marketmaker;
pub mod processors;
pub mod protocol;
pub mod registry;
pub mod scrcpy;
pub mod seqtools;
pub mod strlist;
pub mod supplier;
pub mod sysstate;
pub mod tunnel;
pub mod whitelist;
