//! The error taxonomy of the coordination engine. Admission errors
//! end the attempted operation; state-conflict errors invite the
//! caller to pick another target or force; resource errors are
//! reported only after the engine rolled back the half-done change.

use vstd::prelude::*;

verus! {

/// Every way a coordination request can fail.
#[derive(Clone, Copy, Debug, PartialEq, Eq, Structural)]
pub enum MarketError {
    /// A device with this id is already registered.
    DuplicateDevice,
    /// No device with this id is registered.
    DeviceNotFound,
    /// A reservation was attempted on a device somebody holds.
    DeviceAlreadyLeased,
    /// A withdrawal was attempted on a leased device without force.
    DeviceLeased,
    /// The device exists but is not leased by the calling consumer.
    NotLeasedByCaller,
    /// A mirroring request named a device this consumer does not hold.
    DeviceNotLeased,
    /// No MarketMaker could be reached to attach to.
    ConnectionRefused,
    /// The device is registered by a different supplier.
    DeviceOwnedElsewhere,
    /// The peer is not on the whitelist and checks are enabled.
    NotWhitelisted,
    /// The supplier or consumer peer is not attached to the market.
    PeerNotConnected,
    /// Starting a role that is already active.
    AlreadyRunning,
    /// Addressing a role that is not active.
    NotRunning,
    /// No tunnel could be set up; the lease was rolled back.
    TunnelSetupFailed,
    /// The client speaks an unsupported protocol version.
    VersionMismatch,
    /// A well-typed request shape the engine does not serve.
    NotSupported,
}

impl MarketError {
    /// A short human-readable reason, for the response envelope.
    pub fn describe(&self) -> (r: &'static str)
        ensures
            r@.len() > 0,
    {
        let r = match self {
            MarketError::DuplicateDevice => "device is already registered",
            MarketError::DeviceNotFound => "device not found",
            MarketError::DeviceAlreadyLeased => "device is already reserved",
            MarketError::DeviceLeased => "device is reserved; use force to reclaim",
            MarketError::NotLeasedByCaller => "device is not reserved by this consumer",
            MarketError::DeviceNotLeased => "device is not held by this consumer",
            MarketError::ConnectionRefused => "could not reach a market maker",
            MarketError::DeviceOwnedElsewhere => "device is supplied by another supplier",
            MarketError::NotWhitelisted => "peer is not whitelisted",
            MarketError::PeerNotConnected => "peer is not connected to the market",
            MarketError::AlreadyRunning => "mode is already running",
            MarketError::NotRunning => "mode is not running",
            MarketError::TunnelSetupFailed => "tunnel setup failed; reservation rolled back",
            MarketError::VersionMismatch => "client version is not supported",
            MarketError::NotSupported => "not implemented",
        };
        proof {
            reveal_strlit("device is already registered");
            reveal_strlit("device not found");
            reveal_strlit("device is already reserved");
            reveal_strlit("device is reserved; use force to reclaim");
            reveal_strlit("device is not reserved by this consumer");
            reveal_strlit("device is not held by this consumer");
            reveal_strlit("could not reach a market maker");
            reveal_strlit("device is supplied by another supplier");
            reveal_strlit("peer is not whitelisted");
            reveal_strlit("peer is not connected to the market");
            reveal_strlit("mode is already running");
            reveal_strlit("mode is not running");
            reveal_strlit("tunnel setup failed; reservation rolled back");
            reveal_strlit("client version is not supported");
            reveal_strlit("not implemented");
        }
        r
    }
}

} // verus!
