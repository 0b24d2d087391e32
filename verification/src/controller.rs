//! Plain-value types of the controller interface: socket identifiers and the
//! PHY configuration the link-wait loop polls.

use vstd::prelude::*;

verus! {

/// One of the controller's eight independent socket contexts. The identifier
/// is stateless; the lifecycle of the underlying socket is owned entirely by
/// the controller register driver.
#[derive(Debug, Clone, Copy, PartialEq, Eq, Structural)]
pub enum Socket {
    Socket0,
    Socket1,
    Socket2,
    Socket3,
    Socket4,
    Socket5,
    Socket6,
    Socket7,
}

/// Physical-layer link state, re-read from hardware on every query.
#[derive(Debug, Clone, Copy, PartialEq, Eq, Structural)]
pub enum LinkStatus {
    /// The physical link is up.
    Up,
    /// The physical link is down.
    Down,
}

/// PHY speed status.
#[derive(Debug, Clone, Copy, PartialEq, Eq, Structural)]
pub enum SpeedStatus {
    /// 10 Mbps.
    Mbps10,
    /// 100 Mbps.
    Mbps100,
}

/// PHY duplex status.
#[derive(Debug, Clone, Copy, PartialEq, Eq, Structural)]
pub enum DuplexStatus {
    /// Half duplex.
    Half,
    /// Full duplex.
    Full,
}

/// PHY operation mode, the writable part of the PHY configuration.
#[derive(Debug, Clone, Copy, PartialEq, Eq, Structural)]
pub enum OperationMode {
    /// 10BT half-duplex, auto-negotiation disabled.
    HalfDuplex10bt,
    /// 10BT full-duplex, auto-negotiation disabled.
    FullDuplex10bt,
    /// 100BT half-duplex, auto-negotiation disabled.
    HalfDuplex100bt,
    /// 100BT full-duplex, auto-negotiation disabled.
    FullDuplex100bt,
    /// 100BT half-duplex, auto-negotiation enabled.
    HalfDuplex100btAuto,
    /// Power down.
    PowerDown,
    /// All capable, auto-negotiation enabled.
    Auto,
}

/// The PHY configuration of the controller: the configured operation mode
/// and the reported link, speed and duplex status. The link-wait loop reads
/// only `link`.
#[derive(Debug, Clone, Copy, PartialEq, Eq, Structural)]
pub struct PhyConfig {
    /// The configured operation mode.
    pub operation_mode: OperationMode,
    /// Reported duplex status.
    pub duplex: DuplexStatus,
    /// Reported speed status.
    pub speed: SpeedStatus,
    /// Reported link status.
    pub link: LinkStatus,
}

} // verus!
