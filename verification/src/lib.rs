//! Board-support layer for a Power-over-Ethernet add-on board.
//!
//! The board pairs a wired Ethernet controller, reached over a synchronous
//! serial bus, with a factory-programmed MAC-address store, reached over a
//! two-wire bus. The board coordinator reads the hardware address from the
//! store, programs it and the static network addressing into the controller,
//! waits for physical link-up under a bounded timeout, and re-exposes the
//! controller's socket operations behind one unified error type.
//!
//! The three bus dependencies are modelled as capability traits, each
//! parameterized over its own error type; the host platform supplies the
//! implementations.

pub mod board;
pub mod bus;
pub mod controller;
pub mod error;
pub mod net;

pub use board::PoeFeatherWing;
pub use bus::DelaySource;
pub use bus::DriverOp;
pub use bus::RegisterDriver;
pub use bus::TwoWireBus;
pub use bus::TwoWireOp;
pub use controller::DuplexStatus;
pub use controller::LinkStatus;
pub use controller::OperationMode;
pub use controller::PhyConfig;
pub use controller::Socket;
pub use controller::SpeedStatus;
pub use error::BusError;
pub use error::Error;
pub use error::NbError;
pub use net::Eui48Addr;
pub use net::Ipv4Addr;
pub use net::SocketAddrV4;
