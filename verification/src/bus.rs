//! Capability traits for the three buses the board depends on, supplied by
//! the host platform: the controller register driver (serial bus plus
//! chip-select pin), the two-wire bus of the hardware-address store, and a
//! millisecond sleep source.
//!
//! Each capability carries a ghost transcript, `log`, of the operations
//! performed on it so far. Every method's contract appends exactly one
//! record holding the call's arguments and its outcome; the coordinator's
//! contracts are stated over these transcripts, which is what pins down call
//! order, argument pass-through and poll counts. An implementation decides
//! freely what each call returns — the contracts promise nothing about
//! success — but must return outcomes consistently with its own transcript.

use vstd::prelude::*;

use crate::controller::PhyConfig;
use crate::controller::Socket;
use crate::error::BusError;
use crate::error::NbError;
use crate::net::Eui48Addr;
use crate::net::Ipv4Addr;
use crate::net::SocketAddrV4;

verus! {

/// One register operation performed by a controller register driver: the
/// operation, its arguments, and its outcome. For operations that fill a
/// caller's buffer, `capacity` is the buffer length handed in and `data` the
/// buffer's content when the call returned.
#[allow(inconsistent_fields)]
pub enum DriverOp<S, P> {
    SetHardwareAddress { mac: Seq<u8>, outcome: Result<(), BusError<S, P>> },
    SetDeviceIp { ip: Seq<u8>, outcome: Result<(), BusError<S, P>> },
    SetGateway { gateway: Seq<u8>, outcome: Result<(), BusError<S, P>> },
    SetSubnetMask { subnet_mask: Seq<u8>, outcome: Result<(), BusError<S, P>> },
    GetPhyConfig { outcome: Result<PhyConfig, BusError<S, P>> },
    SetPhyConfig { config: PhyConfig, outcome: Result<(), BusError<S, P>> },
    GetVersion { outcome: Result<u8, BusError<S, P>> },
    UdpBind { socket: Socket, port: u16, outcome: Result<(), BusError<S, P>> },
    UdpRecvFrom {
        socket: Socket,
        capacity: nat,
        data: Seq<u8>,
        outcome: Result<(usize, SocketAddrV4), NbError<BusError<S, P>>>,
    },
    UdpPeekFrom {
        socket: Socket,
        capacity: nat,
        data: Seq<u8>,
        outcome: Result<(usize, SocketAddrV4), NbError<BusError<S, P>>>,
    },
    UdpPeekFromHeader {
        socket: Socket,
        outcome: Result<(usize, SocketAddrV4), NbError<BusError<S, P>>>,
    },
    UdpSendTo {
        socket: Socket,
        data: Seq<u8>,
        addr: SocketAddrV4,
        outcome: Result<usize, BusError<S, P>>,
    },
    UdpSend { socket: Socket, data: Seq<u8>, outcome: Result<usize, BusError<S, P>> },
    TcpConnect {
        socket: Socket,
        port: u16,
        addr: SocketAddrV4,
        outcome: Result<(), BusError<S, P>>,
    },
    TcpListen { socket: Socket, port: u16, outcome: Result<(), BusError<S, P>> },
    TcpRead {
        socket: Socket,
        capacity: nat,
        data: Seq<u8>,
        outcome: Result<usize, BusError<S, P>>,
    },
    TcpWrite { socket: Socket, data: Seq<u8>, outcome: Result<usize, BusError<S, P>> },
    TcpDisconnect { socket: Socket, outcome: Result<(), BusError<S, P>> },
    LocalAddress { socket: Socket, outcome: Result<SocketAddrV4, BusError<S, P>> },
    Close { socket: Socket, outcome: Result<(), BusError<S, P>> },
    IsStateClosed { socket: Socket, outcome: Result<bool, BusError<S, P>> },
    IsStateTcp { socket: Socket, outcome: Result<bool, BusError<S, P>> },
    IsStateUdp { socket: Socket, outcome: Result<bool, BusError<S, P>> },
}

/// One write-then-read transaction performed on a two-wire bus: `tx` was
/// written to the 7-bit address `device`, then `read_len` bytes were
/// requested back. `outcome` holds the bytes read, or the bus error.
pub struct TwoWireOp<E> {
    pub device: u8,
    pub tx: Seq<u8>,
    pub read_len: nat,
    pub outcome: Result<Seq<u8>, E>,
}

/// The controller register driver capability: register-level operations on
/// the Ethernet controller, each returning a value or a bus-domain error.
/// The register encoding behind these operations is the driver's own
/// business; this layer only orchestrates the calls.
pub trait RegisterDriver {
    /// Error type of the serial-bus transfers the driver performs.
    type SpiError;

    /// Error type of the chip-select pin the driver toggles.
    type PinError;

    /// The transcript of register operations performed so far. The default
    /// is deliberately left unconstrained: an unverified implementation (a
    /// platform adapter, a test mock) can keep it, and nothing can then be
    /// concluded about that implementation; a verified implementation
    /// overrides it with its own definition.
    closed spec fn log(&self) -> Seq<DriverOp<Self::SpiError, Self::PinError>> {
        arbitrary()
    }

    /// Write the 6-byte hardware address into the controller.
    fn set_hardware_address(&mut self, mac: &Eui48Addr) -> (r: Result<
        (),
        BusError<Self::SpiError, Self::PinError>,
    >)
        ensures
            final(self).log() == old(self).log().push(
                DriverOp::SetHardwareAddress { mac: mac.octets@, outcome: r },
            ),
    ;

    /// Write the device's IPv4 address into the controller.
    fn set_device_ip(&mut self, ip: &Ipv4Addr) -> (r: Result<
        (),
        BusError<Self::SpiError, Self::PinError>,
    >)
        ensures
            final(self).log() == old(self).log().push(
                DriverOp::SetDeviceIp { ip: ip.octets@, outcome: r },
            ),
    ;

    /// Write the gateway IPv4 address into the controller.
    fn set_gateway(&mut self, gateway: &Ipv4Addr) -> (r: Result<
        (),
        BusError<Self::SpiError, Self::PinError>,
    >)
        ensures
            final(self).log() == old(self).log().push(
                DriverOp::SetGateway { gateway: gateway.octets@, outcome: r },
            ),
    ;

    /// Write the subnet mask into the controller.
    fn set_subnet_mask(&mut self, subnet_mask: &Ipv4Addr) -> (r: Result<
        (),
        BusError<Self::SpiError, Self::PinError>,
    >)
        ensures
            final(self).log() == old(self).log().push(
                DriverOp::SetSubnetMask { subnet_mask: subnet_mask.octets@, outcome: r },
            ),
    ;

    /// Read the PHY configuration; its link status is re-read from hardware
    /// on every call.
    fn get_phy_config(&mut self) -> (r: Result<
        PhyConfig,
        BusError<Self::SpiError, Self::PinError>,
    >)
        ensures
            final(self).log() == old(self).log().push(DriverOp::GetPhyConfig { outcome: r }),
    ;

    /// Write the PHY configuration.
    fn set_phy_config(&mut self, config: PhyConfig) -> (r: Result<
        (),
        BusError<Self::SpiError, Self::PinError>,
    >)
        ensures
            final(self).log() == old(self).log().push(
                DriverOp::SetPhyConfig { config, outcome: r },
            ),
    ;

    /// Read the controller's version register.
    fn get_version(&mut self) -> (r: Result<u8, BusError<Self::SpiError, Self::PinError>>)
        ensures
            final(self).log() == old(self).log().push(DriverOp::GetVersion { outcome: r }),
    ;

    /// Bind a socket to a local UDP port.
    fn bind_udp(&mut self, socket: Socket, port: u16) -> (r: Result<
        (),
        BusError<Self::SpiError, Self::PinError>,
    >)
        ensures
            final(self).log() == old(self).log().push(
                DriverOp::UdpBind { socket, port, outcome: r },
            ),
    ;

    /// Receive a datagram into `buf`; reports would-block when none has
    /// arrived yet.
    fn receive_from(&mut self, socket: Socket, buf: &mut Vec<u8>) -> (r: Result<
        (usize, SocketAddrV4),
        NbError<BusError<Self::SpiError, Self::PinError>>,
    >)
        ensures
            final(buf)@.len() == old(buf)@.len(),
            final(self).log() == old(self).log().push(
                DriverOp::UdpRecvFrom {
                    socket,
                    capacity: old(buf)@.len(),
                    data: final(buf)@,
                    outcome: r,
                },
            ),
    ;

    /// As `receive_from`, but leave the datagram queued.
    fn peek_from(&mut self, socket: Socket, buf: &mut Vec<u8>) -> (r: Result<
        (usize, SocketAddrV4),
        NbError<BusError<Self::SpiError, Self::PinError>>,
    >)
        ensures
            final(buf)@.len() == old(buf)@.len(),
            final(self).log() == old(self).log().push(
                DriverOp::UdpPeekFrom {
                    socket,
                    capacity: old(buf)@.len(),
                    data: final(buf)@,
                    outcome: r,
                },
            ),
    ;

    /// Read only the header of the next queued datagram.
    fn peek_from_header(&mut self, socket: Socket) -> (r: Result<
        (usize, SocketAddrV4),
        NbError<BusError<Self::SpiError, Self::PinError>>,
    >)
        ensures
            final(self).log() == old(self).log().push(
                DriverOp::UdpPeekFromHeader { socket, outcome: r },
            ),
    ;

    /// Send a datagram to `addr`.
    fn send_to(&mut self, socket: Socket, buf: &Vec<u8>, addr: &SocketAddrV4) -> (r: Result<
        usize,
        BusError<Self::SpiError, Self::PinError>,
    >)
        ensures
            final(self).log() == old(self).log().push(
                DriverOp::UdpSendTo { socket, data: buf@, addr: *addr, outcome: r },
            ),
    ;

    /// Send a datagram to the socket's current destination.
    fn send(&mut self, socket: Socket, buf: &Vec<u8>) -> (r: Result<
        usize,
        BusError<Self::SpiError, Self::PinError>,
    >)
        ensures
            final(self).log() == old(self).log().push(
                DriverOp::UdpSend { socket, data: buf@, outcome: r },
            ),
    ;

    /// Open a TCP connection to `addr` from local port `port`.
    fn connect(&mut self, socket: Socket, port: u16, addr: &SocketAddrV4) -> (r: Result<
        (),
        BusError<Self::SpiError, Self::PinError>,
    >)
        ensures
            final(self).log() == old(self).log().push(
                DriverOp::TcpConnect { socket, port, addr: *addr, outcome: r },
            ),
    ;

    /// Put a socket into TCP listen state on `port`.
    fn listen(&mut self, socket: Socket, port: u16) -> (r: Result<
        (),
        BusError<Self::SpiError, Self::PinError>,
    >)
        ensures
            final(self).log() == old(self).log().push(
                DriverOp::TcpListen { socket, port, outcome: r },
            ),
    ;

    /// Read stream data into `buf`, returning how many bytes were read.
    fn read(&mut self, socket: Socket, buf: &mut Vec<u8>) -> (r: Result<
        usize,
        BusError<Self::SpiError, Self::PinError>,
    >)
        ensures
            final(buf)@.len() == old(buf)@.len(),
            final(self).log() == old(self).log().push(
                DriverOp::TcpRead {
                    socket,
                    capacity: old(buf)@.len(),
                    data: final(buf)@,
                    outcome: r,
                },
            ),
    ;

    /// Write stream data, returning how many bytes were accepted.
    fn write(&mut self, socket: Socket, buf: &Vec<u8>) -> (r: Result<
        usize,
        BusError<Self::SpiError, Self::PinError>,
    >)
        ensures
            final(self).log() == old(self).log().push(
                DriverOp::TcpWrite { socket, data: buf@, outcome: r },
            ),
    ;

    /// Start a TCP disconnect.
    fn disconnect(&mut self, socket: Socket) -> (r: Result<
        (),
        BusError<Self::SpiError, Self::PinError>,
    >)
        ensures
            final(self).log() == old(self).log().push(
                DriverOp::TcpDisconnect { socket, outcome: r },
            ),
    ;

    /// Query a socket's local address.
    fn local_address(&mut self, socket: Socket) -> (r: Result<
        SocketAddrV4,
        BusError<Self::SpiError, Self::PinError>,
    >)
        ensures
            final(self).log() == old(self).log().push(
                DriverOp::LocalAddress { socket, outcome: r },
            ),
    ;

    /// Close a socket.
    fn close(&mut self, socket: Socket) -> (r: Result<
        (),
        BusError<Self::SpiError, Self::PinError>,
    >)
        ensures
            final(self).log() == old(self).log().push(DriverOp::Close { socket, outcome: r }),
    ;

    /// Whether the socket is in the closed state.
    fn is_state_closed(&mut self, socket: Socket) -> (r: Result<
        bool,
        BusError<Self::SpiError, Self::PinError>,
    >)
        ensures
            final(self).log() == old(self).log().push(
                DriverOp::IsStateClosed { socket, outcome: r },
            ),
    ;

    /// Whether the socket is in a TCP state.
    fn is_state_tcp(&mut self, socket: Socket) -> (r: Result<
        bool,
        BusError<Self::SpiError, Self::PinError>,
    >)
        ensures
            final(self).log() == old(self).log().push(
                DriverOp::IsStateTcp { socket, outcome: r },
            ),
    ;

    /// Whether the socket is in a UDP state.
    fn is_state_udp(&mut self, socket: Socket) -> (r: Result<
        bool,
        BusError<Self::SpiError, Self::PinError>,
    >)
        ensures
            final(self).log() == old(self).log().push(
                DriverOp::IsStateUdp { socket, outcome: r },
            ),
    ;
}

/// The two-wire bus capability: a single write-then-read transaction
/// primitive against a 7-bit device address.
pub trait TwoWireBus {
    /// Error type of the two-wire transfers.
    type Error;

    /// The transcript of transactions performed so far; unconstrained by
    /// default, as in [`RegisterDriver::log`].
    closed spec fn log(&self) -> Seq<TwoWireOp<Self::Error>> {
        arbitrary()
    }

    /// Write the bytes of `tx` to `device`, then read `read_len` bytes back.
    fn write_read(&mut self, device: u8, tx: &Vec<u8>, read_len: usize) -> (r: Result<
        Vec<u8>,
        Self::Error,
    >)
        ensures
            final(self).log() == old(self).log().push(
                TwoWireOp {
                    device,
                    tx: tx@,
                    read_len: read_len as nat,
                    outcome: (match r {
                        Ok(data) => Ok(data@),
                        Err(e) => Err(e),
                    }),
                },
            ),
            (r matches Ok(data) ==> data@.len() == read_len),
    ;
}

/// The delay capability: a millisecond-granularity blocking sleep, used only
/// by the link-up wait loop.
pub trait DelaySource {
    /// The durations slept so far, in milliseconds; unconstrained by
    /// default, as in [`RegisterDriver::log`].
    closed spec fn log(&self) -> Seq<u32> {
        arbitrary()
    }

    /// Block for `ms` milliseconds.
    fn delay_ms(&mut self, ms: u32)
        ensures
            final(self).log() == old(self).log().push(ms),
    ;
}

} // verus!
