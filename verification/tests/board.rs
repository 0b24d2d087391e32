//! Tests of the board coordinator against recording mock capabilities.

use poe_featherwing::BusError;
use poe_featherwing::DelaySource;
use poe_featherwing::DuplexStatus;
use poe_featherwing::Error;
use poe_featherwing::Eui48Addr;
use poe_featherwing::Ipv4Addr;
use poe_featherwing::LinkStatus;
use poe_featherwing::NbError;
use poe_featherwing::OperationMode;
use poe_featherwing::PhyConfig;
use poe_featherwing::PoeFeatherWing;
use poe_featherwing::RegisterDriver;
use poe_featherwing::Socket;
use poe_featherwing::SocketAddrV4;
use poe_featherwing::SpeedStatus;
use poe_featherwing::TwoWireBus;

/// One recorded register-driver call, with its arguments.
#[derive(Debug, Clone, PartialEq)]
enum Call {
    SetMac([u8; 6]),
    SetIp([u8; 4]),
    SetGateway([u8; 4]),
    SetSubnet([u8; 4]),
    GetPhy,
    SetPhy(PhyConfig),
    GetVersion,
    UdpBind(Socket, u16),
    UdpRecvFrom(Socket, usize),
    UdpPeekFrom(Socket, usize),
    UdpPeekFromHeader(Socket),
    UdpSendTo(Socket, Vec<u8>, SocketAddrV4),
    UdpSend(Socket, Vec<u8>),
    TcpConnect(Socket, u16, SocketAddrV4),
    TcpListen(Socket, u16),
    TcpRead(Socket, usize),
    TcpWrite(Socket, Vec<u8>),
    TcpDisconnect(Socket),
    LocalAddr(Socket),
    Close(Socket),
    IsStateClosed(Socket),
    IsStateTcp(Socket),
    IsStateUdp(Socket),
}

fn phy_with(link: LinkStatus) -> PhyConfig {
    PhyConfig {
        operation_mode: OperationMode::Auto,
        duplex: DuplexStatus::Full,
        speed: SpeedStatus::Mbps100,
        link,
    }
}

fn addr(a: u8, b: u8, c: u8, d: u8, port: u16) -> SocketAddrV4 {
    SocketAddrV4 { ip: Ipv4Addr { octets: [a, b, c, d] }, port }
}

/// A register driver that records every call and answers from small
/// per-operation scripts.
#[derive(Default)]
struct MockDriver {
    calls: Vec<Call>,
    /// Successive poll answers: `Ok(status)` or `Err(spi_code)`. Exhausted
    /// entries answer link-down.
    links: Vec<Result<LinkStatus, u8>>,
    poll_i: usize,
    /// `Some(code)` makes the matching write step fail with a SPI error.
    fail_set_mac: Option<u8>,
    fail_set_ip: Option<u8>,
    /// `Some(code)` makes the gateway write fail with a pin error.
    fail_set_gateway_pin: Option<u8>,
    fail_set_subnet: Option<u8>,
    version: u8,
}

fn spi_fail<T>(code: Option<u8>) -> Result<T, BusError<u8, u8>>
where
    T: Default,
{
    match code {
        Some(c) => Err(BusError::Spi(c)),
        None => Ok(T::default()),
    }
}

impl RegisterDriver for MockDriver {
    type SpiError = u8;
    type PinError = u8;

    fn set_hardware_address(&mut self, mac: &Eui48Addr) -> Result<(), BusError<u8, u8>> {
        self.calls.push(Call::SetMac(mac.octets));
        spi_fail(self.fail_set_mac)
    }

    fn set_device_ip(&mut self, ip: &Ipv4Addr) -> Result<(), BusError<u8, u8>> {
        self.calls.push(Call::SetIp(ip.octets));
        spi_fail(self.fail_set_ip)
    }

    fn set_gateway(&mut self, gateway: &Ipv4Addr) -> Result<(), BusError<u8, u8>> {
        self.calls.push(Call::SetGateway(gateway.octets));
        match self.fail_set_gateway_pin {
            Some(c) => Err(BusError::Pin(c)),
            None => Ok(()),
        }
    }

    fn set_subnet_mask(&mut self, subnet_mask: &Ipv4Addr) -> Result<(), BusError<u8, u8>> {
        self.calls.push(Call::SetSubnet(subnet_mask.octets));
        spi_fail(self.fail_set_subnet)
    }

    fn get_phy_config(&mut self) -> Result<PhyConfig, BusError<u8, u8>> {
        self.calls.push(Call::GetPhy);
        let i = self.poll_i;
        self.poll_i += 1;
        match self.links.get(i) {
            Some(Ok(LinkStatus::Up)) => Ok(phy_with(LinkStatus::Up)),
            Some(Ok(LinkStatus::Down)) | None => Ok(phy_with(LinkStatus::Down)),
            Some(Err(c)) => Err(BusError::Spi(*c)),
        }
    }

    fn set_phy_config(&mut self, config: PhyConfig) -> Result<(), BusError<u8, u8>> {
        self.calls.push(Call::SetPhy(config));
        Ok(())
    }

    fn get_version(&mut self) -> Result<u8, BusError<u8, u8>> {
        self.calls.push(Call::GetVersion);
        Ok(self.version)
    }

    fn bind_udp(&mut self, socket: Socket, port: u16) -> Result<(), BusError<u8, u8>> {
        self.calls.push(Call::UdpBind(socket, port));
        Ok(())
    }

    fn receive_from(
        &mut self,
        socket: Socket,
        buf: &mut Vec<u8>,
    ) -> Result<(usize, SocketAddrV4), NbError<BusError<u8, u8>>> {
        self.calls.push(Call::UdpRecvFrom(socket, buf.len()));
        if buf.len() >= 2 {
            buf[0] = 0xAB;
            buf[1] = 0xCD;
        }
        Ok((2, addr(192, 168, 0, 9, 7000)))
    }

    fn peek_from(
        &mut self,
        socket: Socket,
        buf: &mut Vec<u8>,
    ) -> Result<(usize, SocketAddrV4), NbError<BusError<u8, u8>>> {
        self.calls.push(Call::UdpPeekFrom(socket, buf.len()));
        Err(NbError::WouldBlock)
    }

    fn peek_from_header(
        &mut self,
        socket: Socket,
    ) -> Result<(usize, SocketAddrV4), NbError<BusError<u8, u8>>> {
        self.calls.push(Call::UdpPeekFromHeader(socket));
        Err(NbError::Other(BusError::Spi(0x77)))
    }

    fn send_to(
        &mut self,
        socket: Socket,
        buf: &Vec<u8>,
        addr: &SocketAddrV4,
    ) -> Result<usize, BusError<u8, u8>> {
        self.calls.push(Call::UdpSendTo(socket, buf.clone(), *addr));
        Ok(buf.len())
    }

    fn send(&mut self, socket: Socket, buf: &Vec<u8>) -> Result<usize, BusError<u8, u8>> {
        self.calls.push(Call::UdpSend(socket, buf.clone()));
        Ok(buf.len())
    }

    fn connect(
        &mut self,
        socket: Socket,
        port: u16,
        addr: &SocketAddrV4,
    ) -> Result<(), BusError<u8, u8>> {
        self.calls.push(Call::TcpConnect(socket, port, *addr));
        Ok(())
    }

    fn listen(&mut self, socket: Socket, port: u16) -> Result<(), BusError<u8, u8>> {
        self.calls.push(Call::TcpListen(socket, port));
        Err(BusError::Pin(0x21))
    }

    fn read(&mut self, socket: Socket, buf: &mut Vec<u8>) -> Result<usize, BusError<u8, u8>> {
        self.calls.push(Call::TcpRead(socket, buf.len()));
        if !buf.is_empty() {
            buf[0] = 0x5A;
        }
        Ok(1)
    }

    fn write(&mut self, socket: Socket, buf: &Vec<u8>) -> Result<usize, BusError<u8, u8>> {
        self.calls.push(Call::TcpWrite(socket, buf.clone()));
        Ok(buf.len())
    }

    fn disconnect(&mut self, socket: Socket) -> Result<(), BusError<u8, u8>> {
        self.calls.push(Call::TcpDisconnect(socket));
        Ok(())
    }

    fn local_address(&mut self, socket: Socket) -> Result<SocketAddrV4, BusError<u8, u8>> {
        self.calls.push(Call::LocalAddr(socket));
        Ok(addr(10, 0, 0, 7, 4242))
    }

    fn close(&mut self, socket: Socket) -> Result<(), BusError<u8, u8>> {
        self.calls.push(Call::Close(socket));
        Ok(())
    }

    fn is_state_closed(&mut self, socket: Socket) -> Result<bool, BusError<u8, u8>> {
        self.calls.push(Call::IsStateClosed(socket));
        Ok(true)
    }

    fn is_state_tcp(&mut self, socket: Socket) -> Result<bool, BusError<u8, u8>> {
        self.calls.push(Call::IsStateTcp(socket));
        Ok(false)
    }

    fn is_state_udp(&mut self, socket: Socket) -> Result<bool, BusError<u8, u8>> {
        self.calls.push(Call::IsStateUdp(socket));
        Err(BusError::Spi(0x31))
    }
}

/// A two-wire address store that records every transaction and answers byte
/// `i` of its script to transaction `i`.
#[derive(Default)]
struct MockStore {
    transactions: Vec<(u8, Vec<u8>, usize)>,
    /// Per-transaction script: the byte to return, or a two-wire error code.
    bytes: Vec<Result<u8, u8>>,
}

impl TwoWireBus for MockStore {
    type Error = u8;

    fn write_read(&mut self, device: u8, tx: &Vec<u8>, read_len: usize) -> Result<Vec<u8>, u8> {
        let i = self.transactions.len();
        self.transactions.push((device, tx.clone(), read_len));
        match self.bytes.get(i) {
            Some(Ok(b)) => Ok(vec![*b; read_len]),
            Some(Err(c)) => Err(*c),
            None => Ok(vec![0; read_len]),
        }
    }
}

/// A sleep source that only records the requested durations.
#[derive(Default)]
struct MockDelay {
    sleeps: Vec<u32>,
}

impl DelaySource for MockDelay {
    fn delay_ms(&mut self, ms: u32) {
        self.sleeps.push(ms);
    }
}

fn board_with(
    driver: MockDriver,
    bytes: Vec<Result<u8, u8>>,
) -> PoeFeatherWing<MockDriver, MockStore> {
    PoeFeatherWing::new(driver, MockStore { transactions: Vec::new(), bytes })
}

fn polls(driver: &MockDriver) -> usize {
    driver.calls.iter().filter(|c| **c == Call::GetPhy).count()
}

#[test]
fn get_mac_reads_six_offsets_in_ascending_order() {
    let bytes = vec![Ok(0x00), Ok(0x11), Ok(0x22), Ok(0x33), Ok(0x44), Ok(0x55)];
    let mut board = board_with(MockDriver::default(), bytes);
    let mac = board.get_mac_address().unwrap();
    assert_eq!(mac.octets, [0x00, 0x11, 0x22, 0x33, 0x44, 0x55]);
    let expected: Vec<(u8, Vec<u8>, usize)> = vec![
        (0x50, vec![0xFA], 1),
        (0x50, vec![0xFB], 1),
        (0x50, vec![0xFC], 1),
        (0x50, vec![0xFD], 1),
        (0x50, vec![0xFE], 1),
        (0x50, vec![0xFF], 1),
    ];
    assert_eq!(board.store.transactions, expected);
    assert!(board.driver.calls.is_empty());
}

#[test]
fn get_mac_with_all_reads_failing_yields_zero_address() {
    let bytes = vec![Err(1), Err(2), Err(3), Err(4), Err(5), Err(6)];
    let mut board = board_with(MockDriver::default(), bytes);
    let mac = board.get_mac_address().unwrap();
    assert_eq!(mac.octets, [0, 0, 0, 0, 0, 0]);
    assert_eq!(board.store.transactions.len(), 6);
}

#[test]
fn get_mac_partial_failure_keeps_zero_for_failed_byte() {
    let bytes = vec![Ok(0xDE), Ok(0xAD), Err(9), Ok(0xBE), Ok(0xEF), Ok(0x01)];
    let mut board = board_with(MockDriver::default(), bytes);
    let mac = board.get_mac_address().unwrap();
    assert_eq!(mac.octets, [0xDE, 0xAD, 0x00, 0xBE, 0xEF, 0x01]);
}

#[test]
fn coordinator_with_mock_store_yields_its_literal_address() {
    let bytes = vec![Ok(0x00), Ok(0x11), Ok(0x22), Ok(0x33), Ok(0x44), Ok(0x55)];
    let mut board = board_with(MockDriver::default(), bytes);
    assert_eq!(
        board.get_mac_address(),
        Ok(Eui48Addr { octets: [0x00, 0x11, 0x22, 0x33, 0x44, 0x55] })
    );
}

#[test]
fn initialise_writes_mac_then_ip_then_gateway_then_subnet() {
    let bytes = vec![Ok(0x02), Ok(0x03), Ok(0x04), Ok(0x05), Ok(0x06), Ok(0x07)];
    let mut board = board_with(MockDriver::default(), bytes);
    let ip = Ipv4Addr { octets: [192, 168, 0, 2] };
    let gw = Ipv4Addr { octets: [192, 168, 0, 1] };
    let sn = Ipv4Addr { octets: [255, 255, 255, 0] };
    assert_eq!(board.initialise(&ip, &gw, &sn), Ok(()));
    assert_eq!(
        board.driver.calls,
        vec![
            Call::SetMac([0x02, 0x03, 0x04, 0x05, 0x06, 0x07]),
            Call::SetIp([192, 168, 0, 2]),
            Call::SetGateway([192, 168, 0, 1]),
            Call::SetSubnet([255, 255, 255, 0]),
        ]
    );
    assert_eq!(board.store.transactions.len(), 6);
}

#[test]
fn initialise_stops_at_first_failing_write() {
    let driver = MockDriver { fail_set_ip: Some(0x42), ..MockDriver::default() };
    let bytes = vec![Ok(1), Ok(2), Ok(3), Ok(4), Ok(5), Ok(6)];
    let mut board = board_with(driver, bytes);
    let ip = Ipv4Addr { octets: [10, 0, 0, 2] };
    let gw = Ipv4Addr { octets: [10, 0, 0, 1] };
    let sn = Ipv4Addr { octets: [255, 0, 0, 0] };
    assert_eq!(board.initialise(&ip, &gw, &sn), Err(Error::Spi(0x42)));
    assert_eq!(
        board.driver.calls,
        vec![Call::SetMac([1, 2, 3, 4, 5, 6]), Call::SetIp([10, 0, 0, 2])]
    );
}

#[test]
fn initialise_surfaces_pin_error_unchanged() {
    let driver = MockDriver { fail_set_gateway_pin: Some(0x17), ..MockDriver::default() };
    let mut board = board_with(driver, vec![Ok(0); 6]);
    let ip = Ipv4Addr { octets: [10, 0, 0, 2] };
    let gw = Ipv4Addr { octets: [10, 0, 0, 1] };
    let sn = Ipv4Addr { octets: [255, 0, 0, 0] };
    assert_eq!(board.initialise(&ip, &gw, &sn), Err(Error::Pin(0x17)));
    assert_eq!(board.driver.calls.len(), 3);
}

#[test]
fn initialise_aborts_on_store_failure_before_any_write() {
    let bytes = vec![Ok(0xAA), Err(0x66)];
    let mut board = board_with(MockDriver::default(), bytes);
    let ip = Ipv4Addr { octets: [10, 0, 0, 2] };
    let gw = Ipv4Addr { octets: [10, 0, 0, 1] };
    let sn = Ipv4Addr { octets: [255, 0, 0, 0] };
    assert_eq!(board.initialise(&ip, &gw, &sn), Err(Error::I2C(0x66)));
    assert!(board.driver.calls.is_empty());
    assert_eq!(board.store.transactions.len(), 2);
}

#[test]
fn linkup_timeout_500ms_polls_five_times_with_four_sleeps() {
    let mut board = board_with(MockDriver::default(), vec![]);
    let mut delay = MockDelay::default();
    assert_eq!(board.wait_for_linkup(&mut delay, 500), Err(Error::TimedOut));
    assert_eq!(polls(&board.driver), 5);
    assert_eq!(delay.sleeps, vec![100, 100, 100, 100]);
}

#[test]
fn linkup_succeeds_on_first_up_poll_without_sleeping() {
    let driver = MockDriver { links: vec![Ok(LinkStatus::Up)], ..MockDriver::default() };
    let mut board = board_with(driver, vec![]);
    let mut delay = MockDelay::default();
    assert_eq!(board.wait_for_linkup(&mut delay, 500), Ok(()));
    assert_eq!(polls(&board.driver), 1);
    assert!(delay.sleeps.is_empty());
}

#[test]
fn linkup_success_on_third_poll_sleeps_twice() {
    let driver = MockDriver {
        links: vec![Ok(LinkStatus::Down), Ok(LinkStatus::Down), Ok(LinkStatus::Up)],
        ..MockDriver::default()
    };
    let mut board = board_with(driver, vec![]);
    let mut delay = MockDelay::default();
    assert_eq!(board.wait_for_linkup(&mut delay, 1000), Ok(()));
    assert_eq!(polls(&board.driver), 3);
    assert_eq!(delay.sleeps, vec![100, 100]);
}

#[test]
fn linkup_timeout_below_one_quantum_fails_after_single_poll() {
    let mut board = board_with(MockDriver::default(), vec![]);
    let mut delay = MockDelay::default();
    assert_eq!(board.wait_for_linkup(&mut delay, 99), Err(Error::TimedOut));
    assert_eq!(polls(&board.driver), 1);
    assert!(delay.sleeps.is_empty());
}

#[test]
fn linkup_surfaces_poll_bus_error() {
    let driver = MockDriver { links: vec![Err(0x09)], ..MockDriver::default() };
    let mut board = board_with(driver, vec![]);
    let mut delay = MockDelay::default();
    assert_eq!(board.wait_for_linkup(&mut delay, 300), Err(Error::Spi(0x09)));
    assert_eq!(polls(&board.driver), 1);
    assert!(delay.sleeps.is_empty());
}

#[test]
fn facade_configuration_operations_pass_through() {
    let driver = MockDriver { version: 0x04, ..MockDriver::default() };
    let mut board = board_with(driver, vec![]);
    assert_eq!(board.get_version(), Ok(0x04));
    assert_eq!(board.get_phy_configuration(), Ok(phy_with(LinkStatus::Down)));
    assert_eq!(board.set_phy_configuration(phy_with(LinkStatus::Up)), Ok(()));
    let mac = Eui48Addr { octets: [1, 2, 3, 4, 5, 6] };
    assert_eq!(board.set_mac_address(&mac), Ok(()));
    let ip = Ipv4Addr { octets: [172, 16, 0, 2] };
    assert_eq!(board.set_ip_address(&ip), Ok(()));
    assert_eq!(board.set_gateway(&ip), Ok(()));
    assert_eq!(board.set_subnet_mask(&ip), Ok(()));
    assert_eq!(
        board.driver.calls,
        vec![
            Call::GetVersion,
            Call::GetPhy,
            Call::SetPhy(phy_with(LinkStatus::Up)),
            Call::SetMac([1, 2, 3, 4, 5, 6]),
            Call::SetIp([172, 16, 0, 2]),
            Call::SetGateway([172, 16, 0, 2]),
            Call::SetSubnet([172, 16, 0, 2]),
        ]
    );
    assert!(board.store.transactions.is_empty());
}

#[test]
fn facade_udp_operations_pass_through() {
    let mut board = board_with(MockDriver::default(), vec![]);
    let peer = addr(192, 168, 0, 9, 7000);
    assert_eq!(board.udp_bind(Socket::Socket0, 8080), Ok(()));
    let payload = vec![0x10, 0x20, 0x30];
    assert_eq!(board.udp_send_to(Socket::Socket1, &payload, &peer), Ok(3));
    assert_eq!(board.udp_send(Socket::Socket2, &payload), Ok(3));
    let mut buf = vec![0u8; 4];
    assert_eq!(board.udp_recv_from(Socket::Socket3, &mut buf), Ok((2, peer)));
    assert_eq!(buf, vec![0xAB, 0xCD, 0, 0]);
    assert_eq!(
        board.udp_peek_from(Socket::Socket4, &mut buf),
        Err(NbError::WouldBlock)
    );
    assert_eq!(
        board.udp_peek_from_header(Socket::Socket5),
        Err(NbError::Other(BusError::Spi(0x77)))
    );
    assert_eq!(
        board.driver.calls,
        vec![
            Call::UdpBind(Socket::Socket0, 8080),
            Call::UdpSendTo(Socket::Socket1, payload.clone(), peer),
            Call::UdpSend(Socket::Socket2, payload.clone()),
            Call::UdpRecvFrom(Socket::Socket3, 4),
            Call::UdpPeekFrom(Socket::Socket4, 4),
            Call::UdpPeekFromHeader(Socket::Socket5),
        ]
    );
}

#[test]
fn facade_tcp_and_common_operations_pass_through() {
    let mut board = board_with(MockDriver::default(), vec![]);
    let peer = addr(10, 1, 1, 1, 443);
    assert_eq!(board.tcp_connect(Socket::Socket0, 49000, &peer), Ok(()));
    assert_eq!(board.tcp_listen(Socket::Socket1, 80), Err(Error::Pin(0x21)));
    let mut buf = vec![0u8; 2];
    assert_eq!(board.tcp_read(Socket::Socket2, &mut buf), Ok(1));
    assert_eq!(buf, vec![0x5A, 0x00]);
    let payload = vec![9, 8, 7];
    assert_eq!(board.tcp_write(Socket::Socket3, &payload), Ok(3));
    assert_eq!(board.tcp_disconnect(Socket::Socket4), Ok(()));
    assert_eq!(board.local_addr(Socket::Socket5), Ok(addr(10, 0, 0, 7, 4242)));
    assert_eq!(board.close(Socket::Socket6), Ok(()));
    assert_eq!(board.is_state_closed(Socket::Socket7), Ok(true));
    assert_eq!(board.is_state_tcp(Socket::Socket0), Ok(false));
    assert_eq!(board.is_state_udp(Socket::Socket1), Err(Error::Spi(0x31)));
    assert_eq!(
        board.driver.calls,
        vec![
            Call::TcpConnect(Socket::Socket0, 49000, peer),
            Call::TcpListen(Socket::Socket1, 80),
            Call::TcpRead(Socket::Socket2, 2),
            Call::TcpWrite(Socket::Socket3, payload.clone()),
            Call::TcpDisconnect(Socket::Socket4),
            Call::LocalAddr(Socket::Socket5),
            Call::Close(Socket::Socket6),
            Call::IsStateClosed(Socket::Socket7),
            Call::IsStateTcp(Socket::Socket0),
            Call::IsStateUdp(Socket::Socket1),
        ]
    );
}

#[test]
fn unified_error_retags_bus_errors_losslessly() {
    let spi: Error<u8, u8, u8> = Error::from(BusError::Spi(0x0A));
    let pin: Error<u8, u8, u8> = Error::from(BusError::Pin(0x0B));
    assert_eq!(spi, Error::Spi(0x0A));
    assert_eq!(pin, Error::Pin(0x0B));
}

#[test]
fn try_get_mac_reads_all_six_offsets_on_success() {
    let bytes = vec![Ok(0xA0), Ok(0xA1), Ok(0xA2), Ok(0xA3), Ok(0xA4), Ok(0xA5)];
    let mut board = board_with(MockDriver::default(), bytes);
    let mac = board.try_get_mac_address().unwrap();
    assert_eq!(mac.octets, [0xA0, 0xA1, 0xA2, 0xA3, 0xA4, 0xA5]);
    assert_eq!(board.store.transactions.len(), 6);
}

#[test]
fn try_get_mac_aborts_at_first_failing_transaction() {
    let bytes = vec![Ok(0xA0), Err(0x07)];
    let mut board = board_with(MockDriver::default(), bytes);
    assert_eq!(board.try_get_mac_address(), Err(0x07));
    assert_eq!(
        board.store.transactions,
        vec![(0x50, vec![0xFA], 1), (0x50, vec![0xFB], 1)]
    );
}
