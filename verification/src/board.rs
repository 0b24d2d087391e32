//! The board coordinator: owns the controller register driver handle and the
//! two-wire bus handle, composes hardware-address retrieval with controller
//! initialization, implements the bounded link-up wait, and re-exposes the
//! controller's socket operations through the unified error type.
//!
//! Every contract here is stated over the capability transcripts of
//! [`crate::bus`]: what was called, with which arguments, in which order,
//! and how the results were passed back.

use vstd::prelude::*;

use crate::bus::DelaySource;
use crate::bus::DriverOp;
use crate::bus::RegisterDriver;
use crate::bus::TwoWireBus;
use crate::bus::TwoWireOp;
use crate::controller::LinkStatus;
use crate::controller::PhyConfig;
use crate::controller::Socket;
use crate::error::BusError;
use crate::error::Error;
use crate::error::NbError;
use crate::net::Eui48Addr;
use crate::net::Ipv4Addr;
use crate::net::SocketAddrV4;

verus! {

broadcast use vstd::array::group_array_axioms;

/// 7-bit two-wire address of the hardware-address store.
pub const STORE_DEVICE_ADDRESS: u8 = 0x50;

/// The first of the six fixed one-byte registers, 0xFA through 0xFF, that
/// hold the factory-programmed hardware address.
pub const FIRST_MAC_OFFSET: u8 = 0xFA;

/// Whether `t` is the transaction that reads byte `i` of the hardware
/// address: one byte written (register 0xFA + i), one byte read back, at the
/// store's device address.
pub open spec fn mac_read_shape<E>(t: TwoWireOp<E>, i: int) -> bool {
    &&& t.device == STORE_DEVICE_ADDRESS
    &&& t.tx == seq![(FIRST_MAC_OFFSET + i) as u8]
    &&& t.read_len == 1
}

/// Whether `t` is one full pass over the address store: exactly six
/// write-then-read transactions, one per fixed offset, in ascending offset
/// order.
pub open spec fn mac_read_trace<E>(t: Seq<TwoWireOp<E>>) -> bool {
    &&& t.len() == 6
    &&& forall|i: int| 0 <= i < 6 ==> mac_read_shape(#[trigger] t[i], i)
}

/// The byte one address-read transaction contributes: the byte the store
/// returned, or the output buffer's prior value — zero — where the
/// transaction failed (the degrade-not-fail policy).
pub open spec fn mac_byte<E>(outcome: Result<Seq<u8>, E>) -> u8 {
    match outcome {
        Ok(data) => if data.len() >= 1 {
            data[0]
        } else {
            0
        },
        Err(_) => 0,
    }
}

/// The hardware address assembled from one pass over the store, byte `i`
/// taken from transaction `i`.
pub open spec fn mac_of<E>(t: Seq<TwoWireOp<E>>) -> Seq<u8> {
    Seq::new(6, |i: int| mac_byte(t[i].outcome))
}

/// Whether `t` is a strict pass over the store in which every transaction
/// succeeded.
pub open spec fn strict_mac_read_ok<E>(t: Seq<TwoWireOp<E>>) -> bool {
    &&& mac_read_trace(t)
    &&& forall|i: int| 0 <= i < 6 ==> (#[trigger] t[i].outcome) is Ok
}

/// Whether `t` is a strict pass over the store that stopped at its first
/// failing transaction, whose error was `e`.
pub open spec fn strict_mac_read_failed<E>(t: Seq<TwoWireOp<E>>, e: E) -> bool {
    &&& 1 <= t.len() <= 6
    &&& forall|i: int| 0 <= i < t.len() ==> mac_read_shape(#[trigger] t[i], i)
    &&& forall|i: int| 0 <= i < t.len() - 1 ==> (#[trigger] t[i].outcome) is Ok
    &&& t.last().outcome == Err::<Seq<u8>, E>(e)
}

/// Degrade-not-fail: where every transaction of one pass over the address
/// store failed, the assembled hardware address is the six-byte all-zero
/// address rather than a propagated error.
pub proof fn lemma_all_failed_reads_give_zero_address<E>(t: Seq<TwoWireOp<E>>)
    requires
        mac_read_trace(t),
        forall|i: int| 0 <= i < t.len() ==> (#[trigger] t[i].outcome) is Err,
    ensures
        mac_of(t) == seq![0u8, 0u8, 0u8, 0u8, 0u8, 0u8],
{
    assert(mac_of(t) =~= seq![0u8, 0u8, 0u8, 0u8, 0u8, 0u8]);
}

/// Whether `op` is step `i` of the initialization write sequence with the
/// given arguments: the hardware address first, then the device IP, the
/// gateway, and the subnet mask.
pub open spec fn init_step<S, P>(
    op: DriverOp<S, P>,
    i: int,
    mac: Seq<u8>,
    ip: Seq<u8>,
    gateway: Seq<u8>,
    subnet_mask: Seq<u8>,
) -> bool {
    match op {
        DriverOp::SetHardwareAddress { mac: m, .. } => i == 0 && m == mac,
        DriverOp::SetDeviceIp { ip: a, .. } => i == 1 && a == ip,
        DriverOp::SetGateway { gateway: a, .. } => i == 2 && a == gateway,
        DriverOp::SetSubnetMask { subnet_mask: a, .. } => i == 3 && a == subnet_mask,
        _ => false,
    }
}

/// The outcome of an initialization write step.
pub open spec fn init_step_outcome<S, P>(op: DriverOp<S, P>) -> Result<(), BusError<S, P>> {
    match op {
        DriverOp::SetHardwareAddress { outcome, .. } => outcome,
        DriverOp::SetDeviceIp { outcome, .. } => outcome,
        DriverOp::SetGateway { outcome, .. } => outcome,
        DriverOp::SetSubnetMask { outcome, .. } => outcome,
        _ => arbitrary(),
    }
}

/// What `initialise` did, read off the two transcripts: a strict pass over
/// the address store, then a prefix of the four-step write sequence into the
/// controller, stopped at the first failure, whose error is returned
/// re-tagged and otherwise unchanged.
pub open spec fn initialise_post<CRD: RegisterDriver, TWI: TwoWireBus>(
    pre: PoeFeatherWing<CRD, TWI>,
    post: PoeFeatherWing<CRD, TWI>,
    ip: Seq<u8>,
    gateway: Seq<u8>,
    subnet_mask: Seq<u8>,
    r: Result<(), Error<CRD::SpiError, CRD::PinError, TWI::Error>>,
) -> bool {
    let t = post.store.log().skip(pre.store.log().len() as int);
    let d = post.driver.log().skip(pre.driver.log().len() as int);
    &&& pre.store.log().len() <= post.store.log().len()
    &&& pre.driver.log().len() <= post.driver.log().len()
    &&& post.store.log() == pre.store.log() + t
    &&& post.driver.log() == pre.driver.log() + d
    &&& (forall|i: int|
        0 <= i < d.len() ==> init_step(#[trigger] d[i], i, mac_of(t), ip, gateway, subnet_mask))
    &&& (forall|i: int| 0 <= i < d.len() - 1 ==> (#[trigger] init_step_outcome(d[i])) is Ok)
    &&& match r {
        Ok(_) => {
            &&& strict_mac_read_ok(t)
            &&& d.len() == 4
            &&& init_step_outcome(d.last()) is Ok
        },
        Err(Error::I2C(e)) => {
            &&& strict_mac_read_failed(t, e)
            &&& d.len() == 0
        },
        Err(Error::TimedOut) => false,
        Err(e) => {
            &&& strict_mac_read_ok(t)
            &&& 1 <= d.len() <= 4
            &&& crate::error::retag::<(), CRD::SpiError, CRD::PinError, TWI::Error>(
                init_step_outcome(d.last()),
            ) == Err::<(), Error<CRD::SpiError, CRD::PinError, TWI::Error>>(e)
        },
    }
}

/// Whether `op` is a PHY-configuration poll.
pub open spec fn is_poll<S, P>(op: DriverOp<S, P>) -> bool {
    op matches DriverOp::GetPhyConfig { .. }
}

/// The outcome of a PHY-configuration poll.
pub open spec fn poll_outcome<S, P>(op: DriverOp<S, P>) -> Result<PhyConfig, BusError<S, P>> {
    match op {
        DriverOp::GetPhyConfig { outcome } => outcome,
        _ => arbitrary(),
    }
}

/// A poll that read the PHY configuration and found the link down.
pub open spec fn poll_down<S, P>(op: DriverOp<S, P>) -> bool {
    &&& is_poll(op)
    &&& (poll_outcome(op) matches Ok(cfg) && cfg.link == LinkStatus::Down)
}

/// A poll that read the PHY configuration and found the link up.
pub open spec fn poll_up<S, P>(op: DriverOp<S, P>) -> bool {
    &&& is_poll(op)
    &&& (poll_outcome(op) matches Ok(cfg) && cfg.link == LinkStatus::Up)
}

/// How many polls the wait loop performs at most: one per full 100 ms
/// quantum of the timeout, and always the one initial poll. A timeout below
/// one quantum fails on the first check, after that single poll.
pub open spec fn poll_budget(bound: int) -> int {
    if bound < 1 {
        1
    } else {
        bound
    }
}

/// What `wait_for_linkup` did, read off the appended poll transcript `d`
/// and sleep transcript `sleeps`, with `bound` the timeout in 100 ms
/// quanta: every record is a poll, every poll but the last found the link
/// down, every sleep is the fixed 100 ms quantum, and one sleep stands
/// between consecutive polls — none after the poll that decided. Success
/// means the last poll found the link up; a timeout means the whole budget
/// was spent on polls that found it down; a bus failure on a poll is
/// surfaced re-tagged and otherwise unchanged.
pub open spec fn linkup_post<S, P, I>(
    d: Seq<DriverOp<S, P>>,
    sleeps: Seq<u32>,
    bound: int,
    r: Result<(), Error<S, P, I>>,
) -> bool {
    &&& (forall|i: int| 0 <= i < d.len() ==> is_poll(#[trigger] d[i]))
    &&& (forall|i: int| 0 <= i < d.len() - 1 ==> poll_down(#[trigger] d[i]))
    &&& (forall|i: int| 0 <= i < sleeps.len() ==> sleeps[i] == 100u32)
    &&& 1 <= d.len() <= poll_budget(bound)
    &&& sleeps.len() == d.len() - 1
    &&& match r {
        Ok(_) => poll_up(d.last()),
        Err(Error::TimedOut) => d.len() == poll_budget(bound) && poll_down(d.last()),
        Err(Error::I2C(_)) => false,
        Err(e) => (poll_outcome(d.last()) matches Err(be) && crate::error::bus_to_error::<
            S,
            P,
            I,
        >(be) == e),
    }
}

/// The board coordinator. It exclusively owns the controller register driver
/// handle and the two-wire handle for its whole lifetime; there is exactly
/// one coordinator per board in a single-threaded program, so no locking
/// exists or is needed.
pub struct PoeFeatherWing<CRD, TWI> {
    /// The controller register driver.
    pub driver: CRD,
    /// The two-wire handle of the hardware-address store.
    pub store: TWI,
}

impl<CRD: RegisterDriver, TWI: TwoWireBus> PoeFeatherWing<CRD, TWI> {
    /// Construct a coordinator from the two bus handles.
    pub fn new(driver: CRD, store: TWI) -> (board: Self)
        ensures
            board.driver == driver,
            board.store == store,
    {
        PoeFeatherWing { driver, store }
    }

    /// Read the 6-byte hardware address from the two-wire store,
    /// best-effort: each of the six fixed offsets is read once, in ascending
    /// order, and a failed transaction leaves the corresponding output byte
    /// at its zero-initialized prior value instead of aborting the pass.
    /// The operation as a whole never fails.
    pub fn get_mac_address(&mut self) -> (r: Result<Eui48Addr, TWI::Error>)
        ensures
            final(self).driver == old(self).driver,
            final(self).store.log().len() == old(self).store.log().len() + 6,
            r is Ok,
            ({
                let t = final(self).store.log().skip(old(self).store.log().len() as int);
                &&& final(self).store.log() == old(self).store.log() + t
                &&& mac_read_trace(t)
                &&& (r matches Ok(mac) ==> mac.octets@ == mac_of(t))
            }),
    {
        let ghost pre_driver = self.driver;
        let ghost pre_log = self.store.log();
        let mut collect: [u8; 6] = [0; 6];
        let mut i: usize = 0;
        while i < 6
            invariant
                i <= 6,
                self.driver == pre_driver,
                self.store.log().len() == pre_log.len() + i,
                self.store.log().subrange(0, pre_log.len() as int) == pre_log,
                forall|j: int|
                    0 <= j < i ==> mac_read_shape(
                        #[trigger] self.store.log()[pre_log.len() + j],
                        j,
                    ),
                forall|j: int|
                    0 <= j < i ==> collect@[j] == mac_byte(
                        #[trigger] self.store.log()[pre_log.len() + j].outcome,
                    ),
                forall|j: int| i <= j < 6 ==> collect@[j] == 0,
            decreases 6 - i,
        {
            let ghost loop_pre_log = self.store.log();
            let offset: u8 = FIRST_MAC_OFFSET + (i as u8);
            let mut tx: Vec<u8> = Vec::new();
            tx.push(offset);
            let res = self.store.write_read(STORE_DEVICE_ADDRESS, &tx, 1);
            match res {
                Ok(data) => {
                    collect[i] = data[0];
                },
                Err(_) => {},
            }
            proof {
                assert(self.store.log() == loop_pre_log.push(self.store.log().last()));
                assert(self.store.log().subrange(0, pre_log.len() as int)
                    == loop_pre_log.subrange(0, pre_log.len() as int));
            }
            i += 1;
        }
        let mac = Eui48Addr { octets: collect };
        proof {
            let t = self.store.log().skip(pre_log.len() as int);
            assert(self.store.log() == pre_log + t);
            assert forall|k: int| 0 <= k < 6 implies mac.octets@[k] == mac_of(t)[k] by {
                assert(t[k] == self.store.log()[pre_log.len() + k]);
                assert(mac.octets@[k] == collect@[k]);
                assert(collect@[k] == mac_byte(self.store.log()[pre_log.len() + k].outcome));
            }
            assert(mac.octets@ =~= mac_of(t));
            assert forall|k: int| 0 <= k < 6 implies mac_read_shape(#[trigger] t[k], k) by {
                assert(t[k] == self.store.log()[pre_log.len() + k]);
                assert(mac_read_shape(self.store.log()[pre_log.len() + k], k));
            }
        }
        Ok(mac)
    }

    /// Read the hardware address strictly: the six fixed offsets are read in
    /// ascending order and the first failing transaction aborts the pass,
    /// surfacing its two-wire error. This is the explicit counterpart of the
    /// best-effort policy of `get_mac_address`; `initialise` reads through
    /// it, so a store failure aborts initialization.
    pub fn try_get_mac_address(&mut self) -> (r: Result<Eui48Addr, TWI::Error>)
        ensures
            final(self).driver == old(self).driver,
            old(self).store.log().len() <= final(self).store.log().len(),
            ({
                let t = final(self).store.log().skip(old(self).store.log().len() as int);
                &&& final(self).store.log() == old(self).store.log() + t
                &&& (r matches Ok(mac) ==> strict_mac_read_ok(t) && mac.octets@ == mac_of(t))
                &&& (r matches Err(e) ==> strict_mac_read_failed(t, e))
            }),
    {
        let ghost pre_driver = self.driver;
        let ghost pre_log = self.store.log();
        let mut collect: [u8; 6] = [0; 6];
        let mut i: usize = 0;
        while i < 6
            invariant
                i <= 6,
                pre_driver == old(self).driver,
                pre_log == old(self).store.log(),
                self.driver == pre_driver,
                self.store.log().len() == pre_log.len() + i,
                self.store.log().subrange(0, pre_log.len() as int) == pre_log,
                forall|j: int|
                    0 <= j < i ==> mac_read_shape(
                        #[trigger] self.store.log()[pre_log.len() + j],
                        j,
                    ),
                forall|j: int|
                    0 <= j < i ==> (#[trigger] self.store.log()[pre_log.len() + j].outcome)
                        is Ok,
                forall|j: int|
                    0 <= j < i ==> collect@[j] == mac_byte(
                        #[trigger] self.store.log()[pre_log.len() + j].outcome,
                    ),
            decreases 6 - i,
        {
            let ghost loop_pre_log = self.store.log();
            let offset: u8 = FIRST_MAC_OFFSET + (i as u8);
            let mut tx: Vec<u8> = Vec::new();
            tx.push(offset);
            let res = self.store.write_read(STORE_DEVICE_ADDRESS, &tx, 1);
            proof {
                assert(self.store.log() == loop_pre_log.push(self.store.log().last()));
                assert(self.store.log().subrange(0, pre_log.len() as int)
                    == loop_pre_log.subrange(0, pre_log.len() as int));
            }
            match res {
                Ok(data) => {
                    collect[i] = data[0];
                },
                Err(e) => {
                    proof {
                        let t = self.store.log().skip(pre_log.len() as int);
                        assert(self.store.log() == pre_log + t);
                        assert(t.len() == i + 1);
                        assert forall|k: int| 0 <= k < t.len() implies mac_read_shape(
                            #[trigger] t[k],
                            k,
                        ) by {
                            assert(t[k] == self.store.log()[pre_log.len() + k]);
                        }
                        assert forall|k: int| 0 <= k < t.len() - 1 implies (#[trigger] t[k].outcome)
                            is Ok by {
                            assert(t[k] == self.store.log()[pre_log.len() + k]);
                        }
                        assert(t.last() == self.store.log().last());
                        assert(strict_mac_read_failed(t, e));
                    }
                    return Err(e);
                },
            }
            i += 1;
        }
        let mac = Eui48Addr { octets: collect };
        proof {
            let t = self.store.log().skip(pre_log.len() as int);
            assert(self.store.log() == pre_log + t);
            assert forall|k: int| 0 <= k < 6 implies mac.octets@[k] == mac_of(t)[k] && mac_read_shape(
                #[trigger] t[k],
                k,
            ) && t[k].outcome is Ok by {
                assert(t[k] == self.store.log()[pre_log.len() + k]);
            }
            assert(mac.octets@ =~= mac_of(t));
            assert(strict_mac_read_ok(t));
        }
        Ok(mac)
    }

    /// Initialize the board: read the hardware address strictly from the
    /// two-wire store, then write it, the device IP, the gateway and the
    /// subnet mask into the controller, in that order. The sequence stops at
    /// the first failing step and that failure is returned re-tagged and
    /// otherwise unchanged; the controller is left partially configured, and
    /// the caller retries the whole sequence. The hardware address always
    /// comes from the store — the controller has no second source for it.
    pub fn initialise(&mut self, ip: &Ipv4Addr, gateway: &Ipv4Addr, subnet_mask: &Ipv4Addr) -> (r:
        Result<(), Error<CRD::SpiError, CRD::PinError, TWI::Error>>)
        ensures
            initialise_post(
                *old(self),
                *final(self),
                ip.octets@,
                gateway.octets@,
                subnet_mask.octets@,
                r,
            ),
    {
        let ghost pre = *self;
        let mac = match self.try_get_mac_address() {
            Ok(mac) => mac,
            Err(e) => {
                proof {
                    let d = self.driver.log().skip(pre.driver.log().len() as int);
                    assert(d =~= Seq::<DriverOp<CRD::SpiError, CRD::PinError>>::empty());
                    assert(self.driver.log() =~= pre.driver.log() + d);
                }
                return Err(Error::I2C(e));
            },
        };
        let ghost d0 = self.driver.log();
        let r1 = self.driver.set_hardware_address(&mac);
        proof {
            assert(self.driver.log().subrange(0, d0.len() as int) =~= d0);
        }
        match r1 {
            Ok(_) => {},
            Err(e) => {
                proof {
                    self.lemma_init_trace(pre, d0, 1);
                }
                return Err(Error::from(e));
            },
        }
        let r2 = self.driver.set_device_ip(ip);
        proof {
            assert(self.driver.log().subrange(0, d0.len() as int) =~= d0);
        }
        match r2 {
            Ok(_) => {},
            Err(e) => {
                proof {
                    self.lemma_init_trace(pre, d0, 2);
                }
                return Err(Error::from(e));
            },
        }
        let r3 = self.driver.set_gateway(gateway);
        proof {
            assert(self.driver.log().subrange(0, d0.len() as int) =~= d0);
        }
        match r3 {
            Ok(_) => {},
            Err(e) => {
                proof {
                    self.lemma_init_trace(pre, d0, 3);
                }
                return Err(Error::from(e));
            },
        }
        let r4 = self.driver.set_subnet_mask(subnet_mask);
        proof {
            assert(self.driver.log().subrange(0, d0.len() as int) =~= d0);
        }
        match r4 {
            Ok(_) => {},
            Err(e) => {
                proof {
                    self.lemma_init_trace(pre, d0, 4);
                }
                return Err(Error::from(e));
            },
        }
        proof {
            self.lemma_init_trace(pre, d0, 4);
        }
        Ok(())
    }

    /// Wait for the physical link to come up, polling the PHY configuration
    /// through the controller and sleeping a fixed 100 ms quantum between
    /// polls. The first poll that reports the link up ends the wait with
    /// success, with no further sleep; once the budget of `timeout_ms / 100`
    /// polls is spent without link-up, the wait ends with `Error::TimedOut`.
    /// A timeout below 100 ms fails on the first check, after the one
    /// initial poll. A bus failure while polling aborts the wait and is
    /// returned re-tagged and otherwise unchanged.
    pub fn wait_for_linkup<D: DelaySource>(&mut self, delay: &mut D, timeout_ms: usize) -> (r:
        Result<(), Error<CRD::SpiError, CRD::PinError, TWI::Error>>)
        ensures
            final(self).store == old(self).store,
            old(self).driver.log().len() <= final(self).driver.log().len(),
            old(delay).log().len() <= final(delay).log().len(),
            ({
                let d = final(self).driver.log().skip(old(self).driver.log().len() as int);
                let sleeps = final(delay).log().skip(old(delay).log().len() as int);
                &&& final(self).driver.log() == old(self).driver.log() + d
                &&& final(delay).log() == old(delay).log() + sleeps
                &&& linkup_post(d, sleeps, timeout_ms as int / 100, r)
            }),
    {
        let bound: usize = timeout_ms / 100;
        let ghost pre_d = self.driver.log();
        let ghost pre_s = delay.log();
        let mut attempts: usize = 0;
        loop
            invariant
                pre_d == old(self).driver.log(),
                pre_s == old(delay).log(),
                self.store == old(self).store,
                bound == timeout_ms / 100,
                attempts < bound || attempts == 0,
                self.driver.log().len() == pre_d.len() + attempts,
                self.driver.log().subrange(0, pre_d.len() as int) == pre_d,
                delay.log().len() == pre_s.len() + attempts,
                delay.log().subrange(0, pre_s.len() as int) == pre_s,
                forall|j: int|
                    pre_d.len() <= j < self.driver.log().len() ==> poll_down(
                        #[trigger] self.driver.log()[j],
                    ),
                forall|j: int|
                    pre_s.len() <= j < delay.log().len() ==> delay.log()[j] == 100u32,
            decreases bound - attempts,
        {
            let res = self.driver.get_phy_config();
            proof {
                assert(self.driver.log().subrange(0, pre_d.len() as int) =~= pre_d);
                let d = self.driver.log().skip(pre_d.len() as int);
                let sleeps = delay.log().skip(pre_s.len() as int);
                assert(self.driver.log() =~= pre_d + d);
                assert(delay.log() =~= pre_s + sleeps);
                assert(d.len() == attempts + 1);
                assert(d.last() == self.driver.log().last());
                assert forall|k: int| 0 <= k < d.len() - 1 implies poll_down(#[trigger] d[k]) by {
                    assert(d[k] == self.driver.log()[pre_d.len() + k]);
                }
                assert forall|k: int| 0 <= k < sleeps.len() implies sleeps[k] == 100u32 by {
                    assert(sleeps[k] == delay.log()[pre_s.len() + k]);
                }
            }
            match res {
                Ok(cfg) => {
                    if cfg.link == LinkStatus::Up {
                        return Ok(());
                    }
                },
                Err(e) => {
                    return Err(Error::from(e));
                },
            }
            attempts = attempts + 1;
            if attempts >= bound {
                return Err(Error::TimedOut);
            }
            delay.delay_ms(100);
            proof {
                assert(delay.log().subrange(0, pre_s.len() as int) =~= pre_s);
            }
        }
    }


    /// Read the PHY configuration from the controller: a direct, one-to-one delegation to the controller register
    /// driver, with only the error re-tagged into the unified type.
    pub fn get_phy_configuration(&mut self) -> (r: Result<
        PhyConfig,
        Error<CRD::SpiError, CRD::PinError, TWI::Error>,
    >)
        ensures
            final(self).store == old(self).store,
            final(self).driver.log() == old(self).driver.log().push(
                final(self).driver.log().last(),
            ),
            (match final(self).driver.log().last() {
                DriverOp::GetPhyConfig { outcome } => {
                    &&& r == crate::error::retag::<
                        PhyConfig,
                        CRD::SpiError,
                        CRD::PinError,
                        TWI::Error,
                    >(outcome)
                },
                _ => false,
            }),
    {
        match self.driver.get_phy_config() {
            Ok(v) => Ok(v),
            Err(e) => Err(Error::from(e)),
        }
    }

    /// Write the PHY configuration into the controller: a direct, one-to-one delegation to the controller register
    /// driver, with only the error re-tagged into the unified type.
    pub fn set_phy_configuration(&mut self, phycfg: PhyConfig) -> (r: Result<
        (),
        Error<CRD::SpiError, CRD::PinError, TWI::Error>,
    >)
        ensures
            final(self).store == old(self).store,
            final(self).driver.log() == old(self).driver.log().push(
                final(self).driver.log().last(),
            ),
            (match final(self).driver.log().last() {
                DriverOp::SetPhyConfig { config: arg_config, outcome } => {
                    &&& arg_config == phycfg
                    &&& r == crate::error::retag::<
                        (),
                        CRD::SpiError,
                        CRD::PinError,
                        TWI::Error,
                    >(outcome)
                },
                _ => false,
            }),
    {
        match self.driver.set_phy_config(phycfg) {
            Ok(v) => Ok(v),
            Err(e) => Err(Error::from(e)),
        }
    }

    /// Read the controller's version register: a direct, one-to-one delegation to the controller register
    /// driver, with only the error re-tagged into the unified type.
    pub fn get_version(&mut self) -> (r: Result<
        u8,
        Error<CRD::SpiError, CRD::PinError, TWI::Error>,
    >)
        ensures
            final(self).store == old(self).store,
            final(self).driver.log() == old(self).driver.log().push(
                final(self).driver.log().last(),
            ),
            (match final(self).driver.log().last() {
                DriverOp::GetVersion { outcome } => {
                    &&& r == crate::error::retag::<
                        u8,
                        CRD::SpiError,
                        CRD::PinError,
                        TWI::Error,
                    >(outcome)
                },
                _ => false,
            }),
    {
        match self.driver.get_version() {
            Ok(v) => Ok(v),
            Err(e) => Err(Error::from(e)),
        }
    }

    /// Write the hardware address into the controller: a direct, one-to-one delegation to the controller register
    /// driver, with only the error re-tagged into the unified type.
    pub fn set_mac_address(&mut self, mac: &Eui48Addr) -> (r: Result<
        (),
        Error<CRD::SpiError, CRD::PinError, TWI::Error>,
    >)
        ensures
            final(self).store == old(self).store,
            final(self).driver.log() == old(self).driver.log().push(
                final(self).driver.log().last(),
            ),
            (match final(self).driver.log().last() {
                DriverOp::SetHardwareAddress { mac: arg_mac, outcome } => {
                    &&& arg_mac == mac.octets@
                    &&& r == crate::error::retag::<
                        (),
                        CRD::SpiError,
                        CRD::PinError,
                        TWI::Error,
                    >(outcome)
                },
                _ => false,
            }),
    {
        match self.driver.set_hardware_address(mac) {
            Ok(v) => Ok(v),
            Err(e) => Err(Error::from(e)),
        }
    }

    /// Write the device IPv4 address into the controller: a direct, one-to-one delegation to the controller register
    /// driver, with only the error re-tagged into the unified type.
    pub fn set_ip_address(&mut self, ip: &Ipv4Addr) -> (r: Result<
        (),
        Error<CRD::SpiError, CRD::PinError, TWI::Error>,
    >)
        ensures
            final(self).store == old(self).store,
            final(self).driver.log() == old(self).driver.log().push(
                final(self).driver.log().last(),
            ),
            (match final(self).driver.log().last() {
                DriverOp::SetDeviceIp { ip: arg_ip, outcome } => {
                    &&& arg_ip == ip.octets@
                    &&& r == crate::error::retag::<
                        (),
                        CRD::SpiError,
                        CRD::PinError,
                        TWI::Error,
                    >(outcome)
                },
                _ => false,
            }),
    {
        match self.driver.set_device_ip(ip) {
            Ok(v) => Ok(v),
            Err(e) => Err(Error::from(e)),
        }
    }

    /// Write the gateway address into the controller: a direct, one-to-one delegation to the controller register
    /// driver, with only the error re-tagged into the unified type.
    pub fn set_gateway(&mut self, gateway: &Ipv4Addr) -> (r: Result<
        (),
        Error<CRD::SpiError, CRD::PinError, TWI::Error>,
    >)
        ensures
            final(self).store == old(self).store,
            final(self).driver.log() == old(self).driver.log().push(
                final(self).driver.log().last(),
            ),
            (match final(self).driver.log().last() {
                DriverOp::SetGateway { gateway: arg_gateway, outcome } => {
                    &&& arg_gateway == gateway.octets@
                    &&& r == crate::error::retag::<
                        (),
                        CRD::SpiError,
                        CRD::PinError,
                        TWI::Error,
                    >(outcome)
                },
                _ => false,
            }),
    {
        match self.driver.set_gateway(gateway) {
            Ok(v) => Ok(v),
            Err(e) => Err(Error::from(e)),
        }
    }

    /// Write the subnet mask into the controller: a direct, one-to-one delegation to the controller register
    /// driver, with only the error re-tagged into the unified type.
    pub fn set_subnet_mask(&mut self, subnet_mask: &Ipv4Addr) -> (r: Result<
        (),
        Error<CRD::SpiError, CRD::PinError, TWI::Error>,
    >)
        ensures
            final(self).store == old(self).store,
            final(self).driver.log() == old(self).driver.log().push(
                final(self).driver.log().last(),
            ),
            (match final(self).driver.log().last() {
                DriverOp::SetSubnetMask { subnet_mask: arg_subnet_mask, outcome } => {
                    &&& arg_subnet_mask == subnet_mask.octets@
                    &&& r == crate::error::retag::<
                        (),
                        CRD::SpiError,
                        CRD::PinError,
                        TWI::Error,
                    >(outcome)
                },
                _ => false,
            }),
    {
        match self.driver.set_subnet_mask(subnet_mask) {
            Ok(v) => Ok(v),
            Err(e) => Err(Error::from(e)),
        }
    }

    /// Bind `socket` to the local UDP `port`: a direct, one-to-one delegation to the controller register
    /// driver, with only the error re-tagged into the unified type.
    pub fn udp_bind(&mut self, socket: Socket, port: u16) -> (r: Result<
        (),
        Error<CRD::SpiError, CRD::PinError, TWI::Error>,
    >)
        ensures
            final(self).store == old(self).store,
            final(self).driver.log() == old(self).driver.log().push(
                final(self).driver.log().last(),
            ),
            (match final(self).driver.log().last() {
                DriverOp::UdpBind { socket: arg_socket, port: arg_port, outcome } => {
                    &&& arg_socket == socket
                    &&& arg_port == port
                    &&& r == crate::error::retag::<
                        (),
                        CRD::SpiError,
                        CRD::PinError,
                        TWI::Error,
                    >(outcome)
                },
                _ => false,
            }),
    {
        match self.driver.bind_udp(socket, port) {
            Ok(v) => Ok(v),
            Err(e) => Err(Error::from(e)),
        }
    }

    /// Send a datagram from `socket` to `addr`: a direct, one-to-one delegation to the controller register
    /// driver, with only the error re-tagged into the unified type.
    pub fn udp_send_to(&mut self, socket: Socket, buf: &Vec<u8>, addr: &SocketAddrV4) -> (r: Result<
        usize,
        Error<CRD::SpiError, CRD::PinError, TWI::Error>,
    >)
        ensures
            final(self).store == old(self).store,
            final(self).driver.log() == old(self).driver.log().push(
                final(self).driver.log().last(),
            ),
            (match final(self).driver.log().last() {
                DriverOp::UdpSendTo { socket: arg_socket, data: arg_data, addr: arg_addr, outcome } => {
                    &&& arg_socket == socket
                    &&& arg_data == buf@
                    &&& arg_addr == *addr
                    &&& r == crate::error::retag::<
                        usize,
                        CRD::SpiError,
                        CRD::PinError,
                        TWI::Error,
                    >(outcome)
                },
                _ => false,
            }),
    {
        match self.driver.send_to(socket, buf, addr) {
            Ok(v) => Ok(v),
            Err(e) => Err(Error::from(e)),
        }
    }

    /// Send a datagram from `socket` to its current destination: a direct, one-to-one delegation to the controller register
    /// driver, with only the error re-tagged into the unified type.
    pub fn udp_send(&mut self, socket: Socket, buf: &Vec<u8>) -> (r: Result<
        usize,
        Error<CRD::SpiError, CRD::PinError, TWI::Error>,
    >)
        ensures
            final(self).store == old(self).store,
            final(self).driver.log() == old(self).driver.log().push(
                final(self).driver.log().last(),
            ),
            (match final(self).driver.log().last() {
                DriverOp::UdpSend { socket: arg_socket, data: arg_data, outcome } => {
                    &&& arg_socket == socket
                    &&& arg_data == buf@
                    &&& r == crate::error::retag::<
                        usize,
                        CRD::SpiError,
                        CRD::PinError,
                        TWI::Error,
                    >(outcome)
                },
                _ => false,
            }),
    {
        match self.driver.send(socket, buf) {
            Ok(v) => Ok(v),
            Err(e) => Err(Error::from(e)),
        }
    }

    /// Open a TCP connection from `socket`, local port `port`, to `addr`: a direct, one-to-one delegation to the controller register
    /// driver, with only the error re-tagged into the unified type.
    pub fn tcp_connect(&mut self, socket: Socket, port: u16, addr: &SocketAddrV4) -> (r: Result<
        (),
        Error<CRD::SpiError, CRD::PinError, TWI::Error>,
    >)
        ensures
            final(self).store == old(self).store,
            final(self).driver.log() == old(self).driver.log().push(
                final(self).driver.log().last(),
            ),
            (match final(self).driver.log().last() {
                DriverOp::TcpConnect { socket: arg_socket, port: arg_port, addr: arg_addr, outcome } => {
                    &&& arg_socket == socket
                    &&& arg_port == port
                    &&& arg_addr == *addr
                    &&& r == crate::error::retag::<
                        (),
                        CRD::SpiError,
                        CRD::PinError,
                        TWI::Error,
                    >(outcome)
                },
                _ => false,
            }),
    {
        match self.driver.connect(socket, port, addr) {
            Ok(v) => Ok(v),
            Err(e) => Err(Error::from(e)),
        }
    }

    /// Put `socket` into TCP listen state on `port`: a direct, one-to-one delegation to the controller register
    /// driver, with only the error re-tagged into the unified type.
    pub fn tcp_listen(&mut self, socket: Socket, port: u16) -> (r: Result<
        (),
        Error<CRD::SpiError, CRD::PinError, TWI::Error>,
    >)
        ensures
            final(self).store == old(self).store,
            final(self).driver.log() == old(self).driver.log().push(
                final(self).driver.log().last(),
            ),
            (match final(self).driver.log().last() {
                DriverOp::TcpListen { socket: arg_socket, port: arg_port, outcome } => {
                    &&& arg_socket == socket
                    &&& arg_port == port
                    &&& r == crate::error::retag::<
                        (),
                        CRD::SpiError,
                        CRD::PinError,
                        TWI::Error,
                    >(outcome)
                },
                _ => false,
            }),
    {
        match self.driver.listen(socket, port) {
            Ok(v) => Ok(v),
            Err(e) => Err(Error::from(e)),
        }
    }

    /// Write stream data from `buf` to `socket`: a direct, one-to-one delegation to the controller register
    /// driver, with only the error re-tagged into the unified type.
    pub fn tcp_write(&mut self, socket: Socket, buf: &Vec<u8>) -> (r: Result<
        usize,
        Error<CRD::SpiError, CRD::PinError, TWI::Error>,
    >)
        ensures
            final(self).store == old(self).store,
            final(self).driver.log() == old(self).driver.log().push(
                final(self).driver.log().last(),
            ),
            (match final(self).driver.log().last() {
                DriverOp::TcpWrite { socket: arg_socket, data: arg_data, outcome } => {
                    &&& arg_socket == socket
                    &&& arg_data == buf@
                    &&& r == crate::error::retag::<
                        usize,
                        CRD::SpiError,
                        CRD::PinError,
                        TWI::Error,
                    >(outcome)
                },
                _ => false,
            }),
    {
        match self.driver.write(socket, buf) {
            Ok(v) => Ok(v),
            Err(e) => Err(Error::from(e)),
        }
    }

    /// Start a TCP disconnect on `socket`: a direct, one-to-one delegation to the controller register
    /// driver, with only the error re-tagged into the unified type.
    pub fn tcp_disconnect(&mut self, socket: Socket) -> (r: Result<
        (),
        Error<CRD::SpiError, CRD::PinError, TWI::Error>,
    >)
        ensures
            final(self).store == old(self).store,
            final(self).driver.log() == old(self).driver.log().push(
                final(self).driver.log().last(),
            ),
            (match final(self).driver.log().last() {
                DriverOp::TcpDisconnect { socket: arg_socket, outcome } => {
                    &&& arg_socket == socket
                    &&& r == crate::error::retag::<
                        (),
                        CRD::SpiError,
                        CRD::PinError,
                        TWI::Error,
                    >(outcome)
                },
                _ => false,
            }),
    {
        match self.driver.disconnect(socket) {
            Ok(v) => Ok(v),
            Err(e) => Err(Error::from(e)),
        }
    }

    /// Query the local address of `socket`: a direct, one-to-one delegation to the controller register
    /// driver, with only the error re-tagged into the unified type.
    pub fn local_addr(&mut self, socket: Socket) -> (r: Result<
        SocketAddrV4,
        Error<CRD::SpiError, CRD::PinError, TWI::Error>,
    >)
        ensures
            final(self).store == old(self).store,
            final(self).driver.log() == old(self).driver.log().push(
                final(self).driver.log().last(),
            ),
            (match final(self).driver.log().last() {
                DriverOp::LocalAddress { socket: arg_socket, outcome } => {
                    &&& arg_socket == socket
                    &&& r == crate::error::retag::<
                        SocketAddrV4,
                        CRD::SpiError,
                        CRD::PinError,
                        TWI::Error,
                    >(outcome)
                },
                _ => false,
            }),
    {
        match self.driver.local_address(socket) {
            Ok(v) => Ok(v),
            Err(e) => Err(Error::from(e)),
        }
    }

    /// Close `socket`: a direct, one-to-one delegation to the controller register
    /// driver, with only the error re-tagged into the unified type.
    pub fn close(&mut self, socket: Socket) -> (r: Result<
        (),
        Error<CRD::SpiError, CRD::PinError, TWI::Error>,
    >)
        ensures
            final(self).store == old(self).store,
            final(self).driver.log() == old(self).driver.log().push(
                final(self).driver.log().last(),
            ),
            (match final(self).driver.log().last() {
                DriverOp::Close { socket: arg_socket, outcome } => {
                    &&& arg_socket == socket
                    &&& r == crate::error::retag::<
                        (),
                        CRD::SpiError,
                        CRD::PinError,
                        TWI::Error,
                    >(outcome)
                },
                _ => false,
            }),
    {
        match self.driver.close(socket) {
            Ok(v) => Ok(v),
            Err(e) => Err(Error::from(e)),
        }
    }

    /// Whether `socket` is in the closed state: a direct, one-to-one delegation to the controller register
    /// driver, with only the error re-tagged into the unified type.
    pub fn is_state_closed(&mut self, socket: Socket) -> (r: Result<
        bool,
        Error<CRD::SpiError, CRD::PinError, TWI::Error>,
    >)
        ensures
            final(self).store == old(self).store,
            final(self).driver.log() == old(self).driver.log().push(
                final(self).driver.log().last(),
            ),
            (match final(self).driver.log().last() {
                DriverOp::IsStateClosed { socket: arg_socket, outcome } => {
                    &&& arg_socket == socket
                    &&& r == crate::error::retag::<
                        bool,
                        CRD::SpiError,
                        CRD::PinError,
                        TWI::Error,
                    >(outcome)
                },
                _ => false,
            }),
    {
        match self.driver.is_state_closed(socket) {
            Ok(v) => Ok(v),
            Err(e) => Err(Error::from(e)),
        }
    }

    /// Whether `socket` is in a TCP state: a direct, one-to-one delegation to the controller register
    /// driver, with only the error re-tagged into the unified type.
    pub fn is_state_tcp(&mut self, socket: Socket) -> (r: Result<
        bool,
        Error<CRD::SpiError, CRD::PinError, TWI::Error>,
    >)
        ensures
            final(self).store == old(self).store,
            final(self).driver.log() == old(self).driver.log().push(
                final(self).driver.log().last(),
            ),
            (match final(self).driver.log().last() {
                DriverOp::IsStateTcp { socket: arg_socket, outcome } => {
                    &&& arg_socket == socket
                    &&& r == crate::error::retag::<
                        bool,
                        CRD::SpiError,
                        CRD::PinError,
                        TWI::Error,
                    >(outcome)
                },
                _ => false,
            }),
    {
        match self.driver.is_state_tcp(socket) {
            Ok(v) => Ok(v),
            Err(e) => Err(Error::from(e)),
        }
    }

    /// Whether `socket` is in a UDP state: a direct, one-to-one delegation to the controller register
    /// driver, with only the error re-tagged into the unified type.
    pub fn is_state_udp(&mut self, socket: Socket) -> (r: Result<
        bool,
        Error<CRD::SpiError, CRD::PinError, TWI::Error>,
    >)
        ensures
            final(self).store == old(self).store,
            final(self).driver.log() == old(self).driver.log().push(
                final(self).driver.log().last(),
            ),
            (match final(self).driver.log().last() {
                DriverOp::IsStateUdp { socket: arg_socket, outcome } => {
                    &&& arg_socket == socket
                    &&& r == crate::error::retag::<
                        bool,
                        CRD::SpiError,
                        CRD::PinError,
                        TWI::Error,
                    >(outcome)
                },
                _ => false,
            }),
    {
        match self.driver.is_state_udp(socket) {
            Ok(v) => Ok(v),
            Err(e) => Err(Error::from(e)),
        }
    }

    /// Receive a datagram on `socket` into `buf`: a direct, one-to-one delegation to the controller register
    /// driver. The would-block condition and any bus error pass through
    /// unchanged.
    pub fn udp_recv_from(&mut self, socket: Socket, buf: &mut Vec<u8>) -> (r: Result<
        (usize, SocketAddrV4),
        NbError<BusError<CRD::SpiError, CRD::PinError>>,
    >)
        ensures
            final(self).store == old(self).store,
            final(buf)@.len() == old(buf)@.len(),
            final(self).driver.log() == old(self).driver.log().push(
                final(self).driver.log().last(),
            ),
            (match final(self).driver.log().last() {
                DriverOp::UdpRecvFrom { socket: arg_socket, capacity, data, outcome } => {
                    &&& arg_socket == socket
                    &&& capacity == old(buf)@.len()
                    &&& data == final(buf)@
                    &&& r == outcome
                },
                _ => false,
            }),
    {
        self.driver.receive_from(socket, buf)
    }

    /// Peek at the next datagram on `socket`, leaving it queued: a direct, one-to-one delegation to the controller register
    /// driver. The would-block condition and any bus error pass through
    /// unchanged.
    pub fn udp_peek_from(&mut self, socket: Socket, buf: &mut Vec<u8>) -> (r: Result<
        (usize, SocketAddrV4),
        NbError<BusError<CRD::SpiError, CRD::PinError>>,
    >)
        ensures
            final(self).store == old(self).store,
            final(buf)@.len() == old(buf)@.len(),
            final(self).driver.log() == old(self).driver.log().push(
                final(self).driver.log().last(),
            ),
            (match final(self).driver.log().last() {
                DriverOp::UdpPeekFrom { socket: arg_socket, capacity, data, outcome } => {
                    &&& arg_socket == socket
                    &&& capacity == old(buf)@.len()
                    &&& data == final(buf)@
                    &&& r == outcome
                },
                _ => false,
            }),
    {
        self.driver.peek_from(socket, buf)
    }

    /// Peek at the header of the next datagram on `socket`: a direct, one-to-one delegation to the controller register
    /// driver. The would-block condition and any bus error pass through
    /// unchanged.
    pub fn udp_peek_from_header(&mut self, socket: Socket) -> (r: Result<
        (usize, SocketAddrV4),
        NbError<BusError<CRD::SpiError, CRD::PinError>>,
    >)
        ensures
            final(self).store == old(self).store,
            final(self).driver.log() == old(self).driver.log().push(
                final(self).driver.log().last(),
            ),
            (match final(self).driver.log().last() {
                DriverOp::UdpPeekFromHeader { socket: arg_socket, outcome } => {
                    &&& arg_socket == socket
                    &&& r == outcome
                },
                _ => false,
            }),
    {
        self.driver.peek_from_header(socket)
    }

    /// Read stream data from `socket` into `buf`: a direct, one-to-one
    /// delegation to the controller register driver, with only the error
    /// re-tagged into the unified type.
    pub fn tcp_read(&mut self, socket: Socket, buf: &mut Vec<u8>) -> (r: Result<
        usize,
        Error<CRD::SpiError, CRD::PinError, TWI::Error>,
    >)
        ensures
            final(self).store == old(self).store,
            final(buf)@.len() == old(buf)@.len(),
            final(self).driver.log() == old(self).driver.log().push(
                final(self).driver.log().last(),
            ),
            (match final(self).driver.log().last() {
                DriverOp::TcpRead { socket: arg_socket, capacity, data, outcome } => {
                    &&& arg_socket == socket
                    &&& capacity == old(buf)@.len()
                    &&& data == final(buf)@
                    &&& r == crate::error::retag::<
                        usize,
                        CRD::SpiError,
                        CRD::PinError,
                        TWI::Error,
                    >(outcome)
                },
                _ => false,
            }),
    {
        match self.driver.read(socket, buf) {
            Ok(v) => Ok(v),
            Err(e) => Err(Error::from(e)),
        }
    }

    /// The driver transcript of a partial or complete initialization write
    /// sequence, `steps` records long, is an extension of the pre-state
    /// transcript whose records match the write plan position by position.
    proof fn lemma_init_trace(
        &self,
        pre: PoeFeatherWing<CRD, TWI>,
        d0: Seq<DriverOp<CRD::SpiError, CRD::PinError>>,
        steps: int,
    )
        requires
            1 <= steps <= 4,
            d0 == pre.driver.log(),
            self.driver.log().len() == d0.len() + steps,
            d0 == self.driver.log().subrange(0, d0.len() as int),
        ensures
            self.driver.log() == pre.driver.log() + self.driver.log().skip(
                pre.driver.log().len() as int,
            ),
            self.driver.log().skip(pre.driver.log().len() as int).len() == steps,
    {
        let d = self.driver.log().skip(pre.driver.log().len() as int);
        assert(self.driver.log() =~= pre.driver.log() + d);
    }
}

} // verus!
