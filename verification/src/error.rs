//! The unified error type of the board layer.
//!
//! Three independent failure domains meet in the coordinator: the serial bus
//! that carries controller register traffic, the chip-select pin driven
//! alongside it, and the two-wire bus of the hardware-address store. The
//! coordinator collapses all of them into one tagged union so that callers
//! handle a single failure surface. A fourth, bus-free variant reports that
//! the link-up wait ran out of time.

use vstd::prelude::*;

verus! {

/// An error of the controller's bus domain: the serial-bus transfer failed,
/// or driving the chip-select pin failed. The controller register driver
/// reports every failure as one of these two.
#[derive(Debug, PartialEq, Eq)]
pub enum BusError<SpiError, PinError> {
    /// The serial-bus transfer failed.
    Spi(SpiError),
    /// Driving the chip-select pin failed.
    Pin(PinError),
}

/// The unified error type of the board layer.
///
/// The first three variants wrap an underlying domain error losslessly and
/// are never synthesized without one; `TimedOut` is produced only by the
/// link-up wait when the link never came up within its bound.
#[derive(Debug, PartialEq, Eq)]
pub enum Error<SpiError, PinError, I2cError> {
    /// Serial-bus error wrapper.
    Spi(SpiError),
    /// Chip-select pin error wrapper.
    Pin(PinError),
    /// Two-wire bus error wrapper.
    I2C(I2cError),
    /// The physical link did not come up within the caller's timeout.
    TimedOut,
}

/// A polled receive may find that nothing has arrived yet; that condition is
/// distinct from a hard bus failure.
#[derive(Debug, PartialEq, Eq)]
pub enum NbError<E> {
    /// No data is available yet; poll again later.
    WouldBlock,
    /// A hard failure of the underlying bus.
    Other(E),
}

/// How a controller bus error is re-tagged into the unified error type:
/// losslessly, variant for variant.
pub open spec fn bus_to_error<S, P, I>(e: BusError<S, P>) -> Error<S, P, I> {
    match e {
        BusError::Spi(s) => Error::Spi(s),
        BusError::Pin(p) => Error::Pin(p),
    }
}

/// A controller result with its error re-tagged into the unified domain and
/// its success value untouched.
pub open spec fn retag<T, S, P, I>(r: Result<T, BusError<S, P>>) -> Result<T, Error<S, P, I>> {
    match r {
        Ok(v) => Ok(v),
        Err(e) => Err(bus_to_error(e)),
    }
}

impl<S, P, I> From<BusError<S, P>> for Error<S, P, I> {
    fn from(e: BusError<S, P>) -> Self {
        match e {
            BusError::Spi(s) => Error::Spi(s),
            BusError::Pin(p) => Error::Pin(p),
        }
    }
}

impl<S, P, I> vstd::std_specs::convert::FromSpecImpl<BusError<S, P>> for Error<S, P, I> {
    open spec fn obeys_from_spec() -> bool {
        true
    }

    open spec fn from_spec(e: BusError<S, P>) -> Self {
        bus_to_error(e)
    }
}

} // verus!
