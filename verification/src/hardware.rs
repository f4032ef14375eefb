//! Simulated GPIO hardware and hardware error types.
use vstd::prelude::*;

verus! {

/// Errors from the hardware layer.
#[derive(Clone, Debug, PartialEq, Eq)]
pub enum HardwareError {
    GenericGpio(String),
}

/// Errors from the hardware abstraction used by the tick loop.
#[derive(Clone, Debug, PartialEq, Eq)]
pub enum HalError {
    SensorRead(String),
    ActorWrite(String),
}

/// Logic level of a GPIO pin.
#[derive(Copy, Clone, Debug, PartialEq, Eq, Structural)]
pub enum GpioState {
    Low,
    High,
}

impl GpioState {
    /// `true` for a high pin, `false` for a low one.
    pub fn to_bool(self) -> (r: bool)
        ensures
            r == (self is High),
    {
        match self {
            GpioState::High => true,
            GpioState::Low => false,
        }
    }
}

/// A simulated GPIO pin, for development without hardware.
pub struct GpioPin {
    pub pin_number: u32,
    pub label: String,
    pub state: GpioState,
}

/// The error type of the simulated pin; its operations never fail.
#[derive(Clone, Debug, PartialEq, Eq)]
pub struct GpioPinError {}

/// A delay provider that does not wait.
pub struct Delay {}

impl GpioPin {
    /// The level of the pin.
    pub closed spec fn level(&self) -> GpioState {
        self.state
    }

    /// A pin numbered `pin_number`, labelled `label`, driven low.
    pub fn new(pin_number: u32, label: &str) -> (r: GpioPin)
        ensures
            r.pin_number == pin_number,
            r.label@ == label@,
            r.level() == GpioState::Low,
    {
        GpioPin { pin_number, label: label.to_owned(), state: GpioState::Low }
    }

    /// Drives the pin low.
    pub fn set_low(&mut self) -> (r: Result<(), GpioPinError>)
        ensures
            r is Ok,
            final(self).level() == GpioState::Low,
            final(self).pin_number == old(self).pin_number,
            final(self).label == old(self).label,
    {
        self.state = GpioState::Low;
        Ok(())
    }

    /// Drives the pin high.
    pub fn set_high(&mut self) -> (r: Result<(), GpioPinError>)
        ensures
            r is Ok,
            final(self).level() == GpioState::High,
            final(self).pin_number == old(self).pin_number,
            final(self).label == old(self).label,
    {
        self.state = GpioState::High;
        Ok(())
    }

    /// Whether the pin is high.
    pub fn is_high(&self) -> (r: Result<bool, GpioPinError>)
        ensures
            r == Ok::<bool, GpioPinError>(self.level() is High),
    {
        Ok(self.state.to_bool())
    }

    /// Whether the pin is low.
    pub fn is_low(&self) -> (r: Result<bool, GpioPinError>)
        ensures
            r == Ok::<bool, GpioPinError>(self.level() is Low),
    {
        Ok(!self.state.to_bool())
    }
}

/// The simulated pin numbered `pin_number`; never fails.
pub fn get_gpio_pin(pin_number: u32, label: &str) -> (r: Result<GpioPin, HardwareError>)
    ensures
        r matches Ok(p) && p.pin_number == pin_number && p.label@ == label@ && p.level()
            == GpioState::Low,
{
    Ok(GpioPin::new(pin_number, label))
}


} // verus!
