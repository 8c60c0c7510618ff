//! Peripheral state machines: GPIO, UART, SPI and timer abstractions.
//! The hardware access itself happens outside the library; the state rules
//! (what may be used when) are checked here.

use vstd::prelude::*;

verus! {

/// GPIO pin abstraction.
#[derive(Debug, Clone, Copy, PartialEq, Eq, Structural)]
pub struct GpioPin {
    pin_num: u8,
    is_high: bool,
}

impl GpioPin {
    /// The pin number.
    pub closed spec fn spec_pin_num(&self) -> u8 {
        self.pin_num
    }

    /// Whether the pin is currently high.
    pub closed spec fn spec_is_high(&self) -> bool {
        self.is_high
    }

    /// A new pin, initially low.
    pub fn new(pin_num: u8) -> (r: GpioPin)
        ensures
            r.spec_pin_num() == pin_num,
            !r.spec_is_high(),
    {
        GpioPin { pin_num, is_high: false }
    }

    /// The pin number.
    pub fn pin_num(&self) -> (r: u8)
        ensures
            r == self.spec_pin_num(),
    {
        self.pin_num
    }

    /// Whether the pin is currently high.
    pub fn is_high(&self) -> (r: bool)
        ensures
            r == self.spec_is_high(),
    {
        self.is_high
    }

    /// Drive the pin low.
    pub fn set_low(&mut self) -> (r: Result<(), String>)
        ensures
            r is Ok,
            final(self).spec_pin_num() == old(self).spec_pin_num(),
            !final(self).spec_is_high(),
    {
        self.is_high = false;
        Result::Ok(())
    }

    /// Drive the pin high.
    pub fn set_high(&mut self) -> (r: Result<(), String>)
        ensures
            r is Ok,
            final(self).spec_pin_num() == old(self).spec_pin_num(),
            final(self).spec_is_high(),
    {
        self.is_high = true;
        Result::Ok(())
    }

    /// Toggle the pin state.
    pub fn toggle(&mut self) -> (r: Result<(), String>)
        ensures
            r is Ok,
            final(self).spec_pin_num() == old(self).spec_pin_num(),
            final(self).spec_is_high() == !old(self).spec_is_high(),
    {
        self.is_high = !self.is_high;
        Result::Ok(())
    }
}

/// UART port abstraction for serial communication.
#[derive(Debug)]
pub struct UartPort {
    port_num: u8,
    baud_rate: u32,
    is_open: bool,
}

impl UartPort {
    /// The port number.
    pub closed spec fn spec_port_num(&self) -> u8 {
        self.port_num
    }

    /// The configured baud rate.
    pub closed spec fn spec_baud_rate(&self) -> u32 {
        self.baud_rate
    }

    /// Whether the port is open.
    pub closed spec fn spec_is_open(&self) -> bool {
        self.is_open
    }

    /// A new port, initially closed.
    pub fn new(port_num: u8, baud_rate: u32) -> (r: UartPort)
        ensures
            r.spec_port_num() == port_num,
            r.spec_baud_rate() == baud_rate,
            !r.spec_is_open(),
    {
        UartPort { port_num, baud_rate, is_open: false }
    }

    /// Open the port for communication.
    pub fn open(&mut self) -> (r: Result<(), String>)
        ensures
            r is Ok,
            final(self).spec_port_num() == old(self).spec_port_num(),
            final(self).spec_baud_rate() == old(self).spec_baud_rate(),
            final(self).spec_is_open(),
    {
        self.is_open = true;
        Result::Ok(())
    }

    /// Close the port.
    pub fn close(&mut self) -> (r: Result<(), String>)
        ensures
            r is Ok,
            final(self).spec_port_num() == old(self).spec_port_num(),
            final(self).spec_baud_rate() == old(self).spec_baud_rate(),
            !final(self).spec_is_open(),
    {
        self.is_open = false;
        Result::Ok(())
    }

    /// Write data to the port; rejected while the port is closed.
    pub fn write(&self, data: &[u8]) -> (r: Result<(), String>)
        ensures
            r is Ok <==> self.spec_is_open(),
    {
        if !self.is_open {
            return Result::Err(String::from_str("UART port not open"));
        }
        let _ = data;
        Result::Ok(())
    }

    /// Read pending data from the port; rejected while the port is closed.
    pub fn read(&self) -> (r: Result<Vec<u8>, String>)
        ensures
            r is Ok <==> self.spec_is_open(),
            r matches Ok(v) ==> v@.len() == 0,
    {
        if !self.is_open {
            return Result::Err(String::from_str("UART port not open"));
        }
        Result::Ok(Vec::new())
    }
}

/// SPI interface abstraction.
#[derive(Debug)]
pub struct SpiInterface {
    bus_num: u8,
    clock_speed: u32,
    is_active: bool,
}

impl SpiInterface {
    /// The bus number.
    pub closed spec fn spec_bus_num(&self) -> u8 {
        self.bus_num
    }

    /// The configured clock speed.
    pub closed spec fn spec_clock_speed(&self) -> u32 {
        self.clock_speed
    }

    /// Whether the bus is initialized.
    pub closed spec fn spec_is_active(&self) -> bool {
        self.is_active
    }

    /// A new interface, initially inactive.
    pub fn new(bus_num: u8, clock_speed: u32) -> (r: SpiInterface)
        ensures
            r.spec_bus_num() == bus_num,
            r.spec_clock_speed() == clock_speed,
            !r.spec_is_active(),
    {
        SpiInterface { bus_num, clock_speed, is_active: false }
    }

    /// Initialize the bus.
    pub fn initialize(&mut self) -> (r: Result<(), String>)
        ensures
            r is Ok,
            final(self).spec_bus_num() == old(self).spec_bus_num(),
            final(self).spec_clock_speed() == old(self).spec_clock_speed(),
            final(self).spec_is_active(),
    {
        self.is_active = true;
        Result::Ok(())
    }

    /// Deinitialize the bus.
    pub fn deinitialize(&mut self) -> (r: Result<(), String>)
        ensures
            r is Ok,
            final(self).spec_bus_num() == old(self).spec_bus_num(),
            final(self).spec_clock_speed() == old(self).spec_clock_speed(),
            !final(self).spec_is_active(),
    {
        self.is_active = false;
        Result::Ok(())
    }

    /// Transfer data over the bus; rejected while inactive.  The received
    /// bytes echo the transmitted ones.
    pub fn transfer(&self, tx_data: &[u8]) -> (r: Result<Vec<u8>, String>)
        ensures
            r is Ok <==> self.spec_is_active(),
            r matches Ok(v) ==> v@ == tx_data@,
    {
        if !self.is_active {
            return Result::Err(String::from_str("SPI bus not initialized"));
        }
        let mut out: Vec<u8> = Vec::new();
        let mut i: usize = 0;
        while i < tx_data.len()
            invariant
                i <= tx_data@.len(),
                out@ == tx_data@.take(i as int),
            decreases tx_data@.len() - i,
        {
            out.push(tx_data[i]);
            proof {
                assert(out@ =~= tx_data@.take(i + 1));
            }
            i = i + 1;
        }
        proof {
            assert(tx_data@.take(tx_data@.len() as int) =~= tx_data@);
        }
        Result::Ok(out)
    }
}

/// Timer unit abstraction.
#[derive(Debug, Clone, Copy, PartialEq, Eq, Structural)]
pub struct TimerUnit {
    timer_num: u8,
    prescaler: u32,
    is_running: bool,
}

impl TimerUnit {
    /// The timer number.
    pub closed spec fn spec_timer_num(&self) -> u8 {
        self.timer_num
    }

    /// The configured prescaler.
    pub closed spec fn spec_prescaler(&self) -> u32 {
        self.prescaler
    }

    /// Whether the timer is running.
    pub closed spec fn spec_is_running(&self) -> bool {
        self.is_running
    }

    /// A new timer, initially stopped.
    pub fn new(timer_num: u8, prescaler: u32) -> (r: TimerUnit)
        ensures
            r.spec_timer_num() == timer_num,
            r.spec_prescaler() == prescaler,
            !r.spec_is_running(),
    {
        TimerUnit { timer_num, prescaler, is_running: false }
    }

    /// Start the timer.
    pub fn start(&mut self) -> (r: Result<(), String>)
        ensures
            r is Ok,
            final(self).spec_timer_num() == old(self).spec_timer_num(),
            final(self).spec_prescaler() == old(self).spec_prescaler(),
            final(self).spec_is_running(),
    {
        self.is_running = true;
        Result::Ok(())
    }

    /// Stop the timer.
    pub fn stop(&mut self) -> (r: Result<(), String>)
        ensures
            r is Ok,
            final(self).spec_timer_num() == old(self).spec_timer_num(),
            final(self).spec_prescaler() == old(self).spec_prescaler(),
            !final(self).spec_is_running(),
    {
        self.is_running = false;
        Result::Ok(())
    }

    /// Set the timer interval; rejected while the timer is stopped.
    pub fn set_interval_ms(&mut self, ms: u32) -> (r: Result<(), String>)
        ensures
            r is Ok <==> old(self).spec_is_running(),
            *final(self) == *old(self),
    {
        let _ = ms;
        if !self.is_running {
            return Result::Err(String::from_str("Timer not running"));
        }
        Result::Ok(())
    }

    /// Whether the timer is running.
    pub fn is_running(&self) -> (r: bool)
        ensures
            r == self.spec_is_running(),
    {
        self.is_running
    }
}

} // verus!
