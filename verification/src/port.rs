//! Port metadata and the interfaces a platform backend provides.

use vstd::prelude::*;

use crate::error::SerialResult;
use crate::settings::SerialPortSettings;

verus! {

/// Information on a listed serial port
#[derive(Debug, Clone, PartialEq, Eq, PartialOrd, Ord)]
pub struct PortInfo {
    /// Name of the device
    pub port: String,
    /// Hardware-ID of the device
    pub hwid: String,
    /// Vendor ID
    pub vid: u16,
    /// Product ID
    pub pid: u16,
    /// Manufacturer
    pub manufacturer: String,
    /// Description of the device
    pub description: String,
}

impl Default for PortInfo {
    /// An unknown device: empty strings and zero vendor/product IDs.
    fn default() -> (r: Self)
        ensures
            r.port@ == Seq::<char>::empty(),
            r.hwid@ == Seq::<char>::empty(),
            r.vid == 0,
            r.pid == 0,
            r.manufacturer@ == Seq::<char>::empty(),
            r.description@ == Seq::<char>::empty(),
    {
        PortInfo {
            port: String::new(),
            hwid: String::new(),
            vid: 0,
            pid: 0,
            manufacturer: String::new(),
            description: String::new(),
        }
    }
}

impl PortInfo {
    /// Gets port name
    pub fn get_port(&self) -> (r: &str)
        ensures
            r@ == self.port@,
    {
        self.port.as_str()
    }

    /// Gets port system hardware-ID
    pub fn get_hwid(&self) -> (r: &str)
        ensures
            r@ == self.hwid@,
    {
        self.hwid.as_str()
    }

    /// Gets port devices' ProductID
    pub fn get_pid(&self) -> (r: u16)
        ensures
            r == self.pid,
    {
        self.pid
    }

    /// Gets port devices' VendorID
    pub fn get_vid(&self) -> (r: u16)
        ensures
            r == self.vid,
    {
        self.vid
    }

    /// Gets port devices' manufacturer
    pub fn get_manufacturer(&self) -> (r: &str)
        ensures
            r@ == self.manufacturer@,
    {
        self.manufacturer.as_str()
    }

    /// Gets port devices' description
    pub fn get_desc(&self) -> (r: &str)
        ensures
            r@ == self.description@,
    {
        self.description.as_str()
    }
}

/// Serial port trait: the operations every platform backend offers.
///
/// The backends own an operating-system handle, so their implementations
/// live with the platform glue outside this library; the library provides
/// the verified configuration and decision logic they are built from.
pub trait SerialPort {
    /// Make the serial port Settings reconfigurable; the device state
    /// follows a change only on the next `reconfigure_port`
    fn setting(&mut self) -> &mut SerialPortSettings;

    /// Reconfigures an open port with the current settings
    fn reconfigure_port(&mut self) -> SerialResult<()>;

    /// Closes the port
    fn close(self) -> SerialResult<()> where Self: Sized;

    /// Sets Tx and Rx buffer size. A sensible value for these is 4096 bytes
    fn set_buffer_size(&mut self, rx_size: usize, tx_size: usize) -> SerialResult<()>;

    /// Sets flow control state manually
    fn set_output_flow_control(&self, enable: bool) -> SerialResult<()>;

    /// Sets data terminal flag
    fn set_data_terminal_ready(&mut self, enable: bool) -> SerialResult<()>;

    /// Sets request to send flag
    fn set_request_to_send(&mut self, enable: bool) -> SerialResult<()>;

    /// Sets break state flag
    fn set_break_state(&mut self, enable: bool) -> SerialResult<()>;

    /// Reads clear to send flag
    fn read_clear_to_send(&self) -> SerialResult<bool>;

    /// Reads data set ready flag
    fn read_data_set_ready(&self) -> SerialResult<bool>;

    /// Reads ring indicator flag
    fn read_ring_indicator(&self) -> SerialResult<bool>;

    /// Reads carrier detect flag
    fn read_carrier_detect(&self) -> SerialResult<bool>;

    /// Returns number of bytes left to read in serial buffer
    fn bytes_to_read(&self) -> SerialResult<usize>;

    /// Returns number of bytes left to write in serial buffer
    fn bytes_to_write(&self) -> SerialResult<usize>;

    /// Gets the path of the port
    fn get_path(&self) -> String;

    /// Tries to clone the port.
    ///
    /// # Note about cloning
    /// The clone shares the underlying OS resource with the original while
    /// holding its own settings copy. Closing either invalidates the shared
    /// resource for the other; this enables the common split into a reading
    /// and a writing handle but is a hazard the caller must manage.
    fn try_clone(&mut self) -> SerialResult<Self> where Self: Sized;

    /// Clears serial input buffer
    fn clear_input_buffer(&mut self) -> SerialResult<()>;

    /// Clears serial output buffer
    fn clear_output_buffer(&mut self) -> SerialResult<()>;
}

/// Scanner to list avaliable serial ports on a system
pub trait PortScanner {
    /// Lists avaliable serial ports on a system
    fn list_devices(&mut self) -> SerialResult<Vec<PortInfo>>;
}

/// A hardware line-status signal of the serial interface, read from and
/// written to the device independently of the data stream.
#[derive(Debug, Copy, Clone, PartialEq, Eq, Structural)]
pub enum ModemLine {
    /// CTS
    ClearToSend,
    /// DSR
    DataSetReady,
    /// RI
    RingIndicator,
    /// CD (carrier detect, RLSD)
    CarrierDetect,
}

} // verus!
