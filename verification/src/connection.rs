//! Frame transports: the byte channels that frame messages travel over.
use vstd::prelude::*;

verus! {

/// The largest payload a frame message may carry: 10 MiB.
pub const MAX_PAYLOAD: usize = 10485760;

#[verifier::external_type_specification]
#[verifier::external_body]
pub struct ExIoError(std::io::Error);

/// A byte channel. `send` and `recv` report whether the call would have blocked.
pub trait Transport {
    fn send(&mut self, data: &[u8]) -> Result<bool, std::io::Error>;

    fn send_vec(&mut self, data: &Vec<u8>) -> Result<bool, std::io::Error>;

    fn recv(&mut self, data: &mut [u8]) -> Result<bool, std::io::Error>;

    /// Readies the transport; by default there is nothing to do and it succeeds.
    fn init(&mut self) -> (r: Result<(), std::io::Error>)
        default_ensures
            r is Ok,
    {
        Ok(())
    }

    /// Shuts the transport down; by default there is nothing to do and it succeeds.
    fn close(&mut self) -> (r: Result<(), std::io::Error>)
        default_ensures
            r is Ok,
    {
        Ok(())
    }

    /// Whether the transport is connected; by default it always is.
    fn is_connected(&self) -> (r: bool)
        default_ensures
            r,
    {
        true
    }
}

/// A transport that goes nowhere: nothing is sent, nothing arrives, and no
/// call would block.
#[derive(Copy, Clone, Debug)]
pub struct NullTransport {}

impl Transport for NullTransport {
    fn send(&mut self, data: &[u8]) -> (r: Result<bool, std::io::Error>)
        ensures
            r matches Ok(b) && !b,
    {
        Ok(false)
    }

    fn send_vec(&mut self, data: &Vec<u8>) -> (r: Result<bool, std::io::Error>)
        ensures
            r matches Ok(b) && !b,
    {
        Ok(false)
    }

    fn recv(&mut self, data: &mut [u8]) -> (r: Result<bool, std::io::Error>)
        ensures
            r matches Ok(b) && !b,
            final(data)@ == old(data)@,
    {
        Ok(false)
    }
}

/// A set of transports.
pub trait Transporter {
    fn get_transports(&self) -> Vec<Box<dyn Transport>>;

    /// Readies the transports; by default there is nothing to do and it succeeds.
    fn init(&mut self) -> (r: Result<(), std::io::Error>)
        default_ensures
            r is Ok,
    {
        Ok(())
    }

    /// Services the transports; by default there is nothing to do and it succeeds.
    fn tick(&mut self) -> (r: Result<(), std::io::Error>)
        default_ensures
            r is Ok,
    {
        Ok(())
    }

    /// Shuts the transports down; by default there is nothing to do and it succeeds.
    fn close(&mut self) -> (r: Result<(), std::io::Error>)
        default_ensures
            r is Ok,
    {
        Ok(())
    }
}

/// No transports.
pub fn get_empty_transports_vec() -> (r: Vec<Box<dyn Transport>>)
    ensures
        r@.len() == 0,
{
    Vec::new()
}

/// A transporter without any transport.
pub struct NullTransporter {}

impl Transporter for NullTransporter {
    fn get_transports(&self) -> (r: Vec<Box<dyn Transport>>)
        ensures
            r@.len() == 0,
    {
        get_empty_transports_vec()
    }
}

/// A connection over a set of transports.
pub struct Connection {
    pub transporter: Box<dyn Transporter>,
}

impl Connection {
    /// A connection over `transporter`, not yet started.
    pub fn new(transporter: Box<dyn Transporter>) -> (r: Self)
        ensures
            r == (Connection { transporter }),
    {
        Connection { transporter }
    }

    /// Starts the transporter, handing back its error where it fails.
    pub fn start(&mut self) -> Result<(), std::io::Error> {
        self.transporter.init()
    }
}

} // verus!
