use vstd::prelude::*;

use crate::addr::{decode, decoded, SocketAddr};
use crate::error::Error;
use crate::order::{network_order_u16, network_u16};

verus! {

/// Address families that a raw socket can be opened in.
pub struct Domain;

impl Domain {
    pub const IPV4: i32 = 2;
    pub const IPV6: i32 = 10;
    pub const PACKET: i32 = 17;
}

/// Protocols that a raw socket can be opened for.
pub struct Protocol;

impl Protocol {
    /// Raw IP packets.
    pub const RAW: i32 = 255;

    /// The link-layer type number that selects every frame, in host order.
    pub const ETH_P_ALL: u16 = 3;

    /// The protocol argument that selects every link-layer frame: the type
    /// number in network order.
    pub fn eth_all(little_endian: bool) -> (r: u16)
        ensures
            r == network_u16(Self::ETH_P_ALL, little_endian),
    {
        network_order_u16(Self::ETH_P_ALL, little_endian)
    }
}

/// Relies on libc::ESHUTDOWN: the error code with which the OS refuses a send on
/// a socket whose transport was shut down. Its value differs between targets.
#[verifier::external_body]
fn shutdown_code() -> (r: i32) {
    libc::ESHUTDOWN
}

/// What a send reports, given what the OS call gave back (a byte count, or an
/// error code) and the code of the shutdown condition.
pub open spec fn send_result_spec(result: Result<usize, i32>, shutdown: i32) -> Result<
    usize,
    Error,
> {
    match result {
        Ok(n) => Ok(n),
        Err(code) => if code == shutdown {
            Ok(0)
        } else {
            Err(Error::System(code))
        },
    }
}

/// What a receive reports, given what the OS call gave back.
pub open spec fn receive_result_spec(result: Result<usize, i32>) -> Result<usize, Error> {
    match result {
        Ok(n) => Ok(n),
        Err(code) => Err(Error::System(code)),
    }
}

/// What a receive with source address reports, given what the OS call gave back
/// and the address structure that it filled.
pub open spec fn receive_from_result_spec(
    result: Result<usize, i32>,
    source: Seq<u8>,
    little_endian: bool,
) -> Result<(usize, SocketAddr), Error> {
    match result {
        Ok(n) => match decoded(source, little_endian) {
            Ok(a) => Ok((n, a)),
            Err(e) => Err(e),
        },
        Err(code) => Err(Error::System(code)),
    }
}

/// A send that the OS refused with the shutdown condition counts as a send of
/// zero bytes; any other refusal is an error carrying the OS code.
pub fn send_result(result: Result<usize, i32>, shutdown: i32) -> (r: Result<usize, Error>)
    ensures
        r == send_result_spec(result, shutdown),
        result == Err::<usize, i32>(shutdown) ==> r == Ok::<usize, Error>(0),
{
    match result {
        Ok(n) => Ok(n),
        Err(code) => if code == shutdown {
            Ok(0)
        } else {
            Err(Error::System(code))
        },
    }
}

/// The result of a send (with or without a destination), given what the OS call
/// gave back, with the shutdown condition of this target taken as zero bytes sent.
pub fn send_outcome(result: Result<usize, i32>) -> (r: Result<usize, Error>)
    ensures
        exists|shutdown: i32| r == send_result_spec(result, shutdown),
        match result {
            Ok(n) => r == Ok::<usize, Error>(n),
            Err(code) => r == Ok::<usize, Error>(0) || r == Err::<usize, Error>(Error::System(code)),
        },
{
    let shutdown = shutdown_code();
    send_result(result, shutdown)
}

/// The result of a receive, given what the OS call gave back.
pub fn receive_outcome(result: Result<usize, i32>) -> (r: Result<usize, Error>)
    ensures
        r == receive_result_spec(result),
{
    match result {
        Ok(n) => Ok(n),
        Err(code) => Err(Error::System(code)),
    }
}

/// The result of a receive with source address, given what the OS call gave
/// back and the bytes of the address structure that it filled, laid out for a
/// host of the given byte order.
pub fn receive_from_outcome(result: Result<usize, i32>, source: &[u8], little_endian: bool) -> (r:
    Result<(usize, SocketAddr), Error>)
    ensures
        r == receive_from_result_spec(result, source@, little_endian),
{
    match result {
        Ok(n) => match decode(source, little_endian) {
            Ok(a) => Ok((n, a)),
            Err(e) => Err(e),
        },
        Err(code) => Err(Error::System(code)),
    }
}

/// The state of a socket handle: the descriptor it owns and whether it still
/// owns it.
pub struct HandleState {
    pub fd: i32,
    pub open: bool,
}

/// The descriptor through which an operation may reach the OS: none once the
/// handle is closed.
pub open spec fn descriptor_of(h: HandleState) -> Option<i32> {
    if h.open {
        Some(h.fd)
    } else {
        None
    }
}

/// The state after a close that the OS answered with `result`, and what the
/// close reports.
pub open spec fn after_close(h: HandleState, result: Result<(), i32>) -> (HandleState, Result<
    (),
    Error,
>) {
    match result {
        Ok(()) => (HandleState { fd: h.fd, open: false }, Ok(())),
        Err(code) => (h, Err(Error::System(code))),
    }
}

/// Exclusive owner of one OS socket descriptor. It is never duplicated, and once
/// closed it hands the descriptor out no more.
pub struct Handle {
    fd: i32,
    open: bool,
}

impl View for Handle {
    type V = HandleState;

    closed spec fn view(&self) -> HandleState {
        HandleState { fd: self.fd, open: self.open }
    }
}

impl Handle {
    /// The handle for what the OS call that opens a socket gave back: the new
    /// descriptor, or the error code, which becomes `Error::System`.
    pub fn opened(result: Result<i32, i32>) -> (r: Result<Handle, Error>)
        ensures
            match result {
                Ok(fd) => r matches Ok(h) && h@ == (HandleState { fd, open: true }),
                Err(code) => r matches Err(e) && e == Error::System(code),
            },
    {
        match result {
            Ok(fd) => Ok(Handle { fd, open: true }),
            Err(code) => Err(Error::System(code)),
        }
    }

    /// The descriptor that sends, receives and a close go through, or `None`
    /// once the handle is closed.
    pub fn descriptor(&self) -> (r: Option<i32>)
        ensures
            r == descriptor_of(self@),
    {
        if self.open {
            Some(self.fd)
        } else {
            None
        }
    }

    /// Whether the handle still owns its descriptor.
    pub fn is_open(&self) -> (r: bool)
        ensures
            r == self@.open,
    {
        self.open
    }

    /// Records what the OS answered to closing the descriptor: on success the
    /// handle is closed for good; on failure it keeps the descriptor and the
    /// error carries the OS code.
    pub fn closed(&mut self, result: Result<(), i32>) -> (r: Result<(), Error>)
        requires
            old(self)@.open,
        ensures
            (final(self)@, r) == after_close(old(self)@, result),
    {
        match result {
            Ok(()) => {
                self.open = false;
                Ok(())
            },
            Err(code) => Err(Error::System(code)),
        }
    }
}

/// After a close succeeds, the handle hands out no descriptor: no send, receive
/// or second close reaches the OS through it, and the descriptor it owned is
/// the one it was opened with.
pub proof fn lemma_closed_is_terminal(h: HandleState)
    requires
        h.open,
    ensures
        descriptor_of(after_close(h, Ok(())).0) == None::<i32>,
        after_close(h, Ok(())).0.fd == h.fd,
        after_close(h, Ok(())).1 == Ok::<(), Error>(()),
{
}

/// A send refused with the shutdown condition reports zero bytes sent, never an
/// error, whatever the code of that condition.
pub proof fn lemma_shutdown_is_zero_bytes(shutdown: i32)
    ensures
        send_result_spec(Err(shutdown), shutdown) == Ok::<usize, Error>(0),
{
}

} // verus!
