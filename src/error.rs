use vstd::prelude::*;

verus! {

/// What can go wrong in a socket operation or an address conversion.
#[derive(Clone, Copy, Debug, PartialEq, Eq, Structural)]
pub enum Error {
    /// The OS refused the call; its error code, as the OS reported it.
    System(i32),
    /// An address structure whose family is neither IPv4 nor IPv6.
    UnsupportedAddressFamily,
    /// An address structure shorter than the layout of its family.
    TruncatedAddress,
}

impl Error {
    /// The OS error code, for an error that the OS reported.
    pub fn raw_os_error(&self) -> (r: Option<i32>)
        ensures
            r == (match *self {
                Error::System(code) => Some(code),
                _ => None,
            }),
    {
        match self {
            Error::System(code) => Some(*code),
            _ => None,
        }
    }
}

} // verus!
