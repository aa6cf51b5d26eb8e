use vstd::prelude::*;

verus! {

/// The error type of `std::io`, carried through as it is.
#[verifier::external_type_specification]
#[verifier::external_body]
pub struct ExIoError(std::io::Error);

/// Control over the read deadline of a socket-like endpoint, whether it is a
/// plain socket or one wrapped in a secure-transport layer. `None` clears the
/// deadline, so that reads block without limit.
pub trait ReadTimeout {
    fn set_read_timeout(&mut self, dur: Option<std::time::Duration>) -> std::io::Result<()>;
}

} // verus!
