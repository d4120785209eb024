//! The errors of the library.

use crate::control::GuiControlMessage;
use vstd::prelude::*;

verus! {

/// An error of the operating system's input and output; only carried.
#[verifier::external_type_specification]
#[verifier::external_body]
pub struct ExIoError(std::io::Error);

/// An error of the window system's event loop; only carried.
#[verifier::external_type_specification]
#[verifier::external_body]
pub struct ExEventLoopError(winit::error::EventLoopError);

/// What can go wrong in the application core.
#[derive(Debug)]
pub enum BrulError {
    /// Input or output failed.
    Io(std::io::Error),
}

/// What can go wrong between the application and the user-interface loop.
#[derive(Debug)]
pub enum Error {
    /// Input or output failed.
    Io(std::io::Error),
    /// The event loop could not be made or run.
    WinitEventLoopError(winit::error::EventLoopError),
    /// The event loop is gone: the message that was to be sent comes back.
    WinitEventLoopClosed(GuiControlMessage),
    /// Any other failure, in words.
    WinitOtherError(&'static str),
}

/// The result of an operation between the application and the
/// user-interface loop.
pub type Result<T> = std::result::Result<T, Error>;

} // verus!
