use vstd::prelude::*;

verus! {

/// Every way an exchange with the compositor, or the work done on its
/// answer, can fail.
#[derive(PartialEq, Eq, Structural, Clone, Copy, Debug)]
pub enum IpcError {
    /// Neither socket variable names a path.
    SocketNotFound,
    /// The socket exists but no stream could be opened to it.
    ConnectionFailed,
    /// A short read or write, or a broken connection.
    Io,
    /// The response prefix is wrong, or its type is not the request's type.
    InvalidHeader,
    /// A payload longer than the 32-bit length field can describe.
    PayloadTooLarge,
    /// The response payload is not the JSON that the message expects.
    Decode,
    /// No node on the focus path has a tabbed layout.
    NoFocusedTabbedAncestor,
    /// A `focus` entry names an id that no child carries.
    DanglingFocusReference,
    /// Candidates were asked for a second time in one process.
    AlreadyPopulated,
}

} // verus!
