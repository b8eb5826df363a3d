//! What a role is started with: the file it works on and the address it
//! talks to. Both are fixed for the life of the process.

use vstd::prelude::*;

verus! {

/// A network address as it was written: the runner's address for the
/// sender, the address to listen on for the receiver.
///
/// The text is kept as it is. Turning it into a socket address belongs to
/// the caller that opens the socket.
#[derive(Debug, PartialEq, Eq)]
pub struct Endpoint {
    address: String,
}

impl View for Endpoint {
    type V = Seq<char>;

    closed spec fn view(&self) -> Seq<char> {
        self.address@
    }
}

impl Endpoint {
    /// An endpoint at `address`.
    pub fn new(address: String) -> (endpoint: Endpoint)
        ensures
            endpoint@ == address@,
    {
        Endpoint { address }
    }

    /// The address as it was written.
    pub fn address(&self) -> (address: &String)
        ensures
            address@ == self@,
    {
        &self.address
    }

    /// A second endpoint at the same address.
    pub fn duplicate(&self) -> (endpoint: Endpoint)
        ensures
            endpoint@ == self@,
    {
        Endpoint { address: self.address.clone() }
    }
}

/// The sender's configuration.
#[derive(Debug, PartialEq, Eq)]
pub struct Sender {
    /// The file to guard and to send.
    pub file: String,
    /// Where the runner listens.
    pub receiver_addr: Endpoint,
}

/// The receiver's configuration.
#[derive(Debug, PartialEq, Eq)]
pub struct Receiver {
    /// The name under which a received file is stored and run.
    pub file: String,
    /// The address to listen on.
    pub listen: Endpoint,
}

/// A role's file and address, as plain text.
pub struct RoleView {
    /// The configured file.
    pub file: Seq<char>,
    /// The configured address.
    pub address: Seq<char>,
}

impl View for Sender {
    type V = RoleView;

    open spec fn view(&self) -> RoleView {
        RoleView { file: self.file@, address: self.receiver_addr@ }
    }
}

impl View for Receiver {
    type V = RoleView;

    open spec fn view(&self) -> RoleView {
        RoleView { file: self.file@, address: self.listen@ }
    }
}

} // verus!
