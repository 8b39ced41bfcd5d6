//! Where the client connects to: an address and a port, and the socket string
//! that the two make.

use crate::decimal::{decimal, decimal_string};
use vstd::prelude::*;
use vstd::string::StringExecFns;

verus! {

/// The socket string of an address and a port: the address, a colon, the
/// port in decimal.
pub open spec fn socket_of(address: Seq<char>, port: i32) -> Seq<char> {
    address + seq![':'] + decimal(port as int)
}

/// What a [`ClientConnection`] holds.
pub struct ClientConnectionView {
    pub address: Seq<char>,
    pub port: i32,
}

/// The address and the port of the server that the client talks to.
pub struct ClientConnection {
    address: String,
    port: i32,
}

impl View for ClientConnection {
    type V = ClientConnectionView;

    closed spec fn view(&self) -> ClientConnectionView {
        ClientConnectionView { address: self.address@, port: self.port }
    }
}

impl ClientConnection {
    pub fn new(address: String, port: i32) -> (connection: ClientConnection)
        ensures
            connection@ == (ClientConnectionView { address: address@, port }),
    {
        ClientConnection { address, port }
    }

    /// Changes the address that the connection will use.
    pub fn set_address(&mut self, new_address: String)
        ensures
            final(self)@ == (ClientConnectionView { address: new_address@, ..old(self)@ }),
    {
        self.address = new_address;
    }

    /// Changes the port that the connection will use.
    pub fn set_port(&mut self, new_port: i32)
        ensures
            final(self)@ == (ClientConnectionView { port: new_port, ..old(self)@ }),
    {
        self.port = new_port;
    }

    /// The address and the port as one socket string.
    pub fn get_socket(&self) -> (socket: String)
        ensures
            socket@ == socket_of(self@.address, self@.port),
    {
        proof {
            reveal_strlit(":");
        }
        let mut socket = self.address.clone();
        socket.append(":");
        let port = decimal_string(self.port);
        socket.append(port.as_str());
        assert(socket@ =~= socket_of(self@.address, self@.port));
        socket
    }
}

} // verus!
