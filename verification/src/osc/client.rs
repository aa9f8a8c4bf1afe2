//! The outbound side of the protocol: where messages go. The host owns the
//! socket; a send is one datagram, once, with no acknowledgment and no retry.

use vstd::prelude::*;
use vstd::string::*;
use crate::engine::{Command, CommandView};
use crate::osc::messages::{values, OscArg};
use crate::text::{natural_text, push_natural};

verus! {

/// The UDP port on which the control script takes commands.
pub const SEND_PORT: u16 = 11000;

/// The client for outbound messages: it knows the target of every send.
pub struct OscClient {
    target: String,
}

impl OscClient {
    /// The target address: the local host and the port.
    pub closed spec fn target_text(&self) -> Seq<char> {
        self.target@
    }

    /// A client that sends to `target_port` on the local host.
    pub fn new(target_port: u16) -> (client: OscClient)
        ensures
            client.target_text() == "127.0.0.1:"@ + natural_text(target_port as nat),
    {
        let mut target = String::from_str("127.0.0.1:");
        push_natural(&mut target, target_port as u64);
        OscClient { target }
    }

    /// The address that the host sends to.
    pub fn target(&self) -> (text: &str)
        ensures
            text@ == self.target_text(),
    {
        self.target.as_str()
    }

    /// One message for the target: the datagram that the host encodes and sends.
    pub fn send(&self, address: &'static str, args: Vec<OscArg>) -> (command: Command)
        ensures
            command@ == (CommandView::SendOsc { address: address@, args: values(args@) }),
    {
        Command::SendOsc { address, args }
    }
}

} // verus!
