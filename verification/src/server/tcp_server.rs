use vstd::prelude::*;
use vstd::string::*;

use crate::text::{int_text, u64_text};

verus! {

/// A TCP server that hands each received line on.
#[derive(Debug)]
pub struct TcpServer {
    addr: String,
}

impl TcpServer {
    /// The address the server binds to.
    pub closed spec fn addr(&self) -> Seq<char> {
        self.addr@
    }

    /// A server for `host` and `port`; it binds to `<host>:<port>`.
    pub fn new(host: &str, port: u16) -> (s: TcpServer)
        ensures
            s.addr() == host@ + ":"@ + int_text(port as int),
    {
        let mut addr = String::from_str(host);
        addr.append(":");
        let p = u64_text(port as u64);
        addr.append(p.as_str());
        TcpServer { addr }
    }

    /// The address the server binds to.
    pub fn address(&self) -> (r: &String)
        ensures
            r@ == self.addr(),
    {
        &self.addr
    }
}

} // verus!
