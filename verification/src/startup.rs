//! Values that the service is started with.

use vstd::prelude::*;
use vstd::string::*;

verus! {

/// The address under which the service is reached from outside.
#[derive(Debug)]
pub struct ApplicationBaseUrl(pub String);

impl Clone for ApplicationBaseUrl {
    fn clone(&self) -> (copy: Self)
        ensures
            copy.0@ == self.0@,
    {
        ApplicationBaseUrl(self.0.clone())
    }
}

/// The address on which the service listens: host, a colon, port.
pub open spec fn address_text(host: Seq<char>, port: Seq<char>) -> Seq<char> {
    host + ":"@ + port
}

/// The address on which the service listens, from the host and the port as
/// text.
pub fn listen_address(host: &str, port: &str) -> (address: String)
    ensures
        address@ == address_text(host@, port@),
{
    let mut address = String::from_str(host);
    address.append(":");
    address.append(port);
    address
}

} // verus!
