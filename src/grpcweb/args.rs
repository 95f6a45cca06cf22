use vstd::prelude::*;
use vstd::string::*;

verus! {

/// The decimal digit of `d` (below ten).
pub open spec fn digit(d: nat) -> char {
    if d == 0 { '0' }
    else if d == 1 { '1' }
    else if d == 2 { '2' }
    else if d == 3 { '3' }
    else if d == 4 { '4' }
    else if d == 5 { '5' }
    else if d == 6 { '6' }
    else if d == 7 { '7' }
    else if d == 8 { '8' }
    else { '9' }
}

/// `n` written in decimal, with no leading zero.
pub open spec fn decimal(n: nat) -> Seq<char>
    decreases n,
{
    if n < 10 {
        seq![digit(n)]
    } else {
        decimal(n / 10).push(digit(n % 10))
    }
}

/// `host:port`.
pub open spec fn host_port(host: Seq<char>, port: u16) -> Seq<char> {
    host + ":"@ + decimal(port as nat)
}

/// Relies on std's `Display` for `u16` (through `to_string`): the number in
/// decimal.
#[verifier::external_body]
fn port_text(n: u16) -> (r: String)
    ensures
        r@ == decimal(n as nat),
{
    n.to_string()
}

/// Where the proxy listens and where it forwards to.
pub struct Args {
    pub proxy_host: String,
    pub proxy_port: u16,
    pub forward_host: String,
    pub forward_port: u16,
}

fn join_host_port(host: &str, port: u16) -> (r: String)
    ensures
        r@ == host_port(host@, port),
{
    let mut s = host.to_owned();
    s.append(":");
    let p = port_text(port);
    s.append(p.as_str());
    s
}

impl Args {
    /// The address the proxy listens on, `proxy_host:proxy_port`.
    pub fn proxy_address(&self) -> (r: String)
        ensures
            r@ == host_port(self.proxy_host@, self.proxy_port),
    {
        join_host_port(self.proxy_host.as_str(), self.proxy_port)
    }

    /// The backend authority, `forward_host:forward_port`.
    pub fn forward_authority(&self) -> (r: String)
        ensures
            r@ == host_port(self.forward_host@, self.forward_port),
    {
        join_host_port(self.forward_host.as_str(), self.forward_port)
    }

    /// The backend address with its scheme, `http://forward_host:forward_port`.
    pub fn forward_address(&self) -> (r: String)
        ensures
            r@ == "http://"@ + host_port(self.forward_host@, self.forward_port),
    {
        let mut s = "http://".to_owned();
        let a = self.forward_authority();
        s.append(a.as_str());
        s
    }
}

} // verus!
