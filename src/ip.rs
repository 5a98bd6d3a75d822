use vstd::prelude::*;

verus! {

/// The family of a literal IP address.
#[derive(Clone, Copy, Debug, PartialEq, Eq, Structural)]
pub enum IpFamily {
    V4,
    V6,
}

/// A literal IP address, held in the canonical text that the platform's
/// address parser and formatter give it (dotted quad for IPv4, compressed
/// form for IPv6).
#[derive(Clone, Debug, PartialEq)]
pub struct IpAddr {
    family: IpFamily,
    canonical: String,
}

impl IpAddr {
    pub closed spec fn spec_family(&self) -> IpFamily {
        self.family
    }

    /// The canonical text of the address.
    pub closed spec fn text(&self) -> Seq<char> {
        self.canonical@
    }

    pub fn new(family: IpFamily, canonical: String) -> (r: IpAddr)
        ensures
            r.spec_family() == family,
            r.text() == canonical@,
    {
        IpAddr { family, canonical }
    }

    pub fn family(&self) -> (r: IpFamily)
        ensures
            r == self.spec_family(),
    {
        self.family
    }

    pub fn is_ipv4(&self) -> (r: bool)
        ensures
            r == (self.spec_family() == IpFamily::V4),
    {
        match self.family {
            IpFamily::V4 => true,
            IpFamily::V6 => false,
        }
    }

    pub fn is_ipv6(&self) -> (r: bool)
        ensures
            r == (self.spec_family() == IpFamily::V6),
    {
        match self.family {
            IpFamily::V4 => false,
            IpFamily::V6 => true,
        }
    }

    /// The canonical text of the address.
    pub fn to_string(&self) -> (r: String)
        ensures
            r@ == self.text(),
    {
        self.canonical.clone()
    }
}

} // verus!
