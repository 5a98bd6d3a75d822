use vstd::prelude::*;
use vstd::string::*;
use crate::ip::{IpAddr, IpFamily};

verus! {

/// The text that marks a Unix domain socket address: `unix:`.
pub open spec fn unix_prefix() -> Seq<char> {
    seq!['u', 'n', 'i', 'x', ':']
}

/// Whether `s` begins with the domain-socket prefix.
pub open spec fn has_unix_prefix(s: Seq<char>) -> bool {
    s.len() >= unix_prefix().len() && s.subrange(0, unix_prefix().len() as int) == unix_prefix()
}

/// The text after the domain-socket prefix, if `s` begins with it.
pub fn strip_unix_prefix(s: &str) -> (r: Option<&str>)
    ensures
        r is Some <==> has_unix_prefix(s@),
        r matches Some(rest) ==> rest@ == s@.skip(unix_prefix().len() as int),
{
    let n = s.unicode_len();
    if n < 5 {
        return None;
    }
    let ok = s.get_char(0) == 'u' && s.get_char(1) == 'n' && s.get_char(2) == 'i'
        && s.get_char(3) == 'x' && s.get_char(4) == ':';
    if ok {
        assert(s@.subrange(0, 5) =~= unix_prefix());
        Some(s.substring_char(5, n))
    } else {
        proof {
            if has_unix_prefix(s@) {
                assert(s@.subrange(0, 5)[0] == s@[0]);
                assert(s@.subrange(0, 5)[1] == s@[1]);
                assert(s@.subrange(0, 5)[2] == s@[2]);
                assert(s@.subrange(0, 5)[3] == s@[3]);
                assert(s@.subrange(0, 5)[4] == s@[4]);
            }
        }
        None
    }
}

/// The address a server listens on.
#[derive(Clone, Debug, PartialEq)]
pub enum Address {
    /// A hostname to serve over TCP, kept as written.
    Hostname(String),
    /// A literal IP address to serve over TCP.
    Ip(IpAddr),
    /// The path of a Unix domain socket.
    Unix(String),
}

/// The mathematical value of an [`Address`].
pub ghost enum AddressModel {
    Hostname(Seq<char>),
    Ip(IpFamily, Seq<char>),
    Unix(Seq<char>),
}

impl AddressModel {
    /// The text form of the address.
    pub open spec fn text(self) -> Seq<char> {
        match self {
            AddressModel::Hostname(name) => name,
            AddressModel::Ip(_, canonical) => canonical,
            AddressModel::Unix(path) => unix_prefix() + path,
        }
    }
}

impl View for Address {
    type V = AddressModel;

    open spec fn view(&self) -> AddressModel {
        match self {
            Address::Hostname(name) => AddressModel::Hostname(name@),
            Address::Ip(ip) => AddressModel::Ip(ip.spec_family(), ip.text()),
            Address::Unix(path) => AddressModel::Unix(path@),
        }
    }
}

/// Why a text could not be taken as an address.
#[derive(Clone, Debug, PartialEq)]
pub enum AddressError {
    /// The text names no network endpoint; the resolver's account of why.
    Unresolvable(String),
}

/// What resolving a text as a TCP endpoint, with a placeholder port, gave.
#[derive(Clone, Debug, PartialEq)]
pub enum Resolution {
    /// At least one candidate endpoint.
    Found,
    /// The resolver answered with no candidate endpoint.
    Empty,
    /// The resolver failed, with this message.
    Failed(String),
}

/// The message of the error for a text that resolves to no endpoint.
pub open spec fn no_endpoint_message() -> Seq<char> {
    "failed to resolve TCP address"@
}

/// What parsing `s` gives, when resolving it gave `res` and reading it as a
/// literal IP address gave `ip`: the address, or the error's message.
pub open spec fn parse_model(s: Seq<char>, res: Resolution, ip: Option<IpAddr>) -> Result<
    AddressModel,
    Seq<char>,
> {
    if has_unix_prefix(s) {
        Ok(AddressModel::Unix(s.skip(unix_prefix().len() as int)))
    } else {
        match res {
            Resolution::Found => match ip {
                Some(a) => Ok(AddressModel::Ip(a.spec_family(), a.text())),
                None => Ok(AddressModel::Hostname(s)),
            },
            Resolution::Empty => Err(no_endpoint_message()),
            Resolution::Failed(msg) => Err(msg@),
        }
    }
}

/// The model of a parse outcome.
pub open spec fn outcome_model(r: Result<Address, AddressError>) -> Result<AddressModel, Seq<char>> {
    match r {
        Ok(a) => Ok(a@),
        Err(AddressError::Unresolvable(msg)) => Err(msg@),
    }
}

impl Address {
    /// Whether the address is a Unix domain socket.
    pub fn is_unix(&self) -> (r: bool)
        ensures
            r <==> self@ is Unix,
    {
        match self {
            Address::Unix(..) => true,
            _ => false,
        }
    }

    /// Whether parsing `s` needs it resolved as a network endpoint first:
    /// all text but that of a domain socket does.
    pub fn needs_resolution(s: &str) -> (r: bool)
        ensures
            r <==> !has_unix_prefix(s@),
    {
        strip_unix_prefix(s).is_none()
    }

    /// Parses `s`. Text that begins with `unix:` is a domain socket whose path is
    /// the rest. Other text must have resolved (`res`) to some endpoint: it is
    /// then the IP address `ip` where it reads as one, else a hostname.
    pub fn from_str(s: &str, res: Resolution, ip: Option<IpAddr>) -> (r: Result<
        Address,
        AddressError,
    >)
        ensures
            outcome_model(r) == parse_model(s@, res, ip),
    {
        if let Some(path) = strip_unix_prefix(s) {
            return Ok(Address::Unix(String::from_str(path)));
        }
        match res {
            Resolution::Found => match ip {
                Some(a) => Ok(Address::Ip(a)),
                None => Ok(Address::Hostname(String::from_str(s))),
            },
            Resolution::Empty => {
                let msg = String::from_str("failed to resolve TCP address");
                Err(AddressError::Unresolvable(msg))
            },
            Resolution::Failed(msg) => Err(AddressError::Unresolvable(msg)),
        }
    }

    /// The text form of the address: a hostname as written, an IP address in
    /// its canonical form, a domain socket as `unix:` and its path.
    pub fn to_string(&self) -> (r: String)
        ensures
            r@ == self@.text(),
    {
        match self {
            Address::Hostname(name) => name.clone(),
            Address::Ip(a) => a.to_string(),
            Address::Unix(path) => {
                let mut r = String::from_str("unix:");
                proof {
                    reveal_strlit("unix:");
                    assert("unix:"@ =~= unix_prefix());
                }
                r.append(path.as_str());
                r
            },
        }
    }
}

} // verus!
