use vstd::prelude::*;
use crate::address::{has_unix_prefix, parse_model, unix_prefix, AddressModel, Resolution};
use crate::ip::IpAddr;

verus! {

/// Whether `c` can stand in a literal IPv4 or IPv6 address: a hex digit, a
/// dot or a colon.
pub open spec fn is_ip_literal_char(c: char) -> bool {
    ('0' <= c <= '9') || ('a' <= c <= 'f') || ('A' <= c <= 'F') || c == '.' || c == ':'
}

/// Whether every character of `s` can stand in a literal IP address.
pub open spec fn is_ip_literal_text(s: Seq<char>) -> bool {
    forall|i: int| 0 <= i < s.len() ==> #[trigger] is_ip_literal_char(s[i])
}

/// Whether `s` can be a symbolic hostname: a hostname holds no colon.
pub open spec fn is_hostname_text(s: Seq<char>) -> bool {
    forall|i: int| 0 <= i < s.len() ==> s[i] != ':'
}

/// Text with no `u` at its start does not begin with the domain-socket prefix.
proof fn lemma_no_prefix_without_u(s: Seq<char>)
    requires
        s.len() == 0 || s[0] != 'u',
    ensures
        !has_unix_prefix(s),
{
    if has_unix_prefix(s) {
        assert(s.subrange(0, 5)[0] == s[0]);
        assert(unix_prefix()[0] == 'u');
    }
}

/// A literal IP address that resolves parses as that IP address, and so is
/// not a domain socket.
pub proof fn lemma_ip_literal_parses_as_ip(s: Seq<char>, ip: IpAddr)
    requires
        is_ip_literal_text(s),
    ensures
        parse_model(s, Resolution::Found, Some(ip)) == Ok::<AddressModel, Seq<char>>(
            AddressModel::Ip(ip.spec_family(), ip.text()),
        ),
        !(parse_model(s, Resolution::Found, Some(ip))->Ok_0 is Unix),
{
    if s.len() > 0 {
        assert(is_ip_literal_char(s[0]));
    }
    lemma_no_prefix_without_u(s);
}

/// `unix:` followed by any path, the empty one too, parses as a domain socket
/// at that path, whatever resolution would give, and renders back to the
/// same text.
pub proof fn lemma_unix_round_trip(p: Seq<char>, res: Resolution, ip: Option<IpAddr>)
    ensures
        parse_model(unix_prefix() + p, res, ip) == Ok::<AddressModel, Seq<char>>(
            AddressModel::Unix(p),
        ),
        parse_model(unix_prefix() + p, res, ip)->Ok_0.text() == unix_prefix() + p,
{
    let s = unix_prefix() + p;
    assert(s.subrange(0, 5) =~= unix_prefix());
    assert(s.skip(5) =~= p);
}

/// A symbolic hostname that resolves and is no literal IP address parses as
/// that hostname, kept as written, and renders back to the same text.
pub proof fn lemma_hostname_round_trip(s: Seq<char>)
    requires
        is_hostname_text(s),
    ensures
        parse_model(s, Resolution::Found, None) == Ok::<AddressModel, Seq<char>>(
            AddressModel::Hostname(s),
        ),
        parse_model(s, Resolution::Found, None)->Ok_0.text() == s,
{
    if has_unix_prefix(s) {
        assert(s.subrange(0, 5)[4] == s[4]);
        assert(unix_prefix()[4] == ':');
    }
}

/// Text without the domain-socket prefix that resolves to no endpoint fails
/// to parse.
pub proof fn lemma_unresolvable_fails(s: Seq<char>, res: Resolution, ip: Option<IpAddr>)
    requires
        !has_unix_prefix(s),
        !(res is Found),
    ensures
        parse_model(s, res, ip) is Err,
{
}

/// A parsed address is a domain socket exactly when its text begins with
/// `unix:`; an IP address or a hostname never is.
pub proof fn lemma_unix_exactly_for_prefix(s: Seq<char>, res: Resolution, ip: Option<IpAddr>)
    requires
        parse_model(s, res, ip) is Ok,
    ensures
        (parse_model(s, res, ip)->Ok_0 is Unix) <==> has_unix_prefix(s),
{
}

} // verus!
