use vstd::prelude::*;
use vstd::string::*;

verus! {

/// The host part of a URL with the brackets that RFC 2732 puts around an
/// IPv6 address taken off; any other host is left as it is.
pub open spec fn stripped_host(host: Seq<char>) -> Seq<char> {
    if host.len() >= 2 && host[0] == '[' && host[host.len() - 1] == ']' {
        host.subrange(1, host.len() - 1)
    } else {
        host
    }
}

/// Strips the brackets around an IPv6 host, as in `https://[::1]:4433/`.
pub fn strip_ipv6_brackets(host: &str) -> (stripped: &str)
    ensures
        stripped@ == stripped_host(host@),
{
    let n = host.unicode_len();
    if n >= 2 && host.get_char(0) == '[' && host.get_char(n - 1) == ']' {
        host.substring_char(1, n - 1)
    } else {
        host
    }
}

/// Putting brackets around a host and stripping them gives the host back.
pub proof fn lemma_strip_bracketed(inner: Seq<char>)
    ensures
        stripped_host(seq!['['] + inner + seq![']']) == inner,
{
    let b = seq!['['] + inner + seq![']'];
    assert(b[0] == '[');
    assert(b[b.len() - 1] == ']');
    assert(b.subrange(1, b.len() - 1) =~= inner);
}

/// A host that does not both start with `[` and end with `]` is left unchanged.
pub proof fn lemma_unbracketed_unchanged(host: Seq<char>)
    requires
        host.len() == 0 || host[0] != '[' || host[host.len() - 1] != ']',
    ensures
        stripped_host(host) == host,
{
}

} // verus!
