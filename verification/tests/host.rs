use deepspace_quic::host::strip_ipv6_brackets;

#[test]
fn strips_bracketed_ipv6_host() {
    assert_eq!(strip_ipv6_brackets("[::1]"), "::1");
    assert_eq!(strip_ipv6_brackets("[2001:db8::7]"), "2001:db8::7");
}

#[test]
fn leaves_plain_hosts_alone() {
    assert_eq!(strip_ipv6_brackets("localhost"), "localhost");
    assert_eq!(strip_ipv6_brackets("127.0.0.1"), "127.0.0.1");
    assert_eq!(strip_ipv6_brackets(""), "");
}

#[test]
fn leaves_half_bracketed_hosts_alone() {
    assert_eq!(strip_ipv6_brackets("[::1"), "[::1");
    assert_eq!(strip_ipv6_brackets("::1]"), "::1]");
    assert_eq!(strip_ipv6_brackets("["), "[");
    assert_eq!(strip_ipv6_brackets("]"), "]");
}

#[test]
fn strips_only_one_pair_of_brackets() {
    assert_eq!(strip_ipv6_brackets("[]"), "");
    assert_eq!(strip_ipv6_brackets("[[x]]"), "[x]");
}

#[test]
fn strips_around_non_ascii_host() {
    assert_eq!(strip_ipv6_brackets("[ünï]"), "ünï");
}

#[test]
fn bracketing_then_stripping_gives_host_back() {
    for inner in ["", "::1", "fe80::1%eth0", "[x]", "é"] {
        let bracketed = format!("[{}]", inner);
        assert_eq!(strip_ipv6_brackets(&bracketed), inner);
    }
}
