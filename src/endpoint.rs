//! Decimal rendering of port numbers and the loopback endpoint built from them.

use vstd::prelude::*;

verus! {

/// The port at which a separately started development backend listens.
pub const DEVELOPMENT_PORT: u16 = 1720;

/// The character of a decimal digit.
pub open spec fn digit_char(d: nat) -> char
    recommends
        d < 10,
{
    seq!['0', '1', '2', '3', '4', '5', '6', '7', '8', '9'][d as int]
}

/// The decimal text of `n`, without leading zeros.
pub open spec fn decimal(n: nat) -> Seq<char>
    decreases n,
{
    if n < 10 {
        seq![digit_char(n)]
    } else {
        decimal(n / 10) + seq![digit_char(n % 10)]
    }
}

/// The scheme and loopback host that every endpoint starts with.
pub open spec fn loopback_prefix() -> Seq<char> {
    seq!['h', 't', 't', 'p', ':', '/', '/', '1', '2', '7', '.', '0', '.', '0', '.', '1', ':']
}

/// The base URL of a service listening on the loopback interface at `port`.
pub open spec fn endpoint_text(port: u16) -> Seq<char> {
    loopback_prefix() + decimal(port as nat)
}

/// The fixed endpoint used in development.
pub open spec fn development_endpoint() -> Seq<char> {
    endpoint_text(DEVELOPMENT_PORT)
}

fn digit_str(d: u16) -> (r: &'static str)
    requires
        d < 10,
    ensures
        r@ == seq![digit_char(d as nat)],
{
    proof {
        reveal_strlit("0");
        reveal_strlit("1");
        reveal_strlit("2");
        reveal_strlit("3");
        reveal_strlit("4");
        reveal_strlit("5");
        reveal_strlit("6");
        reveal_strlit("7");
        reveal_strlit("8");
        reveal_strlit("9");
    }
    if d == 0 {
        "0"
    } else if d == 1 {
        "1"
    } else if d == 2 {
        "2"
    } else if d == 3 {
        "3"
    } else if d == 4 {
        "4"
    } else if d == 5 {
        "5"
    } else if d == 6 {
        "6"
    } else if d == 7 {
        "7"
    } else if d == 8 {
        "8"
    } else {
        "9"
    }
}

fn append_decimal(s: &mut String, n: u16)
    ensures
        final(s)@ == old(s)@ + decimal(n as nat),
    decreases n,
{
    if n >= 10 {
        append_decimal(s, n / 10);
    }
    s.append(digit_str(n % 10));
    assert(s@ =~= old(s)@ + decimal(n as nat));
}

/// The command-line argument that tells the sidecar which port to bind.
pub fn port_argument(port: u16) -> (r: String)
    ensures
        r@ == decimal(port as nat),
{
    let mut s = String::new();
    append_decimal(&mut s, port);
    assert(s@ =~= decimal(port as nat));
    s
}

/// The base URL of the sidecar once it listens on `port`.
pub fn endpoint_for(port: u16) -> (r: String)
    ensures
        r@ == endpoint_text(port),
{
    let mut s = String::from_str("http://127.0.0.1:");
    proof {
        reveal_strlit("http://127.0.0.1:");
    }
    assert(s@ =~= loopback_prefix());
    append_decimal(&mut s, port);
    s
}

} // verus!
