//! Building strings: decimal numbers and joining.
use vstd::prelude::*;
use vstd::std_specs::iter::IteratorSpec;

verus! {

/// Appends one character (`String::push`).
#[verifier::external_body]
pub(crate) fn push_char(s: &mut String, c: char)
    ensures
        final(s)@ == old(s)@.push(c),
{
    s.push(c)
}

/// The characters of a string, in order.
pub fn chars_of(s: &str) -> (v: Vec<char>)
    ensures
        v@ == s@,
{
    let mut v: Vec<char> = Vec::new();
    let mut it = s.chars();
    loop
        invariant
            it.obeys_prophetic_iter_laws(),
            v@ + it.remaining() == s@,
            it.decrease() is Some,
        ensures
            v@ == s@,
        decreases it.decrease()->0,
    {
        let ghost old_rem = it.remaining();
        match it.next() {
            Some(c) => {
                let ghost before = v@;
                v.push(c);
                assert(v@ + it.remaining() =~= before + old_rem);
            },
            None => {
                assert(v@ =~= v@ + it.remaining());
                break;
            },
        }
    }
    v
}

/// The character of a decimal digit.
pub open spec fn digit_char(d: nat) -> char {
    (48 + d) as char
}

/// The decimal notation of a number, without leading zeros.
pub open spec fn decimal(n: nat) -> Seq<char>
    decreases n,
{
    if n < 10 {
        seq![digit_char(n)]
    } else {
        decimal(n / 10).push(digit_char(n % 10))
    }
}

/// Appends the decimal notation of `n`.
pub fn push_decimal(s: &mut String, n: u64)
    ensures
        final(s)@ == old(s)@ + decimal(n as nat),
    decreases n,
{
    if n >= 10 {
        push_decimal(s, n / 10);
    }
    let d = (n % 10) as u8;
    let c = (48u8 + d) as char;
    push_char(s, c);
    assert(c == digit_char((n % 10) as nat));
    proof {
        if n >= 10 {
            assert(decimal(n as nat) == decimal((n / 10) as nat).push(c));
        } else {
            assert(decimal(n as nat) == seq![c]);
        }
    }
    assert(s@ =~= old(s)@ + decimal(n as nat));
}

/// Dotted-decimal notation of an IPv4 address.
pub open spec fn dotted(a: Seq<u8>) -> Seq<char> {
    decimal(a[0] as nat) + "."@ + decimal(a[1] as nat) + "."@ + decimal(a[2] as nat) + "."@
        + decimal(a[3] as nat)
}

/// Writes an IPv4 address in dotted-decimal notation.
pub fn ipv4_text(a: [u8; 4]) -> (r: String)
    ensures
        r@ == dotted(a@),
{
    let mut s = String::new();
    push_decimal(&mut s, a[0] as u64);
    push_char(&mut s, '.');
    push_decimal(&mut s, a[1] as u64);
    push_char(&mut s, '.');
    push_decimal(&mut s, a[2] as u64);
    push_char(&mut s, '.');
    push_decimal(&mut s, a[3] as u64);
    proof {
        reveal_strlit(".");
    }
    assert(s@ =~= dotted(a@));
    s
}

/// `host:port` written as the loopback address and a decimal port.
pub open spec fn loopback_endpoint(port: nat) -> Seq<char> {
    "127.0.0.1:"@ + decimal(port)
}

/// The text `127.0.0.1:<port>`.
pub fn loopback_addr(port: u64) -> (r: String)
    ensures
        r@ == loopback_endpoint(port as nat),
{
    let mut s = String::from_str("127.0.0.1:");
    push_decimal(&mut s, port);
    s
}

} // verus!
