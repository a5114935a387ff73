use vstd::prelude::*;

verus! {

/// The errors the console surfaces to the assembler and starter: registering
/// a duplicate service identifier, building without a bind port, and starting
/// an instance that has already started.
#[derive(Debug, Clone, PartialEq, Eq)]
pub enum Error {
    /// A subscription was already registered under this identifier; the
    /// string is the identifier's decimal description.
    ServiceIdUsed(String),
    /// No bind port was configured before the console was built.
    NoBindAddress,
    /// The console instance has already been started once.
    AlreadyStarted,
}

/// The character for a single decimal digit.
pub open spec fn spec_digit_char(d: nat) -> char {
    if d == 0 {
        '0'
    } else if d == 1 {
        '1'
    } else if d == 2 {
        '2'
    } else if d == 3 {
        '3'
    } else if d == 4 {
        '4'
    } else if d == 5 {
        '5'
    } else if d == 6 {
        '6'
    } else if d == 7 {
        '7'
    } else if d == 8 {
        '8'
    } else {
        '9'
    }
}

/// The decimal rendering of `n`, most significant digit first, with no
/// leading zeros (a single zero for `n == 0`).
pub open spec fn spec_u64_decimal(n: nat) -> Seq<char>
    decreases n,
{
    if n < 10 {
        seq![spec_digit_char(n)]
    } else {
        spec_u64_decimal(n / 10) + seq![spec_digit_char(n % 10)]
    }
}

/// Appends the character for the decimal digit `d` to `s`.
fn push_digit(s: &mut String, d: u64)
    requires
        d < 10,
    ensures
        final(s)@ == old(s)@ + seq![spec_digit_char(d as nat)],
{
    proof {
        reveal_strlit("0");
        reveal_strlit("1");
        reveal_strlit("2");
        reveal_strlit("3");
        reveal_strlit("4");
        reveal_strlit("5");
        reveal_strlit("6");
        reveal_strlit("7");
        reveal_strlit("8");
        reveal_strlit("9");
    }
    if d == 0 {
        s.append("0");
    } else if d == 1 {
        s.append("1");
    } else if d == 2 {
        s.append("2");
    } else if d == 3 {
        s.append("3");
    } else if d == 4 {
        s.append("4");
    } else if d == 5 {
        s.append("5");
    } else if d == 6 {
        s.append("6");
    } else if d == 7 {
        s.append("7");
    } else if d == 8 {
        s.append("8");
    } else {
        s.append("9");
    }
    assert(s@ =~= old(s)@ + seq![spec_digit_char(d as nat)]);
}

/// Appends the decimal rendering of `n` to `s`.
fn append_u64_decimal(n: u64, s: &mut String)
    ensures
        final(s)@ == old(s)@ + spec_u64_decimal(n as nat),
    decreases n,
{
    if n < 10 {
        push_digit(s, n);
    } else {
        append_u64_decimal(n / 10, s);
        push_digit(s, n % 10);
        assert(s@ =~= old(s)@ + spec_u64_decimal(n as nat));
    }
}

/// The human-readable description of a service identifier: its decimal form.
pub fn describe_service_id(service_id: u64) -> (r: String)
    ensures
        r@ == spec_u64_decimal(service_id as nat),
{
    let mut s = String::new();
    append_u64_decimal(service_id, &mut s);
    assert(s@ =~= spec_u64_decimal(service_id as nat));
    s
}

} // verus!
