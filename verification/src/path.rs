use vstd::prelude::*;
use vstd::string::StringExecFns;

verus! {

/// The character for the decimal digit `d`.
pub open spec fn decimal_digit(d: int) -> char
    recommends
        0 <= d < 10,
{
    if d == 0 {
        '0'
    } else if d == 1 {
        '1'
    } else if d == 2 {
        '2'
    } else if d == 3 {
        '3'
    } else if d == 4 {
        '4'
    } else if d == 5 {
        '5'
    } else if d == 6 {
        '6'
    } else if d == 7 {
        '7'
    } else if d == 8 {
        '8'
    } else {
        '9'
    }
}

/// The usual decimal rendering of `n`: no sign, no leading zero except for
/// `n == 0` itself.
pub open spec fn decimal_seq(n: nat) -> Seq<char>
    decreases n,
{
    if n < 10 {
        seq![decimal_digit(n as int)]
    } else {
        decimal_seq(n / 10).push(decimal_digit((n % 10) as int))
    }
}

/// The conventional devpts path of the slave bound to slave number `n`.
pub open spec fn default_slave_path(n: nat) -> Seq<char> {
    "/dev/pts/"@ + decimal_seq(n)
}

/// The path an allocation reports for its slave: the caller's override
/// verbatim when one was supplied, the conventional devpts path for
/// `number` otherwise.
pub open spec fn resolved_path(number: nat, path_override: Option<Seq<char>>) -> Seq<char> {
    match path_override {
        Some(p) => p,
        None => default_slave_path(number),
    }
}

/// A one-character string slice holding the decimal digit `d`.
fn digit_str(d: u32) -> (r: &'static str)
    requires
        d < 10,
    ensures
        r@ == seq![decimal_digit(d as int)],
{
    proof {
        reveal_strlit("0");
        reveal_strlit("1");
        reveal_strlit("2");
        reveal_strlit("3");
        reveal_strlit("4");
        reveal_strlit("5");
        reveal_strlit("6");
        reveal_strlit("7");
        reveal_strlit("8");
        reveal_strlit("9");
    }
    let r = if d == 0 {
        "0"
    } else if d == 1 {
        "1"
    } else if d == 2 {
        "2"
    } else if d == 3 {
        "3"
    } else if d == 4 {
        "4"
    } else if d == 5 {
        "5"
    } else if d == 6 {
        "6"
    } else if d == 7 {
        "7"
    } else if d == 8 {
        "8"
    } else {
        "9"
    };
    proof {
        assert(r@ =~= seq![decimal_digit(d as int)]);
    }
    r
}

/// Appends the decimal rendering of `n` to `s`.
fn push_decimal(s: &mut String, n: u32)
    ensures
        final(s)@ == old(s)@ + decimal_seq(n as nat),
    decreases n,
{
    if n >= 10 {
        push_decimal(s, n / 10);
    }
    let d: u32 = n % 10;
    s.append(digit_str(d));
    proof {
        if n < 10 {
            assert(final(s)@ =~= old(s)@ + decimal_seq(n as nat));
        } else {
            assert(decimal_seq(n as nat) == decimal_seq(n as nat / 10).push(
                decimal_digit((n as nat % 10) as int),
            ));
            assert(final(s)@ =~= old(s)@ + decimal_seq(n as nat));
        }
    }
}

/// The decimal rendering of `n` as an owned string.
pub fn decimal_string(n: u32) -> (r: String)
    ensures
        r@ == decimal_seq(n as nat),
{
    let mut s = String::new();
    push_decimal(&mut s, n);
    proof {
        assert(s@ =~= decimal_seq(n as nat));
    }
    s
}

/// Resolves the path the allocation will open the slave from and report to
/// the caller: the override verbatim when one is supplied, the conventional
/// devpts path for slave number `number` otherwise.
pub fn resolve_slave_path(number: u32, path_override: Option<String>) -> (r: String)
    ensures
        r@ == resolved_path(
            number as nat,
            match path_override {
                Some(p) => Some(p@),
                None => None,
            },
        ),
{
    match path_override {
        Some(p) => p,
        None => {
            let mut s = String::from_str("/dev/pts/");
            push_decimal(&mut s, number);
            s
        },
    }
}

} // verus!
