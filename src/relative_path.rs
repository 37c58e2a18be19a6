//! The roots that a relative path is taken from.

use vstd::prelude::*;

verus! {

#[derive(Clone, Copy, Debug, PartialEq, Eq, Structural)]
pub enum Prefix {
    Root,
    Hhi,
    Dummy,
    Tmp,
}

/// The prefix with the given number, if it is defined.
pub open spec fn prefix_numbered(n: nat) -> Option<Prefix> {
    if n == 0 {
        Some(Prefix::Root)
    } else if n == 1 {
        Some(Prefix::Hhi)
    } else if n == 2 {
        Some(Prefix::Dummy)
    } else if n == 3 {
        Some(Prefix::Tmp)
    } else {
        None
    }
}

/// The decimal digits of `n`.
pub open spec fn decimal(n: nat) -> Seq<char>
    decreases n,
{
    if n < 10 {
        seq!["0123456789"@[n as int]]
    } else {
        decimal(n / 10).push("0123456789"@[(n % 10) as int])
    }
}

/// The message for an undefined prefix number.
pub open spec fn undefined_prefix_message(n: nat) -> Seq<char> {
    "prefix "@ + decimal(n) + " is not defined"@
}

/// Appends the decimal digits of `n` to `out`.
fn push_decimal(out: &mut String, n: usize)
    ensures
        final(out)@ == old(out)@ + decimal(n as nat),
    decreases n,
{
    let digits = "0123456789";
    proof { reveal_strlit("0123456789"); }
    if n >= 10 {
        push_decimal(out, n / 10);
    }
    let d = n % 10;
    let ghost before = out@;
    out.append(digits.substring_char(d, d + 1));
    assert(digits@.subrange(d as int, d + 1) =~= seq![digits@[d as int]]);
    if n >= 10 {
        assert(out@ =~= old(out)@ + decimal(n as nat));
    } else {
        assert(out@ =~= old(out)@ + decimal(n as nat));
    }
}

impl Prefix {
    /// The prefix with number `prefix_raw`: 0 to 3 are defined.
    pub fn try_from_usize(prefix_raw: usize) -> (r: Result<Prefix, String>)
        ensures
            match prefix_numbered(prefix_raw as nat) {
                Some(p) => r == Ok::<Prefix, String>(p),
                None => r is Err && r->Err_0@ == undefined_prefix_message(prefix_raw as nat),
            },
    {
        match prefix_raw {
            0 => Ok(Prefix::Root),
            1 => Ok(Prefix::Hhi),
            2 => Ok(Prefix::Dummy),
            3 => Ok(Prefix::Tmp),
            _ => {
                let mut msg = String::new();
                msg.append("prefix ");
                push_decimal(&mut msg, prefix_raw);
                msg.append(" is not defined");
                proof {
                    reveal_strlit("prefix ");
                    reveal_strlit(" is not defined");
                }
                assert(msg@ =~= undefined_prefix_message(prefix_raw as nat));
                Err(msg)
            },
        }
    }

    /// The name of this prefix.
    pub fn to_str(&self) -> (r: &'static str)
        ensures
            r@ == match *self {
                Prefix::Root => "root"@,
                Prefix::Hhi => "hhi"@,
                Prefix::Tmp => "tmp"@,
                Prefix::Dummy => "dummy"@,
            },
    {
        match self {
            Prefix::Root => "root",
            Prefix::Hhi => "hhi",
            Prefix::Tmp => "tmp",
            Prefix::Dummy => "dummy",
        }
    }
}

impl core::convert::TryFrom<usize> for Prefix {
    type Error = String;

    fn try_from(prefix_raw: usize) -> Result<Prefix, String> {
        Prefix::try_from_usize(prefix_raw)
    }
}

impl vstd::std_specs::convert::TryFromSpecImpl<usize> for Prefix {
    open spec fn obeys_try_from_spec() -> bool {
        false
    }

    open spec fn try_from_spec(prefix_raw: usize) -> Result<Prefix, String> {
        vstd::pervasive::arbitrary()
    }
}

} // verus!
