//! Reactivity levels of functions and methods, and their names.

use vstd::prelude::*;
use crate::names::same_chars;

verus! {

/// The possible reactivity levels of a function or method.
#[derive(Debug, Clone, Copy, PartialEq, Eq, Structural)]
pub enum Level {
    NonRx,
    ConditionalRxLocal,
    ConditionalRxShallow,
    ConditionalRx,
    RxLocal,
    RxShallow,
    Rx,
}

/// The absence of a reactivity level.
#[derive(Debug, PartialEq, Eq, Structural)]
pub struct RxNone;

/// The name of a level; `NonRx` has none.
pub open spec fn level_name(level: Level) -> Option<Seq<char>> {
    match level {
        Level::NonRx => None,
        Level::ConditionalRxLocal => Some("conditional_rx_local"@),
        Level::ConditionalRxShallow => Some("conditional_rx_shallow"@),
        Level::ConditionalRx => Some("conditional_rx"@),
        Level::RxLocal => Some("rx_local"@),
        Level::RxShallow => Some("rx_shallow"@),
        Level::Rx => Some("rx"@),
    }
}

/// The level with the given name, if any.
pub open spec fn level_named(s: Seq<char>) -> Option<Level> {
    if s == "conditional_rx_local"@ {
        Some(Level::ConditionalRxLocal)
    } else if s == "conditional_rx_shallow"@ {
        Some(Level::ConditionalRxShallow)
    } else if s == "conditional_rx"@ {
        Some(Level::ConditionalRx)
    } else if s == "rx_local"@ {
        Some(Level::RxLocal)
    } else if s == "rx_shallow"@ {
        Some(Level::RxShallow)
    } else if s == "rx"@ {
        Some(Level::Rx)
    } else {
        None
    }
}

impl Level {
    /// The name of this level; `NonRx` has none.
    pub fn to_str(self) -> (r: Result<&'static str, RxNone>)
        ensures
            match level_name(self) {
                None => r == Err::<&str, RxNone>(RxNone),
                Some(n) => r is Ok && r->Ok_0@ == n,
            },
    {
        match self {
            Level::NonRx => Err(RxNone),
            Level::ConditionalRxLocal => Ok("conditional_rx_local"),
            Level::ConditionalRxShallow => Ok("conditional_rx_shallow"),
            Level::ConditionalRx => Ok("conditional_rx"),
            Level::RxLocal => Ok("rx_local"),
            Level::RxShallow => Ok("rx_shallow"),
            Level::Rx => Ok("rx"),
        }
    }

    /// The level with the name `s`.
    pub fn from_name(s: &str) -> (r: Result<Level, RxNone>)
        ensures
            match level_named(s@) {
                None => r == Err::<Level, RxNone>(RxNone),
                Some(l) => r == Ok::<Level, RxNone>(l),
            },
    {
        proof {
            reveal_strlit("conditional_rx_local");
            reveal_strlit("conditional_rx_shallow");
            reveal_strlit("conditional_rx");
            reveal_strlit("rx_local");
            reveal_strlit("rx_shallow");
            reveal_strlit("rx");
        }
        if same_chars(s, "conditional_rx_local") {
            Ok(Level::ConditionalRxLocal)
        } else if same_chars(s, "conditional_rx_shallow") {
            Ok(Level::ConditionalRxShallow)
        } else if same_chars(s, "conditional_rx") {
            Ok(Level::ConditionalRx)
        } else if same_chars(s, "rx_local") {
            Ok(Level::RxLocal)
        } else if same_chars(s, "rx_shallow") {
            Ok(Level::RxShallow)
        } else if same_chars(s, "rx") {
            Ok(Level::Rx)
        } else {
            Err(RxNone)
        }
    }
}

/// Every level that has a name is found again by it.
pub proof fn level_name_round_trip(level: Level)
    requires
        level_name(level) is Some,
    ensures
        level_named(level_name(level)->Some_0) == Some(level),
{
    reveal_strlit("conditional_rx_local");
    reveal_strlit("conditional_rx_shallow");
    reveal_strlit("conditional_rx");
    reveal_strlit("rx_local");
    reveal_strlit("rx_shallow");
    reveal_strlit("rx");
    assert("conditional_rx_local"@.len() == 20);
    assert("conditional_rx_shallow"@.len() == 22);
    assert("conditional_rx"@.len() == 14);
    assert("rx_local"@.len() == 8);
    assert("rx_shallow"@.len() == 10);
    assert("rx"@.len() == 2);
}

impl core::convert::TryFrom<Level> for &'static str {
    type Error = RxNone;

    fn try_from(level: Level) -> Result<&'static str, RxNone> {
        match level {
            Level::NonRx => Err(RxNone),
            Level::ConditionalRxLocal => Ok("conditional_rx_local"),
            Level::ConditionalRxShallow => Ok("conditional_rx_shallow"),
            Level::ConditionalRx => Ok("conditional_rx"),
            Level::RxLocal => Ok("rx_local"),
            Level::RxShallow => Ok("rx_shallow"),
            Level::Rx => Ok("rx"),
        }
    }
}

impl vstd::std_specs::convert::TryFromSpecImpl<Level> for &'static str {
    open spec fn obeys_try_from_spec() -> bool {
        true
    }

    open spec fn try_from_spec(level: Level) -> Result<&'static str, RxNone> {
        match level {
            Level::NonRx => Err(RxNone),
            Level::ConditionalRxLocal => Ok("conditional_rx_local"),
            Level::ConditionalRxShallow => Ok("conditional_rx_shallow"),
            Level::ConditionalRx => Ok("conditional_rx"),
            Level::RxLocal => Ok("rx_local"),
            Level::RxShallow => Ok("rx_shallow"),
            Level::Rx => Ok("rx"),
        }
    }
}

impl core::convert::TryFrom<&str> for Level {
    type Error = RxNone;

    fn try_from(s: &str) -> Result<Level, RxNone> {
        Level::from_name(s)
    }
}

impl vstd::std_specs::convert::TryFromSpecImpl<&str> for Level {
    open spec fn obeys_try_from_spec() -> bool {
        true
    }

    open spec fn try_from_spec(s: &str) -> Result<Level, RxNone> {
        match level_named(s@) {
            Some(l) => Ok(l),
            None => Err(RxNone),
        }
    }
}

impl core::str::FromStr for Level {
    type Err = RxNone;

    fn from_str(s: &str) -> Result<Level, RxNone> {
        Level::from_name(s)
    }
}

} // verus!
