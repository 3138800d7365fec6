//! A capability shared by providers of values that a hardware query may or
//! may not report: the value itself, and a text that a report can print
//! whether or not the value is there.

use vstd::prelude::*;
use vstd::string::StringExecFns;

verus! {

/// A provider of a value of type `Type` that may be absent, and of a
/// human-readable form of it.
pub trait Data {
    type Type;

    /// The value that this provider reports, if any.
    spec fn reported(&self) -> Option<Self::Type>;

    /// The value, or `None` where the provider has none.
    fn data(&self) -> (r: Option<Self::Type>)
        ensures
            r == self.reported(),
    ;

    /// The human-readable form; where no value is present it is still a
    /// non-empty text that says so.
    fn text(&self) -> (r: String)
        ensures
            self.reported() is None ==> r@.len() > 0,
    ;
}

/// The character of the decimal digit `d`.
pub open spec fn digit_char(d: nat) -> char
    recommends
        d < 10,
{
    seq!['0', '1', '2', '3', '4', '5', '6', '7', '8', '9'][d as int]
}

/// The decimal form of `n`, without leading zeros.
pub open spec fn decimal(n: nat) -> Seq<char>
    decreases n,
{
    if n < 10 {
        seq![digit_char(n)]
    } else {
        decimal(n / 10).push(digit_char(n % 10))
    }
}

/// What a `Number` prints where it holds no value.
pub open spec fn unsupported_text() -> Seq<char> {
    seq!['u', 'n', 's', 'u', 'p', 'p', 'o', 'r', 't', 'e', 'd']
}

/// The text of the one decimal digit `d`.
fn digit_str(d: u32) -> (s: &'static str)
    requires
        d < 10,
    ensures
        s@ == seq![digit_char(d as nat)],
{
    match d {
        0 => {
            proof {
                reveal_strlit("0");
            }
            "0"
        },
        1 => {
            proof {
                reveal_strlit("1");
            }
            "1"
        },
        2 => {
            proof {
                reveal_strlit("2");
            }
            "2"
        },
        3 => {
            proof {
                reveal_strlit("3");
            }
            "3"
        },
        4 => {
            proof {
                reveal_strlit("4");
            }
            "4"
        },
        5 => {
            proof {
                reveal_strlit("5");
            }
            "5"
        },
        6 => {
            proof {
                reveal_strlit("6");
            }
            "6"
        },
        7 => {
            proof {
                reveal_strlit("7");
            }
            "7"
        },
        8 => {
            proof {
                reveal_strlit("8");
            }
            "8"
        },
        _ => {
            proof {
                reveal_strlit("9");
            }
            "9"
        },
    }
}

/// Appends the decimal form of `n` to `out`.
fn push_decimal(n: u32, out: &mut String)
    ensures
        final(out)@ == old(out)@ + decimal(n as nat),
    decreases n,
{
    if n >= 10 {
        push_decimal(n / 10, out);
    }
    out.append(digit_str(n % 10));
    assert(final(out)@ =~= old(out)@ + decimal(n as nat));
}

/// The decimal form of `n`.
pub fn to_decimal(n: u32) -> (s: String)
    ensures
        s@ == decimal(n as nat),
{
    let mut s = String::new();
    push_decimal(n, &mut s);
    assert(s@ =~= decimal(n as nat));
    s
}

/// A numeric value that a hardware query reports, or its absence.
pub struct Number {
    value: Option<u32>,
}

impl Number {
    /// A provider that reports `value`.
    pub fn new(value: Option<u32>) -> (n: Number)
        ensures
            n.reported() == value,
    {
        Number { value }
    }
}

impl Data for Number {
    type Type = u32;

    closed spec fn reported(&self) -> Option<u32> {
        self.value
    }

    fn data(&self) -> (r: Option<u32>) {
        self.value
    }

    /// The value in decimal, or `unsupported` where there is none.
    fn text(&self) -> (r: String)
        ensures
            r@ == match self.reported() {
                Some(n) => decimal(n as nat),
                None => unsupported_text(),
            },
    {
        match self.value {
            Some(n) => to_decimal(n),
            None => {
                proof {
                    reveal_strlit("unsupported");
                }
                String::from_str("unsupported")
            },
        }
    }
}

} // verus!
