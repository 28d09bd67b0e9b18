//! Greeting counters.
//!
//! Each greeting carries a running count of how often it has been asked for,
//! rendered with digits grouped in threes. The two counters live in one
//! [`Greeter`] that the caller owns and shares as it sees fit, instead of in
//! ambient global state.

use vstd::prelude::*;

use num_format::Locale;
use num_format::ToFormattedString;

use crate::digits::grouped_decimal;

verus! {

/// The greeting with its running count: `Hello from Rust!`, a newline, the
/// grouped count and `x`.
pub open spec fn greeting_text(count: nat) -> Seq<char> {
    "Hello from Rust!\n"@ + grouped_decimal(count) + "x"@
}

/// The named greeting with its running count: `Hello, <recipient>!`, a
/// newline, the grouped count and `x`.
pub open spec fn hello_text(recipient: Seq<char>, count: nat) -> Seq<char> {
    "Hello, "@ + recipient + "!\n"@ + grouped_decimal(count) + "x"@
}

/// Relies on num_format's `ToFormattedString::to_formatted_string` with
/// `Locale::en`: the decimal digits of `n`, separated into groups of three
/// by commas.
#[verifier::external_body]
fn format_count(n: u32) -> (r: String)
    ensures
        r@ == grouped_decimal(n as nat),
{
    n.to_formatted_string(&Locale::en)
}

/// The two greeting counters: one for the plain greeting, one for the named
/// one. Each greeting bumps its own counter and reports the new value.
pub struct Greeter {
    /// How often the plain greeting has been asked for.
    pub greet_count: u32,
    /// How often the named greeting has been asked for.
    pub named_count: u32,
}

impl Greeter {
    /// A fresh greeter with both counters at zero.
    pub fn new() -> (g: Greeter)
        ensures
            g.greet_count == 0,
            g.named_count == 0,
    {
        Greeter { greet_count: 0, named_count: 0 }
    }

    /// The plain greeting, counted: bumps the counter and returns
    /// `Hello from Rust!` with the new count.
    pub fn get_greetings(&mut self) -> (r: String)
        requires
            old(self).greet_count < u32::MAX,
        ensures
            final(self).greet_count == old(self).greet_count + 1,
            final(self).named_count == old(self).named_count,
            r@ == greeting_text(final(self).greet_count as nat),
    {
        self.greet_count = self.greet_count + 1;
        let num = format_count(self.greet_count);
        let mut s = String::from_str("Hello from Rust!\n");
        s.append(num.as_str());
        s.append("x");
        proof {
            assert(s@ =~= greeting_text(self.greet_count as nat));
        }
        s
    }

    /// The named greeting, counted: bumps the counter and returns
    /// `Hello, <recipient>!` with the new count.
    pub fn say_hello(&mut self, recipient: &str) -> (r: String)
        requires
            old(self).named_count < u32::MAX,
        ensures
            final(self).named_count == old(self).named_count + 1,
            final(self).greet_count == old(self).greet_count,
            r@ == hello_text(recipient@, final(self).named_count as nat),
    {
        self.named_count = self.named_count + 1;
        let num = format_count(self.named_count);
        let mut s = String::from_str("Hello, ");
        s.append(recipient);
        s.append("!\n");
        s.append(num.as_str());
        s.append("x");
        proof {
            assert(s@ =~= hello_text(recipient@, self.named_count as nat));
        }
        s
    }
}

} // verus!
