//! Small helpers: how long a piece of work took, in words.

use crate::text::{decimal, u32_to_string, u64_to_string};
use vstd::prelude::*;
use vstd::string::StringExecFns;

verus! {

#[verifier::external_type_specification]
#[verifier::external_body]
pub struct ExInstant(std::time::Instant);

/// A span of time: whole seconds, and nanoseconds into the next second.
#[derive(Debug, Clone, Copy, PartialEq, Eq, Structural)]
pub struct Elapsed {
    pub secs: u64,
    pub nanos: u32,
}

/// `n` in decimal, with a leading zero where it is below ten.
pub open spec fn two_digits(n: nat) -> Seq<char> {
    if n < 10 {
        "0"@ + decimal(n)
    } else {
        decimal(n)
    }
}

/// A span of time in words, in the unit that suits its size: whole nanoseconds below a
/// microsecond, whole microseconds below a millisecond, whole milliseconds below a second,
/// seconds with two decimals below ten seconds, and whole seconds from there on.
pub open spec fn elapsed_text(secs: u64, nanos: u32) -> Seq<char> {
    if secs == 0 && nanos < 1000 {
        decimal(nanos as nat) + " ns"@
    } else if secs == 0 && nanos < 1_000_000 {
        decimal((nanos / 1000) as nat) + " µs"@
    } else if secs == 0 {
        decimal((nanos / 1_000_000) as nat) + " ms"@
    } else if secs < 10 {
        decimal(secs as nat) + "."@ + two_digits((nanos / 10_000_000) as nat) + " s"@
    } else {
        decimal(secs as nat) + " s"@
    }
}

/// Reads the clock with `Instant::elapsed` and splits the span with `Duration::as_secs`
/// and `Duration::subsec_nanos`. The answer depends on when the call is made; trusted is
/// only what std documents of `subsec_nanos`: it is below one billion.
#[verifier::external_body]
pub(crate) fn elapsed_since(start: &std::time::Instant) -> (r: (u64, u32))
    ensures
        r.1 < 1_000_000_000,
{
    let span = start.elapsed();
    (span.as_secs(), span.subsec_nanos())
}

impl Elapsed {
    /// The time that has passed since `start`, read from the clock.
    pub fn from(start: &std::time::Instant) -> (r: Self)
        ensures
            r.nanos < 1_000_000_000,
    {
        let (secs, nanos) = elapsed_since(start);
        Elapsed { secs, nanos }
    }

    /// The span in words: see [`elapsed_text`].
    pub fn fmt(&self) -> (r: String)
        ensures
            r@ == elapsed_text(self.secs, self.nanos),
    {
        if self.secs == 0 && self.nanos < 1000 {
            let mut s = u32_to_string(self.nanos);
            s.append(" ns");
            s
        } else if self.secs == 0 && self.nanos < 1_000_000 {
            let mut s = u32_to_string(self.nanos / 1000);
            s.append(" µs");
            s
        } else if self.secs == 0 {
            let mut s = u32_to_string(self.nanos / 1_000_000);
            s.append(" ms");
            s
        } else if self.secs < 10 {
            let hundredths: u32 = self.nanos / 10_000_000;
            let mut s = u64_to_string(self.secs);
            s.append(".");
            if hundredths < 10 {
                s.append("0");
            }
            s.append(u32_to_string(hundredths).as_str());
            s.append(" s");
            proof {
                if hundredths < 10 {
                    assert(decimal(self.secs as nat) + "."@ + "0"@ + decimal(hundredths as nat)
                        =~= decimal(self.secs as nat) + "."@ + ("0"@ + decimal(
                        hundredths as nat,
                    )));
                }
            }
            s
        } else {
            let mut s = u64_to_string(self.secs);
            s.append(" s");
            s
        }
    }
}

} // verus!
