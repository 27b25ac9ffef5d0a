//! Time bounds carried by the transitions of a sequential net, and their
//! textual rendering.

use vstd::prelude::*;

verus! {

/// One endpoint of a dwell-time interval: open, closed, or unbounded.
#[derive(Clone, Copy, PartialEq, Eq, Structural, Debug)]
pub enum Bound {
    Open(u64),
    Closed(u64),
    Infinity,
}

/// The interval constraining how long a token may dwell before a
/// transition fires.
#[derive(Clone, Copy, PartialEq, Eq, Structural, Debug)]
pub struct TimeRange {
    pub start: Bound,
    pub end: Bound,
}

/// The range every fresh transition carries: the instantaneous interval.
pub open spec fn instant_range() -> TimeRange {
    TimeRange { start: Bound::Closed(0), end: Bound::Closed(0) }
}

impl TimeRange {
    /// The instantaneous interval, the default on creation.
    pub fn instant() -> (r: TimeRange)
        ensures
            r == instant_range(),
    {
        TimeRange { start: Bound::Closed(0), end: Bound::Closed(0) }
    }
}

/// The decimal digit characters, least significant last, of a non-negative
/// number.
pub open spec fn dec_text(n: nat) -> Seq<char>
    decreases n,
{
    if n < 10 {
        seq![digit_char(n)]
    } else {
        dec_text(n / 10).push(digit_char(n % 10))
    }
}

/// The character for one decimal digit.
pub open spec fn digit_char(d: nat) -> char {
    if d == 0 {
        '0'
    } else if d == 1 {
        '1'
    } else if d == 2 {
        '2'
    } else if d == 3 {
        '3'
    } else if d == 4 {
        '4'
    } else if d == 5 {
        '5'
    } else if d == 6 {
        '6'
    } else if d == 7 {
        '7'
    } else if d == 8 {
        '8'
    } else {
        '9'
    }
}

/// How the opening endpoint of an interval reads.
pub open spec fn start_text(b: Bound) -> Seq<char> {
    match b {
        Bound::Open(x) => seq!['('] + dec_text(x as nat) + seq![',', ' '],
        Bound::Closed(x) => seq!['['] + dec_text(x as nat) + seq![',', ' '],
        Bound::Infinity => seq!['(', 'i', 'n', 'f', ',', ' '],
    }
}

/// How the closing endpoint of an interval reads.
pub open spec fn end_text(b: Bound) -> Seq<char> {
    match b {
        Bound::Open(x) => dec_text(x as nat) + seq![')'],
        Bound::Closed(x) => dec_text(x as nat) + seq![']'],
        Bound::Infinity => seq!['i', 'n', 'f', ')'],
    }
}

/// How a whole interval reads: opening endpoint, then closing endpoint.
pub open spec fn time_text(tr: TimeRange) -> Seq<char> {
    start_text(tr.start) + end_text(tr.end)
}

/// Appends the decimal digits of `n` to `out`.
pub fn push_dec(out: &mut String, n: u64)
    ensures
        final(out)@ == old(out)@ + dec_text(n as nat),
    decreases n,
{
    if n >= 10 {
        push_dec(out, n / 10);
    }
    let d = n % 10;
    let digit: &str = if d == 0 {
        "0"
    } else if d == 1 {
        "1"
    } else if d == 2 {
        "2"
    } else if d == 3 {
        "3"
    } else if d == 4 {
        "4"
    } else if d == 5 {
        "5"
    } else if d == 6 {
        "6"
    } else if d == 7 {
        "7"
    } else if d == 8 {
        "8"
    } else {
        "9"
    };
    proof {
        reveal_strlit("0");
        reveal_strlit("1");
        reveal_strlit("2");
        reveal_strlit("3");
        reveal_strlit("4");
        reveal_strlit("5");
        reveal_strlit("6");
        reveal_strlit("7");
        reveal_strlit("8");
        reveal_strlit("9");
        assert(digit@ =~= seq![digit_char((n % 10) as nat)]);
    }
    out.append(digit);
    proof {
        if n >= 10 {
            assert(dec_text(n as nat) == dec_text(n as nat / 10).push(digit_char(n as nat % 10)));
            assert(final(out)@ =~= old(out)@ + dec_text(n as nat));
        } else {
            assert(dec_text(n as nat) =~= seq![digit_char(n as nat)]);
            assert(final(out)@ =~= old(out)@ + dec_text(n as nat));
        }
    }
}

impl TimeRange {
    /// Renders the interval, endpoint brackets chosen by bound kind.
    pub fn render(&self) -> (r: String)
        ensures
            r@ == time_text(*self),
    {
        let mut out = String::new();
        match self.start {
            Bound::Open(x) => {
                out.append("(");
                push_dec(&mut out, x);
                out.append(", ");
            },
            Bound::Closed(x) => {
                out.append("[");
                push_dec(&mut out, x);
                out.append(", ");
            },
            Bound::Infinity => {
                out.append("(inf, ");
            },
        }
        match self.end {
            Bound::Open(x) => {
                push_dec(&mut out, x);
                out.append(")");
            },
            Bound::Closed(x) => {
                push_dec(&mut out, x);
                out.append("]");
            },
            Bound::Infinity => {
                out.append("inf)");
            },
        }
        proof {
            reveal_strlit("(");
            reveal_strlit("[");
            reveal_strlit(", ");
            reveal_strlit("(inf, ");
            reveal_strlit(")");
            reveal_strlit("]");
            reveal_strlit("inf)");
            assert(out@ =~= time_text(*self));
        }
        out
    }
}

} // verus!
