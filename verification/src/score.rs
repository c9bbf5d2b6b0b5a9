//! The score: time-based accumulation and the display line.
//!
//! While the game is playing, the score grows by five points per second
//! — held exactly as milli-points per millisecond, so accumulation is
//! integer-exact. The displayed line is `Score: ` followed by the whole
//! points (the accumulated total truncated to points), with no leading
//! zeros.

use vstd::prelude::*;
use vstd::string::StringExecFns;

verus! {

/// The decimal digit character of one digit value.
pub open spec fn spec_digit_char(d: int) -> char
    recommends
        0 <= d < 10,
{
    if d == 0 {
        '0'
    } else if d == 1 {
        '1'
    } else if d == 2 {
        '2'
    } else if d == 3 {
        '3'
    } else if d == 4 {
        '4'
    } else if d == 5 {
        '5'
    } else if d == 6 {
        '6'
    } else if d == 7 {
        '7'
    } else if d == 8 {
        '8'
    } else {
        '9'
    }
}

/// The decimal writing of a number: most significant digit first, no
/// leading zeros (a lone zero for zero).
pub open spec fn spec_decimal(n: nat) -> Seq<char>
    decreases n,
{
    if n < 10 {
        seq![spec_digit_char(n as int)]
    } else {
        spec_decimal(n / 10).push(spec_digit_char((n % 10) as int))
    }
}

/// The whole display line for a points total.
pub open spec fn spec_score_line(points: nat) -> Seq<char> {
    "Score: "@ + spec_decimal(points)
}

/// Total milliseconds of a sequence of frame times.
pub open spec fn spec_sum_ms(deltas: Seq<u32>) -> int
    decreases deltas.len(),
{
    if deltas.len() == 0 {
        0
    } else {
        deltas[0] + spec_sum_ms(deltas.drop_first())
    }
}

/// The accumulated milli-points after playing one frame per entry of
/// `deltas`, starting from `milli`.
pub open spec fn spec_accumulated(milli: int, deltas: Seq<u32>) -> int
    decreases deltas.len(),
{
    if deltas.len() == 0 {
        milli
    } else {
        spec_accumulated(milli + 5 * deltas[0], deltas.drop_first())
    }
}

/// The running score.
#[derive(Clone, Copy, Debug, PartialEq, Eq, Structural)]
pub struct Score {
    /// Accumulated milli-points: `tuning::SCORE_RATE` per millisecond
    /// played.
    pub milli: u64,
}

impl Score {
    /// A fresh run's score: zero.
    pub fn new() -> (s: Score)
        ensures
            s.milli == 0,
    {
        Score { milli: 0 }
    }

    /// One playing frame's worth of score: exactly `tuning::SCORE_RATE`
    /// milli-points per elapsed millisecond, never decreasing.
    pub fn accumulate(&mut self, dt_ms: u32)
        requires
            old(self).milli + 5 * dt_ms <= u64::MAX,
        ensures
            final(self).milli == old(self).milli + 5 * dt_ms,
            final(self).milli >= old(self).milli,
    {
        self.milli = self.milli + 5 * (dt_ms as u64);
    }

    /// The whole points shown: the accumulated total truncated to
    /// points.
    pub fn points(&self) -> (p: u64)
        ensures
            p == self.milli / 1000,
    {
        self.milli / 1000
    }

    /// The display line: `Score: ` then the whole points.
    pub fn line(&self) -> (s: String)
        ensures
            s@ == spec_score_line((self.milli / 1000) as nat),
    {
        let mut s = "Score: ".to_owned();
        let digits = decimal_string(self.points());
        s.append(digits.as_str());
        s
    }
}

/// The character of one decimal digit.
fn digit_str(d: u64) -> (s: &'static str)
    requires
        d < 10,
    ensures
        s@ == seq![spec_digit_char(d as int)],
{
    if d == 0 {
        proof {
            reveal_strlit("0");
        }
        assert("0"@ =~= seq![spec_digit_char(0)]);
        "0"
    } else if d == 1 {
        proof {
            reveal_strlit("1");
        }
        assert("1"@ =~= seq![spec_digit_char(1)]);
        "1"
    } else if d == 2 {
        proof {
            reveal_strlit("2");
        }
        assert("2"@ =~= seq![spec_digit_char(2)]);
        "2"
    } else if d == 3 {
        proof {
            reveal_strlit("3");
        }
        assert("3"@ =~= seq![spec_digit_char(3)]);
        "3"
    } else if d == 4 {
        proof {
            reveal_strlit("4");
        }
        assert("4"@ =~= seq![spec_digit_char(4)]);
        "4"
    } else if d == 5 {
        proof {
            reveal_strlit("5");
        }
        assert("5"@ =~= seq![spec_digit_char(5)]);
        "5"
    } else if d == 6 {
        proof {
            reveal_strlit("6");
        }
        assert("6"@ =~= seq![spec_digit_char(6)]);
        "6"
    } else if d == 7 {
        proof {
            reveal_strlit("7");
        }
        assert("7"@ =~= seq![spec_digit_char(7)]);
        "7"
    } else if d == 8 {
        proof {
            reveal_strlit("8");
        }
        assert("8"@ =~= seq![spec_digit_char(8)]);
        "8"
    } else {
        proof {
            reveal_strlit("9");
        }
        assert("9"@ =~= seq![spec_digit_char(9)]);
        "9"
    }
}

/// The decimal writing of a number, most significant digit first.
fn decimal_string(n: u64) -> (s: String)
    ensures
        s@ == spec_decimal(n as nat),
    decreases n,
{
    if n < 10 {
        digit_str(n).to_owned()
    } else {
        let mut s = decimal_string(n / 10);
        s.append(digit_str(n % 10));
        proof {
            assert(s@ =~= spec_decimal(n as nat));
        }
        s
    }
}

/// Accumulation law: playing a sequence of frames adds exactly
/// `tuning::SCORE_RATE` milli-points per millisecond of their total —
/// the final score depends on the elapsed total alone, not on how it
/// was split into frames.
pub proof fn lemma_score_of_elapsed(milli: int, deltas: Seq<u32>)
    ensures
        spec_accumulated(milli, deltas) == milli + 5 * spec_sum_ms(deltas),
    decreases deltas.len(),
{
    if deltas.len() > 0 {
        lemma_score_of_elapsed(milli + 5 * deltas[0], deltas.drop_first());
    }
}

} // verus!
