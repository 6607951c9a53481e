use vstd::prelude::*;

use crate::text::str_eq;

verus! {

/// Width of one aggregation bucket, from one minute to one month. The feed
/// and the store use the same codes, so every width the feed can name can
/// also be stored.
#[derive(Clone, Copy, Debug, PartialEq, Eq, Structural)]
pub enum Interval {
    Min1,
    Min3,
    Min5,
    Min15,
    Min30,
    Hour1,
    Hour2,
    Hour4,
    Hour6,
    Hour8,
    Hour12,
    Day1,
    Day3,
    Week1,
    Month1,
}

impl Interval {
    /// The code of this width on the wire and in the store (`"1m"`, `"1M"`).
    pub open spec fn code(self) -> Seq<char> {
        match self {
            Interval::Min1 => seq!['1', 'm'],
            Interval::Min3 => seq!['3', 'm'],
            Interval::Min5 => seq!['5', 'm'],
            Interval::Min15 => seq!['1', '5', 'm'],
            Interval::Min30 => seq!['3', '0', 'm'],
            Interval::Hour1 => seq!['1', 'h'],
            Interval::Hour2 => seq!['2', 'h'],
            Interval::Hour4 => seq!['4', 'h'],
            Interval::Hour6 => seq!['6', 'h'],
            Interval::Hour8 => seq!['8', 'h'],
            Interval::Hour12 => seq!['1', '2', 'h'],
            Interval::Day1 => seq!['1', 'd'],
            Interval::Day3 => seq!['3', 'd'],
            Interval::Week1 => seq!['1', 'w'],
            Interval::Month1 => seq!['1', 'M'],
        }
    }

    /// The position of this width in increasing order.
    pub open spec fn ordinal(self) -> int {
        match self {
            Interval::Min1 => 0,
            Interval::Min3 => 1,
            Interval::Min5 => 2,
            Interval::Min15 => 3,
            Interval::Min30 => 4,
            Interval::Hour1 => 5,
            Interval::Hour2 => 6,
            Interval::Hour4 => 7,
            Interval::Hour6 => 8,
            Interval::Hour8 => 9,
            Interval::Hour12 => 10,
            Interval::Day1 => 11,
            Interval::Day3 => 12,
            Interval::Week1 => 13,
            Interval::Month1 => 14,
        }
    }

    /// The code as a string.
    pub fn to_string(&self) -> (r: String)
        ensures
            r@ == self.code(),
    {
        let s: &str = match self {
            Interval::Min1 => "1m",
            Interval::Min3 => "3m",
            Interval::Min5 => "5m",
            Interval::Min15 => "15m",
            Interval::Min30 => "30m",
            Interval::Hour1 => "1h",
            Interval::Hour2 => "2h",
            Interval::Hour4 => "4h",
            Interval::Hour6 => "6h",
            Interval::Hour8 => "8h",
            Interval::Hour12 => "12h",
            Interval::Day1 => "1d",
            Interval::Day3 => "3d",
            Interval::Week1 => "1w",
            Interval::Month1 => "1M",
        };
        proof {
            reveal_strlit("1m");
            reveal_strlit("3m");
            reveal_strlit("5m");
            reveal_strlit("15m");
            reveal_strlit("30m");
            reveal_strlit("1h");
            reveal_strlit("2h");
            reveal_strlit("4h");
            reveal_strlit("6h");
            reveal_strlit("8h");
            reveal_strlit("12h");
            reveal_strlit("1d");
            reveal_strlit("3d");
            reveal_strlit("1w");
            reveal_strlit("1M");
        }
        let r = String::from_str(s);
        assert(r@ =~= self.code());
        r
    }

    /// The width whose code is `s`, if any.
    pub fn from_code(s: &str) -> (r: Option<Interval>)
        ensures
            match r {
                Some(i) => i.code() == s@,
                None => forall|i: Interval| #[trigger] i.code() != s@,
            },
    {
        let all = [
            Interval::Min1,
            Interval::Min3,
            Interval::Min5,
            Interval::Min15,
            Interval::Min30,
            Interval::Hour1,
            Interval::Hour2,
            Interval::Hour4,
            Interval::Hour6,
            Interval::Hour8,
            Interval::Hour12,
            Interval::Day1,
            Interval::Day3,
            Interval::Week1,
            Interval::Month1,
        ];
        let mut k: usize = 0;
        while k < 15
            invariant
                k <= 15,
                forall|j: int| 0 <= j < k ==> (#[trigger] all@[j]).code() != s@,
            decreases 15 - k,
        {
            let c = all[k].to_string();
            if str_eq(c.as_str(), s) {
                return Some(all[k]);
            }
            k = k + 1;
        }
        assert forall|i: Interval| #[trigger] i.code() != s@ by {
            assert(all@[i.ordinal()] == i);
        }
        None
    }
}

} // verus!

verus! {

/// Distinct widths have distinct codes.
pub proof fn lemma_code_injective(a: Interval, b: Interval)
    requires
        a.code() == b.code(),
    ensures
        a == b,
{
    if a != b {
        assert(a.code()[0] != b.code()[0] || a.code().len() != b.code().len() || a.code()[1]
            != b.code()[1] || a.code()[a.code().len() - 1] != b.code()[b.code().len() - 1]);
    }
}

} // verus!
