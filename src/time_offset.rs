use vstd::prelude::*;

use crate::decimal::{digit_char, digit_value, is_digit, lemma_digit_char, lemma_two_digits};
use crate::enum_iterator::EnumIterator;
use crate::field_value::FieldValue;
use crate::text::same_text;

verus! {

/// A UTC offset from those in use, from `-12:00` to `+14:00`.
#[derive(Debug, Clone, Copy, PartialEq, Eq, Structural)]
pub enum TimeOffset {
    UtcMinus12,
    UtcMinus11,
    UtcMinus10,
    UtcMinus930,
    UtcMinus9,
    UtcMinus8,
    UtcMinus7,
    UtcMinus6,
    UtcMinus5,
    UtcMinus4,
    UtcMinus330,
    UtcMinus3,
    UtcMinus2,
    UtcMinus1,
    Utc,
    UtcPlus1,
    UtcPlus2,
    UtcPlus3,
    UtcPlus330,
    UtcPlus4,
    UtcPlus430,
    UtcPlus5,
    UtcPlus530,
    UtcPlus545,
    UtcPlus6,
    UtcPlus630,
    UtcPlus645,
    UtcPlus7,
    UtcPlus8,
    UtcPlus845,
    UtcPlus9,
    UtcPlus930,
    UtcPlus10,
    UtcPlus1030,
    UtcPlus11,
    UtcPlus1130,
    UtcPlus12,
    UtcPlus13,
    UtcPlus14,
}

/// The canonical text of an offset of `m` minutes: a sign, two digits of
/// hours, a colon and two digits of minutes.
pub open spec fn offset_text(m: int) -> Seq<char> {
    let a = if m < 0 { -m } else { m };
    let h = a / 60;
    let mm = a % 60;
    seq![
        if m < 0 { '-' } else { '+' },
        digit_char((h / 10) as nat),
        digit_char((h % 10) as nat),
        ':',
        digit_char((mm / 10) as nat),
        digit_char((mm % 10) as nat),
    ]
}

/// The canonical text of an offset reads back as its sign, hours and minutes.
pub proof fn lemma_offset_text(m: int)
    requires
        -6000 < m < 6000,
    ensures
        ({
            let t = offset_text(m);
            &&& t.len() == 6
            &&& is_digit(t[1]) && is_digit(t[2]) && is_digit(t[4]) && is_digit(t[5])
            &&& (t[0] == '-' <==> m < 0)
            &&& m == (if t[0] == '-' { -1int } else { 1int }) * (60 * (10 * digit_value(t[1])
                + digit_value(t[2])) + 10 * digit_value(t[4]) + digit_value(t[5]))
        }),
{
    let a = if m < 0 { -m } else { m };
    let h = a / 60;
    let mm = a % 60;
    assert(0 <= h < 100);
    assert(0 <= mm < 60);
    assert(a == 60 * h + mm);
    assert(h == 10 * (h / 10) + h % 10);
    assert(mm == 10 * (mm / 10) + mm % 10);
    lemma_digit_char((h / 10) as nat);
    lemma_digit_char((h % 10) as nat);
    lemma_digit_char((mm / 10) as nat);
    lemma_digit_char((mm % 10) as nat);
}

/// Relies on `str::trim`: the result depends on the characters alone.
pub uninterp spec fn trimmed(s: Seq<char>) -> Seq<char>;

/// Relies on `str::trim`, which drops leading and trailing whitespace.
#[verifier::external_body]
fn trim_text<'a>(s: &'a str) -> (r: &'a str)
    ensures
        r@ == trimmed(s@),
{
    s.trim()
}

impl TimeOffset {
    /// The offset in minutes, negative west of UTC.
    pub open spec fn minutes_spec(self) -> int {
        match self {
            TimeOffset::UtcMinus12 => -720,
            TimeOffset::UtcMinus11 => -660,
            TimeOffset::UtcMinus10 => -600,
            TimeOffset::UtcMinus930 => -570,
            TimeOffset::UtcMinus9 => -540,
            TimeOffset::UtcMinus8 => -480,
            TimeOffset::UtcMinus7 => -420,
            TimeOffset::UtcMinus6 => -360,
            TimeOffset::UtcMinus5 => -300,
            TimeOffset::UtcMinus4 => -240,
            TimeOffset::UtcMinus330 => -210,
            TimeOffset::UtcMinus3 => -180,
            TimeOffset::UtcMinus2 => -120,
            TimeOffset::UtcMinus1 => -60,
            TimeOffset::Utc => 0,
            TimeOffset::UtcPlus1 => 60,
            TimeOffset::UtcPlus2 => 120,
            TimeOffset::UtcPlus3 => 180,
            TimeOffset::UtcPlus330 => 210,
            TimeOffset::UtcPlus4 => 240,
            TimeOffset::UtcPlus430 => 270,
            TimeOffset::UtcPlus5 => 300,
            TimeOffset::UtcPlus530 => 330,
            TimeOffset::UtcPlus545 => 345,
            TimeOffset::UtcPlus6 => 360,
            TimeOffset::UtcPlus630 => 390,
            TimeOffset::UtcPlus645 => 405,
            TimeOffset::UtcPlus7 => 420,
            TimeOffset::UtcPlus8 => 480,
            TimeOffset::UtcPlus845 => 525,
            TimeOffset::UtcPlus9 => 540,
            TimeOffset::UtcPlus930 => 570,
            TimeOffset::UtcPlus10 => 600,
            TimeOffset::UtcPlus1030 => 630,
            TimeOffset::UtcPlus11 => 660,
            TimeOffset::UtcPlus1130 => 690,
            TimeOffset::UtcPlus12 => 720,
            TimeOffset::UtcPlus13 => 780,
            TimeOffset::UtcPlus14 => 840,
        }
    }

    /// The canonical text.
    pub open spec fn text_spec(self) -> Seq<char> {
        offset_text(self.minutes_spec())
    }

    /// The offset whose canonical text is `s`, if there is one.
    pub open spec fn lookup(s: Seq<char>) -> Option<TimeOffset> {
        if exists|o: TimeOffset| o.text_spec() == s {
            Some(choose|o: TimeOffset| o.text_spec() == s)
        } else {
            None
        }
    }

    /// Every offset, from the westmost to the eastmost.
    pub open spec fn all_offsets() -> Seq<TimeOffset> {
        seq![
        TimeOffset::UtcMinus12,
        TimeOffset::UtcMinus11,
        TimeOffset::UtcMinus10,
        TimeOffset::UtcMinus930,
        TimeOffset::UtcMinus9,
        TimeOffset::UtcMinus8,
        TimeOffset::UtcMinus7,
        TimeOffset::UtcMinus6,
        TimeOffset::UtcMinus5,
        TimeOffset::UtcMinus4,
        TimeOffset::UtcMinus330,
        TimeOffset::UtcMinus3,
        TimeOffset::UtcMinus2,
        TimeOffset::UtcMinus1,
        TimeOffset::Utc,
        TimeOffset::UtcPlus1,
        TimeOffset::UtcPlus2,
        TimeOffset::UtcPlus3,
        TimeOffset::UtcPlus330,
        TimeOffset::UtcPlus4,
        TimeOffset::UtcPlus430,
        TimeOffset::UtcPlus5,
        TimeOffset::UtcPlus530,
        TimeOffset::UtcPlus545,
        TimeOffset::UtcPlus6,
        TimeOffset::UtcPlus630,
        TimeOffset::UtcPlus645,
        TimeOffset::UtcPlus7,
        TimeOffset::UtcPlus8,
        TimeOffset::UtcPlus845,
        TimeOffset::UtcPlus9,
        TimeOffset::UtcPlus930,
        TimeOffset::UtcPlus10,
        TimeOffset::UtcPlus1030,
        TimeOffset::UtcPlus11,
        TimeOffset::UtcPlus1130,
        TimeOffset::UtcPlus12,
        TimeOffset::UtcPlus13,
        TimeOffset::UtcPlus14,
        ]
    }

    /// Every offset, from the westmost to the eastmost.
    pub fn all() -> (r: Vec<TimeOffset>)
        ensures
            r@ == Self::all_offsets(),
            forall|o: TimeOffset| r@.contains(o),
            forall|i: int, j: int|
                0 <= i < j < r@.len() ==> r@[i].minutes_spec() < r@[j].minutes_spec(),
    {
        let r = vec![
        TimeOffset::UtcMinus12,
        TimeOffset::UtcMinus11,
        TimeOffset::UtcMinus10,
        TimeOffset::UtcMinus930,
        TimeOffset::UtcMinus9,
        TimeOffset::UtcMinus8,
        TimeOffset::UtcMinus7,
        TimeOffset::UtcMinus6,
        TimeOffset::UtcMinus5,
        TimeOffset::UtcMinus4,
        TimeOffset::UtcMinus330,
        TimeOffset::UtcMinus3,
        TimeOffset::UtcMinus2,
        TimeOffset::UtcMinus1,
        TimeOffset::Utc,
        TimeOffset::UtcPlus1,
        TimeOffset::UtcPlus2,
        TimeOffset::UtcPlus3,
        TimeOffset::UtcPlus330,
        TimeOffset::UtcPlus4,
        TimeOffset::UtcPlus430,
        TimeOffset::UtcPlus5,
        TimeOffset::UtcPlus530,
        TimeOffset::UtcPlus545,
        TimeOffset::UtcPlus6,
        TimeOffset::UtcPlus630,
        TimeOffset::UtcPlus645,
        TimeOffset::UtcPlus7,
        TimeOffset::UtcPlus8,
        TimeOffset::UtcPlus845,
        TimeOffset::UtcPlus9,
        TimeOffset::UtcPlus930,
        TimeOffset::UtcPlus10,
        TimeOffset::UtcPlus1030,
        TimeOffset::UtcPlus11,
        TimeOffset::UtcPlus1130,
        TimeOffset::UtcPlus12,
        TimeOffset::UtcPlus13,
        TimeOffset::UtcPlus14,
        ];
        r
    }

    /// The offset whose canonical text is exactly `text`.
    pub fn find_exact(text: &str) -> (r: Option<TimeOffset>)
        ensures
            r == Self::lookup(text@),
    {
        let all = Self::all();
        let mut i: usize = 0;
        while i < all.len()
            invariant
                i <= all@.len(),
                forall|o: TimeOffset| all@.contains(o),
                forall|j: int| 0 <= j < i ==> all@[j].text_spec() != text@,
            decreases all.len() - i,
        {
            let o = all[i];
            if same_text(o.as_str(), text) {
                proof {
                    Self::lemma_text_unique(o, text@);
                }
                return Some(o);
            }
            i = i + 1;
        }
        proof {
            assert forall|o: TimeOffset| o.text_spec() != text@ by {
                assert(all@.contains(o));
                let j = choose|j: int| 0 <= j < all@.len() && all@[j] == o;
            }
        }
        None
    }

    /// Two offsets with the same canonical text are the same offset.
    proof fn lemma_text_unique(o: TimeOffset, s: Seq<char>)
        requires
            o.text_spec() == s,
        ensures
            Self::lookup(s) == Some(o),
    {
        let p = choose|p: TimeOffset| p.text_spec() == s;
        Self::lemma_minutes_range(o);
        Self::lemma_minutes_range(p);
        lemma_offset_text(o.minutes_spec());
        lemma_offset_text(p.minutes_spec());
        Self::lemma_minutes_unique(o, p);
    }

    /// No two offsets have the same number of minutes.
    proof fn lemma_minutes_unique(o: TimeOffset, p: TimeOffset)
        requires
            o.minutes_spec() == p.minutes_spec(),
        ensures
            o == p,
    {
    }

    /// Offsets lie between twelve hours west and fourteen hours east.
    proof fn lemma_minutes_range(o: TimeOffset)
        ensures
            -720 <= o.minutes_spec() <= 840,
    {
    }

    /// The offset whose canonical text is `src` with surrounding whitespace removed.
    pub fn try_from_str(src: &str) -> (r: Option<TimeOffset>)
        ensures
            r == Self::lookup(trimmed(src@)),
    {
        let normalized = trim_text(src);
        Self::find_exact(normalized)
    }

    /// As `try_from_str`, with UTC when nothing matches.
    pub fn from_str(src: &str) -> (r: TimeOffset)
        ensures
            r == (match Self::lookup(trimmed(src@)) {
                Some(o) => o,
                None => TimeOffset::Utc,
            }),
    {
        match Self::try_from_str(src) {
            Some(o) => o,
            None => TimeOffset::Utc,
        }
    }

    /// The offset in minutes, read from the sign, hours and minutes of the
    /// canonical text.
    pub fn get_value_as_minutes(&self) -> (r: i32)
        ensures
            r == self.minutes_spec(),
    {
        let repr = self.as_str();
        let sign: i32 = if repr.get_char(0) == '-' {
            -1
        } else {
            1
        };
        let hours_text = repr.substring_ascii(1, 3);
        let minutes_text = repr.substring_ascii(4, 6);
        proof {
            let t = repr@;
            Self::lemma_minutes_range(*self);
            lemma_offset_text(self.minutes_spec());
            lemma_two_digits(t[1], t[2]);
            lemma_two_digits(t[4], t[5]);
            assert(hours_text@ =~= seq![t[1], t[2]]);
            assert(minutes_text@ =~= seq![t[4], t[5]]);
        }
        let hours: i32 = i32::parse_text(hours_text).unwrap();
        let minutes: i32 = i32::parse_text(minutes_text).unwrap();
        sign * (hours * 60 + minutes)
    }

    pub fn as_str(&self) -> (r: &'static str)
        ensures
            r@ == self.text_spec(),
            r.is_ascii(),
    {
        proof {
            reveal_strlit("-12:00");
            reveal_strlit("-11:00");
            reveal_strlit("-10:00");
            reveal_strlit("-09:30");
            reveal_strlit("-09:00");
            reveal_strlit("-08:00");
            reveal_strlit("-07:00");
            reveal_strlit("-06:00");
            reveal_strlit("-05:00");
            reveal_strlit("-04:00");
            reveal_strlit("-03:30");
            reveal_strlit("-03:00");
            reveal_strlit("-02:00");
            reveal_strlit("-01:00");
            reveal_strlit("+00:00");
            reveal_strlit("+01:00");
            reveal_strlit("+02:00");
            reveal_strlit("+03:00");
            reveal_strlit("+03:30");
            reveal_strlit("+04:00");
            reveal_strlit("+04:30");
            reveal_strlit("+05:00");
            reveal_strlit("+05:30");
            reveal_strlit("+05:45");
            reveal_strlit("+06:00");
            reveal_strlit("+06:30");
            reveal_strlit("+06:45");
            reveal_strlit("+07:00");
            reveal_strlit("+08:00");
            reveal_strlit("+08:45");
            reveal_strlit("+09:00");
            reveal_strlit("+09:30");
            reveal_strlit("+10:00");
            reveal_strlit("+10:30");
            reveal_strlit("+11:00");
            reveal_strlit("+11:30");
            reveal_strlit("+12:00");
            reveal_strlit("+13:00");
            reveal_strlit("+14:00");
        }
        match self {
            TimeOffset::UtcMinus12 => "-12:00",
            TimeOffset::UtcMinus11 => "-11:00",
            TimeOffset::UtcMinus10 => "-10:00",
            TimeOffset::UtcMinus930 => "-09:30",
            TimeOffset::UtcMinus9 => "-09:00",
            TimeOffset::UtcMinus8 => "-08:00",
            TimeOffset::UtcMinus7 => "-07:00",
            TimeOffset::UtcMinus6 => "-06:00",
            TimeOffset::UtcMinus5 => "-05:00",
            TimeOffset::UtcMinus4 => "-04:00",
            TimeOffset::UtcMinus330 => "-03:30",
            TimeOffset::UtcMinus3 => "-03:00",
            TimeOffset::UtcMinus2 => "-02:00",
            TimeOffset::UtcMinus1 => "-01:00",
            TimeOffset::Utc => "+00:00",
            TimeOffset::UtcPlus1 => "+01:00",
            TimeOffset::UtcPlus2 => "+02:00",
            TimeOffset::UtcPlus3 => "+03:00",
            TimeOffset::UtcPlus330 => "+03:30",
            TimeOffset::UtcPlus4 => "+04:00",
            TimeOffset::UtcPlus430 => "+04:30",
            TimeOffset::UtcPlus5 => "+05:00",
            TimeOffset::UtcPlus530 => "+05:30",
            TimeOffset::UtcPlus545 => "+05:45",
            TimeOffset::UtcPlus6 => "+06:00",
            TimeOffset::UtcPlus630 => "+06:30",
            TimeOffset::UtcPlus645 => "+06:45",
            TimeOffset::UtcPlus7 => "+07:00",
            TimeOffset::UtcPlus8 => "+08:00",
            TimeOffset::UtcPlus845 => "+08:45",
            TimeOffset::UtcPlus9 => "+09:00",
            TimeOffset::UtcPlus930 => "+09:30",
            TimeOffset::UtcPlus10 => "+10:00",
            TimeOffset::UtcPlus1030 => "+10:30",
            TimeOffset::UtcPlus11 => "+11:00",
            TimeOffset::UtcPlus1130 => "+11:30",
            TimeOffset::UtcPlus12 => "+12:00",
            TimeOffset::UtcPlus13 => "+13:00",
            TimeOffset::UtcPlus14 => "+14:00",
        }
    }

    pub fn to_string(&self) -> (r: String)
        ensures
            r@ == self.text_spec(),
    {
        self.as_str().to_string()
    }
}

impl Default for TimeOffset {
    fn default() -> (r: Self)
        ensures
            r == TimeOffset::Utc,
    {
        TimeOffset::Utc
    }
}

impl EnumIterator for TimeOffset {
    type TItem = TimeOffset;

    open spec fn all_spec() -> Seq<TimeOffset> {
        Self::all_offsets()
    }

    open spec fn item_spec(&self) -> TimeOffset {
        *self
    }

    fn get_value(&self) -> (r: TimeOffset) {
        *self
    }

    fn get_all() -> (r: Vec<TimeOffset>) {
        Self::all()
    }
}

impl std::str::FromStr for TimeOffset {
    type Err = String;

    fn from_str(s: &str) -> Result<Self, Self::Err> {
        Ok(TimeOffset::from_str(s))
    }
}

} // verus!
