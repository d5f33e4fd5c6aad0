//! Verified decimal and message rendering: clock and day labels and the
//! human-readable reasons a card cannot be played.
use vstd::prelude::*;
use vstd::string::StringExecFns;

use crate::cards::{CrisisLevel, Mood};
use crate::engine::PlayBlock;
use crate::state::GameState;

verus! {

/// The character of one decimal digit.
pub open spec fn spec_digit_char(d: int) -> char {
    if d == 0 {
        '0'
    } else if d == 1 {
        '1'
    } else if d == 2 {
        '2'
    } else if d == 3 {
        '3'
    } else if d == 4 {
        '4'
    } else if d == 5 {
        '5'
    } else if d == 6 {
        '6'
    } else if d == 7 {
        '7'
    } else if d == 8 {
        '8'
    } else {
        '9'
    }
}

/// The decimal digits of a non-negative number, most significant first.
pub open spec fn spec_decimal_digits(n: int) -> Seq<char>
    decreases n,
{
    if n < 10 {
        seq![spec_digit_char(n)]
    } else {
        spec_decimal_digits(n / 10).push(spec_digit_char(n % 10))
    }
}

/// A number below 100 as exactly two digits, zero padded.
pub open spec fn spec_two_digits(n: int) -> Seq<char> {
    if n < 10 {
        seq!['0'] + spec_decimal_digits(n)
    } else {
        spec_decimal_digits(n)
    }
}

/// A tenths-of-a-point value in decimal: whole points, with one fraction
/// digit only when it is not zero.
pub open spec fn spec_tenths_digits(tenths: int) -> Seq<char> {
    if tenths % 10 == 0 {
        spec_decimal_digits(tenths / 10)
    } else {
        spec_decimal_digits(tenths / 10) + seq!['.'] + seq![spec_digit_char(tenths % 10)]
    }
}

/// A single decimal digit as a string slice.
fn digit_str(d: u32) -> (s: &'static str)
    requires
        d < 10,
    ensures
        s@ == seq![spec_digit_char(d as int)],
{
    proof {
        reveal_strlit("0");
        reveal_strlit("1");
        reveal_strlit("2");
        reveal_strlit("3");
        reveal_strlit("4");
        reveal_strlit("5");
        reveal_strlit("6");
        reveal_strlit("7");
        reveal_strlit("8");
        reveal_strlit("9");
    }
    match d {
        0 => "0",
        1 => "1",
        2 => "2",
        3 => "3",
        4 => "4",
        5 => "5",
        6 => "6",
        7 => "7",
        8 => "8",
        _ => "9",
    }
}

/// A non-negative number in decimal.
pub fn decimal_string(n: u32) -> (r: String)
    ensures
        r@ == spec_decimal_digits(n as int),
    decreases n,
{
    if n < 10 {
        let d = digit_str(n);
        d.to_owned()
    } else {
        let prefix = decimal_string(n / 10);
        let d = digit_str(n % 10);
        let r = prefix.concat(d);
        proof {
            assert(spec_decimal_digits((n / 10) as int).push(spec_digit_char((n % 10) as int))
                =~= spec_decimal_digits((n / 10) as int) + seq![spec_digit_char((n % 10) as int)]);
        }
        r
    }
}

/// A number below 100 as exactly two digits, zero padded.
pub fn two_digit_string(n: u32) -> (r: String)
    requires
        n < 100,
    ensures
        r@ == spec_two_digits(n as int),
{
    if n < 10 {
        proof {
            reveal_strlit("0");
        }
        let mut s = String::from_str("0");
        let d = digit_str(n);
        s.append(d);
        s
    } else {
        decimal_string(n)
    }
}

/// A tenths-of-a-point value in decimal, with one fraction digit only
/// when it is not zero.
pub fn tenths_string(tenths: u32) -> (r: String)
    ensures
        r@ == spec_tenths_digits(tenths as int),
{
    let whole = decimal_string(tenths / 10);
    let frac = tenths % 10;
    if frac == 0 {
        whole
    } else {
        proof {
            reveal_strlit(".");
        }
        let mut s = whole;
        s.append(".");
        let d = digit_str(frac);
        s.append(d);
        s
    }
}

/// The name of a mood.
pub open spec fn spec_mood_chars(m: Mood) -> Seq<char> {
    match m {
        Mood::Depressed => "Depressed"@,
        Mood::Anxious => "Anxious"@,
        Mood::Tired => "Tired"@,
        Mood::Neutral => "Neutral"@,
        Mood::Content => "Content"@,
        Mood::Manic => "Manic"@,
    }
}

/// The name of a mood as a string slice.
pub fn mood_name(m: Mood) -> (s: &'static str)
    ensures
        s@ == spec_mood_chars(m),
{
    match m {
        Mood::Depressed => "Depressed",
        Mood::Anxious => "Anxious",
        Mood::Tired => "Tired",
        Mood::Neutral => "Neutral",
        Mood::Content => "Content",
        Mood::Manic => "Manic",
    }
}

/// The name of a crisis level.
pub open spec fn spec_crisis_chars(c: CrisisLevel) -> Seq<char> {
    match c {
        CrisisLevel::NoCrisis => "NoCrisis"@,
        CrisisLevel::Mild => "Mild"@,
        CrisisLevel::Moderate => "Moderate"@,
        CrisisLevel::Severe => "Severe"@,
        CrisisLevel::Critical => "Critical"@,
    }
}

/// The name of a crisis level as a string slice.
pub fn crisis_name(c: CrisisLevel) -> (s: &'static str)
    ensures
        s@ == spec_crisis_chars(c),
{
    match c {
        CrisisLevel::NoCrisis => "NoCrisis",
        CrisisLevel::Mild => "Mild",
        CrisisLevel::Moderate => "Moderate",
        CrisisLevel::Severe => "Severe",
        CrisisLevel::Critical => "Critical",
    }
}

/// The message of a violated play condition, over the block's own values.
pub open spec fn spec_block_message(b: PlayBlock) -> Seq<char> {
    match b {
        PlayBlock::MinSleep { need, have } => "Need at least "@ + spec_tenths_digits(need as int)
            + " Sleep (have "@ + spec_tenths_digits(have as int) + ")"@,
        PlayBlock::MaxSleep(v) => "Sleep too high (max "@ + spec_tenths_digits(v as int) + ")"@,
        PlayBlock::MinHealth(v) => "Need at least "@ + spec_tenths_digits(v as int) + " Health"@,
        PlayBlock::MaxHealth(v) => "Health too high (max "@ + spec_tenths_digits(v as int) + ")"@,
        PlayBlock::MinMental(v) => "Need at least "@ + spec_tenths_digits(v as int)
            + " Mental Health"@,
        PlayBlock::MaxMental(v) => "Mental Health too high (max "@ + spec_tenths_digits(v as int)
            + ")"@,
        PlayBlock::MinFood(v) => "Need at least "@ + spec_tenths_digits(v as int) + " Food"@,
        PlayBlock::MaxFood(v) => "Food too high (max "@ + spec_tenths_digits(v as int) + ")"@,
        PlayBlock::RequiredMood(m) => "Must be "@ + spec_mood_chars(m) + " mood"@,
        PlayBlock::ForbiddenMood(m) => "Cannot be "@ + spec_mood_chars(m) + " mood"@,
        PlayBlock::WrongTimeOfDay => "Wrong time of day"@,
        PlayBlock::WrongDayRange(lo, hi) => "Wrong day (need days "@ + spec_decimal_digits(
            lo as int,
        ) + "-"@ + spec_decimal_digits(hi as int) + ")"@,
        PlayBlock::MissingObject(o) => "Need "@ + o@,
        PlayBlock::WrongCrisisLevel(c) => "Need "@ + spec_crisis_chars(c) + " crisis level"@,
        PlayBlock::OnCooldown(n) => "On cooldown for "@ + spec_decimal_digits(n as int)
            + " more turns"@,
        PlayBlock::OneTimeUsed => "Already used (one-time only)"@,
        PlayBlock::DailyUsed => "Already used today"@,
        PlayBlock::NotEnoughSleep(c) => "Not enough Sleep ("@ + spec_tenths_digits(c as int)
            + " needed)"@,
        PlayBlock::NotEnoughHealth(c) => "Not enough Health ("@ + spec_tenths_digits(c as int)
            + " needed)"@,
        PlayBlock::NotEnoughMental(c) => "Not enough Mental ("@ + spec_tenths_digits(c as int)
            + " needed)"@,
        PlayBlock::NotEnoughFood(c) => "Not enough Food ("@ + spec_tenths_digits(c as int)
            + " needed)"@,
    }
}

impl PlayBlock {
    /// Render the violated condition as the message shown to the player.
    pub fn message(&self) -> (r: String)
        ensures
            r@ == spec_block_message(*self),
    {
        match self {
            PlayBlock::MinSleep { need, have } => {
                proof {
                    reveal_strlit("Need at least ");
                    reveal_strlit(" Sleep (have ");
                    reveal_strlit(")");
                }
                let mut s = String::from_str("Need at least ");
                let t = tenths_string(*need);
                s.append(t.as_str());
                s.append(" Sleep (have ");
                let h = tenths_string(*have);
                s.append(h.as_str());
                s.append(")");
                s
            },
            PlayBlock::MaxSleep(v) => {
                proof {
                    reveal_strlit("Sleep too high (max ");
                    reveal_strlit(")");
                }
                let mut s = String::from_str("Sleep too high (max ");
                let t = tenths_string(*v);
                s.append(t.as_str());
                s.append(")");
                s
            },
            PlayBlock::MinHealth(v) => {
                proof {
                    reveal_strlit("Need at least ");
                    reveal_strlit(" Health");
                }
                let mut s = String::from_str("Need at least ");
                let t = tenths_string(*v);
                s.append(t.as_str());
                s.append(" Health");
                s
            },
            PlayBlock::MaxHealth(v) => {
                proof {
                    reveal_strlit("Health too high (max ");
                    reveal_strlit(")");
                }
                let mut s = String::from_str("Health too high (max ");
                let t = tenths_string(*v);
                s.append(t.as_str());
                s.append(")");
                s
            },
            PlayBlock::MinMental(v) => {
                proof {
                    reveal_strlit("Need at least ");
                    reveal_strlit(" Mental Health");
                }
                let mut s = String::from_str("Need at least ");
                let t = tenths_string(*v);
                s.append(t.as_str());
                s.append(" Mental Health");
                s
            },
            PlayBlock::MaxMental(v) => {
                proof {
                    reveal_strlit("Mental Health too high (max ");
                    reveal_strlit(")");
                }
                let mut s = String::from_str("Mental Health too high (max ");
                let t = tenths_string(*v);
                s.append(t.as_str());
                s.append(")");
                s
            },
            PlayBlock::MinFood(v) => {
                proof {
                    reveal_strlit("Need at least ");
                    reveal_strlit(" Food");
                }
                let mut s = String::from_str("Need at least ");
                let t = tenths_string(*v);
                s.append(t.as_str());
                s.append(" Food");
                s
            },
            PlayBlock::MaxFood(v) => {
                proof {
                    reveal_strlit("Food too high (max ");
                    reveal_strlit(")");
                }
                let mut s = String::from_str("Food too high (max ");
                let t = tenths_string(*v);
                s.append(t.as_str());
                s.append(")");
                s
            },
            PlayBlock::RequiredMood(m) => {
                proof {
                    reveal_strlit("Must be ");
                    reveal_strlit(" mood");
                }
                let mut s = String::from_str("Must be ");
                s.append(mood_name(*m));
                s.append(" mood");
                s
            },
            PlayBlock::ForbiddenMood(m) => {
                proof {
                    reveal_strlit("Cannot be ");
                    reveal_strlit(" mood");
                }
                let mut s = String::from_str("Cannot be ");
                s.append(mood_name(*m));
                s.append(" mood");
                s
            },
            PlayBlock::WrongTimeOfDay => {
                let s = String::from_str("Wrong time of day");
                s
            },
            PlayBlock::WrongDayRange(lo, hi) => {
                proof {
                    reveal_strlit("Wrong day (need days ");
                    reveal_strlit("-");
                    reveal_strlit(")");
                }
                let mut s = String::from_str("Wrong day (need days ");
                let l = decimal_string(*lo);
                s.append(l.as_str());
                s.append("-");
                let h = decimal_string(*hi);
                s.append(h.as_str());
                s.append(")");
                s
            },
            PlayBlock::MissingObject(o) => {
                proof {
                    reveal_strlit("Need ");
                }
                let mut s = String::from_str("Need ");
                s.append(o.as_str());
                s
            },
            PlayBlock::WrongCrisisLevel(c) => {
                proof {
                    reveal_strlit("Need ");
                    reveal_strlit(" crisis level");
                }
                let mut s = String::from_str("Need ");
                s.append(crisis_name(*c));
                s.append(" crisis level");
                s
            },
            PlayBlock::OnCooldown(n) => {
                proof {
                    reveal_strlit("On cooldown for ");
                    reveal_strlit(" more turns");
                }
                let mut s = String::from_str("On cooldown for ");
                let t = decimal_string(*n);
                s.append(t.as_str());
                s.append(" more turns");
                s
            },
            PlayBlock::OneTimeUsed => {
                let s = String::from_str("Already used (one-time only)");
                s
            },
            PlayBlock::DailyUsed => {
                let s = String::from_str("Already used today");
                s
            },
            PlayBlock::NotEnoughSleep(c) => {
                proof {
                    reveal_strlit("Not enough Sleep (");
                    reveal_strlit(" needed)");
                }
                let mut s = String::from_str("Not enough Sleep (");
                let t = tenths_string(*c);
                s.append(t.as_str());
                s.append(" needed)");
                s
            },
            PlayBlock::NotEnoughHealth(c) => {
                proof {
                    reveal_strlit("Not enough Health (");
                    reveal_strlit(" needed)");
                }
                let mut s = String::from_str("Not enough Health (");
                let t = tenths_string(*c);
                s.append(t.as_str());
                s.append(" needed)");
                s
            },
            PlayBlock::NotEnoughMental(c) => {
                proof {
                    reveal_strlit("Not enough Mental (");
                    reveal_strlit(" needed)");
                }
                let mut s = String::from_str("Not enough Mental (");
                let t = tenths_string(*c);
                s.append(t.as_str());
                s.append(" needed)");
                s
            },
            PlayBlock::NotEnoughFood(c) => {
                proof {
                    reveal_strlit("Not enough Food (");
                    reveal_strlit(" needed)");
                }
                let mut s = String::from_str("Not enough Food (");
                let t = tenths_string(*c);
                s.append(t.as_str());
                s.append(" needed)");
                s
            },
        }
    }
}

/// The clock label of a second of day: zero-padded hours and minutes.
pub open spec fn spec_time_chars(second: int) -> Seq<char> {
    spec_two_digits(second / 3600) + seq![':'] + spec_two_digits((second % 3600) / 60)
}

/// The label of a day counter.
pub open spec fn spec_day_chars(day: int) -> Seq<char> {
    "Day "@ + spec_decimal_digits(day)
}

impl GameState {
    /// The clock as an hours-and-minutes label.
    pub fn get_time_string(&self) -> (r: String)
        requires
            self.wf(),
        ensures
            r@ == spec_time_chars(self.second_of_day as int),
    {
        proof {
            reveal_strlit(":");
        }
        let hour = self.second_of_day / 3600;
        let minute = (self.second_of_day % 3600) / 60;
        let mut s = two_digit_string(hour);
        s.append(":");
        let m = two_digit_string(minute);
        s.append(m.as_str());
        s
    }

    /// The day counter as a label.
    pub fn get_day_string(&self) -> (r: String)
        ensures
            r@ == spec_day_chars(self.current_day as int),
    {
        proof {
            reveal_strlit("Day ");
        }
        let mut s = String::from_str("Day ");
        let d = decimal_string(self.current_day);
        s.append(d.as_str());
        s
    }
}

} // verus!
