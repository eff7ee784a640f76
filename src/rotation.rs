use chrono::Datelike;
use vstd::prelude::*;
use vstd::string::StringExecFns;

verus! {

/// A calendar day in UTC.
#[derive(Clone, Copy, Debug, PartialEq, Eq, Structural)]
pub struct Day {
    pub year: i32,
    pub month: u32,
    pub day: u32,
}

impl Day {
    /// Month and day of month lie in their calendar ranges.
    pub open spec fn wf(&self) -> bool {
        1 <= self.month <= 12 && 1 <= self.day <= 31
    }

    /// `self` comes strictly after `other` in the calendar.
    pub open spec fn spec_later(&self, other: Day) -> bool {
        self.year > other.year || (self.year == other.year && (self.month > other.month || (self.month
            == other.month && self.day > other.day)))
    }

    /// Whether `self` comes strictly after `other`.
    pub fn is_later(&self, other: &Day) -> (r: bool)
        ensures
            r == self.spec_later(*other),
    {
        self.year > other.year || (self.year == other.year && (self.month > other.month || (self.month
            == other.month && self.day > other.day)))
    }
}

/// Relies on chrono's `Utc::now` with `date_naive`, `Datelike::year`,
/// `month` (1 to 12) and `day` (1 to 31), and `NaiveDate::format` with
/// `%Y_%m_%d` (year zero-padded to four digits, with a sign outside 0 to
/// 9999; month and day on two digits): today's UTC date and its stamp.
#[verifier::external_body]
fn utc_today() -> (r: (Day, String))
    ensures
        r.0.wf(),
        r.1@ == date_stamp(r.0),
{
    let d = chrono::Utc::now().date_naive();
    (Day { year: d.year(), month: d.month(), day: d.day() }, d.format("%Y_%m_%d").to_string())
}

/// Today's UTC date, with the stamp that names its log files.
pub fn today() -> (r: (Day, String))
    ensures
        r.0.wf(),
        r.1@ == date_stamp(r.0),
{
    utc_today()
}

/// The decimal digit `d` as a character.
pub open spec fn digit_char(d: nat) -> char {
    if d == 0 { '0' }
    else if d == 1 { '1' }
    else if d == 2 { '2' }
    else if d == 3 { '3' }
    else if d == 4 { '4' }
    else if d == 5 { '5' }
    else if d == 6 { '6' }
    else if d == 7 { '7' }
    else if d == 8 { '8' }
    else { '9' }
}

/// The decimal notation of `n`, without leading zeros.
pub open spec fn decimal(n: nat) -> Seq<char>
    decreases n,
{
    if n < 10 {
        seq![digit_char(n)]
    } else {
        decimal(n / 10) + seq![digit_char(n % 10)]
    }
}

/// `n` in decimal, with leading zeros up to `width` digits.
pub open spec fn zero_padded(n: nat, width: nat) -> Seq<char> {
    let s = decimal(n);
    if s.len() >= width {
        s
    } else {
        Seq::new((width - s.len()) as nat, |i: int| '0') + s
    }
}

/// A year as `%Y` writes it: four digits at least, with a sign outside 0 to 9999.
pub open spec fn year_text(y: int) -> Seq<char> {
    if 0 <= y <= 9999 {
        zero_padded(y as nat, 4)
    } else if y > 9999 {
        "+"@ + zero_padded(y as nat, 4)
    } else {
        "-"@ + zero_padded((-y) as nat, 4)
    }
}

/// The stamp of a day in its log file names: `%Y_%m_%d`.
pub open spec fn date_stamp(d: Day) -> Seq<char> {
    year_text(d.year as int) + "_"@ + zero_padded(d.month as nat, 2) + "_"@ + zero_padded(d.day as nat, 2)
}

/// The file name of a day's log: `{stem}_{stamp}.{ext}`, or
/// `{stem}_{stamp}-{n}.{ext}` for the `n`-th size rollover of that day.
pub open spec fn dated_name(stem: Seq<char>, ext: Seq<char>, stamp: Seq<char>, suffix: Option<u16>) -> Seq<char> {
    let sfx = match suffix {
        Some(n) => "-"@ + decimal(n as nat),
        None => Seq::empty(),
    };
    stem + "_"@ + stamp + sfx + "."@ + ext
}

fn digit_str(d: u16) -> (r: &'static str)
    requires
        d < 10,
    ensures
        r@ == seq![digit_char(d as nat)],
{
    if d == 0 {
        proof { reveal_strlit("0"); }
        "0"
    } else if d == 1 {
        proof { reveal_strlit("1"); }
        "1"
    } else if d == 2 {
        proof { reveal_strlit("2"); }
        "2"
    } else if d == 3 {
        proof { reveal_strlit("3"); }
        "3"
    } else if d == 4 {
        proof { reveal_strlit("4"); }
        "4"
    } else if d == 5 {
        proof { reveal_strlit("5"); }
        "5"
    } else if d == 6 {
        proof { reveal_strlit("6"); }
        "6"
    } else if d == 7 {
        proof { reveal_strlit("7"); }
        "7"
    } else if d == 8 {
        proof { reveal_strlit("8"); }
        "8"
    } else {
        proof { reveal_strlit("9"); }
        "9"
    }
}

fn push_decimal(out: &mut String, n: u16)
    ensures
        final(out)@ == old(out)@ + decimal(n as nat),
    decreases n,
{
    if n < 10 {
        out.append(digit_str(n));
    } else {
        push_decimal(out, n / 10);
        out.append(digit_str(n % 10));
        assert(final(out)@ =~= old(out)@ + decimal(n as nat));
    }
}

/// The file name for `stem` and `ext` on the day whose stamp is `stamp`,
/// with the rollover number `suffix` if any.
pub fn dated_filename(stem: &str, ext: &str, stamp: &str, suffix: Option<u16>) -> (r: String)
    ensures
        r@ == dated_name(stem@, ext@, stamp@, suffix),
{
    let mut out = String::from_str(stem);
    out.append("_");
    out.append(stamp);
    match suffix {
        Some(n) => {
            out.append("-");
            push_decimal(&mut out, n);
        },
        None => {},
    }
    out.append(".");
    out.append(ext);
    proof {
        let sfx = match suffix {
            Some(n) => "-"@ + decimal(n as nat),
            None => Seq::<char>::empty(),
        };
        assert(out@ =~= stem@ + "_"@ + stamp@ + sfx + "."@ + ext@);
    }
    out
}

/// `r` is what a search for the first free rollover number reports when
/// `taken(n)` tells whether number `n` is already in use: the least `n >= 1`
/// found free, every smaller one found taken; `None` when every number was
/// found taken.
pub open spec fn suffix_choice<F: Fn(u16) -> bool>(taken: F, r: Option<u16>) -> bool {
    match r {
        Some(n) => 1 <= n && taken.ensures((n,), false) && forall|m: u16|
            1 <= m < n ==> #[trigger] taken.ensures((m,), true),
        None => forall|m: u16| 1 <= m ==> #[trigger] taken.ensures((m,), true),
    }
}

/// Asks `taken` for the numbers 1, 2, 3, ... in turn and returns the first
/// one that is free.
pub fn first_free_suffix<F: Fn(u16) -> bool>(taken: &F) -> (r: Option<u16>)
    requires
        forall|n: u16| taken.requires((n,)),
    ensures
        suffix_choice(*taken, r),
{
    let mut i: u16 = 1;
    loop
        invariant
            1 <= i,
            forall|n: u16| taken.requires((n,)),
            forall|m: u16| 1 <= m < i ==> #[trigger] taken.ensures((m,), true),
        decreases u16::MAX - i,
    {
        let used = taken(i);
        if !used {
            return Some(i);
        }
        if i == u16::MAX {
            assert forall|m: u16| 1 <= m implies #[trigger] taken.ensures((m,), true) by {
                if m == i {
                } else {
                    assert(m < i);
                }
            }
            return None;
        }
        i = i + 1;
    }
}

} // verus!
