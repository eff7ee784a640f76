use std::fmt::Write;
use vstd::prelude::*;
use vstd::string::{StrSliceExecFns, StringExecFns};

use crate::level::{level_name, Level};

verus! {

/// The timestamp format used where a sink configures none.
pub open spec fn default_time_format() -> Seq<char> {
    "%Y/%m/%d %H:%M:%S"@
}

/// Width of the source column of a log line.
pub const SOURCE_WIDTH: usize = 10;

/// `n` spaces.
pub open spec fn spaces(n: nat) -> Seq<char> {
    Seq::new(n, |i: int| ' ')
}

/// `s` followed by spaces up to `width` characters; unchanged when longer.
pub open spec fn pad_to(s: Seq<char>, width: nat) -> Seq<char> {
    if s.len() >= width {
        s
    } else {
        s + spaces((width - s.len()) as nat)
    }
}

/// A rendered log line: `[<stamp>] <SOURCE padded to ten> [<LEVEL>] <message>` and a newline.
pub open spec fn log_line(stamp: Seq<char>, source_upper: Seq<char>, level: Level, msg: Seq<char>) -> Seq<char> {
    "["@ + stamp + "] "@ + pad_to(source_upper, SOURCE_WIDTH as nat) + " ["@ + level_name(level) + "] "@ + msg
        + "\n"@
}

/// What `str::to_uppercase` makes of a character sequence.
pub uninterp spec fn upper_of(s: Seq<char>) -> Seq<char>;

/// Relies on `str::to_uppercase`: the upper-case form of `s`, which depends
/// on its characters alone.
#[verifier::external_body]
fn upper(s: &str) -> (r: String)
    ensures
        r@ == upper_of(s@),
{
    s.to_uppercase()
}

/// What chrono renders for the UTC instant `secs` seconds and `nanos`
/// nanoseconds after the Unix epoch with a strftime-style format: `None` when
/// the instant is out of chrono's range or the format is unusable.
pub uninterp spec fn stamp_at(secs: int, nanos: int, time_format: Seq<char>) -> Option<Seq<char>>;

/// The character sequence held by an optional string.
pub open spec fn opt_view(r: Option<String>) -> Option<Seq<char>> {
    match r {
        Some(s) => Some(s@),
        None => None,
    }
}

/// Relies on chrono's `DateTime::from_timestamp` and `DateTime::format`:
/// the instant rendered in `time_format`, which depends on the arguments
/// alone.
#[verifier::external_body]
fn render_stamp(secs: i64, nanos: u32, time_format: &str) -> (r: Option<String>)
    ensures
        opt_view(r) == stamp_at(secs as int, nanos as int, time_format@),
{
    match chrono::DateTime::from_timestamp(secs, nanos) {
        Some(t) => {
            let mut s = String::new();
            match write!(s, "{}", t.format(time_format)) {
                Ok(()) => Some(s),
                Err(_) => None,
            }
        },
        None => None,
    }
}

/// Relies on chrono's `Utc::now`, `DateTime::timestamp` and
/// `DateTime::timestamp_subsec_nanos`: the current instant, which
/// `from_timestamp` takes back and the default format renders.
#[verifier::external_body]
fn utc_now() -> (r: (i64, u32))
    ensures
        stamp_at(r.0 as int, r.1 as int, default_time_format()) is Some,
{
    let t = chrono::Utc::now();
    (t.timestamp(), t.timestamp_subsec_nanos())
}

/// The timestamp format in effect: the given one, or the default.
pub open spec fn chosen_format(time_format: Option<&str>) -> Seq<char> {
    match time_format {
        Some(f) => f@,
        None => default_time_format(),
    }
}

/// `r` is the line for a record rendered at the instant (`secs`, `nanos`)
/// in `time_format`: present exactly when chrono renders that instant in
/// that format.
pub open spec fn line_at(
    r: Option<String>,
    secs: int,
    nanos: int,
    time_format: Seq<char>,
    target: Seq<char>,
    level: Level,
    msg: Seq<char>,
) -> bool {
    &&& (r is Some <==> stamp_at(secs, nanos, time_format) is Some)
    &&& r matches Some(line) ==> line@ == log_line(
        stamp_at(secs, nanos, time_format).unwrap(),
        upper_of(target),
        level,
        msg,
    )
}

/// Renders a log line from a timestamp, an upper-cased source, a level and
/// a message.
pub fn fmt_line(stamp: &str, source_upper: &str, level: Level, msg: &str) -> (r: String)
    ensures
        r@ == log_line(stamp@, source_upper@, level, msg@),
{
    let mut out = String::new();
    out.append("[");
    out.append(stamp);
    out.append("] ");
    out.append(source_upper);
    let n = source_upper.unicode_len();
    let mut k: usize = n;
    while k < SOURCE_WIDTH
        invariant
            n == source_upper@.len(),
            n <= k,
            n < SOURCE_WIDTH ==> k <= SOURCE_WIDTH,
            n >= SOURCE_WIDTH ==> k == n,
            out@ == "["@ + stamp@ + "] "@ + source_upper@ + spaces((k - n) as nat),
        decreases SOURCE_WIDTH - k,
    {
        out.append(" ");
        proof { reveal_strlit(" "); }
        assert(spaces((k + 1 - n) as nat) =~= spaces((k - n) as nat) + " "@);
        assert(out@ =~= "["@ + stamp@ + "] "@ + source_upper@ + spaces((k + 1 - n) as nat));
        k = k + 1;
    }
    proof {
        if n >= SOURCE_WIDTH {
            assert(spaces((k - n) as nat) =~= Seq::<char>::empty());
            assert(source_upper@ + spaces((k - n) as nat) =~= source_upper@);
        } else {
            assert(k == SOURCE_WIDTH);
        }
    }
    assert(pad_to(source_upper@, SOURCE_WIDTH as nat) =~= source_upper@ + spaces((k - n) as nat));
    out.append(" [");
    out.append(level.as_str());
    out.append("] ");
    out.append(msg);
    out.append("\n");
    out
}

/// Renders a log line at the instant whose timestamp is `stamp`: the source
/// is upper-cased first.
pub fn fmt_at(stamp: &str, target: &str, level: Level, msg: &str) -> (r: String)
    ensures
        r@ == log_line(stamp@, upper_of(target@), level, msg@),
{
    let source_upper = upper(target);
    fmt_line(stamp, source_upper.as_str(), level, msg)
}

/// Renders a log line at the instant `secs` seconds and `nanos` nanoseconds
/// after the Unix epoch, in `time_format` or in the default format where
/// none is given. `None` when chrono cannot render that instant in it.
pub fn fmt_at_instant(secs: i64, nanos: u32, target: &str, level: Level, msg: &str, time_format: Option<&str>) -> (r:
    Option<String>)
    ensures
        line_at(r, secs as int, nanos as int, chosen_format(time_format), target@, level, msg@),
{
    let time_fmt = match time_format {
        Some(f) => f,
        None => {
            proof { reveal_strlit("%Y/%m/%d %H:%M:%S"); }
            "%Y/%m/%d %H:%M:%S"
        },
    };
    match render_stamp(secs, nanos, time_fmt) {
        Some(stamp) => Some(fmt_at(stamp.as_str(), target, level, msg)),
        None => None,
    }
}

/// Renders a log line at the current time, in `time_format` or in the
/// default format where none is given. The default format always renders;
/// another one renders exactly when chrono accepts it for the current
/// instant.
pub fn fmt(target: &str, level: Level, msg: &str, time_format: Option<&str>) -> (r: Option<String>)
    ensures
        exists|secs: int, nanos: int|
            {
                &&& stamp_at(secs, nanos, default_time_format()) is Some
                &&& #[trigger] line_at(r, secs, nanos, chosen_format(time_format), target@, level, msg@)
            },
        chosen_format(time_format) == default_time_format() ==> r is Some,
{
    let (secs, nanos) = utc_now();
    let r = fmt_at_instant(secs, nanos, target, level, msg, time_format);
    assert(line_at(r, secs as int, nanos as int, chosen_format(time_format), target@, level, msg@));
    r
}

/// Rendering is a function of its inputs: the same timestamp, source, level
/// and message give the same bytes.
pub proof fn lemma_format_deterministic(
    stamp: Seq<char>,
    target: Seq<char>,
    level: Level,
    msg: Seq<char>,
    a: Seq<char>,
    b: Seq<char>,
)
    requires
        a == log_line(stamp, upper_of(target), level, msg),
        b == log_line(stamp, upper_of(target), level, msg),
    ensures
        a == b,
{
}

} // verus!
