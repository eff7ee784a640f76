use vstd::prelude::*;

use crate::format::{default_time_format, fmt, line_at, stamp_at};
use crate::level::Level;
use crate::rotation::{Day, dated_filename, dated_name, first_free_suffix, suffix_choice, today};

verus! {

/// Pending buffered bytes at which the buffer is written to the file.
pub const WRITE_BUFFER_SIZE: usize = 8192;

/// The rotation state of one log file.
pub struct RotationState {
    /// Name of the file being written, without its directory.
    pub file_name: String,
    /// The name mask: stem and extension of the configured target.
    pub stem: String,
    pub ext: String,
    /// The day whose file is open.
    pub today: Day,
    /// Bytes written to the open file.
    pub current_size: u64,
    /// Size at which the file is rolled over, if any.
    pub rotation_size: Option<u64>,
    /// strftime-style format of the timestamps in each line.
    pub time_format: String,
}

/// What a rotation check did.
#[derive(Clone, Copy, Debug, PartialEq, Eq, Structural)]
pub enum Rotation {
    /// The same file stays open.
    Kept,
    /// The day changed: the new day's file is to be opened.
    Daily,
    /// The size limit was reached: the rollover file with this number is to
    /// be opened (after a change of day, if there was one).
    BySize(u16),
}

/// The day has changed since the open file was chosen.
pub open spec fn daily_due(s: RotationState, today: Day) -> bool {
    today.spec_later(s.today)
}

/// `size` bytes reach the limit `limit`.
pub open spec fn size_due(size: u64, limit: Option<u64>) -> bool {
    limit matches Some(t) && size >= t
}

/// `a` and `b` agree on the fields that rotation never changes.
pub open spec fn same_mask(a: RotationState, b: RotationState) -> bool {
    &&& a.stem@ == b.stem@
    &&& a.ext@ == b.ext@
    &&& a.rotation_size == b.rotation_size
    &&& a.time_format@ == b.time_format@
}

/// The rotation step from `s` to `t` on the day `today`, whose stamp is
/// `stamp`, with `taken` telling which rollover numbers are in use: first
/// the day check (new day's file, counter back to zero), then the size check
/// on the counter that remains (first free rollover number of the day,
/// counter back to zero; nothing when every number is taken).
pub open spec fn rotation_step<F: Fn(u16) -> bool>(
    s: RotationState,
    t: RotationState,
    today: Day,
    stamp: Seq<char>,
    taken: F,
    r: Rotation,
) -> bool {
    let daily = daily_due(s, today);
    let mid_size: u64 = if daily { 0 } else { s.current_size };
    let mid_name = if daily { dated_name(s.stem@, s.ext@, stamp, None) } else { s.file_name@ };
    &&& same_mask(s, t)
    &&& t.today == (if daily { today } else { s.today })
    &&& daily ==> !(r is Kept)
    &&& !daily ==> !(r is Daily)
    &&& match r {
        Rotation::BySize(n) => {
            &&& size_due(mid_size, s.rotation_size)
            &&& suffix_choice(taken, Some(n))
            &&& t.file_name@ == dated_name(s.stem@, s.ext@, stamp, Some(n))
            &&& t.current_size == 0
        },
        _ => {
            &&& size_due(mid_size, s.rotation_size) ==> suffix_choice(taken, None)
            &&& t.file_name@ == mid_name
            &&& t.current_size == mid_size
        },
    }
}

impl RotationState {
    /// The state of a file opened on `today` (stamp `stamp`) that already
    /// holds `initial_size` bytes; the default timestamp format applies where
    /// none is given.
    pub fn new(
        stem: String,
        ext: String,
        time_format: Option<String>,
        rotation_size: Option<u64>,
        today: Day,
        stamp: &str,
        initial_size: u64,
    ) -> (r: RotationState)
        ensures
            r.file_name@ == dated_name(stem@, ext@, stamp@, None),
            r.stem@ == stem@,
            r.ext@ == ext@,
            r.today == today,
            r.current_size == initial_size,
            r.rotation_size == rotation_size,
            time_format matches Some(f) ==> r.time_format@ == f@,
            time_format is None ==> r.time_format@ == crate::format::default_time_format(),
    {
        let file_name = dated_filename(stem.as_str(), ext.as_str(), stamp, None);
        let time_format = match time_format {
            Some(f) => f,
            None => {
                proof { reveal_strlit("%Y/%m/%d %H:%M:%S"); }
                String::from_str("%Y/%m/%d %H:%M:%S")
            },
        };
        RotationState {
            file_name,
            stem,
            ext,
            today,
            current_size: initial_size,
            rotation_size,
            time_format,
        }
    }

    /// Runs the day check and then the size check before a record is
    /// appended; see `rotation_step`.
    pub fn auto_rotate<F: Fn(u16) -> bool>(&mut self, today: Day, stamp: &str, taken: &F) -> (r: Rotation)
        requires
            forall|n: u16| taken.requires((n,)),
        ensures
            rotation_step(*old(self), *final(self), today, stamp@, *taken, r),
    {
        let daily = today.is_later(&self.today);
        if daily {
            self.file_name = dated_filename(self.stem.as_str(), self.ext.as_str(), stamp, None);
            self.current_size = 0;
            self.today = today;
        }
        let due = match self.rotation_size {
            Some(t) => self.current_size >= t,
            None => false,
        };
        if due {
            match first_free_suffix(taken) {
                Some(n) => {
                    self.file_name = dated_filename(self.stem.as_str(), self.ext.as_str(), stamp, Some(n));
                    self.current_size = 0;
                    return Rotation::BySize(n);
                },
                None => {},
            }
        }
        if daily {
            Rotation::Daily
        } else {
            Rotation::Kept
        }
    }

    /// Renders a record with this file's timestamp format at the current
    /// time; always present with the default format.
    pub fn render(&self, target: &str, level: Level, msg: &str) -> (r: Option<String>)
        ensures
            exists|secs: int, nanos: int|
                {
                    &&& stamp_at(secs, nanos, default_time_format()) is Some
                    &&& #[trigger] line_at(r, secs, nanos, self.time_format@, target@, level, msg@)
                },
            self.time_format@ == default_time_format() ==> r is Some,
    {
        fmt(target, level, msg, Some(self.time_format.as_str()))
    }

    /// Counts `bytes` more written to the open file.
    pub fn record_written(&mut self, bytes: u64)
        requires
            old(self).current_size + bytes <= u64::MAX,
        ensures
            final(self).current_size == old(self).current_size + bytes,
            final(self).file_name@ == old(self).file_name@,
            final(self).today == old(self).today,
            same_mask(*old(self), *final(self)),
    {
        self.current_size = self.current_size + bytes;
    }
}

/// Whether `pending` buffered bytes are to be written to the file now.
pub fn needs_flush(pending: usize) -> (r: bool)
    ensures
        r == (pending >= WRITE_BUFFER_SIZE),
{
    pending >= WRITE_BUFFER_SIZE
}

/// Across a change of day, a record written on the first day goes to that
/// day's file and a record written on a later day goes to the later day's
/// file, whose byte counter starts again from zero and then holds that
/// record's bytes alone. This holds for any size limit that neither fires
/// before the first record nor on an empty file.
pub proof fn lemma_day_change_rotates<F: Fn(u16) -> bool>(
    s0: RotationState,
    s1: RotationState,
    s2: RotationState,
    s3: RotationState,
    s4: RotationState,
    d1: Day,
    stamp1: Seq<char>,
    d2: Day,
    stamp2: Seq<char>,
    taken: F,
    r1: Rotation,
    r2: Rotation,
    len1: u64,
    len2: u64,
)
    requires
        s0.today == d1,
        s0.file_name@ == dated_name(s0.stem@, s0.ext@, stamp1, None),
        !size_due(s0.current_size, s0.rotation_size),
        !size_due(0, s0.rotation_size),
        rotation_step(s0, s1, d1, stamp1, taken, r1),
        s2.current_size == s1.current_size + len1,
        s2.file_name@ == s1.file_name@,
        s2.today == s1.today,
        same_mask(s1, s2),
        d2.spec_later(d1),
        rotation_step(s2, s3, d2, stamp2, taken, r2),
        s4.current_size == s3.current_size + len2,
        s4.file_name@ == s3.file_name@,
        s4.today == s3.today,
        same_mask(s3, s4),
    ensures
        r1 == Rotation::Kept,
        s2.file_name@ == dated_name(s0.stem@, s0.ext@, stamp1, None),
        r2 == Rotation::Daily,
        s3.file_name@ == dated_name(s0.stem@, s0.ext@, stamp2, None),
        s3.current_size == 0,
        s3.today == d2,
        s4.current_size == len2,
{
}

/// When rollover numbers 1 to `k - 1` are in use on disk and `k` is not, and
/// the check reports the disk faithfully, the search picks `k`: no file in
/// use is ever chosen.
pub proof fn lemma_rollover_skips_existing<F: Fn(u16) -> bool>(
    taken: F,
    on_disk: Set<u16>,
    k: u16,
    r: Option<u16>,
)
    requires
        forall|m: u16, b: bool| #[trigger] taken.ensures((m,), b) ==> b == on_disk.contains(m),
        1 <= k,
        forall|m: u16| 1 <= m < k ==> on_disk.contains(m),
        !on_disk.contains(k),
        suffix_choice(taken, r),
    ensures
        r == Some(k),
{
    match r {
        Some(n) => {
            if n < k {
                assert(taken.ensures((n,), false));
                assert(on_disk.contains(n));
            } else if n > k {
                assert(taken.ensures((k,), true));
            }
        },
        None => {
            assert(taken.ensures((k,), true));
        },
    }
}

} // verus!
