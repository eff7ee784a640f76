use vstd::prelude::*;

use crate::level::{passes, Level, LevelFilter};
use crate::routing::{accepts, contains_name, names_of, should_write};

verus! {

/// The severity ceiling of a sink configured without one.
pub const DEFAULT_VERBOSITY: LevelFilter = LevelFilter::Trace;

/// The allow-list and ceiling of one sink.
pub struct SinkPolicy {
    pub sources: Vec<String>,
    pub verbosity: LevelFilter,
}

/// Whether the sink described by `p` writes a record from `source` at `level`.
pub open spec fn sink_accepts(p: SinkPolicy, source: Seq<char>, level: Level) -> bool {
    accepts(names_of(p.sources@), p.verbosity, source, level)
}

/// Every source named in the allow-list of some sink, sink by sink.
pub open spec fn all_sources(sinks: Seq<SinkPolicy>) -> Seq<Seq<char>>
    decreases sinks.len(),
{
    if sinks.len() == 0 {
        Seq::empty()
    } else {
        all_sources(sinks.drop_last()) + names_of(sinks.last().sources@)
    }
}

/// The source under which the engine reports on itself; its records always
/// go to the default terminal sink.
pub open spec fn internal_source() -> Seq<char> {
    "logit"@
}

/// Records from this source are never handled, since the file workers'
/// runtime reports through it.
pub open spec fn runtime_source() -> Seq<char> {
    "async_std::task::builder"@
}

/// Where a record goes.
pub enum Route {
    /// More verbose than the global ceiling: discarded before any sink.
    Dropped,
    /// Offered to the default terminal sink only; the flag is its decision.
    Default(bool),
    /// Offered to every configured sink; entry `i` is the decision of sink `i`.
    Sinks(Vec<bool>),
}

/// The routing state of an engine: the global ceiling, the claimed-source
/// list, the implicit default terminal sink and the configured sinks.
pub struct Dispatcher {
    pub max_level: LevelFilter,
    pub cx: Vec<String>,
    pub default_sink: SinkPolicy,
    pub sinks: Vec<SinkPolicy>,
}

impl Dispatcher {
    /// The claimed-source list is the union of the sinks' allow-lists, and
    /// the default sink accepts every source up to `Trace`.
    pub open spec fn wf(&self) -> bool {
        &&& names_of(self.cx@) == all_sources(self.sinks@)
        &&& self.default_sink.sources@.len() == 0
        &&& self.default_sink.verbosity == DEFAULT_VERBOSITY
    }

    /// Builds the routing state over `sinks` under the global ceiling `max_level`.
    pub fn new(max_level: LevelFilter, sinks: Vec<SinkPolicy>) -> (r: Dispatcher)
        ensures
            r.wf(),
            r.max_level == max_level,
            r.sinks@ == sinks@,
    {
        let mut cx: Vec<String> = Vec::new();
        let mut i: usize = 0;
        while i < sinks.len()
            invariant
                i <= sinks.len(),
                names_of(cx@) == all_sources(sinks@.take(i as int)),
            decreases sinks.len() - i,
        {
            let src = &sinks[i].sources;
            let ghost before = cx@;
            let mut j: usize = 0;
            while j < src.len()
                invariant
                    j <= src.len(),
                    cx@ == before + src@.take(j as int),
                decreases src.len() - j,
            {
                cx.push(src[j].clone());
                assert(src@.take(j + 1) == src@.take(j as int).push(src@[j as int]));
                j = j + 1;
            }
            proof {
                assert(src@.take(src@.len() as int) == src@);
                assert(sinks@.take(i + 1).drop_last() == sinks@.take(i as int));
                assert(names_of(before + src@) == names_of(before) + names_of(src@));
            }
            i = i + 1;
        }
        assert(sinks@.take(sinks@.len() as int) == sinks@);
        Dispatcher {
            max_level,
            cx,
            default_sink: SinkPolicy { sources: Vec::new(), verbosity: DEFAULT_VERBOSITY },
            sinks,
        }
    }

    /// Whether some sink claims `target`.
    pub fn delegable(&self, target: &str) -> (r: bool)
        ensures
            r == names_of(self.cx@).contains(target@),
    {
        contains_name(&self.cx, target)
    }

    /// Routes a record from `target` at `level`: past the global ceiling,
    /// records of the engine's own source or of an unclaimed source go to the
    /// default sink, the others to every configured sink, each of which
    /// applies its own policy.
    pub fn route(&self, target: &str, level: Level) -> (r: Route)
        ensures
            !passes(level, self.max_level) ==> r is Dropped,
            passes(level, self.max_level) && (target@ == internal_source()
                || !names_of(self.cx@).contains(target@)) ==> r == Route::Default(
                sink_accepts(self.default_sink, target@, level),
            ),
            passes(level, self.max_level) && target@ != internal_source() && names_of(
                self.cx@,
            ).contains(target@) ==> (r matches Route::Sinks(m) && m@.len() == self.sinks@.len()
                && forall|i: int| 0 <= i < m@.len() ==> m@[i] == sink_accepts(self.sinks@[i], target@, level)),
    {
        if !self.max_level.admits(level) {
            return Route::Dropped;
        }
        if is_internal_source(target) || !self.delegable(target) {
            return Route::Default(
                should_write(&self.default_sink.sources, target, self.default_sink.verbosity, level),
            );
        }
        let mut m: Vec<bool> = Vec::new();
        let mut i: usize = 0;
        while i < self.sinks.len()
            invariant
                i <= self.sinks@.len(),
                m@.len() == i,
                forall|k: int| 0 <= k < i ==> m@[k] == sink_accepts(self.sinks@[k], target@, level),
            decreases self.sinks.len() - i,
        {
            let p = &self.sinks[i];
            m.push(should_write(&p.sources, target, p.verbosity, level));
            i = i + 1;
        }
        Route::Sinks(m)
    }
}

/// Whether `target` is the engine's own diagnostic source.
pub fn is_internal_source(target: &str) -> (r: bool)
    ensures
        r == (target@ == internal_source()),
{
    let own = String::from_str("logit");
    proof { reveal_strlit("logit"); }
    target.to_owned() == own
}

/// Whether records from `target` are handled at all.
pub fn enabled(target: &str) -> (r: bool)
    ensures
        r == (target@ != runtime_source()),
{
    let skipped = String::from_str("async_std::task::builder");
    proof { reveal_strlit("async_std::task::builder"); }
    !(target.to_owned() == skipped)
}

/// The claimed list of `sinks` is that of all but the last sink followed by
/// the last sink's allow-list.
proof fn lemma_all_sources_split(sinks: Seq<SinkPolicy>, s: Seq<char>)
    requires
        sinks.len() > 0,
    ensures
        all_sources(sinks).contains(s) <==> (all_sources(sinks.drop_last()).contains(s) || names_of(
            sinks.last().sources@,
        ).contains(s)),
{
    let a = all_sources(sinks.drop_last());
    let b = names_of(sinks.last().sources@);
    let c = all_sources(sinks);
    assert(c == a + b);
    if c.contains(s) {
        let k = choose|k: int| 0 <= k < c.len() && c[k] == s;
        if k < a.len() {
            assert(a[k] == s);
        } else {
            assert(b[k - a.len()] == s);
        }
    }
    if a.contains(s) {
        let k = choose|k: int| 0 <= k < a.len() && a[k] == s;
        assert(c[k] == s);
    }
    if b.contains(s) {
        let k = choose|k: int| 0 <= k < b.len() && b[k] == s;
        assert(c[a.len() + k] == s);
    }
}

/// A source is claimed exactly when the allow-list of some sink names it.
pub proof fn lemma_claimed_iff_listed(sinks: Seq<SinkPolicy>, s: Seq<char>)
    ensures
        all_sources(sinks).contains(s) <==> exists|i: int|
            0 <= i < sinks.len() && #[trigger] names_of(sinks[i].sources@).contains(s),
    decreases sinks.len(),
{
    if sinks.len() > 0 {
        let init = sinks.drop_last();
        let n = sinks.len() - 1;
        lemma_claimed_iff_listed(init, s);
        lemma_all_sources_split(sinks, s);
        if exists|i: int| 0 <= i < init.len() && #[trigger] names_of(init[i].sources@).contains(s) {
            let i = choose|i: int| 0 <= i < init.len() && #[trigger] names_of(init[i].sources@).contains(s);
            assert(sinks[i] == init[i]);
        }
        if names_of(sinks.last().sources@).contains(s) {
            assert(names_of(sinks[n].sources@).contains(s));
        }
        if exists|i: int| 0 <= i < sinks.len() && #[trigger] names_of(sinks[i].sources@).contains(s) {
            let i = choose|i: int| 0 <= i < sinks.len() && #[trigger] names_of(sinks[i].sources@).contains(s);
            if i < n {
                assert(init[i] == sinks[i]);
            }
        }
    }
}

} // verus!
