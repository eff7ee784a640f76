use vstd::prelude::*;

use crate::level::{passes, Level, LevelFilter};

verus! {

/// The allow-list of a sink as a sequence of character sequences.
pub open spec fn names_of(cx: Seq<String>) -> Seq<Seq<char>> {
    cx.map_values(|s: String| s@)
}

/// The routing policy shared by every sink: a disabled ceiling or a record
/// more verbose than the ceiling is refused; otherwise an empty allow-list
/// accepts every source and a non-empty one accepts exactly its members.
pub open spec fn accepts(cx: Seq<Seq<char>>, ceiling: LevelFilter, source: Seq<char>, level: Level) -> bool {
    passes(level, ceiling) && (cx.len() == 0 || cx.contains(source))
}

/// Whether `name` occurs in `cx`.
pub fn contains_name(cx: &Vec<String>, name: &str) -> (r: bool)
    ensures
        r == names_of(cx@).contains(name@),
{
    let target = name.to_owned();
    let mut i: usize = 0;
    while i < cx.len()
        invariant
            target@ == name@,
            i <= cx.len(),
            forall|j: int| 0 <= j < i ==> cx@[j]@ != name@,
        decreases cx.len() - i,
    {
        if cx[i] == target {
            assert(names_of(cx@)[i as int] == name@);
            return true;
        }
        i = i + 1;
    }
    proof {
        if names_of(cx@).contains(name@) {
            let k = choose|k: int| 0 <= k < names_of(cx@).len() && names_of(cx@)[k] == name@;
            assert(cx@[k]@ == name@);
        }
    }
    false
}

/// Decides whether a sink with allow-list `cx` and ceiling `verbosity`
/// writes a record from `target` at `level`.
pub fn should_write(cx: &Vec<String>, target: &str, verbosity: LevelFilter, level: Level) -> (r: bool)
    ensures
        r == accepts(names_of(cx@), verbosity, target@, level),
{
    if !verbosity.admits(level) {
        return false;
    }
    if cx.len() == 0 {
        return true;
    }
    contains_name(cx, target)
}

} // verus!

verus! {

/// A disabled ceiling, or a record more verbose than the ceiling, is refused
/// whatever the allow-list holds.
pub proof fn lemma_ceiling_refuses(cx: Seq<Seq<char>>, ceiling: LevelFilter, source: Seq<char>, level: Level)
    requires
        ceiling == LevelFilter::Off || crate::level::level_rank(level) > crate::level::filter_rank(ceiling),
    ensures
        !accepts(cx, ceiling, source, level),
{
}

/// With an empty allow-list the decision depends on the level alone: two
/// sources at one level are treated alike.
pub proof fn lemma_empty_list_ignores_source(ceiling: LevelFilter, a: Seq<char>, b: Seq<char>, level: Level)
    ensures
        accepts(Seq::empty(), ceiling, a, level) == accepts(Seq::empty(), ceiling, b, level),
        accepts(Seq::empty(), ceiling, a, level) == passes(level, ceiling),
{
}

/// With a non-empty allow-list and a level that passes the ceiling, a record
/// is accepted exactly when its source is an element of the list.
pub proof fn lemma_listed_source_only(cx: Seq<Seq<char>>, ceiling: LevelFilter, source: Seq<char>, level: Level)
    requires
        cx.len() > 0,
        passes(level, ceiling),
    ensures
        accepts(cx, ceiling, source, level) == cx.contains(source),
{
}

} // verus!
