use vstd::prelude::*;

use crate::dispatch::{Dispatcher, SinkPolicy, DEFAULT_VERBOSITY, all_sources};
use crate::level::LevelFilter;
use crate::routing::names_of;

verus! {

/// Settings of one file sink.
pub struct FileAppenderCfg {
    pub sources: Vec<String>,
    pub target: String,
    pub time_format: Option<String>,
    pub bytes_rotation_size: Option<u64>,
    pub verbosity: Option<LevelFilter>,
}

/// Settings of one terminal sink; its allow-list must not be empty.
pub struct TermAppenderCfg {
    pub sources: Vec<String>,
    pub verbosity: Option<LevelFilter>,
}

/// Settings of the whole engine.
pub struct LogitCfg {
    pub verbosity: LevelFilter,
    pub file_apdrs: Option<Vec<FileAppenderCfg>>,
    pub term_apdrs: Option<Vec<TermAppenderCfg>>,
}

/// Why an engine could not be set up.
#[derive(Clone, Copy, Debug, PartialEq, Eq, Structural)]
pub enum InitError {
    /// The terminal sink at this index has an empty allow-list, which is
    /// reserved for the default terminal sink.
    EmptyTermSources(usize),
}

pub open spec fn ceiling_or_default(v: Option<LevelFilter>) -> LevelFilter {
    match v {
        Some(f) => f,
        None => DEFAULT_VERBOSITY,
    }
}

pub open spec fn file_cfgs(cfg: &LogitCfg) -> Seq<FileAppenderCfg> {
    match &cfg.file_apdrs {
        Some(v) => v@,
        None => Seq::empty(),
    }
}

pub open spec fn term_cfgs(cfg: &LogitCfg) -> Seq<TermAppenderCfg> {
    match &cfg.term_apdrs {
        Some(v) => v@,
        None => Seq::empty(),
    }
}

/// Sink `p` has the allow-list `sources` and the ceiling `verbosity`, or the
/// default ceiling where none is given.
pub open spec fn policy_matches(p: SinkPolicy, sources: Seq<String>, verbosity: Option<LevelFilter>) -> bool {
    names_of(p.sources@) == names_of(sources) && p.verbosity == ceiling_or_default(verbosity)
}

/// The first terminal sink with an empty allow-list, if any.
pub open spec fn first_empty_term(terms: Seq<TermAppenderCfg>, i: int) -> bool {
    &&& 0 <= i < terms.len()
    &&& terms[i].sources@.len() == 0
    &&& forall|k: int| 0 <= k < i ==> terms[k].sources@.len() > 0
}

fn clone_names(v: &Vec<String>) -> (r: Vec<String>)
    ensures
        names_of(r@) == names_of(v@),
{
    let r = v.clone();
    assert(names_of(r@) =~= names_of(v@));
    r
}

/// Builds the routing state of an engine from its settings: the file sinks
/// first, then the terminal sinks, each with the default ceiling where none
/// is given. A terminal sink with an empty allow-list is refused.
pub fn init(cfg: &LogitCfg) -> (r: Result<Dispatcher, InitError>)
    ensures
        r matches Err(InitError::EmptyTermSources(i)) ==> first_empty_term(term_cfgs(cfg), i as int),
        r is Err <==> exists|i: int| 0 <= i < term_cfgs(cfg).len() && #[trigger] term_cfgs(cfg)[i].sources@.len() == 0,
        r matches Ok(d) ==> {
            &&& d.wf()
            &&& d.max_level == cfg.verbosity
            &&& d.sinks@.len() == file_cfgs(cfg).len() + term_cfgs(cfg).len()
            &&& forall|i: int| 0 <= i < file_cfgs(cfg).len() ==> policy_matches(
                #[trigger] d.sinks@[i],
                file_cfgs(cfg)[i].sources@,
                file_cfgs(cfg)[i].verbosity,
            )
            &&& forall|i: int| 0 <= i < term_cfgs(cfg).len() ==> policy_matches(
                #[trigger] d.sinks@[file_cfgs(cfg).len() + i],
                term_cfgs(cfg)[i].sources@,
                term_cfgs(cfg)[i].verbosity,
            )
        },
{
    let mut sinks: Vec<SinkPolicy> = Vec::new();
    let ghost nf: int = file_cfgs(cfg).len() as int;
    match &cfg.file_apdrs {
        Some(files) => {
            let mut i: usize = 0;
            while i < files.len()
                invariant
                    i <= files.len(),
                    files@ == file_cfgs(cfg),
                    sinks@.len() == i,
                    forall|k: int| 0 <= k < i ==> policy_matches(
                        #[trigger] sinks@[k],
                        files@[k].sources@,
                        files@[k].verbosity,
                    ),
                decreases files.len() - i,
            {
                let c = &files[i];
                let verbosity = match c.verbosity {
                    Some(f) => f,
                    None => DEFAULT_VERBOSITY,
                };
                sinks.push(SinkPolicy { sources: clone_names(&c.sources), verbosity });
                i = i + 1;
            }
        },
        None => {},
    }
    match &cfg.term_apdrs {
        Some(terms) => {
            let mut i: usize = 0;
            while i < terms.len()
                invariant
                    i <= terms.len(),
                    terms@ == term_cfgs(cfg),
                    nf == file_cfgs(cfg).len(),
                    sinks@.len() == nf + i,
                    forall|k: int| 0 <= k < nf ==> policy_matches(
                        #[trigger] sinks@[k],
                        file_cfgs(cfg)[k].sources@,
                        file_cfgs(cfg)[k].verbosity,
                    ),
                    forall|k: int| 0 <= k < i ==> policy_matches(
                        #[trigger] sinks@[nf + k],
                        terms@[k].sources@,
                        terms@[k].verbosity,
                    ),
                    forall|k: int| 0 <= k < i ==> terms@[k].sources@.len() > 0,
                decreases terms.len() - i,
            {
                let c = &terms[i];
                if c.sources.len() == 0 {
                    return Err(InitError::EmptyTermSources(i));
                }
                let verbosity = match c.verbosity {
                    Some(f) => f,
                    None => DEFAULT_VERBOSITY,
                };
                let ghost prev = sinks@;
                sinks.push(SinkPolicy { sources: clone_names(&c.sources), verbosity });
                assert forall|k: int| 0 <= k < i + 1 implies policy_matches(
                    #[trigger] sinks@[nf + k],
                    terms@[k].sources@,
                    terms@[k].verbosity,
                ) by {
                    if k < i {
                        assert(sinks@[nf + k] == prev[nf + k]);
                    }
                }
                assert forall|k: int| 0 <= k < nf implies policy_matches(
                    #[trigger] sinks@[k],
                    file_cfgs(cfg)[k].sources@,
                    file_cfgs(cfg)[k].verbosity,
                ) by {
                    assert(sinks@[k] == prev[k]);
                }
                i = i + 1;
            }
        },
        None => {},
    }
    Ok(Dispatcher::new(cfg.verbosity, sinks))
}

} // verus!
