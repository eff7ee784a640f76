use crossbeam_channel::Sender;
use vstd::prelude::*;

use crate::format::{default_time_format, fmt, line_at, stamp_at};
use crate::level::{Level, LevelFilter};
use crate::routing::{accepts, names_of, should_write};

verus! {

#[verifier::external_type_specification]
#[verifier::external_body]
#[verifier::reject_recursive_types(T)]
pub struct ExSender<T>(Sender<T>);

/// What travels from the logging call path to a file sink's worker.
pub enum Message {
    /// A record to append.
    Record { target: String, level: Level, msg: String },
    /// Tells the worker to stop after what was queued before it.
    Stop,
}

/// Relies on `crossbeam_channel::Sender::send`: queues `m` behind every
/// message sent before it; `false` when the receiving side is gone. The
/// senders used here come from `crossbeam_channel::unbounded`, on which the
/// call never blocks.
#[verifier::external_body]
fn send_message(tx: &Sender<Message>, m: Message) -> (r: bool) {
    tx.send(m).is_ok()
}

/// The message that carries a record from `target` at `level`.
pub fn record_message(target: &str, level: Level, msg: &str) -> (r: Message)
    ensures
        r matches Message::Record { target: t, level: l, msg: m } && t@ == target@ && l == level && m@ == msg@,
{
    Message::Record { target: target.to_owned(), level, msg: msg.to_owned() }
}

/// The message that stops the worker.
pub fn stop_message() -> (r: Message)
    ensures
        r is Stop,
{
    Message::Stop
}

/// What became of a record handed to a file sink.
#[derive(Clone, Copy, Debug, PartialEq, Eq, Structural)]
pub enum Delivery {
    /// The sink's policy refused it.
    Refused,
    /// It was queued for the worker.
    Queued,
    /// The policy accepted it but the worker is gone.
    Closed,
}

/// Whether the worker stops on `m`.
pub fn is_stop(m: &Message) -> (r: bool)
    ensures
        r == (m is Stop),
{
    match m {
        Message::Stop => true,
        Message::Record { .. } => false,
    }
}

/// A file sink: its policy and the queue of its worker, which exists from
/// construction on.
pub struct FileAppender {
    pub cx: Vec<String>,
    pub verbosity: LevelFilter,
    pub tx: Sender<Message>,
}

impl FileAppender {
    /// A file sink with allow-list `cx` and ceiling `verbosity`, or the
    /// default ceiling where none is given, feeding the worker behind `tx`,
    /// the sending side of a channel made by `crossbeam_channel::unbounded`.
    pub fn new(cx: Vec<String>, verbosity: Option<LevelFilter>, tx: Sender<Message>) -> (r: FileAppender)
        ensures
            r.cx@ == cx@,
            r.verbosity == crate::config::ceiling_or_default(verbosity),
    {
        let verbosity = match verbosity {
            Some(f) => f,
            None => crate::dispatch::DEFAULT_VERBOSITY,
        };
        FileAppender { cx, verbosity, tx }
    }

    /// Hands a record accepted by the policy to the worker's queue, as the
    /// message `record_message` builds; a refused record is never queued.
    pub fn delegate(&self, target: &str, level: Level, msg: &str) -> (r: Delivery)
        ensures
            r is Refused <==> !accepts(names_of(self.cx@), self.verbosity, target@, level),
    {
        if should_write(&self.cx, target, self.verbosity, level) {
            if send_message(&self.tx, record_message(target, level, msg)) {
                Delivery::Queued
            } else {
                Delivery::Closed
            }
        } else {
            Delivery::Refused
        }
    }

    /// Queues the stop message, built by `stop_message`, behind every record
    /// queued so far. `false` when the worker is already gone.
    pub fn flush(&self) -> (r: bool) {
        send_message(&self.tx, stop_message())
    }
}

/// A terminal sink: its policy. The default terminal sink has an empty
/// allow-list; any other has a non-empty one.
pub struct TermAppender {
    pub cx: Vec<String>,
    pub verbosity: LevelFilter,
}

impl TermAppender {
    /// A terminal sink with allow-list `cx` and ceiling `verbosity`, or the
    /// default ceiling where none is given. Only the default sink may have an
    /// empty allow-list: `None` for any other with one.
    pub fn new(cx: Vec<String>, verbosity: Option<LevelFilter>, is_default: bool) -> (r: Option<TermAppender>)
        ensures
            r is None <==> (!is_default && cx@.len() == 0),
            r matches Some(t) ==> t.cx@ == cx@ && t.verbosity == crate::config::ceiling_or_default(verbosity),
    {
        if !is_default && cx.len() == 0 {
            return None;
        }
        let verbosity = match verbosity {
            Some(f) => f,
            None => crate::dispatch::DEFAULT_VERBOSITY,
        };
        Some(TermAppender { cx, verbosity })
    }

    /// The line to print for a record, in the default timestamp format at
    /// the current time, when the policy accepts it; `None` when it refuses
    /// it.
    pub fn delegate(&self, target: &str, level: Level, msg: &str) -> (r: Option<String>)
        ensures
            r is Some <==> accepts(names_of(self.cx@), self.verbosity, target@, level),
            accepts(names_of(self.cx@), self.verbosity, target@, level) ==> exists|secs: int, nanos: int|
                {
                    &&& stamp_at(secs, nanos, default_time_format()) is Some
                    &&& #[trigger] line_at(r, secs, nanos, default_time_format(), target@, level, msg@)
                },
    {
        if should_write(&self.cx, target, self.verbosity, level) {
            fmt(target, level, msg, None)
        } else {
            None
        }
    }
}

} // verus!
