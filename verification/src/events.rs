use vstd::prelude::*;
use vstd::string::StringExecFns;

verus! {

/// Payload of one progress notification: an optional status line, an
/// optional position, and the current maximum of the progress range.
#[derive(Clone)]
pub struct ProgressEventPayload {
    pub status: Option<String>,
    pub progress_value: Option<u32>,
    pub progress_max: u32,
}

/// A notification emitted during a run, recorded in order. The caller
/// drains them and forwards them to its observer; delivery is
/// fire-and-forget and never influences the run.
#[derive(Clone)]
pub enum Event {
    Progress(ProgressEventPayload),
    Log(String),
}

/// Mathematical image of one recorded notification.
pub ghost enum EventModel {
    Progress { status: Option<Seq<char>>, value: Option<u32>, max: u32 },
    Log(Seq<char>),
}

impl DeepView for ProgressEventPayload {
    type V = EventModel;

    open spec fn deep_view(&self) -> EventModel {
        EventModel::Progress {
            status: match self.status {
                Some(s) => Some(s@),
                None => None,
            },
            value: self.progress_value,
            max: self.progress_max,
        }
    }
}

impl DeepView for Event {
    type V = EventModel;

    open spec fn deep_view(&self) -> EventModel {
        match self {
            Event::Progress(p) => p.deep_view(),
            Event::Log(m) => EventModel::Log(m@),
        }
    }
}

pub open spec fn scanning_msg(path: Seq<char>) -> Seq<char> {
    "Scanning "@ + path + "..."@
}

pub open spec fn queued_msg(path: Seq<char>) -> Seq<char> {
    "Queued "@ + path
}

pub open spec fn skipping_msg(path: Seq<char>) -> Seq<char> {
    "Skipping "@ + path
}

pub open spec fn copying_msg(source: Seq<char>, dest: Seq<char>) -> Seq<char> {
    "Copying "@ + source + " to "@ + dest + "..."@
}

pub open spec fn copied_msg(source: Seq<char>, dest: Seq<char>) -> Seq<char> {
    "Copied "@ + source + " to "@ + dest
}

pub fn msg_scanning(path: &str) -> (r: String)
    ensures
        r@ == scanning_msg(path@),
{
    String::from_str("Scanning ").concat(path).concat("...")
}

pub fn msg_queued(path: &str) -> (r: String)
    ensures
        r@ == queued_msg(path@),
{
    String::from_str("Queued ").concat(path)
}

pub fn msg_skipping(path: &str) -> (r: String)
    ensures
        r@ == skipping_msg(path@),
{
    String::from_str("Skipping ").concat(path)
}

pub fn msg_copying(source: &str, dest: &str) -> (r: String)
    ensures
        r@ == copying_msg(source@, dest@),
{
    String::from_str("Copying ").concat(source).concat(" to ").concat(dest).concat("...")
}

pub fn msg_copied(source: &str, dest: &str) -> (r: String)
    ensures
        r@ == copied_msg(source@, dest@),
{
    String::from_str("Copied ").concat(source).concat(" to ").concat(dest)
}

} // verus!
