use vstd::prelude::*;
use vstd::string::StringExecFns;

use crate::events::Event;
use crate::events::EventModel;
use crate::events::ProgressEventPayload;
use crate::events::msg_queued;
use crate::events::msg_scanning;
use crate::events::queued_msg;
use crate::events::scanning_msg;
use crate::media::ext_of;
use crate::media::extension_of;
use crate::media::is_hidden;
use crate::media::is_hidden_name;
use crate::media::is_media_ext;
use crate::media::is_media_extension;

verus! {

/// One directory entry, as the caller read it from the filesystem.
#[derive(Clone)]
pub struct DirEntry {
    pub path: String,
    pub name: String,
    pub is_dir: bool,
}

/// Mathematical image of a directory entry.
pub ghost struct DirEntryModel {
    pub path: Seq<char>,
    pub name: Seq<char>,
    pub is_dir: bool,
}

impl DeepView for DirEntry {
    type V = DirEntryModel;

    open spec fn deep_view(&self) -> DirEntryModel {
        DirEntryModel { path: self.path@, name: self.name@, is_dir: self.is_dir }
    }
}

/// A file the scanner has accepted for import.
pub struct QueuedFile {
    pub path: String,
    pub name: String,
}

/// Mathematical image of a queued file.
pub ghost struct QueuedFileModel {
    pub path: Seq<char>,
    pub name: Seq<char>,
}

impl DeepView for QueuedFile {
    type V = QueuedFileModel;

    open spec fn deep_view(&self) -> QueuedFileModel {
        QueuedFileModel { path: self.path@, name: self.name@ }
    }
}

/// Whether a file entry with this name belongs in the queue: not hidden,
/// and carrying a supported media extension.
pub open spec fn file_qualifies(name: Seq<char>) -> bool {
    &&& !is_hidden_name(name)
    &&& match ext_of(name) {
        Some(e) => is_media_ext(e),
        None => false,
    }
}

/// Whether the scanner queues this entry: a file, not hidden, with a
/// supported media extension.
pub open spec fn entry_qualifies(e: DirEntryModel) -> bool {
    !e.is_dir && file_qualifies(e.name)
}

/// The entries of one listing that belong in the queue, in listing order.
pub open spec fn qualifying_files(entries: Seq<DirEntryModel>) -> Seq<DirEntryModel> {
    entries.filter(|e: DirEntryModel| entry_qualifies(e))
}

/// The scanner's output contains exactly the right files: over any
/// directory listing, an entry is among the qualifying files if and only
/// if it is in the listing, is not a directory, is not hidden, and its
/// extension names a supported media format. Each `step` queues exactly
/// the qualifying entries it pops, so this holds of every visited
/// directory, at any nesting depth.
pub proof fn lemma_scan_keeps_exactly_the_qualifying_files(
    entries: Seq<DirEntryModel>,
    e: DirEntryModel,
)
    ensures
        qualifying_files(entries).contains(e) <==> (entries.contains(e) && !e.is_dir
            && !is_hidden_name(e.name) && (match ext_of(e.name) {
            Some(x) => is_media_ext(x),
            None => false,
        })),
    decreases entries.len(),
{
    reveal(Seq::filter);
    let f = qualifying_files(entries);
    if entries.len() == 0 {
        assert(!f.contains(e));
    } else {
        let prefix = entries.drop_last();
        let last = entries.last();
        lemma_scan_keeps_exactly_the_qualifying_files(prefix, e);
        let fr = qualifying_files(prefix);
        if f.contains(e) {
            let i = choose|i: int| 0 <= i < f.len() && f[i] == e;
            if entry_qualifies(last) {
                if i < fr.len() {
                    assert(fr[i] == e);
                    assert(fr.contains(e));
                } else {
                    assert(e == last);
                }
            } else {
                assert(fr[i] == e);
                assert(fr.contains(e));
            }
            if fr.contains(e) {
                let j = choose|j: int| 0 <= j < prefix.len() && prefix[j] == e;
                assert(entries[j] == e);
                assert(entries.contains(e));
            } else {
                assert(entries[entries.len() - 1] == e);
                assert(entries.contains(e));
            }
        }
        if entries.contains(e) && entry_qualifies(e) {
            let j = choose|j: int| 0 <= j < entries.len() && entries[j] == e;
            if j < prefix.len() {
                assert(prefix[j] == e);
                assert(prefix.contains(e));
                let i = choose|i: int| 0 <= i < fr.len() && fr[i] == e;
                assert(f[i] == e);
                assert(f.contains(e));
            } else {
                assert(e == last);
                assert(f[f.len() - 1] == e);
                assert(f.contains(e));
            }
        }
    }
}

/// What one scanner step did.
pub enum ScanStep {
    /// The top entry was a qualifying file and went onto the queue.
    Queued,
    /// The top entry was a non-hidden directory: the caller must read it
    /// and hand the listing back through `deliver_listing`.
    Descend { path: String },
    /// The top entry was hidden, or a file of an unsupported kind.
    Skipped,
    /// The cancellation signal was observed; the scan is over.
    Cancelled,
    /// The work stack is empty: every reachable entry has been visited.
    Done,
}

/// The cancellable depth-first directory scanner, driven as a machine: the
/// caller pops work with `step`, performs the one directory read the
/// machine asks for, and hands the listing back. The machine owns every
/// decision: hidden names, media extensions, discovery order, cancellation.
pub struct Scanner {
    /// Entries still to process; the top of the stack is processed next.
    pub stack: Vec<DirEntry>,
    /// Qualifying files, in discovery order.
    pub queue: Vec<QueuedFile>,
    /// Notifications recorded so far, oldest first.
    pub events: Vec<Event>,
    /// True while the machine waits for a directory listing.
    pub awaiting: bool,
    /// True once cancellation has been observed; the result is then empty.
    pub cancelled: bool,
    /// True once a directory read failed. A failed read aborts the whole
    /// scan: the caller surfaces its error instead of a result.
    pub failed: bool,
}

impl Scanner {
    /// A scanner about to visit `root`, with an empty queue.
    pub fn new(root: String) -> (s: Scanner)
        ensures
            s.stack.deep_view() =~= seq![
                DirEntryModel { path: root@, name: Seq::<char>::empty(), is_dir: true },
            ],
            s.queue@ =~= Seq::<QueuedFile>::empty(),
            s.events@ =~= Seq::<Event>::empty(),
            !s.awaiting,
            !s.cancelled,
            !s.failed,
    {
        let mut stack: Vec<DirEntry> = Vec::new();
        stack.push(DirEntry { path: root, name: String::new(), is_dir: true });
        Scanner {
            stack,
            queue: Vec::new(),
            events: Vec::new(),
            awaiting: false,
            cancelled: false,
            failed: false,
        }
    }

    /// Processes the top entry of the work stack. `cancelled` is the
    /// cancellation signal's answer, polled by the caller just before the
    /// call; a set signal short-circuits this step and ends the scan,
    /// and an unset one never does. The returned step says exactly what
    /// happened; the clauses below pin the new state for each case.
    pub fn step(&mut self, cancelled: bool) -> (r: ScanStep)
        requires
            !old(self).awaiting,
            !old(self).cancelled,
            !old(self).failed,
        ensures
            !final(self).failed,
            r is Cancelled <==> cancelled,
            match r {
                ScanStep::Cancelled => {
                    &&& final(self).cancelled
                    &&& !final(self).awaiting
                    &&& final(self).stack == old(self).stack
                    &&& final(self).queue == old(self).queue
                    &&& final(self).events == old(self).events
                },
                ScanStep::Done => {
                    &&& old(self).stack@.len() == 0
                    &&& *final(self) == *old(self)
                },
                ScanStep::Skipped => {
                    &&& old(self).stack@.len() > 0
                    &&& {
                        let top = old(self).stack.deep_view().last();
                        &&& is_hidden_name(top.name) || (!top.is_dir && !file_qualifies(top.name))
                        &&& final(self).stack.deep_view() =~= old(self).stack.deep_view().drop_last()
                    }
                    &&& final(self).queue == old(self).queue
                    &&& final(self).events == old(self).events
                    &&& !final(self).awaiting
                    &&& !final(self).cancelled
                },
                ScanStep::Descend { path } => {
                    &&& old(self).stack@.len() > 0
                    &&& {
                        let top = old(self).stack.deep_view().last();
                        &&& top.is_dir
                        &&& !is_hidden_name(top.name)
                        &&& path@ == top.path
                        &&& final(self).stack.deep_view() =~= old(self).stack.deep_view().drop_last()
                        &&& final(self).events.deep_view() =~= old(self).events.deep_view()
                            + seq![
                            EventModel::Progress {
                                status: Some(scanning_msg(top.path)),
                                value: None,
                                max: old(self).queue@.len() as u32,
                            },
                        ]
                    }
                    &&& final(self).queue == old(self).queue
                    &&& final(self).awaiting
                    &&& !final(self).cancelled
                },
                ScanStep::Queued => {
                    &&& old(self).stack@.len() > 0
                    &&& {
                        let top = old(self).stack.deep_view().last();
                        &&& !top.is_dir
                        &&& file_qualifies(top.name)
                        &&& final(self).stack.deep_view() =~= old(self).stack.deep_view().drop_last()
                        &&& final(self).queue.deep_view() =~= old(self).queue.deep_view()
                            + seq![QueuedFileModel { path: top.path, name: top.name }]
                        &&& final(self).events.deep_view() =~= old(self).events.deep_view()
                            + seq![
                            EventModel::Log(queued_msg(top.path)),
                            EventModel::Progress {
                                status: None,
                                value: None,
                                max: (old(self).queue@.len() + 1) as u32,
                            },
                        ]
                    }
                    &&& !final(self).awaiting
                    &&& !final(self).cancelled
                },
            },
    {
        if cancelled {
            self.cancelled = true;
            return ScanStep::Cancelled;
        }
        if self.stack.len() == 0 {
            return ScanStep::Done;
        }
        let e = self.stack.pop().unwrap();
        if is_hidden(e.name.as_str()) {
            return ScanStep::Skipped;
        }
        if e.is_dir {
            let msg = msg_scanning(e.path.as_str());
            let max: u32 = #[verifier::truncate] (self.queue.len() as u32);
            self.events.push(
                Event::Progress(
                    ProgressEventPayload {
                        status: Some(msg),
                        progress_value: None,
                        progress_max: max,
                    },
                ),
            );
            self.awaiting = true;
            return ScanStep::Descend { path: e.path };
        }
        let queued = match extension_of(e.name.as_str()) {
            Some(ext) => is_media_extension(ext.as_str()),
            None => false,
        };
        if queued {
            let log = msg_queued(e.path.as_str());
            self.queue.push(QueuedFile { path: e.path, name: e.name });
            self.events.push(Event::Log(log));
            let max: u32 = #[verifier::truncate] (self.queue.len() as u32);
            self.events.push(
                Event::Progress(
                    ProgressEventPayload { status: None, progress_value: None, progress_max: max },
                ),
            );
            ScanStep::Queued
        } else {
            ScanStep::Skipped
        }
    }

    /// Accepts the listing of the directory the last `Descend` asked for.
    /// The entries go onto the work stack in reverse, so that they are
    /// processed in the order the caller read them, each directory fully
    /// expanded before its parent's later entries.
    pub fn deliver_listing(&mut self, entries: Vec<DirEntry>)
        requires
            old(self).awaiting,
            !old(self).cancelled,
            !old(self).failed,
        ensures
            !final(self).awaiting,
            !final(self).cancelled,
            !final(self).failed,
            final(self).stack.deep_view() =~= old(self).stack.deep_view()
                + entries.deep_view().reverse(),
            final(self).queue == old(self).queue,
            final(self).events == old(self).events,
    {
        let ghost orig = entries.deep_view();
        let mut es = entries;
        while es.len() > 0
            invariant
                es@.len() <= orig.len(),
                es.deep_view() =~= orig.take(es.len() as int),
                self.stack.deep_view() =~= old(self).stack.deep_view()
                    + orig.skip(es.len() as int).reverse(),
                self.awaiting == old(self).awaiting,
                self.cancelled == old(self).cancelled,
                self.failed == old(self).failed,
                self.queue == old(self).queue,
                self.events == old(self).events,
            decreases es.len(),
        {
            let ghost pre = es.deep_view();
            let ghost prev = es@;
            let ghost k = prev.len() as int;
            let e = es.pop().unwrap();
            let ghost pre_stack = self.stack.deep_view();
            self.stack.push(e);
            proof {
                assert forall|i: int| 0 <= i < pre_stack.len() implies self.stack.deep_view()[i]
                    == pre_stack[i] by {
                    assert(self.stack.deep_view()[i] == self.stack@[i].deep_view());
                }
                assert(self.stack.deep_view()[pre_stack.len() as int] == e.deep_view());
                assert(self.stack.deep_view() =~= pre_stack.push(e.deep_view()));
                assert(pre[k - 1] == prev[k - 1].deep_view());
                assert(pre[k - 1] == orig[k - 1]);
                assert(e.deep_view() == orig[k - 1]);
                assert forall|i: int| 0 <= i < k - 1 implies es.deep_view()[i] == orig.take(
                    k - 1,
                )[i] by {
                    assert(es.deep_view()[i] == es@[i].deep_view());
                    assert(es@[i] == prev[i]);
                    assert(pre[i] == prev[i].deep_view());
                    assert(pre[i] == orig.take(k)[i]);
                }
                assert(es.deep_view() =~= orig.take(k - 1));
                assert(orig.skip(k - 1).reverse() =~= orig.skip(k).reverse().push(orig[k - 1]));
                assert(self.stack.deep_view() =~= old(self).stack.deep_view() + orig.skip(
                    k - 1,
                ).reverse());
            }
        }
        proof {
            assert(orig.skip(0).reverse() =~= orig.reverse());
        }
        self.awaiting = false;
    }

    /// Records that the directory read the last `Descend` asked for
    /// failed. A read failure is a hard error for the whole scan: the
    /// machine accepts no further work, and the caller propagates its
    /// error instead of a result.
    pub fn listing_error(&mut self)
        requires
            old(self).awaiting,
            !old(self).cancelled,
            !old(self).failed,
        ensures
            final(self).failed,
            !final(self).awaiting,
            !final(self).cancelled,
            final(self).stack == old(self).stack,
            final(self).queue == old(self).queue,
            final(self).events == old(self).events,
    {
        self.awaiting = false;
        self.failed = true;
    }

    /// The scan's result: the queue in discovery order, or nothing at all
    /// if cancellation was observed.
    pub fn into_result(self) -> (r: Vec<QueuedFile>)
        ensures
            self.cancelled ==> r@ =~= Seq::<QueuedFile>::empty(),
            !self.cancelled ==> r == self.queue,
    {
        if self.cancelled {
            Vec::new()
        } else {
            self.queue
        }
    }

    /// Hands the recorded notifications over and clears the record.
    pub fn take_events(&mut self) -> (r: Vec<Event>)
        ensures
            r == old(self).events,
            final(self).events@ =~= Seq::<Event>::empty(),
            final(self).stack == old(self).stack,
            final(self).queue == old(self).queue,
            final(self).awaiting == old(self).awaiting,
            final(self).cancelled == old(self).cancelled,
            final(self).failed == old(self).failed,
    {
        let mut out: Vec<Event> = Vec::new();
        core::mem::swap(&mut out, &mut self.events);
        out
    }
}

} // verus!
