use vstd::prelude::*;
use vstd::string::StringExecFns;

use crate::events::Event;
use crate::events::EventModel;
use crate::events::ProgressEventPayload;
use crate::events::copied_msg;
use crate::events::copying_msg;
use crate::events::msg_copied;
use crate::events::msg_copying;
use crate::events::msg_skipping;
use crate::events::skipping_msg;
use crate::media::ext_of;
use crate::media::extension_of;
use crate::media::is_hidden;
use crate::media::is_hidden_name;
use crate::planner::candidate_name;
use crate::planner::candidate_name_spec;
use crate::planner::join_path;
use crate::planner::joined_path_spec;
use crate::scanner::QueuedFile;
use crate::timestamp::FsTime;
use crate::timestamp::Timestamp;
use crate::timestamp::exif_part;
use crate::timestamp::fallback_instant;
use crate::timestamp::fs_time_in_range;
use crate::timestamp::resolve_timestamp;
use crate::timestamp::strftime;
use crate::timestamp::strftime_of;

verus! {

/// The cap on collision suffixes: past this many occupied candidate
/// names for one item, the run reports an error instead of probing on.
pub const MAX_NAME_ATTEMPTS: u64 = 9999;

/// Where the importer stands inside the current queue item.
pub enum ImportPhase {
    /// Between items: nothing outstanding.
    Ready,
    /// Waiting for the current file's bytes and filesystem instants;
    /// the extension was already split off the file's name.
    Resolving { ext: String },
    /// Waiting to hear whether the candidate destination `dest` exists
    /// and whether it has the source's size.
    Probing { stem: String, ext: String, attempt: u64, dest: String },
    /// Waiting for the result of the copy to `dest`.
    Copying { dest: String },
}

/// What one importer call asks of the caller, or reports.
pub enum ImportStep {
    /// The cancellation signal was observed: the run is over, the counts
    /// stand as they are.
    Cancelled,
    /// Every item was handled; the final progress event was recorded.
    Finished,
    /// The current item was dropped without touching either counter.
    Ignored,
    /// The caller must read the file's bytes and filesystem instants and
    /// hand them to `resolve`.
    NeedTimestamp { path: String },
    /// The caller must report through `dest_checked` whether `dest`
    /// exists, and whether it has the same size as the current source.
    CheckDest { dest: String },
    /// The caller must create the destination's parent directories, copy
    /// `source` to `dest`, and report the outcome to `copy_done`.
    Copy { source: String, dest: String },
    /// The destination already held the same file: counted as skipped.
    Skipped,
    /// The copy succeeded: counted as imported.
    Copied,
    /// Every candidate name up to the cap was occupied by a file of a
    /// different size: the run stops with an error.
    TooManyAttempts,
}

/// The copy pipeline, driven as a machine: the caller performs each
/// filesystem operation the machine asks for and hands the answer back.
/// The machine owns every decision: hidden names, extensions, timestamp
/// policy, collision resolution, what counts as imported or skipped.
pub struct Importer {
    /// The scanned files, in discovery order.
    pub queue: Vec<QueuedFile>,
    /// The flat destination directory.
    pub destination: String,
    /// The strftime template for destination names.
    pub template: String,
    /// Index of the current item.
    pub idx: usize,
    /// Files copied in this run.
    pub imported: u32,
    /// Files already present at their primary name with the same size.
    pub skipped: u32,
    /// Where the machine stands inside the current item.
    pub phase: ImportPhase,
    /// Notifications recorded so far, oldest first.
    pub events: Vec<Event>,
    /// True once the run is over, by completion, cancellation or error.
    pub finished: bool,
}

impl Importer {
    /// The machine's unbroken well-formedness.
    pub open spec fn wf(self) -> bool {
        &&& self.idx <= self.queue@.len()
        &&& self.queue@.len() <= 0xffff_ffff
        &&& self.imported + self.skipped <= self.idx
        &&& match self.phase {
            ImportPhase::Ready => true,
            ImportPhase::Resolving { ext } => {
                &&& self.idx < self.queue@.len()
                &&& !self.finished
                &&& ext_of(self.queue.deep_view()[self.idx as int].name) == Some(ext@)
            },
            ImportPhase::Probing { stem, ext, attempt, dest } => {
                &&& self.idx < self.queue@.len()
                &&& !self.finished
                &&& attempt <= MAX_NAME_ATTEMPTS
                &&& dest@ == joined_path_spec(
                    self.destination@,
                    candidate_name_spec(stem@, ext@, attempt as nat),
                )
            },
            ImportPhase::Copying { dest } => {
                &&& self.idx < self.queue@.len()
                &&& !self.finished
            },
        }
    }

    /// The settings and queue never change over a run.
    pub open spec fn same_run(self, o: Importer) -> bool {
        &&& self.queue == o.queue
        &&& self.destination == o.destination
        &&& self.template == o.template
    }

    /// An importer over a scanned queue, with both counters at zero. The
    /// queue's length must fit the progress counters.
    pub fn new(queue: Vec<QueuedFile>, destination: String, template: String) -> (im: Importer)
        requires
            queue@.len() <= 0xffff_ffff,
        ensures
            im.wf(),
            im.queue == queue,
            im.destination == destination,
            im.template == template,
            im.idx == 0,
            im.imported == 0,
            im.skipped == 0,
            im.phase is Ready,
            im.events@ =~= Seq::<Event>::empty(),
            !im.finished,
    {
        Importer {
            queue,
            destination,
            template,
            idx: 0,
            imported: 0,
            skipped: 0,
            phase: ImportPhase::Ready,
            events: Vec::new(),
            finished: false,
        }
    }

    /// Takes up the next item. `cancelled` is the cancellation signal's
    /// answer, polled by the caller just before the call; a set signal
    /// ends the run with the counts as they stand, after the final
    /// full-progress notification, and an unset one never does. Hidden
    /// names and names without an extension are dropped here; anything
    /// else needs its timestamp resolved.
    pub fn step(&mut self, cancelled: bool) -> (r: ImportStep)
        requires
            old(self).wf(),
            old(self).phase is Ready,
            !old(self).finished,
        ensures
            final(self).wf(),
            final(self).same_run(*old(self)),
            final(self).imported == old(self).imported,
            final(self).skipped == old(self).skipped,
            r is Cancelled <==> cancelled,
            match r {
                ImportStep::Cancelled => {
                    &&& final(self).finished
                    &&& final(self).idx == old(self).idx
                    &&& final(self).phase is Ready
                    &&& final(self).events.deep_view() =~= old(self).events.deep_view()
                        + seq![
                        EventModel::Progress {
                            status: Some("Finished"@),
                            value: Some(old(self).queue@.len() as u32),
                            max: old(self).queue@.len() as u32,
                        },
                    ]
                },
                ImportStep::Finished => {
                    &&& old(self).idx == old(self).queue@.len()
                    &&& final(self).finished
                    &&& final(self).idx == old(self).idx
                    &&& final(self).phase is Ready
                    &&& final(self).events.deep_view() =~= old(self).events.deep_view()
                        + seq![
                        EventModel::Progress {
                            status: Some("Finished"@),
                            value: Some(old(self).queue@.len() as u32),
                            max: old(self).queue@.len() as u32,
                        },
                    ]
                },
                ImportStep::Ignored => {
                    &&& old(self).idx < old(self).queue@.len()
                    &&& {
                        let name = old(self).queue.deep_view()[old(self).idx as int].name;
                        is_hidden_name(name) || ext_of(name) is None
                    }
                    &&& final(self).idx == old(self).idx + 1
                    &&& final(self).phase is Ready
                    &&& !final(self).finished
                    &&& final(self).events == old(self).events
                },
                ImportStep::NeedTimestamp { path } => {
                    &&& old(self).idx < old(self).queue@.len()
                    &&& {
                        let item = old(self).queue.deep_view()[old(self).idx as int];
                        &&& !is_hidden_name(item.name)
                        &&& ext_of(item.name) is Some
                        &&& path@ == item.path
                    }
                    &&& final(self).idx == old(self).idx
                    &&& final(self).phase matches ImportPhase::Resolving { ext }
                    &&& !final(self).finished
                    &&& final(self).events == old(self).events
                },
                _ => false,
            },
    {
        if cancelled {
            let len = self.queue.len();
            let max: u32 = len as u32;
            self.events.push(
                Event::Progress(
                    ProgressEventPayload {
                        status: Some(String::from_str("Finished")),
                        progress_value: Some(max),
                        progress_max: max,
                    },
                ),
            );
            self.finished = true;
            return ImportStep::Cancelled;
        }
        if self.idx == self.queue.len() {
            let len = self.queue.len();
            let max: u32 = len as u32;
            self.events.push(
                Event::Progress(
                    ProgressEventPayload {
                        status: Some(String::from_str("Finished")),
                        progress_value: Some(max),
                        progress_max: max,
                    },
                ),
            );
            self.finished = true;
            return ImportStep::Finished;
        }
        let name_is_hidden = is_hidden(self.queue[self.idx].name.as_str());
        if name_is_hidden {
            self.idx = self.idx + 1;
            return ImportStep::Ignored;
        }
        match extension_of(self.queue[self.idx].name.as_str()) {
            Some(ext) => {
                let path = String::from_str(self.queue[self.idx].path.as_str());
                self.phase = ImportPhase::Resolving { ext };
                ImportStep::NeedTimestamp { path }
            },
            None => {
                self.idx = self.idx + 1;
                ImportStep::Ignored
            },
        }
    }

    /// Consumes what the caller read for the current item: the file's
    /// bytes (or nothing if unreadable) and its filesystem instants. The
    /// item is dropped when no timestamp can be resolved or the template
    /// does not format; otherwise the primary destination name is up for
    /// its existence check. With no embedded timestamp but both instants
    /// readable and inside the calendar bound, the item always proceeds
    /// unless the template fails to format.
    pub fn resolve(
        &mut self,
        contents: &Option<Vec<u8>>,
        created: Option<FsTime>,
        modified: Option<FsTime>,
    ) -> (r: ImportStep)
        requires
            old(self).wf(),
            old(self).phase matches ImportPhase::Resolving { ext },
        ensures
            final(self).wf(),
            final(self).same_run(*old(self)),
            final(self).imported == old(self).imported,
            final(self).skipped == old(self).skipped,
            final(self).events == old(self).events,
            !final(self).finished,
            match r {
                ImportStep::Ignored => {
                    &&& final(self).idx == old(self).idx + 1
                    &&& final(self).phase is Ready
                },
                ImportStep::CheckDest { dest } => {
                    &&& final(self).idx == old(self).idx
                    &&& final(self).phase matches ImportPhase::Probing {
                        stem,
                        ext,
                        attempt,
                        dest: d,
                    }
                    &&& {
                        let ph = final(self).phase;
                        let stem = ph->Probing_stem;
                        let ext = ph->Probing_ext;
                        let attempt = ph->Probing_attempt;
                        let d = ph->Probing_dest;
                        &&& attempt == 0
                        &&& d@ == dest@
                        &&& old(self).phase->Resolving_ext@ == ext@
                        &&& (exists|t: Timestamp|
                            #[trigger] t.valid() && strftime_of(t, old(self).template@) == Some(
                                stem@,
                            ))
                    }
                },
                _ => false,
            },
            exif_part(contents.deep_view()) matches Some(t) ==> (match strftime_of(
                t,
                old(self).template@,
            ) {
                Some(stem) => r matches ImportStep::CheckDest { dest }
                    && final(self).phase->Probing_stem@ == stem,
                None => r is Ignored,
            }),
            exif_part(contents.deep_view()) is None && (created is None || modified is None)
                ==> r is Ignored,
            ({
                &&& exif_part(contents.deep_view()) is None
                &&& created matches Some(c)
                &&& modified matches Some(m)
                &&& fs_time_in_range(fallback_instant(c, m))
            }) ==> (exists|t: Timestamp|
                #[trigger] t.valid() && (match strftime_of(t, old(self).template@) {
                    Some(stem) => r matches ImportStep::CheckDest { dest }
                        && final(self).phase->Probing_stem@ == stem,
                    None => r is Ignored,
                })),
            ({
                &&& exif_part(contents.deep_view()) is None
                &&& created matches Some(c)
                &&& modified matches Some(m)
                &&& !fs_time_in_range(fallback_instant(c, m))
            }) ==> r is Ignored,
    {
        let ext = match &self.phase {
            ImportPhase::Resolving { ext } => String::from_str(ext.as_str()),
            _ => {
                proof {
                    assert(false);
                }
                String::new()
            },
        };
        let resolved = resolve_timestamp(contents, created, modified);
        match resolved {
            None => {
                self.idx = self.idx + 1;
                self.phase = ImportPhase::Ready;
                ImportStep::Ignored
            },
            Some(t) => {
                match strftime(&t, self.template.as_str()) {
                    None => {
                        self.idx = self.idx + 1;
                        self.phase = ImportPhase::Ready;
                        ImportStep::Ignored
                    },
                    Some(stem) => {
                        let cand = candidate_name(stem.as_str(), ext.as_str(), 0);
                        let dest = join_path(self.destination.as_str(), cand.as_str());
                        let dest2 = String::from_str(dest.as_str());
                        self.phase = ImportPhase::Probing { stem, ext, attempt: 0, dest };
                        ImportStep::CheckDest { dest: dest2 }
                    },
                }
            },
        }
    }

    /// Consumes the existence check for the current candidate name. A
    /// free name is copied to; the primary name occupied by a same-size
    /// file means the item was already imported; any other occupied name
    /// sends the probe to the next suffix, up to the cap.
    pub fn dest_checked(&mut self, dest_exists: bool, same_size: bool) -> (r: ImportStep)
        requires
            old(self).wf(),
            old(self).phase matches ImportPhase::Probing { stem, ext, attempt, dest },
        ensures
            final(self).wf(),
            final(self).same_run(*old(self)),
            final(self).imported == old(self).imported,
            ({
                let ph = old(self).phase;
                let stem = ph->Probing_stem;
                let ext = ph->Probing_ext;
                let attempt = ph->Probing_attempt;
                let dest = ph->Probing_dest;
                let item = old(self).queue.deep_view()[old(self).idx as int];
                match r {
                    ImportStep::Copy { source, dest: d } => {
                        &&& !dest_exists
                        &&& source@ == item.path
                        &&& d@ == dest@
                        &&& final(self).phase matches ImportPhase::Copying { dest: pd } && pd@
                            == dest@
                        &&& final(self).idx == old(self).idx
                        &&& final(self).skipped == old(self).skipped
                        &&& !final(self).finished
                        &&& final(self).events.deep_view() =~= old(self).events.deep_view()
                            + seq![
                            EventModel::Progress {
                                status: Some(copying_msg(item.path, dest@)),
                                value: Some(old(self).idx as u32),
                                max: old(self).queue@.len() as u32,
                            },
                        ]
                    },
                    ImportStep::Skipped => {
                        &&& dest_exists
                        &&& same_size
                        &&& attempt == 0
                        &&& final(self).skipped == old(self).skipped + 1
                        &&& final(self).idx == old(self).idx + 1
                        &&& final(self).phase is Ready
                        &&& !final(self).finished
                        &&& final(self).events.deep_view() =~= old(self).events.deep_view()
                            + seq![EventModel::Log(skipping_msg(dest@))]
                    },
                    ImportStep::CheckDest { dest: nd } => {
                        &&& dest_exists
                        &&& !(same_size && attempt == 0)
                        &&& attempt < MAX_NAME_ATTEMPTS
                        &&& final(self).phase matches ImportPhase::Probing {
                            stem: s2,
                            ext: e2,
                            attempt: a2,
                            dest: d2,
                        }
                        &&& final(self).phase->Probing_stem@ == stem@
                        &&& final(self).phase->Probing_ext@ == ext@
                        &&& final(self).phase->Probing_attempt == attempt + 1
                        &&& final(self).phase->Probing_dest@ == nd@
                        &&& nd@ == joined_path_spec(
                            old(self).destination@,
                            candidate_name_spec(stem@, ext@, (attempt + 1) as nat),
                        )
                        &&& final(self).idx == old(self).idx
                        &&& final(self).skipped == old(self).skipped
                        &&& !final(self).finished
                        &&& final(self).events == old(self).events
                    },
                    ImportStep::TooManyAttempts => {
                        &&& dest_exists
                        &&& !(same_size && attempt == 0)
                        &&& attempt == MAX_NAME_ATTEMPTS
                        &&& final(self).finished
                        &&& final(self).phase is Ready
                        &&& final(self).idx == old(self).idx
                        &&& final(self).skipped == old(self).skipped
                        &&& final(self).events == old(self).events
                    },
                    _ => false,
                }
            }),
    {
        let (stem, ext, attempt, dest) = match &self.phase {
            ImportPhase::Probing { stem, ext, attempt, dest } => (
                String::from_str(stem.as_str()),
                String::from_str(ext.as_str()),
                *attempt,
                String::from_str(dest.as_str()),
            ),
            _ => {
                proof {
                    assert(false);
                }
                (String::new(), String::new(), 0u64, String::new())
            },
        };
        if !dest_exists {
            let source = String::from_str(self.queue[self.idx].path.as_str());
            let msg = msg_copying(source.as_str(), dest.as_str());
            let value: u32 = self.idx as u32;
            let max: u32 = self.queue.len() as u32;
            self.events.push(
                Event::Progress(
                    ProgressEventPayload {
                        status: Some(msg),
                        progress_value: Some(value),
                        progress_max: max,
                    },
                ),
            );
            let dest2 = String::from_str(dest.as_str());
            self.phase = ImportPhase::Copying { dest };
            return ImportStep::Copy { source, dest: dest2 };
        }
        if same_size && attempt == 0 {
            let msg = msg_skipping(dest.as_str());
            self.events.push(Event::Log(msg));
            self.skipped = self.skipped + 1;
            self.idx = self.idx + 1;
            self.phase = ImportPhase::Ready;
            return ImportStep::Skipped;
        }
        if attempt == MAX_NAME_ATTEMPTS {
            self.finished = true;
            self.phase = ImportPhase::Ready;
            return ImportStep::TooManyAttempts;
        }
        let next = attempt + 1;
        let cand = candidate_name(stem.as_str(), ext.as_str(), next);
        let nd = join_path(self.destination.as_str(), cand.as_str());
        let nd2 = String::from_str(nd.as_str());
        self.phase = ImportPhase::Probing { stem, ext, attempt: next, dest: nd };
        ImportStep::CheckDest { dest: nd2 }
    }

    /// Consumes the copy's outcome: success counts the item as imported
    /// and records the log line; failure drops the item silently, as one
    /// bad file must never abort the run.
    pub fn copy_done(&mut self, ok: bool) -> (r: ImportStep)
        requires
            old(self).wf(),
            old(self).phase matches ImportPhase::Copying { dest },
        ensures
            final(self).wf(),
            final(self).same_run(*old(self)),
            final(self).skipped == old(self).skipped,
            final(self).idx == old(self).idx + 1,
            final(self).phase is Ready,
            !final(self).finished,
            ({
                let dest = old(self).phase->Copying_dest;
                let item = old(self).queue.deep_view()[old(self).idx as int];
                match r {
                    ImportStep::Copied => {
                        &&& ok
                        &&& final(self).imported == old(self).imported + 1
                        &&& final(self).events.deep_view() =~= old(self).events.deep_view()
                            + seq![EventModel::Log(copied_msg(item.path, dest@))]
                    },
                    ImportStep::Ignored => {
                        &&& !ok
                        &&& final(self).imported == old(self).imported
                        &&& final(self).events == old(self).events
                    },
                    _ => false,
                }
            }),
    {
        let dest = match &self.phase {
            ImportPhase::Copying { dest } => String::from_str(dest.as_str()),
            _ => {
                proof {
                    assert(false);
                }
                String::new()
            },
        };
        self.phase = ImportPhase::Ready;
        self.idx = self.idx + 1;
        if ok {
            let msg = msg_copied(self.queue[self.idx - 1].path.as_str(), dest.as_str());
            self.events.push(Event::Log(msg));
            self.imported = self.imported + 1;
            ImportStep::Copied
        } else {
            ImportStep::Ignored
        }
    }

    /// The run's counts so far: files imported, files skipped.
    pub fn counts(&self) -> (r: (u32, u32))
        ensures
            r.0 == self.imported,
            r.1 == self.skipped,
    {
        (self.imported, self.skipped)
    }

    /// Hands the recorded notifications over and clears the record.
    pub fn take_events(&mut self) -> (r: Vec<Event>)
        ensures
            r == old(self).events,
            final(self).events@ =~= Seq::<Event>::empty(),
            final(self).same_run(*old(self)),
            final(self).idx == old(self).idx,
            final(self).imported == old(self).imported,
            final(self).skipped == old(self).skipped,
            final(self).phase == old(self).phase,
            final(self).finished == old(self).finished,
    {
        let mut out: Vec<Event> = Vec::new();
        core::mem::swap(&mut out, &mut self.events);
        out
    }
}

} // verus!
