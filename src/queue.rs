//! The orchestrator of a run: output preparation, bounded admission of posts, progress
//! tallies, and the final commit of the archive.
//!
//! `RunState` decides; its caller performs. `next_action` says what to do, and one of the
//! `on_*` methods reports what came of it.
use crate::board::ImageBoards;
use crate::error::QueueError;
use crate::pipeline::{ItemConfig, ItemOutcome};
use crate::post::{NameType, Post};
use crate::sink::DownloadFormat;
use vstd::multiset::Multiset;
use vstd::prelude::*;

verus! {

/// How many admitted posts ended each way.
#[derive(Clone, Copy, Debug, PartialEq, Eq, Structural)]
pub struct Tally {
    /// Already at the expected path.
    pub skipped: u64,
    /// Renamed from the other naming convention.
    pub recovered: u64,
    /// Freshly fetched.
    pub downloaded: u64,
    /// Given up on their own (remote error, broken stream, file error).
    pub failed: u64,
}

impl Tally {
    /// Every post that is done, whatever its outcome.
    pub open spec fn total(self) -> int {
        self.skipped + self.recovered + self.downloaded + self.failed
    }

    pub fn new() -> (r: Tally)
        ensures
            r.total() == 0,
            r.downloaded == 0,
    {
        Tally { skipped: 0, recovered: 0, downloaded: 0, failed: 0 }
    }

    /// Every post that is done, whatever its outcome.
    pub fn completed(&self) -> (r: u64)
        requires
            self.total() <= u64::MAX,
        ensures
            r == self.total(),
    {
        self.skipped + self.recovered + self.downloaded + self.failed
    }
}

/// The tally after one more post ended with `o`.
pub open spec fn recorded(t: Tally, o: ItemOutcome) -> Tally {
    match o {
        ItemOutcome::Skipped => Tally { skipped: (t.skipped + 1) as u64, ..t },
        ItemOutcome::Recovered => Tally { recovered: (t.recovered + 1) as u64, ..t },
        ItemOutcome::Downloaded => Tally { downloaded: (t.downloaded + 1) as u64, ..t },
        _ => Tally { failed: (t.failed + 1) as u64, ..t },
    }
}

/// Where a run stands.
#[derive(Clone, Copy, Debug, PartialEq, Eq, Structural)]
pub enum RunPhase {
    /// The output location is being created.
    CreatingOutput,
    /// The archive file is being created and laid out.
    OpeningArchive,
    /// Posts are admitted and processed.
    Draining,
    /// A fatal error ended the run.
    Aborted,
}

/// The next thing to do for a run.
#[derive(Clone, Copy, Debug, PartialEq, Eq, Structural)]
pub enum RunAction {
    /// Create the output directory, recursively; for an archive, only the directory that
    /// will hold it.
    CreateOutput { parent_only: bool },
    /// Create the archive file and add, in order, the directories of
    /// `crate::sink::archive_directories`.
    OpenArchive,
    /// Take the next post from the input and start its pipeline.
    Admit,
    /// Wait until one of the pipelines in flight finishes.
    AwaitItem,
    /// Finalize the archive.
    FinishArchive,
    /// The run is over; this many posts were processed.
    Complete(u64),
    /// The run failed; its error is in `error`.
    Abort,
}

/// The state of a run.
#[derive(Debug)]
pub struct RunState {
    /// How many item pipelines may be in flight at once.
    pub limit: u64,
    pub format: DownloadFormat,
    pub phase: RunPhase,
    pub in_flight: u64,
    /// Posts taken from the input so far.
    pub admitted: u64,
    /// Whether the input is exhausted.
    pub input_done: bool,
    /// Whether the archive was finalized.
    pub archive_finished: bool,
    pub tally: Tally,
    pub error: Option<QueueError>,
}

/// What a run does next, from its state.
pub open spec fn run_next(s: RunState) -> RunAction {
    match s.phase {
        RunPhase::CreatingOutput => RunAction::CreateOutput {
            parent_only: s.format.spec_download_cbz(),
        },
        RunPhase::OpeningArchive => RunAction::OpenArchive,
        RunPhase::Aborted => RunAction::Abort,
        RunPhase::Draining => if !s.input_done && s.in_flight < s.limit {
            RunAction::Admit
        } else if s.in_flight > 0 {
            RunAction::AwaitItem
        } else if s.format.spec_download_cbz() && !s.archive_finished {
            RunAction::FinishArchive
        } else {
            RunAction::Complete(s.admitted)
        },
    }
}

impl RunState {
    /// The invariant of a run.
    pub open spec fn wf(&self) -> bool {
        &&& self.limit >= 1
        &&& self.in_flight <= self.limit
        &&& self.tally.total() + self.in_flight == self.admitted
        &&& (self.phase is Aborted <==> self.error is Some)
        &&& self.archive_finished ==> {
            &&& self.format.spec_download_cbz()
            &&& self.phase is Draining
            &&& self.input_done
            &&& self.in_flight == 0
        }
        &&& (self.phase is CreatingOutput || self.phase is OpeningArchive) ==> {
            &&& self.admitted == 0
            &&& !self.input_done
        }
        &&& self.phase is OpeningArchive ==> self.format.spec_download_cbz()
    }

    /// A run that admits at most `limit` posts at once and stores them as `format` says.
    pub fn new(limit: u8, format: DownloadFormat) -> (r: RunState)
        requires
            limit >= 1,
        ensures
            r.wf(),
            r.limit == limit,
            r.format == format,
            r.phase is CreatingOutput,
            r.admitted == 0,
            r.tally.total() == 0,
            r.tally.downloaded == 0,
    {
        RunState {
            limit: limit as u64,
            format,
            phase: RunPhase::CreatingOutput,
            in_flight: 0,
            admitted: 0,
            input_done: false,
            archive_finished: false,
            tally: Tally::new(),
            error: None,
        }
    }

    /// What to do next.
    pub fn next_action(&self) -> (r: RunAction)
        requires
            self.wf(),
        ensures
            r == run_next(*self),
    {
        match self.phase {
            RunPhase::CreatingOutput => RunAction::CreateOutput {
                parent_only: self.format.download_cbz(),
            },
            RunPhase::OpeningArchive => RunAction::OpenArchive,
            RunPhase::Aborted => RunAction::Abort,
            RunPhase::Draining => {
                if !self.input_done && self.in_flight < self.limit {
                    RunAction::Admit
                } else if self.in_flight > 0 {
                    RunAction::AwaitItem
                } else if self.format.download_cbz() && !self.archive_finished {
                    RunAction::FinishArchive
                } else {
                    RunAction::Complete(self.admitted)
                }
            },
        }
    }

    fn abort(&mut self, error: QueueError)
        requires
            old(self).wf(),
            !old(self).archive_finished,
        ensures
            final(self).wf(),
            final(self).phase is Aborted,
            final(self).error == Some(error),
            final(self).admitted == old(self).admitted,
            final(self).tally == old(self).tally,
            final(self).in_flight == old(self).in_flight,
            final(self).archive_finished == old(self).archive_finished,
            final(self).input_done == old(self).input_done,
            final(self).limit == old(self).limit,
            final(self).format == old(self).format,
    {
        self.phase = RunPhase::Aborted;
        self.error = Some(error);
    }

    /// Reports whether the output location could be created.
    pub fn on_output_created(&mut self, result: Result<(), QueueError>)
        requires
            old(self).wf(),
            old(self).phase is CreatingOutput,
        ensures
            final(self).wf(),
            final(self).limit == old(self).limit,
            final(self).format == old(self).format,
            final(self).admitted == 0,
            final(self).in_flight == old(self).in_flight,
            final(self).input_done == old(self).input_done,
            final(self).archive_finished == old(self).archive_finished,
            final(self).tally == old(self).tally,
            result is Ok ==> final(self).phase == (if old(self).format.spec_download_cbz() {
                RunPhase::OpeningArchive
            } else {
                RunPhase::Draining
            }),
            result is Err ==> final(self).phase is Aborted && final(self).error == Some(
                result->Err_0,
            ),
    {
        match result {
            Ok(()) => {
                if self.format.download_cbz() {
                    self.phase = RunPhase::OpeningArchive;
                } else {
                    self.phase = RunPhase::Draining;
                }
            },
            Err(e) => self.abort(e),
        }
    }

    /// Reports whether the archive could be created and laid out.
    pub fn on_archive_opened(&mut self, result: Result<(), QueueError>)
        requires
            old(self).wf(),
            old(self).phase is OpeningArchive,
        ensures
            final(self).wf(),
            final(self).limit == old(self).limit,
            final(self).format == old(self).format,
            final(self).admitted == 0,
            final(self).in_flight == old(self).in_flight,
            final(self).input_done == old(self).input_done,
            final(self).archive_finished == old(self).archive_finished,
            final(self).tally == old(self).tally,
            result is Ok ==> final(self).phase is Draining,
            result is Err ==> final(self).phase is Aborted && final(self).error == Some(
                result->Err_0,
            ),
    {
        match result {
            Ok(()) => self.phase = RunPhase::Draining,
            Err(e) => self.abort(e),
        }
    }

    /// Reports that a post was taken from the input and its pipeline started.
    pub fn on_admitted(&mut self)
        requires
            old(self).wf(),
            run_next(*old(self)) is Admit,
            old(self).admitted < u64::MAX,
        ensures
            final(self).wf(),
            final(self).phase == old(self).phase,
            final(self).limit == old(self).limit,
            final(self).format == old(self).format,
            final(self).tally == old(self).tally,
            final(self).input_done == old(self).input_done,
            final(self).in_flight == old(self).in_flight + 1,
            final(self).admitted == old(self).admitted + 1,
    {
        self.in_flight = self.in_flight + 1;
        self.admitted = self.admitted + 1;
    }

    /// Reports that the input has no more posts.
    pub fn on_input_exhausted(&mut self)
        requires
            old(self).wf(),
            old(self).phase is Draining,
        ensures
            final(self).wf(),
            final(self).input_done,
            final(self).phase == old(self).phase,
            final(self).limit == old(self).limit,
            final(self).format == old(self).format,
            final(self).tally == old(self).tally,
            final(self).in_flight == old(self).in_flight,
            final(self).admitted == old(self).admitted,
            final(self).archive_finished == old(self).archive_finished,
    {
        self.input_done = true;
    }

    /// Reports how the pipeline of one post ended, with the message of its last failure. A
    /// fatal outcome aborts the run with an archive write error that carries `detail`; any
    /// other outcome is tallied.
    pub fn on_item_finished(&mut self, outcome: ItemOutcome, detail: String)
        requires
            old(self).wf(),
            old(self).phase is Draining,
            old(self).in_flight > 0,
        ensures
            final(self).wf(),
            final(self).limit == old(self).limit,
            final(self).format == old(self).format,
            final(self).admitted == old(self).admitted,
            final(self).input_done == old(self).input_done,
            outcome.spec_is_fatal() ==> final(self).phase is Aborted && final(self).error == Some(
                QueueError::ZipFileWriteError { message: detail },
            ) && final(self).tally == old(self).tally,
            !outcome.spec_is_fatal() ==> final(self).phase is Draining && final(self).tally
                == recorded(old(self).tally, outcome) && final(self).in_flight == old(
                self,
            ).in_flight - 1 && final(self).error is None,
            final(self).archive_finished == old(self).archive_finished,
    {
        if outcome.is_fatal() {
            self.abort(QueueError::ZipFileWriteError { message: detail });
        } else {
            self.in_flight = self.in_flight - 1;
            match outcome {
                ItemOutcome::Skipped => self.tally.skipped = self.tally.skipped + 1,
                ItemOutcome::Recovered => self.tally.recovered = self.tally.recovered + 1,
                ItemOutcome::Downloaded => self.tally.downloaded = self.tally.downloaded + 1,
                _ => self.tally.failed = self.tally.failed + 1,
            }
        }
    }

    /// Reports whether the archive could be finalized.
    pub fn on_archive_finished(&mut self, result: Result<(), QueueError>)
        requires
            old(self).wf(),
            run_next(*old(self)) is FinishArchive,
        ensures
            final(self).wf(),
            final(self).limit == old(self).limit,
            final(self).format == old(self).format,
            final(self).admitted == old(self).admitted,
            final(self).tally == old(self).tally,
            result is Ok ==> final(self).archive_finished && final(self).phase is Draining,
            result is Err ==> !final(self).archive_finished && final(self).phase is Aborted
                && final(self).error == Some(result->Err_0),
    {
        match result {
            Ok(()) => self.archive_finished = true,
            Err(e) => self.abort(e),
        }
    }

    /// The result of a run that is over: the number of posts processed, or the error that
    /// ended it.
    pub fn into_result(self) -> (r: Result<u64, QueueError>)
        requires
            self.wf(),
            run_next(self) is Complete || run_next(self) is Abort,
        ensures
            run_next(self) is Complete ==> r == Ok::<u64, QueueError>(self.admitted),
            run_next(self) is Abort ==> r == Err::<u64, QueueError>(self.error->Some_0),
    {
        match self.error {
            Some(e) => Err(e),
            None => Ok(self.admitted),
        }
    }
}

/// The settings of a download run.
#[derive(Clone, Copy, Debug)]
pub struct Queue {
    pub imageboard: ImageBoards,
    /// How many posts may be processed at once.
    pub sim_downloads: u8,
    pub download_fmt: DownloadFormat,
    pub name_type: NameType,
    /// Whether to write a caption beside each post.
    pub annotate: bool,
}

impl Queue {
    /// Sets up a run. `save_as_cbz` stores everything in one archive; with
    /// `pool_download` as well, its entries are flat.
    pub fn new(
        imageboard: ImageBoards,
        sim_downloads: u8,
        save_as_cbz: bool,
        pool_download: bool,
        name_type: NameType,
        annotate: bool,
    ) -> (r: Queue)
        ensures
            r.imageboard == imageboard,
            r.sim_downloads == sim_downloads,
            r.download_fmt.spec_download_cbz() == save_as_cbz,
            r.download_fmt.spec_download_pool_cbz() == (save_as_cbz && pool_download),
            r.name_type == name_type,
            r.annotate == annotate,
    {
        Queue {
            imageboard,
            sim_downloads,
            download_fmt: DownloadFormat::from_flags(save_as_cbz, pool_download),
            name_type,
            annotate,
        }
    }

    /// What every post of the run shares.
    pub fn item_config(&self) -> (r: ItemConfig)
        ensures
            r == (ItemConfig {
                format: self.download_fmt,
                name_type: self.name_type,
                annotate: self.annotate,
            }),
    {
        ItemConfig { format: self.download_fmt, name_type: self.name_type, annotate: self.annotate }
    }

    /// A fresh run with these settings.
    pub fn start_run(&self) -> (r: RunState)
        requires
            self.sim_downloads >= 1,
        ensures
            r.wf(),
            r.limit == self.sim_downloads,
            r.format == self.download_fmt,
            r.phase is CreatingOutput,
            r.admitted == 0,
            r.tally.total() == 0,
    {
        RunState::new(self.sim_downloads, self.download_fmt)
    }
}

/// Whether posts are ordered by identifier, newest (largest) first.
pub open spec fn newest_first(s: Seq<Post>) -> bool {
    forall|i: int, k: int| 0 <= i < k < s.len() ==> (#[trigger] s[i]).id >= (#[trigger] s[k]).id
}

/// The posts a run keeps: the first `limit` of them, when there are more.
pub open spec fn within_limit(posts: Seq<Post>, limit: Option<usize>) -> Seq<Post> {
    match limit {
        Some(max) => if max < posts.len() {
            posts.subrange(0, max as int)
        } else {
            posts
        },
        None => posts,
    }
}

/// The list a run downloads: the first `limit` posts found, newest first.
pub fn prepare_list(posts: Vec<Post>, limit: Option<usize>) -> (r: Vec<Post>)
    ensures
        r@.to_multiset() == within_limit(posts@, limit).to_multiset(),
        newest_first(r@),
{
    broadcast use vstd::multiset::group_multiset_axioms;

    let mut rest = posts;
    if let Some(max) = limit {
        rest.truncate(max);
    }
    let ghost kept = rest@;
    assert(kept == within_limit(posts@, limit));
    let mut out: Vec<Post> = Vec::new();
    proof {
        vstd::seq_lib::to_multiset_len(out@);
        vstd::multiset::lemma_multiset_empty_len(out@.to_multiset());
    }
    assert(rest@.to_multiset() =~= out@.to_multiset().add(rest@.to_multiset()));
    while rest.len() > 0
        invariant
            out@.to_multiset().add(rest@.to_multiset()) == kept.to_multiset(),
            newest_first(out@),
        decreases rest@.len(),
    {
        let ghost rest_before = rest@;
        let p = rest.pop().unwrap();
        assert(rest_before =~= rest@.push(p));
        let mut j: usize = 0;
        while j < out.len() && out[j].id >= p.id
            invariant
                j <= out@.len(),
                newest_first(out@),
                forall|i: int| 0 <= i < j ==> (#[trigger] out@[i]).id >= p.id,
            decreases out@.len() - j,
        {
            j = j + 1;
        }
        let ghost out_before = out@;
        out.insert(j, p);
        assert(out@ == out_before.insert(j as int, p));
        proof {
            vstd::seq_lib::to_multiset_insert(out_before, j as int, p);
            vstd::seq_lib::to_multiset_build(rest@, p);
        }
        assert(rest_before.to_multiset() == rest@.to_multiset().insert(p));
        assert(out@.to_multiset().add(rest@.to_multiset()) =~= out_before.to_multiset().add(
            rest_before.to_multiset(),
        ));
        assert forall|i: int, k: int| 0 <= i < k < out@.len() implies (#[trigger] out@[i]).id
            >= (#[trigger] out@[k]).id by {
            if j < out_before.len() {
                assert(out_before[j as int].id < p.id);
            }
            if i < j && k == j {
            } else if i < j && k > j {
                assert(out@[k] == out_before[k - 1]);
            } else if i == j {
                assert(out@[k] == out_before[k - 1]);
                assert(out_before[j as int].id >= out_before[k - 1].id || k - 1 == j);
            } else if i > j {
                assert(out@[i] == out_before[i - 1]);
                assert(out@[k] == out_before[k - 1]);
            }
        }
    }
    proof {
        vstd::seq_lib::to_multiset_len(rest@);
        vstd::multiset::lemma_multiset_empty_len(rest@.to_multiset());
    }
    assert(rest@.to_multiset() =~= Multiset::empty());
    assert(out@.to_multiset().add(rest@.to_multiset()) =~= out@.to_multiset());
    out
}

} // verus!
