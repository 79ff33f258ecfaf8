//! Properties of whole runs, stated over the item pipeline and the run state, and proved.
use crate::integrity::md5_hex_of;
use crate::pipeline::{
    alternate_name, answers, expected_name, finish, item_step, settle, start_of,
    Act, Ev, ItemConfig, ItemOutcome, ItemStage,
};
use crate::post::Post;
use crate::queue::{recorded, run_next, RunAction, RunState, Tally};
use vstd::prelude::*;

verus! {

/// The tally of a run whose posts ended with these outcomes, in this order.
pub open spec fn tally_of(outcomes: Seq<ItemOutcome>) -> Tally
    decreases outcomes.len(),
{
    if outcomes.len() == 0 {
        Tally { skipped: 0, recovered: 0, downloaded: 0, failed: 0 }
    } else {
        recorded(tally_of(outcomes.drop_last()), outcomes.last())
    }
}

/// Whether the work on a post is past its request: nothing it does from here on is a
/// request.
pub open spec fn past_request(stage: ItemStage) -> bool {
    match stage {
        ItemStage::Streaming | ItemStage::Buffering | ItemStage::Appending => true,
        ItemStage::Captioning(_) | ItemStage::Done(_) => true,
        _ => false,
    }
}

/// A file under the other naming convention whose digest is the post's own is renamed to
/// the expected name; the post is not fetched, and it counts as completed.
pub proof fn lemma_recovery_by_rename(post: Post, cfg: ItemConfig, contents: Seq<u8>, t: Tally)
    requires
        cfg.format is Folder,
        md5_hex_of(contents) == post.md5@,
        t.recovered < u64::MAX,
    ensures
        start_of(post, cfg) == (ItemStage::ProbingExpected, Act::Probe(expected_name(post, cfg))),
        item_step(post, cfg, ItemStage::ProbingExpected, Ev::Exists(false)) == (
            ItemStage::ProbingAlternate,
            Act::Probe(alternate_name(post, cfg)),
        ),
        item_step(post, cfg, ItemStage::ProbingAlternate, Ev::Exists(true)) == (
            ItemStage::ReadingAlternate,
            Act::Read(alternate_name(post, cfg)),
        ),
        item_step(post, cfg, ItemStage::ReadingAlternate, Ev::Contents(contents)) == (
            ItemStage::Renaming,
            Act::Rename(alternate_name(post, cfg), expected_name(post, cfg)),
        ),
        item_step(post, cfg, ItemStage::Renaming, Ev::Completed) == settle(
            post,
            cfg,
            ItemOutcome::Recovered,
        ),
        forall|ev: Ev|
            #![trigger item_step(post, cfg, ItemStage::Captioning(ItemOutcome::Recovered), ev)]
            item_step(post, cfg, ItemStage::Captioning(ItemOutcome::Recovered), ev) == finish(
                ItemOutcome::Recovered,
            ),
        settle(post, cfg, ItemOutcome::Recovered).1 is WriteFile || settle(
            post,
            cfg,
            ItemOutcome::Recovered,
        ).1 == Act::Finish(ItemOutcome::Recovered),
        recorded(t, ItemOutcome::Recovered).total() == t.total() + 1,
        recorded(t, ItemOutcome::Recovered).downloaded == t.downloaded,
{
}

/// A file under the other naming convention whose digest is not the post's is deleted, and
/// the post is then requested; once requested, it is never requested again.
pub proof fn lemma_stale_file_refetched_once(post: Post, cfg: ItemConfig, contents: Seq<u8>)
    requires
        cfg.format is Folder,
        md5_hex_of(contents) != post.md5@,
    ensures
        item_step(post, cfg, ItemStage::ReadingAlternate, Ev::Contents(contents)) == (
            ItemStage::Removing,
            Act::Remove(alternate_name(post, cfg)),
        ),
        item_step(post, cfg, ItemStage::Removing, Ev::Completed) == (
            ItemStage::Requesting,
            Act::Request(post.url@),
        ),
        forall|s: ItemStage, ev: Ev|
            (s == ItemStage::Requesting || past_request(s)) && answers(s, ev) ==> {
                &&& past_request(#[trigger] item_step(post, cfg, s, ev).0)
                &&& !(item_step(post, cfg, s, ev).1 is Request)
            },
{
}

/// A run never has more item pipelines in flight than its limit, and admits a post only
/// while a slot is free.
pub proof fn lemma_in_flight_bounded(s: RunState)
    requires
        s.wf(),
    ensures
        s.in_flight <= s.limit,
        run_next(s) is Admit ==> s.in_flight < s.limit,
{
}

/// The archive of a run is finalized exactly when the run ends successfully: a run that
/// completes has finalized it, a run that aborts has not, and once it is finalized the run
/// completes.
pub proof fn lemma_archive_final_iff_success(s: RunState)
    requires
        s.wf(),
        s.format.spec_download_cbz(),
    ensures
        run_next(s) is Complete ==> s.archive_finished,
        run_next(s) is Abort ==> !s.archive_finished,
        s.archive_finished ==> run_next(s) is Complete,
{
}

/// When a run completes, its count is every post admitted from the input, and every one of
/// them was skipped, recovered, downloaded or failed.
pub proof fn lemma_completed_count(s: RunState)
    requires
        s.wf(),
        run_next(s) is Complete,
    ensures
        run_next(s) == RunAction::Complete(s.admitted),
        s.tally.skipped + s.tally.recovered + s.tally.downloaded + s.tally.failed == s.admitted,
        s.in_flight == 0,
        s.input_done,
{
}

} // verus!
