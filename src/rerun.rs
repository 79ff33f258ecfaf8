//! A model of folder runs against a directory and a remote, and the proof that running the
//! same posts twice changes nothing the second time.
//!
//! The directory is a map from file names to contents; the remote gives a status and a body
//! for each URL. The model performs the actions of each post's pipeline one after another.
use crate::laws::tally_of;
use crate::integrity::md5_hex_of;
use crate::pipeline::{
    alternate_name, expected_name, is_client_error, item_step, start_of, Act, Ev, ItemConfig,
    ItemOutcome, ItemStage,
};
use crate::post::{caption_of, Post};
use crate::queue::recorded;
use crate::sink::caption_name_of;
use vstd::prelude::*;

verus! {

/// What the directory and the remote make of an action: the event, the directory after
/// it, and the body of the last response.
pub open spec fn folder_answer(
    act: Act,
    dir: Map<Seq<char>, Seq<u8>>,
    body: Seq<u8>,
    remote: spec_fn(Seq<char>) -> (u16, Seq<u8>),
) -> (Ev, Map<Seq<char>, Seq<u8>>, Seq<u8>) {
    match act {
        Act::Probe(n) => (Ev::Exists(dir.dom().contains(n)), dir, body),
        Act::Read(n) => (Ev::Contents(dir[n]), dir, body),
        Act::Rename(from, to) => (Ev::Completed, dir.remove(from).insert(to, dir[from]), body),
        Act::Remove(n) => (Ev::Completed, dir.remove(n), body),
        Act::Request(url) => (Ev::Status(remote(url).0), dir, remote(url).1),
        Act::StreamToFile(n) => (
            Ev::Completed,
            dir.insert(
                n,
                (if dir.dom().contains(n) {
                    dir[n]
                } else {
                    Seq::empty()
                }) + body,
            ),
            body,
        ),
        Act::BufferBody => (Ev::Body(body), dir, body),
        Act::WriteFile(n, data) => (Ev::Completed, dir.insert(n, data), body),
        Act::Append(_) => (Ev::Completed, dir, body),
        Act::Finish(_) => (Ev::Failed, dir, body),
    }
}

/// Performs the actions of a pipeline, at most `fuel` of them, until it finishes.
pub open spec fn drive(
    post: Post,
    cfg: ItemConfig,
    stage: ItemStage,
    act: Act,
    dir: Map<Seq<char>, Seq<u8>>,
    body: Seq<u8>,
    remote: spec_fn(Seq<char>) -> (u16, Seq<u8>),
    fuel: nat,
) -> (ItemOutcome, Map<Seq<char>, Seq<u8>>)
    decreases fuel,
{
    match act {
        Act::Finish(o) => (o, dir),
        _ => if fuel == 0 {
            (ItemOutcome::CheckFailed, dir)
        } else {
            let (ev, dir2, body2) = folder_answer(act, dir, body, remote);
            let (stage2, act2) = item_step(post, cfg, stage, ev);
            drive(post, cfg, stage2, act2, dir2, body2, remote, (fuel - 1) as nat)
        },
    }
}

/// The longest pipeline of a post in a folder takes this many actions before it finishes.
pub open spec fn item_fuel() -> nat {
    8
}

/// The work on one post against a directory: its outcome, and the directory after it.
pub open spec fn run_post(
    post: Post,
    cfg: ItemConfig,
    dir: Map<Seq<char>, Seq<u8>>,
    remote: spec_fn(Seq<char>) -> (u16, Seq<u8>),
) -> (ItemOutcome, Map<Seq<char>, Seq<u8>>) {
    let (stage, act) = start_of(post, cfg);
    drive(post, cfg, stage, act, dir, Seq::empty(), remote, item_fuel())
}

/// A run over these posts, one after another: the outcomes, and the directory after it.
pub open spec fn run_folder(
    posts: Seq<Post>,
    cfg: ItemConfig,
    dir: Map<Seq<char>, Seq<u8>>,
    remote: spec_fn(Seq<char>) -> (u16, Seq<u8>),
) -> (Seq<ItemOutcome>, Map<Seq<char>, Seq<u8>>)
    decreases posts.len(),
{
    if posts.len() == 0 {
        (Seq::empty(), dir)
    } else {
        let (outcomes, dir2) = run_folder(posts.drop_last(), cfg, dir, remote);
        let (o, dir3) = run_post(posts.last(), cfg, dir2, remote);
        (outcomes.push(o), dir3)
    }
}

/// Whether the work on a post may touch the file `n`.
pub open spec fn touches(post: Post, cfg: ItemConfig, n: Seq<char>) -> bool {
    n == expected_name(post, cfg) || n == alternate_name(post, cfg) || (cfg.annotate && n
        == caption_name_of(post, cfg.name_type))
}

/// Whether two directories hold the same files, but for those the post may touch.
pub open spec fn same_apart_from(
    post: Post,
    cfg: ItemConfig,
    a: Map<Seq<char>, Seq<u8>>,
    b: Map<Seq<char>, Seq<u8>>,
) -> bool {
    forall|n: Seq<char>|
        !touches(post, cfg, n) ==> (#[trigger] a.dom().contains(n) <==> b.dom().contains(n)) && (
        a.dom().contains(n) ==> a[n] == b[n])
}

/// Whether a directory holds what a finished post leaves: its file (and caption), or,
/// when the remote refuses it, no file of it at all.
pub open spec fn placed(
    post: Post,
    cfg: ItemConfig,
    dir: Map<Seq<char>, Seq<u8>>,
    remote: spec_fn(Seq<char>) -> (u16, Seq<u8>),
) -> bool {
    ||| {
        &&& dir.dom().contains(expected_name(post, cfg))
        &&& cfg.annotate ==> dir.dom().contains(caption_name_of(post, cfg.name_type)) && dir[caption_name_of(post, cfg.name_type)] == caption_of(post.tags@)
    }
    ||| {
        &&& !dir.dom().contains(expected_name(post, cfg))
        &&& !dir.dom().contains(alternate_name(post, cfg))
        &&& is_client_error(remote(post.url@).0)
    }
}

/// The names of a post that must differ for the model to keep its files apart.
pub open spec fn names_apart(post: Post, cfg: ItemConfig) -> bool {
    cfg.annotate ==> caption_name_of(post, cfg.name_type) != expected_name(post, cfg)
        && caption_name_of(post, cfg.name_type) != alternate_name(post, cfg)
}

proof fn lemma_first_run_places(
    post: Post,
    cfg: ItemConfig,
    dir: Map<Seq<char>, Seq<u8>>,
    remote: spec_fn(Seq<char>) -> (u16, Seq<u8>),
)
    requires
        cfg.format is Folder,
        names_apart(post, cfg),
    ensures
        placed(post, cfg, run_post(post, cfg, dir, remote).1, remote),
        same_apart_from(post, cfg, dir, run_post(post, cfg, dir, remote).1),
{
    let exp = expected_name(post, cfg);
    let alt = alternate_name(post, cfg);
    let cap = caption_name_of(post, cfg.name_type);
    let (st, bd) = remote(post.url@);
    let (o, d) = run_post(post, cfg, dir, remote);
    let e = Seq::<u8>::empty();
    // Each step below unfolds one action of `drive`.
    assert(run_post(post, cfg, dir, remote) == drive(
        post,
        cfg,
        ItemStage::ProbingExpected,
        Act::Probe(exp),
        dir,
        e,
        remote,
        8,
    ));
    if dir.dom().contains(exp) {
        let s1 = item_step(post, cfg, ItemStage::ProbingExpected, Ev::Exists(true));
        assert(drive(post, cfg, ItemStage::ProbingExpected, Act::Probe(exp), dir, e, remote, 8)
            == drive(post, cfg, s1.0, s1.1, dir, e, remote, 7));
        if cfg.annotate {
            let d2 = dir.insert(cap, caption_of(post.tags@));
            assert(drive(post, cfg, s1.0, s1.1, dir, e, remote, 7) == drive(
                post,
                cfg,
                ItemStage::Done(ItemOutcome::Skipped),
                Act::Finish(ItemOutcome::Skipped),
                d2,
                e,
                remote,
                6,
            ));
        }
    } else {
        let s1 = item_step(post, cfg, ItemStage::ProbingExpected, Ev::Exists(false));
        assert(drive(post, cfg, ItemStage::ProbingExpected, Act::Probe(exp), dir, e, remote, 8)
            == drive(post, cfg, s1.0, s1.1, dir, e, remote, 7));
        if dir.dom().contains(alt) {
            let s2 = item_step(post, cfg, s1.0, Ev::Exists(true));
            assert(drive(post, cfg, s1.0, s1.1, dir, e, remote, 7) == drive(
                post,
                cfg,
                s2.0,
                s2.1,
                dir,
                e,
                remote,
                6,
            ));
            let s3 = item_step(post, cfg, s2.0, Ev::Contents(dir[alt]));
            assert(drive(post, cfg, s2.0, s2.1, dir, e, remote, 6) == drive(
                post,
                cfg,
                s3.0,
                s3.1,
                dir,
                e,
                remote,
                5,
            ));
            if s3.0 is Renaming {
                let d3 = dir.remove(alt).insert(exp, dir[alt]);
                let s4 = item_step(post, cfg, s3.0, Ev::Completed);
                assert(drive(post, cfg, s3.0, s3.1, dir, e, remote, 5) == drive(
                    post,
                    cfg,
                    s4.0,
                    s4.1,
                    d3,
                    e,
                    remote,
                    4,
                ));
                if cfg.annotate {
                    let d4 = d3.insert(cap, caption_of(post.tags@));
                    assert(drive(post, cfg, s4.0, s4.1, d3, e, remote, 4) == drive(
                        post,
                        cfg,
                        ItemStage::Done(ItemOutcome::Recovered),
                        Act::Finish(ItemOutcome::Recovered),
                        d4,
                        e,
                        remote,
                        3,
                    ));
                }
            } else {
                let d3 = dir.remove(alt);
                let s4 = item_step(post, cfg, s3.0, Ev::Completed);
                assert(drive(post, cfg, s3.0, s3.1, dir, e, remote, 5) == drive(
                    post,
                    cfg,
                    s4.0,
                    s4.1,
                    d3,
                    e,
                    remote,
                    4,
                ));
                lemma_fetch_places(post, cfg, d3, remote, 4);
            }
        } else {
            let s2 = item_step(post, cfg, s1.0, Ev::Exists(false));
            assert(drive(post, cfg, s1.0, s1.1, dir, e, remote, 7) == drive(
                post,
                cfg,
                s2.0,
                s2.1,
                dir,
                e,
                remote,
                6,
            ));
            lemma_fetch_places(post, cfg, dir, remote, 6);
        }
    }
}

/// From a request, with neither of the post's files present, the work on the post places
/// it and touches nothing else.
proof fn lemma_fetch_places(
    post: Post,
    cfg: ItemConfig,
    dir: Map<Seq<char>, Seq<u8>>,
    remote: spec_fn(Seq<char>) -> (u16, Seq<u8>),
    fuel: nat,
)
    requires
        cfg.format is Folder,
        names_apart(post, cfg),
        fuel >= 3,
        !dir.dom().contains(expected_name(post, cfg)),
    ensures
        placed(
            post,
            cfg,
            drive(
                post,
                cfg,
                ItemStage::Requesting,
                Act::Request(post.url@),
                dir,
                Seq::empty(),
                remote,
                fuel,
            ).1,
            remote,
        ) || dir.dom().contains(alternate_name(post, cfg)),
        !dir.dom().contains(alternate_name(post, cfg)) ==> placed(
            post,
            cfg,
            drive(
                post,
                cfg,
                ItemStage::Requesting,
                Act::Request(post.url@),
                dir,
                Seq::empty(),
                remote,
                fuel,
            ).1,
            remote,
        ),
        same_apart_from(
            post,
            cfg,
            dir,
            drive(
                post,
                cfg,
                ItemStage::Requesting,
                Act::Request(post.url@),
                dir,
                Seq::empty(),
                remote,
                fuel,
            ).1,
        ),
{
    let exp = expected_name(post, cfg);
    let cap = caption_name_of(post, cfg.name_type);
    let (st, bd) = remote(post.url@);
    let e = Seq::<u8>::empty();
    let s1 = item_step(post, cfg, ItemStage::Requesting, Ev::Status(st));
    assert(drive(post, cfg, ItemStage::Requesting, Act::Request(post.url@), dir, e, remote, fuel)
        == drive(post, cfg, s1.0, s1.1, dir, bd, remote, (fuel - 1) as nat));
    if !is_client_error(st) {
        let d2 = dir.insert(exp, Seq::<u8>::empty() + bd);
        let s2 = item_step(post, cfg, s1.0, Ev::Completed);
        assert(drive(post, cfg, s1.0, s1.1, dir, bd, remote, (fuel - 1) as nat) == drive(
            post,
            cfg,
            s2.0,
            s2.1,
            d2,
            bd,
            remote,
            (fuel - 2) as nat,
        ));
        if cfg.annotate {
            let d3 = d2.insert(cap, caption_of(post.tags@));
            assert(drive(post, cfg, s2.0, s2.1, d2, bd, remote, (fuel - 2) as nat) == drive(
                post,
                cfg,
                ItemStage::Done(ItemOutcome::Downloaded),
                Act::Finish(ItemOutcome::Downloaded),
                d3,
                bd,
                remote,
                (fuel - 3) as nat,
            ));
        }
    }
}

/// A post already placed is, on a second run, skipped or refused again, and the directory
/// stays as it is.
proof fn lemma_second_run_idle(
    post: Post,
    cfg: ItemConfig,
    dir: Map<Seq<char>, Seq<u8>>,
    remote: spec_fn(Seq<char>) -> (u16, Seq<u8>),
)
    requires
        cfg.format is Folder,
        placed(post, cfg, dir, remote),
    ensures
        run_post(post, cfg, dir, remote).1 == dir,
        run_post(post, cfg, dir, remote).0 == ItemOutcome::Skipped || run_post(
            post,
            cfg,
            dir,
            remote,
        ).0 == ItemOutcome::RemoteNotFound,
{
    let exp = expected_name(post, cfg);
    let alt = alternate_name(post, cfg);
    let cap = caption_name_of(post, cfg.name_type);
    let e = Seq::<u8>::empty();
    let (st, bd) = remote(post.url@);
    if dir.dom().contains(exp) {
        let s1 = item_step(post, cfg, ItemStage::ProbingExpected, Ev::Exists(true));
        assert(drive(post, cfg, ItemStage::ProbingExpected, Act::Probe(exp), dir, e, remote, 8)
            == drive(post, cfg, s1.0, s1.1, dir, e, remote, 7));
        if cfg.annotate {
            assert(dir.insert(cap, caption_of(post.tags@)) =~= dir);
            assert(drive(post, cfg, s1.0, s1.1, dir, e, remote, 7) == drive(
                post,
                cfg,
                ItemStage::Done(ItemOutcome::Skipped),
                Act::Finish(ItemOutcome::Skipped),
                dir,
                e,
                remote,
                6,
            ));
        }
    } else {
        let s1 = item_step(post, cfg, ItemStage::ProbingExpected, Ev::Exists(false));
        assert(drive(post, cfg, ItemStage::ProbingExpected, Act::Probe(exp), dir, e, remote, 8)
            == drive(post, cfg, s1.0, s1.1, dir, e, remote, 7));
        let s2 = item_step(post, cfg, s1.0, Ev::Exists(false));
        assert(drive(post, cfg, s1.0, s1.1, dir, e, remote, 7) == drive(
            post,
            cfg,
            s2.0,
            s2.1,
            dir,
            e,
            remote,
            6,
        ));
        assert(drive(post, cfg, s2.0, s2.1, dir, e, remote, 6) == drive(
            post,
            cfg,
            ItemStage::Done(ItemOutcome::RemoteNotFound),
            Act::Finish(ItemOutcome::RemoteNotFound),
            dir,
            bd,
            remote,
            5,
        ));
    }
}

/// Whether the posts of a run keep apart: no two of them may touch the same file, and each
/// one's caption differs from its own files.
pub open spec fn posts_apart(posts: Seq<Post>, cfg: ItemConfig) -> bool {
    &&& forall|i: int| 0 <= i < posts.len() ==> names_apart(#[trigger] posts[i], cfg)
    &&& forall|i: int, j: int, n: Seq<char>|
        #![trigger touches(posts[i], cfg, n), touches(posts[j], cfg, n)]
        0 <= i < posts.len() && 0 <= j < posts.len() && i != j && touches(posts[i], cfg, n)
            ==> !touches(posts[j], cfg, n)
}

proof fn lemma_placed_kept(
    post: Post,
    other: Post,
    cfg: ItemConfig,
    a: Map<Seq<char>, Seq<u8>>,
    b: Map<Seq<char>, Seq<u8>>,
    remote: spec_fn(Seq<char>) -> (u16, Seq<u8>),
)
    requires
        placed(post, cfg, a, remote),
        same_apart_from(other, cfg, a, b),
        forall|n: Seq<char>| touches(post, cfg, n) ==> !touches(other, cfg, n),
    ensures
        placed(post, cfg, b, remote),
{
    let exp = expected_name(post, cfg);
    let alt = alternate_name(post, cfg);
    let cap = caption_name_of(post, cfg.name_type);
    assert(touches(post, cfg, exp));
    assert(touches(post, cfg, alt));
    assert(a.dom().contains(exp) <==> b.dom().contains(exp));
    assert(a.dom().contains(alt) <==> b.dom().contains(alt));
    if cfg.annotate {
        assert(touches(post, cfg, cap));
        assert(a.dom().contains(cap) <==> b.dom().contains(cap));
    }
}

proof fn lemma_outcome_count(
    posts: Seq<Post>,
    cfg: ItemConfig,
    dir: Map<Seq<char>, Seq<u8>>,
    remote: spec_fn(Seq<char>) -> (u16, Seq<u8>),
)
    ensures
        run_folder(posts, cfg, dir, remote).0.len() == posts.len(),
    decreases posts.len(),
{
    if posts.len() > 0 {
        lemma_outcome_count(posts.drop_last(), cfg, dir, remote);
    }
}

proof fn lemma_first_run_all_placed(
    posts: Seq<Post>,
    cfg: ItemConfig,
    dir: Map<Seq<char>, Seq<u8>>,
    remote: spec_fn(Seq<char>) -> (u16, Seq<u8>),
)
    requires
        cfg.format is Folder,
        posts_apart(posts, cfg),
    ensures
        forall|i: int|
            0 <= i < posts.len() ==> placed(
                #[trigger] posts[i],
                cfg,
                run_folder(posts, cfg, dir, remote).1,
                remote,
            ),
    decreases posts.len(),
{
    if posts.len() > 0 {
        let pre = posts.drop_last();
        let last = posts.last();
        assert forall|i: int| 0 <= i < pre.len() implies names_apart(#[trigger] pre[i], cfg) by {
            assert(pre[i] == posts[i]);
        }
        assert forall|i: int, j: int, n: Seq<char>|
            #![trigger touches(pre[i], cfg, n), touches(pre[j], cfg, n)]
            0 <= i < pre.len() && 0 <= j < pre.len() && i != j && touches(pre[i], cfg, n)
                implies !touches(pre[j], cfg, n) by {
            assert(pre[i] == posts[i]);
            assert(pre[j] == posts[j]);
        }
        lemma_first_run_all_placed(pre, cfg, dir, remote);
        let d = run_folder(pre, cfg, dir, remote).1;
        assert(names_apart(posts[posts.len() - 1], cfg));
        lemma_first_run_places(last, cfg, d, remote);
        let d2 = run_post(last, cfg, d, remote).1;
        assert forall|i: int| 0 <= i < posts.len() implies placed(
            #[trigger] posts[i],
            cfg,
            d2,
            remote,
        ) by {
            if i < posts.len() - 1 {
                assert(pre[i] == posts[i]);
                assert forall|n: Seq<char>| touches(posts[i], cfg, n) implies !touches(
                    last,
                    cfg,
                    n,
                ) by {
                    assert(touches(posts[i], cfg, n) ==> !touches(posts[posts.len() - 1], cfg, n));
                }
                lemma_placed_kept(posts[i], last, cfg, d, d2, remote);
            }
        }
    }
}

proof fn lemma_second_run_all_idle(
    posts: Seq<Post>,
    cfg: ItemConfig,
    dir: Map<Seq<char>, Seq<u8>>,
    remote: spec_fn(Seq<char>) -> (u16, Seq<u8>),
)
    requires
        cfg.format is Folder,
        forall|i: int| 0 <= i < posts.len() ==> placed(#[trigger] posts[i], cfg, dir, remote),
    ensures
        run_folder(posts, cfg, dir, remote).1 == dir,
        forall|i: int|
            0 <= i < posts.len() ==> #[trigger] run_folder(posts, cfg, dir, remote).0[i]
                != ItemOutcome::Downloaded,
    decreases posts.len(),
{
    lemma_outcome_count(posts, cfg, dir, remote);
    if posts.len() > 0 {
        let pre = posts.drop_last();
        assert forall|i: int| 0 <= i < pre.len() implies placed(#[trigger] pre[i], cfg, dir, remote) by {
            assert(pre[i] == posts[i]);
        }
        lemma_second_run_all_idle(pre, cfg, dir, remote);
        lemma_outcome_count(pre, cfg, dir, remote);
        assert(placed(posts[posts.len() - 1], cfg, dir, remote));
        lemma_second_run_idle(posts.last(), cfg, dir, remote);
    }
}

proof fn lemma_tally_without_downloads(outcomes: Seq<ItemOutcome>)
    requires
        outcomes.len() <= u64::MAX,
        forall|i: int| 0 <= i < outcomes.len() ==> #[trigger] outcomes[i] != ItemOutcome::Downloaded,
    ensures
        tally_of(outcomes).downloaded == 0,
        tally_of(outcomes).total() == outcomes.len(),
    decreases outcomes.len(),
{
    if outcomes.len() > 0 {
        let rest = outcomes.drop_last();
        assert forall|i: int| 0 <= i < rest.len() implies #[trigger] rest[i]
            != ItemOutcome::Downloaded by {
            assert(rest[i] == outcomes[i]);
        }
        lemma_tally_without_downloads(rest);
        assert(outcomes.last() == outcomes[outcomes.len() - 1]);
        let t = tally_of(rest);
        assert(recorded(t, outcomes.last()).total() == t.total() + 1);
    }
}

/// Running the same posts twice into a folder, against the same remote: the second run
/// leaves the folder exactly as the first one left it, downloads nothing, and counts every
/// post as completed.
pub proof fn lemma_rerun_is_idempotent(
    posts: Seq<Post>,
    cfg: ItemConfig,
    dir: Map<Seq<char>, Seq<u8>>,
    remote: spec_fn(Seq<char>) -> (u16, Seq<u8>),
)
    requires
        cfg.format is Folder,
        posts_apart(posts, cfg),
        posts.len() <= u64::MAX,
    ensures
        run_folder(posts, cfg, run_folder(posts, cfg, dir, remote).1, remote).1 == run_folder(
            posts,
            cfg,
            dir,
            remote,
        ).1,
        tally_of(run_folder(posts, cfg, run_folder(posts, cfg, dir, remote).1, remote).0).downloaded
            == 0,
        tally_of(run_folder(posts, cfg, run_folder(posts, cfg, dir, remote).1, remote).0).total()
            == posts.len(),
{
    let after_first = run_folder(posts, cfg, dir, remote).1;
    lemma_first_run_all_placed(posts, cfg, dir, remote);
    lemma_second_run_all_idle(posts, cfg, after_first, remote);
    lemma_outcome_count(posts, cfg, after_first, remote);
    lemma_tally_without_downloads(run_folder(posts, cfg, after_first, remote).0);
}

/// The folder after a post settled with the given directory: with captions, its caption is
/// written too.
pub open spec fn with_caption(
    post: Post,
    cfg: ItemConfig,
    dir: Map<Seq<char>, Seq<u8>>,
) -> Map<Seq<char>, Seq<u8>> {
    if cfg.annotate {
        dir.insert(caption_name_of(post, cfg.name_type), caption_of(post.tags@))
    } else {
        dir
    }
}

/// A post missing at its expected path, whose file sits under the other naming convention
/// with the post's digest, is recovered: that file is renamed into place, nothing is
/// fetched, and the post counts as recovered.
pub proof fn lemma_recovery_in_folder(
    post: Post,
    cfg: ItemConfig,
    dir: Map<Seq<char>, Seq<u8>>,
    remote: spec_fn(Seq<char>) -> (u16, Seq<u8>),
)
    requires
        cfg.format is Folder,
        !dir.dom().contains(expected_name(post, cfg)),
        dir.dom().contains(alternate_name(post, cfg)),
        md5_hex_of(dir[alternate_name(post, cfg)]) == post.md5@,
    ensures
        run_post(post, cfg, dir, remote) == (
            ItemOutcome::Recovered,
            with_caption(
                post,
                cfg,
                dir.remove(alternate_name(post, cfg)).insert(
                    expected_name(post, cfg),
                    dir[alternate_name(post, cfg)],
                ),
            ),
        ),
{
    let exp = expected_name(post, cfg);
    let alt = alternate_name(post, cfg);
    let e = Seq::<u8>::empty();
    let s1 = item_step(post, cfg, ItemStage::ProbingExpected, Ev::Exists(false));
    assert(drive(post, cfg, ItemStage::ProbingExpected, Act::Probe(exp), dir, e, remote, 8)
        == drive(post, cfg, s1.0, s1.1, dir, e, remote, 7));
    let s2 = item_step(post, cfg, s1.0, Ev::Exists(true));
    assert(drive(post, cfg, s1.0, s1.1, dir, e, remote, 7) == drive(
        post,
        cfg,
        s2.0,
        s2.1,
        dir,
        e,
        remote,
        6,
    ));
    let s3 = item_step(post, cfg, s2.0, Ev::Contents(dir[alt]));
    assert(drive(post, cfg, s2.0, s2.1, dir, e, remote, 6) == drive(
        post,
        cfg,
        s3.0,
        s3.1,
        dir,
        e,
        remote,
        5,
    ));
    let d3 = dir.remove(alt).insert(exp, dir[alt]);
    let s4 = item_step(post, cfg, s3.0, Ev::Completed);
    assert(drive(post, cfg, s3.0, s3.1, dir, e, remote, 5) == drive(
        post,
        cfg,
        s4.0,
        s4.1,
        d3,
        e,
        remote,
        4,
    ));
    if cfg.annotate {
        assert(drive(post, cfg, s4.0, s4.1, d3, e, remote, 4) == drive(
            post,
            cfg,
            ItemStage::Done(ItemOutcome::Recovered),
            Act::Finish(ItemOutcome::Recovered),
            with_caption(post, cfg, d3),
            e,
            remote,
            3,
        ));
    }
}

/// A post missing at its expected path, whose name under the other convention holds a file
/// with another digest, has that file deleted and is fetched: into its expected path when
/// the remote serves it, and not at all when the remote refuses it.
pub proof fn lemma_stale_file_replaced(
    post: Post,
    cfg: ItemConfig,
    dir: Map<Seq<char>, Seq<u8>>,
    remote: spec_fn(Seq<char>) -> (u16, Seq<u8>),
)
    requires
        cfg.format is Folder,
        !dir.dom().contains(expected_name(post, cfg)),
        dir.dom().contains(alternate_name(post, cfg)),
        md5_hex_of(dir[alternate_name(post, cfg)]) != post.md5@,
    ensures
        !is_client_error(remote(post.url@).0) ==> run_post(post, cfg, dir, remote) == (
            ItemOutcome::Downloaded,
            with_caption(
                post,
                cfg,
                dir.remove(alternate_name(post, cfg)).insert(
                    expected_name(post, cfg),
                    remote(post.url@).1,
                ),
            ),
        ),
        is_client_error(remote(post.url@).0) ==> run_post(post, cfg, dir, remote) == (
            ItemOutcome::RemoteNotFound,
            dir.remove(alternate_name(post, cfg)),
        ),
{
    let exp = expected_name(post, cfg);
    let alt = alternate_name(post, cfg);
    let (st, bd) = remote(post.url@);
    let e = Seq::<u8>::empty();
    let s1 = item_step(post, cfg, ItemStage::ProbingExpected, Ev::Exists(false));
    assert(drive(post, cfg, ItemStage::ProbingExpected, Act::Probe(exp), dir, e, remote, 8)
        == drive(post, cfg, s1.0, s1.1, dir, e, remote, 7));
    let s2 = item_step(post, cfg, s1.0, Ev::Exists(true));
    assert(drive(post, cfg, s1.0, s1.1, dir, e, remote, 7) == drive(
        post,
        cfg,
        s2.0,
        s2.1,
        dir,
        e,
        remote,
        6,
    ));
    let s3 = item_step(post, cfg, s2.0, Ev::Contents(dir[alt]));
    assert(drive(post, cfg, s2.0, s2.1, dir, e, remote, 6) == drive(
        post,
        cfg,
        s3.0,
        s3.1,
        dir,
        e,
        remote,
        5,
    ));
    let d3 = dir.remove(alt);
    let s4 = item_step(post, cfg, s3.0, Ev::Completed);
    assert(drive(post, cfg, s3.0, s3.1, dir, e, remote, 5) == drive(
        post,
        cfg,
        s4.0,
        s4.1,
        d3,
        e,
        remote,
        4,
    ));
    let s5 = item_step(post, cfg, s4.0, Ev::Status(st));
    assert(drive(post, cfg, s4.0, s4.1, d3, e, remote, 4) == drive(
        post,
        cfg,
        s5.0,
        s5.1,
        d3,
        bd,
        remote,
        3,
    ));
    if !is_client_error(st) {
        let d5 = d3.insert(exp, Seq::<u8>::empty() + bd);
        assert(Seq::<u8>::empty() + bd =~= bd);
        let s6 = item_step(post, cfg, s5.0, Ev::Completed);
        assert(drive(post, cfg, s5.0, s5.1, d3, bd, remote, 3) == drive(
            post,
            cfg,
            s6.0,
            s6.1,
            d5,
            bd,
            remote,
            2,
        ));
        if cfg.annotate {
            assert(drive(post, cfg, s6.0, s6.1, d5, bd, remote, 2) == drive(
                post,
                cfg,
                ItemStage::Done(ItemOutcome::Downloaded),
                Act::Finish(ItemOutcome::Downloaded),
                with_caption(post, cfg, d5),
                bd,
                remote,
                1,
            ));
        }
    }
}

} // verus!
