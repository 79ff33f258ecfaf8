//! The work on one post: integrity check, fetch, commit, caption.
//!
//! The pipeline decides; its caller performs. Each call of `step` takes what came of the
//! last action and returns the next one, until `Finish`.
use crate::integrity::{md5_hex, md5_hex_of};
use crate::post::{caption_of, NameType, Post};
use crate::sink::{
    archive_entries, archive_entries_of, caption_name, caption_name_of, ArchiveEntry,
    DownloadFormat, EntryView,
};
use vstd::prelude::*;

verus! {

/// What the run fixes for every item.
#[derive(Clone, Copy, Debug, PartialEq, Eq, Structural)]
pub struct ItemConfig {
    pub format: DownloadFormat,
    pub name_type: NameType,
    /// Whether to write a caption beside each item.
    pub annotate: bool,
}

/// How the work on one post ended.
#[derive(Clone, Copy, Debug, PartialEq, Eq, Structural)]
pub enum ItemOutcome {
    /// The file was already at its expected path.
    Skipped,
    /// A file of the same content under the other naming convention was renamed.
    Recovered,
    /// The post was fetched and committed.
    Downloaded,
    /// The server answered with a client error.
    RemoteNotFound,
    /// The request could not be made.
    RequestFailed,
    /// The body could not be read or written.
    ChunkDownloadFailed,
    /// A file on disk could not be probed, read, renamed or removed.
    CheckFailed,
    /// The archive refused an entry; this ends the whole run.
    ArchiveWriteFailed,
}

impl ItemOutcome {
    pub open spec fn spec_is_fatal(&self) -> bool {
        self is ArchiveWriteFailed
    }

    pub open spec fn spec_is_failure(&self) -> bool {
        !(self is Skipped || self is Recovered || self is Downloaded || self is ArchiveWriteFailed)
    }

    /// Whether the outcome aborts the run.
    #[verifier::when_used_as_spec(spec_is_fatal)]
    pub fn is_fatal(&self) -> (r: bool)
        ensures
            r == self.spec_is_fatal(),
    {
        match self {
            ItemOutcome::ArchiveWriteFailed => true,
            _ => false,
        }
    }

    /// Whether the item failed on its own, without ending the run.
    #[verifier::when_used_as_spec(spec_is_failure)]
    pub fn is_failure(&self) -> (r: bool)
        ensures
            r == self.spec_is_failure(),
    {
        match self {
            ItemOutcome::RemoteNotFound => true,
            ItemOutcome::RequestFailed => true,
            ItemOutcome::ChunkDownloadFailed => true,
            ItemOutcome::CheckFailed => true,
            _ => false,
        }
    }
}

/// Where the work on one post stands: which action it waits on.
#[derive(Clone, Copy, Debug, PartialEq, Eq, Structural)]
pub enum ItemStage {
    ProbingExpected,
    ProbingAlternate,
    ReadingAlternate,
    Renaming,
    Removing,
    Requesting,
    Streaming,
    Buffering,
    Appending,
    Captioning(ItemOutcome),
    Done(ItemOutcome),
}

/// What came of the last action.
#[derive(Debug)]
pub enum ItemEvent {
    /// Whether the probed file exists.
    Exists(bool),
    /// The bytes of the file that was read.
    Contents(Vec<u8>),
    /// The rename, removal, stream, write or append went through.
    Completed,
    /// The HTTP status of the response.
    Status(u16),
    /// The whole body of the response.
    Body(Vec<u8>),
    /// The action failed.
    Failed,
}

/// The value of an event.
pub enum Ev {
    Exists(bool),
    Contents(Seq<u8>),
    Completed,
    Status(u16),
    Body(Seq<u8>),
    Failed,
}

impl View for ItemEvent {
    type V = Ev;

    open spec fn view(&self) -> Ev {
        match self {
            ItemEvent::Exists(b) => Ev::Exists(*b),
            ItemEvent::Contents(d) => Ev::Contents(d@),
            ItemEvent::Completed => Ev::Completed,
            ItemEvent::Status(s) => Ev::Status(*s),
            ItemEvent::Body(d) => Ev::Body(d@),
            ItemEvent::Failed => Ev::Failed,
        }
    }
}

/// The next thing to do for a post. File names are relative to the output directory.
#[derive(Debug)]
pub enum ItemAction {
    /// Tell whether this file exists.
    Probe(String),
    /// Read this whole file.
    Read(String),
    /// Rename a file.
    Rename { from: String, to: String },
    /// Delete this file.
    Remove(String),
    /// Send a GET request to this URL.
    Request(String),
    /// Append the response body, chunk by chunk, to this file.
    StreamToFile(String),
    /// Read the whole response body into memory.
    BufferBody,
    /// Create or overwrite this file with these bytes.
    WriteFile { name: String, data: Vec<u8> },
    /// Append these entries to the shared archive, in order, under one lock.
    Append(Vec<ArchiveEntry>),
    /// The work on this post is over.
    Finish(ItemOutcome),
}

/// The value of an action.
pub enum Act {
    Probe(Seq<char>),
    Read(Seq<char>),
    Rename(Seq<char>, Seq<char>),
    Remove(Seq<char>),
    Request(Seq<char>),
    StreamToFile(Seq<char>),
    BufferBody,
    WriteFile(Seq<char>, Seq<u8>),
    Append(Seq<EntryView>),
    Finish(ItemOutcome),
}

impl View for ItemAction {
    type V = Act;

    open spec fn view(&self) -> Act {
        match self {
            ItemAction::Probe(n) => Act::Probe(n@),
            ItemAction::Read(n) => Act::Read(n@),
            ItemAction::Rename { from, to } => Act::Rename(from@, to@),
            ItemAction::Remove(n) => Act::Remove(n@),
            ItemAction::Request(u) => Act::Request(u@),
            ItemAction::StreamToFile(n) => Act::StreamToFile(n@),
            ItemAction::BufferBody => Act::BufferBody,
            ItemAction::WriteFile { name, data } => Act::WriteFile(name@, data@),
            ItemAction::Append(es) => Act::Append(es@.map_values(|e: ArchiveEntry| e@)),
            ItemAction::Finish(o) => Act::Finish(*o),
        }
    }
}

/// The file name a post must have under the run's naming convention.
pub open spec fn expected_name(post: Post, cfg: ItemConfig) -> Seq<char> {
    post.spec_file_name(cfg.name_type)
}

/// The file name a post would have under the other naming convention.
pub open spec fn alternate_name(post: Post, cfg: ItemConfig) -> Seq<char> {
    post.spec_file_name(cfg.name_type.spec_other())
}

/// Whether a status code is a client error (4xx).
pub open spec fn is_client_error(status: u16) -> bool {
    400 <= status <= 499
}

pub open spec fn finish(o: ItemOutcome) -> (ItemStage, Act) {
    (ItemStage::Done(o), Act::Finish(o))
}

/// A post that is in place: in a folder with captions, its caption is written first.
pub open spec fn settle(post: Post, cfg: ItemConfig, o: ItemOutcome) -> (ItemStage, Act) {
    if cfg.annotate && cfg.format is Folder {
        (
            ItemStage::Captioning(o),
            Act::WriteFile(caption_name_of(post, cfg.name_type), caption_of(post.tags@)),
        )
    } else {
        finish(o)
    }
}

pub open spec fn request(post: Post) -> (ItemStage, Act) {
    (ItemStage::Requesting, Act::Request(post.url@))
}

/// How the work on a post begins: in a folder, by probing the expected path; in an
/// archive, by fetching.
pub open spec fn start_of(post: Post, cfg: ItemConfig) -> (ItemStage, Act) {
    if cfg.format.spec_download_cbz() {
        request(post)
    } else {
        (ItemStage::ProbingExpected, Act::Probe(expected_name(post, cfg)))
    }
}

/// The decision on a file found under the alternate name, given its digest: rename it
/// into place when it is the post, delete it otherwise.
pub open spec fn digest_step(post: Post, cfg: ItemConfig, digest: Seq<char>) -> (
    ItemStage,
    Act,
) {
    if digest == post.md5@ {
        (ItemStage::Renaming, Act::Rename(alternate_name(post, cfg), expected_name(post, cfg)))
    } else {
        (ItemStage::Removing, Act::Remove(alternate_name(post, cfg)))
    }
}

/// Whether an event answers the action that a stage waits on.
pub open spec fn answers(stage: ItemStage, ev: Ev) -> bool {
    match stage {
        ItemStage::ProbingExpected | ItemStage::ProbingAlternate => ev is Exists || ev is Failed,
        ItemStage::ReadingAlternate => ev is Contents || ev is Failed,
        ItemStage::Requesting => ev is Status || ev is Failed,
        ItemStage::Buffering => ev is Body || ev is Failed,
        ItemStage::Done(_) => false,
        _ => ev is Completed || ev is Failed,
    }
}

/// One step of the work on a post: the next stage and action, from the stage and what came
/// of its action.
pub open spec fn item_step(post: Post, cfg: ItemConfig, stage: ItemStage, ev: Ev) -> (
    ItemStage,
    Act,
) {
    match stage {
        ItemStage::ProbingExpected => match ev {
            Ev::Exists(true) => settle(post, cfg, ItemOutcome::Skipped),
            Ev::Exists(false) => (
                ItemStage::ProbingAlternate,
                Act::Probe(alternate_name(post, cfg)),
            ),
            _ => finish(ItemOutcome::CheckFailed),
        },
        ItemStage::ProbingAlternate => match ev {
            Ev::Exists(true) => (ItemStage::ReadingAlternate, Act::Read(alternate_name(post, cfg))),
            Ev::Exists(false) => request(post),
            _ => finish(ItemOutcome::CheckFailed),
        },
        ItemStage::ReadingAlternate => match ev {
            Ev::Contents(data) => digest_step(post, cfg, md5_hex_of(data)),
            _ => finish(ItemOutcome::CheckFailed),
        },
        ItemStage::Renaming => match ev {
            Ev::Completed => settle(post, cfg, ItemOutcome::Recovered),
            _ => finish(ItemOutcome::CheckFailed),
        },
        ItemStage::Removing => match ev {
            Ev::Completed => request(post),
            _ => finish(ItemOutcome::CheckFailed),
        },
        ItemStage::Requesting => match ev {
            Ev::Status(s) => if is_client_error(s) {
                finish(ItemOutcome::RemoteNotFound)
            } else if cfg.format.spec_download_cbz() {
                (ItemStage::Buffering, Act::BufferBody)
            } else {
                (ItemStage::Streaming, Act::StreamToFile(expected_name(post, cfg)))
            },
            _ => finish(ItemOutcome::RequestFailed),
        },
        ItemStage::Streaming => match ev {
            Ev::Completed => settle(post, cfg, ItemOutcome::Downloaded),
            _ => finish(ItemOutcome::ChunkDownloadFailed),
        },
        ItemStage::Buffering => match ev {
            Ev::Body(data) => (
                ItemStage::Appending,
                Act::Append(
                    archive_entries_of(post, cfg.name_type, cfg.format, cfg.annotate, data),
                ),
            ),
            _ => finish(ItemOutcome::ChunkDownloadFailed),
        },
        ItemStage::Appending => match ev {
            Ev::Completed => finish(ItemOutcome::Downloaded),
            _ => finish(ItemOutcome::ArchiveWriteFailed),
        },
        // A caption that cannot be written is reported, and the item still counts.
        ItemStage::Captioning(o) => finish(o),
        ItemStage::Done(o) => finish(o),
    }
}

/// The work on one post.
pub struct ItemPipeline {
    pub post: Post,
    pub config: ItemConfig,
    pub stage: ItemStage,
}

impl ItemPipeline {
    /// Starts the work on a post, and returns its first action.
    pub fn new(post: Post, config: ItemConfig) -> (r: (ItemPipeline, ItemAction))
        ensures
            r.0.post == post,
            r.0.config == config,
            (r.0.stage, r.1@) == start_of(post, config),
    {
        if config.format.download_cbz() {
            let url = String::from_str(post.url.as_str());
            (ItemPipeline { post, config, stage: ItemStage::Requesting }, ItemAction::Request(url))
        } else {
            let name = post.file_name(config.name_type);
            (
                ItemPipeline { post, config, stage: ItemStage::ProbingExpected },
                ItemAction::Probe(name),
            )
        }
    }

    /// Whether `event` answers the action the pipeline waits on.
    pub fn accepts(&self, event: &ItemEvent) -> (r: bool)
        ensures
            r == answers(self.stage, event@),
    {
        match self.stage {
            ItemStage::ProbingExpected | ItemStage::ProbingAlternate => match event {
                ItemEvent::Exists(_) | ItemEvent::Failed => true,
                _ => false,
            },
            ItemStage::ReadingAlternate => match event {
                ItemEvent::Contents(_) | ItemEvent::Failed => true,
                _ => false,
            },
            ItemStage::Requesting => match event {
                ItemEvent::Status(_) | ItemEvent::Failed => true,
                _ => false,
            },
            ItemStage::Buffering => match event {
                ItemEvent::Body(_) | ItemEvent::Failed => true,
                _ => false,
            },
            ItemStage::Done(_) => false,
            _ => match event {
                ItemEvent::Completed | ItemEvent::Failed => true,
                _ => false,
            },
        }
    }

    fn finish(&mut self, o: ItemOutcome) -> (r: ItemAction)
        ensures
            final(self).post == old(self).post,
            final(self).config == old(self).config,
            (final(self).stage, r@) == finish(o),
    {
        self.stage = ItemStage::Done(o);
        ItemAction::Finish(o)
    }

    fn settle(&mut self, o: ItemOutcome) -> (r: ItemAction)
        ensures
            final(self).post == old(self).post,
            final(self).config == old(self).config,
            (final(self).stage, r@) == settle(old(self).post, old(self).config, o),
    {
        if self.config.annotate && !self.config.format.download_cbz() {
            self.stage = ItemStage::Captioning(o);
            ItemAction::WriteFile {
                name: caption_name(&self.post, self.config.name_type),
                data: self.post.caption_bytes(),
            }
        } else {
            self.finish(o)
        }
    }

    fn request(&mut self) -> (r: ItemAction)
        ensures
            final(self).post == old(self).post,
            final(self).config == old(self).config,
            (final(self).stage, r@) == request(old(self).post),
    {
        self.stage = ItemStage::Requesting;
        ItemAction::Request(String::from_str(self.post.url.as_str()))
    }

    /// Decides on a file found under the alternate name, given its digest.
    pub fn on_alternate_digest(&mut self, digest: &String) -> (r: ItemAction)
        requires
            old(self).stage == ItemStage::ReadingAlternate,
        ensures
            final(self).post == old(self).post,
            final(self).config == old(self).config,
            (final(self).stage, r@) == digest_step(old(self).post, old(self).config, digest@),
    {
        let alternate = self.post.file_name(self.config.name_type.other());
        if crate::integrity::digest_matches(digest, &self.post.md5) {
            self.stage = ItemStage::Renaming;
            ItemAction::Rename { from: alternate, to: self.post.file_name(self.config.name_type) }
        } else {
            self.stage = ItemStage::Removing;
            ItemAction::Remove(alternate)
        }
    }

    /// Takes what came of the last action and returns the next one.
    pub fn step(&mut self, event: ItemEvent) -> (r: ItemAction)
        requires
            answers(old(self).stage, event@),
        ensures
            final(self).post == old(self).post,
            final(self).config == old(self).config,
            (final(self).stage, r@) == item_step(
                old(self).post,
                old(self).config,
                old(self).stage,
                event@,
            ),
    {
        match self.stage {
            ItemStage::ProbingExpected => match event {
                ItemEvent::Exists(true) => self.settle(ItemOutcome::Skipped),
                ItemEvent::Exists(false) => {
                    self.stage = ItemStage::ProbingAlternate;
                    ItemAction::Probe(self.post.file_name(self.config.name_type.other()))
                },
                _ => self.finish(ItemOutcome::CheckFailed),
            },
            ItemStage::ProbingAlternate => match event {
                ItemEvent::Exists(true) => {
                    self.stage = ItemStage::ReadingAlternate;
                    ItemAction::Read(self.post.file_name(self.config.name_type.other()))
                },
                ItemEvent::Exists(false) => self.request(),
                _ => self.finish(ItemOutcome::CheckFailed),
            },
            ItemStage::ReadingAlternate => match event {
                ItemEvent::Contents(data) => {
                    let digest = md5_hex(data.as_slice());
                    self.on_alternate_digest(&digest)
                },
                _ => self.finish(ItemOutcome::CheckFailed),
            },
            ItemStage::Renaming => match event {
                ItemEvent::Completed => self.settle(ItemOutcome::Recovered),
                _ => self.finish(ItemOutcome::CheckFailed),
            },
            ItemStage::Removing => match event {
                ItemEvent::Completed => self.request(),
                _ => self.finish(ItemOutcome::CheckFailed),
            },
            ItemStage::Requesting => match event {
                ItemEvent::Status(s) => {
                    if 400 <= s && s <= 499 {
                        self.finish(ItemOutcome::RemoteNotFound)
                    } else if self.config.format.download_cbz() {
                        self.stage = ItemStage::Buffering;
                        ItemAction::BufferBody
                    } else {
                        self.stage = ItemStage::Streaming;
                        ItemAction::StreamToFile(self.post.file_name(self.config.name_type))
                    }
                },
                _ => self.finish(ItemOutcome::RequestFailed),
            },
            ItemStage::Streaming => match event {
                ItemEvent::Completed => self.settle(ItemOutcome::Downloaded),
                _ => self.finish(ItemOutcome::ChunkDownloadFailed),
            },
            ItemStage::Buffering => match event {
                ItemEvent::Body(data) => {
                    self.stage = ItemStage::Appending;
                    ItemAction::Append(
                        archive_entries(
                            &self.post,
                            self.config.name_type,
                            self.config.format,
                            self.config.annotate,
                            data,
                        ),
                    )
                },
                _ => self.finish(ItemOutcome::ChunkDownloadFailed),
            },
            ItemStage::Appending => match event {
                ItemEvent::Completed => self.finish(ItemOutcome::Downloaded),
                _ => self.finish(ItemOutcome::ArchiveWriteFailed),
            },
            ItemStage::Captioning(o) => self.finish(o),
            ItemStage::Done(o) => self.finish(o),
        }
    }
}

} // verus!
