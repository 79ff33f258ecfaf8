//! Where fetched bytes go: loose files in a folder, or entries of one shared archive.
use crate::post::{rating_label, NameType, Post, Rating};
use vstd::prelude::*;

verus! {

/// How a run stores what it fetches. Set once per run.
#[derive(Clone, Copy, Debug, PartialEq, Eq, Structural)]
pub enum DownloadFormat {
    /// One archive, with one sub-directory per rating.
    Cbz,
    /// One archive with flat entries and no captions.
    CbzPool,
    /// Loose files in the output directory.
    Folder,
}

impl DownloadFormat {
    pub open spec fn spec_download_cbz(&self) -> bool {
        self is Cbz || self is CbzPool
    }

    pub open spec fn spec_download_pool_cbz(&self) -> bool {
        self is CbzPool
    }

    /// Whether the run writes into an archive.
    #[verifier::when_used_as_spec(spec_download_cbz)]
    pub fn download_cbz(&self) -> (r: bool)
        ensures
            r == self.spec_download_cbz(),
    {
        match self {
            DownloadFormat::Cbz => true,
            DownloadFormat::CbzPool => true,
            DownloadFormat::Folder => false,
        }
    }

    /// Whether the archive's entries are flat, without rating directories.
    #[verifier::when_used_as_spec(spec_download_pool_cbz)]
    pub fn download_pool_cbz(&self) -> (r: bool)
        ensures
            r == self.spec_download_pool_cbz(),
    {
        match self {
            DownloadFormat::Cbz => false,
            DownloadFormat::CbzPool => true,
            DownloadFormat::Folder => false,
        }
    }

    /// The format that the two switches of a run select: an archive, pooled or not,
    /// or a folder. Pooling without an archive means a folder.
    pub fn from_flags(save_as_cbz: bool, pool_download: bool) -> (r: DownloadFormat)
        ensures
            r.spec_download_cbz() == save_as_cbz,
            r.spec_download_pool_cbz() == (save_as_cbz && pool_download),
    {
        if save_as_cbz && pool_download {
            DownloadFormat::CbzPool
        } else if save_as_cbz {
            DownloadFormat::Cbz
        } else {
            DownloadFormat::Folder
        }
    }
}

/// The directories that a grouped archive holds before any item is written, in order.
pub open spec fn archive_directories_of(format: DownloadFormat) -> Seq<Seq<char>> {
    if format is Cbz {
        seq![
            rating_label(Rating::Safe),
            rating_label(Rating::Questionable),
            rating_label(Rating::Explicit),
            rating_label(Rating::Unknown),
        ]
    } else {
        Seq::empty()
    }
}

/// The directories to create in a fresh archive of this format, in order: one per
/// rating for a grouped archive, none otherwise.
pub fn archive_directories(format: DownloadFormat) -> (r: Vec<String>)
    ensures
        r@.map_values(|s: String| s@) == archive_directories_of(format),
{
    let mut dirs: Vec<String> = Vec::new();
    if let DownloadFormat::Cbz = format {
        dirs.push(Rating::Safe.to_string());
        dirs.push(Rating::Questionable.to_string());
        dirs.push(Rating::Explicit.to_string());
        dirs.push(Rating::Unknown.to_string());
    }
    assert(dirs@.map_values(|s: String| s@) =~= archive_directories_of(format));
    dirs
}

/// Name of the caption file of a post: its name and `.txt`.
pub open spec fn caption_name_of(post: Post, name_type: NameType) -> Seq<char> {
    post.spec_name(name_type) + seq!['.', 't', 'x', 't']
}

/// Path of the content entry of a post inside an archive of this format.
pub open spec fn entry_path_of(post: Post, name_type: NameType, format: DownloadFormat) -> Seq<
    char,
> {
    if format is CbzPool {
        post.spec_file_name(name_type)
    } else {
        rating_label(post.rating) + seq!['/'] + post.spec_file_name(name_type)
    }
}

/// Path of the caption entry of a post inside a grouped archive.
pub open spec fn caption_entry_path_of(post: Post, name_type: NameType) -> Seq<char> {
    rating_label(post.rating) + seq!['/'] + caption_name_of(post, name_type)
}

/// The caption file name of a post.
pub fn caption_name(post: &Post, name_type: NameType) -> (r: String)
    ensures
        r@ == caption_name_of(*post, name_type),
{
    proof {
        reveal_strlit(".txt");
    }
    post.name(name_type).concat(".txt")
}

fn under_rating(post: &Post, name: String) -> (r: String)
    ensures
        r@ == rating_label(post.rating) + seq!['/'] + name@,
{
    proof {
        reveal_strlit("/");
    }
    post.rating.to_string().concat("/").concat(name.as_str())
}

/// The path of a post's content entry in an archive of this format.
pub fn entry_path(post: &Post, name_type: NameType, format: DownloadFormat) -> (r: String)
    ensures
        r@ == entry_path_of(*post, name_type, format),
{
    let file = post.file_name(name_type);
    if let DownloadFormat::CbzPool = format {
        file
    } else {
        under_rating(post, file)
    }
}

/// The path of a post's caption entry in a grouped archive.
pub fn caption_entry_path(post: &Post, name_type: NameType) -> (r: String)
    ensures
        r@ == caption_entry_path_of(*post, name_type),
{
    under_rating(post, caption_name(post, name_type))
}

/// One entry to append to an archive: its path, its bytes, and whether to compress it.
#[derive(Debug)]
pub struct ArchiveEntry {
    pub path: String,
    pub data: Vec<u8>,
    pub compressed: bool,
}

/// The value of an archive entry.
pub struct EntryView {
    pub path: Seq<char>,
    pub data: Seq<u8>,
    pub compressed: bool,
}

impl View for ArchiveEntry {
    type V = EntryView;

    open spec fn view(&self) -> EntryView {
        EntryView { path: self.path@, data: self.data@, compressed: self.compressed }
    }
}

/// The entries that commit one fetched post to an archive, in the order they are written:
/// the content, stored as is, then, for a grouped archive with captions, the caption,
/// compressed.
pub open spec fn archive_entries_of(
    post: Post,
    name_type: NameType,
    format: DownloadFormat,
    annotate: bool,
    body: Seq<u8>,
) -> Seq<EntryView> {
    let content = EntryView {
        path: entry_path_of(post, name_type, format),
        data: body,
        compressed: false,
    };
    if annotate && format is Cbz {
        seq![
            content,
            EntryView {
                path: caption_entry_path_of(post, name_type),
                data: crate::post::caption_of(post.tags@),
                compressed: true,
            },
        ]
    } else {
        seq![content]
    }
}

/// Builds the entries that commit one fetched post to an archive.
pub fn archive_entries(
    post: &Post,
    name_type: NameType,
    format: DownloadFormat,
    annotate: bool,
    body: Vec<u8>,
) -> (r: Vec<ArchiveEntry>)
    ensures
        r@.map_values(|e: ArchiveEntry| e@) == archive_entries_of(
            *post,
            name_type,
            format,
            annotate,
            body@,
        ),
{
    let mut entries: Vec<ArchiveEntry> = Vec::new();
    entries.push(
        ArchiveEntry { path: entry_path(post, name_type, format), data: body, compressed: false },
    );
    if annotate {
        if let DownloadFormat::Cbz = format {
            entries.push(
                ArchiveEntry {
                    path: caption_entry_path(post, name_type),
                    data: post.caption_bytes(),
                    compressed: true,
                },
            );
        }
    }
    assert(entries@.map_values(|e: ArchiveEntry| e@) =~= archive_entries_of(
        *post,
        name_type,
        format,
        annotate,
        body@,
    ));
    entries
}

} // verus!
