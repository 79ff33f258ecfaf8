//! The imageboards a run can target, and the progress-bar templates themed for each.
use crate::post::{decimal, decimal_string};
use vstd::prelude::*;

verus! {

/// A supported imageboard site.
#[derive(Clone, Copy, Debug, PartialEq, Eq, Structural)]
pub enum ImageBoards {
    Danbooru,
    E621,
    Gelbooru,
    Konachan,
    Realbooru,
    Rule34,
}

/// The lower-case name of a site, as used in output paths.
pub open spec fn board_name(b: ImageBoards) -> Seq<char> {
    match b {
        ImageBoards::Danbooru => seq!['d', 'a', 'n', 'b', 'o', 'o', 'r', 'u'],
        ImageBoards::E621 => seq!['e', '6', '2', '1'],
        ImageBoards::Gelbooru => seq!['g', 'e', 'l', 'b', 'o', 'o', 'r', 'u'],
        ImageBoards::Konachan => seq!['k', 'o', 'n', 'a', 'c', 'h', 'a', 'n'],
        ImageBoards::Realbooru => seq!['r', 'e', 'a', 'l', 'b', 'o', 'o', 'r', 'u'],
        ImageBoards::Rule34 => seq!['r', 'u', 'l', 'e', '3', '4'],
    }
}

impl ImageBoards {
    /// The site's lower-case name.
    pub fn to_string(&self) -> (r: String)
        ensures
            r@ == board_name(*self),
    {
        proof {
            reveal_strlit("danbooru");
            reveal_strlit("e621");
            reveal_strlit("gelbooru");
            reveal_strlit("konachan");
            reveal_strlit("realbooru");
            reveal_strlit("rule34");
        }
        let s: &str = match self {
            ImageBoards::Danbooru => "danbooru",
            ImageBoards::E621 => "e621",
            ImageBoards::Gelbooru => "gelbooru",
            ImageBoards::Konachan => "konachan",
            ImageBoards::Realbooru => "realbooru",
            ImageBoards::Rule34 => "rule34",
        };
        String::from_str(s)
    }
}

/// The output directory of a search, relative to the chosen base: the site's name, a
/// slash, and the tag string.
pub open spec fn out_dir_suffix_of(imageboard: ImageBoards, tag_string: Seq<char>) -> Seq<char> {
    board_name(imageboard) + seq!['/'] + tag_string
}

/// The output directory of a search, relative to the chosen base.
pub fn out_dir_suffix(imageboard: ImageBoards, tag_string: &String) -> (r: String)
    ensures
        r@ == out_dir_suffix_of(imageboard, tag_string@),
{
    proof {
        reveal_strlit("/");
    }
    imageboard.to_string().concat("/").concat(tag_string.as_str())
}

/// Where the output of a search goes, relative to the chosen base: its directory, or, for
/// an archive, that path with `.cbz` appended.
pub open spec fn output_target_of(imageboard: ImageBoards, tag_string: Seq<char>, cbz: bool) -> Seq<
    char,
> {
    if cbz {
        out_dir_suffix_of(imageboard, tag_string) + seq!['.', 'c', 'b', 'z']
    } else {
        out_dir_suffix_of(imageboard, tag_string)
    }
}

/// Where the output of a search goes, relative to the chosen base.
pub fn output_target(imageboard: ImageBoards, tag_string: &String, cbz: bool) -> (r: String)
    ensures
        r@ == output_target_of(imageboard, tag_string@, cbz),
{
    proof {
        reveal_strlit(".cbz");
    }
    let dir = out_dir_suffix(imageboard, tag_string);
    if cbz {
        dir.concat(".cbz")
    } else {
        dir
    }
}

/// The comment of an archive: the site, the tags and the number of posts of its search.
pub open spec fn archive_comment_of(imageboard: ImageBoards, tag_string: Seq<char>, posts: nat) -> Seq<
    char,
> {
    "ImageBoard Downloader\n\nWebsite: "@ + board_name(imageboard) + "\n\nTags: "@ + tag_string
        + "\n\nPosts: "@ + decimal(posts)
}

/// The comment of an archive: the site, the tags and the number of posts of its search.
pub fn archive_comment(imageboard: ImageBoards, tag_string: &String, posts: u64) -> (r: String)
    ensures
        r@ == archive_comment_of(imageboard, tag_string@, posts as nat),
{
    let head = String::from_str("ImageBoard Downloader\n\nWebsite: ");
    let site = imageboard.to_string();
    let with_site = head.concat(site.as_str());
    let with_tags = with_site.concat("\n\nTags: ").concat(tag_string.as_str());
    let count = decimal_string(posts);
    with_tags.concat("\n\nPosts: ").concat(count.as_str())
}

/// Bar of the whole run, themed for e621.
pub const E621_MAIN: &'static str = "{spinner:.yellow.bold} {elapsed_precise:.bold} {wide_bar:.blue/white.dim} {percent:.bold}  {pos:.yellow} (eta. {eta})";

/// Bar of one download, themed for e621.
pub const E621_DOWNLOAD: &'static str = "{spinner:.blue.bold} {bar:40.yellow/white.dim} {percent:.bold} | {byte_progress:21.blue} @ {bytes_per_sec:>13.yellow} (eta. {eta:<4.blue})";

/// Bar of the whole run, themed for Realbooru.
pub const REALBOORU_MAIN: &'static str = "{spinner:.red.bold} {elapsed_precise:.bold} {wide_bar:.red/white.dim} {percent:.bold}  {pos:.bold} (eta. {eta})";

/// Bar of one download, themed for Realbooru.
pub const REALBOORU_DOWNLOAD: &'static str = "{spinner:.red.bold} {bar:40.red/white.dim} {percent:.bold} | {byte_progress:21.bold.green} @ {bytes_per_sec:>13.red} (eta. {eta:<4})";

/// Bar of the whole run, for sites without a theme.
pub const DEFAULT_MAIN: &'static str = "{spinner:.green.bold} {elapsed_precise:.bold} {wide_bar:.green/white.dim} {percent:.bold}  {pos:.green} (eta. {eta:.blue})";

/// Bar of one download, for sites without a theme.
pub const DEFAULT_DOWNLOAD: &'static str = "{spinner:.green.bold} {bar:40.green/white.dim} {percent:.bold} | {byte_progress:21.green} @ {bytes_per_sec:>13.red} (eta. {eta:<4.blue})";

/// Progress-bar templates: one for the bar of the whole run, one for each download.
pub struct BarTemplates {
    pub main: &'static str,
    pub download: &'static str,
}

impl BarTemplates {
    /// The templates themed for a site; sites without a theme get the default ones.
    pub fn new(imageboard: ImageBoards) -> (r: Self)
        ensures
            imageboard is E621 ==> r.main == E621_MAIN && r.download == E621_DOWNLOAD,
            imageboard is Realbooru ==> r.main == REALBOORU_MAIN && r.download
                == REALBOORU_DOWNLOAD,
            !(imageboard is E621 || imageboard is Realbooru) ==> r.main == DEFAULT_MAIN
                && r.download == DEFAULT_DOWNLOAD,
    {
        match imageboard {
            ImageBoards::E621 => BarTemplates { main: E621_MAIN, download: E621_DOWNLOAD },
            ImageBoards::Realbooru => BarTemplates {
                main: REALBOORU_MAIN,
                download: REALBOORU_DOWNLOAD,
            },
            _ => BarTemplates::default(),
        }
    }
}

impl Default for BarTemplates {
    fn default() -> (r: Self)
        ensures
            r.main == DEFAULT_MAIN,
            r.download == DEFAULT_DOWNLOAD,
    {
        BarTemplates { main: DEFAULT_MAIN, download: DEFAULT_DOWNLOAD }
    }
}

} // verus!
