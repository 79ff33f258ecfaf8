use ibdl_core::board::{
    archive_comment, out_dir_suffix, output_target, BarTemplates, ImageBoards, DEFAULT_DOWNLOAD, DEFAULT_MAIN, E621_DOWNLOAD,
    E621_MAIN, REALBOORU_DOWNLOAD, REALBOORU_MAIN,
};
use ibdl_core::common::CommonPostItem;
use ibdl_core::integrity::{content_matches, digest_matches};
use ibdl_core::post::{decimal_string, NameType, Post, Rating, Tag, TagType};
use ibdl_core::sink::{
    archive_directories, archive_entries, caption_entry_path, caption_name, entry_path,
    DownloadFormat,
};

fn post(id: u64, md5: &str, ext: &str, rating: Rating, tags: Vec<Tag>) -> Post {
    Post {
        id,
        md5: md5.to_string(),
        url: format!("https://example.org/{}.{}", md5, ext),
        extension: ext.to_string(),
        tags,
        rating,
    }
}

#[test]
fn download_format_flags() {
    assert!(DownloadFormat::Cbz.download_cbz());
    assert!(DownloadFormat::CbzPool.download_cbz());
    assert!(!DownloadFormat::Folder.download_cbz());
    assert!(!DownloadFormat::Cbz.download_pool_cbz());
    assert!(DownloadFormat::CbzPool.download_pool_cbz());
    assert!(!DownloadFormat::Folder.download_pool_cbz());
}

#[test]
fn download_format_from_flags() {
    assert_eq!(DownloadFormat::from_flags(true, true), DownloadFormat::CbzPool);
    assert_eq!(DownloadFormat::from_flags(true, false), DownloadFormat::Cbz);
    assert_eq!(DownloadFormat::from_flags(false, true), DownloadFormat::Folder);
    assert_eq!(DownloadFormat::from_flags(false, false), DownloadFormat::Folder);
}

#[test]
fn decimal_of_ids() {
    assert_eq!(decimal_string(0), "0");
    assert_eq!(decimal_string(7), "7");
    assert_eq!(decimal_string(10), "10");
    assert_eq!(decimal_string(4567890), "4567890");
    assert_eq!(decimal_string(u64::MAX), "18446744073709551615");
}

#[test]
fn file_names_by_name_type() {
    let p = post(1234, "0123456789abcdef0123456789abcdef", "png", Rating::Safe, vec![]);
    assert_eq!(p.name(NameType::ID), "1234");
    assert_eq!(p.name(NameType::MD5), "0123456789abcdef0123456789abcdef");
    assert_eq!(p.file_name(NameType::ID), "1234.png");
    assert_eq!(p.file_name(NameType::MD5), "0123456789abcdef0123456789abcdef.png");
    assert_eq!(NameType::ID.other(), NameType::MD5);
    assert_eq!(NameType::MD5.other(), NameType::ID);
}

#[test]
fn rating_labels() {
    assert_eq!(Rating::Safe.to_string(), "Safe");
    assert_eq!(Rating::Questionable.to_string(), "Questionable");
    assert_eq!(Rating::Explicit.to_string(), "Explicit");
    assert_eq!(Rating::Unknown.to_string(), "Unknown");
}

#[test]
fn caption_keeps_prompt_tags_with_spaces() {
    let tags = vec![
        Tag::new("long_hair", TagType::General),
        Tag::new("some_artist", TagType::Author),
        Tag::new("hatsune_miku", TagType::Character),
        Tag::new("vocaloid", TagType::Copyright),
        Tag::new("highres", TagType::Meta),
        Tag::new("cat", TagType::Species),
    ];
    let p = post(1, "aa", "jpg", Rating::Safe, tags);
    assert_eq!(p.caption_bytes(), b"long hair, hatsune miku, cat".to_vec());
}

#[test]
fn caption_of_no_prompt_tags_is_empty() {
    let p = post(1, "aa", "jpg", Rating::Safe, vec![Tag::new("artist_x", TagType::Author)]);
    assert!(p.caption_bytes().is_empty());
    let q = post(1, "aa", "jpg", Rating::Safe, vec![]);
    assert!(q.caption_bytes().is_empty());
}

#[test]
fn caption_keeps_non_ascii_text() {
    let p = post(1, "aa", "jpg", Rating::Safe, vec![Tag::new("café_au_lait", TagType::General)]);
    assert_eq!(p.caption_bytes(), "café au lait".as_bytes().to_vec());
}

#[test]
fn tag_accessors() {
    let t = Tag::new("blue_sky", TagType::General);
    assert_eq!(t.tag(), "blue_sky");
    assert!(t.is_prompt_tag());
    assert!(!Tag::new("x", TagType::Lore).is_prompt_tag());
}

#[test]
fn grouped_archive_directories() {
    assert_eq!(archive_directories(DownloadFormat::Cbz), vec!["Safe", "Questionable", "Explicit", "Unknown"]);
    assert!(archive_directories(DownloadFormat::CbzPool).is_empty());
    assert!(archive_directories(DownloadFormat::Folder).is_empty());
}

#[test]
fn entry_paths_by_format() {
    let p = post(42, "ffee", "gif", Rating::Explicit, vec![]);
    assert_eq!(entry_path(&p, NameType::MD5, DownloadFormat::Cbz), "Explicit/ffee.gif");
    assert_eq!(entry_path(&p, NameType::ID, DownloadFormat::Cbz), "Explicit/42.gif");
    assert_eq!(entry_path(&p, NameType::MD5, DownloadFormat::CbzPool), "ffee.gif");
    assert_eq!(caption_entry_path(&p, NameType::ID), "Explicit/42.txt");
    assert_eq!(caption_name(&p, NameType::MD5), "ffee.txt");
}

#[test]
fn archive_entries_with_and_without_caption() {
    let p = post(9, "abcd", "png", Rating::Questionable, vec![Tag::new("red_eyes", TagType::General)]);
    let with = archive_entries(&p, NameType::ID, DownloadFormat::Cbz, true, vec![1, 2, 3]);
    assert_eq!(with.len(), 2);
    assert_eq!(with[0].path, "Questionable/9.png");
    assert_eq!(with[0].data, vec![1, 2, 3]);
    assert!(!with[0].compressed);
    assert_eq!(with[1].path, "Questionable/9.txt");
    assert_eq!(with[1].data, b"red eyes".to_vec());
    assert!(with[1].compressed);
    let pooled = archive_entries(&p, NameType::ID, DownloadFormat::CbzPool, true, vec![5]);
    assert_eq!(pooled.len(), 1);
    assert_eq!(pooled[0].path, "9.png");
    let plain = archive_entries(&p, NameType::ID, DownloadFormat::Cbz, false, vec![5]);
    assert_eq!(plain.len(), 1);
}

#[test]
fn output_directory_suffix() {
    let tags = "kroos_(arknights)+weapon".to_string();
    assert_eq!(out_dir_suffix(ImageBoards::Danbooru, &tags), "danbooru/kroos_(arknights)+weapon");
    assert_eq!(ImageBoards::E621.to_string(), "e621");
    assert_eq!(ImageBoards::Rule34.to_string(), "rule34");
}

#[test]
fn themed_bar_templates() {
    let e = BarTemplates::new(ImageBoards::E621);
    assert_eq!(e.main, E621_MAIN);
    assert_eq!(e.download, E621_DOWNLOAD);
    let r = BarTemplates::new(ImageBoards::Realbooru);
    assert_eq!(r.main, REALBOORU_MAIN);
    assert_eq!(r.download, REALBOORU_DOWNLOAD);
    let d = BarTemplates::new(ImageBoards::Danbooru);
    assert_eq!(d.main, DEFAULT_MAIN);
    assert_eq!(d.download, DEFAULT_DOWNLOAD);
    let z = BarTemplates::default();
    assert_eq!(z.main, DEFAULT_MAIN);
}

#[test]
fn digests_of_contents() {
    let abc = "900150983cd24fb0d6963f7d28e17f72".to_string();
    assert!(content_matches(&b"abc".to_vec(), &abc));
    assert!(!content_matches(&b"abd".to_vec(), &abc));
    assert!(content_matches(&Vec::new(), &"d41d8cd98f00b204e9800998ecf8427e".to_string()));
    assert!(!content_matches(&b"abc".to_vec(), &"abc".to_string()));
    assert!(digest_matches(&abc, &abc.clone()));
    assert!(!digest_matches(&abc, &"900150983cd24fb0d6963f7d28e17f73".to_string()));
}

#[test]
fn common_item_names_and_fetch_decision() {
    let item = CommonPostItem {
        url: "https://example.org/a.png".to_string(),
        md5: "900150983cd24fb0d6963f7d28e17f72".to_string(),
        ext: "png".to_string(),
    };
    assert_eq!(item.file_name(), "900150983cd24fb0d6963f7d28e17f72.png");
    assert!(item.must_fetch(None));
    assert!(!item.must_fetch(Some(&b"abc".to_vec())));
    assert!(item.must_fetch(Some(&b"corrupt".to_vec())));
}

#[test]
fn output_targets() {
    let tags = "umbreon espeon".to_string();
    assert_eq!(output_target(ImageBoards::Konachan, &tags, true), "konachan/umbreon espeon.cbz");
    assert_eq!(output_target(ImageBoards::Konachan, &tags, false), "konachan/umbreon espeon");
}

#[test]
fn archive_comment_text() {
    let tags = "umbreon espeon".to_string();
    assert_eq!(
        archive_comment(ImageBoards::Gelbooru, &tags, 120),
        "ImageBoard Downloader\n\nWebsite: gelbooru\n\nTags: umbreon espeon\n\nPosts: 120"
    );
}
