use ibdl_core::pipeline::{ItemAction, ItemConfig, ItemEvent, ItemOutcome, ItemPipeline, ItemStage};
use ibdl_core::post::{NameType, Post, Rating, Tag, TagType};
use ibdl_core::sink::{archive_directories, DownloadFormat};

const ABC_MD5: &str = "900150983cd24fb0d6963f7d28e17f72";

fn post(id: u64, md5: &str, ext: &str, rating: Rating) -> Post {
    Post {
        id,
        md5: md5.to_string(),
        url: format!("https://example.org/{}", id),
        extension: ext.to_string(),
        tags: vec![Tag::new("short_hair", TagType::General), Tag::new("someone", TagType::Author)],
        rating,
    }
}

fn config(format: DownloadFormat, name_type: NameType, annotate: bool) -> ItemConfig {
    ItemConfig { format, name_type, annotate }
}

fn finished(action: &ItemAction) -> Option<ItemOutcome> {
    match action {
        ItemAction::Finish(o) => Some(*o),
        _ => None,
    }
}

#[test]
fn archive_starts_with_request() {
    let (_, a) = ItemPipeline::new(post(1, ABC_MD5, "jpg", Rating::Safe), config(DownloadFormat::Cbz, NameType::MD5, false));
    match a {
        ItemAction::Request(url) => assert_eq!(url, "https://example.org/1"),
        other => panic!("unexpected {:?}", other),
    }
}

#[test]
fn grouped_archive_layout_of_three_posts() {
    let posts = vec![
        post(1, "11111111111111111111111111111111", "png", Rating::Safe),
        post(2, "22222222222222222222222222222222", "jpg", Rating::Explicit),
        post(3, "33333333333333333333333333333333", "gif", Rating::Safe),
    ];
    let cfg = config(DownloadFormat::Cbz, NameType::MD5, false);
    let mut entries: Vec<String> = archive_directories(DownloadFormat::Cbz)
        .into_iter()
        .map(|d| format!("{}/", d))
        .collect();
    for p in posts {
        let (mut item, a) = ItemPipeline::new(p, cfg);
        assert!(matches!(a, ItemAction::Request(_)));
        let a = item.step(ItemEvent::Status(200));
        assert!(matches!(a, ItemAction::BufferBody));
        match item.step(ItemEvent::Body(vec![0xAB; 4])) {
            ItemAction::Append(es) => {
                assert_eq!(es.len(), 1);
                assert_eq!(es[0].data, vec![0xAB; 4]);
                entries.push(es[0].path.clone());
            }
            other => panic!("unexpected {:?}", other),
        }
        assert_eq!(finished(&item.step(ItemEvent::Completed)), Some(ItemOutcome::Downloaded));
    }
    assert_eq!(
        entries,
        vec![
            "Safe/",
            "Questionable/",
            "Explicit/",
            "Unknown/",
            "Safe/11111111111111111111111111111111.png",
            "Explicit/22222222222222222222222222222222.jpg",
            "Safe/33333333333333333333333333333333.gif",
        ]
    );
}

#[test]
fn grouped_archive_with_captions_appends_two_entries() {
    let (mut item, _) = ItemPipeline::new(post(5, ABC_MD5, "png", Rating::Questionable), config(DownloadFormat::Cbz, NameType::ID, true));
    item.step(ItemEvent::Status(200));
    match item.step(ItemEvent::Body(vec![1])) {
        ItemAction::Append(es) => {
            assert_eq!(es.len(), 2);
            assert_eq!(es[0].path, "Questionable/5.png");
            assert_eq!(es[1].path, "Questionable/5.txt");
            assert_eq!(es[1].data, b"short hair".to_vec());
        }
        other => panic!("unexpected {:?}", other),
    }
}

#[test]
fn pooled_archive_entries_are_flat() {
    let (mut item, _) = ItemPipeline::new(post(5, ABC_MD5, "png", Rating::Explicit), config(DownloadFormat::CbzPool, NameType::ID, true));
    item.step(ItemEvent::Status(200));
    match item.step(ItemEvent::Body(vec![1])) {
        ItemAction::Append(es) => {
            assert_eq!(es.len(), 1);
            assert_eq!(es[0].path, "5.png");
        }
        other => panic!("unexpected {:?}", other),
    }
}

#[test]
fn not_found_finishes_without_writing() {
    for format in [DownloadFormat::Cbz, DownloadFormat::CbzPool] {
        let (mut item, _) = ItemPipeline::new(post(8, ABC_MD5, "png", Rating::Safe), config(format, NameType::MD5, true));
        assert_eq!(finished(&item.step(ItemEvent::Status(404))), Some(ItemOutcome::RemoteNotFound));
        assert_eq!(item.stage, ItemStage::Done(ItemOutcome::RemoteNotFound));
    }
    let (mut item, _) = ItemPipeline::new(post(8, ABC_MD5, "png", Rating::Safe), config(DownloadFormat::Folder, NameType::MD5, true));
    item.step(ItemEvent::Exists(false));
    let a = item.step(ItemEvent::Exists(false));
    assert!(matches!(a, ItemAction::Request(_)));
    assert_eq!(finished(&item.step(ItemEvent::Status(404))), Some(ItemOutcome::RemoteNotFound));
    assert!(ItemOutcome::RemoteNotFound.is_failure());
    assert!(!ItemOutcome::RemoteNotFound.is_fatal());
}

#[test]
fn server_error_still_streams_body() {
    let (mut item, _) = ItemPipeline::new(post(8, ABC_MD5, "png", Rating::Safe), config(DownloadFormat::Cbz, NameType::MD5, false));
    assert!(matches!(item.step(ItemEvent::Status(500)), ItemAction::BufferBody));
}

#[test]
fn folder_skips_file_at_expected_path() {
    let (mut item, a) = ItemPipeline::new(post(77, ABC_MD5, "png", Rating::Safe), config(DownloadFormat::Folder, NameType::ID, false));
    match a {
        ItemAction::Probe(name) => assert_eq!(name, "77.png"),
        other => panic!("unexpected {:?}", other),
    }
    assert_eq!(finished(&item.step(ItemEvent::Exists(true))), Some(ItemOutcome::Skipped));
}

#[test]
fn folder_skip_with_captions_writes_caption_first() {
    let (mut item, _) = ItemPipeline::new(post(77, ABC_MD5, "png", Rating::Safe), config(DownloadFormat::Folder, NameType::ID, true));
    match item.step(ItemEvent::Exists(true)) {
        ItemAction::WriteFile { name, data } => {
            assert_eq!(name, "77.txt");
            assert_eq!(data, b"short hair".to_vec());
        }
        other => panic!("unexpected {:?}", other),
    }
    // A caption that could not be written does not change the outcome.
    assert_eq!(finished(&item.step(ItemEvent::Failed)), Some(ItemOutcome::Skipped));
}

#[test]
fn folder_recovers_file_under_other_name() {
    let (mut item, _) = ItemPipeline::new(post(77, ABC_MD5, "png", Rating::Safe), config(DownloadFormat::Folder, NameType::ID, false));
    match item.step(ItemEvent::Exists(false)) {
        ItemAction::Probe(name) => assert_eq!(name, format!("{}.png", ABC_MD5)),
        other => panic!("unexpected {:?}", other),
    }
    match item.step(ItemEvent::Exists(true)) {
        ItemAction::Read(name) => assert_eq!(name, format!("{}.png", ABC_MD5)),
        other => panic!("unexpected {:?}", other),
    }
    match item.step(ItemEvent::Contents(b"abc".to_vec())) {
        ItemAction::Rename { from, to } => {
            assert_eq!(from, format!("{}.png", ABC_MD5));
            assert_eq!(to, "77.png");
        }
        other => panic!("unexpected {:?}", other),
    }
    assert_eq!(finished(&item.step(ItemEvent::Completed)), Some(ItemOutcome::Recovered));
}

#[test]
fn folder_recovers_by_digest_given_directly() {
    let (mut item, _) = ItemPipeline::new(post(77, ABC_MD5, "png", Rating::Safe), config(DownloadFormat::Folder, NameType::MD5, false));
    item.step(ItemEvent::Exists(false));
    item.step(ItemEvent::Exists(true));
    match item.on_alternate_digest(&ABC_MD5.to_string()) {
        ItemAction::Rename { from, to } => {
            assert_eq!(from, "77.png");
            assert_eq!(to, format!("{}.png", ABC_MD5));
        }
        other => panic!("unexpected {:?}", other),
    }
}

#[test]
fn folder_replaces_stale_file_and_fetches_once() {
    let (mut item, _) = ItemPipeline::new(post(77, ABC_MD5, "png", Rating::Safe), config(DownloadFormat::Folder, NameType::MD5, false));
    item.step(ItemEvent::Exists(false));
    item.step(ItemEvent::Exists(true));
    match item.step(ItemEvent::Contents(b"not the post".to_vec())) {
        ItemAction::Remove(name) => assert_eq!(name, "77.png"),
        other => panic!("unexpected {:?}", other),
    }
    let mut requests = 0;
    let mut action = item.step(ItemEvent::Completed);
    loop {
        let event = match &action {
            ItemAction::Request(_) => {
                requests += 1;
                ItemEvent::Status(200)
            }
            ItemAction::StreamToFile(name) => {
                assert_eq!(name, &format!("{}.png", ABC_MD5));
                ItemEvent::Completed
            }
            ItemAction::Finish(o) => {
                assert_eq!(*o, ItemOutcome::Downloaded);
                break;
            }
            other => panic!("unexpected {:?}", other),
        };
        action = item.step(event);
    }
    assert_eq!(requests, 1);
}

#[test]
fn check_errors_fail_the_item() {
    let (mut item, _) = ItemPipeline::new(post(1, ABC_MD5, "png", Rating::Safe), config(DownloadFormat::Folder, NameType::ID, false));
    assert_eq!(finished(&item.step(ItemEvent::Failed)), Some(ItemOutcome::CheckFailed));
}

#[test]
fn stream_and_request_errors_fail_the_item() {
    let (mut item, _) = ItemPipeline::new(post(1, ABC_MD5, "png", Rating::Safe), config(DownloadFormat::Cbz, NameType::ID, false));
    assert_eq!(finished(&item.step(ItemEvent::Failed)), Some(ItemOutcome::RequestFailed));
    let (mut item, _) = ItemPipeline::new(post(1, ABC_MD5, "png", Rating::Safe), config(DownloadFormat::Cbz, NameType::ID, false));
    item.step(ItemEvent::Status(200));
    assert_eq!(finished(&item.step(ItemEvent::Failed)), Some(ItemOutcome::ChunkDownloadFailed));
}

#[test]
fn archive_write_error_is_fatal() {
    let (mut item, _) = ItemPipeline::new(post(1, ABC_MD5, "png", Rating::Safe), config(DownloadFormat::Cbz, NameType::ID, false));
    item.step(ItemEvent::Status(200));
    item.step(ItemEvent::Body(vec![]));
    let a = item.step(ItemEvent::Failed);
    assert_eq!(finished(&a), Some(ItemOutcome::ArchiveWriteFailed));
    assert!(ItemOutcome::ArchiveWriteFailed.is_fatal());
    assert!(!ItemOutcome::ArchiveWriteFailed.is_failure());
}

#[test]
fn accepts_only_answers_to_the_pending_action() {
    let (item, _) = ItemPipeline::new(post(1, ABC_MD5, "png", Rating::Safe), config(DownloadFormat::Folder, NameType::ID, false));
    assert!(item.accepts(&ItemEvent::Exists(true)));
    assert!(item.accepts(&ItemEvent::Failed));
    assert!(!item.accepts(&ItemEvent::Status(200)));
    assert!(!item.accepts(&ItemEvent::Completed));
}
