use ibdl_core::extract::{
    blacklist_filter, check_post_count, danbooru_continues, is_blacklisted, join_tags,
    moebooru_continues, page_position, validate_tag_count, ExtractorError, DANBOORU_MAX_TAGS,
    MAX_PAGES, MOEBOORU_FULL_PAGE,
};
use ibdl_core::post::{Post, Rating, Tag, TagType};

fn post(id: u64, tags: &[&str]) -> Post {
    Post {
        id,
        md5: format!("{:032}", id),
        url: format!("https://example.org/{}", id),
        extension: "png".to_string(),
        tags: tags.iter().map(|t| Tag::new(t, TagType::General)).collect(),
        rating: Rating::Safe,
    }
}

#[test]
fn tags_joined_with_plus() {
    let tags = vec!["kroos_(arknights)".to_string(), "weapon".to_string()];
    assert_eq!(join_tags(&tags), "kroos_(arknights)+weapon");
    assert_eq!(join_tags(&vec!["solo".to_string()]), "solo");
    assert_eq!(join_tags(&vec![]), "");
}

#[test]
fn too_many_tags_are_refused() {
    assert_eq!(validate_tag_count(2, DANBOORU_MAX_TAGS), Ok(()));
    assert_eq!(validate_tag_count(0, DANBOORU_MAX_TAGS), Ok(()));
    assert_eq!(
        validate_tag_count(3, DANBOORU_MAX_TAGS),
        Err(ExtractorError::TooManyTags { current: 3, max: 2 })
    );
}

#[test]
fn post_counts() {
    assert_eq!(check_post_count(None), Err(ExtractorError::InvalidServerResponse));
    assert_eq!(check_post_count(Some(0)), Err(ExtractorError::ZeroPosts));
    assert_eq!(check_post_count(Some(41)), Ok(41));
}

#[test]
fn blacklist_removes_matching_posts_in_order() {
    let mut list = vec![
        post(1, &["cat", "dog"]),
        post(2, &["gore"]),
        post(3, &["tree"]),
        post(4, &["sky", "spider"]),
        post(5, &[]),
    ];
    let blacklist = vec!["gore".to_string(), "spider".to_string()];
    assert!(is_blacklisted(&list[1], &blacklist));
    assert!(!is_blacklisted(&list[0], &blacklist));
    let removed = blacklist_filter(&mut list, &blacklist);
    assert_eq!(removed, 2);
    let ids: Vec<u64> = list.iter().map(|p| p.id).collect();
    assert_eq!(ids, vec![1, 3, 5]);
}

#[test]
fn empty_blacklist_keeps_everything() {
    let mut list = vec![post(1, &["a"]), post(2, &["b"])];
    assert_eq!(blacklist_filter(&mut list, &vec![]), 0);
    assert_eq!(list.len(), 2);
}

#[test]
fn page_positions() {
    assert_eq!(page_position(1, None), 1);
    assert_eq!(page_position(3, Some(10)), 13);
}

#[test]
fn danbooru_paging_stops() {
    assert!(danbooru_continues(1, 200, 200, None));
    assert!(!danbooru_continues(1, 0, 0, None));
    assert!(!danbooru_continues(2, 200, 400, Some(300)));
    assert!(danbooru_continues(2, 200, 250, Some(300)));
    assert!(!danbooru_continues(MAX_PAGES, 200, 200, None));
}

#[test]
fn moebooru_paging_stops() {
    assert!(moebooru_continues(1, MOEBOORU_FULL_PAGE));
    assert!(!moebooru_continues(1, MOEBOORU_FULL_PAGE - 1));
    assert!(!moebooru_continues(1, 0));
    assert!(!moebooru_continues(MAX_PAGES, 500));
}
