use aoba_client::components::media_grid::{is_item_selected, items_after_class_change, items_after_delete, list_after_class_change, list_after_delete, pagination_info};
use aoba_client::components::media_item::{item_id, selected_class, thumb_kind, ThumbKind};
use aoba_client::components::media_item_context_menu_items::{bulk_class_options, bulk_mark_label, class_options, copy_url_toast, mark_label, media_page_path, URL_TOAST_SECONDS};
use aoba_client::models::toasts::{ToastCommand, ToastLevel};
use std::time::Duration;
use aoba_client::components::selection_bar::share_links;
use aoba_client::models::media::{Media, MediaType as StoredType};
use aoba_client::rpc::aoba::{Dimensions, Id, MediaClass, MediaModel, MediaType, Pagination, Thumbnail, ThumbnailSize};
use aoba_client::views::media::extra_download_formats;

fn model(id: Option<&str>, class: MediaClass) -> MediaModel {
    MediaModel {
        id: id.map(|v| Id { value: v.to_string() }),
        filename: format!("{}.png", id.unwrap_or("none")),
        media_type: MediaType::Image.code(),
        class: class.code(),
        thumb_url: String::new(),
        media_url: String::new(),
        cdn_url: String::new(),
        view_count: 0,
        tags: Vec::new(),
        dimensions: None,
        thumbnails: Vec::new(),
    }
}

fn ids(items: &[MediaModel]) -> Vec<String> {
    items.iter().map(|m| item_id(m)).collect()
}

#[test]
fn thumbnail_lookup_takes_first_of_size() {
    let mut m = model(Some("a"), MediaClass::Standard);
    m.thumbnails = vec![
        Thumbnail { size: ThumbnailSize::Large.code(), url: "large".into() },
        Thumbnail { size: ThumbnailSize::Small.code(), url: "small-1".into() },
        Thumbnail { size: ThumbnailSize::Small.code(), url: "small-2".into() },
        Thumbnail { size: 99, url: "odd".into() },
    ];
    assert_eq!(m.get_thumbnail_url(ThumbnailSize::Small), Some("small-1".to_string()));
    assert_eq!(m.get_thumbnail_url(ThumbnailSize::Large), Some("large".to_string()));
    assert_eq!(m.get_thumbnail_url(ThumbnailSize::Medium), None);
    // An unknown code reads as the code-0 size.
    assert_eq!(m.get_thumbnail_url(ThumbnailSize::Unspecified), Some("odd".to_string()));
}

#[test]
fn class_names_and_display() {
    assert_eq!(MediaClass::Nsfw.to_class_name(), "blur");
    assert_eq!(MediaClass::Secret.to_class_name(), "secret");
    assert_eq!(MediaClass::Standard.to_class_name(), "");
    assert_eq!(MediaClass::Unspecified.to_class_name(), "");
    assert_eq!(MediaClass::Unspecified.to_string(), "Unkown");
    assert_eq!(MediaClass::Nsfw.to_string(), "NSFW");
    assert_eq!(MediaType::Code.to_string(), "Code");
    assert_eq!(MediaType::Unspecified.to_string(), "Unknown");
    assert_eq!(Dimensions { height: 1080, width: 1920 }.to_string(), "1080x1920");
}

#[test]
fn wire_codes_round_trip() {
    for c in [MediaClass::Unspecified, MediaClass::Standard, MediaClass::Nsfw, MediaClass::Secret] {
        assert_eq!(MediaClass::from_code(c.code()), Some(c));
    }
    for t in [MediaType::Unspecified, MediaType::Image, MediaType::Raw] {
        assert_eq!(MediaType::from_code(t.code()), Some(t));
    }
    assert_eq!(MediaClass::from_code(4), None);
    let mut m = model(Some("a"), MediaClass::Secret);
    assert_eq!(m.class(), MediaClass::Secret);
    m.class = 42;
    assert_eq!(m.class(), MediaClass::Unspecified);
    m.media_type = MediaType::Video.code();
    assert_eq!(m.media_type(), MediaType::Video);
}

#[test]
fn stored_media_type_codes() {
    assert_eq!(StoredType::Image.to_repr(), 0);
    assert_eq!(StoredType::Raw.to_repr(), 5);
    for t in [StoredType::Image, StoredType::Audio, StoredType::Video, StoredType::Text, StoredType::Code, StoredType::Raw] {
        assert!(StoredType::from_repr(t.to_repr()) == Some(t));
    }
    assert!(StoredType::from_repr(6).is_none());
    let m = Media {
        id: "1".into(),
        media_id: "2".into(),
        filename: "f".into(),
        media_type: StoredType::Text,
        ext: ".txt".into(),
        view_count: 3,
        owner: "o".into(),
    };
    assert!(m.clone() == m);
}

#[test]
fn grid_after_delete_keeps_matching_id() {
    let items = vec![model(Some("a"), MediaClass::Standard), model(None, MediaClass::Standard), model(Some("b"), MediaClass::Standard), model(Some("a"), MediaClass::Nsfw)];
    let kept = items_after_delete(items, &"a".to_string());
    assert_eq!(ids(&kept), vec!["a".to_string(), "a".to_string()]);
}

#[test]
fn grid_after_class_change() {
    let items = vec![model(Some("a"), MediaClass::Standard), model(Some("b"), MediaClass::Standard), model(None, MediaClass::Standard)];
    let updated = items_after_class_change(items, &"b".to_string(), MediaClass::Secret);
    let classes: Vec<MediaClass> = updated.iter().map(|m| m.class()).collect();
    assert_eq!(classes, vec![MediaClass::Standard, MediaClass::Secret, MediaClass::Standard]);
    assert_eq!(ids(&updated), vec!["a".to_string(), "b".to_string(), String::new()]);
}

#[test]
fn grid_selection_and_pagination() {
    let selected = vec!["b".to_string()];
    assert!(is_item_selected(&model(Some("b"), MediaClass::Standard), &selected));
    assert!(!is_item_selected(&model(Some("a"), MediaClass::Standard), &selected));
    assert!(!is_item_selected(&model(None, MediaClass::Standard), &selected));
    let info = pagination_info(&Some(Pagination { total_pages: 4, total_items: 350 })).unwrap();
    assert_eq!((info.total_pages, info.total_items), (4, 350));
    assert!(pagination_info(&None).is_none());
}

#[test]
fn item_presentation() {
    assert_eq!(thumb_kind(MediaType::Video), ThumbKind::Video);
    assert_eq!(thumb_kind(MediaType::Raw), ThumbKind::Stack);
    assert_eq!(thumb_kind(MediaType::Audio), ThumbKind::Image);
    assert_eq!(selected_class(true), "selected");
    assert_eq!(selected_class(false), "");
    assert_eq!(item_id(&model(None, MediaClass::Standard)), "");
    assert_eq!(extra_download_formats(MediaType::Image), vec!["Webp", "Avif", "Png"]);
    assert!(extra_download_formats(MediaType::Video).is_empty());
}

#[test]
fn context_menu_entries() {
    assert_eq!(class_options(MediaClass::Standard), vec![MediaClass::Nsfw, MediaClass::Secret]);
    assert_eq!(class_options(MediaClass::Nsfw), vec![MediaClass::Standard, MediaClass::Secret]);
    assert_eq!(class_options(MediaClass::Secret), vec![MediaClass::Standard, MediaClass::Nsfw]);
    assert_eq!(class_options(MediaClass::Unspecified), vec![MediaClass::Standard, MediaClass::Nsfw, MediaClass::Secret]);
    assert_eq!(bulk_class_options(0), Vec::<MediaClass>::new());
    assert_eq!(bulk_class_options(2), vec![MediaClass::Nsfw, MediaClass::Secret, MediaClass::Standard]);
    assert_eq!(media_page_path(&"abc".to_string()), "/media/abc");
}

#[test]
fn share_links_are_joined_by_lines() {
    assert_eq!(share_links("https://aoba.app", &vec![]), "");
    assert_eq!(share_links("https://aoba.app", &vec!["x".to_string()]), "https://aoba.app/m/x");
    assert_eq!(
        share_links("http://localhost:8081", &vec!["x".to_string(), "y".to_string()]),
        "http://localhost:8081/m/x\nhttp://localhost:8081/m/y"
    );
}

#[test]
fn copy_url_toasts_and_labels() {
    let d = Duration::from_secs(URL_TOAST_SECONDS);
    assert_eq!(URL_TOAST_SECONDS, 5);
    assert_eq!(
        copy_url_toast(true, d),
        ToastCommand::Push { title: "Failed to copy url".into(), message: None, level: ToastLevel::Error, duration: Some(d) }
    );
    assert_eq!(
        copy_url_toast(false, d),
        ToastCommand::Push { title: "Url copied".into(), message: None, level: ToastLevel::Info, duration: Some(d) }
    );
    assert_eq!(mark_label(MediaClass::Nsfw), "Mark NSFW");
    assert_eq!(mark_label(MediaClass::Standard), "Mark Standard");
    assert_eq!(bulk_mark_label(MediaClass::Secret), "Mark as Secret");
    assert_eq!(bulk_mark_label(MediaClass::Standard), "Mark as Standard");
}

fn thumb(size: ThumbnailSize, url: &str) -> Thumbnail {
    Thumbnail { size: size.code(), url: url.to_string() }
}

#[test]
fn thumbnail_lookup_ignores_other_sizes_and_later_additions() {
    let mut m = model(Some("a"), MediaClass::Standard);
    m.thumbnails = vec![thumb(ThumbnailSize::Large, "l"), thumb(ThumbnailSize::Small, "s1")];
    assert_eq!(m.get_thumbnail_url(ThumbnailSize::Small), Some("s1".to_string()));
    for at in 0..=2 {
        let mut n = model(Some("a"), MediaClass::Standard);
        n.thumbnails = vec![thumb(ThumbnailSize::Large, "l"), thumb(ThumbnailSize::Small, "s1")];
        n.thumbnails.insert(at, thumb(ThumbnailSize::Medium, "m"));
        assert_eq!(n.get_thumbnail_url(ThumbnailSize::Small), Some("s1".to_string()));
    }
    m.thumbnails.push(thumb(ThumbnailSize::Small, "s2"));
    assert_eq!(m.get_thumbnail_url(ThumbnailSize::Small), Some("s1".to_string()));
    let mut none = model(Some("b"), MediaClass::Standard);
    none.thumbnails = vec![thumb(ThumbnailSize::Large, "l")];
    assert_eq!(none.get_thumbnail_url(ThumbnailSize::Small), None);
    none.thumbnails.push(thumb(ThumbnailSize::Small, "s"));
    assert_eq!(none.get_thumbnail_url(ThumbnailSize::Small), Some("s".to_string()));
}

#[test]
fn grid_list_changes_only_after_confirmed_delete() {
    let items = || vec![model(Some("a"), MediaClass::Standard), model(Some("b"), MediaClass::Standard)];
    let id = "a".to_string();
    assert!(list_after_delete(false, Some(items()), &id).is_none());
    assert!(list_after_delete(true, None, &id).is_none());
    let kept = list_after_delete(true, Some(items()), &id).unwrap();
    assert_eq!(ids(&kept), vec!["a".to_string()]);
}

#[test]
fn grid_list_changes_only_after_confirmed_class_change() {
    let items = || vec![model(Some("a"), MediaClass::Standard), model(Some("b"), MediaClass::Standard)];
    let id = "b".to_string();
    assert!(list_after_class_change(false, Some(items()), &id, MediaClass::Nsfw).is_none());
    assert!(list_after_class_change(true, None, &id, MediaClass::Nsfw).is_none());
    let updated = list_after_class_change(true, Some(items()), &id, MediaClass::Nsfw).unwrap();
    let classes: Vec<MediaClass> = updated.iter().map(|m| m.class()).collect();
    assert_eq!(classes, vec![MediaClass::Standard, MediaClass::Nsfw]);
}
