use ripalt::id::Uuid;
use ripalt::torrent::{
    DeleteTorrentMsg, HandlerError, LoadTorrentListMsg, LoadTorrentMetaMsg, LoadTorrentMsg,
    LoadTorrentNfoMsg, NewTorrentBuilder, UpdateTorrentMsg, Visible,
};

fn id(n: u128) -> Uuid {
    Uuid::from_u128(n)
}

#[test]
fn handler_error_messages() {
    assert_eq!(HandlerError::CategoryNotFound.message(), "category not found");
    assert_eq!(HandlerError::TorrentNotFound.message(), "torrent not found");
    assert_eq!(HandlerError::NotAllowed.message(), "user is not allowed");
    assert_eq!(HandlerError::NoNewNfo.message(), "no new nfo uploaded");
    assert_eq!(
        HandlerError::NfoReplaceFailed("disk full".to_string()).message(),
        "failed to create new nfo: disk full"
    );
    assert_eq!(HandlerError::MetaFileNotFound.message(), "meta file not found");
    assert_eq!(HandlerError::UserNotFound.message(), "user not found");
    assert_eq!(HandlerError::NfoFileNotFound.message(), "nfo file not found");
}

fn filled_builder() -> NewTorrentBuilder {
    let mut b = NewTorrentBuilder::new();
    b.name("Some Torrent");
    b.description("a description");
    b.category(id(3));
    b.user(id(4));
    b.raw_meta(vec![1, 2, 3]);
    b.nfo(vec![9]);
    b
}

#[test]
fn finish_sums_file_sizes() {
    let b = filled_builder();
    assert_eq!(b.meta_file(), &[1, 2, 3]);
    let files = vec![("a.txt".to_string(), 10i64), ("b/c.bin".to_string(), 32i64), ("d".to_string(), 0i64)];
    let msg = b.finish::<String>(Ok(vec![0xab; 20]), Ok(files)).unwrap();
    assert_eq!(msg.name, "Some Torrent");
    assert_eq!(msg.description, "a description");
    assert_eq!(msg.category, id(3));
    assert_eq!(msg.user, id(4));
    assert_eq!(msg.meta_file, vec![1, 2, 3]);
    assert_eq!(msg.nfo_file, vec![9]);
    assert_eq!(msg.info_hash, vec![0xab; 20]);
    assert_eq!(msg.size, 42);
    assert_eq!(msg.files.len(), 3);
    assert_eq!(msg.files[0].file_name(), "a.txt");
    assert_eq!(msg.files[0].size(), 10);
    assert_eq!(msg.files[1].file_name(), "b/c.bin");
    assert_eq!(msg.files[1].size(), 32);
    assert_eq!(msg.files[2].file_name(), "d");
    assert_eq!(msg.files[2].size(), 0);
}

#[test]
fn finish_without_files_has_size_zero() {
    let msg = NewTorrentBuilder::new().finish::<String>(Ok(vec![]), Ok(vec![])).unwrap();
    assert_eq!(msg.size, 0);
    assert!(msg.files.is_empty());
    assert_eq!(msg.name, "");
    assert_eq!(msg.category, Uuid::nil());
    assert_eq!(msg.user, Uuid::nil());
}

#[test]
fn finish_passes_on_first_failure() {
    let r = filled_builder().finish::<&str>(Err("bad meta"), Err("no files"));
    assert_eq!(r.err(), Some("bad meta"));
    let r = filled_builder().finish::<&str>(Ok(vec![1]), Err("no files"));
    assert_eq!(r.err(), Some("no files"));
}

#[test]
fn builder_setters_overwrite() {
    let mut b = NewTorrentBuilder::new();
    b.name("first");
    b.name("second");
    let msg = b.finish::<String>(Ok(vec![]), Ok(vec![])).unwrap();
    assert_eq!(msg.name, "second");
}

#[test]
fn require_category() {
    let msg = filled_builder().finish::<String>(Ok(vec![]), Ok(vec![])).unwrap();
    assert_eq!(msg.require_category(true), Ok(()));
    assert_eq!(msg.require_category(false), Err(HandlerError::CategoryNotFound));
}

#[test]
fn update_msg_new_is_empty() {
    let msg = UpdateTorrentMsg::new(id(7), "alice");
    assert_eq!(msg.id, id(7));
    assert_eq!(msg.name, "");
    assert_eq!(msg.description, "");
    assert!(msg.nfo_file.is_none());
    assert_eq!(msg.category, Uuid::nil());
    assert_eq!(msg.user, "alice");
}

#[test]
fn update_authorization_order() {
    let mut msg = UpdateTorrentMsg::new(id(7), ());
    assert_eq!(msg.authorize(false, false, false), Err(HandlerError::TorrentNotFound));
    assert_eq!(msg.authorize(false, true, true), Err(HandlerError::TorrentNotFound));
    assert_eq!(msg.authorize(true, false, false), Err(HandlerError::NotAllowed));
    assert_eq!(msg.authorize(true, true, false), Err(HandlerError::CategoryNotFound));
    assert_eq!(msg.authorize(true, true, true), Ok(false));
    assert_eq!(msg.nfo_to_replace(), Err(HandlerError::NoNewNfo));
    msg.nfo_file = Some(vec![1, 2]);
    assert_eq!(msg.authorize(true, true, true), Ok(true));
    assert_eq!(msg.nfo_to_replace(), Ok(&vec![1, 2]));
}

#[test]
fn delete_authorization_order() {
    let msg = DeleteTorrentMsg { id: id(1), reason: "dupe".to_string(), user: () };
    assert_eq!(msg.authorize(false, false), Err(HandlerError::TorrentNotFound));
    assert_eq!(msg.authorize(false, true), Err(HandlerError::TorrentNotFound));
    assert_eq!(msg.authorize(true, false), Err(HandlerError::NotAllowed));
    assert_eq!(msg.authorize(true, true), Ok(()));
}

#[test]
fn load_torrent_msg_keeps_ids() {
    let msg = LoadTorrentMsg::new(&id(5), &id(6));
    assert_eq!(msg.id(), id(5));
    assert_eq!(msg.user_id(), id(6));
}

#[test]
fn meta_download_reply() {
    let ok = LoadTorrentMetaMsg::respond(Some("Ubuntu"), Some(vec![1]), Some(vec![2])).unwrap();
    assert_eq!(ok, ("Ubuntu.torrent".to_string(), vec![1], vec![2]));
    assert_eq!(
        LoadTorrentMetaMsg::respond(None, None, None),
        Err(HandlerError::TorrentNotFound)
    );
    assert_eq!(
        LoadTorrentMetaMsg::respond(Some("x"), None, None),
        Err(HandlerError::MetaFileNotFound)
    );
    assert_eq!(
        LoadTorrentMetaMsg::respond(Some("x"), Some(vec![]), None),
        Err(HandlerError::UserNotFound)
    );
}

#[test]
fn nfo_download_reply() {
    let ok = LoadTorrentNfoMsg::respond(Some("Ubuntu"), Some(vec![3])).unwrap();
    assert_eq!(ok, ("Ubuntu.nfo".to_string(), vec![3]));
    assert_eq!(LoadTorrentNfoMsg::respond(None, Some(vec![])), Err(HandlerError::TorrentNotFound));
    assert_eq!(LoadTorrentNfoMsg::respond(Some(""), None), Err(HandlerError::NfoFileNotFound));
}

#[test]
fn visible_texts_and_filters() {
    assert_eq!(Visible::default(), Visible::Visible);
    assert_eq!(Visible::Visible.to_string(), "visible");
    assert_eq!(Visible::Invisible.to_string(), "dead");
    assert_eq!(Visible::All.to_string(), "all");
    assert_eq!(Visible::Visible.filter(), Some(true));
    assert_eq!(Visible::Invisible.filter(), Some(false));
    assert_eq!(Visible::All.filter(), None);
}

#[test]
fn torrent_list_defaults() {
    let msg = LoadTorrentListMsg::new(&id(9));
    assert_eq!(msg.page, 1);
    assert_eq!(msg.per_page, 25);
    assert_eq!(msg.current_user_id, id(9));
    assert_eq!(msg.visible, Visible::Visible);
    assert!(msg.name.is_none() && msg.category.is_none() && msg.user_id.is_none());
    let d = LoadTorrentListMsg::default();
    assert_eq!(d.page, 0);
    assert_eq!(d.per_page, 0);
    assert_eq!(d.current_user_id, Uuid::nil());
}

#[test]
fn torrent_list_query_with_filters() {
    let mut msg = LoadTorrentListMsg::new(&id(9));
    msg.name("linux".to_string());
    msg.category(id(2));
    msg.user(id(3));
    msg.visible(Visible::Invisible);
    msg.page(3, 10);
    assert_eq!(msg.user_per_page(None), 10);
    assert_eq!(msg.user_per_page(Some(50)), 50);
    let q = msg.query(None);
    assert_eq!(q.name_pattern.as_deref(), Some("%linux%"));
    assert_eq!(q.category, Some(id(2)));
    assert_eq!(q.user_id, Some(id(3)));
    assert_eq!(q.visible, Some(false));
    assert_eq!(q.limit, 10);
    assert_eq!(q.offset, 20);
    assert_eq!(msg.per_page, 10);
}

#[test]
fn torrent_list_query_uses_user_page_size() {
    let mut msg = LoadTorrentListMsg::new(&id(9));
    msg.visible(Visible::All);
    msg.page(2, 25);
    let q = msg.query(Some(100));
    assert_eq!(msg.per_page, 100);
    assert_eq!(q.limit, 100);
    assert_eq!(q.offset, 100);
    assert_eq!(q.visible, None);
    assert!(q.name_pattern.is_none());
    assert!(q.category.is_none());
    assert!(q.user_id.is_none());
}

#[test]
fn first_page_starts_at_zero() {
    let mut msg = LoadTorrentListMsg::new(&id(1));
    let q = msg.query(None);
    assert_eq!(q.offset, 0);
    assert_eq!(q.limit, 25);
    assert_eq!(q.visible, Some(true));
}

#[test]
fn consecutive_pages_are_adjacent() {
    for page in 1..5i64 {
        let mut a = LoadTorrentListMsg::new(&id(1));
        a.page(page, 7);
        let qa = a.query(None);
        let mut b = LoadTorrentListMsg::new(&id(1));
        b.page(page + 1, 7);
        let qb = b.query(None);
        assert_eq!(qb.offset, qa.offset + qa.limit);
    }
}

#[test]
fn builder_default_is_empty() {
    let msg = NewTorrentBuilder::default().finish::<String>(Ok(vec![]), Ok(vec![])).unwrap();
    assert_eq!(msg.name, "");
    assert_eq!(msg.description, "");
    assert!(msg.meta_file.is_empty() && msg.nfo_file.is_empty());
    assert_eq!(msg.category, Uuid::nil());
    assert_eq!(msg.user, Uuid::nil());
}
