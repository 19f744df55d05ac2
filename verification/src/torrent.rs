//! Torrent messages: building an upload, updating and deleting a torrent,
//! loading its files, and planning the query for a page of the torrent list.

use vstd::prelude::*;

use crate::id::Uuid;

verus! {

/// Why a torrent handler refused or failed a request.
#[derive(PartialEq, Eq, Debug)]
pub enum HandlerError {
    CategoryNotFound,
    TorrentNotFound,
    NotAllowed,
    NoNewNfo,
    /// The old NFO could not be deleted; the text of the database error.
    NfoReplaceFailed(String),
    MetaFileNotFound,
    UserNotFound,
    NfoFileNotFound,
}

/// The message of each handler error.
pub open spec fn error_text(e: HandlerError) -> Seq<char> {
    match e {
        HandlerError::CategoryNotFound => "category not found"@,
        HandlerError::TorrentNotFound => "torrent not found"@,
        HandlerError::NotAllowed => "user is not allowed"@,
        HandlerError::NoNewNfo => "no new nfo uploaded"@,
        HandlerError::NfoReplaceFailed(cause) => "failed to create new nfo: "@ + cause@,
        HandlerError::MetaFileNotFound => "meta file not found"@,
        HandlerError::UserNotFound => "user not found"@,
        HandlerError::NfoFileNotFound => "nfo file not found"@,
    }
}

impl HandlerError {
    /// The error's message.
    pub fn message(&self) -> (text: String)
        ensures
            text@ == error_text(*self),
    {
        match self {
            HandlerError::CategoryNotFound => String::from_str("category not found"),
            HandlerError::TorrentNotFound => String::from_str("torrent not found"),
            HandlerError::NotAllowed => String::from_str("user is not allowed"),
            HandlerError::NoNewNfo => String::from_str("no new nfo uploaded"),
            HandlerError::NfoReplaceFailed(cause) => String::from_str("failed to create new nfo: ").concat(
                cause.as_str(),
            ),
            HandlerError::MetaFileNotFound => String::from_str("meta file not found"),
            HandlerError::UserNotFound => String::from_str("user not found"),
            HandlerError::NfoFileNotFound => String::from_str("nfo file not found"),
        }
    }
}

/// A file listed in a torrent's meta file: its name and its size in bytes.
#[derive(Debug)]
pub struct NewFile {
    file_name: String,
    size: i64,
}

impl View for NewFile {
    type V = (Seq<char>, i64);

    closed spec fn view(&self) -> (Seq<char>, i64) {
        (self.file_name@, self.size)
    }
}

impl NewFile {
    /// The file's name.
    pub fn file_name(&self) -> (name: &str)
        ensures
            name@ == self@.0,
    {
        self.file_name.as_str()
    }

    /// The file's size in bytes.
    pub fn size(&self) -> (size: i64)
        ensures
            size == self@.1,
    {
        self.size
    }
}

/// An uploaded torrent, ready to be stored.
#[derive(Debug)]
pub struct NewTorrentMsg {
    pub name: String,
    pub description: String,
    pub meta_file: Vec<u8>,
    pub nfo_file: Vec<u8>,
    pub category: Uuid,
    pub user: Uuid,
    pub info_hash: Vec<u8>,
    pub size: i64,
    pub files: Vec<NewFile>,
}

impl NewTorrentMsg {
    /// What storing the upload decides once its category has been looked
    /// up: an upload into a category that does not exist is refused.
    pub fn require_category(&self, category_found: bool) -> (checked: Result<(), HandlerError>)
        ensures
            checked == if category_found {
                Ok::<(), HandlerError>(())
            } else {
                Err(HandlerError::CategoryNotFound)
            },
    {
        if category_found {
            Ok(())
        } else {
            Err(HandlerError::CategoryNotFound)
        }
    }
}

/// The sum of the sizes of the listed files.
pub open spec fn total_size(files: Seq<(String, i64)>) -> int
    decreases files.len(),
{
    if files.len() == 0 {
        0
    } else {
        total_size(files.drop_last()) + files.last().1
    }
}

/// Whether summing the sizes of the files in order stays within `i64`.
pub open spec fn size_sum_fits(files: Seq<(String, i64)>) -> bool {
    forall|k: int|
        0 <= k <= files.len() ==> i64::MIN <= #[trigger] total_size(files.take(k)) <= i64::MAX
}

/// What an upload form holds before it is turned into a torrent.
pub struct NewTorrentBuilderView {
    pub name: Seq<char>,
    pub description: Seq<char>,
    pub meta_file: Seq<u8>,
    pub nfo_file: Seq<u8>,
    pub category: Uuid,
    pub user: Uuid,
}

/// Collects the parts of an uploaded torrent.
#[derive(Debug)]
pub struct NewTorrentBuilder {
    name: String,
    description: String,
    meta_file: Vec<u8>,
    nfo_file: Vec<u8>,
    category: Uuid,
    user: Uuid,
}

impl View for NewTorrentBuilder {
    type V = NewTorrentBuilderView;

    closed spec fn view(&self) -> NewTorrentBuilderView {
        NewTorrentBuilderView {
            name: self.name@,
            description: self.description@,
            meta_file: self.meta_file@,
            nfo_file: self.nfo_file@,
            category: self.category,
            user: self.user,
        }
    }
}

impl Default for NewTorrentBuilder {
    /// An empty builder, the same as `new`.
    fn default() -> (builder: Self)
        ensures
            builder@ == (NewTorrentBuilderView {
                name: Seq::empty(),
                description: Seq::empty(),
                meta_file: Seq::empty(),
                nfo_file: Seq::empty(),
                category: Uuid::nil_value(),
                user: Uuid::nil_value(),
            }),
    {
        NewTorrentBuilder::new()
    }
}

impl NewTorrentBuilder {
    /// An empty builder: empty texts and files, nil category and user.
    pub fn new() -> (builder: Self)
        ensures
            builder@ == (NewTorrentBuilderView {
                name: Seq::empty(),
                description: Seq::empty(),
                meta_file: Seq::empty(),
                nfo_file: Seq::empty(),
                category: Uuid::nil_value(),
                user: Uuid::nil_value(),
            }),
    {
        NewTorrentBuilder {
            name: String::new(),
            description: String::new(),
            meta_file: Vec::new(),
            nfo_file: Vec::new(),
            category: Uuid::nil(),
            user: Uuid::nil(),
        }
    }

    /// Sets the torrent's name.
    pub fn name(&mut self, name: &str) -> (builder: &Self)
        ensures
            final(self)@ == (NewTorrentBuilderView { name: name@, ..old(self)@ }),
            builder@ == final(self)@,
    {
        self.name = String::from_str(name);
        self
    }

    /// Sets the torrent's description.
    pub fn description(&mut self, desc: &str) -> (builder: &Self)
        ensures
            final(self)@ == (NewTorrentBuilderView { description: desc@, ..old(self)@ }),
            builder@ == final(self)@,
    {
        self.description = String::from_str(desc);
        self
    }

    /// Sets the torrent's category.
    pub fn category(&mut self, category: Uuid) -> (builder: &Self)
        ensures
            final(self)@ == (NewTorrentBuilderView { category, ..old(self)@ }),
            builder@ == final(self)@,
    {
        self.category = category;
        self
    }

    /// Sets the uploading user.
    pub fn user(&mut self, user: Uuid) -> (builder: &Self)
        ensures
            final(self)@ == (NewTorrentBuilderView { user, ..old(self)@ }),
            builder@ == final(self)@,
    {
        self.user = user;
        self
    }

    /// Sets the torrent's meta file, which must not be empty.
    pub fn raw_meta(&mut self, meta_file: Vec<u8>) -> (builder: &Self)
        requires
            meta_file@.len() > 0,
        ensures
            final(self)@ == (NewTorrentBuilderView { meta_file: meta_file@, ..old(self)@ }),
            builder@ == final(self)@,
    {
        self.meta_file = meta_file;
        self
    }

    /// Sets the torrent's NFO file, which must not be empty.
    pub fn nfo(&mut self, nfo_file: Vec<u8>) -> (builder: &Self)
        requires
            nfo_file@.len() > 0,
        ensures
            final(self)@ == (NewTorrentBuilderView { nfo_file: nfo_file@, ..old(self)@ }),
            builder@ == final(self)@,
    {
        self.nfo_file = nfo_file;
        self
    }

    /// The meta file collected so far, from which the info hash and the file
    /// list are read.
    pub fn meta_file(&self) -> (meta: &[u8])
        ensures
            meta@ == self@.meta_file,
    {
        self.meta_file.as_slice()
    }

    /// Turns the collected parts into an upload, given what reading the meta
    /// file gave: its info hash, then its list of files with their sizes.
    /// The first failure is passed on; otherwise the torrent's size is the
    /// sum of the sizes of its files.
    pub fn finish<E>(self, info_hash: Result<Vec<u8>, E>, files: Result<Vec<(String, i64)>, E>) -> (msg: Result<NewTorrentMsg, E>)
        requires
            info_hash is Ok ==> (files matches Ok(list) ==> size_sum_fits(list@)),
        ensures
            match info_hash {
                Err(e) => msg == Err::<NewTorrentMsg, E>(e),
                Ok(hash) => match files {
                    Err(e) => msg == Err::<NewTorrentMsg, E>(e),
                    Ok(list) => msg matches Ok(m) && {
                        &&& m.name@ == self@.name
                        &&& m.description@ == self@.description
                        &&& m.meta_file@ == self@.meta_file
                        &&& m.nfo_file@ == self@.nfo_file
                        &&& m.category == self@.category
                        &&& m.user == self@.user
                        &&& m.info_hash@ == hash@
                        &&& m.size == total_size(list@)
                        &&& m.files@.len() == list@.len()
                        &&& forall|i: int| 0 <= i < list@.len() ==>
                            #[trigger] m.files@[i]@ == (list@[i].0@, list@[i].1)
                    },
                },
            },
    {
        let info_hash = match info_hash {
            Ok(h) => h,
            Err(e) => return Err(e),
        };
        let list = match files {
            Ok(l) => l,
            Err(e) => return Err(e),
        };
        let mut files: Vec<NewFile> = Vec::new();
        let mut size: i64 = 0;
        let mut i: usize = 0;
        while i < list.len()
            invariant
                i <= list@.len(),
                size_sum_fits(list@),
                size == total_size(list@.take(i as int)),
                files@.len() == i,
                forall|j: int| 0 <= j < i ==> #[trigger] files@[j]@ == (list@[j].0@, list@[j].1),
            decreases list@.len() - i,
        {
            assert(list@.take(i + 1).drop_last() == list@.take(i as int));
            assert(list@.take(i + 1).last() == list@[i as int]);
            let ghost next: int = total_size(list@.take(i + 1));
            assert(i64::MIN <= next <= i64::MAX);
            size = size + list[i].1;
            files.push(NewFile { file_name: list[i].0.clone(), size: list[i].1 });
            i = i + 1;
        }
        assert(list@.take(list@.len() as int) == list@);
        Ok(NewTorrentMsg {
            name: self.name,
            description: self.description,
            category: self.category,
            user: self.user,
            meta_file: self.meta_file,
            nfo_file: self.nfo_file,
            size,
            info_hash,
            files,
        })
    }
}

/// A change to a torrent: its new name, description, category and
/// (optionally) NFO file, requested by `user`.
#[derive(Debug)]
pub struct UpdateTorrentMsg<U> {
    pub id: Uuid,
    pub name: String,
    pub description: String,
    pub nfo_file: Option<Vec<u8>>,
    pub category: Uuid,
    pub user: U,
}

/// What an update is answered with, given whether the torrent exists,
/// whether the user may write it and whether the new category exists, in
/// that order: the first that fails refuses the update; else the update
/// goes ahead, replacing the NFO file exactly when a new one was uploaded.
pub open spec fn update_decision(
    torrent_found: bool,
    may_write: bool,
    category_found: bool,
    new_nfo: bool,
) -> Result<bool, HandlerError> {
    if !torrent_found {
        Err(HandlerError::TorrentNotFound)
    } else if !may_write {
        Err(HandlerError::NotAllowed)
    } else if !category_found {
        Err(HandlerError::CategoryNotFound)
    } else {
        Ok(new_nfo)
    }
}

impl<U> UpdateTorrentMsg<U> {
    /// An update of torrent `id` by `user`, with empty name and description,
    /// no NFO file and the nil category.
    pub fn new(id: Uuid, user: U) -> (msg: Self)
        ensures
            msg.id == id,
            msg.name@ == Seq::<char>::empty(),
            msg.description@ == Seq::<char>::empty(),
            msg.nfo_file is None,
            msg.category == Uuid::nil_value(),
            msg.user == user,
    {
        UpdateTorrentMsg {
            id,
            name: String::new(),
            description: String::new(),
            nfo_file: None,
            category: Uuid::nil(),
            user,
        }
    }

    /// Whether the update may be stored, and if so whether the NFO file is
    /// to be replaced (`Ok(true)`) or kept (`Ok(false)`).
    pub fn authorize(&self, torrent_found: bool, may_write: bool, category_found: bool) -> (plan: Result<bool, HandlerError>)
        ensures
            plan == update_decision(torrent_found, may_write, category_found, self.nfo_file is Some),
    {
        if !torrent_found {
            Err(HandlerError::TorrentNotFound)
        } else if !may_write {
            Err(HandlerError::NotAllowed)
        } else if !category_found {
            Err(HandlerError::CategoryNotFound)
        } else {
            Ok(self.nfo_file.is_some())
        }
    }

    /// The new NFO file that replaces the old one; an update without one
    /// has nothing to replace it with.
    pub fn nfo_to_replace(&self) -> (nfo: Result<&Vec<u8>, HandlerError>)
        ensures
            match self.nfo_file {
                Some(f) => nfo matches Ok(g) && *g == f,
                None => nfo == Err::<&Vec<u8>, HandlerError>(HandlerError::NoNewNfo),
            },
    {
        match &self.nfo_file {
            Some(f) => Ok(f),
            None => Err(HandlerError::NoNewNfo),
        }
    }
}

/// A request for the list of categories.
pub struct LoadCategoriesMsg {}

/// A request for a torrent's details, made by user `user_id`.
pub struct LoadTorrentMsg {
    id: Uuid,
    user_id: Uuid,
}

impl View for LoadTorrentMsg {
    type V = (Uuid, Uuid);

    /// The torrent's and the user's identifiers.
    closed spec fn view(&self) -> (Uuid, Uuid) {
        (self.id, self.user_id)
    }
}

impl LoadTorrentMsg {
    /// The request for torrent `id` made by user `user_id`.
    pub fn new(id: &Uuid, user_id: &Uuid) -> (msg: LoadTorrentMsg)
        ensures
            msg@ == (*id, *user_id),
    {
        LoadTorrentMsg { id: *id, user_id: *user_id }
    }

    /// The torrent's identifier.
    pub fn id(&self) -> (id: Uuid)
        ensures
            id == self@.0,
    {
        self.id
    }

    /// The requesting user's identifier.
    pub fn user_id(&self) -> (user: Uuid)
        ensures
            user == self@.1,
    {
        self.user_id
    }
}

/// The name under which a torrent's meta file is downloaded.
pub open spec fn meta_download_name(torrent_name: Seq<char>) -> Seq<char> {
    torrent_name + ".torrent"@
}

/// The name under which a torrent's NFO file is downloaded.
pub open spec fn nfo_download_name(torrent_name: Seq<char>) -> Seq<char> {
    torrent_name + ".nfo"@
}

/// A request by user `uid` to download the meta file of torrent `id`.
pub struct LoadTorrentMetaMsg {
    pub id: Uuid,
    pub uid: Uuid,
}

impl LoadTorrentMetaMsg {
    /// The download, given the torrent's name, its meta file and the user's
    /// passcode, each as the store found it: the file's name, the meta file
    /// and the passcode. What was not found, in that order, is the error.
    pub fn respond(torrent_name: Option<&str>, meta_file: Option<Vec<u8>>, passcode: Option<Vec<u8>>) -> (reply: Result<(String, Vec<u8>, Vec<u8>), HandlerError>)
        ensures
            match torrent_name {
                None => reply == Err::<(String, Vec<u8>, Vec<u8>), HandlerError>(HandlerError::TorrentNotFound),
                Some(name) => match meta_file {
                    None => reply == Err::<(String, Vec<u8>, Vec<u8>), HandlerError>(HandlerError::MetaFileNotFound),
                    Some(meta) => match passcode {
                        None => reply == Err::<(String, Vec<u8>, Vec<u8>), HandlerError>(HandlerError::UserNotFound),
                        Some(code) => reply matches Ok(r) && r.0@ == meta_download_name(name@)
                            && r.1 == meta && r.2 == code,
                    },
                },
            },
    {
        let name = match torrent_name {
            Some(n) => n,
            None => return Err(HandlerError::TorrentNotFound),
        };
        let meta = match meta_file {
            Some(m) => m,
            None => return Err(HandlerError::MetaFileNotFound),
        };
        let code = match passcode {
            Some(c) => c,
            None => return Err(HandlerError::UserNotFound),
        };
        Ok((String::from_str(name).concat(".torrent"), meta, code))
    }
}

/// A request to download the NFO file of torrent `id`.
pub struct LoadTorrentNfoMsg {
    pub id: Uuid,
}

impl LoadTorrentNfoMsg {
    /// The download, given the torrent's name and its NFO file as the store
    /// found them: the file's name and the NFO file. What was not found, in
    /// that order, is the error.
    pub fn respond(torrent_name: Option<&str>, nfo_file: Option<Vec<u8>>) -> (reply: Result<(String, Vec<u8>), HandlerError>)
        ensures
            match torrent_name {
                None => reply == Err::<(String, Vec<u8>), HandlerError>(HandlerError::TorrentNotFound),
                Some(name) => match nfo_file {
                    None => reply == Err::<(String, Vec<u8>), HandlerError>(HandlerError::NfoFileNotFound),
                    Some(nfo) => reply matches Ok(r) && r.0@ == nfo_download_name(name@) && r.1 == nfo,
                },
            },
    {
        let name = match torrent_name {
            Some(n) => n,
            None => return Err(HandlerError::TorrentNotFound),
        };
        let nfo = match nfo_file {
            Some(f) => f,
            None => return Err(HandlerError::NfoFileNotFound),
        };
        Ok((String::from_str(name).concat(".nfo"), nfo))
    }
}

/// A request by `user` to delete torrent `id`, for `reason`.
pub struct DeleteTorrentMsg<U> {
    pub id: Uuid,
    pub reason: String,
    pub user: U,
}

/// What a deletion is answered with, given whether the torrent exists and
/// whether the user may delete it, in that order.
pub open spec fn delete_decision(torrent_found: bool, may_delete: bool) -> Result<(), HandlerError> {
    if !torrent_found {
        Err(HandlerError::TorrentNotFound)
    } else if !may_delete {
        Err(HandlerError::NotAllowed)
    } else {
        Ok(())
    }
}

impl<U> DeleteTorrentMsg<U> {
    /// Whether the torrent may be deleted.
    pub fn authorize(&self, torrent_found: bool, may_delete: bool) -> (plan: Result<(), HandlerError>)
        ensures
            plan == delete_decision(torrent_found, may_delete),
    {
        if !torrent_found {
            Err(HandlerError::TorrentNotFound)
        } else if !may_delete {
            Err(HandlerError::NotAllowed)
        } else {
            Ok(())
        }
    }
}

/// Which torrents a list shows: the visible ones, the dead ones, or all.
#[derive(Clone, Copy, PartialEq, Eq, Structural, Debug)]
pub enum Visible {
    Visible,
    Invisible,
    All,
}

/// The text of each visibility.
pub open spec fn visible_text(v: Visible) -> Seq<char> {
    match v {
        Visible::Visible => "visible"@,
        Visible::Invisible => "dead"@,
        Visible::All => "all"@,
    }
}

/// The value a torrent's `visible` flag must have to be listed, if any.
pub open spec fn visibility_filter(v: Visible) -> Option<bool> {
    match v {
        Visible::Visible => Some(true),
        Visible::Invisible => Some(false),
        Visible::All => None,
    }
}

impl Default for Visible {
    /// Lists show the visible torrents unless told otherwise.
    fn default() -> (v: Self)
        ensures
            v == Visible::Visible,
    {
        Visible::Visible
    }
}

impl Visible {
    /// The visibility's text: `visible`, `dead` or `all`.
    pub fn to_string(&self) -> (text: String)
        ensures
            text@ == visible_text(*self),
    {
        match self {
            Visible::Visible => String::from_str("visible"),
            Visible::Invisible => String::from_str("dead"),
            Visible::All => String::from_str("all"),
        }
    }

    /// The value a torrent's `visible` flag must have to be listed, if any.
    pub fn filter(&self) -> (flag: Option<bool>)
        ensures
            flag == visibility_filter(*self),
    {
        match self {
            Visible::Visible => Some(true),
            Visible::Invisible => Some(false),
            Visible::All => None,
        }
    }
}

/// A request for a page of the torrent list, made by `current_user_id`.
#[derive(Debug)]
pub struct LoadTorrentListMsg {
    pub name: Option<String>,
    pub category: Option<Uuid>,
    pub user_id: Option<Uuid>,
    pub visible: Visible,
    pub page: i64,
    pub per_page: i64,
    pub current_user_id: Uuid,
}

/// The query that lists a page of torrents: the filters (a pattern for the
/// name, the category, the uploader and the `visible` flag, each where set)
/// and which rows of the filtered list form the page. Counting the torrents
/// uses the same filters and no page.
#[derive(Debug)]
pub struct TorrentListQuery {
    pub name_pattern: Option<String>,
    pub category: Option<Uuid>,
    pub user_id: Option<Uuid>,
    pub visible: Option<bool>,
    pub limit: i64,
    pub offset: i64,
}

/// The number of torrents per page: the user's own setting where there is
/// one, else the request's.
pub open spec fn per_page_for(requested: i64, user_setting: Option<i64>) -> i64 {
    match user_setting {
        Some(n) => n,
        None => requested,
    }
}

/// The pattern that a torrent's name is matched against, case-insensitively:
/// the searched text anywhere in the name.
pub open spec fn name_pattern(name: Seq<char>) -> Seq<char> {
    "%"@ + name + "%"@
}

/// How many torrents of the filtered list come before page `page`.
pub open spec fn page_offset(page: int, per_page: int) -> int {
    (page - 1) * per_page
}

/// Whether the page offset of a request can be computed in `i64` once the
/// user's setting is applied.
pub open spec fn page_fits(page: i64, per_page: i64) -> bool {
    &&& i64::MIN < page
    &&& i64::MIN <= page_offset(page as int, per_page as int) <= i64::MAX
}

impl Default for LoadTorrentListMsg {
    /// No filters, visible torrents, page and page size 0, nil user.
    fn default() -> (msg: Self)
        ensures
            msg.name is None,
            msg.category is None,
            msg.user_id is None,
            msg.visible == Visible::Visible,
            msg.page == 0,
            msg.per_page == 0,
            msg.current_user_id == Uuid::nil_value(),
    {
        LoadTorrentListMsg {
            name: None,
            category: None,
            user_id: None,
            visible: Visible::Visible,
            page: 0,
            per_page: 0,
            current_user_id: Uuid::nil(),
        }
    }
}

impl LoadTorrentListMsg {
    /// The first page, 25 torrents long, of the visible torrents, requested by `user_id`.
    pub fn new(user_id: &Uuid) -> (msg: Self)
        ensures
            msg.name is None,
            msg.category is None,
            msg.user_id is None,
            msg.visible == Visible::Visible,
            msg.page == 1,
            msg.per_page == 25,
            msg.current_user_id == *user_id,
    {
        LoadTorrentListMsg {
            name: None,
            category: None,
            user_id: None,
            visible: Visible::Visible,
            page: 1,
            per_page: 25,
            current_user_id: *user_id,
        }
    }

    /// Lists only torrents whose name contains `name`.
    pub fn name(&mut self, name: String) -> (msg: &Self)
        ensures
            *final(self) == (LoadTorrentListMsg { name: Some(name), ..*old(self) }),
            *msg == *final(self),
    {
        self.name = Some(name);
        self
    }

    /// Lists only torrents of the category.
    pub fn category(&mut self, category_id: Uuid) -> (msg: &Self)
        ensures
            *final(self) == (LoadTorrentListMsg { category: Some(category_id), ..*old(self) }),
            *msg == *final(self),
    {
        self.category = Some(category_id);
        self
    }

    /// Lists only torrents uploaded by the user.
    pub fn user(&mut self, user_id: Uuid) -> (msg: &Self)
        ensures
            *final(self) == (LoadTorrentListMsg { user_id: Some(user_id), ..*old(self) }),
            *msg == *final(self),
    {
        self.user_id = Some(user_id);
        self
    }

    /// Lists the torrents of the given visibility.
    pub fn visible(&mut self, visible: Visible) -> (msg: &Self)
        ensures
            *final(self) == (LoadTorrentListMsg { visible, ..*old(self) }),
            *msg == *final(self),
    {
        self.visible = visible;
        self
    }

    /// Asks for page `page`, of `per_page` torrents.
    pub fn page(&mut self, page: i64, per_page: i64) -> (msg: &Self)
        ensures
            *final(self) == (LoadTorrentListMsg { page, per_page, ..*old(self) }),
            *msg == *final(self),
    {
        self.page = page;
        self.per_page = per_page;
        self
    }

    /// The number of torrents per page, given the requesting user's own
    /// setting, if the user has one that is a number.
    pub fn user_per_page(&self, user_setting: Option<i64>) -> (per_page: i64)
        ensures
            per_page == per_page_for(self.per_page, user_setting),
    {
        match user_setting {
            Some(number) => number,
            None => self.per_page,
        }
    }

    /// The query for the requested page, given the requesting user's own
    /// page size setting, which from now on is the request's page size.
    pub fn query(&mut self, user_setting: Option<i64>) -> (q: TorrentListQuery)
        requires
            page_fits(old(self).page, per_page_for(old(self).per_page, user_setting)),
        ensures
            *final(self) == (LoadTorrentListMsg {
                per_page: per_page_for(old(self).per_page, user_setting),
                ..*old(self)
            }),
            match old(self).name {
                Some(n) => q.name_pattern matches Some(p) && p@ == name_pattern(n@),
                None => q.name_pattern is None,
            },
            q.category == old(self).category,
            q.user_id == old(self).user_id,
            q.visible == visibility_filter(old(self).visible),
            q.limit == final(self).per_page,
            q.offset == page_offset(old(self).page as int, final(self).per_page as int),
    {
        let pattern = match &self.name {
            Some(name) => Some(String::from_str("%").concat(name.as_str()).concat("%")),
            None => None,
        };
        self.per_page = self.user_per_page(user_setting);
        TorrentListQuery {
            name_pattern: pattern,
            category: self.category,
            user_id: self.user_id,
            visible: self.visible.filter(),
            limit: self.per_page,
            offset: (self.page - 1) * self.per_page,
        }
    }
}

/// An update is stored only when the torrent exists, the user may write it
/// and the new category exists; its NFO file is replaced only when a new
/// one was uploaded.
pub proof fn update_needs_permission(torrent_found: bool, may_write: bool, category_found: bool, new_nfo: bool)
    ensures
        update_decision(torrent_found, may_write, category_found, new_nfo) is Ok
            <==> (torrent_found && may_write && category_found),
        update_decision(torrent_found, may_write, category_found, new_nfo) == Ok::<bool, HandlerError>(true)
            <==> (torrent_found && may_write && category_found && new_nfo),
{
}

/// A torrent is deleted only when it exists and the user may delete it.
pub proof fn delete_needs_permission(torrent_found: bool, may_delete: bool)
    ensures
        delete_decision(torrent_found, may_delete) is Ok <==> (torrent_found && may_delete),
{
}

/// The first page starts at the top of the list, and each page starts where
/// the one before it ends.
pub proof fn pages_are_adjacent(page: int, per_page: int)
    ensures
        page_offset(1, per_page) == 0,
        page_offset(page + 1, per_page) == page_offset(page, per_page) + per_page,
{
    assert(page_offset(1, per_page) == 0) by (nonlinear_arith);
    assert((page + 1 - 1) * per_page == (page - 1) * per_page + per_page) by (nonlinear_arith);
}

/// Different visibilities have different texts.
pub proof fn visible_texts_differ(a: Visible, b: Visible)
    requires
        a != b,
    ensures
        visible_text(a) != visible_text(b),
{
    reveal_strlit("visible");
    reveal_strlit("dead");
    reveal_strlit("all");
    assert(visible_text(Visible::Visible).len() == 7);
    assert(visible_text(Visible::Invisible).len() == 4);
    assert(visible_text(Visible::All).len() == 3);
}

/// The size of an upload counts every listed file: no files make size 0,
/// one more file adds its size, and a single file gives its own size.
pub proof fn total_size_counts_every_file(files: Seq<(String, i64)>, file: (String, i64))
    ensures
        total_size(Seq::<(String, i64)>::empty()) == 0,
        total_size(files.push(file)) == total_size(files) + file.1,
        total_size(seq![file]) == file.1,
{
    assert(files.push(file).drop_last() == files);
    assert(seq![file].drop_last() == Seq::<(String, i64)>::empty());
}

/// A user's own page size setting always decides the page size, whether it
/// is larger or smaller than the request's; without one the request's stays.
pub proof fn user_page_size_decides(requested: i64, setting: i64)
    ensures
        per_page_for(requested, Some(setting)) == setting,
        per_page_for(requested, None) == requested,
{
}

/// A meta file is downloaded under the whole torrent name followed by
/// `.torrent`: the name comes first, unchanged, then those eight characters.
pub proof fn meta_name_keeps_whole_name(torrent_name: Seq<char>)
    ensures
        meta_download_name(torrent_name).len() == torrent_name.len() + 8,
        meta_download_name(torrent_name).take(torrent_name.len() as int) == torrent_name,
        meta_download_name(torrent_name).skip(torrent_name.len() as int) == seq!['.', 't', 'o', 'r', 'r', 'e', 'n', 't'],
{
    reveal_strlit(".torrent");
    let d = meta_download_name(torrent_name);
    assert(d.take(torrent_name.len() as int) =~= torrent_name);
    assert(d.skip(torrent_name.len() as int) =~= seq!['.', 't', 'o', 'r', 'r', 'e', 'n', 't']);
}

/// An NFO file is downloaded under the whole torrent name followed by
/// `.nfo`: the name comes first, unchanged, then those four characters.
pub proof fn nfo_name_keeps_whole_name(torrent_name: Seq<char>)
    ensures
        nfo_download_name(torrent_name).len() == torrent_name.len() + 4,
        nfo_download_name(torrent_name).take(torrent_name.len() as int) == torrent_name,
        nfo_download_name(torrent_name).skip(torrent_name.len() as int) == seq!['.', 'n', 'f', 'o'],
{
    reveal_strlit(".nfo");
    let d = nfo_download_name(torrent_name);
    assert(d.take(torrent_name.len() as int) =~= torrent_name);
    assert(d.skip(torrent_name.len() as int) =~= seq!['.', 'n', 'f', 'o']);
}

} // verus!
