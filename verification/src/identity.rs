//! Who a request is made by: identities, the identity service that attaches
//! them to requests, and the API policy that reads credentials from the
//! session or from a bearer token.

use vstd::prelude::*;
use std::rc::Rc;

use crate::id::{hyphenated, Uuid};

verus! {

/// The text that an optional borrowed string holds.
pub open spec fn text_of(s: Option<&str>) -> Option<Seq<char>> {
    match s {
        Some(t) => Some(t@),
        None => None,
    }
}

/// The identifiers that an optional pair of borrowed identifiers holds.
pub open spec fn pair_of(p: Option<(&Uuid, &Uuid)>) -> Option<(Uuid, Uuid)> {
    match p {
        Some((user, group)) => Some((*user, *group)),
        None => None,
    }
}

/// The identifier that an optional borrowed identifier holds.
pub open spec fn id_of(u: Option<&Uuid>) -> Option<Uuid> {
    match u {
        Some(v) => Some(*v),
        None => None,
    }
}

/// The user identifier of optional credentials.
pub open spec fn user_of(creds: Option<(Uuid, Uuid)>) -> Option<Uuid> {
    match creds {
        Some(c) => Some(c.0),
        None => None,
    }
}

/// The group identifier of optional credentials.
pub open spec fn group_of(creds: Option<(Uuid, Uuid)>) -> Option<Uuid> {
    match creds {
        Some(c) => Some(c.1),
        None => None,
    }
}

/// An identity: the user a request is made by.
pub trait Identity {
    /// The text that `identity` gives back.
    spec fn identity_text(&self) -> Option<Seq<char>>;

    /// The user and group identifiers that `credentials` gives back.
    spec fn credential_pair(&self) -> Option<(Uuid, Uuid)>;

    /// The identity's text, if it has one.
    fn identity(&self) -> (id: Option<&str>)
        ensures
            text_of(id) == self.identity_text(),
    ;

    /// Forgets the credentials of this identity; its text stays as it was.
    fn forget(&mut self)
        ensures
            final(self).credential_pair() is None,
            final(self).identity_text() == old(self).identity_text(),
    ;

    /// The user and group identifiers of this identity, if it has them.
    fn credentials(&self) -> (creds: Option<(&Uuid, &Uuid)>)
        ensures
            pair_of(creds) == self.credential_pair(),
    ;

    /// The user identifier of this identity's credentials.
    fn user_id(&self) -> (user: Option<&Uuid>)
        ensures
            id_of(user) == user_of(self.credential_pair()),
    {
        match self.credentials() {
            Some(s) => Some(s.0),
            None => None,
        }
    }

    /// The group identifier of this identity's credentials.
    fn group_id(&self) -> (group: Option<&Uuid>)
        ensures
            id_of(group) == group_of(self.credential_pair()),
    {
        match self.credentials() {
            Some(s) => Some(s.1),
            None => None,
        }
    }
}

/// The identity of the user that a request is made by, as the request sees it.
pub trait RequestIdentity {
    /// The text that `identity` gives back.
    spec fn request_identity_text(&self) -> Option<Seq<char>>;

    /// The user and group identifiers that `credentials` gives back.
    spec fn request_credentials(&self) -> Option<(Uuid, Uuid)>;

    /// The claimed identity of the user that the request is made by, or
    /// `None` if no identity is associated with the request.
    fn identity(&self) -> (id: Option<&str>)
        ensures
            text_of(id) == self.request_identity_text(),
    ;

    /// Forgets the current identity of the request: its credentials are
    /// gone, its text stays as it was.
    fn forget(&mut self)
        ensures
            final(self).request_credentials() is None,
            final(self).request_identity_text() == old(self).request_identity_text(),
    ;

    /// The user and group identifiers of the request's identity.
    fn credentials(&self) -> (creds: Option<(&Uuid, &Uuid)>)
        ensures
            pair_of(creds) == self.request_credentials(),
    ;

    /// The user identifier of the request's identity.
    fn user_id(&self) -> (user: Option<&Uuid>)
        ensures
            id_of(user) == user_of(self.request_credentials()),
    {
        match self.credentials() {
            Some(s) => Some(s.0),
            None => None,
        }
    }

    /// The group identifier of the request's identity.
    fn group_id(&self) -> (group: Option<&Uuid>)
        ensures
            id_of(group) == group_of(self.request_credentials()),
    {
        match self.credentials() {
            Some(s) => Some(s.1),
            None => None,
        }
    }
}

/// The place in a request's extensions where the identity service keeps the
/// identity it attached to the request.
pub struct RequestExtensions<I> {
    identity: Option<I>,
}

impl<I> View for RequestExtensions<I> {
    type V = Option<I>;

    closed spec fn view(&self) -> Option<I> {
        self.identity
    }
}

impl<I> RequestExtensions<I> {
    /// The extensions of a request that carries no identity.
    pub fn new() -> (ext: Self)
        ensures
            ext@ is None,
    {
        RequestExtensions { identity: None }
    }

    /// Attaches an identity to the request, replacing any earlier one.
    pub fn insert(&mut self, identity: I)
        ensures
            final(self)@ == Some(identity),
    {
        self.identity = Some(identity);
    }

    /// Takes the identity off the request, giving it back.
    pub fn remove(&mut self) -> (identity: Option<I>)
        ensures
            identity == old(self)@,
            final(self)@ is None,
    {
        self.identity.take()
    }

    /// The identity attached to the request, if any.
    pub fn get(&self) -> (identity: Option<&I>)
        ensures
            match identity {
                Some(i) => self@ == Some(*i),
                None => self@ is None,
            },
    {
        match &self.identity {
            Some(i) => Some(i),
            None => None,
        }
    }
}

impl<I: Identity> RequestIdentity for RequestExtensions<I> {
    open spec fn request_identity_text(&self) -> Option<Seq<char>> {
        match self@ {
            Some(i) => i.identity_text(),
            None => None,
        }
    }

    open spec fn request_credentials(&self) -> Option<(Uuid, Uuid)> {
        match self@ {
            Some(i) => i.credential_pair(),
            None => None,
        }
    }

    fn identity(&self) -> (id: Option<&str>) {
        match &self.identity {
            Some(i) => i.identity(),
            None => None,
        }
    }

    /// Forgets the credentials of the attached identity, which stays attached;
    /// a request without an identity stays as it was.
    fn forget(&mut self)
        ensures
            final(self)@ is Some <==> old(self)@ is Some,
            old(self)@ is None ==> final(self)@ == old(self)@,
    {
        match &mut self.identity {
            Some(i) => i.forget(),
            None => {},
        }
    }

    fn credentials(&self) -> (creds: Option<(&Uuid, &Uuid)>) {
        match &self.identity {
            Some(i) => i.credentials(),
            None => None,
        }
    }
}

/// Request identity middleware: attaches to each request the identity that
/// its backend policy finds for it, and takes it off again when the request
/// has been answered.
pub struct IdentityService<T> {
    backend: T,
}

impl<T> View for IdentityService<T> {
    type V = T;

    closed spec fn view(&self) -> T {
        self.backend
    }
}

impl<T> IdentityService<T> {
    /// Creates a new identity service with the given backend.
    pub fn new(backend: T) -> (service: Self)
        ensures
            service@ == backend,
    {
        IdentityService { backend }
    }

    /// The backend policy of the service.
    pub fn backend(&self) -> (backend: &T)
        ensures
            *backend == self@,
    {
        &self.backend
    }

    /// What the service does when a request starts and its backend has
    /// answered: an identity is attached to the request, an error is
    /// passed on and leaves the request as it was.
    pub fn start<I, E>(&self, req: &mut RequestExtensions<I>, outcome: Result<I, E>) -> (started: Result<(), E>)
        ensures
            match outcome {
                Ok(identity) => started is Ok && final(req)@ == Some(identity),
                Err(e) => started == Err::<(), E>(e) && final(req)@ == old(req)@,
            },
    {
        match outcome {
            Ok(identity) => {
                req.insert(identity);
                Ok(())
            },
            Err(err) => Err(err),
        }
    }

    /// What the service does with a request's response: the identity is
    /// taken off the request and the response is passed on as it is.
    pub fn response<I, R>(&self, req: &mut RequestExtensions<I>, resp: R) -> (done: R)
        ensures
            done == resp,
            final(req)@ is None,
    {
        let _identity = req.remove();
        resp
    }
}

/// The hyphenated text of the user identifier of optional credentials.
pub open spec fn user_text(creds: Option<(Uuid, Uuid)>) -> Option<Seq<char>> {
    match creds {
        Some(c) => Some(hyphenated(c.0.value)),
        None => None,
    }
}

/// The identity of an API request: the user and group identifiers it
/// carries, and its text, the user identifier in hyphenated form.
pub struct ApiIdentity {
    identity: Option<(Uuid, Uuid)>,
    str_identity: Option<String>,
}

impl ApiIdentity {
    /// The identity with the given credentials.
    pub fn new(identity: Option<(Uuid, Uuid)>) -> (api: ApiIdentity)
        ensures
            api.credential_pair() == identity,
            api.identity_text() == user_text(identity),
    {
        let str_identity = match identity {
            Some(s) => Some(s.0.to_string()),
            None => None,
        };
        ApiIdentity { identity, str_identity }
    }
}

impl Identity for ApiIdentity {
    closed spec fn identity_text(&self) -> Option<Seq<char>> {
        match self.str_identity {
            Some(s) => Some(s@),
            None => None,
        }
    }

    closed spec fn credential_pair(&self) -> Option<(Uuid, Uuid)> {
        self.identity
    }

    fn identity(&self) -> (id: Option<&str>) {
        match &self.str_identity {
            Some(s) => Some(s.as_str()),
            None => None,
        }
    }

    /// Forgets the credentials; the identity's text stays as it was.
    fn forget(&mut self) {
        self.identity = None;
    }

    fn credentials(&self) -> (creds: Option<(&Uuid, &Uuid)>) {
        match &self.identity {
            Some(s) => Some((&s.0, &s.1)),
            None => None,
        }
    }
}

/// The claims of an API token: when it was issued, and the user and group
/// it was issued to.
pub struct Claims {
    iat: i64,
    user_id: Uuid,
    group_id: Uuid,
}

/// What a token's claims hold: issue time, user identifier, group identifier.
pub struct ClaimsView {
    pub iat: i64,
    pub user_id: Uuid,
    pub group_id: Uuid,
}

impl View for Claims {
    type V = ClaimsView;

    closed spec fn view(&self) -> ClaimsView {
        ClaimsView { iat: self.iat, user_id: self.user_id, group_id: self.group_id }
    }
}

impl Claims {
    /// The claims issued at `iat` to the given user and group.
    pub fn new(iat: i64, user_id: Uuid, group_id: Uuid) -> (claims: Claims)
        ensures
            claims@ == (ClaimsView { iat, user_id, group_id }),
    {
        Claims { iat, user_id, group_id }
    }

    /// When the token was issued.
    pub fn iat(&self) -> (iat: i64)
        ensures
            iat == self@.iat,
    {
        self.iat
    }

    /// The user the token was issued to.
    pub fn user_id(&self) -> (user: Uuid)
        ensures
            user == self@.user_id,
    {
        self.user_id
    }

    /// The group the token was issued to.
    pub fn group_id(&self) -> (group: Uuid)
        ensures
            group == self@.group_id,
    {
        self.group_id
    }

    /// The credentials that the claims carry: user and group identifiers.
    pub fn credentials(&self) -> (creds: (Uuid, Uuid))
        ensures
            creds == (self@.user_id, self@.group_id),
    {
        (self.user_id, self.group_id)
    }
}

/// Whether a header byte is visible ASCII (or a tab), the bytes that a
/// header value may hold to be read as text.
pub open spec fn visible_ascii(b: u8) -> bool {
    (32 <= b && b < 127) || b == 9
}

/// Whether a header value can be read as text: all its bytes are visible ASCII.
pub open spec fn header_text(h: Seq<u8>) -> bool {
    forall|i: int| 0 <= i < h.len() ==> visible_ascii(#[trigger] h[i])
}

/// The lower-case form of an ASCII byte.
pub open spec fn ascii_lower(b: u8) -> u8 {
    if 65 <= b && b <= 90 {
        (b + 32) as u8
    } else {
        b
    }
}

/// The bytes of the word `bearer`.
pub open spec fn bearer_word() -> Seq<u8> {
    seq![98u8, 101u8, 97u8, 114u8, 101u8, 114u8]
}

/// Whether a header value, read as text and put in lower case, starts with `bearer`.
pub open spec fn bearer_header(h: Seq<u8>) -> bool {
    &&& header_text(h)
    &&& h.len() >= 6
    &&& forall|i: int| 0 <= i < 6 ==> ascii_lower(#[trigger] h[i]) == bearer_word()[i]
}

/// Where the credentials of a request come from, before any token is decoded.
pub enum CredentialLookup {
    /// The credentials are known: those of the session, or none at all.
    Resolved(Option<(Uuid, Uuid)>),
    /// The credentials are the claims of this bearer token, once decoded.
    BearerToken(Vec<u8>),
}

/// The credentials of decoded claims, if decoding gave any.
pub open spec fn claims_credentials(decoded: Option<Claims>) -> Option<(Uuid, Uuid)> {
    match decoded {
        Some(c) => Some((c@.user_id, c@.group_id)),
        None => None,
    }
}

impl CredentialLookup {
    /// The credentials a lookup ends with: what a resolved lookup found, or
    /// the credentials of the token's decoded claims.
    pub open spec fn resolution(self, decoded: Option<Claims>) -> Option<(Uuid, Uuid)> {
        match self {
            CredentialLookup::Resolved(found) => found,
            CredentialLookup::BearerToken(_) => claims_credentials(decoded),
        }
    }

    /// Finishes a lookup: a bearer token gives the credentials of its claims
    /// (`decoded`, `None` where the token did not decode); a resolved lookup
    /// keeps what it found.
    pub fn resolve(self, decoded: Option<Claims>) -> (creds: Option<(Uuid, Uuid)>)
        ensures
            creds == self.resolution(decoded),
    {
        match self {
            CredentialLookup::Resolved(found) => found,
            CredentialLookup::BearerToken(_) => match decoded {
                Some(c) => Some(c.credentials()),
                None => None,
            },
        }
    }
}

/// Whether `load` is defined on these inputs: it is not where a header that
/// starts with `bearer` has no byte after the word and its separator.
pub open spec fn load_defined(session_creds: Option<(Uuid, Uuid)>, authorization: Option<&[u8]>) -> bool {
    session_creds is None ==> match authorization {
        Some(h) => bearer_header(h@) ==> h@.len() >= 7,
        None => true,
    }
}

/// What `load` finds: the session's credentials first; else, for an
/// `authorization` header that starts with `bearer`, the token after its
/// seventh byte; else nothing.
pub open spec fn lookup_result(
    session_creds: Option<(Uuid, Uuid)>,
    authorization: Option<&[u8]>,
    found: CredentialLookup,
) -> bool {
    match session_creds {
        Some(c) => found == CredentialLookup::Resolved(Some(c)),
        None => match authorization {
            Some(h) => if bearer_header(h@) {
                found matches CredentialLookup::BearerToken(t) && t@ == h@.skip(7)
            } else {
                found == CredentialLookup::Resolved(None)
            },
            None => found == CredentialLookup::Resolved(None),
        },
    }
}

/// Whether every byte of `h` is visible ASCII.
fn is_header_text(h: &[u8]) -> (text: bool)
    ensures
        text == header_text(h@),
{
    let mut i: usize = 0;
    while i < h.len()
        invariant
            i <= h@.len(),
            forall|j: int| 0 <= j < i ==> visible_ascii(#[trigger] h@[j]),
        decreases h@.len() - i,
    {
        let b: u8 = h[i];
        if !((32 <= b && b < 127) || b == 9) {
            return false;
        }
        i = i + 1;
    }
    true
}

/// Whether `h`, in lower case, starts with `bearer`.
fn has_bearer_prefix(h: &[u8]) -> (prefixed: bool)
    ensures
        prefixed == (h@.len() >= 6 && forall|i: int| 0 <= i < 6 ==> ascii_lower(#[trigger] h@[i]) == bearer_word()[i]),
{
    if h.len() < 6 {
        return false;
    }
    let word: [u8; 6] = [98u8, 101u8, 97u8, 114u8, 101u8, 114u8];
    assert(word@ == bearer_word());
    let mut i: usize = 0;
    while i < 6
        invariant
            i <= 6,
            h@.len() >= 6,
            word@ == bearer_word(),
            forall|j: int| 0 <= j < i ==> ascii_lower(#[trigger] h@[j]) == bearer_word()[j],
        decreases 6 - i,
    {
        let b: u8 = h[i];
        let lower: u8 = if 65 <= b && b <= 90 { b + 32 } else { b };
        if lower != word[i] {
            return false;
        }
        i = i + 1;
    }
    true
}

/// Whether a header value, read as text and put in lower case, starts with
/// `bearer`: a header that is not text does not.
pub fn is_bearer_header(h: &[u8]) -> (bearer: bool)
    ensures
        bearer == bearer_header(h@),
{
    is_header_text(h) && has_bearer_prefix(h)
}

/// The bytes of `h` from index `start` on.
fn bytes_from(h: &[u8], start: usize) -> (tail: Vec<u8>)
    requires
        start <= h@.len(),
    ensures
        tail@ == h@.skip(start as int),
{
    let mut tail: Vec<u8> = Vec::new();
    let mut i: usize = start;
    while i < h.len()
        invariant
            start <= i <= h@.len(),
            tail@ == h@.subrange(start as int, i as int),
        decreases h@.len() - i,
    {
        tail.push(h[i]);
        i = i + 1;
    }
    tail
}

/// The key that API tokens are signed with.
struct ApiIdentityInner {
    key: Vec<u8>,
}

impl ApiIdentityInner {
    fn new(key: &[u8]) -> (inner: ApiIdentityInner)
        ensures
            inner.key@ == key@,
    {
        let mut k: Vec<u8> = Vec::new();
        let mut i: usize = 0;
        while i < key.len()
            invariant
                i <= key@.len(),
                k@ == key@.take(i as int),
            decreases key@.len() - i,
        {
            k.push(key[i]);
            i = i + 1;
        }
        ApiIdentityInner { key: k }
    }

    /// Finds the credentials of a request: those of its session where it has
    /// them; else the bearer token of its `authorization` header, the bytes
    /// after the first seven, which are to be decoded with the key.
    fn load(&self, session_creds: Option<(Uuid, Uuid)>, authorization: Option<&[u8]>) -> (found: CredentialLookup)
        requires
            load_defined(session_creds, authorization),
        ensures
            lookup_result(session_creds, authorization, found),
    {
        if session_creds.is_some() {
            return CredentialLookup::Resolved(session_creds);
        }
        match authorization {
            Some(header) => {
                if is_bearer_header(header) {
                    CredentialLookup::BearerToken(bytes_from(header, 7))
                } else {
                    CredentialLookup::Resolved(None)
                }
            },
            None => CredentialLookup::Resolved(None),
        }
    }
}

/// The identity policy of the API: credentials come from the session, or
/// from a bearer token signed with the policy's key.
pub struct ApiIdentityPolicy(Rc<ApiIdentityInner>);

impl View for ApiIdentityPolicy {
    type V = Seq<u8>;

    /// The key that tokens are signed with.
    closed spec fn view(&self) -> Seq<u8> {
        self.0.key@
    }
}

impl ApiIdentityPolicy {
    /// The policy whose tokens are signed with `key`.
    pub fn new(key: &[u8]) -> (policy: ApiIdentityPolicy)
        ensures
            policy@ == key@,
    {
        ApiIdentityPolicy(Rc::new(ApiIdentityInner::new(key)))
    }

    /// The key that tokens are signed with.
    pub fn key(&self) -> (key: &[u8])
        ensures
            key@ == self@,
    {
        self.0.key.as_slice()
    }

    /// Finds where the credentials of a request come from: its session's
    /// credentials, else the bearer token of its `authorization` header.
    pub fn load(&self, session_creds: Option<(Uuid, Uuid)>, authorization: Option<&[u8]>) -> (found: CredentialLookup)
        requires
            load_defined(session_creds, authorization),
        ensures
            lookup_result(session_creds, authorization, found),
    {
        self.0.load(session_creds, authorization)
    }

    /// The identity of a request with the credentials found for it; a
    /// request without credentials is unauthorized and gets none.
    pub fn from_request(&self, credentials: Option<(Uuid, Uuid)>) -> (identity: Option<ApiIdentity>)
        ensures
            match identity {
                Some(api) => credentials is Some && api.credential_pair() == credentials
                    && api.identity_text() == user_text(credentials),
                None => credentials is None,
            },
    {
        if credentials.is_some() {
            Some(ApiIdentity::new(credentials))
        } else {
            None
        }
    }
}

/// A request shows the identity that is attached to it: its text and its
/// credentials are those of the attached identity.
pub proof fn attached_identity_is_shown<I: Identity>(req: RequestExtensions<I>, identity: I)
    requires
        req@ == Some(identity),
    ensures
        req.request_identity_text() == identity.identity_text(),
        req.request_credentials() == identity.credential_pair(),
{
}

/// A request without an attached identity, such as one whose response the
/// identity service has passed on, shows neither text nor credentials.
pub proof fn detached_request_is_anonymous<I: Identity>(req: RequestExtensions<I>)
    requires
        req@ is None,
    ensures
        req.request_identity_text() is None,
        req.request_credentials() is None,
{
}

/// The credentials of a session are used as they are, whatever the request's
/// `authorization` header holds and whatever a token would decode to.
pub proof fn session_credentials_win(
    creds: (Uuid, Uuid),
    authorization: Option<&[u8]>,
    found: CredentialLookup,
    decoded: Option<Claims>,
)
    requires
        lookup_result(Some(creds), authorization, found),
    ensures
        found.resolution(decoded) == Some(creds),
{
}

/// A request without session credentials and without an `authorization`
/// header that starts with `bearer` has no credentials, so the API policy
/// gives it no identity.
pub proof fn unauthenticated_request_is_refused(
    authorization: Option<&[u8]>,
    found: CredentialLookup,
    decoded: Option<Claims>,
)
    requires
        lookup_result(None, authorization, found),
        match authorization {
            Some(h) => !bearer_header(h@),
            None => true,
        },
    ensures
        found.resolution(decoded) is None,
{
}

/// A bearer token that does not decode gives no credentials.
pub proof fn undecodable_token_is_refused(token: Vec<u8>)
    ensures
        CredentialLookup::BearerToken(token).resolution(None) is None,
{
}

/// An API identity made from credentials gives back those credentials, the
/// user and group identifiers among them, and the user identifier's text.
pub proof fn api_identity_round_trip(api: ApiIdentity, user: Uuid, group: Uuid)
    requires
        api.credential_pair() == Some((user, group)),
        api.identity_text() == user_text(Some((user, group))),
    ensures
        user_of(api.credential_pair()) == Some(user),
        group_of(api.credential_pair()) == Some(group),
        api.identity_text() == Some(hyphenated(user.value)),
{
}

/// Every printable ASCII byte (space to `~`) and the tab are header text;
/// no other byte is.
pub proof fn printable_ascii_is_header_text(b: u8)
    ensures
        (32 <= b && b <= 126) ==> visible_ascii(b),
        b == 9 ==> visible_ascii(b),
        visible_ascii(b) ==> ((32 <= b && b <= 126) || b == 9),
{
}

/// A request without session credentials whose `authorization` header is
/// `Bearer ` followed by any printable ASCII token is looked up by exactly
/// that token.
pub proof fn bearer_header_gives_its_token(header: &[u8], token: Seq<u8>, found: CredentialLookup)
    requires
        header@ == seq![66u8, 101u8, 97u8, 114u8, 101u8, 114u8, 32u8] + token,
        forall|i: int| 0 <= i < token.len() ==> 32 <= #[trigger] token[i] && token[i] <= 126,
        lookup_result(None, Some(header), found),
    ensures
        bearer_header(header@),
        found matches CredentialLookup::BearerToken(t) && t@ == token,
{
    let h = header@;
    assert forall|i: int| 0 <= i < h.len() implies visible_ascii(#[trigger] h[i]) by {
        if i >= 7 {
            assert(h[i] == token[i - 7]);
        }
    }
    assert forall|i: int| 0 <= i < 6 implies ascii_lower(#[trigger] h[i]) == bearer_word()[i] by {
    }
    assert(h.skip(7) =~= token);
}

} // verus!
