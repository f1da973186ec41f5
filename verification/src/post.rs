use vstd::prelude::*;
use crate::datetime::{Timestamp, timestamp_text, format_timestamp, utc_now};
use crate::text::{decimal, decimal_text, escape_html, escape_html_spec, strip_line_breaks, without_line_breaks, same_text};

verus! {

broadcast use vstd::string::group_string_axioms;

/// A post being written, not shown to readers.
pub const STATUS_DRAFT: i16 = 1;

/// A post shown to readers.
pub const STATUS_PUBLISHED: i16 = 2;

/// A post removed by its author; no operation selects it again.
pub const STATUS_DELETED: i16 = 3;

/// A post that is an article.
pub const CATEGORY_ARTICLE: i16 = 1;

/// A post that is a note.
pub const CATEGORY_NOTE: i16 = 2;

/// A post, as stored, with three fields that are never stored: the text of `updated_at`
/// for pages, the sharing path it had before an update, and the name of its page.
pub struct Model {
    pub id: i32,
    pub user_id: i32,
    pub title: String,
    pub sharing_path: String,
    pub tags: String,
    pub category: i16,
    pub the_abstract: String,
    pub text: String,
    pub references: String,
    pub status: i16,
    pub created_at: Timestamp,
    pub updated_at: Timestamp,
    pub updated_at_formatted: String,
    pub old_sharing_path: String,
    pub id_or_sharing_path: String,
}

/// The fields of a new post; the store gives it an id, a category, an abstract,
/// references and its times.
pub struct NewPost {
    pub user_id: i32,
    pub title: String,
    pub sharing_path: String,
    pub tags: String,
    pub text: String,
    pub status: i16,
}

/// Why a change to the store was refused.
#[derive(PartialEq, Eq, Structural, Debug, Clone, Copy)]
pub enum ServiceError {
    PostNotFound,
    UserNotFound,
    NickAlreadyExists,
}

impl ServiceError {
    /// The message that the store reports for the refusal.
    pub open spec fn message_spec(self) -> Seq<char> {
        match self {
            ServiceError::PostNotFound => "Cannot find post."@,
            ServiceError::UserNotFound => "Cannot find user."@,
            ServiceError::NickAlreadyExists => "Nick already exists."@,
        }
    }

    /// The message that the store reports for the refusal.
    pub fn message(&self) -> (m: String)
        ensures
            m@ == self.message_spec(),
    {
        match self {
            ServiceError::PostNotFound => "Cannot find post.".to_owned(),
            ServiceError::UserNotFound => "Cannot find user.".to_owned(),
            ServiceError::NickAlreadyExists => "Nick already exists.".to_owned(),
        }
    }
}

/// Which statuses an operation accepts in the post it works on.
#[derive(PartialEq, Eq, Structural, Debug, Clone, Copy)]
pub enum StatusRule {
    NotDeleted,
    Exactly(i16),
}

/// Whether a status meets a rule.
pub open spec fn status_meets(status: i16, rule: StatusRule) -> bool {
    match rule {
        StatusRule::NotDeleted => status != STATUS_DELETED,
        StatusRule::Exactly(s) => status == s,
    }
}

/// The post that an operation of `user_id` on post `id` works on: the post with that id,
/// written by that user, whose status meets the rule.
pub open spec fn selects(post: Model, id: i32, user_id: i32, rule: StatusRule) -> bool {
    &&& post.id == id
    &&& post.user_id == user_id
    &&& status_meets(post.status, rule)
}

/// A copy of a text.
fn copy_text(s: &String) -> (c: String)
    ensures
        c@ == s@,
{
    s.clone()
}

/// Two posts agree in everything but status, time of last update and the fields that are
/// never stored.
pub open spec fn same_content(a: Model, b: Model) -> bool {
    &&& a.id == b.id
    &&& a.user_id == b.user_id
    &&& a.title@ == b.title@
    &&& a.sharing_path@ == b.sharing_path@
    &&& a.tags@ == b.tags@
    &&& a.category == b.category
    &&& a.the_abstract@ == b.the_abstract@
    &&& a.text@ == b.text@
    &&& a.references@ == b.references@
    &&& a.created_at == b.created_at
}

/// A copy of a post.
pub fn copy_post(p: &Model) -> (c: Model)
    ensures
        same_content(c, *p),
        c.status == p.status,
        c.updated_at == p.updated_at,
        c.updated_at_formatted@ == p.updated_at_formatted@,
        c.old_sharing_path@ == p.old_sharing_path@,
        c.id_or_sharing_path@ == p.id_or_sharing_path@,
{
    Model {
        id: p.id,
        user_id: p.user_id,
        title: copy_text(&p.title),
        sharing_path: copy_text(&p.sharing_path),
        tags: copy_text(&p.tags),
        category: p.category,
        the_abstract: copy_text(&p.the_abstract),
        text: copy_text(&p.text),
        references: copy_text(&p.references),
        status: p.status,
        created_at: p.created_at,
        updated_at: p.updated_at,
        updated_at_formatted: copy_text(&p.updated_at_formatted),
        old_sharing_path: copy_text(&p.old_sharing_path),
        id_or_sharing_path: copy_text(&p.id_or_sharing_path),
    }
}

/// A new post of `user_id`: a draft with the given title, sharing path, tags and text.
pub fn draft_post(user_id: i32, title: String, sharing_path: String, tags: String, text: String) -> (post: NewPost)
    ensures
        post.user_id == user_id,
        post.title@ == title@,
        post.sharing_path@ == sharing_path@,
        post.tags@ == tags@,
        post.text@ == text@,
        post.status == STATUS_DRAFT,
{
    NewPost { user_id, title, sharing_path, tags, text, status: STATUS_DRAFT }
}

/// Picks the post that an operation works on from what the store found under the id:
/// it must exist, belong to `user_id` and have a status that meets the rule.
pub fn select_post(found: Option<Model>, id: i32, user_id: i32, rule: StatusRule) -> (r: Result<Model, ServiceError>)
    ensures
        match r {
            Ok(p) => found == Some(p) && selects(p, id, user_id, rule),
            Err(e) => e == ServiceError::PostNotFound && !(found matches Some(p) && selects(p, id, user_id, rule)),
        },
{
    match found {
        Some(p) => {
            let meets = match rule {
                StatusRule::NotDeleted => p.status != STATUS_DELETED,
                StatusRule::Exactly(s) => p.status == s,
            };
            if p.id == id && p.user_id == user_id && meets {
                Ok(p)
            } else {
                Err(ServiceError::PostNotFound)
            }
        },
        None => Err(ServiceError::PostNotFound),
    }
}

/// The post after an edit: new title, sharing path, tags and text, updated at `now`;
/// it remembers the sharing path it had before.
pub open spec fn edited(current: Model, title: Seq<char>, sharing_path: Seq<char>, tags: Seq<char>, text: Seq<char>, now: Timestamp, result: Model) -> bool {
    &&& result.id == current.id
    &&& result.user_id == current.user_id
    &&& result.title@ == title
    &&& result.sharing_path@ == sharing_path
    &&& result.tags@ == tags
    &&& result.category == current.category
    &&& result.the_abstract@ == current.the_abstract@
    &&& result.text@ == text
    &&& result.references@ == current.references@
    &&& result.status == current.status
    &&& result.created_at == current.created_at
    &&& result.updated_at == now
    &&& result.updated_at_formatted@ == Seq::<char>::empty()
    &&& result.old_sharing_path@ == current.sharing_path@
    &&& result.id_or_sharing_path@ == Seq::<char>::empty()
}

/// Edits a post: new title, sharing path, tags and text, updated at `now`.
pub fn edit_post(current: Model, title: String, sharing_path: String, tags: String, text: String, now: Timestamp) -> (result: Model)
    ensures
        edited(current, title@, sharing_path@, tags@, text@, now, result),
        result.title@ == title@,
        result.sharing_path@ == sharing_path@,
        result.tags@ == tags@,
        result.text@ == text@,
        result.old_sharing_path@ == current.sharing_path@,
        result.updated_at == now,
{
    Model {
        id: current.id,
        user_id: current.user_id,
        title,
        sharing_path,
        tags,
        category: current.category,
        the_abstract: current.the_abstract,
        text,
        references: current.references,
        status: current.status,
        created_at: current.created_at,
        updated_at: now,
        updated_at_formatted: String::new(),
        old_sharing_path: current.sharing_path,
        id_or_sharing_path: String::new(),
    }
}

/// A post moved to `status`, updated at `now`.
pub open spec fn moved(current: Model, status: i16, now: Timestamp, result: Model) -> bool {
    &&& same_content(result, current)
    &&& result.status == status
    &&& result.updated_at == now
    &&& result.updated_at_formatted@ == current.updated_at_formatted@
    &&& result.old_sharing_path@ == current.old_sharing_path@
    &&& result.id_or_sharing_path@ == current.id_or_sharing_path@
}

/// Moves a post to `status`, updated at `now`.
pub fn move_post(current: Model, status: i16, now: Timestamp) -> (result: Model)
    ensures
        moved(current, status, now, result),
{
    let mut result = current;
    result.status = status;
    result.updated_at = now;
    result
}

/// The outcome of an operation that moves the post `id` of `user_id` from a status that
/// meets `rule` to `status`, at `now`.
pub open spec fn transition_outcome(found: Option<Model>, id: i32, user_id: i32, rule: StatusRule, status: i16, now: Timestamp, r: Result<Model, ServiceError>) -> bool {
    match r {
        Ok(p) => found matches Some(f) && selects(f, id, user_id, rule) && moved(f, status, now, p),
        Err(e) => e == ServiceError::PostNotFound && !(found matches Some(f) && selects(f, id, user_id, rule)),
    }
}

/// Edits the post `id` of `user_id` unless it is deleted; at `now`.
pub fn update_post_at(found: Option<Model>, id: i32, user_id: i32, title: String, sharing_path: String, tags: String, text: String, now: Timestamp) -> (r: Result<Model, ServiceError>)
    ensures
        match r {
            Ok(p) => found matches Some(f) && selects(f, id, user_id, StatusRule::NotDeleted)
                && edited(f, title@, sharing_path@, tags@, text@, now, p),
            Err(e) => e == ServiceError::PostNotFound && !(found matches Some(f) && selects(f, id, user_id, StatusRule::NotDeleted)),
        },
        r matches Ok(p) ==> p.title@ == title@ && p.sharing_path@ == sharing_path@ && p.tags@ == tags@
            && p.text@ == text@ && p.updated_at == now && p.id == id && p.user_id == user_id,
{
    match select_post(found, id, user_id, StatusRule::NotDeleted) {
        Ok(current) => Ok(edit_post(current, title, sharing_path, tags, text, now)),
        Err(e) => Err(e),
    }
}

/// Publishes the draft `id` of `user_id`, at `now`.
pub fn publish_post_at(found: Option<Model>, id: i32, user_id: i32, now: Timestamp) -> (r: Result<Model, ServiceError>)
    ensures
        transition_outcome(found, id, user_id, StatusRule::Exactly(STATUS_DRAFT), STATUS_PUBLISHED, now, r),
{
    match select_post(found, id, user_id, StatusRule::Exactly(STATUS_DRAFT)) {
        Ok(current) => Ok(move_post(current, STATUS_PUBLISHED, now)),
        Err(e) => Err(e),
    }
}

/// Takes the published post `id` of `user_id` back to a draft, at `now`.
pub fn unpublish_post_at(found: Option<Model>, id: i32, user_id: i32, now: Timestamp) -> (r: Result<Model, ServiceError>)
    ensures
        transition_outcome(found, id, user_id, StatusRule::Exactly(STATUS_PUBLISHED), STATUS_DRAFT, now, r),
{
    match select_post(found, id, user_id, StatusRule::Exactly(STATUS_PUBLISHED)) {
        Ok(current) => Ok(move_post(current, STATUS_DRAFT, now)),
        Err(e) => Err(e),
    }
}

/// Marks the post `id` of `user_id` deleted unless it already is, at `now`.
pub fn delete_post_at(found: Option<Model>, id: i32, user_id: i32, now: Timestamp) -> (r: Result<Model, ServiceError>)
    ensures
        transition_outcome(found, id, user_id, StatusRule::NotDeleted, STATUS_DELETED, now, r),
{
    match select_post(found, id, user_id, StatusRule::NotDeleted) {
        Ok(current) => Ok(move_post(current, STATUS_DELETED, now)),
        Err(e) => Err(e),
    }
}

/// Edits the post `id` of `user_id` unless it is deleted, at the current time.
pub fn update_post(found: Option<Model>, id: i32, user_id: i32, title: String, sharing_path: String, tags: String, text: String) -> (r: Result<Model, ServiceError>)
    ensures
        match r {
            Ok(p) => found matches Some(f) && selects(f, id, user_id, StatusRule::NotDeleted)
                && edited(f, title@, sharing_path@, tags@, text@, p.updated_at, p),
            Err(e) => e == ServiceError::PostNotFound && !(found matches Some(f) && selects(f, id, user_id, StatusRule::NotDeleted)),
        },
{
    let now = utc_now();
    update_post_at(found, id, user_id, title, sharing_path, tags, text, now)
}

/// Publishes the draft `id` of `user_id` at the current time.
pub fn publish_post(found: Option<Model>, id: i32, user_id: i32) -> (r: Result<Model, ServiceError>)
    ensures
        exists|now: Timestamp| transition_outcome(found, id, user_id, StatusRule::Exactly(STATUS_DRAFT), STATUS_PUBLISHED, now, r),
{
    let now = utc_now();
    let r = publish_post_at(found, id, user_id, now);
    assert(transition_outcome(found, id, user_id, StatusRule::Exactly(STATUS_DRAFT), STATUS_PUBLISHED, now, r));
    r
}

/// Takes the published post `id` of `user_id` back to a draft at the current time.
pub fn unpublish_post(found: Option<Model>, id: i32, user_id: i32) -> (r: Result<Model, ServiceError>)
    ensures
        exists|now: Timestamp| transition_outcome(found, id, user_id, StatusRule::Exactly(STATUS_PUBLISHED), STATUS_DRAFT, now, r),
{
    let now = utc_now();
    let r = unpublish_post_at(found, id, user_id, now);
    assert(transition_outcome(found, id, user_id, StatusRule::Exactly(STATUS_PUBLISHED), STATUS_DRAFT, now, r));
    r
}

/// Marks the post `id` of `user_id` deleted at the current time.
pub fn delete_post(found: Option<Model>, id: i32, user_id: i32) -> (r: Result<Model, ServiceError>)
    ensures
        exists|now: Timestamp| transition_outcome(found, id, user_id, StatusRule::NotDeleted, STATUS_DELETED, now, r),
{
    let now = utc_now();
    let r = delete_post_at(found, id, user_id, now);
    assert(transition_outcome(found, id, user_id, StatusRule::NotDeleted, STATUS_DELETED, now, r));
    r
}

/// The name of a post's page: its sharing path if it has one, else its id.
pub open spec fn id_or_sharing_path_spec(p: Model) -> Seq<char> {
    if p.sharing_path@.len() > 0 {
        p.sharing_path@
    } else {
        decimal(p.id as int)
    }
}

/// The name of a post's page: its sharing path if it has one, else its id.
pub fn page_name(p: &Model) -> (name: String)
    ensures
        name@ == id_or_sharing_path_spec(*p),
{
    if p.sharing_path.as_str().is_empty() {
        decimal_text(p.id as i64)
    } else {
        copy_text(&p.sharing_path)
    }
}

/// Fills in what a post's page shows besides the stored fields: the text of the time of
/// its last update and the name of its page.
pub fn prepare_for_page(post: &mut Model)
    ensures
        same_content(*final(post), *old(post)),
        final(post).status == old(post).status,
        final(post).updated_at == old(post).updated_at,
        final(post).old_sharing_path@ == old(post).old_sharing_path@,
        final(post).updated_at_formatted@ == timestamp_text(old(post).updated_at),
        final(post).id_or_sharing_path@ == id_or_sharing_path_spec(*old(post)),
{
    post.updated_at_formatted = format_timestamp(&post.updated_at);
    post.id_or_sharing_path = page_name(post);
}

/// A post as its page shows it: title, text and references escaped; the abstract escaped
/// and without line breaks.
pub open spec fn shown_on_page(p: Model, shown: Model) -> bool {
    &&& shown.id == p.id
    &&& shown.user_id == p.user_id
    &&& shown.title@ == escape_html_spec(p.title@)
    &&& shown.sharing_path@ == p.sharing_path@
    &&& shown.tags@ == p.tags@
    &&& shown.category == p.category
    &&& shown.the_abstract@ == without_line_breaks(escape_html_spec(p.the_abstract@))
    &&& shown.text@ == escape_html_spec(p.text@)
    &&& shown.references@ == escape_html_spec(p.references@)
    &&& shown.status == p.status
    &&& shown.created_at == p.created_at
    &&& shown.updated_at == p.updated_at
    &&& shown.updated_at_formatted@ == p.updated_at_formatted@
    &&& shown.old_sharing_path@ == p.old_sharing_path@
    &&& shown.id_or_sharing_path@ == p.id_or_sharing_path@
}

/// The post as its page shows it.
pub fn post_for_page(p: &Model) -> (shown: Model)
    ensures
        shown_on_page(*p, shown),
{
    let escaped_abstract = escape_html(p.the_abstract.as_str());
    Model {
        id: p.id,
        user_id: p.user_id,
        title: escape_html(p.title.as_str()),
        sharing_path: copy_text(&p.sharing_path),
        tags: copy_text(&p.tags),
        category: p.category,
        the_abstract: strip_line_breaks(escaped_abstract.as_str()),
        text: escape_html(p.text.as_str()),
        references: escape_html(p.references.as_str()),
        status: p.status,
        created_at: p.created_at,
        updated_at: p.updated_at,
        updated_at_formatted: copy_text(&p.updated_at_formatted),
        old_sharing_path: copy_text(&p.old_sharing_path),
        id_or_sharing_path: copy_text(&p.id_or_sharing_path),
    }
}

/// A post as an author's home page lists it: title escaped, the time of its last update
/// written out and the name of its page filled in.
pub open spec fn listed_on_home(p: Model, listed: Model) -> bool {
    &&& same_content(listed, Model { title: listed.title, ..p })
    &&& listed.title@ == escape_html_spec(p.title@)
    &&& listed.status == p.status
    &&& listed.updated_at == p.updated_at
    &&& listed.updated_at_formatted@ == timestamp_text(p.updated_at)
    &&& listed.old_sharing_path@ == p.old_sharing_path@
    &&& listed.id_or_sharing_path@ == id_or_sharing_path_spec(p)
}

/// The posts as an author's home page lists them, in the same order.
pub fn posts_for_home(posts: Vec<Model>) -> (listed: Vec<Model>)
    ensures
        listed@.len() == posts@.len(),
        forall|i: int| 0 <= i < posts@.len() ==> listed_on_home(posts@[i], #[trigger] listed@[i]),
{
    let mut listed: Vec<Model> = Vec::new();
    let n = posts.len();
    for i in 0..n
        invariant
            n == posts@.len(),
            listed@.len() == i,
            forall|j: int| 0 <= j < i ==> listed_on_home(posts@[j], #[trigger] listed@[j]),
    {
        let mut p = copy_post(&posts[i]);
        p.title = escape_html(posts[i].title.as_str());
        p.updated_at_formatted = format_timestamp(&posts[i].updated_at);
        p.id_or_sharing_path = page_name(&posts[i]);
        listed.push(p);
    }
    listed
}

/// Whether publishing a post must remove the page under its former sharing path: it had
/// one, and it changed.
pub fn former_page_is_stale(p: &Model) -> (stale: bool)
    ensures
        stale == (p.old_sharing_path@.len() > 0 && p.old_sharing_path@ != p.sharing_path@),
{
    !p.old_sharing_path.as_str().is_empty() && !same_text(p.old_sharing_path.as_str(), p.sharing_path.as_str())
}

} // verus!

verus! {

/// Publishing a draft and then taking it back succeeds, and gives a draft with the same
/// content; the published post is exactly what unpublishing accepts.
pub proof fn law_publish_then_unpublish(found: Option<Model>, id: i32, user_id: i32, t1: Timestamp, t2: Timestamp, published: Model, r: Result<Model, ServiceError>)
    requires
        transition_outcome(found, id, user_id, StatusRule::Exactly(STATUS_DRAFT), STATUS_PUBLISHED, t1, Ok(published)),
        transition_outcome(Some(published), id, user_id, StatusRule::Exactly(STATUS_PUBLISHED), STATUS_DRAFT, t2, r),
    ensures
        r matches Ok(back) && back.status == STATUS_DRAFT && same_content(back, found->0),
{
}

/// A deleted post is never worked on again: editing, publishing, unpublishing and
/// deleting it are all refused.
pub proof fn law_deleted_is_final(p: Model, id: i32, user_id: i32)
    requires
        p.status == STATUS_DELETED,
    ensures
        !selects(p, id, user_id, StatusRule::NotDeleted),
        !selects(p, id, user_id, StatusRule::Exactly(STATUS_DRAFT)),
        !selects(p, id, user_id, StatusRule::Exactly(STATUS_PUBLISHED)),
{
}

/// No operation works on a post of another user.
pub proof fn law_only_the_author(p: Model, id: i32, user_id: i32, rule: StatusRule)
    requires
        p.user_id != user_id,
    ensures
        !selects(p, id, user_id, rule),
{
}

} // verus!

verus! {

/// The posts as a listing shows them: each with the text of the time of its last update.
pub fn posts_for_listing(posts: Vec<Model>) -> (listed: Vec<Model>)
    ensures
        listed@.len() == posts@.len(),
        forall|i: int|
            0 <= i < posts@.len() ==> {
                let p = posts@[i];
                let l = #[trigger] listed@[i];
                &&& same_content(l, p)
                &&& l.status == p.status
                &&& l.updated_at == p.updated_at
                &&& l.updated_at_formatted@ == timestamp_text(p.updated_at)
                &&& l.old_sharing_path@ == p.old_sharing_path@
                &&& l.id_or_sharing_path@ == p.id_or_sharing_path@
            },
{
    let mut listed: Vec<Model> = Vec::new();
    let n = posts.len();
    for i in 0..n
        invariant
            n == posts@.len(),
            listed@.len() == i,
            forall|j: int|
                0 <= j < i ==> {
                    let p = posts@[j];
                    let l = #[trigger] listed@[j];
                    &&& same_content(l, p)
                    &&& l.status == p.status
                    &&& l.updated_at == p.updated_at
                    &&& l.updated_at_formatted@ == timestamp_text(p.updated_at)
                    &&& l.old_sharing_path@ == p.old_sharing_path@
                    &&& l.id_or_sharing_path@ == p.id_or_sharing_path@
                },
    {
        let mut p = copy_post(&posts[i]);
        p.updated_at_formatted = format_timestamp(&posts[i].updated_at);
        listed.push(p);
    }
    listed
}

/// The post that the store found under an id, or the refusal when there is none.
pub fn require_post(found: Option<Model>) -> (r: Result<Model, ServiceError>)
    ensures
        match found {
            Some(p) => r == Ok::<Model, ServiceError>(p),
            None => r == Err::<Model, ServiceError>(ServiceError::PostNotFound),
        },
{
    match found {
        Some(p) => Ok(p),
        None => Err(ServiceError::PostNotFound),
    }
}

/// The index from which the store counts pages for page number `page` (the first page
/// is 1).
pub fn page_index(page: u64) -> (index: u64)
    requires
        page >= 1,
    ensures
        index == page - 1,
{
    page - 1
}

} // verus!

verus! {

/// After an edit the post holds what the author sent: the new title, sharing path, tags
/// and text, stamped with the time of the edit; it keeps its id, author, category,
/// abstract, references, status and time of creation, and remembers the sharing path it had.
pub proof fn law_edit_holds_what_was_sent(
    current: Model,
    title: Seq<char>,
    sharing_path: Seq<char>,
    tags: Seq<char>,
    text: Seq<char>,
    now: Timestamp,
    result: Model,
)
    requires
        edited(current, title, sharing_path, tags, text, now, result),
    ensures
        result.title@ == title,
        result.sharing_path@ == sharing_path,
        result.tags@ == tags,
        result.text@ == text,
        result.updated_at == now,
        result.id == current.id,
        result.user_id == current.user_id,
        result.category == current.category,
        result.the_abstract@ == current.the_abstract@,
        result.references@ == current.references@,
        result.status == current.status,
        result.created_at == current.created_at,
        result.old_sharing_path@ == current.sharing_path@,
{
}

} // verus!
