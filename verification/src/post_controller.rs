use vstd::prelude::*;
use vstd::string::StringExecFns;
use crate::reply::Reply;
use crate::shencha::ReviewOutcome;

verus! {

broadcast use vstd::string::group_string_axioms;

/// Posts listed per page when the request does not say, and on an author's home page.
pub const DEFAULT_POSTS_PER_PAGE: u64 = 100;

/// The largest image accepted, in bytes (500 KiB).
pub const MAX_IMAGE_BYTES: usize = 512000;

/// The query of a post listing.
pub struct Params {
    pub status: i16,
    pub page: Option<u64>,
    pub posts_per_page: Option<u64>,
}

impl Params {
    /// The page asked for (the first by default) and the posts per page (100 by default).
    pub fn page_settings(&self) -> (settings: (u64, u64))
        ensures
            settings.0 == match self.page {
                Some(p) => p,
                None => 1,
            },
            settings.1 == match self.posts_per_page {
                Some(n) => n,
                None => DEFAULT_POSTS_PER_PAGE,
            },
    {
        let page = match self.page {
            Some(p) => p,
            None => 1,
        };
        let posts_per_page = match self.posts_per_page {
            Some(n) => n,
            None => DEFAULT_POSTS_PER_PAGE,
        };
        (page, posts_per_page)
    }
}

/// What an author sends to save a post.
pub struct PostSavingRequest {
    pub title: String,
    pub sharing_path: String,
    pub tags: String,
    pub category: i16,
    pub the_abstract: String,
    pub text: String,
    pub references: String,
}

/// The fields of a post reviewed together, before its text: title, sharing path, tags,
/// abstract and references, joined by single spaces.
pub open spec fn fields_for_review_spec(r: PostSavingRequest) -> Seq<char> {
    r.title@ + " "@ + r.sharing_path@ + " "@ + r.tags@ + " "@ + r.the_abstract@ + " "@ + r.references@
}

impl PostSavingRequest {
    /// The fields reviewed together, before the text.
    pub fn fields_for_review(&self) -> (text: String)
        ensures
            text@ == fields_for_review_spec(*self),
    {
        let mut text = self.title.clone();
        text.append(" ");
        text.append(self.sharing_path.as_str());
        text.append(" ");
        text.append(self.tags.as_str());
        text.append(" ");
        text.append(self.the_abstract.as_str());
        text.append(" ");
        text.append(self.references.as_str());
        text
    }
}

/// An image is accepted when it holds at least one byte and at most 500 KiB.
pub fn image_size_acceptable(size: usize) -> (ok: bool)
    ensures
        ok == (1 <= size <= MAX_IMAGE_BYTES),
{
    size >= 1 && size <= MAX_IMAGE_BYTES
}

// Saving an edited post.

/// Where the saving of an edited post stands.
pub enum PostUpdateState {
    Start,
    /// The title, sharing path, tags, abstract and references are under review.
    ReviewingFields { user_id: i32, post_id: i32, request: PostSavingRequest },
    /// The text is under review.
    ReviewingText { user_id: i32, post_id: i32, request: PostSavingRequest },
    /// The post is being stored.
    Saving,
    Done,
}

/// What the outside work reports back while an edited post is saved.
pub enum PostUpdateEvent {
    /// The request: its author (`None` when the request carries no user id), the id of
    /// the post and what the author sends.
    Requested { user_id: Option<i32>, post_id: i32, request: PostSavingRequest },
    /// The review of the text handed over last.
    Reviewed(ReviewOutcome),
    /// The post was stored, or not.
    Saved { ok: bool },
}

/// What the outside world is to do next while an edited post is saved.
pub enum PostUpdateAction {
    /// Have this text (the title, sharing path, tags, abstract and references) reviewed.
    ReviewFields { text: String },
    /// Have this text (the post's text) reviewed.
    ReviewText { text: String },
    /// Store the post `post_id` of `user_id` with this title, sharing path, tags and text.
    Save { user_id: i32, post_id: i32, title: String, sharing_path: String, tags: String, text: String },
    /// Answer the request (200 carries the stored post).
    Answer(Reply),
}

/// Whether the saving of an edited post expects the event in this state.
pub open spec fn post_update_expects(state: PostUpdateState, event: PostUpdateEvent) -> bool {
    match (state, event) {
        (PostUpdateState::Start, PostUpdateEvent::Requested { .. }) => true,
        (PostUpdateState::ReviewingFields { .. }, PostUpdateEvent::Reviewed(_)) => true,
        (PostUpdateState::ReviewingText { .. }, PostUpdateEvent::Reviewed(_)) => true,
        (PostUpdateState::Saving, PostUpdateEvent::Saved { .. }) => true,
        _ => false,
    }
}

/// What a review that did not pass is answered: 403 when the verdict was no, 500 when the
/// review failed.
pub open spec fn refusal_for(outcome: ReviewOutcome) -> Reply {
    match outcome {
        ReviewOutcome::Verdict(false) => Reply::Forbidden,
        _ => Reply::InternalServerError,
    }
}

/// Two requests to save a post send the same texts and category.
pub open spec fn same_request(a: PostSavingRequest, b: PostSavingRequest) -> bool {
    &&& a.title@ == b.title@
    &&& a.sharing_path@ == b.sharing_path@
    &&& a.tags@ == b.tags@
    &&& a.category == b.category
    &&& a.the_abstract@ == b.the_abstract@
    &&& a.text@ == b.text@
    &&& a.references@ == b.references@
}

/// The action that stores the post `post_id` of `user_id` as the request asks: its title,
/// sharing path, tags and text.
pub open spec fn saves(action: PostUpdateAction, user_id: i32, post_id: i32, request: PostSavingRequest) -> bool {
    action matches PostUpdateAction::Save { user_id: u, post_id: p, title, sharing_path, tags, text }
        && u == user_id && p == post_id && title@ == request.title@ && sharing_path@ == request.sharing_path@
        && tags@ == request.tags@ && text@ == request.text@
}

/// The saving of an edited post, step by step, as a relation between the state, the event
/// and the next state and action: a request without a user id is answered 404; the fields
/// and then the text must each pass review; then the post is stored and the request
/// answered 200, or 500 when storing fails.
pub open spec fn post_update_step_ok(state: PostUpdateState, event: PostUpdateEvent, next: (PostUpdateState, PostUpdateAction)) -> bool {
    match (state, event) {
        (PostUpdateState::Start, PostUpdateEvent::Requested { user_id, post_id, request }) => match user_id {
            Some(id) => {
                &&& (next.0 matches PostUpdateState::ReviewingFields { user_id: u, post_id: p, request: r }
                    && u == id && p == post_id && same_request(r, request))
                &&& (next.1 matches PostUpdateAction::ReviewFields { text } && text@ == fields_for_review_spec(request))
            },
            None => next.0 is Done && next.1 == PostUpdateAction::Answer(Reply::NotFound),
        },
        (PostUpdateState::ReviewingFields { user_id, post_id, request }, PostUpdateEvent::Reviewed(outcome)) => if outcome
            == ReviewOutcome::Verdict(true) {
            &&& (next.0 matches PostUpdateState::ReviewingText { user_id: u, post_id: p, request: r }
                && u == user_id && p == post_id && same_request(r, request))
            &&& (next.1 matches PostUpdateAction::ReviewText { text } && text@ == request.text@)
        } else {
            next.0 is Done && next.1 == PostUpdateAction::Answer(refusal_for(outcome))
        },
        (PostUpdateState::ReviewingText { user_id, post_id, request }, PostUpdateEvent::Reviewed(outcome)) => if outcome
            == ReviewOutcome::Verdict(true) {
            next.0 is Saving && saves(next.1, user_id, post_id, request)
        } else {
            next.0 is Done && next.1 == PostUpdateAction::Answer(refusal_for(outcome))
        },
        (PostUpdateState::Saving, PostUpdateEvent::Saved { ok }) => if ok {
            next.0 is Done && next.1 == PostUpdateAction::Answer(Reply::Success)
        } else {
            next.0 is Done && next.1 == PostUpdateAction::Answer(Reply::InternalServerError)
        },
        _ => false,
    }
}

fn refusal(outcome: ReviewOutcome) -> (reply: Reply)
    ensures
        reply == refusal_for(outcome),
{
    match outcome {
        ReviewOutcome::Verdict(false) => Reply::Forbidden,
        _ => Reply::InternalServerError,
    }
}

/// One step of saving an edited post.
pub fn post_update_step(state: PostUpdateState, event: PostUpdateEvent) -> (next: (PostUpdateState, PostUpdateAction))
    requires
        post_update_expects(state, event),
    ensures
        post_update_step_ok(state, event, next),
{
    match (state, event) {
        (PostUpdateState::Start, PostUpdateEvent::Requested { user_id, post_id, request }) => match user_id {
            Some(id) => {
                let text = request.fields_for_review();
                (PostUpdateState::ReviewingFields { user_id: id, post_id, request }, PostUpdateAction::ReviewFields { text })
            },
            None => (PostUpdateState::Done, PostUpdateAction::Answer(Reply::NotFound)),
        },
        (PostUpdateState::ReviewingFields { user_id, post_id, request }, PostUpdateEvent::Reviewed(outcome)) => {
            if crate::shencha::review_goes_on(&outcome) {
                let text = request.text.clone();
                (PostUpdateState::ReviewingText { user_id, post_id, request }, PostUpdateAction::ReviewText { text })
            } else {
                (PostUpdateState::Done, PostUpdateAction::Answer(refusal(outcome)))
            }
        },
        (PostUpdateState::ReviewingText { user_id, post_id, request }, PostUpdateEvent::Reviewed(outcome)) => {
            if crate::shencha::review_goes_on(&outcome) {
                (
                    PostUpdateState::Saving,
                    PostUpdateAction::Save {
                        user_id,
                        post_id,
                        title: request.title,
                        sharing_path: request.sharing_path,
                        tags: request.tags,
                        text: request.text,
                    },
                )
            } else {
                (PostUpdateState::Done, PostUpdateAction::Answer(refusal(outcome)))
            }
        },
        (PostUpdateState::Saving, PostUpdateEvent::Saved { ok }) => {
            if ok {
                (PostUpdateState::Done, PostUpdateAction::Answer(Reply::Success))
            } else {
                (PostUpdateState::Done, PostUpdateAction::Answer(Reply::InternalServerError))
            }
        },
        (state, _) => (state, PostUpdateAction::Answer(Reply::InternalServerError)),
    }
}

/// An edited post is stored only after both its fields and its text passed review, and
/// what is stored is the post the request names, for its author, with the title, sharing
/// path, tags and text it sends.
pub proof fn law_saved_only_after_review(
    e0: PostUpdateEvent,
    n0: (PostUpdateState, PostUpdateAction),
    e1: PostUpdateEvent,
    n1: (PostUpdateState, PostUpdateAction),
    e2: PostUpdateEvent,
    n2: (PostUpdateState, PostUpdateAction),
)
    requires
        post_update_step_ok(PostUpdateState::Start, e0, n0),
        post_update_step_ok(n0.0, e1, n1),
        post_update_step_ok(n1.0, e2, n2),
        n2.1 is Save,
    ensures
        e0 matches PostUpdateEvent::Requested { user_id: Some(u), post_id, request } && saves(n2.1, u, post_id, request),
        e1 == PostUpdateEvent::Reviewed(ReviewOutcome::Verdict(true)),
        e2 == PostUpdateEvent::Reviewed(ReviewOutcome::Verdict(true)),
{
}

} // verus!

verus! {

// Publishing, unpublishing and deleting a post.

/// Which move of a post a request asks for.
#[derive(PartialEq, Eq, Structural, Debug, Clone, Copy)]
pub enum PostMove {
    Publish,
    Unpublish,
    Delete,
}

/// Where a move of a post stands.
#[derive(PartialEq, Eq, Structural, Debug, Clone, Copy)]
pub enum PostMoveState {
    Start,
    /// The store is moving the post.
    Moving { user_id: i32, post_id: i32, kind: PostMove },
    /// The author's pages are being written again.
    Refreshing,
    Done,
}

/// What the outside work reports back while a post is moved.
#[derive(PartialEq, Eq, Structural, Debug, Clone, Copy)]
pub enum PostMoveEvent {
    /// The request: its author (`None` when the request carries no user id), the post and
    /// the move asked for.
    Requested { user_id: Option<i32>, post_id: i32, kind: PostMove },
    /// The store moved the post, or refused or failed to.
    Moved { ok: bool },
    /// The pages were written again.
    Refreshed,
}

/// What the outside world is to do next while a post is moved.
#[derive(PartialEq, Eq, Structural, Debug, Clone, Copy)]
pub enum PostMoveAction {
    /// Have the store move the post `post_id` of `user_id`.
    Move { user_id: i32, post_id: i32, kind: PostMove },
    /// Write the post's page (after publishing) or remove it (after unpublishing or
    /// deleting), then write the author's home page again with the first page of the
    /// author's published posts.
    RefreshPages { user_id: i32, post_id: i32, write_post_page: bool },
    /// Answer the request.
    Answer(Reply),
}

/// Whether a move of a post expects the event in this state.
pub open spec fn post_move_expects(state: PostMoveState, event: PostMoveEvent) -> bool {
    match (state, event) {
        (PostMoveState::Start, PostMoveEvent::Requested { .. }) => true,
        (PostMoveState::Moving { .. }, PostMoveEvent::Moved { .. }) => true,
        (PostMoveState::Refreshing, PostMoveEvent::Refreshed) => true,
        _ => false,
    }
}

/// A move of a post, step by step: a request without a user id is answered 404; the store
/// moves the post (500 when it refuses or fails); then the pages are written again, the
/// post's own page only after publishing, and the request is answered 200.
pub open spec fn post_move_step_spec(state: PostMoveState, event: PostMoveEvent) -> (PostMoveState, PostMoveAction) {
    match (state, event) {
        (PostMoveState::Start, PostMoveEvent::Requested { user_id, post_id, kind }) => match user_id {
            Some(id) => (
                PostMoveState::Moving { user_id: id, post_id, kind },
                PostMoveAction::Move { user_id: id, post_id, kind },
            ),
            None => (PostMoveState::Done, PostMoveAction::Answer(Reply::NotFound)),
        },
        (PostMoveState::Moving { user_id, post_id, kind: k }, PostMoveEvent::Moved { ok }) => if ok {
            (
                PostMoveState::Refreshing,
                PostMoveAction::RefreshPages { user_id, post_id, write_post_page: k == PostMove::Publish },
            )
        } else {
            (PostMoveState::Done, PostMoveAction::Answer(Reply::InternalServerError))
        },
        (PostMoveState::Refreshing, PostMoveEvent::Refreshed) => (PostMoveState::Done, PostMoveAction::Answer(Reply::Success)),
        _ => (PostMoveState::Done, PostMoveAction::Answer(Reply::InternalServerError)),
    }
}

/// One step of a move of a post.
pub fn post_move_step(state: PostMoveState, event: PostMoveEvent) -> (next: (PostMoveState, PostMoveAction))
    requires
        post_move_expects(state, event),
    ensures
        next == post_move_step_spec(state, event),
{
    match (state, event) {
        (PostMoveState::Start, PostMoveEvent::Requested { user_id, post_id, kind }) => match user_id {
            Some(id) => (
                PostMoveState::Moving { user_id: id, post_id, kind },
                PostMoveAction::Move { user_id: id, post_id, kind },
            ),
            None => (PostMoveState::Done, PostMoveAction::Answer(Reply::NotFound)),
        },
        (PostMoveState::Moving { user_id, post_id, kind: k }, PostMoveEvent::Moved { ok }) => {
            if ok {
                let write_post_page = match k {
                    PostMove::Publish => true,
                    _ => false,
                };
                (PostMoveState::Refreshing, PostMoveAction::RefreshPages { user_id, post_id, write_post_page })
            } else {
                (PostMoveState::Done, PostMoveAction::Answer(Reply::InternalServerError))
            }
        },
        (PostMoveState::Refreshing, PostMoveEvent::Refreshed) => (PostMoveState::Done, PostMoveAction::Answer(Reply::Success)),
        _ => (PostMoveState::Done, PostMoveAction::Answer(Reply::InternalServerError)),
    }
}

/// The pages of an author change only after the store moved the post the request names,
/// and a post's page is written only when the move was a publishing.
pub proof fn law_pages_refreshed_only_after_move(e0: PostMoveEvent, e1: PostMoveEvent)
    requires
        post_move_step_spec(post_move_step_spec(PostMoveState::Start, e0).0, e1).1 is RefreshPages,
    ensures
        e0 matches PostMoveEvent::Requested { user_id: Some(u), post_id, kind }
            && post_move_step_spec(PostMoveState::Start, e0).1 == (PostMoveAction::Move { user_id: u, post_id, kind })
            && post_move_step_spec(post_move_step_spec(PostMoveState::Start, e0).0, e1).1
                == (PostMoveAction::RefreshPages { user_id: u, post_id, write_post_page: kind == PostMove::Publish }),
        e1 == (PostMoveEvent::Moved { ok: true }),
{
}

} // verus!

verus! {

/// A move is answered 200 only once the store moved the post and the pages were written
/// again: whatever the kind of move, a store that refused or failed leads to 500; no step
/// from the start or from a move in progress answers 200; and a run of three steps that
/// ends in 200 met the store's success and then the refresh.
pub proof fn law_move_answered_200_only_after_store_moved(
    user_id: i32,
    post_id: i32,
    kind: PostMove,
    e: PostMoveEvent,
    e0: PostMoveEvent,
    e1: PostMoveEvent,
    e2: PostMoveEvent,
)
    ensures
        post_move_step_spec(PostMoveState::Moving { user_id, post_id, kind }, PostMoveEvent::Moved { ok: false })
            == (PostMoveState::Done, PostMoveAction::Answer(Reply::InternalServerError)),
        post_move_step_spec(PostMoveState::Start, e).1 != PostMoveAction::Answer(Reply::Success),
        post_move_step_spec(PostMoveState::Moving { user_id, post_id, kind }, e).1 != PostMoveAction::Answer(Reply::Success),
        post_move_step_spec(
            post_move_step_spec(post_move_step_spec(PostMoveState::Start, e0).0, e1).0,
            e2,
        ).1 == PostMoveAction::Answer(Reply::Success) ==> e1 == (PostMoveEvent::Moved { ok: true })
            && e2 == PostMoveEvent::Refreshed,
{
}

} // verus!
