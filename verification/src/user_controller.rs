use vstd::prelude::*;
use vstd::string::StringExecFns;
use crate::ip::{ParsedIp, is_internal_address, is_internal_spec};
use crate::reply::Reply;
use crate::sms::sms_code_accepted;
use crate::shencha::ReviewOutcome;
use crate::nick::{normalize_nick, normalize_nick_spec, nick_change_wanted};
use crate::text::{decimal, push_decimal};
use crate::user::{Model, NewUser, new_user, default_nick, default_nick_spec, nick_or_empty, nick_text};

verus! {

broadcast use vstd::string::group_string_axioms;

/// Users listed per page when the request does not say.
pub const DEFAULT_USERS_PER_PAGE: u64 = 100;

/// The largest avatar accepted, in bytes (100 KiB).
pub const MAX_AVATAR_BYTES: usize = 102400;

/// The query of a user listing.
pub struct Params {
    pub page: Option<u64>,
    pub users_per_page: Option<u64>,
}

impl Params {
    /// The page asked for (the first by default) and the users per page (100 by default).
    pub fn page_settings(&self) -> (settings: (u64, u64))
        ensures
            settings.0 == match self.page {
                Some(p) => p,
                None => 1,
            },
            settings.1 == match self.users_per_page {
                Some(n) => n,
                None => DEFAULT_USERS_PER_PAGE,
            },
    {
        let page = match self.page {
            Some(p) => p,
            None => 1,
        };
        let users_per_page = match self.users_per_page {
            Some(n) => n,
            None => DEFAULT_USERS_PER_PAGE,
        };
        (page, users_per_page)
    }
}

/// What the answer to a granted or renewed token carries.
pub struct TokenGrantingResponse {
    pub token: String,
    pub id: i32,
    pub nick: String,
    pub registering_time: i64,
    pub user_created: bool,
}

/// An avatar is accepted when it holds at least one byte and at most 100 KiB.
pub fn avatar_size_acceptable(size: usize) -> (ok: bool)
    ensures
        ok == (1 <= size <= MAX_AVATAR_BYTES),
{
    size >= 1 && size <= MAX_AVATAR_BYTES
}

/// The file name of a user's avatar: its id and `.png`, whatever the upload was.
pub open spec fn avatar_file_name_spec(user_id: i32) -> Seq<char> {
    decimal(user_id as int) + ".png"@
}

/// The file name of a user's avatar.
pub fn avatar_file_name(user_id: i32) -> (name: String)
    ensures
        name@ == avatar_file_name_spec(user_id),
{
    let mut name = String::new();
    push_decimal(&mut name, user_id as i64);
    name.append(".png");
    name
}

/// Where the avatars are kept.
pub open spec fn avatar_folder_spec() -> Seq<char> {
    "./web/sololo.cn/usr/share/nginx/html/cndev/_avatars/"@
}

/// The path of the file of a user's avatar.
pub fn avatar_path(user_id: i32) -> (path: String)
    ensures
        path@ == avatar_folder_spec() + avatar_file_name_spec(user_id),
{
    let mut path = String::from_str("./web/sololo.cn/usr/share/nginx/html/cndev/_avatars/");
    let name = avatar_file_name(user_id);
    path.append(name.as_str());
    path
}

// Sending a code by SMS.

/// Where the sending of a code stands.
pub enum SmsSendingState {
    Start,
    /// The counter of the address is being updated; the code goes to `tel`.
    CheckingTimes { tel: String },
    /// The SMS client is being made; the code goes to `tel`.
    MakingClient { tel: String },
    SendingCode,
    Done,
}

/// What the outside work reports back while a code is sent.
pub enum SmsSendingEvent {
    /// The request: the client's address as read and as text, and the number to send to.
    Requested { ip: ParsedIp, client_ip: String, tel: String },
    /// The counter of codes sent to the address was updated, if the store could be reached.
    TimesChecked { store_reached: bool },
    /// The SMS client was made, or could not be.
    ClientMade { made: bool },
    /// The code was stored and handed to the SMS service, if the store could be reached.
    CodeSent { store_reached: bool },
}

/// What the outside world is to do next while a code is sent.
pub enum SmsSendingAction {
    /// Count one more code sent to the address under `key`, kept for `window_seconds`.
    CheckTimes { key: String, window_seconds: i64 },
    /// Make the SMS client.
    MakeClient,
    /// Store `code` under `key` for `ttl_seconds` and send it to `tel` with the template
    /// parameter `template_param`.
    SendCode { tel: String, code: String, key: String, ttl_seconds: i64, template_param: String },
    /// Answer the request.
    Answer(Reply),
}

/// Whether the sending of a code expects the event in this state.
pub open spec fn sms_sending_expects(state: SmsSendingState, event: SmsSendingEvent) -> bool {
    match (state, event) {
        (SmsSendingState::Start, SmsSendingEvent::Requested { .. }) => true,
        (SmsSendingState::CheckingTimes { .. }, SmsSendingEvent::TimesChecked { .. }) => true,
        (SmsSendingState::MakingClient { .. }, SmsSendingEvent::ClientMade { .. }) => true,
        (SmsSendingState::SendingCode, SmsSendingEvent::CodeSent { .. }) => true,
        _ => false,
    }
}

/// The action that sends a fresh code to `tel`: a code made from a number drawn in
/// `[SMS_CODE_DRAW_MIN, SMS_CODE_DRAW_END)`, stored under the number's key for three
/// minutes, with the template parameter that carries it.
pub open spec fn sends_code_to(action: SmsSendingAction, tel: Seq<char>) -> bool {
    action matches SmsSendingAction::SendCode { tel: t, code, key, ttl_seconds, template_param }
        && t@ == tel
        && (exists|drawn: int|
            crate::sms::SMS_CODE_DRAW_MIN <= drawn < crate::sms::SMS_CODE_DRAW_END
                && #[trigger] crate::sms::sms_code_spec(drawn) == code@)
        && code@.len() == 6
        && key@ == crate::sms::sms_code_key_spec(tel)
        && ttl_seconds == crate::sms::SMS_CODE_TTL_SECONDS
        && template_param@ == crate::sms::sms_template_param_spec(code@)
}

/// The sending of a code, step by step, as a relation between the state, the event and
/// the next state and action: a request from a private network is refused; otherwise the
/// counter of the address is updated (an unreachable store answers 500); a client that
/// cannot be made fails the handler; then a fresh code is stored and sent, and the request
/// is answered 200 whether the SMS service took it or not, or 500 when the store could
/// not be reached.
pub open spec fn sms_sending_step_ok(state: SmsSendingState, event: SmsSendingEvent, next: (SmsSendingState, SmsSendingAction)) -> bool {
    match (state, event) {
        (SmsSendingState::Start, SmsSendingEvent::Requested { ip, client_ip, tel }) => if is_internal_spec(ip) {
            next.0 is Done && next.1 == SmsSendingAction::Answer(Reply::Forbidden)
        } else {
            &&& (next.0 matches SmsSendingState::CheckingTimes { tel: t } && t@ == tel@)
            &&& (next.1 matches SmsSendingAction::CheckTimes { key, window_seconds }
                && key@ == crate::sms::sms_sending_times_key_spec(client_ip@)
                && window_seconds == crate::sms::SMS_SENDING_WINDOW_SECONDS)
        },
        (SmsSendingState::CheckingTimes { tel }, SmsSendingEvent::TimesChecked { store_reached }) => if store_reached {
            &&& (next.0 matches SmsSendingState::MakingClient { tel: t } && t@ == tel@)
            &&& next.1 == SmsSendingAction::MakeClient
        } else {
            next.0 is Done && next.1 == SmsSendingAction::Answer(Reply::InternalServerError)
        },
        (SmsSendingState::MakingClient { tel }, SmsSendingEvent::ClientMade { made }) => if made {
            next.0 is SendingCode && sends_code_to(next.1, tel@)
        } else {
            next.0 is Done && next.1 == SmsSendingAction::Answer(Reply::Failed)
        },
        (SmsSendingState::SendingCode, SmsSendingEvent::CodeSent { store_reached }) => if store_reached {
            next.0 is Done && next.1 == SmsSendingAction::Answer(Reply::Success)
        } else {
            next.0 is Done && next.1 == SmsSendingAction::Answer(Reply::InternalServerError)
        },
        _ => false,
    }
}

/// The action that sends a fresh code to `tel`.
fn send_code_action(tel: String) -> (action: SmsSendingAction)
    ensures
        sends_code_to(action, tel@),
{
    let code = crate::sms::generate_sms_code();
    let key = crate::sms::sms_code_key(tel.as_str());
    let template_param = crate::sms::sms_template_param(code.as_str());
    SmsSendingAction::SendCode { tel, code, key, ttl_seconds: crate::sms::SMS_CODE_TTL_SECONDS, template_param }
}

/// One step of sending a code.
pub fn sms_sending_step(state: SmsSendingState, event: SmsSendingEvent) -> (next: (SmsSendingState, SmsSendingAction))
    requires
        sms_sending_expects(state, event),
    ensures
        sms_sending_step_ok(state, event, next),
{
    match (state, event) {
        (SmsSendingState::Start, SmsSendingEvent::Requested { ip, client_ip, tel }) => {
            if is_internal_address(&ip) {
                (SmsSendingState::Done, SmsSendingAction::Answer(Reply::Forbidden))
            } else {
                let key = crate::sms::sms_sending_times_key(client_ip.as_str());
                (
                    SmsSendingState::CheckingTimes { tel },
                    SmsSendingAction::CheckTimes { key, window_seconds: crate::sms::SMS_SENDING_WINDOW_SECONDS },
                )
            }
        },
        (SmsSendingState::CheckingTimes { tel }, SmsSendingEvent::TimesChecked { store_reached }) => {
            if store_reached {
                (SmsSendingState::MakingClient { tel }, SmsSendingAction::MakeClient)
            } else {
                (SmsSendingState::Done, SmsSendingAction::Answer(Reply::InternalServerError))
            }
        },
        (SmsSendingState::MakingClient { tel }, SmsSendingEvent::ClientMade { made }) => {
            if made {
                (SmsSendingState::SendingCode, send_code_action(tel))
            } else {
                (SmsSendingState::Done, SmsSendingAction::Answer(Reply::Failed))
            }
        },
        (SmsSendingState::SendingCode, SmsSendingEvent::CodeSent { store_reached }) => {
            if store_reached {
                (SmsSendingState::Done, SmsSendingAction::Answer(Reply::Success))
            } else {
                (SmsSendingState::Done, SmsSendingAction::Answer(Reply::InternalServerError))
            }
        },
        (state, _) => (state, SmsSendingAction::Answer(Reply::InternalServerError)),
    }
}

} // verus!

verus! {

/// A code is handed to the SMS service only for a request from outside the private
/// networks, once its counter was updated and the SMS client was made; it is a fresh code,
/// sent to the number that the request names.
pub proof fn law_code_sent_only_after_checks(
    e0: SmsSendingEvent,
    n0: (SmsSendingState, SmsSendingAction),
    e1: SmsSendingEvent,
    n1: (SmsSendingState, SmsSendingAction),
    e2: SmsSendingEvent,
    n2: (SmsSendingState, SmsSendingAction),
)
    requires
        sms_sending_step_ok(SmsSendingState::Start, e0, n0),
        sms_sending_step_ok(n0.0, e1, n1),
        sms_sending_step_ok(n1.0, e2, n2),
        n2.1 is SendCode,
    ensures
        e0 matches SmsSendingEvent::Requested { ip, tel, .. } && !is_internal_spec(ip) && sends_code_to(n2.1, tel@),
        e1 == (SmsSendingEvent::TimesChecked { store_reached: true }),
        e2 == (SmsSendingEvent::ClientMade { made: true }),
{
}

// Granting a token for a phone number and a code.

/// Where the granting of a token stands.
pub enum GrantTokenState {
    Start,
    /// The code was accepted; the user with the number is looked up.
    LookingUp { tel: String },
    /// No user has the number; one is being made.
    Creating { tel: String },
    /// The user is looked up again after the attempt to make one.
    LookingUpAgain { user_created: bool },
    /// The new user is given its first nick.
    Naming { user: Model },
    Done,
}

/// What the outside work reports back while a token is granted.
pub enum GrantTokenEvent {
    /// The request, with the code stored for the number: `None` when the store could not
    /// be reached, empty when no code is stored.
    Requested { tel: String, sms_code: String, stored_code: Option<String> },
    /// The lookup of the user with the number: `Err` when the store failed.
    Found(Result<Option<Model>, ()>),
    /// The attempt to make a user with the number succeeded, or not.
    Created { ok: bool },
    /// The nick of the new user was saved, or not.
    Named { ok: bool },
}

/// A token to issue, and what the answer carries with it.
pub struct TokenGrant {
    pub id: i32,
    pub nick: String,
    pub registering_time: i64,
    pub user_created: bool,
}

/// What the outside world is to do next while a token is granted.
pub enum GrantTokenAction {
    /// Remove the stored code (it is spent) and look up the user with the number.
    SpendCodeAndLookUp { tel: String },
    /// Make a user with the number.
    CreateUser(NewUser),
    /// Look up the user with the number again.
    LookUpAgain,
    /// Save this user (its nick set) over the stored one.
    SaveUser(Model),
    /// Sign a token for the user and answer 201 with it.
    IssueToken(TokenGrant),
    /// Saving the nick failed: the handler gives up by panicking.
    Abandon,
    /// Answer the request.
    Answer(Reply),
}

/// Whether the granting of a token expects the event in this state.
pub open spec fn grant_token_expects(state: GrantTokenState, event: GrantTokenEvent) -> bool {
    match (state, event) {
        (GrantTokenState::Start, GrantTokenEvent::Requested { .. }) => true,
        (GrantTokenState::LookingUp { .. }, GrantTokenEvent::Found(_)) => true,
        (GrantTokenState::Creating { .. }, GrantTokenEvent::Created { .. }) => true,
        (GrantTokenState::LookingUpAgain { .. }, GrantTokenEvent::Found(_)) => true,
        (GrantTokenState::Naming { .. }, GrantTokenEvent::Named { .. }) => true,
        _ => false,
    }
}

/// The token for a user as stored: its id, its nick (empty when it has none) and the time
/// it registered.
pub open spec fn grant_for(u: Model, user_created: bool, grant: TokenGrant) -> bool {
    &&& grant.id == u.id
    &&& grant.nick@ == match nick_text(u.nick) {
        Some(n) => n,
        None => Seq::<char>::empty(),
    }
    &&& grant.registering_time == u.created_at.seconds
    &&& grant.user_created == user_created
}

/// A new user for the number `tel`: no nick, empty name and mail, active.
pub open spec fn new_user_for(tel: Seq<char>, nu: NewUser) -> bool {
    &&& nu.nick is None
    &&& nu.tel@ == tel
    &&& nu.name@.len() == 0
    &&& nu.mail@.len() == 0
    &&& nu.status == crate::user::USER_STATUS_ACTIVE
}

/// The user with its first nick, `user` and its id.
pub open spec fn named_for_the_first_time(u: Model, named: Model) -> bool {
    &&& named.id == u.id
    &&& nick_text(named.nick) == Some(default_nick_spec(u.id))
    &&& named.name@ == u.name@
    &&& named.tel@ == u.tel@
    &&& named.mail@ == u.mail@
    &&& named.status == u.status
    &&& named.created_at == u.created_at
    &&& named.updated_at == u.updated_at
}

fn grant_of(u: Model, user_created: bool) -> (grant: TokenGrant)
    ensures
        grant_for(u, user_created, grant),
        grant.id == u.id,
        grant.registering_time == u.created_at.seconds,
        grant.user_created == user_created,
{
    TokenGrant {
        id: u.id,
        nick: nick_or_empty(u.nick),
        registering_time: u.created_at.seconds,
        user_created,
    }
}

/// One step of granting a token, as a relation between the state, the event and the next
/// state and action (see `grant_token_step`).
pub open spec fn grant_token_step_ok(state: GrantTokenState, event: GrantTokenEvent, next: (GrantTokenState, GrantTokenAction)) -> bool {
    match (state, event) {
        (GrantTokenState::Start, GrantTokenEvent::Requested { tel, sms_code, stored_code }) => match stored_code {
            None => next.0 is Done && next.1 == GrantTokenAction::Answer(Reply::InternalServerError),
            Some(stored) => if stored@.len() > 0 && stored@ == sms_code@ {
                &&& (next.0 matches GrantTokenState::LookingUp { tel: t } && t@ == tel@)
                &&& (next.1 matches GrantTokenAction::SpendCodeAndLookUp { tel: t2 } && t2@ == tel@)
            } else {
                next.0 is Done && next.1 == GrantTokenAction::Answer(Reply::Forbidden)
            },
        },
        (GrantTokenState::LookingUp { tel }, GrantTokenEvent::Found(found)) => match found {
            Ok(Some(u)) => {
                &&& next.0 is Done
                &&& (next.1 matches GrantTokenAction::IssueToken(g) && grant_for(u, false, g))
            },
            Ok(None) => {
                &&& (next.0 matches GrantTokenState::Creating { tel: t } && t@ == tel@)
                &&& (next.1 matches GrantTokenAction::CreateUser(nu) && new_user_for(tel@, nu))
            },
            Err(_) => next.0 is Done && next.1 == GrantTokenAction::Answer(Reply::InternalServerError),
        },
        (GrantTokenState::Creating { .. }, GrantTokenEvent::Created { ok }) => {
            &&& next.0 == (GrantTokenState::LookingUpAgain { user_created: ok })
            &&& next.1 == GrantTokenAction::LookUpAgain
        },
        (GrantTokenState::LookingUpAgain { user_created }, GrantTokenEvent::Found(found)) => match found {
            Ok(Some(u)) => if user_created {
                &&& (next.0 matches GrantTokenState::Naming { user: n } && named_for_the_first_time(u, n))
                &&& (next.1 matches GrantTokenAction::SaveUser(s) && named_for_the_first_time(u, s))
            } else {
                &&& next.0 is Done
                &&& (next.1 matches GrantTokenAction::IssueToken(g) && grant_for(u, false, g))
            },
            _ => next.0 is Done && next.1 == GrantTokenAction::Answer(Reply::InternalServerError),
        },
        (GrantTokenState::Naming { user }, GrantTokenEvent::Named { ok }) => if ok {
            &&& next.0 is Done
            &&& (next.1 matches GrantTokenAction::IssueToken(g) && grant_for(user, true, g))
        } else {
            next.0 is Done && next.1 == GrantTokenAction::Abandon
        },
        _ => false,
    }
}

/// One step of granting a token.
///
/// A request whose code store cannot be reached is answered 500; one whose code is not the
/// stored one (or for which none is stored) 403. Otherwise the code is spent and the user
/// with the number is looked up; when there is none, one is made and looked up again. A
/// user made now gets the nick `user<id>` before its token is issued; a user that cannot
/// be found after all is answered 500.
pub fn grant_token_step(state: GrantTokenState, event: GrantTokenEvent) -> (next: (GrantTokenState, GrantTokenAction))
    requires
        grant_token_expects(state, event),
    ensures
        grant_token_step_ok(state, event, next),
{
    match state {
        GrantTokenState::Start => {
            match event {
                GrantTokenEvent::Requested { tel, sms_code, stored_code } => {
                    match stored_code {
                        None => (GrantTokenState::Done, GrantTokenAction::Answer(Reply::InternalServerError)),
                        Some(stored) => {
                            if sms_code_accepted(stored.as_str(), sms_code.as_str()) {
                                let tel_again = tel.clone();
                                (GrantTokenState::LookingUp { tel }, GrantTokenAction::SpendCodeAndLookUp { tel: tel_again })
                            } else {
                                (GrantTokenState::Done, GrantTokenAction::Answer(Reply::Forbidden))
                            }
                        },
                    }
                },
                _ => (GrantTokenState::Done, GrantTokenAction::Answer(Reply::InternalServerError)),
            }
        },
        GrantTokenState::LookingUp { tel } => {
            match event {
                GrantTokenEvent::Found(Ok(Some(u))) => (GrantTokenState::Done, GrantTokenAction::IssueToken(grant_of(u, false))),
                GrantTokenEvent::Found(Ok(None)) => {
                    let new = new_user(tel.as_str());
                    (GrantTokenState::Creating { tel }, GrantTokenAction::CreateUser(new))
                },
                _ => (GrantTokenState::Done, GrantTokenAction::Answer(Reply::InternalServerError)),
            }
        },
        GrantTokenState::Creating { .. } => {
            match event {
                GrantTokenEvent::Created { ok } => (GrantTokenState::LookingUpAgain { user_created: ok }, GrantTokenAction::LookUpAgain),
                _ => (GrantTokenState::Done, GrantTokenAction::Answer(Reply::InternalServerError)),
            }
        },
        GrantTokenState::LookingUpAgain { user_created } => {
            match event {
                GrantTokenEvent::Found(Ok(Some(u))) => {
                    if user_created {
                        let named = name_for_the_first_time(&u);
                        let saved = name_for_the_first_time(&u);
                        (GrantTokenState::Naming { user: named }, GrantTokenAction::SaveUser(saved))
                    } else {
                        (GrantTokenState::Done, GrantTokenAction::IssueToken(grant_of(u, false)))
                    }
                },
                _ => (GrantTokenState::Done, GrantTokenAction::Answer(Reply::InternalServerError)),
            }
        },
        GrantTokenState::Naming { user } => {
            match event {
                GrantTokenEvent::Named { ok } => {
                    if ok {
                        (GrantTokenState::Done, GrantTokenAction::IssueToken(grant_of(user, true)))
                    } else {
                        (GrantTokenState::Done, GrantTokenAction::Abandon)
                    }
                },
                _ => (GrantTokenState::Done, GrantTokenAction::Answer(Reply::InternalServerError)),
            }
        },
        GrantTokenState::Done => (GrantTokenState::Done, GrantTokenAction::Answer(Reply::InternalServerError)),
    }
}

fn name_for_the_first_time(u: &Model) -> (named: Model)
    ensures
        named_for_the_first_time(*u, named),
{
    Model {
        id: u.id,
        nick: Some(default_nick(u.id)),
        name: u.name.clone(),
        tel: u.tel.clone(),
        mail: u.mail.clone(),
        status: u.status,
        created_at: u.created_at,
        updated_at: u.updated_at,
    }
}

/// A state that the granting of a token reaches only after the code was accepted.
pub open spec fn after_accepted_code(state: GrantTokenState) -> bool {
    ||| state is LookingUp
    ||| state is Creating
    ||| state is LookingUpAgain
    ||| state is Naming
}

/// The event that opens the granting of a token carries the code stored for the number,
/// and that code is the one given.
pub open spec fn code_accepted(event: GrantTokenEvent) -> bool {
    event matches GrantTokenEvent::Requested { sms_code, stored_code: Some(stored), .. } && stored@.len() > 0
        && stored@ == sms_code@
}

/// A run of the granting of a token: the states it went through, the events it met and
/// the actions it asked for, each step as `grant_token_step` takes it.
pub open spec fn grant_token_run(states: Seq<GrantTokenState>, events: Seq<GrantTokenEvent>, actions: Seq<GrantTokenAction>) -> bool {
    &&& states.len() == events.len() + 1
    &&& actions.len() == events.len()
    &&& states[0] is Start
    &&& forall|i: int|
        0 <= i < events.len() ==> grant_token_expects(states[i], #[trigger] events[i]) && grant_token_step_ok(
            states[i],
            events[i],
            (states[i + 1], actions[i]),
        )
}

proof fn lemma_run_states_after_code(states: Seq<GrantTokenState>, events: Seq<GrantTokenEvent>, actions: Seq<GrantTokenAction>, k: int)
    requires
        grant_token_run(states, events, actions),
        1 <= k < states.len(),
        after_accepted_code(states[k]),
    ensures
        code_accepted(events[0]),
    decreases k,
{
    let e = events[k - 1];
    assert(grant_token_expects(states[k - 1], e));
    if k > 1 {
        assert(!(states[k - 1] is Start)) by {
            assert(grant_token_expects(states[k - 2], events[k - 2]));
        }
        lemma_run_states_after_code(states, events, actions, k - 1);
    }
}

/// A token is issued only in a run whose opening request carried the stored code: no
/// request without the right code ever gets one.
pub proof fn law_token_only_after_accepted_code(states: Seq<GrantTokenState>, events: Seq<GrantTokenEvent>, actions: Seq<GrantTokenAction>, k: int)
    requires
        grant_token_run(states, events, actions),
        0 <= k < actions.len(),
        actions[k] is IssueToken,
    ensures
        code_accepted(events[0]),
{
    assert(grant_token_expects(states[k], events[k]));
    assert(after_accepted_code(states[k]));
    if k == 0 {
        assert(false);
    }
    lemma_run_states_after_code(states, events, actions, k);
}

// Changing one's nick.

/// Where the change of a nick stands.
pub enum NickChangeState {
    Start,
    /// The new nick is under review.
    Reviewing { user_id: i32, old_nick: String, new_nick: String, registering_time: i64 },
    /// The new nick is being stored.
    Storing { user_id: i32, old_nick: String, new_nick: String, registering_time: i64 },
    /// The author's home page is being written again under the new nick.
    Republishing { user_id: i32, new_nick: String, registering_time: i64 },
    Done,
}

/// What the outside work reports back while a nick is changed.
pub enum NickChangeEvent {
    /// The request: the user's id (`None` when the request carries none), nick and time of
    /// registration, and the nick asked for.
    Requested { user_id: Option<i32>, old_nick: String, registering_time: i64, requested_nick: String },
    /// The review of the new nick.
    Reviewed(ReviewOutcome),
    /// The new nick was stored, or not.
    Stored { ok: bool },
    /// The home page was written again.
    Republished,
}

/// What the outside world is to do next while a nick is changed.
pub enum NickChangeAction {
    /// Have the new nick reviewed.
    Review { new_nick: String },
    /// Store the new nick of the user.
    StoreNick { user_id: i32, new_nick: String },
    /// Remove the pages under the old nick and write the home page again under the new one.
    Republish { user_id: i32, old_nick: String, new_nick: String, registering_time: i64 },
    /// Sign a token for the user with the new nick and answer 200 with it.
    IssueToken(TokenGrant),
    /// Answer the request.
    Answer(Reply),
}

/// Whether the change of a nick expects the event in this state.
pub open spec fn nick_change_expects(state: NickChangeState, event: NickChangeEvent) -> bool {
    match (state, event) {
        (NickChangeState::Start, NickChangeEvent::Requested { .. }) => true,
        (NickChangeState::Reviewing { .. }, NickChangeEvent::Reviewed(_)) => true,
        (NickChangeState::Storing { .. }, NickChangeEvent::Stored { .. }) => true,
        (NickChangeState::Republishing { .. }, NickChangeEvent::Republished) => true,
        _ => false,
    }
}

/// The token after a nick change: the same user and time of registration, the new nick.
pub open spec fn renewed_grant(user_id: i32, nick: Seq<char>, registering_time: i64, g: TokenGrant) -> bool {
    &&& g.id == user_id
    &&& g.nick@ == nick
    &&& g.registering_time == registering_time
    &&& !g.user_created
}

/// One step of changing a nick, as a relation between the state, the event and the next
/// state and action (see `nick_change_step`).
pub open spec fn nick_change_step_ok(state: NickChangeState, event: NickChangeEvent, next: (NickChangeState, NickChangeAction)) -> bool {
    match (state, event) {
        (NickChangeState::Start, NickChangeEvent::Requested { user_id, old_nick, registering_time, requested_nick }) => match user_id {
            None => next.0 is Done && next.1 == NickChangeAction::Answer(Reply::NotFound),
            Some(id) => {
                let new_nick = normalize_nick_spec(requested_nick@);
                if new_nick.len() > 0 && new_nick != old_nick@ {
                    &&& (next.0 matches NickChangeState::Reviewing { user_id: i, old_nick: o, new_nick: n, registering_time: r }
                        && i == id && o@ == old_nick@ && n@ == new_nick && r == registering_time)
                    &&& (next.1 matches NickChangeAction::Review { new_nick: n } && n@ == new_nick)
                } else {
                    next.0 is Done && next.1 == NickChangeAction::Answer(Reply::Success)
                }
            },
        },
        (NickChangeState::Reviewing { user_id, old_nick, new_nick, registering_time }, NickChangeEvent::Reviewed(outcome)) => match outcome {
            ReviewOutcome::Verdict(true) => {
                &&& (next.0 matches NickChangeState::Storing { user_id: i, old_nick: o, new_nick: n, registering_time: r }
                    && i == user_id && o@ == old_nick@ && n@ == new_nick@ && r == registering_time)
                &&& (next.1 matches NickChangeAction::StoreNick { user_id: i, new_nick: n } && i == user_id && n@ == new_nick@)
            },
            ReviewOutcome::Verdict(false) => next.0 is Done && next.1 == NickChangeAction::Answer(Reply::Forbidden),
            ReviewOutcome::Failed => next.0 is Done && next.1 == NickChangeAction::Answer(Reply::InternalServerError),
        },
        (NickChangeState::Storing { user_id, old_nick, new_nick, registering_time }, NickChangeEvent::Stored { ok }) => if !ok {
            next.0 is Done && next.1 == NickChangeAction::Answer(Reply::InternalServerError)
        } else if old_nick@.len() > 0 {
            &&& (next.0 matches NickChangeState::Republishing { user_id: i, new_nick: n, registering_time: r }
                && i == user_id && n@ == new_nick@ && r == registering_time)
            &&& (next.1 matches NickChangeAction::Republish { user_id: i, old_nick: o, new_nick: n, registering_time: r }
                && i == user_id && o@ == old_nick@ && n@ == new_nick@ && r == registering_time)
        } else {
            &&& next.0 is Done
            &&& (next.1 matches NickChangeAction::IssueToken(g) && renewed_grant(user_id, new_nick@, registering_time, g))
        },
        (NickChangeState::Republishing { user_id, new_nick, registering_time }, NickChangeEvent::Republished) => {
            &&& next.0 is Done
            &&& (next.1 matches NickChangeAction::IssueToken(g) && renewed_grant(user_id, new_nick@, registering_time, g))
        },
        _ => false,
    }
}

/// One step of changing a nick.
///
/// A request without a user id is answered 404. The nick asked for is trimmed, put in
/// lowercase and stripped of every character but `-` and the alphanumeric ones; when
/// that leaves nothing, or the current nick, the request is answered 200 and nothing
/// changes. Otherwise the new nick is reviewed (403 when it does not pass, 500 when the
/// review fails) and stored (500 when that fails); a user who had a nick gets the home
/// page written again under the new one. Then a token with the new nick is issued.
pub fn nick_change_step(state: NickChangeState, event: NickChangeEvent) -> (next: (NickChangeState, NickChangeAction))
    requires
        nick_change_expects(state, event),
    ensures
        nick_change_step_ok(state, event, next),
{
    match state {
        NickChangeState::Start => {
            match event {
                NickChangeEvent::Requested { user_id, old_nick, registering_time, requested_nick } => {
                    match user_id {
                        None => (NickChangeState::Done, NickChangeAction::Answer(Reply::NotFound)),
                        Some(id) => {
                            let new_nick = normalize_nick(requested_nick.as_str());
                            if nick_change_wanted(new_nick.as_str(), old_nick.as_str()) {
                                let reviewed = new_nick.clone();
                                (
                                    NickChangeState::Reviewing { user_id: id, old_nick, new_nick, registering_time },
                                    NickChangeAction::Review { new_nick: reviewed },
                                )
                            } else {
                                (NickChangeState::Done, NickChangeAction::Answer(Reply::Success))
                            }
                        },
                    }
                },
                _ => (NickChangeState::Done, NickChangeAction::Answer(Reply::InternalServerError)),
            }
        },
        NickChangeState::Reviewing { user_id, old_nick, new_nick, registering_time } => {
            match event {
                NickChangeEvent::Reviewed(ReviewOutcome::Verdict(true)) => {
                    let stored = new_nick.clone();
                    (
                        NickChangeState::Storing { user_id, old_nick, new_nick, registering_time },
                        NickChangeAction::StoreNick { user_id, new_nick: stored },
                    )
                },
                NickChangeEvent::Reviewed(ReviewOutcome::Verdict(false)) => (NickChangeState::Done, NickChangeAction::Answer(Reply::Forbidden)),
                _ => (NickChangeState::Done, NickChangeAction::Answer(Reply::InternalServerError)),
            }
        },
        NickChangeState::Storing { user_id, old_nick, new_nick, registering_time } => {
            match event {
                NickChangeEvent::Stored { ok } => {
                    if !ok {
                        (NickChangeState::Done, NickChangeAction::Answer(Reply::InternalServerError))
                    } else if !old_nick.as_str().is_empty() {
                        let republished = new_nick.clone();
                        (
                            NickChangeState::Republishing { user_id, new_nick, registering_time },
                            NickChangeAction::Republish { user_id, old_nick, new_nick: republished, registering_time },
                        )
                    } else {
                        (
                            NickChangeState::Done,
                            NickChangeAction::IssueToken(TokenGrant { id: user_id, nick: new_nick, registering_time, user_created: false }),
                        )
                    }
                },
                _ => (NickChangeState::Done, NickChangeAction::Answer(Reply::InternalServerError)),
            }
        },
        NickChangeState::Republishing { user_id, new_nick, registering_time } => {
            (
                NickChangeState::Done,
                NickChangeAction::IssueToken(TokenGrant { id: user_id, nick: new_nick, registering_time, user_created: false }),
            )
        },
        NickChangeState::Done => (NickChangeState::Done, NickChangeAction::Answer(Reply::InternalServerError)),
    }
}

/// A run of the change of a nick, each step as `nick_change_step` takes it.
pub open spec fn nick_change_run(states: Seq<NickChangeState>, events: Seq<NickChangeEvent>, actions: Seq<NickChangeAction>) -> bool {
    &&& states.len() == events.len() + 1
    &&& actions.len() == events.len()
    &&& states[0] is Start
    &&& forall|i: int|
        0 <= i < events.len() ==> nick_change_expects(states[i], #[trigger] events[i]) && nick_change_step_ok(
            states[i],
            events[i],
            (states[i + 1], actions[i]),
        )
}

/// A nick is stored only once it has passed review, and it is the nick the user asked for
/// in its normal form, not empty and not the nick the user had.
pub proof fn law_nick_stored_only_after_review(states: Seq<NickChangeState>, events: Seq<NickChangeEvent>, actions: Seq<NickChangeAction>, k: int)
    requires
        nick_change_run(states, events, actions),
        0 <= k < actions.len(),
        actions[k] is StoreNick,
    ensures
        k == 1,
        events[1] == NickChangeEvent::Reviewed(ReviewOutcome::Verdict(true)),
        events[0] matches NickChangeEvent::Requested { user_id: Some(id), old_nick, requested_nick, .. }
            && actions[k]->StoreNick_user_id == id
            && actions[k]->StoreNick_new_nick@ == normalize_nick_spec(requested_nick@)
            && normalize_nick_spec(requested_nick@).len() > 0
            && normalize_nick_spec(requested_nick@) != old_nick@,
{
    assert(nick_change_expects(states[k], events[k]));
    assert(states[k] is Reviewing);
    if k == 0 {
        assert(false);
    }
    assert(nick_change_expects(states[k - 1], events[k - 1]));
    if k > 1 {
        assert(nick_change_expects(states[k - 2], events[k - 2]));
        assert(false);
    }
}

} // verus!

verus! {

/// The answer to a granted or renewed token.
pub fn token_response(token: String, grant: TokenGrant) -> (r: TokenGrantingResponse)
    ensures
        r.token@ == token@,
        r.id == grant.id,
        r.nick@ == grant.nick@,
        r.registering_time == grant.registering_time,
        r.user_created == grant.user_created,
{
    TokenGrantingResponse {
        token,
        id: grant.id,
        nick: grant.nick,
        registering_time: grant.registering_time,
        user_created: grant.user_created,
    }
}

} // verus!

verus! {

// The codes kept by the store, by phone number.

/// The code that a request reads for the number `tel` from the codes kept by the store:
/// the kept code, or empty when none is kept.
pub open spec fn code_read(codes: Map<Seq<char>, Seq<char>>, tel: Seq<char>) -> Seq<char> {
    if codes.contains_key(tel) {
        codes[tel]
    } else {
        Seq::empty()
    }
}

/// The codes kept after sending `code` to `tel`: the new code replaces any other.
pub open spec fn codes_after_sending(codes: Map<Seq<char>, Seq<char>>, tel: Seq<char>, code: Seq<char>) -> Map<Seq<char>, Seq<char>> {
    codes.insert(tel, code)
}

/// The codes kept after an action of the granting of a token: spending a code removes the
/// code kept for the number; the other actions leave the codes as they are.
pub open spec fn codes_after_grant_action(codes: Map<Seq<char>, Seq<char>>, action: GrantTokenAction) -> Map<Seq<char>, Seq<char>> {
    match action {
        GrantTokenAction::SpendCodeAndLookUp { tel } => codes.remove(tel@),
        _ => codes,
    }
}

/// A request for a token that reads its stored code from `codes`.
pub open spec fn request_reads(event: GrantTokenEvent, codes: Map<Seq<char>, Seq<char>>) -> bool {
    event matches GrantTokenEvent::Requested { tel, stored_code: Some(stored), .. } && stored@ == code_read(codes, tel@)
}

/// A code is spent by its first use: once a request for a token with the code of a number
/// was accepted, every later request for that number is refused with 403, whatever code it
/// gives, until a new code is sent.
pub proof fn law_code_spent_by_first_use(
    codes: Map<Seq<char>, Seq<char>>,
    first: GrantTokenEvent,
    next1: (GrantTokenState, GrantTokenAction),
    second: GrantTokenEvent,
    next2: (GrantTokenState, GrantTokenAction),
)
    requires
        request_reads(first, codes),
        grant_token_step_ok(GrantTokenState::Start, first, next1),
        next1.1 is SpendCodeAndLookUp,
        request_reads(second, codes_after_grant_action(codes, next1.1)),
        second->Requested_tel@ == first->Requested_tel@,
        grant_token_step_ok(GrantTokenState::Start, second, next2),
    ensures
        next2.0 is Done,
        next2.1 == GrantTokenAction::Answer(Reply::Forbidden),
{
    let tel = first->Requested_tel@;
    assert(next1.1->SpendCodeAndLookUp_tel@ == tel);
    assert(!codes.remove(tel).contains_key(tel));
}

/// A code that was sent is accepted: a request for a token for the number with that code,
/// reading the codes kept after the sending, goes on to spend it, when the code is not
/// empty.
pub proof fn law_sent_code_is_accepted(
    codes: Map<Seq<char>, Seq<char>>,
    tel: Seq<char>,
    code: Seq<char>,
    request: GrantTokenEvent,
    next: (GrantTokenState, GrantTokenAction),
)
    requires
        code.len() > 0,
        request_reads(request, codes_after_sending(codes, tel, code)),
        request->Requested_tel@ == tel,
        request->Requested_sms_code@ == code,
        grant_token_step_ok(GrantTokenState::Start, request, next),
    ensures
        next.1 matches GrantTokenAction::SpendCodeAndLookUp { tel: t } && t@ == tel,
{
}

} // verus!

verus! {

/// A token granted to a stored user carries that user's id, its nick (empty when it has
/// none) and the time the user was created, never the time of its last update; it says the
/// user was not made now. A user made now gets a token with the time it was created, the
/// nick `user<id>` and the mark that it was made now.
pub proof fn law_token_carries_creation_time(
    tel: String,
    u: Model,
    next: (GrantTokenState, GrantTokenAction),
    named: Model,
    next_named: (GrantTokenState, GrantTokenAction),
)
    ensures
        grant_token_step_ok(GrantTokenState::LookingUp { tel }, GrantTokenEvent::Found(Ok(Some(u))), next)
            ==> (next.1 matches GrantTokenAction::IssueToken(g)
                && g.id == u.id
                && g.registering_time == u.created_at.seconds
                && !g.user_created
                && g.nick@ == (if u.nick is Some { u.nick->0@ } else { Seq::<char>::empty() })),
        grant_token_step_ok(GrantTokenState::Naming { user: named }, GrantTokenEvent::Named { ok: true }, next_named)
            ==> (next_named.1 matches GrantTokenAction::IssueToken(g)
                && g.id == named.id
                && g.registering_time == named.created_at.seconds
                && g.user_created),
{
}

} // verus!
