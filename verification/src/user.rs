use vstd::prelude::*;
use crate::datetime::Timestamp;
use crate::post::ServiceError;
use crate::text::{decimal, push_decimal};

verus! {

broadcast use vstd::string::group_string_axioms;

/// The status of every user when the account is made.
pub const USER_STATUS_ACTIVE: i16 = 1;

/// A user, as stored.
pub struct Model {
    pub id: i32,
    pub nick: Option<String>,
    pub name: String,
    pub tel: String,
    pub mail: String,
    pub status: i16,
    pub created_at: Timestamp,
    pub updated_at: Timestamp,
}

/// The fields of a new user; the store gives it an id and its times.
pub struct NewUser {
    pub nick: Option<String>,
    pub name: String,
    pub tel: String,
    pub mail: String,
    pub status: i16,
}

/// The text of an optional nick.
pub open spec fn nick_text(nick: Option<String>) -> Option<Seq<char>> {
    match nick {
        Some(n) => Some(n@),
        None => None,
    }
}

/// A user made for the phone number `tel`: no nick, empty name and mail, active.
pub fn new_user(tel: &str) -> (user: NewUser)
    ensures
        user.nick is None,
        user.name@ == Seq::<char>::empty(),
        user.tel@ == tel@,
        user.mail@ == Seq::<char>::empty(),
        user.status == USER_STATUS_ACTIVE,
{
    NewUser {
        nick: None,
        name: String::new(),
        tel: tel.to_owned(),
        mail: String::new(),
        status: USER_STATUS_ACTIVE,
    }
}

/// The user that an operation on user `id` works on: the one the store found under the id.
pub open spec fn finds_user(found: Option<Model>, id: i32) -> bool {
    found matches Some(u) && u.id == id
}

/// Saving a form over user `id`: the user keeps its id; the form's name becomes its nick,
/// name, phone number and mail; status and times come from the form.
pub open spec fn saved_from_form(current: Model, form: Model, result: Model) -> bool {
    &&& result.id == current.id
    &&& nick_text(result.nick) == Some(form.name@)
    &&& result.name@ == form.name@
    &&& result.tel@ == form.name@
    &&& result.mail@ == form.name@
    &&& result.status == form.status
    &&& result.created_at == form.created_at
    &&& result.updated_at == form.updated_at
}

/// Saves a form over user `id`.
pub fn update_user_by_form(found: Option<Model>, id: i32, form: &Model) -> (r: Result<Model, ServiceError>)
    ensures
        match r {
            Ok(u) => finds_user(found, id) && saved_from_form(found->0, *form, u),
            Err(e) => e == ServiceError::UserNotFound && !finds_user(found, id),
        },
{
    match found {
        Some(current) => {
            if current.id == id {
                Ok(Model {
                    id: current.id,
                    nick: Some(form.name.clone()),
                    name: form.name.clone(),
                    tel: form.name.clone(),
                    mail: form.name.clone(),
                    status: form.status,
                    created_at: form.created_at,
                    updated_at: form.updated_at,
                })
            } else {
                Err(ServiceError::UserNotFound)
            }
        },
        None => Err(ServiceError::UserNotFound),
    }
}

/// A user has a nick once its nick is set and not empty.
pub open spec fn has_nick(u: Model) -> bool {
    u.nick matches Some(n) && n@.len() > 0
}

/// The outcome of setting the nick of user `id` to `nick`: refused when there is no such
/// user, or when the user has a nick already; otherwise the user with that nick.
pub open spec fn nick_change_outcome(found: Option<Model>, id: i32, nick: Seq<char>, r: Result<Model, ServiceError>) -> bool {
    match r {
        Ok(u) => {
            &&& finds_user(found, id)
            &&& !has_nick(found->0)
            &&& nick_text(u.nick) == Some(nick)
            &&& u.id == found->0.id
            &&& u.name@ == found->0.name@
            &&& u.tel@ == found->0.tel@
            &&& u.mail@ == found->0.mail@
            &&& u.status == found->0.status
            &&& u.created_at == found->0.created_at
            &&& u.updated_at == found->0.updated_at
        },
        Err(e) => if !finds_user(found, id) {
            e == ServiceError::UserNotFound
        } else {
            e == ServiceError::NickAlreadyExists && has_nick(found->0)
        },
    }
}

/// Sets the nick of user `id`; a user can set it only while it has none.
pub fn change_nick(found: Option<Model>, id: i32, nick: String) -> (r: Result<Model, ServiceError>)
    ensures
        nick_change_outcome(found, id, nick@, r),
{
    match found {
        Some(current) => {
            if current.id != id {
                return Err(ServiceError::UserNotFound);
            }
            let taken = match &current.nick {
                Some(existing) => !existing.as_str().is_empty(),
                None => false,
            };
            if taken {
                Err(ServiceError::NickAlreadyExists)
            } else {
                let mut user = current;
                user.nick = Some(nick);
                Ok(user)
            }
        },
        None => Err(ServiceError::UserNotFound),
    }
}

/// The nick that a user is given when the account is made: `user` and its id.
pub open spec fn default_nick_spec(id: i32) -> Seq<char> {
    "user"@ + decimal(id as int)
}

/// The nick that a user is given when the account is made.
pub fn default_nick(id: i32) -> (nick: String)
    ensures
        nick@ == default_nick_spec(id),
{
    let mut nick = "user".to_owned();
    push_decimal(&mut nick, id as i64);
    nick
}

/// A user's nick as a token carries it: the nick, or empty when it has none.
pub fn nick_or_empty(nick: Option<String>) -> (text: String)
    ensures
        text@ == match nick {
            Some(n) => n@,
            None => Seq::<char>::empty(),
        },
{
    match nick {
        Some(n) => n,
        None => String::new(),
    }
}

/// A nick can be set once: after a user has set a non-empty nick, every further attempt is
/// refused and the nick stays.
pub proof fn law_nick_set_once(found: Option<Model>, id: i32, nick: Seq<char>, first: Model, later: Seq<char>, r: Result<Model, ServiceError>)
    requires
        nick.len() > 0,
        nick_change_outcome(found, id, nick, Ok(first)),
        nick_change_outcome(Some(first), id, later, r),
    ensures
        r == Err::<Model, ServiceError>(ServiceError::NickAlreadyExists),
{
}

} // verus!
