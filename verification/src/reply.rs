use vstd::prelude::*;

verus! {

/// The status with which a request is answered.
#[derive(PartialEq, Eq, Structural, Debug, Clone, Copy)]
pub enum Reply {
    /// 200, with the body the handler builds.
    Success,
    /// 201, with the body the handler builds.
    Created,
    /// 400.
    BadRequest,
    /// 401.
    Unauthorized,
    /// 403.
    Forbidden,
    /// 404.
    NotFound,
    /// 500.
    InternalServerError,
    /// The handler returns the error it met instead of an answer.
    Failed,
}

} // verus!

verus! {

/// The author of a request: the user id it carries, or the answer 404 when it carries none.
pub fn require_user_id(user_id: Option<i32>) -> (r: Result<i32, Reply>)
    ensures
        match user_id {
            Some(id) => r == Ok::<i32, Reply>(id),
            None => r == Err::<i32, Reply>(Reply::NotFound),
        },
{
    match user_id {
        Some(id) => Ok(id),
        None => Err(Reply::NotFound),
    }
}

} // verus!
