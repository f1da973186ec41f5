use vstd::prelude::*;
use crate::ip::{ParsedIp, is_internal_address, is_internal_spec};
use crate::reply::Reply;
use crate::sms::{tenant_sms_sending_allowed, sms_code_accepted, TENANT_SMS_SENDING_LIMIT};

verus! {

/// Tenants listed per page when the request does not say.
pub const DEFAULT_TENANTS_PER_PAGE: u64 = 5;

/// The query of a tenant listing.
pub struct Params {
    pub page: Option<u64>,
    pub tenants_per_page: Option<u64>,
}

impl Params {
    /// The page asked for (the first by default) and the tenants per page (5 by default).
    pub fn page_settings(&self) -> (settings: (u64, u64))
        ensures
            settings.0 == match self.page {
                Some(p) => p,
                None => 1,
            },
            settings.1 == match self.tenants_per_page {
                Some(n) => n,
                None => DEFAULT_TENANTS_PER_PAGE,
            },
    {
        let page = match self.page {
            Some(p) => p,
            None => 1,
        };
        let tenants_per_page = match self.tenants_per_page {
            Some(n) => n,
            None => DEFAULT_TENANTS_PER_PAGE,
        };
        (page, tenants_per_page)
    }
}

/// Where the sending of a tenant's code stands.
pub enum TenantSmsState {
    Start,
    CheckingTimes,
    StoringCode,
    Done,
}

/// What the outside work reports back while a tenant's code is sent.
pub enum TenantSmsEvent {
    /// The request came from this address.
    Requested(ParsedIp),
    /// The number of codes already sent to the address in the window, as read before this
    /// request (`None` when the store could not be reached).
    TimesChecked { times_sent: Option<i32> },
    /// The fixed code was stored for the number, if the store could be reached.
    CodeStored { store_reached: bool },
}

/// What the outside world is to do next while a tenant's code is sent.
pub enum TenantSmsAction {
    /// Read the count of codes sent to the address.
    CheckTimes,
    /// Raise the count of codes sent to the address (kept for an hour), then store the
    /// fixed code `123456` for the number (kept for three minutes).
    StoreCode,
    /// Answer the request.
    Answer(Reply),
}

/// Whether the sending of a tenant's code expects the event in this state.
pub open spec fn tenant_sms_expects(state: TenantSmsState, event: TenantSmsEvent) -> bool {
    match (state, event) {
        (TenantSmsState::Start, TenantSmsEvent::Requested(_)) => true,
        (TenantSmsState::CheckingTimes, TenantSmsEvent::TimesChecked { .. }) => true,
        (TenantSmsState::StoringCode, TenantSmsEvent::CodeStored { .. }) => true,
        _ => false,
    }
}

/// The sending of a tenant's code, step by step: a request from a private network is
/// refused; an unreachable store answers 500; an address that was sent more than five
/// codes in the window is refused; otherwise the code is stored and the request answered
/// 200.
pub open spec fn tenant_sms_step_spec(state: TenantSmsState, event: TenantSmsEvent) -> (TenantSmsState, TenantSmsAction) {
    match (state, event) {
        (TenantSmsState::Start, TenantSmsEvent::Requested(ip)) => if is_internal_spec(ip) {
            (TenantSmsState::Done, TenantSmsAction::Answer(Reply::Forbidden))
        } else {
            (TenantSmsState::CheckingTimes, TenantSmsAction::CheckTimes)
        },
        (TenantSmsState::CheckingTimes, TenantSmsEvent::TimesChecked { times_sent }) => match times_sent {
            None => (TenantSmsState::Done, TenantSmsAction::Answer(Reply::InternalServerError)),
            Some(times) => if times <= TENANT_SMS_SENDING_LIMIT {
                (TenantSmsState::StoringCode, TenantSmsAction::StoreCode)
            } else {
                (TenantSmsState::Done, TenantSmsAction::Answer(Reply::Forbidden))
            },
        },
        (TenantSmsState::StoringCode, TenantSmsEvent::CodeStored { store_reached }) => if store_reached {
            (TenantSmsState::Done, TenantSmsAction::Answer(Reply::Success))
        } else {
            (TenantSmsState::Done, TenantSmsAction::Answer(Reply::InternalServerError))
        },
        _ => (TenantSmsState::Done, TenantSmsAction::Answer(Reply::InternalServerError)),
    }
}

/// One step of sending a tenant's code.
pub fn tenant_sms_step(state: TenantSmsState, event: TenantSmsEvent) -> (next: (TenantSmsState, TenantSmsAction))
    requires
        tenant_sms_expects(state, event),
    ensures
        next == tenant_sms_step_spec(state, event),
{
    match event {
        TenantSmsEvent::Requested(ip) => {
            if is_internal_address(&ip) {
                (TenantSmsState::Done, TenantSmsAction::Answer(Reply::Forbidden))
            } else {
                (TenantSmsState::CheckingTimes, TenantSmsAction::CheckTimes)
            }
        },
        TenantSmsEvent::TimesChecked { times_sent } => {
            match times_sent {
                None => (TenantSmsState::Done, TenantSmsAction::Answer(Reply::InternalServerError)),
                Some(times) => {
                    if tenant_sms_sending_allowed(times) {
                        (TenantSmsState::StoringCode, TenantSmsAction::StoreCode)
                    } else {
                        (TenantSmsState::Done, TenantSmsAction::Answer(Reply::Forbidden))
                    }
                },
            }
        },
        TenantSmsEvent::CodeStored { store_reached } => {
            if store_reached {
                (TenantSmsState::Done, TenantSmsAction::Answer(Reply::Success))
            } else {
                (TenantSmsState::Done, TenantSmsAction::Answer(Reply::InternalServerError))
            }
        },
    }
}

/// The check of a registration's code: `None` when the request goes on (the code is then
/// spent), else the answer: 500 when the store could not be reached (`stored` is `None`),
/// 403 when no code is stored for the number or it is not the one given.
pub fn registration_code_check(stored: Option<&str>, given: &str) -> (answer: Option<Reply>)
    ensures
        answer == match stored {
            None => Some(Reply::InternalServerError),
            Some(s) => if s@.len() > 0 && s@ == given@ {
                None
            } else {
                Some(Reply::Forbidden)
            },
        },
{
    match stored {
        None => Some(Reply::InternalServerError),
        Some(s) => {
            if sms_code_accepted(s, given) {
                None
            } else {
                Some(Reply::Forbidden)
            }
        },
    }
}

/// A tenant's code is stored only when its address is outside the private networks and
/// was sent at most five codes in the window.
pub proof fn law_tenant_code_rate_limited(e0: TenantSmsEvent, e1: TenantSmsEvent)
    requires
        tenant_sms_step_spec(tenant_sms_step_spec(TenantSmsState::Start, e0).0, e1).1 is StoreCode,
    ensures
        e0 matches TenantSmsEvent::Requested(ip) && !is_internal_spec(ip),
        e1 matches TenantSmsEvent::TimesChecked { times_sent: Some(t) } && t <= TENANT_SMS_SENDING_LIMIT,
{
}

} // verus!
