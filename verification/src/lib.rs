use vstd::prelude::*;

pub mod text;
pub mod sms;
pub mod shencha;
pub mod datetime;
pub mod post;
pub mod user;
pub mod nick;
pub mod reply;
pub mod ip;
pub mod auth;
pub mod user_controller;
pub mod site;
pub mod post_controller;
pub mod tenant_controller;
