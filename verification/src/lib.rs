use vstd::prelude::*;

pub mod admin;
pub mod application;
pub mod calendar;
pub mod channel;
pub mod codec;
pub mod document;
pub mod email;
pub mod emoji;
pub mod error;
pub mod features;
pub mod federation;
pub mod frontend;
pub mod grants;
pub mod idtoken;
pub mod inbox;
pub mod invite;
pub mod media;
pub mod member;
pub mod message;
pub mod oauth;
pub mod pagination;
pub mod perms;
pub mod reaction;
pub mod relationship;
pub mod room;
pub mod rows;
pub mod script;
pub mod session;
pub mod text;
pub mod totp;
pub mod webhook;

verus! {

} // verus!
