//! The methods of `NSURLRequest` and `NSMutableURLRequest`, step by step.
//!
//! Most of them send messages to other objects, whose methods are not this
//! library's. A method therefore goes as far as it can, and its [`Next`] says what
//! has to be done before it can go on.
use super::copy::{after_copy, copied, copy_ready, CopyThen};
use super::create::{
    after_create, continue_dealloc, create_ready, created, deallocating, CreateThen, Owned,
};
use super::describe::{
    after_describe, described, describe_url, describing_url, make_description, makes_description, DescribeThen,
};
use super::headers::{
    after_header, combine, combined_text, header_changed, header_ready, HeaderThen,
};
use super::messages::Message;
use super::set::{after_set, changed, set_ready, ChangeThen};
use super::{check_request, NSURLRequestHostObject};
use crate::env::{Environment, Model};
use crate::objc::{id, nil, Class};
use vstd::prelude::*;

verus! {

/// What a method does with the answer to a message, or with a string that was made
/// for it.
#[derive(Debug)]
pub enum Then {
    /// The answer is what the method returns.
    ReturnReply,
    ReturnNil,
    Finish,
    Create(CreateThen),
    /// `next` is the number of the first of the objects that was not looked at yet.
    Deallocating { this: id, owned: Owned, next: usize },
    Copy(CopyThen),
    Change(ChangeThen),
    Header(HeaderThen),
    Describe(DescribeThen),
}

/// What a method does with the text of a string.
#[derive(Debug)]
pub enum ThenText {
    AddExistingText { fields: id, value: id, field: id },
    AddValueText { fields: id, field: id, existing: String },
    DescribeMethodText { url: id },
    DescribeUrlText { method: String },
}

/// How far a method has come.
#[derive(Debug)]
pub enum Next {
    /// It returns an object or `nil`.
    Return(id),
    /// It is over and returns nothing.
    Finished,
    /// A message has to be sent, and [`after_reply`] to be called with the answer.
    Send(Message, Then),
    /// The text of a string has to be read, and [`after_text`] to be called with it.
    ReadString(id, ThenText),
    /// A string with this text has to be made, and [`after_reply`] to be called with it.
    MakeString(String, Then),
    /// The static string with this text has to be found, and [`after_reply`] to be
    /// called with it.
    StaticString(&'static str, Then),
    /// Memory for a request of this class has to be found, and
    /// [`finish_alloc`](super::create::finish_alloc) to be
    /// called with it.
    Allocate { class: Class, host: NSURLRequestHostObject },
    /// The object is no longer known, and its memory has to be freed.
    Free(id),
}

/// What the environment must have for a method to go on: the requests that it
/// changes, and the level of requests that it is going to leave.
pub open spec fn is_ready(model: Model, then: Then, reply: id) -> bool {
    match then {
        Then::Create(then) => create_ready(model, then, reply),
        Then::Copy(then) => copy_ready(model, then, reply),
        Then::Change(then) => set_ready(model, then, reply),
        Then::Header(then) => header_ready(model, then, reply),
        _ => true,
    }
}

/// How a method goes on after an answer.
pub open spec fn reply_outcome(before: Model, then: Then, reply: id, after: Model, next: Next) -> bool {
    match then {
        Then::ReturnReply => (after, next) == (before, Next::Return(reply)),
        Then::ReturnNil => (after, next) == (before, Next::Return(nil())),
        Then::Finish => (after, next) == (before, Next::Finished),
        Then::Create(then) => (after, next) == created(before, then, reply),
        Then::Deallocating { this, owned, next: number } => (after, next) == deallocating(
            before,
            this,
            owned,
            number,
        ),
        Then::Copy(then) => (after, next) == copied(before, then, reply),
        Then::Change(then) => (after, next) == changed(before, then, reply),
        Then::Header(then) => (after, next) == header_changed(before, then, reply),
        Then::Describe(then) => after == before && described(then, reply, next),
    }
}

/// How a method goes on after a text.
pub open spec fn text_outcome(then: ThenText, text: String, next: Next) -> bool {
    match then {
        ThenText::AddExistingText { fields, value, field } => next == Next::ReadString(
            value,
            ThenText::AddValueText { fields, field, existing: text },
        ),
        ThenText::AddValueText { fields, field, existing } => next matches Next::MakeString(
            combined,
            then,
        ) && combined@ == combined_text(existing@, text@) && then == Then::Header(HeaderThen::AddCombined {
            fields,
            field,
        }),
        ThenText::DescribeMethodText { url } => describing_url(text@, url, next),
        ThenText::DescribeUrlText { method } => makes_description(method@, text@, next),
    }
}

/// Whether the environment has what a method needs to go on.
pub fn check_ready(env: &Environment, then: &Then, reply: id) -> (result: bool)
    ensures
        result == is_ready(env@, *then, reply),
{
    match then {
        Then::Create(then) => match then {
            CreateThen::RequestInitialized { .. } => reply != nil() || env.counters.request_depth > 0,
            CreateThen::RequestAutoreleased { .. } | CreateThen::InitRefused { .. } => env.counters.request_depth > 0,
            CreateThen::InitCopied { this, .. } => env.counters.request_depth > 0 && check_request(env, *this),
            _ => true,
        },
        Then::Copy(then) => match then {
            CopyThen::Allocated { this } => check_request(env, *this),
            CopyThen::Initialized { .. } => reply == nil() || check_request(env, reply),
            CopyThen::Method { new, .. } => check_request(env, *new),
            CopyThen::Body { new, .. } => check_request(env, *new),
            CopyThen::Stream { new, .. } => check_request(env, *new),
            CopyThen::Headers { new } => check_request(env, *new),
            _ => true,
        },
        Then::Change(then) => match then {
            ChangeThen::UrlReleased { this, url, .. } => *url != nil() || check_request(env, *this),
            ChangeThen::StoreUrl { this, .. } => check_request(env, *this),
            ChangeThen::StoreMethod { this } => check_request(env, *this),
            ChangeThen::StoreBody { this } => check_request(env, *this),
            ChangeThen::StreamReleased { this, stream } => *stream != nil() || check_request(env, *this),
            ChangeThen::StreamRetained { this, .. } => check_request(env, *this),
        },
        Then::Header(HeaderThen::Store { this }) => check_request(env, *this),
        _ => true,
    }
}

/// Goes on with a method after the answer to a message, or with a string that was
/// made for it.
pub fn after_reply(env: &mut Environment, then: Then, reply: id) -> (next: Next)
    requires
        is_ready(old(env)@, then, reply),
    ensures
        reply_outcome(old(env)@, then, reply, final(env)@, next),
        old(env)@.wf() ==> final(env)@.wf(),
{
    match then {
        Then::ReturnReply => Next::Return(reply),
        Then::ReturnNil => Next::Return(nil()),
        Then::Finish => Next::Finished,
        Then::Create(then) => after_create(env, then, reply),
        Then::Deallocating { this, owned, next } => continue_dealloc(env, this, owned, next),
        Then::Copy(then) => after_copy(env, then, reply),
        Then::Change(then) => after_set(env, then, reply),
        Then::Header(then) => after_header(env, then, reply),
        Then::Describe(then) => after_describe(then, reply),
    }
}

/// Goes on with a method after the text of a string.
pub fn after_text(then: ThenText, text: String) -> (next: Next)
    ensures
        text_outcome(then, text, next),
{
    match then {
        ThenText::AddExistingText { fields, value, field } => Next::ReadString(
            value,
            ThenText::AddValueText { fields, field, existing: text },
        ),
        ThenText::AddValueText { fields, field, existing } => combine(
            existing,
            text.as_str(),
            fields,
            field,
        ),
        ThenText::DescribeMethodText { url } => describe_url(text, url),
        ThenText::DescribeUrlText { method } => make_description(method, text.as_str()),
    }
}

} // verus!
