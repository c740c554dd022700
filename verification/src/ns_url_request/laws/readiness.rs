//! When the methods of requests can be called, and when they can go on.
use super::super::copy::CopyThen;
use super::super::create::{
    dealloc, init_with_url_cache_policy, request_with_url_cache_policy, CreateThen,
};
use super::super::describe::description;
use super::super::headers::{add_value, set_all_http_header_fields, set_value, value_for_http_header_field, HeaderThen};
use super::super::messages::{send_message, Message};
use super::super::set::{
    set_http_body, set_http_body_stream, set_main_document_url, set_url, ChangeThen,
};
use super::super::steps::{after_reply, check_ready, Then};
use super::super::{
    all_http_header_fields, allows_cellular_access, cache_policy, http_body, http_body_stream, http_method,
    http_should_handle_cookies, http_should_use_pipelining, main_document_url, network_service_type,
    set_allows_cellular_access, set_cache_policy, set_http_should_handle_cookies, set_http_should_use_pipelining,
    set_network_service_type, set_timeout_interval, timeout_interval, url, NSTimeInterval, NSURLRequestHostObject,
};
use super::holding::holds;
use super::sending::{is_addressed, lemma_addressed};
use crate::env::{Environment, Model};
use crate::objc::{id, SEL};
use vstd::prelude::*;

verus! {

/// The object is a request.
pub open spec fn is_held(model: Model, object: id) -> bool {
    exists|host: NSURLRequestHostObject| #[trigger] holds(model, object, host)
}

/// A method can go on after an answer: the request that it is going to read or change is
/// one, and the level that it is going to leave was entered.
pub open spec fn can_go_on(model: Model, then: Then, reply: id) -> bool {
    match then {
        Then::Create(create) => match create {
            CreateThen::AllocHeaders { .. }
            | CreateThen::AllocMethod { .. }
            | CreateThen::RequestAllocated { .. } => true,
            CreateThen::RequestInitialized { .. } => reply.0 != 0 || model.request_depth > 0,
            CreateThen::RequestAutoreleased { .. } => model.request_depth > 0,
            CreateThen::InitRefused { .. } => model.request_depth > 0,
            CreateThen::InitCopied { this, .. } => model.request_depth > 0 && is_held(model, this),
        },
        Then::Copy(copy) => match copy {
            CopyThen::Allocated { this } => is_held(model, this),
            CopyThen::Initialized { .. } => reply.0 == 0 || is_held(model, reply),
            CopyThen::Method { new, .. } => is_held(model, new),
            CopyThen::Body { new, .. } => is_held(model, new),
            CopyThen::Stream { new, .. } => is_held(model, new),
            CopyThen::OldHeaders { .. } => true,
            CopyThen::Headers { new } => is_held(model, new),
        },
        Then::Change(change) => match change {
            ChangeThen::UrlReleased { this, url, .. } => url.0 != 0 || is_held(model, this),
            ChangeThen::StoreUrl { this, .. } => is_held(model, this),
            ChangeThen::StoreMethod { this } => is_held(model, this),
            ChangeThen::StoreBody { this } => is_held(model, this),
            ChangeThen::StreamReleased { this, stream } => stream.0 != 0 || is_held(model, this),
            ChangeThen::StreamRetained { this, .. } => is_held(model, this),
        },
        Then::Header(header) => header matches HeaderThen::Store { this } ==> is_held(model, this),
        _ => true,
    }
}

/// What an object is known as is what it holds.
proof fn lemma_held(model: Model, object: id)
    ensures
        is_held(model, object) == super::super::is_request(model, object),
{
    if super::super::is_request(model, object) {
        assert(holds(model, object, super::super::request(model, object)));
    }
}

/// The same of whatever is waited for.
proof fn lemma_can_go_on(model: Model, then: Then, reply: id)
    ensures
        can_go_on(model, then, reply) == super::super::steps::is_ready(model, then, reply),
{
    assert forall|object: id| #[trigger] is_held(model, object) == super::super::is_request(
        model,
        object,
    ) by {
        lemma_held(model, object);
    }
}

/// Whether a method can go on is told as it is, and nothing else is asked of the one who
/// lets it go on.
pub proof fn methods_go_on_where_they_can(
    env: &mut Environment,
    then: &Then,
    reply: id,
    result: bool,
)
    ensures
        call_ensures(check_ready, (&*old(env), then, reply), result) ==> (result <==> can_go_on(
            old(env)@,
            *then,
            reply,
        )),
        can_go_on(old(env)@, *then, reply) ==> call_requires(after_reply, (env, *then, reply)),
{
    lemma_can_go_on(old(env)@, *then, reply);
}

/// Whatever a request holds, it can be read, described and looked through.
pub proof fn requests_can_be_read(
    env: &Environment,
    this: id,
    host: NSURLRequestHostObject,
    value: id,
    field: id,
)
    requires
        holds(env@, this, host),
    ensures
        call_requires(url, (env, this)),
        call_requires(main_document_url, (env, this)),
        call_requires(cache_policy, (env, this)),
        call_requires(timeout_interval, (env, this)),
        call_requires(network_service_type, (env, this)),
        call_requires(allows_cellular_access, (env, this)),
        call_requires(http_should_handle_cookies, (env, this)),
        call_requires(http_should_use_pipelining, (env, this)),
        call_requires(http_method, (env, this)),
        call_requires(http_body, (env, this)),
        call_requires(http_body_stream, (env, this)),
        call_requires(all_http_header_fields, (env, this)),
        call_requires(value_for_http_header_field, (env, this, field)),
        call_requires(set_value, (env, this, value, field)),
        call_requires(add_value, (env, this, value, field)),
        call_requires(set_all_http_header_fields, (env, this, value)),
        call_requires(description, (env, this)),
{
}

/// Whatever a request holds, it can be changed and deallocated.
pub proof fn requests_can_be_changed(
    env: &mut Environment,
    this: id,
    host: NSURLRequestHostObject,
    value: id,
    number: u32,
    interval: NSTimeInterval,
    flag: bool,
)
    requires
        holds(old(env)@, this, host),
    ensures
        call_requires(set_url, (env, this, value)),
        call_requires(set_main_document_url, (env, this, value)),
        call_requires(set_http_body, (env, this, value)),
        call_requires(set_http_body_stream, (env, this, value)),
        call_requires(set_cache_policy, (env, this, number)),
        call_requires(set_timeout_interval, (env, this, interval)),
        call_requires(set_network_service_type, (env, this, number)),
        call_requires(set_allows_cellular_access, (env, this, flag)),
        call_requires(set_http_should_handle_cookies, (env, this, flag)),
        call_requires(set_http_should_use_pipelining, (env, this, flag)),
        call_requires(dealloc, (env, this)),
{
}

/// Requests can be asked for and initialized whatever there is.
pub proof fn requests_can_be_asked_for(
    env: &mut Environment,
    object: id,
    value: id,
    number: u32,
    interval: NSTimeInterval,
)
    ensures
        call_requires(request_with_url_cache_policy, (env, object, value, number, interval)),
        call_requires(init_with_url_cache_policy, (env, object, value, number, interval)),
{
}

/// A message of a request that is addressed to someone can be sent in any environment that
/// is in order.
pub proof fn addressed_messages_can_be_sent(
    env: &mut Environment,
    message: Message,
    object: id,
    selector: SEL,
)
    requires
        old(env)@.wf(),
        is_addressed(old(env)@, message, object, selector),
    ensures
        call_requires(send_message, (env, message)),
{
    lemma_addressed(old(env)@, message, object, selector);
}

} // verus!
