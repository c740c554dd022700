//! Copying requests.
use super::messages::Message;
use super::steps::{Next, Then};
use super::{borrow, is_request, request, store, with_request, NSURLRequestHostObject};
use crate::env::{Environment, Model};
use crate::objc::{id, nil};
use vstd::prelude::*;

verus! {

/// What the copying of a request does with the answer to a message.
#[derive(Debug)]
pub enum CopyThen {
    Allocated { this: id },
    Initialized { source: NSURLRequestHostObject },
    Method { new: id, source: NSURLRequestHostObject },
    Body { new: id, source: NSURLRequestHostObject },
    Stream { new: id, source: NSURLRequestHostObject },
    OldHeaders { new: id, source: NSURLRequestHostObject },
    Headers { new: id },
}

/// The copying of a request, from its header fields on. They replace those that
/// the new request was allocated with.
pub open spec fn copying_headers(model: Model, new: id, source: NSURLRequestHostObject) -> (Model, Next) {
    if source.http_header_fields == nil() {
        (model, Next::Return(new))
    } else if request(model, new).http_header_fields != nil() {
        (
            model,
            Next::Send(
                Message::Release { object: request(model, new).http_header_fields },
                Then::Copy(CopyThen::OldHeaders { new, source }),
            ),
        )
    } else {
        (
            model,
            Next::Send(
                Message::MutableCopy { object: source.http_header_fields },
                Then::Copy(CopyThen::Headers { new }),
            ),
        )
    }
}

/// The copying of a request, from the stream of its body on. The stream is shared.
pub open spec fn copying_stream(model: Model, new: id, source: NSURLRequestHostObject) -> (Model, Next) {
    if source.http_body_stream == nil() {
        copying_headers(model, new, source)
    } else {
        (
            model,
            Next::Send(
                Message::Retain { object: source.http_body_stream },
                Then::Copy(CopyThen::Stream { new, source }),
            ),
        )
    }
}

/// The copying of a request, from its body on.
pub open spec fn copying_body(model: Model, new: id, source: NSURLRequestHostObject) -> (Model, Next) {
    if source.http_body == nil() {
        copying_stream(model, new, source)
    } else {
        (
            model,
            Next::Send(Message::Copy { object: source.http_body }, Then::Copy(CopyThen::Body { new, source })),
        )
    }
}

/// The copying of a request, from its method on. A static string is left alone.
pub open spec fn copying_method(model: Model, new: id, source: NSURLRequestHostObject) -> (Model, Next) {
    if source.http_method_is_owned && source.http_method != nil() {
        (
            model,
            Next::Send(
                Message::Copy { object: source.http_method },
                Then::Copy(CopyThen::Method { new, source }),
            ),
        )
    } else {
        copying_body(model, new, source)
    }
}

/// What a copy has of its source before any messages are sent for it.
pub open spec fn with_settings(
    host: NSURLRequestHostObject,
    source: NSURLRequestHostObject,
) -> NSURLRequestHostObject {
    NSURLRequestHostObject {
        network_service_type: source.network_service_type,
        allows_cellular_access: source.allows_cellular_access,
        http_should_handle_cookies: source.http_should_handle_cookies,
        http_should_use_pipelining: source.http_should_use_pipelining,
        ..host
    }
}

/// What the environment must have for the method to go on.
pub open spec fn copy_ready(model: Model, then: CopyThen, reply: id) -> bool {
    match then {
        CopyThen::Allocated { this } => is_request(model, this),
        CopyThen::Initialized { .. } => reply != nil() ==> is_request(model, reply),
        CopyThen::Method { new, .. } => is_request(model, new),
        CopyThen::Body { new, .. } => is_request(model, new),
        CopyThen::Stream { new, .. } => is_request(model, new),
        CopyThen::Headers { new } => is_request(model, new),
        _ => true,
    }
}

/// How the copying of a request goes on after an answer.
pub open spec fn copied(model: Model, then: CopyThen, reply: id) -> (Model, Next) {
    match then {
        CopyThen::Allocated { this } => {
            let source = request(model, this);
            (
                model,
                Next::Send(
                    Message::InitWithURL {
                        object: reply,
                        url: source.url,
                        cache_policy: source.cache_policy,
                        timeout_interval: source.timeout_interval,
                    },
                    Then::Copy(CopyThen::Initialized { source }),
                ),
            )
        },
        CopyThen::Initialized { source } => if reply == nil() {
            (model, Next::Return(nil()))
        } else {
            copying_method(
                with_request(model, reply, with_settings(request(model, reply), source)),
                reply,
                source,
            )
        },
        CopyThen::Method { new, source } => copying_body(
            with_request(
                model,
                new,
                NSURLRequestHostObject {
                    http_method: reply,
                    http_method_is_owned: true,
                    ..request(model, new)
                },
            ),
            new,
            source,
        ),
        CopyThen::Body { new, source } => copying_stream(
            with_request(
                model,
                new,
                NSURLRequestHostObject { http_body: reply, ..request(model, new) },
            ),
            new,
            source,
        ),
        CopyThen::Stream { new, source } => copying_headers(
            with_request(
                model,
                new,
                NSURLRequestHostObject {
                    http_body_stream: source.http_body_stream,
                    ..request(model, new)
                },
            ),
            new,
            source,
        ),
        CopyThen::OldHeaders { new, source } => (
            model,
            Next::Send(
                Message::MutableCopy { object: source.http_header_fields },
                Then::Copy(CopyThen::Headers { new }),
            ),
        ),
        CopyThen::Headers { new } => (
            with_request(
                model,
                new,
                NSURLRequestHostObject { http_header_fields: reply, ..request(model, new) },
            ),
            Next::Return(new),
        ),
    }
}

/// `-copy`
pub fn copy(this: id) -> (next: Next)
    ensures
        next == Next::Send(
            (Message::AllocRequest { mutable: false }),
            (Then::Copy(CopyThen::Allocated { this })),
        ),
{
    Next::Send(Message::AllocRequest { mutable: false }, Then::Copy(CopyThen::Allocated { this }))
}

/// `-mutableCopy`
pub fn mutable_copy(this: id) -> (next: Next)
    ensures
        next == Next::Send(
            (Message::AllocRequest { mutable: true }),
            (Then::Copy(CopyThen::Allocated { this })),
        ),
{
    Next::Send(Message::AllocRequest { mutable: true }, Then::Copy(CopyThen::Allocated { this }))
}

/// Copies the header fields of a request.
fn copy_headers(env: &mut Environment, new: id, source: NSURLRequestHostObject) -> (next: Next)
    requires
        is_request(old(env)@, new),
    ensures
        (final(env)@, next) == copying_headers(old(env)@, new, source),
        *final(env) == *old(env),
{
    if source.http_header_fields == nil() {
        return Next::Return(new);
    }
    let old_headers = borrow(env, new).http_header_fields;
    if old_headers != nil() {
        return Next::Send(
            Message::Release { object: old_headers },
            Then::Copy(CopyThen::OldHeaders { new, source }),
        );
    }
    Next::Send(
        Message::MutableCopy { object: source.http_header_fields },
        Then::Copy(CopyThen::Headers { new }),
    )
}

/// Copies a request from the stream of its body on.
fn copy_stream(env: &mut Environment, new: id, source: NSURLRequestHostObject) -> (next: Next)
    requires
        is_request(old(env)@, new),
    ensures
        (final(env)@, next) == copying_stream(old(env)@, new, source),
        *final(env) == *old(env),
{
    if source.http_body_stream != nil() {
        return Next::Send(
            Message::Retain { object: source.http_body_stream },
            Then::Copy(CopyThen::Stream { new, source }),
        );
    }
    copy_headers(env, new, source)
}

/// Copies a request from its body on.
fn copy_body(env: &mut Environment, new: id, source: NSURLRequestHostObject) -> (next: Next)
    requires
        is_request(old(env)@, new),
    ensures
        (final(env)@, next) == copying_body(old(env)@, new, source),
        *final(env) == *old(env),
{
    if source.http_body != nil() {
        return Next::Send(
            Message::Copy { object: source.http_body },
            Then::Copy(CopyThen::Body { new, source }),
        );
    }
    copy_stream(env, new, source)
}

/// Copies a request from its method on.
fn copy_method(env: &mut Environment, new: id, source: NSURLRequestHostObject) -> (next: Next)
    requires
        is_request(old(env)@, new),
    ensures
        (final(env)@, next) == copying_method(old(env)@, new, source),
        *final(env) == *old(env),
{
    if source.http_method_is_owned && source.http_method != nil() {
        return Next::Send(
            Message::Copy { object: source.http_method },
            Then::Copy(CopyThen::Method { new, source }),
        );
    }
    copy_body(env, new, source)
}

/// Goes on with the copying of a request.
pub(crate) fn after_copy(env: &mut Environment, then: CopyThen, reply: id) -> (next: Next)
    requires
        copy_ready(old(env)@, then, reply),
    ensures
        (final(env)@, next) == copied(old(env)@, then, reply),
        old(env)@.wf() ==> final(env)@.wf(),
{
    match then {
        CopyThen::Allocated { this } => {
            let source = borrow(env, this);
            Next::Send(
                Message::InitWithURL {
                    object: reply,
                    url: source.url,
                    cache_policy: source.cache_policy,
                    timeout_interval: source.timeout_interval,
                },
                Then::Copy(CopyThen::Initialized { source }),
            )
        },
        CopyThen::Initialized { source } => {
            if reply == nil() {
                return Next::Return(nil());
            }
            let host = borrow(env, reply);
            store(
                env,
                reply,
                NSURLRequestHostObject {
                    network_service_type: source.network_service_type,
                    allows_cellular_access: source.allows_cellular_access,
                    http_should_handle_cookies: source.http_should_handle_cookies,
                    http_should_use_pipelining: source.http_should_use_pipelining,
                    ..host
                },
            );
            copy_method(env, reply, source)
        },
        CopyThen::Method { new, source } => {
            let host = borrow(env, new);
            store(
                env,
                new,
                NSURLRequestHostObject { http_method: reply, http_method_is_owned: true, ..host },
            );
            copy_body(env, new, source)
        },
        CopyThen::Body { new, source } => {
            let host = borrow(env, new);
            store(env, new, NSURLRequestHostObject { http_body: reply, ..host });
            copy_stream(env, new, source)
        },
        CopyThen::Stream { new, source } => {
            let host = borrow(env, new);
            store(
                env,
                new,
                NSURLRequestHostObject { http_body_stream: source.http_body_stream, ..host },
            );
            copy_headers(env, new, source)
        },
        CopyThen::OldHeaders { new, source } => Next::Send(
            Message::MutableCopy { object: source.http_header_fields },
            Then::Copy(CopyThen::Headers { new }),
        ),
        CopyThen::Headers { new } => {
            let host = borrow(env, new);
            store(env, new, NSURLRequestHostObject { http_header_fields: reply, ..host });
            Next::Return(new)
        },
    }
}

} // verus!
