//! Changing the URLs, the method and the body of requests.
use super::messages::Message;
use super::steps::{Next, Then};
use super::{borrow, is_request, request, store, with_request, NSURLRequestHostObject};
use crate::env::{Environment, Model};
use crate::objc::{id, nil};
use vstd::prelude::*;

verus! {

/// One of the two URLs of a request.
#[derive(Clone, Copy, Debug, PartialEq, Eq, Structural)]
pub enum UrlField {
    Url,
    MainDocumentUrl,
}

/// What a change of a request does with the answer to a message.
#[derive(Debug)]
pub enum ChangeThen {
    UrlReleased { this: id, which: UrlField, url: id },
    StoreUrl { this: id, which: UrlField },
    StoreMethod { this: id },
    StoreBody { this: id },
    StreamReleased { this: id, stream: id },
    StreamRetained { this: id, stream: id },
}

/// A request with one of its URLs replaced.
pub open spec fn with_field(host: NSURLRequestHostObject, which: UrlField, url: id) -> NSURLRequestHostObject {
    match which {
        UrlField::Url => NSURLRequestHostObject { url, ..host },
        UrlField::MainDocumentUrl => NSURLRequestHostObject { main_document_url: url, ..host },
    }
}

/// One of the URLs of a request.
pub open spec fn url_of(host: NSURLRequestHostObject, which: UrlField) -> id {
    match which {
        UrlField::Url => host.url,
        UrlField::MainDocumentUrl => host.main_document_url,
    }
}

/// The setting of a URL, once the one before is released.
pub open spec fn setting_url(model: Model, this: id, which: UrlField, url: id) -> (Model, Next) {
    if url != nil() {
        (model, Next::Send(Message::Copy { object: url }, Then::Change(ChangeThen::StoreUrl { this, which })))
    } else {
        (with_request(model, this, with_field(request(model, this), which, nil())), Next::Finished)
    }
}

/// The setting of a stream, once the one before is released.
pub open spec fn setting_stream(model: Model, this: id, stream: id) -> (Model, Next) {
    if stream != nil() {
        (
            model,
            Next::Send(
                Message::Retain { object: stream },
                Then::Change(ChangeThen::StreamRetained { this, stream }),
            ),
        )
    } else {
        (
            with_request(
                model,
                this,
                NSURLRequestHostObject { http_body_stream: nil(), ..request(model, this) },
            ),
            Next::Finished,
        )
    }
}

/// The setting of a body, once it is copied. The one before is released.
pub open spec fn storing_body(model: Model, this: id, copy: id) -> (Model, Next) {
    let before = request(model, this);
    (
        with_request(model, this, NSURLRequestHostObject { http_body: copy, ..before }),
        if before.http_body != nil() {
            Next::Send(Message::Release { object: before.http_body }, Then::Finish)
        } else {
            Next::Finished
        },
    )
}

/// The setting of a method, once it is copied. The one before is released if it was
/// the request's own.
pub open spec fn storing_method(model: Model, this: id, copy: id) -> (Model, Next) {
    let before = request(model, this);
    (
        with_request(
            model,
            this,
            NSURLRequestHostObject { http_method: copy, http_method_is_owned: true, ..before },
        ),
        if before.http_method_is_owned && before.http_method != nil() {
            Next::Send(Message::Release { object: before.http_method }, Then::Finish)
        } else {
            Next::Finished
        },
    )
}

/// What the environment must have for the method to go on.
pub open spec fn set_ready(model: Model, then: ChangeThen, reply: id) -> bool {
    match then {
        ChangeThen::UrlReleased { this, url, .. } => url == nil() ==> is_request(model, this),
        ChangeThen::StoreUrl { this, .. } => is_request(model, this),
        ChangeThen::StoreMethod { this } => is_request(model, this),
        ChangeThen::StoreBody { this } => is_request(model, this),
        ChangeThen::StreamReleased { this, stream } => stream == nil() ==> is_request(model, this),
        ChangeThen::StreamRetained { this, .. } => is_request(model, this),
    }
}

/// How a change of a request goes on after an answer.
pub open spec fn changed(model: Model, then: ChangeThen, reply: id) -> (Model, Next) {
    match then {
        ChangeThen::UrlReleased { this, which, url } => setting_url(model, this, which, url),
        ChangeThen::StoreUrl { this, which } => (
            with_request(model, this, with_field(request(model, this), which, reply)),
            Next::Finished,
        ),
        ChangeThen::StoreMethod { this } => storing_method(model, this, reply),
        ChangeThen::StoreBody { this } => storing_body(model, this, reply),
        ChangeThen::StreamReleased { this, stream } => setting_stream(model, this, stream),
        ChangeThen::StreamRetained { this, stream } => (
            with_request(
                model,
                this,
                NSURLRequestHostObject { http_body_stream: stream, ..request(model, this) },
            ),
            Next::Finished,
        ),
    }
}

/// Sets one of the URLs of a mutable request.
fn set_url_field(env: &mut Environment, this: id, which: UrlField, url: id) -> (next: Next)
    requires
        is_request(old(env)@, this),
    ensures
        ({
            let before = url_of(request(old(env)@, this), which);
            (final(env)@, next) == if before != nil() {
                (
                    old(env)@,
                    Next::Send(
                        Message::Release { object: before },
                        Then::Change(ChangeThen::UrlReleased { this, which, url }),
                    ),
                )
            } else {
                setting_url(old(env)@, this, which, url)
            }
        }),
        old(env)@.wf() ==> final(env)@.wf(),
{
    let host = borrow(env, this);
    let before = match which {
        UrlField::Url => host.url,
        UrlField::MainDocumentUrl => host.main_document_url,
    };
    if before != nil() {
        return Next::Send(
            Message::Release { object: before },
            Then::Change(ChangeThen::UrlReleased { this, which, url }),
        );
    }
    copy_url(env, this, which, url)
}

/// Copies a URL that is to be set.
fn copy_url(env: &mut Environment, this: id, which: UrlField, url: id) -> (next: Next)
    requires
        url == nil() ==> is_request(old(env)@, this),
    ensures
        (final(env)@, next) == setting_url(old(env)@, this, which, url),
        old(env)@.wf() ==> final(env)@.wf(),
{
    if url != nil() {
        return Next::Send(Message::Copy { object: url }, Then::Change(ChangeThen::StoreUrl { this, which }));
    }
    store_url(env, this, which, nil());
    Next::Finished
}

/// Replaces a URL of a request.
fn store_url(env: &mut Environment, this: id, which: UrlField, url: id)
    requires
        is_request(old(env)@, this),
    ensures
        final(env)@ == with_request(
            old(env)@,
            this,
            with_field(request(old(env)@, this), which, url),
        ),
        old(env)@.wf() ==> final(env)@.wf(),
{
    let host = borrow(env, this);
    let host = match which {
        UrlField::Url => NSURLRequestHostObject { url, ..host },
        UrlField::MainDocumentUrl => NSURLRequestHostObject { main_document_url: url, ..host },
    };
    store(env, this, host);
}

/// `-setURL:` of a mutable request.
pub fn set_url(env: &mut Environment, this: id, url: id) -> (next: Next)
    requires
        is_request(old(env)@, this),
    ensures
        ({
            let before = request(old(env)@, this).url;
            (final(env)@, next) == if before != nil() {
                (
                    old(env)@,
                    Next::Send(
                        Message::Release { object: before },
                        Then::Change(ChangeThen::UrlReleased { this, which: UrlField::Url, url }),
                    ),
                )
            } else {
                setting_url(old(env)@, this, UrlField::Url, url)
            }
        }),
        old(env)@.wf() ==> final(env)@.wf(),
{
    set_url_field(env, this, UrlField::Url, url)
}

/// `-setMainDocumentURL:` of a mutable request.
pub fn set_main_document_url(env: &mut Environment, this: id, url: id) -> (next: Next)
    requires
        is_request(old(env)@, this),
    ensures
        ({
            let before = request(old(env)@, this).main_document_url;
            (final(env)@, next) == if before != nil() {
                (
                    old(env)@,
                    Next::Send(
                        Message::Release { object: before },
                        Then::Change(ChangeThen::UrlReleased { this, which: UrlField::MainDocumentUrl, url }),
                    ),
                )
            } else {
                setting_url(old(env)@, this, UrlField::MainDocumentUrl, url)
            }
        }),
        old(env)@.wf() ==> final(env)@.wf(),
{
    set_url_field(env, this, UrlField::MainDocumentUrl, url)
}

/// `-setHTTPMethod:` of a mutable request. `nil` changes nothing.
pub fn set_http_method(this: id, http_method: id) -> (next: Next)
    ensures
        next == if http_method == nil() {
            Next::Finished
        } else {
            Next::Send((Message::Copy { object: http_method }), (Then::Change(ChangeThen::StoreMethod { this })))
        },
{
    if http_method == nil() {
        return Next::Finished;
    }
    Next::Send(Message::Copy { object: http_method }, Then::Change(ChangeThen::StoreMethod { this }))
}

/// Replaces the method of a request.
fn store_method(env: &mut Environment, this: id, copy: id) -> (next: Next)
    requires
        is_request(old(env)@, this),
    ensures
        (final(env)@, next) == storing_method(old(env)@, this, copy),
        old(env)@.wf() ==> final(env)@.wf(),
{
    let host = borrow(env, this);
    store(
        env,
        this,
        NSURLRequestHostObject { http_method: copy, http_method_is_owned: true, ..host },
    );
    if host.http_method_is_owned && host.http_method != nil() {
        return Next::Send(Message::Release { object: host.http_method }, Then::Finish);
    }
    Next::Finished
}

/// `-setHTTPBody:` of a mutable request.
pub fn set_http_body(env: &mut Environment, this: id, http_body: id) -> (next: Next)
    requires
        is_request(old(env)@, this),
    ensures
        (final(env)@, next) == if http_body != nil() {
            (
                old(env)@,
                Next::Send(Message::Copy { object: http_body }, Then::Change(ChangeThen::StoreBody { this })),
            )
        } else {
            storing_body(old(env)@, this, nil())
        },
        old(env)@.wf() ==> final(env)@.wf(),
{
    if http_body != nil() {
        return Next::Send(Message::Copy { object: http_body }, Then::Change(ChangeThen::StoreBody { this }));
    }
    store_body(env, this, nil())
}

/// Replaces the body of a request.
fn store_body(env: &mut Environment, this: id, copy: id) -> (next: Next)
    requires
        is_request(old(env)@, this),
    ensures
        (final(env)@, next) == storing_body(old(env)@, this, copy),
        old(env)@.wf() ==> final(env)@.wf(),
{
    let host = borrow(env, this);
    store(env, this, NSURLRequestHostObject { http_body: copy, ..host });
    if host.http_body != nil() {
        return Next::Send(Message::Release { object: host.http_body }, Then::Finish);
    }
    Next::Finished
}

/// `-setHTTPBodyStream:` of a mutable request.
pub fn set_http_body_stream(env: &mut Environment, this: id, stream: id) -> (next: Next)
    requires
        is_request(old(env)@, this),
    ensures
        ({
            let before = request(old(env)@, this).http_body_stream;
            (final(env)@, next) == if before != nil() {
                (
                    old(env)@,
                    Next::Send(
                        Message::Release { object: before },
                        Then::Change(ChangeThen::StreamReleased { this, stream }),
                    ),
                )
            } else {
                setting_stream(old(env)@, this, stream)
            }
        }),
        old(env)@.wf() ==> final(env)@.wf(),
{
    let before = borrow(env, this).http_body_stream;
    if before != nil() {
        return Next::Send(
            Message::Release { object: before },
            Then::Change(ChangeThen::StreamReleased { this, stream }),
        );
    }
    retain_stream(env, this, stream)
}

/// Retains a stream that is to be set.
fn retain_stream(env: &mut Environment, this: id, stream: id) -> (next: Next)
    requires
        stream == nil() ==> is_request(old(env)@, this),
    ensures
        (final(env)@, next) == setting_stream(old(env)@, this, stream),
        old(env)@.wf() ==> final(env)@.wf(),
{
    if stream != nil() {
        return Next::Send(
            Message::Retain { object: stream },
            Then::Change(ChangeThen::StreamRetained { this, stream }),
        );
    }
    let host = borrow(env, this);
    store(env, this, NSURLRequestHostObject { http_body_stream: nil(), ..host });
    Next::Finished
}

/// Goes on with a change of a request.
pub(crate) fn after_set(env: &mut Environment, then: ChangeThen, reply: id) -> (next: Next)
    requires
        set_ready(old(env)@, then, reply),
    ensures
        (final(env)@, next) == changed(old(env)@, then, reply),
        old(env)@.wf() ==> final(env)@.wf(),
{
    match then {
        ChangeThen::UrlReleased { this, which, url } => copy_url(env, this, which, url),
        ChangeThen::StoreUrl { this, which } => {
            store_url(env, this, which, reply);
            Next::Finished
        },
        ChangeThen::StoreMethod { this } => store_method(env, this, reply),
        ChangeThen::StoreBody { this } => store_body(env, this, reply),
        ChangeThen::StreamReleased { this, stream } => retain_stream(env, this, stream),
        ChangeThen::StreamRetained { this, stream } => {
            let host = borrow(env, this);
            store(env, this, NSURLRequestHostObject { http_body_stream: stream, ..host });
            Next::Finished
        },
    }
}

} // verus!
