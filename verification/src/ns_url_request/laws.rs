//! What holds of requests as a whole.
use super::copy::{copied, with_settings, CopyThen};
use super::create::{created, deallocating, init_started, owned_by, request_started, CreateThen, Owned};
use super::headers::combined_text;
use super::messages::Message;
use super::set::{changed, storing_body, storing_method, url_of, with_field, ChangeThen, UrlField};
use super::steps::{Next, Then};
use super::{is_request, request, with_request, NSTimeInterval, NSURLRequestCachePolicy, NSURLRequestHostObject};
use crate::env::{Model, MAX_REQUEST_DEPTH};
use crate::objc::{id, nil};
use crate::text::{begins_with, has_at};
use vstd::prelude::*;

pub mod change;
pub mod copying;
pub mod holding;
pub mod making;
pub mod readiness;
pub mod selectors;
pub mod sending;
pub mod texts;

verus! {

/// What was stored in a request is read back, and nothing else is changed.
pub proof fn requests_are_read_back(model: Model, object: id, host: NSURLRequestHostObject, other: id)
    requires
        other != object,
    ensures
        ({
            let after = with_request(model, object, host);
            &&& is_request(after, object)
            &&& request(after, object) == host
            &&& is_request(after, other) == is_request(model, other)
            &&& request(after, other) == request(model, other)
            &&& after == Model { objects: after.objects, ..model }
        }),
{
}

/// The objects that are still to be released when a request is deallocated: those that
/// are not `nil`, from a number on.
pub open spec fn to_release(owned: Owned, next: usize) -> Seq<id>
    decreases 6 - next,
{
    if next >= 6 {
        Seq::empty()
    } else if owned@[next as int] == nil() {
        to_release(owned, (next + 1) as usize)
    } else {
        seq![owned@[next as int]] + to_release(owned, (next + 1) as usize)
    }
}

/// A request that is deallocated releases each of the objects that it owns once, in
/// order, and then is no longer known and its memory is freed.
pub proof fn dealloc_releases_all_that_is_owned(model: Model, this: id, owned: Owned, next: usize)
    ensures
        ({
            let (after, step) = deallocating(model, this, owned, next);
            if to_release(owned, next).len() == 0 {
                &&& step == Next::Free(this)
                &&& after == Model { objects: model.objects.remove(this.0), ..model }
            } else {
                &&& after == model
                &&& step matches Next::Send(message, Then::Deallocating { this: same, owned: kept, next: further })
                &&& message == Message::Release { object: to_release(owned, next)[0] }
                &&& same == this
                &&& kept == owned
                &&& to_release(kept, further) == to_release(owned, next).skip(1)
            }
        }),
    decreases 6 - next,
{
    if next < 6 {
        dealloc_releases_all_that_is_owned(model, this, owned, (next + 1) as usize);
        if owned@[next as int] != nil() {
            assert(to_release(owned, next).skip(1) =~= to_release(owned, (next + 1) as usize));
        }
    }
}

/// The method of a request is released with it only if it is the request's own: a
/// static string never is.
pub proof fn static_methods_are_not_released(host: NSURLRequestHostObject)
    ensures
        owned_by(host)@ == seq![
            host.url,
            host.main_document_url,
            if host.http_method_is_owned {
                host.http_method
            } else {
                nil()
            },
            host.http_body,
            host.http_body_stream,
            host.http_header_fields,
        ],
{
}

/// The method holds a level of the nesting of requests, which it is going to leave.
pub open spec fn holds_level(then: Then) -> bool {
    then matches Then::Create(then) && match then {
        CreateThen::AllocHeaders { .. } | CreateThen::AllocMethod { .. } => false,
        _ => true,
    }
}

/// The depth is right: one level further in for a method that is going to leave it,
/// else where it was.
pub open spec fn depth_accounted(depth: int, after: Model, next: Next) -> bool {
    match next {
        Next::Send(_, then) => after.request_depth == if holds_level(then) {
            depth + 1
        } else {
            depth
        },
        _ => after.request_depth == depth,
    }
}

/// The setting up of a request enters a level of nesting, or is refused and leaves
/// everything as it was.
pub proof fn requests_enter_one_level(
    model: Model,
    object: id,
    url: id,
    cache_policy: NSURLRequestCachePolicy,
    timeout_interval: NSTimeInterval,
)
    requires
        model.wf(),
    ensures
        ({
            let (after, next) = request_started(model, object, url, cache_policy, timeout_interval);
            &&& depth_accounted(model.request_depth as int, after, next)
            &&& after.wf()
            &&& model.request_depth > MAX_REQUEST_DEPTH ==> after == model && next == Next::Return(
                nil(),
            )
        }),
        ({
            let (after, next) = init_started(model, object, url, cache_policy, timeout_interval);
            &&& depth_accounted(model.request_depth as int, after, next)
            &&& after.wf()
            &&& model.request_depth > MAX_REQUEST_DEPTH ==> after == model && next == if object
                == nil() {
                Next::Return(nil())
            } else {
                Next::Send(Message::Release { object }, Then::ReturnNil)
            }
        }),
{
}

/// A method that holds a level keeps it until it is over, and leaves it then: as long
/// as everything in between leaves the depth as it found it, so does the method.
pub proof fn requests_leave_their_level(model: Model, then: CreateThen, reply: id)
    requires
        holds_level(Then::Create(then)),
        model.request_depth > 0,
    ensures
        depth_accounted(
            model.request_depth - 1,
            created(model, then, reply).0,
            created(model, then, reply).1,
        ),
{
}

/// A request that was set up holds the copy of its URL, its policy and its interval.
pub proof fn initialized_requests_hold_their_url(
    model: Model,
    this: id,
    url: id,
    cache_policy: NSURLRequestCachePolicy,
    timeout_interval: NSTimeInterval,
    url_copy: id,
    meanwhile: Model,
)
    requires
        model.request_depth <= MAX_REQUEST_DEPTH,
        url != nil(),
    ensures
        init_started(model, this, url, cache_policy, timeout_interval).1 matches Next::Send(
            message,
            Then::Create(then),
        ) && {
            let (after, next) = created(meanwhile, then, url_copy);
            &&& message == Message::Copy { object: url }
            &&& next == Next::Return(this)
            &&& request(after, this) == NSURLRequestHostObject {
                url: url_copy,
                cache_policy,
                timeout_interval,
                ..request(meanwhile, this)
            }
        },
{
}

/// Setting a body or a method: the copy is in its place, and what is released is what
/// was there before, unless that was `nil` or a static string.
pub proof fn what_is_replaced_is_released(model: Model, this: id, copy: id)
    ensures
        ({
            let before = request(model, this);
            let (after, next) = storing_body(model, this, copy);
            &&& request(after, this) == NSURLRequestHostObject { http_body: copy, ..before }
            &&& (next matches Next::Send(message, then) ==> then is Finish && message
                == Message::Release { object: before.http_body })
            &&& next is Send <==> before.http_body != nil()
        }),
        ({
            let before = request(model, this);
            let (after, next) = storing_method(model, this, copy);
            &&& request(after, this) == NSURLRequestHostObject {
                http_method: copy,
                http_method_is_owned: true,
                ..before
            }
            &&& (next matches Next::Send(message, then) ==> then is Finish && message
                == Message::Release { object: before.http_method })
            &&& next is Send <==> before.http_method_is_owned && before.http_method != nil()
        }),
{
}

/// Setting one URL of a request leaves the other one alone.
pub proof fn urls_are_set_apart(model: Model, this: id, which: UrlField, other: UrlField, reply: id)
    requires
        other != which,
    ensures
        ({
            let (after, next) = changed(model, ChangeThen::StoreUrl { this, which }, reply);
            &&& next is Finished
            &&& url_of(request(after, this), which) == reply
            &&& url_of(request(after, this), other) == url_of(request(model, this), other)
            &&& with_field(request(after, this), which, url_of(request(model, this), which))
                == request(model, this)
        }),
{
}

/// A value that was added to another is there, and so is the other.
pub proof fn both_values_are_kept(existing: Seq<char>, value: Seq<char>)
    ensures
        begins_with(combined_text(existing, value), existing),
        has_at(combined_text(existing, value), value, existing.len() as int + 2),
        combined_text(existing, value).len() == existing.len() + 2 + value.len(),
{
    reveal_strlit(", ");
    let combined = combined_text(existing, value);
    assert(combined.subrange(0, existing.len() as int) =~= existing);
    let at = existing.len() as int + 2;
    assert(combined.subrange(at, at + value.len()) =~= value);
}

/// What a copy is made of.
pub struct CopyParts {
    /// The request that is copied.
    pub source: NSURLRequestHostObject,
    /// The new request, as it was when it had been initialized.
    pub initialized: NSURLRequestHostObject,
    pub method: id,
    pub body: id,
    pub headers: id,
}

impl CopyParts {
    /// The source has a method of its own.
    pub open spec fn has_method(self) -> bool {
        self.source.http_method_is_owned && self.source.http_method != nil()
    }

    /// The new request with the method of the source, if that has one of its own.
    pub open spec fn with_method(self) -> NSURLRequestHostObject {
        let host = with_settings(self.initialized, self.source);
        if self.has_method() {
            NSURLRequestHostObject { http_method: self.method, http_method_is_owned: true, ..host }
        } else {
            host
        }
    }

    /// The new request with the body of the source too.
    pub open spec fn with_body(self) -> NSURLRequestHostObject {
        if self.source.http_body != nil() {
            NSURLRequestHostObject { http_body: self.body, ..self.with_method() }
        } else {
            self.with_method()
        }
    }

    /// The new request with the stream of the source too.
    pub open spec fn with_stream(self) -> NSURLRequestHostObject {
        if self.source.http_body_stream != nil() {
            NSURLRequestHostObject {
                http_body_stream: self.source.http_body_stream,
                ..self.with_body()
            }
        } else {
            self.with_body()
        }
    }

    /// The new request when it is complete.
    pub open spec fn complete(self) -> NSURLRequestHostObject {
        if self.source.http_header_fields != nil() {
            NSURLRequestHostObject { http_header_fields: self.headers, ..self.with_stream() }
        } else {
            self.with_stream()
        }
    }

    /// The copying has come this far: the new request is what it should be, and what
    /// is waited for is something that the source has.
    pub open spec fn has_come_to(self, then: CopyThen, new: id, host: NSURLRequestHostObject) -> bool {
        match then {
            CopyThen::Allocated { .. } | CopyThen::Initialized { .. } => false,
            CopyThen::Method { new: at, source } => {
                &&& at == new && source == self.source
                &&& self.has_method()
                &&& host == with_settings(self.initialized, self.source)
            },
            CopyThen::Body { new: at, source } => {
                &&& at == new && source == self.source
                &&& source.http_body != nil()
                &&& host == self.with_method()
            },
            CopyThen::Stream { new: at, source } => {
                &&& at == new && source == self.source
                &&& source.http_body_stream != nil()
                &&& host == self.with_body()
            },
            CopyThen::OldHeaders { new: at, source } => {
                &&& at == new && source == self.source
                &&& source.http_header_fields != nil()
                &&& host == self.with_stream()
            },
            CopyThen::Headers { new: at } => {
                &&& at == new
                &&& self.source.http_header_fields != nil()
                &&& host == self.with_stream()
            },
        }
    }

    /// The answer that is waited for is this one.
    pub open spec fn is_answer(self, then: CopyThen, reply: id) -> bool {
        match then {
            CopyThen::Method { .. } => reply == self.method,
            CopyThen::Body { .. } => reply == self.body,
            CopyThen::Headers { .. } => reply == self.headers,
            _ => true,
        }
    }

    /// A step of the copying was taken: it goes on from what was reached, or the copy
    /// is complete and is returned.
    pub open spec fn is_step(self, new: id, after: Model, next: Next) -> bool {
        match next {
            Next::Send(_, Then::Copy(then)) => self.has_come_to(then, new, request(after, new)),
            Next::Return(object) => object == new && request(after, new) == self.complete(),
            _ => false,
        }
    }
}

/// The copying of a request begins with its settings, and changes no object but the
/// new request.
pub proof fn copying_begins_with_the_settings(parts: CopyParts, model: Model, new: id)
    requires
        new != nil(),
        request(model, new) == parts.initialized,
    ensures
        ({
            let (after, next) = copied(
                model,
                CopyThen::Initialized { source: parts.source },
                new,
            );
            &&& parts.is_step(new, after, next)
            &&& after == Model { objects: after.objects, ..model }
            &&& forall|other: id|
                other != new ==> #[trigger] request(after, other) == request(model, other)
        }),
{
}

/// Step by step, the new request gets what the source has: copies of its method, its
/// body and its header fields, and a share in its stream. Each step goes on from where
/// the one before ended, as long as the new request is left alone in between, and
/// changes no object but the new request.
pub proof fn copies_are_built_up(parts: CopyParts, model: Model, new: id, then: CopyThen, reply: id)
    requires
        parts.has_come_to(then, new, request(model, new)),
        parts.is_answer(then, reply),
    ensures
        ({
            let (after, next) = copied(model, then, reply);
            &&& parts.is_step(new, after, next)
            &&& after == Model { objects: after.objects, ..model }
            &&& forall|other: id|
                other != new ==> #[trigger] request(after, other) == request(model, other)
        }),
{
}

/// A complete copy has the settings of its source, the stream of its source if there is
/// one, and what was made for it: copies of the method, of the body and of the header
/// fields, each if the source has it. The rest is as the new request was initialized:
/// the URLs, the policy and the interval among it.
pub proof fn copies_agree_with_the_source(parts: CopyParts)
    ensures
        ({
            let copy = parts.complete();
            let source = parts.source;
            &&& copy.network_service_type == source.network_service_type
            &&& copy.allows_cellular_access == source.allows_cellular_access
            &&& copy.http_should_handle_cookies == source.http_should_handle_cookies
            &&& copy.http_should_use_pipelining == source.http_should_use_pipelining
            &&& copy.url == parts.initialized.url
            &&& copy.main_document_url == parts.initialized.main_document_url
            &&& copy.handles_cookies == parts.initialized.handles_cookies
            &&& copy.cache_policy == parts.initialized.cache_policy
            &&& copy.timeout_interval == parts.initialized.timeout_interval
            &&& source.http_body_stream != nil() ==> copy.http_body_stream == source.http_body_stream
            &&& source.http_body != nil() ==> copy.http_body == parts.body
            &&& source.http_header_fields != nil() ==> copy.http_header_fields == parts.headers
            &&& parts.has_method() ==> copy.http_method == parts.method
                && copy.http_method_is_owned
        }),
{
}

} // verus!
