//! Making requests, and giving them up.
use super::messages::Message;
use super::steps::{Next, Then};
use super::{
    borrow, is_request, new_request, request, store, with_request, NSTimeInterval, NSURLRequestCachePolicy,
    NSURLRequestHostObject, NSURLRequestUseProtocolCachePolicy, default_timeout_interval,
};
use crate::dispatch::alloc_object;
use crate::env::{Environment, Model, MAX_REQUEST_DEPTH};
use crate::mem::with_word;
use crate::objc::{id, nil, Class, HostObject};
use vstd::prelude::*;

verus! {

/// A level of the nesting of requests: requests that end up asking for themselves
/// would go on without end.
#[derive(Debug, PartialEq, Eq, Structural)]
pub struct DepthGuard {}

impl DepthGuard {
    /// Enters a level.
    pub fn new(env: &mut Environment) -> (guard: DepthGuard)
        requires
            old(env)@.request_depth < usize::MAX,
        ensures
            final(env)@ == entered(old(env)@),
    {
        env.counters.request_depth += 1;
        DepthGuard {  }
    }

    /// Leaves the level.
    pub fn leave(self, env: &mut Environment)
        requires
            old(env)@.request_depth > 0,
        ensures
            final(env)@ == left(old(env)@),
    {
        env.counters.request_depth -= 1;
    }
}

/// The environment one level of requests further in.
pub open spec fn entered(model: Model) -> Model {
    Model { request_depth: (model.request_depth + 1) as usize, ..model }
}

/// The environment one level of requests further out.
pub open spec fn left(model: Model) -> Model {
    Model { request_depth: (model.request_depth - 1) as usize, ..model }
}

/// What the making of a request does with the answer to a message, or with a string.
#[derive(Debug)]
pub enum CreateThen {
    AllocHeaders { class: Class },
    AllocMethod { class: Class, http_header_fields: id },
    RequestAllocated {
        url: id,
        cache_policy: NSURLRequestCachePolicy,
        timeout_interval: NSTimeInterval,
        guard: DepthGuard,
    },
    RequestInitialized { guard: DepthGuard },
    RequestAutoreleased { guard: DepthGuard },
    InitRefused { guard: DepthGuard },
    InitCopied {
        this: id,
        cache_policy: NSURLRequestCachePolicy,
        timeout_interval: NSTimeInterval,
        guard: DepthGuard,
    },
}

/// What a request gives up when it is deallocated.
#[derive(Clone, Copy, Debug, PartialEq, Eq, Structural)]
pub struct Owned {
    pub url: id,
    pub main_document_url: id,
    /// `nil` if the method is a static string.
    pub http_method: id,
    pub http_body: id,
    pub http_body_stream: id,
    pub http_header_fields: id,
}

/// The request has been initialized with a URL.
pub open spec fn with_url(
    host: NSURLRequestHostObject,
    url: id,
    cache_policy: NSURLRequestCachePolicy,
    timeout_interval: NSTimeInterval,
) -> NSURLRequestHostObject {
    NSURLRequestHostObject { url, cache_policy, timeout_interval, ..host }
}

/// What a request gives up when it is deallocated.
pub open spec fn owned_by(host: NSURLRequestHostObject) -> Owned {
    Owned {
        url: host.url,
        main_document_url: host.main_document_url,
        http_method: if host.http_method_is_owned {
            host.http_method
        } else {
            nil()
        },
        http_body: host.http_body,
        http_body_stream: host.http_body_stream,
        http_header_fields: host.http_header_fields,
    }
}

impl Owned {
    /// The objects, in the order in which they are given up.
    pub open spec fn view(&self) -> Seq<id> {
        seq![
            self.url,
            self.main_document_url,
            self.http_method,
            self.http_body,
            self.http_body_stream,
            self.http_header_fields,
        ]
    }

    /// The object of a number.
    fn get(&self, number: usize) -> (object: id)
        requires
            number < 6,
        ensures
            object == self@[number as int],
    {
        if number == 0 {
            self.url
        } else if number == 1 {
            self.main_document_url
        } else if number == 2 {
            self.http_method
        } else if number == 3 {
            self.http_body
        } else if number == 4 {
            self.http_body_stream
        } else {
            self.http_header_fields
        }
    }
}

/// Deallocation from the object of a number on: `nil` is passed by, and the request
/// itself comes last.
pub open spec fn deallocating(model: Model, this: id, owned: Owned, next: usize) -> (Model, Next)
    decreases 6 - next,
{
    if next >= 6 {
        (Model { objects: model.objects.remove(this.0), ..model }, Next::Free(this))
    } else if owned@[next as int] == nil() {
        deallocating(model, this, owned, (next + 1) as usize)
    } else {
        (
            model,
            Next::Send(
                Message::Release { object: owned@[next as int] },
                Then::Deallocating { this, owned, next: (next + 1) as usize },
            ),
        )
    }
}

/// The setting up of a new request.
pub open spec fn request_started(
    model: Model,
    class: Class,
    url: id,
    cache_policy: NSURLRequestCachePolicy,
    timeout_interval: NSTimeInterval,
) -> (Model, Next) {
    if model.request_depth > MAX_REQUEST_DEPTH {
        (model, Next::Return(nil()))
    } else {
        (
            entered(model),
            Next::Send(
                Message::Alloc { class },
                Then::Create(CreateThen::RequestAllocated {
                    url,
                    cache_policy,
                    timeout_interval,
                    guard: DepthGuard {  },
                }),
            ),
        )
    }
}

/// The initialization of a request.
pub open spec fn init_started(
    model: Model,
    this: id,
    url: id,
    cache_policy: NSURLRequestCachePolicy,
    timeout_interval: NSTimeInterval,
) -> (Model, Next) {
    if model.request_depth > MAX_REQUEST_DEPTH {
        if this == nil() {
            (model, Next::Return(nil()))
        } else {
            (model, Next::Send(Message::Release { object: this }, Then::ReturnNil))
        }
    } else if url == nil() {
        if this == nil() {
            (model, Next::Return(nil()))
        } else {
            (
                entered(model),
                Next::Send(
                    Message::Release { object: this },
                    Then::Create(CreateThen::InitRefused { guard: DepthGuard {  } }),
                ),
            )
        }
    } else {
        (
            entered(model),
            Next::Send(
                Message::Copy { object: url },
                Then::Create(CreateThen::InitCopied {
                    this,
                    cache_policy,
                    timeout_interval,
                    guard: DepthGuard {  },
                }),
            ),
        )
    }
}

/// What the environment must have for the method to go on.
pub open spec fn create_ready(model: Model, then: CreateThen, reply: id) -> bool {
    match then {
        CreateThen::RequestInitialized { .. } => reply == nil() ==> model.request_depth > 0,
        CreateThen::RequestAutoreleased { .. } | CreateThen::InitRefused { .. } => model.request_depth > 0,
        CreateThen::InitCopied { this, .. } => model.request_depth > 0 && is_request(model, this),
        _ => true,
    }
}

/// How the making of a request goes on after an answer.
pub open spec fn created(model: Model, then: CreateThen, reply: id) -> (Model, Next) {
    match then {
        CreateThen::AllocHeaders { class } => (
            model,
            Next::StaticString("GET", Then::Create(CreateThen::AllocMethod { class, http_header_fields: reply })),
        ),
        CreateThen::AllocMethod { class, http_header_fields } => (
            model,
            Next::Allocate { class, host: new_request(reply, http_header_fields) },
        ),
        CreateThen::RequestAllocated { url, cache_policy, timeout_interval, guard } => (
            model,
            Next::Send(
                Message::InitWithURL { object: reply, url, cache_policy, timeout_interval },
                Then::Create(CreateThen::RequestInitialized { guard }),
            ),
        ),
        CreateThen::RequestInitialized { guard } => if reply == nil() {
            (left(model), Next::Return(nil()))
        } else {
            (
                model,
                Next::Send(
                    Message::Autorelease { object: reply },
                    Then::Create(CreateThen::RequestAutoreleased { guard }),
                ),
            )
        },
        CreateThen::RequestAutoreleased { guard } => (left(model), Next::Return(reply)),
        CreateThen::InitRefused { guard } => (left(model), Next::Return(nil())),
        CreateThen::InitCopied { this, cache_policy, timeout_interval, guard } => (
            left(
                with_request(
                    model,
                    this,
                    with_url(request(model, this), reply, cache_policy, timeout_interval),
                ),
            ),
            Next::Return(this),
        ),
    }
}

/// `+allocWithZone:`
pub fn alloc_with_zone(class: Class) -> (next: Next)
    ensures
        next == Next::Send(Message::NewDictionary, Then::Create(CreateThen::AllocHeaders { class })),
{
    Next::Send(Message::NewDictionary, Then::Create(CreateThen::AllocHeaders { class }))
}

/// Ends `+allocWithZone:`, with the address that was found for the request.
pub fn finish_alloc(
    env: &mut Environment,
    class: Class,
    host: NSURLRequestHostObject,
    object: id,
) -> (next: Next)
    ensures
        final(env)@ == (Model {
            mem: with_word(old(env)@.mem, object.0, class.0),
            ..with_request(old(env)@, object, host)
        }),
        next == Next::Return(object),
        old(env)@.wf() ==> final(env)@.wf(),
{
    alloc_object(env, class, object, HostObject::URLRequest(host));
    Next::Return(object)
}

/// `+requestWithURL:`
pub fn request_with_url(class: Class, url: id) -> (next: Next)
    ensures
        next == Next::Send(
            (Message::RequestWithURL {
                class,
                url,
                cache_policy: NSURLRequestUseProtocolCachePolicy,
                timeout_interval: default_timeout_interval(),
            }),
            Then::ReturnReply,
        ),
{
    Next::Send(
        Message::RequestWithURL {
            class,
            url,
            cache_policy: NSURLRequestUseProtocolCachePolicy,
            timeout_interval: default_timeout_interval(),
        },
        Then::ReturnReply,
    )
}

/// `+requestWithURL:cachePolicy:timeoutInterval:`
pub fn request_with_url_cache_policy(
    env: &mut Environment,
    class: Class,
    url: id,
    cache_policy: NSURLRequestCachePolicy,
    timeout_interval: NSTimeInterval,
) -> (next: Next)
    ensures
        (final(env)@, next) == request_started(
            old(env)@,
            class,
            url,
            cache_policy,
            timeout_interval,
        ),
        old(env)@.wf() ==> final(env)@.wf(),
{
    if env.counters.request_depth > MAX_REQUEST_DEPTH {
        return Next::Return(nil());
    }
    let guard = DepthGuard::new(env);
    Next::Send(
        Message::Alloc { class },
        Then::Create(CreateThen::RequestAllocated { url, cache_policy, timeout_interval, guard }),
    )
}

/// `-initWithURL:`
pub fn init_with_url(this: id, url: id) -> (next: Next)
    ensures
        next == Next::Send(
            (Message::InitWithURL {
                object: this,
                url,
                cache_policy: NSURLRequestUseProtocolCachePolicy,
                timeout_interval: default_timeout_interval(),
            }),
            Then::ReturnReply,
        ),
{
    Next::Send(
        Message::InitWithURL {
            object: this,
            url,
            cache_policy: NSURLRequestUseProtocolCachePolicy,
            timeout_interval: default_timeout_interval(),
        },
        Then::ReturnReply,
    )
}

/// `-initWithURL:cachePolicy:timeoutInterval:`
pub fn init_with_url_cache_policy(
    env: &mut Environment,
    this: id,
    url: id,
    cache_policy: NSURLRequestCachePolicy,
    timeout_interval: NSTimeInterval,
) -> (next: Next)
    ensures
        (final(env)@, next) == init_started(
            old(env)@,
            this,
            url,
            cache_policy,
            timeout_interval,
        ),
        old(env)@.wf() ==> final(env)@.wf(),
{
    if env.counters.request_depth > MAX_REQUEST_DEPTH {
        if this == nil() {
            return Next::Return(nil());
        }
        return Next::Send(Message::Release { object: this }, Then::ReturnNil);
    }
    let guard = DepthGuard::new(env);
    if url == nil() {
        if this == nil() {
            guard.leave(env);
            return Next::Return(nil());
        }
        return Next::Send(Message::Release { object: this }, Then::Create(CreateThen::InitRefused { guard }));
    }
    Next::Send(
        Message::Copy { object: url },
        Then::Create(CreateThen::InitCopied { this, cache_policy, timeout_interval, guard }),
    )
}

/// Goes on with the making of a request.
pub(crate) fn after_create(env: &mut Environment, then: CreateThen, reply: id) -> (next: Next)
    requires
        create_ready(old(env)@, then, reply),
    ensures
        (final(env)@, next) == created(old(env)@, then, reply),
        old(env)@.wf() ==> final(env)@.wf(),
{
    match then {
        CreateThen::AllocHeaders { class } => Next::StaticString(
            "GET",
            Then::Create(CreateThen::AllocMethod { class, http_header_fields: reply }),
        ),
        CreateThen::AllocMethod { class, http_header_fields } => Next::Allocate {
            class,
            host: NSURLRequestHostObject::new(reply, http_header_fields),
        },
        CreateThen::RequestAllocated { url, cache_policy, timeout_interval, guard } => Next::Send(
            Message::InitWithURL { object: reply, url, cache_policy, timeout_interval },
            Then::Create(CreateThen::RequestInitialized { guard }),
        ),
        CreateThen::RequestInitialized { guard } => {
            if reply == nil() {
                guard.leave(env);
                Next::Return(nil())
            } else {
                Next::Send(
                    Message::Autorelease { object: reply },
                    Then::Create(CreateThen::RequestAutoreleased { guard }),
                )
            }
        },
        CreateThen::RequestAutoreleased { guard } => {
            guard.leave(env);
            Next::Return(reply)
        },
        CreateThen::InitRefused { guard } => {
            guard.leave(env);
            Next::Return(nil())
        },
        CreateThen::InitCopied { this, cache_policy, timeout_interval, guard } => {
            let host = borrow(env, this);
            store(
                env,
                this,
                NSURLRequestHostObject { url: reply, cache_policy, timeout_interval, ..host },
            );
            guard.leave(env);
            Next::Return(this)
        },
    }
}

/// `-dealloc`
pub fn dealloc(env: &mut Environment, this: id) -> (next: Next)
    requires
        is_request(old(env)@, this),
    ensures
        (final(env)@, next) == deallocating(
            old(env)@,
            this,
            owned_by(request(old(env)@, this)),
            0,
        ),
        old(env)@.wf() ==> final(env)@.wf(),
{
    let host = borrow(env, this);
    let owned = Owned {
        url: host.url,
        main_document_url: host.main_document_url,
        http_method: if host.http_method_is_owned {
            host.http_method
        } else {
            nil()
        },
        http_body: host.http_body,
        http_body_stream: host.http_body_stream,
        http_header_fields: host.http_header_fields,
    };
    continue_dealloc(env, this, owned, 0)
}

/// Deallocates from the object of a number on.
pub(crate) fn continue_dealloc(env: &mut Environment, this: id, owned: Owned, next: usize) -> (result: Next)
    ensures
        (final(env)@, result) == deallocating(old(env)@, this, owned, next),
        old(env)@.wf() ==> final(env)@.wf(),
{
    let mut number = next;
    while number < 6
        invariant
            *env == *old(env),
            deallocating(env@, this, owned, number) == deallocating(env@, this, owned, next),
        decreases 6 - number,
    {
        let object = owned.get(number);
        if object != nil() {
            return Next::Send(
                Message::Release { object },
                Then::Deallocating { this, owned, next: number + 1 },
            );
        }
        number += 1;
    }
    env.objc.remove_host_object(this);
    Next::Free(this)
}

} // verus!
