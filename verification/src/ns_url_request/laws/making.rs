//! How requests come about, from the first message to the last, and how they are given up.
use super::super::create::{
    alloc_with_zone, dealloc, finish_alloc, init_with_url, init_with_url_cache_policy, owned_by, request_with_url,
    request_with_url_cache_policy, DepthGuard, Owned,
};
use super::super::messages::Message;
use super::super::steps::{after_reply, Next, Then};
use super::super::{NSTimeInterval, NSURLRequestCachePolicy, NSURLRequestHostObject};
use super::change::sends;
use super::dealloc_releases_all_that_is_owned;
use super::holding::{holds, holds_now};
use super::to_release;
use crate::env::{Environment, Model};
use crate::mem::with_word;
use crate::objc::{id, Class};
use vstd::prelude::*;

verus! {

/// All is as it was, but for the depth of the nesting of requests.
pub open spec fn only_depth(before: Model, after: Model, depth: int) -> bool {
    &&& after.request_depth == depth
    &&& after == Model { request_depth: after.request_depth, ..before }
}

/// A level of the nesting of requests counts as one, when it is entered and when it is
/// left.
pub proof fn levels_count_as_one(start: &mut Environment, end: &mut Environment, guard: DepthGuard)
    requires
        old(start)@.request_depth < usize::MAX,
        old(end)@.request_depth > 0,
        call_ensures(DepthGuard::new, (start,), guard),
        call_ensures(DepthGuard::leave, (guard, end), ()),
    ensures
        only_depth(old(start)@, final(start)@, old(start)@.request_depth + 1),
        only_depth(old(end)@, final(end)@, old(end)@.request_depth - 1),
{
}

/// A request that is asked for with a URL, a policy and an interval is allocated by its
/// class, and initialized with the very same URL, policy and interval.
pub proof fn requests_are_initialized_as_asked(
    start: &mut Environment,
    class: Class,
    url: id,
    cache_policy: NSURLRequestCachePolicy,
    timeout_interval: NSTimeInterval,
    asked: Next,
    env: &mut Environment,
    allocated: id,
    next: Next,
)
    requires
        old(start)@.request_depth <= 32,
        call_ensures(
            request_with_url_cache_policy,
            (start, class, url, cache_policy, timeout_interval),
            asked,
        ),
        call_ensures(after_reply, (env, asked->Send_1, allocated), next),
    ensures
        only_depth(old(start)@, final(start)@, old(start)@.request_depth + 1),
        sends(asked, Message::Alloc { class }),
        final(env)@ == old(env)@,
        sends(
            next,
            (Message::InitWithURL { object: allocated, url, cache_policy, timeout_interval }),
        ),
{
}

/// A request that was asked for is what its initialization answered, autoreleased: the
/// answer to that is returned. It is `nil` if the initialization answered `nil`. Either
/// way the level that was entered is left.
pub proof fn requests_are_returned_autoreleased(
    start: &mut Environment,
    class: Class,
    url: id,
    cache_policy: NSURLRequestCachePolicy,
    timeout_interval: NSTimeInterval,
    asked: Next,
    middle: &mut Environment,
    allocated: id,
    initializing: Next,
    env: &mut Environment,
    initialized: id,
    next: Next,
    end: &mut Environment,
    autoreleased: id,
    last: Next,
)
    requires
        old(start)@.request_depth <= 32,
        call_ensures(
            request_with_url_cache_policy,
            (start, class, url, cache_policy, timeout_interval),
            asked,
        ),
        call_ensures(after_reply, (middle, asked->Send_1, allocated), initializing),
        old(env)@.request_depth > 0,
        call_ensures(after_reply, (env, initializing->Send_1, initialized), next),
        old(end)@.request_depth > 0,
        initialized.0 != 0 ==> call_ensures(after_reply, (end, next->Send_1, autoreleased), last),
    ensures
        if initialized.0 == 0 {
            &&& next == Next::Return(id(0))
            &&& only_depth(old(env)@, final(env)@, old(env)@.request_depth - 1)
        } else {
            &&& sends(next, Message::Autorelease { object: initialized })
            &&& final(env)@ == old(env)@
            &&& last == Next::Return(autoreleased)
            &&& only_depth(old(end)@, final(end)@, old(end)@.request_depth - 1)
        },
{
}

/// More than thirty-two levels in, no request is made: `nil` is returned, and a request
/// that was to be initialized is released.
pub proof fn deep_requests_are_refused(
    env: &mut Environment,
    object: id,
    url: id,
    cache_policy: NSURLRequestCachePolicy,
    timeout_interval: NSTimeInterval,
    next: Next,
)
    requires
        old(env)@.request_depth > 32,
    ensures
        call_ensures(
            request_with_url_cache_policy,
            (env, object, url, cache_policy, timeout_interval),
            next,
        ) ==> next == Next::Return(id(0)) && final(env)@ == old(env)@,
        call_ensures(
            init_with_url_cache_policy,
            (env, object, url, cache_policy, timeout_interval),
            next,
        ) ==> final(env)@ == old(env)@ && if object.0 == 0 {
            next == Next::Return(id(0))
        } else {
            next == Next::Send(Message::Release { object }, Then::ReturnNil)
        },
{
}

/// The short forms stand for the long ones with the first policy and an interval of one
/// minute, and return what those do.
pub proof fn short_forms_stand_for_long_ones(object: id, url: id, next: Next)
    ensures
        call_ensures(request_with_url, (object, url), next) ==> next == Next::Send(
            (Message::RequestWithURL {
                class: object,
                url,
                cache_policy: 0,
                timeout_interval: NSTimeInterval(0x404e_0000_0000_0000),
            }),
            Then::ReturnReply,
        ),
        call_ensures(init_with_url, (object, url), next) ==> next == Next::Send(
            (Message::InitWithURL {
                object,
                url,
                cache_policy: 0,
                timeout_interval: NSTimeInterval(0x404e_0000_0000_0000),
            }),
            Then::ReturnReply,
        ),
{
}

/// A request that is initialized holds a copy of its URL, its policy and its interval,
/// next to what it held already, and is returned. The level that was entered is left.
pub proof fn initialized_requests_hold_what_was_asked(
    start: &mut Environment,
    this: id,
    url: id,
    cache_policy: NSURLRequestCachePolicy,
    timeout_interval: NSTimeInterval,
    asked: Next,
    env: &mut Environment,
    host: NSURLRequestHostObject,
    copy: id,
    next: Next,
)
    requires
        old(start)@.request_depth <= 32,
        url.0 != 0,
        call_ensures(
            init_with_url_cache_policy,
            (start, this, url, cache_policy, timeout_interval),
            asked,
        ),
        old(env)@.request_depth > 0,
        holds(old(env)@, this, host),
        call_ensures(after_reply, (env, asked->Send_1, copy), next),
    ensures
        only_depth(old(start)@, final(start)@, old(start)@.request_depth + 1),
        sends(asked, Message::Copy { object: url }),
        next == Next::Return(this),
        final(env)@.request_depth == old(env)@.request_depth - 1,
        holds_now(
            old(env)@,
            this,
            (NSURLRequestHostObject { url: copy, cache_policy, timeout_interval, ..host }),
            (Model { request_depth: old(env)@.request_depth, ..final(env)@ }),
        ),
{
}

/// A request that is to be initialized without a URL is released, and `nil` returned. The
/// level that was entered is left.
pub proof fn requests_without_a_url_are_refused(
    start: &mut Environment,
    this: id,
    cache_policy: NSURLRequestCachePolicy,
    timeout_interval: NSTimeInterval,
    asked: Next,
    env: &mut Environment,
    ignored: id,
    next: Next,
)
    requires
        old(start)@.request_depth <= 32,
        call_ensures(
            init_with_url_cache_policy,
            (start, this, id(0), cache_policy, timeout_interval),
            asked,
        ),
        old(env)@.request_depth > 0,
        this.0 != 0 ==> call_ensures(after_reply, (env, asked->Send_1, ignored), next),
    ensures
        if this.0 == 0 {
            &&& asked == Next::Return(id(0))
            &&& final(start)@ == old(start)@
        } else {
            &&& sends(asked, Message::Release { object: this })
            &&& only_depth(old(start)@, final(start)@, old(start)@.request_depth + 1)
            &&& next == Next::Return(id(0))
            &&& only_depth(old(env)@, final(env)@, old(env)@.request_depth - 1)
        },
{
}

/// A request that is allocated has a new dictionary for its header fields, the static
/// string `GET` as its method, and else what every new request has: no URLs and no body,
/// the first policy, one minute, and leave to use cellular access and cookies, but not
/// pipelining.
pub proof fn new_requests_are_alike(
    class: Class,
    asked: Next,
    middle: &mut Environment,
    headers: id,
    named: Next,
    env: &mut Environment,
    method: id,
    next: Next,
)
    requires
        call_ensures(alloc_with_zone, (class,), asked),
        call_ensures(after_reply, (middle, asked->Send_1, headers), named),
        call_ensures(after_reply, (env, named->StaticString_1, method), next),
    ensures
        sends(asked, Message::NewDictionary),
        final(middle)@ == old(middle)@,
        named matches Next::StaticString(text, _) && text@ == "GET"@,
        final(env)@ == old(env)@,
        next == (Next::Allocate {
            class,
            host: NSURLRequestHostObject {
                url: id(0),
                main_document_url: id(0),
                cache_policy: 0,
                timeout_interval: NSTimeInterval(0x404e_0000_0000_0000),
                network_service_type: 0,
                allows_cellular_access: true,
                handles_cookies: true,
                http_method: method,
                http_method_is_owned: false,
                http_body: id(0),
                http_body_stream: id(0),
                http_should_handle_cookies: true,
                http_should_use_pipelining: false,
                http_header_fields: headers,
            },
        }),
{
}

/// A new request is an object of its class that holds what it was made with, and is
/// returned.
pub proof fn new_requests_are_of_their_class(
    env: &mut Environment,
    class: Class,
    host: NSURLRequestHostObject,
    object: id,
    next: Next,
)
    requires
        call_ensures(finish_alloc, (env, class, host, object), next),
    ensures
        next == Next::Return(object),
        final(env)@.mem == with_word(old(env)@.mem, object.0, class.0),
        holds_now(
            old(env)@,
            object,
            host,
            (Model { mem: old(env)@.mem, ..final(env)@ }),
        ),
{
}

/// The objects of a list that are not `nil`.
pub open spec fn without_nil(list: Seq<id>) -> Seq<id>
    decreases list.len(),
{
    if list.len() == 0 {
        Seq::empty()
    } else if list[0].0 == 0 {
        without_nil(list.skip(1))
    } else {
        seq![list[0]] + without_nil(list.skip(1))
    }
}

/// What a request owns: its URLs, its method if that is its own, its body and the stream
/// of that, and its header fields.
pub open spec fn belongings(host: NSURLRequestHostObject) -> Seq<id> {
    without_nil(
        seq![host.url, host.main_document_url]
            + (if host.http_method_is_owned {
            seq![host.http_method]
        } else {
            Seq::<id>::empty()
        }) + seq![host.http_body, host.http_body_stream, host.http_header_fields],
    )
}

/// After the answer that is waited for, these objects are still to be released.
pub open spec fn will_release(then: Then, this: id, rest: Seq<id>) -> bool {
    then matches Then::Deallocating { this: kept, owned, next } && kept == this && to_release(owned, next)
        == rest
}

/// The request releases the first of these objects and goes on with the others, or, where
/// there are none, is no longer known and has its memory freed.
pub open spec fn gives_up(before: Model, this: id, rest: Seq<id>, after: Model, next: Next) -> bool {
    if rest.len() == 0 {
        &&& next == Next::Free(this)
        &&& after == Model { objects: before.objects.remove(this.0), ..before }
    } else {
        &&& after == before
        &&& next matches Next::Send(message, then)
        &&& message == Message::Release { object: rest[0] }
        &&& will_release(then, this, rest.skip(1))
    }
}

/// The objects to release are those of the list that are not `nil`.
proof fn lemma_to_release(owned: Owned, next: usize)
    ensures
        next <= 6 ==> to_release(owned, next) == without_nil(owned@.skip(next as int)),
    decreases 6 - next,
{
    if next < 6 {
        lemma_to_release(owned, (next + 1) as usize);
        let list = owned@.skip(next as int);
        assert(list.len() == 6 - next);
        assert(list.skip(1) =~= owned@.skip(next + 1));
    }
}

/// Leaving `nil` out goes piece by piece.
proof fn lemma_without_nil(one: Seq<id>, other: Seq<id>)
    ensures
        without_nil(one + other) == without_nil(one) + without_nil(other),
    decreases one.len(),
{
    if one.len() == 0 {
        assert(one + other =~= other);
        assert(without_nil(one) + without_nil(other) =~= without_nil(other));
    } else {
        lemma_without_nil(one.skip(1), other);
        assert((one + other).skip(1) =~= one.skip(1) + other);
        assert(without_nil(one + other) =~= without_nil(one) + without_nil(other));
    }
}

/// A request that is deallocated gives up all that it owns and nothing else, in order.
pub proof fn requests_give_up_what_they_own(
    env: &mut Environment,
    this: id,
    host: NSURLRequestHostObject,
    next: Next,
)
    requires
        holds(old(env)@, this, host),
        call_ensures(dealloc, (env, this), next),
    ensures
        gives_up(old(env)@, this, belongings(host), final(env)@, next),
{
    let owned = owned_by(host);
    lemma_to_release(owned, 0);
    dealloc_releases_all_that_is_owned(old(env)@, this, owned, 0);
    assert(owned@.skip(0) =~= owned@);
    let urls = seq![host.url, host.main_document_url];
    let method = if host.http_method_is_owned {
        seq![host.http_method]
    } else {
        Seq::<id>::empty()
    };
    let shown = if host.http_method_is_owned {
        seq![host.http_method]
    } else {
        seq![id(0)]
    };
    let rest = seq![host.http_body, host.http_body_stream, host.http_header_fields];
    assert(owned@ =~= urls + shown + rest);
    lemma_without_nil(urls + shown, rest);
    lemma_without_nil(urls, shown);
    lemma_without_nil(urls + method, rest);
    lemma_without_nil(urls, method);
    if !host.http_method_is_owned {
        assert(shown.skip(1) =~= Seq::<id>::empty());
    }
    assert(without_nil(shown) == without_nil(method));
}

/// Each answer lets a request that is deallocated go on with what it has not given up yet.
pub proof fn requests_go_on_giving_up(
    env: &mut Environment,
    then: Then,
    this: id,
    rest: Seq<id>,
    ignored: id,
    next: Next,
)
    requires
        will_release(then, this, rest),
        call_ensures(after_reply, (env, then, ignored), next),
    ensures
        gives_up(old(env)@, this, rest, final(env)@, next),
{
    if let Then::Deallocating { this: kept, owned, next: number } = then {
        dealloc_releases_all_that_is_owned(old(env)@, this, owned, number);
    }
}

} // verus!
