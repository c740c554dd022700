//! How requests are copied, from the first message to the last.
use super::super::copy::{copy, mutable_copy, CopyThen};
use super::super::messages::Message;
use super::super::steps::{after_reply, Next, Then};
use super::super::NSURLRequestHostObject;
use super::change::sends;
use super::holding::{holds, holds_now};
use crate::env::Environment;
use crate::objc::id;
use vstd::prelude::*;

verus! {

/// A part of a request that its copy gets by a message.
pub enum Part {
    Method,
    Body,
    Stream,
    Headers,
}

/// The parts, in the order in which a copy gets them.
pub open spec fn part(number: int) -> Part {
    if number == 0 {
        Part::Method
    } else if number == 1 {
        Part::Body
    } else if number == 2 {
        Part::Stream
    } else {
        Part::Headers
    }
}

/// The request has the part of a number: a static string is no method of its own.
pub open spec fn has_part(host: NSURLRequestHostObject, number: int) -> bool {
    match part(number) {
        Part::Method => host.http_method.0 != 0 && host.http_method_is_owned,
        Part::Body => host.http_body.0 != 0,
        Part::Stream => host.http_body_stream.0 != 0,
        Part::Headers => host.http_header_fields.0 != 0,
    }
}

/// The first part, from a number on, that the request has: number four is none.
pub open spec fn is_next_part(host: NSURLRequestHostObject, from: int, number: int) -> bool {
    &&& from <= number <= 4
    &&& forall|between: int| from <= between < number ==> !(#[trigger] has_part(host, between))
    &&& number < 4 ==> has_part(host, number)
}

/// The message by which a new request gets the part of a number.
pub open spec fn message_for(
    source: NSURLRequestHostObject,
    new_host: NSURLRequestHostObject,
    number: int,
) -> Message {
    match part(number) {
        Part::Method => Message::Copy { object: source.http_method },
        Part::Body => Message::Copy { object: source.http_body },
        Part::Stream => Message::Retain { object: source.http_body_stream },
        Part::Headers => if new_host.http_header_fields.0 != 0 {
            Message::Release { object: new_host.http_header_fields }
        } else {
            Message::MutableCopy { object: source.http_header_fields }
        },
    }
}

/// The answer that is waited for is that for the part of a number.
pub open spec fn waits_for(then: Then, new: id, source: NSURLRequestHostObject, number: int) -> bool {
    match part(number) {
        Part::Method => then == Then::Copy(CopyThen::Method { new, source }),
        Part::Body => then == Then::Copy(CopyThen::Body { new, source }),
        Part::Stream => then == Then::Copy(CopyThen::Stream { new, source }),
        Part::Headers => then == Then::Copy(CopyThen::Headers { new }),
    }
}

/// The new request with the part of a number.
pub open spec fn with_part(
    host: NSURLRequestHostObject,
    source: NSURLRequestHostObject,
    number: int,
    reply: id,
) -> NSURLRequestHostObject {
    match part(number) {
        Part::Method => NSURLRequestHostObject { http_method: reply, http_method_is_owned: true, ..host },
        Part::Body => NSURLRequestHostObject { http_body: reply, ..host },
        Part::Stream => NSURLRequestHostObject { http_body_stream: source.http_body_stream, ..host },
        Part::Headers => NSURLRequestHostObject { http_header_fields: reply, ..host },
    }
}

/// The copying goes on with the first part, from a number on, that the source has, or the
/// new request is returned where there is none. Header fields that the new request has
/// from elsewhere are released before it gets those of the source.
pub open spec fn goes_on(
    next: Next,
    new: id,
    source: NSURLRequestHostObject,
    new_host: NSURLRequestHostObject,
    number: int,
) -> bool {
    if number == 4 {
        next == Next::Return(new)
    } else {
        &&& next matches Next::Send(message, then)
        &&& message == message_for(source, new_host, number)
        &&& if message is Release {
            then == Then::Copy(CopyThen::OldHeaders { new, source })
        } else {
            waits_for(then, new, source, number)
        }
    }
}

/// There always is a next part, or none.
pub proof fn there_is_a_next_part(host: NSURLRequestHostObject, from: int) -> (number: int)
    requires
        0 <= from <= 4,
    ensures
        is_next_part(host, from, number),
    decreases 4 - from,
{
    if from == 4 || has_part(host, from) {
        from
    } else {
        there_is_a_next_part(host, from + 1)
    }
}

/// Which parts a request has.
proof fn lemma_parts(host: NSURLRequestHostObject)
    ensures
        has_part(host, 0) == (host.http_method.0 != 0 && host.http_method_is_owned),
        has_part(host, 1) == (host.http_body.0 != 0),
        has_part(host, 2) == (host.http_body_stream.0 != 0),
        has_part(host, 3) == (host.http_header_fields.0 != 0),
{
}

/// The copy of a request begins as a new one, mutable or not as it was asked for, which is
/// initialized with the very URL, policy and interval of its source.
pub proof fn copies_are_initialized_like_their_source(
    this: id,
    mutable: bool,
    asked: Next,
    env: &mut Environment,
    source: NSURLRequestHostObject,
    allocated: id,
    next: Next,
)
    requires
        mutable ==> call_ensures(mutable_copy, (this,), asked),
        !mutable ==> call_ensures(copy, (this,), asked),
        holds(old(env)@, this, source),
        call_ensures(after_reply, (env, asked->Send_1, allocated), next),
    ensures
        sends(asked, Message::AllocRequest { mutable }),
        final(env)@ == old(env)@,
        sends(
            next,
            (Message::InitWithURL {
                object: allocated,
                url: source.url,
                cache_policy: source.cache_policy,
                timeout_interval: source.timeout_interval,
            }),
        ),
{
}

/// The copy, once it is initialized, has the settings of its source as that was when the
/// copy was allocated, and next to them all that it held. Then it gets the parts of the
/// source. If the initialization answers `nil`, so does the copying.
pub proof fn copies_get_the_settings_of_their_source(
    this: id,
    mutable: bool,
    asked: Next,
    middle: &mut Environment,
    source: NSURLRequestHostObject,
    allocated: id,
    initializing: Next,
    env: &mut Environment,
    new: id,
    host: NSURLRequestHostObject,
    next: Next,
    number: int,
)
    requires
        mutable ==> call_ensures(mutable_copy, (this,), asked),
        !mutable ==> call_ensures(copy, (this,), asked),
        holds(old(middle)@, this, source),
        call_ensures(after_reply, (middle, asked->Send_1, allocated), initializing),
        new.0 != 0 ==> holds(old(env)@, new, host),
        call_ensures(after_reply, (env, initializing->Send_1, new), next),
        is_next_part(source, 0, number),
    ensures
        if new.0 == 0 {
            &&& next == Next::Return(id(0))
            &&& final(env)@ == old(env)@
        } else {
            let settled = NSURLRequestHostObject {
                network_service_type: source.network_service_type,
                allows_cellular_access: source.allows_cellular_access,
                http_should_handle_cookies: source.http_should_handle_cookies,
                http_should_use_pipelining: source.http_should_use_pipelining,
                ..host
            };
            &&& holds_now(old(env)@, new, settled, final(env)@)
            &&& goes_on(next, new, source, settled, number)
        },
{
    lemma_parts(source);
}

/// Each part comes into its place in the copy, next to all that it held, and the copying
/// goes on with the next part that the source has. After the last one the copy is
/// returned.
pub proof fn copies_get_part_after_part(
    env: &mut Environment,
    then: Then,
    new: id,
    source: NSURLRequestHostObject,
    number: int,
    host: NSURLRequestHostObject,
    reply: id,
    next: Next,
    further: int,
)
    requires
        0 <= number < 4,
        waits_for(then, new, source, number),
        holds(old(env)@, new, host),
        call_ensures(after_reply, (env, then, reply), next),
        is_next_part(source, number + 1, further),
    ensures
        holds_now(old(env)@, new, with_part(host, source, number, reply), final(env)@),
        goes_on(next, new, source, with_part(host, source, number, reply), further),
{
    lemma_parts(source);
}

/// Once the header fields that the copy had from elsewhere are released, those of the
/// source are copied.
pub proof fn header_fields_are_copied_after_the_release(
    env: &mut Environment,
    new: id,
    source: NSURLRequestHostObject,
    ignored: id,
    next: Next,
)
    requires
        call_ensures(
            after_reply,
            (env, Then::Copy(CopyThen::OldHeaders { new, source }), ignored),
            next,
        ),
    ensures
        final(env)@ == old(env)@,
        next matches Next::Send(message, then) && message == (Message::MutableCopy {
            object: source.http_header_fields,
        }) && waits_for(then, new, source, 3),
{
}

} // verus!
