//! What requests hold after their URLs, their method, their body and its stream have been
//! set, and which messages are sent for that.
use super::super::messages::Message;
use super::super::set::{set_http_body, set_http_body_stream, set_http_method, set_main_document_url, set_url};
use super::super::steps::{after_reply, Next, Then};
use super::super::NSURLRequestHostObject;
use super::holding::{holds, holds_now};
use crate::env::Environment;
use crate::objc::id;
use vstd::prelude::*;

verus! {

/// The method sends this message and waits for its answer.
pub open spec fn sends(next: Next, message: Message) -> bool {
    next matches Next::Send(sent, _) && sent == message
}

/// The method sends this message, and is over when it is answered.
pub open spec fn sends_at_last(next: Next, message: Message) -> bool {
    next matches Next::Send(sent, then) && sent == message && then is Finish
}

/// A method that has nothing left to do changes nothing, and returns nothing, the answer
/// to its last message or `nil`, as it said.
pub proof fn last_answers_change_nothing(env: &mut Environment, then: Then, reply: id, next: Next)
    requires
        call_ensures(after_reply, (env, then, reply), next),
    ensures
        then is Finish ==> next is Finished && final(env)@ == old(env)@,
        then is ReturnReply ==> next == Next::Return(reply) && final(env)@ == old(env)@,
        then is ReturnNil ==> next == Next::Return(id(0)) && final(env)@ == old(env)@,
{
}

/// `nil` is no method, and is not set.
pub proof fn nil_is_not_set_as_a_method(this: id, next: Next)
    requires
        call_ensures(set_http_method, (this, id(0)), next),
    ensures
        next is Finished,
{
}

/// A method that is set is copied, and the request holds the copy as its own: whatever
/// else the request holds stays. The method that it had is released if it was the
/// request's own.
pub proof fn methods_are_copied_in(
    this: id,
    http_method: id,
    asked: Next,
    env: &mut Environment,
    host: NSURLRequestHostObject,
    copy: id,
    next: Next,
)
    requires
        http_method.0 != 0,
        call_ensures(set_http_method, (this, http_method), asked),
        holds(old(env)@, this, host),
        call_ensures(after_reply, (env, asked->Send_1, copy), next),
    ensures
        sends(asked, Message::Copy { object: http_method }),
        holds_now(
            old(env)@,
            this,
            (NSURLRequestHostObject { http_method: copy, http_method_is_owned: true, ..host }),
            final(env)@,
        ),
        if host.http_method_is_owned && host.http_method.0 != 0 {
            sends_at_last(next, Message::Release { object: host.http_method })
        } else {
            next is Finished
        },
{
}

/// A body that is set is copied, and the request holds the copy: whatever else the
/// request holds stays. The body that it had is released if there was one.
pub proof fn bodies_are_copied_in(
    start: &mut Environment,
    this: id,
    http_body: id,
    asked: Next,
    env: &mut Environment,
    host: NSURLRequestHostObject,
    copy: id,
    next: Next,
)
    requires
        http_body.0 != 0,
        call_ensures(set_http_body, (start, this, http_body), asked),
        holds(old(env)@, this, host),
        call_ensures(after_reply, (env, asked->Send_1, copy), next),
    ensures
        final(start)@ == old(start)@,
        sends(asked, Message::Copy { object: http_body }),
        holds_now(
            old(env)@,
            this,
            (NSURLRequestHostObject { http_body: copy, ..host }),
            final(env)@,
        ),
        if host.http_body.0 != 0 {
            sends_at_last(next, Message::Release { object: host.http_body })
        } else {
            next is Finished
        },
{
}

/// Setting `nil` as the body leaves the request without one, and releases the one that
/// it had.
pub proof fn bodies_are_given_up(env: &mut Environment, this: id, host: NSURLRequestHostObject, next: Next)
    requires
        holds(old(env)@, this, host),
        call_ensures(set_http_body, (env, this, id(0)), next),
    ensures
        holds_now(
            old(env)@,
            this,
            (NSURLRequestHostObject { http_body: id(0), ..host }),
            final(env)@,
        ),
        if host.http_body.0 != 0 {
            sends_at_last(next, Message::Release { object: host.http_body })
        } else {
            next is Finished
        },
{
}

/// A URL that is set takes the place of another: that one is released first, while the
/// request still holds it.
pub proof fn urls_before_are_released(env: &mut Environment, this: id, host: NSURLRequestHostObject, url: id, next: Next)
    requires
        holds(old(env)@, this, host),
    ensures
        call_ensures(set_url, (env, this, url), next) && host.url.0 != 0 ==> final(env)@ == old(env)@
            && sends(next, Message::Release { object: host.url }),
        call_ensures(set_main_document_url, (env, this, url), next) && host.main_document_url.0 != 0
            ==> final(env)@ == old(env)@ && sends(
            next,
            Message::Release { object: host.main_document_url },
        ),
{
}

/// Where there is no URL to release, or once it is released, the URL that is set is
/// copied.
pub proof fn urls_are_copied(
    start: &mut Environment,
    this: id,
    former: NSURLRequestHostObject,
    url: id,
    asked: Next,
    env: &mut Environment,
    ignored: id,
    next: Next,
)
    requires
        url.0 != 0,
        holds(old(start)@, this, former),
    ensures
        call_ensures(set_url, (start, this, url), asked) && former.url.0 == 0 ==> final(start)@ == old(start)@ && sends(asked, Message::Copy { object: url }),
        call_ensures(set_url, (start, this, url), asked) && former.url.0 != 0 && call_ensures(
            after_reply,
            (env, asked->Send_1, ignored),
            next,
        ) ==> final(env)@ == old(env)@ && sends(next, Message::Copy { object: url }),
        call_ensures(set_main_document_url, (start, this, url), asked) && former.main_document_url.0
            == 0 ==> final(start)@ == old(start)@ && sends(asked, Message::Copy { object: url }),
        call_ensures(set_main_document_url, (start, this, url), asked) && former.main_document_url.0
            != 0 && call_ensures(after_reply, (env, asked->Send_1, ignored), next) ==> final(env)@
            == old(env)@ && sends(next, Message::Copy { object: url }),
{
}

/// A request holds the copy of the URL that was set, and all else that it held: also the
/// other one of its URLs.
pub proof fn urls_are_copied_in(
    start: &mut Environment,
    this: id,
    former: NSURLRequestHostObject,
    url: id,
    asked: Next,
    middle: &mut Environment,
    ignored: id,
    released: Next,
    env: &mut Environment,
    host: NSURLRequestHostObject,
    copy: id,
    next: Next,
)
    requires
        url.0 != 0,
        holds(old(start)@, this, former),
        call_ensures(set_url, (start, this, url), asked),
        former.url.0 != 0 ==> call_ensures(after_reply, (middle, asked->Send_1, ignored), released),
        former.url.0 == 0 ==> released == asked,
        holds(old(env)@, this, host),
        call_ensures(after_reply, (env, released->Send_1, copy), next),
    ensures
        holds_now(old(env)@, this, (NSURLRequestHostObject { url: copy, ..host }), final(env)@),
        next is Finished,
{
}

/// A request holds the copy of the URL of a main document that was set, and all else that
/// it held: also its own URL.
pub proof fn main_document_urls_are_copied_in(
    start: &mut Environment,
    this: id,
    former: NSURLRequestHostObject,
    url: id,
    asked: Next,
    middle: &mut Environment,
    ignored: id,
    released: Next,
    env: &mut Environment,
    host: NSURLRequestHostObject,
    copy: id,
    next: Next,
)
    requires
        url.0 != 0,
        holds(old(start)@, this, former),
        call_ensures(set_main_document_url, (start, this, url), asked),
        former.main_document_url.0 != 0 ==> call_ensures(
            after_reply,
            (middle, asked->Send_1, ignored),
            released,
        ),
        former.main_document_url.0 == 0 ==> released == asked,
        holds(old(env)@, this, host),
        call_ensures(after_reply, (env, released->Send_1, copy), next),
    ensures
        holds_now(
            old(env)@,
            this,
            (NSURLRequestHostObject { main_document_url: copy, ..host }),
            final(env)@,
        ),
        next is Finished,
{
}

/// Setting `nil` as a URL leaves the request without one: at once where it had none, and
/// else when the one that it had is released.
pub proof fn urls_are_given_up(
    start: &mut Environment,
    this: id,
    former: NSURLRequestHostObject,
    asked: Next,
    env: &mut Environment,
    host: NSURLRequestHostObject,
    ignored: id,
    next: Next,
)
    requires
        holds(old(start)@, this, former),
        holds(old(env)@, this, host),
    ensures
        call_ensures(set_url, (start, this, id(0)), asked) && former.url.0 == 0 ==> final(start)@
            == old(start)@ && asked is Finished,
        call_ensures(set_url, (start, this, id(0)), asked) && former.url.0 != 0 && call_ensures(
            after_reply,
            (env, asked->Send_1, ignored),
            next,
        ) ==> next is Finished && holds_now(
            old(env)@,
            this,
            (NSURLRequestHostObject { url: id(0), ..host }),
            final(env)@,
        ),
        call_ensures(set_main_document_url, (start, this, id(0)), asked)
            && former.main_document_url.0 == 0 ==> final(start)@ == old(start)@ && asked is Finished,
        call_ensures(set_main_document_url, (start, this, id(0)), asked)
            && former.main_document_url.0 != 0 && call_ensures(
            after_reply,
            (env, asked->Send_1, ignored),
            next,
        ) ==> next is Finished && holds_now(
            old(env)@,
            this,
            (NSURLRequestHostObject { main_document_url: id(0), ..host }),
            final(env)@,
        ),
{
    assert(former.url.0 == 0 ==> former == NSURLRequestHostObject { url: id(0), ..former });
    assert(former.main_document_url.0 == 0 ==> former == NSURLRequestHostObject {
        main_document_url: id(0),
        ..former
    });
    assert(old(start)@.objects.insert(this.0, old(start)@.objects[this.0]) =~= old(start)@.objects);
}

/// A stream that is set takes the place of another, which is released first, and is then
/// retained and held as it is: whatever else the request holds stays.
pub proof fn streams_are_shared(
    start: &mut Environment,
    this: id,
    former: NSURLRequestHostObject,
    stream: id,
    asked: Next,
    middle: &mut Environment,
    ignored: id,
    released: Next,
    env: &mut Environment,
    host: NSURLRequestHostObject,
    retained: id,
    next: Next,
)
    requires
        stream.0 != 0,
        holds(old(start)@, this, former),
        call_ensures(set_http_body_stream, (start, this, stream), asked),
        former.http_body_stream.0 != 0 ==> call_ensures(
            after_reply,
            (middle, asked->Send_1, ignored),
            released,
        ),
        former.http_body_stream.0 == 0 ==> released == asked,
        holds(old(env)@, this, host),
        call_ensures(after_reply, (env, released->Send_1, retained), next),
    ensures
        final(start)@ == old(start)@,
        former.http_body_stream.0 != 0 ==> final(middle)@ == old(middle)@ && sends(
            asked,
            Message::Release { object: former.http_body_stream },
        ),
        sends(released, Message::Retain { object: stream }),
        holds_now(
            old(env)@,
            this,
            (NSURLRequestHostObject { http_body_stream: stream, ..host }),
            final(env)@,
        ),
        next is Finished,
{
}

/// Setting `nil` as the stream leaves the request without one: at once where it had none,
/// and else when the one that it had is released.
pub proof fn streams_are_given_up(
    start: &mut Environment,
    this: id,
    former: NSURLRequestHostObject,
    asked: Next,
    env: &mut Environment,
    host: NSURLRequestHostObject,
    ignored: id,
    next: Next,
)
    requires
        holds(old(start)@, this, former),
        call_ensures(set_http_body_stream, (start, this, id(0)), asked),
        holds(old(env)@, this, host),
        former.http_body_stream.0 != 0 ==> call_ensures(
            after_reply,
            (env, asked->Send_1, ignored),
            next,
        ),
    ensures
        final(start)@ == old(start)@,
        if former.http_body_stream.0 == 0 {
            asked is Finished
        } else {
            &&& sends(asked, Message::Release { object: former.http_body_stream })
            &&& next is Finished
            &&& holds_now(
                old(env)@,
                this,
                NSURLRequestHostObject { http_body_stream: id(0), ..host },
                final(env)@,
            )
        },
{
    assert(former.http_body_stream.0 == 0 ==> former == NSURLRequestHostObject {
        http_body_stream: id(0),
        ..former
    });
    assert(old(start)@.objects.insert(this.0, old(start)@.objects[this.0]) =~= old(start)@.objects);
}

} // verus!
