//! The messages that the methods of a request send.
use super::{NSTimeInterval, NSURLRequestCachePolicy};
use crate::args::RestArgs;
use crate::abi::plain_values_are_returned_in_registers;
use crate::env::{Environment, Model};
use crate::messages::{msg, msg_class, sent_as, Sent};
use crate::objc::{class_named, id, selector_named, Class, SEL};
use crate::signature::MsgSendSignature;
use vstd::prelude::*;

verus! {

/// A message that a method of a request sends.
#[derive(Clone, Copy, Debug, PartialEq, Eq, Structural)]
pub enum Message {
    /// `[NSMutableDictionary new]`
    NewDictionary,
    /// `[NSURLRequest alloc]` or `[NSMutableURLRequest alloc]`
    AllocRequest { mutable: bool },
    /// `[class alloc]`
    Alloc { class: Class },
    /// `[class requestWithURL:cachePolicy:timeoutInterval:]`
    RequestWithURL {
        class: Class,
        url: id,
        cache_policy: NSURLRequestCachePolicy,
        timeout_interval: NSTimeInterval,
    },
    /// `[object initWithURL:cachePolicy:timeoutInterval:]`
    InitWithURL {
        object: id,
        url: id,
        cache_policy: NSURLRequestCachePolicy,
        timeout_interval: NSTimeInterval,
    },
    /// `[object copy]`
    Copy { object: id },
    /// `[object mutableCopy]`
    MutableCopy { object: id },
    /// `[object description]`
    Description { object: id },
    /// `[object retain]`
    Retain { object: id },
    /// `[object release]`
    Release { object: id },
    /// `[object autorelease]`
    Autorelease { object: id },
    /// `[dictionary objectForKey:]`
    ObjectForKey { dictionary: id, key: id },
    /// `[dictionary setObject:forKey:]`
    SetObject { dictionary: id, object: id, key: id },
    /// `[dictionary removeObjectForKey:]`
    RemoveObject { dictionary: id, key: id },
}

/// The name of the class that a message goes to, if it goes to a class by name.
pub open spec fn class_name_of(message: Message) -> Option<Seq<char>> {
    match message {
        Message::NewDictionary => Some("NSMutableDictionary"@),
        Message::AllocRequest { mutable: false } => Some("NSURLRequest"@),
        Message::AllocRequest { mutable: true } => Some("NSMutableURLRequest"@),
        _ => None,
    }
}

/// The receiver of a message.
pub open spec fn receiver_of(model: Model, message: Message) -> id {
    match message {
        Message::NewDictionary | Message::AllocRequest { .. } => class_named(
            model.known_classes,
            class_name_of(message)->0,
        )->0,
        Message::Alloc { class } => class,
        Message::RequestWithURL { class, .. } => class,
        Message::InitWithURL { object, .. } => object,
        Message::Copy { object } => object,
        Message::MutableCopy { object } => object,
        Message::Description { object } => object,
        Message::Retain { object } => object,
        Message::Release { object } => object,
        Message::Autorelease { object } => object,
        Message::ObjectForKey { dictionary, .. } => dictionary,
        Message::SetObject { dictionary, .. } => dictionary,
        Message::RemoveObject { dictionary, .. } => dictionary,
    }
}

/// The name of the selector of a message.
pub open spec fn selector_name_of(message: Message) -> Seq<char> {
    match message {
        Message::NewDictionary => "new"@,
        Message::AllocRequest { .. } | Message::Alloc { .. } => "alloc"@,
        Message::RequestWithURL { .. } => "requestWithURL:cachePolicy:timeoutInterval:"@,
        Message::InitWithURL { .. } => "initWithURL:cachePolicy:timeoutInterval:"@,
        Message::Copy { .. } => "copy"@,
        Message::MutableCopy { .. } => "mutableCopy"@,
        Message::Description { .. } => "description"@,
        Message::Retain { .. } => "retain"@,
        Message::Release { .. } => "release"@,
        Message::Autorelease { .. } => "autorelease"@,
        Message::ObjectForKey { .. } => "objectForKey:"@,
        Message::SetObject { .. } => "setObject:forKey:"@,
        Message::RemoveObject { .. } => "removeObjectForKey:"@,
    }
}

/// The two words of an interval, as they are passed: the lower one first.
pub open spec fn interval_words(interval: NSTimeInterval) -> Seq<u32> {
    seq![(interval.0 % 0x1_0000_0000) as u32, (interval.0 / 0x1_0000_0000) as u32]
}

/// The words of a URL, a policy and an interval, as they are passed.
pub open spec fn url_words(
    url: id,
    cache_policy: NSURLRequestCachePolicy,
    timeout_interval: NSTimeInterval,
) -> Seq<u32> {
    seq![url.0, cache_policy] + interval_words(timeout_interval)
}

/// The words of the arguments of a message after the selector.
pub open spec fn rest_of(message: Message) -> Seq<u32> {
    match message {
        Message::RequestWithURL { url, cache_policy, timeout_interval, .. } => url_words(
            url,
            cache_policy,
            timeout_interval,
        ),
        Message::InitWithURL { url, cache_policy, timeout_interval, .. } => url_words(
            url,
            cache_policy,
            timeout_interval,
        ),
        Message::ObjectForKey { key, .. } => seq![key.0],
        Message::SetObject { object, key, .. } => seq![object.0, key.0],
        Message::RemoveObject { key, .. } => seq![key.0],
        _ => Seq::empty(),
    }
}

/// The runtime knows the selector of a message, and its receiver if that is a class
/// by name.
pub open spec fn can_send(model: Model, message: Message) -> bool {
    &&& selector_named(model.selectors, selector_name_of(message)) is Some
    &&& class_name_of(message) is Some ==> class_named(
        model.known_classes,
        class_name_of(message)->0,
    ) is Some
}

/// A message of the signature `S` was sent like this.
pub open spec fn message_sent_as<S: MsgSendSignature>(
    before: Model,
    message: Message,
    after: Model,
    sent: Sent,
) -> bool {
    sent_as::<S>(
        before,
        None,
        receiver_of(before, message),
        selector_named(before.selectors, selector_name_of(message))->0,
        rest_of(message),
        after,
        sent,
    )
}

/// What sending a message leads to.
pub open spec fn message_outcome(before: Model, message: Message, after: Model, sent: Sent) -> bool {
    match message {
        Message::RequestWithURL { .. } | Message::InitWithURL { .. } => message_sent_as::<
            (id, (id, SEL, id, NSURLRequestCachePolicy, NSTimeInterval)),
        >(before, message, after, sent),
        Message::Release { .. } => message_sent_as::<((), (id, SEL))>(before, message, after, sent),
        Message::ObjectForKey { .. } => message_sent_as::<(id, (id, SEL, id))>(
            before,
            message,
            after,
            sent,
        ),
        Message::SetObject { .. } => message_sent_as::<((), (id, SEL, id, id))>(
            before,
            message,
            after,
            sent,
        ),
        Message::RemoveObject { .. } => message_sent_as::<((), (id, SEL, id))>(
            before,
            message,
            after,
            sent,
        ),
        _ => message_sent_as::<(id, (id, SEL))>(before, message, after, sent),
    }
}

/// The name of the selector of a message.
pub fn selector_name(message: &Message) -> (name: &'static str)
    ensures
        name@ == selector_name_of(*message),
{
    match message {
        Message::NewDictionary => "new",
        Message::AllocRequest { .. } | Message::Alloc { .. } => "alloc",
        Message::RequestWithURL { .. } => "requestWithURL:cachePolicy:timeoutInterval:",
        Message::InitWithURL { .. } => "initWithURL:cachePolicy:timeoutInterval:",
        Message::Copy { .. } => "copy",
        Message::MutableCopy { .. } => "mutableCopy",
        Message::Description { .. } => "description",
        Message::Retain { .. } => "retain",
        Message::Release { .. } => "release",
        Message::Autorelease { .. } => "autorelease",
        Message::ObjectForKey { .. } => "objectForKey:",
        Message::SetObject { .. } => "setObject:forKey:",
        Message::RemoveObject { .. } => "removeObjectForKey:",
    }
}

/// Whether the runtime knows all that a message needs.
pub fn check_message(env: &Environment, message: &Message) -> (result: bool)
    ensures
        result == can_send(env@, *message),
{
    let class_known = match message {
        Message::NewDictionary => env.objc.lookup_known_class("NSMutableDictionary").is_some(),
        Message::AllocRequest { mutable: false } => env.objc.lookup_known_class("NSURLRequest").is_some(),
        Message::AllocRequest { mutable: true } => env.objc.lookup_known_class("NSMutableURLRequest").is_some(),
        _ => true,
    };
    class_known && env.objc.lookup_selector(selector_name(message)).is_some()
}

/// The receiver of a message.
pub fn receiver(env: &Environment, message: &Message) -> (result: id)
    requires
        can_send(env@, *message),
    ensures
        result == receiver_of(env@, *message),
{
    match message {
        Message::NewDictionary => env.objc.lookup_known_class("NSMutableDictionary").unwrap(),
        Message::AllocRequest { mutable: false } => env.objc.lookup_known_class("NSURLRequest").unwrap(),
        Message::AllocRequest { mutable: true } => env.objc.lookup_known_class("NSMutableURLRequest").unwrap(),
        Message::Alloc { class } => *class,
        Message::RequestWithURL { class, .. } => *class,
        Message::InitWithURL { object, .. } => *object,
        Message::Copy { object } => *object,
        Message::MutableCopy { object } => *object,
        Message::Description { object } => *object,
        Message::Retain { object } => *object,
        Message::Release { object } => *object,
        Message::Autorelease { object } => *object,
        Message::ObjectForKey { dictionary, .. } => *dictionary,
        Message::SetObject { dictionary, .. } => *dictionary,
        Message::RemoveObject { dictionary, .. } => *dictionary,
    }
}

/// Sends a message of two arguments and an interval, which is passed as two words.
fn send_with_url(
    env: &mut Environment,
    receiver: id,
    name: &str,
    url: id,
    cache_policy: NSURLRequestCachePolicy,
    timeout_interval: NSTimeInterval,
) -> (sent: Sent)
    requires
        old(env)@.wf(),
        selector_named(old(env)@.selectors, name@) is Some,
    ensures
        sent_as::<(id, (id, SEL, id, NSURLRequestCachePolicy, NSTimeInterval))>(
            old(env)@,
            None,
            receiver,
            selector_named(old(env)@.selectors, name@)->0,
            url_words(url, cache_policy, timeout_interval),
            final(env)@,
            sent,
        ),
        final(env)@.wf(),
{
    proof {
        plain_values_are_returned_in_registers();
    }
    let args = (url, cache_policy, timeout_interval);
    assert(args.words() =~= url_words(url, cache_policy, timeout_interval));
    msg::<id, (id, NSURLRequestCachePolicy, NSTimeInterval)>(env, receiver, name, args)
}

/// Sends a message without arguments that returns an object.
fn send_plain(env: &mut Environment, receiver: id, name: &str) -> (sent: Sent)
    requires
        old(env)@.wf(),
        selector_named(old(env)@.selectors, name@) is Some,
    ensures
        sent_as::<(id, (id, SEL))>(
            old(env)@,
            None,
            receiver,
            selector_named(old(env)@.selectors, name@)->0,
            Seq::empty(),
            final(env)@,
            sent,
        ),
        final(env)@.wf(),
{
    proof {
        plain_values_are_returned_in_registers();
    }
    msg::<id, ()>(env, receiver, name, ())
}

/// Sends a message without arguments to a class by name.
fn send_to_class(env: &mut Environment, class: &str, name: &str) -> (sent: Sent)
    requires
        old(env)@.wf(),
        class_named(old(env)@.known_classes, class@) is Some,
        selector_named(old(env)@.selectors, name@) is Some,
    ensures
        sent_as::<(id, (id, SEL))>(
            old(env)@,
            None,
            class_named(old(env)@.known_classes, class@)->0,
            selector_named(old(env)@.selectors, name@)->0,
            Seq::empty(),
            final(env)@,
            sent,
        ),
        final(env)@.wf(),
{
    proof {
        plain_values_are_returned_in_registers();
    }
    msg_class::<id, ()>(env, class, name, ())
}

/// Sends a message of a request's method.
pub fn send_message(env: &mut Environment, message: Message) -> (sent: Sent)
    requires
        old(env)@.wf(),
        can_send(old(env)@, message),
    ensures
        message_outcome(old(env)@, message, final(env)@, sent),
        final(env)@.wf(),
{
    proof {
        plain_values_are_returned_in_registers();
    }
    match message {
        Message::NewDictionary => send_to_class(env, "NSMutableDictionary", "new"),
        Message::AllocRequest { mutable } => if mutable {
            send_to_class(env, "NSMutableURLRequest", "alloc")
        } else {
            send_to_class(env, "NSURLRequest", "alloc")
        },
        Message::Alloc { class } => send_plain(env, class, "alloc"),
        Message::RequestWithURL { class, url, cache_policy, timeout_interval } => send_with_url(
            env,
            class,
            "requestWithURL:cachePolicy:timeoutInterval:",
            url,
            cache_policy,
            timeout_interval,
        ),
        Message::InitWithURL { object, url, cache_policy, timeout_interval } => send_with_url(
            env,
            object,
            "initWithURL:cachePolicy:timeoutInterval:",
            url,
            cache_policy,
            timeout_interval,
        ),
        Message::Copy { object } => send_plain(env, object, "copy"),
        Message::MutableCopy { object } => send_plain(env, object, "mutableCopy"),
        Message::Description { object } => send_plain(env, object, "description"),
        Message::Retain { object } => send_plain(env, object, "retain"),
        Message::Release { object } => msg::<(), ()>(env, object, "release", ()),
        Message::Autorelease { object } => send_plain(env, object, "autorelease"),
        Message::ObjectForKey { dictionary, key } => {
            let args = (key,);
            assert(args.words() =~= rest_of(message));
            msg::<id, (id,)>(env, dictionary, "objectForKey:", args)
        },
        Message::SetObject { dictionary, object, key } => {
            let args = (object, key);
            assert(args.words() =~= rest_of(message));
            msg::<(), (id, id)>(env, dictionary, "setObject:forKey:", args)
        },
        Message::RemoveObject { dictionary, key } => {
            let args = (key,);
            assert(args.words() =~= rest_of(message));
            msg::<(), (id,)>(env, dictionary, "removeObjectForKey:", args)
        },
    }
}

} // verus!
