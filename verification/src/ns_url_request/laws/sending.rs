//! To whom the messages of requests go, and with which words.
use super::super::messages::{can_send, check_message, receiver, rest_of, selector_name, send_message, Message};
use super::super::{NSTimeInterval, NSURLRequestCachePolicy};
use crate::env::{Environment, Model};
use crate::laws::paths::{known_first, named_first, names_lead_to_the_first_class, names_lead_to_the_first_selector};
use crate::messages::{sent_as, Sent};
use crate::objc::{class_named, id, selector_named, SEL};
use vstd::prelude::*;

verus! {

/// A message in plain words: the class that it goes to by name, or else the object, the
/// name of its selector, and the words of its arguments.
pub struct Letter {
    pub class_name: Option<Seq<char>>,
    pub object: id,
    pub selector_name: Seq<char>,
    pub words: Seq<u32>,
}

/// A message without arguments to an object.
pub open spec fn plain(object: id, selector_name: Seq<char>) -> Letter {
    Letter { class_name: None, object, selector_name, words: Seq::empty() }
}

/// A message without arguments to a class by name.
pub open spec fn to_class(class_name: Seq<char>, selector_name: Seq<char>) -> Letter {
    Letter { class_name: Some(class_name), object: id(0), selector_name, words: Seq::empty() }
}

/// The words of a URL, a policy and an interval: the lower half of the interval first.
pub open spec fn words_of_url(
    url: id,
    cache_policy: NSURLRequestCachePolicy,
    timeout_interval: NSTimeInterval,
) -> Seq<u32> {
    seq![
        url.0,
        cache_policy,
        (timeout_interval.0 % 0x1_0000_0000) as u32,
        (timeout_interval.0 / 0x1_0000_0000) as u32,
    ]
}

/// A message in plain words.
pub open spec fn letter(message: Message) -> Letter {
    match message {
        Message::NewDictionary => to_class("NSMutableDictionary"@, "new"@),
        Message::AllocRequest { mutable } => if mutable {
            to_class("NSMutableURLRequest"@, "alloc"@)
        } else {
            to_class("NSURLRequest"@, "alloc"@)
        },
        Message::Alloc { class } => plain(class, "alloc"@),
        Message::RequestWithURL { class, url, cache_policy, timeout_interval } => Letter {
            words: words_of_url(url, cache_policy, timeout_interval),
            ..plain(class, "requestWithURL:cachePolicy:timeoutInterval:"@)
        },
        Message::InitWithURL { object, url, cache_policy, timeout_interval } => Letter {
            words: words_of_url(url, cache_policy, timeout_interval),
            ..plain(object, "initWithURL:cachePolicy:timeoutInterval:"@)
        },
        Message::Copy { object } => plain(object, "copy"@),
        Message::MutableCopy { object } => plain(object, "mutableCopy"@),
        Message::Description { object } => plain(object, "description"@),
        Message::Retain { object } => plain(object, "retain"@),
        Message::Release { object } => plain(object, "release"@),
        Message::Autorelease { object } => plain(object, "autorelease"@),
        Message::ObjectForKey { dictionary, key } => Letter {
            words: seq![key.0],
            ..plain(dictionary, "objectForKey:"@)
        },
        Message::SetObject { dictionary, object, key } => Letter {
            words: seq![object.0, key.0],
            ..plain(dictionary, "setObject:forKey:"@)
        },
        Message::RemoveObject { dictionary, key } => Letter {
            words: seq![key.0],
            ..plain(dictionary, "removeObjectForKey:"@)
        },
    }
}

/// The message goes to this object by this selector.
pub open spec fn is_addressed(model: Model, message: Message, object: id, selector: SEL) -> bool {
    &&& named_first(model.selectors, letter(message).selector_name, selector)
    &&& match letter(message).class_name {
        Some(name) => known_first(model.known_classes, name, object),
        None => object == letter(message).object,
    }
}

/// The name of the selector of a message is that of its plain words.
pub proof fn messages_have_their_selectors(message: &Message, result: &'static str)
    requires
        call_ensures(selector_name, (message,), result),
    ensures
        result@ == letter(*message).selector_name,
{
}

/// What a message is addressed to is what is looked up by name.
pub(crate) proof fn lemma_addressed(model: Model, message: Message, object: id, selector: SEL)
    requires
        is_addressed(model, message, object, selector),
    ensures
        can_send(model, message),
{
    names_lead_to_the_first_selector(model.selectors, letter(message).selector_name);
    if let Some(name) = letter(message).class_name {
        names_lead_to_the_first_class(model.known_classes, name);
    }
}

/// A message can be sent just if there is someone to whom it goes, and a selector.
pub proof fn messages_can_be_sent_that_are_addressed(env: &Environment, message: &Message, result: bool)
    requires
        call_ensures(check_message, (env, message), result),
    ensures
        result <==> exists|object: id, selector: SEL| #[trigger]
            is_addressed(env@, *message, object, selector),
{
    let model = env@;
    if result {
        names_lead_to_the_first_selector(model.selectors, letter(*message).selector_name);
        let selector = selector_named(model.selectors, letter(*message).selector_name)->0;
        let object = match letter(*message).class_name {
            Some(name) => {
                names_lead_to_the_first_class(model.known_classes, name);
                class_named(model.known_classes, name)->0
            },
            None => letter(*message).object,
        };
        assert(is_addressed(model, *message, object, selector));
    }
    if exists|object: id, selector: SEL| #[trigger] is_addressed(env@, *message, object, selector) {
        let (object, selector) = choose|object: id, selector: SEL| #[trigger]
            is_addressed(env@, *message, object, selector);
        lemma_addressed(model, *message, object, selector);
    }
}

/// The receiver of a message is the one that it is addressed to.
pub proof fn messages_have_their_receivers(
    env: &Environment,
    message: &Message,
    object: id,
    selector: SEL,
    result: id,
)
    requires
        is_addressed(env@, *message, object, selector),
        call_ensures(receiver, (env, message), result),
    ensures
        result == object,
{
    if let Some(name) = letter(*message).class_name {
        names_lead_to_the_first_class(env@.known_classes, name);
    }
}

/// A message is sent to the one that it is addressed to, by its selector and with its
/// words, and has the type of a method that takes them and returns what is waited for.
pub proof fn messages_are_sent_as_they_are_addressed(
    env: &mut Environment,
    message: Message,
    object: id,
    selector: SEL,
    sent: Sent,
)
    requires
        is_addressed(old(env)@, message, object, selector),
        call_ensures(send_message, (env, message), sent),
    ensures
        ({
            let before = old(env)@;
            let after = final(env)@;
            let words = letter(message).words;
            match message {
                Message::NewDictionary
                | Message::AllocRequest { .. }
                | Message::Alloc { .. }
                | Message::Copy { .. }
                | Message::MutableCopy { .. }
                | Message::Description { .. }
                | Message::Retain { .. }
                | Message::Autorelease { .. } => sent_as::<(id, (id, SEL))>(
                    before,
                    None,
                    object,
                    selector,
                    words,
                    after,
                    sent,
                ),
                Message::Release { .. } => sent_as::<((), (id, SEL))>(
                    before,
                    None,
                    object,
                    selector,
                    words,
                    after,
                    sent,
                ),
                Message::RequestWithURL { .. } | Message::InitWithURL { .. } => sent_as::<
                    (id, (id, SEL, id, u32, NSTimeInterval)),
                >(before, None, object, selector, words, after, sent),
                Message::ObjectForKey { .. } => sent_as::<(id, (id, SEL, id))>(
                    before,
                    None,
                    object,
                    selector,
                    words,
                    after,
                    sent,
                ),
                Message::SetObject { .. } => sent_as::<((), (id, SEL, id, id))>(
                    before,
                    None,
                    object,
                    selector,
                    words,
                    after,
                    sent,
                ),
                Message::RemoveObject { .. } => sent_as::<((), (id, SEL, id))>(
                    before,
                    None,
                    object,
                    selector,
                    words,
                    after,
                    sent,
                ),
            }
        }),
{
    names_lead_to_the_first_selector(old(env)@.selectors, letter(message).selector_name);
    if let Some(name) = letter(message).class_name {
        names_lead_to_the_first_class(old(env)@.known_classes, name);
    }
    assert(letter(message).words =~= rest_of(message));
}

} // verus!
