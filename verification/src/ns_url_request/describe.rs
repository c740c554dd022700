//! Describing requests.
use super::messages::Message;
use super::steps::{Next, Then, ThenText};
use super::{borrow, is_request, request};
use crate::env::Environment;
use crate::objc::{id, nil};
use vstd::prelude::*;

verus! {

/// What a description does with the answer to a message, or with a string.
#[derive(Debug)]
pub enum DescribeThen {
    DescribeUrl { method: String },
    DescriptionMade,
}

/// The text that describes a request.
pub open spec fn description_text(method: Seq<char>, url: Seq<char>) -> Seq<char> {
    "<NSURLRequest "@ + method + " "@ + url + ">"@
}

/// The description of a request is made of these texts.
pub open spec fn makes_description(method: Seq<char>, url: Seq<char>, next: Next) -> bool {
    next matches Next::MakeString(text, then) && text@ == description_text(method, url)
        && then == Then::Describe(DescribeThen::DescriptionMade)
}

/// How a description goes on once the text of the method is known.
pub open spec fn describing_url(method: Seq<char>, url: id, next: Next) -> bool {
    if url != nil() {
        next matches Next::Send(message, Then::Describe(DescribeThen::DescribeUrl { method: kept })) && message
            == Message::Description { object: url } && kept@ == method
    } else {
        makes_description(method, "<nil>"@, next)
    }
}

/// How a description goes on after an answer.
pub open spec fn described(then: DescribeThen, reply: id, next: Next) -> bool {
    match then {
        DescribeThen::DescribeUrl { method } => if reply != nil() {
            next == Next::ReadString(reply, ThenText::DescribeUrlText { method })
        } else {
            makes_description(method@, "<nil>"@, next)
        },
        DescribeThen::DescriptionMade => next == if reply != nil() {
            Next::Send(Message::Autorelease { object: reply }, Then::ReturnReply)
        } else {
            Next::Return(nil())
        },
    }
}

/// `-description`
pub fn description(env: &Environment, this: id) -> (next: Next)
    requires
        is_request(env@, this),
    ensures
        ({
            let host = request(env@, this);
            if host.http_method != nil() {
                next == Next::ReadString(
                    host.http_method,
                    (ThenText::DescribeMethodText { url: host.url }),
                )
            } else {
                describing_url("GET"@, host.url, next)
            }
        }),
{
    let host = borrow(env, this);
    if host.http_method != nil() {
        return Next::ReadString(host.http_method, ThenText::DescribeMethodText { url: host.url });
    }
    describe_url("GET".to_owned(), host.url)
}

/// Describes the URL of a request, after the method.
pub(crate) fn describe_url(method: String, url: id) -> (next: Next)
    ensures
        describing_url(method@, url, next),
{
    if url != nil() {
        return Next::Send(Message::Description { object: url }, Then::Describe(DescribeThen::DescribeUrl { method }));
    }
    make_description(method, "<nil>")
}

/// Puts the texts of a description together.
pub(crate) fn make_description(method: String, url: &str) -> (next: Next)
    ensures
        makes_description(method@, url@, next),
{
    let mut text = "<NSURLRequest ".to_owned();
    text.append(method.as_str());
    text.append(" ");
    text.append(url);
    text.append(">");
    Next::MakeString(text, Then::Describe(DescribeThen::DescriptionMade))
}

/// Goes on with a description.
pub(crate) fn after_describe(then: DescribeThen, reply: id) -> (next: Next)
    ensures
        described(then, reply, next),
{
    match then {
        DescribeThen::DescribeUrl { method } => {
            if reply != nil() {
                Next::ReadString(reply, ThenText::DescribeUrlText { method })
            } else {
                make_description(method, "<nil>")
            }
        },
        DescribeThen::DescriptionMade => {
            if reply != nil() {
                Next::Send(Message::Autorelease { object: reply }, Then::ReturnReply)
            } else {
                Next::Return(nil())
            }
        },
    }
}

} // verus!
