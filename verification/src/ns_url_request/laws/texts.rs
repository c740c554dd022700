//! What becomes of the header fields of requests, and how requests are described.
use super::super::describe::description;
use super::super::headers::{add_value, set_all_http_header_fields, set_value, value_for_http_header_field};
use super::super::messages::Message;
use super::super::steps::{after_reply, after_text, Next, Then};
use super::super::NSURLRequestHostObject;
use super::change::{sends, sends_at_last};
use super::holding::{holds, holds_now};
use crate::env::Environment;
use crate::objc::id;
use vstd::prelude::*;

verus! {

/// The value of a header field is what the dictionary of the request has for it.
pub proof fn values_are_looked_up(
    env: &Environment,
    this: id,
    host: NSURLRequestHostObject,
    field: id,
    next: Next,
)
    requires
        holds(env@, this, host),
        call_ensures(value_for_http_header_field, (env, this, field), next),
    ensures
        next == Next::Send(
            (Message::ObjectForKey { dictionary: host.http_header_fields, key: field }),
            Then::ReturnReply,
        ),
{
}

/// A value that is set for a header field is put in the dictionary of the request, and
/// `nil` takes the field out of it. For `nil` as the field nothing is done.
pub proof fn values_are_set(
    env: &Environment,
    this: id,
    host: NSURLRequestHostObject,
    value: id,
    field: id,
    next: Next,
)
    requires
        holds(env@, this, host),
        call_ensures(set_value, (env, this, value, field), next),
    ensures
        if field.0 == 0 {
            next is Finished
        } else if value.0 == 0 {
            sends_at_last(
                next,
                Message::RemoveObject { dictionary: host.http_header_fields, key: field },
            )
        } else {
            sends_at_last(
                next,
                Message::SetObject {
                    dictionary: host.http_header_fields,
                    object: value,
                    key: field,
                },
            )
        },
{
}

/// A value that is added to a header field is looked for first. If there is none, the
/// value is put in the dictionary. For `nil` as the value or as the field nothing is
/// done.
pub proof fn first_values_are_put_in(
    start: &Environment,
    this: id,
    host: NSURLRequestHostObject,
    value: id,
    field: id,
    asked: Next,
    env: &mut Environment,
    next: Next,
)
    requires
        holds(start@, this, host),
        call_ensures(add_value, (start, this, value, field), asked),
        field.0 != 0 && value.0 != 0 ==> call_ensures(
            after_reply,
            (env, asked->Send_1, id(0)),
            next,
        ),
    ensures
        if field.0 == 0 || value.0 == 0 {
            asked is Finished
        } else {
            &&& sends(
                asked,
                Message::ObjectForKey { dictionary: host.http_header_fields, key: field },
            )
            &&& final(env)@ == old(env)@
            &&& sends_at_last(
                next,
                Message::SetObject {
                    dictionary: host.http_header_fields,
                    object: value,
                    key: field,
                },
            )
        },
{
}

/// If there is a value for a header field already, a string is made of it, a comma and a
/// space, and the value that is added, and that string is put in the dictionary,
/// autoreleased if it could be made.
pub proof fn further_values_are_joined(
    start: &Environment,
    this: id,
    host: NSURLRequestHostObject,
    value: id,
    field: id,
    asked: Next,
    middle: &mut Environment,
    existing: id,
    found: Next,
    existing_text: String,
    read: Next,
    value_text: String,
    made: Next,
    env: &mut Environment,
    combined: id,
    next: Next,
    end: &mut Environment,
    ignored: id,
    last: Next,
)
    requires
        holds(start@, this, host),
        field.0 != 0,
        value.0 != 0,
        existing.0 != 0,
        call_ensures(add_value, (start, this, value, field), asked),
        call_ensures(after_reply, (middle, asked->Send_1, existing), found),
        call_ensures(after_text, (found->ReadString_1, existing_text), read),
        call_ensures(after_text, (read->ReadString_1, value_text), made),
        call_ensures(after_reply, (env, made->MakeString_1, combined), next),
        combined.0 != 0 ==> call_ensures(after_reply, (end, next->Send_1, ignored), last),
    ensures
        final(middle)@ == old(middle)@,
        found matches Next::ReadString(string, _) && string == existing,
        read matches Next::ReadString(string, _) && string == value,
        made matches Next::MakeString(text, _) && text@ == existing_text@ + seq![',', ' ']
            + value_text@,
        final(env)@ == old(env)@,
        if combined.0 == 0 {
            sends_at_last(
                next,
                Message::SetObject {
                    dictionary: host.http_header_fields,
                    object: combined,
                    key: field,
                },
            )
        } else {
            &&& sends(next, Message::Autorelease { object: combined })
            &&& final(end)@ == old(end)@
            &&& sends_at_last(
                last,
                Message::SetObject {
                    dictionary: host.http_header_fields,
                    object: combined,
                    key: field,
                },
            )
        },
{
    reveal_strlit(", ");
    assert(", "@ =~= seq![',', ' ']);
}

/// Header fields that are set all at once take the place of those that the request has.
/// Those are released first. The request then holds a copy of the new ones, or a new
/// dictionary in the place of `nil`, next to all else that it held.
pub proof fn header_fields_are_replaced(
    start: &Environment,
    this: id,
    former: NSURLRequestHostObject,
    header_fields: id,
    asked: Next,
    middle: &mut Environment,
    ignored: id,
    released: Next,
    env: &mut Environment,
    host: NSURLRequestHostObject,
    copy: id,
    next: Next,
)
    requires
        holds(start@, this, former),
        call_ensures(set_all_http_header_fields, (start, this, header_fields), asked),
        former.http_header_fields.0 != 0 ==> call_ensures(
            after_reply,
            (middle, asked->Send_1, ignored),
            released,
        ),
        former.http_header_fields.0 == 0 ==> released == asked,
        holds(old(env)@, this, host),
        call_ensures(after_reply, (env, released->Send_1, copy), next),
    ensures
        former.http_header_fields.0 != 0 ==> sends(
            asked,
            Message::Release { object: former.http_header_fields },
        ) && final(middle)@ == old(middle)@,
        if header_fields.0 == 0 {
            sends(released, Message::NewDictionary)
        } else {
            sends(released, Message::MutableCopy { object: header_fields })
        },
        holds_now(
            old(env)@,
            this,
            (NSURLRequestHostObject { http_header_fields: copy, ..host }),
            final(env)@,
        ),
        next is Finished,
{
}

/// The text that describes a request of a method and a URL.
pub open spec fn describes(text: Seq<char>, method: Seq<char>, url: Seq<char>) -> bool {
    text == "<NSURLRequest "@ + method + seq![' '] + url + seq!['>']
}

/// A string that is to be made of a description.
pub open spec fn makes(next: Next, method: Seq<char>, url: Seq<char>) -> bool {
    next matches Next::MakeString(text, _) && describes(text@, method, url)
}

/// A request is described by the text of its method, or `GET` if it has none, and that of
/// the description of its URL, which is asked for once the method is known. Without a URL
/// there is nothing to ask for.
pub proof fn requests_are_described_by_method_and_url(
    env: &Environment,
    this: id,
    host: NSURLRequestHostObject,
    asked: Next,
    method: String,
    next: Next,
)
    requires
        holds(env@, this, host),
        call_ensures(description, (env, this), asked),
        host.http_method.0 != 0 ==> call_ensures(after_text, (asked->ReadString_1, method), next),
        host.http_method.0 == 0 ==> next == asked && method@ == "GET"@,
    ensures
        host.http_method.0 != 0 ==> (asked matches Next::ReadString(string, _) && string
            == host.http_method),
        if host.url.0 != 0 {
            sends(next, Message::Description { object: host.url })
        } else {
            makes(next, method@, "<nil>"@)
        },
{
    lemma_ends();
}

/// The short texts of a description.
proof fn lemma_ends()
    ensures
        " "@ == seq![' '],
        ">"@ == seq!['>'],
{
    reveal_strlit(" ");
    reveal_strlit(">");
    assert(" "@ =~= seq![' ']);
    assert(">"@ =~= seq!['>']);
}

/// The description of the URL is read and stands behind the method, or a text for `nil`
/// if there is no description.
pub proof fn descriptions_have_the_url_behind_the_method(
    start: &Environment,
    this: id,
    host: NSURLRequestHostObject,
    asked: Next,
    method: String,
    url_asked: Next,
    env: &mut Environment,
    url: id,
    found: Next,
    url_text: String,
    next: Next,
)
    requires
        holds(start@, this, host),
        host.url.0 != 0,
        call_ensures(description, (start, this), asked),
        host.http_method.0 != 0 ==> call_ensures(
            after_text,
            (asked->ReadString_1, method),
            url_asked,
        ),
        host.http_method.0 == 0 ==> url_asked == asked && method@ == "GET"@,
        call_ensures(after_reply, (env, url_asked->Send_1, url), found),
        url.0 != 0 ==> call_ensures(after_text, (found->ReadString_1, url_text), next),
    ensures
        final(env)@ == old(env)@,
        if url.0 == 0 {
            makes(found, method@, "<nil>"@)
        } else {
            &&& found matches Next::ReadString(string, _)
            &&& string == url
            &&& makes(next, method@, url_text@)
        },
{
    lemma_ends();
}

/// The description that was made is returned autoreleased, or `nil` if it could not be
/// made, whichever way it came about.
pub proof fn descriptions_are_returned_autoreleased(
    start: &Environment,
    this: id,
    host: NSURLRequestHostObject,
    asked: Next,
    method: String,
    url_asked: Next,
    middle: &mut Environment,
    url: id,
    found: Next,
    url_text: String,
    made: Next,
    env: &mut Environment,
    text: id,
    next: Next,
)
    requires
        holds(start@, this, host),
        call_ensures(description, (start, this), asked),
        host.http_method.0 != 0 ==> call_ensures(
            after_text,
            (asked->ReadString_1, method),
            url_asked,
        ),
        host.http_method.0 == 0 ==> url_asked == asked,
        host.url.0 != 0 ==> call_ensures(after_reply, (middle, url_asked->Send_1, url), found),
        host.url.0 == 0 ==> made == url_asked,
        host.url.0 != 0 && url.0 == 0 ==> made == found,
        host.url.0 != 0 && url.0 != 0 ==> call_ensures(
            after_text,
            (found->ReadString_1, url_text),
            made,
        ),
        call_ensures(after_reply, (env, made->MakeString_1, text), next),
    ensures
        final(env)@ == old(env)@,
        if text.0 == 0 {
            next == Next::Return(id(0))
        } else {
            next == Next::Send(Message::Autorelease { object: text }, Then::ReturnReply)
        },
{
}

} // verus!
