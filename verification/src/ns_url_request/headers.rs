//! The header fields of requests.
use super::messages::Message;
use super::steps::{Next, Then, ThenText};
use super::{borrow, is_request, request, store, with_request, NSURLRequestHostObject};
use crate::env::{Environment, Model};
use crate::objc::{id, nil};
use vstd::prelude::*;

verus! {

/// What a change of header fields does with the answer to a message, or with a string.
#[derive(Debug)]
pub enum HeaderThen {
    Released { this: id, header_fields: id },
    Store { this: id },
    AddToExisting { fields: id, value: id, field: id },
    AddCombined { fields: id, field: id },
    AddAutoreleased { fields: id, field: id, combined: id },
}

/// The value of a header field to which another value was added.
pub open spec fn combined_text(existing: Seq<char>, value: Seq<char>) -> Seq<char> {
    existing + ", "@ + value
}

/// The setting of all header fields, once those before are released.
pub open spec fn setting_headers(model: Model, this: id, header_fields: id) -> (Model, Next) {
    (
        model,
        Next::Send(
            if header_fields != nil() {
                Message::MutableCopy { object: header_fields }
            } else {
                Message::NewDictionary
            },
            Then::Header(HeaderThen::Store { this }),
        ),
    )
}

/// The setting of one header field.
pub open spec fn set_field(fields: id, value: id, field: id) -> Next {
    Next::Send(
        Message::SetObject { dictionary: fields, object: value, key: field },
        Then::Finish,
    )
}

/// What the environment must have for the method to go on.
pub open spec fn header_ready(model: Model, then: HeaderThen, reply: id) -> bool {
    match then {
        HeaderThen::Store { this } => is_request(model, this),
        _ => true,
    }
}

/// How a change of header fields goes on after an answer.
pub open spec fn header_changed(model: Model, then: HeaderThen, reply: id) -> (Model, Next) {
    match then {
        HeaderThen::Released { this, header_fields } => setting_headers(
            model,
            this,
            header_fields,
        ),
        HeaderThen::Store { this } => (
            with_request(
                model,
                this,
                NSURLRequestHostObject { http_header_fields: reply, ..request(model, this) },
            ),
            Next::Finished,
        ),
        HeaderThen::AddToExisting { fields, value, field } => (
            model,
            if reply != nil() {
                Next::ReadString(reply, ThenText::AddExistingText { fields, value, field })
            } else {
                set_field(fields, value, field)
            },
        ),
        HeaderThen::AddCombined { fields, field } => (
            model,
            if reply != nil() {
                Next::Send(
                    Message::Autorelease { object: reply },
                    Then::Header(HeaderThen::AddAutoreleased { fields, field, combined: reply }),
                )
            } else {
                set_field(fields, reply, field)
            },
        ),
        HeaderThen::AddAutoreleased { fields, field, combined } => (
            model,
            set_field(fields, combined, field),
        ),
    }
}

/// `-valueForHTTPHeaderField:`
pub fn value_for_http_header_field(env: &Environment, this: id, field: id) -> (next: Next)
    requires
        is_request(env@, this),
    ensures
        next == Next::Send(
            (Message::ObjectForKey {
                dictionary: request(env@, this).http_header_fields,
                key: field,
            }),
            Then::ReturnReply,
        ),
{
    let fields = borrow(env, this).http_header_fields;
    Next::Send(Message::ObjectForKey { dictionary: fields, key: field }, Then::ReturnReply)
}

/// `-setValue:forHTTPHeaderField:` of a mutable request. `nil` as the value removes
/// the field, and `nil` as the field changes nothing.
pub fn set_value(env: &Environment, this: id, value: id, field: id) -> (next: Next)
    requires
        field != nil() ==> is_request(env@, this),
    ensures
        ({
            let fields = request(env@, this).http_header_fields;
            next == if field == nil() {
                Next::Finished
            } else if value != nil() {
                set_field(fields, value, field)
            } else {
                Next::Send(
                    Message::RemoveObject { dictionary: fields, key: field },
                    Then::Finish,
                )
            }
        }),
{
    if field == nil() {
        return Next::Finished;
    }
    let fields = borrow(env, this).http_header_fields;
    if value != nil() {
        Next::Send(
            Message::SetObject { dictionary: fields, object: value, key: field },
            Then::Finish,
        )
    } else {
        Next::Send(Message::RemoveObject { dictionary: fields, key: field }, Then::Finish)
    }
}

/// `-addValue:forHTTPHeaderField:` of a mutable request. `nil` as the value or as the
/// field changes nothing.
pub fn add_value(env: &Environment, this: id, value: id, field: id) -> (next: Next)
    requires
        field != nil() && value != nil() ==> is_request(env@, this),
    ensures
        ({
            let fields = request(env@, this).http_header_fields;
            next == if field == nil() || value == nil() {
                Next::Finished
            } else {
                Next::Send(
                    Message::ObjectForKey { dictionary: fields, key: field },
                    Then::Header(HeaderThen::AddToExisting { fields, value, field }),
                )
            }
        }),
{
    if field == nil() || value == nil() {
        return Next::Finished;
    }
    let fields = borrow(env, this).http_header_fields;
    Next::Send(
        Message::ObjectForKey { dictionary: fields, key: field },
        Then::Header(HeaderThen::AddToExisting { fields, value, field }),
    )
}

/// `-setAllHTTPHeaderFields:` of a mutable request.
pub fn set_all_http_header_fields(env: &Environment, this: id, header_fields: id) -> (next: Next)
    requires
        is_request(env@, this),
    ensures
        ({
            let before = request(env@, this).http_header_fields;
            (env@, next) == if before != nil() {
                (
                    env@,
                    Next::Send(
                        Message::Release { object: before },
                        Then::Header(HeaderThen::Released { this, header_fields }),
                    ),
                )
            } else {
                setting_headers(env@, this, header_fields)
            }
        }),
{
    let before = borrow(env, this).http_header_fields;
    if before != nil() {
        return Next::Send(
            Message::Release { object: before },
            Then::Header(HeaderThen::Released { this, header_fields }),
        );
    }
    copy_header_fields(this, header_fields)
}

/// Copies the header fields that are to be set.
fn copy_header_fields(this: id, header_fields: id) -> (next: Next)
    ensures
        forall|model: Model| #[trigger]
            setting_headers(model, this, header_fields) == (model, next),
{
    let message = if header_fields != nil() {
        Message::MutableCopy { object: header_fields }
    } else {
        Message::NewDictionary
    };
    Next::Send(message, Then::Header(HeaderThen::Store { this }))
}

/// Goes on with a change of header fields.
pub(crate) fn after_header(env: &mut Environment, then: HeaderThen, reply: id) -> (next: Next)
    requires
        header_ready(old(env)@, then, reply),
    ensures
        (final(env)@, next) == header_changed(old(env)@, then, reply),
        old(env)@.wf() ==> final(env)@.wf(),
{
    match then {
        HeaderThen::Released { this, header_fields } => copy_header_fields(this, header_fields),
        HeaderThen::Store { this } => {
            let host = borrow(env, this);
            store(env, this, NSURLRequestHostObject { http_header_fields: reply, ..host });
            Next::Finished
        },
        HeaderThen::AddToExisting { fields, value, field } => {
            if reply != nil() {
                Next::ReadString(reply, ThenText::AddExistingText { fields, value, field })
            } else {
                Next::Send(
                    Message::SetObject { dictionary: fields, object: value, key: field },
                    Then::Finish,
                )
            }
        },
        HeaderThen::AddCombined { fields, field } => {
            if reply != nil() {
                Next::Send(
                    Message::Autorelease { object: reply },
                    Then::Header(HeaderThen::AddAutoreleased { fields, field, combined: reply }),
                )
            } else {
                Next::Send(
                    Message::SetObject { dictionary: fields, object: reply, key: field },
                    Then::Finish,
                )
            }
        },
        HeaderThen::AddAutoreleased { fields, field, combined } => Next::Send(
            Message::SetObject { dictionary: fields, object: combined, key: field },
            Then::Finish,
        ),
    }
}

/// Goes on with the adding of a value once both texts are known.
pub(crate) fn combine(existing: String, value: &str, fields: id, field: id) -> (next: Next)
    ensures
        next matches Next::MakeString(combined, then) && combined@ == combined_text(
            existing@,
            value@,
        ) && then == Then::Header((HeaderThen::AddCombined { fields, field })),
{
    let mut combined = existing;
    combined.append(", ");
    combined.append(value);
    Next::MakeString(combined, Then::Header(HeaderThen::AddCombined { fields, field }))
}

} // verus!
