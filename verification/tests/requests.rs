//! Requests for URLs.
use objc_messaging::abi::leave_host_call;
use objc_messaging::dispatch::{end_dispatch, Step, TypeCheck};
use objc_messaging::env::{Environment, MAX_REQUEST_DEPTH, SP};
use objc_messaging::ns_url_request::copy::{copy, mutable_copy, CopyThen};
use objc_messaging::ns_url_request::create::{
    alloc_with_zone, dealloc, finish_alloc, init_with_url, init_with_url_cache_policy, request_with_url,
    request_with_url_cache_policy, CreateThen, DepthGuard,
};
use objc_messaging::ns_url_request::describe::description;
use objc_messaging::ns_url_request::headers::{
    add_value, set_all_http_header_fields, set_value, value_for_http_header_field,
};
use objc_messaging::ns_url_request::messages::{check_message, receiver, selector_name, send_message, Message};
use objc_messaging::ns_url_request::methods::{method_named, RequestMethod};
use objc_messaging::ns_url_request::set::{
    set_http_body, set_http_body_stream, set_http_method, set_main_document_url, set_url, ChangeThen,
};
use objc_messaging::ns_url_request::steps::{after_reply, after_text, check_ready, Next, Then};
use objc_messaging::ns_url_request::{
    all_http_header_fields, allows_cellular_access, cache_policy, check_request, http_body, http_body_stream, http_method,
    http_should_handle_cookies, http_should_use_pipelining, main_document_url, network_service_type,
    set_allows_cellular_access, set_cache_policy, set_http_should_handle_cookies, set_http_should_use_pipelining,
    set_network_service_type, set_timeout_interval, timeout_interval, url, NSURLNetworkServiceTypeBackground,
    NSURLNetworkServiceTypeVideo, NSURLNetworkServiceTypeVoIP, NSURLNetworkServiceTypeVoice,
    NSURLRequestHostObject, NSURLRequestReloadIgnoringCacheData, NSURLRequestReloadIgnoringLocalCache,
    NSURLRequestReloadRevalidatingCacheData, NSURLRequestReturnCacheDataDontLoad,
    NSURLRequestReturnCacheDataElseLoad, default_timeout_interval, NSTimeInterval,
};
use objc_messaging::objc::{id, nil, ClassHostObject, GuestIMP, HostIMP, HostObject, IMP, SEL};
use objc_messaging::signature::info_of;
use std::collections::HashMap;

const CLASS: id = id(0x100);
const MUTABLE_CLASS: id = id(0x180);
const DICTIONARY: id = id(0x200);
const THIS: id = id(0x1000);
const GET: id = id(0x31);
const HEADERS: id = id(0x41);

/// What other objects answer, and what was asked of them.
struct World {
    sent: Vec<Message>,
    answers: Vec<id>,
    texts: HashMap<id, String>,
    made: Vec<String>,
    freed: Vec<id>,
}

fn world(answers: &[id]) -> World {
    World { sent: vec![], answers: answers.to_vec(), texts: HashMap::new(), made: vec![], freed: vec![] }
}

/// Takes the steps of a method, with the answers of the world in their order.
fn run(env: &mut Environment, world: &mut World, first: Next) -> Option<id> {
    let mut next = first;
    loop {
        next = match next {
            Next::Return(object) => return Some(object),
            Next::Finished => return None,
            Next::Send(message, then) => {
                world.sent.push(message);
                let answer = match message {
                    Message::Release { .. } | Message::SetObject { .. } | Message::RemoveObject { .. } => nil(),
                    _ => world.answers.remove(0),
                };
                assert!(check_ready(env, &then, answer));
                after_reply(env, then, answer)
            },
            Next::ReadString(object, then) => after_text(then, world.texts[&object].clone()),
            Next::MakeString(text, then) => {
                world.made.push(text);
                let answer = world.answers.remove(0);
                after_reply(env, then, answer)
            },
            Next::StaticString(text, then) => {
                assert_eq!(text, "GET");
                after_reply(env, then, GET)
            },
            Next::Allocate { class, host } => finish_alloc(env, class, host, THIS),
            Next::Free(object) => {
                world.freed.push(object);
                return None;
            },
        };
    }
}

/// An environment with a request as it is when it was allocated.
fn with_request() -> Environment {
    let mut env = Environment::new();
    let mut world = world(&[HEADERS]);
    let first = alloc_with_zone(CLASS);
    assert_eq!(run(&mut env, &mut world, first), Some(THIS));
    assert_eq!(world.sent, vec![Message::NewDictionary]);
    env
}

fn host(env: &Environment, object: id) -> NSURLRequestHostObject {
    match env.objc.get_host_object(object) {
        Some(HostObject::URLRequest(host)) => *host,
        _ => panic!("no request"),
    }
}

fn change(env: &mut Environment, object: id, new: NSURLRequestHostObject) {
    env.objc.set_host_object(object, HostObject::URLRequest(new));
}

#[test]
fn new_requests_have_defaults() {
    let env = with_request();
    assert!(check_request(&env, THIS));
    assert!(!check_request(&env, id(0x2000)));
    assert_eq!(env.mem.read_word(THIS.0), CLASS.0);
    assert_eq!(url(&env, THIS), nil());
    assert_eq!(main_document_url(&env, THIS), nil());
    assert_eq!(cache_policy(&env, THIS), 0);
    assert_eq!(f64::from_bits(timeout_interval(&env, THIS).0), 60.0);
    assert_eq!(network_service_type(&env, THIS), 0);
    assert!(allows_cellular_access(&env, THIS));
    assert!(http_should_handle_cookies(&env, THIS));
    assert!(!http_should_use_pipelining(&env, THIS));
    assert_eq!(http_method(&env, THIS), GET);
    assert_eq!(http_body(&env, THIS), nil());
    assert_eq!(http_body_stream(&env, THIS), nil());
    assert_eq!(all_http_header_fields(&env, THIS), HEADERS);
    let host = host(&env, THIS);
    assert!(host.handles_cookies);
    assert!(!host.http_method_is_owned);
    assert_eq!(host, NSURLRequestHostObject::new(GET, HEADERS));
}

#[test]
fn constants_have_their_values() {
    assert_eq!(NSURLRequestReloadIgnoringLocalCache, 1);
    assert_eq!(NSURLRequestReloadIgnoringCacheData, 1);
    assert_eq!(NSURLRequestReturnCacheDataElseLoad, 2);
    assert_eq!(NSURLRequestReturnCacheDataDontLoad, 3);
    assert_eq!(NSURLRequestReloadRevalidatingCacheData, 4);
    assert_eq!(NSURLNetworkServiceTypeVoIP, 1);
    assert_eq!(NSURLNetworkServiceTypeVideo, 2);
    assert_eq!(NSURLNetworkServiceTypeBackground, 3);
    assert_eq!(NSURLNetworkServiceTypeVoice, 4);
    assert_eq!(f64::from_bits(default_timeout_interval().0), 60.0);
}

#[test]
fn simple_settings_are_read_back() {
    let mut env = with_request();
    change(&mut env, id(0x2000), NSURLRequestHostObject::new(id(1), id(2)));
    set_cache_policy(&mut env, THIS, NSURLRequestReturnCacheDataDontLoad);
    set_timeout_interval(&mut env, THIS, NSTimeInterval(2.5f64.to_bits()));
    set_network_service_type(&mut env, THIS, NSURLNetworkServiceTypeVideo);
    set_allows_cellular_access(&mut env, THIS, false);
    set_http_should_handle_cookies(&mut env, THIS, false);
    set_http_should_use_pipelining(&mut env, THIS, true);
    assert_eq!(cache_policy(&env, THIS), 3);
    assert_eq!(f64::from_bits(timeout_interval(&env, THIS).0), 2.5);
    assert_eq!(network_service_type(&env, THIS), 2);
    assert!(!allows_cellular_access(&env, THIS));
    assert!(!http_should_handle_cookies(&env, THIS));
    assert!(http_should_use_pipelining(&env, THIS));
    assert_eq!(http_method(&env, THIS), GET);
    assert_eq!(host(&env, id(0x2000)), NSURLRequestHostObject::new(id(1), id(2)));
}

#[test]
fn requests_are_made_with_a_url() {
    let mut env = with_request();
    let first = request_with_url(CLASS, id(0x50));
    let mut short = world(&[THIS]);
    assert_eq!(run(&mut env, &mut short, first), Some(THIS));
    let long = Message::RequestWithURL {
        class: CLASS,
        url: id(0x50),
        cache_policy: 0,
        timeout_interval: NSTimeInterval(60.0f64.to_bits()),
    };
    assert_eq!(short.sent, vec![long]);

    let first = request_with_url_cache_policy(&mut env, CLASS, id(0x50), 2, NSTimeInterval(7));
    assert_eq!(env.counters.request_depth, 1);
    let mut world = world(&[id(0x1500), id(0x1600), id(0x1700)]);
    assert_eq!(run(&mut env, &mut world, first), Some(id(0x1700)));
    assert_eq!(env.counters.request_depth, 0);
    assert_eq!(
        world.sent,
        vec![
            Message::Alloc { class: CLASS },
            Message::InitWithURL { object: id(0x1500), url: id(0x50), cache_policy: 2, timeout_interval: NSTimeInterval(7) },
            Message::Autorelease { object: id(0x1600) },
        ]
    );
}

#[test]
fn requests_that_cannot_be_initialized_are_nil() {
    let mut env = with_request();
    let first = request_with_url_cache_policy(&mut env, CLASS, nil(), 2, NSTimeInterval(7));
    let mut world = world(&[id(0x1500), nil()]);
    assert_eq!(run(&mut env, &mut world, first), Some(nil()));
    assert_eq!(world.sent.len(), 2);
    assert_eq!(env.counters.request_depth, 0);
}

#[test]
fn initialized_requests_hold_a_copy_of_the_url() {
    let mut env = with_request();
    let first = init_with_url(THIS, id(0x50));
    let mut short = world(&[THIS]);
    assert_eq!(run(&mut env, &mut short, first), Some(THIS));
    let long = Message::InitWithURL {
        object: THIS,
        url: id(0x50),
        cache_policy: 0,
        timeout_interval: default_timeout_interval(),
    };
    assert_eq!(short.sent, vec![long]);

    let first = init_with_url_cache_policy(&mut env, THIS, id(0x50), 4, NSTimeInterval(9));
    assert_eq!(env.counters.request_depth, 1);
    let mut world = world(&[id(0x51)]);
    assert_eq!(run(&mut env, &mut world, first), Some(THIS));
    assert_eq!(world.sent, vec![Message::Copy { object: id(0x50) }]);
    assert_eq!(url(&env, THIS), id(0x51));
    assert_eq!(cache_policy(&env, THIS), 4);
    assert_eq!(timeout_interval(&env, THIS), NSTimeInterval(9));
    assert_eq!(env.counters.request_depth, 0);
}

#[test]
fn initialization_without_a_url_is_refused() {
    let mut env = with_request();
    let first = init_with_url_cache_policy(&mut env, THIS, nil(), 4, NSTimeInterval(9));
    assert_eq!(env.counters.request_depth, 1);
    let mut with_object = world(&[]);
    assert_eq!(run(&mut env, &mut with_object, first), Some(nil()));
    assert_eq!(with_object.sent, vec![Message::Release { object: THIS }]);
    assert_eq!(env.counters.request_depth, 0);
    let first = init_with_url_cache_policy(&mut env, nil(), nil(), 4, NSTimeInterval(9));
    let mut without = world(&[]);
    assert_eq!(run(&mut env, &mut without, first), Some(nil()));
    assert!(without.sent.is_empty());
    assert_eq!(env.counters.request_depth, 0);
}

#[test]
fn requests_that_nest_too_deeply_are_refused() {
    let mut env = with_request();
    env.counters.request_depth = MAX_REQUEST_DEPTH;
    let first = request_with_url_cache_policy(&mut env, CLASS, id(0x50), 2, NSTimeInterval(7));
    assert!(matches!(first, Next::Send(Message::Alloc { .. }, Then::Create(CreateThen::RequestAllocated { .. }))));
    assert_eq!(env.counters.request_depth, MAX_REQUEST_DEPTH + 1);
    let mut world = world(&[]);
    let first = request_with_url_cache_policy(&mut env, CLASS, id(0x50), 2, NSTimeInterval(7));
    assert_eq!(run(&mut env, &mut world, first), Some(nil()));
    assert!(world.sent.is_empty());
    let first = init_with_url_cache_policy(&mut env, nil(), id(0x50), 4, NSTimeInterval(9));
    assert_eq!(run(&mut env, &mut world, first), Some(nil()));
    assert!(world.sent.is_empty());
    let first = init_with_url_cache_policy(&mut env, THIS, id(0x50), 4, NSTimeInterval(9));
    assert_eq!(run(&mut env, &mut world, first), Some(nil()));
    assert_eq!(world.sent, vec![Message::Release { object: THIS }]);
    assert_eq!(env.counters.request_depth, MAX_REQUEST_DEPTH + 1);
}

#[test]
fn levels_are_entered_and_left() {
    let mut env = Environment::new();
    let outer = DepthGuard::new(&mut env);
    let inner = DepthGuard::new(&mut env);
    assert_eq!(env.counters.request_depth, 2);
    inner.leave(&mut env);
    outer.leave(&mut env);
    assert_eq!(env.counters.request_depth, 0);
}

fn full_request() -> NSURLRequestHostObject {
    NSURLRequestHostObject {
        url: id(0x50),
        main_document_url: id(0x60),
        cache_policy: 3,
        timeout_interval: NSTimeInterval(11),
        network_service_type: 2,
        allows_cellular_access: false,
        handles_cookies: false,
        http_method: id(0x70),
        http_method_is_owned: true,
        http_body: id(0x80),
        http_body_stream: id(0x90),
        http_should_handle_cookies: false,
        http_should_use_pipelining: true,
        http_header_fields: id(0xa0),
    }
}

#[test]
fn dealloc_releases_what_is_owned() {
    let mut env = with_request();
    change(&mut env, THIS, full_request());
    let mut world = world(&[]);
    let first = dealloc(&mut env, THIS);
    assert_eq!(run(&mut env, &mut world, first), None);
    let released: Vec<Message> =
        [0x50, 0x60, 0x70, 0x80, 0x90, 0xa0].iter().map(|object| Message::Release { object: id(*object) }).collect();
    assert_eq!(world.sent, released);
    assert_eq!(world.freed, vec![THIS]);
    assert!(!check_request(&env, THIS));
}

#[test]
fn dealloc_leaves_static_methods_alone() {
    let mut env = with_request();
    let mut world = world(&[]);
    let first = dealloc(&mut env, THIS);
    assert_eq!(run(&mut env, &mut world, first), None);
    assert_eq!(world.sent, vec![Message::Release { object: HEADERS }]);
    assert_eq!(world.freed, vec![THIS]);
}

#[test]
fn copies_have_everything() {
    let mut env = with_request();
    change(&mut env, id(0x2000), full_request());
    // As the new request is when it was initialized.
    let initialized = NSURLRequestHostObject {
        url: id(0x51),
        cache_policy: 3,
        timeout_interval: NSTimeInterval(11),
        ..NSURLRequestHostObject::new(GET, HEADERS)
    };
    change(&mut env, THIS, initialized);
    let mut world = world(&[id(0x1500), THIS, id(0x71), id(0x81), id(0x90), id(0xa1)]);
    assert_eq!(run(&mut env, &mut world, copy(id(0x2000))), Some(THIS));
    assert_eq!(
        world.sent,
        vec![
            Message::AllocRequest { mutable: false },
            Message::InitWithURL { object: id(0x1500), url: id(0x50), cache_policy: 3, timeout_interval: NSTimeInterval(11) },
            Message::Copy { object: id(0x70) },
            Message::Copy { object: id(0x80) },
            Message::Retain { object: id(0x90) },
            Message::Release { object: HEADERS },
            Message::MutableCopy { object: id(0xa0) },
        ]
    );
    let expected = NSURLRequestHostObject {
        url: id(0x51),
        main_document_url: nil(),
        handles_cookies: true,
        http_method: id(0x71),
        http_body: id(0x81),
        http_header_fields: id(0xa1),
        ..full_request()
    };
    assert_eq!(host(&env, THIS), expected);
    assert_eq!(host(&env, id(0x2000)), full_request());
}

#[test]
fn copies_of_plain_requests_need_little() {
    let mut env = with_request();
    let source = NSURLRequestHostObject { url: id(0x50), http_header_fields: nil(), ..host(&env, THIS) };
    change(&mut env, id(0x2000), source);
    let mut copied = world(&[id(0x1500), THIS]);
    assert_eq!(run(&mut env, &mut copied, mutable_copy(id(0x2000))), Some(THIS));
    assert_eq!(copied.sent[0], Message::AllocRequest { mutable: true });
    assert_eq!(copied.sent.len(), 2);
    assert_eq!(host(&env, THIS).http_method, GET);
    assert_eq!(host(&env, THIS).http_header_fields, HEADERS);
    // Without header fields of its own, the new request has none to release.
    change(&mut env, id(0x2000), NSURLRequestHostObject { http_header_fields: id(0xa0), ..source });
    change(&mut env, THIS, NSURLRequestHostObject::new(GET, nil()));
    let mut copied = world(&[id(0x1500), THIS, id(0xa1)]);
    assert_eq!(run(&mut env, &mut copied, copy(id(0x2000))), Some(THIS));
    assert_eq!(copied.sent[2..], [Message::MutableCopy { object: id(0xa0) }]);
    assert_eq!(host(&env, THIS).http_header_fields, id(0xa1));
}

#[test]
fn copies_that_cannot_be_initialized_are_nil() {
    let mut env = with_request();
    let mut world = world(&[id(0x1500), nil()]);
    assert_eq!(run(&mut env, &mut world, copy(THIS)), Some(nil()));
    assert_eq!(world.sent.len(), 2);
}

#[test]
fn urls_are_replaced_by_copies() {
    let mut env = with_request();
    change(&mut env, THIS, full_request());
    let mut replaced = world(&[id(0x53)]);
    let first = set_url(&mut env, THIS, id(0x52));
    assert_eq!(run(&mut env, &mut replaced, first), None);
    assert_eq!(replaced.sent, vec![Message::Release { object: id(0x50) }, Message::Copy { object: id(0x52) }]);
    assert_eq!(host(&env, THIS), NSURLRequestHostObject { url: id(0x53), ..full_request() });
    let mut removed = world(&[]);
    let first = set_main_document_url(&mut env, THIS, nil());
    assert_eq!(run(&mut env, &mut removed, first), None);
    assert_eq!(removed.sent, vec![Message::Release { object: id(0x60) }]);
    assert_eq!(main_document_url(&env, THIS), nil());
    let mut added = world(&[id(0x63)]);
    let first = set_main_document_url(&mut env, THIS, id(0x62));
    assert_eq!(run(&mut env, &mut added, first), None);
    assert_eq!(added.sent, vec![Message::Copy { object: id(0x62) }]);
    assert_eq!(main_document_url(&env, THIS), id(0x63));
    assert_eq!(url(&env, THIS), id(0x53));
    let first = set_url(&mut env, THIS, nil());
    assert_eq!(run(&mut env, &mut world(&[]), first), None);
    let first = set_url(&mut env, THIS, nil());
    assert!(matches!(first, Next::Finished));
    assert_eq!(url(&env, THIS), nil());
}

#[test]
fn methods_are_replaced_by_copies() {
    let mut env = with_request();
    assert!(matches!(set_http_method(THIS, nil()), Next::Finished));
    let mut first_method = world(&[id(0x71)]);
    assert_eq!(run(&mut env, &mut first_method, set_http_method(THIS, id(0x70))), None);
    // The static string is not released.
    assert_eq!(first_method.sent, vec![Message::Copy { object: id(0x70) }]);
    assert_eq!(http_method(&env, THIS), id(0x71));
    assert!(host(&env, THIS).http_method_is_owned);
    let mut second_method = world(&[id(0x73)]);
    assert_eq!(run(&mut env, &mut second_method, set_http_method(THIS, id(0x72))), None);
    assert_eq!(second_method.sent, vec![Message::Copy { object: id(0x72) }, Message::Release { object: id(0x71) }]);
    assert_eq!(http_method(&env, THIS), id(0x73));
}

#[test]
fn bodies_are_replaced_by_copies() {
    let mut env = with_request();
    let mut first_body = world(&[id(0x81)]);
    let first = set_http_body(&mut env, THIS, id(0x80));
    assert_eq!(run(&mut env, &mut first_body, first), None);
    assert_eq!(first_body.sent, vec![Message::Copy { object: id(0x80) }]);
    assert_eq!(http_body(&env, THIS), id(0x81));
    let mut removed = world(&[]);
    let first = set_http_body(&mut env, THIS, nil());
    assert_eq!(run(&mut env, &mut removed, first), None);
    assert_eq!(removed.sent, vec![Message::Release { object: id(0x81) }]);
    assert_eq!(http_body(&env, THIS), nil());
    assert!(matches!(set_http_body(&mut env, THIS, nil()), Next::Finished));
}

#[test]
fn streams_are_shared() {
    let mut env = with_request();
    let mut first_stream = world(&[id(0x90)]);
    let first = set_http_body_stream(&mut env, THIS, id(0x90));
    assert_eq!(run(&mut env, &mut first_stream, first), None);
    assert_eq!(first_stream.sent, vec![Message::Retain { object: id(0x90) }]);
    assert_eq!(http_body_stream(&env, THIS), id(0x90));
    let mut second_stream = world(&[id(0x91)]);
    let first = set_http_body_stream(&mut env, THIS, id(0x91));
    assert_eq!(run(&mut env, &mut second_stream, first), None);
    assert_eq!(second_stream.sent, vec![Message::Release { object: id(0x90) }, Message::Retain { object: id(0x91) }]);
    assert_eq!(http_body_stream(&env, THIS), id(0x91));
    let mut removed = world(&[]);
    let first = set_http_body_stream(&mut env, THIS, nil());
    assert_eq!(run(&mut env, &mut removed, first), None);
    assert_eq!(http_body_stream(&env, THIS), nil());
    assert!(matches!(set_http_body_stream(&mut env, THIS, nil()), Next::Finished));
}

#[test]
fn header_fields_are_set_and_removed() {
    let mut env = with_request();
    assert!(matches!(set_value(&env, THIS, id(0xb0), nil()), Next::Finished));
    let mut world = world(&[id(0xb1)]);
    let first = set_value(&env, THIS, id(0xb0), id(0xc0));
    assert_eq!(run(&mut env, &mut world, first), None);
    let first = set_value(&env, THIS, nil(), id(0xc0));
    assert_eq!(run(&mut env, &mut world, first), None);
    let first = value_for_http_header_field(&env, THIS, id(0xc0));
    assert_eq!(run(&mut env, &mut world, first), Some(id(0xb1)));
    assert_eq!(
        world.sent,
        vec![
            Message::SetObject { dictionary: HEADERS, object: id(0xb0), key: id(0xc0) },
            Message::RemoveObject { dictionary: HEADERS, key: id(0xc0) },
            Message::ObjectForKey { dictionary: HEADERS, key: id(0xc0) },
        ]
    );
}

#[test]
fn values_are_added_to_header_fields() {
    let mut env = with_request();
    assert!(matches!(add_value(&env, THIS, id(0xb0), nil()), Next::Finished));
    assert!(matches!(add_value(&env, THIS, nil(), id(0xc0)), Next::Finished));
    let mut added = world(&[nil()]);
    let first = add_value(&env, THIS, id(0xb0), id(0xc0));
    assert_eq!(run(&mut env, &mut added, first), None);
    assert_eq!(
        added.sent,
        vec![
            Message::ObjectForKey { dictionary: HEADERS, key: id(0xc0) },
            Message::SetObject { dictionary: HEADERS, object: id(0xb0), key: id(0xc0) },
        ]
    );
    let mut combined = world(&[id(0xb2), id(0xb3), id(0xb3)]);
    combined.texts.insert(id(0xb2), "gzip".to_string());
    combined.texts.insert(id(0xb0), "deflate".to_string());
    let first = add_value(&env, THIS, id(0xb0), id(0xc0));
    assert_eq!(run(&mut env, &mut combined, first), None);
    assert_eq!(combined.made, vec!["gzip, deflate".to_string()]);
    assert_eq!(
        combined.sent,
        vec![
            Message::ObjectForKey { dictionary: HEADERS, key: id(0xc0) },
            Message::Autorelease { object: id(0xb3) },
            Message::SetObject { dictionary: HEADERS, object: id(0xb3), key: id(0xc0) },
        ]
    );
}

#[test]
fn all_header_fields_are_replaced() {
    let mut env = with_request();
    let mut replaced = world(&[id(0xa1)]);
    let first = set_all_http_header_fields(&env, THIS, id(0xa0));
    assert_eq!(run(&mut env, &mut replaced, first), None);
    assert_eq!(replaced.sent, vec![Message::Release { object: HEADERS }, Message::MutableCopy { object: id(0xa0) }]);
    assert_eq!(all_http_header_fields(&env, THIS), id(0xa1));
    let mut emptied = world(&[nil()]);
    let first = set_all_http_header_fields(&env, THIS, nil());
    assert_eq!(run(&mut env, &mut emptied, first), None);
    assert_eq!(emptied.sent, vec![Message::Release { object: id(0xa1) }, Message::NewDictionary]);
    let mut again = world(&[id(0xa3)]);
    let first = set_all_http_header_fields(&env, THIS, id(0xa2));
    assert_eq!(run(&mut env, &mut again, first), None);
    assert_eq!(again.sent, vec![Message::MutableCopy { object: id(0xa2) }]);
    assert_eq!(all_http_header_fields(&env, THIS), id(0xa3));
}

#[test]
fn requests_are_described() {
    let mut env = with_request();
    let mut bare = world(&[id(0xd0), id(0xd0)]);
    bare.texts.insert(GET, "GET".to_string());
    let first = description(&env, THIS);
    assert_eq!(run(&mut env, &mut bare, first), Some(id(0xd0)));
    assert_eq!(bare.made, vec!["<NSURLRequest GET <nil>>".to_string()]);
    assert_eq!(bare.sent, vec![Message::Autorelease { object: id(0xd0) }]);

    change(&mut env, THIS, full_request());
    let mut full = world(&[id(0x55), id(0xd0), id(0xd0)]);
    full.texts.insert(id(0x70), "POST".to_string());
    full.texts.insert(id(0x55), "https://example.com/".to_string());
    let first = description(&env, THIS);
    assert_eq!(run(&mut env, &mut full, first), Some(id(0xd0)));
    assert_eq!(full.made, vec!["<NSURLRequest POST https://example.com/>".to_string()]);
    assert_eq!(full.sent[0], Message::Description { object: id(0x50) });

    change(&mut env, THIS, NSURLRequestHostObject { http_method: nil(), ..full_request() });
    let mut nameless = world(&[nil(), nil()]);
    let first = description(&env, THIS);
    assert_eq!(run(&mut env, &mut nameless, first), Some(nil()));
    assert_eq!(nameless.made, vec!["<NSURLRequest GET <nil>>".to_string()]);
    assert_eq!(nameless.sent, vec![Message::Description { object: id(0x50) }]);
}

#[test]
fn methods_go_on_only_with_what_they_need() {
    let mut env = with_request();
    assert!(!check_ready(&env, &Then::Create(CreateThen::InitRefused { guard: DepthGuard {} }), nil()));
    let guard = DepthGuard::new(&mut env);
    assert!(check_ready(&env, &Then::Create(CreateThen::InitRefused { guard }), nil()));
    assert!(check_ready(&env, &Then::Copy(CopyThen::Allocated { this: THIS }), nil()));
    assert!(!check_ready(&env, &Then::Copy(CopyThen::Allocated { this: id(0x2000) }), nil()));
    assert!(!check_ready(&env, &Then::Change(ChangeThen::StoreBody { this: id(0x2000) }), nil()));
    assert!(check_ready(&env, &Then::Finish, nil()));
}

#[test]
fn classes_have_their_methods() {
    assert_eq!(method_named(false, true, "allocWithZone:"), Some(RequestMethod::AllocWithZone));
    assert_eq!(method_named(true, true, "requestWithURL:"), Some(RequestMethod::RequestWithUrl));
    assert_eq!(method_named(false, false, "allocWithZone:"), None);
    assert_eq!(method_named(false, true, "copy"), None);
    assert_eq!(method_named(false, false, "copy"), Some(RequestMethod::Copy));
    assert_eq!(method_named(true, false, "HTTPBody"), Some(RequestMethod::HttpBody));
    // Only a mutable request can be changed.
    assert_eq!(method_named(false, false, "setHTTPBody:"), None);
    assert_eq!(method_named(true, false, "setHTTPBody:"), Some(RequestMethod::SetHttpBody));
    assert_eq!(method_named(true, true, "setHTTPBody:"), None);
    assert_eq!(method_named(true, false, "setHTTPBody"), None);
    assert_eq!(
        method_named(true, false, "addValue:forHTTPHeaderField:"),
        Some(RequestMethod::AddValueForHttpHeaderField)
    );
}

const NAMES: [&str; 13] = [
    "new",
    "alloc",
    "requestWithURL:cachePolicy:timeoutInterval:",
    "initWithURL:cachePolicy:timeoutInterval:",
    "copy",
    "mutableCopy",
    "description",
    "retain",
    "release",
    "autorelease",
    "objectForKey:",
    "setObject:forKey:",
    "removeObjectForKey:",
];

/// An environment in which one class is the class of everything and has all methods.
fn talkative() -> Environment {
    let mut env = Environment::new();
    let mut methods = HashMap::new();
    for (i, name) in NAMES.iter().enumerate() {
        let selector = SEL(0x4000 + 0x40 * i as u32);
        env.register_selector(name.to_string(), selector);
        methods.insert(selector.0, IMP::Guest(GuestIMP { address: i as u32 }));
    }
    let everything = ClassHostObject { name: "Everything".to_string(), is_metaclass: false, superclass: nil(), methods };
    assert!(env.objc.define_class(id(0x40), everything));
    for object in [CLASS, MUTABLE_CLASS, DICTIONARY, THIS] {
        env.mem.write_word(object.0, 0x40);
    }
    env.objc.register_known_class("NSURLRequest".to_string(), CLASS);
    env.objc.register_known_class("NSMutableURLRequest".to_string(), MUTABLE_CLASS);
    env.objc.register_known_class("NSMutableDictionary".to_string(), DICTIONARY);
    env.cpu.regs[SP] = 0x8000;
    env
}

#[test]
fn messages_of_requests_are_sent() {
    let interval = NSTimeInterval(0x0000_0007_0000_0009);
    let cases: [(Message, usize, id, Vec<u32>); 14] = [
        (Message::NewDictionary, 0, DICTIONARY, vec![]),
        (Message::AllocRequest { mutable: false }, 1, CLASS, vec![]),
        (Message::AllocRequest { mutable: true }, 1, MUTABLE_CLASS, vec![]),
        (Message::Alloc { class: CLASS }, 1, CLASS, vec![]),
        (
            Message::RequestWithURL { class: CLASS, url: id(5), cache_policy: 6, timeout_interval: interval },
            2,
            CLASS,
            vec![5, 6, 9, 7],
        ),
        (
            Message::InitWithURL { object: THIS, url: id(5), cache_policy: 6, timeout_interval: interval },
            3,
            THIS,
            vec![5, 6, 9, 7],
        ),
        (Message::Copy { object: THIS }, 4, THIS, vec![]),
        (Message::MutableCopy { object: THIS }, 5, THIS, vec![]),
        (Message::Description { object: THIS }, 6, THIS, vec![]),
        (Message::Retain { object: THIS }, 7, THIS, vec![]),
        (Message::Release { object: THIS }, 8, THIS, vec![]),
        (Message::Autorelease { object: THIS }, 9, THIS, vec![]),
        (Message::ObjectForKey { dictionary: THIS, key: id(5) }, 10, THIS, vec![5]),
        (Message::SetObject { dictionary: THIS, object: id(4), key: id(5) }, 11, THIS, vec![4, 5]),
    ];
    for (message, number, to, rest) in cases {
        let mut env = talkative();
        assert!(check_message(&env, &message));
        assert_eq!(receiver(&env, &message), to);
        assert_eq!(selector_name(&message), NAMES[number]);
        let sent = send_message(&mut env, message);
        match sent.step {
            Step::Call { imp: IMP::Guest(imp), check: TypeCheck::Unchecked } => assert_eq!(imp.address as usize, number),
            _ => panic!("no method was reached"),
        }
        assert_eq!(env.cpu.regs[0], to.0);
        assert_eq!(env.cpu.regs[1], 0x4000 + 0x40 * number as u32);
        for (i, word) in rest.iter().enumerate() {
            if i < 2 {
                assert_eq!(env.cpu.regs[2 + i], *word);
            } else {
                assert_eq!(env.mem.read_word(env.cpu.regs[SP] + 4 * (i as u32 - 2)), *word);
            }
        }
        end_dispatch(&mut env);
        leave_host_call(&mut env, sent.frame);
        assert_eq!(env.cpu.regs[SP], 0x8000);
    }
}

#[test]
fn messages_of_requests_have_types() {
    let mut env = talkative();
    let (type_id, type_desc) = info_of::<((), (id, SEL, id))>();
    let mut methods = HashMap::new();
    let selector = env.objc.lookup_selector("removeObjectForKey:").unwrap();
    methods.insert(selector.0, IMP::Host(HostIMP { function: 1, type_id, type_desc }));
    let dictionary = ClassHostObject { name: "Dictionary".to_string(), is_metaclass: false, superclass: nil(), methods };
    assert!(env.objc.define_class(id(0x48), dictionary));
    env.mem.write_word(DICTIONARY.0, 0x48);
    let sent = send_message(&mut env, Message::RemoveObject { dictionary: DICTIONARY, key: id(5) });
    assert!(matches!(sent.step, Step::Call { check: TypeCheck::Same, .. }));
    assert_eq!(env.cpu.regs[2], 5);
}

#[test]
fn messages_need_their_selectors_and_classes() {
    let mut env = talkative();
    env.objc.known_classes.remove(2);
    assert!(!check_message(&env, &Message::NewDictionary));
    assert!(check_message(&env, &Message::AllocRequest { mutable: true }));
    env.objc.selectors.remove(1);
    assert!(!check_message(&env, &Message::AllocRequest { mutable: true }));
    assert!(!check_message(&env, &Message::Alloc { class: CLASS }));
    assert!(check_message(&env, &Message::Copy { object: THIS }));
}
