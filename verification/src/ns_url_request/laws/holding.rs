//! What requests hold, and what is read from them and written to them.
use super::super::{
    all_http_header_fields, allows_cellular_access, cache_policy, check_request, default_timeout_interval, http_body,
    http_body_stream, http_method, http_should_handle_cookies, http_should_use_pipelining, interval_argument,
    main_document_url, network_service_type, set_allows_cellular_access, set_cache_policy,
    set_http_should_handle_cookies, set_http_should_use_pipelining, set_network_service_type, set_timeout_interval,
    timeout_interval, url, NSTimeInterval, NSURLNetworkServiceTypeBackground, NSURLNetworkServiceTypeDefault,
    NSURLNetworkServiceTypeVideo, NSURLNetworkServiceTypeVoIP, NSURLNetworkServiceTypeVoice, NSURLRequestCachePolicy,
    NSURLRequestHostObject, NSURLRequestNetworkServiceType, NSURLRequestReloadIgnoringCacheData,
    NSURLRequestReloadIgnoringLocalCache, NSURLRequestReloadRevalidatingCacheData, NSURLRequestReturnCacheDataDontLoad,
    NSURLRequestReturnCacheDataElseLoad, NSURLRequestUseProtocolCachePolicy,
};
use crate::abi::argument_of;
use crate::env::{Environment, Model};
use crate::objc::{id, HostObject};
use vstd::prelude::*;

verus! {

/// The object is a request that holds just this.
pub open spec fn holds(model: Model, object: id, host: NSURLRequestHostObject) -> bool {
    model.objects.contains_key(object.0) && model.objects[object.0] == HostObject::URLRequest(host)
}

/// The request holds just this afterwards, and everything else is as it was.
pub open spec fn holds_now(before: Model, object: id, host: NSURLRequestHostObject, after: Model) -> bool {
    &&& holds(after, object, host)
    &&& after.objects.dom() == before.objects.dom().insert(object.0)
    &&& forall|other: u32|
        other != object.0 && before.objects.contains_key(other) ==> #[trigger] after.objects[other]
            == before.objects[other]
    &&& after.regs == before.regs
    &&& after.mem == before.mem
    &&& after.initialized == before.initialized
    &&& after.selectors == before.selectors
    &&& after.known_classes == before.known_classes
    &&& after.message_type_info == before.message_type_info
    &&& after.dispatch_depth == before.dispatch_depth
    &&& after.nil_isa_count == before.nil_isa_count
    &&& after.request_depth == before.request_depth
}

/// An object is a request just if there is something that it holds as one.
pub proof fn requests_hold_something(env: &Environment, object: id, result: bool)
    requires
        call_ensures(check_request, (env, object), result),
    ensures
        result <==> exists|host: NSURLRequestHostObject| #[trigger] holds(env@, object, host),
{
    if env@.objects.contains_key(object.0) {
        if let HostObject::URLRequest(host) = env@.objects[object.0] {
            assert(holds(env@, object, host));
        }
    }
}

/// The URLs of a request are read as they are held.
pub proof fn urls_are_read(env: &Environment, this: id, host: NSURLRequestHostObject, result: id)
    requires
        holds(env@, this, host),
    ensures
        call_ensures(url, (env, this), result) ==> result == host.url,
        call_ensures(main_document_url, (env, this), result) ==> result == host.main_document_url,
{
}

/// The policy, the interval and the type of service of a request are read as they are
/// held.
pub proof fn settings_are_read(
    env: &Environment,
    this: id,
    host: NSURLRequestHostObject,
    policy: NSURLRequestCachePolicy,
    interval: NSTimeInterval,
    service_type: NSURLRequestNetworkServiceType,
)
    requires
        holds(env@, this, host),
    ensures
        call_ensures(cache_policy, (env, this), policy) ==> policy == host.cache_policy,
        call_ensures(timeout_interval, (env, this), interval) ==> interval == host.timeout_interval,
        call_ensures(network_service_type, (env, this), service_type) ==> service_type
            == host.network_service_type,
{
}

/// What a request may and should do is read as it is held.
pub proof fn permissions_are_read(env: &Environment, this: id, host: NSURLRequestHostObject, result: bool)
    requires
        holds(env@, this, host),
    ensures
        call_ensures(allows_cellular_access, (env, this), result) ==> result
            == host.allows_cellular_access,
        call_ensures(http_should_handle_cookies, (env, this), result) ==> result
            == host.http_should_handle_cookies,
        call_ensures(http_should_use_pipelining, (env, this), result) ==> result
            == host.http_should_use_pipelining,
{
}

/// The parts of an HTTP request are read as they are held.
pub proof fn http_parts_are_read(env: &Environment, this: id, host: NSURLRequestHostObject, result: id)
    requires
        holds(env@, this, host),
    ensures
        call_ensures(http_method, (env, this), result) ==> result == host.http_method,
        call_ensures(http_body, (env, this), result) ==> result == host.http_body,
        call_ensures(http_body_stream, (env, this), result) ==> result == host.http_body_stream,
        call_ensures(all_http_header_fields, (env, this), result) ==> result
            == host.http_header_fields,
{
}

/// A policy that is set is held, and nothing else is changed.
pub proof fn policies_are_set(
    env: &mut Environment,
    this: id,
    host: NSURLRequestHostObject,
    policy: NSURLRequestCachePolicy,
)
    requires
        holds(old(env)@, this, host),
        call_ensures(set_cache_policy, (env, this, policy), ()),
    ensures
        holds_now(
            old(env)@,
            this,
            (NSURLRequestHostObject { cache_policy: policy, ..host }),
            final(env)@,
        ),
{
}

/// An interval that is set is held, and nothing else is changed.
pub proof fn intervals_are_set(
    env: &mut Environment,
    this: id,
    host: NSURLRequestHostObject,
    interval: NSTimeInterval,
)
    requires
        holds(old(env)@, this, host),
        call_ensures(set_timeout_interval, (env, this, interval), ()),
    ensures
        holds_now(
            old(env)@,
            this,
            (NSURLRequestHostObject { timeout_interval: interval, ..host }),
            final(env)@,
        ),
{
}

/// A type of service that is set is held, and nothing else is changed.
pub proof fn service_types_are_set(
    env: &mut Environment,
    this: id,
    host: NSURLRequestHostObject,
    service_type: NSURLRequestNetworkServiceType,
)
    requires
        holds(old(env)@, this, host),
        call_ensures(set_network_service_type, (env, this, service_type), ()),
    ensures
        holds_now(
            old(env)@,
            this,
            (NSURLRequestHostObject { network_service_type: service_type, ..host }),
            final(env)@,
        ),
{
}

/// Whether cellular access is allowed is held as it is set, and nothing else is changed.
pub proof fn cellular_access_is_set(env: &mut Environment, this: id, host: NSURLRequestHostObject, allows: bool)
    requires
        holds(old(env)@, this, host),
        call_ensures(set_allows_cellular_access, (env, this, allows), ()),
    ensures
        holds_now(
            old(env)@,
            this,
            (NSURLRequestHostObject { allows_cellular_access: allows, ..host }),
            final(env)@,
        ),
{
}

/// Whether cookies are handled is held as it is set, and nothing else is changed.
pub proof fn handling_cookies_is_set(env: &mut Environment, this: id, host: NSURLRequestHostObject, should: bool)
    requires
        holds(old(env)@, this, host),
        call_ensures(set_http_should_handle_cookies, (env, this, should), ()),
    ensures
        holds_now(
            old(env)@,
            this,
            (NSURLRequestHostObject { http_should_handle_cookies: should, ..host }),
            final(env)@,
        ),
{
}

/// Whether pipelining is used is held as it is set, and nothing else is changed.
pub proof fn using_pipelining_is_set(env: &mut Environment, this: id, host: NSURLRequestHostObject, should: bool)
    requires
        holds(old(env)@, this, host),
        call_ensures(set_http_should_use_pipelining, (env, this, should), ()),
    ensures
        holds_now(
            old(env)@,
            this,
            (NSURLRequestHostObject { http_should_use_pipelining: should, ..host }),
            final(env)@,
        ),
{
}

/// Policies and types of service have the numbers that the guest knows them by.
pub proof fn policies_and_services_are_numbered()
    ensures
        NSURLRequestUseProtocolCachePolicy == 0,
        NSURLRequestReloadIgnoringLocalCache == 1,
        NSURLRequestReloadIgnoringCacheData == 1,
        NSURLRequestReturnCacheDataElseLoad == 2,
        NSURLRequestReturnCacheDataDontLoad == 3,
        NSURLRequestReloadRevalidatingCacheData == 4,
        NSURLNetworkServiceTypeDefault == 0,
        NSURLNetworkServiceTypeVoIP == 1,
        NSURLNetworkServiceTypeVideo == 2,
        NSURLNetworkServiceTypeBackground == 3,
        NSURLNetworkServiceTypeVoice == 4,
{
}

/// The interval that requests have unless they are given another is that of one minute:
/// the bits of a sign, an exponent and a fraction that make up sixty.
pub proof fn requests_have_a_minute(result: NSTimeInterval)
    requires
        call_ensures(default_timeout_interval, (), result),
    ensures
        result.0 / 0x10_0000_0000_0000 == 1023 + 5,
        0x10_0000_0000_0000 + result.0 % 0x10_0000_0000_0000 == 60 * 0x8000_0000_0000,
{
}

/// An interval among the arguments has the word of its number as its lower half, and the
/// next one as its upper half.
pub proof fn intervals_among_arguments(env: &Environment, number: u32, result: NSTimeInterval)
    requires
        call_ensures(interval_argument, (env, number), result),
    ensures
        result.0 % 0x1_0000_0000 == argument_of(env@, number as int),
        result.0 / 0x1_0000_0000 == argument_of(env@, number + 1),
{
}

} // verus!
