//! Which methods `NSURLRequest` and `NSMutableURLRequest` have, by their selectors.
use crate::text::same_text;
use vstd::prelude::*;

verus! {

/// A method of a request, or of the class of requests.
#[derive(Clone, Copy, Debug, PartialEq, Eq, Structural)]
pub enum RequestMethod {
    /// `+allocWithZone:`
    AllocWithZone,
    /// `+requestWithURL:`
    RequestWithUrl,
    /// `+requestWithURL:cachePolicy:timeoutInterval:`
    RequestWithUrlCachePolicyTimeoutInterval,
    /// `-initWithURL:`
    InitWithUrl,
    /// `-initWithURL:cachePolicy:timeoutInterval:`
    InitWithUrlCachePolicyTimeoutInterval,
    /// `-dealloc`
    Dealloc,
    /// `-copy`
    Copy,
    /// `-mutableCopy`
    MutableCopy,
    /// `-URL`
    Url,
    /// `-mainDocumentURL`
    MainDocumentUrl,
    /// `-cachePolicy`
    CachePolicy,
    /// `-timeoutInterval`
    TimeoutInterval,
    /// `-networkServiceType`
    NetworkServiceType,
    /// `-allowsCellularAccess`
    AllowsCellularAccess,
    /// `-HTTPShouldHandleCookies`
    HttpShouldHandleCookies,
    /// `-HTTPShouldUsePipelining`
    HttpShouldUsePipelining,
    /// `-HTTPMethod`
    HttpMethod,
    /// `-HTTPBody`
    HttpBody,
    /// `-HTTPBodyStream`
    HttpBodyStream,
    /// `-allHTTPHeaderFields`
    AllHttpHeaderFields,
    /// `-valueForHTTPHeaderField:`
    ValueForHttpHeaderField,
    /// `-description`
    Description,
    /// `-setURL:`
    SetUrl,
    /// `-setMainDocumentURL:`
    SetMainDocumentUrl,
    /// `-setCachePolicy:`
    SetCachePolicy,
    /// `-setTimeoutInterval:`
    SetTimeoutInterval,
    /// `-setNetworkServiceType:`
    SetNetworkServiceType,
    /// `-setAllowsCellularAccess:`
    SetAllowsCellularAccess,
    /// `-setHTTPShouldHandleCookies:`
    SetHttpShouldHandleCookies,
    /// `-setHTTPShouldUsePipelining:`
    SetHttpShouldUsePipelining,
    /// `-setHTTPMethod:`
    SetHttpMethod,
    /// `-setHTTPBody:`
    SetHttpBody,
    /// `-setHTTPBodyStream:`
    SetHttpBodyStream,
    /// `-setValue:forHTTPHeaderField:`
    SetValueForHttpHeaderField,
    /// `-addValue:forHTTPHeaderField:`
    AddValueForHttpHeaderField,
    /// `-setAllHTTPHeaderFields:`
    SetAllHttpHeaderFields,
}

/// The class method of a name, which both classes have.
pub open spec fn class_method_of(name: Seq<char>) -> Option<RequestMethod> {
    if name == "allocWithZone:"@ {
        Some(RequestMethod::AllocWithZone)
    } else if name == "requestWithURL:"@ {
        Some(RequestMethod::RequestWithUrl)
    } else if name == "requestWithURL:cachePolicy:timeoutInterval:"@ {
        Some(RequestMethod::RequestWithUrlCachePolicyTimeoutInterval)
    } else {
        None
    }
}

/// The instance method of a name that every request has.
pub open spec fn instance_method_of(name: Seq<char>) -> Option<RequestMethod> {
    if name == "initWithURL:"@ {
        Some(RequestMethod::InitWithUrl)
    } else if name == "initWithURL:cachePolicy:timeoutInterval:"@ {
        Some(RequestMethod::InitWithUrlCachePolicyTimeoutInterval)
    } else if name == "dealloc"@ {
        Some(RequestMethod::Dealloc)
    } else if name == "copy"@ {
        Some(RequestMethod::Copy)
    } else if name == "mutableCopy"@ {
        Some(RequestMethod::MutableCopy)
    } else if name == "URL"@ {
        Some(RequestMethod::Url)
    } else if name == "mainDocumentURL"@ {
        Some(RequestMethod::MainDocumentUrl)
    } else if name == "cachePolicy"@ {
        Some(RequestMethod::CachePolicy)
    } else if name == "timeoutInterval"@ {
        Some(RequestMethod::TimeoutInterval)
    } else if name == "networkServiceType"@ {
        Some(RequestMethod::NetworkServiceType)
    } else if name == "allowsCellularAccess"@ {
        Some(RequestMethod::AllowsCellularAccess)
    } else if name == "HTTPShouldHandleCookies"@ {
        Some(RequestMethod::HttpShouldHandleCookies)
    } else if name == "HTTPShouldUsePipelining"@ {
        Some(RequestMethod::HttpShouldUsePipelining)
    } else if name == "HTTPMethod"@ {
        Some(RequestMethod::HttpMethod)
    } else if name == "HTTPBody"@ {
        Some(RequestMethod::HttpBody)
    } else if name == "HTTPBodyStream"@ {
        Some(RequestMethod::HttpBodyStream)
    } else if name == "allHTTPHeaderFields"@ {
        Some(RequestMethod::AllHttpHeaderFields)
    } else if name == "valueForHTTPHeaderField:"@ {
        Some(RequestMethod::ValueForHttpHeaderField)
    } else if name == "description"@ {
        Some(RequestMethod::Description)
    } else {
        None
    }
}

/// The instance method of a name that only a mutable request has.
pub open spec fn mutable_method_of(name: Seq<char>) -> Option<RequestMethod> {
    if name == "setURL:"@ {
        Some(RequestMethod::SetUrl)
    } else if name == "setMainDocumentURL:"@ {
        Some(RequestMethod::SetMainDocumentUrl)
    } else if name == "setCachePolicy:"@ {
        Some(RequestMethod::SetCachePolicy)
    } else if name == "setTimeoutInterval:"@ {
        Some(RequestMethod::SetTimeoutInterval)
    } else if name == "setNetworkServiceType:"@ {
        Some(RequestMethod::SetNetworkServiceType)
    } else if name == "setAllowsCellularAccess:"@ {
        Some(RequestMethod::SetAllowsCellularAccess)
    } else if name == "setHTTPShouldHandleCookies:"@ {
        Some(RequestMethod::SetHttpShouldHandleCookies)
    } else if name == "setHTTPShouldUsePipelining:"@ {
        Some(RequestMethod::SetHttpShouldUsePipelining)
    } else if name == "setHTTPMethod:"@ {
        Some(RequestMethod::SetHttpMethod)
    } else if name == "setHTTPBody:"@ {
        Some(RequestMethod::SetHttpBody)
    } else if name == "setHTTPBodyStream:"@ {
        Some(RequestMethod::SetHttpBodyStream)
    } else if name == "setValue:forHTTPHeaderField:"@ {
        Some(RequestMethod::SetValueForHttpHeaderField)
    } else if name == "addValue:forHTTPHeaderField:"@ {
        Some(RequestMethod::AddValueForHttpHeaderField)
    } else if name == "setAllHTTPHeaderFields:"@ {
        Some(RequestMethod::SetAllHttpHeaderFields)
    } else {
        None
    }
}

/// The method of a name that a class, or a request, responds to with a method of its
/// own class or one inherited from `NSURLRequest`. A mutable request has all methods
/// of a request, and more of its own.
pub open spec fn method_of(mutable: bool, class_method: bool, name: Seq<char>) -> Option<RequestMethod> {
    if class_method {
        class_method_of(name)
    } else {
        match instance_method_of(name) {
            Some(method) => Some(method),
            None => if mutable {
                mutable_method_of(name)
            } else {
                None
            },
        }
    }
}

/// The class method of a name.
fn class_method_named(name: &str) -> (result: Option<RequestMethod>)
    ensures
        result == class_method_of(name@),
{
    if same_text(name, "allocWithZone:") {
        Some(RequestMethod::AllocWithZone)
    } else if same_text(name, "requestWithURL:") {
        Some(RequestMethod::RequestWithUrl)
    } else if same_text(name, "requestWithURL:cachePolicy:timeoutInterval:") {
        Some(RequestMethod::RequestWithUrlCachePolicyTimeoutInterval)
    } else {
        None
    }
}

/// The instance method of a name that every request has.
fn instance_method_named(name: &str) -> (result: Option<RequestMethod>)
    ensures
        result == instance_method_of(name@),
{
    if same_text(name, "initWithURL:") {
        Some(RequestMethod::InitWithUrl)
    } else if same_text(name, "initWithURL:cachePolicy:timeoutInterval:") {
        Some(RequestMethod::InitWithUrlCachePolicyTimeoutInterval)
    } else if same_text(name, "dealloc") {
        Some(RequestMethod::Dealloc)
    } else if same_text(name, "copy") {
        Some(RequestMethod::Copy)
    } else if same_text(name, "mutableCopy") {
        Some(RequestMethod::MutableCopy)
    } else if same_text(name, "URL") {
        Some(RequestMethod::Url)
    } else if same_text(name, "mainDocumentURL") {
        Some(RequestMethod::MainDocumentUrl)
    } else if same_text(name, "cachePolicy") {
        Some(RequestMethod::CachePolicy)
    } else if same_text(name, "timeoutInterval") {
        Some(RequestMethod::TimeoutInterval)
    } else if same_text(name, "networkServiceType") {
        Some(RequestMethod::NetworkServiceType)
    } else if same_text(name, "allowsCellularAccess") {
        Some(RequestMethod::AllowsCellularAccess)
    } else if same_text(name, "HTTPShouldHandleCookies") {
        Some(RequestMethod::HttpShouldHandleCookies)
    } else if same_text(name, "HTTPShouldUsePipelining") {
        Some(RequestMethod::HttpShouldUsePipelining)
    } else if same_text(name, "HTTPMethod") {
        Some(RequestMethod::HttpMethod)
    } else if same_text(name, "HTTPBody") {
        Some(RequestMethod::HttpBody)
    } else if same_text(name, "HTTPBodyStream") {
        Some(RequestMethod::HttpBodyStream)
    } else if same_text(name, "allHTTPHeaderFields") {
        Some(RequestMethod::AllHttpHeaderFields)
    } else if same_text(name, "valueForHTTPHeaderField:") {
        Some(RequestMethod::ValueForHttpHeaderField)
    } else if same_text(name, "description") {
        Some(RequestMethod::Description)
    } else {
        None
    }
}

/// The instance method of a name that only a mutable request has.
fn mutable_method_named(name: &str) -> (result: Option<RequestMethod>)
    ensures
        result == mutable_method_of(name@),
{
    if same_text(name, "setURL:") {
        Some(RequestMethod::SetUrl)
    } else if same_text(name, "setMainDocumentURL:") {
        Some(RequestMethod::SetMainDocumentUrl)
    } else if same_text(name, "setCachePolicy:") {
        Some(RequestMethod::SetCachePolicy)
    } else if same_text(name, "setTimeoutInterval:") {
        Some(RequestMethod::SetTimeoutInterval)
    } else if same_text(name, "setNetworkServiceType:") {
        Some(RequestMethod::SetNetworkServiceType)
    } else if same_text(name, "setAllowsCellularAccess:") {
        Some(RequestMethod::SetAllowsCellularAccess)
    } else if same_text(name, "setHTTPShouldHandleCookies:") {
        Some(RequestMethod::SetHttpShouldHandleCookies)
    } else if same_text(name, "setHTTPShouldUsePipelining:") {
        Some(RequestMethod::SetHttpShouldUsePipelining)
    } else if same_text(name, "setHTTPMethod:") {
        Some(RequestMethod::SetHttpMethod)
    } else if same_text(name, "setHTTPBody:") {
        Some(RequestMethod::SetHttpBody)
    } else if same_text(name, "setHTTPBodyStream:") {
        Some(RequestMethod::SetHttpBodyStream)
    } else if same_text(name, "setValue:forHTTPHeaderField:") {
        Some(RequestMethod::SetValueForHttpHeaderField)
    } else if same_text(name, "addValue:forHTTPHeaderField:") {
        Some(RequestMethod::AddValueForHttpHeaderField)
    } else if same_text(name, "setAllHTTPHeaderFields:") {
        Some(RequestMethod::SetAllHttpHeaderFields)
    } else {
        None
    }
}

/// The method of a name that a class of requests, or a request, has.
pub fn method_named(mutable: bool, class_method: bool, name: &str) -> (result: Option<RequestMethod>)
    ensures
        result == method_of(mutable, class_method, name@),
{
    if class_method {
        return class_method_named(name);
    }
    match instance_method_named(name) {
        Some(method) => Some(method),
        None => if mutable {
            mutable_method_named(name)
        } else {
            None
        },
    }
}

/// A mutable request has every method of a request, and is the only one to have those
/// that change it.
pub proof fn mutable_requests_have_more(class_method: bool, name: Seq<char>)
    ensures
        match method_of(false, class_method, name) {
            Some(method) => {
                &&& method_of(true, class_method, name) == Some(method)
                &&& forall|other: Seq<char>| mutable_method_of(other) != Some(method)
            },
            None => method_of(true, class_method, name) == if class_method {
                None
            } else {
                mutable_method_of(name)
            },
        },
{
}

} // verus!
