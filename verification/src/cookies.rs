//! The cookies of a document: reading them, adding one, deleting them all.
//!
//! The cookies themselves are kept by the resource thread. A message says what
//! it is asked or told.

use crate::documents::{document_for, Documents, ServoUrl};
use crate::ids::PipelineId;
use crate::step::{Outcome, Step};
use cookie::Cookie;
use vstd::prelude::*;

verus! {

/// The cookie type of the `cookie` crate. Nothing is stated of its contents
/// here; the functions below say what its methods give.
#[verifier::external_type_specification]
#[verifier::external_body]
pub struct ExCookie<'c>(Cookie<'c>);

/// What `Cookie::name` gives for a cookie.
pub uninterp spec fn cookie_name(cookie: Cookie<'static>) -> Seq<char>;

/// What `Cookie::domain` gives for a cookie.
pub uninterp spec fn cookie_domain(cookie: Cookie<'static>) -> Option<Seq<char>>;

/// What `Cookie::http_only` gives for a cookie.
pub uninterp spec fn cookie_http_only(cookie: Cookie<'static>) -> Option<bool>;

/// Calls `Cookie::name`, which gives the cookie's name. Trusted: the result
/// depends on the cookie alone, and is its `cookie_name`.
#[verifier::external_body]
fn name_of(cookie: &Cookie<'static>) -> (name: String)
    ensures
        name@ == cookie_name(*cookie),
{
    cookie.name().to_owned()
}

/// Calls `Cookie::domain`, which gives the cookie's `Domain` attribute where
/// one was specified. Trusted: the result depends on the cookie alone, and is
/// its `cookie_domain`.
#[verifier::external_body]
fn domain_of(cookie: &Cookie<'static>) -> (domain: Option<String>)
    ensures
        domain.deep_view() == cookie_domain(*cookie),
{
    cookie.domain().map(ToOwned::to_owned)
}

/// Calls `Cookie::http_only`, which says whether the cookie is marked
/// `HttpOnly` where that was specified. Trusted: the result depends on the
/// cookie alone, and is its `cookie_http_only`.
#[verifier::external_body]
fn http_only_of(cookie: &Cookie<'static>) -> (http_only: Option<bool>)
    ensures
        http_only == cookie_http_only(*cookie),
{
    cookie.http_only()
}

/// On whose behalf cookies are read or set.
#[derive(Clone, Copy, Debug, PartialEq, Eq, Structural)]
pub enum CookieSource {
    /// An HTTP response or request: cookies marked `HttpOnly` are seen.
    HTTP,
    /// Anything else: they are not.
    NonHTTP,
}

/// Why a cookie was not added.
#[derive(Clone, Copy, Debug, PartialEq, Eq, Structural)]
pub enum WebDriverCookieError {
    /// The document takes no cookies.
    InvalidDomain,
    /// There is no document, or the cookie is meant for another host.
    UnableToSetCookie,
}

/// Asks for the cookies of a URL.
#[derive(Debug, PartialEq)]
pub struct GetCookiesDataForUrl {
    pub url: ServoUrl,
    pub source: CookieSource,
}

/// Asks for the cookies of a URL, for the sake of those with a given name.
#[derive(Debug, PartialEq)]
pub struct GetCookieDataForUrl {
    pub url: ServoUrl,
    pub source: CookieSource,
    pub name: String,
}

/// Has a cookie set for a URL.
#[derive(Debug, PartialEq)]
pub struct SetCookieForUrl {
    pub url: ServoUrl,
    pub cookie: Cookie<'static>,
    pub source: CookieSource,
}

/// Has the cookies of a URL deleted.
#[derive(Debug, PartialEq)]
pub struct DeleteCookies {
    pub url: ServoUrl,
}

/// Those of `cookies` that have the name `name`, in the same order.
pub open spec fn cookies_named(cookies: Seq<Cookie<'static>>, name: Seq<char>) -> Seq<
    Cookie<'static>,
> {
    cookies.filter(|cookie: Cookie<'static>| cookie_name(cookie) == name)
}

/// Has the cookies of the document's URL looked up, as one that is not HTTP
/// sees them; replies with none when there is no document.
pub fn handle_get_cookies(documents: &Documents, pipeline: PipelineId) -> (step: Step<
    GetCookiesDataForUrl,
    Vec<Cookie<'static>>,
>)
    ensures
        match document_for(documents@, pipeline) {
            Some(document) => step == Step::<GetCookiesDataForUrl, Vec<Cookie<'static>>>::Ask(
                (GetCookiesDataForUrl { url: document.url, source: CookieSource::NonHTTP }),
            ),
            None => step matches Step::Reply(cookies) && cookies@ == Seq::<
                Cookie<'static>,
            >::empty(),
        },
{
    match documents.find_document(pipeline) {
        None => Step::Reply(Vec::new()),
        Some(document) => Step::Ask(
            GetCookiesDataForUrl { url: document.url.clone(), source: CookieSource::NonHTTP },
        ),
    }
}

impl GetCookiesDataForUrl {
    /// Replies with all of the cookies.
    pub fn reply(&self, cookies: Vec<Cookie<'static>>) -> (reply: Vec<Cookie<'static>>)
        ensures
            reply@ == cookies@,
    {
        cookies
    }
}

/// Has the cookies of the document's URL looked up, as one that is not HTTP
/// sees them, for those with the name `name`; replies with none when there is
/// no document.
pub fn handle_get_cookie(documents: &Documents, pipeline: PipelineId, name: String) -> (step: Step<
    GetCookieDataForUrl,
    Vec<Cookie<'static>>,
>)
    ensures
        match document_for(documents@, pipeline) {
            Some(document) => step == Step::<GetCookieDataForUrl, Vec<Cookie<'static>>>::Ask(
                (GetCookieDataForUrl { url: document.url, source: CookieSource::NonHTTP, name }),
            ),
            None => step matches Step::Reply(cookies) && cookies@ == Seq::<
                Cookie<'static>,
            >::empty(),
        },
{
    match documents.find_document(pipeline) {
        None => Step::Reply(Vec::new()),
        Some(document) => Step::Ask(
            GetCookieDataForUrl {
                url: document.url.clone(),
                source: CookieSource::NonHTTP,
                name,
            },
        ),
    }
}

impl GetCookieDataForUrl {
    /// Whether a cookie with the name `cookie_name` is asked for.
    pub fn wants(&self, cookie_name: &String) -> (wanted: bool)
        ensures
            wanted == (cookie_name@ == self.name@),
    {
        *cookie_name == self.name
    }

    /// Replies with those of the cookies that have the name, in the same order.
    pub fn reply(&self, cookies: Vec<Cookie<'static>>) -> (reply: Vec<Cookie<'static>>)
        ensures
            reply@ == cookies_named(cookies@, self.name@),
    {
        let ghost named = |cookie: Cookie<'static>| cookie_name(cookie) == self.name@;
        let mut reply: Vec<Cookie<'static>> = Vec::new();
        for cookie in iter: cookies
            invariant
                iter.seq() == cookies@,
                named == (|cookie: Cookie<'static>| cookie_name(cookie) == self.name@),
                reply@ == cookies@.take(iter.index() as int).filter(named),
        {
            proof {
                let k = iter.index() as int;
                assert(cookies@.take(k + 1).drop_last() =~= cookies@.take(k));
                reveal(Seq::filter);
            }
            if self.wants(&name_of(&cookie)) {
                reply.push(cookie);
            }
        }
        assert(cookies@.take(cookies@.len() as int) =~= cookies@);
        reply
    }
}

/// On whose behalf a cookie is set: one that is marked `HttpOnly` on behalf of
/// HTTP, any other not.
pub open spec fn cookie_source(http_only: Option<bool>) -> CookieSource {
    if http_only == Some(true) {
        CookieSource::HTTP
    } else {
        CookieSource::NonHTTP
    }
}

/// On whose behalf a cookie is set that `http_only` marks `HttpOnly` or not.
pub fn source_for(http_only: Option<bool>) -> (source: CookieSource)
    ensures
        source == cookie_source(http_only),
{
    if http_only.unwrap_or(false) {
        CookieSource::HTTP
    } else {
        CookieSource::NonHTTP
    }
}

/// Whether a document takes a cookie: one that is not cookie-averse takes a
/// cookie without a domain, and one whose domain is the document's host.
pub open spec fn add_cookie_verdict(
    cookie_averse: bool,
    host: Option<Seq<char>>,
    domain: Option<Seq<char>>,
) -> Result<(), WebDriverCookieError> {
    if cookie_averse {
        Err(WebDriverCookieError::InvalidDomain)
    } else if domain is None || domain == host {
        Ok(())
    } else {
        Err(WebDriverCookieError::UnableToSetCookie)
    }
}

/// Whether a document takes a cookie with the domain `domain`, given whether it
/// is cookie-averse, and its URL's host.
pub fn judge_cookie(cookie_averse: bool, host: &Option<String>, domain: &Option<String>) -> (verdict:
    Result<(), WebDriverCookieError>)
    ensures
        verdict == add_cookie_verdict(cookie_averse, host.deep_view(), domain.deep_view()),
        cookie_averse <==> verdict == Err::<(), WebDriverCookieError>(
            WebDriverCookieError::InvalidDomain,
        ),
        verdict is Ok <==> !cookie_averse && (domain is None || domain.deep_view()
            == host.deep_view()),
{
    if cookie_averse {
        return Err(WebDriverCookieError::InvalidDomain);
    }
    match domain {
        Some(domain) => {
            let same_host = match host {
                Some(host) => *host == *domain,
                None => false,
            };
            if same_host {
                Ok(())
            } else {
                Err(WebDriverCookieError::UnableToSetCookie)
            }
        },
        None => Ok(()),
    }
}

/// Has `cookie` set for the document's URL and replies that it was, if the
/// document takes it; otherwise, or when there is no document, sets nothing and
/// replies why.
pub fn handle_add_cookie(
    documents: &Documents,
    pipeline: PipelineId,
    cookie: Cookie<'static>,
) -> (outcome: Outcome<SetCookieForUrl, Result<(), WebDriverCookieError>>)
    ensures
        match document_for(documents@, pipeline) {
            Some(document) => {
                &&& outcome.reply == add_cookie_verdict(
                    document.cookie_averse,
                    document.url.host.deep_view(),
                    cookie_domain(cookie),
                )
                &&& outcome.action == (if outcome.reply is Ok {
                    Some(
                        (SetCookieForUrl {
                            url: document.url,
                            cookie,
                            source: cookie_source(cookie_http_only(cookie)),
                        }),
                    )
                } else {
                    None
                })
            },
            None => {
                &&& outcome.reply == Err::<(), WebDriverCookieError>(
                    WebDriverCookieError::UnableToSetCookie,
                )
                &&& outcome.action is None
            },
        },
{
    let document = match documents.find_document(pipeline) {
        Some(document) => document,
        None => {
            return Outcome {
                action: None,
                reply: Err(WebDriverCookieError::UnableToSetCookie),
            };
        },
    };
    let source = source_for(http_only_of(&cookie));
    let domain = domain_of(&cookie);
    match judge_cookie(document.cookie_averse, &document.url.host, &domain) {
        Ok(()) => Outcome {
            action: Some(SetCookieForUrl { url: document.url.clone(), cookie, source }),
            reply: Ok(()),
        },
        Err(error) => Outcome { action: None, reply: Err(error) },
    }
}

/// Has the cookies of the document's URL deleted; refuses when there is no
/// document.
pub fn handle_delete_cookies(documents: &Documents, pipeline: PipelineId) -> (outcome: Outcome<
    DeleteCookies,
    Result<(), ()>,
>)
    ensures
        match document_for(documents@, pipeline) {
            Some(document) => {
                &&& outcome.action == Some((DeleteCookies { url: document.url }))
                &&& outcome.reply == Ok::<(), ()>(())
            },
            None => {
                &&& outcome.action is None
                &&& outcome.reply == Err::<(), ()>(())
            },
        },
{
    match documents.find_document(pipeline) {
        Some(document) => Outcome {
            action: Some(DeleteCookies { url: document.url.clone() }),
            reply: Ok(()),
        },
        None => Outcome { action: None, reply: Err(()) },
    }
}

/// The cookies replied for a name are among all those of the URL, and every one
/// of them with the name, and no other, is there.
pub proof fn law_named_cookies(cookies: Seq<Cookie<'static>>, name: Seq<char>, cookie: Cookie<'static>)
    ensures
        cookies_named(cookies, name).contains(cookie) <==> cookies.contains(cookie) && cookie_name(
            cookie,
        ) == name,
    decreases cookies.len(),
{
    reveal(Seq::filter);
    if cookies.len() > 0 {
        let rest = cookies.drop_last();
        law_named_cookies(rest, name, cookie);
        assert(cookies =~= rest.push(cookies.last()));
        broadcast use vstd::seq_lib::group_seq_properties;

    }
}

} // verus!
