use cookie::Cookie;
use webdriver_handlers::cookies::{
    handle_add_cookie, handle_delete_cookies, handle_get_cookie, handle_get_cookies, judge_cookie,
    source_for, CookieSource, DeleteCookies, GetCookieDataForUrl, GetCookiesDataForUrl,
    SetCookieForUrl, WebDriverCookieError,
};
use webdriver_handlers::documents::{Document, Documents, ServoUrl, Window, WindowProxy};
use webdriver_handlers::dom::{Node, NodeRef};
use webdriver_handlers::ids::{BrowsingContextId, PipelineId};
use webdriver_handlers::step::{Outcome, Step};

const PIPELINE: PipelineId = PipelineId { namespace_id: 1, index: 1 };
const NOWHERE: PipelineId = PipelineId { namespace_id: 1, index: 2 };

fn url(host: Option<&str>) -> ServoUrl {
    ServoUrl { href: "https://example.org/a".to_string(), host: host.map(|h| h.to_string()) }
}

fn documents(host: Option<&str>, cookie_averse: bool) -> Documents {
    let mut documents = Documents::new();
    documents.insert(
        PIPELINE,
        Document {
            node: Node {
                node_ref: NodeRef { handle: 1, unique_id: "document".to_string() },
                text_content: None,
                element: None,
                shadow_root: None,
                children: vec![],
            },
            window: Window {
                window_proxy: WindowProxy {
                    browsing_context_id: BrowsingContextId { namespace_id: 1, index: 1 },
                    parent: None,
                },
            },
            url: url(host),
            title: String::new(),
            active_element: None,
            document_element: None,
            cookie_averse,
        },
    );
    documents
}

fn refused(error: WebDriverCookieError) -> Outcome<SetCookieForUrl, Result<(), WebDriverCookieError>> {
    Outcome { action: None, reply: Err(error) }
}

fn set(
    host: Option<&str>,
    cookie: Cookie<'static>,
    source: CookieSource,
) -> Outcome<SetCookieForUrl, Result<(), WebDriverCookieError>> {
    Outcome { action: Some(SetCookieForUrl { url: url(host), cookie, source }), reply: Ok(()) }
}

#[test]
fn a_cookie_without_a_domain_is_added() {
    let host = Some("example.org");
    let cookie = Cookie::new("a", "b");
    assert_eq!(
        handle_add_cookie(&documents(host, false), PIPELINE, cookie.clone()),
        set(host, cookie.clone(), CookieSource::NonHTTP)
    );
    assert_eq!(
        handle_add_cookie(&documents(None, false), PIPELINE, cookie.clone()),
        set(None, cookie, CookieSource::NonHTTP)
    );
}

#[test]
fn a_cookie_for_the_host_is_added() {
    let host = Some("example.org");
    let cookie = Cookie::build("a", "b").domain("example.org").finish();
    assert_eq!(
        handle_add_cookie(&documents(host, false), PIPELINE, cookie.clone()),
        set(host, cookie, CookieSource::NonHTTP)
    );
    let parsed = Cookie::parse("a=b; Domain=.example.org").unwrap().into_owned();
    assert_eq!(
        handle_add_cookie(&documents(host, false), PIPELINE, parsed.clone()),
        set(host, parsed, CookieSource::NonHTTP)
    );
}

#[test]
fn a_cookie_for_another_host_is_refused() {
    let unable = || refused(WebDriverCookieError::UnableToSetCookie);
    for domain in ["org", "www.example.org", "EXAMPLE.ORG", ""] {
        let cookie = Cookie::build("a", "b").domain(domain).finish();
        assert_eq!(
            handle_add_cookie(&documents(Some("example.org"), false), PIPELINE, cookie),
            unable()
        );
    }
    let cookie = Cookie::build("a", "b").domain("example.org").finish();
    assert_eq!(handle_add_cookie(&documents(None, false), PIPELINE, cookie), unable());
}

#[test]
fn a_cookie_averse_document_takes_none() {
    let averse = documents(Some("example.org"), true);
    let invalid = || refused(WebDriverCookieError::InvalidDomain);
    assert_eq!(handle_add_cookie(&averse, PIPELINE, Cookie::new("a", "b")), invalid());
    let cookie = Cookie::build("a", "b").domain("example.org").finish();
    assert_eq!(handle_add_cookie(&averse, PIPELINE, cookie), invalid());
    let other = Cookie::build("a", "b").domain("example.com").finish();
    assert_eq!(handle_add_cookie(&averse, PIPELINE, other), invalid());
}

#[test]
fn without_a_document_no_cookie_is_added() {
    assert_eq!(
        handle_add_cookie(&documents(None, false), NOWHERE, Cookie::new("a", "b")),
        refused(WebDriverCookieError::UnableToSetCookie)
    );
}

#[test]
fn a_cookie_marked_http_only_is_set_on_behalf_of_http() {
    let marked = Cookie::build("a", "b").http_only(true).finish();
    assert_eq!(
        handle_add_cookie(&documents(None, false), PIPELINE, marked.clone()),
        set(None, marked, CookieSource::HTTP)
    );
    let unmarked = Cookie::build("a", "b").http_only(false).finish();
    assert_eq!(
        handle_add_cookie(&documents(None, false), PIPELINE, unmarked.clone()),
        set(None, unmarked, CookieSource::NonHTTP)
    );
    assert_eq!(source_for(Some(true)), CookieSource::HTTP);
    assert_eq!(source_for(Some(false)), CookieSource::NonHTTP);
    assert_eq!(source_for(None), CookieSource::NonHTTP);
}

#[test]
fn verdicts() {
    let name = |name: &str| Some(name.to_string());
    assert_eq!(judge_cookie(false, &name("h"), &None), Ok(()));
    assert_eq!(judge_cookie(false, &None, &None), Ok(()));
    assert_eq!(judge_cookie(false, &name("h"), &name("h")), Ok(()));
    let unable = Err(WebDriverCookieError::UnableToSetCookie);
    assert_eq!(judge_cookie(false, &name("h"), &name("g")), unable);
    assert_eq!(judge_cookie(false, &None, &name("g")), unable);
    assert_eq!(judge_cookie(true, &name("h"), &name("h")), Err(WebDriverCookieError::InvalidDomain));
}

#[test]
fn cookies_are_read_for_the_document_url() {
    let documents = documents(Some("example.org"), false);
    let question = GetCookiesDataForUrl {
        url: url(Some("example.org")),
        source: CookieSource::NonHTTP,
    };
    let all = || vec![Cookie::new("a", "1"), Cookie::new("b", "2"), Cookie::new("a", "3")];
    assert_eq!(question.reply(all()), all());
    assert_eq!(handle_get_cookies(&documents, PIPELINE), Step::Ask(question));
    assert_eq!(handle_get_cookies(&documents, NOWHERE), Step::Reply(vec![]));
}

#[test]
fn a_cookie_is_read_by_its_name() {
    let documents = documents(Some("example.org"), false);
    let question = |name: &str| GetCookieDataForUrl {
        url: url(Some("example.org")),
        source: CookieSource::NonHTTP,
        name: name.to_string(),
    };
    assert_eq!(
        handle_get_cookie(&documents, PIPELINE, "a".to_string()),
        Step::Ask(question("a"))
    );
    assert_eq!(handle_get_cookie(&documents, NOWHERE, "a".to_string()), Step::Reply(vec![]));
    let all = || vec![Cookie::new("a", "1"), Cookie::new("b", "2"), Cookie::new("a", "3")];
    assert_eq!(question("a").reply(all()), vec![Cookie::new("a", "1"), Cookie::new("a", "3")]);
    assert_eq!(question("b").reply(all()), vec![Cookie::new("b", "2")]);
    assert_eq!(question("A").reply(all()), vec![]);
    assert_eq!(question("a").reply(vec![]), vec![]);
    assert!(question("a").wants(&"a".to_string()));
    assert!(!question("a").wants(&"aa".to_string()));
}

#[test]
fn cookies_are_deleted_for_the_document_url() {
    let documents = documents(Some("example.org"), false);
    assert_eq!(
        handle_delete_cookies(&documents, PIPELINE),
        Outcome {
            action: Some(DeleteCookies { url: url(Some("example.org")) }),
            reply: Ok(()),
        }
    );
    assert_eq!(
        handle_delete_cookies(&documents, NOWHERE),
        Outcome { action: None, reply: Err(()) }
    );
}
