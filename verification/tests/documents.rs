use webdriver_handlers::documents::{
    find_node_by_unique_id, Document, Documents, ServoUrl, Window, WindowProxy,
};
use webdriver_handlers::dom::{
    Element, HTMLElement, HTMLIFrameElement, HTMLInputElement, HTMLInterface, HTMLOptionElement,
    Node, NodeRef,
};
use webdriver_handlers::elements::{
    handle_focus_element, handle_get_active_element, handle_get_attribute, handle_get_css,
    handle_get_name, handle_get_text, handle_is_enabled, handle_is_selected, Focus, GetAttribute,
    GetComputedPropertyValue,
};
use webdriver_handlers::find::{
    handle_find_element_css, handle_find_element_element_css, handle_find_element_element_tag_name,
    handle_find_element_elements_css, handle_find_element_elements_tag_name,
    handle_find_element_tag_name, handle_find_elements_css, handle_find_elements_tag_name,
    AllByTagName, FirstByTagName, QuerySelector, QuerySelectorAll,
};
use webdriver_handlers::frames::handle_get_browsing_context_id;
use webdriver_handlers::ids::{BrowsingContextId, PipelineId, WebDriverFrameId};
use webdriver_handlers::page::{
    handle_get_page_source, handle_get_title, handle_get_url, GetOuterHTML, SerializeToString,
};
use webdriver_handlers::rect::{absolute_position, handle_get_rect, Rect};
use webdriver_handlers::step::{Outcome, Step};

const PIPELINE: PipelineId = PipelineId { namespace_id: 1, index: 1 };
const NOWHERE: PipelineId = PipelineId { namespace_id: 1, index: 2 };
const FRAME: BrowsingContextId = BrowsingContextId { namespace_id: 1, index: 7 };
const TOP: BrowsingContextId = BrowsingContextId { namespace_id: 1, index: 8 };
const OWN: BrowsingContextId = BrowsingContextId { namespace_id: 1, index: 9 };

fn node_ref(handle: u64, unique_id: &str) -> NodeRef {
    NodeRef { handle, unique_id: unique_id.to_string() }
}

fn plain(handle: u64, unique_id: &str, text: Option<&str>, children: Vec<Node>) -> Node {
    Node {
        node_ref: node_ref(handle, unique_id),
        text_content: text.map(|t| t.to_string()),
        element: None,
        shadow_root: None,
        children,
    }
}

fn element(tag_name: &str, enabled_state: bool, html: Option<HTMLElement>) -> Element {
    Element { tag_name: tag_name.to_string(), enabled_state, html }
}

fn html(interface: HTMLInterface, left: i32, top: i32, parent: Option<Element>) -> HTMLElement {
    HTMLElement {
        offset_left: left,
        offset_top: top,
        offset_width: 30,
        offset_height: 40,
        offset_parent: parent.map(Box::new),
        interface,
    }
}

fn with_element(mut node: Node, element: Element) -> Node {
    node.element = Some(element);
    node
}

fn of_html(handle: u64, unique_id: &str, tag: &str, interface: HTMLInterface) -> Node {
    with_element(
        plain(handle, unique_id, Some(""), vec![]),
        element(tag, true, Some(html(interface, 1000, 1000, None))),
    )
}

/// document
///   body (host of a shadow tree that holds "shady" and a second "twin")
///     input, option, frame, svg, text, twin
fn document() -> Document {
    let input = of_html(3, "input", "INPUT", HTMLInterface::Input(HTMLInputElement { checked: true }));
    let option = of_html(
        4,
        "option",
        "OPTION",
        HTMLInterface::OptionItem(HTMLOptionElement { selected: true }),
    );
    let frame = of_html(
        5,
        "frame",
        "IFRAME",
        HTMLInterface::IFrame(HTMLIFrameElement { browsing_context_id: Some(FRAME) }),
    );
    let svg = with_element(plain(6, "svg", Some("drawn"), vec![]), element("svg", false, None));
    let text = plain(7, "text", Some("words"), vec![]);
    let twin = plain(8, "twin", None, vec![]);
    let mut body = with_element(
        plain(2, "body", Some("drawnwords"), vec![input, option, frame, svg, text, twin]),
        element("BODY", true, Some(html(HTMLInterface::Other, 5, 6, None))),
    );
    let shady = of_html(10, "shady", "SPAN", HTMLInterface::Other);
    let shadow_twin = plain(11, "twin", None, vec![]);
    body.shadow_root = Some(Box::new(plain(9, "shadow", None, vec![shady, shadow_twin])));
    Document {
        node: plain(1, "document", None, vec![body]),
        window: Window {
            window_proxy: WindowProxy {
                browsing_context_id: OWN,
                parent: Some(Box::new(WindowProxy { browsing_context_id: TOP, parent: None })),
            },
        },
        url: ServoUrl {
            href: "https://example.org/a".to_string(),
            host: Some("example.org".to_string()),
        },
        title: "A page".to_string(),
        active_element: Some(node_ref(3, "input")),
        document_element: Some(node_ref(2, "body")),
        cookie_averse: false,
    }
}

fn documents() -> Documents {
    let mut documents = Documents::new();
    documents.insert(PIPELINE, document());
    documents
}

fn handle_of(documents: &Documents, pipeline: PipelineId, id: &str) -> Option<u64> {
    find_node_by_unique_id(documents, pipeline, id.to_string()).map(|node| node.node_ref.handle)
}

#[test]
fn every_node_is_found_by_its_id() {
    let documents = documents();
    for (handle, id) in [
        (1, "document"),
        (2, "body"),
        (3, "input"),
        (4, "option"),
        (5, "frame"),
        (6, "svg"),
        (7, "text"),
        (9, "shadow"),
        (10, "shady"),
    ] {
        assert_eq!(handle_of(&documents, PIPELINE, id), Some(handle));
    }
    assert_eq!(handle_of(&documents, PIPELINE, "nobody"), None);
    assert_eq!(handle_of(&documents, NOWHERE, "body"), None);
}

#[test]
fn a_shadow_tree_comes_before_the_children() {
    assert_eq!(handle_of(&documents(), PIPELINE, "twin"), Some(11));
}

#[test]
fn a_node_comes_before_what_is_below_it() {
    let mut documents = Documents::new();
    let mut document = document();
    document.node = plain(1, "same", None, vec![plain(2, "same", None, vec![])]);
    documents.insert(PIPELINE, document);
    assert_eq!(handle_of(&documents, PIPELINE, "same"), Some(1));
}

#[test]
fn siblings_keep_their_order() {
    let mut documents = Documents::new();
    let mut document = document();
    let first = plain(2, "first", None, vec![plain(3, "same", None, vec![])]);
    let second = plain(4, "same", None, vec![]);
    document.node = plain(1, "root", None, vec![first, second]);
    documents.insert(PIPELINE, document);
    assert_eq!(handle_of(&documents, PIPELINE, "same"), Some(3));
}

#[test]
fn insert_replaces_the_document_of_its_pipeline_only() {
    let mut documents = documents();
    let mut other = document();
    other.title = "Another page".to_string();
    documents.insert(NOWHERE, other);
    assert_eq!(handle_get_title(&documents, PIPELINE), "A page");
    assert_eq!(handle_get_title(&documents, NOWHERE), "Another page");
    let mut third = document();
    third.title = "A third page".to_string();
    documents.insert(PIPELINE, third);
    assert_eq!(handle_get_title(&documents, PIPELINE), "A third page");
    assert_eq!(handle_get_title(&documents, NOWHERE), "Another page");
}

#[test]
fn browsing_contexts() {
    let documents = documents();
    let by_id = |id: &str| WebDriverFrameId::Element(id.to_string());
    let get = |pipeline, frame| handle_get_browsing_context_id(&documents, pipeline, frame);
    assert_eq!(get(PIPELINE, WebDriverFrameId::Short(0)), Err(()));
    assert_eq!(get(PIPELINE, by_id("frame")), Ok(FRAME));
    assert_eq!(get(PIPELINE, by_id("input")), Err(()));
    assert_eq!(get(PIPELINE, by_id("text")), Err(()));
    assert_eq!(get(PIPELINE, by_id("nobody")), Err(()));
    assert_eq!(get(PIPELINE, WebDriverFrameId::Parent), Ok(TOP));
    assert_eq!(get(NOWHERE, WebDriverFrameId::Parent), Err(()));
}

#[test]
fn a_frame_without_a_context_and_a_top_window_have_none() {
    let mut documents = Documents::new();
    let mut document = document();
    document.node = of_html(
        1,
        "frame",
        "IFRAME",
        HTMLInterface::IFrame(HTMLIFrameElement { browsing_context_id: None }),
    );
    document.window.window_proxy.parent = None;
    documents.insert(PIPELINE, document);
    let frame = WebDriverFrameId::Element("frame".to_string());
    assert_eq!(handle_get_browsing_context_id(&documents, PIPELINE, frame), Err(()));
    let parent = WebDriverFrameId::Parent;
    assert_eq!(handle_get_browsing_context_id(&documents, PIPELINE, parent), Err(()));
}

#[test]
fn finding_in_the_document() {
    let documents = documents();
    let p = || "p".to_string();
    assert_eq!(
        handle_find_element_css(&documents, PIPELINE, p()),
        Step::Ask(QuerySelector { root: 1, selector: p() })
    );
    assert_eq!(
        handle_find_element_tag_name(&documents, PIPELINE, p()),
        Step::Ask(FirstByTagName { root: 1, qualified_name: p() })
    );
    assert_eq!(
        handle_find_elements_css(&documents, PIPELINE, p()),
        Step::Ask(QuerySelectorAll { root: 1, selector: p() })
    );
    assert_eq!(
        handle_find_elements_tag_name(&documents, PIPELINE, p()),
        Step::Ask(AllByTagName { root: 1, qualified_name: p() })
    );
    assert_eq!(handle_find_element_css(&documents, NOWHERE, p()), Step::Reply(Err(())));
    assert_eq!(handle_find_element_tag_name(&documents, NOWHERE, p()), Step::Reply(Err(())));
    assert_eq!(handle_find_elements_css(&documents, NOWHERE, p()), Step::Reply(Err(())));
    assert_eq!(handle_find_elements_tag_name(&documents, NOWHERE, p()), Step::Reply(Err(())));
}

#[test]
fn finding_below_a_node() {
    let documents = documents();
    let p = || "p".to_string();
    let id = |id: &str| id.to_string();
    assert_eq!(
        handle_find_element_element_css(&documents, PIPELINE, id("text"), p()),
        Step::Ask(QuerySelector { root: 7, selector: p() })
    );
    assert_eq!(
        handle_find_element_elements_css(&documents, PIPELINE, id("text"), p()),
        Step::Ask(QuerySelectorAll { root: 7, selector: p() })
    );
    assert_eq!(
        handle_find_element_element_tag_name(&documents, PIPELINE, id("svg"), p()),
        Step::Ask(FirstByTagName { root: 6, qualified_name: p() })
    );
    assert_eq!(
        handle_find_element_elements_tag_name(&documents, PIPELINE, id("svg"), p()),
        Step::Ask(AllByTagName { root: 6, qualified_name: p() })
    );
    for nothing in ["text", "nobody"] {
        assert_eq!(
            handle_find_element_element_tag_name(&documents, PIPELINE, id(nothing), p()),
            Step::Reply(Err(()))
        );
        assert_eq!(
            handle_find_element_elements_tag_name(&documents, PIPELINE, id(nothing), p()),
            Step::Reply(Err(()))
        );
    }
    assert_eq!(
        handle_find_element_element_css(&documents, PIPELINE, id("nobody"), p()),
        Step::Reply(Err(()))
    );
    assert_eq!(
        handle_find_element_elements_css(&documents, PIPELINE, id("nobody"), p()),
        Step::Reply(Err(()))
    );
}

#[test]
fn replies_to_found_elements() {
    let one = QuerySelector { root: 1, selector: "p".to_string() };
    assert_eq!(one.reply::<u8>(Ok(Some(node_ref(3, "input")))), Ok(Some("input".to_string())));
    assert_eq!(one.reply::<u8>(Ok(None)), Ok(None));
    assert_eq!(one.reply(Err("syntax")), Err(()));
    let many = QuerySelectorAll { root: 1, selector: "p".to_string() };
    assert_eq!(
        many.reply::<u8>(Ok(vec![node_ref(4, "option"), node_ref(3, "input")])),
        Ok(vec!["option".to_string(), "input".to_string()])
    );
    assert_eq!(many.reply::<u8>(Ok(vec![])), Ok(vec![]));
    assert_eq!(many.reply(Err("syntax")), Err(()));
}

#[test]
fn the_first_match_is_the_first_of_all_matches() {
    let one = QuerySelector { root: 1, selector: "p".to_string() };
    let all = QuerySelectorAll { root: 1, selector: "p".to_string() };
    let matches = || vec![node_ref(4, "option"), node_ref(3, "input")];
    let ids = all.reply::<u8>(Ok(matches())).unwrap();
    let first = one.reply::<u8>(Ok(matches().into_iter().next())).unwrap();
    assert_eq!(first, Some("option".to_string()));
    assert_eq!(first.as_ref(), ids.first());
    assert_eq!(all.reply::<u8>(Ok(vec![])).unwrap().first(), None);
    assert_eq!(one.reply::<u8>(Ok(None)), Ok(None));
    assert_eq!(one.reply(Err("syntax")).is_err(), all.reply(Err("syntax")).is_err());
}

#[test]
fn the_first_by_tag_name_is_the_first_of_all() {
    let first = FirstByTagName { root: 1, qualified_name: "p".to_string() };
    let all = AllByTagName { root: 1, qualified_name: "p".to_string() };
    let found = || vec![node_ref(4, "option"), node_ref(3, "input")];
    assert_eq!(all.reply(found()), Ok(vec!["option".to_string(), "input".to_string()]));
    assert_eq!(first.reply(found()), Ok(Some("option".to_string())));
    assert_eq!(all.reply(vec![]), Ok(vec![]));
    assert_eq!(first.reply(vec![]), Ok(None));
}

#[test]
fn a_replied_id_names_its_element_again() {
    let documents = documents();
    let all = AllByTagName { root: 1, qualified_name: "span".to_string() };
    let ids = all.reply(vec![node_ref(10, "shady"), node_ref(5, "frame")]).unwrap();
    assert_eq!(handle_of(&documents, PIPELINE, &ids[0]), Some(10));
    assert_eq!(handle_of(&documents, PIPELINE, &ids[1]), Some(5));
}

#[test]
fn focus_is_for_html_elements() {
    let documents = documents();
    let focus = |id: &str| handle_focus_element(&documents, PIPELINE, id.to_string());
    assert_eq!(focus("input"), Outcome { action: Some(Focus { element: 3 }), reply: Ok(()) });
    assert_eq!(focus("svg"), Outcome { action: None, reply: Err(()) });
    assert_eq!(focus("text"), Outcome { action: None, reply: Err(()) });
    assert_eq!(focus("nobody"), Outcome { action: None, reply: Err(()) });
}

#[test]
fn active_element() {
    let mut documents = documents();
    assert_eq!(handle_get_active_element(&documents, PIPELINE), Some("input".to_string()));
    assert_eq!(handle_get_active_element(&documents, NOWHERE), None);
    let mut idle = document();
    idle.active_element = None;
    documents.insert(PIPELINE, idle);
    assert_eq!(handle_get_active_element(&documents, PIPELINE), None);
}

#[test]
fn text() {
    let documents = documents();
    let text = |id: &str| handle_get_text(&documents, PIPELINE, id.to_string());
    assert_eq!(text("text"), Ok("words".to_string()));
    assert_eq!(text("document"), Ok(String::new()));
    assert_eq!(text("nobody"), Err(()));
}

#[test]
fn names_attributes_and_styles() {
    let documents = documents();
    let id = |id: &str| id.to_string();
    assert_eq!(handle_get_name(&documents, PIPELINE, id("svg")), Ok(id("svg")));
    assert_eq!(handle_get_name(&documents, PIPELINE, id("body")), Ok(id("BODY")));
    assert_eq!(handle_get_name(&documents, PIPELINE, id("nobody")), Err(()));
    assert_eq!(
        handle_get_attribute(&documents, PIPELINE, id("input"), id("type")),
        Step::Ask(GetAttribute { element: 3, name: id("type") })
    );
    assert_eq!(
        handle_get_attribute(&documents, PIPELINE, id("nobody"), id("type")),
        Step::Reply(Err(()))
    );
    let attribute = GetAttribute { element: 3, name: id("type") };
    assert_eq!(attribute.reply(Some(id("text"))), Ok(Some(id("text"))));
    assert_eq!(attribute.reply(None), Ok(None));
    assert_eq!(
        handle_get_css(&documents, PIPELINE, id("input"), id("color")),
        Step::Ask(GetComputedPropertyValue { element: 3, property: id("color") })
    );
    assert_eq!(
        handle_get_css(&documents, PIPELINE, id("nobody"), id("color")),
        Step::Reply(Err(()))
    );
    let property = GetComputedPropertyValue { element: 3, property: id("color") };
    assert_eq!(property.reply(id("red")), Ok(id("red")));
}

#[test]
fn enabled_and_selected() {
    let documents = documents();
    let enabled = |id: &str| handle_is_enabled(&documents, PIPELINE, id.to_string());
    assert_eq!(enabled("input"), Ok(true));
    assert_eq!(enabled("svg"), Ok(false));
    assert_eq!(enabled("text"), Err(()));
    assert_eq!(enabled("nobody"), Err(()));
    let selected = |id: &str| handle_is_selected(&documents, PIPELINE, id.to_string());
    assert_eq!(selected("input"), Ok(true));
    assert_eq!(selected("option"), Ok(true));
    assert_eq!(selected("frame"), Ok(false));
    assert_eq!(selected("body"), Ok(false));
    assert_eq!(selected("svg"), Err(()));
    assert_eq!(selected("text"), Err(()));
    assert_eq!(selected("nobody"), Err(()));
}

#[test]
fn unchecked_and_unselected() {
    let mut documents = Documents::new();
    let mut document = document();
    let input = of_html(2, "input", "INPUT", HTMLInterface::Input(HTMLInputElement { checked: false }));
    let option = of_html(
        3,
        "option",
        "OPTION",
        HTMLInterface::OptionItem(HTMLOptionElement { selected: false }),
    );
    document.node = plain(1, "root", None, vec![input, option]);
    documents.insert(PIPELINE, document);
    assert_eq!(handle_is_selected(&documents, PIPELINE, "input".to_string()), Ok(false));
    assert_eq!(handle_is_selected(&documents, PIPELINE, "option".to_string()), Ok(false));
}

fn documents_with(html: HTMLElement) -> Documents {
    let mut documents = Documents::new();
    let mut document = document();
    let node = with_element(plain(2, "box", None, vec![]), element("DIV", true, Some(html)));
    document.node = plain(1, "document", None, vec![node]);
    documents.insert(PIPELINE, document);
    documents
}

#[test]
fn a_rect_sums_the_offsets_of_the_offset_parents() {
    let far = element("BODY", true, Some(html(HTMLInterface::Other, 100, -7, None)));
    let near = element("DIV", true, Some(html(HTMLInterface::Other, 20, 5, Some(far))));
    let documents = documents_with(html(HTMLInterface::Other, 9000, 9000, Some(near)));
    assert_eq!(
        handle_get_rect(&documents, PIPELINE, "box".to_string()),
        Ok(Rect { x: 120, y: -2, width: 30, height: 40 })
    );
}

#[test]
fn an_offset_parent_that_is_not_html_ends_the_sum() {
    let near = element("g", true, None);
    let documents = documents_with(html(HTMLInterface::Other, 9000, 9000, Some(near)));
    assert_eq!(
        handle_get_rect(&documents, PIPELINE, "box".to_string()),
        Ok(Rect { x: 0, y: 0, width: 30, height: 40 })
    );
}

#[test]
fn a_rect_is_for_html_elements() {
    let documents = documents();
    for nothing in ["svg", "text", "nobody"] {
        assert_eq!(handle_get_rect(&documents, PIPELINE, nothing.to_string()), Err(()));
    }
    assert_eq!(handle_get_rect(&documents, NOWHERE, "body".to_string()), Err(()));
}

#[test]
fn a_position_out_of_range_is_told() {
    let far = element("BODY", true, Some(html(HTMLInterface::Other, -1, 0, None)));
    let middle = element("DIV", true, Some(html(HTMLInterface::Other, 1, 0, Some(far))));
    let near = element("DIV", true, Some(html(HTMLInterface::Other, i32::MAX, 0, Some(middle))));
    assert_eq!(absolute_position(&html(HTMLInterface::Other, 0, 0, Some(near))), None);
    let low = element("DIV", true, Some(html(HTMLInterface::Other, 0, i32::MIN, None)));
    assert_eq!(absolute_position(&html(HTMLInterface::Other, 0, 0, Some(low))), Some((0, i32::MIN)));
}

#[test]
fn page_source_is_html_or_else_xml() {
    let documents = documents();
    let question = GetOuterHTML { element: 2 };
    assert_eq!(handle_get_page_source(&documents, PIPELINE), Step::Ask(question));
    assert_eq!(handle_get_page_source(&documents, NOWHERE), Step::Reply(Err(())));
    assert_eq!(
        question.next::<u8>(Ok("<body></body>".to_string())),
        Step::Reply(Ok("<body></body>".to_string()))
    );
    let fallback = SerializeToString { element: 2 };
    assert_eq!(question.next(Err("invalid state")), Step::Ask(fallback));
    assert_eq!(fallback.reply::<u8>(Ok("<body/>".to_string())), Ok("<body/>".to_string()));
    assert_eq!(fallback.reply(Err("type error")), Err(()));
}

#[test]
fn no_page_source_without_a_root_element() {
    let mut documents = Documents::new();
    let mut empty = document();
    empty.document_element = None;
    documents.insert(PIPELINE, empty);
    assert_eq!(handle_get_page_source(&documents, PIPELINE), Step::Reply(Err(())));
}

#[test]
fn title_and_url() {
    let documents = documents();
    assert_eq!(handle_get_title(&documents, PIPELINE), "A page");
    assert_eq!(handle_get_title(&documents, NOWHERE), "");
    assert_eq!(handle_get_url(&documents, PIPELINE), document().url);
    assert_eq!(
        handle_get_url(&documents, NOWHERE),
        ServoUrl { href: "about:blank".to_string(), host: None }
    );
}

#[test]
fn focus_rect_and_selection_are_owed_together() {
    let documents = documents();
    for id in ["document", "body", "input", "option", "frame", "svg", "text", "shady", "nobody"] {
        let id = || id.to_string();
        let focus = handle_focus_element(&documents, PIPELINE, id());
        let selected = handle_is_selected(&documents, PIPELINE, id()).is_ok();
        assert_eq!(focus.reply.is_ok(), selected);
        assert_eq!(focus.action.is_some(), selected);
        assert_eq!(handle_get_rect(&documents, PIPELINE, id()).is_ok(), selected);
        assert!(!selected || handle_is_enabled(&documents, PIPELINE, id()).is_ok());
    }
}

#[test]
fn a_position_is_that_of_the_offset_parent_moved_by_its_offsets() {
    let far = || element("BODY", true, Some(html(HTMLInterface::Other, 100, -7, None)));
    let near = || html(HTMLInterface::Other, 20, 5, Some(far()));
    let inner = html(HTMLInterface::Other, 1, 1, Some(element("DIV", true, Some(near()))));
    let (x, y) = absolute_position(&near()).unwrap();
    assert_eq!((x, y), (100, -7));
    assert_eq!(absolute_position(&inner), Some((x + 20, y + 5)));
}
