//! What the commands promise, stated of their results alone.
//!
//! `call_ensures(f, arguments, result)` says that a call of `f` with the
//! arguments may give the result; a law holds of every result that it may give.

use crate::cookies::{
    cookie_domain, cookie_http_only, cookie_name, cookies_named, handle_add_cookie,
    handle_delete_cookies, handle_get_cookie, handle_get_cookies, judge_cookie, source_for,
    CookieSource, DeleteCookies, GetCookieDataForUrl, GetCookiesDataForUrl, SetCookieForUrl,
    WebDriverCookieError,
};
use crate::documents::{find_node_by_unique_id, Document, Documents, ServoUrl, Window};
use crate::dom::{
    law_first_with_id, preorder_of_all, Element, HTMLElement, HTMLIFrameElement, HTMLInterface,
    Node, NodeRef,
};
use crate::elements::{
    handle_focus_element, handle_get_active_element, handle_get_attribute, handle_get_css,
    handle_get_name, handle_get_text, handle_is_enabled, handle_is_selected, Focus, GetAttribute,
    GetComputedPropertyValue,
};
use crate::find::{
    handle_find_element_css, handle_find_element_element_css, handle_find_element_element_tag_name,
    handle_find_element_elements_css, handle_find_element_elements_tag_name,
    handle_find_element_tag_name, handle_find_elements_css, handle_find_elements_tag_name,
    AllByTagName, FirstByTagName, QuerySelector, QuerySelectorAll,
};
use crate::frames::handle_get_browsing_context_id;
use crate::ids::{BrowsingContextId, PipelineId, WebDriverFrameId};
use crate::page::{
    handle_get_page_source, handle_get_title, handle_get_url, GetOuterHTML, SerializeToString,
};
use crate::rect::{
    absolute_position, handle_get_rect, offset_ancestors, position_fits, total_left, total_top,
    Rect,
};
use crate::script::{
    handle_execute_async_script, handle_execute_script, jsval_to_webdriver, AsyncAction, AsyncStep,
    Evaluation, JsNumber, JsVal, WebDriverJSError, WebDriverJSResult, WebDriverJSValue,
};
use crate::step::{Outcome, Step};
use cookie::Cookie;
use vstd::prelude::*;

verus! {

/// A node's order is laid out so: the node; then, where it hosts a shadow tree,
/// the order of that tree; then its children's orders, one after the other and
/// in the children's order; and nothing else.
pub proof fn law_tree_order(root: Node)
    ensures
        root.preorder().len() > 0,
        root.preorder()[0] == root,
        root.shadow_root matches Some(shadow) ==> root.preorder().subrange(
            1,
            1 + shadow.preorder().len() as int,
        ) == shadow.preorder(),
        exists|starts: Seq<int>|
            {
                &&& #[trigger] starts.len() == root.children@.len() + 1
                &&& root.shadow_root is None ==> starts[0] == 1
                &&& root.shadow_root matches Some(shadow) ==> starts[0] == 1
                    + shadow.preorder().len()
                &&& starts[root.children@.len() as int] == root.preorder().len()
                &&& forall|i: int|
                    0 <= i < root.children@.len() ==> {
                        &&& 0 <= #[trigger] starts[i] <= starts[i + 1] <= root.preorder().len()
                        &&& root.preorder().subrange(starts[i], starts[i + 1])
                            == root.children@[i].preorder()
                    }
            },
{
    let shadow = match root.shadow_root {
        Some(shadow) => shadow.preorder(),
        None => Seq::empty(),
    };
    let head = seq![root] + shadow;
    let below = preorder_of_all(root.children@);
    let order = root.preorder();
    assert(order =~= head + below);
    if root.shadow_root is Some {
        assert(order.subrange(1, 1 + shadow.len() as int) =~= shadow);
    }
    let starts = lemma_starts(root.children@, head);
    assert forall|i: int| 0 <= i < root.children@.len() implies {
        &&& 0 <= #[trigger] starts[i] <= starts[i + 1] <= order.len()
        &&& order.subrange(starts[i], starts[i + 1]) == root.children@[i].preorder()
    } by {}
}

/// Where the orders of `nodes` begin and end when they follow `head`.
proof fn lemma_starts(nodes: Seq<Node>, head: Seq<Node>) -> (starts: Seq<int>)
    ensures
        starts.len() == nodes.len() + 1,
        starts[0] == head.len(),
        starts[nodes.len() as int] == (head + preorder_of_all(nodes)).len(),
        forall|i: int|
            0 <= i < nodes.len() ==> {
                &&& 0 <= #[trigger] starts[i] <= starts[i + 1] <= (head + preorder_of_all(
                    nodes,
                )).len()
                &&& (head + preorder_of_all(nodes)).subrange(starts[i], starts[i + 1])
                    == nodes[i].preorder()
            },
    decreases nodes.len(),
{
    let all = head + preorder_of_all(nodes);
    if nodes.len() == 0 {
        seq![head.len() as int]
    } else {
        let first = nodes[0].preorder();
        let rest = nodes.drop_first();
        let later = lemma_starts(rest, head + first);
        assert(all =~= (head + first) + preorder_of_all(rest));
        let starts = seq![head.len() as int] + later;
        assert forall|i: int| 0 <= i < nodes.len() implies {
            &&& 0 <= #[trigger] starts[i] <= starts[i + 1] <= all.len()
            &&& all.subrange(starts[i], starts[i + 1]) == nodes[i].preorder()
        } by {
            if i == 0 {
                assert(starts[1] == later[0]);
                assert(all.subrange(head.len() as int, (head + first).len() as int) =~= first);
                assert(later[0] <= all.len()) by {
                    assert(all.len() == (head + first).len() + preorder_of_all(rest).len());
                }
            } else {
                assert(starts[i] == later[i - 1]);
                assert(starts[i + 1] == later[i]);
                assert(nodes[i] == rest[i - 1]);
            }
        }
        starts
    }
}

/// A node is found by its id exactly where the pipeline's document holds one
/// with the id, and the one found is the first in the document's order.
pub proof fn law_find_node(
    documents: Documents,
    pipeline: PipelineId,
    node_id: String,
    found: Option<&Node>,
)
    requires
        call_ensures(find_node_by_unique_id, (&documents, pipeline, node_id), found),
    ensures
        !documents@.contains_key(pipeline) ==> found is None,
        documents@.contains_key(pipeline) ==> ({
            let order = documents@[pipeline].node.preorder();
            match found {
                Some(node) => exists|i: int|
                    {
                        &&& 0 <= i < order.len()
                        &&& #[trigger] order[i] == *node
                        &&& node.node_ref.unique_id@ == node_id@
                        &&& forall|j: int|
                            0 <= j < i ==> (#[trigger] order[j]).node_ref.unique_id@ != node_id@
                    },
                None => forall|i: int|
                    0 <= i < order.len() ==> (#[trigger] order[i]).node_ref.unique_id@ != node_id@,
            }
        }),
{
    if documents@.contains_key(pipeline) {
        law_first_with_id(documents@[pipeline].node.preorder(), node_id@);
    }
}

/// The same of a look-up that begins at any node.
pub proof fn law_find_below(root: Node, node_id: String, found: Option<&Node>)
    requires
        call_ensures(Node::find_by_unique_id, (&root, &node_id), found),
    ensures
        match found {
            Some(node) => exists|i: int|
                {
                    &&& 0 <= i < root.preorder().len()
                    &&& #[trigger] root.preorder()[i] == *node
                    &&& node.node_ref.unique_id@ == node_id@
                    &&& forall|j: int|
                        0 <= j < i ==> (#[trigger] root.preorder()[j]).node_ref.unique_id@
                            != node_id@
                },
            None => forall|i: int|
                0 <= i < root.preorder().len() ==> (#[trigger] root.preorder()[i]).node_ref.unique_id@
                    != node_id@,
        },
{
    law_first_with_id(root.preorder(), node_id@);
}

/// A table of documents begins empty; a document, and its window with it, is
/// found exactly where the table has one for the pipeline.
pub proof fn law_documents(
    documents: Documents,
    fresh: Documents,
    pipeline: PipelineId,
    document: Option<&Document>,
    window: Option<&Window>,
)
    requires
        call_ensures(Documents::new, (), fresh),
        call_ensures(Documents::find_document, (&documents, pipeline), document),
        call_ensures(Documents::find_window, (&documents, pipeline), window),
    ensures
        !fresh@.contains_key(pipeline),
        document is Some <==> documents@.contains_key(pipeline),
        window is Some <==> documents@.contains_key(pipeline),
        document matches Some(d) ==> *d == documents@[pipeline],
        window matches Some(w) ==> *w == documents@[pipeline].window,
{
}

/// A copy of a URL is the URL.
pub proof fn law_url_copy(url: ServoUrl, copy: ServoUrl)
    requires
        call_ensures(ServoUrl::clone, (&url,), copy),
    ensures
        copy.href == url.href,
        copy.host == url.host,
{
}

/// A node counts as an element, as HTML, or as an `iframe` exactly where it has
/// that interface, and what it then counts as is its own.
pub proof fn law_downcasts(
    node: Node,
    element: Option<&Element>,
    html: Option<&HTMLElement>,
    iframe: Option<&HTMLIFrameElement>,
)
    requires
        call_ensures(Node::downcast_element, (&node,), element),
        call_ensures(Node::downcast_html_element, (&node,), html),
        call_ensures(Node::downcast_html_iframe_element, (&node,), iframe),
    ensures
        element is Some <==> node.element is Some,
        element matches Some(e) ==> node.element == Some(*e),
        html is Some <==> (element matches Some(e) && e.html is Some),
        html matches Some(h) ==> node.element.unwrap().html == Some(*h),
        iframe is Some <==> (html matches Some(h) && h.interface is IFrame),
        iframe matches Some(f) ==> html.unwrap().interface == HTMLInterface::IFrame(*f),
{
}

/// A script's value is sent as what it is: each kind of value as its own kind,
/// with what it holds unchanged, and a value of no such kind not at all.
pub proof fn law_script_values(val: JsVal, result: WebDriverJSResult)
    requires
        call_ensures(jsval_to_webdriver, (val,), result),
    ensures
        val is Undefined <==> (result matches Ok(v) && v is Undefined),
        val is Null <==> (result matches Ok(v) && v is Null),
        val is Other <==> result is Err,
        result matches Err(error) ==> error == WebDriverJSError::UnknownType,
        val matches JsVal::Boolean(b) ==> result == WebDriverJSResult::Ok(
            WebDriverJSValue::Boolean(b),
        ),
        result matches Ok(WebDriverJSValue::Boolean(b)) ==> val == JsVal::Boolean(b),
        val matches JsVal::Int32(i) ==> result == WebDriverJSResult::Ok(
            WebDriverJSValue::Number(JsNumber::Int32(i)),
        ),
        result matches Ok(WebDriverJSValue::Number(JsNumber::Int32(i))) ==> val == JsVal::Int32(i),
        val matches JsVal::Double(bits) ==> result == WebDriverJSResult::Ok(
            WebDriverJSValue::Number(JsNumber::Double(bits)),
        ),
        result matches Ok(WebDriverJSValue::Number(JsNumber::Double(bits))) ==> val == JsVal::Double(bits),
        val matches JsVal::String(s) ==> result == WebDriverJSResult::Ok(
            WebDriverJSValue::String(s),
        ),
        result matches Ok(WebDriverJSValue::String(s)) ==> val == JsVal::String(s),
{
}

/// Two script values for which the same value is given are the same value.
pub proof fn law_script_values_are_kept_apart(
    a: JsVal,
    b: JsVal,
    sent_a: WebDriverJSResult,
    sent_b: WebDriverJSResult,
)
    requires
        call_ensures(jsval_to_webdriver, (a,), sent_a),
        call_ensures(jsval_to_webdriver, (b,), sent_b),
        sent_a is Ok,
        sent_a == sent_b,
    ensures
        a == b,
{
}

/// A script is run, as given, in the window given; without a window it is not
/// run, and that is the reply.
pub proof fn law_execute_script<W>(
    window: Option<W>,
    eval: String,
    step: Step<Evaluation<W>, WebDriverJSResult>,
)
    requires
        call_ensures(handle_execute_script::<W>, (window, eval), step),
    ensures
        window matches Some(w) ==> (step matches Step::Ask(run) && run.window == w && run.script
            == eval),
        window is None ==> (step matches Step::Reply(reply) && reply == WebDriverJSResult::Err(
            WebDriverJSError::BrowsingContextNotFound,
        )),
{
}

/// The reply to a script that was run is what its value is sent as; a script
/// that left no value is replied to like one that left `undefined`.
pub proof fn law_script_reply<W>(
    run: Evaluation<W>,
    rval: Option<JsVal>,
    reply: WebDriverJSResult,
    sent: WebDriverJSResult,
)
    requires
        call_ensures(Evaluation::<W>::reply, (&run, rval), reply),
        rval matches Some(val) ==> call_ensures(jsval_to_webdriver, (val,), sent),
    ensures
        rval is Some ==> reply == sent,
        rval is None ==> reply == WebDriverJSResult::Ok(WebDriverJSValue::Undefined),
{
}

/// A script that replies by itself gets its channel first and is then run, as
/// given, in the window given; without a window the channel gets the refusal.
pub proof fn law_execute_async_script<W, C>(
    window: Option<W>,
    eval: String,
    reply: C,
    step: AsyncStep<W, C>,
)
    requires
        call_ensures(handle_execute_async_script::<W, C>, (window, eval, reply), step),
    ensures
        window matches Some(given) ==> {
            &&& step matches AsyncStep::Run { window, actions }
            &&& window == given
            &&& actions@.len() == 2
            &&& actions@[0] == AsyncAction::SetWebDriverScriptChan(reply)
            &&& actions@[1] == AsyncAction::<C>::Evaluate(eval)
        },
        window is None ==> {
            &&& step matches AsyncStep::Refuse { reply: chan, result }
            &&& chan == reply
            &&& result == WebDriverJSResult::Err(WebDriverJSError::BrowsingContextNotFound)
        },
{
}

/// A frame id names: by position, nothing; by element, what the `iframe` with
/// the id holds; as the parent, the context of the proxy directly above the
/// document's own.
pub proof fn law_browsing_context(
    documents: Documents,
    pipeline: PipelineId,
    position: u16,
    element_id: String,
    found: Option<&Node>,
    by_position: Result<BrowsingContextId, ()>,
    by_element: Result<BrowsingContextId, ()>,
    parent: Result<BrowsingContextId, ()>,
)
    requires
        call_ensures(find_node_by_unique_id, (&documents, pipeline, element_id), found),
        call_ensures(
            handle_get_browsing_context_id,
            (&documents, pipeline, WebDriverFrameId::Short(position)),
            by_position,
        ),
        call_ensures(
            handle_get_browsing_context_id,
            (&documents, pipeline, WebDriverFrameId::Element(element_id)),
            by_element,
        ),
        call_ensures(
            handle_get_browsing_context_id,
            (&documents, pipeline, WebDriverFrameId::Parent),
            parent,
        ),
    ensures
        by_position is Err,
        found is None ==> by_element is Err,
        found matches Some(node) ==> match node.element {
            Some(element) => match element.html {
                Some(html) => match html.interface {
                    HTMLInterface::IFrame(iframe) => match iframe.browsing_context_id {
                        Some(id) => by_element == Ok::<BrowsingContextId, ()>(id),
                        None => by_element is Err,
                    },
                    _ => by_element is Err,
                },
                None => by_element is Err,
            },
            None => by_element is Err,
        },
        !documents@.contains_key(pipeline) ==> parent is Err,
        documents@.contains_key(pipeline) ==> match documents@[pipeline].window.window_proxy.parent {
            Some(above) => parent == Ok::<BrowsingContextId, ()>(above.browsing_context_id),
            None => parent is Err,
        },
{
}

/// A find in a document looks below the document itself for what was given, and
/// is refused exactly where the pipeline has no document.
pub proof fn law_finds_in_a_document(
    documents: Documents,
    pipeline: PipelineId,
    selector: String,
    css: Step<QuerySelector, Result<Option<String>, ()>>,
    all_css: Step<QuerySelectorAll, Result<Vec<String>, ()>>,
    tag: Step<FirstByTagName, Result<Option<String>, ()>>,
    all_tag: Step<AllByTagName, Result<Vec<String>, ()>>,
)
    requires
        call_ensures(handle_find_element_css, (&documents, pipeline, selector), css),
        call_ensures(handle_find_elements_css, (&documents, pipeline, selector), all_css),
        call_ensures(handle_find_element_tag_name, (&documents, pipeline, selector), tag),
        call_ensures(handle_find_elements_tag_name, (&documents, pipeline, selector), all_tag),
    ensures
        !documents@.contains_key(pipeline) ==> {
            &&& css matches Step::Reply(r) && r is Err
            &&& all_css matches Step::Reply(r) && r is Err
            &&& tag matches Step::Reply(r) && r is Err
            &&& all_tag matches Step::Reply(r) && r is Err
        },
        documents@.contains_key(pipeline) ==> ({
            let handle = documents@[pipeline].node.node_ref.handle;
            &&& css matches Step::Ask(q) && q.root == handle && q.selector == selector
            &&& all_css matches Step::Ask(q) && q.root == handle && q.selector == selector
            &&& tag matches Step::Ask(q) && q.root == handle && q.qualified_name == selector
            &&& all_tag matches Step::Ask(q) && q.root == handle && q.qualified_name == selector
        }),
{
}

/// A find below a node looks below the very node that the id finds, for what
/// was given. By selector it is refused exactly where there is no such node; by
/// tag name also where the node is not an element.
pub proof fn law_finds_below_a_node(
    documents: Documents,
    pipeline: PipelineId,
    element_id: String,
    selector: String,
    found: Option<&Node>,
    css: Step<QuerySelector, Result<Option<String>, ()>>,
    all_css: Step<QuerySelectorAll, Result<Vec<String>, ()>>,
    tag: Step<FirstByTagName, Result<Option<String>, ()>>,
    all_tag: Step<AllByTagName, Result<Vec<String>, ()>>,
)
    requires
        call_ensures(find_node_by_unique_id, (&documents, pipeline, element_id), found),
        call_ensures(
            handle_find_element_element_css,
            (&documents, pipeline, element_id, selector),
            css,
        ),
        call_ensures(
            handle_find_element_elements_css,
            (&documents, pipeline, element_id, selector),
            all_css,
        ),
        call_ensures(
            handle_find_element_element_tag_name,
            (&documents, pipeline, element_id, selector),
            tag,
        ),
        call_ensures(
            handle_find_element_elements_tag_name,
            (&documents, pipeline, element_id, selector),
            all_tag,
        ),
    ensures
        found is None ==> {
            &&& css matches Step::Reply(r) && r is Err
            &&& all_css matches Step::Reply(r) && r is Err
        },
        found matches Some(node) ==> {
            &&& css matches Step::Ask(q) && q.root == node.node_ref.handle && q.selector
                == selector
            &&& all_css matches Step::Ask(q) && q.root == node.node_ref.handle && q.selector
                == selector
        },
        (found matches Some(node) ==> node.element is None) ==> {
            &&& tag matches Step::Reply(r) && r is Err
            &&& all_tag matches Step::Reply(r) && r is Err
        },
        found matches Some(node) ==> (node.element is Some ==> {
            &&& tag matches Step::Ask(q) && q.root == node.node_ref.handle && q.qualified_name
                == selector
            &&& all_tag matches Step::Ask(q) && q.root == node.node_ref.handle
                && q.qualified_name == selector
        }),
{
}

/// The reply to a look-up of one element is the id of the one found; a look-up
/// that failed is refused, and no other.
pub proof fn law_one_found<E>(
    css: QuerySelector,
    answer: Result<Option<NodeRef>, E>,
    css_reply: Result<Option<String>, ()>,
    tag: FirstByTagName,
    elements: Vec<NodeRef>,
    tag_reply: Result<Option<String>, ()>,
)
    requires
        call_ensures(QuerySelector::reply::<E>, (&css, answer), css_reply),
        call_ensures(FirstByTagName::reply, (&tag, elements), tag_reply),
    ensures
        answer is Err <==> css_reply is Err,
        answer matches Ok(None) ==> css_reply == Ok::<Option<String>, ()>(None),
        answer matches Ok(Some(node)) ==> css_reply == Ok::<Option<String>, ()>(
            Some(node.unique_id),
        ),
        elements@.len() == 0 ==> tag_reply == Ok::<Option<String>, ()>(None),
        elements@.len() > 0 ==> tag_reply == Ok::<Option<String>, ()>(
            Some(elements@[0].unique_id),
        ),
{
}

/// The reply to a look-up of all elements has one id for each of them, its own,
/// in their order; a look-up that failed is refused, and no other.
pub proof fn law_all_found<E>(
    css: QuerySelectorAll,
    answer: Result<Vec<NodeRef>, E>,
    css_reply: Result<Vec<String>, ()>,
    tag: AllByTagName,
    elements: Vec<NodeRef>,
    tag_reply: Result<Vec<String>, ()>,
)
    requires
        call_ensures(QuerySelectorAll::reply::<E>, (&css, answer), css_reply),
        call_ensures(AllByTagName::reply, (&tag, elements), tag_reply),
    ensures
        answer is Err <==> css_reply is Err,
        answer matches Ok(nodes) ==> {
            &&& css_reply matches Ok(ids)
            &&& ids@.len() == nodes@.len()
            &&& forall|i: int|
                0 <= i < nodes@.len() ==> #[trigger] ids@[i] == nodes@[i].unique_id
        },
        tag_reply matches Ok(ids) && ids@.len() == elements@.len() && forall|i: int|
            0 <= i < elements@.len() ==> #[trigger] ids@[i] == elements@[i].unique_id,
{
}

/// What is read of an element is its own: whether it is enabled, its tag name,
/// its attribute and its style. Each is refused where there is no such node, and
/// whether it is enabled also where the node is not an element.
pub proof fn law_element_reads(
    documents: Documents,
    pipeline: PipelineId,
    node_id: String,
    name: String,
    found: Option<&Node>,
    enabled: Result<bool, ()>,
    tag_name: Result<String, ()>,
    attribute: Step<GetAttribute, Result<Option<String>, ()>>,
    css: Step<GetComputedPropertyValue, Result<String, ()>>,
)
    requires
        call_ensures(find_node_by_unique_id, (&documents, pipeline, node_id), found),
        call_ensures(handle_is_enabled, (&documents, pipeline, node_id), enabled),
        call_ensures(handle_get_name, (&documents, pipeline, node_id), tag_name),
        call_ensures(handle_get_attribute, (&documents, pipeline, node_id, name), attribute),
        call_ensures(handle_get_css, (&documents, pipeline, node_id, name), css),
    ensures
        found is None ==> {
            &&& enabled is Err
            &&& tag_name is Err
            &&& attribute matches Step::Reply(r) && r is Err
            &&& css matches Step::Reply(r) && r is Err
        },
        found matches Some(node) ==> match node.element {
            Some(element) => {
                &&& enabled == Ok::<bool, ()>(element.enabled_state)
                &&& tag_name == Ok::<String, ()>(element.tag_name)
                &&& attribute matches Step::Ask(q) && q.element == node.node_ref.handle && q.name
                    == name
                &&& css matches Step::Ask(q) && q.element == node.node_ref.handle && q.property
                    == name
            },
            None => enabled is Err,
        },
{
}

/// The tag name, an attribute and the style may be asked for wherever the id
/// finds an element or nothing.
pub proof fn law_element_reads_are_open(
    documents: Documents,
    pipeline: PipelineId,
    node_id: String,
    name: String,
    found: Option<&Node>,
)
    requires
        call_ensures(find_node_by_unique_id, (&documents, pipeline, node_id), found),
        found matches Some(node) ==> node.element is Some,
    ensures
        call_requires(handle_get_name, (&documents, pipeline, node_id)),
        call_requires(handle_get_attribute, (&documents, pipeline, node_id, name)),
        call_requires(handle_get_css, (&documents, pipeline, node_id, name)),
{
}

/// The value of an attribute or of a style property is replied as it is.
pub proof fn law_values_are_passed_on(
    attribute: GetAttribute,
    value: Option<String>,
    attribute_reply: Result<Option<String>, ()>,
    css: GetComputedPropertyValue,
    property: String,
    css_reply: Result<String, ()>,
)
    requires
        call_ensures(GetAttribute::reply, (&attribute, value), attribute_reply),
        call_ensures(GetComputedPropertyValue::reply, (&css, property), css_reply),
    ensures
        attribute_reply matches Ok(v) && v == value,
        css_reply matches Ok(v) && v == property,
{
}

/// The focus goes to the very node that the id finds, exactly where that is
/// HTML, and the reply says whether it was HTML.
pub proof fn law_focus(
    documents: Documents,
    pipeline: PipelineId,
    element_id: String,
    found: Option<&Node>,
    outcome: Outcome<Focus, Result<(), ()>>,
)
    requires
        call_ensures(find_node_by_unique_id, (&documents, pipeline, element_id), found),
        call_ensures(handle_focus_element, (&documents, pipeline, element_id), outcome),
    ensures
        outcome.reply is Ok <==> (found matches Some(node) && node.element matches Some(element)
            && element.html is Some),
        outcome.action is Some <==> outcome.reply is Ok,
        outcome.action matches Some(focus) ==> (found matches Some(node) && focus.element
            == node.node_ref.handle),
{
}

/// An `input` is selected where it is checked, an `option` where it is
/// selected, no other HTML element ever; nothing else can be asked.
pub proof fn law_selected(
    documents: Documents,
    pipeline: PipelineId,
    element_id: String,
    found: Option<&Node>,
    selected: Result<bool, ()>,
)
    requires
        call_ensures(find_node_by_unique_id, (&documents, pipeline, element_id), found),
        call_ensures(handle_is_selected, (&documents, pipeline, element_id), selected),
    ensures
        found is None ==> selected is Err,
        found matches Some(node) ==> match node.element {
            Some(element) => match element.html {
                Some(html) => {
                    &&& html.interface matches HTMLInterface::Input(input) ==> selected == Ok::<
                        bool,
                        (),
                    >(input.checked)
                    &&& html.interface matches HTMLInterface::OptionItem(option) ==> selected
                        == Ok::<bool, ()>(option.selected)
                    &&& !(html.interface is Input || html.interface is OptionItem) ==> selected
                        == Ok::<bool, ()>(false)
                },
                None => selected is Err,
            },
            None => selected is Err,
        },
{
}

/// The text of a node is its own text content, or empty; it is refused exactly
/// where there is no such node.
pub proof fn law_text(
    documents: Documents,
    pipeline: PipelineId,
    node_id: String,
    found: Option<&Node>,
    reply: Result<String, ()>,
)
    requires
        call_ensures(find_node_by_unique_id, (&documents, pipeline, node_id), found),
        call_ensures(handle_get_text, (&documents, pipeline, node_id), reply),
    ensures
        reply is Ok <==> found is Some,
        found matches Some(node) ==> (reply matches Ok(text) && {
            &&& node.text_content matches Some(own) ==> text == own
            &&& node.text_content is None ==> text@.len() == 0
        }),
{
}

/// What is read of a document is that document's own; where there is none, its
/// active element is none, its title empty and its URL `about:blank`, which has
/// no host.
pub proof fn law_document_reads(
    documents: Documents,
    pipeline: PipelineId,
    active: Option<String>,
    title: String,
    url: ServoUrl,
    source: Step<GetOuterHTML, Result<String, ()>>,
)
    requires
        call_ensures(handle_get_active_element, (&documents, pipeline), active),
        call_ensures(handle_get_title, (&documents, pipeline), title),
        call_ensures(handle_get_url, (&documents, pipeline), url),
        call_ensures(handle_get_page_source, (&documents, pipeline), source),
    ensures
        !documents@.contains_key(pipeline) ==> {
            &&& active is None
            &&& title@.len() == 0
            &&& url.href@ == "about:blank"@
            &&& url.host is None
            &&& source matches Step::Reply(r) && r is Err
        },
        documents@.contains_key(pipeline) ==> ({
            let document = documents@[pipeline];
            &&& active is Some <==> document.active_element is Some
            &&& document.active_element matches Some(element) ==> active == Some(element.unique_id)
            &&& title == document.title
            &&& url.href == document.url.href
            &&& url.host == document.url.host
            &&& document.document_element matches Some(element) ==> (source matches Step::Ask(q)
                && q.element == element.handle)
            &&& document.document_element is None ==> (source matches Step::Reply(r) && r is Err)
        }),
{
}

/// A source that was made is the reply as it is: the HTML, or, only where that
/// could not be made, the same element's XML. Where neither could, the reply is
/// a refusal.
pub proof fn law_source<E, F>(
    question: GetOuterHTML,
    html: Result<String, E>,
    step: Step<SerializeToString, Result<String, ()>>,
    xml: Result<String, F>,
    reply: Result<String, ()>,
)
    requires
        call_ensures(GetOuterHTML::next::<E>, (&question, html), step),
        step matches Step::Ask(next) ==> call_ensures(
            SerializeToString::reply::<F>,
            (&next, xml),
            reply,
        ),
    ensures
        html matches Ok(source) ==> (step matches Step::Reply(r) && r == Ok::<String, ()>(source)),
        html is Err ==> {
            &&& step matches Step::Ask(next) && next.element == question.element
            &&& xml matches Ok(source) ==> reply == Ok::<String, ()>(source)
            &&& xml is Err ==> reply is Err
        },
{
}

/// The position of an element, given the walk that leads to it: `walk` begins
/// with the element and goes from each HTML element to its offset parent as long
/// as that is HTML, and `lefts` and `tops` are the subtotals of the offsets on
/// the way, without the element's own. There is a position exactly where every
/// subtotal is in range, and it is the last of them.
pub proof fn law_position(
    html: HTMLElement,
    walk: Seq<HTMLElement>,
    lefts: Seq<int>,
    tops: Seq<int>,
    position: Option<(i32, i32)>,
)
    requires
        call_ensures(absolute_position, (&html,), position),
        walk.len() > 0,
        walk[0] == html,
        walk.last().offset_parent matches Some(element) ==> element.html is None,
        forall|i: int|
            0 <= i < walk.len() - 1 ==> ((#[trigger] walk[i]).offset_parent matches Some(element)
                && element.html == Some(walk[i + 1])),
        lefts.len() == walk.len(),
        tops.len() == walk.len(),
        lefts[0] == 0,
        tops[0] == 0,
        forall|i: int|
            0 <= i < walk.len() - 1 ==> #[trigger] lefts[i] + walk[i + 1].offset_left == lefts[i
                + 1],
        forall|i: int|
            0 <= i < walk.len() - 1 ==> #[trigger] tops[i] + walk[i + 1].offset_top == tops[i + 1],
    ensures
        position is Some <==> forall|i: int|
            0 <= i < walk.len() ==> i32::MIN <= #[trigger] lefts[i] <= i32::MAX && i32::MIN
                <= tops[i] <= i32::MAX,
        position matches Some((x, y)) ==> x == lefts.last() && y == tops.last(),
{
    lemma_walk(html, walk, lefts, tops);
}

/// A rectangle can be asked for wherever the id finds nothing that is HTML, or
/// something that has a position. It is then owed to HTML alone, stands at the
/// element's position, and is as wide and as high as the element.
pub proof fn law_rect(
    documents: Documents,
    pipeline: PipelineId,
    element_id: String,
    found: Option<&Node>,
    position: Option<(i32, i32)>,
    reply: Result<Rect, ()>,
)
    requires
        call_ensures(find_node_by_unique_id, (&documents, pipeline, element_id), found),
        found matches Some(node) ==> (node.element matches Some(element) ==> (
        element.html matches Some(html) ==> call_ensures(absolute_position, (&html,), position)
            && position is Some)),
        call_ensures(handle_get_rect, (&documents, pipeline, element_id), reply),
    ensures
        call_requires(handle_get_rect, (&documents, pipeline, element_id)),
        reply is Ok <==> (found matches Some(node) && node.element matches Some(element)
            && element.html is Some),
        found matches Some(node) ==> (node.element matches Some(element) ==> (
        element.html matches Some(html) ==> (reply matches Ok(rect) && {
            &&& rect.x == position.unwrap().0
            &&& rect.y == position.unwrap().1
            &&& rect.width == html.offset_width
            &&& rect.height == html.offset_height
        }))),
{
}

proof fn lemma_walk(html: HTMLElement, walk: Seq<HTMLElement>, lefts: Seq<int>, tops: Seq<int>)
    requires
        walk.len() > 0,
        walk[0] == html,
        walk.last().offset_parent matches Some(element) ==> element.html is None,
        forall|i: int|
            0 <= i < walk.len() - 1 ==> ((#[trigger] walk[i]).offset_parent matches Some(element)
                && element.html == Some(walk[i + 1])),
        lefts.len() == walk.len(),
        tops.len() == walk.len(),
        lefts[0] == 0,
        tops[0] == 0,
        forall|i: int|
            0 <= i < walk.len() - 1 ==> #[trigger] lefts[i] + walk[i + 1].offset_left == lefts[i
                + 1],
        forall|i: int|
            0 <= i < walk.len() - 1 ==> #[trigger] tops[i] + walk[i + 1].offset_top == tops[i + 1],
    ensures
        offset_ancestors(html.offset_parent) == walk.drop_first(),
        position_fits(html) <==> forall|i: int|
            0 <= i < walk.len() ==> i32::MIN <= #[trigger] lefts[i] <= i32::MAX && i32::MIN
                <= tops[i] <= i32::MAX,
        total_left(walk.drop_first()) == lefts.last(),
        total_top(walk.drop_first()) == tops.last(),
{
    let ancestors = walk.drop_first();
    lemma_walk_ancestors(walk, 0);
    assert(walk.skip(1) =~= ancestors);
    assert forall|k: int| 0 <= k <= ancestors.len() implies #[trigger] total_left(ancestors.take(k))
        == lefts[k] && total_top(ancestors.take(k)) == tops[k] by {
        lemma_subtotals(walk, lefts, tops, k);
    }
    assert(ancestors.take(ancestors.len() as int) =~= ancestors);
    if position_fits(html) {
        assert forall|i: int| 0 <= i < walk.len() implies i32::MIN <= #[trigger] lefts[i]
            <= i32::MAX && i32::MIN <= tops[i] <= i32::MAX by {
            assert(total_left(ancestors.take(i)) == lefts[i]);
        }
    }
}

proof fn lemma_walk_ancestors(walk: Seq<HTMLElement>, i: int)
    requires
        0 <= i < walk.len(),
        walk.last().offset_parent matches Some(element) ==> element.html is None,
        forall|i: int|
            0 <= i < walk.len() - 1 ==> ((#[trigger] walk[i]).offset_parent matches Some(element)
                && element.html == Some(walk[i + 1])),
    ensures
        offset_ancestors(walk[i].offset_parent) == walk.skip(i + 1),
    decreases walk.len() - i,
{
    if i < walk.len() - 1 {
        lemma_walk_ancestors(walk, i + 1);
        assert(walk.skip(i + 1) =~= seq![walk[i + 1]] + walk.skip(i + 2));
    } else {
        assert(walk.skip(i + 1) =~= Seq::empty());
    }
}

proof fn lemma_subtotals(walk: Seq<HTMLElement>, lefts: Seq<int>, tops: Seq<int>, k: int)
    requires
        0 <= k < walk.len(),
        lefts.len() == walk.len(),
        tops.len() == walk.len(),
        lefts[0] == 0,
        tops[0] == 0,
        forall|i: int|
            0 <= i < walk.len() - 1 ==> #[trigger] lefts[i] + walk[i + 1].offset_left == lefts[i
                + 1],
        forall|i: int|
            0 <= i < walk.len() - 1 ==> #[trigger] tops[i] + walk[i + 1].offset_top == tops[i + 1],
    ensures
        total_left(walk.drop_first().take(k)) == lefts[k],
        total_top(walk.drop_first().take(k)) == tops[k],
    decreases k,
{
    let some = walk.drop_first().take(k);
    if k > 0 {
        lemma_subtotals(walk, lefts, tops, k - 1);
        assert(some.drop_last() =~= walk.drop_first().take(k - 1));
        assert(some.last() == walk[k]);
        assert(lefts[k - 1] + walk[k - 1 + 1].offset_left == lefts[k - 1 + 1]);
        assert(tops[k - 1] + walk[k - 1 + 1].offset_top == tops[k - 1 + 1]);
    }
}

/// A cookie-averse document takes no cookie, whatever its host and the cookie's
/// domain; any other takes a cookie exactly where it has no domain or that of
/// the document's host.
pub proof fn law_cookie_verdict(
    cookie_averse: bool,
    host: Option<String>,
    domain: Option<String>,
    verdict: Result<(), WebDriverCookieError>,
)
    requires
        call_ensures(judge_cookie, (cookie_averse, &host, &domain), verdict),
    ensures
        verdict == Err::<(), WebDriverCookieError>(WebDriverCookieError::InvalidDomain)
            <==> cookie_averse,
        verdict is Ok <==> !cookie_averse && match (host, domain) {
            (_, None) => true,
            (Some(h), Some(d)) => h@ == d@,
            (None, Some(_)) => false,
        },
{
}

/// A cookie is set on behalf of HTTP exactly where it is marked `HttpOnly`.
pub proof fn law_cookie_source(http_only: Option<bool>, source: CookieSource)
    requires
        call_ensures(source_for, (http_only,), source),
    ensures
        source == CookieSource::HTTP <==> http_only == Some(true),
{
}

/// A cookie is set exactly where the reply is that it was: by a document that is
/// not cookie-averse, for a cookie without a domain or with that of the
/// document's host. What is set is the cookie itself, for the document's URL, on
/// behalf of HTTP exactly where it is marked `HttpOnly`.
pub proof fn law_add_cookie(
    documents: Documents,
    pipeline: PipelineId,
    cookie: Cookie<'static>,
    outcome: Outcome<SetCookieForUrl, Result<(), WebDriverCookieError>>,
)
    requires
        call_ensures(handle_add_cookie, (&documents, pipeline, cookie), outcome),
    ensures
        outcome.action is Some <==> outcome.reply is Ok,
        !documents@.contains_key(pipeline) ==> outcome.reply == Err::<(), WebDriverCookieError>(
            WebDriverCookieError::UnableToSetCookie,
        ),
        documents@.contains_key(pipeline) ==> ({
            let document = documents@[pipeline];
            &&& outcome.reply == Err::<(), WebDriverCookieError>(
                WebDriverCookieError::InvalidDomain,
            ) <==> document.cookie_averse
            &&& outcome.reply is Ok <==> !document.cookie_averse && match cookie_domain(cookie) {
                Some(domain) => document.url.host matches Some(host) && host@ == domain,
                None => true,
            }
            &&& outcome.action matches Some(message) ==> {
                &&& message.url.href == document.url.href
                &&& message.url.host == document.url.host
                &&& message.cookie == cookie
                &&& message.source == CookieSource::HTTP <==> cookie_http_only(cookie) == Some(
                    true,
                )
            }
        }),
{
}

/// The cookies read are those of the document's own URL, as one that is not HTTP
/// sees them, for the name given where one was; and none where there is no
/// document. Those deleted are of that URL too.
pub proof fn law_cookie_questions(
    documents: Documents,
    pipeline: PipelineId,
    name: String,
    all: Step<GetCookiesDataForUrl, Vec<Cookie<'static>>>,
    named: Step<GetCookieDataForUrl, Vec<Cookie<'static>>>,
    deletion: Outcome<DeleteCookies, Result<(), ()>>,
)
    requires
        call_ensures(handle_get_cookies, (&documents, pipeline), all),
        call_ensures(handle_get_cookie, (&documents, pipeline, name), named),
        call_ensures(handle_delete_cookies, (&documents, pipeline), deletion),
    ensures
        !documents@.contains_key(pipeline) ==> {
            &&& all matches Step::Reply(cookies) && cookies@.len() == 0
            &&& named matches Step::Reply(cookies) && cookies@.len() == 0
            &&& deletion.action is None
            &&& deletion.reply is Err
        },
        documents@.contains_key(pipeline) ==> ({
            let url = documents@[pipeline].url;
            &&& all matches Step::Ask(q) && q.url.href == url.href && q.url.host == url.host
                && q.source == CookieSource::NonHTTP
            &&& named matches Step::Ask(q) && q.url.href == url.href && q.url.host == url.host
                && q.source == CookieSource::NonHTTP && q.name == name
            &&& deletion.action matches Some(message) && message.url.href == url.href
                && message.url.host == url.host
            &&& deletion.reply is Ok
        }),
{
}

/// All cookies that came are replied, as they came. Of those that came, a reply
/// by name has exactly the ones with the name, each as often as it came, in the
/// order in which they came: `kept` says at which places they stood.
pub proof fn law_cookie_replies(
    all: GetCookiesDataForUrl,
    named: GetCookieDataForUrl,
    cookies: Vec<Cookie<'static>>,
    all_reply: Vec<Cookie<'static>>,
    named_reply: Vec<Cookie<'static>>,
)
    requires
        call_ensures(GetCookiesDataForUrl::reply, (&all, cookies), all_reply),
        call_ensures(GetCookieDataForUrl::reply, (&named, cookies), named_reply),
    ensures
        all_reply@ == cookies@,
        exists|kept: Seq<int>|
            {
                &&& #[trigger] kept.len() == named_reply@.len()
                &&& forall|k: int|
                    0 <= k < kept.len() ==> 0 <= #[trigger] kept[k] < cookies@.len()
                        && named_reply@[k] == cookies@[kept[k]] && cookie_name(named_reply@[k])
                        == named.name@
                &&& forall|k: int, l: int|
                    0 <= k < l < kept.len() ==> #[trigger] kept[k] < #[trigger] kept[l]
                &&& forall|i: int|
                    0 <= i < cookies@.len() && cookie_name(#[trigger] cookies@[i]) == named.name@
                        ==> kept.contains(i)
            },
{
    let kept = lemma_places_kept(cookies@, named.name@);
    assert(kept.len() == named_reply@.len());
}

proof fn lemma_places_kept(cookies: Seq<Cookie<'static>>, name: Seq<char>) -> (kept: Seq<int>)
    ensures
        kept.len() == cookies_named(cookies, name).len(),
        forall|k: int|
            0 <= k < kept.len() ==> 0 <= #[trigger] kept[k] < cookies.len() && cookies_named(
                cookies,
                name,
            )[k] == cookies[kept[k]] && cookie_name(cookies_named(cookies, name)[k]) == name,
        forall|k: int, l: int| 0 <= k < l < kept.len() ==> #[trigger] kept[k] < #[trigger] kept[l],
        forall|i: int|
            0 <= i < cookies.len() && cookie_name(#[trigger] cookies[i]) == name ==> kept.contains(
                i,
            ),
    decreases cookies.len(),
{
    reveal(Seq::filter);
    if cookies.len() == 0 {
        Seq::empty()
    } else {
        let rest = cookies.drop_last();
        let last = cookies.len() - 1;
        let earlier = lemma_places_kept(rest, name);
        let kept = if cookie_name(cookies.last()) == name {
            earlier.push(last)
        } else {
            earlier
        };
        assert forall|i: int|
            0 <= i < cookies.len() && cookie_name(#[trigger] cookies[i])
                == name implies kept.contains(i) by {
            if i == last {
                assert(kept[kept.len() - 1] == i);
            } else {
                assert(rest[i] == cookies[i]);
                let k = earlier.index_of(i);
                assert(kept[k] == i);
            }
        }
        kept
    }
}

/// A cookie is asked for by name exactly where its name is the one given.
pub proof fn law_cookie_wanted(question: GetCookieDataForUrl, name: String, wanted: bool)
    requires
        call_ensures(GetCookieDataForUrl::wants, (&question, &name), wanted),
    ensures
        wanted <==> name@ == question.name@,
{
}

} // verus!
