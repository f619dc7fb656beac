//! Finding elements, in a whole document or below one of its nodes.

use crate::documents::{
    document_for, find_node_by_unique_id, ids_are_unique, law_id_names_its_node, node_for, Document,
    Documents,
};
use crate::dom::{Node, NodeRef};
use crate::ids::PipelineId;
use crate::step::Step;
use vstd::prelude::*;

verus! {

/// Asks for the first element below `root` that matches `selector`.
#[derive(Debug, PartialEq)]
pub struct QuerySelector {
    pub root: u64,
    pub selector: String,
}

/// Asks for the elements below `root` that match `selector`, in tree order.
#[derive(Debug, PartialEq)]
pub struct QuerySelectorAll {
    pub root: u64,
    pub selector: String,
}

/// Asks for the elements below `root` with a qualified name, in tree order, for
/// the sake of the first.
#[derive(Debug, PartialEq)]
pub struct FirstByTagName {
    pub root: u64,
    pub qualified_name: String,
}

/// Asks for the elements below `root` with a qualified name, in tree order.
#[derive(Debug, PartialEq)]
pub struct AllByTagName {
    pub root: u64,
    pub qualified_name: String,
}

/// The handle of the pipeline's document, if it has one.
pub open spec fn document_handle(
    documents: Map<PipelineId, Document>,
    pipeline: PipelineId,
) -> Option<u64> {
    match document_for(documents, pipeline) {
        Some(document) => Some(document.node.node_ref.handle),
        None => None,
    }
}

/// The handle of the node that a command names, if there is one.
pub open spec fn node_handle(
    documents: Map<PipelineId, Document>,
    pipeline: PipelineId,
    node_id: Seq<char>,
) -> Option<u64> {
    match node_for(documents, pipeline, node_id) {
        Some(node) => Some(node.node_ref.handle),
        None => None,
    }
}

/// The handle of the element that a command names: of the node that it names,
/// if that is an element.
pub open spec fn element_handle(
    documents: Map<PipelineId, Document>,
    pipeline: PipelineId,
    node_id: Seq<char>,
) -> Option<u64> {
    match node_for(documents, pipeline, node_id) {
        Some(node) => if node.element is Some {
            Some(node.node_ref.handle)
        } else {
            None
        },
        None => None,
    }
}

/// Has the first element of the document that matches `selector` looked up;
/// refuses when the pipeline has no document.
pub fn handle_find_element_css(
    documents: &Documents,
    pipeline: PipelineId,
    selector: String,
) -> (step: Step<QuerySelector, Result<Option<String>, ()>>)
    ensures
        step.asks_else_refuses(
            match document_handle(documents@, pipeline) {
                Some(root) => Some(QuerySelector { root, selector }),
                None => None,
            },
        ),
{
    match documents.find_document(pipeline) {
        Some(document) => Step::Ask(
            QuerySelector { root: document.node.node_ref.handle, selector },
        ),
        None => Step::Reply(Err(())),
    }
}

/// Has the elements of the document with the tag name `selector` looked up,
/// for the first of them; refuses when the pipeline has no document.
pub fn handle_find_element_tag_name(
    documents: &Documents,
    pipeline: PipelineId,
    selector: String,
) -> (step: Step<FirstByTagName, Result<Option<String>, ()>>)
    ensures
        step.asks_else_refuses(
            match document_handle(documents@, pipeline) {
                Some(root) => Some(FirstByTagName { root, qualified_name: selector }),
                None => None,
            },
        ),
{
    match documents.find_document(pipeline) {
        Some(document) => Step::Ask(
            FirstByTagName {
                root: document.node.node_ref.handle,
                qualified_name: selector,
            },
        ),
        None => Step::Reply(Err(())),
    }
}

/// Has the elements of the document that match `selector` looked up; refuses
/// when the pipeline has no document.
pub fn handle_find_elements_css(
    documents: &Documents,
    pipeline: PipelineId,
    selector: String,
) -> (step: Step<QuerySelectorAll, Result<Vec<String>, ()>>)
    ensures
        step.asks_else_refuses(
            match document_handle(documents@, pipeline) {
                Some(root) => Some(QuerySelectorAll { root, selector }),
                None => None,
            },
        ),
{
    match documents.find_document(pipeline) {
        Some(document) => Step::Ask(
            QuerySelectorAll { root: document.node.node_ref.handle, selector },
        ),
        None => Step::Reply(Err(())),
    }
}

/// Has the elements of the document with the tag name `selector` looked up;
/// refuses when the pipeline has no document.
pub fn handle_find_elements_tag_name(
    documents: &Documents,
    pipeline: PipelineId,
    selector: String,
) -> (step: Step<AllByTagName, Result<Vec<String>, ()>>)
    ensures
        step.asks_else_refuses(
            match document_handle(documents@, pipeline) {
                Some(root) => Some(AllByTagName { root, qualified_name: selector }),
                None => None,
            },
        ),
{
    match documents.find_document(pipeline) {
        Some(document) => Step::Ask(
            AllByTagName {
                root: document.node.node_ref.handle,
                qualified_name: selector,
            },
        ),
        None => Step::Reply(Err(())),
    }
}

/// Has the first element below a node that matches `selector` looked up;
/// refuses when `element_id` names no node.
pub fn handle_find_element_element_css(
    documents: &Documents,
    pipeline: PipelineId,
    element_id: String,
    selector: String,
) -> (step: Step<QuerySelector, Result<Option<String>, ()>>)
    ensures
        step.asks_else_refuses(
            match node_handle(documents@, pipeline, element_id@) {
                Some(root) => Some(QuerySelector { root, selector }),
                None => None,
            },
        ),
{
    match find_node_by_unique_id(documents, pipeline, element_id) {
        Some(node) => Step::Ask(QuerySelector { root: node.node_ref.handle, selector }),
        None => Step::Reply(Err(())),
    }
}

/// Has the elements below an element with the tag name `selector` looked up,
/// for the first of them; refuses when `element_id` names no node, or one that
/// is not an element.
pub fn handle_find_element_element_tag_name(
    documents: &Documents,
    pipeline: PipelineId,
    element_id: String,
    selector: String,
) -> (step: Step<FirstByTagName, Result<Option<String>, ()>>)
    ensures
        step.asks_else_refuses(
            match element_handle(documents@, pipeline, element_id@) {
                Some(root) => Some(FirstByTagName { root, qualified_name: selector }),
                None => None,
            },
        ),
{
    match find_node_by_unique_id(documents, pipeline, element_id) {
        Some(node) => match node.downcast_element() {
            Some(_) => Step::Ask(
                FirstByTagName {
                    root: node.node_ref.handle,
                    qualified_name: selector,
                },
            ),
            None => Step::Reply(Err(())),
        },
        None => Step::Reply(Err(())),
    }
}

/// Has the elements below a node that match `selector` looked up; refuses when
/// `element_id` names no node.
pub fn handle_find_element_elements_css(
    documents: &Documents,
    pipeline: PipelineId,
    element_id: String,
    selector: String,
) -> (step: Step<QuerySelectorAll, Result<Vec<String>, ()>>)
    ensures
        step.asks_else_refuses(
            match node_handle(documents@, pipeline, element_id@) {
                Some(root) => Some(QuerySelectorAll { root, selector }),
                None => None,
            },
        ),
{
    match find_node_by_unique_id(documents, pipeline, element_id) {
        Some(node) => Step::Ask(
            QuerySelectorAll { root: node.node_ref.handle, selector },
        ),
        None => Step::Reply(Err(())),
    }
}

/// Has the elements below an element with the tag name `selector` looked up;
/// refuses when `element_id` names no node, or one that is not an element.
pub fn handle_find_element_elements_tag_name(
    documents: &Documents,
    pipeline: PipelineId,
    element_id: String,
    selector: String,
) -> (step: Step<AllByTagName, Result<Vec<String>, ()>>)
    ensures
        step.asks_else_refuses(
            match element_handle(documents@, pipeline, element_id@) {
                Some(root) => Some(AllByTagName { root, qualified_name: selector }),
                None => None,
            },
        ),
{
    match find_node_by_unique_id(documents, pipeline, element_id) {
        Some(node) => match node.downcast_element() {
            Some(_) => Step::Ask(
                AllByTagName {
                    root: node.node_ref.handle,
                    qualified_name: selector,
                },
            ),
            None => Step::Reply(Err(())),
        },
        None => Step::Reply(Err(())),
    }
}

/// The unique ids of the nodes, in the same order.
pub open spec fn unique_ids(nodes: Seq<NodeRef>) -> Seq<String> {
    nodes.map_values(|node: NodeRef| node.unique_id)
}

/// The unique id of the first of the nodes, if there is one.
pub open spec fn first_unique_id(nodes: Seq<NodeRef>) -> Option<String> {
    if nodes.len() > 0 {
        Some(nodes[0].unique_id)
    } else {
        None
    }
}

/// The reply for the first match of a selector: its unique id, if there is one.
pub open spec fn match_reply<E>(answer: Result<Option<NodeRef>, E>) -> Result<Option<String>, ()> {
    match answer {
        Ok(Some(node)) => Ok(Some(node.unique_id)),
        Ok(None) => Ok(None),
        Err(_) => Err(()),
    }
}

/// The ids in the reply for all matches of a selector: those of the matches, in
/// the same order.
pub open spec fn matches_reply<E>(answer: Result<Vec<NodeRef>, E>) -> Result<Seq<String>, ()> {
    match answer {
        Ok(nodes) => Ok(unique_ids(nodes@)),
        Err(_) => Err(()),
    }
}

/// The ids that a reply lists, where it is no refusal.
pub open spec fn ids_in(reply: Result<Vec<String>, ()>) -> Result<Seq<String>, ()> {
    match reply {
        Ok(ids) => Ok(ids@),
        Err(_) => Err(()),
    }
}

impl QuerySelector {
    /// Replies with the unique id of the match, if there is one; refuses when
    /// the look-up failed, whatever the reason.
    pub fn reply<E>(&self, answer: Result<Option<NodeRef>, E>) -> (reply: Result<
        Option<String>,
        (),
    >)
        ensures
            reply == match_reply(answer),
    {
        match answer {
            Ok(Some(node)) => Ok(Some(node.unique_id)),
            Ok(None) => Ok(None),
            Err(_) => Err(()),
        }
    }
}

impl FirstByTagName {
    /// Replies with the unique id of the first of the elements, if there is one.
    pub fn reply(&self, elements: Vec<NodeRef>) -> (reply: Result<Option<String>, ()>)
        ensures
            reply == Ok::<Option<String>, ()>(first_unique_id(elements@)),
    {
        if elements.len() > 0 {
            Ok(Some(elements[0].unique_id.clone()))
        } else {
            Ok(None)
        }
    }
}

impl QuerySelectorAll {
    /// Replies with the unique ids of the matches, in the same order; refuses
    /// when the look-up failed, whatever the reason.
    pub fn reply<E>(&self, answer: Result<Vec<NodeRef>, E>) -> (reply: Result<Vec<String>, ()>)
        ensures
            ids_in(reply) == matches_reply(answer),
    {
        match answer {
            Ok(nodes) => Ok(collect_unique_ids(&nodes)),
            Err(_) => Err(()),
        }
    }
}

impl AllByTagName {
    /// Replies with the unique ids of the elements, in the same order.
    pub fn reply(&self, elements: Vec<NodeRef>) -> (reply: Result<Vec<String>, ()>)
        ensures
            reply matches Ok(ids) && ids@ == unique_ids(elements@),
    {
        Ok(collect_unique_ids(&elements))
    }
}

fn collect_unique_ids(nodes: &Vec<NodeRef>) -> (ids: Vec<String>)
    ensures
        ids@ == unique_ids(nodes@),
{
    let mut ids: Vec<String> = Vec::new();
    let mut i: usize = 0;
    while i < nodes.len()
        invariant
            i <= nodes@.len(),
            ids@ == unique_ids(nodes@.take(i as int)),
        decreases nodes@.len() - i,
    {
        ids.push(nodes[i].unique_id.clone());
        i = i + 1;
    }
    assert(nodes@.take(i as int) =~= nodes@);
    ids
}

/// The first element that a tag name finds is the first of all that it finds:
/// the reply for the one is the first id of the reply for the many, and the one
/// reply holds no id exactly when the other is empty.
pub proof fn law_first_is_first_of_all(elements: Seq<NodeRef>)
    ensures
        first_unique_id(elements) is None <==> unique_ids(elements).len() == 0,
        first_unique_id(elements) matches Some(id) ==> id == unique_ids(elements)[0],
{
}

/// The first match of a selector is the first of all its matches: where the
/// look-ups agree so, the reply for the one is the first id of the reply for the
/// many, and the one reply holds no id exactly when the other is empty.
pub proof fn law_css_first_is_first_of_all(one: Option<NodeRef>, all: Seq<NodeRef>)
    requires
        one == (if all.len() > 0 {
            Some(all[0])
        } else {
            None
        }),
    ensures
        (match one {
            Some(node) => Some(node.unique_id),
            None => None,
        }) == first_unique_id(all),
        first_unique_id(all) is None <==> unique_ids(all).len() == 0,
        first_unique_id(all) matches Some(id) ==> id == unique_ids(all)[0],
{
    law_first_is_first_of_all(all);
}

/// What comes of a find for one match of a selector, given what the look-up
/// answers if it is asked.
pub open spec fn one_found<E>(
    step: Step<QuerySelector, Result<Option<String>, ()>>,
    answer: Result<Option<NodeRef>, E>,
) -> Result<Option<String>, ()> {
    match step {
        Step::Ask(_) => match_reply(answer),
        Step::Reply(reply) => reply,
    }
}

/// What comes of a find for all matches of a selector, given what the look-up
/// answers if it is asked.
pub open spec fn all_found<E>(
    step: Step<QuerySelectorAll, Result<Vec<String>, ()>>,
    answer: Result<Vec<NodeRef>, E>,
) -> Result<Seq<String>, ()> {
    match step {
        Step::Ask(_) => matches_reply(answer),
        Step::Reply(reply) => ids_in(reply),
    }
}

/// A find for one match of a selector and a find for all of them, in the same
/// document or below the same node, go together. `root` is where both look, if
/// there is such a document or node. Where the look-ups fail alike, and the one
/// match is the first of all, the finds are refused alike, and otherwise the one
/// gives the first id of the many, or none where the many are none.
pub proof fn law_css_finds_agree<E, F>(
    root: Option<u64>,
    selector: String,
    first: Step<QuerySelector, Result<Option<String>, ()>>,
    list: Step<QuerySelectorAll, Result<Vec<String>, ()>>,
    one: Result<Option<NodeRef>, E>,
    all: Result<Vec<NodeRef>, F>,
)
    requires
        first.asks_else_refuses(
            match root {
                Some(root) => Some((QuerySelector { root, selector })),
                None => None,
            },
        ),
        list.asks_else_refuses(
            match root {
                Some(root) => Some((QuerySelectorAll { root, selector })),
                None => None,
            },
        ),
        one is Ok <==> all is Ok,
        one matches Ok(node) ==> node == (if all->Ok_0@.len() > 0 {
            Some(all->Ok_0@[0])
        } else {
            None
        }),
    ensures
        one_found(first, one) == (match all_found(list, all) {
            Ok(ids) => Ok(
                if ids.len() > 0 {
                    Some(ids[0])
                } else {
                    None
                },
            ),
            Err(_) => Err(()),
        }),
{
}

/// Every id in a reply names the element that it was given out for, when the
/// elements found are nodes of the document and no two nodes share an id.
pub proof fn law_replied_ids_resolve(
    documents: Map<PipelineId, Document>,
    pipeline: PipelineId,
    elements: Seq<NodeRef>,
    found: Seq<Node>,
    i: int,
)
    requires
        documents.contains_key(pipeline),
        ids_are_unique(documents[pipeline]),
        elements == found.map_values(|node: Node| node.node_ref),
        0 <= i < found.len(),
        documents[pipeline].node.preorder().contains(found[i]),
    ensures
        node_for(documents, pipeline, unique_ids(elements)[i]@) == Some(found[i]),
{
    law_id_names_its_node(documents, pipeline, found[i]);
}

} // verus!
