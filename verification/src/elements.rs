//! What a command reads of one element or changes about it.

use crate::documents::{
    document_for, element_for, find_node_by_unique_id, html_element_for, node_for, Document,
    Documents,
};
use crate::dom::{Element, HTMLElement, HTMLInterface};
use crate::find::element_handle;
use crate::ids::PipelineId;
use crate::rect::rect_reply;
use crate::step::{Outcome, Step};
use vstd::prelude::*;

verus! {

/// Asks for the value of an element's attribute.
#[derive(Debug, PartialEq)]
pub struct GetAttribute {
    pub element: u64,
    pub name: String,
}

/// Asks for the value of a property in an element's computed style, as seen
/// from the element's own window and without a pseudo-element.
#[derive(Debug, PartialEq)]
pub struct GetComputedPropertyValue {
    pub element: u64,
    pub property: String,
}

/// Has an element take the focus.
#[derive(Clone, Copy, Debug, PartialEq, Eq, Structural)]
pub struct Focus {
    pub element: u64,
}

/// Whether the focus of an element can be asked for: whether it is HTML.
pub open spec fn focus_reply(html: Option<HTMLElement>) -> Result<(), ()> {
    match html {
        Some(_) => Ok(()),
        None => Err(()),
    }
}

/// Whether an element is enabled.
pub open spec fn is_enabled_reply(element: Option<Element>) -> Result<bool, ()> {
    match element {
        Some(element) => Ok(element.enabled_state),
        None => Err(()),
    }
}

/// Whether an element is selected: whether an `input` is checked or an
/// `option` selected; other HTML elements are not selectable.
pub open spec fn is_selected_reply(html: Option<HTMLElement>) -> Result<bool, ()> {
    match html {
        Some(html) => match html.interface {
            HTMLInterface::Input(input) => Ok(input.checked),
            HTMLInterface::OptionItem(option) => Ok(option.selected),
            _ => Ok(false),
        },
        None => Err(()),
    }
}

/// Has the HTML element that `element_id` names take the focus; refuses when
/// there is none. Whether the element took the focus is not part of the reply.
pub fn handle_focus_element(
    documents: &Documents,
    pipeline: PipelineId,
    element_id: String,
) -> (outcome: Outcome<Focus, Result<(), ()>>)
    ensures
        outcome.reply == focus_reply(html_element_for(documents@, pipeline, element_id@)),
        outcome.action == (match html_element_for(documents@, pipeline, element_id@) {
            Some(_) => Some(
                (Focus {
                    element: node_for(documents@, pipeline, element_id@).unwrap().node_ref.handle,
                }),
            ),
            None => None,
        }),
{
    match find_node_by_unique_id(documents, pipeline, element_id) {
        Some(node) => match node.downcast_html_element() {
            Some(_) => Outcome {
                action: Some(Focus { element: node.node_ref.handle }),
                reply: Ok(()),
            },
            None => Outcome { action: None, reply: Err(()) },
        },
        None => Outcome { action: None, reply: Err(()) },
    }
}

/// Replies with the unique id of the document's active element; with none when
/// there is no active element or no document.
pub fn handle_get_active_element(documents: &Documents, pipeline: PipelineId) -> (reply: Option<
    String,
>)
    ensures
        reply == (match document_for(documents@, pipeline) {
            Some(document) => match document.active_element {
                Some(element) => Some(element.unique_id),
                None => None,
            },
            None => None,
        }),
{
    match documents.find_document(pipeline) {
        Some(document) => match &document.active_element {
            Some(element) => Some(element.unique_id.clone()),
            None => None,
        },
        None => None,
    }
}

/// Replies with the text content of the node that `node_id` names, empty for a
/// kind of node that has none; refuses when there is no such node.
pub fn handle_get_text(documents: &Documents, pipeline: PipelineId, node_id: String) -> (reply:
    Result<String, ()>)
    ensures
        match node_for(documents@, pipeline, node_id@) {
            Some(node) => match node.text_content {
                Some(text) => reply == Ok::<String, ()>(text),
                None => reply matches Ok(text) && text@ == Seq::<char>::empty(),
            },
            None => reply == Err::<String, ()>(()),
        },
{
    match find_node_by_unique_id(documents, pipeline, node_id) {
        Some(node) => match &node.text_content {
            Some(text) => Ok(text.clone()),
            None => Ok(String::new()),
        },
        None => Err(()),
    }
}

/// Replies with the tag name of the element that `node_id` names; refuses when
/// it names no node. A node that it names has to be an element.
pub fn handle_get_name(documents: &Documents, pipeline: PipelineId, node_id: String) -> (reply:
    Result<String, ()>)
    requires
        node_for(documents@, pipeline, node_id@) matches Some(node) ==> node.element is Some,
    ensures
        reply == (match element_for(documents@, pipeline, node_id@) {
            Some(element) => Ok(element.tag_name),
            None => Err(()),
        }),
{
    match find_node_by_unique_id(documents, pipeline, node_id) {
        Some(node) => Ok(node.downcast_element().unwrap().tag_name.clone()),
        None => Err(()),
    }
}

/// Has an attribute of the element that `node_id` names looked up; refuses when
/// it names no node. A node that it names has to be an element.
pub fn handle_get_attribute(
    documents: &Documents,
    pipeline: PipelineId,
    node_id: String,
    name: String,
) -> (step: Step<GetAttribute, Result<Option<String>, ()>>)
    requires
        node_for(documents@, pipeline, node_id@) matches Some(node) ==> node.element is Some,
    ensures
        step.asks_else_refuses(
            match element_handle(documents@, pipeline, node_id@) {
                Some(element) => Some((GetAttribute { element, name })),
                None => None,
            },
        ),
{
    match find_node_by_unique_id(documents, pipeline, node_id) {
        Some(node) => Step::Ask(GetAttribute { element: node.node_ref.handle, name }),
        None => Step::Reply(Err(())),
    }
}

impl GetAttribute {
    /// Replies with the attribute's value, if the element has the attribute.
    pub fn reply(&self, value: Option<String>) -> (reply: Result<Option<String>, ()>)
        ensures
            reply == Ok::<Option<String>, ()>(value),
    {
        Ok(value)
    }
}

/// Has a property in the computed style of the element that `node_id` names
/// looked up; refuses when it names no node. A node that it names has to be an
/// element.
pub fn handle_get_css(
    documents: &Documents,
    pipeline: PipelineId,
    node_id: String,
    name: String,
) -> (step: Step<GetComputedPropertyValue, Result<String, ()>>)
    requires
        node_for(documents@, pipeline, node_id@) matches Some(node) ==> node.element is Some,
    ensures
        step.asks_else_refuses(
            match element_handle(documents@, pipeline, node_id@) {
                Some(element) => Some((GetComputedPropertyValue { element, property: name })),
                None => None,
            },
        ),
{
    match find_node_by_unique_id(documents, pipeline, node_id) {
        Some(node) => Step::Ask(
            GetComputedPropertyValue { element: node.node_ref.handle, property: name },
        ),
        None => Step::Reply(Err(())),
    }
}

impl GetComputedPropertyValue {
    /// Replies with the property's value.
    pub fn reply(&self, value: String) -> (reply: Result<String, ()>)
        ensures
            reply == Ok::<String, ()>(value),
    {
        Ok(value)
    }
}

/// Replies whether the element that `element_id` names is enabled; refuses when
/// it names no node, or one that is not an element.
pub fn handle_is_enabled(documents: &Documents, pipeline: PipelineId, element_id: String) -> (reply:
    Result<bool, ()>)
    ensures
        reply == is_enabled_reply(element_for(documents@, pipeline, element_id@)),
{
    match find_node_by_unique_id(documents, pipeline, element_id) {
        Some(node) => match node.downcast_element() {
            Some(element) => Ok(element.enabled_state),
            None => Err(()),
        },
        None => Err(()),
    }
}

/// Replies whether the HTML element that `element_id` names is selected;
/// refuses when there is none.
pub fn handle_is_selected(
    documents: &Documents,
    pipeline: PipelineId,
    element_id: String,
) -> (reply: Result<bool, ()>)
    ensures
        reply == is_selected_reply(html_element_for(documents@, pipeline, element_id@)),
{
    match find_node_by_unique_id(documents, pipeline, element_id) {
        Some(node) => match node.downcast_html_element() {
            Some(html) => match &html.interface {
                HTMLInterface::Input(input) => Ok(input.checked),
                HTMLInterface::OptionItem(option) => Ok(option.selected),
                _ => Ok(false),
            },
            None => Err(()),
        },
        None => Err(()),
    }
}

/// An element has a rectangle, can be focused and can be asked whether it is
/// selected, all or none of them: when it is HTML. One that can be is an
/// element, so it can be asked whether it is enabled.
pub proof fn law_html_replies_agree(
    documents: Map<PipelineId, Document>,
    pipeline: PipelineId,
    element_id: Seq<char>,
)
    ensures
        ({
            let html = html_element_for(documents, pipeline, element_id);
            let element = element_for(documents, pipeline, element_id);
            &&& focus_reply(html) is Ok <==> is_selected_reply(html) is Ok
            &&& focus_reply(html) is Ok <==> rect_reply(html) is Ok
            &&& focus_reply(html) is Ok ==> is_enabled_reply(element) is Ok
        }),
{
}

} // verus!
