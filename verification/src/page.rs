//! What a command reads of a document as a whole.

use crate::documents::{document_for, Documents, ServoUrl};
use crate::ids::PipelineId;
use crate::step::Step;
use vstd::prelude::*;

verus! {

/// Asks for the HTML that stands for an element.
#[derive(Clone, Copy, Debug, PartialEq, Eq, Structural)]
pub struct GetOuterHTML {
    pub element: u64,
}

/// Asks for an element as XML.
#[derive(Clone, Copy, Debug, PartialEq, Eq, Structural)]
pub struct SerializeToString {
    pub element: u64,
}

/// Has the source of the document's root element made; refuses when there is no
/// document, or one without a root element.
pub fn handle_get_page_source(documents: &Documents, pipeline: PipelineId) -> (step: Step<
    GetOuterHTML,
    Result<String, ()>,
>)
    ensures
        step.asks_else_refuses(
            match document_for(documents@, pipeline) {
                Some(document) => match document.document_element {
                    Some(element) => Some((GetOuterHTML { element: element.handle })),
                    None => None,
                },
                None => None,
            },
        ),
{
    match documents.find_document(pipeline) {
        Some(document) => match &document.document_element {
            Some(element) => Step::Ask(GetOuterHTML { element: element.handle }),
            None => Step::Reply(Err(())),
        },
        None => Step::Reply(Err(())),
    }
}

/// What follows when the HTML of an element was asked for: the reply, or the
/// question for the same element as XML.
pub open spec fn after_outer_html<E>(element: u64, answer: Result<String, E>) -> Step<
    SerializeToString,
    Result<String, ()>,
> {
    match answer {
        Ok(source) => Step::Reply(Ok(source)),
        Err(_) => Step::Ask(SerializeToString { element }),
    }
}

/// The reply when an element was asked for as XML.
pub open spec fn after_xml<E>(answer: Result<String, E>) -> Result<String, ()> {
    match answer {
        Ok(source) => Ok(source),
        Err(_) => Err(()),
    }
}

impl GetOuterHTML {
    /// Replies with the HTML; where it could not be made, has the same element
    /// made into XML instead.
    pub fn next<E>(&self, answer: Result<String, E>) -> (step: Step<
        SerializeToString,
        Result<String, ()>,
    >)
        ensures
            step == after_outer_html(self.element, answer),
    {
        match answer {
            Ok(source) => Step::Reply(Ok(source)),
            Err(_) => Step::Ask(SerializeToString { element: self.element }),
        }
    }
}

impl SerializeToString {
    /// Replies with the XML; refuses when it could not be made either.
    pub fn reply<E>(&self, answer: Result<String, E>) -> (reply: Result<String, ()>)
        ensures
            reply == after_xml(answer),
    {
        match answer {
            Ok(source) => Ok(source),
            Err(_) => Err(()),
        }
    }
}

/// A document's source is its HTML where that can be made, and then nothing
/// else is asked; else it is the same element's XML; it is refused only where
/// neither can be made.
pub proof fn law_page_source<E, F>(element: u64, html: Result<String, E>, xml: Result<String, F>)
    ensures
        match after_outer_html(element, html) {
            Step::Reply(reply) => html is Ok && reply == Ok::<String, ()>(html->Ok_0),
            Step::Ask(question) => {
                &&& html is Err
                &&& question.element == element
                &&& xml matches Ok(source) ==> after_xml(xml) == Ok::<String, ()>(source)
                &&& xml is Err <==> after_xml(xml) is Err
            },
        },
{
}

/// Replies with the document's title; with an empty one when there is no
/// document.
pub fn handle_get_title(documents: &Documents, pipeline: PipelineId) -> (reply: String)
    ensures
        match document_for(documents@, pipeline) {
            Some(document) => reply == document.title,
            None => reply@ == Seq::<char>::empty(),
        },
{
    match documents.find_document(pipeline) {
        Some(document) => document.title.clone(),
        None => String::new(),
    }
}

/// Replies with the document's URL; with `about:blank` when there is no
/// document.
pub fn handle_get_url(documents: &Documents, pipeline: PipelineId) -> (reply: ServoUrl)
    ensures
        match document_for(documents@, pipeline) {
            Some(document) => reply == document.url,
            None => reply.href@ == "about:blank"@ && reply.host is None,
        },
{
    match documents.find_document(pipeline) {
        Some(document) => document.url.clone(),
        None => ServoUrl { href: "about:blank".to_owned(), host: None },
    }
}

} // verus!
