//! The browsing context that a command's frame id names.

use crate::documents::{document_for, find_node_by_unique_id, node_for, Document, Documents};
use crate::ids::{BrowsingContextId, PipelineId, WebDriverFrameId};
use vstd::prelude::*;

verus! {

/// The browsing context that `frame_id` names as seen from the document of
/// `pipeline`: what an `iframe` element holds, or the parent of the
/// document's own. A frame is not found by its position.
pub open spec fn browsing_context_for(
    documents: Map<PipelineId, Document>,
    pipeline: PipelineId,
    frame_id: WebDriverFrameId,
) -> Option<BrowsingContextId> {
    match frame_id {
        WebDriverFrameId::Short(_) => None,
        WebDriverFrameId::Element(element_id) => match node_for(
            documents,
            pipeline,
            element_id@,
        ) {
            Some(node) => match node.iframe() {
                Some(iframe) => iframe.browsing_context_id,
                None => None,
            },
            None => None,
        },
        WebDriverFrameId::Parent => match document_for(documents, pipeline) {
            Some(document) => match document.window.window_proxy.parent {
                Some(parent) => Some(parent.browsing_context_id),
                None => None,
            },
            None => None,
        },
    }
}

/// Replies with the browsing context that `webdriver_frame_id` names; refuses
/// when there is none.
pub fn handle_get_browsing_context_id(
    documents: &Documents,
    pipeline: PipelineId,
    webdriver_frame_id: WebDriverFrameId,
) -> (reply: Result<BrowsingContextId, ()>)
    ensures
        reply == (match browsing_context_for(documents@, pipeline, webdriver_frame_id) {
            Some(id) => Ok(id),
            None => Err(()),
        }),
{
    let found = match webdriver_frame_id {
        WebDriverFrameId::Short(_) => None,
        WebDriverFrameId::Element(element_id) => match find_node_by_unique_id(
            documents,
            pipeline,
            element_id,
        ) {
            Some(node) => match node.downcast_html_iframe_element() {
                Some(iframe) => iframe.browsing_context_id,
                None => None,
            },
            None => None,
        },
        WebDriverFrameId::Parent => match documents.find_window(pipeline) {
            Some(window) => match &window.window_proxy.parent {
                Some(parent) => Some(parent.browsing_context_id),
                None => None,
            },
            None => None,
        },
    };
    found.ok_or(())
}

} // verus!
