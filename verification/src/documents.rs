//! The documents of a script thread, and the way from a command's pipeline and
//! node id to what it speaks of.

use crate::dom::{first_with_id, law_first_with_id, Element, HTMLElement, Node, NodeRef};
use crate::ids::{BrowsingContextId, PipelineId};
use vstd::prelude::*;

verus! {

/// A URL: its serialization, and its host as a string where it has one.
#[derive(Debug, PartialEq)]
pub struct ServoUrl {
    pub href: String,
    pub host: Option<String>,
}

impl Clone for ServoUrl {
    fn clone(&self) -> (copy: Self)
        ensures
            copy == *self,
    {
        let host = match &self.host {
            Some(host) => Some(host.clone()),
            None => None,
        };
        ServoUrl { href: self.href.clone(), host }
    }
}

/// A browsing context's window proxy, with the proxies above it.
#[derive(Debug, PartialEq)]
pub struct WindowProxy {
    pub browsing_context_id: BrowsingContextId,
    pub parent: Option<Box<WindowProxy>>,
}

/// What is read of a document's window.
#[derive(Debug, PartialEq)]
pub struct Window {
    pub window_proxy: WindowProxy,
}

/// What is read of a document.
#[derive(Debug, PartialEq)]
pub struct Document {
    /// The document as a node: the root of its tree.
    pub node: Node,
    pub window: Window,
    pub url: ServoUrl,
    pub title: String,
    pub active_element: Option<NodeRef>,
    pub document_element: Option<NodeRef>,
    /// Whether the document neither gives out nor takes cookies.
    pub cookie_averse: bool,
}

/// The documents of a script thread, one for each pipeline that has one.
pub struct Documents {
    entries: Vec<(PipelineId, Document)>,
}

impl View for Documents {
    type V = Map<PipelineId, Document>;

    closed spec fn view(&self) -> Map<PipelineId, Document> {
        Map::new(
            |pipeline: PipelineId| exists|i: int| holds(self.entries@, i, pipeline),
            |pipeline: PipelineId|
                self.entries@[choose|i: int| holds(self.entries@, i, pipeline)].1,
        )
    }
}

/// Entry `i` is there, and is the one of `pipeline`.
spec fn holds(entries: Seq<(PipelineId, Document)>, i: int, pipeline: PipelineId) -> bool {
    0 <= i < entries.len() && entries[i].0 == pipeline
}

/// No pipeline has two entries.
spec fn distinct(entries: Seq<(PipelineId, Document)>) -> bool {
    forall|i: int, j: int|
        0 <= i < entries.len() && 0 <= j < entries.len() && i != j ==> (#[trigger] entries[i]).0
            != (#[trigger] entries[j]).0
}

impl Documents {
    #[verifier::type_invariant]
    spec fn well_formed(self) -> bool {
        distinct(self.entries@)
    }

    /// No documents.
    pub fn new() -> (documents: Self)
        ensures
            documents@ == Map::<PipelineId, Document>::empty(),
    {
        let documents = Documents { entries: Vec::new() };
        assert(documents@ =~= Map::<PipelineId, Document>::empty());
        documents
    }

    /// Makes `document` the document of `pipeline`, in place of one that it
    /// may have had.
    pub fn insert(&mut self, pipeline: PipelineId, document: Document)
        ensures
            final(self)@ == old(self)@.insert(pipeline, document),
    {
        proof {
            use_type_invariant(&*self);
        }
        let ghost before = self@;
        let mut entries: Vec<(PipelineId, Document)> = Vec::new();
        std::mem::swap(&mut entries, &mut self.entries);
        let ghost given = entries@;
        let mut i: usize = 0;
        while i < entries.len() && entries[i].0 != pipeline
            invariant
                i <= entries@.len(),
                entries@ == given,
                forall|j: int| 0 <= j < i ==> (#[trigger] entries@[j]).0 != pipeline,
            decreases entries@.len() - i,
        {
            i = i + 1;
        }
        if i < entries.len() {
            entries.set(i, (pipeline, document));
        } else {
            entries.push((pipeline, document));
        }
        self.entries = entries;
        proof {
            assert(holds(self.entries@, i as int, pipeline));
            assert forall|p: PipelineId| #[trigger] self@.dom().contains(p) == before.insert(
                pipeline,
                document,
            ).dom().contains(p) by {
                if before.dom().contains(p) {
                    let j = choose|j: int| holds(given, j, p);
                    assert(holds(self.entries@, j, p));
                }
                if self@.dom().contains(p) && p != pipeline {
                    let j = choose|j: int| holds(self.entries@, j, p);
                    assert(holds(given, j, p));
                }
            }
            assert forall|p: PipelineId| #[trigger] self@.dom().contains(p) implies self@[p]
                == before.insert(pipeline, document)[p] by {
                let j = choose|j: int| holds(self.entries@, j, p);
                if p != pipeline {
                    assert(holds(given, j, p));
                }
            }
            assert(self@ =~= before.insert(pipeline, document));
        }
    }

    /// The document of `pipeline`, if it has one.
    pub fn find_document(&self, pipeline: PipelineId) -> (found: Option<&Document>)
        ensures
            found == (match document_for(self@, pipeline) {
                Some(document) => Some(&document),
                None => None,
            }),
    {
        proof {
            use_type_invariant(&*self);
        }
        let mut i: usize = 0;
        while i < self.entries.len()
            invariant
                i <= self.entries@.len(),
                distinct(self.entries@),
                forall|j: int| 0 <= j < i ==> (#[trigger] self.entries@[j]).0 != pipeline,
            decreases self.entries@.len() - i,
        {
            if self.entries[i].0 == pipeline {
                proof {
                    assert(holds(self.entries@, i as int, pipeline));
                }
                return Some(&self.entries[i].1);
            }
            i = i + 1;
        }
        None
    }

    /// The window of the document of `pipeline`, if it has one.
    pub fn find_window(&self, pipeline: PipelineId) -> (found: Option<&Window>)
        ensures
            found == (match document_for(self@, pipeline) {
                Some(document) => Some(&document.window),
                None => None,
            }),
    {
        match self.find_document(pipeline) {
            Some(document) => Some(&document.window),
            None => None,
        }
    }
}

/// The document of `pipeline`, if it has one.
pub open spec fn document_for(
    documents: Map<PipelineId, Document>,
    pipeline: PipelineId,
) -> Option<Document> {
    if documents.contains_key(pipeline) {
        Some(documents[pipeline])
    } else {
        None
    }
}

/// The node that a command names: the first with the id `node_id` in the
/// shadow-including tree order of the pipeline's document.
pub open spec fn node_for(
    documents: Map<PipelineId, Document>,
    pipeline: PipelineId,
    node_id: Seq<char>,
) -> Option<Node> {
    match document_for(documents, pipeline) {
        Some(document) => first_with_id(document.node.preorder(), node_id),
        None => None,
    }
}

/// The node that a command names, as an element.
pub open spec fn element_for(
    documents: Map<PipelineId, Document>,
    pipeline: PipelineId,
    node_id: Seq<char>,
) -> Option<Element> {
    match node_for(documents, pipeline, node_id) {
        Some(node) => node.element,
        None => None,
    }
}

/// The node that a command names, as an HTML element.
pub open spec fn html_element_for(
    documents: Map<PipelineId, Document>,
    pipeline: PipelineId,
    node_id: Seq<char>,
) -> Option<HTMLElement> {
    match node_for(documents, pipeline, node_id) {
        Some(node) => node.html(),
        None => None,
    }
}

/// The node that a command names.
pub fn find_node_by_unique_id(
    documents: &Documents,
    pipeline: PipelineId,
    node_id: String,
) -> (found: Option<&Node>)
    ensures
        found == (match node_for(documents@, pipeline, node_id@) {
            Some(node) => Some(&node),
            None => None,
        }),
{
    match documents.find_document(pipeline) {
        Some(document) => document.node.find_by_unique_id(&node_id),
        None => None,
    }
}

/// What a command names is a node of its pipeline's document and has the id;
/// it names nothing only where there is no document, or no node in it with the
/// id.
pub proof fn law_named_node_is_in_the_document(
    documents: Map<PipelineId, Document>,
    pipeline: PipelineId,
    node_id: Seq<char>,
)
    ensures
        match node_for(documents, pipeline, node_id) {
            Some(node) => {
                &&& documents.contains_key(pipeline)
                &&& documents[pipeline].node.preorder().contains(node)
                &&& node.id() == node_id
            },
            None => documents.contains_key(pipeline) ==> forall|node: Node| #[trigger]
                documents[pipeline].node.preorder().contains(node) ==> node.id() != node_id,
        },
{
    if documents.contains_key(pipeline) {
        law_first_with_id(documents[pipeline].node.preorder(), node_id);
    }
}

/// No two nodes of the document's shadow-including tree have the same unique id.
pub open spec fn ids_are_unique(document: Document) -> bool {
    let nodes = document.node.preorder();
    forall|i: int, j: int|
        0 <= i < nodes.len() && 0 <= j < nodes.len() && (#[trigger] nodes[i]).id() == (
        #[trigger] nodes[j]).id() ==> i == j
}

/// The unique id of a node of a document names that node, in shadow trees too,
/// so an id that one reply gave out can be used by the next command.
pub proof fn law_id_names_its_node(
    documents: Map<PipelineId, Document>,
    pipeline: PipelineId,
    node: Node,
)
    requires
        documents.contains_key(pipeline),
        ids_are_unique(documents[pipeline]),
        documents[pipeline].node.preorder().contains(node),
    ensures
        node_for(documents, pipeline, node.id()) == Some(node),
{
    let nodes = documents[pipeline].node.preorder();
    law_first_with_id(nodes, node.id());
    let i = nodes.index_of(node);
    assert(nodes[i] == node);
}

/// What a command names is decided by the document of its own pipeline alone.
pub proof fn law_pipelines_are_separate(
    documents: Map<PipelineId, Document>,
    pipeline: PipelineId,
    other: PipelineId,
    document: Document,
    node_id: Seq<char>,
)
    requires
        pipeline != other,
    ensures
        document_for(documents.insert(other, document), pipeline) == document_for(
            documents,
            pipeline,
        ),
        node_for(documents.insert(other, document), pipeline, node_id) == node_for(
            documents,
            pipeline,
            node_id,
        ),
{
}

} // verus!
