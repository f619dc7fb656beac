//! What the handlers read of a document's tree: nodes, elements, and the
//! interfaces that an element may have.

use crate::ids::BrowsingContextId;
use vstd::prelude::*;

verus! {

/// A reference to a node of the engine's tree.
#[derive(Debug, PartialEq)]
pub struct NodeRef {
    /// The key under which the engine finds the node again.
    pub handle: u64,
    /// The id by which commands name the node, as the engine assigned it.
    pub unique_id: String,
}

/// A node, with the trees below it.
#[derive(Debug, PartialEq)]
pub struct Node {
    pub node_ref: NodeRef,
    /// The node's text content, for the kinds of node that have one.
    pub text_content: Option<String>,
    /// The node as an element, if it is one.
    pub element: Option<Element>,
    /// The root of the shadow tree that the node hosts.
    pub shadow_root: Option<Box<Node>>,
    /// The node's children, in tree order.
    pub children: Vec<Node>,
}

/// What is read of an element.
#[derive(Debug, PartialEq)]
pub struct Element {
    pub tag_name: String,
    pub enabled_state: bool,
    /// The element as an HTML element, if it is one.
    pub html: Option<HTMLElement>,
}

/// What is read of an HTML element.
#[derive(Debug, PartialEq)]
pub struct HTMLElement {
    pub offset_left: i32,
    pub offset_top: i32,
    pub offset_width: i32,
    pub offset_height: i32,
    /// The element that the offsets are relative to.
    pub offset_parent: Option<Box<Element>>,
    pub interface: HTMLInterface,
}

/// The interfaces of HTML elements that the handlers tell apart.
#[derive(Debug, PartialEq)]
pub enum HTMLInterface {
    IFrame(HTMLIFrameElement),
    Input(HTMLInputElement),
    OptionItem(HTMLOptionElement),
    Other,
}

#[derive(Debug, PartialEq)]
pub struct HTMLIFrameElement {
    /// The browsing context inside the frame, while there is one.
    pub browsing_context_id: Option<BrowsingContextId>,
}

#[derive(Debug, PartialEq)]
pub struct HTMLInputElement {
    pub checked: bool,
}

#[derive(Debug, PartialEq)]
pub struct HTMLOptionElement {
    pub selected: bool,
}

impl Node {
    /// The node's unique id.
    pub open spec fn id(self) -> Seq<char> {
        self.node_ref.unique_id@
    }

    /// The node and everything below it in shadow-including tree order: the
    /// node, then the shadow tree that it hosts, then its children's trees.
    pub open spec fn preorder(self) -> Seq<Node>
        decreases self,
    {
        let shadow = match self.shadow_root {
            Some(root) => root.preorder(),
            None => Seq::empty(),
        };
        seq![self] + shadow + preorder_of_all(self.children@)
    }

    /// The node as an HTML element.
    pub open spec fn html(self) -> Option<HTMLElement> {
        match self.element {
            Some(element) => element.html,
            None => None,
        }
    }

    /// The node as an `iframe` element.
    pub open spec fn iframe(self) -> Option<HTMLIFrameElement> {
        match self.html() {
            Some(HTMLElement { interface: HTMLInterface::IFrame(iframe), .. }) => Some(iframe),
            _ => None,
        }
    }

    /// The node as an element.
    pub fn downcast_element(&self) -> (element: Option<&Element>)
        ensures
            element == (match self.element {
                Some(e) => Some(&e),
                None => None,
            }),
    {
        self.element.as_ref()
    }

    /// The node as an HTML element.
    pub fn downcast_html_element(&self) -> (html: Option<&HTMLElement>)
        ensures
            html == (match self.html() {
                Some(h) => Some(&h),
                None => None,
            }),
    {
        match &self.element {
            Some(element) => element.html.as_ref(),
            None => None,
        }
    }

    /// The node as an `iframe` element.
    pub fn downcast_html_iframe_element(&self) -> (iframe: Option<&HTMLIFrameElement>)
        ensures
            iframe == (match self.iframe() {
                Some(f) => Some(&f),
                None => None,
            }),
    {
        match self.downcast_html_element() {
            Some(html) => match &html.interface {
                HTMLInterface::IFrame(iframe) => Some(iframe),
                _ => None,
            },
            None => None,
        }
    }

    /// The first node below this one, or this node itself, that has the given
    /// unique id, in shadow-including tree order.
    pub fn find_by_unique_id(&self, node_id: &String) -> (found: Option<&Node>)
        ensures
            found == (match first_with_id(self.preorder(), node_id@) {
                Some(node) => Some(&node),
                None => None,
            }),
    {
        let mut stack: Vec<&Node> = Vec::new();
        stack.push(self);
        proof {
            assert(stack@.drop_last() =~= Seq::empty());
            assert(pending(stack@.drop_last()) =~= Seq::empty());
            assert(pending(stack@) =~= self.preorder());
        }
        while stack.len() > 0
            invariant
                first_with_id(pending(stack@), node_id@) == first_with_id(
                    self.preorder(),
                    node_id@,
                ),
            decreases pending(stack@).len(),
        {
            let ghost before = stack@;
            let node = stack.pop().unwrap();
            let ghost rest = stack@;
            proof {
                assert(rest =~= before.drop_last());
                assert(pending(before) == node.preorder() + pending(rest));
                assert(pending(before)[0] == *node);
            }
            if node.node_ref.unique_id == *node_id {
                return Some(node);
            }
            proof {
                assert(node.children@.skip(node.children@.len() as int) =~= Seq::empty());
            }
            let mut i: usize = node.children.len();
            while i > 0
                invariant
                    i <= node.children@.len(),
                    pending(stack@) =~= preorder_of_all(node.children@.skip(i as int)) + pending(
                        rest,
                    ),
                decreases i,
            {
                i = i - 1;
                let ghost prior = stack@;
                stack.push(&node.children[i]);
                proof {
                    assert(stack@.drop_last() =~= prior);
                    let tail = node.children@.skip(i as int);
                    assert(tail.drop_first() =~= node.children@.skip(i + 1));
                    assert(tail[0] == node.children@[i as int]);
                }
            }
            proof {
                assert(node.children@.skip(0) =~= node.children@);
            }
            let ghost children_pushed = stack@;
            match &node.shadow_root {
                Some(root) => {
                    stack.push(root);
                    proof {
                        assert(stack@.drop_last() =~= children_pushed);
                    }
                },
                None => {},
            }
            proof {
                assert(pending(stack@) =~= pending(before).drop_first());
            }
        }
        None
    }
}

/// The trees of the nodes in `nodes`, one after the other, each in
/// shadow-including tree order.
pub open spec fn preorder_of_all(nodes: Seq<Node>) -> Seq<Node>
    decreases nodes,
{
    if nodes.len() == 0 {
        Seq::empty()
    } else {
        nodes[0].preorder() + preorder_of_all(nodes.drop_first())
    }
}

/// The first of `nodes` whose unique id is `id`.
pub open spec fn first_with_id(nodes: Seq<Node>, id: Seq<char>) -> Option<Node>
    decreases nodes.len(),
{
    if nodes.len() == 0 {
        None
    } else if nodes[0].id() == id {
        Some(nodes[0])
    } else {
        first_with_id(nodes.drop_first(), id)
    }
}

/// What is left to visit when `stack` holds the roots of the trees not yet
/// entered, the next one on top.
spec fn pending(stack: Seq<&Node>) -> Seq<Node>
    decreases stack.len(),
{
    if stack.len() == 0 {
        Seq::empty()
    } else {
        stack.last().preorder() + pending(stack.drop_last())
    }
}

/// The order of a node's tree begins with the node and holds exactly: the node,
/// what is in the shadow tree that it hosts, and what is in its children's
/// trees.
pub proof fn law_preorder_holds_the_tree(root: Node, node: Node)
    ensures
        root.preorder()[0] == root,
        root.preorder().contains(node) <==> {
            ||| node == root
            ||| root.shadow_root matches Some(shadow) && shadow.preorder().contains(node)
            ||| exists|i: int|
                0 <= i < root.children@.len()
                    && #[trigger] root.children@[i].preorder().contains(node)
        },
{
    let shadow = match root.shadow_root {
        Some(shadow) => shadow.preorder(),
        None => Seq::empty(),
    };
    let below = preorder_of_all(root.children@);
    lemma_contains_concat(seq![root] + shadow, below, node);
    lemma_contains_concat(seq![root], shadow, node);
    lemma_preorder_of_all_contains(root.children@, node);
    assert(seq![root].contains(node) <==> node == root) by {
        assert(seq![root][0] == root);
    }
}

/// A look-up by unique id gives a node that has the id and stands before every
/// other that has it, and gives nothing only where no node has it.
pub proof fn law_first_with_id(nodes: Seq<Node>, id: Seq<char>)
    ensures
        match first_with_id(nodes, id) {
            Some(node) => exists|i: int|
                #![trigger nodes[i]]
                0 <= i < nodes.len() && nodes[i] == node && node.id() == id && forall|j: int|
                    0 <= j < i ==> (#[trigger] nodes[j]).id() != id,
            None => forall|i: int| 0 <= i < nodes.len() ==> (#[trigger] nodes[i]).id() != id,
        },
    decreases nodes.len(),
{
    if nodes.len() > 0 && nodes[0].id() != id {
        let rest = nodes.drop_first();
        law_first_with_id(rest, id);
        match first_with_id(rest, id) {
            Some(node) => {
                let i = choose|i: int|
                    #![trigger rest[i]]
                    0 <= i < rest.len() && rest[i] == node && node.id() == id && forall|j: int|
                        0 <= j < i ==> (#[trigger] rest[j]).id() != id;
                assert(nodes[i + 1] == node);
                assert forall|j: int| 0 <= j < i + 1 implies (#[trigger] nodes[j]).id() != id by {
                    if j > 0 {
                        assert(rest[j - 1] == nodes[j]);
                    }
                }
            },
            None => {
                assert forall|j: int| 0 <= j < nodes.len() implies (#[trigger] nodes[j]).id()
                    != id by {
                    if j > 0 {
                        assert(rest[j - 1] == nodes[j]);
                    }
                }
            },
        }
    }
}

proof fn lemma_contains_concat(a: Seq<Node>, b: Seq<Node>, node: Node)
    ensures
        (a + b).contains(node) <==> a.contains(node) || b.contains(node),
{
    if a.contains(node) {
        let i = a.index_of(node);
        assert((a + b)[i] == node);
    }
    if b.contains(node) {
        let i = b.index_of(node);
        assert((a + b)[a.len() + i] == node);
    }
}

proof fn lemma_preorder_of_all_contains(nodes: Seq<Node>, node: Node)
    ensures
        preorder_of_all(nodes).contains(node) <==> exists|i: int|
            0 <= i < nodes.len() && #[trigger] nodes[i].preorder().contains(node),
    decreases nodes.len(),
{
    if nodes.len() > 0 {
        let rest = nodes.drop_first();
        lemma_preorder_of_all_contains(rest, node);
        lemma_contains_concat(nodes[0].preorder(), preorder_of_all(rest), node);
        if preorder_of_all(rest).contains(node) {
            let i = choose|i: int|
                0 <= i < rest.len() && #[trigger] rest[i].preorder().contains(node);
            assert(nodes[i + 1].preorder().contains(node));
        }
        assert forall|i: int|
            0 <= i < nodes.len() && #[trigger] nodes[i].preorder().contains(
                node,
            ) implies preorder_of_all(nodes).contains(node) by {
            if i > 0 {
                assert(rest[i - 1].preorder().contains(node));
            }
        }
    }
}

} // verus!
