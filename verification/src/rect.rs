//! The rectangle of an element: its size, and its position relative to the
//! initial containing block.

use crate::documents::{find_node_by_unique_id, html_element_for, Documents};
use crate::dom::{Element, HTMLElement};
use crate::ids::PipelineId;
use vstd::prelude::*;

verus! {

/// A rectangle in CSS pixels.
#[derive(Clone, Copy, Debug, PartialEq, Eq, Structural)]
pub struct Rect {
    pub x: i32,
    pub y: i32,
    pub width: i32,
    pub height: i32,
}

/// The HTML elements met on the way up from `offset_parent`, each the offset
/// parent of the one before, until there is none or one that is not HTML.
pub open spec fn offset_ancestors(offset_parent: Option<Box<Element>>) -> Seq<HTMLElement>
    decreases offset_parent,
{
    match offset_parent {
        Some(element) => match element.html {
            Some(html) => seq![html] + offset_ancestors(html.offset_parent),
            None => Seq::empty(),
        },
        None => Seq::empty(),
    }
}

/// The sum of the elements' left offsets.
pub open spec fn total_left(elements: Seq<HTMLElement>) -> int
    decreases elements.len(),
{
    if elements.len() == 0 {
        0
    } else {
        total_left(elements.drop_last()) + elements.last().offset_left
    }
}

/// The sum of the elements' top offsets.
pub open spec fn total_top(elements: Seq<HTMLElement>) -> int
    decreases elements.len(),
{
    if elements.len() == 0 {
        0
    } else {
        total_top(elements.drop_last()) + elements.last().offset_top
    }
}

/// Whether `i` is in the range of an `i32`.
pub open spec fn is_i32(i: int) -> bool {
    i32::MIN <= i <= i32::MAX
}

/// The distance of `html` from the left edge: the left offsets of its offset
/// ancestors.
pub open spec fn absolute_left(html: HTMLElement) -> int {
    total_left(offset_ancestors(html.offset_parent))
}

/// The distance of `html` from the top edge: the top offsets of its offset
/// ancestors.
pub open spec fn absolute_top(html: HTMLElement) -> int {
    total_top(offset_ancestors(html.offset_parent))
}

/// Whether the position of `html` can be summed up from the nearest offset
/// ancestor to the farthest with every subtotal in the range of an `i32`.
pub open spec fn position_fits(html: HTMLElement) -> bool {
    let ancestors = offset_ancestors(html.offset_parent);
    forall|k: int|
        0 <= k <= ancestors.len() ==> is_i32(total_left(#[trigger] ancestors.take(k))) && is_i32(
            total_top(ancestors.take(k)),
        )
}

/// The position of `html`, or `None` where a subtotal is out of range.
pub fn absolute_position(html: &HTMLElement) -> (position: Option<(i32, i32)>)
    ensures
        position is Some <==> position_fits(*html),
        position matches Some((x, y)) ==> x == absolute_left(*html) && y == absolute_top(*html),
{
    let ghost ancestors = offset_ancestors(html.offset_parent);
    let ghost mut met: int = 0;
    let mut x: i32 = 0;
    let mut y: i32 = 0;
    let mut offset_parent = &html.offset_parent;
    proof {
        assert(ancestors.skip(0) =~= ancestors);
        assert(ancestors.take(0) =~= Seq::empty());
    }
    loop
        invariant
            ancestors == offset_ancestors(html.offset_parent),
            0 <= met <= ancestors.len(),
            ancestors.skip(met) == offset_ancestors(*offset_parent),
            x == total_left(ancestors.take(met)),
            y == total_top(ancestors.take(met)),
            forall|k: int|
                0 <= k <= met ==> is_i32(total_left(#[trigger] ancestors.take(k))) && is_i32(
                    total_top(ancestors.take(k)),
                ),
        ensures
            met == ancestors.len(),
        decreases offset_ancestors(*offset_parent).len(),
    {
        match offset_parent {
            Some(element) => match &element.html {
                Some(ancestor) => {
                    proof {
                        let rest = ancestors.skip(met);
                        assert(rest[0] == *ancestor);
                        assert(rest.drop_first() =~= offset_ancestors(ancestor.offset_parent));
                        assert(ancestors.skip(met + 1) =~= rest.drop_first());
                        assert(ancestors.take(met + 1).drop_last() =~= ancestors.take(met));
                        assert(ancestors.take(met + 1).last() == *ancestor);
                    }
                    x = match x.checked_add(ancestor.offset_left) {
                        Some(sum) => sum,
                        None => {
                            return None;
                        },
                    };
                    y = match y.checked_add(ancestor.offset_top) {
                        Some(sum) => sum,
                        None => {
                            return None;
                        },
                    };
                    offset_parent = &ancestor.offset_parent;
                    proof {
                        met = met + 1;
                    }
                },
                None => {
                    break;
                },
            },
            None => {
                break;
            },
        }
    }
    proof {
        assert(ancestors.take(met) =~= ancestors);
    }
    Some((x, y))
}

/// The reply to a request for the rectangle of an element.
pub open spec fn rect_reply(html: Option<HTMLElement>) -> Result<Rect, ()> {
    match html {
        Some(html) => Ok(
            Rect {
                x: absolute_left(html) as i32,
                y: absolute_top(html) as i32,
                width: html.offset_width,
                height: html.offset_height,
            },
        ),
        None => Err(()),
    }
}

/// Replies with the rectangle of the HTML element that `element_id` names;
/// refuses when there is none. The element's position has to be in range, which
/// [`absolute_position`] tells.
pub fn handle_get_rect(
    documents: &Documents,
    pipeline: PipelineId,
    element_id: String,
) -> (reply: Result<Rect, ()>)
    requires
        html_element_for(documents@, pipeline, element_id@) matches Some(html) ==> position_fits(
            html,
        ),
    ensures
        reply == rect_reply(html_element_for(documents@, pipeline, element_id@)),
        reply matches Ok(rect) ==> {
            let html = html_element_for(documents@, pipeline, element_id@).unwrap();
            &&& rect.x == absolute_left(html)
            &&& rect.y == absolute_top(html)
            &&& rect.width == html.offset_width
            &&& rect.height == html.offset_height
        },
{
    match find_node_by_unique_id(documents, pipeline, element_id) {
        Some(node) => match node.downcast_html_element() {
            Some(html) => {
                let (x, y) = absolute_position(html).unwrap();
                Ok(Rect { x, y, width: html.offset_width, height: html.offset_height })
            },
            None => Err(()),
        },
        None => Err(()),
    }
}

/// The position of an element is that of its offset parent, moved by the
/// offset parent's own offsets; without an offset parent that is HTML, it is
/// the origin. The element's own offsets do not count.
pub proof fn law_position_is_relative_to_the_offset_parent(html: HTMLElement)
    ensures
        match html.offset_parent {
            Some(element) => match element.html {
                Some(parent) => {
                    &&& absolute_left(html) == parent.offset_left + absolute_left(parent)
                    &&& absolute_top(html) == parent.offset_top + absolute_top(parent)
                },
                None => absolute_left(html) == 0 && absolute_top(html) == 0,
            },
            None => absolute_left(html) == 0 && absolute_top(html) == 0,
        },
{
    match html.offset_parent {
        Some(element) => match element.html {
            Some(parent) => {
                lemma_total_prepend(parent, offset_ancestors(parent.offset_parent));
            },
            None => {},
        },
        None => {},
    }
}

proof fn lemma_total_prepend(first: HTMLElement, rest: Seq<HTMLElement>)
    ensures
        total_left(seq![first] + rest) == first.offset_left + total_left(rest),
        total_top(seq![first] + rest) == first.offset_top + total_top(rest),
    decreases rest.len(),
{
    let all = seq![first] + rest;
    if rest.len() == 0 {
        assert(total_left(all.drop_last()) == 0 && total_top(all.drop_last()) == 0);
    } else {
        lemma_total_prepend(first, rest.drop_last());
        assert(all.drop_last() =~= seq![first] + rest.drop_last());
        assert(all.last() == rest.last());
    }
}

} // verus!
