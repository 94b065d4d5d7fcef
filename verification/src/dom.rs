use vstd::prelude::*;
use crate::record::SearchResultView;
use crate::surface::{Handle, ReplyView};

verus! {

/// One part of a rendered result node, as the page holds it: the element
/// that carries the part, if the node has one, and the text that can be
/// read from that element, if it has any.
pub struct Part {
    pub element: Option<Handle>,
    pub text: Option<Seq<char>>,
}

/// One rendered result node, as the page holds it.
pub struct RawNode {
    pub title: Part,
    pub link: Part,
    pub snippet: Part,
}

impl Part {
    /// What looking the part up comes to: its text, if the element is
    /// there and has one.
    pub open spec fn value(self) -> Option<Seq<char>> {
        if self.element is Some {
            self.text
        } else {
            None
        }
    }

    /// What the page answers when the part is looked up: that the element
    /// is missing, or the element and then what reading it gives.
    pub open spec fn answers(self) -> Seq<ReplyView> {
        match self.element {
            None => seq![ReplyView::Element(None)],
            Some(element) => seq![ReplyView::Element(Some(element)), ReplyView::Text(self.text)],
        }
    }
}

impl RawNode {
    /// The record of the node: it has one if and only if all three parts
    /// can be looked up.
    pub open spec fn record(self) -> Option<SearchResultView> {
        match (self.title.value(), self.link.value(), self.snippet.value()) {
            (Some(title), Some(url), Some(snippet)) => Some(SearchResultView { title, url, snippet }),
            _ => None,
        }
    }

    /// What the page answers while the node is scanned: the parts are
    /// looked up in the order title, link, description, and none after the
    /// first that cannot be looked up.
    pub open spec fn answers(self) -> Seq<ReplyView> {
        if self.title.value() is None {
            self.title.answers()
        } else if self.link.value() is None {
            self.title.answers() + self.link.answers()
        } else {
            self.title.answers() + self.link.answers() + self.snippet.answers()
        }
    }
}

/// The records of the nodes that have one, in document order.
pub open spec fn complete_records(nodes: Seq<RawNode>) -> Seq<SearchResultView>
    decreases nodes.len(),
{
    if nodes.len() == 0 {
        Seq::empty()
    } else {
        match nodes[0].record() {
            Some(record) => seq![record] + complete_records(nodes.drop_first()),
            None => complete_records(nodes.drop_first()),
        }
    }
}

/// The first `limit` items of a list, or all of them if it has fewer.
pub open spec fn first<A>(limit: nat, list: Seq<A>) -> Seq<A> {
    if limit <= list.len() {
        list.take(limit as int)
    } else {
        list
    }
}

/// What extraction is to hand out for a page with these nodes: the first
/// `limit` records of the nodes that have one, in document order.
pub open spec fn extracted(nodes: Seq<RawNode>, limit: nat) -> Seq<SearchResultView> {
    first(limit, complete_records(nodes))
}

/// The number of records in hand after the node was scanned: one more if
/// the node has a record.
pub open spec fn held_after(node: RawNode, held: nat) -> nat {
    if node.record() is Some {
        held + 1
    } else {
        held
    }
}

/// The number of nodes that scanning looks at when it stands before the
/// node at `index` with `held` records in hand: it goes from node to node
/// until it holds `limit` records or the nodes are used up.
pub open spec fn scanned_from(nodes: Seq<RawNode>, index: nat, limit: nat, held: nat) -> nat
    decreases nodes.len() - index,
{
    if held >= limit || index >= nodes.len() {
        0
    } else {
        1 + scanned_from(nodes, index + 1, limit, held_after(nodes[index as int], held))
    }
}

/// What the page answers while scanning goes from the node at `index` on,
/// with `held` records in hand: the answers of the nodes that are looked
/// at, and of no other.
pub open spec fn answers_from(nodes: Seq<RawNode>, index: nat, limit: nat, held: nat) -> Seq<ReplyView>
    decreases nodes.len() - index,
{
    if held >= limit || index >= nodes.len() {
        Seq::empty()
    } else {
        nodes[index as int].answers() + answers_from(
            nodes,
            index + 1,
            limit,
            held_after(nodes[index as int], held),
        )
    }
}

/// What the page answers to one look at a results container that holds no
/// node, and to the pause that follows: the container, no nodes, and the
/// end of the pause.
pub open spec fn empty_look(container: Handle) -> Seq<ReplyView> {
    seq![ReplyView::Element(Some(container)), ReplyView::Elements(Seq::empty()), ReplyView::Done]
}

/// What the page answers to one look after the other at a results
/// container that never holds a node. The container may be another
/// element at each look.
pub open spec fn empty_looks(containers: Seq<Handle>) -> Seq<ReplyView>
    decreases containers.len(),
{
    if containers.len() == 0 {
        Seq::empty()
    } else {
        empty_look(containers[0]) + empty_looks(containers.drop_first())
    }
}

/// The number of nodes, from the first on, that are looked at to take at
/// most `limit` records.
pub open spec fn scanned(nodes: Seq<RawNode>, limit: nat) -> nat {
    scanned_from(nodes, 0, limit, 0)
}

/// What the page answers while at most `limit` records are taken.
pub open spec fn answers(nodes: Seq<RawNode>, limit: nat) -> Seq<ReplyView> {
    answers_from(nodes, 0, limit, 0)
}

} // verus!
