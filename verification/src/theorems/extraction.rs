use vstd::prelude::*;
use crate::auth::SEARCH_PATH;
use crate::dom::{
    answers, answers_from, complete_records, extracted, first, held_after, scanned, scanned_from, Part, RawNode,
};
use crate::extract::{ExtractStage, ExtractStepView, ExtractorView};
use crate::record::SearchResultView;
use crate::search::{SearchView, StepView};
use crate::surface::{CommandView, Handle, ReplyView, Selector, HREF};
use crate::theorems::polling::search_feed_first;
use crate::theorems::steps::paths_differ;

verus! {

/// Handing over a first answer and then the rest is handing over all.
proof fn extract_feed_first(step: ExtractStepView, first: ReplyView, rest: Seq<ReplyView>)
    ensures
        step.feed(seq![first] + rest) == match step {
            ExtractStepView::Continue(extractor, _) => extractor.next(first).feed(rest),
            ExtractStepView::Done(_) => step,
        },
{
    let all = seq![first] + rest;
    assert(all[0] == first);
    assert(all.drop_first() =~= rest);
}

/// What looking up one part of a node comes to, whatever the extractor does
/// with the text: a part without an element or without a text drops the
/// node, a part with a text lets the extractor go on with that text.
proof fn lookup(
    extractor: ExtractorView,
    command: CommandView,
    part: Part,
    rest: Seq<ReplyView>,
)
    requires
        extractor.stage.wanted() is Some,
    ensures
        ExtractStepView::Continue(extractor, command).feed(part.answers() + rest) == match part.value() {
            None => extractor.skip().feed(rest),
            Some(text) => (ExtractorView { stage: extractor.stage.follows(), ..extractor }).took(text).feed(rest),
        },
{
    let start = ExtractStepView::Continue(extractor, command);
    match part.element {
        None => {
            assert(part.answers() + rest =~= seq![ReplyView::Element(None)] + rest);
            extract_feed_first(start, ReplyView::Element(None), rest);
        },
        Some(element) => {
            let found = ReplyView::Element(Some(element));
            let read = ReplyView::Text(part.text);
            assert(part.answers() + rest =~= seq![found] + (seq![read] + rest));
            extract_feed_first(start, found, seq![read] + rest);
            extract_feed_first(extractor.next(found), read, rest);
        },
    }
}

/// The records in hand after the node was scanned.
spec fn results_after(node: RawNode, results: Seq<SearchResultView>) -> Seq<SearchResultView> {
    match node.record() {
        Some(record) => results.push(record),
        None => results,
    }
}

/// Scanning one node: the answers of the node take the extractor from
/// before that node to before the next, with the node's record added to
/// those in hand if it has one, and with nothing added if it has none.
proof fn scanning_one_node(
    handles: Seq<Handle>,
    index: nat,
    limit: nat,
    results: Seq<SearchResultView>,
    node: RawNode,
    rest: Seq<ReplyView>,
)
    requires
        index < handles.len(),
        results.len() < limit,
    ensures
        ExtractorView::scan(handles, index, limit, results).feed(node.answers() + rest) == ExtractorView::scan(
            handles,
            index + 1,
            limit,
            results_after(node, results),
        ).feed(rest),
{
    let first = ExtractorView::at(handles, index, limit, results);
    let ask = CommandView::Find { within: Some(handles[index as int]), selector: Selector::Title };
    assert(ExtractorView::scan(handles, index, limit, results) == ExtractStepView::Continue(first, ask));
    match node.title.value() {
        None => {
            lookup(first, ask, node.title, rest);
        },
        Some(title) => {
            let second = ExtractorView { stage: ExtractStage::Link, title, ..first };
            let ask_link = CommandView::Find { within: Some(first.node()), selector: Selector::Link };
            match node.link.value() {
                None => {
                    assert(node.answers() + rest =~= node.title.answers() + (node.link.answers() + rest));
                    lookup(first, ask, node.title, node.link.answers() + rest);
                    lookup(second, ask_link, node.link, rest);
                },
                Some(url) => {
                    let third = ExtractorView { stage: ExtractStage::Snippet, url, ..second };
                    let ask_snippet = CommandView::Find { within: Some(first.node()), selector: Selector::Snippet };
                    let tail = node.snippet.answers() + rest;
                    assert(node.answers() + rest =~= node.title.answers() + (node.link.answers() + tail));
                    lookup(first, ask, node.title, node.link.answers() + tail);
                    lookup(second, ask_link, node.link, tail);
                    lookup(third, ask_snippet, node.snippet, rest);
                },
            }
        },
    }
}

/// Scanning from any node on: the answers of the page take the extractor
/// to its end, and it ends with the records in hand, followed by the
/// records of the nodes from that one on, cut off at the limit.
proof fn scanning_from(
    handles: Seq<Handle>,
    nodes: Seq<RawNode>,
    index: nat,
    limit: nat,
    results: Seq<SearchResultView>,
)
    requires
        handles.len() == nodes.len(),
        index <= nodes.len(),
        results.len() <= limit,
    ensures
        ExtractorView::scan(handles, index, limit, results).feed(
            answers_from(nodes, index, limit, results.len()),
        ) == ExtractStepView::Done(
            Ok(first(limit, results + complete_records(nodes.subrange(index as int, nodes.len() as int)))),
        ),
    decreases nodes.len() - index,
{
    let behind = nodes.subrange(index as int, nodes.len() as int);
    if results.len() >= limit || index >= nodes.len() {
        assert(first(limit, results + complete_records(behind)) =~= results);
    } else {
        let node = nodes[index as int];
        let after = results_after(node, results);
        let rest = answers_from(nodes, index + 1, limit, after.len());
        scanning_one_node(handles, index, limit, results, node, rest);
        scanning_from(handles, nodes, index + 1, limit, after);
        assert(behind.drop_first() =~= nodes.subrange(index as int + 1, nodes.len() as int));
        assert(results + complete_records(behind) =~= after + complete_records(behind.drop_first()));
    }
}

/// Extraction hands out the records of the page's nodes: given the answers
/// of the page, it ends without an error, with the record of each node
/// that has all three parts and of no other, in document order, and with
/// no more than `limit` of them.
pub proof fn extraction_takes_the_complete_nodes(handles: Seq<Handle>, nodes: Seq<RawNode>, limit: nat)
    requires
        handles.len() == nodes.len(),
    ensures
        ExtractorView::begin(handles, limit).feed(answers(nodes, limit)) == ExtractStepView::Done(
            Ok(extracted(nodes, limit)),
        ),
{
    scanning_from(handles, nodes, 0, limit, Seq::empty());
    assert(nodes.subrange(0, nodes.len() as int) =~= nodes);
    assert(Seq::<SearchResultView>::empty() + complete_records(nodes) =~= complete_records(nodes));
}

/// The number of nodes that are looked at is no more than there are.
proof fn scan_stays_within_the_nodes(nodes: Seq<RawNode>, index: nat, limit: nat, held: nat)
    requires
        index <= nodes.len(),
    ensures
        index + scanned_from(nodes, index, limit, held) <= nodes.len(),
    decreases nodes.len() - index,
{
    if held >= limit || index >= nodes.len() {
    } else {
        scan_stays_within_the_nodes(nodes, index + 1, limit, held_after(nodes[index as int], held));
    }
}

/// Extraction never hands out more records than the limit, nor more than
/// there are nodes with a record.
pub proof fn extraction_respects_the_limit(nodes: Seq<RawNode>, limit: nat)
    ensures
        extracted(nodes, limit).len() <= limit,
        extracted(nodes, limit).len() <= complete_records(nodes).len(),
        extracted(nodes, limit).len() == limit || extracted(nodes, limit) == complete_records(nodes),
        scanned(nodes, limit) <= nodes.len(),
{
    scan_stays_within_the_nodes(nodes, 0, limit, 0);
}

/// Whether every node has a record.
pub open spec fn all_whole(nodes: Seq<RawNode>) -> bool {
    forall|i: int| 0 <= i < nodes.len() ==> (#[trigger] nodes[i]).record() is Some
}

/// The records of nodes that all have one: one for each node.
pub open spec fn records_of(nodes: Seq<RawNode>) -> Seq<SearchResultView> {
    Seq::new(nodes.len(), |i: int| nodes[i].record()->0)
}

proof fn whole_nodes_are_all_complete(nodes: Seq<RawNode>)
    requires
        all_whole(nodes),
    ensures
        complete_records(nodes) == records_of(nodes),
    decreases nodes.len(),
{
    if nodes.len() > 0 {
        let rest = nodes.drop_first();
        assert(all_whole(rest)) by {
            assert forall|i: int| 0 <= i < rest.len() implies (#[trigger] rest[i]).record() is Some by {
                assert(rest[i] == nodes[i + 1]);
            }
        }
        whole_nodes_are_all_complete(rest);
        assert(nodes[0].record() is Some);
        assert(seq![nodes[0].record()->0] + records_of(rest) =~= records_of(nodes));
    } else {
        assert(records_of(nodes) =~= Seq::empty());
    }
}

proof fn whole_nodes_are_scanned_to_the_limit(nodes: Seq<RawNode>, index: nat, limit: nat, held: nat)
    requires
        all_whole(nodes),
        index <= nodes.len(),
        held <= limit,
    ensures
        scanned_from(nodes, index, limit, held) == if limit - held <= nodes.len() - index {
            limit - held
        } else {
            nodes.len() - index
        },
    decreases nodes.len() - index,
{
    if held >= limit || index >= nodes.len() {
    } else {
        assert(nodes[index as int].record() is Some);
        whole_nodes_are_scanned_to_the_limit(nodes, index + 1, limit, held + 1);
    }
}

/// Of a page whose nodes all have their three parts, extraction takes the
/// first `limit` nodes, one record for each and in their order, and looks
/// at no node behind them; with fewer nodes than the limit it takes all.
pub proof fn whole_nodes_fill_the_limit(nodes: Seq<RawNode>, limit: nat)
    requires
        all_whole(nodes),
    ensures
        extracted(nodes, limit) == first(limit, records_of(nodes)),
        scanned(nodes, limit) == extracted(nodes, limit).len(),
        limit <= nodes.len() ==> scanned(nodes, limit) == limit,
{
    whole_nodes_are_all_complete(nodes);
    whole_nodes_are_scanned_to_the_limit(nodes, 0, limit, 0);
}

/// Whether the selector asks for one of the three parts of a result node.
pub open spec fn part(selector: Selector) -> bool {
    selector == Selector::Title || selector == Selector::Link || selector == Selector::Snippet
}

/// Whether the command asks for a part of one of the nodes before the one
/// at `bound`.
pub open spec fn asks_before(command: CommandView, handles: Seq<Handle>, bound: nat) -> bool {
    command matches CommandView::Find { within: Some(node), selector } && part(selector) && exists|k: int|
        0 <= k < bound && k < handles.len() && handles[k] == node
}

/// Whether the command reads from the element: its text, or the address it
/// points to.
pub open spec fn reads_from(command: CommandView, element: Handle) -> bool {
    command == CommandView::ReadText(element) || command == CommandView::ReadAttribute(element, HREF@)
}

/// Whether the command reads from an element.
pub open spec fn reads(command: CommandView) -> bool {
    command is ReadText || command is ReadAttribute
}

/// Whether the commands of an extraction are in order for a scan that
/// looks at no node from the one at `bound` on. Each of them either asks
/// for a part of one of the nodes before `bound`, or reads from the
/// element that the answer before it has handed out. `commands` holds the
/// command in hand at the start and then the command after each answer of
/// `replies`.
pub open spec fn in_order(
    commands: Seq<CommandView>,
    replies: Seq<ReplyView>,
    handles: Seq<Handle>,
    bound: nat,
) -> bool {
    forall|i: int|
        0 <= i < commands.len() ==> {
            ||| asks_before(#[trigger] commands[i], handles, bound)
            ||| 0 < i <= replies.len() && (replies[i - 1] matches ReplyView::Element(Some(element))
                && reads_from(commands[i], element))
        }
}

/// Whether all commands of a list ask for a part of one of the nodes
/// before `bound` or read from an element.
spec fn all_ask_before(commands: Seq<CommandView>, handles: Seq<Handle>, bound: nat) -> bool {
    forall|i: int|
        0 <= i < commands.len() ==> asks_before(#[trigger] commands[i], handles, bound) || reads(commands[i])
}

/// The commands handed out for a first answer and then for the rest.
proof fn commands_first(step: ExtractStepView, first: ReplyView, rest: Seq<ReplyView>)
    ensures
        step.commands(seq![first] + rest) == match step {
            ExtractStepView::Continue(extractor, command) => seq![command] + extractor.next(first).commands(
                rest,
            ),
            ExtractStepView::Done(_) => Seq::empty(),
        },
{
    let all = seq![first] + rest;
    assert(all[0] == first);
    assert(all.drop_first() =~= rest);
}

/// Looking up one part of the node under scan asks about that node only.
proof fn lookup_asks(
    extractor: ExtractorView,
    selector: Selector,
    part: Part,
    rest: Seq<ReplyView>,
    bound: nat,
)
    requires
        extractor.wf(),
        extractor.index < bound,
        extractor.stage.wanted() is Some,
        self::part(selector),
        match part.value() {
            None => all_ask_before(extractor.skip().commands(rest), extractor.nodes, bound),
            Some(text) => all_ask_before(
                (ExtractorView { stage: extractor.stage.follows(), ..extractor }).took(text).commands(rest),
                extractor.nodes,
                bound,
            ),
        },
    ensures
        all_ask_before(
            ExtractStepView::Continue(
                extractor,
                CommandView::Find { within: Some(extractor.node()), selector },
            ).commands(part.answers() + rest),
            extractor.nodes,
            bound,
        ),
{
    let ask = CommandView::Find { within: Some(extractor.node()), selector };
    let start = ExtractStepView::Continue(extractor, ask);
    assert(asks_before(ask, extractor.nodes, bound)) by {
        assert(extractor.nodes[extractor.index as int] == extractor.node());
    }
    match part.element {
        None => {
            assert(part.answers() + rest =~= seq![ReplyView::Element(None)] + rest);
            commands_first(start, ReplyView::Element(None), rest);
        },
        Some(element) => {
            let found = ReplyView::Element(Some(element));
            let read = ReplyView::Text(part.text);
            assert(part.answers() + rest =~= seq![found] + (seq![read] + rest));
            commands_first(start, found, seq![read] + rest);
            commands_first(extractor.next(found), read, rest);
        },
    }
}

/// Scanning from any node on asks about the nodes it looks at and about
/// no node behind them.
proof fn scanning_asks_from(
    handles: Seq<Handle>,
    nodes: Seq<RawNode>,
    index: nat,
    limit: nat,
    results: Seq<SearchResultView>,
)
    requires
        handles.len() == nodes.len(),
    ensures
        all_ask_before(
            ExtractorView::scan(handles, index, limit, results).commands(
                answers_from(nodes, index, limit, results.len()),
            ),
            handles,
            index + scanned_from(nodes, index, limit, results.len()),
        ),
    decreases nodes.len() - index,
{
    if results.len() >= limit || index >= nodes.len() {
    } else {
        let node = nodes[index as int];
        let after = results_after(node, results);
        let rest = answers_from(nodes, index + 1, limit, after.len());
        let bound = index + scanned_from(nodes, index, limit, results.len());
        scanning_asks_from(handles, nodes, index + 1, limit, after);
        assert(after.len() == held_after(node, results.len()));
        let first = ExtractorView::at(handles, index, limit, results);
        match node.title.value() {
            None => {
                lookup_asks(first, Selector::Title, node.title, rest, bound);
            },
            Some(title) => {
                let second = ExtractorView { stage: ExtractStage::Link, title, ..first };
                match node.link.value() {
                    None => {
                        assert(node.answers() + rest =~= node.title.answers() + (node.link.answers() + rest));
                        lookup_asks(second, Selector::Link, node.link, rest, bound);
                        lookup_asks(first, Selector::Title, node.title, node.link.answers() + rest, bound);
                    },
                    Some(url) => {
                        let third = ExtractorView { stage: ExtractStage::Snippet, url, ..second };
                        let tail = node.snippet.answers() + rest;
                        assert(node.answers() + rest =~= node.title.answers() + (node.link.answers() + tail));
                        lookup_asks(third, Selector::Snippet, node.snippet, rest, bound);
                        lookup_asks(second, Selector::Link, node.link, tail, bound);
                        lookup_asks(first, Selector::Title, node.title, node.link.answers() + tail, bound);
                    },
                }
            },
        }
    }
}

/// An extractor reads only what it has just been handed: whenever the
/// command after an answer is a read, that answer was an element, and the
/// read is made on it.
pub proof fn a_read_is_of_the_element_just_found(extractor: ExtractorView, reply: ReplyView)
    ensures
        extractor.next(reply) matches ExtractStepView::Continue(_, command) ==> (reads(command) ==> (
        reply matches ReplyView::Element(Some(element)) && reads_from(command, element))),
{
}

/// In every run of an extraction, a read follows the answer that handed
/// out the element it reads from; and there is at most one command more
/// than there are answers.
proof fn reads_follow_finds(step: ExtractStepView, replies: Seq<ReplyView>)
    ensures
        step.commands(replies).len() <= replies.len() + 1,
        forall|i: int|
            1 <= i < step.commands(replies).len() && reads(#[trigger] step.commands(replies)[i]) ==> (replies[i
                - 1] matches ReplyView::Element(Some(element)) && reads_from(step.commands(replies)[i], element)),
    decreases replies.len(),
{
    if replies.len() > 0 {
        match step {
            ExtractStepView::Continue(extractor, command) => {
                let after = extractor.next(replies[0]);
                let rest = replies.drop_first();
                let all = step.commands(replies);
                reads_follow_finds(after, rest);
                a_read_is_of_the_element_just_found(extractor, replies[0]);
                assert(all =~= seq![command] + after.commands(rest));
                assert forall|i: int| 1 <= i < all.len() && reads(#[trigger] all[i]) implies (replies[i - 1]
                    matches ReplyView::Element(Some(element)) && reads_from(all[i], element)) by {
                    assert(all[i] == after.commands(rest)[i - 1]);
                    if i == 1 {
                        assert(after matches ExtractStepView::Continue(_, next) && next == all[1]);
                    } else {
                        assert(rest[i - 2] == replies[i - 1]);
                    }
                }
            },
            ExtractStepView::Done(_) => {},
        }
    }
}

/// Extraction leaves the nodes behind the limit alone: every command it
/// hands out either asks for a part of one of the nodes it looks at, or
/// reads from the element that the answer before it has handed out. Of the
/// nodes behind those it asks nothing, and it reads nothing but what the
/// page has given it for the nodes it looks at.
pub proof fn nodes_behind_the_limit_are_not_asked(handles: Seq<Handle>, nodes: Seq<RawNode>, limit: nat)
    requires
        handles.len() == nodes.len(),
    ensures
        in_order(
            ExtractorView::begin(handles, limit).commands(answers(nodes, limit)),
            answers(nodes, limit),
            handles,
            scanned(nodes, limit),
        ),
{
    let start = ExtractorView::begin(handles, limit);
    let replies = answers(nodes, limit);
    let commands = start.commands(replies);
    scanning_asks_from(handles, nodes, 0, limit, Seq::empty());
    reads_follow_finds(start, replies);
    assert forall|i: int| 0 <= i < commands.len() implies {
        ||| asks_before(#[trigger] commands[i], handles, scanned(nodes, limit))
        ||| 0 < i <= replies.len() && (replies[i - 1] matches ReplyView::Element(Some(element)) && reads_from(
            commands[i],
            element,
        ))
    } by {
        if i == 0 {
            assert(start matches ExtractStepView::Continue(_, first) && first == commands[0]);
        }
    }
}

/// A search that is reading the results goes where its extractor goes.
pub proof fn search_follows_extraction(search: SearchView, step: ExtractStepView, replies: Seq<ReplyView>)
    ensures
        search.extracted(step).feed(replies) == search.extracted(step.feed(replies)),
    decreases replies.len(),
{
    if replies.len() > 0 {
        match step {
            ExtractStepView::Continue(extractor, _) => {
                search_follows_extraction(search, extractor.next(replies[0]), replies.drop_first());
            },
            ExtractStepView::Done(_) => {},
        }
    }
}

/// A search that has found result nodes hands out their records: given the
/// answers of the page, it ends with the first `limit` records of the
/// nodes that have one, in document order.
pub proof fn search_takes_the_complete_nodes(search: SearchView, handles: Seq<Handle>, nodes: Seq<RawNode>)
    requires
        handles.len() == nodes.len(),
    ensures
        search.extracted(ExtractorView::begin(handles, search.limit)).feed(answers(nodes, search.limit))
            == StepView::Finished(Ok(Some(extracted(nodes, search.limit)))),
{
    extraction_takes_the_complete_nodes(handles, nodes, search.limit);
    search_follows_extraction(search, ExtractorView::begin(handles, search.limit), answers(nodes, search.limit));
}

/// A search that reaches the results page and finds result nodes at the
/// first look ends with the records of the page: the first `limit` records
/// of the nodes that have one, in document order.
pub proof fn search_of_a_rendered_page(
    search: SearchView,
    container: Handle,
    handles: Seq<Handle>,
    nodes: Seq<RawNode>,
)
    requires
        search.phase is Navigating,
        search.config.max_retries > 0,
        handles.len() == nodes.len(),
        nodes.len() > 0,
    ensures
        search.landed(Ok(SEARCH_PATH@)).feed(
            seq![ReplyView::Element(Some(container)), ReplyView::Elements(handles)] + answers(
                nodes,
                search.limit,
            ),
        ) == StepView::Finished(Ok(Some(extracted(nodes, search.limit)))),
{
    paths_differ();
    let found = ReplyView::Element(Some(container));
    let listed = ReplyView::Elements(handles);
    let rest = answers(nodes, search.limit);
    assert(seq![found, listed] + rest =~= seq![found] + (seq![listed] + rest));
    let start = search.landed(Ok(SEARCH_PATH@));
    search_feed_first(start, found, seq![listed] + rest);
    let looking = start->Continue_0;
    search_feed_first(looking.next(found), listed, rest);
    search_takes_the_complete_nodes(search, handles, nodes);
}

/// A search that is reading the results hands on the commands of its
/// extractor, all of them and no other.
pub proof fn search_hands_on_the_commands(search: SearchView, step: ExtractStepView, replies: Seq<ReplyView>)
    ensures
        search.extracted(step).commands(replies) == step.commands(replies),
    decreases replies.len(),
{
    if replies.len() > 0 {
        match step {
            ExtractStepView::Continue(extractor, _) => {
                search_hands_on_the_commands(search, extractor.next(replies[0]), replies.drop_first());
            },
            ExtractStepView::Done(_) => {},
        }
    }
}

/// A search leaves the nodes behind the limit alone: while it reads the
/// results, every command it hands out either asks for a part of one of
/// the nodes that the scan looks at, or reads from the element that the
/// answer before it has handed out.
pub proof fn search_leaves_the_nodes_behind_the_limit_alone(
    search: SearchView,
    handles: Seq<Handle>,
    nodes: Seq<RawNode>,
)
    requires
        handles.len() == nodes.len(),
    ensures
        in_order(
            search.extracted(ExtractorView::begin(handles, search.limit)).commands(answers(nodes, search.limit)),
            answers(nodes, search.limit),
            handles,
            scanned(nodes, search.limit),
        ),
{
    nodes_behind_the_limit_are_not_asked(handles, nodes, search.limit);
    search_hands_on_the_commands(search, ExtractorView::begin(handles, search.limit), answers(nodes, search.limit));
}

} // verus!
