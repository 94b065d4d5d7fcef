use vstd::prelude::*;
use crate::error::{unexpected_reply, Error, ErrorView};
use crate::record::{records, records_push, SearchResult, SearchResultView};
use crate::surface::{Command, CommandView, Handle, Reply, ReplyView, Selector, HREF};

verus! {

/// Which answer an extractor is waiting for, of the node it is scanning.
#[derive(Clone, Copy, Debug, PartialEq, Eq)]
pub enum ExtractStage {
    /// The title element was asked for.
    Title,
    /// The text of the title element was asked for.
    TitleText,
    /// The anchor was asked for.
    Link,
    /// The address the anchor points to was asked for.
    LinkHref,
    /// The description element was asked for.
    Snippet,
    /// The text of the description element was asked for.
    SnippetText,
}

/// Turns result nodes into records, one node after the other in document
/// order, until the limit is reached or the nodes are used up.
#[derive(Debug)]
pub struct Extractor {
    nodes: Vec<Handle>,
    index: usize,
    limit: usize,
    stage: ExtractStage,
    title: String,
    url: String,
    results: Vec<SearchResult>,
}

/// The mathematical value of an [`Extractor`].
pub struct ExtractorView {
    /// The result nodes, in document order.
    pub nodes: Seq<Handle>,
    /// The position of the node that is being scanned.
    pub index: nat,
    /// The largest number of records to hand out.
    pub limit: nat,
    /// The answer that is awaited.
    pub stage: ExtractStage,
    /// The title read from the node, once it was read.
    pub title: Seq<char>,
    /// The address read from the node, once it was read.
    pub url: Seq<char>,
    /// The records made of the nodes before this one.
    pub results: Seq<SearchResultView>,
}

/// How extraction goes on after an answer.
#[derive(Debug)]
pub enum ExtractStep {
    /// Perform the command and hand its answer to the extractor.
    Continue(Extractor, Command),
    /// Extraction has ended, with the records or with an error.
    Done(Result<Vec<SearchResult>, Error>),
}

/// The mathematical value of an [`ExtractStep`].
pub enum ExtractStepView {
    Continue(ExtractorView, CommandView),
    Done(Result<Seq<SearchResultView>, ErrorView>),
}

impl View for Extractor {
    type V = ExtractorView;

    closed spec fn view(&self) -> ExtractorView {
        ExtractorView {
            nodes: self.nodes@,
            index: self.index as nat,
            limit: self.limit as nat,
            stage: self.stage,
            title: self.title@,
            url: self.url@,
            results: records(self.results@),
        }
    }
}

impl View for ExtractStep {
    type V = ExtractStepView;

    open spec fn view(&self) -> ExtractStepView {
        match *self {
            ExtractStep::Continue(extractor, command) => ExtractStepView::Continue(extractor@, command@),
            ExtractStep::Done(Ok(list)) => ExtractStepView::Done(Ok(records(list@))),
            ExtractStep::Done(Err(e)) => ExtractStepView::Done(Err(e@)),
        }
    }
}

impl ExtractStage {
    /// The element that the stage asks for, if it asks for one; the other
    /// stages read from the element that was found.
    pub open spec fn wanted(self) -> Option<Selector> {
        match self {
            ExtractStage::Title => Some(Selector::Title),
            ExtractStage::Link => Some(Selector::Link),
            ExtractStage::Snippet => Some(Selector::Snippet),
            _ => None,
        }
    }

    /// The stage that comes next in the scan of a node; the last stage has
    /// none and stands for itself.
    pub open spec fn follows(self) -> ExtractStage {
        match self {
            ExtractStage::Title => ExtractStage::TitleText,
            ExtractStage::TitleText => ExtractStage::Link,
            ExtractStage::Link => ExtractStage::LinkHref,
            ExtractStage::LinkHref => ExtractStage::Snippet,
            ExtractStage::Snippet => ExtractStage::SnippetText,
            ExtractStage::SnippetText => ExtractStage::SnippetText,
        }
    }

    /// The place of the stage within the scan of one node.
    pub open spec fn ordinal(self) -> nat {
        match self {
            ExtractStage::Title => 0,
            ExtractStage::TitleText => 1,
            ExtractStage::Link => 2,
            ExtractStage::LinkHref => 3,
            ExtractStage::Snippet => 4,
            ExtractStage::SnippetText => 5,
        }
    }
}

impl ExtractorView {
    /// The largest number of answers that the extractor still takes: six
    /// for each node from the one under its position on, less those of
    /// that node that it has taken.
    pub open spec fn answers_left(self) -> nat {
        (6 * (self.nodes.len() - self.index) - self.stage.ordinal()) as nat
    }

    /// While an extractor is in use there is a node under its position, and
    /// the limit is not reached.
    pub open spec fn wf(self) -> bool {
        &&& self.index < self.nodes.len()
        &&& self.results.len() < self.limit
    }

    /// The node that is being scanned.
    pub open spec fn node(self) -> Handle {
        self.nodes[self.index as int]
    }

    /// The extractor that is about to scan the node at `index`, with
    /// `results` made so far.
    pub open spec fn at(nodes: Seq<Handle>, index: nat, limit: nat, results: Seq<SearchResultView>) -> ExtractorView {
        ExtractorView {
            nodes,
            index,
            limit,
            stage: ExtractStage::Title,
            title: Seq::empty(),
            url: Seq::empty(),
            results,
        }
    }

    /// Scanning from the node at `index` on: it ends with `results` when the
    /// limit is reached or no node is left, and else asks for the title
    /// element of that node.
    pub open spec fn scan(nodes: Seq<Handle>, index: nat, limit: nat, results: Seq<SearchResultView>) -> ExtractStepView {
        if results.len() >= limit || index >= nodes.len() {
            ExtractStepView::Done(Ok(results))
        } else {
            ExtractStepView::Continue(
                Self::at(nodes, index, limit, results),
                CommandView::Find { within: Some(nodes[index as int]), selector: Selector::Title },
            )
        }
    }

    /// Extraction of at most `limit` records from the nodes.
    pub open spec fn begin(nodes: Seq<Handle>, limit: nat) -> ExtractStepView {
        Self::scan(nodes, 0, limit, Seq::empty())
    }

    /// Drops the node that is being scanned: no record is made of it, and
    /// scanning goes on behind it.
    pub open spec fn skip(self) -> ExtractStepView {
        Self::scan(self.nodes, self.index + 1, self.limit, self.results)
    }

    /// Makes the record of the node that is being scanned, with the
    /// description just read, and goes on behind it.
    pub open spec fn keep(self, snippet: Seq<char>) -> ExtractStepView {
        Self::scan(
            self.nodes,
            self.index + 1,
            self.limit,
            self.results.push(SearchResultView { title: self.title, url: self.url, snippet }),
        )
    }

    /// The command that reads what the stage looked for from the element
    /// that was found: the address from the anchor, the text from the
    /// title and the description.
    pub open spec fn read(self, element: Handle) -> CommandView {
        if self.stage == ExtractStage::Link {
            CommandView::ReadAttribute(element, HREF@)
        } else {
            CommandView::ReadText(element)
        }
    }

    /// What the extractor does with a text that was read: it keeps the
    /// title and the address and asks for the next part of the node; with
    /// the description the node's record is complete.
    pub open spec fn took(self, text: Seq<char>) -> ExtractStepView {
        match self.stage {
            ExtractStage::TitleText => ExtractStepView::Continue(
                ExtractorView { stage: ExtractStage::Link, title: text, ..self },
                CommandView::Find { within: Some(self.node()), selector: Selector::Link },
            ),
            ExtractStage::LinkHref => ExtractStepView::Continue(
                ExtractorView { stage: ExtractStage::Snippet, url: text, ..self },
                CommandView::Find { within: Some(self.node()), selector: Selector::Snippet },
            ),
            _ => self.keep(text),
        }
    }

    /// What the extractor does with an answer.
    ///
    /// Of each node it looks up, in this order, the title, the address and
    /// the description: it asks for the element and then reads from it. The
    /// first element that is missing, or from which nothing can be read,
    /// drops the node. A fault ends extraction with an error.
    pub open spec fn next(self, reply: ReplyView) -> ExtractStepView {
        match reply {
            ReplyView::Fault(fault) => ExtractStepView::Done(Err(ErrorView::CdpError(fault))),
            ReplyView::Element(found) => if self.stage.wanted() is None {
                ExtractStepView::Done(Err(unexpected_reply()))
            } else {
                match found {
                    Some(element) => ExtractStepView::Continue(
                        ExtractorView { stage: self.stage.follows(), ..self },
                        self.read(element),
                    ),
                    None => self.skip(),
                }
            },
            ReplyView::Text(read) => if self.stage.wanted() is Some {
                ExtractStepView::Done(Err(unexpected_reply()))
            } else {
                match read {
                    Some(text) => self.took(text),
                    None => self.skip(),
                }
            },
            _ => ExtractStepView::Done(Err(unexpected_reply())),
        }
    }
}

impl ExtractStepView {
    /// Where extraction stands after the answers were handed to it one by
    /// one. Answers that come after extraction has ended are not looked at.
    pub open spec fn feed(self, replies: Seq<ReplyView>) -> ExtractStepView
        decreases replies.len(),
    {
        if replies.len() == 0 {
            self
        } else {
            match self {
                ExtractStepView::Continue(extractor, _) => extractor.next(replies[0]).feed(replies.drop_first()),
                ExtractStepView::Done(_) => self,
            }
        }
    }

    /// The commands that extraction hands out while the answers are handed
    /// to it one by one, the command in hand at the start included.
    pub open spec fn commands(self, replies: Seq<ReplyView>) -> Seq<CommandView>
        decreases replies.len(),
    {
        match self {
            ExtractStepView::Done(_) => Seq::empty(),
            ExtractStepView::Continue(extractor, command) => if replies.len() == 0 {
                seq![command]
            } else {
                seq![command] + extractor.next(replies[0]).commands(replies.drop_first())
            },
        }
    }
}

impl Extractor {
    #[verifier::type_invariant]
    spec fn inv(self) -> bool {
        self@.wf()
    }

    fn scan(nodes: Vec<Handle>, index: usize, limit: usize, results: Vec<SearchResult>) -> (step: ExtractStep)
        ensures
            step@ == ExtractorView::scan(nodes@, index as nat, limit as nat, records(results@)),
            step matches ExtractStep::Continue(extractor, _) ==> extractor@.wf(),
    {
        if results.len() >= limit || index >= nodes.len() {
            ExtractStep::Done(Ok(results))
        } else {
            let node = nodes[index];
            ExtractStep::Continue(
                Extractor {
                    nodes,
                    index,
                    limit,
                    stage: ExtractStage::Title,
                    title: String::new(),
                    url: String::new(),
                    results,
                },
                Command::Find { within: Some(node), selector: Selector::Title },
            )
        }
    }

    /// Starts the extraction of at most `limit` records from the nodes.
    pub fn start(nodes: Vec<Handle>, limit: usize) -> (step: ExtractStep)
        ensures
            step@ == ExtractorView::begin(nodes@, limit as nat),
            step matches ExtractStep::Continue(extractor, _) ==> extractor@.wf(),
    {
        let results: Vec<SearchResult> = Vec::new();
        assert(records(results@) =~= Seq::empty());
        Self::scan(nodes, 0, limit, results)
    }

    fn finds(&self) -> (yes: bool)
        ensures
            yes == self@.stage.wanted() is Some,
    {
        match self.stage {
            ExtractStage::Title => true,
            ExtractStage::Link => true,
            ExtractStage::Snippet => true,
            _ => false,
        }
    }

    fn found(self, element: Handle) -> (step: ExtractStep)
        requires
            self@.stage.wanted() is Some,
        ensures
            step@ == ExtractStepView::Continue(
                ExtractorView { stage: self@.stage.follows(), ..self@ },
                self@.read(element),
            ),
            step matches ExtractStep::Continue(extractor, _) && extractor@.wf(),
    {
        proof {
            use_type_invariant(&self);
        }
        let Extractor { nodes, index, limit, stage, title, url, results } = self;
        match stage {
            ExtractStage::Title => ExtractStep::Continue(
                Extractor { nodes, index, limit, stage: ExtractStage::TitleText, title, url, results },
                Command::ReadText(element),
            ),
            ExtractStage::Link => ExtractStep::Continue(
                Extractor { nodes, index, limit, stage: ExtractStage::LinkHref, title, url, results },
                Command::ReadAttribute(element, HREF),
            ),
            _ => ExtractStep::Continue(
                Extractor { nodes, index, limit, stage: ExtractStage::SnippetText, title, url, results },
                Command::ReadText(element),
            ),
        }
    }

    fn took(self, text: String) -> (step: ExtractStep)
        requires
            self@.stage.wanted() is None,
        ensures
            step@ == self@.took(text@),
            step matches ExtractStep::Continue(extractor, _) ==> extractor@.wf(),
    {
        proof {
            use_type_invariant(&self);
        }
        let Extractor { nodes, index, limit, stage, title, url, results } = self;
        assert(index < nodes.len());
        let node = nodes[index];
        match stage {
            ExtractStage::TitleText => ExtractStep::Continue(
                Extractor { nodes, index, limit, stage: ExtractStage::Link, title: text, url, results },
                Command::Find { within: Some(node), selector: Selector::Link },
            ),
            ExtractStage::LinkHref => ExtractStep::Continue(
                Extractor { nodes, index, limit, stage: ExtractStage::Snippet, title, url: text, results },
                Command::Find { within: Some(node), selector: Selector::Snippet },
            ),
            _ => {
                let record = SearchResult { title, url, snippet: text };
                let mut results = results;
                proof {
                    records_push(results@, record);
                }
                results.push(record);
                Self::scan(nodes, index + 1, limit, results)
            },
        }
    }

    fn skip(self) -> (step: ExtractStep)
        ensures
            step@ == self@.skip(),
            step matches ExtractStep::Continue(extractor, _) ==> extractor@.wf(),
    {
        proof {
            use_type_invariant(&self);
        }
        assert(self.index < self.nodes.len());
        Self::scan(self.nodes, self.index + 1, self.limit, self.results)
    }

    /// Takes the answer to the command that was handed out last.
    pub fn step(self, reply: Reply) -> (step: ExtractStep)
        ensures
            self@.wf(),
            step@ == self@.next(reply@),
            step matches ExtractStep::Continue(extractor, _) ==> extractor@.wf(),
    {
        proof {
            use_type_invariant(&self);
        }
        match reply {
            Reply::Fault(fault) => ExtractStep::Done(Err(Error::CdpError(fault))),
            Reply::Element(found) => if !self.finds() {
                ExtractStep::Done(Err(Error::unexpected()))
            } else {
                match found {
                    Some(element) => self.found(element),
                    None => self.skip(),
                }
            },
            Reply::Text(read) => if self.finds() {
                ExtractStep::Done(Err(Error::unexpected()))
            } else {
                match read {
                    Some(text) => self.took(text),
                    None => self.skip(),
                }
            },
            _ => ExtractStep::Done(Err(Error::unexpected())),
        }
    }
}

} // verus!
