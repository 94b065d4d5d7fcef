use vstd::prelude::*;
use crate::error::{unexpected_reply, Error, ErrorView};
use crate::surface::{Command, CommandView, Handle, Reply, ReplyView, Selector};

verus! {

/// Which answer a poller is waiting for.
#[derive(Clone, Copy, Debug, PartialEq, Eq)]
pub enum PollStage {
    /// The results container was asked for.
    Container,
    /// The result nodes inside the container were asked for.
    Nodes,
    /// The pause after an attempt that found no node is under way.
    Pause,
}

/// Waits for the results container to hold at least one result node, looking
/// a bounded number of times with a fixed pause after each empty look.
#[derive(Debug)]
pub struct Poller {
    remaining: u32,
    interval: u64,
    stage: PollStage,
}

/// The mathematical value of a [`Poller`].
pub struct PollerView {
    /// The attempts that are left, the one under way included.
    pub remaining: nat,
    /// The pause after an empty attempt, in milliseconds.
    pub interval: u64,
    /// The answer that is awaited.
    pub stage: PollStage,
}

/// How polling goes on after an answer.
#[derive(Debug)]
pub enum PollStep {
    /// Perform the command and hand its answer to the poller.
    Continue(Poller, Command),
    /// Polling has ended: with the result nodes in document order, with
    /// `None` if every attempt found the container empty, or with an error.
    Done(Result<Option<Vec<Handle>>, Error>),
}

/// The mathematical value of a [`PollStep`].
pub enum PollStepView {
    Continue(PollerView, CommandView),
    Done(Result<Option<Seq<Handle>>, ErrorView>),
}

impl View for Poller {
    type V = PollerView;

    closed spec fn view(&self) -> PollerView {
        PollerView { remaining: self.remaining as nat, interval: self.interval, stage: self.stage }
    }
}

impl View for PollStep {
    type V = PollStepView;

    open spec fn view(&self) -> PollStepView {
        match *self {
            PollStep::Continue(poller, command) => PollStepView::Continue(poller@, command@),
            PollStep::Done(Ok(Some(nodes))) => PollStepView::Done(Ok(Some(nodes@))),
            PollStep::Done(Ok(None)) => PollStepView::Done(Ok(None)),
            PollStep::Done(Err(e)) => PollStepView::Done(Err(e@)),
        }
    }
}

impl PollStage {
    /// The place of the stage within one attempt.
    pub open spec fn ordinal(self) -> nat {
        match self {
            PollStage::Container => 0,
            PollStage::Nodes => 1,
            PollStage::Pause => 2,
        }
    }
}

impl PollerView {
    /// The largest number of answers that the poller still takes: three for
    /// each attempt that is left, less those of the attempt under way that
    /// it has taken.
    pub open spec fn answers_left(self) -> nat {
        (3 * self.remaining - self.stage.ordinal()) as nat
    }

    /// A poller in use has at least the attempt under way left.
    pub open spec fn wf(self) -> bool {
        self.remaining > 0
    }

    /// The command that asks for the results container.
    pub open spec fn look() -> CommandView {
        CommandView::Find { within: None, selector: Selector::ResultsBox }
    }

    /// Polling with a budget of `attempts` looks, `interval` milliseconds
    /// apart: with no budget it ends at once without nodes, else it starts
    /// by looking for the container.
    pub open spec fn begin(attempts: u32, interval: u64) -> PollStepView {
        if attempts == 0 {
            PollStepView::Done(Ok(None))
        } else {
            PollStepView::Continue(
                PollerView { remaining: attempts as nat, interval, stage: PollStage::Container },
                Self::look(),
            )
        }
    }

    /// What the poller does with an answer.
    ///
    /// A missing container and a fault end polling with an error. A
    /// container with nodes ends it with the nodes. An empty container is
    /// followed by a pause, and the pause by the next look while the budget
    /// lasts; when it is used up, polling ends without nodes and without an
    /// error.
    pub open spec fn next(self, reply: ReplyView) -> PollStepView {
        match (self.stage, reply) {
            (_, ReplyView::Fault(fault)) => PollStepView::Done(Err(ErrorView::CdpError(fault))),
            (PollStage::Container, ReplyView::Element(Some(container))) => PollStepView::Continue(
                PollerView { stage: PollStage::Nodes, ..self },
                CommandView::FindAll { within: Some(container), selector: Selector::ResultNode },
            ),
            (PollStage::Container, ReplyView::Element(None)) => PollStepView::Done(
                Err(ErrorView::ElementNotFound(Selector::ResultsBox.css())),
            ),
            (PollStage::Nodes, ReplyView::Elements(nodes)) => if nodes.len() > 0 {
                PollStepView::Done(Ok(Some(nodes)))
            } else {
                PollStepView::Continue(
                    PollerView { stage: PollStage::Pause, ..self },
                    CommandView::Pause(self.interval),
                )
            },
            (PollStage::Pause, ReplyView::Done) => if self.remaining > 1 {
                PollStepView::Continue(
                    PollerView {
                        remaining: (self.remaining - 1) as nat,
                        stage: PollStage::Container,
                        ..self
                    },
                    Self::look(),
                )
            } else {
                PollStepView::Done(Ok(None))
            },
            _ => PollStepView::Done(Err(unexpected_reply())),
        }
    }
}

impl PollStepView {
    /// Where polling stands after the answers were handed to it one by one.
    /// Answers that come after polling has ended are not looked at.
    pub open spec fn feed(self, replies: Seq<ReplyView>) -> PollStepView
        decreases replies.len(),
    {
        if replies.len() == 0 {
            self
        } else {
            match self {
                PollStepView::Continue(poller, _) => poller.next(replies[0]).feed(replies.drop_first()),
                PollStepView::Done(_) => self,
            }
        }
    }
}

impl Poller {
    #[verifier::type_invariant]
    spec fn inv(self) -> bool {
        self@.wf()
    }

    /// Starts polling with a budget of `attempts` looks, `interval`
    /// milliseconds apart.
    pub fn start(attempts: u32, interval: u64) -> (step: PollStep)
        ensures
            step@ == PollerView::begin(attempts, interval),
            step matches PollStep::Continue(poller, _) ==> poller@.wf(),
    {
        if attempts == 0 {
            PollStep::Done(Ok(None))
        } else {
            PollStep::Continue(
                Poller { remaining: attempts, interval, stage: PollStage::Container },
                Command::Find { within: None, selector: Selector::ResultsBox },
            )
        }
    }

    /// Takes the answer to the command that was handed out last.
    pub fn step(self, reply: Reply) -> (step: PollStep)
        ensures
            self@.wf(),
            step@ == self@.next(reply@),
            step matches PollStep::Continue(poller, _) ==> poller@.wf(),
    {
        proof {
            use_type_invariant(&self);
        }
        match (self.stage, reply) {
            (_, Reply::Fault(fault)) => PollStep::Done(Err(Error::CdpError(fault))),
            (PollStage::Container, Reply::Element(Some(container))) => PollStep::Continue(
                Poller { remaining: self.remaining, interval: self.interval, stage: PollStage::Nodes },
                Command::FindAll { within: Some(container), selector: Selector::ResultNode },
            ),
            (PollStage::Container, Reply::Element(None)) => PollStep::Done(
                Err(Error::element(Selector::ResultsBox.as_str())),
            ),
            (PollStage::Nodes, Reply::Elements(nodes)) => if nodes.len() > 0 {
                PollStep::Done(Ok(Some(nodes)))
            } else {
                PollStep::Continue(
                    Poller { remaining: self.remaining, interval: self.interval, stage: PollStage::Pause },
                    Command::Pause(self.interval),
                )
            },
            (PollStage::Pause, Reply::Done) => if self.remaining > 1 {
                PollStep::Continue(
                    Poller {
                        remaining: self.remaining - 1,
                        interval: self.interval,
                        stage: PollStage::Container,
                    },
                    Command::Find { within: None, selector: Selector::ResultsBox },
                )
            } else {
                PollStep::Done(Ok(None))
            },
            _ => PollStep::Done(Err(Error::unexpected())),
        }
    }
}

} // verus!
