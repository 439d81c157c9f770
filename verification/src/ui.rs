//! Narration steps: a label and the events recorded under it. A step is
//! never changed; recording an event gives a new step.

use vstd::prelude::*;

verus! {

/// Name of the `nrv.ui` module.
pub fn module_name() -> (name: &'static str)
    ensures
        name@ == "ui"@,
{
    "ui"
}

/// One event recorded by a step.
#[derive(Debug, Clone, PartialEq, Eq)]
pub enum StepEvent {
    Info(String),
    /// A success marker.
    Success(Option<String>),
    Fail(Option<String>),
}

/// A recorded event, with its message as text.
pub enum StepEventView {
    Info(Seq<char>),
    Success(Option<Seq<char>>),
    Fail(Option<Seq<char>>),
}

/// The text of an optional message.
pub open spec fn message_view(message: Option<String>) -> Option<Seq<char>> {
    match message {
        Some(text) => Some(text@),
        None => None,
    }
}

/// The text of an optional borrowed message.
pub open spec fn note_view(message: Option<&str>) -> Option<Seq<char>> {
    match message {
        Some(text) => Some(text@),
        None => None,
    }
}

impl View for StepEvent {
    type V = StepEventView;

    open spec fn view(&self) -> StepEventView {
        match *self {
            StepEvent::Info(text) => StepEventView::Info(text@),
            StepEvent::Success(message) => StepEventView::Success(message_view(message)),
            StepEvent::Fail(message) => StepEventView::Fail(message_view(message)),
        }
    }
}

/// The views of a list of events, in the order they were recorded.
pub open spec fn event_views(events: Seq<StepEvent>) -> Seq<StepEventView> {
    Seq::new(events.len(), |i: int| events[i]@)
}

/// A copy of an optional message.
fn copy_message(message: &Option<String>) -> (copy: Option<String>)
    ensures
        message_view(copy) == message_view(*message),
{
    match message {
        Some(text) => Some(text.clone()),
        None => None,
    }
}

/// An owned copy of an optional borrowed message.
fn own_message(message: Option<&str>) -> (owned: Option<String>)
    ensures
        message_view(owned) == note_view(message),
{
    match message {
        Some(text) => Some(text.to_owned()),
        None => None,
    }
}

impl StepEvent {
    /// A copy of the event.
    pub fn duplicate(&self) -> (copy: Self)
        ensures
            copy@ == self@,
    {
        match self {
            StepEvent::Info(text) => StepEvent::Info(text.clone()),
            StepEvent::Success(message) => StepEvent::Success(copy_message(message)),
            StepEvent::Fail(message) => StepEvent::Fail(copy_message(message)),
        }
    }
}

/// A narration step: a label and what was recorded under it, oldest first.
#[derive(Debug, Clone)]
pub struct Step {
    label: String,
    events: Vec<StepEvent>,
}

/// A step: its label, and its events from oldest to newest.
pub struct StepView {
    pub label: Seq<char>,
    pub events: Seq<StepEventView>,
}

impl View for Step {
    type V = StepView;

    closed spec fn view(&self) -> StepView {
        StepView { label: self.label@, events: event_views(self.events@) }
    }
}

impl Step {
    /// A step with the given label and no events.
    pub fn new(label: &str) -> (step: Self)
        ensures
            step@ == (StepView { label: label@, events: Seq::empty() }),
    {
        let step = Self { label: label.to_owned(), events: Vec::new() };
        assert(step@.events =~= Seq::empty());
        step
    }

    /// The step with `event` recorded after all it holds. The step itself is
    /// left as it is.
    pub fn with_event(&self, event: StepEvent) -> (step: Self)
        ensures
            step@ == (StepView { label: self@.label, events: self@.events.push(event@) }),
    {
        let mut events: Vec<StepEvent> = Vec::new();
        let mut i: usize = 0;
        while i < self.events.len()
            invariant
                i <= self.events@.len(),
                events@.len() == i,
                forall|k: int| 0 <= k < i ==> (#[trigger] events@[k])@ == self.events@[k]@,
            decreases self.events@.len() - i,
        {
            events.push(self.events[i].duplicate());
            i += 1;
        }
        events.push(event);
        let step = Self { label: self.label.clone(), events };
        assert(step@.events =~= self@.events.push(event@));
        step
    }

    /// Records an informational message.
    pub fn info(&self, msg: &str) -> (step: Self)
        ensures
            step@ == (StepView {
                label: self@.label,
                events: self@.events.push(StepEventView::Info(msg@)),
            }),
    {
        self.with_event(StepEvent::Info(msg.to_owned()))
    }

    /// Records a success marker, with a message if one is given.
    pub fn ok(&self, msg: Option<&str>) -> (step: Self)
        ensures
            step@ == (StepView {
                label: self@.label,
                events: self@.events.push(StepEventView::Success(note_view(msg))),
            }),
    {
        self.with_event(StepEvent::Success(own_message(msg)))
    }

    /// Records a failure marker, with a message if one is given.
    pub fn fail(&self, msg: Option<&str>) -> (step: Self)
        ensures
            step@ == (StepView {
                label: self@.label,
                events: self@.events.push(StepEventView::Fail(note_view(msg))),
            }),
    {
        self.with_event(StepEvent::Fail(own_message(msg)))
    }

    /// The label the step was made with.
    pub fn label(&self) -> (label: &str)
        ensures
            label@ == self@.label,
    {
        self.label.as_str()
    }

    /// The events recorded so far, oldest first.
    pub fn events(&self) -> (events: &[StepEvent])
        ensures
            event_views(events@) == self@.events,
    {
        self.events.as_slice()
    }
}

/// A new narration step with the given label.
pub fn step(label: &str) -> (step: Step)
    ensures
        step@ == (StepView { label: label@, events: Seq::empty() }),
{
    Step::new(label)
}

} // verus!
