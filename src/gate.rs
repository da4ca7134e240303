//! The confirmation gate in front of deletions. A delete press asks the file view
//! for its selection; a non-empty answer to that request opens a prompt; only the
//! prompt's confirmation hands the operand set on, to be taken once by the pipeline.
use vstd::prelude::*;
use crate::paths::{file_name, file_name_of, texts};
use crate::text::{decimal, decimal_text};

verus! {

/// The state of a `ConfirmationGate`.
pub struct GateModel {
    /// A selection request for a deletion is outstanding.
    pub delete_requested: bool,
    /// A selection request for a properties view is outstanding.
    pub properties_requested: bool,
    /// The operand set of the prompt on screen, if one is.
    pub prompt: Option<Seq<Seq<char>>>,
    /// The confirmed operand set that the pipeline has yet to take.
    pub confirmed: Option<Seq<Seq<char>>>,
}

/// The events that a `ConfirmationGate` reacts to.
pub enum GateEvent {
    PressDelete,
    PressProperties,
    Response(Seq<Seq<char>>),
    Cancel,
    Confirm,
    Take,
}

impl GateModel {
    pub open spec fn idle() -> GateModel {
        GateModel { delete_requested: false, properties_requested: false, prompt: None, confirmed: None }
    }

    /// A delete press is taken only when no deletion is under way: no request is
    /// outstanding and no prompt is on screen.
    pub open spec fn accepts_delete_press(self) -> bool {
        !self.delete_requested && self.prompt is None
    }

    pub open spec fn step(self, e: GateEvent) -> GateModel {
        match e {
            GateEvent::PressDelete => if self.accepts_delete_press() {
                GateModel { delete_requested: true, ..self }
            } else {
                self
            },
            GateEvent::PressProperties => GateModel { properties_requested: true, ..self },
            GateEvent::Response(paths) => if self.properties_requested {
                GateModel { properties_requested: false, ..self }
            } else if self.delete_requested {
                GateModel {
                    delete_requested: false,
                    prompt: if paths.len() > 0 { Some(paths) } else { None },
                    ..self
                }
            } else {
                self
            },
            GateEvent::Cancel => GateModel { prompt: None, ..self },
            GateEvent::Confirm => match self.prompt {
                Some(p) => GateModel { prompt: None, confirmed: Some(p), ..self },
                None => self,
            },
            GateEvent::Take => GateModel { confirmed: None, ..self },
        }
    }

    /// The state after the events, in order.
    pub open spec fn run(self, events: Seq<GateEvent>) -> GateModel
        decreases events.len(),
    {
        if events.len() == 0 {
            self
        } else {
            self.run(events.drop_last()).step(events.last())
        }
    }
}

/// What the owner does after a selection response.
#[derive(Clone, Debug, PartialEq, Eq)]
pub enum GateAction {
    /// Nothing: the response was unsolicited, or the selection empty.
    Ignore,
    /// Show the properties of these paths.
    ShowProperties(Vec<String>),
    /// Show a prompt with this message to confirm the deletion of these paths.
    AskConfirmation { paths: Vec<String>, message: String },
}

/// The prompt's message: the entry's name for one path (or `<unnamed>` where it has
/// none), else the count.
pub open spec fn prompt_text(paths: Seq<Seq<char>>) -> Seq<char> {
    if paths.len() == 1 {
        let name = match file_name_of(paths[0]) {
            Some(n) => n,
            None => "<unnamed>"@,
        };
        "Are you sure you want to delete \""@ + name + "\"?"@
    } else {
        "Are you sure you want to delete "@ + decimal_text(paths.len()) + " selected item(s)?"@
    }
}

/// The message of the prompt that confirms the deletion of `paths`.
pub fn delete_prompt_message(paths: &Vec<String>) -> (r: String)
    ensures
        r@ == prompt_text(texts(paths@)),
{
    if paths.len() == 1 {
        let name = match file_name(&paths[0]) {
            Some(n) => n,
            None => String::from_str("<unnamed>"),
        };
        let mut m = String::from_str("Are you sure you want to delete \"");
        m.append(name.as_str());
        m.append("\"?");
        m
    } else {
        let mut m = String::from_str("Are you sure you want to delete ");
        let count = decimal(paths.len() as u64);
        m.append(count.as_str());
        m.append(" selected item(s)?");
        m
    }
}

pub struct ConfirmationGate {
    delete_requested: bool,
    properties_requested: bool,
    prompt: Option<Vec<String>>,
    confirmed: Option<Vec<String>>,
}

pub open spec fn opt_texts(o: Option<Vec<String>>) -> Option<Seq<Seq<char>>> {
    match o {
        Some(v) => Some(texts(v@)),
        None => None,
    }
}

impl View for ConfirmationGate {
    type V = GateModel;

    closed spec fn view(&self) -> GateModel {
        GateModel {
            delete_requested: self.delete_requested,
            properties_requested: self.properties_requested,
            prompt: opt_texts(self.prompt),
            confirmed: opt_texts(self.confirmed),
        }
    }
}

impl ConfirmationGate {
    pub fn new() -> (r: ConfirmationGate)
        ensures
            r@ == GateModel::idle(),
    {
        ConfirmationGate { delete_requested: false, properties_requested: false, prompt: None, confirmed: None }
    }

    /// A press of the delete trigger. Returns whether a selection request must be sent;
    /// a trigger that keeps firing gets one request, not one per firing.
    pub fn press_delete(&mut self) -> (r: bool)
        ensures
            final(self)@ == old(self)@.step(GateEvent::PressDelete),
            r == old(self)@.accepts_delete_press(),
    {
        if !self.delete_requested && self.prompt.is_none() {
            self.delete_requested = true;
            true
        } else {
            false
        }
    }

    /// A press of the properties trigger. A selection request must be sent.
    pub fn press_properties(&mut self)
        ensures
            final(self)@ == old(self)@.step(GateEvent::PressProperties),
    {
        self.properties_requested = true;
    }

    /// A message on the selection-response channel. An outstanding properties request
    /// is answered first; a delete request with a non-empty selection opens the prompt;
    /// anything else is dropped.
    pub fn on_selection_response(&mut self, paths: Vec<String>) -> (r: GateAction)
        ensures
            final(self)@ == old(self)@.step(GateEvent::Response(texts(paths@))),
            match r {
                GateAction::Ignore => paths@.len() == 0 || (!old(self)@.properties_requested
                    && !old(self)@.delete_requested),
                GateAction::ShowProperties(p) => old(self)@.properties_requested && p@ == paths@
                    && paths@.len() > 0,
                GateAction::AskConfirmation { paths: p, message } => !old(self)@.properties_requested
                    && old(self)@.delete_requested && p@ == paths@ && paths@.len() > 0
                    && message@ == prompt_text(texts(paths@)),
            },
    {
        if self.properties_requested {
            self.properties_requested = false;
            if paths.len() > 0 {
                GateAction::ShowProperties(paths)
            } else {
                GateAction::Ignore
            }
        } else if self.delete_requested {
            self.delete_requested = false;
            if paths.len() > 0 {
                let message = delete_prompt_message(&paths);
                self.prompt = Some(paths.clone());
                GateAction::AskConfirmation { paths, message }
            } else {
                self.prompt = None;
                GateAction::Ignore
            }
        } else {
            GateAction::Ignore
        }
    }

    /// The prompt was dismissed without confirming.
    pub fn cancel(&mut self)
        ensures
            final(self)@ == old(self)@.step(GateEvent::Cancel),
    {
        self.prompt = None;
    }

    /// The prompt was confirmed: its operand set waits for the pipeline.
    pub fn confirm(&mut self)
        ensures
            final(self)@ == old(self)@.step(GateEvent::Confirm),
    {
        if self.prompt.is_some() {
            self.confirmed = self.prompt.take();
        }
    }

    /// Takes the confirmed operand set, once.
    pub fn take_confirmed(&mut self) -> (r: Option<Vec<String>>)
        ensures
            final(self)@ == old(self)@.step(GateEvent::Take),
            opt_texts(r) == old(self)@.confirmed,
    {
        self.confirmed.take()
    }
}

/// What the event history has to show for the prompt and the confirmed set: each came
/// from a non-empty response, and a confirmed set was confirmed after that response.
pub open spec fn justified(s: GateModel, events: Seq<GateEvent>) -> bool {
    &&& s.prompt matches Some(p) ==> p.len() > 0 && exists|i: int|
        0 <= i < events.len() && #[trigger] events[i] == GateEvent::Response(p)
    &&& s.confirmed matches Some(p) ==> p.len() > 0 && exists|i: int, j: int|
        0 <= i < j < events.len() && #[trigger] events[i] == GateEvent::Response(p)
            && #[trigger] events[j] == GateEvent::Confirm
}

/// From a gate with nothing under way, whatever events follow, a set of paths is
/// handed on for deletion only if a non-empty selection response carried exactly that
/// set and a confirmation came after it. A cancelled prompt or an empty selection
/// hands nothing on.
pub proof fn lemma_deletion_needs_response_and_confirmation(events: Seq<GateEvent>)
    ensures
        justified(GateModel::idle().run(events), events),
        GateModel::idle().run(events).confirmed matches Some(p) ==> p.len() > 0 && exists|i: int, j: int|
            0 <= i < j < events.len() && #[trigger] events[i] == GateEvent::Response(p)
                && #[trigger] events[j] == GateEvent::Confirm,
    decreases events.len(),
{
    if events.len() > 0 {
        let prefix = events.drop_last();
        let last = events.len() - 1;
        lemma_deletion_needs_response_and_confirmation(prefix);
        let s = GateModel::idle().run(prefix);
        let t = GateModel::idle().run(events);
        assert(t == s.step(events.last()));
        assert forall|k: int| 0 <= k < prefix.len() implies #[trigger] events[k] == prefix[k] by {}
        if let Some(p) = s.prompt {
            let i = choose|i: int| 0 <= i < prefix.len() && #[trigger] prefix[i] == GateEvent::Response(p);
            assert(events[i] == GateEvent::Response(p));
            if let Some(q) = t.confirmed {
                if events.last() == GateEvent::Confirm {
                    assert(q == p);
                    assert(events[last] == GateEvent::Confirm);
                }
            }
        }
        if let Some(p) = s.confirmed {
            let (i, j) = choose|i: int, j: int|
                0 <= i < j < prefix.len() && #[trigger] prefix[i] == GateEvent::Response(p)
                    && #[trigger] prefix[j] == GateEvent::Confirm;
            assert(events[i] == GateEvent::Response(p) && events[j] == GateEvent::Confirm);
        }
        if let Some(q) = t.prompt {
            if events.last() matches GateEvent::Response(r) {
                if s.delete_requested && !s.properties_requested {
                    assert(events[last] == GateEvent::Response(q));
                }
            }
        }
    }
}

/// A response that arrives while no delete request is outstanding opens no prompt and
/// leaves the confirmed set as it was: it never leads to a deletion.
pub proof fn lemma_unsolicited_response_deletes_nothing(s: GateModel, paths: Seq<Seq<char>>)
    requires
        !s.delete_requested,
    ensures
        s.step(GateEvent::Response(paths)).prompt == s.prompt,
        s.step(GateEvent::Response(paths)).confirmed == s.confirmed,
        !s.step(GateEvent::Response(paths)).delete_requested,
{
}

/// Cancelling, or an empty answer to a delete request, leaves the confirmed set as it
/// was and closes any prompt.
pub proof fn lemma_cancel_and_empty_selection_confirm_nothing(s: GateModel)
    ensures
        s.step(GateEvent::Cancel).confirmed == s.confirmed,
        s.step(GateEvent::Cancel).prompt is None,
        s.delete_requested && !s.properties_requested ==> s.step(GateEvent::Response(seq![])).confirmed
            == s.confirmed && s.step(GateEvent::Response(seq![])).prompt is None,
{
}

} // verus!
