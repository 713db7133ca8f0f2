//! A startup under way: it tells the driver what to do, and takes back how that went.
use vstd::prelude::*;

use crate::actions::{action, can_act, spec_action, Action, Known};
use crate::config::Configuration;
use crate::error::ServiceError;
use crate::plan::{in_order, Stage};

verus! {

/// How an action went.
#[derive(Debug, PartialEq, Eq)]
pub enum Outcome<E> {
    /// It is done, and nothing came back that a later action needs.
    Done,
    /// The slot duration was read, in milliseconds.
    SlotDuration(u64),
    /// The protocol was named.
    ProtocolName(String),
    /// It failed.
    Failed(E),
}

/// What a driver does next.
#[derive(Debug, PartialEq, Eq)]
pub enum Next<'a, E> {
    /// Perform this action, and report its outcome.
    Perform(Action<'a>),
    /// The startup is complete.
    Finished,
    /// The startup has failed.
    Failed(ServiceError<E>),
}

/// A startup, as what it is about to do.
#[verifier::ext_equal]
pub struct StartupState<'a> {
    pub config: &'a Configuration,
    /// The stages of the startup.
    pub plan: Seq<Stage>,
    /// How many of them are over.
    pub at: int,
    /// What has come back from them.
    pub known: Known,
    /// Whether one of them failed and ended the startup.
    pub stopped: bool,
    /// Why the startup is refused once its stages are over, if it is.
    pub refusal: Option<Seq<char>>,
}

impl<'a> StartupState<'a> {
    /// A startup before its first stage.
    pub open spec fn initial(
        config: &'a Configuration,
        plan: Seq<Stage>,
        refusal: Option<Seq<char>>,
    ) -> StartupState<'a> {
        StartupState {
            config,
            plan,
            at: 0,
            known: Known { protocol_name: None, slot_duration: None },
            stopped: false,
            refusal,
        }
    }

    /// An action is under way.
    pub open spec fn running(self) -> bool {
        !self.stopped && self.at < self.plan.len()
    }

    /// The stage that is under way.
    pub open spec fn stage(self) -> Stage {
        self.plan[self.at]
    }

    /// The outcome is one of those that the stage under way can have. Of the stages whose failure does
    /// not end the startup, making the directory may fail all the same.
    pub open spec fn expects<E>(self, outcome: Outcome<E>) -> bool {
        match outcome {
            Outcome::Done => !self.stage().reads_slot_duration() && !(self.stage() is NameProtocol),
            Outcome::SlotDuration(_) => self.stage().reads_slot_duration(),
            Outcome::ProtocolName(_) => self.stage() is NameProtocol,
            Outcome::Failed(_) => self.stage().is_fallible() || self.stage() is CreateDatabaseDir,
        }
    }

    /// The outcome ends the startup.
    pub open spec fn is_ended_by<E>(self, outcome: Outcome<E>) -> bool {
        outcome is Failed && self.stage().is_fallible()
    }

    /// The startup after the stage under way.
    pub open spec fn after<E>(self, outcome: Outcome<E>) -> StartupState<'a> {
        if self.is_ended_by(outcome) {
            StartupState { stopped: true, ..self }
        } else {
            StartupState {
                at: self.at + 1,
                known: match outcome {
                    Outcome::SlotDuration(millis) => Known {
                        slot_duration: Some(millis),
                        ..self.known
                    },
                    Outcome::ProtocolName(name) => Known {
                        protocol_name: Some(name),
                        ..self.known
                    },
                    _ => self.known,
                },
                ..self
            }
        }
    }

    /// `next` is what a driver does next in a startup that no failure has ended.
    pub open spec fn calls_for<E>(self, next: Next<'a, E>) -> bool {
        if self.at < self.plan.len() {
            next == Next::<'a, E>::Perform(spec_action(self.config, self.known, self.stage()))
        } else if self.refusal is Some {
            next matches Next::Failed(ServiceError::Other(message)) && message@ == self.refusal->0
        } else {
            next == Next::<'a, E>::Finished
        }
    }

    /// Every stage has what it needs when its turn comes.
    pub open spec fn wf(self) -> bool {
        &&& 0 <= self.at <= self.plan.len()
        &&& in_order(self.plan)
        &&& forall|i: int|
            0 <= i < self.plan.len() ==> {
                let stage = #[trigger] self.plan[i];
                &&& stage is CreateDatabaseDir || stage is GatherBenchmarks
                    ==> self.config.database_path is Some
                &&& stage is StartTelemetry ==> self.config.telemetry_endpoints is Some
                &&& stage is BuildImportQueue ==> self.plan.contains(Stage::ReadImportSlotDuration)
                &&& stage is StartAura ==> self.plan.contains(Stage::ReadAuthoringSlotDuration)
                &&& stage is AddPeersSet || stage is RunVoter ==> self.plan.contains(
                    Stage::NameProtocol,
                )
            }
        &&& forall|i: int|
            0 <= i < self.at ==> {
                let stage = #[trigger] self.plan[i];
                &&& stage.reads_slot_duration() ==> self.known.slot_duration is Some
                &&& stage is NameProtocol ==> self.known.protocol_name is Some
            }
    }
}

/// In a well-formed startup, the action of the stage under way can be told.
proof fn lemma_can_act(state: StartupState)
    requires
        state.wf(),
        state.at < state.plan.len(),
    ensures
        can_act(state.config, state.known, state.stage()),
{
    let stage = state.plan[state.at];
    if stage is BuildImportQueue {
        let i = choose|i: int|
            0 <= i < state.plan.len() && state.plan[i] == Stage::ReadImportSlotDuration;
        assert(i < state.at);
    }
    if stage is StartAura {
        let i = choose|i: int|
            0 <= i < state.plan.len() && state.plan[i] == Stage::ReadAuthoringSlotDuration;
        assert(i < state.at);
    }
    if stage is AddPeersSet || stage is RunVoter {
        let i = choose|i: int| 0 <= i < state.plan.len() && state.plan[i] == Stage::NameProtocol;
        assert(i < state.at);
    }
}

/// A startup stays well-formed from stage to stage.
pub proof fn lemma_after_wf<E>(state: StartupState, outcome: Outcome<E>)
    requires
        state.wf(),
        state.running(),
        state.expects(outcome),
    ensures
        state.after(outcome).wf(),
{
}

/// A startup under way.
#[derive(Debug, PartialEq, Eq)]
pub struct Startup<'a> {
    config: &'a Configuration,
    plan: Vec<Stage>,
    at: usize,
    known: Known,
    stopped: bool,
    refusal: Option<String>,
}

impl<'a> View for Startup<'a> {
    type V = StartupState<'a>;

    closed spec fn view(&self) -> StartupState<'a> {
        StartupState {
            config: self.config,
            plan: self.plan@,
            at: self.at as int,
            known: self.known,
            stopped: self.stopped,
            refusal: match self.refusal {
                Some(message) => Some(message@),
                None => None,
            },
        }
    }
}

impl<'a> Startup<'a> {
    /// A startup that goes through the stages of `plan` and is then complete.
    pub(crate) fn new(config: &'a Configuration, plan: Vec<Stage>) -> (r: Startup<'a>)
        ensures
            r@ == StartupState::initial(config, plan@, None),
    {
        Startup {
            config,
            plan,
            at: 0,
            known: Known { protocol_name: None, slot_duration: None },
            stopped: false,
            refusal: None,
        }
    }

    /// A startup that goes through the stages of `plan` and is then refused.
    pub(crate) fn refused(config: &'a Configuration, plan: Vec<Stage>, message: String) -> (r: Startup<'a>)
        ensures
            r@ == StartupState::initial(config, plan@, Some(message@)),
    {
        Startup {
            config,
            plan,
            at: 0,
            known: Known { protocol_name: None, slot_duration: None },
            stopped: false,
            refusal: Some(message),
        }
    }

    /// What a driver does next.
    pub fn pending<E>(&self) -> (r: Next<'a, E>)
        requires
            self@.wf(),
            !self@.stopped,
        ensures
            self@.calls_for(r),
    {
        if self.at < self.plan.len() {
            proof {
                lemma_can_act(self@);
            }
            match action(self.config, &self.known, self.plan[self.at]) {
                Some(action) => Next::Perform(action),
                None => Next::Finished,
            }
        } else {
            match &self.refusal {
                Some(message) => Next::Failed(ServiceError::Other(message.clone())),
                None => Next::Finished,
            }
        }
    }

    /// Takes the outcome of the action under way, and tells what a driver does next. The failure of a
    /// component ends the startup with that component's error. A directory that could not be made does
    /// not: the database reports it later.
    pub fn step<E>(&mut self, outcome: Outcome<E>) -> (r: Next<'a, E>)
        requires
            old(self)@.wf(),
            old(self)@.running(),
            old(self)@.expects(outcome),
        ensures
            final(self)@ == old(self)@.after(outcome),
            final(self)@.wf(),
            old(self)@.is_ended_by(outcome) ==> r == Next::<'a, E>::Failed(
                ServiceError::Component(outcome->Failed_0),
            ),
            !old(self)@.is_ended_by(outcome) ==> final(self)@.calls_for(r),
    {
        let stage = self.plan[self.at];
        match outcome {
            Outcome::Failed(error) => {
                if stage.is_fallible() {
                    self.stopped = true;
                    return Next::Failed(ServiceError::Component(error));
                }
            },
            Outcome::SlotDuration(millis) => {
                self.known.slot_duration = Some(millis);
            },
            Outcome::ProtocolName(name) => {
                self.known.protocol_name = Some(name);
            },
            Outcome::Done => {},
        }
        assert(self.at < self.plan.len());
        self.at = self.at + 1;
        self.pending()
    }
}

} // verus!
