//! The sidecar manager: a record of how the one start attempt ended, and the
//! decisions that drive that attempt one outside event at a time.
//!
//! A host holds the manager under one lock for a whole call of
//! "ensure ready": `begin`, then, as the returned step asks, `port_found`
//! with the outcome of binding an ephemeral loopback port, then `spawned`
//! with the outcome of launching the sidecar.

use vstd::prelude::*;
use crate::endpoint::{decimal, development_endpoint, endpoint_for, endpoint_text, port_argument, DEVELOPMENT_PORT};

verus! {

/// How the sidecar is reached: a development backend at a fixed port, or a
/// bundled executable started on a port the operating system assigns.
#[derive(Clone, Copy, Debug, PartialEq, Eq, Structural)]
pub enum Mode {
    Development,
    Production,
}

/// The process-wide record of the start attempt.
#[derive(Clone, Debug)]
pub struct State {
    pub url: Option<String>,
    pub error: Option<String>,
}

/// The answer given to a caller of "ensure ready".
#[derive(Clone, Debug)]
pub struct Info {
    pub available: bool,
    pub url: Option<String>,
    pub error: Option<String>,
}

/// What the host must do next.
#[derive(Clone, Debug)]
pub enum Step {
    /// The call is over: hand this answer to the caller.
    Reply(Info),
    /// Bind an ephemeral loopback port, release it, and report the port.
    FindPort,
    /// Launch the sidecar with `argument` as its one argument, without
    /// waiting for it, and report whether it started.
    Spawn { port: u16, argument: String },
}

/// Where the start attempt stands.
pub enum Phase {
    Unresolved,
    Ready(Seq<char>),
    Failed(Seq<char>),
}

/// The content of an `Info`.
pub struct InfoModel {
    pub available: bool,
    pub url: Option<Seq<char>>,
    pub error: Option<Seq<char>>,
}

/// The content of a `Step`.
pub enum StepModel {
    Reply(InfoModel),
    FindPort,
    Spawn(u16),
}

pub open spec fn text_of(o: Option<String>) -> Option<Seq<char>> {
    match o {
        Some(s) => Some(s@),
        None => None,
    }
}

impl State {
    /// An endpoint and an error are never recorded together.
    pub open spec fn wf(&self) -> bool {
        !(self.url is Some && self.error is Some)
    }
}

impl View for State {
    type V = Phase;

    open spec fn view(&self) -> Phase {
        match self.url {
            Some(u) => Phase::Ready(u@),
            None => match self.error {
                Some(e) => Phase::Failed(e@),
                None => Phase::Unresolved,
            },
        }
    }
}

impl View for Info {
    type V = InfoModel;

    open spec fn view(&self) -> InfoModel {
        InfoModel { available: self.available, url: text_of(self.url), error: text_of(self.error) }
    }
}

impl View for Step {
    type V = StepModel;

    open spec fn view(&self) -> StepModel {
        match self {
            Step::Reply(i) => StepModel::Reply(i@),
            Step::FindPort => StepModel::FindPort,
            Step::Spawn { port, argument } => StepModel::Spawn(*port),
        }
    }
}

/// The answer that a settled attempt gives.
pub open spec fn reply_of(p: Phase) -> InfoModel {
    match p {
        Phase::Ready(u) => InfoModel { available: true, url: Some(u), error: None },
        Phase::Failed(e) => InfoModel { available: false, url: None, error: Some(e) },
        Phase::Unresolved => InfoModel { available: false, url: None, error: None },
    }
}

/// The start of a call: a settled attempt answers at once; an unsettled one
/// settles on the fixed endpoint in development and asks for a port in
/// production.
pub open spec fn begin_model(mode: Mode, p: Phase) -> (Phase, StepModel) {
    match p {
        Phase::Unresolved => match mode {
            Mode::Development => (
                Phase::Ready(development_endpoint()),
                StepModel::Reply(reply_of(Phase::Ready(development_endpoint()))),
            ),
            Mode::Production => (Phase::Unresolved, StepModel::FindPort),
        },
        _ => (p, StepModel::Reply(reply_of(p))),
    }
}

/// After port discovery: a failure settles the attempt; a port is handed on
/// to the spawn.
pub open spec fn port_model(found: Result<u16, Seq<char>>) -> (Phase, StepModel) {
    match found {
        Ok(port) => (Phase::Unresolved, StepModel::Spawn(port)),
        Err(e) => (Phase::Failed(e), StepModel::Reply(reply_of(Phase::Failed(e)))),
    }
}

/// After the spawn: the attempt settles on the endpoint or on the error.
pub open spec fn spawn_model(port: u16, started: Result<(), Seq<char>>) -> Phase {
    match started {
        Ok(_) => Phase::Ready(endpoint_text(port)),
        Err(e) => Phase::Failed(e),
    }
}

pub open spec fn result_text<T>(r: Result<T, String>) -> Result<T, Seq<char>> {
    match r {
        Ok(v) => Ok(v),
        Err(e) => Err(e@),
    }
}

impl State {
    /// A record of an attempt that has not been made.
    pub fn new() -> (r: State)
        ensures
            r.wf(),
            r@ == Phase::Unresolved,
    {
        State { url: None, error: None }
    }

    /// The answer that this record gives once the attempt has settled.
    pub fn info(&self) -> (r: Info)
        requires
            self.wf(),
        ensures
            r@ == reply_of(self@),
    {
        match &self.url {
            Some(u) => Info { available: true, url: Some(u.clone()), error: None },
            None => match &self.error {
                Some(e) => Info { available: false, url: None, error: Some(e.clone()) },
                None => Info { available: false, url: None, error: None },
            },
        }
    }
}

impl Default for State {
    fn default() -> (r: State)
        ensures
            r.wf(),
            r@ == Phase::Unresolved,
    {
        State::new()
    }
}

/// Owns the start attempt of one sidecar for the life of the host process.
pub struct SidecarManager {
    pub mode: Mode,
    pub state: State,
}

impl SidecarManager {
    pub open spec fn wf(&self) -> bool {
        self.state.wf()
    }

    /// A manager for `mode` whose attempt has not been made.
    pub fn new(mode: Mode) -> (r: SidecarManager)
        ensures
            r.wf(),
            r.mode == mode,
            r.state@ == Phase::Unresolved,
    {
        SidecarManager { mode, state: State::new() }
    }

    /// Starts a call of "ensure ready".
    pub fn begin(&mut self) -> (s: Step)
        requires
            old(self).wf(),
        ensures
            final(self).wf(),
            final(self).mode == old(self).mode,
            (final(self).state@, s@) == begin_model(old(self).mode, old(self).state@),
    {
        if self.state.url.is_some() || self.state.error.is_some() {
            return Step::Reply(self.state.info());
        }
        match self.mode {
            Mode::Development => {
                self.state.url = Some(endpoint_for(DEVELOPMENT_PORT));
                Step::Reply(self.state.info())
            },
            Mode::Production => Step::FindPort,
        }
    }

    /// Takes the outcome of port discovery, or its error message.
    pub fn port_found(&mut self, found: Result<u16, String>) -> (s: Step)
        requires
            old(self).wf(),
            old(self).state@ == Phase::Unresolved,
        ensures
            final(self).wf(),
            final(self).mode == old(self).mode,
            (final(self).state@, s@) == port_model(result_text(found)),
            s matches Step::Spawn { port, argument } ==> argument@ == decimal(port as nat),
    {
        match found {
            Ok(port) => Step::Spawn { port, argument: port_argument(port) },
            Err(e) => {
                self.state.error = Some(e);
                Step::Reply(self.state.info())
            },
        }
    }

    /// Takes the outcome of launching the sidecar on `port`, or its error
    /// message, and settles the attempt.
    pub fn spawned(&mut self, port: u16, started: Result<(), String>) -> (r: Info)
        requires
            old(self).wf(),
            old(self).state@ == Phase::Unresolved,
        ensures
            final(self).wf(),
            final(self).mode == old(self).mode,
            final(self).state@ == spawn_model(port, result_text(started)),
            r@ == reply_of(final(self).state@),
    {
        match started {
            Ok(()) => self.state.url = Some(endpoint_for(port)),
            Err(e) => self.state.error = Some(e),
        }
        self.state.info()
    }
}

} // verus!
