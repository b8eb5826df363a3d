//! The receiver: accepts one transfer at a time, stores it as an
//! executable and runs it to completion before it accepts the next.
//!
//! Like the sender, the pipeline is a state machine that is told what came
//! of the operation it asked for last and answers with the next:
//!
//! ```text
//! Idle -> Binding -> Accepting -> Persisting -> Executing -> Accepting -> ...
//! ```
//!
//! A received stream is decompressed on the way from `Accepting` to
//! `Persisting`. Any failure, in any phase, ends in `Failed` for good.

use vstd::prelude::*;

use crate::codec::decode;
use crate::codec::inflated;
use crate::config::Endpoint;
use crate::config::Receiver;
use crate::failure::Failure;
use crate::paths::base_name;
use crate::paths::directory_of;
use crate::paths::dirname;
use crate::paths::file_name;
use crate::paths::join;
use crate::paths::joined;
use crate::paths::lemma_directory_and_name_lead_back;

verus! {

/// The permissions of a stored file: its owner may read, write and run it,
/// everybody else may read and run it.
pub const EXECUTABLE_MODE: u32 = 0o755;

/// The permission bit that lets the owner of a file run it.
pub const OWNER_EXECUTE: u32 = 0o100;

/// Where the receiver stands.
#[derive(Clone, Copy, Debug, PartialEq, Eq, Structural)]
pub enum ReceiverPhase {
    /// Not started yet.
    Idle,
    /// The listener is being bound.
    Binding,
    /// Waiting for a connection and for all it sends.
    Accepting,
    /// The received file is being written.
    Persisting,
    /// The received file is running.
    Executing,
    /// Stopped for good.
    Failed(Failure),
}

/// What came of the operation the receiver asked for.
#[derive(Debug, PartialEq, Eq)]
pub enum ReceiverEvent {
    /// The pipeline is to start.
    Started,
    /// The listener is bound.
    Bound,
    /// A connection was accepted and closed by its peer; these are the bytes
    /// it sent.
    Received(Vec<u8>),
    /// The file is written in full, flushed and closed.
    Persisted,
    /// The file was started and has run to its end, with this exit code if
    /// it left one.
    Exited(Option<i32>),
    /// The operation failed.
    Failed(Failure),
}

/// The operation the receiver asks for next.
#[derive(Debug, PartialEq, Eq)]
pub enum ReceiverAction {
    /// Bind a listener to `endpoint`, then report `Bound`.
    Bind { endpoint: Endpoint },
    /// Accept one connection and read it to its end, then report the bytes
    /// as `Received`.
    Accept,
    /// Create the file `path` if it is not there, with the permissions
    /// `mode`, empty it, write `contents` to it, flush and close it, then
    /// report `Persisted`.
    Persist { path: String, mode: u32, contents: Vec<u8> },
    /// Start the file `path` as a process and wait until it ends, then
    /// report `Exited`. That the process ends with an error is no failure;
    /// that it cannot be started is one.
    Execute { path: String },
    /// Give up, and report `failure` to whoever started the process.
    Abort { failure: Failure },
}

/// An outcome, with its data as plain values.
pub enum ReceiverEventView {
    /// The pipeline is to start.
    Started,
    /// The listener is bound.
    Bound,
    /// A transfer arrived.
    Received(Seq<u8>),
    /// The file is written.
    Persisted,
    /// The file has run.
    Exited(Option<i32>),
    /// The operation failed.
    Failed(Failure),
}

/// An operation, with its data as plain values.
pub enum ReceiverActionView {
    /// Bind the listener.
    Bind { endpoint: Seq<char> },
    /// Accept a transfer.
    Accept,
    /// Write the file.
    Persist { path: Seq<char>, mode: u32, contents: Seq<u8> },
    /// Run the file.
    Execute { path: Seq<char> },
    /// Give up.
    Abort { failure: Failure },
}

impl View for ReceiverEvent {
    type V = ReceiverEventView;

    open spec fn view(&self) -> ReceiverEventView {
        match self {
            ReceiverEvent::Started => ReceiverEventView::Started,
            ReceiverEvent::Bound => ReceiverEventView::Bound,
            ReceiverEvent::Received(wire) => ReceiverEventView::Received(wire@),
            ReceiverEvent::Persisted => ReceiverEventView::Persisted,
            ReceiverEvent::Exited(code) => ReceiverEventView::Exited(*code),
            ReceiverEvent::Failed(failure) => ReceiverEventView::Failed(*failure),
        }
    }
}

impl View for ReceiverAction {
    type V = ReceiverActionView;

    open spec fn view(&self) -> ReceiverActionView {
        match self {
            ReceiverAction::Bind { endpoint } => ReceiverActionView::Bind { endpoint: endpoint@ },
            ReceiverAction::Accept => ReceiverActionView::Accept,
            ReceiverAction::Persist { path, mode, contents } => ReceiverActionView::Persist {
                path: path@,
                mode: *mode,
                contents: contents@,
            },
            ReceiverAction::Execute { path } => ReceiverActionView::Execute { path: path@ },
            ReceiverAction::Abort { failure } => ReceiverActionView::Abort { failure: *failure },
        }
    }
}

/// Where a file received under the configured name `file` is stored: under
/// its file name, in its directory. A bare name is stored in `.`, so that
/// running it never searches for a program of that name elsewhere.
pub open spec fn destination_of(file: Seq<char>) -> Seq<char> {
    joined(directory_of(file), base_name(file)->0)
}

/// The outcome of decompressing, as plain values.
pub open spec fn decoding_of(wire: Seq<u8>) -> Result<Seq<u8>, Failure> {
    match inflated(wire) {
        Some(bytes) => Ok(bytes),
        None => Err(Failure::Codec),
    }
}

/// The bytes or the failure of an outcome, as plain values.
pub open spec fn decoded_bytes(outcome: Result<Vec<u8>, Failure>) -> Result<Seq<u8>, Failure> {
    match outcome {
        Ok(bytes) => Ok(bytes@),
        Err(failure) => Err(failure),
    }
}

/// The receiver as a plain value.
pub struct ReceiverModel {
    /// The name under which files are stored, as configured.
    pub file: Seq<char>,
    /// Where a received file is stored and run.
    pub destination: Seq<char>,
    /// The address to listen on.
    pub endpoint: Seq<char>,
    /// Where the receiver stands.
    pub phase: ReceiverPhase,
}

impl ReceiverModel {
    /// The receiver for `file` and `endpoint`, before it is started.
    pub open spec fn initial(file: Seq<char>, endpoint: Seq<char>) -> ReceiverModel {
        ReceiverModel {
            file,
            destination: destination_of(file),
            endpoint,
            phase: ReceiverPhase::Idle,
        }
    }

    /// What always holds of a receiver: its file has a name, and it stores
    /// what it receives under that name.
    pub open spec fn wf(self) -> bool {
        &&& base_name(self.file) is Some
        &&& self.destination == destination_of(self.file)
    }

    /// The same receiver in another phase.
    pub open spec fn at(self, phase: ReceiverPhase) -> ReceiverModel {
        ReceiverModel { phase, ..self }
    }

    /// The receiver once it has stopped for `failure`, and its last word.
    pub open spec fn abort(self, failure: Failure) -> (ReceiverModel, ReceiverActionView) {
        (self.at(ReceiverPhase::Failed(failure)), ReceiverActionView::Abort { failure })
    }

    /// What the receiver does once a transfer is decompressed, or could not
    /// be: it stores the bytes as an executable, or stops.
    pub open spec fn after_decoding(self, decoded: Result<Seq<u8>, Failure>) -> (
        ReceiverModel,
        ReceiverActionView,
    ) {
        match self.phase {
            ReceiverPhase::Failed(failure) => (self, ReceiverActionView::Abort { failure }),
            ReceiverPhase::Accepting => match decoded {
                Ok(contents) => (
                    self.at(ReceiverPhase::Persisting),
                    ReceiverActionView::Persist {
                        path: self.destination,
                        mode: EXECUTABLE_MODE,
                        contents,
                    },
                ),
                Err(failure) => self.abort(failure),
            },
            _ => self.abort(Failure::Unexpected),
        }
    }

    /// The receiver after `event`, and the operation it asks for.
    ///
    /// A stopped receiver stays stopped. A failure stops the receiver,
    /// whatever its phase. Else the event must answer what the receiver asked
    /// for last: any other event stops it too.
    pub open spec fn next(self, event: ReceiverEventView) -> (ReceiverModel, ReceiverActionView) {
        match self.phase {
            ReceiverPhase::Failed(failure) => (self, ReceiverActionView::Abort { failure }),
            _ => match event {
                ReceiverEventView::Failed(failure) => self.abort(failure),
                ReceiverEventView::Started => if self.phase is Idle {
                    (
                        self.at(ReceiverPhase::Binding),
                        ReceiverActionView::Bind { endpoint: self.endpoint },
                    )
                } else {
                    self.abort(Failure::Unexpected)
                },
                ReceiverEventView::Bound => if self.phase is Binding {
                    (self.at(ReceiverPhase::Accepting), ReceiverActionView::Accept)
                } else {
                    self.abort(Failure::Unexpected)
                },
                ReceiverEventView::Received(wire) => self.after_decoding(decoding_of(wire)),
                ReceiverEventView::Persisted => if self.phase is Persisting {
                    (
                        self.at(ReceiverPhase::Executing),
                        ReceiverActionView::Execute { path: self.destination },
                    )
                } else {
                    self.abort(Failure::Unexpected)
                },
                ReceiverEventView::Exited(_) => if self.phase is Executing {
                    (self.at(ReceiverPhase::Accepting), ReceiverActionView::Accept)
                } else {
                    self.abort(Failure::Unexpected)
                },
            },
        }
    }
}

/// Every step keeps a receiver well formed.
pub proof fn lemma_receiver_stays_well_formed(receiver: ReceiverModel, event: ReceiverEventView)
    requires
        receiver.wf(),
    ensures
        receiver.next(event).0.wf(),
{
}

/// Failure is final: a failure stops the receiver in whatever phase it is,
/// and a stopped receiver answers every event by giving up for the failure
/// that stopped it. Nothing is retried.
pub proof fn lemma_receiver_failure_is_final(
    receiver: ReceiverModel,
    failure: Failure,
    event: ReceiverEventView,
)
    ensures
        receiver.next(ReceiverEventView::Failed(failure)).0.phase is Failed,
        receiver.next(ReceiverEventView::Failed(failure)).1 is Abort,
        !(receiver.phase is Failed) ==> receiver.next(ReceiverEventView::Failed(failure))
            == receiver.abort(failure),
        receiver.phase is Failed ==> receiver.next(event) == (
            receiver,
            ReceiverActionView::Abort { failure: receiver.phase->Failed_0 },
        ),
{
}

/// Receiver permission contract: whatever the receiver stores, it stores at
/// its destination, as the decompressed form of what it received, and with
/// permissions that let the owner of the file run it.
pub proof fn lemma_receiver_stores_executables(receiver: ReceiverModel, event: ReceiverEventView)
    ensures
        receiver.next(event).1 is Persist ==> {
            &&& receiver.phase is Accepting
            &&& event is Received
            &&& inflated(event->Received_0) == Some(receiver.next(event).1->contents)
            &&& receiver.next(event).1->Persist_path == receiver.destination
            &&& receiver.next(event).1->mode == EXECUTABLE_MODE
            &&& receiver.next(event).1->mode & OWNER_EXECUTE == OWNER_EXECUTE
        },
{
    assert(EXECUTABLE_MODE & OWNER_EXECUTE == OWNER_EXECUTE) by (bit_vector);
}

/// The receiver runs a file only once it is written in full, and runs the
/// file it wrote.
pub proof fn lemma_receiver_runs_what_it_stored(receiver: ReceiverModel, event: ReceiverEventView)
    ensures
        receiver.next(event).1 is Execute ==> {
            &&& receiver.phase is Persisting
            &&& event is Persisted
            &&& receiver.next(event).1->Execute_path == receiver.destination
        },
{
}

/// One transfer at a time: the receiver asks for the next connection only
/// once the listener is bound or the file it received last has run to its
/// end, and it does so however that file ended.
pub proof fn lemma_receiver_accepts_between_runs(
    receiver: ReceiverModel,
    event: ReceiverEventView,
    code: Option<i32>,
)
    ensures
        receiver.next(event).1 is Accept ==> (receiver.phase is Binding && event is Bound) || (
        receiver.phase is Executing && event is Exited),
        receiver.phase is Executing ==> receiver.next(ReceiverEventView::Exited(code)) == (
            receiver.at(ReceiverPhase::Accepting),
            ReceiverActionView::Accept,
        ),
{
}

/// The receiver stores what it receives under the file name it was
/// configured with, in the directory it was configured with.
pub proof fn lemma_receiver_stores_under_its_name(receiver: ReceiverModel)
    requires
        receiver.wf(),
    ensures
        base_name(receiver.destination) == base_name(receiver.file),
        directory_of(receiver.destination) == directory_of(receiver.file),
{
    lemma_directory_and_name_lead_back(receiver.file);
}

/// The receiver.
#[derive(Debug)]
pub struct ReceiverPipeline {
    file: String,
    destination: String,
    endpoint: Endpoint,
    phase: ReceiverPhase,
}

impl View for ReceiverPipeline {
    type V = ReceiverModel;

    closed spec fn view(&self) -> ReceiverModel {
        ReceiverModel {
            file: self.file@,
            destination: self.destination@,
            endpoint: self.endpoint@,
            phase: self.phase,
        }
    }
}

impl ReceiverPipeline {
    /// A receiver for `config`, not started yet. The path must name a file:
    /// a path without a file name is refused with [`Failure::InvalidPath`].
    pub fn new(config: Receiver) -> (pipeline: Result<ReceiverPipeline, Failure>)
        ensures
            match pipeline {
                Ok(receiver) => {
                    &&& base_name(config.file@) is Some
                    &&& receiver@ == ReceiverModel::initial(config.file@, config.listen@)
                    &&& receiver@.wf()
                },
                Err(failure) => failure == Failure::InvalidPath && base_name(config.file@) is None,
            },
    {
        let name = match file_name(config.file.as_str()) {
            Some(name) => name,
            None => {
                return Err(Failure::InvalidPath);
            },
        };
        let directory = dirname(config.file.as_str());
        let destination = join(directory.as_str(), name.as_str());
        Ok(
            ReceiverPipeline {
                file: config.file,
                destination,
                endpoint: config.listen,
                phase: ReceiverPhase::Idle,
            },
        )
    }

    /// Where the receiver stands.
    pub fn phase(&self) -> (phase: ReceiverPhase)
        ensures
            phase == self@.phase,
    {
        self.phase
    }

    /// Where a received file is stored and run.
    pub fn destination(&self) -> (destination: &String)
        ensures
            destination@ == self@.destination,
    {
        &self.destination
    }

    /// Stops the receiver for `failure`.
    fn fail(&mut self, failure: Failure) -> (action: ReceiverAction)
        requires
            !(old(self)@.phase is Failed),
        ensures
            (final(self)@, action@) == old(self)@.abort(failure),
    {
        self.phase = ReceiverPhase::Failed(failure);
        ReceiverAction::Abort { failure }
    }

    /// Takes the outcome of decompressing a transfer: the receiver goes on to
    /// store the bytes, or stops if there are none.
    pub fn on_decoded(&mut self, decoded: Result<Vec<u8>, Failure>) -> (action: ReceiverAction)
        ensures
            (final(self)@, action@) == old(self)@.after_decoding(decoded_bytes(decoded)),
            old(self)@.wf() ==> final(self)@.wf(),
    {
        match self.phase {
            ReceiverPhase::Failed(failure) => ReceiverAction::Abort { failure },
            ReceiverPhase::Accepting => match decoded {
                Ok(contents) => {
                    self.phase = ReceiverPhase::Persisting;
                    ReceiverAction::Persist {
                        path: self.destination.clone(),
                        mode: EXECUTABLE_MODE,
                        contents,
                    }
                },
                Err(failure) => self.fail(failure),
            },
            _ => self.fail(Failure::Unexpected),
        }
    }

    /// Takes what came of the last operation and answers with the next.
    pub fn step(&mut self, event: ReceiverEvent) -> (action: ReceiverAction)
        ensures
            (final(self)@, action@) == old(self)@.next(event@),
            old(self)@.wf() ==> final(self)@.wf(),
    {
        if let ReceiverPhase::Failed(failure) = self.phase {
            return ReceiverAction::Abort { failure };
        }
        match event {
            ReceiverEvent::Failed(failure) => self.fail(failure),
            ReceiverEvent::Started => match self.phase {
                ReceiverPhase::Idle => {
                    self.phase = ReceiverPhase::Binding;
                    ReceiverAction::Bind { endpoint: self.endpoint.duplicate() }
                },
                _ => self.fail(Failure::Unexpected),
            },
            ReceiverEvent::Bound => match self.phase {
                ReceiverPhase::Binding => {
                    self.phase = ReceiverPhase::Accepting;
                    ReceiverAction::Accept
                },
                _ => self.fail(Failure::Unexpected),
            },
            ReceiverEvent::Received(wire) => match self.phase {
                ReceiverPhase::Accepting => {
                    let decoded = decode(wire.as_slice());
                    self.on_decoded(decoded)
                },
                _ => self.fail(Failure::Unexpected),
            },
            ReceiverEvent::Persisted => match self.phase {
                ReceiverPhase::Persisting => {
                    self.phase = ReceiverPhase::Executing;
                    ReceiverAction::Execute { path: self.destination.clone() }
                },
                _ => self.fail(Failure::Unexpected),
            },
            ReceiverEvent::Exited(_) => match self.phase {
                ReceiverPhase::Executing => {
                    self.phase = ReceiverPhase::Accepting;
                    ReceiverAction::Accept
                },
                _ => self.fail(Failure::Unexpected),
            },
        }
    }
}

} // verus!
