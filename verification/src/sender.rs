//! The sender: guards one file and, whenever it changes, delivers a
//! stripped and compressed copy of it to the runner.
//!
//! The pipeline is a state machine. It is told what came of the operation it
//! asked for last and answers with the operation to perform next:
//!
//! ```text
//! Idle -> Arming -> Watching -> Disarming -> Stripping -> Sending -> Arming -> ...
//! ```
//!
//! Any failure, in any phase, ends in `Failed`, and nothing leads out of it:
//! nothing is retried and no change is skipped.

use vstd::prelude::*;
use vstd::string::StringExecFns;

use crate::codec::deflated;
use crate::codec::encode;
use crate::codec::inflated;
use crate::config::Endpoint;
use crate::config::Sender;
use crate::failure::Failure;
use crate::paths::base_name;
use crate::paths::directory_of;
use crate::paths::dirname;
use crate::paths::file_name;
use crate::paths::join;
use crate::paths::joined;
use crate::paths::lead_len;
use crate::paths::lemma_base_name_is_plain;
use crate::paths::lemma_joined_keeps_the_name;
use crate::paths::name_start;
use crate::paths::trimmed_end;
use crate::watch::batch_view;
use crate::watch::contains_name;
use crate::watch::ChangeEvent;
use crate::watch::ChangeEventView;
use crate::watch::WatchHandle;
use crate::watch::WatchModel;
use crate::watch::WatchSession;

verus! {

/// Where the sender stands.
#[derive(Clone, Copy, Debug, PartialEq, Eq, Structural)]
pub enum SenderPhase {
    /// Not started yet.
    Idle,
    /// A watch is being placed on the directory.
    Arming,
    /// Armed, and waiting for the next batch of notifications.
    Watching,
    /// The watch is being taken off the directory.
    Disarming,
    /// The file is being stripped.
    Stripping,
    /// The compressed copy is on its way to the runner.
    Sending,
    /// Stopped for good.
    Failed(Failure),
}

/// What came of the operation the sender asked for.
#[derive(Debug, PartialEq, Eq)]
pub enum SenderEvent {
    /// The pipeline is to start.
    Started,
    /// The watch is placed.
    Armed(WatchHandle),
    /// A batch of notifications arrived.
    Changed(Vec<ChangeEvent>),
    /// The watch is taken off.
    Disarmed,
    /// The file is stripped; these are the bytes of the stripped copy.
    Stripped(Vec<u8>),
    /// All bytes are sent and flushed, and the connection is closed.
    Sent,
    /// The operation failed.
    Failed(Failure),
}

/// The operation the sender asks for next.
#[derive(Debug, PartialEq, Eq)]
pub enum SenderAction {
    /// Place a watch on `directory`, then report `Armed`.
    Arm { directory: String },
    /// Wait until notifications arrive, then report them as `Changed`.
    Poll,
    /// Take the watch `handle` off the directory, then report `Disarmed`.
    Disarm { handle: WatchHandle },
    /// Strip `input` into `output`, then report the bytes of `output` as
    /// `Stripped`.
    Strip { input: String, output: String },
    /// Connect to `endpoint`, send `payload`, flush and close, then report
    /// `Sent`.
    Send { endpoint: Endpoint, payload: Vec<u8> },
    /// Give up, and report `failure` to whoever started the process.
    Abort { failure: Failure },
}

/// An outcome, with its data as plain values.
pub enum SenderEventView {
    /// The pipeline is to start.
    Started,
    /// The watch is placed.
    Armed(WatchHandle),
    /// A batch of notifications arrived.
    Changed(Seq<ChangeEventView>),
    /// The watch is taken off.
    Disarmed,
    /// The file is stripped.
    Stripped(Seq<u8>),
    /// All bytes are sent.
    Sent,
    /// The operation failed.
    Failed(Failure),
}

/// An operation, with its data as plain values.
pub enum SenderActionView {
    /// Place a watch.
    Arm { directory: Seq<char> },
    /// Wait for notifications.
    Poll,
    /// Take the watch off.
    Disarm { handle: WatchHandle },
    /// Strip the file.
    Strip { input: Seq<char>, output: Seq<char> },
    /// Send the payload.
    Send { endpoint: Seq<char>, payload: Seq<u8> },
    /// Give up.
    Abort { failure: Failure },
}

impl View for SenderEvent {
    type V = SenderEventView;

    open spec fn view(&self) -> SenderEventView {
        match self {
            SenderEvent::Started => SenderEventView::Started,
            SenderEvent::Armed(handle) => SenderEventView::Armed(*handle),
            SenderEvent::Changed(events) => SenderEventView::Changed(batch_view(events@)),
            SenderEvent::Disarmed => SenderEventView::Disarmed,
            SenderEvent::Stripped(bytes) => SenderEventView::Stripped(bytes@),
            SenderEvent::Sent => SenderEventView::Sent,
            SenderEvent::Failed(failure) => SenderEventView::Failed(*failure),
        }
    }
}

impl View for SenderAction {
    type V = SenderActionView;

    open spec fn view(&self) -> SenderActionView {
        match self {
            SenderAction::Arm { directory } => SenderActionView::Arm { directory: directory@ },
            SenderAction::Poll => SenderActionView::Poll,
            SenderAction::Disarm { handle } => SenderActionView::Disarm { handle: *handle },
            SenderAction::Strip { input, output } => SenderActionView::Strip {
                input: input@,
                output: output@,
            },
            SenderAction::Send { endpoint, payload } => SenderActionView::Send {
                endpoint: endpoint@,
                payload: payload@,
            },
            SenderAction::Abort { failure } => SenderActionView::Abort { failure: *failure },
        }
    }
}

/// The directory in which stripped copies are staged.
pub open spec fn staging_directory() -> Seq<char> {
    "/tmp/"@
}

/// The sender as a plain value.
pub struct SenderModel {
    /// The guarded file, as configured.
    pub file: Seq<char>,
    /// The name of the file within its directory.
    pub name: Seq<char>,
    /// Where the stripped copy is staged. The same place is written again
    /// at every transfer, and never cleaned up.
    pub staging: Seq<char>,
    /// Where the runner listens.
    pub endpoint: Seq<char>,
    /// The watch on the directory of the file.
    pub session: WatchModel,
    /// Where the sender stands.
    pub phase: SenderPhase,
}

/// The outcome of compressing, as plain values.
pub open spec fn encoding_of(bytes: Seq<u8>) -> Result<Seq<u8>, Failure> {
    match deflated(bytes) {
        Some(wire) => Ok(wire),
        None => Err(Failure::Codec),
    }
}

/// The bytes or the failure of an outcome, as plain values.
pub open spec fn outcome_bytes(outcome: Result<Vec<u8>, Failure>) -> Result<Seq<u8>, Failure> {
    match outcome {
        Ok(bytes) => Ok(bytes@),
        Err(failure) => Err(failure),
    }
}

impl SenderModel {
    /// The sender for `file` and `endpoint`, before it is started.
    pub open spec fn initial(file: Seq<char>, endpoint: Seq<char>) -> SenderModel {
        SenderModel {
            file,
            name: base_name(file)->0,
            staging: joined(staging_directory(), base_name(file)->0),
            endpoint,
            session: WatchModel { directory: directory_of(file), handle: None },
            phase: SenderPhase::Idle,
        }
    }

    /// What always holds of a sender: its names are those of its file, and
    /// it is armed while it watches and disarmed while it works.
    pub open spec fn wf(self) -> bool {
        &&& base_name(self.file) == Some(self.name)
        &&& self.staging == joined(staging_directory(), self.name)
        &&& self.session.directory == directory_of(self.file)
        &&& self.phase is Watching ==> self.session.armed()
        &&& !(self.phase is Watching) && !(self.phase is Failed) ==> !self.session.armed()
    }

    /// The same sender in another phase.
    pub open spec fn at(self, phase: SenderPhase) -> SenderModel {
        SenderModel { phase, ..self }
    }

    /// The sender once it has stopped for `failure`, and its last word.
    pub open spec fn abort(self, failure: Failure) -> (SenderModel, SenderActionView) {
        (self.at(SenderPhase::Failed(failure)), SenderActionView::Abort { failure })
    }

    /// What the sender does once a stripped copy is compressed, or could not
    /// be: it sends the compressed bytes to the runner, or stops.
    pub open spec fn after_encoding(self, encoded: Result<Seq<u8>, Failure>) -> (
        SenderModel,
        SenderActionView,
    ) {
        match self.phase {
            SenderPhase::Failed(failure) => (self, SenderActionView::Abort { failure }),
            SenderPhase::Stripping => match encoded {
                Ok(payload) => (
                    self.at(SenderPhase::Sending),
                    SenderActionView::Send { endpoint: self.endpoint, payload },
                ),
                Err(failure) => self.abort(failure),
            },
            _ => self.abort(Failure::Unexpected),
        }
    }

    /// The sender after `event`, and the operation it asks for.
    ///
    /// A stopped sender stays stopped. A failure stops the sender, whatever
    /// its phase. Else the event must answer what the sender asked for last:
    /// any other event stops it too.
    pub open spec fn next(self, event: SenderEventView) -> (SenderModel, SenderActionView) {
        match self.phase {
            SenderPhase::Failed(failure) => (self, SenderActionView::Abort { failure }),
            _ => match event {
                SenderEventView::Failed(failure) => self.abort(failure),
                SenderEventView::Started => if self.phase is Idle {
                    (
                        self.at(SenderPhase::Arming),
                        SenderActionView::Arm { directory: self.session.directory },
                    )
                } else {
                    self.abort(Failure::Unexpected)
                },
                SenderEventView::Armed(handle) => if self.phase is Arming {
                    (
                        SenderModel {
                            phase: SenderPhase::Watching,
                            session: self.session.started(handle),
                            ..self
                        },
                        SenderActionView::Poll,
                    )
                } else {
                    self.abort(Failure::Unexpected)
                },
                SenderEventView::Changed(events) => if self.phase is Watching {
                    if self.session.reported(events).contains(self.name) {
                        (
                            SenderModel {
                                phase: SenderPhase::Disarming,
                                session: self.session.stopped(),
                                ..self
                            },
                            SenderActionView::Disarm { handle: self.session.handle->0 },
                        )
                    } else {
                        (self, SenderActionView::Poll)
                    }
                } else {
                    self.abort(Failure::Unexpected)
                },
                SenderEventView::Disarmed => if self.phase is Disarming {
                    (
                        self.at(SenderPhase::Stripping),
                        SenderActionView::Strip { input: self.file, output: self.staging },
                    )
                } else {
                    self.abort(Failure::Unexpected)
                },
                SenderEventView::Stripped(bytes) => self.after_encoding(encoding_of(bytes)),
                SenderEventView::Sent => if self.phase is Sending {
                    (
                        self.at(SenderPhase::Arming),
                        SenderActionView::Arm { directory: self.session.directory },
                    )
                } else {
                    self.abort(Failure::Unexpected)
                },
            },
        }
    }
}

/// Every step keeps a sender well formed.
pub proof fn lemma_sender_stays_well_formed(sender: SenderModel, event: SenderEventView)
    requires
        sender.wf(),
    ensures
        sender.next(event).0.wf(),
{
}

/// Failure is final: a failure stops the sender in whatever phase it is,
/// and a stopped sender answers every event by giving up for the failure
/// that stopped it. Nothing is retried.
pub proof fn lemma_sender_failure_is_final(
    sender: SenderModel,
    failure: Failure,
    event: SenderEventView,
)
    ensures
        sender.next(SenderEventView::Failed(failure)).0.phase is Failed,
        sender.next(SenderEventView::Failed(failure)).1 is Abort,
        !(sender.phase is Failed) ==> sender.next(SenderEventView::Failed(failure))
            == sender.abort(failure),
        sender.phase is Failed ==> sender.next(event) == (
            sender,
            SenderActionView::Abort { failure: sender.phase->Failed_0 },
        ),
{
}

/// Watcher selectivity: while watching, the sender acts on a batch of
/// notifications exactly if the batch tells a watched change of its file.
/// Any other batch is passed over: the sender stays as it is and waits for
/// the next.
pub proof fn lemma_sender_is_selective(sender: SenderModel, events: Seq<ChangeEventView>)
    requires
        sender.wf(),
        sender.phase is Watching,
    ensures
        crate::watch::mentions(events, sender.name) ==> sender.next(
            SenderEventView::Changed(events),
        ) == (
            SenderModel {
                phase: SenderPhase::Disarming,
                session: sender.session.stopped(),
                ..sender
            },
            SenderActionView::Disarm { handle: sender.session.handle->0 },
        ),
        !crate::watch::mentions(events, sender.name) ==> sender.next(
            SenderEventView::Changed(events),
        ) == (sender, SenderActionView::Poll),
{
    crate::watch::lemma_changed_is_a_set(events);
}

/// The sender never watches while it works: whenever it asks to strip or to
/// send, its session is disarmed, and whenever it asks to wait for
/// notifications, its session is armed.
pub proof fn lemma_sender_works_disarmed(sender: SenderModel, event: SenderEventView)
    requires
        sender.wf(),
    ensures
        sender.next(event).1 is Strip || sender.next(event).1 is Send ==> !sender.next(
            event,
        ).0.session.armed(),
        sender.next(event).1 is Poll ==> sender.next(event).0.session.armed(),
{
}

/// Sender ordering: the sender asks to send only in answer to a finished
/// strip, and what it sends is the compressed form of exactly the stripped
/// bytes.
pub proof fn lemma_sender_sends_after_strip(sender: SenderModel, event: SenderEventView)
    ensures
        sender.next(event).1 is Send ==> {
            &&& sender.phase is Stripping
            &&& event is Stripped
            &&& deflated(event->Stripped_0) == Some(sender.next(event).1->payload)
            &&& sender.next(event).1->endpoint == sender.endpoint
        },
{
}

/// The sender stages the stripped copy under the name of its file, directly
/// in the staging directory.
pub proof fn lemma_sender_stages_under_its_name(sender: SenderModel)
    requires
        sender.wf(),
    ensures
        base_name(sender.staging) == Some(sender.name),
        directory_of(sender.staging) == "/tmp"@,
        sender.staging == staging_directory() + sender.name,
{
    reveal_strlit("/tmp/");
    reveal_strlit("/tmp");
    let staging = sender.staging;
    lemma_base_name_is_plain(sender.file);
    lemma_joined_keeps_the_name(staging_directory(), sender.name);
    assert(name_start(staging) == 5);
    assert(lead_len(staging) == 1);
    reveal_with_fuel(trimmed_end, 2);
    assert(staging[3] == 'p');
    assert(trimmed_end(staging, 4) == 4);
    assert(staging.subrange(0, 4) =~= "/tmp"@);
}

/// The arguments with which the stripping tool is run: `-o`, the file to
/// write, and the file to read.
pub fn strip_arguments(input: &str, output: &str) -> (arguments: Vec<String>)
    ensures
        arguments.deep_view() == seq!["-o"@, output@, input@],
{
    let mut arguments: Vec<String> = Vec::new();
    arguments.push(String::from_str("-o"));
    arguments.push(String::from_str(output));
    arguments.push(String::from_str(input));
    assert(arguments.deep_view() =~= seq!["-o"@, output@, input@]);
    arguments
}

/// The sender.
#[derive(Debug)]
pub struct SenderPipeline {
    file: String,
    name: String,
    staging: String,
    endpoint: Endpoint,
    session: WatchSession,
    phase: SenderPhase,
}

impl View for SenderPipeline {
    type V = SenderModel;

    closed spec fn view(&self) -> SenderModel {
        SenderModel {
            file: self.file@,
            name: self.name@,
            staging: self.staging@,
            endpoint: self.endpoint@,
            session: self.session@,
            phase: self.phase,
        }
    }
}

impl SenderPipeline {
    /// A sender for `config`, not started yet. The path must name a file:
    /// a path without a file name is refused with [`Failure::InvalidPath`].
    pub fn new(config: Sender) -> (pipeline: Result<SenderPipeline, Failure>)
        ensures
            match pipeline {
                Ok(sender) => {
                    &&& base_name(config.file@) is Some
                    &&& sender@ == SenderModel::initial(config.file@, config.receiver_addr@)
                    &&& sender@.wf()
                },
                Err(failure) => failure == Failure::InvalidPath && base_name(config.file@) is None,
            },
    {
        let name = match file_name(config.file.as_str()) {
            Some(name) => name,
            None => {
                return Err(Failure::InvalidPath);
            },
        };
        let staging = join("/tmp/", name.as_str());
        let session = WatchSession::new(dirname(config.file.as_str()));
        Ok(
            SenderPipeline {
                file: config.file,
                name,
                staging,
                endpoint: config.receiver_addr,
                session,
                phase: SenderPhase::Idle,
            },
        )
    }

    /// Where the sender stands.
    pub fn phase(&self) -> (phase: SenderPhase)
        ensures
            phase == self@.phase,
    {
        self.phase
    }

    /// The watch on the directory of the file.
    pub fn session(&self) -> (session: &WatchSession)
        ensures
            session@ == self@.session,
    {
        &self.session
    }

    /// Stops the sender for `failure`.
    fn fail(&mut self, failure: Failure) -> (action: SenderAction)
        requires
            !(old(self)@.phase is Failed),
        ensures
            (final(self)@, action@) == old(self)@.abort(failure),
    {
        self.phase = SenderPhase::Failed(failure);
        SenderAction::Abort { failure }
    }

    /// Takes the outcome of compressing the stripped copy: the sender goes on
    /// to send the compressed bytes, or stops if there are none.
    pub fn on_encoded(&mut self, encoded: Result<Vec<u8>, Failure>) -> (action: SenderAction)
        ensures
            (final(self)@, action@) == old(self)@.after_encoding(outcome_bytes(encoded)),
            old(self)@.wf() ==> final(self)@.wf(),
    {
        match self.phase {
            SenderPhase::Failed(failure) => SenderAction::Abort { failure },
            SenderPhase::Stripping => match encoded {
                Ok(payload) => {
                    self.phase = SenderPhase::Sending;
                    SenderAction::Send { endpoint: self.endpoint.duplicate(), payload }
                },
                Err(failure) => self.fail(failure),
            },
            _ => self.fail(Failure::Unexpected),
        }
    }

    /// Takes what came of the last operation and answers with the next.
    ///
    /// The payload of a `Send` is produced here, from the bytes of a
    /// `Stripped` event and from nothing else: decompressing it gives those
    /// bytes back.
    pub fn step(&mut self, event: SenderEvent) -> (action: SenderAction)
        ensures
            (final(self)@, action@) == old(self)@.next(event@),
            old(self)@.wf() ==> final(self)@.wf(),
            action@ matches SenderActionView::Send { payload, .. } ==> event@ is Stripped
                && inflated(payload) == Some(event@->Stripped_0),
    {
        if let SenderPhase::Failed(failure) = self.phase {
            return SenderAction::Abort { failure };
        }
        match event {
            SenderEvent::Failed(failure) => self.fail(failure),
            SenderEvent::Started => match self.phase {
                SenderPhase::Idle => {
                    self.phase = SenderPhase::Arming;
                    SenderAction::Arm { directory: self.session.directory().clone() }
                },
                _ => self.fail(Failure::Unexpected),
            },
            SenderEvent::Armed(handle) => match self.phase {
                SenderPhase::Arming => {
                    self.session.start(handle);
                    self.phase = SenderPhase::Watching;
                    SenderAction::Poll
                },
                _ => self.fail(Failure::Unexpected),
            },
            SenderEvent::Changed(events) => match self.phase {
                SenderPhase::Watching => {
                    let names = self.session.changed_names(&events);
                    if contains_name(&names, &self.name) {
                        match self.session.stop() {
                            Some(handle) => {
                                self.phase = SenderPhase::Disarming;
                                SenderAction::Disarm { handle }
                            },
                            None => self.fail(Failure::Unexpected),
                        }
                    } else {
                        SenderAction::Poll
                    }
                },
                _ => self.fail(Failure::Unexpected),
            },
            SenderEvent::Disarmed => match self.phase {
                SenderPhase::Disarming => {
                    self.phase = SenderPhase::Stripping;
                    SenderAction::Strip { input: self.file.clone(), output: self.staging.clone() }
                },
                _ => self.fail(Failure::Unexpected),
            },
            SenderEvent::Stripped(bytes) => match self.phase {
                SenderPhase::Stripping => {
                    let encoded = encode(bytes.as_slice());
                    self.on_encoded(encoded)
                },
                _ => self.fail(Failure::Unexpected),
            },
            SenderEvent::Sent => match self.phase {
                SenderPhase::Sending => {
                    self.phase = SenderPhase::Arming;
                    SenderAction::Arm { directory: self.session.directory().clone() }
                },
                _ => self.fail(Failure::Unexpected),
            },
        }
    }
}

} // verus!
