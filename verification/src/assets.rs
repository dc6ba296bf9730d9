//! Asset objects: content-addressed files, fetched in bulk.
//!
//! One object is fetched by an [`AssetFetch`]; a failed fetch is repeated as
//! the [`retry`](after_attempt) policy says; the objects of an index are
//! fetched a few at a time, as an [`AssetQueue`] hands them out.

use vstd::prelude::*;
use vstd::string::StringExecFns;
use crate::decimal::{decimal, decimal_string};
use crate::layout::shard_of;
use crate::string_map::StringMap;
use crate::text::take_chars;

verus! {

/// Where asset objects are fetched from.
pub const ASSET_BASE_URL: &'static str = "https://resources.download.minecraft.net";

/// How many objects are fetched at the same time. Kept low on purpose.
pub const ASSET_CONCURRENCY: usize = 4;

/// How often the fetch of one object is tried.
pub const ASSET_RETRIES: usize = 3;

/// How long to wait before a fetch is tried again, in milliseconds.
pub const ASSET_RETRY_DELAY_MS: u64 = 500;

/// One asset object: the hash of its content, which is also its name, and
/// its size in bytes.
#[derive(Debug, Clone)]
pub struct AssetObject {
    pub hash: String,
    pub size: u64,
}

/// What a `AssetObject` holds, as plain values.
pub struct AssetObjectView {
    pub hash: Seq<char>,
    pub size: u64,
}

impl DeepView for AssetObject {
    type V = AssetObjectView;

    open spec fn deep_view(&self) -> AssetObjectView {
        AssetObjectView { hash: self.hash@, size: self.size }
    }
}

/// The index of the assets of a version: its objects by name.
#[derive(Debug, Clone)]
pub struct AssetIndexJson {
    pub objects: StringMap<AssetObject>,
}

/// Why a version could not be installed.
#[derive(Debug, Clone)]
pub enum InstallError {
    /// A request failed, or the server answered with a failure.
    Network(String),
    /// What was downloaded does not have the expected size.
    Integrity(String),
    /// A document does not have the expected shape.
    Schema(String),
}

/// What a `InstallError` holds, as plain values.
pub enum InstallErrorView {
    Network(Seq<char>),
    Integrity(Seq<char>),
    Schema(Seq<char>),
}

impl DeepView for InstallError {
    type V = InstallErrorView;

    open spec fn deep_view(&self) -> InstallErrorView {
        match self {
            InstallError::Network(m) => InstallErrorView::Network(m@),
            InstallError::Integrity(m) => InstallErrorView::Integrity(m@),
            InstallError::Schema(m) => InstallErrorView::Schema(m@),
        }
    }
}

impl InstallErrorView {
    /// The error in words.
    pub open spec fn message(self) -> Seq<char> {
        match self {
            InstallErrorView::Network(m) => m,
            InstallErrorView::Integrity(m) => m,
            InstallErrorView::Schema(m) => m,
        }
    }
}

impl InstallError {
    /// The error in words.
    pub fn message(&self) -> (m: String)
        ensures
            m@ == self.deep_view().message(),
    {
        match self {
            InstallError::Network(m) => m.clone(),
            InstallError::Integrity(m) => m.clone(),
            InstallError::Schema(m) => m.clone(),
        }
    }
}

/// Where the object with the hash `hash` is fetched from: below the base
/// address, in the directory of its shard, under its hash.
pub open spec fn asset_url_of(hash: Seq<char>) -> Seq<char> {
    ASSET_BASE_URL@ + "/"@ + shard_of(hash) + "/"@ + hash
}

/// Where the object with the hash `hash` is fetched from.
pub fn asset_url(hash: &str) -> (url: String)
    ensures
        url@ == asset_url_of(hash@),
{
    let mut url = String::from_str(ASSET_BASE_URL);
    url.append("/");
    let shard = take_chars(hash, 2);
    url.append(shard.as_str());
    url.append("/");
    url.append(hash);
    url
}

/// What is said of a server's answer that is no success.
pub open spec fn status_failure(status: Seq<char>, url: Seq<char>) -> Seq<char> {
    "HTTP "@ + status + " for "@ + url
}

/// What is said of a file that does not have the expected size.
pub open spec fn size_mismatch(hash: Seq<char>, expected: u64, found: u64) -> Seq<char> {
    "size mismatch for "@ + hash + " (expected "@ + decimal(expected as nat) + ", got "@ + decimal(
        found as nat,
    ) + ")"@
}

/// What is found at the place of an object before it is fetched.
#[derive(Debug, Clone, Copy, PartialEq, Eq, Structural)]
pub enum OnDisk {
    /// No file.
    Absent,
    /// A file of this size.
    Sized(u64),
    /// A file whose size cannot be told.
    Unreadable,
}

/// What the fetch of one object is waiting for.
#[derive(Debug, Clone, Copy, PartialEq, Eq, Structural)]
pub enum AssetPhase {
    /// What is on disk.
    Inspect,
    /// The server's answer.
    Response,
    /// The body, written to the file.
    Body,
    /// The size of the written file.
    Measure,
    /// Nothing: the fetch has ended.
    Settled,
}

/// What the driver of a fetch reports.
#[derive(Debug)]
pub enum AssetEvent {
    /// What is at the object's place.
    Inspected(OnDisk),
    /// The server answered; `success` tells whether with a success status,
    /// `status` is the status in words.
    Answered { success: bool, status: String },
    /// The request could not be made, or the file could not be created.
    RequestFailed(String),
    /// The body is written and the file flushed.
    Written,
    /// Reading a chunk or writing it failed.
    TransferFailed(String),
    /// Flushing the file failed.
    FlushFailed(String),
    /// The size of the file on disk.
    Measured(u64),
    /// The size of the file could not be told.
    MeasureFailed(String),
}

/// What a `AssetEvent` holds, as plain values.
pub enum AssetEventView {
    Inspected(OnDisk),
    Answered { success: bool, status: Seq<char> },
    RequestFailed(Seq<char>),
    Written,
    TransferFailed(Seq<char>),
    FlushFailed(Seq<char>),
    Measured(u64),
    MeasureFailed(Seq<char>),
}

impl DeepView for AssetEvent {
    type V = AssetEventView;

    open spec fn deep_view(&self) -> AssetEventView {
        match self {
            AssetEvent::Inspected(d) => AssetEventView::Inspected(*d),
            AssetEvent::Answered { success, status } => AssetEventView::Answered {
                success: *success,
                status: status@,
            },
            AssetEvent::RequestFailed(m) => AssetEventView::RequestFailed(m@),
            AssetEvent::Written => AssetEventView::Written,
            AssetEvent::TransferFailed(m) => AssetEventView::TransferFailed(m@),
            AssetEvent::FlushFailed(m) => AssetEventView::FlushFailed(m@),
            AssetEvent::Measured(n) => AssetEventView::Measured(*n),
            AssetEvent::MeasureFailed(m) => AssetEventView::MeasureFailed(m@),
        }
    }
}

/// What the driver of a fetch is to do next.
#[derive(Debug)]
pub enum AssetAction {
    /// Look at the object's place and report `Inspected`.
    Inspect,
    /// The object is there already with the right size: nothing to fetch.
    Satisfied,
    /// Remove the stale file if `remove_stale` says so, make the object's
    /// directory, request `url`, and report `Answered` or `RequestFailed`.
    Request { url: String, remove_stale: bool },
    /// Create the file, write the body to it chunk by chunk, flush, and
    /// report `Written`, `TransferFailed`, `FlushFailed` or `RequestFailed`.
    Receive,
    /// Tell the size of the file and report `Measured` or `MeasureFailed`.
    Measure,
    /// The object is fetched and has the right size.
    Complete,
    /// The fetch failed; the file is to be deleted if `delete_partial`
    /// says so.
    Fail { error: InstallError, delete_partial: bool },
}

/// What a `AssetAction` holds, as plain values.
pub enum AssetActionView {
    Inspect,
    Satisfied,
    Request { url: Seq<char>, remove_stale: bool },
    Receive,
    Measure,
    Complete,
    Fail { error: InstallErrorView, delete_partial: bool },
}

impl DeepView for AssetAction {
    type V = AssetActionView;

    open spec fn deep_view(&self) -> AssetActionView {
        match self {
            AssetAction::Inspect => AssetActionView::Inspect,
            AssetAction::Satisfied => AssetActionView::Satisfied,
            AssetAction::Request { url, remove_stale } => AssetActionView::Request {
                url: url@,
                remove_stale: *remove_stale,
            },
            AssetAction::Receive => AssetActionView::Receive,
            AssetAction::Measure => AssetActionView::Measure,
            AssetAction::Complete => AssetActionView::Complete,
            AssetAction::Fail { error, delete_partial } => AssetActionView::Fail {
                error: error.deep_view(),
                delete_partial: *delete_partial,
            },
        }
    }
}

/// One attempt to fetch one object.
#[derive(Debug)]
pub struct AssetFetch {
    pub object: AssetObject,
    pub phase: AssetPhase,
}

/// What a `AssetFetch` holds, as plain values.
pub struct AssetFetchView {
    pub object: AssetObjectView,
    pub phase: AssetPhase,
}

impl DeepView for AssetFetch {
    type V = AssetFetchView;

    open spec fn deep_view(&self) -> AssetFetchView {
        AssetFetchView { object: self.object.deep_view(), phase: self.phase }
    }
}

impl AssetFetchView {
    /// The attempt ended with this action.
    pub open spec fn settled(self, action: AssetActionView) -> (AssetFetchView, AssetActionView) {
        (AssetFetchView { phase: AssetPhase::Settled, ..self }, action)
    }

    /// The attempt goes on in `phase` with this action.
    pub open spec fn moved(self, phase: AssetPhase, action: AssetActionView) -> (
        AssetFetchView,
        AssetActionView,
    ) {
        (AssetFetchView { phase, ..self }, action)
    }

    /// The attempt failed with a network error.
    pub open spec fn broken(self, message: Seq<char>, delete_partial: bool) -> (
        AssetFetchView,
        AssetActionView,
    ) {
        self.settled(
            AssetActionView::Fail { error: InstallErrorView::Network(message), delete_partial },
        )
    }

    /// What the attempt does on an event.
    ///
    /// A file of the expected size satisfies the attempt without any
    /// request; any other file is stale and removed. After the body is
    /// written, the file must have the expected size; if it has not, it is
    /// deleted and the attempt fails with an integrity error.
    pub open spec fn step(self, event: AssetEventView) -> (AssetFetchView, AssetActionView) {
        match (self.phase, event) {
            (AssetPhase::Inspect, AssetEventView::Inspected(found)) => if found == OnDisk::Sized(
                self.object.size,
            ) {
                self.settled(AssetActionView::Satisfied)
            } else {
                self.moved(
                    AssetPhase::Response,
                    AssetActionView::Request {
                        url: asset_url_of(self.object.hash),
                        remove_stale: found != OnDisk::Absent,
                    },
                )
            },
            (AssetPhase::Response, AssetEventView::Answered { success, status }) => if success {
                self.moved(AssetPhase::Body, AssetActionView::Receive)
            } else {
                self.broken(status_failure(status, asset_url_of(self.object.hash)), false)
            },
            (AssetPhase::Response, AssetEventView::RequestFailed(m)) => self.broken(m, false),
            (AssetPhase::Body, AssetEventView::Written) => self.moved(
                AssetPhase::Measure,
                AssetActionView::Measure,
            ),
            (AssetPhase::Body, AssetEventView::RequestFailed(m)) => self.broken(m, false),
            (AssetPhase::Body, AssetEventView::TransferFailed(m)) => self.broken(m, true),
            (AssetPhase::Body, AssetEventView::FlushFailed(m)) => self.broken(m, false),
            (AssetPhase::Measure, AssetEventView::Measured(size)) => if size == self.object.size {
                self.settled(AssetActionView::Complete)
            } else {
                self.settled(
                    AssetActionView::Fail {
                        error: InstallErrorView::Integrity(
                            size_mismatch(self.object.hash, self.object.size, size),
                        ),
                        delete_partial: true,
                    },
                )
            },
            (AssetPhase::Measure, AssetEventView::MeasureFailed(m)) => self.broken(m, false),
            _ => self.broken("unexpected event during asset fetch"@, false),
        }
    }
}

impl AssetFetch {
    /// Begins an attempt to fetch `object`: its place is to be inspected.
    pub fn start(object: AssetObject) -> (r: (AssetFetch, AssetAction))
        ensures
            r.0.deep_view() == (AssetFetchView {
                object: object.deep_view(),
                phase: AssetPhase::Inspect,
            }),
            r.1.deep_view() == AssetActionView::Inspect,
    {
        (AssetFetch { object, phase: AssetPhase::Inspect }, AssetAction::Inspect)
    }

    fn fail(&mut self, message: String, delete_partial: bool) -> (action: AssetAction)
        ensures
            (final(self).deep_view(), action.deep_view()) == old(self).deep_view().broken(
                message@,
                delete_partial,
            ),
    {
        self.phase = AssetPhase::Settled;
        AssetAction::Fail { error: InstallError::Network(message), delete_partial }
    }

    fn mismatch(&self, found: u64) -> (m: String)
        ensures
            m@ == size_mismatch(self.object.hash@, self.object.size, found),
    {
        let mut m = String::from_str("size mismatch for ");
        m.append(self.object.hash.as_str());
        m.append(" (expected ");
        m.append(decimal_string(self.object.size).as_str());
        m.append(", got ");
        m.append(decimal_string(found).as_str());
        m.append(")");
        m
    }

    /// Takes up what the driver reports and hands out the next action.
    pub fn step(&mut self, event: AssetEvent) -> (action: AssetAction)
        ensures
            (final(self).deep_view(), action.deep_view()) == old(self).deep_view().step(
                event.deep_view(),
            ),
    {
        match self.phase {
            AssetPhase::Inspect => match event {
                AssetEvent::Inspected(found) => {
                    let satisfied = match found {
                        OnDisk::Sized(size) => size == self.object.size,
                        _ => false,
                    };
                    if satisfied {
                        self.phase = AssetPhase::Settled;
                        AssetAction::Satisfied
                    } else {
                        let remove_stale = match found {
                            OnDisk::Absent => false,
                            _ => true,
                        };
                        self.phase = AssetPhase::Response;
                        AssetAction::Request { url: asset_url(self.object.hash.as_str()), remove_stale }
                    }
                },
                _ => self.fail(String::from_str("unexpected event during asset fetch"), false),
            },
            AssetPhase::Response => match event {
                AssetEvent::Answered { success, status } => if success {
                    self.phase = AssetPhase::Body;
                    AssetAction::Receive
                } else {
                    let mut m = String::from_str("HTTP ");
                    m.append(status.as_str());
                    m.append(" for ");
                    m.append(asset_url(self.object.hash.as_str()).as_str());
                    self.fail(m, false)
                },
                AssetEvent::RequestFailed(m) => self.fail(m, false),
                _ => self.fail(String::from_str("unexpected event during asset fetch"), false),
            },
            AssetPhase::Body => match event {
                AssetEvent::Written => {
                    self.phase = AssetPhase::Measure;
                    AssetAction::Measure
                },
                AssetEvent::RequestFailed(m) => self.fail(m, false),
                AssetEvent::TransferFailed(m) => self.fail(m, true),
                AssetEvent::FlushFailed(m) => self.fail(m, false),
                _ => self.fail(String::from_str("unexpected event during asset fetch"), false),
            },
            AssetPhase::Measure => match event {
                AssetEvent::Measured(size) => if size == self.object.size {
                    self.phase = AssetPhase::Settled;
                    AssetAction::Complete
                } else {
                    let m = self.mismatch(size);
                    self.phase = AssetPhase::Settled;
                    AssetAction::Fail { error: InstallError::Integrity(m), delete_partial: true }
                },
                AssetEvent::MeasureFailed(m) => self.fail(m, false),
                _ => self.fail(String::from_str("unexpected event during asset fetch"), false),
            },
            AssetPhase::Settled => self.fail(
                String::from_str("unexpected event during asset fetch"),
                false,
            ),
        }
    }
}

/// A file of the expected size is taken as it is: no request is made.
pub proof fn lemma_present_object_needs_no_request(fetch: AssetFetchView)
    requires
        fetch.phase == AssetPhase::Inspect,
    ensures
        fetch.step(AssetEventView::Inspected(OnDisk::Sized(fetch.object.size)))
            == fetch.settled(AssetActionView::Satisfied),
{
}

/// A file of another size is never accepted: before the fetch it is
/// removed, after the fetch it is deleted and the attempt fails with an
/// integrity error.
pub proof fn lemma_wrong_size_is_never_accepted(fetch: AssetFetchView, size: u64)
    requires
        size != fetch.object.size,
    ensures
        fetch.phase == AssetPhase::Inspect ==> fetch.step(
            AssetEventView::Inspected(OnDisk::Sized(size)),
        ).1 == (AssetActionView::Request {
            url: asset_url_of(fetch.object.hash),
            remove_stale: true,
        }),
        fetch.phase == AssetPhase::Measure ==> fetch.step(AssetEventView::Measured(size)).1 == (
        AssetActionView::Fail {
            error: InstallErrorView::Integrity(
                size_mismatch(fetch.object.hash, fetch.object.size, size),
            ),
            delete_partial: true,
        }),
{
}

/// An attempt only completes on a file that was measured and has the
/// expected size.
pub proof fn lemma_complete_means_measured(fetch: AssetFetchView, event: AssetEventView)
    requires
        fetch.step(event).1 is Complete,
    ensures
        fetch.phase == AssetPhase::Measure,
        event == AssetEventView::Measured(fetch.object.size),
{
}

/// What follows an attempt to fetch an object.
#[derive(Debug)]
pub enum RetryStep {
    /// The object is there.
    Done,
    /// Wait `delay_ms` milliseconds, then make the attempt number
    /// `attempt`.
    Retry { attempt: usize, delay_ms: u64 },
    /// No more attempts: the fetch failed with the error of the last one.
    GiveUp(InstallError),
}

/// What a `RetryStep` holds, as plain values.
pub enum RetryStepView {
    Done,
    Retry { attempt: usize, delay_ms: u64 },
    GiveUp(InstallErrorView),
}

impl DeepView for RetryStep {
    type V = RetryStepView;

    open spec fn deep_view(&self) -> RetryStepView {
        match self {
            RetryStep::Done => RetryStepView::Done,
            RetryStep::Retry { attempt, delay_ms } => RetryStepView::Retry {
                attempt: *attempt,
                delay_ms: *delay_ms,
            },
            RetryStep::GiveUp(e) => RetryStepView::GiveUp(e.deep_view()),
        }
    }
}

/// What follows the attempt number `attempt`, counted from one, which went
/// well or failed with `failure`: a failure is followed by another attempt
/// after a fixed delay, as long as fewer than `ASSET_RETRIES` attempts were
/// made; the failure of the last attempt is the failure of the fetch.
pub open spec fn retry_after(attempt: usize, failure: Option<InstallErrorView>) -> RetryStepView {
    match failure {
        None => RetryStepView::Done,
        Some(e) => if attempt < ASSET_RETRIES {
            RetryStepView::Retry { attempt: (attempt + 1) as usize, delay_ms: ASSET_RETRY_DELAY_MS }
        } else {
            RetryStepView::GiveUp(e)
        },
    }
}

/// What follows the attempt number `attempt`, counted from one.
pub fn after_attempt(attempt: usize, outcome: Result<(), InstallError>) -> (step: RetryStep)
    ensures
        step.deep_view() == retry_after(
            attempt,
            match outcome {
                Ok(_) => None,
                Err(e) => Some(e.deep_view()),
            },
        ),
{
    match outcome {
        Ok(_) => RetryStep::Done,
        Err(e) => if attempt < ASSET_RETRIES {
            RetryStep::Retry { attempt: attempt + 1, delay_ms: ASSET_RETRY_DELAY_MS }
        } else {
            RetryStep::GiveUp(e)
        },
    }
}

/// No object is tried more often than `ASSET_RETRIES` times: an attempt
/// that is asked for has a number within the budget.
pub proof fn lemma_retry_budget(attempt: usize, failure: Option<InstallErrorView>)
    requires
        1 <= attempt <= ASSET_RETRIES,
    ensures
        retry_after(attempt, failure) matches RetryStepView::Retry { attempt: next, .. } ==> next
            == attempt + 1 && next <= ASSET_RETRIES,
        attempt == ASSET_RETRIES && failure is Some ==> retry_after(attempt, failure)
            == RetryStepView::GiveUp(failure->0),
{
}

/// How far a bulk fetch has come: the number of objects in all, of those
/// started, of those in flight, and whether one has failed for good.
pub struct QueueView {
    pub total: nat,
    pub started: nat,
    pub in_flight: nat,
    pub failed: bool,
}

impl QueueView {
    /// The number of objects that are fetched.
    pub open spec fn finished(self) -> int {
        self.started - self.in_flight
    }

    /// What holds of every queue: objects are started in order and never
    /// more than there are; at most `ASSET_CONCURRENCY` are in flight; and
    /// as long as objects wait and nothing has failed, the window is full.
    pub open spec fn wf(self) -> bool {
        &&& self.total <= usize::MAX
        &&& self.started <= self.total
        &&& self.in_flight <= self.started
        &&& self.in_flight <= ASSET_CONCURRENCY
        &&& self.failed ==> self.in_flight == 0
        &&& !self.failed && self.started < self.total ==> self.in_flight == ASSET_CONCURRENCY
    }

    /// The queue as it begins: the first objects, as many as the window
    /// takes, are started.
    pub open spec fn initial(total: nat) -> QueueView {
        let first = if total < ASSET_CONCURRENCY {
            total
        } else {
            ASSET_CONCURRENCY as nat
        };
        QueueView { total, started: first, in_flight: first, failed: false }
    }

    /// The queue after one object in flight has ended, and what is to be
    /// done: a failure ends the whole fetch at once; a success starts the
    /// next waiting object, or, where none waits, leaves the others to end;
    /// the fetch is finished when the last one has.
    pub open spec fn completed(self, success: bool) -> (QueueView, QueueStep) {
        if self.failed {
            (self, QueueStep::Failed)
        } else if self.in_flight == 0 {
            (self, QueueStep::Finished)
        } else if !success {
            (QueueView { failed: true, in_flight: 0, ..self }, QueueStep::Failed)
        } else if self.started < self.total {
            (
                QueueView { started: self.started + 1, ..self },
                QueueStep::Spawn(self.started as usize),
            )
        } else if self.in_flight == 1 {
            (QueueView { in_flight: 0, ..self }, QueueStep::Finished)
        } else {
            (QueueView { in_flight: (self.in_flight - 1) as nat, ..self }, QueueStep::Wait)
        }
    }
}

/// What the driver of a bulk fetch is to do after an object has ended.
#[derive(Debug, Clone, Copy, PartialEq, Eq, Structural)]
pub enum QueueStep {
    /// Start fetching the object with this index.
    Spawn(usize),
    /// Nothing: wait for the next object to end.
    Wait,
    /// All objects are fetched.
    Finished,
    /// An object failed for good: give up the others.
    Failed,
}

/// The objects of a bulk fetch, handed out a few at a time.
#[derive(Debug)]
pub struct AssetQueue {
    total: usize,
    started: usize,
    in_flight: usize,
    failed: bool,
}

impl View for AssetQueue {
    type V = QueueView;

    closed spec fn view(&self) -> QueueView {
        QueueView {
            total: self.total as nat,
            started: self.started as nat,
            in_flight: self.in_flight as nat,
            failed: self.failed,
        }
    }
}

impl AssetQueue {
    #[verifier::type_invariant]
    spec fn well_formed(&self) -> bool {
        self@.wf()
    }

    /// A queue of `total` objects, with the first ones started: the driver
    /// is to start the objects `0` to `started() - 1`.
    pub fn new(total: usize) -> (q: AssetQueue)
        ensures
            q@ == QueueView::initial(total as nat),
            q@.wf(),
    {
        let first: usize = if total < ASSET_CONCURRENCY {
            total
        } else {
            ASSET_CONCURRENCY
        };
        AssetQueue { total, started: first, in_flight: first, failed: false }
    }

    /// The number of objects started so far.
    pub fn started(&self) -> (n: usize)
        ensures
            n == self@.started,
            self@.wf(),
    {
        proof {
            use_type_invariant(self);
        }
        self.started
    }

    /// The number of objects in flight.
    pub fn in_flight(&self) -> (n: usize)
        ensures
            n == self@.in_flight,
            n <= ASSET_CONCURRENCY,
            self@.wf(),
    {
        proof {
            use_type_invariant(self);
        }
        self.in_flight
    }

    /// Whether all objects are fetched.
    pub fn is_finished(&self) -> (r: bool)
        ensures
            r == (!self@.failed && self@.started == self@.total && self@.in_flight == 0),
    {
        !self.failed && self.started == self.total && self.in_flight == 0
    }

    /// Takes up that one object in flight has ended, well or for good
    /// badly, and tells what to do.
    pub fn completed(&mut self, success: bool) -> (step: QueueStep)
        ensures
            (final(self)@, step) == old(self)@.completed(success),
            final(self)@.wf(),
    {
        proof {
            use_type_invariant(&*self);
        }
        if self.failed {
            QueueStep::Failed
        } else if self.in_flight == 0 {
            QueueStep::Finished
        } else if !success {
            *self = AssetQueue {
                total: self.total,
                started: self.started,
                in_flight: 0,
                failed: true,
            };
            QueueStep::Failed
        } else if self.started < self.total {
            let index = self.started;
            self.started = index + 1;
            QueueStep::Spawn(index)
        } else if self.in_flight == 1 {
            self.in_flight = 0;
            QueueStep::Finished
        } else {
            self.in_flight = self.in_flight - 1;
            QueueStep::Wait
        }
    }
}

/// The window never holds more than `ASSET_CONCURRENCY` objects, and every
/// step keeps the queue well formed.
pub proof fn lemma_queue_stays_bounded(q: QueueView, success: bool)
    requires
        q.wf(),
    ensures
        q.completed(success).0.wf(),
        q.completed(success).0.in_flight <= ASSET_CONCURRENCY,
        QueueView::initial(q.total).wf(),
        QueueView::initial(q.total).in_flight <= ASSET_CONCURRENCY,
{
}

/// A bulk fetch is only finished when every object was started and none is
/// in flight any more, and nothing has failed.
pub proof fn lemma_finished_means_all_fetched(q: QueueView, success: bool)
    requires
        q.wf(),
        q.completed(success).1 == QueueStep::Finished,
    ensures
        q.completed(success).0.started == q.total,
        q.completed(success).0.in_flight == 0,
        q.completed(success).0.finished() == q.total,
        !q.completed(success).0.failed,
{
}

/// Objects are started one by one in their order: the object that a step
/// starts is the first that was not started before.
pub proof fn lemma_objects_start_in_order(q: QueueView, success: bool)
    requires
        q.wf(),
    ensures
        q.completed(success).1 matches QueueStep::Spawn(index) ==> index == q.started
            && q.completed(success).0.started == q.started + 1 && index < q.total,
        !(q.completed(success).1 is Spawn) ==> q.completed(success).0.started == q.started,
{
}

/// One failure for good ends the bulk fetch, whatever is still in flight.
pub proof fn lemma_failure_is_final(q: QueueView, success: bool)
    requires
        q.wf(),
    ensures
        !q.failed && q.in_flight > 0 && !success ==> q.completed(success).1 == QueueStep::Failed,
        q.failed ==> q.completed(success) == (q, QueueStep::Failed),
{
}

/// The queue after `k` objects in flight have ended well, one after the
/// other.
pub open spec fn after_successes(q: QueueView, k: nat) -> QueueView
    decreases k,
{
    if k == 0 {
        q
    } else {
        after_successes(q, (k - 1) as nat).completed(true).0
    }
}

/// The bulk fetch of `total` objects is finished by the success of the last
/// object and by no earlier one: after `k` successes exactly `k` objects
/// are fetched, and the window holds as many of the others as it takes.
pub proof fn lemma_successes_are_counted(total: nat, k: nat)
    requires
        total <= usize::MAX,
        k <= total,
    ensures
        ({
            let q = after_successes(QueueView::initial(total), k);
            &&& q.wf()
            &&& !q.failed
            &&& q.total == total
            &&& q.finished() == k
            &&& q.in_flight == if total - k < ASSET_CONCURRENCY {
                total - k
            } else {
                ASSET_CONCURRENCY as int
            }
            &&& k > 0 ==> (after_successes(QueueView::initial(total), (k - 1) as nat).completed(
                true,
            ).1 == QueueStep::Finished <==> k == total)
        }),
    decreases k,
{
    if k > 0 {
        lemma_successes_are_counted(total, (k - 1) as nat);
    }
}

/// Whether an action says that the object is there: found with the right
/// size, or fetched and measured.
pub open spec fn counts_as_there(action: AssetActionView) -> bool {
    action is Satisfied || action is Complete
}

/// The bytes and files fetched so far by a bulk fetch.
#[derive(Debug, Clone, Copy, PartialEq, Eq, Structural)]
pub struct AssetProgress {
    pub downloaded_bytes: u64,
    pub downloaded_files: u64,
}

/// What is told about the transfer of an object after a chunk: the bytes
/// fetched so far by the whole bulk fetch, the size of the object, and what
/// is left of that size beyond the bytes fetched.
#[derive(Debug, Clone, Copy, PartialEq, Eq, Structural)]
pub struct ProgressReport {
    pub downloaded_bytes: u64,
    pub total_bytes: u64,
    pub remaining_bytes: u64,
}

impl AssetProgress {
    /// Nothing fetched yet.
    pub fn new() -> (p: AssetProgress)
        ensures
            p == (AssetProgress { downloaded_bytes: 0, downloaded_files: 0 }),
    {
        AssetProgress { downloaded_bytes: 0, downloaded_files: 0 }
    }

    /// Counts a chunk of `len` bytes of an object of `object_size` bytes.
    pub fn record_chunk(&mut self, len: u64, object_size: u64) -> (report: ProgressReport)
        requires
            old(self).downloaded_bytes + len <= u64::MAX,
        ensures
            final(self).downloaded_bytes == old(self).downloaded_bytes + len,
            final(self).downloaded_files == old(self).downloaded_files,
            report.downloaded_bytes == final(self).downloaded_bytes,
            report.total_bytes == object_size,
            report.remaining_bytes == if object_size >= final(self).downloaded_bytes {
                object_size - final(self).downloaded_bytes
            } else {
                0
            },
    {
        self.downloaded_bytes = self.downloaded_bytes + len;
        let remaining: u64 = if object_size >= self.downloaded_bytes {
            object_size - self.downloaded_bytes
        } else {
            0
        };
        ProgressReport {
            downloaded_bytes: self.downloaded_bytes,
            total_bytes: object_size,
            remaining_bytes: remaining,
        }
    }

    /// Takes up the action on which an attempt has ended: an object that
    /// is there, found or fetched, is counted; a failed one is not, nor is
    /// any action on which the attempt goes on.
    pub fn record_settled(&mut self, action: &AssetAction)
        requires
            old(self).downloaded_files < u64::MAX,
        ensures
            final(self).downloaded_files == old(self).downloaded_files + if counts_as_there(
                action.deep_view(),
            ) {
                1int
            } else {
                0int
            },
            final(self).downloaded_bytes == old(self).downloaded_bytes,
    {
        match action {
            AssetAction::Satisfied => {
                self.downloaded_files = self.downloaded_files + 1;
            },
            AssetAction::Complete => {
                self.downloaded_files = self.downloaded_files + 1;
            },
            _ => {},
        }
    }
}

} // verus!
