//! The vocabulary that collectors and their callers speak, and the ledger of
//! native resources behind every collector.
//!
//! A collector never touches the operating system. It hands its caller one
//! [`Action`] at a time; the caller performs it and answers with the
//! [`Event`] that says how it went. Every resource that an event grants goes
//! on the ledger's stack, and leaves it only through a `Release` of the
//! topmost entry, so resources are given back in reverse order of
//! acquisition and the session, acquired first, is closed last.

use vstd::prelude::*;
use crate::session::{S_OK, SessionError};
use crate::value::PropertyValue;

verus! {

/// Win32 status of a call that succeeded.
pub const ERROR_SUCCESS: u32 = 0;

/// Win32 status of a call that found no such key or value.
pub const ERROR_FILE_NOT_FOUND: u32 = 2;

/// Status of a successful account enumeration.
pub const NERR_SUCCESS: u32 = 0;

/// The host the scan runs on.
#[derive(Clone, Copy, Debug, PartialEq, Eq, Structural)]
pub enum Platform {
    Windows,
    Other,
}

/// A property of a registered security product.
#[derive(Clone, Copy, Debug, PartialEq, Eq, Structural)]
pub enum Property {
    DisplayName,
    ProductState,
}

/// A network profile of the built-in firewall.
#[derive(Clone, Copy, Debug, PartialEq, Eq, Structural)]
pub enum Profile {
    Public,
    Private,
    Domain,
}

/// An attribute of a firewall profile.
#[derive(Clone, Copy, Debug, PartialEq, Eq, Structural)]
pub enum Setting {
    Enabled,
    InboundAction,
    OutboundAction,
    NotificationsDisabled,
}

/// A named value under the account-control policy key.
#[derive(Clone, Copy, Debug, PartialEq, Eq, Structural)]
pub enum UacValue {
    EnableLua,
    ConsentPromptBehaviorAdmin,
    PromptOnSecureDesktop,
    EnableInstallerDetection,
    ValidateAdminCodeSignatures,
    FilterAdministratorToken,
    EnableVirtualization,
}

/// A text that the update agent hands out.
#[derive(Clone, Copy, Debug, PartialEq, Eq, Structural)]
pub enum UpdateText {
    Title,
    Description,
    CategoryType,
    CategoryName,
    CategoryId,
}

/// Which end of an update's download size estimate.
#[derive(Clone, Copy, Debug, PartialEq, Eq, Structural)]
pub enum Bound {
    Min,
    Max,
}

/// A native resource that has to be given back.
#[derive(Clone, Copy, Debug, PartialEq, Eq, Structural)]
pub enum Resource {
    /// The per-call session; everything else lives inside it.
    Session,
    Locator,
    Services,
    Enumerator,
    /// The row that the enumerator stands on.
    Object,
    /// The container that a property of the row was read into.
    Value(Property),
    Policy,
    Key,
    /// The buffer that holds the enumerated account records.
    Buffer,
    UpdateSession,
    Searcher,
    SearchResult,
    Updates,
    Update,
    Categories,
    Category,
}

/// A datum read through resources that are already held.
#[derive(Clone, Copy, Debug, PartialEq, Eq, Structural)]
pub enum Field {
    Firewall(Profile, Setting),
    Registry(UacValue),
    /// The account record at this index of the buffer.
    Account(u32),
    UpdateCount,
    CategoryCount,
    DownloadSize(Bound),
    Text(UpdateText),
}

/// What the caller has to do next.
#[derive(Clone, Copy, Debug, PartialEq, Eq, Structural)]
pub enum Action {
    /// Obtain the resource.
    Acquire(Resource),
    /// Obtain the element at this index of the collection held on top.
    AcquireItem(Resource, u32),
    /// Read the datum.
    Read(Field),
    /// Give the resource back. It is always the most recently acquired one
    /// that is still held.
    Release(Resource),
    /// Nothing is held any more: take the result.
    Finish,
}

impl Action {
    /// True for the actions that ask for the session.
    pub open spec fn asks_for_session(self) -> bool {
        match self {
            Action::Acquire(Resource::Session) => true,
            Action::AcquireItem(Resource::Session, _) => true,
            _ => false,
        }
    }
}

/// One account record as the enumeration buffer holds it.
#[derive(Debug)]
pub struct AccountRecord {
    pub name: String,
    pub privilege: u32,
    pub flags: u32,
}

/// How the action went.
#[derive(Debug)]
pub enum Event {
    /// Status of opening the session.
    Status(i32),
    /// Win32 status of opening the registry key.
    Opened(u32),
    /// Status of the account enumeration and the number of records read.
    Enumerated(u32, u32),
    /// Outcome of advancing the enumerator: how many rows it returned, and
    /// whether a row object came with them.
    Fetched(u32, bool),
    /// The resource was obtained.
    Granted,
    /// The resource was given back.
    Released,
    /// The call failed with this code.
    Failed(i32),
    /// The value does not exist.
    Missing,
    Property(PropertyValue),
    Flag(i16),
    Long(i32),
    Word(u32),
    Count(i32),
    Decimal(u32, u64),
    Text(String),
    Account(AccountRecord),
}

/// Why a scan returned no snapshot.
#[derive(Clone, Copy, Debug, PartialEq, Eq, Structural)]
pub enum ScanError {
    /// The host is not one this layer can scan; nothing was attempted.
    NotWindows,
    /// The session could not be opened.
    Session(SessionError),
    /// A resource could not be obtained.
    Acquisition(Resource, i32),
    /// The registry key does not exist.
    KeyNotFound,
    /// A read was rejected.
    Query(Field, i32),
    /// Giving a value container back failed.
    Release(Resource, i32),
    /// The caller answered with an event that the pending action cannot have.
    Protocol(Action),
}

/// The resource, if any, that `event` hands to the caller in answer to
/// `pending`.
#[verifier::opaque]
pub open spec fn grants(pending: Action, event: Event) -> Option<Resource> {
    match (pending, event) {
        (Action::Acquire(Resource::Session), Event::Status(code)) => if code == S_OK {
            Some(Resource::Session)
        } else {
            None
        },
        (Action::Acquire(Resource::Session), _) => None,
        (Action::Acquire(Resource::Key), Event::Opened(code)) => if code == ERROR_SUCCESS {
            Some(Resource::Key)
        } else {
            None
        },
        (Action::Acquire(Resource::Key), _) => None,
        (Action::Acquire(Resource::Buffer), Event::Enumerated(status, _)) => if status
            == NERR_SUCCESS {
            Some(Resource::Buffer)
        } else {
            None
        },
        (Action::Acquire(Resource::Buffer), _) => None,
        (Action::Acquire(Resource::Object), Event::Fetched(returned, present)) => if returned != 0
            && present {
            Some(Resource::Object)
        } else {
            None
        },
        (Action::Acquire(Resource::Object), _) => None,
        (Action::Acquire(Resource::Value(property)), Event::Property(_)) => Some(
            Resource::Value(property),
        ),
        (Action::Acquire(Resource::Value(_)), _) => None,
        (Action::Acquire(resource), Event::Granted) => Some(resource),
        (Action::AcquireItem(resource, _), Event::Granted) => Some(resource),
        _ => None,
    }
}

/// Exec counterpart of [`grants`].
pub fn granted(pending: Action, event: &Event) -> (resource: Option<Resource>)
    ensures
        resource == grants(pending, *event),
{
    reveal(grants);
    match pending {
        Action::Acquire(Resource::Session) => match event {
            Event::Status(code) => if *code == S_OK {
                Some(Resource::Session)
            } else {
                None
            },
            _ => None,
        },
        Action::Acquire(Resource::Key) => match event {
            Event::Opened(code) => if *code == ERROR_SUCCESS {
                Some(Resource::Key)
            } else {
                None
            },
            _ => None,
        },
        Action::Acquire(Resource::Buffer) => match event {
            Event::Enumerated(status, _) => if *status == NERR_SUCCESS {
                Some(Resource::Buffer)
            } else {
                None
            },
            _ => None,
        },
        Action::Acquire(Resource::Object) => match event {
            Event::Fetched(returned, present) => if *returned != 0 && *present {
                Some(Resource::Object)
            } else {
                None
            },
            _ => None,
        },
        Action::Acquire(Resource::Value(property)) => match event {
            Event::Property(_) => Some(Resource::Value(property)),
            _ => None,
        },
        Action::Acquire(resource) => match event {
            Event::Granted => Some(resource),
            _ => None,
        },
        Action::AcquireItem(resource, _) => match event {
            Event::Granted => Some(resource),
            _ => None,
        },
        _ => None,
    }
}

/// The error that an event stands for when the pending action did not get
/// what it asked for: the code of a failed call, filed under the kind of the
/// action; a protocol error for an answer the action cannot have.
#[verifier::opaque]
pub open spec fn refusal(pending: Action, event: Event) -> ScanError {
    match (pending, event) {
        (Action::Acquire(Resource::Session), Event::Status(code)) => ScanError::Session(
            crate::session::session_error_of(code),
        ),
        (Action::Acquire(Resource::Key), Event::Opened(code)) => if code == ERROR_FILE_NOT_FOUND {
            ScanError::KeyNotFound
        } else {
            ScanError::Acquisition(Resource::Key, code as i32)
        },
        (Action::Acquire(Resource::Buffer), Event::Enumerated(status, _)) => ScanError::Acquisition(
            Resource::Buffer,
            status as i32,
        ),
        (Action::Acquire(resource), Event::Failed(code)) => ScanError::Acquisition(resource, code),
        (Action::AcquireItem(resource, _), Event::Failed(code)) => ScanError::Acquisition(
            resource,
            code,
        ),
        (Action::Read(field), Event::Failed(code)) => ScanError::Query(field, code),
        (Action::Release(resource), Event::Failed(code)) => ScanError::Release(resource, code),
        _ => ScanError::Protocol(pending),
    }
}

/// Exec counterpart of [`refusal`].
pub fn refused(pending: Action, event: &Event) -> (error: ScanError)
    ensures
        error == refusal(pending, *event),
{
    reveal(refusal);
    match pending {
        Action::Acquire(Resource::Session) => match event {
            Event::Status(code) => ScanError::Session(SessionError::classify(*code)),
            Event::Failed(code) => ScanError::Acquisition(Resource::Session, *code),
            _ => ScanError::Protocol(pending),
        },
        Action::Acquire(Resource::Key) => match event {
            Event::Opened(code) => if *code == ERROR_FILE_NOT_FOUND {
                ScanError::KeyNotFound
            } else {
                ScanError::Acquisition(Resource::Key, #[verifier::truncate] (*code as i32))
            },
            Event::Failed(code) => ScanError::Acquisition(Resource::Key, *code),
            _ => ScanError::Protocol(pending),
        },
        Action::Acquire(Resource::Buffer) => match event {
            Event::Enumerated(status, _) => ScanError::Acquisition(
                Resource::Buffer,
                #[verifier::truncate] (*status as i32),
            ),
            Event::Failed(code) => ScanError::Acquisition(Resource::Buffer, *code),
            _ => ScanError::Protocol(pending),
        },
        Action::Acquire(resource) => match event {
            Event::Failed(code) => ScanError::Acquisition(resource, *code),
            _ => ScanError::Protocol(pending),
        },
        Action::AcquireItem(resource, _) => match event {
            Event::Failed(code) => ScanError::Acquisition(resource, *code),
            _ => ScanError::Protocol(pending),
        },
        Action::Read(field) => match event {
            Event::Failed(code) => ScanError::Query(field, *code),
            _ => ScanError::Protocol(pending),
        },
        Action::Release(resource) => match event {
            Event::Failed(code) => ScanError::Release(resource, *code),
            _ => ScanError::Protocol(pending),
        },
        Action::Finish => ScanError::Protocol(pending),
    }
}

/// What a collector does with its ledger once it has read an answer.
#[derive(Clone, Copy, Debug, PartialEq, Eq, Structural)]
pub enum Move {
    /// Ask the caller for this action.
    Ask(Action),
    /// Ask the topmost resource back.
    GiveBack,
    /// Start winding down.
    WindDown,
    /// Record the error that the answer stands for and wind down.
    Fail,
}

/// The bookkeeping of one collector run: the action the caller was last
/// handed, the resources held (the most recent last), the first failure, and
/// whether the run is winding down.
#[derive(Debug)]
pub struct Ledger {
    pending: Action,
    held: Vec<Resource>,
    failure: Option<ScanError>,
    closing: bool,
}

/// Mathematical model of a [`Ledger`].
pub struct LedgerView {
    pub pending: Action,
    pub held: Seq<Resource>,
    pub failure: Option<ScanError>,
    pub closing: bool,
}

impl View for Ledger {
    type V = LedgerView;

    closed spec fn view(&self) -> LedgerView {
        LedgerView {
            pending: self.pending,
            held: self.held@,
            failure: self.failure,
            closing: self.closing,
        }
    }
}

impl LedgerView {
    /// The ledger of a run that has just handed out its first action.
    pub open spec fn begin(first: Action) -> LedgerView {
        LedgerView { pending: first, held: Seq::empty(), failure: None, closing: false }
    }

    /// The ledger of a run that was refused before it asked for anything.
    pub open spec fn refuse(error: ScanError) -> LedgerView {
        LedgerView {
            pending: Action::Finish,
            held: Seq::empty(),
            failure: Some(error),
            closing: true,
        }
    }

    /// Puts a resource that was granted on top of the stack.
    pub open spec fn book(self, grant: Option<Resource>) -> LedgerView {
        match grant {
            Some(resource) => LedgerView { held: self.held.push(resource), ..self },
            None => self,
        }
    }

    /// Books the resource that `event` grants, if it grants one.
    pub open spec fn absorb(self, event: Event) -> LedgerView {
        self.book(grants(self.pending, event))
    }

    /// Asks the caller for `action`.
    pub open spec fn request(self, action: Action) -> LedgerView {
        LedgerView { pending: action, ..self }
    }

    /// Asks the caller to give back the topmost resource, or to finish when
    /// none is left.
    pub open spec fn release_next(self) -> LedgerView {
        if self.held.len() > 0 {
            LedgerView {
                pending: Action::Release(self.held.last()),
                held: self.held.drop_last(),
                ..self
            }
        } else {
            LedgerView { pending: Action::Finish, ..self }
        }
    }

    /// Starts winding down: from now on resources are only given back.
    pub open spec fn close(self) -> LedgerView {
        LedgerView { closing: true, ..self }.release_next()
    }

    /// Records `error`, unless an earlier one is on record, and winds down.
    pub open spec fn fail(self, error: ScanError) -> LedgerView {
        LedgerView {
            failure: if self.failure is Some {
                self.failure
            } else {
                Some(error)
            },
            ..self
        }.close()
    }

    /// The ledger after the answer `event` has been booked and the collector
    /// has made its move.
    pub open spec fn moved(self, event: Event, step: Move) -> LedgerView {
        let booked = self.absorb(event);
        match step {
            Move::Ask(action) => booked.request(action),
            Move::GiveBack => booked.release_next(),
            Move::WindDown => booked.close(),
            Move::Fail => booked.fail(refusal(self.pending, event)),
        }
    }

    /// One step of winding down: whatever the answer, the next resource is
    /// asked back.
    pub open spec fn unwind(self, event: Event) -> LedgerView {
        self.absorb(event).release_next()
    }

    /// The ledger after winding down through all of `events`.
    pub open spec fn unwound(self, events: Seq<Event>) -> LedgerView
        decreases events.len(),
    {
        if events.len() == 0 {
            self
        } else {
            self.unwound(events.drop_last()).unwind(events.last())
        }
    }

    /// The run only gives resources back, and the caller was told so.
    pub open spec fn winding_down(self) -> bool {
        self.closing && (self.pending is Release || self.pending is Finish)
    }

    /// A run that has begun to wind down has told the caller so.
    pub open spec fn coherent(self) -> bool {
        self.closing ==> self.winding_down()
    }

    /// The run is over: the caller was told to finish.
    pub open spec fn finished(self) -> bool {
        self.pending == Action::Finish
    }

    /// The session, where it is held, lies at the bottom of the stack, so it
    /// is the last resource to be given back.
    pub open spec fn session_outermost(self) -> bool {
        forall|i: int| 0 < i < self.held.len() ==> self.held[i] != Resource::Session
    }

    /// The session is outermost, and it is asked for only while nothing is
    /// held.
    pub open spec fn orderly(self) -> bool {
        &&& self.session_outermost()
        &&& self.pending.asks_for_session() ==> self.held.len() == 0
    }
}

impl Ledger {
    /// Opens the books of a run whose first action is `first`.
    pub fn begin(first: Action) -> (ledger: Ledger)
        ensures
            ledger@ == LedgerView::begin(first),
    {
        Ledger { pending: first, held: Vec::new(), failure: None, closing: false }
    }

    /// Opens and closes the books of a run that is refused at once.
    pub fn refuse(error: ScanError) -> (ledger: Ledger)
        ensures
            ledger@ == LedgerView::refuse(error),
    {
        Ledger { pending: Action::Finish, held: Vec::new(), failure: Some(error), closing: true }
    }

    /// The action that the caller has to answer next.
    pub fn pending(&self) -> (action: Action)
        ensures
            action == self@.pending,
    {
        self.pending
    }

    /// The resources held, the most recently acquired last.
    pub fn held(&self) -> (held: &Vec<Resource>)
        ensures
            held@ == self@.held,
    {
        &self.held
    }

    /// The first failure of the run, if there was one.
    pub fn failure(&self) -> (failure: Option<ScanError>)
        ensures
            failure == self@.failure,
    {
        self.failure
    }

    /// True once the run only gives resources back.
    pub fn is_closing(&self) -> (closing: bool)
        ensures
            closing == self@.closing,
    {
        self.closing
    }

    /// True once the caller was told to finish.
    pub fn is_finished(&self) -> (finished: bool)
        ensures
            finished == self@.finished(),
    {
        match self.pending {
            Action::Finish => true,
            _ => false,
        }
    }

    /// Puts a resource that was granted on top of the stack.
    pub fn book(&mut self, grant: Option<Resource>)
        ensures
            final(self)@ == old(self)@.book(grant),
    {
        match grant {
            Some(resource) => {
                self.held.push(resource);
            },
            None => {},
        }
    }

    /// Books the resource that `event` grants in answer to the pending
    /// action, if it grants one.
    pub fn absorb(&mut self, event: &Event)
        ensures
            final(self)@ == old(self)@.absorb(*event),
    {
        let grant = granted(self.pending, event);
        self.book(grant)
    }

    /// Makes `action` the pending one.
    pub fn request(&mut self, action: Action) -> (next: Action)
        ensures
            final(self)@ == old(self)@.request(action),
            next == action,
    {
        self.pending = action;
        action
    }

    /// Takes the topmost resource off the stack and asks the caller to give
    /// it back; asks to finish when the stack is empty.
    pub fn release_next(&mut self) -> (next: Action)
        ensures
            final(self)@ == old(self)@.release_next(),
            next == final(self)@.pending,
    {
        match self.held.pop() {
            Some(resource) => {
                self.pending = Action::Release(resource);
            },
            None => {
                self.pending = Action::Finish;
            },
        }
        self.pending
    }

    /// Starts winding down.
    pub fn close(&mut self) -> (next: Action)
        ensures
            final(self)@ == old(self)@.close(),
            next == final(self)@.pending,
    {
        self.closing = true;
        self.release_next()
    }

    /// Books what `event` grants and makes the collector's move.
    pub fn make(&mut self, event: &Event, step: Move) -> (next: Action)
        ensures
            final(self)@ == old(self)@.moved(*event, step),
            next == final(self)@.pending,
    {
        let refuse = refused(self.pending, event);
        self.absorb(event);
        match step {
            Move::Ask(action) => self.request(action),
            Move::GiveBack => self.release_next(),
            Move::WindDown => self.close(),
            Move::Fail => self.fail(refuse),
        }
    }

    /// Records `error`, unless an earlier one is on record, and starts
    /// winding down.
    pub fn fail(&mut self, error: ScanError) -> (next: Action)
        ensures
            final(self)@ == old(self)@.fail(error),
            next == final(self)@.pending,
    {
        if self.failure.is_none() {
            self.failure = Some(error);
        }
        self.close()
    }
}

/// One step of honest bookkeeping. The stack grows by exactly the resource
/// that the event granted in answer to the action that was pending; a
/// `Release` names the topmost resource and takes it off; `Finish` comes only
/// with an empty stack; no other action changes the stack.
pub open spec fn follows(before: LedgerView, event: Event, after: LedgerView) -> bool {
    let stack = before.absorb(event).held;
    match after.pending {
        Action::Release(resource) => stack.len() > 0 && resource == stack.last() && after.held
            == stack.drop_last(),
        Action::Finish => stack.len() == 0 && after.held == stack,
        _ => after.held == stack,
    }
}

/// The number of resources that the first `n` events granted, each event
/// read as the answer to the action pending before it.
pub open spec fn acquisitions(ledgers: Seq<LedgerView>, events: Seq<Event>, n: nat) -> nat
    decreases n,
{
    if n == 0 {
        0
    } else {
        let earlier = acquisitions(ledgers, events, (n - 1) as nat);
        if grants(ledgers[n - 1].pending, events[n - 1]) is Some {
            earlier + 1
        } else {
            earlier
        }
    }
}

/// The number of `Release` actions handed out in answer to the first `n`
/// events.
pub open spec fn releases(ledgers: Seq<LedgerView>, n: nat) -> nat
    decreases n,
{
    if n == 0 {
        0
    } else {
        let earlier = releases(ledgers, (n - 1) as nat);
        if ledgers[n as int].pending is Release {
            earlier + 1
        } else {
            earlier
        }
    }
}

/// A run: the ledgers a collector went through, one more than the events it
/// was given, starting with nothing held and each following from the one
/// before.
pub open spec fn is_run(ledgers: Seq<LedgerView>, events: Seq<Event>) -> bool {
    &&& ledgers.len() == events.len() + 1
    &&& ledgers[0].held.len() == 0
    &&& forall|i: int|
        0 <= i < events.len() ==> follows(#[trigger] ledgers[i], events[i], ledgers[i + 1])
}

/// At every point of a run the resources held are those acquired and not yet
/// released.
pub proof fn lemma_held_is_acquired_less_released(
    ledgers: Seq<LedgerView>,
    events: Seq<Event>,
    n: nat,
)
    requires
        is_run(ledgers, events),
        n <= events.len(),
    ensures
        acquisitions(ledgers, events, n) == releases(ledgers, n) + ledgers[n as int].held.len(),
    decreases n,
{
    if n > 0 {
        let k = (n - 1) as nat;
        lemma_held_is_acquired_less_released(ledgers, events, k);
        assert(follows(ledgers[k as int], events[k as int], ledgers[k as int + 1]));
    }
}

/// Every run that reaches `Finish` has released exactly as many resources as
/// it acquired.
pub proof fn lemma_finished_run_is_balanced(ledgers: Seq<LedgerView>, events: Seq<Event>)
    requires
        is_run(ledgers, events),
        ledgers.last().finished(),
    ensures
        acquisitions(ledgers, events, events.len()) == releases(ledgers, events.len()),
{
    lemma_held_is_acquired_less_released(ledgers, events, events.len());
    if events.len() > 0 {
        let k = events.len() - 1;
        assert(follows(ledgers[k], events[k], ledgers[k + 1]));
    }
}

/// Bookkeeping stays orderly as long as the session is never asked for a
/// second time.
pub proof fn lemma_orderly_step(before: LedgerView, event: Event, after: LedgerView)
    requires
        before.orderly(),
        follows(before, event, after),
        !after.pending.asks_for_session(),
    ensures
        after.orderly(),
{
    reveal(grants);
    let stack = before.absorb(event).held;
    assert forall|i: int| 0 < i < stack.len() implies stack[i] != Resource::Session by {
        if i < before.held.len() {
            assert(stack[i] == before.held[i]);
        }
    }
}

/// In orderly bookkeeping the request to close the session leaves nothing
/// held: every resource obtained inside the session was given back before.
pub proof fn lemma_session_is_closed_last(before: LedgerView, event: Event, after: LedgerView)
    requires
        before.orderly(),
        follows(before, event, after),
        after.pending == Action::Release(Resource::Session),
    ensures
        after.held.len() == 0,
{
    reveal(grants);
    let stack = before.absorb(event).held;
    assert forall|i: int| 0 < i < stack.len() implies stack[i] != Resource::Session by {
        if i < before.held.len() {
            assert(stack[i] == before.held[i]);
        }
    }
    if stack.len() > 1 {
        assert(stack[stack.len() - 1] != Resource::Session);
    }
}

/// A run that winds down gives back one resource per answer, the topmost
/// first, whatever the answers are, and is over with the answer to the last
/// release.
pub proof fn lemma_winding_down(ledger: LedgerView, events: Seq<Event>)
    requires
        ledger.winding_down(),
    ensures
        ledger.unwound(events).winding_down(),
        ledger.unwound(events).failure == ledger.failure,
        events.len() <= ledger.held.len() ==> ledger.unwound(events).held == ledger.held.take(
            ledger.held.len() - events.len(),
        ),
        0 < events.len() <= ledger.held.len() ==> ledger.unwound(events).pending == Action::Release(
            ledger.held[ledger.held.len() - events.len()],
        ),
        events.len() > ledger.held.len() ==> ledger.unwound(events).finished() && ledger.unwound(
            events,
        ).held.len() == 0,
    decreases events.len(),
{
    reveal(grants);
    if events.len() == 0 {
        assert(ledger.held.take(ledger.held.len() as int) =~= ledger.held);
    } else {
        let before = ledger.unwound(events.drop_last());
        lemma_winding_down(ledger, events.drop_last());
        assert(before.absorb(events.last()) == before);
        if events.len() <= ledger.held.len() {
            let kept = ledger.held.len() - events.len();
            assert(ledger.held.take(kept + 1).drop_last() =~= ledger.held.take(kept));
        }
    }
}

} // verus!
