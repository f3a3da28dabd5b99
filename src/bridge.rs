//! The decisions of one request to the platform location service: which
//! preconditions end it early, when the update stream starts and stops, and
//! which single outcome the caller receives.
use crate::location::{
    location_from_fix, is_native_location, native_fix_time, Location, NativeFix, Timestamp,
};
use vstd::prelude::*;

verus! {

/// Authorization status "restricted" of the platform location service.
pub const AUTHORIZATION_RESTRICTED: i32 = 1;

/// Authorization status "denied" of the platform location service.
pub const AUTHORIZATION_DENIED: i32 = 2;

/// The deadline used when the caller gives none, in milliseconds.
pub const DEFAULT_TIMEOUT_MS: u64 = 5000;

pub const SERVICE_DISABLED_MESSAGE: &'static str = "Location services disabled";

pub const CHANNEL_CLOSED_MESSAGE: &'static str = "CoreLocation channel closed";

/// How a request to the platform location service fails.
#[derive(Clone, Debug, PartialEq, Eq)]
pub enum CoreLocationError {
    ServiceDisabled,
    AuthorizationDenied,
    Timeout,
    Failed(String),
}

impl CoreLocationError {
    /// The text shown to a user for this error.
    pub fn message(&self) -> (r: String)
        ensures
            self matches CoreLocationError::ServiceDisabled ==> r@ == SERVICE_DISABLED_MESSAGE@,
            self matches CoreLocationError::AuthorizationDenied ==> r@
                == "CoreLocation authorization denied"@,
            self matches CoreLocationError::Timeout ==> r@
                == "Timed out waiting for CoreLocation fix"@,
            self matches CoreLocationError::Failed(reason) ==> r@ == "CoreLocation error: "@
                + reason@,
    {
        match self {
            CoreLocationError::ServiceDisabled => SERVICE_DISABLED_MESSAGE.to_owned(),
            CoreLocationError::AuthorizationDenied => "CoreLocation authorization denied".to_owned(),
            CoreLocationError::Timeout => "Timed out waiting for CoreLocation fix".to_owned(),
            CoreLocationError::Failed(reason) => "CoreLocation error: ".to_owned().concat(
                reason.as_str(),
            ),
        }
    }
}

/// The deadline actually used: a zero deadline means the default one.
pub open spec fn effective_timeout_spec(timeout_ms: u64) -> u64 {
    if timeout_ms == 0 {
        DEFAULT_TIMEOUT_MS
    } else {
        timeout_ms
    }
}

pub fn effective_timeout(timeout_ms: u64) -> (r: u64)
    ensures
        r == effective_timeout_spec(timeout_ms),
        r >= 1,
{
    if timeout_ms == 0 {
        DEFAULT_TIMEOUT_MS
    } else {
        timeout_ms
    }
}

/// Authorization states under which no update stream may start.
pub open spec fn is_refused(status: i32) -> bool {
    status == AUTHORIZATION_RESTRICTED || status == AUTHORIZATION_DENIED
}

/// The single-use hand-off between the service's callbacks and the waiting
/// caller: whoever takes first gets the item, every later taker gets `None`.
pub struct PendingSlot<T> {
    pub item: Option<T>,
}

impl<T> PendingSlot<T> {
    pub open spec fn taken(self) -> (Self, Option<T>) {
        (PendingSlot { item: None }, self.item)
    }

    pub fn new(item: T) -> (r: Self)
        ensures
            r.item == Some(item),
    {
        PendingSlot { item: Some(item) }
    }

    /// Takes the item out; the slot stays empty from then on.
    pub fn take(&mut self) -> (r: Option<T>)
        ensures
            (*final(self), r) == old(self).taken(),
    {
        self.item.take()
    }
}

/// Of two takes from a filled slot, in either order of callers, exactly the
/// first receives the item and the second receives nothing.
pub proof fn lemma_slot_delivers_exactly_once<T>(slot: PendingSlot<T>, item: T)
    requires
        slot.item == Some(item),
    ensures
        slot.taken().1 == Some(item),
        slot.taken().0.taken().1 == None::<T>,
        slot.taken().0.taken().0 == slot.taken().0,
{
}

/// What a request does about the delegate's class.
#[derive(Clone, Copy, Debug, PartialEq, Eq, Structural)]
pub enum RegistrationStep {
    /// Use the class already registered under this identity.
    Reuse(u64),
    /// Declare the class, then record it with `register_or_reuse`.
    Register,
}

/// The process-wide registration of the delegate's class: made once, then
/// reused by every later request.
#[derive(Clone, Copy, Debug, PartialEq, Eq, Structural)]
pub struct Registration {
    /// The identity of the registered class, once there is one.
    pub class_id: Option<u64>,
}

impl Registration {
    pub open spec fn registered(self, candidate: u64) -> (Registration, u64) {
        match self.class_id {
            Some(id) => (self, id),
            None => (Registration { class_id: Some(candidate) }, candidate),
        }
    }

    pub fn new() -> (r: Self)
        ensures
            r.class_id is None,
    {
        Registration { class_id: None }
    }

    /// Whether the class still has to be declared, or which registered class
    /// to reuse.
    pub fn next_step(&self) -> (r: RegistrationStep)
        ensures
            r == (match self.class_id {
                Some(id) => RegistrationStep::Reuse(id),
                None => RegistrationStep::Register,
            }),
    {
        match self.class_id {
            Some(id) => RegistrationStep::Reuse(id),
            None => RegistrationStep::Register,
        }
    }

    /// The registered class's identity; `candidate` becomes it when none is
    /// registered yet.
    pub fn register_or_reuse(&mut self, candidate: u64) -> (r: u64)
        ensures
            (*final(self), r) == old(self).registered(candidate),
    {
        match self.class_id {
            Some(id) => id,
            None => {
                self.class_id = Some(candidate);
                candidate
            },
        }
    }
}

/// Two registrations, one after the other, give the same identity and leave
/// the registration as the first made it.
pub proof fn lemma_registration_is_idempotent(reg: Registration, first: u64, second: u64)
    ensures
        reg.registered(first).0.registered(second).1 == reg.registered(first).1,
        reg.registered(first).0.registered(second).0 == reg.registered(first).0,
{
}

/// What the service reports to the delegate.
pub enum DelegateCallback {
    /// Recent fixes, oldest first.
    Updated(Vec<NativeFix>),
    /// The description of a failure.
    Failed(String),
}

/// The outcome that a delegate callback hands to the waiting caller.
#[derive(Clone, Debug, PartialEq, Eq)]
pub enum NativeOutcome {
    Fix(NativeFix),
    Failure(String),
}

/// A delegate callback's outcome, if any, and whether the delegate then
/// tells the service to stop updating. `attached` says whether a pending
/// request is still attached to the delegate. Only the most recent fix
/// counts. With a request attached, an empty list of fixes is no outcome and
/// asks for no stop; with none attached, nothing is delivered and every
/// callback asks for the stop.
pub open spec fn delegate_response_spec(cb: DelegateCallback, attached: bool) -> (
    Option<NativeOutcome>,
    bool,
) {
    if !attached {
        (None, true)
    } else {
        match cb {
            DelegateCallback::Updated(fixes) => if fixes@.len() == 0 {
                (None, false)
            } else {
                (Some(NativeOutcome::Fix(fixes@.last())), true)
            },
            DelegateCallback::Failed(reason) => (Some(NativeOutcome::Failure(reason)), true),
        }
    }
}

pub fn delegate_response(cb: DelegateCallback, attached: bool) -> (r: (Option<NativeOutcome>, bool))
    ensures
        r == delegate_response_spec(cb, attached),
{
    if !attached {
        return (None, true);
    }
    match cb {
        DelegateCallback::Updated(fixes) => {
            let n = fixes.len();
            if n == 0 {
                (None, false)
            } else {
                (Some(NativeOutcome::Fix(fixes[n - 1])), true)
            }
        },
        DelegateCallback::Failed(reason) => (Some(NativeOutcome::Failure(reason)), true),
    }
}

/// The outcome handed to the caller when the delegate went away without
/// delivering one.
pub fn closed_channel_outcome() -> (r: NativeOutcome)
    ensures
        r matches NativeOutcome::Failure(s) && s@ == CHANNEL_CLOSED_MESSAGE@,
{
    NativeOutcome::Failure(CHANNEL_CLOSED_MESSAGE.to_owned())
}


/// Where one request stands.
#[derive(Clone, Copy, Debug, PartialEq, Eq, Structural)]
pub enum BridgePhase {
    /// Asking whether the service is enabled.
    CheckingService,
    /// Asking for the authorization status.
    CheckingAuthorization,
    /// Creating the manager and delegate and starting updates.
    Starting,
    /// Waiting for the delegate's outcome or the deadline.
    Streaming,
    /// The deadline passed; the stop instruction is being sent.
    Stopping,
    /// The outcome was handed out.
    Finished,
}

/// What the host reports to the request.
pub enum BridgeEvent {
    ServiceStatus(bool),
    AuthorizationStatus(i32),
    /// The manager and delegate exist and updates were started.
    Started,
    /// The manager or the delegate could not be created.
    StartFailed(String),
    /// The outcome taken from the pending slot.
    Delivered(NativeOutcome),
    DeadlineElapsed,
    /// The stop instruction was sent after the deadline.
    StopSent,
}

/// What the host does next.
pub enum BridgeAction {
    QueryAuthorization,
    /// Create the manager and the delegate, register the delegate, request
    /// permission and start updates.
    StartUpdates,
    /// Wait for the pending slot, bounded by the deadline.
    AwaitDelivery,
    /// Tell the manager to stop updating.
    StopUpdates,
    /// Return this outcome to the caller.
    Finish(Result<NativeFix, CoreLocationError>),
    /// The event does not apply in this phase; nothing to do.
    Ignore,
}

/// The state of one request.
#[derive(Clone, Copy, Debug, PartialEq, Eq, Structural)]
pub struct Bridge {
    pub phase: BridgePhase,
    /// Whether the update stream was ever started.
    pub stream_started: bool,
    /// How many stop instructions were issued after a deadline.
    pub stops_issued: u64,
}

pub open spec fn initial_bridge() -> Bridge {
    Bridge { phase: BridgePhase::CheckingService, stream_started: false, stops_issued: 0 }
}

/// The outcome a delivered callback result gives the caller.
pub open spec fn delivered_result(o: NativeOutcome) -> Result<NativeFix, CoreLocationError> {
    match o {
        NativeOutcome::Fix(f) => Ok(f),
        NativeOutcome::Failure(reason) => Err(CoreLocationError::Failed(reason)),
    }
}

impl Bridge {
    pub open spec fn with_phase(self, phase: BridgePhase) -> Bridge {
        Bridge { phase, ..self }
    }

    /// The state after an event.
    pub open spec fn next(self, e: BridgeEvent) -> Bridge {
        match (self.phase, e) {
            (BridgePhase::CheckingService, BridgeEvent::ServiceStatus(enabled)) => if enabled {
                self.with_phase(BridgePhase::CheckingAuthorization)
            } else {
                self.with_phase(BridgePhase::Finished)
            },
            (BridgePhase::CheckingAuthorization, BridgeEvent::AuthorizationStatus(status)) => if is_refused(status) {
                self.with_phase(BridgePhase::Finished)
            } else {
                self.with_phase(BridgePhase::Starting)
            },
            (BridgePhase::Starting, BridgeEvent::Started) => Bridge {
                phase: BridgePhase::Streaming,
                stream_started: true,
                ..self
            },
            (BridgePhase::Starting, BridgeEvent::StartFailed(_)) => self.with_phase(BridgePhase::Finished),
            (BridgePhase::Streaming, BridgeEvent::Delivered(_)) => self.with_phase(BridgePhase::Finished),
            (BridgePhase::Streaming, BridgeEvent::DeadlineElapsed) => Bridge {
                phase: BridgePhase::Stopping,
                stops_issued: (self.stops_issued + 1) as u64,
                ..self
            },
            (BridgePhase::Stopping, BridgeEvent::StopSent) => self.with_phase(BridgePhase::Finished),
            _ => self,
        }
    }

    /// The action an event calls for.
    pub open spec fn action(self, e: BridgeEvent) -> BridgeAction {
        match (self.phase, e) {
            (BridgePhase::CheckingService, BridgeEvent::ServiceStatus(enabled)) => if enabled {
                BridgeAction::QueryAuthorization
            } else {
                BridgeAction::Finish(Err(CoreLocationError::ServiceDisabled))
            },
            (BridgePhase::CheckingAuthorization, BridgeEvent::AuthorizationStatus(status)) => if is_refused(status) {
                BridgeAction::Finish(Err(CoreLocationError::AuthorizationDenied))
            } else {
                BridgeAction::StartUpdates
            },
            (BridgePhase::Starting, BridgeEvent::Started) => BridgeAction::AwaitDelivery,
            (BridgePhase::Starting, BridgeEvent::StartFailed(reason)) => BridgeAction::Finish(
                Err(CoreLocationError::Failed(reason)),
            ),
            (BridgePhase::Streaming, BridgeEvent::Delivered(o)) => BridgeAction::Finish(
                delivered_result(o),
            ),
            (BridgePhase::Streaming, BridgeEvent::DeadlineElapsed) => BridgeAction::StopUpdates,
            (BridgePhase::Stopping, BridgeEvent::StopSent) => BridgeAction::Finish(
                Err(CoreLocationError::Timeout),
            ),
            _ => BridgeAction::Ignore,
        }
    }

    /// No stop instruction is ever issued more than once per request.
    pub open spec fn wf(self) -> bool {
        &&& self.stops_issued <= 1
        &&& (self.phase == BridgePhase::Stopping ==> self.stops_issued == 1)
        &&& ((self.phase == BridgePhase::CheckingService || self.phase
            == BridgePhase::CheckingAuthorization || self.phase == BridgePhase::Starting
            || self.phase == BridgePhase::Streaming) ==> self.stops_issued == 0)
        &&& ((self.phase == BridgePhase::CheckingService || self.phase
            == BridgePhase::CheckingAuthorization || self.phase == BridgePhase::Starting)
            ==> !self.stream_started)
    }

    /// A request that has checked nothing yet.
    pub fn new() -> (r: Self)
        ensures
            r == initial_bridge(),
            r.wf(),
    {
        Bridge { phase: BridgePhase::CheckingService, stream_started: false, stops_issued: 0 }
    }

    /// Moves the request on by one event.
    pub fn handle(&mut self, e: BridgeEvent) -> (a: BridgeAction)
        requires
            old(self).wf(),
        ensures
            *final(self) == old(self).next(e),
            a == old(self).action(e),
            final(self).wf(),
    {
        match (self.phase, e) {
            (BridgePhase::CheckingService, BridgeEvent::ServiceStatus(enabled)) => if enabled {
                self.phase = BridgePhase::CheckingAuthorization;
                BridgeAction::QueryAuthorization
            } else {
                self.phase = BridgePhase::Finished;
                BridgeAction::Finish(Err(CoreLocationError::ServiceDisabled))
            },
            (BridgePhase::CheckingAuthorization, BridgeEvent::AuthorizationStatus(status)) => {
                if status == AUTHORIZATION_RESTRICTED || status == AUTHORIZATION_DENIED {
                    self.phase = BridgePhase::Finished;
                    BridgeAction::Finish(Err(CoreLocationError::AuthorizationDenied))
                } else {
                    self.phase = BridgePhase::Starting;
                    BridgeAction::StartUpdates
                }
            },
            (BridgePhase::Starting, BridgeEvent::Started) => {
                self.phase = BridgePhase::Streaming;
                self.stream_started = true;
                BridgeAction::AwaitDelivery
            },
            (BridgePhase::Starting, BridgeEvent::StartFailed(reason)) => {
                self.phase = BridgePhase::Finished;
                BridgeAction::Finish(Err(CoreLocationError::Failed(reason)))
            },
            (BridgePhase::Streaming, BridgeEvent::Delivered(o)) => {
                self.phase = BridgePhase::Finished;
                match o {
                    NativeOutcome::Fix(f) => BridgeAction::Finish(Ok(f)),
                    NativeOutcome::Failure(reason) => BridgeAction::Finish(
                        Err(CoreLocationError::Failed(reason)),
                    ),
                }
            },
            (BridgePhase::Streaming, BridgeEvent::DeadlineElapsed) => {
                self.phase = BridgePhase::Stopping;
                self.stops_issued = self.stops_issued + 1;
                BridgeAction::StopUpdates
            },
            (BridgePhase::Stopping, BridgeEvent::StopSent) => {
                self.phase = BridgePhase::Finished;
                BridgeAction::Finish(Err(CoreLocationError::Timeout))
            },
            _ => BridgeAction::Ignore,
        }
    }
}

/// The state after a sequence of events.
pub open spec fn run(b: Bridge, events: Seq<BridgeEvent>) -> Bridge
    decreases events.len(),
{
    if events.len() == 0 {
        b
    } else {
        run(b.next(events[0]), events.drop_first())
    }
}

/// A finished request ignores every later event.
pub proof fn lemma_finished_is_final(b: Bridge, events: Seq<BridgeEvent>)
    requires
        b.phase == BridgePhase::Finished,
    ensures
        run(b, events) == b,
    decreases events.len(),
{
    if events.len() > 0 {
        lemma_finished_is_final(b, events.drop_first());
    }
}

/// With the service disabled, a request fails with `ServiceDisabled` at once
/// and never starts the update stream, whatever happens afterwards: no later
/// event calls for any action, so no manager or delegate is ever created.
pub proof fn lemma_disabled_service_never_streams(later: Seq<BridgeEvent>)
    ensures
        initial_bridge().action(BridgeEvent::ServiceStatus(false)) == BridgeAction::Finish(
            Err::<NativeFix, CoreLocationError>(CoreLocationError::ServiceDisabled),
        ),
        !run(initial_bridge(), seq![BridgeEvent::ServiceStatus(false)] + later).stream_started,
        forall|e: BridgeEvent|
            #![auto]
            run(initial_bridge(), seq![BridgeEvent::ServiceStatus(false)] + later).action(e)
                == BridgeAction::Ignore,
{
    let events = seq![BridgeEvent::ServiceStatus(false)] + later;
    assert(events.drop_first() =~= later);
    lemma_finished_is_final(initial_bridge().next(BridgeEvent::ServiceStatus(false)), later);
}

/// With authorization denied or restricted, a request fails with
/// `AuthorizationDenied` once the service is known to be enabled, and never
/// starts the update stream, whatever happens afterwards: no later event
/// calls for any action.
pub proof fn lemma_refused_authorization_never_streams(status: i32, later: Seq<BridgeEvent>)
    requires
        is_refused(status),
    ensures
        initial_bridge().next(BridgeEvent::ServiceStatus(true)).action(
            BridgeEvent::AuthorizationStatus(status),
        ) == BridgeAction::Finish(
            Err::<NativeFix, CoreLocationError>(CoreLocationError::AuthorizationDenied),
        ),
        !run(
            initial_bridge(),
            seq![BridgeEvent::ServiceStatus(true), BridgeEvent::AuthorizationStatus(status)]
                + later,
        ).stream_started,
        forall|e: BridgeEvent|
            #![auto]
            run(
                initial_bridge(),
                seq![BridgeEvent::ServiceStatus(true), BridgeEvent::AuthorizationStatus(status)]
                    + later,
            ).action(e) == BridgeAction::Ignore,
{
    let events = seq![BridgeEvent::ServiceStatus(true), BridgeEvent::AuthorizationStatus(status)]
        + later;
    let b1 = initial_bridge().next(BridgeEvent::ServiceStatus(true));
    assert(events.drop_first().drop_first() =~= later);
    assert(events.drop_first()[0] == BridgeEvent::AuthorizationStatus(status));
    let b2 = b1.next(BridgeEvent::AuthorizationStatus(status));
    assert(run(initial_bridge(), events) == run(b1, events.drop_first()));
    assert(run(b1, events.drop_first()) == run(b2, events.drop_first().drop_first()));
    lemma_finished_is_final(b2, later);
}

proof fn lemma_stopping_stays_stopped_once(b: Bridge, events: Seq<BridgeEvent>)
    requires
        b.phase == BridgePhase::Stopping || b.phase == BridgePhase::Finished,
        b.stops_issued == 1,
    ensures
        run(b, events).stops_issued == 1,
        run(b, events).phase == BridgePhase::Stopping || run(b, events).phase
            == BridgePhase::Finished,
    decreases events.len(),
{
    if events.len() > 0 {
        lemma_stopping_stays_stopped_once(b.next(events[0]), events.drop_first());
    }
}

/// When the deadline passes while waiting, the request issues the stop
/// instruction, then returns `Timeout`; and over everything that follows it
/// has issued exactly one stop instruction.
pub proof fn lemma_timeout_stops_exactly_once(b: Bridge, later: Seq<BridgeEvent>)
    requires
        b.wf(),
        b.phase == BridgePhase::Streaming,
    ensures
        b.action(BridgeEvent::DeadlineElapsed) == BridgeAction::StopUpdates,
        b.next(BridgeEvent::DeadlineElapsed).action(BridgeEvent::StopSent)
            == BridgeAction::Finish(
            Err::<NativeFix, CoreLocationError>(CoreLocationError::Timeout),
        ),
        run(b, seq![BridgeEvent::DeadlineElapsed] + later).stops_issued == 1,
{
    let events = seq![BridgeEvent::DeadlineElapsed] + later;
    assert(events.drop_first() =~= later);
    lemma_stopping_stays_stopped_once(b.next(BridgeEvent::DeadlineElapsed), later);
}

/// Of two outcomes that reach a waiting request, the first decides the
/// result and the second is ignored.
pub proof fn lemma_first_delivery_wins(b: Bridge, first: NativeOutcome, second: NativeOutcome)
    requires
        b.phase == BridgePhase::Streaming,
    ensures
        b.action(BridgeEvent::Delivered(first)) == BridgeAction::Finish(delivered_result(first)),
        b.next(BridgeEvent::Delivered(first)).action(BridgeEvent::Delivered(second))
            == BridgeAction::Ignore,
{
}

/// The location a finished request returns; `now` is the time of
/// acquisition, used where the fix's own time is unusable.
pub open spec fn is_request_result(
    r: Result<Location, CoreLocationError>,
    outcome: Result<NativeFix, CoreLocationError>,
    now: Timestamp,
) -> bool {
    match outcome {
        Ok(fix) => r matches Ok(l) && is_native_location(l, fix) && l.timestamp == (match native_fix_time(fix) {
            Some(t) => t,
            None => now,
        }),
        Err(e) => r == Err::<Location, CoreLocationError>(e),
    }
}

/// Turns the outcome of a finished request into its result.
pub fn request_result(outcome: Result<NativeFix, CoreLocationError>, now: Timestamp) -> (r:
    Result<Location, CoreLocationError>)
    ensures
        is_request_result(r, outcome, now),
{
    match outcome {
        Ok(fix) => Ok(location_from_fix(&fix, now)),
        Err(e) => Err(e),
    }
}

} // verus!
