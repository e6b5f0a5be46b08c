//! When a capture is begun, kept and ended.

use crate::portal::{PortalSession, PortalStream};
use crate::text::{decimal, digits, digits_read_back, number_in};
use vstd::prelude::*;

verus! {

/// Where things stand with the capture. `C` stands for a running capture, `S` for the portal session
/// that it draws on.
pub enum Phase<C, S> {
    /// There is none, and none is being started.
    Idle,
    /// One is being started.
    Attempting,
    /// One is running, on the session beside it.
    Capturing(C, S),
}

/// What can happen to the capture.
pub enum CaptureEvent<C, S> {
    /// One is asked for.
    Requested,
    /// The one that was being started could not be.
    Failed,
    /// The one that was being started is running.
    Succeeded(C, S),
    /// It is to end.
    TornDown,
}

impl<C, S> Phase<C, S> {
    /// Where things stand after `event`.
    pub open spec fn after(self, event: CaptureEvent<C, S>) -> Phase<C, S> {
        match event {
            CaptureEvent::Requested => if self is Idle {
                Phase::Attempting
            } else {
                self
            },
            CaptureEvent::Failed => if self is Attempting {
                Phase::Idle
            } else {
                self
            },
            CaptureEvent::Succeeded(capture, session) => if self is Attempting {
                Phase::Capturing(capture, session)
            } else {
                self
            },
            CaptureEvent::TornDown => Phase::Idle,
        }
    }
}

/// Where things stand after the given events, in this order.
pub open spec fn after_events<C, S>(
    start: Phase<C, S>,
    events: Seq<CaptureEvent<C, S>>,
) -> Phase<C, S>
    decreases events.len(),
{
    if events.len() == 0 {
        start
    } else {
        after_events(start, events.drop_last()).after(events.last())
    }
}

/// Why a session of the portal cannot be captured from.
#[derive(Debug, Clone, Copy, PartialEq, Eq, Structural)]
pub enum PlanError {
    /// The session has no streams.
    NoStreams,
    /// Its connection has been handed out before.
    ConnectionTaken,
}

impl PlanError {
    /// The text of the error.
    pub fn message(self) -> (r: &'static str)
        ensures
            r@ == (match self {
                PlanError::NoStreams => "Portal returned no stream node IDs"@,
                PlanError::ConnectionTaken => "PipeWire FD already consumed"@,
            }),
    {
        match self {
            PlanError::NoStreams => "Portal returned no stream node IDs",
            PlanError::ConnectionTaken => "PipeWire FD already consumed",
        }
    }
}

/// How to capture from a session: over which connection, and from which of its streams.
#[derive(Debug)]
pub struct CapturePlan<F> {
    pub fd: F,
    pub node_id: u32,
    /// The serial number of the stream, in digits, where it has one.
    pub target_object: Option<String>,
}

/// Whether `plan` captures from `stream` over `fd`.
pub open spec fn plans<F>(plan: CapturePlan<F>, stream: PortalStream, fd: F) -> bool {
    &&& plan.fd == fd
    &&& plan.node_id == stream.node_id
    &&& match stream.pipewire_serial {
        Some(serial) => plan.target_object matches Some(object) && object@ == digits(
            serial as nat,
            10,
        ),
        None => plan.target_object is None,
    }
}

/// Where things stand with the capture. A capture and the session that it draws on are held
/// together, or neither is.
#[derive(Debug)]
pub struct HookState<C, S> {
    capture: Option<C>,
    portal_session: Option<S>,
    attempted: bool,
}

impl<C, S> View for HookState<C, S> {
    type V = Phase<C, S>;

    closed spec fn view(&self) -> Phase<C, S> {
        if self.capture is Some {
            Phase::Capturing(self.capture->0, self.portal_session->0)
        } else if self.attempted {
            Phase::Attempting
        } else {
            Phase::Idle
        }
    }
}

impl<C, S> HookState<C, S> {
    /// Whether the capture, the session and the mark of an attempt agree.
    pub closed spec fn wf(self) -> bool {
        &&& self.capture is Some <==> self.portal_session is Some
        &&& self.capture is Some ==> self.attempted
    }

    /// No capture, and none being started.
    pub fn new() -> (r: HookState<C, S>)
        ensures
            r.wf(),
            r@ is Idle,
    {
        HookState { capture: None, portal_session: None, attempted: false }
    }

    /// Asks for a capture. Says whether one is to be started: not where one is running or being
    /// started.
    pub fn request(&mut self) -> (r: bool)
        requires
            old(self).wf(),
        ensures
            final(self).wf(),
            final(self)@ == old(self)@.after(CaptureEvent::Requested),
            r == old(self)@ is Idle,
    {
        if self.capture.is_some() || self.attempted {
            return false;
        }
        self.attempted = true;
        true
    }

    /// Gives up the capture that was being started, so that another may be.
    pub fn fail(&mut self)
        requires
            old(self).wf(),
            old(self)@ is Attempting,
        ensures
            final(self).wf(),
            final(self)@ == old(self)@.after(CaptureEvent::Failed),
    {
        self.attempted = false;
    }

    /// Works out how to capture from `session`, or gives the capture up. The connection leaves the
    /// session when the plan takes it.
    pub fn plan<F>(&mut self, session: &mut PortalSession<F>) -> (r: Result<
        CapturePlan<F>,
        PlanError,
    >)
        requires
            old(self).wf(),
            old(self)@ is Attempting,
        ensures
            final(self).wf(),
            final(session).session_handle == old(session).session_handle,
            final(session).streams == old(session).streams,
            if old(session).streams@.len() == 0 {
                &&& r == Err::<CapturePlan<F>, PlanError>(PlanError::NoStreams)
                &&& final(session).fd == old(session).fd
            } else if old(session).fd is None {
                &&& r == Err::<CapturePlan<F>, PlanError>(PlanError::ConnectionTaken)
                &&& final(session).fd is None
            } else {
                &&& r matches Ok(plan)
                &&& plans(plan, old(session).streams@[0], old(session).fd->0)
                &&& final(session).fd is None
            },
            r is Ok ==> final(self)@ == old(self)@,
            r is Err ==> final(self)@ == old(self)@.after(CaptureEvent::Failed),
    {
        if session.streams.len() == 0 {
            self.fail();
            return Err(PlanError::NoStreams);
        }
        let stream = session.streams[0];
        let target_object = match stream.pipewire_serial {
            Some(serial) => Some(decimal(serial)),
            None => None,
        };
        match session.take_fd() {
            Some(fd) => Ok(CapturePlan { fd, node_id: stream.node_id, target_object }),
            None => {
                self.fail();
                Err(PlanError::ConnectionTaken)
            },
        }
    }

    /// Keeps the capture that was being started, and the session that it draws on.
    pub fn succeed(&mut self, capture: C, session: S)
        requires
            old(self).wf(),
            old(self)@ is Attempting,
        ensures
            final(self).wf(),
            final(self)@ == old(self)@.after(CaptureEvent::Succeeded(capture, session)),
    {
        self.capture = Some(capture);
        self.portal_session = Some(session);
    }

    /// The running capture, if there is one.
    pub fn capture(&self) -> (r: Option<&C>)
        requires
            self.wf(),
        ensures
            match r {
                Some(capture) => self@ matches Phase::Capturing(held, _) && held == *capture,
                None => !(self@ is Capturing),
            },
    {
        match &self.capture {
            Some(capture) => Some(capture),
            None => None,
        }
    }

    /// Lets go of the capture and of its session, which the caller is to stop and to close.
    pub fn tear_down(&mut self) -> (r: (Option<C>, Option<S>))
        requires
            old(self).wf(),
        ensures
            final(self).wf(),
            final(self)@ == old(self)@.after(CaptureEvent::TornDown),
            match old(self)@ {
                Phase::Capturing(capture, session) => r == (Some(capture), Some(session)),
                _ => r == (None::<C>, None::<S>),
            },
    {
        let capture = self.capture.take();
        let session = self.portal_session.take();
        self.attempted = false;
        (capture, session)
    }
}

/// Between one request that is taken up and the next, a capture has failed or has been torn down:
/// until then no request is.
pub proof fn no_second_capture_beside_the_first<C, S>(
    start: Phase<C, S>,
    events: Seq<CaptureEvent<C, S>>,
)
    requires
        !(start is Idle),
        forall|i: int|
            0 <= i < events.len() ==> !(#[trigger] events[i] is Failed) && !(events[i] is TornDown),
    ensures
        !(after_events(start, events) is Idle),
    decreases events.len(),
{
    if events.len() > 0 {
        no_second_capture_beside_the_first(start, events.drop_last());
    }
}

/// A capture that is running is only ended by being torn down: neither requests nor late reports
/// replace it or the session that it draws on.
pub proof fn running_capture_is_kept<C, S>(
    capture: C,
    session: S,
    events: Seq<CaptureEvent<C, S>>,
)
    requires
        forall|i: int| 0 <= i < events.len() ==> !(#[trigger] events[i] is TornDown),
    ensures
        after_events(Phase::Capturing(capture, session), events) == Phase::Capturing(
            capture,
            session,
        ),
    decreases events.len(),
{
    if events.len() > 0 {
        running_capture_is_kept(capture, session, events.drop_last());
    }
}

/// Whatever has happened before: after a capture that could not be started, and after one that has
/// been torn down, there is none, and the next request is taken up.
pub proof fn capture_can_be_tried_again<C, S>(
    start: Phase<C, S>,
    events: Seq<CaptureEvent<C, S>>,
)
    ensures
        after_events(start, events) is Attempting ==> after_events(
            start,
            events.push(CaptureEvent::Failed),
        ) is Idle,
        after_events(start, events.push(CaptureEvent::TornDown)) is Idle,
        after_events(start, events) is Idle ==> after_events(
            start,
            events.push(CaptureEvent::Requested),
        ) is Attempting,
{
    assert(events.push(CaptureEvent::Failed).drop_last() =~= events);
    assert(events.push(CaptureEvent::TornDown).drop_last() =~= events);
    assert(events.push(CaptureEvent::Requested).drop_last() =~= events);
}

/// A capture that has been asked for and has started is held together with the session that it came
/// with, whatever other requests came in between.
pub proof fn started_capture_is_held<C, S>(
    capture: C,
    session: S,
    requests: Seq<CaptureEvent<C, S>>,
)
    requires
        requests.len() > 0,
        forall|i: int| 0 <= i < requests.len() ==> #[trigger] requests[i] is Requested,
    ensures
        after_events(Phase::<C, S>::Idle, requests) is Attempting,
        after_events(
            Phase::<C, S>::Idle,
            requests.push(CaptureEvent::Succeeded(capture, session)),
        ) == Phase::Capturing(capture, session),
    decreases requests.len(),
{
    let rest = requests.drop_last();
    assert(requests[requests.len() - 1] is Requested);
    if rest.len() > 0 {
        assert forall|i: int| 0 <= i < rest.len() implies #[trigger] rest[i] is Requested by {
            assert(rest[i] == requests[i]);
        }
        started_capture_is_held(capture, session, rest);
    } else {
        assert(after_events(Phase::<C, S>::Idle, rest) is Idle);
    }
    assert(requests.push(CaptureEvent::Succeeded(capture, session)).drop_last() =~= requests);
}

/// Reports about a capture that nobody has asked for change nothing.
pub proof fn unasked_reports_change_nothing<C, S>(capture: C, session: S)
    ensures
        Phase::<C, S>::Idle.after(CaptureEvent::Failed) is Idle,
        Phase::<C, S>::Idle.after(CaptureEvent::Succeeded(capture, session)) is Idle,
{
}

/// A plan is for the connection and the node of its stream, and names the stream by its serial
/// number in decimal digits, where it has one.
pub proof fn plan_names_its_stream<F>(plan: CapturePlan<F>, stream: PortalStream, fd: F)
    requires
        plans(plan, stream, fd),
    ensures
        plan.fd == fd,
        plan.node_id == stream.node_id,
        plan.target_object is Some <==> stream.pipewire_serial is Some,
        stream.pipewire_serial matches Some(serial) ==> {
            let object = plan.target_object->0@;
            &&& number_in(object, 10) == serial
            &&& object.len() > 1 ==> object[0] != '0'
        },
{
    if let Some(serial) = stream.pipewire_serial {
        digits_read_back(serial as nat, 10);
    }
}

/// The life of a capture, in calls: the first request is taken up and no other is beside it; what has
/// then been started is the running capture, until it is torn down; tearing down hands out this
/// capture and its session, and the next request is taken up again.
pub proof fn capture_lives_from_request_to_tear_down<C, S>(
    fresh: HookState<C, S>,
    asked: &mut HookState<C, S>,
    first: bool,
    started: &mut HookState<C, S>,
    capture: C,
    session: S,
    running: Option<&C>,
    asked_again: &mut HookState<C, S>,
    second: bool,
    ended: &mut HookState<C, S>,
    handed_out: (Option<C>, Option<S>),
    asked_at_last: &mut HookState<C, S>,
    third: bool,
)
    requires
        call_ensures(HookState::<C, S>::new, (), fresh),
        *old(asked) == fresh,
        call_ensures(HookState::<C, S>::request, (asked,), first),
        *old(started) == *final(asked),
        call_ensures(HookState::<C, S>::succeed, (started, capture, session), ()),
        call_ensures(HookState::<C, S>::capture, (&*final(started),), running),
        *old(asked_again) == *final(started),
        call_ensures(HookState::<C, S>::request, (asked_again,), second),
        *old(ended) == *final(asked_again),
        call_ensures(HookState::<C, S>::tear_down, (ended,), handed_out),
        *old(asked_at_last) == *final(ended),
        call_ensures(HookState::<C, S>::request, (asked_at_last,), third),
    ensures
        first,
        running matches Some(held) && *held == capture,
        !second,
        handed_out == (Some(capture), Some(session)),
        third,
{
}

/// A capture that could not be started is given up: there is none, nothing is handed out, and the next
/// request is taken up.
pub proof fn failed_capture_leaves_nothing<C, S>(
    fresh: HookState<C, S>,
    asked: &mut HookState<C, S>,
    first: bool,
    failed: &mut HookState<C, S>,
    running: Option<&C>,
    asked_again: &mut HookState<C, S>,
    second: bool,
    ended: &mut HookState<C, S>,
    handed_out: (Option<C>, Option<S>),
)
    requires
        call_ensures(HookState::<C, S>::new, (), fresh),
        *old(asked) == fresh,
        call_ensures(HookState::<C, S>::request, (asked,), first),
        *old(failed) == *final(asked),
        call_ensures(HookState::<C, S>::fail, (failed,), ()),
        call_ensures(HookState::<C, S>::capture, (&*final(failed),), running),
        *old(ended) == *final(failed),
        call_ensures(HookState::<C, S>::tear_down, (ended,), handed_out),
        *old(asked_again) == *final(failed),
        call_ensures(HookState::<C, S>::request, (asked_again,), second),
    ensures
        first,
        running is None,
        handed_out == (None::<C>, None::<S>),
        second,
{
}

/// What a plan for a session comes to. A session without streams cannot be captured from, nor can one
/// whose connection is gone, and the next request is taken up after either. Any other is captured
/// from its first stream, over its connection, which is gone then; the stream is named by its
/// serial number in decimal digits, where it has one.
pub proof fn plan_is_for_the_first_stream<C, S, F>(
    fresh: HookState<C, S>,
    asked: &mut HookState<C, S>,
    first: bool,
    state: &mut HookState<C, S>,
    session: &mut PortalSession<F>,
    r: Result<CapturePlan<F>, PlanError>,
    asked_again: &mut HookState<C, S>,
    second: bool,
)
    requires
        call_ensures(HookState::<C, S>::new, (), fresh),
        *old(asked) == fresh,
        call_ensures(HookState::<C, S>::request, (asked,), first),
        *old(state) == *final(asked),
        call_ensures(HookState::<C, S>::plan::<F>, (state, session), r),
        *old(asked_again) == *final(state),
        call_ensures(HookState::<C, S>::request, (asked_again,), second),
    ensures
        final(session).session_handle@ == old(session).session_handle@,
        final(session).streams@ == old(session).streams@,
        second <==> r is Err,
        old(session).streams@.len() == 0 ==> {
            &&& r == Err::<CapturePlan<F>, PlanError>(PlanError::NoStreams)
            &&& final(session).fd == old(session).fd
        },
        old(session).streams@.len() > 0 ==> final(session).fd is None,
        old(session).streams@.len() > 0 && old(session).fd is None ==> r == Err::<
            CapturePlan<F>,
            PlanError,
        >(PlanError::ConnectionTaken),
        old(session).streams@.len() > 0 && old(session).fd is Some ==> {
            let stream = old(session).streams@[0];
            &&& r matches Ok(plan)
            &&& Some(plan.fd) == old(session).fd
            &&& plan.node_id == stream.node_id
            &&& plan.target_object is Some <==> stream.pipewire_serial is Some
            &&& stream.pipewire_serial matches Some(serial) ==> number_in(
                plan.target_object->0@,
                10,
            ) == serial && (plan.target_object->0@.len() > 1 ==> plan.target_object->0@[0] != '0')
        },
{
    if let Ok(plan) = r {
        plan_names_its_stream(plan, old(session).streams@[0], old(session).fd->0);
    }
}

/// The texts of the errors about a plan.
pub proof fn plan_errors_have_their_texts(error: PlanError, text: &'static str)
    requires
        call_ensures(PlanError::message, (error,), text),
    ensures
        error is NoStreams ==> text@ == "Portal returned no stream node IDs"@,
        error is ConnectionTaken ==> text@ == "PipeWire FD already consumed"@,
{
}

} // verus!
