//! One delivery attempt per payload.
//!
//! A delivery is created `Pending` and owns its payload. After the grace
//! delay of its source the caller looks for the target window and reports
//! what it found; the delivery hands its payload out for emission where the
//! window exists, drops it where it does not, and is `Delivered` either way.
//! `Delivered` is terminal: nothing is retried and nothing is emitted twice.

use vstd::prelude::*;
use crate::payload::{OpenFilePayload, PayloadView, payload_view};

verus! {

/// Label of the window that receives the file.
pub const TARGET_WINDOW: &'static str = "main";

/// Name of the event that carries a payload to the frontend.
pub const OPEN_FILE_EVENT: &'static str = "open-file";

/// Grace delay, in milliseconds, for a payload found among the arguments of
/// the process. The delivery is scheduled once the window has been set up.
pub const STARTUP_GRACE_MS: u64 = 500;

/// Grace delay, in milliseconds, for a payload announced by the operating
/// system. It is the longer one: the notification can arrive before the
/// window has been set up.
pub const OPENED_GRACE_MS: u64 = 1000;

/// Where a request to open a file came from.
#[derive(Clone, Copy, Debug, PartialEq, Eq, Structural)]
pub enum IntentSource {
    /// The first argument of the process.
    StartupArgument,
    /// An "opened" notification of the operating system.
    OpenedNotification,
}

/// The two states of a delivery.
#[derive(Clone, Copy, Debug, PartialEq, Eq, Structural)]
pub enum DeliveryState {
    /// The payload is held and no emission was attempted.
    Pending,
    /// The one attempt was made. Whether the window existed does not show.
    Delivered,
}

impl IntentSource {
    /// The grace delay that belongs to this source, in milliseconds.
    pub open spec fn spec_grace_ms(self) -> u64 {
        match self {
            IntentSource::StartupArgument => STARTUP_GRACE_MS,
            IntentSource::OpenedNotification => OPENED_GRACE_MS,
        }
    }

    /// How long to wait before the delivery is attempted, in milliseconds.
    pub fn grace_ms(self) -> (ms: u64)
        ensures
            ms == self.spec_grace_ms(),
    {
        match self {
            IntentSource::StartupArgument => STARTUP_GRACE_MS,
            IntentSource::OpenedNotification => OPENED_GRACE_MS,
        }
    }
}

/// Mathematical value of a [`Delivery`].
pub struct DeliveryView {
    /// Where the request came from.
    pub source: IntentSource,
    /// The payload that waits to be emitted, if the attempt is still to come.
    pub pending: Option<PayloadView>,
}

impl DeliveryView {
    /// A delivery is pending as long as it holds its payload.
    pub open spec fn state(self) -> DeliveryState {
        if self.pending is Some {
            DeliveryState::Pending
        } else {
            DeliveryState::Delivered
        }
    }

    /// The delivery from `source` that holds `payload`.
    pub open spec fn scheduled(source: IntentSource, payload: PayloadView) -> DeliveryView {
        DeliveryView { source, pending: Some(payload) }
    }

    /// What an attempt emits: the pending payload where there is one and the
    /// window exists, else nothing.
    pub open spec fn emission(self, window_present: bool) -> Option<PayloadView> {
        if window_present {
            self.pending
        } else {
            None
        }
    }

    /// The delivery after an attempt, whatever the attempt found.
    pub open spec fn attempted(self) -> DeliveryView {
        DeliveryView { source: self.source, pending: None }
    }

    /// How many payloads a run of attempts emits, where `windows[i]` says
    /// whether the window exists at attempt `i`.
    pub open spec fn emissions(self, windows: Seq<bool>) -> nat
        decreases windows.len(),
    {
        if windows.len() == 0 {
            0
        } else {
            let now: nat = if self.emission(windows[0]) is Some {
                1
            } else {
                0
            };
            now + self.attempted().emissions(windows.drop_first())
        }
    }
}

/// `Delivered` is terminal: a delivery that made its attempt emits nothing
/// and stays as it is, however often it is attempted again.
pub proof fn lemma_delivered_is_terminal(delivery: DeliveryView, windows: Seq<bool>)
    requires
        delivery.state() == DeliveryState::Delivered,
    ensures
        delivery.attempted() == delivery,
        delivery.emissions(windows) == 0,
    decreases windows.len(),
{
    if windows.len() > 0 {
        lemma_delivered_is_terminal(delivery.attempted(), windows.drop_first());
    }
}

/// A delivery emits at most once over any run of attempts, and it emits
/// exactly when it is pending and the window exists at the first attempt. A
/// window that shows up later changes nothing: there is no retry.
pub proof fn lemma_at_most_one_emission(delivery: DeliveryView, windows: Seq<bool>)
    ensures
        delivery.emissions(windows) <= 1,
        delivery.emissions(windows) == 1 <==> delivery.state() == DeliveryState::Pending
            && windows.len() > 0 && windows[0],
{
    if windows.len() > 0 {
        lemma_delivered_is_terminal(delivery.attempted(), windows.drop_first());
    }
}

/// A payload on its way to the frontend.
pub struct Delivery {
    source: IntentSource,
    payload: Option<OpenFilePayload>,
}

impl View for Delivery {
    type V = DeliveryView;

    closed spec fn view(&self) -> DeliveryView {
        DeliveryView { source: self.source, pending: payload_view(self.payload) }
    }
}

impl Delivery {
    /// Takes `payload` into a pending delivery.
    pub fn schedule(payload: OpenFilePayload, source: IntentSource) -> (delivery: Self)
        ensures
            delivery@ == DeliveryView::scheduled(source, payload@),
    {
        Delivery { source, payload: Some(payload) }
    }

    /// Where the request came from.
    pub fn source(&self) -> (source: IntentSource)
        ensures
            source == self@.source,
    {
        self.source
    }

    /// The state of this delivery.
    pub fn state(&self) -> (state: DeliveryState)
        ensures
            state == self@.state(),
    {
        if self.payload.is_some() {
            DeliveryState::Pending
        } else {
            DeliveryState::Delivered
        }
    }

    /// How long to wait before [`Delivery::attempt`], in milliseconds.
    pub fn grace_ms(&self) -> (ms: u64)
        ensures
            ms == self@.source.spec_grace_ms(),
    {
        self.source.grace_ms()
    }

    /// Makes the one attempt. `window_present` says whether a window with
    /// the label [`TARGET_WINDOW`] exists now. The result is the payload to
    /// emit under the name [`OPEN_FILE_EVENT`], or `None` where nothing is to
    /// be emitted: the window is missing, or the attempt was made before. A
    /// missing window is no error; the payload is dropped.
    pub fn attempt(&mut self, window_present: bool) -> (emit: Option<OpenFilePayload>)
        ensures
            payload_view(emit) == old(self)@.emission(window_present),
            !window_present ==> emit is None,
            old(self)@.state() == DeliveryState::Delivered ==> emit is None,
            final(self)@ == old(self)@.attempted(),
            final(self)@.state() == DeliveryState::Delivered,
    {
        let held = self.payload.take();
        if window_present {
            held
        } else {
            None
        }
    }
}

} // verus!
