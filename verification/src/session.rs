//! The session manager: the worker context, the adapter capability, and
//! timed scans.
//!
//! A session is initialized in two steps, the worker context first and the
//! adapter capability through it. A scan is a fixed script on the first
//! adapter: start discovery, wait, stop discovery, enumerate. The session
//! names each step; the bridge performs it and reports back.

use vstd::prelude::*;
use crate::bridge::{Reply, ReplyView, Step, StepView};
use crate::device::{unknown_name, BLEDevice, DeviceView, PeripheralProperties, PropertiesView};
use crate::error::{BleError, BleErrorView};

verus! {

/// How long a scan lasts where the caller names no positive duration.
pub const DEFAULT_SCAN_MILLIS: u64 = 5000;

/// The adapter that scans use: the first that the capability lists.
pub const FIRST_ADAPTER: usize = 0;

/// The work that initialization asks of the bridge.
#[derive(Debug, Clone, Copy, PartialEq, Eq, Structural)]
pub enum SessionAction {
    /// Create the worker context.
    StartRuntime,
    /// Open the adapter capability on the worker context.
    OpenAdapter,
}

impl DeepView for SessionAction {
    type V = SessionAction;

    open spec fn deep_view(&self) -> SessionAction {
        *self
    }
}

/// The work that a scan asks of the bridge.
#[derive(Debug, Clone, Copy, PartialEq, Eq, Structural)]
pub enum ScanAction {
    /// Count the physical adapters.
    ListAdapters,
    /// Start discovery on the adapter, without a filter.
    StartScan { adapter: usize },
    /// Let this many milliseconds pass.
    Wait { millis: u64 },
    /// Stop discovery on the adapter.
    StopScan { adapter: usize },
    /// Report every peripheral that the adapter has observed.
    ListPeripherals { adapter: usize },
}

impl DeepView for ScanAction {
    type V = ScanAction;

    open spec fn deep_view(&self) -> ScanAction {
        *self
    }
}

/// What the bridge reports during a scan.
#[derive(Debug, PartialEq, Eq)]
pub enum ScanEvent {
    /// The capability lists this many adapters.
    Adapters(usize),
    /// Discovery has started.
    Started,
    /// The wait is over.
    Elapsed,
    /// Discovery has stopped.
    Stopped,
    /// The observed peripherals, each with what it advertises, `None` where
    /// that could not be read.
    Peripherals(Vec<Option<PeripheralProperties>>),
    /// The step that was asked for failed.
    Failed,
}

/// Mathematical counterpart of [`ScanEvent`].
pub enum ScanEventView {
    Adapters(int),
    Started,
    Elapsed,
    Stopped,
    Peripherals(Seq<Option<PropertiesView>>),
    Failed,
}

impl DeepView for ScanEvent {
    type V = ScanEventView;

    open spec fn deep_view(&self) -> ScanEventView {
        match self {
            ScanEvent::Adapters(count) => ScanEventView::Adapters(*count as int),
            ScanEvent::Started => ScanEventView::Started,
            ScanEvent::Elapsed => ScanEventView::Elapsed,
            ScanEvent::Stopped => ScanEventView::Stopped,
            ScanEvent::Peripherals(found) => ScanEventView::Peripherals(found.deep_view()),
            ScanEvent::Failed => ScanEventView::Failed,
        }
    }
}

/// The step of its script that a scan waits for.
#[derive(Debug, Clone, Copy, PartialEq, Eq, Structural)]
pub enum ScanPhase {
    ListingAdapters,
    Starting,
    Waiting,
    Stopping,
    Enumerating,
    Finished,
}

/// The duration of a scan for the timeout that the caller names: the timeout
/// itself where it is positive, the default otherwise.
pub open spec fn scan_millis(timeout_ms: int) -> int {
    if timeout_ms <= 0 {
        DEFAULT_SCAN_MILLIS as int
    } else {
        timeout_ms
    }
}

/// The fresh handle for each reported peripheral, in the order of the report.
pub open spec fn handles_for(found: Seq<Option<PropertiesView>>) -> Seq<DeviceView> {
    found.map_values(|properties: Option<PropertiesView>| DeviceView::discovered(properties, true))
}

/// One scan in progress.
#[derive(Debug, Clone, Copy, PartialEq, Eq, Structural)]
pub struct Scan {
    pub phase: ScanPhase,
    pub millis: u64,
}

impl Scan {
    /// The scan after its script has ended, in whatever way.
    pub open spec fn finished(self) -> Scan {
        Scan { phase: ScanPhase::Finished, ..self }
    }

    /// The scan at another step of its script.
    pub open spec fn at(self, phase: ScanPhase) -> Scan {
        Scan { phase, ..self }
    }

    /// `advance` on this scan: the scan afterwards and the step handed out.
    /// The awaited report moves the script on by one step; any other report
    /// ends the scan without devices.
    pub open spec fn spec_advance(self, event: ScanEventView) -> (
        Scan,
        StepView<ScanAction, Seq<DeviceView>>,
    ) {
        match (self.phase, event) {
            (ScanPhase::ListingAdapters, ScanEventView::Adapters(count)) => if count <= 0 {
                (self.finished(), StepView::refused(Seq::empty(), BleErrorView::NoAdapterFound))
            } else {
                (
                    self.at(ScanPhase::Starting),
                    StepView::Perform(ScanAction::StartScan { adapter: FIRST_ADAPTER }),
                )
            },
            (ScanPhase::Starting, ScanEventView::Started) => (
                self.at(ScanPhase::Waiting),
                StepView::Perform(ScanAction::Wait { millis: self.millis }),
            ),
            (ScanPhase::Waiting, ScanEventView::Elapsed) => (
                self.at(ScanPhase::Stopping),
                StepView::Perform(ScanAction::StopScan { adapter: FIRST_ADAPTER }),
            ),
            (ScanPhase::Stopping, ScanEventView::Stopped) => (
                self.at(ScanPhase::Enumerating),
                StepView::Perform(ScanAction::ListPeripherals { adapter: FIRST_ADAPTER }),
            ),
            (ScanPhase::Enumerating, ScanEventView::Peripherals(found)) => (
                self.finished(),
                StepView::done(handles_for(found)),
            ),
            _ => (self.finished(), StepView::refused(Seq::empty(), BleErrorView::TransportError)),
        }
    }

    /// Takes a report of the bridge and names the next step of the scan, or
    /// closes the scan with the handles of the observed peripherals.
    pub fn advance(&mut self, event: ScanEvent) -> (step: Step<ScanAction, Vec<BLEDevice>>)
        ensures
            *final(self) == old(self).spec_advance(event.deep_view()).0,
            step@ == old(self).spec_advance(event.deep_view()).1,
    {
        match (self.phase, event) {
            (ScanPhase::ListingAdapters, ScanEvent::Adapters(count)) => {
                if count == 0 {
                    self.phase = ScanPhase::Finished;
                    Step::refused(no_devices(), BleError::NoAdapterFound)
                } else {
                    self.phase = ScanPhase::Starting;
                    Step::perform(ScanAction::StartScan { adapter: FIRST_ADAPTER })
                }
            },
            (ScanPhase::Starting, ScanEvent::Started) => {
                self.phase = ScanPhase::Waiting;
                Step::perform(ScanAction::Wait { millis: self.millis })
            },
            (ScanPhase::Waiting, ScanEvent::Elapsed) => {
                self.phase = ScanPhase::Stopping;
                Step::perform(ScanAction::StopScan { adapter: FIRST_ADAPTER })
            },
            (ScanPhase::Stopping, ScanEvent::Stopped) => {
                self.phase = ScanPhase::Enumerating;
                Step::perform(ScanAction::ListPeripherals { adapter: FIRST_ADAPTER })
            },
            (ScanPhase::Enumerating, ScanEvent::Peripherals(found)) => {
                self.phase = ScanPhase::Finished;
                Step::done(wrap_peripherals(&found))
            },
            _ => {
                self.phase = ScanPhase::Finished;
                Step::refused(no_devices(), BleError::TransportError)
            },
        }
    }
}

/// A vector without handles, with what its deep view is.
fn no_devices() -> (devices: Vec<BLEDevice>)
    ensures
        devices.deep_view() == Seq::<DeviceView>::empty(),
{
    let devices: Vec<BLEDevice> = Vec::new();
    proof {
        assert(devices.deep_view() =~= Seq::<DeviceView>::empty());
    }
    devices
}

/// Wraps each observed peripheral in a fresh, disconnected handle.
pub fn wrap_peripherals(found: &Vec<Option<PeripheralProperties>>) -> (devices: Vec<BLEDevice>)
    ensures
        devices.deep_view() == handles_for(found.deep_view()),
{
    let mut devices: Vec<BLEDevice> = Vec::new();
    let mut k: usize = 0;
    while k < found.len()
        invariant
            k <= found.len(),
            devices@.len() == k,
            forall|j: int|
                0 <= j < k ==> (#[trigger] devices@[j])@ == DeviceView::discovered(
                    found@[j].deep_view(),
                    true,
                ),
        decreases found.len() - k,
    {
        devices.push(BLEDevice::from_peripheral(&found[k], true));
        k += 1;
    }
    proof {
        assert(devices.deep_view() =~= handles_for(found.deep_view()));
    }
    devices
}

/// The duration of a scan for the timeout that the caller names.
pub fn normalize_timeout(timeout_ms: i64) -> (millis: u64)
    ensures
        millis == scan_millis(timeout_ms as int),
{
    if timeout_ms <= 0 {
        DEFAULT_SCAN_MILLIS
    } else {
        timeout_ms as u64
    }
}

/// Mathematical counterpart of [`GdBLE`].
pub struct SessionView {
    /// Whether the worker context is present.
    pub runtime: bool,
    /// Whether the adapter capability is present.
    pub adapter: bool,
}

impl SessionView {
    /// What holds of every session: the adapter capability is opened on the
    /// worker context, so it is never present without it.
    pub open spec fn well_formed(self) -> bool {
        self.adapter ==> self.runtime
    }

    /// The session before anything is initialized.
    pub open spec fn fresh() -> SessionView {
        SessionView { runtime: false, adapter: false }
    }

    /// Whether the session is ready to scan.
    pub open spec fn is_initialized(self) -> bool {
        self.runtime && self.adapter
    }

    /// What is still missing for this session to be initialized.
    pub open spec fn next_step(self) -> StepView<SessionAction, bool> {
        if !self.runtime {
            StepView::Perform(SessionAction::StartRuntime)
        } else if !self.adapter {
            StepView::Perform(SessionAction::OpenAdapter)
        } else {
            StepView::done(true)
        }
    }

    /// `runtime_result` on this session. A session that holds a worker context
    /// keeps it; otherwise the new one is taken, or its failure reported.
    pub open spec fn runtime_result(self, started: bool) -> (
        SessionView,
        StepView<SessionAction, bool>,
    ) {
        if self.runtime {
            (self, self.next_step())
        } else if started {
            (
                SessionView { runtime: true, ..self },
                StepView::Perform(SessionAction::OpenAdapter),
            )
        } else {
            (self, StepView::refused(false, BleErrorView::RuntimeInitFailed))
        }
    }

    /// `adapter_result` on this session. An adapter capability completes the
    /// session; its failure leaves the session without a worker context too.
    pub open spec fn adapter_result(self, opened: bool) -> (SessionView, ReplyView<bool>) {
        if self.adapter {
            (self, ReplyView::clean(true))
        } else if !self.runtime {
            (self, ReplyView::failed(false, BleErrorView::AdapterInitFailed))
        } else if opened {
            (SessionView { adapter: true, ..self }, ReplyView::clean(true))
        } else {
            (SessionView::fresh(), ReplyView::failed(false, BleErrorView::AdapterInitFailed))
        }
    }

    /// `scan` on this session: the scan that starts and its first step.
    pub open spec fn scan(self, timeout_ms: int) -> (Scan, StepView<ScanAction, Seq<DeviceView>>) {
        if !self.is_initialized() {
            (
                Scan { phase: ScanPhase::Finished, millis: scan_millis(timeout_ms) as u64 },
                StepView::refused(Seq::empty(), BleErrorView::NotInitialized),
            )
        } else {
            (
                Scan { phase: ScanPhase::ListingAdapters, millis: scan_millis(timeout_ms) as u64 },
                StepView::Perform(ScanAction::ListAdapters),
            )
        }
    }
}

/// The session manager of the central.
pub struct GdBLE {
    runtime: bool,
    adapter: bool,
}

/// The session manager under its other name.
pub type BlueDot = GdBLE;

impl View for GdBLE {
    type V = SessionView;

    closed spec fn view(&self) -> SessionView {
        SessionView { runtime: self.runtime, adapter: self.adapter }
    }
}

impl GdBLE {
    #[verifier::type_invariant]
    spec fn valid(&self) -> bool {
        self@.well_formed()
    }

    /// A session that is not initialized.
    pub fn new() -> (session: GdBLE)
        ensures
            session@ == SessionView::fresh(),
    {
        GdBLE { runtime: false, adapter: false }
    }

    /// Starts to initialize the session: names what is still missing, the
    /// worker context first. An initialized session answers `true` and asks
    /// for nothing, so initializing twice acquires nothing twice.
    pub fn initialize(&self) -> (step: Step<SessionAction, bool>)
        ensures
            step@ == self@.next_step(),
    {
        if !self.runtime {
            Step::perform(SessionAction::StartRuntime)
        } else if !self.adapter {
            Step::perform(SessionAction::OpenAdapter)
        } else {
            Step::done(true)
        }
    }

    /// Takes the outcome of the bridge's attempt to create the worker context.
    pub fn runtime_result(&mut self, started: bool) -> (step: Step<SessionAction, bool>)
        ensures
            final(self)@ == old(self)@.runtime_result(started).0,
            step@ == old(self)@.runtime_result(started).1,
    {
        if self.runtime {
            self.initialize()
        } else if started {
            proof {
                use_type_invariant(&*self);
            }
            self.runtime = true;
            Step::perform(SessionAction::OpenAdapter)
        } else {
            Step::refused(false, BleError::RuntimeInitFailed)
        }
    }

    /// Takes the outcome of the bridge's attempt to open the adapter
    /// capability.
    pub fn adapter_result(&mut self, opened: bool) -> (reply: Reply<bool>)
        ensures
            final(self)@ == old(self)@.adapter_result(opened).0,
            reply@ == old(self)@.adapter_result(opened).1,
    {
        if self.adapter {
            Reply::clean(true)
        } else if !self.runtime {
            Reply::failed(false, BleError::AdapterInitFailed)
        } else if opened {
            self.adapter = true;
            Reply::clean(true)
        } else {
            self.runtime = false;
            Reply::failed(false, BleError::AdapterInitFailed)
        }
    }

    /// Whether both the worker context and the adapter capability are present.
    pub fn is_initialized(&self) -> (ready: bool)
        ensures
            ready == self@.is_initialized(),
    {
        self.runtime && self.adapter
    }

    /// Starts a scan of `timeout_ms` milliseconds, of the default duration
    /// where `timeout_ms` is not positive. A session that is not initialized
    /// answers with no devices.
    pub fn scan(&self, timeout_ms: i64) -> (r: (Scan, Step<ScanAction, Vec<BLEDevice>>))
        ensures
            r.0 == self@.scan(timeout_ms as int).0,
            r.1@ == self@.scan(timeout_ms as int).1,
    {
        let millis = normalize_timeout(timeout_ms);
        if !self.is_initialized() {
            (
                Scan { phase: ScanPhase::Finished, millis },
                Step::refused(no_devices(), BleError::NotInitialized),
            )
        } else {
            (
                Scan { phase: ScanPhase::ListingAdapters, millis },
                Step::perform(ScanAction::ListAdapters),
            )
        }
    }
}

/// Every report of the bridge leaves a well-formed session well-formed.
pub proof fn lemma_reports_keep_well_formed(session: SessionView, outcome: bool)
    requires
        session.well_formed(),
    ensures
        session.runtime_result(outcome).0.well_formed(),
        session.adapter_result(outcome).0.well_formed(),
{
}

/// A fresh session asks for the worker context, then for the adapter
/// capability, and is initialized once both are there. A failure at either
/// step leaves it as a fresh session, with the error of that step.
pub proof fn lemma_initialization_outcomes()
    ensures
        !SessionView::fresh().is_initialized(),
        SessionView::fresh().next_step() == StepView::<SessionAction, bool>::Perform(
            SessionAction::StartRuntime,
        ),
        SessionView::fresh().runtime_result(false) == (
            SessionView::fresh(),
            StepView::<SessionAction, bool>::refused(false, BleErrorView::RuntimeInitFailed),
        ),
        SessionView::fresh().runtime_result(true).1 == StepView::<
            SessionAction,
            bool,
        >::Perform(SessionAction::OpenAdapter),
        SessionView::fresh().runtime_result(true).0.adapter_result(false) == (
            SessionView::fresh(),
            ReplyView::failed(false, BleErrorView::AdapterInitFailed),
        ),
        SessionView::fresh().runtime_result(true).0.adapter_result(true).1 == ReplyView::clean(
            true,
        ),
        SessionView::fresh().runtime_result(true).0.adapter_result(true).0.is_initialized(),
{
}

/// Initializing an initialized session changes nothing and acquires nothing:
/// the answer is `true` at once, and late reports of the bridge are ignored.
pub proof fn lemma_initialize_is_idempotent(session: SessionView, outcome: bool)
    requires
        session.is_initialized(),
    ensures
        session.next_step() == StepView::<SessionAction, bool>::done(true),
        session.runtime_result(outcome) == (
            session,
            StepView::<SessionAction, bool>::done(true),
        ),
        session.adapter_result(outcome) == (session, ReplyView::clean(true)),
{
}

/// A scan on a session that is not initialized ends at once, without devices
/// and with `NotInitialized`.
pub proof fn lemma_scan_needs_initialization(session: SessionView, timeout_ms: int)
    requires
        !session.is_initialized(),
    ensures
        session.scan(timeout_ms).0.phase is Finished,
        session.scan(timeout_ms).1 == StepView::<ScanAction, Seq<DeviceView>>::refused(
            Seq::empty(),
            BleErrorView::NotInitialized,
        ),
{
}

/// A timeout of zero or less stands for the default duration: the scan that
/// starts is the scan that the default itself starts.
pub proof fn lemma_scan_duration_normalized(session: SessionView, timeout_ms: int)
    requires
        timeout_ms <= 0,
    ensures
        session.scan(timeout_ms) == session.scan(DEFAULT_SCAN_MILLIS as int),
        session.scan(timeout_ms).0.millis == DEFAULT_SCAN_MILLIS,
{
}

/// A positive timeout is the duration of the scan.
pub proof fn lemma_scan_duration_kept(session: SessionView, timeout_ms: int)
    requires
        0 < timeout_ms <= i64::MAX,
    ensures
        session.scan(timeout_ms).0.millis == timeout_ms,
{
}

/// The script of a scan on an initialized session with `adapters` adapters,
/// one at least: list the adapters, start discovery on the first, wait for the
/// duration of the scan, stop discovery, enumerate. The scan ends with one
/// fresh handle for each peripheral that the adapter reports.
pub proof fn lemma_scan_script(
    session: SessionView,
    timeout_ms: int,
    adapters: int,
    found: Seq<Option<PropertiesView>>,
)
    requires
        session.is_initialized(),
        adapters > 0,
    ensures
        ({
            let (listing, first) = session.scan(timeout_ms);
            let (starting, second) = listing.spec_advance(ScanEventView::Adapters(adapters));
            let (waiting, third) = starting.spec_advance(ScanEventView::Started);
            let (stopping, fourth) = waiting.spec_advance(ScanEventView::Elapsed);
            let (enumerating, fifth) = stopping.spec_advance(ScanEventView::Stopped);
            let (finished, last) = enumerating.spec_advance(ScanEventView::Peripherals(found));
            &&& first == StepView::<ScanAction, Seq<DeviceView>>::Perform(ScanAction::ListAdapters)
            &&& second == StepView::<ScanAction, Seq<DeviceView>>::Perform(
                ScanAction::StartScan { adapter: FIRST_ADAPTER },
            )
            &&& third == StepView::<ScanAction, Seq<DeviceView>>::Perform(
                ScanAction::Wait { millis: scan_millis(timeout_ms) as u64 },
            )
            &&& fourth == StepView::<ScanAction, Seq<DeviceView>>::Perform(
                ScanAction::StopScan { adapter: FIRST_ADAPTER },
            )
            &&& fifth == StepView::<ScanAction, Seq<DeviceView>>::Perform(
                ScanAction::ListPeripherals { adapter: FIRST_ADAPTER },
            )
            &&& last == StepView::<ScanAction, Seq<DeviceView>>::done(handles_for(found))
            &&& finished.phase is Finished
            &&& handles_for(found).len() == found.len()
            &&& forall|i: int|
                0 <= i < found.len() ==> (#[trigger] handles_for(found)[i])
                    == DeviceView::discovered(found[i], true)
        }),
{
}

/// A scan ends without devices where the capability lists no adapter, where a
/// step fails, and where the bridge reports anything but what the scan waits
/// for. A finished scan stays finished.
pub proof fn lemma_scan_ends_without_devices(scan: Scan, event: ScanEventView)
    ensures
        scan.phase is ListingAdapters && event == ScanEventView::Adapters(0)
            ==> scan.spec_advance(event) == (
            scan.finished(),
            StepView::<ScanAction, Seq<DeviceView>>::refused(
                Seq::empty(),
                BleErrorView::NoAdapterFound,
            ),
        ),
        event is Failed || scan.phase is Finished ==> scan.spec_advance(event) == (
            scan.finished(),
            StepView::<ScanAction, Seq<DeviceView>>::refused(
                Seq::empty(),
                BleErrorView::TransportError,
            ),
        ),
        scan.spec_advance(event).1 is Done ==> scan.spec_advance(event).0.phase is Finished,
{
}

/// Each handle that a scan hands out is well-formed, disconnected and bridged,
/// and carries the advertised name where there is one.
pub proof fn lemma_scanned_handles(found: Seq<Option<PropertiesView>>, i: int)
    requires
        0 <= i < found.len(),
    ensures
        handles_for(found)[i].well_formed(),
        handles_for(found)[i].state is Disconnected,
        handles_for(found)[i].bridged,
        found[i] matches Some(properties) ==> handles_for(found)[i].address
            == properties.address,
        found[i] matches Some(PropertiesView { local_name: Some(name), .. })
            ==> handles_for(found)[i].name == name,
        found[i] is None ==> handles_for(found)[i].name == unknown_name(),
{
}

} // verus!
