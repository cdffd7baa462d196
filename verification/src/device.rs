//! The handle of one remote peripheral.
//!
//! A handle owns the connection state of its peripheral and the directory of
//! its characteristics. It decides; the bridge acts. `connect`, `disconnect`,
//! `read` and `write` answer with the action that the bridge has to perform,
//! and the functions whose names end in `_result` take the outcome of that
//! action and close the operation.

use vstd::prelude::*;
use crate::bridge::{lemma_bytes_deep_view, no_bytes, Reply, ReplyView, Step, StepView};
use crate::directory::{
    belongs_to, characteristics_under, distinct, distinct_services, first_position,
    is_first_position, lemma_first_position, lemma_services_deduplicated, pair, services_of,
    CharacteristicEntry, Directory,
};
use crate::error::{BleError, BleErrorView};
use crate::resolver::{hyphenated, lemma_hyphenated_injective, Uuid};

verus! {

/// Where the link to the peripheral stands.
#[derive(Debug, Clone, Copy, PartialEq, Eq, Structural)]
pub enum ConnectionState {
    Disconnected,
    Connecting,
    Connected,
    Disconnecting,
}

/// Where service discovery stands on a connected peripheral.
#[derive(Debug, Clone, Copy, PartialEq, Eq, Structural)]
pub enum ServiceState {
    /// No list of characteristics is known.
    Unknown,
    /// The bridge has been asked to discover the services.
    Discovering,
    /// The characteristics are known: the handle is ready for reads and writes.
    Discovered,
}

/// How a write is delivered to the peripheral.
#[derive(Debug, Clone, Copy, PartialEq, Eq, Structural)]
pub enum WriteMode {
    /// The peripheral is not asked to acknowledge the write.
    WithoutResponse,
    /// The peripheral acknowledges the write.
    WithResponse,
}

/// The work that a handle asks of the bridge.
#[derive(Debug, PartialEq, Eq)]
pub enum DeviceAction {
    /// Establish the link to the peripheral.
    Connect,
    /// Discover the services of the peripheral and report its characteristics.
    DiscoverServices,
    /// Close the link to the peripheral.
    Disconnect,
    /// Read the characteristic at this position of the reported list.
    Read { handle: usize },
    /// Write the payload to the characteristic at this position of the
    /// reported list.
    Write { handle: usize, payload: Vec<u8>, mode: WriteMode },
}

/// Mathematical counterpart of [`DeviceAction`].
pub enum DeviceActionView {
    Connect,
    DiscoverServices,
    Disconnect,
    Read { handle: int },
    Write { handle: int, payload: Seq<u8>, mode: WriteMode },
}

impl DeepView for DeviceAction {
    type V = DeviceActionView;

    open spec fn deep_view(&self) -> DeviceActionView {
        match self {
            DeviceAction::Connect => DeviceActionView::Connect,
            DeviceAction::DiscoverServices => DeviceActionView::DiscoverServices,
            DeviceAction::Disconnect => DeviceActionView::Disconnect,
            DeviceAction::Read { handle } => DeviceActionView::Read { handle: *handle as int },
            DeviceAction::Write { handle, payload, mode } => DeviceActionView::Write {
                handle: *handle as int,
                payload: payload@,
                mode: *mode,
            },
        }
    }
}

/// What a peripheral advertises of itself.
#[derive(Debug, PartialEq, Eq)]
pub struct PeripheralProperties {
    /// The advertised name, where the peripheral advertises one.
    pub local_name: Option<String>,
    /// The address of the peripheral.
    pub address: String,
}

/// Mathematical counterpart of [`PeripheralProperties`].
pub struct PropertiesView {
    pub local_name: Option<Seq<char>>,
    pub address: Seq<char>,
}

impl View for PeripheralProperties {
    type V = PropertiesView;

    open spec fn view(&self) -> PropertiesView {
        PropertiesView {
            local_name: match self.local_name {
                Some(name) => Some(name@),
                None => None,
            },
            address: self.address@,
        }
    }
}

impl DeepView for PeripheralProperties {
    type V = PropertiesView;

    open spec fn deep_view(&self) -> PropertiesView {
        self@
    }
}

/// The name of a peripheral that advertises none.
pub open spec fn unknown_name() -> Seq<char> {
    "Unknown"@
}

/// The text of a UUID as it crosses the boundary.
pub open spec fn uuid_text() -> spec_fn(Uuid) -> Seq<char> {
    |id: Uuid| hyphenated(id.value)
}

/// Mathematical counterpart of [`BLEDevice`].
pub struct DeviceView {
    pub name: Seq<char>,
    pub address: Seq<char>,
    /// Whether the handle was made by a session with a worker context.
    pub bridged: bool,
    pub state: ConnectionState,
    pub services: ServiceState,
    /// The characteristics as service discovery reported them.
    pub characteristics: Seq<CharacteristicEntry>,
}

impl DeviceView {
    /// What holds of every handle: only a bridged handle leaves the
    /// disconnected state, service discovery belongs to a connection, and
    /// characteristics are known only once discovery has completed.
    pub open spec fn well_formed(self) -> bool {
        &&& self.state !is Disconnected ==> self.bridged
        &&& self.services is Discovering ==> self.state is Connected
        &&& self.services is Discovered ==> self.state is Connected || self.state is Disconnecting
        &&& self.services !is Discovered ==> self.characteristics.len() == 0
    }

    /// The handle of a peripheral as a scan reports it: disconnected, under
    /// the advertised name and address. Without a bridge nothing is read from
    /// the peripheral; without an advertised name it is called "Unknown".
    pub open spec fn discovered(properties: Option<PropertiesView>, bridged: bool) -> DeviceView {
        DeviceView {
            name: match properties {
                Some(PropertiesView { local_name: Some(name), .. }) if bridged => name,
                _ => unknown_name(),
            },
            address: match properties {
                Some(found) if bridged => found.address,
                _ => Seq::empty(),
            },
            bridged,
            state: ConnectionState::Disconnected,
            services: ServiceState::Unknown,
            characteristics: Seq::empty(),
        }
    }

    /// Whether reads, writes and enumerations are answered.
    pub open spec fn is_connected(self) -> bool {
        self.state is Connected
    }

    /// The handle with another connection state.
    pub open spec fn with_state(self, state: ConnectionState) -> DeviceView {
        DeviceView { state, ..self }
    }

    /// The handle with another state of service discovery.
    pub open spec fn with_services(self, services: ServiceState) -> DeviceView {
        DeviceView { services, ..self }
    }

    /// The handle without any knowledge of characteristics.
    pub open spec fn forgetting(self) -> DeviceView {
        DeviceView { services: ServiceState::Unknown, characteristics: Seq::empty(), ..self }
    }

    /// `connect` on this handle: the handle afterwards and the step handed out.
    /// Only a bridged, disconnected handle starts to connect.
    pub open spec fn connect(self) -> (DeviceView, StepView<DeviceActionView, bool>) {
        if !self.bridged {
            (self, StepView::refused(false, BleErrorView::NotInitialized))
        } else if self.state !is Disconnected {
            (self, StepView::refused(false, BleErrorView::ConnectionFailed))
        } else {
            (
                self.with_state(ConnectionState::Connecting),
                StepView::Perform(DeviceActionView::Connect),
            )
        }
    }

    /// `connect_result` on this handle. An established link makes the handle
    /// connected and asks for service discovery at once; a failure leaves it
    /// disconnected.
    pub open spec fn connect_result(self, linked: bool) -> (
        DeviceView,
        StepView<DeviceActionView, bool>,
    ) {
        if self.state !is Connecting {
            (self, StepView::refused(false, BleErrorView::ConnectionFailed))
        } else if linked {
            (
                self.with_state(ConnectionState::Connected).with_services(
                    ServiceState::Discovering,
                ),
                StepView::Perform(DeviceActionView::DiscoverServices),
            )
        } else {
            (
                self.with_state(ConnectionState::Disconnected),
                StepView::refused(false, BleErrorView::ConnectionFailed),
            )
        }
    }

    /// `discovery_result` on this handle. The connection stands whatever
    /// discovery gave: a failed discovery is reported beside a `true`.
    pub open spec fn discovery_result(self, found: Option<Seq<CharacteristicEntry>>) -> (
        DeviceView,
        ReplyView<bool>,
    ) {
        if !(self.state is Connected && self.services is Discovering) {
            (self, ReplyView::failed(false, BleErrorView::TransportError))
        } else {
            match found {
                Some(characteristics) => (
                    DeviceView { services: ServiceState::Discovered, characteristics, ..self },
                    ReplyView::clean(true),
                ),
                None => (
                    self.with_services(ServiceState::Unknown),
                    ReplyView::failed(true, BleErrorView::TransportError),
                ),
            }
        }
    }

    /// `disconnect` on this handle. Only a connected handle starts to
    /// disconnect; a discovery still under way is given up.
    pub open spec fn disconnect(self) -> (DeviceView, StepView<DeviceActionView, bool>) {
        if !self.bridged {
            (self, StepView::refused(false, BleErrorView::NotInitialized))
        } else if self.state !is Connected {
            (self, StepView::refused(false, BleErrorView::NotConnected))
        } else {
            (
                DeviceView {
                    state: ConnectionState::Disconnecting,
                    services: if self.services is Discovering {
                        ServiceState::Unknown
                    } else {
                        self.services
                    },
                    ..self
                },
                StepView::Perform(DeviceActionView::Disconnect),
            )
        }
    }

    /// `disconnect_result` on this handle. A closed link leaves the handle
    /// disconnected and without characteristics; a failure leaves it connected
    /// as it was.
    pub open spec fn disconnect_result(self, closed: bool) -> (DeviceView, ReplyView<bool>) {
        if self.state !is Disconnecting {
            (self, ReplyView::failed(false, BleErrorView::DisconnectionFailed))
        } else if closed {
            (
                self.forgetting().with_state(ConnectionState::Disconnected),
                ReplyView::clean(true),
            )
        } else {
            (
                self.with_state(ConnectionState::Connected),
                ReplyView::failed(false, BleErrorView::DisconnectionFailed),
            )
        }
    }

    /// The handle of the characteristic that a UUID pair addresses on this
    /// device: the first place of the pair in the reported list. A handle that
    /// is not connected resolves nothing.
    pub open spec fn lookup(self, service: Uuid, characteristic: Uuid) -> Result<
        int,
        BleErrorView,
    > {
        if !self.is_connected() {
            Err(BleErrorView::NotConnected)
        } else {
            match first_position(self.characteristics, pair(service, characteristic)) {
                Some(handle) => Ok(handle),
                None => Err(BleErrorView::CharacteristicNotFound),
            }
        }
    }

    /// The handle of the characteristic that two textual UUIDs address on this
    /// device, or the reason why they address none. The checks come in this
    /// order: the connection, the service text, the characteristic text, the
    /// directory.
    pub open spec fn resolve(self, service: Seq<char>, characteristic: Seq<char>) -> Result<
        int,
        BleErrorView,
    > {
        if !self.is_connected() {
            Err(BleErrorView::NotConnected)
        } else {
            match (Uuid::spec_parse(service), Uuid::spec_parse(characteristic)) {
                (Err(e), _) => Err(e),
                (Ok(_), Err(e)) => Err(e),
                (Ok(service), Ok(characteristic)) => self.lookup(service, characteristic),
            }
        }
    }

    /// The step of a read for the characteristic that was resolved: the read
    /// itself, or no bytes and the reason.
    pub open spec fn plan_read(target: Result<int, BleErrorView>) -> StepView<
        DeviceActionView,
        Seq<u8>,
    > {
        match target {
            Ok(handle) => StepView::Perform(DeviceActionView::Read { handle }),
            Err(e) => StepView::refused(Seq::empty(), e),
        }
    }

    /// The step of a write for the characteristic that was resolved: the
    /// unacknowledged write of the payload, or `false` and the reason.
    pub open spec fn plan_write(target: Result<int, BleErrorView>, payload: Seq<u8>) -> StepView<
        DeviceActionView,
        bool,
    > {
        match target {
            Ok(handle) => StepView::Perform(
                DeviceActionView::Write { handle, payload, mode: WriteMode::WithoutResponse },
            ),
            Err(e) => StepView::refused(false, e),
        }
    }

    /// `read` on this handle: the read of the addressed characteristic, or no
    /// bytes and the reason.
    pub open spec fn read(self, service: Seq<char>, characteristic: Seq<char>) -> StepView<
        DeviceActionView,
        Seq<u8>,
    > {
        DeviceView::plan_read(self.resolve(service, characteristic))
    }

    /// `write` on this handle: the unacknowledged write of the payload to the
    /// addressed characteristic, or `false` and the reason.
    pub open spec fn write(
        self,
        service: Seq<char>,
        characteristic: Seq<char>,
        payload: Seq<u8>,
    ) -> StepView<DeviceActionView, bool> {
        DeviceView::plan_write(self.resolve(service, characteristic), payload)
    }

    /// `get_services` on this handle: the texts of the distinct services of a
    /// connected peripheral.
    pub open spec fn get_services(self) -> ReplyView<Seq<Seq<char>>> {
        if !self.is_connected() {
            ReplyView::failed(Seq::empty(), BleErrorView::NotConnected)
        } else {
            ReplyView::clean(distinct_services(self.characteristics).map_values(uuid_text()))
        }
    }

    /// `characteristics_of` on this handle: the texts of the characteristics
    /// that a connected peripheral holds under the service.
    pub open spec fn characteristics_of(self, service: Uuid) -> ReplyView<Seq<Seq<char>>> {
        if !self.is_connected() {
            ReplyView::failed(Seq::empty(), BleErrorView::NotConnected)
        } else {
            ReplyView::clean(
                characteristics_under(self.characteristics, service).map_values(uuid_text()),
            )
        }
    }

    /// `get_characteristics` on this handle: the characteristics under the
    /// service that the text names. The connection is checked before the text.
    pub open spec fn get_characteristics(self, service: Seq<char>) -> ReplyView<Seq<Seq<char>>> {
        if !self.is_connected() {
            ReplyView::failed(Seq::empty(), BleErrorView::NotConnected)
        } else {
            match Uuid::spec_parse(service) {
                Err(e) => ReplyView::failed(Seq::empty(), e),
                Ok(service) => self.characteristics_of(service),
            }
        }
    }
}

/// The view of a resolved characteristic.
pub open spec fn target_view(target: Result<usize, BleError>) -> Result<int, BleErrorView> {
    match target {
        Ok(handle) => Ok(handle as int),
        Err(e) => Err(e@),
    }
}

/// What the caller of a read receives for the outcome that the bridge reports:
/// the bytes read, or no bytes where the transport failed.
pub open spec fn read_reply(outcome: Option<Seq<u8>>) -> ReplyView<Seq<u8>> {
    match outcome {
        Some(bytes) => ReplyView::clean(bytes),
        None => ReplyView::failed(Seq::empty(), BleErrorView::TransportError),
    }
}

/// What the caller of a write receives for the outcome that the bridge
/// reports: whether the local stack accepted the payload.
pub open spec fn write_reply(accepted: bool) -> ReplyView<bool> {
    if accepted {
        ReplyView::clean(true)
    } else {
        ReplyView::failed(false, BleErrorView::TransportError)
    }
}

/// The list of characteristics in a report of service discovery.
pub open spec fn reported(found: Option<Vec<CharacteristicEntry>>) -> Option<
    Seq<CharacteristicEntry>,
> {
    match found {
        Some(characteristics) => Some(characteristics@),
        None => None,
    }
}

/// The bytes in the outcome of a read.
pub open spec fn bytes_read(outcome: Option<Vec<u8>>) -> Option<Seq<u8>> {
    match outcome {
        Some(bytes) => Some(bytes@),
        None => None,
    }
}

/// The canonical text of each UUID, in the order of the UUIDs.
fn texts_of(ids: &Vec<Uuid>) -> (texts: Vec<String>)
    ensures
        texts.deep_view() == ids@.map_values(uuid_text()),
        texts@.len() == ids@.len(),
        forall|j: int|
            0 <= j < ids@.len() ==> Uuid::spec_parse((#[trigger] texts@[j])@) == Ok::<
                Uuid,
                BleErrorView,
            >(ids@[j]),
{
    let mut texts: Vec<String> = Vec::new();
    let mut k: usize = 0;
    while k < ids.len()
        invariant
            k <= ids.len(),
            texts@.len() == k,
            forall|j: int| 0 <= j < k ==> (#[trigger] texts@[j])@ == hyphenated(ids@[j].value),
            forall|j: int|
                0 <= j < k ==> Uuid::spec_parse((#[trigger] texts@[j])@) == Ok::<
                    Uuid,
                    BleErrorView,
                >(ids@[j]),
        decreases ids.len() - k,
    {
        texts.push(ids[k].to_text());
        k += 1;
    }
    proof {
        assert(texts.deep_view() =~= ids@.map_values(uuid_text()));
    }
    texts
}

/// A vector without texts, with what its deep view is.
fn no_texts() -> (texts: Vec<String>)
    ensures
        texts.deep_view() == Seq::<Seq<char>>::empty(),
{
    let texts: Vec<String> = Vec::new();
    proof {
        assert(texts.deep_view() =~= Seq::<Seq<char>>::empty());
    }
    texts
}

/// The handle of one discovered or connected remote peripheral.
pub struct BLEDevice {
    name: String,
    address: String,
    bridged: bool,
    state: ConnectionState,
    services: ServiceState,
    directory: Directory,
}

impl View for BLEDevice {
    type V = DeviceView;

    closed spec fn view(&self) -> DeviceView {
        DeviceView {
            name: self.name@,
            address: self.address@,
            bridged: self.bridged,
            state: self.state,
            services: self.services,
            characteristics: self.directory@,
        }
    }
}

impl DeepView for BLEDevice {
    type V = DeviceView;

    open spec fn deep_view(&self) -> DeviceView {
        self@
    }
}

impl BLEDevice {
    #[verifier::type_invariant]
    spec fn valid(&self) -> bool {
        self@.well_formed()
    }

    /// A handle that stands for no peripheral yet: it has no bridge, the name
    /// of a peripheral that advertises none and no address.
    pub fn new() -> (device: BLEDevice)
        ensures
            device@ == DeviceView::discovered(None, false),
    {
        BLEDevice {
            name: "Unknown".to_owned(),
            address: String::new(),
            bridged: false,
            state: ConnectionState::Disconnected,
            services: ServiceState::Unknown,
            directory: Directory::new(),
        }
    }

    /// The handle of a peripheral that a scan discovered. `properties` is what
    /// the peripheral advertises, `None` where that could not be read;
    /// `bridged` says whether the session has a worker context, without which
    /// nothing is read from the peripheral.
    pub fn from_peripheral(properties: &Option<PeripheralProperties>, bridged: bool) -> (device:
        BLEDevice)
        ensures
            device@ == DeviceView::discovered(properties.deep_view(), bridged),
    {
        let mut name = "Unknown".to_owned();
        let mut address = String::new();
        if bridged {
            if let Some(found) = properties {
                if let Some(local_name) = &found.local_name {
                    name = local_name.clone();
                }
                address = found.address.clone();
            }
        }
        BLEDevice {
            name,
            address,
            bridged,
            state: ConnectionState::Disconnected,
            services: ServiceState::Unknown,
            directory: Directory::new(),
        }
    }

    /// The name of the peripheral.
    pub fn get_name(&self) -> (name: String)
        ensures
            name@ == self@.name,
    {
        self.name.clone()
    }

    /// The address of the peripheral.
    pub fn get_address(&self) -> (address: String)
        ensures
            address@ == self@.address,
    {
        self.address.clone()
    }

    /// Whether the link to the peripheral is established.
    pub fn is_connected(&self) -> (connected: bool)
        ensures
            connected == self@.is_connected(),
    {
        self.state == ConnectionState::Connected
    }

    /// Where the link to the peripheral stands.
    pub fn connection_state(&self) -> (state: ConnectionState)
        ensures
            state == self@.state,
    {
        self.state
    }

    /// Where service discovery stands.
    pub fn service_state(&self) -> (services: ServiceState)
        ensures
            services == self@.services,
    {
        self.services
    }

    /// Starts to connect. A bridged, disconnected handle becomes connecting
    /// and asks the bridge to establish the link; any other handle is left as
    /// it is and answers `false`.
    pub fn connect(&mut self) -> (step: Step<DeviceAction, bool>)
        ensures
            final(self)@ == old(self)@.connect().0,
            step@ == old(self)@.connect().1,
    {
        proof {
            use_type_invariant(&*self);
        }
        if !self.bridged {
            Step::refused(false, BleError::NotInitialized)
        } else if self.state != ConnectionState::Disconnected {
            Step::refused(false, BleError::ConnectionFailed)
        } else {
            self.state = ConnectionState::Connecting;
            Step::perform(DeviceAction::Connect)
        }
    }

    /// Takes the outcome of the bridge's attempt to establish the link. On
    /// success the handle is connected and asks for service discovery; on
    /// failure it is disconnected again and answers `false`.
    pub fn connect_result(&mut self, linked: bool) -> (step: Step<DeviceAction, bool>)
        ensures
            final(self)@ == old(self)@.connect_result(linked).0,
            step@ == old(self)@.connect_result(linked).1,
    {
        proof {
            use_type_invariant(&*self);
        }
        if self.state != ConnectionState::Connecting {
            Step::refused(false, BleError::ConnectionFailed)
        } else if linked {
            self.state = ConnectionState::Connected;
            self.services = ServiceState::Discovering;
            Step::perform(DeviceAction::DiscoverServices)
        } else {
            self.state = ConnectionState::Disconnected;
            Step::refused(false, BleError::ConnectionFailed)
        }
    }

    /// Takes the outcome of service discovery: the reported characteristics,
    /// or `None` where discovery failed. The connection stands either way and
    /// the answer is `true`; a failed discovery leaves the directory empty.
    pub fn discovery_result(&mut self, found: Option<Vec<CharacteristicEntry>>) -> (reply: Reply<
        bool,
    >)
        ensures
            final(self)@ == old(self)@.discovery_result(reported(found)).0,
            reply@ == old(self)@.discovery_result(reported(found)).1,
    {
        proof {
            use_type_invariant(&*self);
        }
        if !(self.state == ConnectionState::Connected && self.services
            == ServiceState::Discovering) {
            Reply::failed(false, BleError::TransportError)
        } else {
            match found {
                Some(characteristics) => {
                    self.services = ServiceState::Discovered;
                    self.directory = Directory::build(&characteristics);
                    Reply::clean(true)
                },
                None => {
                    self.services = ServiceState::Unknown;
                    Reply::failed(true, BleError::TransportError)
                },
            }
        }
    }

    /// Starts to disconnect. A connected handle becomes disconnecting and asks
    /// the bridge to close the link; any other handle is left as it is and
    /// answers `false`.
    pub fn disconnect(&mut self) -> (step: Step<DeviceAction, bool>)
        ensures
            final(self)@ == old(self)@.disconnect().0,
            step@ == old(self)@.disconnect().1,
    {
        proof {
            use_type_invariant(&*self);
        }
        if !self.bridged {
            Step::refused(false, BleError::NotInitialized)
        } else if self.state != ConnectionState::Connected {
            Step::refused(false, BleError::NotConnected)
        } else {
            if self.services == ServiceState::Discovering {
                self.services = ServiceState::Unknown;
            }
            self.state = ConnectionState::Disconnecting;
            Step::perform(DeviceAction::Disconnect)
        }
    }

    /// Takes the outcome of the bridge's attempt to close the link. On success
    /// the handle is disconnected and forgets its characteristics; on failure
    /// it is connected as before and answers `false`.
    pub fn disconnect_result(&mut self, closed: bool) -> (reply: Reply<bool>)
        ensures
            final(self)@ == old(self)@.disconnect_result(closed).0,
            reply@ == old(self)@.disconnect_result(closed).1,
    {
        proof {
            use_type_invariant(&*self);
        }
        if self.state != ConnectionState::Disconnecting {
            Reply::failed(false, BleError::DisconnectionFailed)
        } else if closed {
            self.directory = Directory::new();
            self.services = ServiceState::Unknown;
            self.state = ConnectionState::Disconnected;
            Reply::clean(true)
        } else {
            self.state = ConnectionState::Connected;
            Reply::failed(false, BleError::DisconnectionFailed)
        }
    }

    /// Resolves a UUID pair to the handle of the characteristic that it
    /// addresses on this device.
    pub fn lookup(&self, service: Uuid, characteristic: Uuid) -> (target: Result<usize, BleError>)
        ensures
            target_view(target) == self@.lookup(service, characteristic),
    {
        if self.state != ConnectionState::Connected {
            return Err(BleError::NotConnected);
        }
        match self.directory.find(service, characteristic) {
            Some(handle) => Ok(handle),
            None => Err(BleError::CharacteristicNotFound),
        }
    }

    /// Resolves two textual UUIDs to the handle of the characteristic that
    /// they address on this device.
    pub fn resolve(&self, service_uuid: &str, characteristic_uuid: &str) -> (target: Result<
        usize,
        BleError,
    >)
        ensures
            target_view(target) == self@.resolve(service_uuid@, characteristic_uuid@),
    {
        if self.state != ConnectionState::Connected {
            return Err(BleError::NotConnected);
        }
        let service = match Uuid::parse(service_uuid) {
            Ok(id) => id,
            Err(e) => { return Err(e); },
        };
        let characteristic = match Uuid::parse(characteristic_uuid) {
            Ok(id) => id,
            Err(e) => { return Err(e); },
        };
        self.lookup(service, characteristic)
    }

    /// Plans a read of the characteristic that was resolved: asks the bridge
    /// to read it, or answers with no bytes and the reason why none was
    /// resolved.
    pub fn plan_read(target: Result<usize, BleError>) -> (step: Step<DeviceAction, Vec<u8>>)
        ensures
            step@ == DeviceView::plan_read(target_view(target)),
    {
        match target {
            Ok(handle) => Step::perform(DeviceAction::Read { handle }),
            Err(e) => Step::refused(no_bytes(), e),
        }
    }

    /// Plans a write to the characteristic that was resolved: asks the bridge
    /// to write the payload, unacknowledged, or answers `false` and the reason
    /// why none was resolved.
    pub fn plan_write(target: Result<usize, BleError>, data: Vec<u8>) -> (step: Step<
        DeviceAction,
        bool,
    >)
        ensures
            step@ == DeviceView::plan_write(target_view(target), data@),
    {
        match target {
            Ok(handle) => Step::perform(
                DeviceAction::Write { handle, payload: data, mode: WriteMode::WithoutResponse },
            ),
            Err(e) => Step::refused(false, e),
        }
    }

    /// Plans a read: asks the bridge to read the addressed characteristic, or
    /// answers with no bytes where the handle is not connected, a UUID is
    /// malformed or the pair addresses no characteristic.
    pub fn read(&self, service_uuid: &str, characteristic_uuid: &str) -> (step: Step<
        DeviceAction,
        Vec<u8>,
    >)
        ensures
            step@ == self@.read(service_uuid@, characteristic_uuid@),
    {
        BLEDevice::plan_read(self.resolve(service_uuid, characteristic_uuid))
    }

    /// Takes the outcome of a read from the bridge: the bytes, or `None` where
    /// the transport failed, which the caller sees as no bytes.
    pub fn read_result(outcome: Option<Vec<u8>>) -> (reply: Reply<Vec<u8>>)
        ensures
            reply@ == read_reply(bytes_read(outcome)),
    {
        match outcome {
            Some(bytes) => {
                proof {
                    lemma_bytes_deep_view(bytes);
                }
                Reply::clean(bytes)
            },
            None => Reply::failed(no_bytes(), BleError::TransportError),
        }
    }

    /// Plans a write: asks the bridge to write the payload, unacknowledged, to
    /// the addressed characteristic, or answers `false` where the handle is
    /// not connected, a UUID is malformed or the pair addresses no
    /// characteristic.
    pub fn write(&self, service_uuid: &str, characteristic_uuid: &str, data: Vec<u8>) -> (step:
        Step<DeviceAction, bool>)
        ensures
            step@ == self@.write(service_uuid@, characteristic_uuid@, data@),
    {
        BLEDevice::plan_write(self.resolve(service_uuid, characteristic_uuid), data)
    }

    /// Takes the outcome of a write from the bridge: whether the local stack
    /// accepted the payload.
    pub fn write_result(accepted: bool) -> (reply: Reply<bool>)
        ensures
            reply@ == write_reply(accepted),
    {
        if accepted {
            Reply::clean(true)
        } else {
            Reply::failed(false, BleError::TransportError)
        }
    }

    /// The services of the peripheral as canonical texts, each once; nothing
    /// where the handle is not connected. Each text is one that the resolver
    /// reads back as the service it stands for.
    pub fn get_services(&self) -> (reply: Reply<Vec<String>>)
        ensures
            reply@ == self@.get_services(),
            self@.is_connected() ==> forall|i: int|
                0 <= i < distinct_services(self@.characteristics).len() ==> Uuid::spec_parse(
                    (#[trigger] reply.value@[i])@,
                ) == Ok::<Uuid, BleErrorView>(distinct_services(self@.characteristics)[i]),
    {
        if self.state != ConnectionState::Connected {
            return Reply::failed(no_texts(), BleError::NotConnected);
        }
        let services = self.directory.list_services();
        Reply::clean(texts_of(&services))
    }

    /// The characteristics of one service as canonical texts; nothing where
    /// the handle is not connected. Each text is one that the resolver reads
    /// back as the characteristic it stands for.
    pub fn characteristics_of(&self, service: Uuid) -> (reply: Reply<Vec<String>>)
        ensures
            reply@ == self@.characteristics_of(service),
            self@.is_connected() ==> forall|i: int|
                0 <= i < characteristics_under(self@.characteristics, service).len()
                    ==> Uuid::spec_parse((#[trigger] reply.value@[i])@) == Ok::<
                    Uuid,
                    BleErrorView,
                >(characteristics_under(self@.characteristics, service)[i]),
    {
        if self.state != ConnectionState::Connected {
            return Reply::failed(no_texts(), BleError::NotConnected);
        }
        let characteristics = self.directory.list_characteristics(service);
        Reply::clean(texts_of(&characteristics))
    }

    /// The characteristics of the service that the text names; nothing where
    /// the handle is not connected or the text is malformed.
    pub fn get_characteristics(&self, service_uuid: &str) -> (reply: Reply<Vec<String>>)
        ensures
            reply@ == self@.get_characteristics(service_uuid@),
            self@.is_connected() ==> (Uuid::spec_parse(service_uuid@) matches Ok(service)
                ==> forall|i: int|
                0 <= i < characteristics_under(self@.characteristics, service).len()
                    ==> Uuid::spec_parse((#[trigger] reply.value@[i])@) == Ok::<
                    Uuid,
                    BleErrorView,
                >(characteristics_under(self@.characteristics, service)[i])),
    {
        if self.state != ConnectionState::Connected {
            return Reply::failed(no_texts(), BleError::NotConnected);
        }
        match Uuid::parse(service_uuid) {
            Err(e) => Reply::failed(no_texts(), e),
            Ok(service) => self.characteristics_of(service),
        }
    }
}

/// Every operation leaves a well-formed handle well-formed.
pub proof fn lemma_operations_keep_well_formed(
    device: DeviceView,
    outcome: bool,
    found: Option<Seq<CharacteristicEntry>>,
)
    requires
        device.well_formed(),
    ensures
        device.connect().0.well_formed(),
        device.connect_result(outcome).0.well_formed(),
        device.discovery_result(found).0.well_formed(),
        device.disconnect().0.well_formed(),
        device.disconnect_result(outcome).0.well_formed(),
{
}

/// A malformed UUID text stops a read, a write and an enumeration before the
/// bridge is asked for anything: the caller receives no bytes, `false` or no
/// texts, with the reason beside it.
pub proof fn lemma_malformed_uuid_is_refused(
    device: DeviceView,
    service: Seq<char>,
    characteristic: Seq<char>,
    payload: Seq<u8>,
)
    requires
        Uuid::is_malformed(service) || Uuid::is_malformed(characteristic),
    ensures
        device.resolve(service, characteristic) is Err,
        device.read(service, characteristic) matches StepView::Done(reply) && reply.value
            == Seq::<u8>::empty() && reply.diagnostic is Some,
        device.write(service, characteristic, payload) matches StepView::Done(reply)
            && !reply.value && reply.diagnostic is Some,
        device.is_connected() && Uuid::is_malformed(service) ==> device.read(
            service,
            characteristic,
        ) == StepView::<DeviceActionView, Seq<u8>>::refused(
            Seq::empty(),
            BleErrorView::InvalidUuid(service),
        ),
        device.is_connected() && !Uuid::is_malformed(service) ==> device.read(
            service,
            characteristic,
        ) == StepView::<DeviceActionView, Seq<u8>>::refused(
            Seq::empty(),
            BleErrorView::InvalidUuid(characteristic),
        ),
        Uuid::is_malformed(service) ==> device.get_characteristics(service).value
            == Seq::<Seq<char>>::empty() && device.get_characteristics(service).diagnostic
            is Some,
{
}

/// A handle that is not connected, in whichever other state it is, answers
/// every read, write and enumeration with the empty value and `NotConnected`.
pub proof fn lemma_not_connected_is_refused(
    device: DeviceView,
    service: Seq<char>,
    characteristic: Seq<char>,
    payload: Seq<u8>,
)
    requires
        !device.is_connected(),
    ensures
        device.read(service, characteristic) == StepView::<DeviceActionView, Seq<u8>>::refused(
            Seq::empty(),
            BleErrorView::NotConnected,
        ),
        device.write(service, characteristic, payload) == StepView::<
            DeviceActionView,
            bool,
        >::refused(false, BleErrorView::NotConnected),
        device.get_services() == ReplyView::<Seq<Seq<char>>>::failed(
            Seq::empty(),
            BleErrorView::NotConnected,
        ),
        device.get_characteristics(service) == ReplyView::<Seq<Seq<char>>>::failed(
            Seq::empty(),
            BleErrorView::NotConnected,
        ),
{
}

/// Until a connection stands and its service discovery has completed, no read
/// and no write reaches the bridge and the enumerations are empty. The handle
/// then holds no characteristic either, unless it is about to disconnect.
pub proof fn lemma_nothing_before_discovery(
    device: DeviceView,
    service: Seq<char>,
    characteristic: Seq<char>,
    payload: Seq<u8>,
)
    requires
        device.well_formed(),
        !(device.state is Connected && device.services is Discovered),
    ensures
        device.state !is Disconnecting ==> device.characteristics.len() == 0,
        device.read(service, characteristic) is Done,
        device.write(service, characteristic, payload) is Done,
        device.get_services().value.len() == 0,
        device.get_characteristics(service).value.len() == 0,
{
    if device.is_connected() {
        if let (Ok(s), Ok(c)) = (Uuid::spec_parse(service), Uuid::spec_parse(characteristic)) {
            lemma_first_position(device.characteristics, pair(s, c));
        }
        assert(services_of(device.characteristics) =~= Seq::<Uuid>::empty());
        if let Ok(s) = Uuid::spec_parse(service) {
            assert(distinct(device.characteristics) =~= Seq::<CharacteristicEntry>::empty());
            distinct(device.characteristics).lemma_filter_len(belongs_to(s));
        }
    }
}

/// The handle that a bridged, disconnected handle becomes when the link is
/// established and service discovery reports `raw`.
pub open spec fn after_discovery(device: DeviceView, raw: Seq<CharacteristicEntry>) -> DeviceView {
    device.connect().0.connect_result(true).0.discovery_result(Some(raw)).0
}

/// Connecting a bridged, disconnected handle asks for the link and then for
/// service discovery. Once discovery has reported, the handle is connected and
/// enumerates exactly the services of the reported characteristics, each once.
pub proof fn lemma_services_after_discovery(device: DeviceView, raw: Seq<CharacteristicEntry>)
    requires
        device.well_formed(),
        device.bridged,
        device.state is Disconnected,
    ensures
        device.connect().1 == StepView::<DeviceActionView, bool>::Perform(
            DeviceActionView::Connect,
        ),
        device.connect().0.connect_result(true).1 == StepView::<
            DeviceActionView,
            bool,
        >::Perform(DeviceActionView::DiscoverServices),
        device.connect().0.connect_result(true).0.discovery_result(Some(raw)).1
            == ReplyView::clean(true),
        after_discovery(device, raw).is_connected(),
        after_discovery(device, raw).characteristics == raw,
        after_discovery(device, raw).get_services() == ReplyView::clean(
            distinct_services(raw).map_values(uuid_text()),
        ),
        after_discovery(device, raw).get_services().value.no_duplicates(),
        forall|service: Uuid| #[trigger]
            after_discovery(device, raw).get_services().value.contains(hyphenated(service.value))
                <==> exists|i: int| 0 <= i < raw.len() && (#[trigger] raw[i]).service == service,
{
    let listed = distinct_services(raw);
    let texts = listed.map_values(uuid_text());
    lemma_services_deduplicated(raw);
    assert forall|i: int, j: int|
        0 <= i < texts.len() && 0 <= j < texts.len() && i != j implies texts[i] != texts[j] by {
        if texts[i] == texts[j] {
            lemma_hyphenated_injective(listed[i].value, listed[j].value);
        }
    }
    assert forall|service: Uuid| #[trigger]
        texts.contains(hyphenated(service.value)) <==> exists|i: int|
            0 <= i < raw.len() && (#[trigger] raw[i]).service == service by {
        if texts.contains(hyphenated(service.value)) {
            let k = choose|k: int| 0 <= k < texts.len() && texts[k] == hyphenated(service.value);
            lemma_hyphenated_injective(listed[k].value, service.value);
            assert(listed[k] == service);
        }
        if listed.contains(service) {
            let k = choose|k: int| 0 <= k < listed.len() && listed[k] == service;
            assert(texts[k] == hyphenated(service.value));
        }
    }
}

/// A failed discovery does not undo the connection: the handle is connected,
/// the caller is told `true`, and the handle holds no characteristic.
pub proof fn lemma_failed_discovery_keeps_connection(device: DeviceView)
    requires
        device.well_formed(),
        device.bridged,
        device.state is Disconnected,
    ensures
        device.connect().0.connect_result(true).0.discovery_result(None).1 == ReplyView::failed(
            true,
            BleErrorView::TransportError,
        ),
        device.connect().0.connect_result(true).0.discovery_result(None).0.is_connected(),
        device.connect().0.connect_result(true).0.discovery_result(None).0.characteristics.len()
            == 0,
{
}

/// A link that cannot be established leaves the handle disconnected and the
/// caller with `false` and `ConnectionFailed`.
pub proof fn lemma_failed_connect_stays_disconnected(device: DeviceView)
    requires
        device.well_formed(),
        device.bridged,
        device.state is Disconnected,
    ensures
        device.connect().0.connect_result(false).0 == device,
        device.connect().0.connect_result(false).1 == StepView::<
            DeviceActionView,
            bool,
        >::refused(false, BleErrorView::ConnectionFailed),
{
}

/// On a connected handle a UUID pair resolves to its first place in the
/// reported list, and to `CharacteristicNotFound` exactly where the list holds
/// no such pair.
pub proof fn lemma_lookup_follows_directory(
    device: DeviceView,
    service: Uuid,
    characteristic: Uuid,
)
    requires
        device.is_connected(),
    ensures
        device.characteristics.contains(pair(service, characteristic)) ==> {
            &&& device.lookup(service, characteristic) matches Ok(handle)
            &&& is_first_position(device.characteristics, pair(service, characteristic), handle)
        },
        !device.characteristics.contains(pair(service, characteristic)) ==> device.lookup(
            service,
            characteristic,
        ) == Err::<int, BleErrorView>(BleErrorView::CharacteristicNotFound),
{
    lemma_first_position(device.characteristics, pair(service, characteristic));
}

/// On a connected handle two well-formed UUID texts address what their UUIDs
/// address. A pair that the reported list does not hold stops a read and a
/// write before the bridge is asked for anything, with no bytes or `false`
/// and `CharacteristicNotFound`.
pub proof fn lemma_texts_resolve_as_their_uuids(
    device: DeviceView,
    service: Seq<char>,
    characteristic: Seq<char>,
    payload: Seq<u8>,
)
    requires
        device.is_connected(),
        Uuid::spec_parse(service) is Ok,
        Uuid::spec_parse(characteristic) is Ok,
    ensures
        ({
            let service_id = Uuid::spec_parse(service)->Ok_0;
            let characteristic_id = Uuid::spec_parse(characteristic)->Ok_0;
            let wanted = pair(service_id, characteristic_id);
            &&& device.resolve(service, characteristic) == device.lookup(
                service_id,
                characteristic_id,
            )
            &&& device.characteristics.contains(wanted) ==> {
                &&& device.read(service, characteristic) is Perform
                &&& device.write(service, characteristic, payload) is Perform
            }
            &&& !device.characteristics.contains(wanted) ==> {
                &&& device.read(service, characteristic) == StepView::<
                    DeviceActionView,
                    Seq<u8>,
                >::refused(Seq::empty(), BleErrorView::CharacteristicNotFound)
                &&& device.write(service, characteristic, payload) == StepView::<
                    DeviceActionView,
                    bool,
                >::refused(false, BleErrorView::CharacteristicNotFound)
            }
        }),
{
    lemma_lookup_follows_directory(
        device,
        Uuid::spec_parse(service)->Ok_0,
        Uuid::spec_parse(characteristic)->Ok_0,
    );
}

/// Disconnecting a connected handle asks the bridge to close the link. Once
/// the link is closed the handle is disconnected and holds no characteristic;
/// where closing fails, the handle stays connected with what it held.
pub proof fn lemma_disconnect_outcomes(device: DeviceView)
    requires
        device.well_formed(),
        device.is_connected(),
        device.services !is Discovering,
    ensures
        device.disconnect().1 == StepView::<DeviceActionView, bool>::Perform(
            DeviceActionView::Disconnect,
        ),
        device.disconnect().0.disconnect_result(true).0 == device.forgetting().with_state(
            ConnectionState::Disconnected,
        ),
        device.disconnect().0.disconnect_result(true).1 == ReplyView::clean(true),
        device.disconnect().0.disconnect_result(false).0 == device,
        device.disconnect().0.disconnect_result(false).1 == ReplyView::failed(
            false,
            BleErrorView::DisconnectionFailed,
        ),
{
}

} // verus!
