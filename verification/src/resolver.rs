//! Resolution of a device into a binding, as a machine without I/O: it names the next
//! request to make on the bus, takes the reply, and ends with a binding or an error. The
//! caller performs the requests.

use vstd::prelude::*;
use crate::binding::{
    bound,
    endpoint_in,
    request_get_descriptor,
    BindingView,
    ControlSetup,
    DfuLibusb,
    TIMEOUT_MS,
};
use crate::descriptor::Configuration;
use crate::error::{Error, ErrorView, TransportError};
use crate::functional_descriptor::{decode_record, first_decoded, record, FunctionalDescriptor};
use crate::protocol::{interface_string_protocol, DfuProtocol, ProtocolView};

verus! {

/// Vendor and product identifiers of a device.
#[derive(Debug, Clone, Copy, PartialEq, Eq, Structural)]
pub struct DeviceId {
    /// The vendor identifier.
    pub vendor_id: u16,
    /// The product identifier.
    pub product_id: u16,
}

/// Value of the descriptor request that asks for a DFU functional descriptor.
pub const FUNCTIONAL_DESCRIPTOR_VALUE: u16 = 0x2100;

/// Number of bytes asked for by that request.
pub const FUNCTIONAL_DESCRIPTOR_LENGTH: usize = 9;

/// What the caller is to do next.
#[derive(Debug, Clone, Copy, PartialEq, Eq)]
pub enum Request {
    /// List the devices on the bus and read the identifiers of each.
    ListDevices,
    /// Open the device at this position of the list.
    OpenDevice { index: usize },
    /// Claim the interface.
    ClaimInterface { iface: u8 },
    /// Select the alternate setting of the interface.
    SetAlternateSetting { iface: u8, alt: u8 },
    /// Read the device descriptor.
    ReadDeviceDescriptor,
    /// Read the languages of the device's string descriptors.
    ReadLanguages { timeout_ms: u64 },
    /// Read the configuration descriptor at this index.
    ReadConfigDescriptor { index: u8 },
    /// Read, in this language, the string that describes the alternate setting at position
    /// `setting` of the interface at position `interface` of the configuration at index
    /// `config`, which is the one read last.
    ReadInterfaceString {
        language: u16,
        config: u8,
        interface: usize,
        setting: usize,
        timeout_ms: u64,
    },
    /// Make this control transfer from the device, with room for `length` bytes.
    ReadControl { setup: ControlSetup, length: usize },
}

/// What came of a request.
#[derive(Debug, Clone, PartialEq, Eq)]
pub enum Reply {
    /// The identifiers of the devices on the bus, in list order; `None` for a device whose
    /// descriptor could not be read.
    Devices(Vec<Option<DeviceId>>),
    /// The device was opened, the interface claimed or the alternate setting selected.
    Done,
    /// The number of configurations that the device descriptor gives.
    NumConfigurations(u8),
    /// The identifiers of the languages.
    Languages(Vec<u16>),
    /// The configuration descriptor.
    Config(Configuration),
    /// The interface string.
    Text(String),
    /// The bytes that a control transfer read.
    Data(Vec<u8>),
    /// The request failed on the bus.
    Failed(TransportError),
}

/// The request that a resolver waits on, with what it has gathered for the next decision.
pub enum Pending {
    /// The list of devices, to find these identifiers in.
    Devices { vendor_id: u16, product_id: u16 },
    /// The opening of the device at this position.
    Open { index: usize },
    /// The claim of the interface.
    Claim,
    /// The selection of the alternate setting.
    SetAlt,
    /// The device descriptor.
    DeviceDescriptor,
    /// The languages.
    Languages,
    /// The configuration descriptor at this index.
    Config { index: u8 },
    /// The interface string of the setting at these positions of configuration `index`, in
    /// whose descriptor bytes this functional descriptor was found, or none.
    InterfaceString {
        index: u8,
        interface: usize,
        setting: usize,
        found: Option<FunctionalDescriptor>,
    },
    /// The functional descriptor that the device is asked for directly, configuration
    /// `index` having given this protocol and no functional descriptor.
    Fallback { index: u8, protocol: ProtocolView },
}

/// A resolver as a mathematical value.
pub struct ResolverView {
    /// Number of the interface to bind.
    pub iface: u8,
    /// Number of its alternate setting.
    pub alt: u8,
    /// The device's first language, once it is known.
    pub language: u16,
    /// The number of configurations, once it is known.
    pub configurations: u8,
    /// What the resolver waits on.
    pub pending: Pending,
}

/// How a resolution goes on after a reply.
pub enum StepView {
    /// With another request.
    Ask(ResolverView),
    /// It ended with this binding.
    Bound(BindingView),
    /// It ended with this error.
    Failed(ErrorView),
}

/// Whether `reply` is of a kind that `request` calls for. A failure on the bus answers every
/// request.
pub open spec fn answers(request: Request, reply: Reply) -> bool {
    reply is Failed || match request {
        Request::ListDevices => reply is Devices,
        Request::OpenDevice { .. } => reply is Done,
        Request::ClaimInterface { .. } => reply is Done,
        Request::SetAlternateSetting { .. } => reply is Done,
        Request::ReadDeviceDescriptor => reply is NumConfigurations,
        Request::ReadLanguages { .. } => reply is Languages,
        Request::ReadConfigDescriptor { .. } => reply is Config,
        Request::ReadInterfaceString { .. } => reply is Text,
        Request::ReadControl { .. } => reply is Data,
    }
}

/// The control transfer that asks the device for its functional descriptor.
pub open spec fn fallback_setup() -> ControlSetup {
    ControlSetup {
        request_type: 0x80,
        request: 0x06,
        value: FUNCTIONAL_DESCRIPTOR_VALUE,
        index: 0,
        timeout_ms: TIMEOUT_MS,
    }
}

/// What follows configuration `index` where it gave no functional descriptor: the next
/// configuration, or the end of the search.
pub open spec fn after_configuration(resolver: ResolverView, index: u8) -> StepView {
    if index + 1 < resolver.configurations {
        StepView::Ask(
            ResolverView { pending: Pending::Config { index: (index + 1) as u8 }, ..resolver },
        )
    } else {
        StepView::Failed(ErrorView::NoDfuCapableDeviceFound)
    }
}

/// What the search for a functional descriptor makes of a configuration whose interface
/// string gave `protocol`: the binding where a descriptor was found, and `otherwise` where
/// none was.
pub open spec fn concluded(
    resolver: ResolverView,
    protocol: ProtocolView,
    found: Option<FunctionalDescriptor>,
    otherwise: StepView,
) -> StepView {
    match found {
        Some(descriptor) => StepView::Bound(bound(protocol, descriptor, resolver.iface)),
        None => otherwise,
    }
}

impl ResolverView {
    /// The resolver that binds an interface of an opened device, before its first request.
    pub open spec fn binding(iface: u8, alt: u8) -> ResolverView {
        ResolverView { iface, alt, language: 0, configurations: 0, pending: Pending::Claim }
    }

    /// The resolver that opens a device by its identifiers, before its first request.
    pub open spec fn opening(vendor_id: u16, product_id: u16, iface: u8, alt: u8) -> ResolverView {
        ResolverView {
            iface,
            alt,
            language: 0,
            configurations: 0,
            pending: Pending::Devices { vendor_id, product_id },
        }
    }

    /// Whether the configuration that the resolver works on exists.
    pub open spec fn wf(self) -> bool {
        match self.pending {
            Pending::Config { index } => index < self.configurations,
            Pending::InterfaceString { index, .. } => index < self.configurations,
            Pending::Fallback { index, .. } => index < self.configurations,
            _ => true,
        }
    }

    /// The request that the resolver waits on.
    pub open spec fn request(self) -> Request {
        match self.pending {
            Pending::Devices { .. } => Request::ListDevices,
            Pending::Open { index } => Request::OpenDevice { index },
            Pending::Claim => Request::ClaimInterface { iface: self.iface },
            Pending::SetAlt => Request::SetAlternateSetting { iface: self.iface, alt: self.alt },
            Pending::DeviceDescriptor => Request::ReadDeviceDescriptor,
            Pending::Languages => Request::ReadLanguages { timeout_ms: TIMEOUT_MS },
            Pending::Config { index } => Request::ReadConfigDescriptor { index },
            Pending::InterfaceString { index, interface, setting, .. } => {
                Request::ReadInterfaceString {
                    language: self.language,
                    config: index,
                    interface,
                    setting,
                    timeout_ms: TIMEOUT_MS,
                }
            },
            Pending::Fallback { .. } => Request::ReadControl {
                setup: fallback_setup(),
                length: FUNCTIONAL_DESCRIPTOR_LENGTH,
            },
        }
    }

    /// The resolver with another request pending.
    pub open spec fn waiting_on(self, pending: Pending) -> StepView {
        StepView::Ask(ResolverView { pending, ..self })
    }

    /// How the resolution goes on after `reply`. A failure on the bus ends it, whatever was
    /// pending. A reply of the kind that the pending request calls for is acted on as the
    /// arms below say. Any other reply changes nothing: the same request stays pending.
    pub open spec fn next(self, reply: Reply) -> StepView {
        match (self.pending, reply) {
            (_, Reply::Failed(e)) => StepView::Failed(ErrorView::LibUsb(e)),
            (Pending::Devices { vendor_id, product_id }, Reply::Devices(devices)) => {
                match devices@.index_of_first(Some(DeviceId { vendor_id, product_id })) {
                    Some(index) => self.waiting_on(Pending::Open { index: index as usize }),
                    None => StepView::Failed(ErrorView::CouldNotOpenDevice),
                }
            },
            (Pending::Open { .. }, Reply::Done) => self.waiting_on(Pending::Claim),
            (Pending::Claim, Reply::Done) => self.waiting_on(Pending::SetAlt),
            (Pending::SetAlt, Reply::Done) => self.waiting_on(Pending::DeviceDescriptor),
            (Pending::DeviceDescriptor, Reply::NumConfigurations(n)) => StepView::Ask(
                ResolverView { configurations: n, pending: Pending::Languages, ..self },
            ),
            (Pending::Languages, Reply::Languages(languages)) => {
                if languages@.len() == 0 {
                    StepView::Failed(ErrorView::MissingLanguage)
                } else if self.configurations == 0 {
                    StepView::Failed(ErrorView::NoDfuCapableDeviceFound)
                } else {
                    StepView::Ask(
                        ResolverView {
                            language: languages@[0],
                            pending: Pending::Config { index: 0 },
                            ..self
                        },
                    )
                }
            },
            (Pending::Config { index }, Reply::Config(config)) => {
                match config.located(self.iface, self.alt) {
                    Err(e) => StepView::Failed(e@),
                    Ok((interface, setting)) => self.waiting_on(
                        Pending::InterfaceString {
                            index,
                            interface: interface as usize,
                            setting: setting as usize,
                            found: first_decoded(config.candidates()),
                        },
                    ),
                }
            },
            (Pending::InterfaceString { index, found, .. }, Reply::Text(text)) => {
                match interface_string_protocol(text@) {
                    Err(e) => StepView::Failed(e),
                    Ok(protocol) => concluded(
                        self,
                        protocol,
                        found,
                        self.waiting_on(Pending::Fallback { index, protocol }),
                    ),
                }
            },
            (Pending::Fallback { index, protocol }, Reply::Data(bytes)) => concluded(
                self,
                protocol,
                record(bytes@),
                after_configuration(self, index),
            ),
            _ => StepView::Ask(self),
        }
    }

    /// A bound on the number of replies that the resolution can still act on.
    pub open spec fn remaining(self) -> nat {
        match self.pending {
            Pending::Devices { .. } => 3 * 255 + 6,
            Pending::Open { .. } => 3 * 255 + 5,
            Pending::Claim => 3 * 255 + 4,
            Pending::SetAlt => 3 * 255 + 3,
            Pending::DeviceDescriptor => 3 * 255 + 2,
            Pending::Languages => 3 * 255 + 1,
            Pending::Config { index } => (3 * (self.configurations - index)) as nat,
            Pending::InterfaceString { index, .. } => (3 * (self.configurations - index)
                - 1) as nat,
            Pending::Fallback { index, .. } => (3 * (self.configurations - index) - 2) as nat,
        }
    }
}

/// What a resolver waits on, with what it holds for the next decision.
#[derive(Debug, Clone, PartialEq, Eq)]
enum Stage {
    Devices { vendor_id: u16, product_id: u16 },
    Open { index: usize },
    Claim,
    SetAlt,
    DeviceDescriptor,
    Languages,
    Config { index: u8 },
    InterfaceString {
        index: u8,
        interface: usize,
        setting: usize,
        found: Option<FunctionalDescriptor>,
    },
    Fallback { index: u8, protocol: DfuProtocol },
}

impl View for Stage {
    type V = Pending;

    closed spec fn view(&self) -> Pending {
        match self {
            Stage::Devices { vendor_id, product_id } => Pending::Devices {
                vendor_id: *vendor_id,
                product_id: *product_id,
            },
            Stage::Open { index } => Pending::Open { index: *index },
            Stage::Claim => Pending::Claim,
            Stage::SetAlt => Pending::SetAlt,
            Stage::DeviceDescriptor => Pending::DeviceDescriptor,
            Stage::Languages => Pending::Languages,
            Stage::Config { index } => Pending::Config { index: *index },
            Stage::InterfaceString { index, interface, setting, found } => {
                Pending::InterfaceString {
                    index: *index,
                    interface: *interface,
                    setting: *setting,
                    found: *found,
                }
            },
            Stage::Fallback { index, protocol } => Pending::Fallback {
                index: *index,
                protocol: protocol@,
            },
        }
    }
}

/// A resolution in progress.
#[derive(Debug, PartialEq, Eq)]
pub struct Resolver {
    iface: u8,
    alt: u8,
    language: u16,
    configurations: u8,
    stage: Stage,
}

impl View for Resolver {
    type V = ResolverView;

    closed spec fn view(&self) -> ResolverView {
        ResolverView {
            iface: self.iface,
            alt: self.alt,
            language: self.language,
            configurations: self.configurations,
            pending: self.stage@,
        }
    }
}

/// How a resolution goes on after a reply.
#[derive(Debug, PartialEq, Eq)]
pub enum Step {
    /// With the request of this resolver.
    Ask(Resolver),
    /// It ended with this binding.
    Bound(DfuLibusb),
    /// It ended with this error.
    Failed(Error),
}

impl View for Step {
    type V = StepView;

    open spec fn view(&self) -> StepView {
        match self {
            Step::Ask(resolver) => StepView::Ask(resolver@),
            Step::Bound(binding) => StepView::Bound(binding@),
            Step::Failed(e) => StepView::Failed(e@),
        }
    }
}

/// Position of the first device with these identifiers.
fn first_device(devices: &Vec<Option<DeviceId>>, vendor_id: u16, product_id: u16) -> (res: Option<
    usize,
>)
    ensures
        match res {
            Some(i) => devices@.index_of_first(Some(DeviceId { vendor_id, product_id })) == Some(
                i as int,
            ),
            None => devices@.index_of_first(Some(DeviceId { vendor_id, product_id })) is None,
        },
{
    let ghost wanted = Some(DeviceId { vendor_id, product_id });
    let mut i: usize = 0;
    while i < devices.len()
        invariant
            i <= devices@.len(),
            wanted == Some(DeviceId { vendor_id, product_id }),
            forall|k: int| 0 <= k < i ==> devices@[k] != wanted,
        decreases devices@.len() - i,
    {
        let hit = match devices[i] {
            Some(id) => id.vendor_id == vendor_id && id.product_id == product_id,
            None => false,
        };
        if hit {
            proof {
                devices@.index_of_first_ensures(wanted);
            }
            return Some(i);
        }
        i = i + 1;
    }
    proof {
        devices@.index_of_first_ensures(wanted);
    }
    None
}

impl Resolver {
    #[verifier::type_invariant]
    spec fn inv(&self) -> bool {
        self@.wf()
    }

    /// The request to make next.
    pub fn request(&self) -> (res: Request)
        ensures
            res == self@.request(),
    {
        match &self.stage {
            Stage::Devices { .. } => Request::ListDevices,
            Stage::Open { index } => Request::OpenDevice { index: *index },
            Stage::Claim => Request::ClaimInterface { iface: self.iface },
            Stage::SetAlt => Request::SetAlternateSetting { iface: self.iface, alt: self.alt },
            Stage::DeviceDescriptor => Request::ReadDeviceDescriptor,
            Stage::Languages => Request::ReadLanguages { timeout_ms: TIMEOUT_MS },
            Stage::Config { index } => Request::ReadConfigDescriptor { index: *index },
            Stage::InterfaceString { index, interface, setting, .. } => {
                Request::ReadInterfaceString {
                    language: self.language,
                    config: *index,
                    interface: *interface,
                    setting: *setting,
                    timeout_ms: TIMEOUT_MS,
                }
            },
            Stage::Fallback { .. } => Request::ReadControl {
                setup: ControlSetup {
                    request_type: endpoint_in(),
                    request: request_get_descriptor(),
                    value: FUNCTIONAL_DESCRIPTOR_VALUE,
                    index: 0,
                    timeout_ms: TIMEOUT_MS,
                },
                length: FUNCTIONAL_DESCRIPTOR_LENGTH,
            },
        }
    }

    /// Takes the reply to the pending request and says how the resolution goes on.
    pub fn answer(self, reply: Reply) -> (step: Step)
        ensures
            step@ == self@.next(reply),
            self@.wf(),
            step@ matches StepView::Ask(after) ==> after.wf(),
    {
        proof {
            use_type_invariant(&self);
        }
        let Resolver { iface, alt, language, configurations, stage } = self;
        match (stage, reply) {
            (_, Reply::Failed(e)) => Step::Failed(Error::LibUsb(e)),
            (Stage::Devices { vendor_id, product_id }, Reply::Devices(devices)) => {
                match first_device(&devices, vendor_id, product_id) {
                    Some(index) => {
                        let stage = Stage::Open { index };
                        Step::Ask(Resolver { iface, alt, language, configurations, stage })
                    },
                    None => Step::Failed(Error::CouldNotOpenDevice),
                }
            },
            (Stage::Open { .. }, Reply::Done) => Step::Ask(
                Resolver { iface, alt, language, configurations, stage: Stage::Claim },
            ),
            (Stage::Claim, Reply::Done) => Step::Ask(
                Resolver { iface, alt, language, configurations, stage: Stage::SetAlt },
            ),
            (Stage::SetAlt, Reply::Done) => Step::Ask(
                Resolver { iface, alt, language, configurations, stage: Stage::DeviceDescriptor },
            ),
            (Stage::DeviceDescriptor, Reply::NumConfigurations(n)) => Step::Ask(
                Resolver { iface, alt, language, configurations: n, stage: Stage::Languages },
            ),
            (Stage::Languages, Reply::Languages(languages)) => {
                if languages.len() == 0 {
                    Step::Failed(Error::MissingLanguage)
                } else if configurations == 0 {
                    Step::Failed(Error::NoDfuCapableDeviceFound)
                } else {
                    Step::Ask(
                        Resolver {
                            iface,
                            alt,
                            language: languages[0],
                            configurations,
                            stage: Stage::Config { index: 0 },
                        },
                    )
                }
            },
            (Stage::Config { index }, Reply::Config(config)) => {
                match config.locate(iface, alt) {
                    Err(e) => Step::Failed(e),
                    Ok((interface, setting)) => {
                        let found = config.find_functional_descriptor();
                        let stage = Stage::InterfaceString { index, interface, setting, found };
                        Step::Ask(Resolver { iface, alt, language, configurations, stage })
                    },
                }
            },
            (Stage::InterfaceString { index, found, .. }, Reply::Text(text)) => {
                match DfuProtocol::from_interface_string(text.as_str()) {
                    Err(e) => Step::Failed(e),
                    Ok(protocol) => match found {
                        Some(descriptor) => Step::Bound(
                            DfuLibusb::new(protocol, descriptor, iface),
                        ),
                        None => Step::Ask(
                            Resolver {
                                iface,
                                alt,
                                language,
                                configurations,
                                stage: Stage::Fallback { index, protocol },
                            },
                        ),
                    },
                }
            },
            (Stage::Fallback { index, protocol }, Reply::Data(bytes)) => {
                match decode_record(bytes.as_slice()) {
                    Some(descriptor) => Step::Bound(DfuLibusb::new(protocol, descriptor, iface)),
                    None => if index < configurations - 1 {
                        Step::Ask(
                            Resolver {
                                iface,
                                alt,
                                language,
                                configurations,
                                stage: Stage::Config { index: index + 1 },
                            },
                        )
                    } else {
                        Step::Failed(Error::NoDfuCapableDeviceFound)
                    },
                }
            },
            (stage, _) => Step::Ask(Resolver { iface, alt, language, configurations, stage }),
        }
    }
}

impl DfuLibusb {
    /// The resolution of an opened device: it starts by claiming the interface.
    pub fn from_usb_device(iface: u8, alt: u8) -> (res: Resolver)
        ensures
            res@ == ResolverView::binding(iface, alt),
    {
        Resolver { iface, alt, language: 0, configurations: 0, stage: Stage::Claim }
    }

    /// The resolution of the first device on the bus with these identifiers: it starts by
    /// listing the devices.
    pub fn open(vendor_id: u16, product_id: u16, iface: u8, alt: u8) -> (res: Resolver)
        ensures
            res@ == ResolverView::opening(vendor_id, product_id, iface, alt),
    {
        Resolver {
            iface,
            alt,
            language: 0,
            configurations: 0,
            stage: Stage::Devices { vendor_id, product_id },
        }
    }
}

/// A reply that answers the pending request either ends the resolution or brings its end
/// nearer: the resolver acts on at most `remaining()` replies, however many configurations
/// the device has. A reply that does not answer the pending request leaves the resolver as
/// it was.
pub proof fn lemma_resolution_ends(resolver: ResolverView, reply: Reply)
    requires
        resolver.wf(),
    ensures
        resolver.next(reply) matches StepView::Ask(after) ==> after.wf(),
        answers(resolver.request(), reply) ==> (resolver.next(reply) matches StepView::Ask(after)
            ==> after.remaining() < resolver.remaining()),
        !answers(resolver.request(), reply) ==> resolver.next(reply) == StepView::Ask(resolver),
{
}

/// Descriptor bytes come before the bus: once the bytes of a configuration hold a functional
/// descriptor, a valid interface string ends the resolution with that descriptor, and the
/// device is never asked for one. The device is asked exactly where the bytes hold none.
pub proof fn lemma_descriptor_bytes_first(
    resolver: ResolverView,
    config: Configuration,
    text: String,
)
    requires
        resolver.wf(),
        resolver.pending is Config,
        config.located(resolver.iface, resolver.alt) is Ok,
        interface_string_protocol(text@) is Ok,
    ensures
        resolver.next(Reply::Config(config)) matches StepView::Ask(reading) && (match first_decoded(
            config.candidates(),
        ) {
            Some(descriptor) => reading.next(Reply::Text(text)) == StepView::Bound(
                bound(interface_string_protocol(text@)->Ok_0, descriptor, resolver.iface),
            ),
            None => reading.next(Reply::Text(text)) matches StepView::Ask(asking)
                && asking.request() == (Request::ReadControl {
                setup: fallback_setup(),
                length: FUNCTIONAL_DESCRIPTOR_LENGTH,
            }),
        }),
        record(config.extra@) is Some ==> first_decoded(config.candidates()) == record(
            config.extra@,
        ),
{
    crate::functional_descriptor::lemma_first_decoded_earliest(config.candidates(), 0);
}

/// Bytes from the device that hold no well-formed functional descriptor, malformed ones
/// among them, leave the configuration without one: the resolution goes on with the next
/// configuration, or ends as not capable of DFU behind the last.
pub proof fn lemma_answer_without_record(resolver: ResolverView, bytes: Vec<u8>)
    requires
        resolver.wf(),
        resolver.pending is Fallback,
        record(bytes@) is None,
    ensures
        resolver.next(Reply::Data(bytes)) == after_configuration(
            resolver,
            resolver.pending->Fallback_index,
        ),
{
}

} // verus!
