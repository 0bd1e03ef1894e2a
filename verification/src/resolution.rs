//! What a resolution comes to on a given device: the requests in the order in which they are
//! made, each failure at the place where it ends the resolution, written down without the
//! machine. The resolver, run against the device, arrives at exactly this.

use vstd::prelude::*;
use crate::binding::{bound, BindingView, ControlSetup};
use crate::descriptor::Configuration;
use crate::error::{ErrorView, TransportError};
use crate::functional_descriptor::{first_decoded, record};
use crate::protocol::{interface_string_protocol, ProtocolView};
use crate::resolver::{
    fallback_setup,
    DeviceId,
    Pending,
    Reply,
    Request,
    ResolverView,
    StepView,
    FUNCTIONAL_DESCRIPTOR_LENGTH,
};

verus! {

/// A bus with a device on it, as far as a resolution can tell: what each request comes to.
pub struct Bus {
    /// The identifiers of the devices, in list order.
    pub devices: Result<Vec<Option<DeviceId>>, TransportError>,
    /// Opening the device at a position of the list.
    pub open: spec_fn(usize) -> Result<(), TransportError>,
    /// Claiming an interface.
    pub claim: spec_fn(u8) -> Result<(), TransportError>,
    /// Selecting an alternate setting of an interface.
    pub select: spec_fn(u8, u8) -> Result<(), TransportError>,
    /// The number of configurations in the device descriptor.
    pub configurations: Result<u8, TransportError>,
    /// The languages of the string descriptors.
    pub languages: Result<Vec<u16>, TransportError>,
    /// The configuration descriptor at an index.
    pub configuration: spec_fn(u8) -> Result<Configuration, TransportError>,
    /// The string for a setting, by configuration index, interface position, setting
    /// position and language.
    pub interface_string: spec_fn(u8, usize, usize, u16) -> Result<String, TransportError>,
    /// The bytes read by a control transfer.
    pub control: spec_fn(ControlSetup, usize) -> Result<Vec<u8>, TransportError>,
}

/// The reply for an operation without a result.
pub open spec fn done(outcome: Result<(), TransportError>) -> Reply {
    match outcome {
        Ok(()) => Reply::Done,
        Err(e) => Reply::Failed(e),
    }
}

/// The end of a resolution with this outcome.
pub open spec fn ended(outcome: Result<BindingView, ErrorView>) -> StepView {
    match outcome {
        Ok(binding) => StepView::Bound(binding),
        Err(e) => StepView::Failed(e),
    }
}

impl Bus {
    /// The reply of the bus to a request.
    pub open spec fn reply(self, request: Request) -> Reply {
        match request {
            Request::ListDevices => match self.devices {
                Ok(devices) => Reply::Devices(devices),
                Err(e) => Reply::Failed(e),
            },
            Request::OpenDevice { index } => done((self.open)(index)),
            Request::ClaimInterface { iface } => done((self.claim)(iface)),
            Request::SetAlternateSetting { iface, alt } => done((self.select)(iface, alt)),
            Request::ReadDeviceDescriptor => match self.configurations {
                Ok(n) => Reply::NumConfigurations(n),
                Err(e) => Reply::Failed(e),
            },
            Request::ReadLanguages { .. } => match self.languages {
                Ok(languages) => Reply::Languages(languages),
                Err(e) => Reply::Failed(e),
            },
            Request::ReadConfigDescriptor { index } => match (self.configuration)(index) {
                Ok(config) => Reply::Config(config),
                Err(e) => Reply::Failed(e),
            },
            Request::ReadInterfaceString { language, config, interface, setting, .. } => {
                match (self.interface_string)(config, interface, setting, language) {
                    Ok(text) => Reply::Text(text),
                    Err(e) => Reply::Failed(e),
                }
            },
            Request::ReadControl { setup, length } => match (self.control)(setup, length) {
                Ok(bytes) => Reply::Data(bytes),
                Err(e) => Reply::Failed(e),
            },
        }
    }

    /// How a resolver ends on this bus, or where it stands after `fuel` requests.
    pub open spec fn run(self, resolver: ResolverView, fuel: nat) -> StepView
        decreases fuel,
    {
        if fuel == 0 {
            StepView::Ask(resolver)
        } else {
            match resolver.next(self.reply(resolver.request())) {
                StepView::Ask(after) => self.run(after, (fuel - 1) as nat),
                end => end,
            }
        }
    }

    /// What the device says of its functional descriptor when asked for it directly: `None`
    /// where it answers with bytes that hold no well-formed one.
    pub open spec fn asked_descriptor(self, iface: u8, protocol: ProtocolView) -> Option<
        Result<BindingView, ErrorView>,
    > {
        match (self.control)(fallback_setup(), FUNCTIONAL_DESCRIPTOR_LENGTH) {
            Err(e) => Some(Err(ErrorView::LibUsb(e))),
            Ok(bytes) => match record(bytes@) {
                Some(descriptor) => Some(Ok(bound(protocol, descriptor, iface))),
                None => None,
            },
        }
    }

    /// What the configuration at `index` gives: the binding, the error that ends the
    /// resolution, or `None` where the configuration is passed over. The interface string is
    /// read and judged before the functional descriptor is looked at, and the device is asked
    /// for the descriptor only where the descriptor bytes hold none. A configuration is passed
    /// over where neither the bytes nor the device give a well-formed descriptor.
    pub open spec fn configured(self, iface: u8, alt: u8, language: u16, index: u8) -> Option<
        Result<BindingView, ErrorView>,
    > {
        match (self.configuration)(index) {
            Err(e) => Some(Err(ErrorView::LibUsb(e))),
            Ok(config) => match config.located(iface, alt) {
                Err(e) => Some(Err(e@)),
                Ok((interface, setting)) => match (self.interface_string)(
                    index,
                    interface as usize,
                    setting as usize,
                    language,
                ) {
                    Err(e) => Some(Err(ErrorView::LibUsb(e))),
                    Ok(text) => match interface_string_protocol(text@) {
                        Err(e) => Some(Err(e)),
                        Ok(protocol) => match first_decoded(config.candidates()) {
                            Some(descriptor) => Some(Ok(bound(protocol, descriptor, iface))),
                            None => self.asked_descriptor(iface, protocol),
                        },
                    },
                },
            },
        }
    }

    /// What the configurations from `index` on give: that of the first that is not passed
    /// over.
    pub open spec fn searched(self, iface: u8, alt: u8, language: u16, count: u8, index: int)
        -> Result<BindingView, ErrorView>
        decreases count - index,
    {
        if 0 <= index < count {
            match self.configured(iface, alt, language, index as u8) {
                Some(outcome) => outcome,
                None => self.searched(iface, alt, language, count, index + 1),
            }
        } else {
            Err(ErrorView::NoDfuCapableDeviceFound)
        }
    }

    /// What binding an interface of the opened device gives: the interface is claimed, the
    /// alternate setting selected, the device descriptor and the languages are read, and the
    /// configurations are searched with the first language.
    pub open spec fn resolved(self, iface: u8, alt: u8) -> Result<BindingView, ErrorView> {
        match (self.claim)(iface) {
            Err(e) => Err(ErrorView::LibUsb(e)),
            Ok(()) => match (self.select)(iface, alt) {
                Err(e) => Err(ErrorView::LibUsb(e)),
                Ok(()) => match self.configurations {
                    Err(e) => Err(ErrorView::LibUsb(e)),
                    Ok(count) => match self.languages {
                        Err(e) => Err(ErrorView::LibUsb(e)),
                        Ok(languages) => if languages@.len() == 0 {
                            Err(ErrorView::MissingLanguage)
                        } else {
                            self.searched(iface, alt, languages@[0], count, 0)
                        },
                    },
                },
            },
        }
    }

    /// What opening a device by its identifiers gives: the first device of the list with
    /// these identifiers is opened, and the interface bound.
    pub open spec fn opened(self, vendor_id: u16, product_id: u16, iface: u8, alt: u8) -> Result<
        BindingView,
        ErrorView,
    > {
        match self.devices {
            Err(e) => Err(ErrorView::LibUsb(e)),
            Ok(devices) => match devices@.index_of_first(Some(DeviceId { vendor_id, product_id })) {
                None => Err(ErrorView::CouldNotOpenDevice),
                Some(index) => match (self.open)(index as usize) {
                    Err(e) => Err(ErrorView::LibUsb(e)),
                    Ok(()) => self.resolved(iface, alt),
                },
            },
        }
    }
}

/// A resolver that waits on the configuration at `index` ends, on any bus, as the search
/// from that configuration on does.
pub proof fn lemma_search_resolves(bus: Bus, resolver: ResolverView, index: u8, fuel: nat)
    requires
        resolver.pending == (Pending::Config { index }),
        index < resolver.configurations,
        fuel >= 3 * (resolver.configurations - index),
    ensures
        bus.run(resolver, fuel) == ended(
            bus.searched(
                resolver.iface,
                resolver.alt,
                resolver.language,
                resolver.configurations,
                index as int,
            ),
        ),
    decreases resolver.configurations - index,
{
    let first = resolver.next(bus.reply(resolver.request()));
    if let StepView::Ask(reading) = first {
        assert(bus.run(resolver, fuel) == bus.run(reading, (fuel - 1) as nat));
        let second = reading.next(bus.reply(reading.request()));
        if let StepView::Ask(asking) = second {
            assert(bus.run(reading, (fuel - 1) as nat) == bus.run(asking, (fuel - 2) as nat));
            let third = asking.next(bus.reply(asking.request()));
            if let StepView::Ask(onward) = third {
                assert(bus.run(asking, (fuel - 2) as nat) == bus.run(onward, (fuel - 3) as nat));
                lemma_search_resolves(bus, onward, (index + 1) as u8, (fuel - 3) as nat);
            } else if index + 1 == resolver.configurations {
                assert(bus.searched(
                    resolver.iface,
                    resolver.alt,
                    resolver.language,
                    resolver.configurations,
                    index + 1,
                ) is Err);
            }
        }
    }
}

/// Binding an interface: the resolver, run on any bus for as many requests as the largest
/// device needs, ends with what the description of the resolution gives.
pub proof fn lemma_binding_resolves(bus: Bus, iface: u8, alt: u8)
    ensures
        bus.run(ResolverView::binding(iface, alt), 3 * 255 + 4) == ended(bus.resolved(iface, alt)),
{
    let fuel: nat = 3 * 255 + 4;
    let claiming = ResolverView::binding(iface, alt);
    if let StepView::Ask(selecting) = claiming.next(bus.reply(claiming.request())) {
        assert(bus.run(claiming, fuel) == bus.run(selecting, (fuel - 1) as nat));
        if let StepView::Ask(describing) = selecting.next(bus.reply(selecting.request())) {
            assert(bus.run(selecting, (fuel - 1) as nat) == bus.run(describing, (fuel - 2) as nat));
            if let StepView::Ask(speaking) = describing.next(bus.reply(describing.request())) {
                assert(bus.run(describing, (fuel - 2) as nat) == bus.run(
                    speaking,
                    (fuel - 3) as nat,
                ));
                if let StepView::Ask(searching) = speaking.next(bus.reply(speaking.request())) {
                    assert(bus.run(speaking, (fuel - 3) as nat) == bus.run(
                        searching,
                        (fuel - 4) as nat,
                    ));
                    lemma_search_resolves(bus, searching, 0, (fuel - 4) as nat);
                }
            }
        }
    }
}

/// Opening a device: the resolver, run on any bus, ends with what the description of the
/// opening gives.
pub proof fn lemma_opening_resolves(bus: Bus, vendor_id: u16, product_id: u16, iface: u8, alt: u8)
    ensures
        bus.run(ResolverView::opening(vendor_id, product_id, iface, alt), 3 * 255 + 6) == ended(
            bus.opened(vendor_id, product_id, iface, alt),
        ),
{
    let fuel: nat = 3 * 255 + 6;
    let listing = ResolverView::opening(vendor_id, product_id, iface, alt);
    if let StepView::Ask(opening) = listing.next(bus.reply(listing.request())) {
        assert(bus.run(listing, fuel) == bus.run(opening, (fuel - 1) as nat));
        if let StepView::Ask(claiming) = opening.next(bus.reply(opening.request())) {
            assert(bus.run(opening, (fuel - 1) as nat) == bus.run(claiming, (fuel - 2) as nat));
            lemma_binding_resolves(bus, iface, alt);
        }
    }
}

} // verus!
