use dfu_libusb::{
    Configuration, ControlSetup, DeviceId, DfuLibusb, DfuProtocol, Error, FunctionalDescriptor,
    Interface, InterfaceSetting, MemoryLayout, MemoryLayoutError, Reply, Request, Resolver, Step,
    TransportError,
};

const FUNCTIONAL: [u8; 9] = [0x09, 0x21, 0x0b, 0xff, 0x00, 0x00, 0x08, 0x1a, 0x01];
const TEXT: &str = "@Internal Flash  /0x08000000/02*016Kg";

fn functional(transfer_size: u16) -> [u8; 9] {
    let mut bytes = FUNCTIONAL;
    bytes[5..7].copy_from_slice(&transfer_size.to_le_bytes());
    bytes
}

fn descriptor(transfer_size: u16) -> FunctionalDescriptor {
    FunctionalDescriptor {
        can_download: true,
        can_upload: true,
        manifestation_tolerant: false,
        will_detach: true,
        detach_timeout: 255,
        transfer_size,
        dfu_version: (0x01, 0x1a),
    }
}

fn protocol() -> DfuProtocol {
    DfuProtocol::Dfuse {
        address: 0x0800_0000,
        memory_layout: MemoryLayout { pages: vec![16384, 16384] },
    }
}

fn configuration(extra: &[u8], setting_extra: &[u8]) -> Configuration {
    Configuration {
        extra: extra.to_vec(),
        interfaces: vec![
            Interface {
                number: 1,
                settings: vec![InterfaceSetting { setting_number: 0, extra: vec![] }],
            },
            Interface {
                number: 0,
                settings: vec![
                    InterfaceSetting { setting_number: 0, extra: vec![] },
                    InterfaceSetting { setting_number: 1, extra: setting_extra.to_vec() },
                ],
            },
        ],
    }
}

/// A device that answers from a script and records what it was asked.
struct Script {
    devices: Result<Vec<Option<DeviceId>>, TransportError>,
    open: Result<(), TransportError>,
    claim: Result<(), TransportError>,
    set_alt: Result<(), TransportError>,
    num_configurations: Result<u8, TransportError>,
    languages: Result<Vec<u16>, TransportError>,
    configs: Vec<Result<Configuration, TransportError>>,
    strings: Vec<Result<String, TransportError>>,
    control: Result<Vec<u8>, TransportError>,
    asked: Vec<Request>,
    config: usize,
}

impl Script {
    fn new(configs: Vec<Configuration>) -> Script {
        Script {
            devices: Ok(vec![Some(DeviceId { vendor_id: 0x0483, product_id: 0xdf11 })]),
            open: Ok(()),
            claim: Ok(()),
            set_alt: Ok(()),
            num_configurations: Ok(configs.len() as u8),
            languages: Ok(vec![0x0409, 0x0407]),
            strings: configs.iter().map(|_| Ok(TEXT.to_string())).collect(),
            configs: configs.into_iter().map(Ok).collect(),
            control: Ok(vec![]),
            asked: vec![],
            config: 0,
        }
    }

    fn done(outcome: &Result<(), TransportError>) -> Reply {
        match outcome {
            Ok(()) => Reply::Done,
            Err(e) => Reply::Failed(*e),
        }
    }

    fn reply(&mut self, request: Request) -> Reply {
        self.asked.push(request);
        match request {
            Request::ListDevices => match &self.devices {
                Ok(devices) => Reply::Devices(devices.clone()),
                Err(e) => Reply::Failed(*e),
            },
            Request::OpenDevice { .. } => Script::done(&self.open),
            Request::ClaimInterface { .. } => Script::done(&self.claim),
            Request::SetAlternateSetting { .. } => Script::done(&self.set_alt),
            Request::ReadDeviceDescriptor => match self.num_configurations {
                Ok(n) => Reply::NumConfigurations(n),
                Err(e) => Reply::Failed(e),
            },
            Request::ReadLanguages { .. } => match &self.languages {
                Ok(languages) => Reply::Languages(languages.clone()),
                Err(e) => Reply::Failed(*e),
            },
            Request::ReadConfigDescriptor { index } => {
                self.config = index as usize;
                match &self.configs[self.config] {
                    Ok(config) => Reply::Config(config.clone()),
                    Err(e) => Reply::Failed(*e),
                }
            }
            Request::ReadInterfaceString { .. } => match &self.strings[self.config] {
                Ok(text) => Reply::Text(text.clone()),
                Err(e) => Reply::Failed(*e),
            },
            Request::ReadControl { .. } => match &self.control {
                Ok(bytes) => Reply::Data(bytes.clone()),
                Err(e) => Reply::Failed(*e),
            },
        }
    }

    fn run(&mut self, mut resolver: Resolver) -> Result<DfuLibusb, Error> {
        for _ in 0..1000 {
            let reply = self.reply(resolver.request());
            resolver = match resolver.answer(reply) {
                Step::Ask(next) => next,
                Step::Bound(binding) => return Ok(binding),
                Step::Failed(e) => return Err(e),
            };
        }
        panic!("the resolution does not end");
    }

    fn bind(&mut self) -> Result<DfuLibusb, Error> {
        self.run(DfuLibusb::from_usb_device(0, 1))
    }
}

const READ_FUNCTIONAL: Request = Request::ReadControl {
    setup: ControlSetup {
        request_type: 0x80,
        request: 0x06,
        value: 0x2100,
        index: 0,
        timeout_ms: 3000,
    },
    length: 9,
};

#[test]
fn binding_from_descriptor_bytes() {
    let mut script = Script::new(vec![configuration(&[], &FUNCTIONAL)]);
    let bound = script.bind().unwrap();
    assert_eq!(bound, DfuLibusb::new(protocol(), descriptor(2048), 0));
    assert_eq!(
        script.asked,
        vec![
            Request::ClaimInterface { iface: 0 },
            Request::SetAlternateSetting { iface: 0, alt: 1 },
            Request::ReadDeviceDescriptor,
            Request::ReadLanguages { timeout_ms: 3000 },
            Request::ReadConfigDescriptor { index: 0 },
            Request::ReadInterfaceString {
                language: 0x0409,
                config: 0,
                interface: 1,
                setting: 1,
                timeout_ms: 3000,
            },
        ]
    );
}

#[test]
fn open_starts_with_the_device_list() {
    let mut script = Script::new(vec![configuration(&FUNCTIONAL, &[])]);
    script.devices = Ok(vec![
        Some(DeviceId { vendor_id: 0x0483, product_id: 0x5740 }),
        None,
        Some(DeviceId { vendor_id: 0x1234, product_id: 0xdf11 }),
        Some(DeviceId { vendor_id: 0x0483, product_id: 0xdf11 }),
        Some(DeviceId { vendor_id: 0x0483, product_id: 0xdf11 }),
    ]);
    let bound = script.run(DfuLibusb::open(0x0483, 0xdf11, 0, 1)).unwrap();
    assert_eq!(bound, DfuLibusb::new(protocol(), descriptor(2048), 0));
    assert_eq!(
        script.asked[..3],
        [
            Request::ListDevices,
            Request::OpenDevice { index: 3 },
            Request::ClaimInterface { iface: 0 }
        ]
    );
}

#[test]
fn open_without_a_matching_device() {
    for devices in [
        vec![],
        vec![None],
        vec![
            Some(DeviceId { vendor_id: 0x0483, product_id: 0x5740 }),
            Some(DeviceId { vendor_id: 0xdf11, product_id: 0x0483 }),
        ],
    ] {
        let mut script = Script::new(vec![configuration(&FUNCTIONAL, &[])]);
        script.devices = Ok(devices);
        assert_eq!(
            script.run(DfuLibusb::open(0x0483, 0xdf11, 0, 1)),
            Err(Error::CouldNotOpenDevice)
        );
        assert_eq!(script.asked, vec![Request::ListDevices]);
    }
}

#[test]
fn descriptor_bytes_are_chosen_over_the_device() {
    let mut script = Script::new(vec![configuration(&functional(64), &functional(128))]);
    script.control = Ok(functional(256).to_vec());
    let bound = script.bind().unwrap();
    assert_eq!(bound.functional_descriptor().transfer_size, 64);
    assert!(!script.asked.contains(&READ_FUNCTIONAL));

    let mut script = Script::new(vec![configuration(&[], &functional(128))]);
    script.control = Ok(functional(256).to_vec());
    let bound = script.bind().unwrap();
    assert_eq!(bound.functional_descriptor().transfer_size, 128);
    assert!(!script.asked.contains(&READ_FUNCTIONAL));
}

#[test]
fn device_is_asked_when_the_bytes_hold_no_descriptor() {
    let mut script = Script::new(vec![configuration(&[], &[])]);
    script.control = Ok(functional(256).to_vec());
    let bound = script.bind().unwrap();
    assert_eq!(bound, DfuLibusb::new(protocol(), descriptor(256), 0));
    assert_eq!(script.asked.last(), Some(&READ_FUNCTIONAL));
}

#[test]
fn failed_request_for_the_descriptor_is_reported() {
    let mut script = Script::new(vec![configuration(&[], &[]), configuration(&FUNCTIONAL, &[])]);
    script.control = Err(TransportError::Pipe);
    assert_eq!(script.bind(), Err(Error::LibUsb(TransportError::Pipe)));
    assert_eq!(script.asked.last(), Some(&READ_FUNCTIONAL));
}

#[test]
fn next_configuration_is_tried_without_a_descriptor() {
    let mut script = Script::new(vec![
        configuration(&[], &[]),
        configuration(&[], &[0x09, 0x22]),
        configuration(&[], &functional(512)),
        configuration(&functional(1024), &[]),
    ]);
    script.control = Ok(vec![0x09, 0x22, 0, 0, 0, 0, 0, 0, 0]);
    let bound = script.bind().unwrap();
    assert_eq!(bound.functional_descriptor().transfer_size, 512);
    let configs: Vec<Request> = script
        .asked
        .iter()
        .copied()
        .filter(|request| matches!(request, Request::ReadConfigDescriptor { .. }))
        .collect();
    assert_eq!(
        configs,
        vec![
            Request::ReadConfigDescriptor { index: 0 },
            Request::ReadConfigDescriptor { index: 1 },
            Request::ReadConfigDescriptor { index: 2 },
        ]
    );
    assert_eq!(script.asked.iter().filter(|request| **request == READ_FUNCTIONAL).count(), 2);
}

#[test]
fn no_configuration_with_a_descriptor() {
    let mut script = Script::new(vec![configuration(&[], &[]), configuration(&[], &[])]);
    assert_eq!(script.bind(), Err(Error::NoDfuCapableDeviceFound));
    assert_eq!(script.asked.len(), 4 + 2 * 3);

    let mut script = Script::new(vec![]);
    assert_eq!(script.bind(), Err(Error::NoDfuCapableDeviceFound));
    assert_eq!(script.asked.len(), 4);
}

#[test]
fn malformed_descriptor_is_passed_over_for_a_later_one() {
    let mut script = Script::new(vec![configuration(&FUNCTIONAL[..3], &functional(128))]);
    let bound = script.bind().unwrap();
    assert_eq!(bound.functional_descriptor().transfer_size, 128);
    assert!(!script.asked.contains(&READ_FUNCTIONAL));
}

#[test]
fn malformed_descriptor_in_the_bytes_leaves_the_device_to_ask() {
    let mut script = Script::new(vec![configuration(&[], &FUNCTIONAL[..5])]);
    script.control = Ok(functional(256).to_vec());
    let bound = script.bind().unwrap();
    assert_eq!(bound.functional_descriptor().transfer_size, 256);
    assert_eq!(script.asked.last(), Some(&READ_FUNCTIONAL));
}

#[test]
fn malformed_answer_of_the_device_passes_the_configuration_over() {
    let mut script = Script::new(vec![configuration(&[], &[])]);
    script.control = Ok(FUNCTIONAL[..8].to_vec());
    assert_eq!(script.bind(), Err(Error::NoDfuCapableDeviceFound));

    let mut script =
        Script::new(vec![configuration(&[], &FUNCTIONAL[..5]), configuration(&[], &FUNCTIONAL)]);
    script.control = Ok(FUNCTIONAL[..8].to_vec());
    let bound = script.bind().unwrap();
    assert_eq!(bound, DfuLibusb::new(protocol(), descriptor(2048), 0));
    assert!(script.asked.contains(&Request::ReadConfigDescriptor { index: 1 }));
}

#[test]
fn interface_string_is_judged_before_the_descriptor() {
    let mut script = Script::new(vec![configuration(&[], &FUNCTIONAL[..5])]);
    script.strings[0] = Ok("@Flash/0x08000000/02+016Kg".to_string());
    assert_eq!(
        script.bind(),
        Err(Error::MemoryLayout(MemoryLayoutError::InvalidPageFormat("02+016Kg".to_string())))
    );
    script.asked.clear();
    script.strings[0] = Ok("@Flash 0x08000000 02*016Kg".to_string());
    assert_eq!(script.bind(), Err(Error::InvalidInterfaceString));
    script.strings[0] = Ok("@Flash/8000000/02*016Kg".to_string());
    assert_eq!(script.bind(), Err(Error::InvalidAddress));
    script.strings[0] = Err(TransportError::InvalidParam);
    assert_eq!(script.bind(), Err(Error::LibUsb(TransportError::InvalidParam)));
}

#[test]
fn missing_interface_or_setting() {
    let mut script = Script::new(vec![configuration(&FUNCTIONAL, &[])]);
    assert_eq!(script.run(DfuLibusb::from_usb_device(2, 0)), Err(Error::InvalidInterface));
    assert_eq!(script.asked.last(), Some(&Request::ReadConfigDescriptor { index: 0 }));
    assert_eq!(script.run(DfuLibusb::from_usb_device(1, 1)), Err(Error::InvalidAlt));
    assert_eq!(script.run(DfuLibusb::from_usb_device(0, 2)), Err(Error::InvalidAlt));
}

#[test]
fn device_without_languages() {
    let mut script = Script::new(vec![configuration(&FUNCTIONAL, &[])]);
    script.languages = Ok(vec![]);
    assert_eq!(script.bind(), Err(Error::MissingLanguage));
    assert_eq!(script.asked.last(), Some(&Request::ReadLanguages { timeout_ms: 3000 }));

    let mut script = Script::new(vec![]);
    script.languages = Ok(vec![]);
    assert_eq!(script.bind(), Err(Error::MissingLanguage));
}

#[test]
fn failure_on_the_bus_ends_the_resolution() {
    let configs = || vec![configuration(&[], &[])];
    let expected = Err(Error::LibUsb(TransportError::Busy));

    let mut script = Script::new(configs());
    script.devices = Err(TransportError::Busy);
    assert_eq!(script.run(DfuLibusb::open(0x0483, 0xdf11, 0, 1)), expected);
    assert_eq!(script.asked.len(), 1);

    let mut script = Script::new(configs());
    script.open = Err(TransportError::Busy);
    assert_eq!(script.run(DfuLibusb::open(0x0483, 0xdf11, 0, 1)), expected);
    assert_eq!(script.asked.len(), 2);

    let mut script = Script::new(configs());
    script.claim = Err(TransportError::Busy);
    assert_eq!(script.bind(), expected);
    assert_eq!(script.asked.len(), 1);

    let mut script = Script::new(configs());
    script.set_alt = Err(TransportError::Busy);
    assert_eq!(script.bind(), expected);
    assert_eq!(script.asked.len(), 2);

    let mut script = Script::new(configs());
    script.num_configurations = Err(TransportError::Busy);
    assert_eq!(script.bind(), expected);
    assert_eq!(script.asked.len(), 3);

    let mut script = Script::new(configs());
    script.languages = Err(TransportError::Busy);
    assert_eq!(script.bind(), expected);
    assert_eq!(script.asked.len(), 4);

    let mut script = Script::new(configs());
    script.configs[0] = Err(TransportError::Busy);
    assert_eq!(script.bind(), expected);
    assert_eq!(script.asked.len(), 5);

    let mut script = Script::new(configs());
    script.strings[0] = Err(TransportError::Busy);
    assert_eq!(script.bind(), expected);
    assert_eq!(script.asked.len(), 6);

    let mut script = Script::new(configs());
    script.control = Err(TransportError::Busy);
    assert_eq!(script.bind(), expected);
    assert_eq!(script.asked.len(), 7);
}

#[test]
fn later_configuration_is_not_read_after_an_error() {
    let mut script = Script::new(vec![configuration(&[], &[]), configuration(&FUNCTIONAL, &[])]);
    script.strings[0] = Ok("no separators".to_string());
    assert_eq!(script.bind(), Err(Error::InvalidInterfaceString));
    assert!(!script.asked.contains(&Request::ReadConfigDescriptor { index: 1 }));
}

#[test]
fn first_language_is_used() {
    let mut script = Script::new(vec![configuration(&FUNCTIONAL, &[])]);
    script.languages = Ok(vec![0x0407, 0x0409]);
    script.bind().unwrap();
    assert_eq!(
        script.asked.last(),
        Some(&Request::ReadInterfaceString {
            language: 0x0407,
            config: 0,
            interface: 1,
            setting: 1,
            timeout_ms: 3000,
        })
    );
}

#[test]
fn reply_of_another_kind_is_ignored() {
    let resolver = DfuLibusb::from_usb_device(0, 1);
    let resolver = match resolver.answer(Reply::NumConfigurations(1)) {
        Step::Ask(resolver) => resolver,
        step => panic!("{:?}", step),
    };
    assert_eq!(resolver.request(), Request::ClaimInterface { iface: 0 });
    let resolver = match resolver.answer(Reply::Data(FUNCTIONAL.to_vec())) {
        Step::Ask(resolver) => resolver,
        step => panic!("{:?}", step),
    };
    assert_eq!(resolver.request(), Request::ClaimInterface { iface: 0 });
    let resolver = match resolver.answer(Reply::Done) {
        Step::Ask(resolver) => resolver,
        step => panic!("{:?}", step),
    };
    assert_eq!(resolver.request(), Request::SetAlternateSetting { iface: 0, alt: 1 });
    let resolver = match resolver.answer(Reply::Text(TEXT.to_string())) {
        Step::Ask(resolver) => resolver,
        step => panic!("{:?}", step),
    };
    assert_eq!(resolver.request(), Request::SetAlternateSetting { iface: 0, alt: 1 });
}

#[test]
fn device_with_the_most_configurations() {
    let mut script = Script::new((0..255).map(|_| configuration(&[], &[])).collect());
    assert_eq!(script.bind(), Err(Error::NoDfuCapableDeviceFound));
    assert_eq!(script.asked.len(), 4 + 255 * 3);
    assert_eq!(script.asked[4 + 254 * 3], Request::ReadConfigDescriptor { index: 254 });
}
