use embassy_usb::descriptor::{SynchronizationType, UsageType};
use embassy_usb::driver::{
    Bus, ControlPipe, Direction, Driver, Endpoint, EndpointAddress, EndpointAllocError,
    EndpointError, EndpointIn, EndpointInfo, EndpointOut, EndpointType, Event, Unsupported,
};
use embassy_usb::{Builder, Config};
use uac2::descriptors::{self as desc, function_layout, AltItem, EndpointKind};

// A driver that only hands out endpoint numbers; nothing is ever transferred.
struct MockDriver {
    next_in: usize,
    next_out: usize,
}

struct MockEndpoint {
    info: EndpointInfo,
}

struct MockBus;
struct MockControlPipe;

impl Endpoint for MockEndpoint {
    fn info(&self) -> &EndpointInfo {
        &self.info
    }
    async fn wait_enabled(&mut self) {
        core::future::pending::<()>().await
    }
}

impl EndpointOut for MockEndpoint {
    async fn read(&mut self, _buf: &mut [u8]) -> Result<usize, EndpointError> {
        Err(EndpointError::Disabled)
    }
}

impl EndpointIn for MockEndpoint {
    async fn write(&mut self, _buf: &[u8]) -> Result<(), EndpointError> {
        Err(EndpointError::Disabled)
    }
}

impl Bus for MockBus {
    async fn enable(&mut self) {}
    async fn disable(&mut self) {}
    async fn poll(&mut self) -> Event {
        core::future::pending::<Event>().await
    }
    fn endpoint_set_enabled(&mut self, _ep_addr: EndpointAddress, _enabled: bool) {}
    fn endpoint_set_stalled(&mut self, _ep_addr: EndpointAddress, _stalled: bool) {}
    fn endpoint_is_stalled(&mut self, _ep_addr: EndpointAddress) -> bool {
        false
    }
    async fn remote_wakeup(&mut self) -> Result<(), Unsupported> {
        Err(Unsupported)
    }
}

impl ControlPipe for MockControlPipe {
    fn max_packet_size(&self) -> usize {
        64
    }
    async fn setup(&mut self) -> [u8; 8] {
        core::future::pending::<[u8; 8]>().await
    }
    async fn data_out(&mut self, _buf: &mut [u8], _first: bool, _last: bool) -> Result<usize, EndpointError> {
        Err(EndpointError::Disabled)
    }
    async fn data_in(&mut self, _data: &[u8], _first: bool, _last: bool) -> Result<(), EndpointError> {
        Err(EndpointError::Disabled)
    }
    async fn accept(&mut self) {}
    async fn reject(&mut self) {}
    async fn accept_set_address(&mut self, _addr: u8) {}
}

impl<'a> Driver<'a> for MockDriver {
    type EndpointOut = MockEndpoint;
    type EndpointIn = MockEndpoint;
    type ControlPipe = MockControlPipe;
    type Bus = MockBus;

    fn alloc_endpoint_out(
        &mut self,
        ep_type: EndpointType,
        max_packet_size: u16,
        interval_ms: u8,
    ) -> Result<MockEndpoint, EndpointAllocError> {
        self.next_out += 1;
        let addr = EndpointAddress::from_parts(self.next_out, Direction::Out);
        Ok(MockEndpoint { info: EndpointInfo { addr, ep_type, max_packet_size, interval_ms } })
    }

    fn alloc_endpoint_in(
        &mut self,
        ep_type: EndpointType,
        max_packet_size: u16,
        interval_ms: u8,
    ) -> Result<MockEndpoint, EndpointAllocError> {
        self.next_in += 1;
        let addr = EndpointAddress::from_parts(self.next_in, Direction::In);
        Ok(MockEndpoint { info: EndpointInfo { addr, ep_type, max_packet_size, interval_ms } })
    }

    fn start(self, _control_max_packet_size: u16) -> (MockBus, MockControlPipe) {
        (MockBus, MockControlPipe)
    }
}

fn sync_type(s: desc::SynchronizationType) -> SynchronizationType {
    match s {
        desc::SynchronizationType::NoSynchronization => SynchronizationType::NoSynchronization,
        desc::SynchronizationType::Asynchronous => SynchronizationType::Asynchronous,
        desc::SynchronizationType::Adaptive => SynchronizationType::Adaptive,
        desc::SynchronizationType::Synchronous => SynchronizationType::Synchronous,
    }
}

fn usage_type(u: desc::UsageType) -> UsageType {
    match u {
        desc::UsageType::DataEndpoint => UsageType::DataEndpoint,
        desc::UsageType::FeedbackEndpoint => UsageType::FeedbackEndpoint,
        desc::UsageType::ImplicitFeedbackDataEndpoint => UsageType::ImplicitFeedbackDataEndpoint,
    }
}

// Writes the library's layout through embassy-usb's builder and returns the
// configuration descriptor it serialised.
fn serialised_configuration() -> Vec<u8> {
    let mut config_buf = [0u8; 1024];
    let mut bos_buf = [0u8; 256];
    let mut msos_buf = [0u8; 256];
    let mut control_buf = [0u8; 64];
    {
        let mut config = Config::new(0xc0de, 0xcafe);
        config.max_power = 100;
        config.max_packet_size_0 = 64;
        config.device_class = 0xEF;
        config.device_sub_class = 0x02;
        config.device_protocol = 0x01;
        config.composite_with_iads = true;
        let mut builder = Builder::new(
            MockDriver { next_in: 0, next_out: 0 },
            config,
            &mut config_buf,
            &mut bos_buf,
            &mut msos_buf,
            &mut control_buf,
        );
        let layout = function_layout();
        let mut endpoints = Vec::new();
        {
            let mut fun = builder.function(layout.class, layout.subclass, layout.protocol);
            for iface in &layout.interfaces {
                let mut int = fun.interface();
                for alt in &iface.alt_settings {
                    let mut a = int.alt_setting(alt.class, alt.subclass, alt.protocol, None);
                    for item in &alt.items {
                        match item {
                            AltItem::Descriptor(record) => a.descriptor(record[1], &record[2..]),
                            AltItem::Endpoint(ep) => endpoints.push(match ep.kind {
                                EndpointKind::InterruptIn => {
                                    a.endpoint_interrupt_in(ep.max_packet_size, ep.interval_ms)
                                }
                                EndpointKind::IsochronousIn => a.endpoint_isochronous_in(
                                    ep.max_packet_size,
                                    ep.interval_ms,
                                    sync_type(ep.sync),
                                    usage_type(ep.usage),
                                    &[],
                                ),
                                EndpointKind::IsochronousOut => a.endpoint_isochronous_out(
                                    ep.max_packet_size,
                                    ep.interval_ms,
                                    sync_type(ep.sync),
                                    usage_type(ep.usage),
                                    &[],
                                ),
                            }),
                        }
                    }
                }
            }
        }
        assert_eq!(endpoints.len(), 5);
        let device = builder.build();
        drop(device);
    }
    let total = u16::from_le_bytes([config_buf[2], config_buf[3]]) as usize;
    config_buf[..total].to_vec()
}

const CONFIGURATION_GOLDEN: [u8; 328] = [
    // configuration: total 328, 3 interfaces, value 1, bus powered, 100 mA
    0x09, 0x02, 0x48, 0x01, 0x03, 0x01, 0x00, 0x80, 0x32,
    // interface association: interfaces 0..3, audio, protocol 2.0
    0x08, 0x0B, 0x00, 0x03, 0x01, 0x00, 0x20, 0x00,
    // AudioControl interface
    0x09, 0x04, 0x00, 0x00, 0x01, 0x01, 0x01, 0x20, 0x00,
    0x09, 0x24, 0x01, 0x00, 0x02, 0x0A, 0x5D, 0x00, 0x00,
    0x08, 0x24, 0x0A, 0x04, 0x03, 0x07, 0x00, 0x00,
    0x11, 0x24, 0x02, 0x01, 0x01, 0x01, 0x00, 0x04, 0x02, 0x00, 0x00, 0x00, 0x00, 0x00, 0x00, 0x00, 0x00,
    0x12, 0x24, 0x06, 0x02, 0x01, 0x0F, 0x00, 0x00, 0x00, 0x0F, 0x00, 0x00, 0x00, 0x0F, 0x00, 0x00, 0x00, 0x00,
    0x0C, 0x24, 0x03, 0x03, 0x01, 0x03, 0x00, 0x02, 0x04, 0x00, 0x00, 0x00,
    0x11, 0x24, 0x02, 0x11, 0x01, 0x02, 0x00, 0x04, 0x01, 0x00, 0x00, 0x00, 0x00, 0x00, 0x00, 0x00, 0x00,
    0x0C, 0x24, 0x03, 0x13, 0x01, 0x01, 0x00, 0x11, 0x04, 0x00, 0x00, 0x00,
    0x07, 0x05, 0x81, 0x03, 0x06, 0x00, 0x01,
    // speaker streaming interface
    0x09, 0x04, 0x01, 0x00, 0x00, 0x01, 0x02, 0x20, 0x00,
    0x09, 0x04, 0x01, 0x01, 0x01, 0x01, 0x02, 0x20, 0x00,
    0x10, 0x24, 0x01, 0x01, 0x00, 0x01, 0x01, 0x00, 0x00, 0x00, 0x02, 0x00, 0x00, 0x00, 0x00, 0x00,
    0x06, 0x24, 0x02, 0x01, 0x02, 0x10,
    0x07, 0x05, 0x01, 0x09, 0xC4, 0x00, 0x01,
    0x08, 0x25, 0x01, 0x00, 0x00, 0x01, 0x01, 0x00,
    0x09, 0x04, 0x01, 0x02, 0x01, 0x01, 0x02, 0x20, 0x00,
    0x10, 0x24, 0x01, 0x01, 0x00, 0x01, 0x01, 0x00, 0x00, 0x00, 0x02, 0x00, 0x00, 0x00, 0x00, 0x00,
    0x06, 0x24, 0x02, 0x01, 0x04, 0x18,
    0x07, 0x05, 0x02, 0x09, 0x88, 0x01, 0x01,
    0x08, 0x25, 0x01, 0x00, 0x00, 0x00, 0x00, 0x00,
    // microphone streaming interface
    0x09, 0x04, 0x02, 0x00, 0x00, 0x01, 0x02, 0x20, 0x00,
    0x09, 0x04, 0x02, 0x01, 0x01, 0x01, 0x02, 0x20, 0x00,
    0x10, 0x24, 0x01, 0x13, 0x00, 0x01, 0x01, 0x00, 0x00, 0x00, 0x01, 0x00, 0x00, 0x00, 0x00, 0x00,
    0x06, 0x24, 0x02, 0x01, 0x02, 0x10,
    0x07, 0x05, 0x82, 0x05, 0x62, 0x00, 0x01,
    0x08, 0x25, 0x01, 0x00, 0x00, 0x00, 0x00, 0x00,
    0x09, 0x04, 0x02, 0x02, 0x01, 0x01, 0x02, 0x20, 0x00,
    0x10, 0x24, 0x01, 0x13, 0x00, 0x01, 0x01, 0x00, 0x00, 0x00, 0x01, 0x00, 0x00, 0x00, 0x00, 0x00,
    0x06, 0x24, 0x02, 0x01, 0x04, 0x18,
    0x07, 0x05, 0x83, 0x05, 0xC4, 0x00, 0x01,
    0x08, 0x25, 0x01, 0x00, 0x00, 0x00, 0x00, 0x00,
];

#[test]
fn configuration_descriptor_matches_golden_bytes() {
    let bytes = serialised_configuration();
    assert_eq!(bytes.len(), 328);
    assert_eq!(&bytes[0..2], &[9, 2]);
    assert_eq!(bytes, CONFIGURATION_GOLDEN.to_vec());
}

#[test]
fn configuration_ac_header_total_counts_ac_records() {
    let bytes = serialised_configuration();
    // The AudioControl header follows the configuration, the association and
    // the AudioControl interface descriptor.
    let header = 9 + 8 + 9;
    assert_eq!(&bytes[header..header + 3], &[0x09, 0x24, 0x01]);
    let w_total = u16::from_le_bytes([bytes[header + 6], bytes[header + 7]]) as usize;
    let mut at = header;
    let mut sum = 0;
    while bytes[at + 1] == 0x24 {
        assert!(bytes[at] >= 3);
        sum += bytes[at] as usize;
        at += bytes[at] as usize;
    }
    assert_eq!(w_total, sum);
}
