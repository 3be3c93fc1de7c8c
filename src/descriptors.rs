//! Class-specific descriptors of the audio function, byte for byte.
//!
//! Every record is held whole: `bLength`, `bDescriptorType`,
//! `bDescriptorSubtype`, then the payload. A USB descriptor writer takes the
//! type and everything after it and puts the length back in front.

use vstd::prelude::*;
use crate::uac2_constants::{
    AF_VERSION_02_00, AS_GENERAL, AUDIO, AUDIOCONTROL, AUDIOSTREAMING, AUDIO_FUNCTION,
    CATEGORY_PRO_AUDIO, FUNCTION_PROTOCOL_UNDEFINED, IP_VERSION_02_00, CLOCK_SOURCE, CS_ENDPOINT, CS_INTERFACE, EP_GENERAL,
    FEATURE_UNIT, FORMAT_TYPE, FORMAT_TYPE_I, HEADER, INPUT_MICROPHONE, INPUT_TERMINAL,
    OUTPUT_SPEAKER, OUTPUT_TERMINAL, PCM, UAC2_ENTITY_CLOCK, UAC2_ENTITY_MIC_INPUT_TERMINAL,
    UAC2_ENTITY_MIC_OUTPUT_TERMINAL, UAC2_ENTITY_SPK_FEATURE_UNIT,
    UAC2_ENTITY_SPK_INPUT_TERMINAL, UAC2_ENTITY_SPK_OUTPUT_TERMINAL, USB_STREAM,
};

verus! {

/// Length of the class-specific AudioControl header.
pub const AC_HEADER_LEN: u16 = 9;

/// Controls granted on every channel of the speaker's feature unit: mute and
/// volume, both readable and writable.
pub const FEATURE_MUTE_VOLUME_RW: u32 = 0x0000_000F;

/// Clock attributes: internal programmable clock.
pub const CLOCK_INTERNAL_PROGRAMMABLE: u8 = 0b011;

/// Clock controls: frequency read/write, validity read-only.
pub const CLOCK_FREQ_RW_VALIDITY_RO: u8 = 0b0111;

// ---------------------------------------------------------------------------
// Little-endian encodings.

/// Little-endian bytes of a 16-bit value.
pub open spec fn le16(x: u16) -> Seq<u8> {
    seq![(x % 256) as u8, (x / 256) as u8]
}

/// Little-endian bytes of a 32-bit value.
pub open spec fn le32(x: u32) -> Seq<u8> {
    seq![
        (x % 256) as u8,
        ((x / 256) % 256) as u8,
        ((x / 65536) % 256) as u8,
        (x / 16777216) as u8,
    ]
}

/// Appends the little-endian bytes of `x`.
fn push_le16(v: &mut Vec<u8>, x: u16)
    ensures
        final(v)@ == old(v)@ + le16(x),
{
    v.push((x % 256) as u8);
    v.push((x / 256) as u8);
    assert(final(v)@ =~= old(v)@ + le16(x));
}

/// Appends the little-endian bytes of `x`.
fn push_le32(v: &mut Vec<u8>, x: u32)
    ensures
        final(v)@ == old(v)@ + le32(x),
{
    v.push((x % 256) as u8);
    v.push(((x / 256) % 256) as u8);
    v.push(((x / 65536) % 256) as u8);
    v.push((x / 16777216) as u8);
    assert(final(v)@ =~= old(v)@ + le32(x));
}

// ---------------------------------------------------------------------------
// AudioControl records.

/// Class-specific AC interface header: bcdADC 2.00, the function category,
/// `wTotalLength` and no controls.
pub open spec fn ac_header_spec(category: u8, total_length: u16) -> Seq<u8> {
    seq![9u8, CS_INTERFACE, HEADER, 0x00u8, 0x02u8, category] + le16(total_length) + seq![0u8]
}

/// Clock source: id, attributes, controls, associated terminal, no string.
pub open spec fn clock_source_spec(id: u8, attributes: u8, controls: u8, assoc_terminal: u8) -> Seq<u8> {
    seq![8u8, CS_INTERFACE, CLOCK_SOURCE, id, attributes, controls, assoc_terminal, 0u8]
}

/// Input terminal with no predefined channel configuration, no controls and
/// no strings.
pub open spec fn input_terminal_spec(
    id: u8,
    terminal_type: u16,
    assoc_terminal: u8,
    clock: u8,
    nr_channels: u8,
) -> Seq<u8> {
    seq![17u8, CS_INTERFACE, INPUT_TERMINAL, id] + le16(terminal_type) + seq![
        assoc_terminal,
        clock,
        nr_channels,
    ] + le32(0) + seq![0u8] + le16(0) + seq![0u8]
}

/// `n` copies of the little-endian encoding of `x`.
pub open spec fn repeated_le32(n: nat, x: u32) -> Seq<u8> {
    Seq::new(n * 4, |i: int| le32(x)[i % 4])
}

proof fn lemma_repeated_le32_step(n: nat, x: u32)
    ensures
        repeated_le32(n + 1, x) == repeated_le32(n, x) + le32(x),
{
    let a = repeated_le32(n + 1, x);
    let b = repeated_le32(n, x) + le32(x);
    assert forall|i: int| 0 <= i < a.len() implies a[i] == b[i] by {
        if i >= n * 4 {
            assert((i - n * 4) == i % 4) by (nonlinear_arith)
                requires n * 4 <= i < n * 4 + 4;
        }
    }
    assert(a =~= b);
}

/// The per-channel control bitmaps of a feature unit: one 32-bit word for the
/// master channel and one for each logical channel.
pub open spec fn channel_controls_spec(nr_channels: u8, controls: u32) -> Seq<u8> {
    repeated_le32(nr_channels as nat + 1, controls)
}

/// Length of a feature unit record: 6 bytes and one 32-bit word per
/// channel, master included.
pub open spec fn feature_unit_len(nr_channels: u8) -> int {
    6 + (nr_channels as int + 1) * 4
}

/// Feature unit: id, source, the same controls on every channel, no string.
pub open spec fn feature_unit_spec(id: u8, source: u8, nr_channels: u8, controls: u32) -> Seq<u8> {
    seq![feature_unit_len(nr_channels) as u8, CS_INTERFACE, FEATURE_UNIT, id, source]
        + channel_controls_spec(nr_channels, controls) + seq![0u8]
}

/// Output terminal with no controls and no string.
pub open spec fn output_terminal_spec(
    id: u8,
    terminal_type: u16,
    assoc_terminal: u8,
    source: u8,
    clock: u8,
) -> Seq<u8> {
    seq![12u8, CS_INTERFACE, OUTPUT_TERMINAL, id] + le16(terminal_type) + seq![
        assoc_terminal,
        source,
        clock,
    ] + le16(0) + seq![0u8]
}

/// Builds a class-specific AudioControl header.
pub fn ac_header(category: u8, total_length: u16) -> (r: Vec<u8>)
    ensures
        r@ == ac_header_spec(category, total_length),
{
    let mut r: Vec<u8> = vec![9, CS_INTERFACE, HEADER, 0x00, 0x02, category];
    push_le16(&mut r, total_length);
    r.push(0);
    assert(r@ =~= ac_header_spec(category, total_length));
    r
}

/// Builds a clock source record.
pub fn clock_source(id: u8, attributes: u8, controls: u8, assoc_terminal: u8) -> (r: Vec<u8>)
    ensures
        r@ == clock_source_spec(id, attributes, controls, assoc_terminal),
{
    let r: Vec<u8> = vec![8, CS_INTERFACE, CLOCK_SOURCE, id, attributes, controls, assoc_terminal, 0];
    assert(r@ =~= clock_source_spec(id, attributes, controls, assoc_terminal));
    r
}

/// Builds an input terminal record.
pub fn input_terminal(id: u8, terminal_type: u16, assoc_terminal: u8, clock: u8, nr_channels: u8) -> (r: Vec<u8>)
    ensures
        r@ == input_terminal_spec(id, terminal_type, assoc_terminal, clock, nr_channels),
{
    let mut r: Vec<u8> = vec![17, CS_INTERFACE, INPUT_TERMINAL, id];
    push_le16(&mut r, terminal_type);
    r.push(assoc_terminal);
    r.push(clock);
    r.push(nr_channels);
    push_le32(&mut r, 0);
    r.push(0);
    push_le16(&mut r, 0);
    r.push(0);
    assert(r@ =~= input_terminal_spec(id, terminal_type, assoc_terminal, clock, nr_channels));
    r
}

/// Builds a feature unit record with the same controls on the master
/// channel and on each of `nr_channels` logical channels.
pub fn feature_unit(id: u8, source: u8, nr_channels: u8, controls: u32) -> (r: Vec<u8>)
    requires
        feature_unit_len(nr_channels) <= 255,
    ensures
        r@ == feature_unit_spec(id, source, nr_channels, controls),
{
    let len: u8 = 6 + (nr_channels + 1) * 4;
    let mut r: Vec<u8> = vec![len, CS_INTERFACE, FEATURE_UNIT, id, source];
    let ghost head = r@;
    let mut ch: u8 = 0;
    while ch <= nr_channels
        invariant
            ch <= nr_channels + 1,
            feature_unit_len(nr_channels) <= 255,
            head == seq![len, CS_INTERFACE, FEATURE_UNIT, id, source],
            r@ == head + repeated_le32(ch as nat, controls),
        decreases nr_channels + 1 - ch,
    {
        let ghost before = r@;
        push_le32(&mut r, controls);
        proof {
            lemma_repeated_le32_step(ch as nat, controls);
        }
        assert(r@ =~= head + repeated_le32(ch as nat + 1, controls));
        ch = ch + 1;
    }
    r.push(0);
    assert(r@ =~= feature_unit_spec(id, source, nr_channels, controls));
    r
}

/// Builds an output terminal record.
pub fn output_terminal(id: u8, terminal_type: u16, assoc_terminal: u8, source: u8, clock: u8) -> (r: Vec<u8>)
    ensures
        r@ == output_terminal_spec(id, terminal_type, assoc_terminal, source, clock),
{
    let mut r: Vec<u8> = vec![12, CS_INTERFACE, OUTPUT_TERMINAL, id];
    push_le16(&mut r, terminal_type);
    r.push(assoc_terminal);
    r.push(source);
    r.push(clock);
    push_le16(&mut r, 0);
    r.push(0);
    assert(r@ =~= output_terminal_spec(id, terminal_type, assoc_terminal, source, clock));
    r
}

// ---------------------------------------------------------------------------
// AudioStreaming records.

/// Class-specific AS interface descriptor: the linked terminal, no controls,
/// format type I with PCM data, the channel count, no predefined channel
/// configuration and no channel names.
pub open spec fn as_general_spec(terminal_link: u8, nr_channels: u8) -> Seq<u8> {
    seq![16u8, CS_INTERFACE, AS_GENERAL, terminal_link, 0u8, FORMAT_TYPE_I] + le32(PCM) + seq![
        nr_channels,
    ] + le32(0) + seq![0u8]
}

/// Type I format descriptor: bytes per sample slot and significant bits.
pub open spec fn format_type_i_spec(subslot_size: u8, bit_resolution: u8) -> Seq<u8> {
    seq![6u8, CS_INTERFACE, FORMAT_TYPE, FORMAT_TYPE_I, subslot_size, bit_resolution]
}

/// Class-specific AS isochronous data endpoint descriptor: no attributes, no
/// controls, and the lock delay in the given unit.
pub open spec fn iso_endpoint_general_spec(lock_delay_units: u8, lock_delay: u16) -> Seq<u8> {
    seq![8u8, CS_ENDPOINT, EP_GENERAL, 0u8, 0u8, lock_delay_units] + le16(lock_delay)
}

/// Builds a class-specific AS interface record.
pub fn as_general(terminal_link: u8, nr_channels: u8) -> (r: Vec<u8>)
    ensures
        r@ == as_general_spec(terminal_link, nr_channels),
{
    let mut r: Vec<u8> = vec![16, CS_INTERFACE, AS_GENERAL, terminal_link, 0, FORMAT_TYPE_I];
    push_le32(&mut r, PCM);
    r.push(nr_channels);
    push_le32(&mut r, 0);
    r.push(0);
    assert(r@ =~= as_general_spec(terminal_link, nr_channels));
    r
}

/// Builds a type I format record.
pub fn format_type_i(subslot_size: u8, bit_resolution: u8) -> (r: Vec<u8>)
    ensures
        r@ == format_type_i_spec(subslot_size, bit_resolution),
{
    let r: Vec<u8> = vec![6, CS_INTERFACE, FORMAT_TYPE, FORMAT_TYPE_I, subslot_size, bit_resolution];
    assert(r@ =~= format_type_i_spec(subslot_size, bit_resolution));
    r
}

/// Builds a class-specific AS isochronous data endpoint record.
pub fn iso_endpoint_general(lock_delay_units: u8, lock_delay: u16) -> (r: Vec<u8>)
    ensures
        r@ == iso_endpoint_general_spec(lock_delay_units, lock_delay),
{
    let mut r: Vec<u8> = vec![8, CS_ENDPOINT, EP_GENERAL, 0, 0, lock_delay_units];
    push_le16(&mut r, lock_delay);
    assert(r@ =~= iso_endpoint_general_spec(lock_delay_units, lock_delay));
    r
}

// ---------------------------------------------------------------------------
// The AudioControl interface of this device.

/// The entities of the topology, in the order they are described: the clock,
/// the speaker path (USB stream in, feature unit, speaker out) and the
/// microphone path (microphone in, USB stream out).
pub open spec fn ac_body_spec() -> Seq<Seq<u8>> {
    seq![
        clock_source_spec(UAC2_ENTITY_CLOCK, CLOCK_INTERNAL_PROGRAMMABLE, CLOCK_FREQ_RW_VALIDITY_RO, 0),
        input_terminal_spec(UAC2_ENTITY_SPK_INPUT_TERMINAL, USB_STREAM, 0, UAC2_ENTITY_CLOCK, 2),
        feature_unit_spec(UAC2_ENTITY_SPK_FEATURE_UNIT, UAC2_ENTITY_SPK_INPUT_TERMINAL, 2, FEATURE_MUTE_VOLUME_RW),
        output_terminal_spec(UAC2_ENTITY_SPK_OUTPUT_TERMINAL, OUTPUT_SPEAKER, 0, UAC2_ENTITY_SPK_FEATURE_UNIT, UAC2_ENTITY_CLOCK),
        input_terminal_spec(UAC2_ENTITY_MIC_INPUT_TERMINAL, INPUT_MICROPHONE, 0, UAC2_ENTITY_CLOCK, 1),
        output_terminal_spec(UAC2_ENTITY_MIC_OUTPUT_TERMINAL, USB_STREAM, 0, UAC2_ENTITY_MIC_INPUT_TERMINAL, UAC2_ENTITY_CLOCK),
    ]
}

/// The bytes of each record of a list.
pub open spec fn records_view(records: Seq<Vec<u8>>) -> Seq<Seq<u8>> {
    records.map_values(|v: Vec<u8>| v@)
}

/// The sum of the lengths of a list of records.
pub open spec fn total_len(records: Seq<Seq<u8>>) -> int
    decreases records.len(),
{
    if records.len() == 0 {
        0
    } else {
        total_len(records.drop_last()) + records.last().len()
    }
}

/// The header's `wTotalLength`: the header itself and every record after it.
pub open spec fn ac_total_length(body: Seq<Seq<u8>>) -> int {
    AC_HEADER_LEN as int + total_len(body)
}

/// The class-specific AudioControl block: the header followed by the body.
pub open spec fn ac_block_spec() -> Seq<Seq<u8>> {
    seq![ac_header_spec(CATEGORY_PRO_AUDIO, ac_total_length(ac_body_spec()) as u16)] + ac_body_spec()
}

/// Builds the records of the AudioControl body, one per entity.
pub fn ac_body() -> (r: Vec<Vec<u8>>)
    ensures
        records_view(r@) == ac_body_spec(),
{
    let mut r: Vec<Vec<u8>> = Vec::new();
    r.push(clock_source(UAC2_ENTITY_CLOCK, CLOCK_INTERNAL_PROGRAMMABLE, CLOCK_FREQ_RW_VALIDITY_RO, 0));
    r.push(input_terminal(UAC2_ENTITY_SPK_INPUT_TERMINAL, USB_STREAM, 0, UAC2_ENTITY_CLOCK, 2));
    r.push(feature_unit(UAC2_ENTITY_SPK_FEATURE_UNIT, UAC2_ENTITY_SPK_INPUT_TERMINAL, 2, FEATURE_MUTE_VOLUME_RW));
    r.push(output_terminal(UAC2_ENTITY_SPK_OUTPUT_TERMINAL, OUTPUT_SPEAKER, 0, UAC2_ENTITY_SPK_FEATURE_UNIT, UAC2_ENTITY_CLOCK));
    r.push(input_terminal(UAC2_ENTITY_MIC_INPUT_TERMINAL, INPUT_MICROPHONE, 0, UAC2_ENTITY_CLOCK, 1));
    r.push(output_terminal(UAC2_ENTITY_MIC_OUTPUT_TERMINAL, USB_STREAM, 0, UAC2_ENTITY_MIC_INPUT_TERMINAL, UAC2_ENTITY_CLOCK));
    assert(records_view(r@) =~= ac_body_spec());
    r
}

/// Builds the AudioControl header for the given body: its `wTotalLength`
/// counts the header and every body record.
pub fn ac_header_for(body: &Vec<Vec<u8>>) -> (r: Vec<u8>)
    requires
        ac_total_length(records_view(body@)) <= u16::MAX,
    ensures
        r@ == ac_header_spec(CATEGORY_PRO_AUDIO, ac_total_length(records_view(body@)) as u16),
{
    let mut total: u16 = AC_HEADER_LEN;
    let mut i: usize = 0;
    while i < body.len()
        invariant
            i <= body.len(),
            ac_total_length(records_view(body@)) <= u16::MAX,
            total as int == AC_HEADER_LEN as int + total_len(records_view(body@).take(i as int)),
        decreases body.len() - i,
    {
        proof {
            lemma_total_len_prefix(records_view(body@), i as int);
        }
        total = total + body[i].len() as u16;
        i = i + 1;
    }
    assert(records_view(body@).take(i as int) =~= records_view(body@));
    ac_header(CATEGORY_PRO_AUDIO, total)
}

proof fn lemma_total_len_prefix(s: Seq<Seq<u8>>, i: int)
    requires
        0 <= i < s.len(),
    ensures
        total_len(s.take(i + 1)) == total_len(s.take(i)) + s[i].len(),
        total_len(s.take(i + 1)) <= total_len(s),
{
    assert(s.take(i + 1).drop_last() =~= s.take(i));
    lemma_total_len_monotone(s, i + 1);
}

proof fn lemma_total_len_monotone(s: Seq<Seq<u8>>, i: int)
    requires
        0 <= i <= s.len(),
    ensures
        total_len(s.take(i)) <= total_len(s),
    decreases s.len() - i,
{
    if i < s.len() {
        assert(s.take(i + 1).drop_last() =~= s.take(i));
        lemma_total_len_monotone(s, i + 1);
    } else {
        assert(s.take(i) =~= s);
    }
}

// ---------------------------------------------------------------------------
// The layout of the whole audio function: interfaces, alternate settings, and
// in each alternate setting its class-specific records and its endpoint in the
// order they are written.

/// Endpoint synchronization, as in the endpoint descriptor's attributes.
#[derive(Clone, Copy, Debug, PartialEq, Eq, Structural)]
pub enum SynchronizationType {
    NoSynchronization,
    Asynchronous,
    Adaptive,
    Synchronous,
}

/// Endpoint usage, as in the endpoint descriptor's attributes.
#[derive(Clone, Copy, Debug, PartialEq, Eq, Structural)]
pub enum UsageType {
    DataEndpoint,
    FeedbackEndpoint,
    ImplicitFeedbackDataEndpoint,
}

/// Transfer type and direction of an endpoint.
#[derive(Clone, Copy, Debug, PartialEq, Eq, Structural)]
pub enum EndpointKind {
    InterruptIn,
    IsochronousIn,
    IsochronousOut,
}

/// An endpoint to allocate, with what its standard descriptor carries.
#[derive(Clone, Copy, Debug, PartialEq, Eq, Structural)]
pub struct EndpointLayout {
    pub kind: EndpointKind,
    pub max_packet_size: u16,
    pub interval_ms: u8,
    pub sync: SynchronizationType,
    pub usage: UsageType,
}

/// One entry of an alternate setting: a class-specific record, or an endpoint.
#[derive(Debug)]
pub enum AltItem {
    Descriptor(Vec<u8>),
    Endpoint(EndpointLayout),
}

pub ghost enum AltItemView {
    Descriptor(Seq<u8>),
    Endpoint(EndpointLayout),
}

impl View for AltItem {
    type V = AltItemView;

    open spec fn view(&self) -> AltItemView {
        match self {
            AltItem::Descriptor(d) => AltItemView::Descriptor(d@),
            AltItem::Endpoint(e) => AltItemView::Endpoint(*e),
        }
    }
}

/// An alternate setting: its interface class triple and its entries.
#[derive(Debug)]
pub struct AltSettingLayout {
    pub class: u8,
    pub subclass: u8,
    pub protocol: u8,
    pub items: Vec<AltItem>,
}

pub ghost struct AltSettingView {
    pub class: u8,
    pub subclass: u8,
    pub protocol: u8,
    pub items: Seq<AltItemView>,
}

impl View for AltSettingLayout {
    type V = AltSettingView;

    open spec fn view(&self) -> AltSettingView {
        AltSettingView {
            class: self.class,
            subclass: self.subclass,
            protocol: self.protocol,
            items: self.items@.map_values(|i: AltItem| i@),
        }
    }
}

/// An interface: its alternate settings, numbered from 0 in order.
#[derive(Debug)]
pub struct InterfaceLayout {
    pub alt_settings: Vec<AltSettingLayout>,
}

impl View for InterfaceLayout {
    type V = Seq<AltSettingView>;

    open spec fn view(&self) -> Seq<AltSettingView> {
        self.alt_settings@.map_values(|a: AltSettingLayout| a@)
    }
}

/// The audio function: its class triple (for the interface association) and
/// its interfaces, numbered in order.
#[derive(Debug)]
pub struct FunctionLayout {
    pub class: u8,
    pub subclass: u8,
    pub protocol: u8,
    pub interfaces: Vec<InterfaceLayout>,
}

pub ghost struct FunctionView {
    pub class: u8,
    pub subclass: u8,
    pub protocol: u8,
    pub interfaces: Seq<Seq<AltSettingView>>,
}

impl View for FunctionLayout {
    type V = FunctionView;

    open spec fn view(&self) -> FunctionView {
        FunctionView {
            class: self.class,
            subclass: self.subclass,
            protocol: self.protocol,
            interfaces: self.interfaces@.map_values(|i: InterfaceLayout| i@),
        }
    }
}

/// Samples that one isochronous packet is sized for: the 48 of a 1 ms
/// service interval at 48 kHz, and one more of margin.
pub const SAMPLES_PER_PACKET_MAX: u16 = 49;

/// Largest isochronous packet of a stream.
pub open spec fn iso_max_packet_size(nr_channels: u8, subslot_size: u8) -> int {
    nr_channels as int * subslot_size as int * SAMPLES_PER_PACKET_MAX as int
}

/// The AudioControl interface: the class-specific block and the status
/// interrupt endpoint (6-byte packets, every millisecond).
pub open spec fn ac_interface_spec() -> Seq<AltSettingView> {
    seq![
        AltSettingView {
            class: AUDIO,
            subclass: AUDIOCONTROL,
            protocol: IP_VERSION_02_00,
            items: ac_block_spec().map_values(|d: Seq<u8>| AltItemView::Descriptor(d)) + seq![
                AltItemView::Endpoint(status_endpoint()),
            ],
        },
    ]
}

/// The AudioControl interface's interrupt endpoint.
pub open spec fn status_endpoint() -> EndpointLayout {
    EndpointLayout {
        kind: EndpointKind::InterruptIn,
        max_packet_size: 6,
        interval_ms: 1,
        sync: SynchronizationType::NoSynchronization,
        usage: UsageType::DataEndpoint,
    }
}

/// The zero-bandwidth alternate setting of a streaming interface.
pub open spec fn idle_alt_spec() -> AltSettingView {
    AltSettingView { class: AUDIO, subclass: AUDIOSTREAMING, protocol: IP_VERSION_02_00, items: seq![] }
}

/// A streaming alternate setting: AS general, the format, the isochronous
/// endpoint and its class-specific record.
pub open spec fn streaming_alt_spec(
    terminal_link: u8,
    nr_channels: u8,
    subslot_size: u8,
    bit_resolution: u8,
    endpoint: EndpointLayout,
    lock_delay_units: u8,
    lock_delay: u16,
) -> AltSettingView {
    AltSettingView {
        class: AUDIO,
        subclass: AUDIOSTREAMING,
        protocol: IP_VERSION_02_00,
        items: seq![
            AltItemView::Descriptor(as_general_spec(terminal_link, nr_channels)),
            AltItemView::Descriptor(format_type_i_spec(subslot_size, bit_resolution)),
            AltItemView::Endpoint(endpoint),
            AltItemView::Descriptor(iso_endpoint_general_spec(lock_delay_units, lock_delay)),
        ],
    }
}

/// An isochronous data endpoint polled every millisecond.
pub open spec fn iso_endpoint(kind: EndpointKind, max_packet_size: u16, sync: SynchronizationType) -> EndpointLayout {
    EndpointLayout { kind, max_packet_size, interval_ms: 1, sync, usage: UsageType::DataEndpoint }
}

/// The speaker's streaming interface: idle, 16-bit stereo (1 ms lock delay),
/// 24-bit stereo (no lock delay), on an adaptive isochronous OUT endpoint.
pub open spec fn speaker_interface_spec() -> Seq<AltSettingView> {
    seq![
        idle_alt_spec(),
        streaming_alt_spec(UAC2_ENTITY_SPK_INPUT_TERMINAL, 2, 2, 16,
            iso_endpoint(EndpointKind::IsochronousOut, 196, SynchronizationType::Adaptive), 1, 1),
        streaming_alt_spec(UAC2_ENTITY_SPK_INPUT_TERMINAL, 2, 4, 24,
            iso_endpoint(EndpointKind::IsochronousOut, 392, SynchronizationType::Adaptive), 0, 0),
    ]
}

/// The microphone's streaming interface: idle, 16-bit mono, 24-bit mono, on
/// an asynchronous isochronous IN endpoint.
pub open spec fn microphone_interface_spec() -> Seq<AltSettingView> {
    seq![
        idle_alt_spec(),
        streaming_alt_spec(UAC2_ENTITY_MIC_OUTPUT_TERMINAL, 1, 2, 16,
            iso_endpoint(EndpointKind::IsochronousIn, 98, SynchronizationType::Asynchronous), 0, 0),
        streaming_alt_spec(UAC2_ENTITY_MIC_OUTPUT_TERMINAL, 1, 4, 24,
            iso_endpoint(EndpointKind::IsochronousIn, 196, SynchronizationType::Asynchronous), 0, 0),
    ]
}

/// The whole audio function.
pub open spec fn function_layout_spec() -> FunctionView {
    FunctionView {
        class: AUDIO_FUNCTION,
        subclass: FUNCTION_PROTOCOL_UNDEFINED,
        protocol: AF_VERSION_02_00,
        interfaces: seq![ac_interface_spec(), speaker_interface_spec(), microphone_interface_spec()],
    }
}

fn idle_alt() -> (r: AltSettingLayout)
    ensures
        r@ == idle_alt_spec(),
{
    let r = AltSettingLayout { class: AUDIO, subclass: AUDIOSTREAMING, protocol: IP_VERSION_02_00, items: Vec::new() };
    assert(r@.items =~= seq![]);
    r
}

fn streaming_alt(
    terminal_link: u8,
    nr_channels: u8,
    subslot_size: u8,
    bit_resolution: u8,
    endpoint: EndpointLayout,
    lock_delay_units: u8,
    lock_delay: u16,
) -> (r: AltSettingLayout)
    ensures
        r@ == streaming_alt_spec(terminal_link, nr_channels, subslot_size, bit_resolution, endpoint, lock_delay_units, lock_delay),
{
    let mut items: Vec<AltItem> = Vec::new();
    items.push(AltItem::Descriptor(as_general(terminal_link, nr_channels)));
    items.push(AltItem::Descriptor(format_type_i(subslot_size, bit_resolution)));
    items.push(AltItem::Endpoint(endpoint));
    items.push(AltItem::Descriptor(iso_endpoint_general(lock_delay_units, lock_delay)));
    let r = AltSettingLayout { class: AUDIO, subclass: AUDIOSTREAMING, protocol: IP_VERSION_02_00, items };
    assert(r@.items =~= streaming_alt_spec(terminal_link, nr_channels, subslot_size, bit_resolution, endpoint, lock_delay_units, lock_delay).items);
    r
}

fn ac_interface() -> (r: InterfaceLayout)
    ensures
        r@ == ac_interface_spec(),
{
    let body = ac_body();
    proof {
        lemma_ac_total_length();
    }
    let header = ac_header_for(&body);
    let mut items: Vec<AltItem> = Vec::new();
    items.push(AltItem::Descriptor(header));
    assert(records_view(body@).len() == body@.len());
    assert(ac_block_spec().len() == 7);
    let mut i: usize = 0;
    while i < body.len()
        invariant
            i <= body.len(),
            records_view(body@) == ac_body_spec(),
            body.len() == 6,
            ac_block_spec().len() == 7,
            items@.len() == i + 1,
            items@.map_values(|it: AltItem| it@) =~= ac_block_spec().take(i as int + 1).map_values(
                |d: Seq<u8>| AltItemView::Descriptor(d),
            ),
        decreases body.len() - i,
    {
        let record = body[i].clone();
        assert(record@ =~= body@[i as int]@);
        assert(record@ == ac_block_spec()[i as int + 1]);
        let ghost prev = items@;
        items.push(AltItem::Descriptor(record));
        assert(items@ == prev.push(AltItem::Descriptor(record)));
        assert(ac_block_spec().take(i as int + 2) =~= ac_block_spec().take(i as int + 1).push(
            ac_block_spec()[i as int + 1],
        ));
        let ghost want = ac_block_spec().take(i as int + 2).map_values(|d: Seq<u8>| AltItemView::Descriptor(d));
        let ghost had = ac_block_spec().take(i as int + 1).map_values(|d: Seq<u8>| AltItemView::Descriptor(d));
        assert forall|j: int| 0 <= j < want.len() implies items@.map_values(|it: AltItem| it@)[j] == want[j] by {
            if j < prev.len() {
                assert(prev.map_values(|it: AltItem| it@)[j] == had[j]);
            }
        }
        assert(items@.map_values(|it: AltItem| it@) =~= want);
        i = i + 1;
    }
    items.push(AltItem::Endpoint(EndpointLayout {
        kind: EndpointKind::InterruptIn,
        max_packet_size: 6,
        interval_ms: 1,
        sync: SynchronizationType::NoSynchronization,
        usage: UsageType::DataEndpoint,
    }));
    let alt = AltSettingLayout { class: AUDIO, subclass: AUDIOCONTROL, protocol: IP_VERSION_02_00, items };
    let mut alt_settings: Vec<AltSettingLayout> = Vec::new();
    alt_settings.push(alt);
    let r = InterfaceLayout { alt_settings };
    assert(ac_block_spec().take(7) =~= ac_block_spec());
    assert(r@[0].items =~= ac_interface_spec()[0].items);
    assert(r@ =~= ac_interface_spec());
    r
}

proof fn lemma_ac_total_length()
    ensures
        ac_total_length(ac_body_spec()) == 9 + 8 + 17 + 18 + 12 + 17 + 12,
{
    reveal_with_fuel(total_len, 7);
}

fn iso_endpoint_layout(kind: EndpointKind, max_packet_size: u16, sync: SynchronizationType) -> (r: EndpointLayout)
    ensures
        r == iso_endpoint(kind, max_packet_size, sync),
{
    EndpointLayout { kind, max_packet_size, interval_ms: 1, sync, usage: UsageType::DataEndpoint }
}

fn speaker_interface() -> (r: InterfaceLayout)
    ensures
        r@ == speaker_interface_spec(),
{
    let mut alt_settings: Vec<AltSettingLayout> = Vec::new();
    alt_settings.push(idle_alt());
    alt_settings.push(streaming_alt(UAC2_ENTITY_SPK_INPUT_TERMINAL, 2, 2, 16,
        iso_endpoint_layout(EndpointKind::IsochronousOut, 196, SynchronizationType::Adaptive), 1, 1));
    alt_settings.push(streaming_alt(UAC2_ENTITY_SPK_INPUT_TERMINAL, 2, 4, 24,
        iso_endpoint_layout(EndpointKind::IsochronousOut, 392, SynchronizationType::Adaptive), 0, 0));
    let r = InterfaceLayout { alt_settings };
    assert(r@ =~= speaker_interface_spec());
    r
}

fn microphone_interface() -> (r: InterfaceLayout)
    ensures
        r@ == microphone_interface_spec(),
{
    let mut alt_settings: Vec<AltSettingLayout> = Vec::new();
    alt_settings.push(idle_alt());
    alt_settings.push(streaming_alt(UAC2_ENTITY_MIC_OUTPUT_TERMINAL, 1, 2, 16,
        iso_endpoint_layout(EndpointKind::IsochronousIn, 98, SynchronizationType::Asynchronous), 0, 0));
    alt_settings.push(streaming_alt(UAC2_ENTITY_MIC_OUTPUT_TERMINAL, 1, 4, 24,
        iso_endpoint_layout(EndpointKind::IsochronousIn, 196, SynchronizationType::Asynchronous), 0, 0));
    let r = InterfaceLayout { alt_settings };
    assert(r@ =~= microphone_interface_spec());
    r
}

/// Describes the whole audio function: the AudioControl interface with its
/// class-specific block and status endpoint, then the speaker's and the
/// microphone's streaming interfaces, each with its idle, 16-bit and 24-bit
/// alternate settings.
pub fn function_layout() -> (r: FunctionLayout)
    ensures
        r@ == function_layout_spec(),
{
    let mut interfaces: Vec<InterfaceLayout> = Vec::new();
    interfaces.push(ac_interface());
    interfaces.push(speaker_interface());
    interfaces.push(microphone_interface());
    let r = FunctionLayout {
        class: AUDIO_FUNCTION,
        subclass: FUNCTION_PROTOCOL_UNDEFINED,
        protocol: AF_VERSION_02_00,
        interfaces,
    };
    assert(r@.interfaces =~= function_layout_spec().interfaces);
    r
}

// ---------------------------------------------------------------------------
// Laws of the layout.

/// A record's first byte is its own length.
pub open spec fn length_coherent(record: Seq<u8>) -> bool {
    record.len() >= 2 && record[0] as int == record.len()
}

/// Every record among the entries of an alternate setting is length-coherent.
pub open spec fn alt_coherent(alt: AltSettingView) -> bool {
    forall|k: int|
        0 <= k < alt.items.len() && (#[trigger] alt.items[k]) is Descriptor
        ==> length_coherent(alt.items[k]->Descriptor_0)
}

proof fn lemma_ac_block_coherent()
    ensures
        ac_block_spec().len() == 7,
        forall|k: int| 0 <= k < 7 ==> length_coherent(#[trigger] ac_block_spec()[k]),
{
    lemma_ac_total_length();
    let b = ac_block_spec();
    assert(length_coherent(b[0]));
    assert(length_coherent(b[1]));
    assert(length_coherent(b[2]));
    assert(length_coherent(b[3]));
    assert(length_coherent(b[4]));
    assert(length_coherent(b[5]));
    assert(length_coherent(b[6]));
}

proof fn lemma_streaming_alt_coherent(
    terminal_link: u8,
    nr_channels: u8,
    subslot_size: u8,
    bit_resolution: u8,
    endpoint: EndpointLayout,
    lock_delay_units: u8,
    lock_delay: u16,
)
    ensures
        alt_coherent(streaming_alt_spec(terminal_link, nr_channels, subslot_size, bit_resolution, endpoint, lock_delay_units, lock_delay)),
{
    let alt = streaming_alt_spec(terminal_link, nr_channels, subslot_size, bit_resolution, endpoint, lock_delay_units, lock_delay);
    assert(length_coherent(as_general_spec(terminal_link, nr_channels)));
    assert(length_coherent(format_type_i_spec(subslot_size, bit_resolution)));
    assert(length_coherent(iso_endpoint_general_spec(lock_delay_units, lock_delay)));
    assert forall|k: int| 0 <= k < alt.items.len() && (#[trigger] alt.items[k]) is Descriptor
        implies length_coherent(alt.items[k]->Descriptor_0) by {
        if k == 0 {
        } else if k == 1 {
        } else if k == 3 {
        }
    }
}

/// Every class-specific record of the function starts with its own length,
/// and the AudioControl header's `wTotalLength` (its bytes 6 and 7,
/// little-endian) is the header's own length plus the lengths of all the
/// AudioControl records after it.
pub proof fn lemma_length_coherence()
    ensures
        forall|a: int, b: int|
            0 <= a < function_layout_spec().interfaces.len() && 0 <= b
                < function_layout_spec().interfaces[a].len() ==> alt_coherent(
                #[trigger] function_layout_spec().interfaces[a][b],
            ),
        ac_block_spec()[0][6] as int + ac_block_spec()[0][7] as int * 256 == ac_block_spec()[0].len()
            + total_len(ac_block_spec().drop_first()),
{
    let f = function_layout_spec();
    lemma_ac_block_coherent();
    let ac = f.interfaces[0][0];
    assert forall|k: int| 0 <= k < ac.items.len() && (#[trigger] ac.items[k]) is Descriptor
        implies length_coherent(ac.items[k]->Descriptor_0) by {
        if k < 7 {
            assert(ac.items[k]->Descriptor_0 == ac_block_spec()[k]);
        }
    }
    assert(alt_coherent(f.interfaces[0][0]));
    assert(alt_coherent(idle_alt_spec()));
    lemma_streaming_alt_coherent(UAC2_ENTITY_SPK_INPUT_TERMINAL, 2, 2, 16,
        iso_endpoint(EndpointKind::IsochronousOut, 196, SynchronizationType::Adaptive), 1, 1);
    lemma_streaming_alt_coherent(UAC2_ENTITY_SPK_INPUT_TERMINAL, 2, 4, 24,
        iso_endpoint(EndpointKind::IsochronousOut, 392, SynchronizationType::Adaptive), 0, 0);
    lemma_streaming_alt_coherent(UAC2_ENTITY_MIC_OUTPUT_TERMINAL, 1, 2, 16,
        iso_endpoint(EndpointKind::IsochronousIn, 98, SynchronizationType::Asynchronous), 0, 0);
    lemma_streaming_alt_coherent(UAC2_ENTITY_MIC_OUTPUT_TERMINAL, 1, 4, 24,
        iso_endpoint(EndpointKind::IsochronousIn, 196, SynchronizationType::Asynchronous), 0, 0);
    assert(ac_block_spec().drop_first() =~= ac_body_spec());
    lemma_ac_total_length();
    let h = ac_block_spec()[0];
    assert(h == ac_header_spec(CATEGORY_PRO_AUDIO, ac_total_length(ac_body_spec()) as u16));
    assert(h == ac_header_spec(CATEGORY_PRO_AUDIO, 93));
    assert(h =~= seq![9u8, CS_INTERFACE, HEADER, 0x00u8, 0x02u8, CATEGORY_PRO_AUDIO, 93u8, 0u8, 0u8]);
}

/// The ID of the entity that a record of the AudioControl body describes.
pub open spec fn entity_id(record: Seq<u8>) -> u8 {
    record[3]
}

/// No two entities of the AudioControl body share an ID, and no ID is zero.
pub proof fn lemma_entity_ids_unique()
    ensures
        ac_body_spec().len() == 6,
        forall|i: int, j: int|
            0 <= i < 6 && 0 <= j < 6 && i != j ==> entity_id(#[trigger] ac_body_spec()[i]) != entity_id(
                #[trigger] ac_body_spec()[j],
            ),
        forall|i: int| 0 <= i < 6 ==> entity_id(#[trigger] ac_body_spec()[i]) != 0,
{
    let b = ac_body_spec();
    assert(entity_id(b[0]) == UAC2_ENTITY_CLOCK);
    assert(entity_id(b[1]) == UAC2_ENTITY_SPK_INPUT_TERMINAL);
    assert(entity_id(b[2]) == UAC2_ENTITY_SPK_FEATURE_UNIT);
    assert(entity_id(b[3]) == UAC2_ENTITY_SPK_OUTPUT_TERMINAL);
    assert(entity_id(b[4]) == UAC2_ENTITY_MIC_INPUT_TERMINAL);
    assert(entity_id(b[5]) == UAC2_ENTITY_MIC_OUTPUT_TERMINAL);
}

/// The wiring of the topology: both terminals of each path take their clock
/// from the clock source, the feature unit takes the speaker's USB stream,
/// the speaker takes the feature unit, and the microphone's USB stream takes
/// the microphone.
pub proof fn lemma_topology_wiring()
    ensures
        ac_body_spec()[0][2] == CLOCK_SOURCE,
        ac_body_spec()[1][2] == INPUT_TERMINAL && ac_body_spec()[1][7] == UAC2_ENTITY_CLOCK,
        ac_body_spec()[4][2] == INPUT_TERMINAL && ac_body_spec()[4][7] == UAC2_ENTITY_CLOCK,
        ac_body_spec()[3][2] == OUTPUT_TERMINAL && ac_body_spec()[3][8] == UAC2_ENTITY_CLOCK,
        ac_body_spec()[5][2] == OUTPUT_TERMINAL && ac_body_spec()[5][8] == UAC2_ENTITY_CLOCK,
        ac_body_spec()[2][2] == FEATURE_UNIT && ac_body_spec()[2][4] == UAC2_ENTITY_SPK_INPUT_TERMINAL,
        ac_body_spec()[3][7] == UAC2_ENTITY_SPK_FEATURE_UNIT,
        ac_body_spec()[5][7] == UAC2_ENTITY_MIC_INPUT_TERMINAL,
{
}

/// Each isochronous endpoint's largest packet holds a full service interval:
/// channels times subslot size times 48 samples, with one sample of margin.
pub proof fn lemma_iso_packet_sizes()
    ensures
        forall|a: int, b: int|
            1 <= a < 3 && 1 <= b < 3 ==> {
                let alt = #[trigger] function_layout_spec().interfaces[a][b];
                let nr_channels = alt.items[0]->Descriptor_0[10];
                let subslot = alt.items[1]->Descriptor_0[4];
                &&& alt.items[2]->Endpoint_0.max_packet_size as int == iso_max_packet_size(nr_channels, subslot)
                &&& alt.items[2]->Endpoint_0.max_packet_size as int >= nr_channels as int * subslot as int * 48
            },
{
    let f = function_layout_spec();
    assert forall|a: int, b: int| 1 <= a < 3 && 1 <= b < 3 implies {
        let alt = #[trigger] f.interfaces[a][b];
        let nr_channels = alt.items[0]->Descriptor_0[10];
        let subslot = alt.items[1]->Descriptor_0[4];
        &&& alt.items[2]->Endpoint_0.max_packet_size as int == iso_max_packet_size(nr_channels, subslot)
        &&& alt.items[2]->Endpoint_0.max_packet_size as int >= nr_channels as int * subslot as int * 48
    } by {
        let alt = f.interfaces[a][b];
        let nr: int = if a == 1 { 2 } else { 1 };
        let sub: int = if b == 1 { 2 } else { 4 };
        assert(alt.items[0]->Descriptor_0[10] as int == nr);
        assert(alt.items[1]->Descriptor_0[4] as int == sub);
        assert(alt.items[2]->Endpoint_0.max_packet_size as int == nr * sub * 49);
    }
}

} // verus!
