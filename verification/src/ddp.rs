//! WLED realtime output over DDP, the distributed display protocol.
//!
//! A frame of colours becomes one or more UDP packets. Each packet has a ten
//! byte header, which says where its data belongs in the frame, and at most
//! 1440 bytes of RGB data: 480 LEDs.
use crate::color::RgbColor;
use vstd::prelude::*;

verus! {

pub const DDP_VERSION_1: u8 = 0x40;

pub const DDP_PUSH: u8 = 0x01;

pub const DDP_DATA_TYPE_RGB24: u8 = 0x0B;

pub const DDP_HEADER_LEN: usize = 10;

/// WLED's DDP receiver uses 1440 channels per packet: 480 RGB LEDs.
pub const DDP_MAX_DATA_LEN: usize = 1440;

/// Component `i` of a colour, in transmission order.
pub open spec fn component(color: RgbColor, i: int) -> u8 {
    if i == 0 {
        color.r
    } else if i == 1 {
        color.g
    } else {
        color.b
    }
}

/// The colours of a frame as consecutive RGB triples.
pub open spec fn rgb_bytes(colors: Seq<RgbColor>) -> Seq<u8> {
    Seq::new(colors.len() * 3, |i: int| component(colors[i / 3], i % 3))
}

/// The four bytes of `value`, most significant first.
pub open spec fn be32(value: u32) -> Seq<u8> {
    seq![
        (value / 0x100_0000) as u8,
        (value / 0x1_0000 % 0x100) as u8,
        (value / 0x100 % 0x100) as u8,
        (value % 0x100) as u8,
    ]
}

/// The two bytes of `value`, most significant first.
pub open spec fn be16(value: u16) -> Seq<u8> {
    seq![(value / 0x100) as u8, (value % 0x100) as u8]
}

/// The first byte of a packet: protocol version one, and the push flag.
pub open spec fn flags(push: bool) -> u8 {
    if push {
        0x41
    } else {
        0x40
    }
}

/// The ten bytes ahead of the data.
pub open spec fn header(
    data_len: nat,
    sequence: u8,
    destination_id: u8,
    channel_offset: u32,
    push: bool,
) -> Seq<u8> {
    seq![flags(push), (sequence % 16) as u8, DDP_DATA_TYPE_RGB24, destination_id] + be32(
        channel_offset,
    ) + be16((data_len % 0x1_0000) as u16)
}

/// A whole packet: the header, then the data.
pub open spec fn packet(
    data: Seq<u8>,
    sequence: u8,
    destination_id: u8,
    channel_offset: u32,
    push: bool,
) -> Seq<u8> {
    header(data.len(), sequence, destination_id, channel_offset, push) + data
}

/// The sequence number that follows `previous`: 1 to 15 in turn, never zero.
pub open spec fn sequence_after(previous: u8) -> u8 {
    if previous >= 15 {
        1
    } else {
        (previous + 1) as u8
    }
}

/// The sequence number `steps` packets after `previous`.
pub open spec fn sequence_at(previous: u8, steps: nat) -> u8
    decreases steps,
{
    if steps == 0 {
        previous
    } else {
        sequence_after(sequence_at(previous, (steps - 1) as nat))
    }
}

/// How many packets `len` bytes of RGB data take. An empty frame takes one.
pub open spec fn packet_count(len: nat) -> nat {
    if len == 0 {
        1
    } else {
        (len + 1439) / 1440
    }
}

/// The end of the data that packet `k` carries.
pub open spec fn chunk_end(len: nat, k: int) -> int {
    if 1440 * (k + 1) < len {
        1440 * (k + 1)
    } else {
        len as int
    }
}

/// Packet `k` of the frame with the given RGB data.
pub open spec fn frame_packet(
    rgb: Seq<u8>,
    previous_sequence: u8,
    destination_id: u8,
    k: int,
) -> Seq<u8> {
    packet(
        rgb.subrange(1440 * k, chunk_end(rgb.len(), k)),
        sequence_at(previous_sequence, (k + 1) as nat),
        destination_id,
        (1440 * k % 0x1_0000_0000) as u32,
        k + 1 == packet_count(rgb.len()),
    )
}

/// All packets of a frame, in the order in which they are sent.
pub open spec fn frame_packets(
    colors: Seq<RgbColor>,
    previous_sequence: u8,
    destination_id: u8,
) -> Seq<Seq<u8>> {
    Seq::new(
        packet_count(colors.len() * 3),
        |k: int| frame_packet(rgb_bytes(colors), previous_sequence, destination_id, k),
    )
}

/// The sequence number for the packet after the one numbered `previous`.
pub fn next_sequence(previous: u8) -> (sequence: u8)
    ensures
        sequence == sequence_after(previous),
{
    if previous >= 15 {
        1
    } else {
        previous + 1
    }
}

fn push_all(out: &mut Vec<u8>, data: &[u8])
    ensures
        final(out)@ == old(out)@ + data@,
{
    let ghost before = out@;
    for i in 0..data.len()
        invariant
            out@ == before + data@.take(i as int),
    {
        out.push(data[i]);
        assert(data@.take(i + 1) == data@.take(i as int).push(data[i as int]));
    }
    assert(data@.take(data@.len() as int) == data@);
}

/// Builds one packet.
pub fn encode_packet(
    data: &[u8],
    sequence: u8,
    destination_id: u8,
    channel_offset: u32,
    push: bool,
) -> (bytes: Vec<u8>)
    ensures
        bytes@ == packet(data@, sequence, destination_id, channel_offset, push),
{
    let mut bytes: Vec<u8> = Vec::new();
    let flags: u8 = if push {
        0x41
    } else {
        0x40
    };
    let data_len: u16 = (data.len() % 0x1_0000) as u16;
    bytes.push(flags);
    bytes.push(sequence % 16);
    bytes.push(DDP_DATA_TYPE_RGB24);
    bytes.push(destination_id);
    bytes.push((channel_offset / 0x100_0000) as u8);
    bytes.push((channel_offset / 0x1_0000 % 0x100) as u8);
    bytes.push((channel_offset / 0x100 % 0x100) as u8);
    bytes.push((channel_offset % 0x100) as u8);
    bytes.push((data_len / 0x100) as u8);
    bytes.push((data_len % 0x100) as u8);
    assert(bytes@ == header(data@.len(), sequence, destination_id, channel_offset, push));
    push_all(&mut bytes, data);
    bytes
}

fn encode_rgb(colors: &[RgbColor]) -> (rgb: Vec<u8>)
    ensures
        rgb@ == rgb_bytes(colors@),
{
    let mut rgb: Vec<u8> = Vec::new();
    for i in 0..colors.len()
        invariant
            rgb@ == rgb_bytes(colors@.take(i as int)),
    {
        rgb.push(colors[i].r);
        rgb.push(colors[i].g);
        rgb.push(colors[i].b);
        assert(rgb@ == rgb_bytes(colors@.take(i + 1)));
    }
    assert(colors@.take(colors@.len() as int) == colors@);
    rgb
}

/// Turns a frame into packets. The second result is the sequence number of the
/// last of them, from which the next frame goes on.
pub fn encode_ddp_frame(
    colors: &[RgbColor],
    previous_sequence: u8,
    destination_id: u8,
) -> (encoded: (Vec<Vec<u8>>, u8))
    requires
        colors@.len() * 3 + DDP_MAX_DATA_LEN <= usize::MAX,
    ensures
        encoded.0@.len() == packet_count(colors@.len() * 3),
        forall|k: int|
            0 <= k < encoded.0@.len() ==> (#[trigger] encoded.0@[k])@ == frame_packets(
                colors@,
                previous_sequence,
                destination_id,
            )[k],
        encoded.1 == sequence_at(previous_sequence, packet_count(colors@.len() * 3)),
{
    let rgb = encode_rgb(colors);
    let mut packets: Vec<Vec<u8>> = Vec::new();
    let mut offset: usize = 0;
    let mut sequence: u8 = previous_sequence;
    if rgb.len() == 0 {
        sequence = next_sequence(sequence);
        reveal_with_fuel(sequence_at, 2);
        let bytes = encode_packet(rgb.as_slice(), sequence, destination_id, 0, true);
        assert(rgb@.subrange(0, chunk_end(0, 0)) == rgb@);
        packets.push(bytes);
        return (packets, sequence);
    }
    while offset < rgb.len()
        invariant
            rgb@ == rgb_bytes(colors@),
            rgb@.len() > 0,
            rgb@.len() + DDP_MAX_DATA_LEN <= usize::MAX,
            offset <= rgb.len(),
            offset < rgb.len() ==> offset == 1440 * packets@.len(),
            offset == rgb.len() ==> packets@.len() == packet_count(rgb@.len()),
            packets@.len() <= packet_count(rgb@.len()),
            sequence == sequence_at(previous_sequence, packets@.len()),
            forall|k: int|
                0 <= k < packets@.len() ==> (#[trigger] packets@[k])@ == frame_packet(
                    rgb@,
                    previous_sequence,
                    destination_id,
                    k,
                ),
        decreases rgb.len() - offset,
    {
        let end: usize = if offset + DDP_MAX_DATA_LEN < rgb.len() {
            offset + DDP_MAX_DATA_LEN
        } else {
            rgb.len()
        };
        let is_last = end == rgb.len();
        sequence = next_sequence(sequence);
        let data = vstd::slice::slice_subrange(rgb.as_slice(), offset, end);
        let channel_offset: u32 = (offset as u64 % 0x1_0000_0000u64) as u32;
        let ghost k = packets@.len() as int;
        assert(k + 1 == packet_count(rgb@.len()) <==> is_last);
        packets.push(encode_packet(data, sequence, destination_id, channel_offset, is_last));
        offset = end;
    }
    (packets, sequence)
}

/// Why a streamer could not be made.
#[derive(Debug, Clone, Copy, PartialEq, Eq, Structural)]
pub enum DdpError {
    /// Destination 0 is reserved; 1 is the default WLED display.
    InvalidDestination,
}

impl DdpError {
    pub fn message(self) -> (text: &'static str)
        ensures
            text@ == "DDP destination ID 0 is invalid; use 1 for the default WLED display"@,
    {
        "DDP destination ID 0 is invalid; use 1 for the default WLED display"
    }
}

/// How sending one packet ended.
#[derive(Debug, Clone, Copy, PartialEq, Eq, Structural)]
pub enum SendResult {
    Sent,
    WouldBlock,
    Interrupted,
    Failed,
}

/// What to do after a packet.
#[derive(Debug, Clone, Copy, PartialEq, Eq, Structural)]
pub enum SendStep {
    /// Go on with the next packet.
    Continue,
    /// Give up the rest of the frame without an error.
    DropFrame,
    /// Report the failure.
    Fail,
}

/// Realtime output is lossy by design: a packet that the network cannot take
/// now ends the frame quietly, since the next full frame repairs the state.
pub fn after_send(result: SendResult) -> (step: SendStep)
    ensures
        step == (match result {
            SendResult::Sent => SendStep::Continue,
            SendResult::WouldBlock => SendStep::DropFrame,
            SendResult::Interrupted => SendStep::DropFrame,
            SendResult::Failed => SendStep::Fail,
        }),
{
    match result {
        SendResult::Sent => SendStep::Continue,
        SendResult::WouldBlock => SendStep::DropFrame,
        SendResult::Interrupted => SendStep::DropFrame,
        SendResult::Failed => SendStep::Fail,
    }
}

/// The sending side of a DDP connection: where frames go, and the sequence
/// number of the last packet.
pub struct WledDdpStreamer {
    destination_id: u8,
    sequence: u8,
}

impl WledDdpStreamer {
    pub closed spec fn destination(&self) -> u8 {
        self.destination_id
    }

    /// The sequence number of the last packet; zero before the first.
    pub closed spec fn last_sequence(&self) -> u8 {
        self.sequence
    }

    /// A streamer never addresses destination 0, and counts no further than 15.
    pub open spec fn wf(&self) -> bool {
        self.destination() != 0 && self.last_sequence() <= 15
    }

    pub fn new(destination_id: u8) -> (streamer: Result<Self, DdpError>)
        ensures
            match streamer {
                Ok(s) => destination_id != 0 && s.wf() && s.destination() == destination_id
                    && s.last_sequence() == 0,
                Err(e) => destination_id == 0 && e == DdpError::InvalidDestination,
            },
    {
        if destination_id == 0 {
            return Err(DdpError::InvalidDestination);
        }
        Ok(WledDdpStreamer { destination_id, sequence: 0 })
    }

    /// The packets for the next frame, in the order in which to send them.
    pub fn send_frame(&mut self, colors: &[RgbColor]) -> (packets: Vec<Vec<u8>>)
        requires
            old(self).wf(),
            colors@.len() * 3 + DDP_MAX_DATA_LEN <= usize::MAX,
        ensures
            final(self).wf(),
            final(self).destination() == old(self).destination(),
            final(self).last_sequence() == sequence_at(
                old(self).last_sequence(),
                packet_count(colors@.len() * 3),
            ),
            packets@.len() == packet_count(colors@.len() * 3),
            forall|k: int|
                0 <= k < packets@.len() ==> (#[trigger] packets@[k])@ == frame_packets(
                    colors@,
                    old(self).last_sequence(),
                    old(self).destination(),
                )[k],
    {
        let (packets, final_sequence) = encode_ddp_frame(
            colors,
            self.sequence,
            self.destination_id,
        );
        proof {
            sequence_numbers_run_from_1_to_15(
                self.sequence,
                packet_count(colors@.len() * 3),
            );
        }
        self.sequence = final_sequence;
        packets
    }
}

/// Every packet's sequence number lies between 1 and 15, whatever number the
/// stream began with: zero, which means "not used", never appears.
pub proof fn sequence_numbers_run_from_1_to_15(previous: u8, steps: nat)
    requires
        steps > 0,
    ensures
        1 <= sequence_at(previous, steps) <= 15,
{
}

/// The live cycle has fifteen numbers: fifteen packets on, the same number
/// comes again, and no earlier.
pub proof fn sequence_numbers_repeat_after_15(previous: u8, steps: nat)
    requires
        1 <= previous <= 15,
    ensures
        sequence_at(previous, steps) == (previous - 1 + steps) % 15 + 1,
        steps > 0 && sequence_at(previous, steps) == previous ==> steps >= 15,
        sequence_at(previous, 15) == previous,
    decreases steps,
{
    lemma_sequence_closed_form(previous, steps);
    lemma_sequence_closed_form(previous, 15);
}

proof fn lemma_sequence_closed_form(previous: u8, steps: nat)
    requires
        1 <= previous <= 15,
    ensures
        sequence_at(previous, steps) == (previous - 1 + steps) % 15 + 1,
    decreases steps,
{
    if steps > 0 {
        lemma_sequence_closed_form(previous, (steps - 1) as nat);
    }
}

/// Frames follow each other without a gap in the numbering: two frames use the
/// numbers that one frame with as many packets would use.
pub proof fn sequence_numbers_go_on_across_frames(previous: u8, first: nat, second: nat)
    ensures
        sequence_at(sequence_at(previous, first), second) == sequence_at(previous, first + second),
    decreases second,
{
    if second > 0 {
        sequence_numbers_go_on_across_frames(previous, first, (second - 1) as nat);
        assert((first + second - 1) as nat == first + (second - 1) as nat);
    }
}

/// Only the last packet of a frame asks the receiver to show it, no packet is
/// larger than 1450 bytes, and no LED is split over two packets.
pub proof fn only_the_last_packet_pushes(
    colors: Seq<RgbColor>,
    previous_sequence: u8,
    destination_id: u8,
    k: int,
)
    requires
        0 <= k < packet_count(colors.len() * 3),
    ensures
        ({
            let p = frame_packets(colors, previous_sequence, destination_id)[k];
            &&& p[0] == DDP_VERSION_1 | DDP_PUSH <==> k == packet_count(colors.len() * 3) - 1
            &&& p[0] == DDP_VERSION_1 <==> k < packet_count(colors.len() * 3) - 1
            &&& 10 <= p.len() <= 1450
            &&& (p.len() - 10) % 3 == 0
        }),
{
    assert(0x40u8 | 0x01u8 == 0x41u8) by (bit_vector);
    let n = colors.len() * 3;
    let rgb = rgb_bytes(colors);
    assert(1440 * k <= n);
    assert(rgb.subrange(1440 * k, chunk_end(n, k)).len() == chunk_end(n, k) - 1440 * k);
}

/// Where a packet says that its data belongs.
pub open spec fn packet_offset(p: Seq<u8>) -> int {
    p[4] * 0x100_0000 + p[5] * 0x1_0000 + p[6] * 0x100 + p[7]
}

/// The length that a packet gives for its data.
pub open spec fn packet_data_len(p: Seq<u8>) -> int {
    p[8] * 0x100 + p[9]
}

/// What a receiver holds after one packet: the packet's data at its offset, the
/// rest as before.
pub open spec fn received_one(held: Seq<u8>, p: Seq<u8>) -> Seq<u8> {
    Seq::new(
        held.len(),
        |i: int|
            if packet_offset(p) <= i < packet_offset(p) + packet_data_len(p) {
                p[10 + i - packet_offset(p)]
            } else {
                held[i]
            },
    )
}

/// What a receiver holds after all of `packets`.
pub open spec fn received(held: Seq<u8>, packets: Seq<Seq<u8>>) -> Seq<u8>
    decreases packets.len(),
{
    if packets.len() == 0 {
        held
    } else {
        received_one(received(held, packets.drop_last()), packets.last())
    }
}

/// A receiver that puts each packet's data where its header says ends up with
/// exactly the frame that was sent, whatever it held before.
pub proof fn receiver_recovers_the_frame(
    colors: Seq<RgbColor>,
    previous_sequence: u8,
    destination_id: u8,
    held: Seq<u8>,
)
    requires
        held.len() == colors.len() * 3,
        colors.len() * 3 <= 0x1_0000_0000,
    ensures
        received(held, frame_packets(colors, previous_sequence, destination_id)) == rgb_bytes(
            colors,
        ),
{
    let packets = frame_packets(colors, previous_sequence, destination_id);
    lemma_received_prefix(colors, previous_sequence, destination_id, held, packets.len() as int);
    assert(packets.take(packets.len() as int) == packets);
}

/// Realtime output is lossy by design: whatever part of a frame was dropped, the
/// next full frame repairs it.
pub proof fn a_full_frame_repairs_a_dropped_one(
    dropped: Seq<RgbColor>,
    arrived: int,
    colors: Seq<RgbColor>,
    previous_sequence: u8,
    destination_id: u8,
    held: Seq<u8>,
)
    requires
        held.len() == colors.len() * 3,
        colors.len() * 3 <= 0x1_0000_0000,
        0 <= arrived <= packet_count(dropped.len() * 3),
    ensures
        ({
            let first = frame_packets(dropped, previous_sequence, destination_id);
            let next = sequence_at(previous_sequence, first.len());
            received(
                received(held, first.take(arrived)),
                frame_packets(colors, next, destination_id),
            ) == rgb_bytes(colors)
        }),
{
    let first = frame_packets(dropped, previous_sequence, destination_id);
    let next = sequence_at(previous_sequence, first.len());
    lemma_received_len(held, first.take(arrived));
    receiver_recovers_the_frame(
        colors,
        next,
        destination_id,
        received(held, first.take(arrived)),
    );
}

proof fn lemma_received_len(held: Seq<u8>, packets: Seq<Seq<u8>>)
    ensures
        received(held, packets).len() == held.len(),
    decreases packets.len(),
{
    if packets.len() > 0 {
        lemma_received_len(held, packets.drop_last());
    }
}

proof fn lemma_received_prefix(
    colors: Seq<RgbColor>,
    previous_sequence: u8,
    destination_id: u8,
    held: Seq<u8>,
    k: int,
)
    requires
        held.len() == colors.len() * 3,
        colors.len() * 3 <= 0x1_0000_0000,
        0 <= k <= packet_count(colors.len() * 3),
    ensures
        received(held, frame_packets(colors, previous_sequence, destination_id).take(k))
            == Seq::new(
            held.len(),
            |i: int|
                if i < 1440 * k {
                    rgb_bytes(colors)[i]
                } else {
                    held[i]
                },
        ),
    decreases k,
{
    let packets = frame_packets(colors, previous_sequence, destination_id);
    let rgb = rgb_bytes(colors);
    if k == 0 {
        assert(packets.take(0).len() == 0);
        assert(held == Seq::new(
            held.len(),
            |i: int|
                if i < 0 {
                    rgb[i]
                } else {
                    held[i]
                },
        ));
    } else {
        lemma_received_prefix(colors, previous_sequence, destination_id, held, k - 1);
        assert(packets.take(k).drop_last() == packets.take(k - 1));
        let p = packets[k - 1];
        assert(packets.take(k).last() == p);
        let data = rgb.subrange(1440 * (k - 1), chunk_end(rgb.len(), k - 1));
        let offset = (1440 * (k - 1)) as u32;
        lemma_packet_fields(
            data,
            sequence_at(previous_sequence, k as nat),
            destination_id,
            offset,
            k == packet_count(rgb.len()),
        );
        assert(p == packet(
            data,
            sequence_at(previous_sequence, k as nat),
            destination_id,
            offset,
            k == packet_count(rgb.len()),
        ));
        let before = received(held, packets.take(k - 1));
        assert forall|i: int| 0 <= i < held.len() implies received_one(before, p)[i] == (if i
            < 1440 * k {
            rgb[i]
        } else {
            held[i]
        }) by {
            if 1440 * (k - 1) <= i < chunk_end(rgb.len(), k - 1) {
                assert(data[i - 1440 * (k - 1)] == rgb[i]);
            }
        }
    }
}

proof fn lemma_packet_fields(
    data: Seq<u8>,
    sequence: u8,
    destination_id: u8,
    channel_offset: u32,
    push: bool,
)
    requires
        data.len() < 0x1_0000,
    ensures
        ({
            let p = packet(data, sequence, destination_id, channel_offset, push);
            &&& packet_offset(p) == channel_offset
            &&& packet_data_len(p) == data.len()
            &&& forall|i: int| 0 <= i < data.len() ==> p[10 + i] == #[trigger] data[i]
        }),
{
    lemma_be32(channel_offset);
    let p = packet(data, sequence, destination_id, channel_offset, push);
    let h = header(data.len(), sequence, destination_id, channel_offset, push);
    assert(h.len() == 10);
    assert(h.subrange(4, 8) == be32(channel_offset));
    assert(h.subrange(8, 10) == be16(data.len() as u16));
    assert(p[4] == h.subrange(4, 8)[0]);
    assert(p[5] == h.subrange(4, 8)[1]);
    assert(p[6] == h.subrange(4, 8)[2]);
    assert(p[7] == h.subrange(4, 8)[3]);
    assert(p[8] == h.subrange(8, 10)[0]);
    assert(p[9] == h.subrange(8, 10)[1]);
}

proof fn lemma_be32(value: u32)
    ensures
        be32(value)[0] * 0x100_0000 + be32(value)[1] * 0x1_0000 + be32(value)[2] * 0x100
            + be32(value)[3] == value,
{
    assert(value == (value / 0x100_0000) * 0x100_0000 + (value / 0x1_0000 % 0x100) * 0x1_0000 + (
    value / 0x100 % 0x100) * 0x100 + value % 0x100) by (bit_vector);
}

/// The packets of a frame as they go over the wire.
pub open spec fn wire(packets: Seq<Vec<u8>>) -> Seq<Seq<u8>> {
    Seq::new(packets.len(), |k: int| packets[k]@)
}

/// What a receiver shows for LED `i`: its red, green and blue byte.
pub open spec fn led_shows(held: Seq<u8>, i: int, color: RgbColor) -> bool {
    held[3 * i] == color.r && held[3 * i + 1] == color.g && held[3 * i + 2] == color.b
}

/// A receiver that puts each packet's data where its header says shows every LED of
/// the frame in its own colour, whatever it held before.
pub proof fn every_led_arrives(
    streamer: &mut WledDdpStreamer,
    colors: &[RgbColor],
    packets: Vec<Vec<u8>>,
    held: Seq<u8>,
    i: int,
)
    requires
        call_ensures(WledDdpStreamer::send_frame, (streamer, colors), packets),
        held.len() == colors@.len() * 3,
        colors@.len() * 3 <= 0x1_0000_0000,
        0 <= i < colors@.len(),
    ensures
        received(held, wire(packets@)).len() == held.len(),
        led_shows(received(held, wire(packets@)), i, colors@[i]),
{
    let sent = frame_packets(colors@, old(streamer).last_sequence(), old(streamer).destination());
    assert forall|k: int| 0 <= k < sent.len() implies #[trigger] wire(packets@)[k] == sent[k] by {
        assert(packets@[k]@ == sent[k]);
    }
    assert(wire(packets@) == sent);
    receiver_recovers_the_frame(
        colors@,
        old(streamer).last_sequence(),
        old(streamer).destination(),
        held,
    );
    assert((3 * i) / 3 == i && (3 * i) % 3 == 0);
    assert((3 * i + 1) / 3 == i && (3 * i + 1) % 3 == 1);
    assert((3 * i + 2) / 3 == i && (3 * i + 2) % 3 == 2);
}

/// Every packet says what it is: protocol version one, RGB with eight bits, the
/// streamer's destination, and a number that follows that of the packet before, in
/// the same frame or the last one. Only the last packet of a frame shows it. All
/// packets but the last are full, with 480 LEDs, and an empty frame is one packet.
pub proof fn every_packet_says_what_it_is(
    streamer: &mut WledDdpStreamer,
    colors: &[RgbColor],
    packets: Vec<Vec<u8>>,
    k: int,
)
    requires
        call_ensures(WledDdpStreamer::send_frame, (streamer, colors), packets),
        old(streamer).wf(),
        0 <= k < packets@.len(),
    ensures
        ({
            let p = packets@[k]@;
            let before = if k == 0 {
                old(streamer).last_sequence()
            } else {
                packets@[k - 1]@[1]
            };
            let last = k + 1 == packets@.len();
            &&& p.len() >= 10
            &&& p[0] == (if last {
                0x41u8
            } else {
                0x40u8
            })
            &&& p[1] == (if before == 15 {
                1int
            } else {
                before + 1
            })
            &&& p[2] == 0x0b
            &&& p[3] == old(streamer).destination()
            &&& !last ==> p.len() == 1450
            &&& last ==> p.len() - 10 == 3 * colors@.len() - 1440 * k
            &&& last ==> final(streamer).last_sequence() == p[1]
            &&& packet_data_len(p) == p.len() - 10
        }),
        final(streamer).destination() == old(streamer).destination(),
        colors@.len() == 0 ==> packets@.len() == 1,
        colors@.len() > 0 ==> 480 * (packets@.len() - 1) < colors@.len() <= 480 * packets@.len(),
{
    let first = old(streamer).last_sequence();
    let n = colors@.len() * 3;
    let rgb = rgb_bytes(colors@);
    assert(packets@[k]@ == frame_packets(colors@, first, old(streamer).destination())[k]);
    sequence_numbers_run_from_1_to_15(first, (k + 1) as nat);
    assert(rgb.subrange(1440 * k, chunk_end(n, k)).len() == chunk_end(n, k) - 1440 * k);
    if k > 0 {
        assert(packets@[k - 1]@ == frame_packets(colors@, first, old(streamer).destination())[k
            - 1]);
        sequence_numbers_run_from_1_to_15(first, k as nat);
        assert(rgb.subrange(1440 * (k - 1), chunk_end(n, k - 1)).len() == 1440);
        assert((k - 1 + 1) as nat == k as nat);
    }
    assert(sequence_at(first, (k + 1) as nat) == sequence_after(sequence_at(first, k as nat)));
}

/// A streamer keeps the destination that it was made for, which is never zero, and
/// begins to count at one.
pub proof fn a_streamer_has_a_destination(
    destination_id: u8,
    made: Result<WledDdpStreamer, DdpError>,
)
    requires
        call_ensures(WledDdpStreamer::new, (destination_id,), made),
    ensures
        made is Ok <==> destination_id != 0,
        made matches Ok(streamer) ==> streamer.destination() == destination_id
            && streamer.last_sequence() == 0,
        made matches Err(error) ==> error is InvalidDestination,
{
}

/// A packet carries its data unchanged behind a header that gives its offset and
/// length back, and a number below sixteen.
pub proof fn a_packet_can_be_read_back(
    data: &[u8],
    sequence: u8,
    destination_id: u8,
    channel_offset: u32,
    push: bool,
    bytes: Vec<u8>,
)
    requires
        call_ensures(encode_packet, (data, sequence, destination_id, channel_offset, push), bytes),
        data@.len() <= 0xffff,
    ensures
        bytes@.len() == 10 + data@.len(),
        bytes@.skip(10) == data@,
        packet_offset(bytes@) == channel_offset,
        packet_data_len(bytes@) == data@.len(),
        bytes@[0] == (if push {
            0x41u8
        } else {
            0x40u8
        }),
        sequence < 16 ==> bytes@[1] == sequence,
        bytes@[1] < 16,
        bytes@[2] == 0x0b,
        bytes@[3] == destination_id,
{
    let o = channel_offset as int;
    assert(o == (o / 0x100_0000) * 0x100_0000 + (o / 0x1_0000 % 0x100) * 0x1_0000 + (o / 0x100
        % 0x100) * 0x100 + o % 0x100);
    assert(bytes@.skip(10) == data@);
}

/// Numbers go from 1 to 15 and round again, and never back to zero.
pub proof fn numbers_go_round(previous: u8, sequence: u8)
    requires
        call_ensures(next_sequence, (previous,), sequence),
    ensures
        1 <= sequence <= 15,
        previous < 15 ==> sequence == previous + 1,
        previous >= 15 ==> sequence == 1,
{
}

/// A frame is encoded as a streamer with the same number and destination sends it.
pub proof fn a_streamer_sends_what_is_encoded(
    streamer: &mut WledDdpStreamer,
    colors: &[RgbColor],
    packets: Vec<Vec<u8>>,
    encoded: (Vec<Vec<u8>>, u8),
)
    requires
        call_ensures(WledDdpStreamer::send_frame, (streamer, colors), packets),
        call_ensures(
            encode_ddp_frame,
            (colors, old(streamer).last_sequence(), old(streamer).destination()),
            encoded,
        ),
    ensures
        wire(encoded.0@) == wire(packets@),
        encoded.1 == final(streamer).last_sequence(),
{
    let sent = frame_packets(colors@, old(streamer).last_sequence(), old(streamer).destination());
    assert forall|k: int| 0 <= k < packets@.len() implies #[trigger] wire(packets@)[k] == wire(
        encoded.0@,
    )[k] by {
        assert(packets@[k]@ == sent[k]);
        assert(encoded.0@[k]@ == sent[k]);
    }
    assert(wire(encoded.0@) == wire(packets@));
}

/// A packet that the network cannot take right now costs the rest of the frame and
/// no more; only another failure is reported.
pub proof fn a_busy_network_costs_one_frame(result: SendResult, step: SendStep)
    requires
        call_ensures(after_send, (result,), step),
    ensures
        step is Continue <==> result is Sent,
        step is DropFrame <==> result is WouldBlock || result is Interrupted,
        step is Fail <==> result is Failed,
{
}

} // verus!
