//! One quantum of audio and the packet that carries it over the socket.

use crate::bytes::{be_bytes, be_value, byte_span, le_bytes, le_value, signed_of, unsigned_of};
use crate::bytes::{be_round_trip, le_round_trip, lemma_le_bytes_len, signed_round_trip};
use crate::bytes::{le_value_of_eight, le_value_of_four, push_le, push_le_i64};
use frame_header::{EncodingFlag, Endianness};
use vstd::prelude::*;

verus! {

/// Samples are signed 24-bit integers.
pub const BITS_PER_SAMPLE: u8 = 24;

/// The most samples per channel that one frame header can announce.
pub const DEFAULT_MAX_FRAMES: usize = 4095;

/// The longest encoded frame header.
pub const MAX_HEADER_BYTES: usize = 20;

/// The sample clock between the length prefix and the frame header.
pub const SAMPLE_CLOCK_BYTES: usize = 12;

/// A quantum of interleaved 24-bit samples with its place on the sample clock.
#[derive(Debug)]
pub struct QueuedFrame {
    pub sample_position: i64,
    pub transport_generation: u32,
    pub data: Vec<u8>,
}

impl View for QueuedFrame {
    type V = (i64, u32, Seq<u8>);

    open spec fn view(&self) -> (i64, u32, Seq<u8>) {
        (self.sample_position, self.transport_generation, self.data@)
    }
}

/// How the samples of a frame are coded: `frame_header::EncodingFlag`.
#[verifier::external_type_specification]
pub struct ExEncodingFlag(EncodingFlag);

/// The byte order of the samples of a frame: `frame_header::Endianness`.
#[verifier::external_type_specification]
pub struct ExEndianness(Endianness);

/// The number of an encoding in a frame header.
pub open spec fn encoding_code(encoding: EncodingFlag) -> nat {
    match encoding {
        EncodingFlag::PCMSigned => 0,
        EncodingFlag::PCMFloat => 1,
        EncodingFlag::Opus => 2,
        EncodingFlag::FLAC => 3,
        EncodingFlag::AAC => 4,
        EncodingFlag::H264 => 5,
    }
}

/// The number of a sample rate in a frame header.
pub open spec fn rate_code(sample_rate: u32) -> nat {
    if sample_rate == 16_000 {
        0
    } else if sample_rate == 44_100 {
        1
    } else if sample_rate == 48_000 {
        2
    } else {
        3
    }
}

/// The sample rates that a frame header can announce.
pub open spec fn rate_supported(sample_rate: u32) -> bool {
    sample_rate == 16_000 || sample_rate == 44_100 || sample_rate == 48_000 || sample_rate == 96_000
}

/// The channel counts that a frame header can announce.
pub open spec fn channels_supported(channels: u8) -> bool {
    1 <= channels <= 16
}

/// The values that a frame header can hold.
pub open spec fn header_representable(
    sample_size: u16,
    sample_rate: u32,
    channels: u8,
    bits_per_sample: u8,
) -> bool {
    &&& channels_supported(channels)
    &&& bits_per_sample == 16 || bits_per_sample == 24 || bits_per_sample == 32
    &&& sample_size <= 0xFFF
    &&& rate_supported(sample_rate)
}

/// The 32-bit word that opens a frame header. From the top: a 6-bit mark, 2 bits of sample rate,
/// 2 bits of sample width, a flag for a time stamp, a flag for an identifier, 3 bits of encoding,
/// a flag for big-endian samples, 4 bits of channels less one and 12 bits of samples per channel.
pub open spec fn header_word(
    encoding: EncodingFlag,
    sample_size: u16,
    sample_rate: u32,
    channels: u8,
    bits_per_sample: u8,
    endianness: Endianness,
    has_id: bool,
    has_pts: bool,
) -> nat {
    (0x2A * 0x400_0000 + rate_code(sample_rate) * 0x100_0000 + (bits_per_sample / 8 - 2) * 0x40_0000
        + (if has_pts {
        0x20_0000
    } else {
        0int
    }) + (if has_id {
        0x10_0000
    } else {
        0int
    }) + encoding_code(encoding) * 0x2_0000 + (if endianness is BigEndian {
        0x1_0000
    } else {
        0int
    }) + (channels - 1) * 0x1000 + sample_size) as nat
}

/// An optional 64-bit field of a frame header.
pub open spec fn header_field(field: Option<u64>) -> Seq<u8> {
    match field {
        Some(value) => be_bytes(value as nat, 8),
        None => Seq::empty(),
    }
}

/// A whole frame header: its word, then the identifier and the time stamp where there are any.
pub open spec fn header_bytes(
    encoding: EncodingFlag,
    sample_size: u16,
    sample_rate: u32,
    channels: u8,
    bits_per_sample: u8,
    endianness: Endianness,
    id: Option<u64>,
    pts: Option<u64>,
) -> Seq<u8> {
    be_bytes(
        header_word(
            encoding,
            sample_size,
            sample_rate,
            channels,
            bits_per_sample,
            endianness,
            id is Some,
            pts is Some,
        ),
        4,
    ) + header_field(id) + header_field(pts)
}

/// `frame_header::FrameHeader::new` and `frame_header::FrameHeader::encode`: appends the header
/// with these fields to `out`.
///
/// It succeeds exactly for the values that a header can hold, and then appends the documented
/// layout. Otherwise it says what is wrong and leaves `out` alone. What the message says is left
/// unsaid.
#[verifier::external_body]
fn encode_header(
    encoding: EncodingFlag,
    sample_size: u16,
    sample_rate: u32,
    channels: u8,
    bits_per_sample: u8,
    endianness: Endianness,
    id: Option<u64>,
    pts: Option<u64>,
    out: &mut Vec<u8>,
) -> (r: Result<(), String>)
    ensures
        r is Ok <==> header_representable(sample_size, sample_rate, channels, bits_per_sample),
        r is Ok ==> final(out)@ == old(out)@ + header_bytes(
            encoding,
            sample_size,
            sample_rate,
            channels,
            bits_per_sample,
            endianness,
            id,
            pts,
        ),
        r is Err ==> final(out)@ == old(out)@,
{
    let header = frame_header::FrameHeader::new(
        encoding, sample_size, sample_rate, channels, bits_per_sample, endianness, id, pts,
    )?;
    match header.encode(out) {
        Ok(()) => Ok(()),
        Err(error) => Err(error.to_string()),
    }
}

/// The bytes that one sample of every channel takes.
pub open spec fn frame_stride(num_channels: u8) -> nat {
    num_channels as nat * 3
}

/// Whether a quantum of `len` bytes can be announced by a frame header: it holds at least one
/// sample, no part of one, and no more than a header can count.
pub open spec fn sendable(len: nat, num_channels: u8) -> bool {
    &&& len > 0
    &&& len % frame_stride(num_channels) == 0
    &&& len / frame_stride(num_channels) <= DEFAULT_MAX_FRAMES
}

/// The header of a quantum of `len` bytes on stream `id`.
pub open spec fn quantum_header(len: nat, id: u64, num_channels: u8, sample_rate: u32) -> Seq<u8> {
    header_bytes(
        EncodingFlag::PCMSigned,
        (len / frame_stride(num_channels)) as u16,
        sample_rate,
        num_channels,
        BITS_PER_SAMPLE,
        Endianness::LittleEndian,
        Some(id),
        None,
    )
}

/// The packet of `frame` on stream `id`: its own length, the sample clock, the header, the audio.
pub open spec fn packet(
    frame: (i64, u32, Seq<u8>),
    id: u64,
    num_channels: u8,
    sample_rate: u32,
) -> Seq<u8> {
    let header = quantum_header(frame.2.len(), id, num_channels, sample_rate);
    le_bytes(4 + SAMPLE_CLOCK_BYTES as nat + header.len() + frame.2.len(), 4) + le_bytes(
        unsigned_of(frame.0),
        8,
    ) + le_bytes(frame.1 as nat, 4) + header + frame.2
}

/// How an attempt to build a packet went: it was built, the quantum cannot be announced, or the
/// settings cannot.
pub enum Packing {
    Built,
    Unannounceable,
    Unsupported,
}

/// How an attempt went that gave `r`.
pub open spec fn outcome_of(r: Result<bool, String>) -> Packing {
    match r {
        Ok(true) => Packing::Built,
        Ok(false) => Packing::Unannounceable,
        Err(_) => Packing::Unsupported,
    }
}

/// What an attempt to build the packet of `frame` leads to.
pub open spec fn packs(
    frame: (i64, u32, Seq<u8>),
    id: u64,
    num_channels: u8,
    sample_rate: u32,
    outcome: Packing,
    header: Seq<u8>,
    buffer: Seq<u8>,
    header_after: Seq<u8>,
    buffer_after: Seq<u8>,
) -> bool {
    &&& outcome is Unannounceable <==> !sendable(frame.2.len(), num_channels)
    &&& outcome is Built <==> sendable(frame.2.len(), num_channels) && channels_supported(
        num_channels,
    ) && rate_supported(sample_rate)
    &&& match outcome {
        Packing::Built => {
            &&& header_after == quantum_header(frame.2.len(), id, num_channels, sample_rate)
            &&& buffer_after == packet(frame, id, num_channels, sample_rate)
        },
        Packing::Unannounceable => header_after == header && buffer_after == buffer,
        Packing::Unsupported => header_after == Seq::<u8>::empty() && buffer_after == buffer,
    }
}

/// Builds the packet of `frame` in `send_buffer`.
///
/// Returns `Ok(false)`, and touches nothing, for a quantum that no header can announce. Fails for a
/// sample rate or channel count that no header can announce.
pub fn pack_frame(
    frame: &QueuedFrame,
    id: u64,
    num_channels: u8,
    sample_rate: u32,
    header_data: &mut Vec<u8>,
    send_buffer: &mut Vec<u8>,
) -> (r: Result<bool, String>)
    requires
        num_channels > 0,
    ensures
        packs(
            frame@,
            id,
            num_channels,
            sample_rate,
            outcome_of(r),
            old(header_data)@,
            old(send_buffer)@,
            final(header_data)@,
            final(send_buffer)@,
        ),
{
    let bytes_per_frame: usize = num_channels as usize * 3;
    let len: usize = frame.data.len();
    let samples_per_channel: usize = len / bytes_per_frame;
    if len == 0 || len % bytes_per_frame != 0 || samples_per_channel > DEFAULT_MAX_FRAMES {
        return Ok(false);
    }
    proof {
        assert(len == samples_per_channel * bytes_per_frame) by (nonlinear_arith)
            requires
                samples_per_channel == len / bytes_per_frame,
                len % bytes_per_frame == 0,
                bytes_per_frame > 0,
        ;
        assert(len <= 4095 * 765) by (nonlinear_arith)
            requires
                len == samples_per_channel * bytes_per_frame,
                samples_per_channel <= 4095,
                bytes_per_frame <= 765,
        ;
    }
    header_data.clear();
    match encode_header(
        EncodingFlag::PCMSigned,
        samples_per_channel as u16,
        sample_rate,
        num_channels,
        BITS_PER_SAMPLE,
        Endianness::LittleEndian,
        Some(id),
        None,
        header_data,
    ) {
        Ok(()) => {},
        Err(message) => {
            return Err(message);
        },
    }
    proof {
        lemma_quantum_header_len(len as nat, id, num_channels, sample_rate);
        assert(header_data@ =~= quantum_header(len as nat, id, num_channels, sample_rate));
    }
    let total_size: usize = 4 + header_data.len() + len + SAMPLE_CLOCK_BYTES;
    send_buffer.clear();
    push_le(send_buffer, total_size as u64, 4);
    push_le_i64(send_buffer, frame.sample_position);
    push_le(send_buffer, frame.transport_generation as u64, 4);
    send_buffer.extend_from_slice(header_data.as_slice());
    send_buffer.extend_from_slice(frame.data.as_slice());
    assert(send_buffer@ =~= packet(frame@, id, num_channels, sample_rate));
    Ok(true)
}

/// The header of a quantum is a word and an identifier.
pub proof fn lemma_quantum_header_len(len: nat, id: u64, num_channels: u8, sample_rate: u32)
    ensures
        quantum_header(len, id, num_channels, sample_rate).len() == 12,
{
    lemma_le_bytes_len(id as nat, 8);
    lemma_le_bytes_len(
        header_word(
            EncodingFlag::PCMSigned,
            (len / frame_stride(num_channels)) as u16,
            sample_rate,
            num_channels,
            BITS_PER_SAMPLE,
            Endianness::LittleEndian,
            true,
            false,
        ),
        4,
    );
}

/// Every field of a frame header can be read back from its word.
pub proof fn header_word_reads_back(
    encoding: EncodingFlag,
    sample_size: u16,
    sample_rate: u32,
    channels: u8,
    bits_per_sample: u8,
    endianness: Endianness,
    has_id: bool,
    has_pts: bool,
)
    requires
        header_representable(sample_size, sample_rate, channels, bits_per_sample),
    ensures
        ({
            let word = header_word(
                encoding,
                sample_size,
                sample_rate,
                channels,
                bits_per_sample,
                endianness,
                has_id,
                has_pts,
            );
            &&& word < byte_span(4)
            &&& word / 0x400_0000 == 0x2A
            &&& (word / 0x100_0000) % 4 == rate_code(sample_rate)
            &&& ((word / 0x40_0000) % 4 + 2) * 8 == bits_per_sample
            &&& (word / 0x20_0000) % 2 == 1 <==> has_pts
            &&& (word / 0x10_0000) % 2 == 1 <==> has_id
            &&& (word / 0x2_0000) % 8 == encoding_code(encoding)
            &&& (word / 0x1_0000) % 2 == 1 <==> endianness is BigEndian
            &&& (word / 0x1000) % 16 + 1 == channels
            &&& word % 0x1000 == sample_size
        }),
{
    reveal_with_fuel(byte_span, 5);
    let mark_rate: nat = 0x2A * 4 + rate_code(sample_rate);
    let to_bits: nat = mark_rate * 4 + (bits_per_sample / 8 - 2) as nat;
    let to_pts: nat = to_bits * 2 + (if has_pts { 1nat } else { 0 });
    let to_id: nat = to_pts * 2 + (if has_id { 1nat } else { 0 });
    let to_encoding: nat = to_id * 8 + encoding_code(encoding);
    let to_order: nat = to_encoding * 2 + (if endianness is BigEndian { 1nat } else { 0 });
    let to_channels: nat = to_order * 16 + (channels - 1) as nat;
    let word = header_word(
        encoding,
        sample_size,
        sample_rate,
        channels,
        bits_per_sample,
        endianness,
        has_id,
        has_pts,
    );
    assert(word == to_channels * 0x1000 + sample_size);
    lemma_word_part(word, to_channels, sample_size as nat, 0x1000, 1);
    lemma_word_part(word, to_order, (channels - 1) as nat, 16, 0x1000);
    lemma_word_part(word, to_encoding, (to_order % 2) as nat, 2, 0x1_0000);
    lemma_word_part(word, to_id, encoding_code(encoding), 8, 0x2_0000);
    lemma_word_part(word, to_pts, (to_id % 2) as nat, 2, 0x10_0000);
    lemma_word_part(word, to_bits, (to_pts % 2) as nat, 2, 0x20_0000);
    lemma_word_part(word, mark_rate, (bits_per_sample / 8 - 2) as nat, 4, 0x40_0000);
    lemma_word_part(word, 0x2A, rate_code(sample_rate), 4, 0x100_0000);
}

/// Splits `part` off the low end of what is left of `word` above its low `below` values.
proof fn lemma_word_part(word: nat, above: nat, part: nat, span: nat, below: nat)
    requires
        span > 0,
        below > 0,
        part < span,
        word / below == above * span + part,
    ensures
        (word / below) % span == part,
        word / (below * span) == above,
{
    let left = word / below;
    assert(left % span == part && left / span == above) by (nonlinear_arith)
        requires
            left == above * span + part,
            part < span,
            span > 0,
    ;
    vstd::arithmetic::div_mod::lemma_div_denominator(word as int, below as int, span as int);
}

/// A receiver reads from a packet exactly what went into it: the first four bytes give the length
/// of the whole packet, then come the sample position, the transport generation, the header and last
/// the audio, byte for byte. The header announces signed PCM in little-endian order, 24 bits wide,
/// with the stream and without a time stamp, the sample count, the channels and the rate.
pub proof fn packet_reads_back(
    frame: (i64, u32, Seq<u8>),
    id: u64,
    num_channels: u8,
    sample_rate: u32,
)
    requires
        sendable(frame.2.len(), num_channels),
        channels_supported(num_channels),
        rate_supported(sample_rate),
    ensures
        ({
            let bytes = packet(frame, id, num_channels, sample_rate);
            let word = be_value(bytes.subrange(16, 20));
            &&& bytes.len() == 28 + frame.2.len()
            &&& le_value(bytes.subrange(0, 4)) == bytes.len()
            &&& signed_of(le_value(bytes.subrange(4, 12))) == frame.0
            &&& le_value(bytes.subrange(12, 16)) == frame.1
            &&& word / 0x400_0000 == 0x2A
            &&& ((word / 0x40_0000) % 4 + 2) * 8 == 24
            &&& (word / 0x20_0000) % 2 == 0
            &&& (word / 0x10_0000) % 2 == 1
            &&& (word / 0x2_0000) % 8 == 0
            &&& (word / 0x1_0000) % 2 == 0
            &&& (word % 0x1000) * (num_channels * 3) == frame.2.len()
            &&& (word / 0x1000) % 16 + 1 == num_channels
            &&& (word / 0x100_0000) % 4 == rate_code(sample_rate)
            &&& be_value(bytes.subrange(20, 28)) == id
            &&& bytes.subrange(28, bytes.len() as int) == frame.2
        }),
{
    let len = frame.2.len();
    let stride = frame_stride(num_channels);
    let count = (len / stride) as u16;
    let bytes = packet(frame, id, num_channels, sample_rate);
    let header = quantum_header(len, id, num_channels, sample_rate);
    let word = header_word(
        EncodingFlag::PCMSigned,
        count,
        sample_rate,
        num_channels,
        BITS_PER_SAMPLE,
        Endianness::LittleEndian,
        true,
        false,
    );
    assert(len == (len / stride) * stride) by (nonlinear_arith)
        requires
            len % stride == 0,
            stride > 0,
    ;
    assert(len <= 4095 * 48) by (nonlinear_arith)
        requires
            len == (len / stride) * stride,
            len / stride <= 4095,
            0 < stride <= 48,
    ;
    lemma_quantum_header_len(len, id, num_channels, sample_rate);
    header_word_reads_back(
        EncodingFlag::PCMSigned,
        count,
        sample_rate,
        num_channels,
        BITS_PER_SAMPLE,
        Endianness::LittleEndian,
        true,
        false,
    );
    assert(byte_span(4) == 0x1_0000_0000 && byte_span(8) == 0x1_0000_0000_0000_0000) by {
        reveal_with_fuel(byte_span, 9);
    }
    le_round_trip(28 + len, 4);
    signed_round_trip(frame.0);
    le_round_trip(unsigned_of(frame.0), 8);
    le_round_trip(frame.1 as nat, 4);
    be_round_trip(word, 4);
    be_round_trip(id as nat, 8);
    assert(bytes.subrange(0, 4) =~= le_bytes(28 + len, 4));
    assert(bytes.subrange(4, 12) =~= le_bytes(unsigned_of(frame.0), 8));
    assert(bytes.subrange(12, 16) =~= le_bytes(frame.1 as nat, 4));
    assert(bytes.subrange(16, 20) =~= be_bytes(word, 4));
    assert(bytes.subrange(20, 28) =~= be_bytes(id as nat, 8));
    assert(bytes.subrange(28, bytes.len() as int) =~= frame.2);
}

/// A quantum can be announced exactly if it holds between one and 4095 samples of every channel, each
/// of three bytes, and nothing else.
pub proof fn sendable_quanta_hold_whole_samples(len: nat, num_channels: u8)
    requires
        num_channels > 0,
    ensures
        sendable(len, num_channels) <==> exists|samples: nat|
            1 <= samples <= 4095 && len == #[trigger] (samples * (num_channels as nat * 3)),
{
    let stride = num_channels as nat * 3;
    if sendable(len, num_channels) {
        let samples = len / stride;
        assert(len == samples * stride && samples >= 1) by (nonlinear_arith)
            requires
                samples == len / stride,
                len % stride == 0,
                stride > 0,
                len > 0,
        ;
    }
    assert forall|samples: nat| 1 <= samples <= 4095 && len == #[trigger] (samples * stride) implies
        sendable(len, num_channels) by {
        assert(len % stride == 0 && len / stride == samples && len > 0) by (nonlinear_arith)
            requires
                len == samples * stride,
                stride > 0,
                samples >= 1,
        ;
    }
}

/// What stands in a packet, byte by byte, for every quantum that can be announced, on every stream
/// and with every channel count and rate. The two bytes after the mark and the rate are the same in
/// all packets but for the channels and the sample count.
pub proof fn packet_layout(
    frame: (i64, u32, Seq<u8>),
    id: u64,
    num_channels: u8,
    sample_rate: u32,
    samples: nat,
)
    requires
        1 <= samples <= 4095,
        1 <= num_channels <= 16,
        sample_rate == 16_000 || sample_rate == 44_100 || sample_rate == 48_000 || sample_rate
            == 96_000,
        frame.2.len() == samples * (num_channels as nat * 3),
    ensures
        ({
            let bytes = packet(frame, id, num_channels, sample_rate);
            &&& bytes.len() == 28 + frame.2.len()
            &&& bytes[0] + 0x100 * bytes[1] + 0x1_0000 * bytes[2] + 0x100_0000 * bytes[3]
                == 28 + frame.2.len()
            &&& bytes[4] + 0x100 * bytes[5] + 0x1_0000 * bytes[6] + 0x100_0000 * bytes[7]
                + 0x1_0000_0000 * bytes[8] + 0x100_0000_0000 * bytes[9] + 0x1_0000_0000_0000
                * bytes[10] + 0x100_0000_0000_0000 * bytes[11] == frame.0 + (if frame.0 < 0 {
                0x1_0000_0000_0000_0000
            } else {
                0int
            })
            &&& bytes[12] + 0x100 * bytes[13] + 0x1_0000 * bytes[14] + 0x100_0000 * bytes[15]
                == frame.1
            &&& bytes[16] == (if sample_rate == 16_000 {
                0xA8int
            } else if sample_rate == 44_100 {
                0xA9
            } else if sample_rate == 48_000 {
                0xAA
            } else {
                0xAB
            })
            &&& bytes[17] == 0x50
            &&& 0x100 * bytes[18] + bytes[19] == 0x1000 * (num_channels - 1) + samples
            &&& bytes[27] + 0x100 * bytes[26] + 0x1_0000 * bytes[25] + 0x100_0000 * bytes[24]
                + 0x1_0000_0000 * bytes[23] + 0x100_0000_0000 * bytes[22] + 0x1_0000_0000_0000
                * bytes[21] + 0x100_0000_0000_0000 * bytes[20] == id
            &&& bytes.subrange(28, bytes.len() as int) == frame.2
        }),
{
    let len = frame.2.len();
    let stride = frame_stride(num_channels);
    let bytes = packet(frame, id, num_channels, sample_rate);
    sendable_quanta_hold_whole_samples(len, num_channels);
    packet_reads_back(frame, id, num_channels, sample_rate);
    le_value_of_four(bytes.subrange(0, 4));
    le_value_of_eight(bytes.subrange(4, 12));
    signed_round_trip(frame.0);
    le_value_of_four(bytes.subrange(12, 16));
    let word_bytes = bytes.subrange(16, 20);
    let word = be_value(word_bytes);
    le_value_of_four(word_bytes.reverse());
    assert(word == 0x100_0000 * bytes[16] + 0x1_0000 * bytes[17] + 0x100 * bytes[18] + bytes[19]);
    assert(word % 0x1000 == samples) by (nonlinear_arith)
        requires
            (word % 0x1000) * stride == samples * stride,
            stride > 0,
    ;
    lemma_word_bytes(
        word as u32,
        bytes[16] as u32,
        bytes[17] as u32,
        bytes[18] as u32,
        bytes[19] as u32,
    );
    let id_bytes = bytes.subrange(20, 28);
    le_value_of_eight(id_bytes.reverse());
}

/// The parts of a header word in its four bytes.
proof fn lemma_word_bytes(word: u32, b0: u32, b1: u32, b2: u32, b3: u32)
    by (bit_vector)
    requires
        b0 < 256,
        b1 < 256,
        b2 < 256,
        b3 < 256,
        word == 0x100_0000 * b0 + 0x1_0000 * b1 + 0x100 * b2 + b3,
    ensures
        word / 0x400_0000 == b0 / 4,
        (word / 0x100_0000) % 4 == b0 % 4,
        (word / 0x40_0000) % 4 == b1 / 64,
        (word / 0x20_0000) % 2 == (b1 / 32) % 2,
        (word / 0x10_0000) % 2 == (b1 / 16) % 2,
        (word / 0x2_0000) % 8 == (b1 / 2) % 8,
        (word / 0x1_0000) % 2 == b1 % 2,
        (word / 0x1000) % 16 == b2 / 16,
        word % 0x1000 == (b2 % 16) * 0x100 + b3,
{
}

/// A packet is built exactly for a quantum of one up to 4095 whole samples of every channel, with a
/// channel count and a rate that a header can announce. Then it is the packet of that very quantum on
/// that very stream. Otherwise what stood in the send buffer still stands there, and the reason tells
/// whether the quantum or the settings are at fault.
pub proof fn packets_are_built_where_they_can_be(
    frame: (i64, u32, Seq<u8>),
    id: u64,
    num_channels: u8,
    sample_rate: u32,
    outcome: Packing,
    header: Seq<u8>,
    buffer: Seq<u8>,
    header_after: Seq<u8>,
    buffer_after: Seq<u8>,
)
    requires
        num_channels > 0,
        packs(
            frame,
            id,
            num_channels,
            sample_rate,
            outcome,
            header,
            buffer,
            header_after,
            buffer_after,
        ),
    ensures
        outcome is Unannounceable <==> !exists|samples: nat|
            1 <= samples <= 4095 && frame.2.len() == #[trigger] (samples * (num_channels as nat
                * 3)),
        outcome is Built <==> !(outcome is Unannounceable) && num_channels <= 16 && (sample_rate
            == 16_000 || sample_rate == 44_100 || sample_rate == 48_000 || sample_rate == 96_000),
        outcome is Built ==> buffer_after == packet(frame, id, num_channels, sample_rate),
        outcome is Built ==> header_after == buffer_after.subrange(16, 28),
        !(outcome is Built) ==> buffer_after == buffer,
{
    sendable_quanta_hold_whole_samples(frame.2.len(), num_channels);
    if outcome is Built {
        lemma_quantum_header_len(frame.2.len(), id, num_channels, sample_rate);
        lemma_le_bytes_len(28 + frame.2.len(), 4);
        lemma_le_bytes_len(unsigned_of(frame.0), 8);
        lemma_le_bytes_len(frame.1 as nat, 4);
        assert(header_after =~= buffer_after.subrange(16, 28));
    }
}

} // verus!
