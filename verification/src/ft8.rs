//! The bookkeeping of the streaming demodulator: how samples become
//! overlapping frames, how the rolling histories of a frequency bin are
//! kept and read, and the gates that a decoded candidate passes.

use crate::callsignmap::CallsignMap;
use crate::message::messagedata::MessageData;
use crate::message::Message;
use crate::utils::{bits_value, bool_slice_to_u16, bool_slice_to_u8, sub_array};
use std::collections::VecDeque;
use vstd::prelude::*;

verus! {

/// The power values that the history of a bin keeps.
pub const POWER_CAPACITY: usize = 132;

/// The soft bits that the history of a bin keeps: 65 symbols of three bits,
/// at two frames a symbol.
pub const SYMBOL_CAPACITY: usize = 390;

/// The symbols of a transmission that carry data.
pub const DATA_SYMBOLS: usize = 58;

/// The tones of the seven symbols of a synchronisation block.
pub const COSTAS: [u8; 7] = [3, 1, 4, 0, 6, 5, 2];

/// The table of tone offsets is in order: its first seven entries are the
/// synchronisation pattern, and the eighth is a tone too.
pub open spec fn tone_offsets_ok(tones: Seq<u8>) -> bool {
    &&& tones.len() == 8
    &&& forall|k: int| 0 <= k < 7 ==> tones[k] == COSTAS@[k]
    &&& tones[7] < 8
}

/// Tests that the table of tone offsets is in order.
pub fn check_tone_offsets(tones: &[u8; 8]) -> (ok: bool)
    ensures
        ok == tone_offsets_ok(tones@),
{
    let mut k: usize = 0;
    while k < 7
        invariant
            k <= 7,
            forall|i: int| 0 <= i < k ==> tones@[i] == COSTAS@[i],
        decreases 7 - k,
    {
        if tones[k] != COSTAS[k] {
            return false;
        }
        k += 1;
    }
    tones[7] < 8
}

/// The generator of the 14-bit checksum, with its leading bit.
pub const CRC_POLYNOMIAL: u16 = 0x6757;

/// One step of the checksum register: `bit` is shifted in, and the
/// generator is taken off where bit 14 comes out set.
pub open spec fn crc_shift(register: u16, bit: bool) -> u16 {
    let shifted: u16 = (register << 1) | (if bit { 1u16 } else { 0u16 });
    if shifted & 0x4000 != 0 {
        shifted ^ CRC_POLYNOMIAL
    } else {
        shifted
    }
}

/// The checksum register after `bits` were shifted in, first bit first.
pub open spec fn crc_register(bits: Seq<bool>) -> u16
    decreases bits.len(),
{
    if bits.len() == 0 {
        0
    } else {
        crc_shift(crc_register(bits.drop_last()), bits.last())
    }
}

/// The 14-bit checksum of a payload: the register after the payload and
/// 19 zero bits.
pub open spec fn crc14(payload: Seq<bool>) -> u16 {
    crc_register(payload + Seq::new(19, |i: int| false))
}

proof fn lemma_crc_shift(register: u16, bit: bool)
    requires
        register < 0x4000,
    ensures
        crc_shift(register, bit) < 0x4000,
        crc_shift(register, false) == (if (register << 1) & 0x4000 != 0 {
            (register << 1) ^ 0x6757
        } else {
            register << 1
        }),
{
    let b: u16 = if bit { 1 } else { 0 };
    assert(((register << 1) | b) & 0x4000 != 0 ==> (((register << 1) | b) ^ 0x6757) < 0x4000)
        by (bit_vector)
        requires
            register < 0x4000,
            b <= 1,
    ;
    assert(((register << 1) | b) & 0x4000 == 0 ==> ((register << 1) | b) < 0x4000)
        by (bit_vector)
        requires
            register < 0x4000,
            b <= 1,
    ;
    assert((register << 1) | 0u16 == register << 1) by (bit_vector);
}

/// The 14-bit checksum of a payload.
pub fn bitwise_crc14(bits: &[bool; 77]) -> (crc: u16)
    ensures
        crc == crc14(bits@),
        crc < 0x4000,
{
    let mut crc: u16 = 0;
    let poly: u16 = CRC_POLYNOMIAL;
    let mut k: usize = 0;
    while k < 77
        invariant
            k <= 77,
            poly == CRC_POLYNOMIAL,
            crc < 0x4000,
            crc == crc_register(bits@.take(k as int)),
        decreases 77 - k,
    {
        proof {
            assert(bits@.take(k + 1).drop_last() =~= bits@.take(k as int));
            lemma_crc_shift(crc, bits@[k as int]);
        }
        crc = (crc << 1) | if bits[k] { 1 } else { 0 };
        if crc & 0x4000 != 0 {
            crc ^= poly;
        }
        k += 1;
    }
    let mut z: usize = 0;
    proof {
        assert(bits@.take(77) =~= bits@ + Seq::new(0, |i: int| false));
    }
    while z < 19
        invariant
            z <= 19,
            poly == CRC_POLYNOMIAL,
            crc < 0x4000,
            crc == crc_register(bits@ + Seq::new(z as nat, |i: int| false)),
        decreases 19 - z,
    {
        proof {
            assert((bits@ + Seq::new((z + 1) as nat, |i: int| false)).drop_last() =~= bits@
                + Seq::new(z as nat, |i: int| false));
            lemma_crc_shift(crc, false);
        }
        crc = crc << 1;
        if crc & 0x4000 != 0 {
            crc ^= poly;
        }
        z += 1;
    }
    crc
}

/// The payload of a codeword: its first 77 bits.
pub fn payload(decoded: &[bool; 174]) -> (bits: [bool; 77])
    ensures
        bits@ == decoded@.subrange(0, 77),
{
    sub_array(decoded, 0)
}

/// Tests that the checksum of the payload is the number in bits 77..91 of
/// the codeword.
pub fn crc_matches(decoded: &[bool; 174]) -> (ok: bool)
    ensures
        ok == (crc14(decoded@.subrange(0, 77)) == bits_value(decoded@.subrange(77, 91))),
{
    let crc: [bool; 14] = sub_array(decoded, 77);
    let data: [bool; 77] = sub_array(decoded, 0);
    let decoded_crc = bool_slice_to_u16(&crc);
    bitwise_crc14(&data) == decoded_crc
}

/// The frame, counted from the oldest of the history, at which the `n`-th
/// data symbol begins: two frames a symbol, and after the 29th data symbol
/// the seven symbols of the middle synchronisation block are passed over.
pub open spec fn data_symbol_frame(n: int) -> int {
    if n < 29 {
        2 * n
    } else {
        2 * (n + 7)
    }
}

/// The place in the history of soft bits from which bit `i` of the soft
/// codeword is read: three soft bits a frame.
pub open spec fn soft_bit_position(i: int) -> int {
    3 * data_symbol_frame(i / 3) + i % 3
}

/// The frame at which the `n`-th data symbol begins.
pub fn symbol_frame(n: usize) -> (frame: usize)
    requires
        n < 58,
    ensures
        frame == data_symbol_frame(n as int),
        frame <= 128,
{
    if n < 29 {
        2 * n
    } else {
        2 * (n + 7)
    }
}

/// The soft codeword of a bin: `None` until the history holds more than
/// `SYMBOL_CAPACITY` soft bits, then the 174 soft bits of the 58 data
/// symbols.
pub fn gather_codeword<T: Copy>(symbols: &VecDeque<T>) -> (codeword: Option<Vec<T>>)
    ensures
        codeword is Some <==> symbols@.len() > SYMBOL_CAPACITY,
        codeword matches Some(soft) ==> soft@.len() == 174 && forall|i: int|
            0 <= i < 174 ==> soft@[i] == symbols@[soft_bit_position(i)],
{
    if symbols.len() <= SYMBOL_CAPACITY {
        return None;
    }
    let mut soft: Vec<T> = Vec::new();
    let mut i: usize = 0;
    while i < 174
        invariant
            i <= 174,
            symbols@.len() > 390,
            soft@.len() == i,
            forall|k: int| 0 <= k < i ==> soft@[k] == symbols@[soft_bit_position(k)],
        decreases 174 - i,
    {
        let position = 3 * symbol_frame(i / 3) + i % 3;
        soft.push(symbols[position]);
        i += 1;
    }
    Some(soft)
}

/// What a history keeps when it is cut to `capacity`: its newest entries.
pub open spec fn newest<T>(history: Seq<T>, capacity: int) -> Seq<T> {
    if history.len() > capacity {
        history.subrange(history.len() - capacity, history.len() as int)
    } else {
        history
    }
}

/// Cuts a history to `capacity`: the oldest entries leave first.
pub fn trim_history<T>(history: &mut VecDeque<T>, capacity: usize)
    ensures
        final(history)@ == newest(old(history)@, capacity as int),
{
    let ghost len = history@.len() as int;
    proof {
        assert(history@ =~= old(history)@.subrange(0, len));
    }
    while history.len() > capacity
        invariant
            len == old(history)@.len(),
            history@.len() <= len,
            len > capacity ==> history@.len() >= capacity,
            len <= capacity ==> history@.len() == len,
            history@ == old(history)@.subrange(len - history@.len(), len),
        decreases history@.len(),
    {
        history.pop_front();
        proof {
            assert(history@ =~= old(history)@.subrange(len - history@.len(), len));
        }
    }
}

/// Adds a value to a history and cuts it to `capacity`.
pub fn push_history<T>(history: &mut VecDeque<T>, value: T, capacity: usize)
    ensures
        final(history)@ == newest(old(history)@.push(value), capacity as int),
{
    history.push_back(value);
    trim_history(history, capacity);
}

/// The tone of the `n`-th data symbol of a codeword: the number in its
/// three bits.
pub fn symbol_tone(decoded: &[bool; 174], n: usize) -> (tone: u8)
    requires
        n < 58,
    ensures
        tone == bits_value(decoded@.subrange(3 * n, 3 * n + 3)),
        tone < 8,
{
    let bits: [bool; 3] = sub_array(decoded, 3 * n);
    proof {
        crate::utils::lemma_bits_value_bound(bits@);
        vstd::arithmetic::power2::lemma2_to64();
    }
    bool_slice_to_u8(&bits)
}

/// The frequency of a bin in Hz: bins are 3.125 Hz apart.
pub open spec fn bin_frequency(bin: nat) -> nat {
    bin * 625 / 200
}

/// The frequency of a bin in Hz.
pub fn frequency_hz(bin: usize) -> (hz: u32)
    requires
        bin_frequency(bin as nat) <= u32::MAX,
    ensures
        hz == bin_frequency(bin as nat),
{
    ((bin as u128) * 625 / 200) as u32
}

/// The quotient of `a` by a positive `b`, rounded towards zero.
pub open spec fn quotient_to_zero(a: int, b: int) -> int {
    if a >= 0 {
        a / b
    } else {
        -((-a) / b)
    }
}

/// The time in ms, from the start of the stream, at which a transmission
/// began that ends with the frame at `total_samples`, of samples at 12 kHz:
/// 71 symbols of half a window each lie before that frame.
pub open spec fn frame_time(total_samples: nat, fft_size: nat) -> int {
    quotient_to_zero((total_samples - (71 * fft_size) / 2) * 1000, 12000)
}

/// The time offset of a transmission in ms.
pub fn time_offset_ms(total_samples: usize, fft_size: usize) -> (ms: i64)
    requires
        i64::MIN <= frame_time(total_samples as nat, fft_size as nat) <= i64::MAX,
    ensures
        ms == frame_time(total_samples as nat, fft_size as nat),
{
    let total = total_samples as u128;
    let lead = 71 * (fft_size as u128) / 2;
    if total >= lead {
        (((total - lead) * 1000) / 12000) as i64
    } else {
        let back = ((lead - total) * 1000) / 12000;
        if back == 0 {
            0
        } else {
            (-((back - 1) as i64)) - 1
        }
    }
}

/// A decoded codeword is reported: its checksum is right, and its payload
/// is of a kind that is known.
pub open spec fn candidate_passes(decoded: Seq<bool>) -> bool {
    crc14(decoded.subrange(0, 77)) == bits_value(decoded.subrange(77, 91))
        && !MessageData::is_unknown_kind(decoded.subrange(0, 77))
}

/// The message of a decoded codeword that was heard in bin `bin`, in the
/// frame that ended at `total_samples`: `None` for a codeword that is not
/// reported, else the unpacked payload with its frequency and time.
pub fn accept_candidate(
    decoded: &[bool; 174],
    snr: i32,
    bin: usize,
    total_samples: usize,
    fft_size: usize,
    callsign_map: &CallsignMap,
) -> (accepted: Option<Message>)
    requires
        bin_frequency(bin as nat) <= u32::MAX,
        i64::MIN <= frame_time(total_samples as nat, fft_size as nat) <= i64::MAX,
    ensures
        accepted is Some <==> candidate_passes(decoded@),
        accepted matches Some(message) ==> {
            &&& message.snr == snr
            &&& message.freq_bin_hz == bin_frequency(bin as nat)
            &&& message.time_offset_ms == frame_time(total_samples as nat, fft_size as nat)
            &&& message.data.decoded_from(decoded@.subrange(0, 77), callsign_map)
        },
{
    if !crc_matches(decoded) {
        return None;
    }
    let data = payload(decoded);
    let message = Message::from_bits(
        snr,
        frequency_hz(bin),
        time_offset_ms(total_samples, fft_size),
        &data,
        callsign_map,
    );
    match message.data {
        MessageData::Unknown(_) => None,
        _ => Some(message),
    }
}

/// The end of the band, which is the first bin past it: the bin that the
/// upper frequency gives, but at most the bin from which on the eight tones
/// would pass the end of the spectrum.
pub fn band_end(to_bin: usize, fft_size: usize) -> (end: usize)
    requires
        fft_size >= 32,
    ensures
        end == if to_bin <= fft_size / 2 - 16 { to_bin as int } else { fft_size / 2 - 16 },
{
    if to_bin <= fft_size / 2 - 16 {
        to_bin
    } else {
        fft_size / 2 - 16
    }
}

/// The samples that wait for their frame, and the count of those that have
/// passed.
///
/// Frames are `fft_size` samples long and begin `fft_size / 4` samples
/// apart.
#[derive(Debug)]
pub struct Framer<T> {
    pub fft_size: usize,
    pub pending: VecDeque<T>,
    pub total_samples: usize,
}

impl<T: Copy> Framer<T> {
    /// The samples from one frame's start to the next.
    pub open spec fn hop(&self) -> int {
        self.fft_size as int / 4
    }

    /// A frame is at least four samples long, so that every frame moves
    /// the stream on.
    pub open spec fn wf(&self) -> bool {
        self.fft_size >= 4
    }

    /// A framer with nothing pending.
    pub fn new(fft_size: usize) -> (framer: Self)
        requires
            fft_size >= 4,
        ensures
            framer.wf(),
            framer.fft_size == fft_size,
            framer.pending@ == Seq::<T>::empty(),
            framer.total_samples == 0,
    {
        Framer { fft_size, pending: VecDeque::new(), total_samples: 0 }
    }

    /// Puts `data` behind the samples that wait.
    pub fn extend(&mut self, data: &[T])
        ensures
            final(self).pending@ == old(self).pending@ + data@,
            final(self).fft_size == old(self).fft_size,
            final(self).total_samples == old(self).total_samples,
    {
        let mut i: usize = 0;
        proof {
            assert(self.pending@ =~= old(self).pending@ + data@.subrange(0, 0));
        }
        while i < data.len()
            invariant
                i <= data@.len(),
                self.pending@ == old(self).pending@ + data@.subrange(0, i as int),
                self.fft_size == old(self).fft_size,
                self.total_samples == old(self).total_samples,
            decreases data@.len() - i,
        {
            self.pending.push_back(data[i]);
            proof {
                assert(self.pending@ =~= old(self).pending@ + data@.subrange(0, i + 1));
            }
            i += 1;
        }
        proof {
            assert(data@.subrange(0, data@.len() as int) =~= data@);
        }
    }

    /// The next frame, where a whole one waits: the first `fft_size`
    /// pending samples, of which the first quarter then leaves the queue
    /// and is counted. With less than a frame pending nothing changes.
    pub fn next_frame(&mut self) -> (frame: Option<Vec<T>>)
        requires
            old(self).wf(),
            old(self).total_samples + old(self).hop() <= usize::MAX,
        ensures
            final(self).wf(),
            final(self).fft_size == old(self).fft_size,
            match frame {
                Some(samples) => {
                    &&& old(self).pending@.len() >= old(self).fft_size
                    &&& samples@ == old(self).pending@.subrange(0, old(self).fft_size as int)
                    &&& final(self).pending@ == old(self).pending@.subrange(
                        old(self).hop(),
                        old(self).pending@.len() as int,
                    )
                    &&& final(self).total_samples == old(self).total_samples + old(self).hop()
                },
                None => {
                    &&& old(self).pending@.len() < old(self).fft_size
                    &&& final(self).pending@ == old(self).pending@
                    &&& final(self).total_samples == old(self).total_samples
                },
            },
    {
        if self.pending.len() < self.fft_size {
            return None;
        }
        let frame_len = self.fft_size / 4;
        let mut frame: Vec<T> = Vec::new();
        let mut taken: usize = 0;
        let ghost len = self.pending@.len() as int;
        proof {
            assert(self.pending@ =~= old(self).pending@.subrange(0, len));
        }
        while taken < frame_len
            invariant
                taken <= frame_len == self.fft_size / 4,
                self.fft_size == old(self).fft_size,
                self.total_samples == old(self).total_samples,
                len == old(self).pending@.len() >= self.fft_size,
                frame@ == old(self).pending@.subrange(0, taken as int),
                self.pending@ == old(self).pending@.subrange(taken as int, len),
            decreases frame_len - taken,
        {
            let sample = self.pending.pop_front().unwrap();
            frame.push(sample);
            taken += 1;
            proof {
                assert(frame@ =~= old(self).pending@.subrange(0, taken as int));
                assert(self.pending@ =~= old(self).pending@.subrange(taken as int, len));
            }
        }
        self.total_samples += frame_len;
        let mut i: usize = 0;
        while i < self.fft_size - frame_len
            invariant
                frame_len == self.fft_size / 4,
                i <= self.fft_size - frame_len,
                self.fft_size == old(self).fft_size,
                len == old(self).pending@.len() >= self.fft_size,
                self.pending@ == old(self).pending@.subrange(frame_len as int, len),
                frame@ == old(self).pending@.subrange(0, frame_len + i),
            decreases self.fft_size - frame_len - i,
        {
            frame.push(self.pending[i]);
            i += 1;
            proof {
                assert(frame@ =~= old(self).pending@.subrange(0, frame_len + i));
            }
        }
        Some(frame)
    }
}

/// The state of the demodulator over samples of type `T`: for every bin
/// of the spectrum the rolling histories of powers and of soft bits, the
/// samples that wait for their frame, and the callsign table.
#[derive(Debug)]
pub struct FT8Decoder<T> {
    pub fft_size: usize,
    pub from_bin: usize,
    pub to_bin: usize,
    pub pwr: Vec<VecDeque<T>>,
    pub symbols: Vec<VecDeque<T>>,
    pub callsign_map: CallsignMap,
    pub decode_attempts: u32,
    pub framer: Framer<T>,
}

impl<T: Copy> FT8Decoder<T> {
    /// The bins of the spectrum of a frame.
    pub open spec fn bins(&self) -> int {
        self.fft_size as int / 2 + 1
    }

    /// There is a history of each kind for every bin, no history is over
    /// its capacity, the band ends before the eight tones would leave the
    /// spectrum, and the callsign table is in order.
    pub open spec fn wf(&self) -> bool {
        &&& self.fft_size >= 32
        &&& self.framer.fft_size == self.fft_size
        &&& self.to_bin <= self.fft_size / 2 - 16
        &&& self.pwr@.len() == self.bins()
        &&& self.symbols@.len() == self.bins()
        &&& forall|j: int| 0 <= j < self.bins() ==> (#[trigger] self.pwr@[j])@.len() <= POWER_CAPACITY
        &&& forall|j: int|
            0 <= j < self.bins() ==> (#[trigger] self.symbols@[j])@.len() <= SYMBOL_CAPACITY
        &&& self.callsign_map.wf()
    }

    /// A demodulator for frames of `fft_size` samples and the band of bins
    /// from `from_bin` to `to_bin`, with nothing heard yet. The band is cut
    /// where the eight tones would leave the spectrum.
    pub fn new(fft_size: usize, from_bin: usize, to_bin: usize, decode_attempts: u32) -> (decoder:
        Self)
        requires
            fft_size >= 32,
        ensures
            decoder.wf(),
            decoder.fft_size == fft_size,
            decoder.from_bin == from_bin,
            decoder.to_bin == if to_bin <= fft_size / 2 - 16 {
                to_bin as int
            } else {
                fft_size / 2 - 16
            },
            decoder.decode_attempts == decode_attempts,
            forall|j: int| 0 <= j < decoder.bins() ==> (#[trigger] decoder.pwr@[j])@.len() == 0,
            forall|j: int| 0 <= j < decoder.bins() ==> (#[trigger] decoder.symbols@[j])@.len() == 0,
            decoder.framer.pending@.len() == 0,
            decoder.framer.total_samples == 0,
            decoder.callsign_map.map@ == Map::<u32, String>::empty(),
    {
        let bins = fft_size / 2 + 1;
        let mut pwr: Vec<VecDeque<T>> = Vec::new();
        let mut symbols: Vec<VecDeque<T>> = Vec::new();
        let mut j: usize = 0;
        while j < bins
            invariant
                j <= bins,
                pwr@.len() == j,
                symbols@.len() == j,
                forall|k: int| 0 <= k < j ==> (#[trigger] pwr@[k])@.len() == 0,
                forall|k: int| 0 <= k < j ==> (#[trigger] symbols@[k])@.len() == 0,
            decreases bins - j,
        {
            pwr.push(VecDeque::new());
            symbols.push(VecDeque::new());
            j += 1;
        }
        FT8Decoder {
            fft_size,
            from_bin,
            to_bin: band_end(to_bin, fft_size),
            pwr,
            symbols,
            callsign_map: CallsignMap::new(),
            decode_attempts,
            framer: Framer::new(fft_size),
        }
    }

    /// Adds a callsign to the table, and gives its 22-bit hash.
    pub fn insert_callsign(&mut self, callsign: &String) -> (h: u32)
        requires
            old(self).wf(),
            crate::callsignmap::hashable(callsign@),
        ensures
            final(self).wf(),
            h == crate::callsignmap::spec_hash(callsign@),
            final(self).callsign_map.lookup_22(h) == Some(*callsign),
            final(self).callsign_map.map@ == old(self).callsign_map.map@.insert(h, *callsign),
            final(self).fft_size == old(self).fft_size,
            final(self).from_bin == old(self).from_bin,
            final(self).to_bin == old(self).to_bin,
            final(self).pwr == old(self).pwr,
            final(self).symbols == old(self).symbols,
            final(self).framer == old(self).framer,
            final(self).decode_attempts == old(self).decode_attempts,
    {
        self.callsign_map.insert(callsign)
    }

    /// Puts `data` behind the samples that wait for their frame.
    pub fn push_samples(&mut self, data: &[T])
        requires
            old(self).wf(),
        ensures
            final(self).wf(),
            final(self).framer.pending@ == old(self).framer.pending@ + data@,
            final(self).framer.total_samples == old(self).framer.total_samples,
            final(self).fft_size == old(self).fft_size,
            final(self).from_bin == old(self).from_bin,
            final(self).to_bin == old(self).to_bin,
            final(self).pwr == old(self).pwr,
            final(self).symbols == old(self).symbols,
            final(self).callsign_map == old(self).callsign_map,
            final(self).decode_attempts == old(self).decode_attempts,
    {
        self.framer.extend(data);
    }

    /// The next frame, where a whole one waits; the stream then moves on by
    /// a quarter of a frame. See `Framer::next_frame`.
    pub fn next_frame(&mut self) -> (frame: Option<Vec<T>>)
        requires
            old(self).wf(),
            old(self).framer.total_samples + old(self).framer.hop() <= usize::MAX,
        ensures
            final(self).wf(),
            match frame {
                Some(samples) => {
                    &&& old(self).framer.pending@.len() >= old(self).fft_size
                    &&& samples@ == old(self).framer.pending@.subrange(0, old(self).fft_size as int)
                    &&& final(self).framer.pending@ == old(self).framer.pending@.subrange(
                        old(self).framer.hop(),
                        old(self).framer.pending@.len() as int,
                    )
                    &&& final(self).framer.total_samples == old(self).framer.total_samples + old(
                        self,
                    ).framer.hop()
                },
                None => {
                    &&& old(self).framer.pending@.len() < old(self).fft_size
                    &&& final(self).framer.pending@ == old(self).framer.pending@
                    &&& final(self).framer.total_samples == old(self).framer.total_samples
                },
            },
            final(self).fft_size == old(self).fft_size,
            final(self).from_bin == old(self).from_bin,
            final(self).to_bin == old(self).to_bin,
            final(self).pwr == old(self).pwr,
            final(self).symbols == old(self).symbols,
            final(self).callsign_map == old(self).callsign_map,
            final(self).decode_attempts == old(self).decode_attempts,
    {
        self.framer.next_frame()
    }

    /// Puts the power of every bin in a frame onto the history of the bin;
    /// a history over its capacity loses its oldest entry.
    pub fn push_powers(&mut self, powers: &[T])
        requires
            old(self).wf(),
            powers@.len() == old(self).bins(),
        ensures
            final(self).wf(),
            forall|j: int|
                0 <= j < old(self).bins() ==> (#[trigger] final(self).pwr@[j])@ == newest(
                    old(self).pwr@[j]@.push(powers@[j]),
                    POWER_CAPACITY as int,
                ),
            final(self).fft_size == old(self).fft_size,
            final(self).from_bin == old(self).from_bin,
            final(self).to_bin == old(self).to_bin,
            final(self).symbols == old(self).symbols,
            final(self).callsign_map == old(self).callsign_map,
            final(self).framer == old(self).framer,
            final(self).decode_attempts == old(self).decode_attempts,
    {
        let mut j: usize = 0;
        let bins = self.pwr.len();
        while j < bins
            invariant
                j <= bins == old(self).bins(),
                powers@.len() == bins,
                self.pwr@.len() == bins,
                forall|k: int|
                    0 <= k < j ==> (#[trigger] self.pwr@[k])@ == newest(
                        old(self).pwr@[k]@.push(powers@[k]),
                        POWER_CAPACITY as int,
                    ),
                forall|k: int| j <= k < bins ==> #[trigger] self.pwr@[k] == old(self).pwr@[k],
                self.fft_size == old(self).fft_size,
                self.from_bin == old(self).from_bin,
                self.to_bin == old(self).to_bin,
                self.symbols == old(self).symbols,
                self.callsign_map == old(self).callsign_map,
                self.framer == old(self).framer,
                self.decode_attempts == old(self).decode_attempts,
            decreases bins - j,
        {
            push_history(&mut self.pwr[j], powers[j], POWER_CAPACITY);
            j += 1;
        }
    }

    /// Puts the three soft bits of a frame onto the history of bin `bin`.
    /// Where the history then holds more than its capacity, a whole
    /// transmission may end here: the result is the soft codeword read from
    /// the history as it then stands. The history is cut back to its
    /// capacity before the call returns.
    pub fn soft_codeword(&mut self, bin: usize, p0: T, p1: T, p2: T) -> (codeword: Option<Vec<T>>)
        requires
            old(self).wf(),
            bin < old(self).bins(),
        ensures
            final(self).wf(),
            final(self).symbols@[bin as int]@ == newest(
                old(self).symbols@[bin as int]@ + seq![p0, p1, p2],
                SYMBOL_CAPACITY as int,
            ),
            forall|j: int|
                0 <= j < old(self).bins() && j != bin ==> #[trigger] final(self).symbols@[j] == old(
                    self,
                ).symbols@[j],
            codeword is Some <==> old(self).symbols@[bin as int]@.len() + 3 > SYMBOL_CAPACITY,
            codeword matches Some(soft) ==> soft@.len() == 174 && forall|i: int|
                0 <= i < 174 ==> soft@[i] == (old(self).symbols@[bin as int]@ + seq![p0, p1, p2])[
                    soft_bit_position(i)
                ],
            final(self).fft_size == old(self).fft_size,
            final(self).from_bin == old(self).from_bin,
            final(self).to_bin == old(self).to_bin,
            final(self).pwr == old(self).pwr,
            final(self).callsign_map == old(self).callsign_map,
            final(self).framer == old(self).framer,
            final(self).decode_attempts == old(self).decode_attempts,
    {
        let history = &mut self.symbols[bin];
        history.push_back(p0);
        history.push_back(p1);
        history.push_back(p2);
        proof {
            assert(history@ =~= old(self).symbols@[bin as int]@ + seq![p0, p1, p2]);
        }
        let codeword = gather_codeword(history);
        trim_history(history, SYMBOL_CAPACITY);
        codeword
    }

    /// The power of bin `bin` in the frame `frame`, counted from the oldest
    /// of the history; `None` for a bin or a frame that is not there.
    pub fn power_at(&self, bin: usize, frame: usize) -> (power: Option<T>)
        ensures
            power == if bin < self.pwr@.len() && frame < self.pwr@[bin as int]@.len() {
                Some(self.pwr@[bin as int]@[frame as int])
            } else {
                None
            },
    {
        if bin < self.pwr.len() {
            let history = &self.pwr[bin];
            if frame < history.len() {
                return Some(history[frame]);
            }
        }
        None
    }

    /// The message of a decoded codeword that was heard in bin `bin` of the
    /// last frame: see `accept_candidate`.
    pub fn candidate(&self, decoded: &[bool; 174], snr: i32, bin: usize) -> (accepted: Option<
        Message,
    >)
        requires
            bin_frequency(bin as nat) <= u32::MAX,
            i64::MIN <= frame_time(self.framer.total_samples as nat, self.fft_size as nat)
                <= i64::MAX,
        ensures
            accepted is Some <==> candidate_passes(decoded@),
            accepted matches Some(message) ==> {
                &&& message.snr == snr
                &&& message.freq_bin_hz == bin_frequency(bin as nat)
                &&& message.time_offset_ms == frame_time(
                    self.framer.total_samples as nat,
                    self.fft_size as nat,
                )
                &&& message.data.decoded_from(decoded@.subrange(0, 77), &self.callsign_map)
            },
    {
        accept_candidate(
            decoded,
            snr,
            bin,
            self.framer.total_samples,
            self.fft_size,
            &self.callsign_map,
        )
    }
}

} // verus!
