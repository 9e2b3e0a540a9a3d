//! The raw MIDI message model, the byte-level decoder, and the translator
//! that turns raw messages into advanced (semantic) events.
//!
//! A raw message is one decoded hardware event: a kind (note on, note off,
//! control change, pitch bend, or generic fallback), a channel, its data
//! bytes and a capture timestamp. Each kind maps to a 16-bit identifier that
//! names the physical control: the status nibble in the top four bits, the
//! channel in the next eight, the controller or note number in the low bits.

use crate::util::{from_status_byte, mask7, msb_lsb_to_u14, u14_to_msb_lsb};
use vstd::prelude::*;

verus! {

/// Fixed capacity of a raw MIDI frame as carried by the generic fallback.
pub const MAX_MIDI: usize = 3;

/// A 16-bit identifier naming one physical control.
pub type MidiId = u16;

/// Common interface of the raw message kinds: each exposes its wire bytes,
/// its 16-bit control identifier, its value byte and its capture timestamp.
pub trait MidiMsg: Sized {
    /// Structural invariant: channel and data bytes within their MIDI ranges.
    spec fn wf(&self) -> bool;

    /// Name of the message kind, as reported by `type_of`.
    spec fn kind_name(&self) -> Seq<char>;

    /// The wire bytes this message stands for.
    spec fn spec_data(&self) -> Seq<u8>;

    /// The 16-bit identifier of the physical control.
    spec fn spec_id(&self) -> u16;

    /// The value carried: velocity, controller value or pitch-bend amount.
    spec fn spec_value(&self) -> u16;

    /// The capture timestamp.
    spec fn spec_time(&self) -> u64;

    fn type_of(&self) -> (r: &'static str)
        ensures
            r@ == self.kind_name(),
    ;

    fn get_data(&self) -> (r: Vec<u8>)
        requires
            self.wf(),
        ensures
            r@ == self.spec_data(),
    ;

    fn get_id(&self) -> (r: u16)
        requires
            self.wf(),
        ensures
            r == self.spec_id(),
    ;

    fn get_value(&self) -> (r: u16)
        ensures
            r == self.spec_value(),
    ;

    fn get_time(&self) -> (r: u64)
        ensures
            r == self.spec_time(),
    ;
}

/// Fallback container for a frame that is none of the recognized kinds:
/// a fixed-size copy of up to `MAX_MIDI` raw bytes.
#[derive(Copy, Clone, Debug, PartialEq, Eq)]
pub struct MidiMsgGeneric {
    pub len: usize,
    pub data: [u8; 3],
    pub time: u64,
}

impl MidiMsg for MidiMsgGeneric {
    open spec fn wf(&self) -> bool {
        self.len <= MAX_MIDI
    }

    open spec fn kind_name(&self) -> Seq<char> {
        "MidiMsgGeneric"@
    }

    open spec fn spec_data(&self) -> Seq<u8> {
        self.data@
    }

    open spec fn spec_id(&self) -> u16 {
        0xffff
    }

    open spec fn spec_value(&self) -> u16 {
        0
    }

    open spec fn spec_time(&self) -> u64 {
        self.time
    }

    fn type_of(&self) -> (r: &'static str) {
        "MidiMsgGeneric"
    }

    fn get_data(&self) -> (r: Vec<u8>) {
        let r = vec![self.data[0], self.data[1], self.data[2]];
        proof {
            assert(r@ =~= self.data@);
        }
        r
    }

    fn get_id(&self) -> (r: u16) {
        0xffff
    }

    fn get_value(&self) -> (r: u16) {
        0
    }

    fn get_time(&self) -> (r: u64) {
        self.time
    }
}

/// A control-change message: a controller number and its 7-bit value.
#[derive(Copy, Clone, Debug, PartialEq, Eq)]
pub struct MidiMsgControlChange {
    pub channel: u8,
    pub control: u8,
    pub value: u8,
    pub time: u64,
}

impl MidiMsg for MidiMsgControlChange {
    open spec fn wf(&self) -> bool {
        self.channel < 16 && self.control < 128 && self.value < 128
    }

    open spec fn kind_name(&self) -> Seq<char> {
        "MidiMsgControlChange"@
    }

    open spec fn spec_data(&self) -> Seq<u8> {
        seq![(0xb0 + self.channel as int) as u8, self.control, self.value]
    }

    open spec fn spec_id(&self) -> u16 {
        (0xb000 + self.channel as int * 256 + self.control as int) as u16
    }

    open spec fn spec_value(&self) -> u16 {
        self.value as u16
    }

    open spec fn spec_time(&self) -> u64 {
        self.time
    }

    fn type_of(&self) -> (r: &'static str) {
        "MidiMsgControlChange"
    }

    fn get_data(&self) -> (r: Vec<u8>) {
        let r = vec![0xb0 + self.channel, self.control, self.value];
        proof {
            assert(r@ =~= self.spec_data());
        }
        r
    }

    fn get_id(&self) -> (r: u16) {
        proof {
            let c = self.channel as u16;
            assert(c < 16 ==> (c << 8) == c * 256) by (bit_vector);
        }
        0xb000 + ((self.channel as u16) << 8) + self.control as u16
    }

    fn get_value(&self) -> (r: u16) {
        self.value as u16
    }

    fn get_time(&self) -> (r: u64) {
        self.time
    }
}

/// A note-on message: a key number and its 7-bit velocity.
#[derive(Copy, Clone, Debug, PartialEq, Eq)]
pub struct MidiMsgNoteOn {
    pub channel: u8,
    pub key: u8,
    pub velocity: u8,
    pub time: u64,
}

impl MidiMsg for MidiMsgNoteOn {
    open spec fn wf(&self) -> bool {
        self.channel < 16 && self.key < 128 && self.velocity < 128
    }

    open spec fn kind_name(&self) -> Seq<char> {
        "MidiMsgNoteOn"@
    }

    open spec fn spec_data(&self) -> Seq<u8> {
        seq![(0x90 + self.channel as int) as u8, self.key, self.velocity]
    }

    open spec fn spec_id(&self) -> u16 {
        (0x9000 + self.channel as int * 256 + self.key as int) as u16
    }

    open spec fn spec_value(&self) -> u16 {
        self.velocity as u16
    }

    open spec fn spec_time(&self) -> u64 {
        self.time
    }

    fn type_of(&self) -> (r: &'static str) {
        "MidiMsgNoteOn"
    }

    fn get_data(&self) -> (r: Vec<u8>) {
        let r = vec![0x90 + self.channel, self.key, self.velocity];
        proof {
            assert(r@ =~= self.spec_data());
        }
        r
    }

    fn get_id(&self) -> (r: u16) {
        proof {
            let c = self.channel as u16;
            assert(c < 16 ==> (c << 8) == c * 256) by (bit_vector);
        }
        0x9000 + ((self.channel as u16) << 8) + self.key as u16
    }

    fn get_value(&self) -> (r: u16) {
        self.velocity as u16
    }

    fn get_time(&self) -> (r: u64) {
        self.time
    }
}

/// A note-off message: a key number and its 7-bit release velocity.
#[derive(Copy, Clone, Debug, PartialEq, Eq)]
pub struct MidiMsgNoteOff {
    pub channel: u8,
    pub key: u8,
    pub velocity: u8,
    pub time: u64,
}

impl MidiMsg for MidiMsgNoteOff {
    open spec fn wf(&self) -> bool {
        self.channel < 16 && self.key < 128 && self.velocity < 128
    }

    open spec fn kind_name(&self) -> Seq<char> {
        "MidiMsgNoteOff"@
    }

    open spec fn spec_data(&self) -> Seq<u8> {
        seq![(0x80 + self.channel as int) as u8, self.key, self.velocity]
    }

    open spec fn spec_id(&self) -> u16 {
        (0x8000 + self.channel as int * 256 + self.key as int) as u16
    }

    open spec fn spec_value(&self) -> u16 {
        self.velocity as u16
    }

    open spec fn spec_time(&self) -> u64 {
        self.time
    }

    fn type_of(&self) -> (r: &'static str) {
        "MidiMsgNoteOff"
    }

    fn get_data(&self) -> (r: Vec<u8>) {
        let r = vec![0x80 + self.channel, self.key, self.velocity];
        proof {
            assert(r@ =~= self.spec_data());
        }
        r
    }

    fn get_id(&self) -> (r: u16) {
        proof {
            let c = self.channel as u16;
            assert(c < 16 ==> (c << 8) == c * 256) by (bit_vector);
        }
        0x8000 + ((self.channel as u16) << 8) + self.key as u16
    }

    fn get_value(&self) -> (r: u16) {
        self.velocity as u16
    }

    fn get_time(&self) -> (r: u64) {
        self.time
    }
}

/// A pitch-bend message carrying one assembled 14-bit value.
#[derive(Copy, Clone, Debug, PartialEq, Eq)]
pub struct MidiMsgPitchBend {
    pub channel: u8,
    pub value: u16,
    pub time: u64,
}

impl MidiMsg for MidiMsgPitchBend {
    open spec fn wf(&self) -> bool {
        self.channel < 16 && self.value < 16384
    }

    open spec fn kind_name(&self) -> Seq<char> {
        "MidiMsgPitchBend"@
    }

    open spec fn spec_data(&self) -> Seq<u8> {
        seq![
            (0xe0 + self.channel as int) as u8,
            (self.value & 0x7f) as u8,
            ((self.value >> 7) & 0x7f) as u8,
        ]
    }

    open spec fn spec_id(&self) -> u16 {
        (0xe000 + self.channel as int * 256) as u16
    }

    open spec fn spec_value(&self) -> u16 {
        self.value
    }

    open spec fn spec_time(&self) -> u64 {
        self.time
    }

    fn type_of(&self) -> (r: &'static str) {
        "MidiMsgPitchBend"
    }

    fn get_data(&self) -> (r: Vec<u8>) {
        let (msb_value, lsb_value) = u14_to_msb_lsb(self.value);
        let r = vec![0xe0 + self.channel, lsb_value, msb_value];
        proof {
            assert(r@ =~= self.spec_data());
        }
        r
    }

    fn get_id(&self) -> (r: u16) {
        proof {
            let c = self.channel as u16;
            assert(c < 16 ==> (c << 8) == c * 256) by (bit_vector);
        }
        0xe000 + ((self.channel as u16) << 8)
    }

    fn get_value(&self) -> (r: u16) {
        self.value
    }

    fn get_time(&self) -> (r: u64) {
        self.time
    }
}

/// One raw message of any kind, as a closed set of variants. The decoder
/// produces these and the translator consumes them.
#[derive(Copy, Clone, Debug, PartialEq, Eq)]
pub enum RawMidiMsg {
    NoteOn(MidiMsgNoteOn),
    NoteOff(MidiMsgNoteOff),
    ControlChange(MidiMsgControlChange),
    PitchBend(MidiMsgPitchBend),
    Generic(MidiMsgGeneric),
}

impl RawMidiMsg {
    /// Structural invariant of the held message.
    pub open spec fn wf(&self) -> bool {
        match *self {
            RawMidiMsg::NoteOn(m) => m.wf(),
            RawMidiMsg::NoteOff(m) => m.wf(),
            RawMidiMsg::ControlChange(m) => m.wf(),
            RawMidiMsg::PitchBend(m) => m.wf(),
            RawMidiMsg::Generic(m) => m.wf(),
        }
    }

    /// The 16-bit identifier of the held message.
    pub open spec fn spec_id(&self) -> u16 {
        match *self {
            RawMidiMsg::NoteOn(m) => m.spec_id(),
            RawMidiMsg::NoteOff(m) => m.spec_id(),
            RawMidiMsg::ControlChange(m) => m.spec_id(),
            RawMidiMsg::PitchBend(m) => m.spec_id(),
            RawMidiMsg::Generic(m) => m.spec_id(),
        }
    }

    /// The value byte (or assembled pitch-bend value) of the held message.
    pub open spec fn spec_value(&self) -> u16 {
        match *self {
            RawMidiMsg::NoteOn(m) => m.spec_value(),
            RawMidiMsg::NoteOff(m) => m.spec_value(),
            RawMidiMsg::ControlChange(m) => m.spec_value(),
            RawMidiMsg::PitchBend(m) => m.spec_value(),
            RawMidiMsg::Generic(m) => m.spec_value(),
        }
    }

    /// The capture timestamp of the held message.
    pub open spec fn spec_time(&self) -> u64 {
        match *self {
            RawMidiMsg::NoteOn(m) => m.spec_time(),
            RawMidiMsg::NoteOff(m) => m.spec_time(),
            RawMidiMsg::ControlChange(m) => m.spec_time(),
            RawMidiMsg::PitchBend(m) => m.spec_time(),
            RawMidiMsg::Generic(m) => m.spec_time(),
        }
    }

    pub fn get_id(&self) -> (r: u16)
        requires
            self.wf(),
        ensures
            r == self.spec_id(),
    {
        match self {
            RawMidiMsg::NoteOn(m) => m.get_id(),
            RawMidiMsg::NoteOff(m) => m.get_id(),
            RawMidiMsg::ControlChange(m) => m.get_id(),
            RawMidiMsg::PitchBend(m) => m.get_id(),
            RawMidiMsg::Generic(m) => m.get_id(),
        }
    }

    pub fn get_value(&self) -> (r: u16)
        ensures
            r == self.spec_value(),
    {
        match self {
            RawMidiMsg::NoteOn(m) => m.get_value(),
            RawMidiMsg::NoteOff(m) => m.get_value(),
            RawMidiMsg::ControlChange(m) => m.get_value(),
            RawMidiMsg::PitchBend(m) => m.get_value(),
            RawMidiMsg::Generic(m) => m.get_value(),
        }
    }

    pub fn get_time(&self) -> (r: u64)
        ensures
            r == self.spec_time(),
    {
        match self {
            RawMidiMsg::NoteOn(m) => m.get_time(),
            RawMidiMsg::NoteOff(m) => m.get_time(),
            RawMidiMsg::ControlChange(m) => m.get_time(),
            RawMidiMsg::PitchBend(m) => m.get_time(),
            RawMidiMsg::Generic(m) => m.get_time(),
        }
    }
}

/// Whether a status byte's high nibble names one of the recognized
/// channel-voice kinds: note off, note on, control change or pitch bend.
pub open spec fn recognized_status(b: u8) -> bool {
    b >> 4 == 0x08 || b >> 4 == 0x09 || b >> 4 == 0x0b || b >> 4 == 0x0e
}

/// What a frame with a recognized status byte decodes to: the channel is
/// the status byte's low nibble, data bytes are masked to 7 bits, and a
/// pitch bend assembles its 14-bit value from the two data bytes.
pub open spec fn spec_decode_known(bytes: Seq<u8>, time: u64) -> RawMidiMsg
    recommends
        bytes.len() >= 3,
        recognized_status(bytes[0]),
{
    let status = bytes[0] >> 4;
    let channel = bytes[0] & 0x0f;
    if status == 0x08 {
        RawMidiMsg::NoteOff(MidiMsgNoteOff {
            channel,
            key: bytes[1] & 0x7f,
            velocity: bytes[2] & 0x7f,
            time,
        })
    } else if status == 0x09 {
        RawMidiMsg::NoteOn(MidiMsgNoteOn {
            channel,
            key: bytes[1] & 0x7f,
            velocity: bytes[2] & 0x7f,
            time,
        })
    } else if status == 0x0b {
        RawMidiMsg::ControlChange(MidiMsgControlChange {
            channel,
            control: bytes[1] & 0x7f,
            value: bytes[2] & 0x7f,
            time,
        })
    } else {
        RawMidiMsg::PitchBend(MidiMsgPitchBend {
            channel,
            value: ((bytes[2] & 0x7f) as int * 128 + (bytes[1] & 0x7f) as int) as u16,
            time,
        })
    }
}

/// The three bytes the generic fallback keeps: the frame truncated to three
/// bytes, padded with zeroes where it is shorter.
pub open spec fn spec_generic_data(bytes: Seq<u8>) -> Seq<u8> {
    Seq::new(3, |i: int| if i < bytes.len() { bytes[i] } else { 0 })
}

/// Classify a raw frame by the high nibble of its status byte. A frame
/// whose status byte is none of the recognized kinds — or one too short to
/// carry the two data bytes a recognized kind needs — becomes a generic
/// message holding a best-effort copy of its bytes; no input of at least
/// one byte is an error.
pub fn decode_midi_bytes(bytes: &[u8], time: u64) -> (m: RawMidiMsg)
    requires
        bytes@.len() >= 1,
    ensures
        recognized_status(bytes@[0]) && bytes@.len() >= 3 ==> m == spec_decode_known(
            bytes@,
            time,
        ),
        !(recognized_status(bytes@[0]) && bytes@.len() >= 3) ==> (m matches RawMidiMsg::Generic(
            g,
        )
            && g.len == (if bytes@.len() < 3 { bytes@.len() } else { 3 })
            && g.data@ == spec_generic_data(bytes@)
            && g.time == time),
        m.wf(),
        m.spec_time() == time,
{
    proof {
        let b = bytes@[0];
        assert(b >> 4 < 16 && b & 0x0f < 16) by (bit_vector);
        if bytes@.len() >= 3 {
            let b1 = bytes@[1];
            let b2 = bytes@[2];
            assert((b1 & 0x7f) & 0x7f == b1 & 0x7f && (b2 & 0x7f) & 0x7f == b2 & 0x7f)
                by (bit_vector);
        }
    }
    let full = bytes.len() >= 3;
    let (status, channel) = from_status_byte(bytes[0]);
    if full && status == 0x08 {
        RawMidiMsg::NoteOff(MidiMsgNoteOff {
            channel,
            key: mask7(bytes[1]),
            velocity: mask7(bytes[2]),
            time,
        })
    } else if full && status == 0x09 {
        RawMidiMsg::NoteOn(MidiMsgNoteOn {
            channel,
            key: mask7(bytes[1]),
            velocity: mask7(bytes[2]),
            time,
        })
    } else if full && status == 0x0b {
        RawMidiMsg::ControlChange(MidiMsgControlChange {
            channel,
            control: mask7(bytes[1]),
            value: mask7(bytes[2]),
            time,
        })
    } else if full && status == 0x0e {
        RawMidiMsg::PitchBend(MidiMsgPitchBend {
            channel,
            value: msb_lsb_to_u14(mask7(bytes[2]), mask7(bytes[1])),
            time,
        })
    } else {
        let len = if bytes.len() < MAX_MIDI { bytes.len() } else { MAX_MIDI };
        let b0 = bytes[0];
        let b1 = if bytes.len() > 1 { bytes[1] } else { 0 };
        let b2 = if bytes.len() > 2 { bytes[2] } else { 0 };
        let data: [u8; 3] = [b0, b1, b2];
        let g = MidiMsgGeneric { len, data, time };
        proof {
            assert(g.data@ =~= spec_generic_data(bytes@));
        }
        RawMidiMsg::Generic(g)
    }
}

/// The semantic event handed to consumers: nothing, a paired note on/off
/// toggle, a single 7-bit control value, or a 14-bit control value
/// assembled from two correlated control-change messages.
#[derive(Copy, Clone, Debug, PartialEq, Eq, Structural, Hash)]
pub enum MidiMsgAdvanced {
    MidiEmpty,
    MidiNoteOnOff(MidiId, MidiId, bool),
    MidiControlIdValue(MidiId, u16),
    MidiControl2IdsValue(MidiId, MidiId, u16),
}

/// Offset between the note-on and the note-off identifier of one key:
/// their status nibbles (0x9 and 0x8) sit in the top four identifier bits.
pub const NOTE_ON_OFF_ID_OFFSET: u16 = 0x1000;

/// Width of the correlation window: two control-change messages whose
/// timestamps differ by less than this many units may form one 14-bit
/// control. An empirically tuned heuristic, not a protocol guarantee.
pub const CONTROL_DOUBLE_TIME_WINDOW: u64 = 10;

impl MidiMsgAdvanced {
    /// Identifier under which consumers look this event up: the note-on
    /// identifier of a toggle, the (first, lower) identifier of a control;
    /// the sentinel 0xffff for the empty event.
    pub open spec fn spec_id(&self) -> u16 {
        match *self {
            MidiMsgAdvanced::MidiEmpty => 0xffff,
            MidiMsgAdvanced::MidiNoteOnOff(id_on, _, _) => id_on,
            MidiMsgAdvanced::MidiControlIdValue(id, _) => id,
            MidiMsgAdvanced::MidiControl2IdsValue(id0, _, _) => id0,
        }
    }

    pub fn get_id(&self) -> (r: u16)
        ensures
            r == self.spec_id(),
    {
        match *self {
            MidiMsgAdvanced::MidiEmpty => 0xffff,
            MidiMsgAdvanced::MidiNoteOnOff(id_on, _, _) => id_on,
            MidiMsgAdvanced::MidiControlIdValue(id, _) => id,
            MidiMsgAdvanced::MidiControl2IdsValue(id0, _, _) => id0,
        }
    }

    /// A single, uncorrelated control-change message: one 7-bit control
    /// value under the control's identifier.
    pub fn from_midi_msg_cc(midi_msg: MidiMsgControlChange) -> (r: Self)
        requires
            midi_msg.wf(),
        ensures
            r == MidiMsgAdvanced::MidiControlIdValue(midi_msg.spec_id(), midi_msg.spec_value()),
    {
        let midi_id = midi_msg.get_id();
        let midi_value = midi_msg.get_value();
        MidiMsgAdvanced::MidiControlIdValue(midi_id, midi_value)
    }

    /// Two correlated control-change messages as one 14-bit control: the
    /// first supplies the high seven bits, the second the low seven.
    pub fn from_midi_msg_cc2ids(
        midi_msg0: MidiMsgControlChange,
        midi_msg1: MidiMsgControlChange,
    ) -> (r: Self)
        requires
            midi_msg0.wf(),
            midi_msg1.wf(),
        ensures
            r == MidiMsgAdvanced::MidiControl2IdsValue(
                midi_msg0.spec_id(),
                midi_msg1.spec_id(),
                (128 * midi_msg0.spec_value() + midi_msg1.spec_value()) as u16,
            ),
    {
        let midi_id0 = midi_msg0.get_id();
        let midi_id1 = midi_msg1.get_id();
        let midi_value = 128 * midi_msg0.get_value() + midi_msg1.get_value();
        MidiMsgAdvanced::MidiControl2IdsValue(midi_id0, midi_id1, midi_value)
    }

    /// A note-on message as a toggle event: on, with the off identifier
    /// derived by the fixed offset.
    pub fn from_midi_msgs_note_on(midi_msg: MidiMsgNoteOn) -> (r: Self)
        requires
            midi_msg.wf(),
        ensures
            r == MidiMsgAdvanced::MidiNoteOnOff(
                midi_msg.spec_id(),
                (midi_msg.spec_id() - NOTE_ON_OFF_ID_OFFSET) as u16,
                true,
            ),
    {
        let midi_id_on = midi_msg.get_id();
        let midi_value = true;
        let midi_id_off = midi_id_on - NOTE_ON_OFF_ID_OFFSET;
        MidiMsgAdvanced::MidiNoteOnOff(midi_id_on, midi_id_off, midi_value)
    }

    /// A note-off message as a toggle event: off, with the on identifier
    /// derived by the fixed offset.
    pub fn from_midi_msgs_note_off(midi_msg: MidiMsgNoteOff) -> (r: Self)
        requires
            midi_msg.wf(),
        ensures
            r == MidiMsgAdvanced::MidiNoteOnOff(
                (midi_msg.spec_id() + NOTE_ON_OFF_ID_OFFSET) as u16,
                midi_msg.spec_id(),
                false,
            ),
    {
        let midi_id_on = midi_msg.get_id() + NOTE_ON_OFF_ID_OFFSET;
        let midi_value = false;
        let midi_id_off = midi_msg.get_id();
        MidiMsgAdvanced::MidiNoteOnOff(midi_id_on, midi_id_off, midi_value)
    }
}

/// Absolute difference of two capture timestamps.
pub open spec fn spec_time_diff(a: u64, b: u64) -> int {
    if a >= b {
        a - b
    } else {
        b - a
    }
}

/// The correlation rule: a control-change message merges with the
/// previously observed message when they arrive within the time window and
/// the current identifier is strictly the larger. The earlier, lower-id
/// message then supplies the high seven bits of one 14-bit value.
pub open spec fn spec_correlates(prev: RawMidiMsg, cc: MidiMsgControlChange) -> bool {
    &&& spec_time_diff(cc.time, prev.spec_time()) < CONTROL_DOUBLE_TIME_WINDOW
    &&& cc.spec_id() > prev.spec_id()
}

/// What one translation step emits, as a function of the current raw
/// message and the previously observed one.
pub open spec fn spec_translate(
    current: RawMidiMsg,
    prev: Option<RawMidiMsg>,
) -> Option<MidiMsgAdvanced> {
    match current {
        RawMidiMsg::ControlChange(cc) => match prev {
            Some(p) => if spec_correlates(p, cc) {
                Some(MidiMsgAdvanced::MidiControl2IdsValue(
                    p.spec_id(),
                    cc.spec_id(),
                    (p.spec_value() * 128 + cc.value) as u16,
                ))
            } else {
                Some(MidiMsgAdvanced::MidiControlIdValue(cc.spec_id(), cc.value as u16))
            },
            None => Some(MidiMsgAdvanced::MidiControlIdValue(cc.spec_id(), cc.value as u16)),
        },
        RawMidiMsg::NoteOn(n) => Some(MidiMsgAdvanced::MidiNoteOnOff(
            n.spec_id(),
            (n.spec_id() - NOTE_ON_OFF_ID_OFFSET) as u16,
            true,
        )),
        RawMidiMsg::NoteOff(n) => Some(MidiMsgAdvanced::MidiNoteOnOff(
            (n.spec_id() + NOTE_ON_OFF_ID_OFFSET) as u16,
            n.spec_id(),
            false,
        )),
        RawMidiMsg::PitchBend(_) => None,
        RawMidiMsg::Generic(_) => None,
    }
}

/// A well-formed message whose identifier lies below the pitch-bend range
/// carries a 7-bit value: only pitch bends and the generic fallback have
/// identifiers of 0xe000 and above, and only they may carry more.
proof fn lemma_low_id_value_small(m: RawMidiMsg)
    requires
        m.wf(),
        m.spec_id() < 0xe000,
    ensures
        m.spec_value() < 128,
{
    match m {
        RawMidiMsg::NoteOn(_) => {}
        RawMidiMsg::NoteOff(_) => {}
        RawMidiMsg::ControlChange(_) => {}
        RawMidiMsg::PitchBend(p) => {
            assert(0xe000 + p.channel as int * 256 <= 0xef00);
        }
        RawMidiMsg::Generic(_) => {}
    }
}

impl MidiMsgAdvanced {
    /// One translation step. Emits at most one advanced event for the
    /// current raw message, merging it with the previously observed message
    /// when the correlation rule fires, and unconditionally makes the
    /// current message the new "previous" one — also when it was just
    /// consumed into a 14-bit control, so that back-to-back pairs work
    /// without gaps.
    pub fn from_current_and_last_opt_midi_msgs(
        current: RawMidiMsg,
        last_midi_msg: &mut Option<RawMidiMsg>,
    ) -> (r: Option<MidiMsgAdvanced>)
        requires
            current.wf(),
            *old(last_midi_msg) matches Some(m) ==> m.wf(),
        ensures
            r == spec_translate(current, *old(last_midi_msg)),
            *final(last_midi_msg) == Some(current),
    {
        let prev_opt: Option<RawMidiMsg> = *last_midi_msg;
        let result: Option<MidiMsgAdvanced> = match current {
            RawMidiMsg::ControlChange(cc) => {
                let id = cc.get_id();
                let value = cc.get_value();
                match prev_opt {
                    Some(prev) => {
                        let prev_id = prev.get_id();
                        let prev_time = prev.get_time();
                        let time = cc.time;
                        let time_diff = if time >= prev_time {
                            time - prev_time
                        } else {
                            prev_time - time
                        };
                        if time_diff < CONTROL_DOUBLE_TIME_WINDOW && id > prev_id {
                            proof {
                                lemma_low_id_value_small(prev);
                            }
                            let prev_value = prev.get_value();
                            Some(MidiMsgAdvanced::MidiControl2IdsValue(
                                prev_id,
                                id,
                                prev_value * 128 + value,
                            ))
                        } else {
                            Some(MidiMsgAdvanced::from_midi_msg_cc(cc))
                        }
                    }
                    None => Some(MidiMsgAdvanced::from_midi_msg_cc(cc)),
                }
            }
            RawMidiMsg::NoteOn(n) => Some(MidiMsgAdvanced::from_midi_msgs_note_on(n)),
            RawMidiMsg::NoteOff(n) => Some(MidiMsgAdvanced::from_midi_msgs_note_off(n)),
            RawMidiMsg::PitchBend(_) => None,
            RawMidiMsg::Generic(_) => None,
        };
        *last_midi_msg = Some(current);
        result
    }
}

/// Every valid three-byte note-on frame decodes to a note-on message whose
/// channel is the status byte's low nibble and whose key and velocity are
/// the data bytes masked to seven bits.
pub proof fn lemma_decode_note_on(bytes: Seq<u8>, time: u64)
    requires
        bytes.len() == 3,
        bytes[0] >> 4 == 0x09,
    ensures
        recognized_status(bytes[0]),
        spec_decode_known(bytes, time) == RawMidiMsg::NoteOn(MidiMsgNoteOn {
            channel: bytes[0] & 0x0f,
            key: bytes[1] & 0x7f,
            velocity: bytes[2] & 0x7f,
            time,
        }),
{
}

/// For one physical key the note-on identifier exceeds the note-off
/// identifier by exactly the fixed offset: the two encodings differ only in
/// the status nibble held in the top four bits.
pub proof fn lemma_note_on_off_id_offset(on: MidiMsgNoteOn, off: MidiMsgNoteOff)
    requires
        on.wf(),
        off.wf(),
        on.channel == off.channel,
        on.key == off.key,
    ensures
        on.spec_id() - off.spec_id() == NOTE_ON_OFF_ID_OFFSET,
{
}

/// Translation is a deterministic function of the current message and the
/// held previous message alone: two independent translator states holding
/// equal previous messages yield identical events for the same input.
pub proof fn lemma_translate_deterministic(
    current: RawMidiMsg,
    state0: Option<RawMidiMsg>,
    state1: Option<RawMidiMsg>,
)
    requires
        state0 == state1,
    ensures
        spec_translate(current, state0) == spec_translate(current, state1),
{
}

/// Pitch-bend and generic raw messages never produce an advanced event,
/// whatever message was observed before them.
pub proof fn lemma_pitch_bend_generic_no_event(current: RawMidiMsg, prev: Option<RawMidiMsg>)
    requires
        current is PitchBend || current is Generic,
    ensures
        spec_translate(current, prev) is None,
{
}

} // verus!
