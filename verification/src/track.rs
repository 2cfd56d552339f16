//! Track-level encoding: the variable-length quantity (VLQ) used for delta
//! times, the track event with its payload variants, and the `MTrk` chunk.

use vstd::prelude::*;

use crate::channel::Channel;
use crate::chunktype::spec_chunk_type_bytes;
use crate::chunktype::ChunkType;
use crate::domain::Note;
use crate::domain::Velocity;
use crate::error::MidiError;
use crate::message::spec_data_bytes;
use crate::message::spec_event_type;
use crate::message::spec_midi_message_wf;
use crate::message::spec_to_status_byte;
use crate::message::ChannelMessage;
use crate::message::MidiMessage;
use crate::message::Status;
use crate::meta::spec_meta_bytes;
use crate::meta::spec_meta_payload;
use crate::meta::MetaEvent;
use crate::meta::MetaEventView;
use vstd::slice::slice_to_vec;
use vstd::string::StringSliceAdditionalSpecFns;

verus! {

/// A delta-time value constrained to 28 bits, the largest value the 4-byte
/// MIDI variable-length encoding can carry.
#[derive(Debug, Clone, Copy, PartialEq, Eq, PartialOrd, Ord, Hash, Structural)]
pub struct Vql(pub u32);

/// How many bytes the canonical variable-length encoding of `v` takes.
pub open spec fn spec_vlq_len(v: u32) -> int {
    if v < 0x80 {
        1
    } else if v < 0x4000 {
        2
    } else if v < 0x20_0000 {
        3
    } else {
        4
    }
}

/// The canonical variable-length encoding of `v`: big-endian groups of 7
/// bits, minimal length, the continuation bit set on every byte but the
/// last.
pub open spec fn spec_vlq_bytes(v: u32) -> Seq<u8> {
    if v < 0x80 {
        seq![(v % 128) as u8]
    } else if v < 0x4000 {
        seq![((v / 128) % 128 + 0x80) as u8, (v % 128) as u8]
    } else if v < 0x20_0000 {
        seq![
            ((v / 16384) % 128 + 0x80) as u8,
            ((v / 128) % 128 + 0x80) as u8,
            (v % 128) as u8,
        ]
    } else {
        seq![
            ((v / 2097152) % 128 + 0x80) as u8,
            ((v / 16384) % 128 + 0x80) as u8,
            ((v / 128) % 128 + 0x80) as u8,
            (v % 128) as u8,
        ]
    }
}

/// The value and byte count read by the matching decoder: up to 4 bytes,
/// 7 bits accumulated per byte, stopping at the first byte without the
/// continuation bit. `None` when no terminal byte occurs within 4 bytes.
pub open spec fn spec_vlq_decode(s: Seq<u8>) -> Option<(u32, usize)> {
    if s.len() >= 1 && s[0] < 0x80 {
        Some((s[0] as u32, 1))
    } else if s.len() >= 2 && s[1] < 0x80 {
        Some(((((s[0] - 0x80) * 0x80) + s[1]) as u32, 2))
    } else if s.len() >= 3 && s[2] < 0x80 {
        Some(((((s[0] - 0x80) * 0x4000) + ((s[1] - 0x80) * 0x80) + s[2]) as u32, 3))
    } else if s.len() >= 4 && s[3] < 0x80 {
        Some(
            ((((s[0] - 0x80) * 0x20_0000) + ((s[1] - 0x80) * 0x4000) + ((s[2] - 0x80) * 0x80)
                + s[3]) as u32, 4),
        )
    } else {
        None
    }
}

/// The encoding's shape: its length follows the range table, every byte but
/// the last carries the continuation bit, the last does not, and the length
/// is minimal (a leading byte is never a bare continuation `0x80`).
pub proof fn lemma_vlq_bytes_shape(v: u32)
    requires
        v <= 0x0FFF_FFFF,
    ensures
        spec_vlq_bytes(v).len() == spec_vlq_len(v),
        1 <= spec_vlq_len(v) <= 4,
        spec_vlq_len(v) == 1 <==> v <= 0x7F,
        spec_vlq_len(v) == 2 <==> 0x80 <= v <= 0x3FFF,
        spec_vlq_len(v) == 3 <==> 0x4000 <= v <= 0x1F_FFFF,
        spec_vlq_len(v) == 4 <==> 0x20_0000 <= v,
        forall|i: int|
            0 <= i < spec_vlq_bytes(v).len() - 1 ==> spec_vlq_bytes(v)[i] >= 0x80,
        spec_vlq_bytes(v).last() < 0x80,
        spec_vlq_len(v) > 1 ==> spec_vlq_bytes(v)[0] != 0x80,
{
    if v < 0x80 {
    } else if v < 0x4000 {
        assert(1 <= v / 128 < 128);
    } else if v < 0x20_0000 {
        assert(1 <= v / 16384 < 128);
    } else {
        assert(1 <= v / 2097152 < 128);
    }
}

/// Decoding inverts encoding: the canonical encoding of every in-range value
/// reads back as that value, consuming exactly the encoding.
pub proof fn lemma_vlq_round_trip(v: u32)
    requires
        v <= 0x0FFF_FFFF,
    ensures
        spec_vlq_decode(spec_vlq_bytes(v)) == Some((v, spec_vlq_len(v) as usize)),
{
    if v < 0x80 {
    } else if v < 0x4000 {
        assert(v == ((v / 128) % 128) * 128 + v % 128) by (nonlinear_arith)
            requires
                0x80 <= v < 0x4000,
        ;
    } else if v < 0x20_0000 {
        assert(v == ((v / 16384) % 128) * 16384 + ((v / 128) % 128) * 128 + v % 128)
            by (nonlinear_arith)
            requires
                0x4000 <= v < 0x20_0000,
        ;
    } else {
        assert(v == ((v / 2097152) % 128) * 2097152 + ((v / 16384) % 128) * 16384 + ((v / 128)
            % 128) * 128 + v % 128) by (nonlinear_arith)
            requires
                0x20_0000 <= v <= 0x0FFF_FFFF,
        ;
    }
}

impl Vql {
    /// The largest value a 4-byte variable-length encoding can carry.
    pub const MAX: u32 = 0x0FFF_FFFF;

    /// Whether the wrapped value fits in 28 bits.
    pub open spec fn wf(self) -> bool {
        self.0 <= 0x0FFF_FFFF
    }

    /// The wrapped value.
    pub fn value(&self) -> (r: u32)
        ensures
            r == self.0,
    {
        self.0
    }

    /// The delta-time zero.
    pub fn zero() -> (r: Self)
        ensures
            r == Vql(0),
    {
        Vql(0)
    }

    /// Validating constructor: succeeds exactly on values up to
    /// `0x0FFF_FFFF`.
    pub fn try_from(value: u32) -> (r: Result<Self, MidiError>)
        ensures
            value <= 0x0FFF_FFFF <==> r is Ok,
            value <= 0x0FFF_FFFF ==> r == Ok::<Vql, MidiError>(Vql(value)),
            value > 0x0FFF_FFFF ==> r == Err::<Vql, MidiError>(MidiError::InvalidVqlInput(value)),
    {
        if value <= Vql::MAX {
            Ok(Vql(value))
        } else {
            Err(MidiError::InvalidVqlInput(value))
        }
    }

    /// The encoding right-aligned in a 4-byte scratch buffer: the leading
    /// bytes are zero and the trailing `encode_len` bytes are the canonical
    /// encoding.
    pub fn encode(&self) -> (r: [u8; 4])
        requires
            self.wf(),
        ensures
            r@.skip(4 - spec_vlq_len(self.0)) == spec_vlq_bytes(self.0),
            forall|i: int| 0 <= i < 4 - spec_vlq_len(self.0) ==> r@[i] == 0,
    {
        let v = self.0;
        let g0: u8 = (v % 128) as u8;
        let g1: u8 = ((v / 128) % 128) as u8;
        let g2: u8 = ((v / 16384) % 128) as u8;
        let g3: u8 = ((v / 2097152) % 128) as u8;
        let r: [u8; 4] = if v < 0x80 {
            [0, 0, 0, g0]
        } else if v < 0x4000 {
            [0, 0, g1 + 0x80, g0]
        } else if v < 0x20_0000 {
            [0, g2 + 0x80, g1 + 0x80, g0]
        } else {
            [g3 + 0x80, g2 + 0x80, g1 + 0x80, g0]
        };
        proof {
            assert(r@.skip(4 - spec_vlq_len(self.0)) =~= spec_vlq_bytes(self.0));
        }
        r
    }

    /// How many bytes the canonical encoding takes, per the range table.
    pub fn encode_len(&self) -> (r: usize)
        ensures
            r == spec_vlq_len(self.0),
    {
        if self.0 < 0x80 {
            1
        } else if self.0 < 0x4000 {
            2
        } else if self.0 < 0x20_0000 {
            3
        } else {
            4
        }
    }

    /// The canonical variable-length encoding, 1 to 4 bytes.
    pub fn encode_bytes(&self) -> (r: Vec<u8>)
        requires
            self.wf(),
        ensures
            r@ == spec_vlq_bytes(self.0),
    {
        let v = self.0;
        let g0: u8 = (v % 128) as u8;
        let g1: u8 = ((v / 128) % 128) as u8;
        let g2: u8 = ((v / 16384) % 128) as u8;
        let g3: u8 = ((v / 2097152) % 128) as u8;
        let mut r: Vec<u8> = Vec::new();
        if v < 0x80 {
            r.push(g0);
        } else if v < 0x4000 {
            r.push(g1 + 0x80);
            r.push(g0);
        } else if v < 0x20_0000 {
            r.push(g2 + 0x80);
            r.push(g1 + 0x80);
            r.push(g0);
        } else {
            r.push(g3 + 0x80);
            r.push(g2 + 0x80);
            r.push(g1 + 0x80);
            r.push(g0);
        }
        proof {
            assert(r@ =~= spec_vlq_bytes(self.0));
        }
        r
    }

    /// Reads one variable-length quantity from the front of a byte slice:
    /// the value and the count of bytes consumed, or `None` when no terminal
    /// byte occurs within the first 4 bytes.
    pub fn decode(bytes: &[u8]) -> (r: Option<(Vql, usize)>)
        ensures
            r matches Some((x, n)) ==> spec_vlq_decode(bytes@) == Some((x.0, n)) && x.wf(),
            r is None ==> spec_vlq_decode(bytes@) is None,
    {
        if bytes.len() >= 1 && bytes[0] < 0x80 {
            Some((Vql(bytes[0] as u32), 1))
        } else if bytes.len() >= 2 && bytes[1] < 0x80 {
            let v: u32 = ((bytes[0] - 0x80) as u32) * 0x80 + (bytes[1] as u32);
            Some((Vql(v), 2))
        } else if bytes.len() >= 3 && bytes[2] < 0x80 {
            let v: u32 = ((bytes[0] - 0x80) as u32) * 0x4000 + ((bytes[1] - 0x80) as u32) * 0x80
                + (bytes[2] as u32);
            Some((Vql(v), 3))
        } else if bytes.len() >= 4 && bytes[3] < 0x80 {
            let v: u32 = ((bytes[0] - 0x80) as u32) * 0x20_0000 + ((bytes[1] - 0x80) as u32)
                * 0x4000 + ((bytes[2] - 0x80) as u32) * 0x80 + (bytes[3] as u32);
            Some((Vql(v), 4))
        } else {
            None
        }
    }
}

/// The payload of a track event: a MIDI message, a meta-event, or raw
/// system-exclusive bytes carried through untouched.
#[derive(Debug)]
pub enum EventType {
    Midi(MidiMessage),
    Meta(MetaEvent),
    Sysex(Vec<u8>),
}

/// The mathematical shape of a track-event payload.
pub enum EventTypeView {
    Midi(MidiMessage),
    Meta(MetaEventView),
    Sysex(Seq<u8>),
}

impl View for EventType {
    type V = EventTypeView;

    open spec fn view(&self) -> EventTypeView {
        match self {
            EventType::Midi(m) => EventTypeView::Midi(*m),
            EventType::Meta(m) => EventTypeView::Meta(m@),
            EventType::Sysex(d) => EventTypeView::Sysex(d@),
        }
    }
}

/// Whether a track-event payload can be encoded: a MIDI message must be
/// well formed, a meta-event's payload must fit the 28-bit length.
pub open spec fn spec_event_type_wf(e: EventTypeView) -> bool {
    match e {
        EventTypeView::Midi(m) => spec_midi_message_wf(m),
        EventTypeView::Meta(m) => spec_meta_payload(m).len() <= 0x0FFF_FFFF,
        EventTypeView::Sysex(_) => true,
    }
}

/// The encoded bytes of a track-event payload: a channel message emits its
/// status byte then its data bytes, a system-common or real-time message is
/// one status byte, a meta-event serializes per its own layout, and
/// system-exclusive bytes pass through as they are.
pub open spec fn spec_event_bytes(e: EventTypeView) -> Seq<u8>
    recommends
        spec_event_type_wf(e),
{
    match e {
        EventTypeView::Midi(MidiMessage::Channel { channel, message }) => seq![
            spec_to_status_byte(Status::Channel { event_type: spec_event_type(message), channel }),
        ] + spec_data_bytes(message),
        EventTypeView::Midi(MidiMessage::SystemCommon(evt)) => seq![
            spec_to_status_byte(Status::SystemCommon(evt)),
        ],
        EventTypeView::Midi(MidiMessage::RealTime(rt)) => seq![
            spec_to_status_byte(Status::RealTime(rt)),
        ],
        EventTypeView::Meta(m) => spec_meta_bytes(m),
        EventTypeView::Sysex(d) => d,
    }
}

impl EventType {
    /// Whether this payload can be encoded.
    pub open spec fn wf(self) -> bool {
        spec_event_type_wf(self@)
    }

    /// Encodes this payload; each event re-emits its status byte, there is
    /// no running-status compression.
    pub fn to_bytes(&self) -> (r: Vec<u8>)
        requires
            self.wf(),
        ensures
            r@ == spec_event_bytes(self@),
    {
        match self {
            EventType::Midi(msg) => {
                let mut bytes: Vec<u8> = Vec::new();
                match msg {
                    MidiMessage::Channel { channel, message } => {
                        let event_type = message.event_type();
                        let status = Status::channel(event_type, *channel);
                        bytes.push(status.to_status_byte());
                        match message {
                            ChannelMessage::NoteOff { note, velocity } => {
                                bytes.push(note.value());
                                bytes.push(velocity.value());
                            },
                            ChannelMessage::NoteOn { note, velocity } => {
                                bytes.push(note.value());
                                bytes.push(velocity.value());
                            },
                            ChannelMessage::PolyphonicKeyPressure { note, pressure } => {
                                bytes.push(note.value());
                                bytes.push(pressure.value());
                            },
                            ChannelMessage::ControlChange { control, value } => {
                                bytes.push(control.value());
                                bytes.push(value.value());
                            },
                            ChannelMessage::ProgramChange { program } => {
                                bytes.push(program.value());
                            },
                            ChannelMessage::ChannelPressure { pressure } => {
                                bytes.push(pressure.value());
                            },
                            ChannelMessage::PitchBend { value } => {
                                bytes.push((*value % 128) as u8);
                                bytes.push((*value / 128) as u8);
                            },
                        }
                    },
                    MidiMessage::SystemCommon(event) => {
                        let status = Status::system_common(*event);
                        bytes.push(status.to_status_byte());
                    },
                    MidiMessage::RealTime(event) => {
                        let status = Status::real_time(*event);
                        bytes.push(status.to_status_byte());
                    },
                }
                proof {
                    assert(bytes@ =~= spec_event_bytes(self@));
                }
                bytes
            },
            EventType::Meta(event) => event.to_bytes(),
            EventType::Sysex(data) => {
                let r = data.clone();
                proof {
                    assert(r@ =~= spec_event_bytes(self@));
                }
                r
            },
        }
    }
}

impl Clone for EventType {
    /// A clone denotes the same payload: the views are equal.
    fn clone(&self) -> (r: Self)
        ensures
            r@ == self@,
    {
        let r = match self {
            EventType::Midi(m) => EventType::Midi(*m),
            EventType::Meta(m) => EventType::Meta(m.clone()),
            EventType::Sysex(d) => EventType::Sysex(d.clone()),
        };
        proof {
            assert(r@ =~= self@);
        }
        r
    }
}

/// Parsing inverts encoding for whole messages: the encoded bytes of any
/// well-formed MIDI message parse back to that message, consuming the whole
/// encoding.
pub proof fn lemma_midi_event_round_trip(m: MidiMessage)
    requires
        spec_midi_message_wf(m),
    ensures
        crate::message::spec_midi_from_bytes(spec_event_bytes(EventTypeView::Midi(m)))
            == Ok::<(MidiMessage, usize), MidiError>(
            (m, spec_event_bytes(EventTypeView::Midi(m)).len() as usize),
        ),
{
    let bytes = spec_event_bytes(EventTypeView::Midi(m));
    let status = crate::message::spec_status_of(m);
    crate::message::lemma_status_round_trip(status);
    match m {
        MidiMessage::Channel { channel, message } => {
            assert(bytes.skip(1) =~= spec_data_bytes(message));
            crate::message::lemma_channel_message_round_trip(message);
        },
        MidiMessage::SystemCommon(_) => {},
        MidiMessage::RealTime(_) => {},
    }
}

/// A track event: a delta time in ticks since the previous event, and a
/// payload.
#[derive(Debug)]
pub struct TrackEvent {
    pub v_time: Vql,
    pub event: EventType,
}

/// The mathematical shape of a track event.
pub struct TrackEventView {
    pub v_time: Vql,
    pub event: EventTypeView,
}

impl View for TrackEvent {
    type V = TrackEventView;

    open spec fn view(&self) -> TrackEventView {
        TrackEventView { v_time: self.v_time, event: self.event@ }
    }
}

/// Whether a track event can be encoded.
pub open spec fn spec_track_event_wf(e: TrackEventView) -> bool {
    e.v_time.wf() && spec_event_type_wf(e.event)
}

/// The encoded bytes of a track event: the variable-length delta time, then
/// the payload bytes.
pub open spec fn spec_track_event_bytes(e: TrackEventView) -> Seq<u8>
    recommends
        spec_track_event_wf(e),
{
    spec_vlq_bytes(e.v_time.0) + spec_event_bytes(e.event)
}

impl TrackEvent {
    /// Whether this track event can be encoded.
    pub open spec fn wf(self) -> bool {
        spec_track_event_wf(self@)
    }

    /// Builds a track event from a delta time and a payload.
    pub fn new(v_time: Vql, event: EventType) -> (r: Self)
        ensures
            r.v_time == v_time,
            r.event@ == event@,
    {
        Self { v_time, event }
    }

    /// Encodes this track event: the delta time, then the payload.
    pub fn to_bytes(&self) -> (r: Vec<u8>)
        requires
            self.wf(),
        ensures
            r@ == spec_track_event_bytes(self@),
    {
        let mut bytes = self.v_time.encode_bytes();
        let mut event_bytes = self.event.to_bytes();
        bytes.append(&mut event_bytes);
        bytes
    }

    /// A meta-event at delta time zero.
    pub fn meta_event(event: MetaEvent) -> (r: Self)
        ensures
            r.v_time == Vql(0),
            r.event@ == EventTypeView::Meta(event@),
    {
        Self { v_time: Vql::zero(), event: EventType::Meta(event) }
    }

    /// A track-name meta-event at delta time zero, carrying the name's
    /// UTF-8 bytes.
    pub fn track_name(name: &str) -> (r: Self)
        ensures
            r.v_time == Vql(0),
            r.event@ == EventTypeView::Meta(MetaEventView::TrackName(name.spec_bytes())),
    {
        let bytes = slice_to_vec(name.as_bytes());
        Self::meta_event(MetaEvent::TrackName(bytes))
    }

    /// The end-of-track meta-event at delta time zero.
    pub fn end_track() -> (r: Self)
        ensures
            r.v_time == Vql(0),
            r.event@ == EventTypeView::Meta(MetaEventView::EndOfTrack),
    {
        Self::meta_event(MetaEvent::EndOfTrack)
    }

    /// A note-on channel message at the given delta time.
    pub fn note_on(delta_time: Vql, channel: Channel, note: Note, velocity: Velocity) -> (r: Self)
        ensures
            r.v_time == delta_time,
            r.event@ == EventTypeView::Midi(
                MidiMessage::Channel {
                    channel,
                    message: ChannelMessage::NoteOn { note, velocity },
                },
            ),
    {
        let message = ChannelMessage::NoteOn { note, velocity };
        Self { v_time: delta_time, event: EventType::Midi(MidiMessage::Channel { channel, message }) }
    }

    /// A note-off channel message at the given delta time.
    pub fn note_off(delta_time: Vql, channel: Channel, note: Note, velocity: Velocity) -> (r: Self)
        ensures
            r.v_time == delta_time,
            r.event@ == EventTypeView::Midi(
                MidiMessage::Channel {
                    channel,
                    message: ChannelMessage::NoteOff { note, velocity },
                },
            ),
    {
        let message = ChannelMessage::NoteOff { note, velocity };
        Self { v_time: delta_time, event: EventType::Midi(MidiMessage::Channel { channel, message }) }
    }
}

impl Clone for TrackEvent {
    /// A clone denotes the same track event: the views are equal.
    fn clone(&self) -> (r: Self)
        ensures
            r@ == self@,
    {
        TrackEvent { v_time: self.v_time, event: self.event.clone() }
    }
}

/// The views of a sequence of track events.
pub open spec fn spec_events_view(events: Seq<TrackEvent>) -> Seq<TrackEventView> {
    events.map_values(|e: TrackEvent| e@)
}

/// The concatenated encodings of a sequence of track events, in order.
pub open spec fn spec_events_bytes(events: Seq<TrackEventView>) -> Seq<u8>
    decreases events.len(),
{
    if events.len() == 0 {
        Seq::<u8>::empty()
    } else {
        spec_events_bytes(events.drop_last()) + spec_track_event_bytes(events.last())
    }
}

/// The sum of the encoded lengths of a sequence of track events.
pub open spec fn spec_events_total_len(events: Seq<TrackEventView>) -> int
    decreases events.len(),
{
    if events.len() == 0 {
        0int
    } else {
        spec_events_total_len(events.drop_last()) + spec_track_event_bytes(events.last()).len()
    }
}

/// The concatenation of the events' encodings is exactly as long as the sum
/// of their lengths, and that sum is never negative.
pub proof fn lemma_events_bytes_len(events: Seq<TrackEventView>)
    ensures
        spec_events_bytes(events).len() == spec_events_total_len(events),
        spec_events_total_len(events) >= 0,
    decreases events.len(),
{
    if events.len() > 0 {
        lemma_events_bytes_len(events.drop_last());
    }
}

/// A prefix of a sequence of events never encodes to more bytes than the
/// whole sequence.
pub proof fn lemma_events_total_len_take_le(events: Seq<TrackEventView>, i: int)
    requires
        0 <= i <= events.len(),
    ensures
        spec_events_total_len(events.take(i)) <= spec_events_total_len(events),
    decreases events.len(),
{
    if i == events.len() {
        assert(events.take(i) =~= events);
    } else {
        assert(events.drop_last().take(i) =~= events.take(i));
        lemma_events_total_len_take_le(events.drop_last(), i);
    }
}

/// Whether every event of a track can be encoded.
pub open spec fn spec_track_events_wf(events: Seq<TrackEventView>) -> bool {
    forall|i: int| 0 <= i < events.len() ==> spec_track_event_wf(#[trigger] events[i])
}

/// The big-endian bytes of a 32-bit length field.
pub open spec fn spec_u32_be(v: u32) -> Seq<u8> {
    seq![
        ((v / 0x100_0000) % 256) as u8,
        ((v / 0x1_0000) % 256) as u8,
        ((v / 256) % 256) as u8,
        (v % 256) as u8,
    ]
}

/// An ordered sequence of track events that knows how to emit itself as an
/// `MTrk` chunk.
///
/// The stored `length` is the sum of the events' encoded lengths as computed
/// at construction; appending events does not update it. The well-formed-
/// track contract of SMF (the last event is end-of-track) is the caller's
/// responsibility; the library only offers the convenience constructors.
#[derive(Debug)]
pub struct Track {
    pub chunk_type: ChunkType,
    pub length: u32,
    pub events: Vec<TrackEvent>,
    pub name: String,
}

/// The mathematical shape of a track.
pub struct TrackView {
    pub chunk_type: ChunkType,
    pub length: u32,
    pub events: Seq<TrackEventView>,
    pub name: Seq<char>,
}

impl View for Track {
    type V = TrackView;

    open spec fn view(&self) -> TrackView {
        TrackView {
            chunk_type: self.chunk_type,
            length: self.length,
            events: spec_events_view(self.events@),
            name: self.name@,
        }
    }
}

/// Whether a track can be encoded: every event is well formed and the
/// encoded payload length fits the 32-bit chunk length field.
pub open spec fn spec_track_wf(t: TrackView) -> bool {
    spec_track_events_wf(t.events) && spec_events_total_len(t.events) <= u32::MAX
}

/// The full `MTrk` chunk: the four chunk-type bytes, the big-endian length
/// of the concatenated event bytes, then those bytes in order.
pub open spec fn spec_track_bytes(t: TrackView) -> Seq<u8>
    recommends
        spec_track_events_wf(t.events),
        spec_events_total_len(t.events) <= u32::MAX,
{
    spec_chunk_type_bytes(t.chunk_type) + spec_u32_be(spec_events_total_len(t.events) as u32)
        + spec_events_bytes(t.events)
}

impl Track {
    /// Whether every event of this track can be encoded and the encoded
    /// payload length fits the 32-bit chunk length field.
    pub open spec fn wf(self) -> bool {
        spec_track_wf(self@)
    }

    /// Builds a track from its events, recording the sum of their encoded
    /// lengths.
    pub fn new(events: Vec<TrackEvent>) -> (r: Self)
        requires
            spec_track_events_wf(spec_events_view(events@)),
            spec_events_total_len(spec_events_view(events@)) <= u32::MAX,
        ensures
            r.chunk_type == ChunkType::Track,
            r.length == spec_events_total_len(spec_events_view(events@)),
            r.events == events,
            r.name@ == Seq::<char>::empty(),
    {
        let ghost evs = spec_events_view(events@);
        let mut len: u32 = 0;
        let mut i: usize = 0;
        while i < events.len()
            invariant
                0 <= i <= events.len(),
                evs == spec_events_view(events@),
                spec_track_events_wf(evs),
                spec_events_total_len(evs) <= u32::MAX,
                len == spec_events_total_len(evs.take(i as int)),
            decreases events.len() - i,
        {
            proof {
                assert(events@[i as int]@ == evs[i as int]);
                assert(spec_track_event_wf(evs[i as int]));
            }
            let bytes = events[i].to_bytes();
            proof {
                assert(evs.take(i + 1).drop_last() =~= evs.take(i as int));
                assert(evs.take(i + 1).last() == events@[i as int]@);
                lemma_events_bytes_len(evs.take(i as int));
                lemma_events_total_len_take_le(evs, i + 1);
            }
            len = len + bytes.len() as u32;
            i = i + 1;
        }
        proof {
            assert(evs.take(events@.len() as int) =~= evs);
        }
        Self { chunk_type: ChunkType::Track, length: len, events, name: String::new() }
    }

    /// Prepends a track-name meta-event and records the display name.
    pub fn with_name(self, name: &str) -> (r: Self)
        ensures
            r.chunk_type == self.chunk_type,
            r.length == self.length,
            r.name@ == name@,
            r@.events == self@.events.insert(
                0,
                TrackEventView {
                    v_time: Vql(0),
                    event: EventTypeView::Meta(MetaEventView::TrackName(name.spec_bytes())),
                },
            ),
    {
        let mut r = self;
        r.name = name.to_owned();
        r.events.insert(0, TrackEvent::track_name(name));
        proof {
            assert(r@.events =~= self@.events.insert(
                0,
                TrackEventView {
                    v_time: Vql(0),
                    event: EventTypeView::Meta(MetaEventView::TrackName(name.spec_bytes())),
                },
            ));
        }
        r
    }

    /// Records the display name without adding any event.
    pub fn set_name(&mut self, name: &str)
        ensures
            final(self).name@ == name@,
            final(self).chunk_type == old(self).chunk_type,
            final(self).length == old(self).length,
            final(self).events == old(self).events,
    {
        self.name = name.to_owned();
    }

    /// Emits the `MTrk` chunk. The length field is exactly the sum of the
    /// events' encoded lengths, computed afresh from the events themselves.
    pub fn to_bytes(&self) -> (r: Vec<u8>)
        requires
            self.wf(),
        ensures
            r@ == spec_track_bytes(self@),
            r@.subrange(4, 8) == spec_u32_be(spec_events_total_len(self@.events) as u32),
            r@.len() == 8 + spec_events_total_len(self@.events),
    {
        let ghost evs = self@.events;
        let mut payload: Vec<u8> = Vec::new();
        let mut i: usize = 0;
        while i < self.events.len()
            invariant
                0 <= i <= self.events.len(),
                evs == self@.events,
                spec_track_events_wf(evs),
                payload@ == spec_events_bytes(evs.take(i as int)),
            decreases self.events.len() - i,
        {
            proof {
                assert(self.events@[i as int]@ == evs[i as int]);
                assert(spec_track_event_wf(evs[i as int]));
            }
            let mut bytes = self.events[i].to_bytes();
            payload.append(&mut bytes);
            proof {
                assert(evs.take(i + 1).drop_last() =~= evs.take(i as int));
                assert(evs.take(i + 1).last() == self.events@[i as int]@);
            }
            i = i + 1;
        }
        proof {
            assert(evs.take(self.events@.len() as int) =~= evs);
            lemma_events_bytes_len(evs);
        }

        let total_len: usize = payload.len();
        let total: u32 = total_len as u32;
        let mut bytes: Vec<u8> = Vec::new();
        let magic = self.chunk_type.as_bytes();
        bytes.push(magic[0]);
        bytes.push(magic[1]);
        bytes.push(magic[2]);
        bytes.push(magic[3]);
        bytes.push(((total / 0x100_0000) % 256) as u8);
        bytes.push(((total / 0x1_0000) % 256) as u8);
        bytes.push(((total / 256) % 256) as u8);
        bytes.push((total % 256) as u8);
        bytes.append(&mut payload);
        proof {
            assert(bytes@ =~= spec_track_bytes(self@));
            assert(bytes@.subrange(4, 8) =~= spec_u32_be(
                spec_events_total_len(self@.events) as u32,
            ));
        }
        bytes
    }

    /// Appends an event; the stored length is not updated.
    pub fn add_event(&mut self, event: TrackEvent)
        ensures
            final(self).events@ == old(self).events@.push(event),
            final(self).chunk_type == old(self).chunk_type,
            final(self).length == old(self).length,
            final(self).name == old(self).name,
    {
        self.events.push(event);
    }

    /// The sum of the events' encoded lengths as recorded at construction.
    pub fn length(&self) -> (r: usize)
        ensures
            r == self.length,
    {
        self.length as usize
    }
}

impl Default for Track {
    /// The empty track: no events, no name, length zero.
    fn default() -> (r: Self)
        ensures
            r.chunk_type == ChunkType::Track,
            r.length == 0,
            r.events@ == Seq::<TrackEvent>::empty(),
            r.name@ == Seq::<char>::empty(),
    {
        Self { chunk_type: ChunkType::Track, length: 0, events: Vec::new(), name: String::new() }
    }
}

impl Clone for Track {
    /// A clone denotes the same track: the views are equal.
    fn clone(&self) -> (r: Self)
        ensures
            r@ == self@,
    {
        let r = Track {
            chunk_type: self.chunk_type,
            length: self.length,
            events: self.events.clone(),
            name: self.name.clone(),
        };
        proof {
            assert forall|i: int| 0 <= i < r.events@.len() implies r.events@[i]@
                == self.events@[i]@ by {
                assert(cloned::<TrackEvent>(self.events@[i], r.events@[i]));
            }
            assert(spec_events_view(r.events@) =~= spec_events_view(self.events@));
        }
        r
    }
}

} // verus!

