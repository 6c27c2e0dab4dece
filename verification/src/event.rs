//! Interfaces to VST events.

use crate::api;
use crate::api::MIDI_EVENT_FLAG_REALTIME;
use vstd::prelude::*;

verus! {

/// A VST event.
#[derive(Clone, Debug)]
pub enum Event {
    /// A midi event.
    ///
    /// These are sent to the plugin before processing begins.
    Midi(MidiEvent),
    /// A system exclusive event.
    ///
    /// This is just a block of data and it is up to the plugin to
    /// interpret it. Generally used by midi controllers.
    SysEx(SysExEvent),
    /// A deprecated event.
    ///
    /// Passes the raw event record along so that implementors can
    /// optionally handle it.
    Deprecated(api::Event),
}

/// A midi event.
///
/// These are sent to the plugin before processing begins.
#[derive(Clone, Copy, Debug)]
pub struct MidiEvent {
    /// The raw midi data associated with this event.
    pub data: [u8; 3],
    /// Number of samples into the current processing block that this
    /// event occurs on.
    pub delta_frames: i32,
    /// This midi event was created live as opposed to being played back
    /// in the sequencer.
    ///
    /// This can give the plugin priority over this event if it introduces
    /// a lot of latency.
    pub live: bool,
    /// The length of the midi note associated with this event, if
    /// available.
    pub note_length: Option<i32>,
    /// Offset in samples into note from note start, if available.
    pub note_offset: Option<i32>,
    /// Detuning between -63 and +64 cents.
    pub detune: i8,
    /// Note off velocity between 0 and 127.
    pub note_off_velocity: u8,
}

/// A system exclusive event.
///
/// This is just a block of data and it is up to the plugin to interpret
/// it. Generally used by midi controllers.
#[derive(Clone, Debug)]
pub struct SysExEvent {
    /// The SysEx payload.
    pub payload: Vec<u8>,
    /// Number of samples into the current processing block that this
    /// event occurs on.
    pub delta_frames: i32,
}

impl MidiEvent {
    /// The event the raw API record describes: a zero note length or
    /// offset means "not available", and the live flag is the realtime
    /// bit of the record's flags.
    pub open spec fn spec_from_api(event: api::MidiEvent) -> MidiEvent {
        MidiEvent {
            data: event.midi_data,
            delta_frames: event.delta_frames,
            live: event.flags & MIDI_EVENT_FLAG_REALTIME != 0,
            note_length: if event.note_length > 0 {
                Some(event.note_length)
            } else {
                None
            },
            note_offset: if event.note_offset > 0 {
                Some(event.note_offset)
            } else {
                None
            },
            detune: event.detune,
            note_off_velocity: event.note_off_velocity,
        }
    }

    /// Create a high-level midi event from the raw API record. Record
    /// flags with unknown bits describe no valid midi event and are
    /// excluded here.
    pub fn from_api(event: api::MidiEvent) -> (r: MidiEvent)
        requires
            event.flags & !MIDI_EVENT_FLAG_REALTIME == 0,
        ensures
            r == MidiEvent::spec_from_api(event),
    {
        let length = if event.note_length > 0 {
            Some(event.note_length)
        } else {
            None
        };
        let offset = if event.note_offset > 0 {
            Some(event.note_offset)
        } else {
            None
        };
        MidiEvent {
            data: event.midi_data,
            delta_frames: event.delta_frames,
            live: event.flags & MIDI_EVENT_FLAG_REALTIME != 0,
            note_length: length,
            note_offset: offset,
            detune: event.detune,
            note_off_velocity: event.note_off_velocity,
        }
    }
}

impl SysExEvent {
    /// Create a high-level system exclusive event from the raw API
    /// record, taking over its payload.
    pub fn from_api(event: api::SysExEvent) -> (r: SysExEvent)
        ensures
            r.payload@ == event.system_data@,
            r.delta_frames == event.delta_frames,
    {
        SysExEvent { payload: event.system_data, delta_frames: event.delta_frames }
    }
}

} // verus!
