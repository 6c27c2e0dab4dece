//! Tests for the channel buffers and the event send buffer.

use vst::api::{EventType, MIDI_EVENT_FLAG_REALTIME};
use vst::buffer::{
    InputIterator, Inputs, OutputIterator, Outputs, PlaceholderEvent, SendEventBuffer,
    MIDI_EVENT_BYTE_SIZE,
};
use vst::event::{Event, MidiEvent, SysExEvent};

const SIZE: usize = 1024;

fn input_channels() -> Inputs<f32> {
    let in1: Vec<f32> = (0..SIZE).map(|x| x as f32).collect();
    let in2 = in1.clone();
    Inputs::new(vec![in1, in2], SIZE)
}

fn output_channels() -> Outputs<f32> {
    Outputs::new(vec![vec![0.0; SIZE], vec![0.0; SIZE]], SIZE)
}

#[test]
fn inputs_len_and_get() {
    let inputs = input_channels();
    assert_eq!(inputs.len(), 2);
    assert!(!inputs.is_empty());
    assert_eq!(inputs.get(0)[3], 3.0);
    assert_eq!(inputs.get(1)[SIZE - 1], (SIZE - 1) as f32);
    let empty: Inputs<f32> = Inputs::new(vec![], 0);
    assert!(empty.is_empty());
}

#[test]
fn inputs_split_at() {
    let inputs = input_channels();
    let (left, right) = inputs.split_at(1);
    assert_eq!(left.len(), 1);
    assert_eq!(right.len(), 1);
    assert_eq!(left.get(0)[5], 5.0);
    assert_eq!(right.get(0)[5], 5.0);
}

#[test]
fn outputs_split_and_write() {
    let mut outputs = output_channels();
    assert_eq!(outputs.len(), 2);
    assert!(!outputs.is_empty());
    outputs.get_mut(1)[7] = 42.0;
    assert_eq!(outputs.get(1)[7], 42.0);
    assert_eq!(outputs.get(0)[7], 0.0);
    let (left, right) = outputs.split_at_mut(1);
    assert_eq!(left.len(), 1);
    assert_eq!(right.get(0)[7], 42.0);
}

#[test]
fn channel_iterators() {
    let inputs = input_channels();
    let mut it = InputIterator::new();
    let mut count = 0;
    while let Some(buf) = it.next(&inputs) {
        assert_eq!(buf.len(), SIZE);
        count += 1;
    }
    assert_eq!(count, 2);

    let mut outputs = output_channels();
    let mut ot = OutputIterator::new();
    let mut touched = 0;
    while let Some(buf) = ot.next(&mut outputs) {
        buf[0] = 1.0;
        touched += 1;
    }
    assert_eq!(touched, 2);
    assert_eq!(outputs.get(0)[0], 1.0);
    assert_eq!(outputs.get(1)[0], 1.0);
}

fn midi_event(data: [u8; 3], live: bool) -> MidiEvent {
    MidiEvent {
        data,
        delta_frames: 12,
        live,
        note_length: Some(400),
        note_offset: None,
        detune: -3,
        note_off_velocity: 90,
    }
}

#[test]
fn send_event_buffer_stores_midi_events() {
    let mut buf = SendEventBuffer::new(4);
    assert_eq!(buf.events().len(), 4);
    assert_eq!(buf.num_events(), 4);
    let events = vec![midi_event([0x90, 60, 100], true), midi_event([0x80, 60, 0], false)];
    buf.store_events(&events);
    assert_eq!(buf.num_events(), 2);
    match &buf.events()[0] {
        PlaceholderEvent::Midi(e) => {
            assert_eq!(e.event_type, EventType::Midi);
            assert_eq!(e.byte_size, MIDI_EVENT_BYTE_SIZE);
            assert_eq!(e.midi_data, [0x90, 60, 100]);
            assert_eq!(e.flags, MIDI_EVENT_FLAG_REALTIME);
            assert_eq!(e.note_length, 400);
            assert_eq!(e.note_offset, 0);
            assert_eq!(e.delta_frames, 12);
            assert_eq!(e.detune, -3);
            assert_eq!(e.note_off_velocity, 90);
        }
        _ => panic!("expected a midi slot"),
    }
    match &buf.events()[1] {
        PlaceholderEvent::Midi(e) => {
            assert_eq!(e.midi_data, [0x80, 60, 0]);
            assert_eq!(e.flags, 0);
        }
        _ => panic!("expected a midi slot"),
    }
    buf.clear();
    assert_eq!(buf.num_events(), 0);
    assert_eq!(buf.events().len(), 4);
}

#[test]
fn send_event_buffer_caps_at_capacity() {
    let mut buf = SendEventBuffer::new(2);
    let events = vec![
        midi_event([1, 2, 3], false),
        midi_event([4, 5, 6], false),
        midi_event([7, 8, 9], false),
    ];
    buf.store_events(&events);
    assert_eq!(buf.num_events(), 2);
}

#[test]
fn send_event_buffer_stores_mixed_events() {
    let mut buf = SendEventBuffer::new(3);
    let events = vec![
        Event::Midi(midi_event([0x90, 72, 80], false)),
        Event::SysEx(SysExEvent { payload: vec![0xf0, 1, 2, 0xf7], delta_frames: 5 }),
    ];
    buf.store_events(&events);
    assert_eq!(buf.num_events(), 2);
    match &buf.events()[1] {
        PlaceholderEvent::SysEx(e) => {
            assert_eq!(e.event_type, EventType::SysEx);
            assert_eq!(e.system_data, vec![0xf0, 1, 2, 0xf7]);
            assert_eq!(e.delta_frames, 5);
        }
        _ => panic!("expected a sysex slot"),
    }
}

#[test]
fn midi_event_from_api_record() {
    let raw = vst::api::MidiEvent {
        event_type: EventType::Midi,
        byte_size: MIDI_EVENT_BYTE_SIZE,
        delta_frames: 33,
        flags: MIDI_EVENT_FLAG_REALTIME,
        note_length: 0,
        note_offset: 17,
        midi_data: [0x90, 64, 101],
        _midi_reserved: 0,
        detune: 2,
        note_off_velocity: 55,
        _reserved1: 0,
        _reserved2: 0,
    };
    let ev = MidiEvent::from_api(raw);
    assert_eq!(ev.data, [0x90, 64, 101]);
    assert_eq!(ev.delta_frames, 33);
    assert!(ev.live);
    assert_eq!(ev.note_length, None);
    assert_eq!(ev.note_offset, Some(17));
    assert_eq!(ev.detune, 2);
    assert_eq!(ev.note_off_velocity, 55);
}

#[test]
fn sysex_event_from_api_record() {
    let raw = vst::api::SysExEvent {
        event_type: EventType::SysEx,
        byte_size: 48,
        delta_frames: 3,
        _flags: 0,
        system_data: vec![1, 2, 3],
    };
    let ev = SysExEvent::from_api(raw);
    assert_eq!(ev.payload, vec![1, 2, 3]);
    assert_eq!(ev.delta_frames, 3);
}
