//! Buffers to safely work with blocks of audio samples, and a reusable
//! buffer for sending events to the host.
//!
//! A channel buffer is carried as its samples; each of the channels of an
//! [`Inputs`] or [`Outputs`] holds the same number of samples.

use crate::api;
use crate::event::{Event, MidiEvent, SysExEvent};
use vstd::prelude::*;

verus! {

/// The sequence of channels, each the sequence of its samples.
pub open spec fn channels_view<T>(bufs: Seq<Vec<T>>) -> Seq<Seq<T>> {
    bufs.map_values(|b: Vec<T>| b@)
}

/// The buffers for the input channels of an audio block. Each channel
/// holds the same number of samples.
pub struct Inputs<T> {
    bufs: Vec<Vec<T>>,
    samples: usize,
}

impl<T> View for Inputs<T> {
    type V = Seq<Seq<T>>;

    closed spec fn view(&self) -> Seq<Seq<T>> {
        channels_view(self.bufs@)
    }
}

impl<T> Inputs<T> {
    /// The number of samples each channel holds.
    pub closed spec fn samples_spec(self) -> nat {
        self.samples as nat
    }

    /// Every channel holds the same number of samples.
    pub open spec fn wf(self) -> bool {
        forall|i: int| 0 <= i < self@.len() ==> (#[trigger] self@[i]).len() == self.samples_spec()
    }

    /// Gather input channel buffers, each holding `samples` samples.
    pub fn new(bufs: Vec<Vec<T>>, samples: usize) -> (r: Inputs<T>)
        requires
            forall|i: int| 0 <= i < bufs@.len() ==> (#[trigger] bufs@[i])@.len() == samples,
        ensures
            r.wf(),
            r@ == channels_view(bufs@),
            r.samples_spec() == samples,
    {
        let r = Inputs { bufs, samples };
        proof {
            assert(forall|i: int| 0 <= i < r@.len() ==> (#[trigger] r@[i]).len() == samples);
        }
        r
    }

    /// Number of channels.
    pub fn len(&self) -> (r: usize)
        ensures
            r == self@.len(),
    {
        self.bufs.len()
    }

    /// Returns true if the buffer is empty.
    pub fn is_empty(&self) -> (r: bool)
        ensures
            r == (self@.len() == 0),
    {
        self.bufs.len() == 0
    }

    /// Access the channel at the given index.
    pub fn get(&self, i: usize) -> (r: &Vec<T>)
        requires
            i < self@.len(),
        ensures
            r@ == self@[i as int],
    {
        &self.bufs[i]
    }

    /// Split into the channels below `i` and the channels from `i` up,
    /// like for slices.
    pub fn split_at(self, i: usize) -> (r: (Inputs<T>, Inputs<T>))
        requires
            i <= self@.len(),
        ensures
            r.0@ == self@.subrange(0, i as int),
            r.1@ == self@.subrange(i as int, self@.len() as int),
            r.0.samples_spec() == self.samples_spec(),
            r.1.samples_spec() == self.samples_spec(),
    {
        let ghost orig = self@;
        let Inputs { mut bufs, samples } = self;
        let right = bufs.split_off(i);
        proof {
            assert(channels_view(bufs@) =~= orig.subrange(0, i as int));
            assert(channels_view(right@) =~= orig.subrange(i as int, orig.len() as int));
        }
        (Inputs { bufs, samples }, Inputs { bufs: right, samples })
    }
}

/// Iterator over the buffers for the input channels of an audio block.
pub struct InputIterator {
    i: usize,
}

impl InputIterator {
    /// The next channel index to yield.
    pub closed spec fn pos(self) -> int {
        self.i as int
    }

    /// An iterator over input channels, starting at the first.
    pub fn new() -> (r: InputIterator)
        ensures
            r.pos() == 0,
    {
        InputIterator { i: 0 }
    }

    /// The next channel of `data`, or `None` when all channels were
    /// yielded.
    pub fn next<'a, T>(&mut self, data: &'a Inputs<T>) -> (r: Option<&'a Vec<T>>)
        requires
            old(self).pos() >= 0,
        ensures
            match r {
                Some(buf) => {
                    &&& old(self).pos() < data@.len()
                    &&& buf@ == data@[old(self).pos()]
                    &&& final(self).pos() == old(self).pos() + 1
                },
                None => {
                    &&& old(self).pos() >= data@.len()
                    &&& final(self).pos() == old(self).pos()
                },
            },
    {
        if self.i < data.len() {
            let buf = data.get(self.i);
            self.i = self.i + 1;
            Some(buf)
        } else {
            None
        }
    }
}

/// The buffers for the output channels of an audio block. Each channel
/// holds the same number of samples.
pub struct Outputs<T> {
    bufs: Vec<Vec<T>>,
    samples: usize,
}

impl<T> View for Outputs<T> {
    type V = Seq<Seq<T>>;

    closed spec fn view(&self) -> Seq<Seq<T>> {
        channels_view(self.bufs@)
    }
}

impl<T> Outputs<T> {
    /// The number of samples each channel holds.
    pub closed spec fn samples_spec(self) -> nat {
        self.samples as nat
    }

    /// Every channel holds the same number of samples.
    pub open spec fn wf(self) -> bool {
        forall|i: int| 0 <= i < self@.len() ==> (#[trigger] self@[i]).len() == self.samples_spec()
    }

    /// Gather output channel buffers, each holding `samples` samples.
    pub fn new(bufs: Vec<Vec<T>>, samples: usize) -> (r: Outputs<T>)
        requires
            forall|i: int| 0 <= i < bufs@.len() ==> (#[trigger] bufs@[i])@.len() == samples,
        ensures
            r.wf(),
            r@ == channels_view(bufs@),
            r.samples_spec() == samples,
    {
        let r = Outputs { bufs, samples };
        proof {
            assert(forall|i: int| 0 <= i < r@.len() ==> (#[trigger] r@[i]).len() == samples);
        }
        r
    }

    /// Number of channels.
    pub fn len(&self) -> (r: usize)
        ensures
            r == self@.len(),
    {
        self.bufs.len()
    }

    /// Returns true if the buffer is empty.
    pub fn is_empty(&self) -> (r: bool)
        ensures
            r == (self@.len() == 0),
    {
        self.bufs.len() == 0
    }

    /// Access the channel at the given index.
    pub fn get(&self, i: usize) -> (r: &Vec<T>)
        requires
            i < self@.len(),
        ensures
            r@ == self@[i as int],
    {
        &self.bufs[i]
    }

    /// Mutably access the channel at the given index.
    pub fn get_mut(&mut self, i: usize) -> (r: &mut Vec<T>)
        requires
            i < old(self)@.len(),
        ensures
            (*r)@ == old(self)@[i as int],
            final(self)@ =~= old(self)@.update(i as int, (*final(r))@),
            final(self).samples_spec() == old(self).samples_spec(),
    {
        &mut self.bufs[i]
    }

    /// Split into the channels below `i` and the channels from `i` up,
    /// like for slices.
    pub fn split_at_mut(self, i: usize) -> (r: (Outputs<T>, Outputs<T>))
        requires
            i <= self@.len(),
        ensures
            r.0@ == self@.subrange(0, i as int),
            r.1@ == self@.subrange(i as int, self@.len() as int),
            r.0.samples_spec() == self.samples_spec(),
            r.1.samples_spec() == self.samples_spec(),
    {
        let ghost orig = self@;
        let Outputs { mut bufs, samples } = self;
        let right = bufs.split_off(i);
        proof {
            assert(channels_view(bufs@) =~= orig.subrange(0, i as int));
            assert(channels_view(right@) =~= orig.subrange(i as int, orig.len() as int));
        }
        (Outputs { bufs, samples }, Outputs { bufs: right, samples })
    }
}

/// Iterator over the buffers for the output channels of an audio block.
pub struct OutputIterator {
    i: usize,
}

impl OutputIterator {
    /// The next channel index to yield.
    pub closed spec fn pos(self) -> int {
        self.i as int
    }

    /// An iterator over output channels, starting at the first.
    pub fn new() -> (r: OutputIterator)
        ensures
            r.pos() == 0,
    {
        OutputIterator { i: 0 }
    }

    /// Mutable access to the next channel of `data`, or `None` when all
    /// channels were yielded.
    pub fn next<'a, T>(&mut self, data: &'a mut Outputs<T>) -> (r: Option<&'a mut Vec<T>>)
        requires
            old(self).pos() >= 0,
        ensures
            match r {
                Some(buf) => {
                    &&& old(self).pos() < old(data)@.len()
                    &&& (*buf)@ == old(data)@[old(self).pos()]
                    &&& final(data)@ == old(data)@.update(old(self).pos(), (*final(buf))@)
                    &&& final(self).pos() == old(self).pos() + 1
                },
                None => {
                    &&& old(self).pos() >= old(data)@.len()
                    &&& *final(data) == *old(data)
                    &&& final(self).pos() == old(self).pos()
                },
            },
    {
        if self.i < data.len() {
            let buf = data.get_mut(self.i);
            self.i = self.i + 1;
            Some(buf)
        } else {
            None
        }
    }
}

/// The size in bytes of the raw midi event record over the 64-bit C ABI.
pub const MIDI_EVENT_BYTE_SIZE: i32 = 32;

/// The size in bytes of the raw system exclusive event record over the
/// 64-bit C ABI.
pub const SYSEX_EVENT_BYTE_SIZE: i32 = 48;

/// One pre-allocated slot of a [`SendEventBuffer`].
///
/// Over the C ABI every slot occupies the memory of the largest event
/// record and is read as what its type field names; here a slot carries
/// the one event it holds.
#[derive(Clone, Debug)]
pub enum PlaceholderEvent {
    /// The slot holds a midi event.
    Midi(api::MidiEvent),
    /// The slot holds a system exclusive event.
    SysEx(api::SysExEvent),
    /// The slot holds a deprecated event, passed through unchanged.
    Deprecated(api::Event),
}

/// Used by [`SendEventBuffer::store_events`] to accept the event types
/// that can be written into a buffer slot.
pub trait WriteIntoPlaceholder {
    /// Whether `out` is the slot content this event is stored as.
    spec fn is_placeholder(&self, out: PlaceholderEvent) -> bool;

    /// Write this event into the given slot.
    fn write_into(&self, out: &mut PlaceholderEvent)
        ensures
            self.is_placeholder(*final(out)),
    ;
}

impl WriteIntoPlaceholder for MidiEvent {
    open spec fn is_placeholder(&self, out: PlaceholderEvent) -> bool {
        out == PlaceholderEvent::Midi(
            api::MidiEvent {
                event_type: api::EventType::Midi,
                byte_size: MIDI_EVENT_BYTE_SIZE,
                delta_frames: self.delta_frames,
                flags: if self.live {
                    api::MIDI_EVENT_FLAG_REALTIME
                } else {
                    0i32
                },
                note_length: match self.note_length {
                    Some(l) => l,
                    None => 0,
                },
                note_offset: match self.note_offset {
                    Some(o) => o,
                    None => 0,
                },
                midi_data: self.data,
                _midi_reserved: 0,
                detune: self.detune,
                note_off_velocity: self.note_off_velocity,
                _reserved1: 0,
                _reserved2: 0,
            },
        )
    }

    fn write_into(&self, out: &mut PlaceholderEvent) {
        let flags: i32 = if self.live {
            api::MIDI_EVENT_FLAG_REALTIME
        } else {
            0
        };
        let note_length = match self.note_length {
            Some(l) => l,
            None => 0,
        };
        let note_offset = match self.note_offset {
            Some(o) => o,
            None => 0,
        };
        *out = PlaceholderEvent::Midi(
            api::MidiEvent {
                event_type: api::EventType::Midi,
                byte_size: MIDI_EVENT_BYTE_SIZE,
                delta_frames: self.delta_frames,
                flags,
                note_length,
                note_offset,
                midi_data: self.data,
                _midi_reserved: 0,
                detune: self.detune,
                note_off_velocity: self.note_off_velocity,
                _reserved1: 0,
                _reserved2: 0,
            },
        );
    }
}

impl WriteIntoPlaceholder for SysExEvent {
    open spec fn is_placeholder(&self, out: PlaceholderEvent) -> bool {
        match out {
            PlaceholderEvent::SysEx(e) => {
                &&& e.event_type == api::EventType::SysEx
                &&& e.byte_size == SYSEX_EVENT_BYTE_SIZE
                &&& e.delta_frames == self.delta_frames
                &&& e._flags == 0
                &&& e.system_data@ == self.payload@
            },
            _ => false,
        }
    }

    fn write_into(&self, out: &mut PlaceholderEvent) {
        *out = PlaceholderEvent::SysEx(
            api::SysExEvent {
                event_type: api::EventType::SysEx,
                byte_size: SYSEX_EVENT_BYTE_SIZE,
                delta_frames: self.delta_frames,
                _flags: 0,
                system_data: clone_bytes(&self.payload),
            },
        );
    }
}

impl WriteIntoPlaceholder for Event {
    open spec fn is_placeholder(&self, out: PlaceholderEvent) -> bool {
        match self {
            Event::Midi(ev) => ev.is_placeholder(out),
            Event::SysEx(ev) => ev.is_placeholder(out),
            Event::Deprecated(e) => out == PlaceholderEvent::Deprecated(*e),
        }
    }

    fn write_into(&self, out: &mut PlaceholderEvent) {
        match self {
            Event::Midi(ev) => ev.write_into(out),
            Event::SysEx(ev) => ev.write_into(out),
            Event::Deprecated(e) => {
                *out = PlaceholderEvent::Deprecated(*e);
            },
        }
    }
}

/// A copy of the given bytes.
fn clone_bytes(b: &Vec<u8>) -> (r: Vec<u8>)
    ensures
        r@ == b@,
{
    let mut r: Vec<u8> = Vec::new();
    let mut i: usize = 0;
    while i < b.len()
        invariant
            i <= b@.len(),
            r@ == b@.subrange(0, i as int),
        decreases b@.len() - i,
    {
        r.push(b[i]);
        assert(r@ =~= b@.subrange(0, (i + 1) as int));
        i = i + 1;
    }
    proof {
        assert(r@ =~= b@);
    }
    r
}

/// This buffer is used for sending events to the host.
///
/// It allocates its slots once and reuses them between calls: storing
/// events never allocates beyond the capacity chosen at construction.
pub struct SendEventBuffer {
    events: Vec<PlaceholderEvent>,
    num_events: usize,
}

impl SendEventBuffer {
    /// The slots of the buffer.
    pub closed spec fn slots(self) -> Seq<PlaceholderEvent> {
        self.events@
    }

    /// How many leading slots currently hold stored events.
    pub closed spec fn num_events_spec(self) -> nat {
        self.num_events as nat
    }

    /// The stored count never exceeds the capacity.
    pub open spec fn wf(self) -> bool {
        self.num_events_spec() <= self.slots().len()
    }

    /// Creates a buffer for sending up to the given number of events per
    /// processing block. All slots start empty.
    pub fn new(capacity: usize) -> (r: SendEventBuffer)
        ensures
            r.wf(),
            r.slots().len() == capacity,
            r.num_events_spec() == capacity,
    {
        let mut events: Vec<PlaceholderEvent> = Vec::new();
        let mut i: usize = 0;
        while i < capacity
            invariant
                i <= capacity,
                events@.len() == i,
            decreases capacity - i,
        {
            events.push(
                PlaceholderEvent::SysEx(
                    api::SysExEvent {
                        event_type: api::EventType::_Placeholder,
                        byte_size: SYSEX_EVENT_BYTE_SIZE,
                        delta_frames: 0,
                        _flags: 0,
                        system_data: Vec::new(),
                    },
                ),
            );
            i = i + 1;
        }
        SendEventBuffer { events, num_events: capacity }
    }

    /// Stores events in the buffer, replacing its current content. At
    /// most as many events are stored as the buffer has slots; the
    /// stored count becomes the number stored.
    pub fn store_events<T: WriteIntoPlaceholder>(&mut self, events: &Vec<T>)
        requires
            old(self).wf(),
        ensures
            final(self).wf(),
            final(self).slots().len() == old(self).slots().len(),
            final(self).num_events_spec() == if events@.len() <= old(self).slots().len() {
                events@.len()
            } else {
                old(self).slots().len()
            },
            forall|k: int|
                0 <= k < final(self).num_events_spec() ==> (#[trigger] events@[k]).is_placeholder(
                    final(self).slots()[k],
                ),
            forall|k: int|
                final(self).num_events_spec() <= k < final(self).slots().len() ==> final(self).slots()[k]
                    == old(self).slots()[k],
    {
        let capacity = self.events.len();
        let count = if events.len() < capacity {
            events.len()
        } else {
            capacity
        };
        let mut i: usize = 0;
        while i < count
            invariant
                i <= count,
                count <= events@.len(),
                count <= self.events@.len(),
                self.events@.len() == old(self).events@.len(),
                self.num_events == old(self).num_events,
                forall|k: int|
                    0 <= k < i ==> (#[trigger] events@[k]).is_placeholder(self.events@[k]),
                forall|k: int| i <= k < self.events@.len() ==> self.events@[k] == old(
                    self,
                ).events@[k],
            decreases count - i,
        {
            let slot = &mut self.events[i];
            events[i].write_into(slot);
            i = i + 1;
        }
        self.num_events = count;
    }

    /// The buffer's slots; the first [`num_events`](Self::num_events) of
    /// them hold the stored events.
    pub fn events(&self) -> (r: &Vec<PlaceholderEvent>)
        ensures
            r@ == self.slots(),
    {
        &self.events
    }

    /// How many leading slots currently hold stored events.
    pub fn num_events(&self) -> (r: usize)
        ensures
            r == self.num_events_spec(),
    {
        self.num_events
    }

    /// Clears the buffer: no slot counts as stored any more.
    pub fn clear(&mut self)
        requires
            old(self).wf(),
        ensures
            final(self).wf(),
            final(self).slots() == old(self).slots(),
            final(self).num_events_spec() == 0,
    {
        self.set_num_events(0);
    }

    /// Set the stored count, capped at the capacity.
    fn set_num_events(&mut self, events_len: usize)
        ensures
            final(self).slots() == old(self).slots(),
            final(self).num_events_spec() == if events_len <= old(self).slots().len() {
                events_len as nat
            } else {
                old(self).slots().len()
            },
    {
        let capacity = self.events.len();
        self.num_events = if events_len < capacity {
            events_len
        } else {
            capacity
        };
    }
}

} // verus!
