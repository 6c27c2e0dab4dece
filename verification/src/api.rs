//! Structures and types mirroring the data-carrying part of the VST 2.4 API.

use vstd::prelude::*;

verus! {

/// Maximum length of a preset name, in bytes.
pub const MAX_PRESET_NAME_LEN: usize = 24;

/// Maximum length of a parameter string, in bytes.
pub const MAX_PARAM_STR_LEN: usize = 32;

/// Maximum length of a channel label, in bytes.
pub const MAX_LABEL: usize = 64;

/// Maximum length of a short channel label, in bytes.
pub const MAX_SHORT_LABEL: usize = 8;

/// Maximum length of a product string, in bytes.
pub const MAX_PRODUCT_STR_LEN: usize = 64;

/// Maximum length of a vendor string, in bytes.
pub const MAX_VENDOR_STR_LEN: usize = 64;

/// VST plugins are identified by a magic number: the bytes `VstP` packed
/// into one 32-bit word, high byte first.
pub const VST_MAGIC: i32 = 0x56737450;

/// Channel flag: channel is active. Ignored by host.
pub const CHANNEL_FLAG_ACTIVE: i32 = 1;

/// Channel flag: channel is first of a stereo pair.
pub const CHANNEL_FLAG_STEREO: i32 = 2;

/// Channel flag: use the channel's speaker arrangement instead of the
/// stereo flag.
pub const CHANNEL_FLAG_SPEAKER: i32 = 4;

/// Plugin flag: plugin has an editor.
pub const PLUGIN_FLAG_HAS_EDITOR: i32 = 1;

/// Plugin flag: plugin can process 32 bit audio (mandatory in VST 2.4).
pub const PLUGIN_FLAG_CAN_REPLACING: i32 = 16;

/// Plugin flag: plugin preset data is handled in formatless chunks.
pub const PLUGIN_FLAG_PROGRAM_CHUNKS: i32 = 32;

/// Plugin flag: plugin is a synth.
pub const PLUGIN_FLAG_IS_SYNTH: i32 = 256;

/// Plugin flag: plugin does not produce sound when all input is silence.
pub const PLUGIN_FLAG_NO_SOUND_IN_STOP: i32 = 512;

/// Plugin flag: plugin supports 64 bit audio processing.
pub const PLUGIN_FLAG_CAN_DOUBLE_REPLACING: i32 = 4096;

/// MIDI event flag: the event is played live, not from a sequencer track.
pub const MIDI_EVENT_FLAG_REALTIME: i32 = 1;

/// The data-carrying fields of the VST plugin record handed to the host.
///
/// The record the host receives also carries the entry points into the
/// plugin (dispatcher, processing and parameter thunks) and two opaque
/// object pointers; those are bound outside this library. The fields here
/// are the plain values a plugin fills in from its
/// [`Info`](crate::plugin::Info).
#[allow(non_snake_case)]
#[derive(Clone, Copy, Debug, PartialEq, Eq, Structural)]
pub struct AEffect {
    /// Magic number. Must be [`VST_MAGIC`].
    pub magic: i32,
    /// Number of programs (presets).
    pub numPrograms: i32,
    /// Number of parameters. All programs are assumed to have this many.
    pub numParams: i32,
    /// Number of audio inputs.
    pub numInputs: i32,
    /// Number of audio outputs.
    pub numOutputs: i32,
    /// Bitmask built from the `PLUGIN_FLAG_*` constants.
    pub flags: i32,
    /// Reserved for host, must be 0.
    pub reserved1: isize,
    /// Reserved for host, must be 0.
    pub reserved2: isize,
    /// Group delay or latency of the plugin, in samples.
    pub initialDelay: i32,
    /// Registered unique identifier, used during save and load.
    pub uniqueId: i32,
    /// Plug-in version (e.g. 1100 for v1.1.0.0).
    pub version: i32,
}

/// Information about a channel. Only some hosts use this information.
pub struct ChannelProperties {
    /// Channel name as a zero-padded label of [`MAX_LABEL`] bytes.
    pub name: Vec<u8>,
    /// Flags built from the `CHANNEL_FLAG_*` constants.
    pub flags: i32,
    /// Type of speaker arrangement this channel is a part of.
    pub arrangement_type: SpeakerArrangementType,
    /// Short channel name as a zero-padded label of [`MAX_SHORT_LABEL`] bytes.
    pub short_name: Vec<u8>,
    /// Reserved for future use, 48 zero bytes.
    pub future: Vec<u8>,
}

/// Tells the host how the channels are intended to be used in the plugin.
/// Only useful for some hosts.
#[derive(Clone, Copy, Debug, PartialEq, Eq, Structural)]
pub enum SpeakerArrangementType {
    /// User defined arrangement.
    Custom,
    /// Empty arrangement.
    Empty,
    /// Mono.
    Mono,
    /// L R
    Stereo,
    /// Ls Rs
    StereoSurround,
    /// Lc Rc
    StereoCenter,
    /// Sl Sr
    StereoSide,
    /// C Lfe
    StereoCLfe,
    /// L R C
    Cinema30,
    /// L R S
    Music30,
    /// L R C Lfe
    Cinema31,
    /// L R Lfe S
    Music31,
    /// L R C S (LCRS)
    Cinema40,
    /// L R Ls Rs (Quadro)
    Music40,
    /// L R C Lfe S (LCRS + Lfe)
    Cinema41,
    /// L R Lfe Ls Rs (Quadro + Lfe)
    Music41,
    /// L R C Ls Rs
    Surround50,
    /// L R C Lfe Ls Rs
    Surround51,
    /// L R C Ls Rs Cs
    Cinema60,
    /// L R Ls Rs Sl Sr
    Music60,
    /// L R C Lfe Ls Rs Cs
    Cinema61,
    /// L R Lfe Ls Rs Sl Sr
    Music61,
    /// L R C Ls Rs Lc Rc
    Cinema70,
    /// L R C Ls Rs Sl Sr
    Music70,
    /// L R C Lfe Ls Rs Lc Rc
    Cinema71,
    /// L R C Lfe Ls Rs Sl Sr
    Music71,
    /// L R C Ls Rs Lc Rc Cs
    Cinema80,
    /// L R C Ls Rs Cs Sl Sr
    Music80,
    /// L R C Lfe Ls Rs Lc Rc Cs
    Cinema81,
    /// L R C Lfe Ls Rs Cs Sl Sr
    Music81,
    /// L R C Lfe Ls Rs Tfl Tfc Tfr Trl Trr Lfe2
    Surround102,
}

impl SpeakerArrangementType {
    /// The number the VST API uses for this arrangement type.
    pub open spec fn spec_raw(self) -> i32 {
        match self {
            SpeakerArrangementType::Custom => -2i32,
            SpeakerArrangementType::Empty => -1i32,
            SpeakerArrangementType::Mono => 0,
            SpeakerArrangementType::Stereo => 1,
            SpeakerArrangementType::StereoSurround => 2,
            SpeakerArrangementType::StereoCenter => 3,
            SpeakerArrangementType::StereoSide => 4,
            SpeakerArrangementType::StereoCLfe => 5,
            SpeakerArrangementType::Cinema30 => 6,
            SpeakerArrangementType::Music30 => 7,
            SpeakerArrangementType::Cinema31 => 8,
            SpeakerArrangementType::Music31 => 9,
            SpeakerArrangementType::Cinema40 => 10,
            SpeakerArrangementType::Music40 => 11,
            SpeakerArrangementType::Cinema41 => 12,
            SpeakerArrangementType::Music41 => 13,
            SpeakerArrangementType::Surround50 => 14,
            SpeakerArrangementType::Surround51 => 15,
            SpeakerArrangementType::Cinema60 => 16,
            SpeakerArrangementType::Music60 => 17,
            SpeakerArrangementType::Cinema61 => 18,
            SpeakerArrangementType::Music61 => 19,
            SpeakerArrangementType::Cinema70 => 20,
            SpeakerArrangementType::Music70 => 21,
            SpeakerArrangementType::Cinema71 => 22,
            SpeakerArrangementType::Music71 => 23,
            SpeakerArrangementType::Cinema80 => 24,
            SpeakerArrangementType::Music80 => 25,
            SpeakerArrangementType::Cinema81 => 26,
            SpeakerArrangementType::Music81 => 27,
            SpeakerArrangementType::Surround102 => 28,
        }
    }

    /// Convert to the number the VST API uses for this arrangement type.
    pub fn into_raw(self) -> (r: i32)
        ensures
            r == self.spec_raw(),
    {
        match self {
            SpeakerArrangementType::Custom => -2,
            SpeakerArrangementType::Empty => -1,
            SpeakerArrangementType::Mono => 0,
            SpeakerArrangementType::Stereo => 1,
            SpeakerArrangementType::StereoSurround => 2,
            SpeakerArrangementType::StereoCenter => 3,
            SpeakerArrangementType::StereoSide => 4,
            SpeakerArrangementType::StereoCLfe => 5,
            SpeakerArrangementType::Cinema30 => 6,
            SpeakerArrangementType::Music30 => 7,
            SpeakerArrangementType::Cinema31 => 8,
            SpeakerArrangementType::Music31 => 9,
            SpeakerArrangementType::Cinema40 => 10,
            SpeakerArrangementType::Music40 => 11,
            SpeakerArrangementType::Cinema41 => 12,
            SpeakerArrangementType::Music41 => 13,
            SpeakerArrangementType::Surround50 => 14,
            SpeakerArrangementType::Surround51 => 15,
            SpeakerArrangementType::Cinema60 => 16,
            SpeakerArrangementType::Music60 => 17,
            SpeakerArrangementType::Cinema61 => 18,
            SpeakerArrangementType::Music61 => 19,
            SpeakerArrangementType::Cinema70 => 20,
            SpeakerArrangementType::Music70 => 21,
            SpeakerArrangementType::Cinema71 => 22,
            SpeakerArrangementType::Music71 => 23,
            SpeakerArrangementType::Cinema80 => 24,
            SpeakerArrangementType::Music80 => 25,
            SpeakerArrangementType::Cinema81 => 26,
            SpeakerArrangementType::Music81 => 27,
            SpeakerArrangementType::Surround102 => 28,
        }
    }
}

/// Denotes in which thread the host is.
#[derive(Clone, Copy, Debug, PartialEq, Eq, Structural)]
pub enum ProcessLevel {
    /// Unsupported by host.
    Unknown,
    /// GUI thread.
    User,
    /// Audio process thread.
    Realtime,
    /// Sequence thread (MIDI, etc).
    Prefetch,
    /// Offline processing thread (therefore GUI/user thread).
    Offline,
}

/// Language that the host is using.
#[derive(Clone, Copy, Debug, PartialEq, Eq, Structural)]
pub enum HostLanguage {
    English,
    German,
    French,
    Italian,
    Spanish,
    Japanese,
}

/// The file operation to perform.
#[derive(Clone, Copy, Debug, PartialEq, Eq, Structural)]
pub enum FileSelectCommand {
    /// Load a file.
    Load,
    /// Save a file.
    Save,
    /// Load multiple files simultaneously.
    LoadMultipleFiles,
    /// Choose a directory.
    SelectDirectory,
}

/// Format to select files.
#[derive(Clone, Copy, Debug, PartialEq, Eq, Structural)]
pub enum FileSelectType {
    /// Regular file selector.
    Regular,
}

/// File type descriptor.
pub struct FileType {
    /// Display name of file type, as a zero-padded label of 128 bytes.
    pub name: Vec<u8>,
    /// OS X file type, 8 bytes.
    pub osx_type: Vec<u8>,
    /// Windows file type, 8 bytes.
    pub win_type: Vec<u8>,
    /// Unix file type, 8 bytes.
    pub nix_type: Vec<u8>,
    /// MIME type, 128 bytes.
    pub mime_type_1: Vec<u8>,
    /// Additional MIME type, 128 bytes.
    pub mime_type_2: Vec<u8>,
}

/// The type of event that has occurred. See [`Event::event_type`].
#[derive(Clone, Copy, Debug, PartialEq, Eq, Structural)]
pub enum EventType {
    /// Value used for uninitialized placeholder events.
    _Placeholder,
    /// Midi event. See [`MidiEvent`].
    Midi,
    /// Deprecated.
    _Audio,
    /// Deprecated.
    _Video,
    /// Deprecated.
    _Parameter,
    /// Deprecated.
    _Trigger,
    /// System exclusive event. See [`SysExEvent`].
    SysEx,
}

/// The fields every VST event carries, before it is read as the concrete
/// event its `event_type` names.
#[derive(Clone, Copy, Debug, PartialEq, Eq, Structural)]
pub struct Event {
    /// The type of event: which concrete event this record stands for.
    pub event_type: EventType,
    /// Size of the concrete event record, in bytes.
    pub byte_size: i32,
    /// Number of samples into the current processing block that this
    /// event occurs on.
    pub delta_frames: i32,
    /// Generic flags, none defined in the VST API yet.
    pub _flags: i32,
}

/// A midi event.
#[derive(Clone, Copy, Debug)]
pub struct MidiEvent {
    /// Should be [`EventType::Midi`].
    pub event_type: EventType,
    /// Size of this record, in bytes.
    pub byte_size: i32,
    /// Number of samples into the current processing block that this
    /// event occurs on.
    pub delta_frames: i32,
    /// See [`MIDI_EVENT_FLAG_REALTIME`].
    pub flags: i32,
    /// Length in sample frames of entire note if available, otherwise 0.
    pub note_length: i32,
    /// Offset in samples into note from start if available, otherwise 0.
    pub note_offset: i32,
    /// 1 to 3 midi bytes.
    pub midi_data: [u8; 3],
    /// Reserved midi byte (0).
    pub _midi_reserved: u8,
    /// Detuning between -63 and +64 cents, for scales other than
    /// 'well-tempered' (e.g. 'microtuning').
    pub detune: i8,
    /// Note off velocity between 0 and 127.
    pub note_off_velocity: u8,
    /// Reserved for future use. Should be 0.
    pub _reserved1: u8,
    /// Reserved for future use. Should be 0.
    pub _reserved2: u8,
}

/// A midi system exclusive event.
///
/// This event only contains raw byte data, and it is up to the plugin to
/// interpret it correctly. `plugin::CanDo` has a `ReceiveSysExEvent`
/// variant which lets the host query the plugin as to whether this event
/// is supported.
#[derive(Clone, Debug)]
pub struct SysExEvent {
    /// Should be [`EventType::SysEx`].
    pub event_type: EventType,
    /// Size of this record, in bytes.
    pub byte_size: i32,
    /// Number of samples into the current processing block that this
    /// event occurs on.
    pub delta_frames: i32,
    /// Generic flags, none defined in the VST API yet.
    pub _flags: i32,
    /// The payload. Over the C ABI it travels as a pointer and a byte
    /// count; here it is carried as the bytes themselves.
    pub system_data: Vec<u8>,
}

/// SMPTE frame rates.
#[derive(Clone, Copy, Debug, PartialEq, Eq, Structural)]
pub enum SmpteFrameRate {
    /// 24 fps
    Smpte24fps,
    /// 25 fps
    Smpte25fps,
    /// 29.97 fps
    Smpte2997fps,
    /// 30 fps
    Smpte30fps,
    /// 29.97 drop
    Smpte2997dfps,
    /// 30 drop
    Smpte30dfps,
    /// Film 16mm
    SmpteFilm16mm,
    /// Film 35mm
    SmpteFilm35mm,
    /// HDTV: 23.976 fps
    Smpte239fps,
    /// HDTV: 24.976 fps
    Smpte249fps,
    /// HDTV: 59.94 fps
    Smpte599fps,
    /// HDTV: 60 fps
    Smpte60fps,
}

impl SmpteFrameRate {
    /// The number the VST API uses for this frame rate.
    pub open spec fn spec_raw(self) -> i32 {
        match self {
            SmpteFrameRate::Smpte24fps => 0,
            SmpteFrameRate::Smpte25fps => 1,
            SmpteFrameRate::Smpte2997fps => 2,
            SmpteFrameRate::Smpte30fps => 3,
            SmpteFrameRate::Smpte2997dfps => 4,
            SmpteFrameRate::Smpte30dfps => 5,
            SmpteFrameRate::SmpteFilm16mm => 6,
            SmpteFrameRate::SmpteFilm35mm => 7,
            SmpteFrameRate::Smpte239fps => 10,
            SmpteFrameRate::Smpte249fps => 11,
            SmpteFrameRate::Smpte599fps => 12,
            SmpteFrameRate::Smpte60fps => 13,
        }
    }

    /// Convert to the number the VST API uses for this frame rate.
    pub fn into_raw(self) -> (r: i32)
        ensures
            r == self.spec_raw(),
    {
        match self {
            SmpteFrameRate::Smpte24fps => 0,
            SmpteFrameRate::Smpte25fps => 1,
            SmpteFrameRate::Smpte2997fps => 2,
            SmpteFrameRate::Smpte30fps => 3,
            SmpteFrameRate::Smpte2997dfps => 4,
            SmpteFrameRate::Smpte30dfps => 5,
            SmpteFrameRate::SmpteFilm16mm => 6,
            SmpteFrameRate::SmpteFilm35mm => 7,
            SmpteFrameRate::Smpte239fps => 10,
            SmpteFrameRate::Smpte249fps => 11,
            SmpteFrameRate::Smpte599fps => 12,
            SmpteFrameRate::Smpte60fps => 13,
        }
    }
}

impl Default for SmpteFrameRate {
    /// The default frame rate is 24 fps.
    fn default() -> (r: SmpteFrameRate)
        ensures
            r == SmpteFrameRate::Smpte24fps,
    {
        SmpteFrameRate::Smpte24fps
    }
}

/// Used to specify whether functionality is supported.
#[derive(Clone, Copy, Debug, PartialEq, Eq, Structural)]
pub enum Supported {
    Yes,
    Maybe,
    No,
    Custom(isize),
}

impl Supported {
    /// Create a `Supported` value from an integer if possible.
    pub fn from(val: isize) -> (r: Option<Supported>)
        ensures
            r == if val == 1 {
                Some(Supported::Yes)
            } else if val == 0 {
                Some(Supported::Maybe)
            } else if val == -1 {
                Some(Supported::No)
            } else {
                None::<Supported>
            },
    {
        match val {
            1 => Some(Supported::Yes),
            0 => Some(Supported::Maybe),
            -1 => Some(Supported::No),
            _ => None,
        }
    }

    /// Convert to the integer ordinal used across the VST API.
    pub fn into_raw(self) -> (r: isize)
        ensures
            r == match self {
                Supported::Yes => 1,
                Supported::Maybe => 0,
                Supported::No => -1,
                Supported::Custom(i) => i as int,
            },
    {
        match self {
            Supported::Yes => 1,
            Supported::Maybe => 0,
            Supported::No => -1,
            Supported::Custom(i) => i,
        }
    }
}

} // verus!
