//! Plugin specific structures.

use crate::api::{PLUGIN_FLAG_CAN_DOUBLE_REPLACING, PLUGIN_FLAG_CAN_REPLACING, PLUGIN_FLAG_HAS_EDITOR, PLUGIN_FLAG_IS_SYNTH, PLUGIN_FLAG_NO_SOUND_IN_STOP, PLUGIN_FLAG_PROGRAM_CHUNKS};
use vstd::prelude::*;

verus! {

/// Whether the view of `a` equals the view of `b`.
pub fn str_eq(a: &str, b: &str) -> (r: bool)
    ensures
        r == (a@ == b@),
{
    let owned_a = a.to_owned();
    let owned_b = b.to_owned();
    owned_a == owned_b
}

/// Host-to-plugin dispatcher opcodes. The number of an opcode is its
/// position in this list, as `into_raw` states.
#[allow(missing_docs)]
#[derive(Clone, Copy, Debug, PartialEq, Eq, Structural)]
pub enum OpCode {
    Initialize,
    Shutdown,
    ChangePreset,
    GetCurrentPresetNum,
    SetCurrentPresetName,
    GetCurrentPresetName,
    GetParameterLabel,
    GetParameterDisplay,
    GetParameterName,
    _GetVu,
    SetSampleRate,
    SetBlockSize,
    StateChanged,
    EditorGetRect,
    EditorOpen,
    EditorClose,
    _EditorDraw,
    _EditorMouse,
    _EditorKey,
    EditorIdle,
    _EditorTop,
    _EditorSleep,
    _EditorIdentify,
    GetData,
    SetData,
    ProcessEvents,
    CanBeAutomated,
    StringToParameter,
    _GetNumCategories,
    GetPresetName,
    _CopyPreset,
    _ConnectIn,
    _ConnectOut,
    GetInputInfo,
    GetOutputInfo,
    GetCategory,
    _GetCurrentPosition,
    _GetDestinationBuffer,
    OfflineNotify,
    OfflinePrepare,
    OfflineRun,
    ProcessVarIo,
    SetSpeakerArrangement,
    _SetBlocksizeAndSampleRate,
    SoftBypass,
    GetEffectName,
    _GetErrorText,
    GetVendorName,
    GetProductName,
    GetVendorVersion,
    VendorSpecific,
    CanDo,
    GetTailSize,
    _Idle,
    _GetIcon,
    _SetVewPosition,
    GetParamInfo,
    _KeysRequired,
    GetApiVersion,
    EditorKeyDown,
    EditorKeyUp,
    EditorSetKnobMode,
    GetMidiProgramName,
    GetCurrentMidiProgram,
    GetMidiProgramCategory,
    HasMidiProgramsChanged,
    GetMidiKeyName,
    BeginSetPreset,
    EndSetPreset,
    GetSpeakerArrangement,
    ShellGetNextPlugin,
    StartProcess,
    StopProcess,
    SetTotalSampleToProcess,
    SetPanLaw,
    BeginLoadBank,
    BeginLoadPreset,
    SetPrecision,
    GetNumMidiInputs,
    GetNumMidiOutputs,
}

impl OpCode {
    /// The number the VST API uses for this opcode.
    pub open spec fn spec_raw(self) -> i32 {
        match self {
            OpCode::Initialize => 0,
            OpCode::Shutdown => 1,
            OpCode::ChangePreset => 2,
            OpCode::GetCurrentPresetNum => 3,
            OpCode::SetCurrentPresetName => 4,
            OpCode::GetCurrentPresetName => 5,
            OpCode::GetParameterLabel => 6,
            OpCode::GetParameterDisplay => 7,
            OpCode::GetParameterName => 8,
            OpCode::_GetVu => 9,
            OpCode::SetSampleRate => 10,
            OpCode::SetBlockSize => 11,
            OpCode::StateChanged => 12,
            OpCode::EditorGetRect => 13,
            OpCode::EditorOpen => 14,
            OpCode::EditorClose => 15,
            OpCode::_EditorDraw => 16,
            OpCode::_EditorMouse => 17,
            OpCode::_EditorKey => 18,
            OpCode::EditorIdle => 19,
            OpCode::_EditorTop => 20,
            OpCode::_EditorSleep => 21,
            OpCode::_EditorIdentify => 22,
            OpCode::GetData => 23,
            OpCode::SetData => 24,
            OpCode::ProcessEvents => 25,
            OpCode::CanBeAutomated => 26,
            OpCode::StringToParameter => 27,
            OpCode::_GetNumCategories => 28,
            OpCode::GetPresetName => 29,
            OpCode::_CopyPreset => 30,
            OpCode::_ConnectIn => 31,
            OpCode::_ConnectOut => 32,
            OpCode::GetInputInfo => 33,
            OpCode::GetOutputInfo => 34,
            OpCode::GetCategory => 35,
            OpCode::_GetCurrentPosition => 36,
            OpCode::_GetDestinationBuffer => 37,
            OpCode::OfflineNotify => 38,
            OpCode::OfflinePrepare => 39,
            OpCode::OfflineRun => 40,
            OpCode::ProcessVarIo => 41,
            OpCode::SetSpeakerArrangement => 42,
            OpCode::_SetBlocksizeAndSampleRate => 43,
            OpCode::SoftBypass => 44,
            OpCode::GetEffectName => 45,
            OpCode::_GetErrorText => 46,
            OpCode::GetVendorName => 47,
            OpCode::GetProductName => 48,
            OpCode::GetVendorVersion => 49,
            OpCode::VendorSpecific => 50,
            OpCode::CanDo => 51,
            OpCode::GetTailSize => 52,
            OpCode::_Idle => 53,
            OpCode::_GetIcon => 54,
            OpCode::_SetVewPosition => 55,
            OpCode::GetParamInfo => 56,
            OpCode::_KeysRequired => 57,
            OpCode::GetApiVersion => 58,
            OpCode::EditorKeyDown => 59,
            OpCode::EditorKeyUp => 60,
            OpCode::EditorSetKnobMode => 61,
            OpCode::GetMidiProgramName => 62,
            OpCode::GetCurrentMidiProgram => 63,
            OpCode::GetMidiProgramCategory => 64,
            OpCode::HasMidiProgramsChanged => 65,
            OpCode::GetMidiKeyName => 66,
            OpCode::BeginSetPreset => 67,
            OpCode::EndSetPreset => 68,
            OpCode::GetSpeakerArrangement => 69,
            OpCode::ShellGetNextPlugin => 70,
            OpCode::StartProcess => 71,
            OpCode::StopProcess => 72,
            OpCode::SetTotalSampleToProcess => 73,
            OpCode::SetPanLaw => 74,
            OpCode::BeginLoadBank => 75,
            OpCode::BeginLoadPreset => 76,
            OpCode::SetPrecision => 77,
            OpCode::GetNumMidiInputs => 78,
            OpCode::GetNumMidiOutputs => 79,
        }
    }

    /// Convert to the number the VST API uses for this opcode.
    pub fn into_raw(self) -> (r: i32)
        ensures
            r == self.spec_raw(),
    {
        match self {
            OpCode::Initialize => 0,
            OpCode::Shutdown => 1,
            OpCode::ChangePreset => 2,
            OpCode::GetCurrentPresetNum => 3,
            OpCode::SetCurrentPresetName => 4,
            OpCode::GetCurrentPresetName => 5,
            OpCode::GetParameterLabel => 6,
            OpCode::GetParameterDisplay => 7,
            OpCode::GetParameterName => 8,
            OpCode::_GetVu => 9,
            OpCode::SetSampleRate => 10,
            OpCode::SetBlockSize => 11,
            OpCode::StateChanged => 12,
            OpCode::EditorGetRect => 13,
            OpCode::EditorOpen => 14,
            OpCode::EditorClose => 15,
            OpCode::_EditorDraw => 16,
            OpCode::_EditorMouse => 17,
            OpCode::_EditorKey => 18,
            OpCode::EditorIdle => 19,
            OpCode::_EditorTop => 20,
            OpCode::_EditorSleep => 21,
            OpCode::_EditorIdentify => 22,
            OpCode::GetData => 23,
            OpCode::SetData => 24,
            OpCode::ProcessEvents => 25,
            OpCode::CanBeAutomated => 26,
            OpCode::StringToParameter => 27,
            OpCode::_GetNumCategories => 28,
            OpCode::GetPresetName => 29,
            OpCode::_CopyPreset => 30,
            OpCode::_ConnectIn => 31,
            OpCode::_ConnectOut => 32,
            OpCode::GetInputInfo => 33,
            OpCode::GetOutputInfo => 34,
            OpCode::GetCategory => 35,
            OpCode::_GetCurrentPosition => 36,
            OpCode::_GetDestinationBuffer => 37,
            OpCode::OfflineNotify => 38,
            OpCode::OfflinePrepare => 39,
            OpCode::OfflineRun => 40,
            OpCode::ProcessVarIo => 41,
            OpCode::SetSpeakerArrangement => 42,
            OpCode::_SetBlocksizeAndSampleRate => 43,
            OpCode::SoftBypass => 44,
            OpCode::GetEffectName => 45,
            OpCode::_GetErrorText => 46,
            OpCode::GetVendorName => 47,
            OpCode::GetProductName => 48,
            OpCode::GetVendorVersion => 49,
            OpCode::VendorSpecific => 50,
            OpCode::CanDo => 51,
            OpCode::GetTailSize => 52,
            OpCode::_Idle => 53,
            OpCode::_GetIcon => 54,
            OpCode::_SetVewPosition => 55,
            OpCode::GetParamInfo => 56,
            OpCode::_KeysRequired => 57,
            OpCode::GetApiVersion => 58,
            OpCode::EditorKeyDown => 59,
            OpCode::EditorKeyUp => 60,
            OpCode::EditorSetKnobMode => 61,
            OpCode::GetMidiProgramName => 62,
            OpCode::GetCurrentMidiProgram => 63,
            OpCode::GetMidiProgramCategory => 64,
            OpCode::HasMidiProgramsChanged => 65,
            OpCode::GetMidiKeyName => 66,
            OpCode::BeginSetPreset => 67,
            OpCode::EndSetPreset => 68,
            OpCode::GetSpeakerArrangement => 69,
            OpCode::ShellGetNextPlugin => 70,
            OpCode::StartProcess => 71,
            OpCode::StopProcess => 72,
            OpCode::SetTotalSampleToProcess => 73,
            OpCode::SetPanLaw => 74,
            OpCode::BeginLoadBank => 75,
            OpCode::BeginLoadPreset => 76,
            OpCode::SetPrecision => 77,
            OpCode::GetNumMidiInputs => 78,
            OpCode::GetNumMidiOutputs => 79,
        }
    }

    /// Recover the opcode a number names, if it names one.
    pub fn from_raw(v: i32) -> (r: Option<OpCode>)
        ensures
            r == OpCode::spec_from_raw(v),
    {
        match v {
            0 => Some(OpCode::Initialize),
            1 => Some(OpCode::Shutdown),
            2 => Some(OpCode::ChangePreset),
            3 => Some(OpCode::GetCurrentPresetNum),
            4 => Some(OpCode::SetCurrentPresetName),
            5 => Some(OpCode::GetCurrentPresetName),
            6 => Some(OpCode::GetParameterLabel),
            7 => Some(OpCode::GetParameterDisplay),
            8 => Some(OpCode::GetParameterName),
            9 => Some(OpCode::_GetVu),
            10 => Some(OpCode::SetSampleRate),
            11 => Some(OpCode::SetBlockSize),
            12 => Some(OpCode::StateChanged),
            13 => Some(OpCode::EditorGetRect),
            14 => Some(OpCode::EditorOpen),
            15 => Some(OpCode::EditorClose),
            16 => Some(OpCode::_EditorDraw),
            17 => Some(OpCode::_EditorMouse),
            18 => Some(OpCode::_EditorKey),
            19 => Some(OpCode::EditorIdle),
            20 => Some(OpCode::_EditorTop),
            21 => Some(OpCode::_EditorSleep),
            22 => Some(OpCode::_EditorIdentify),
            23 => Some(OpCode::GetData),
            24 => Some(OpCode::SetData),
            25 => Some(OpCode::ProcessEvents),
            26 => Some(OpCode::CanBeAutomated),
            27 => Some(OpCode::StringToParameter),
            28 => Some(OpCode::_GetNumCategories),
            29 => Some(OpCode::GetPresetName),
            30 => Some(OpCode::_CopyPreset),
            31 => Some(OpCode::_ConnectIn),
            32 => Some(OpCode::_ConnectOut),
            33 => Some(OpCode::GetInputInfo),
            34 => Some(OpCode::GetOutputInfo),
            35 => Some(OpCode::GetCategory),
            36 => Some(OpCode::_GetCurrentPosition),
            37 => Some(OpCode::_GetDestinationBuffer),
            38 => Some(OpCode::OfflineNotify),
            39 => Some(OpCode::OfflinePrepare),
            40 => Some(OpCode::OfflineRun),
            41 => Some(OpCode::ProcessVarIo),
            42 => Some(OpCode::SetSpeakerArrangement),
            43 => Some(OpCode::_SetBlocksizeAndSampleRate),
            44 => Some(OpCode::SoftBypass),
            45 => Some(OpCode::GetEffectName),
            46 => Some(OpCode::_GetErrorText),
            47 => Some(OpCode::GetVendorName),
            48 => Some(OpCode::GetProductName),
            49 => Some(OpCode::GetVendorVersion),
            50 => Some(OpCode::VendorSpecific),
            51 => Some(OpCode::CanDo),
            52 => Some(OpCode::GetTailSize),
            53 => Some(OpCode::_Idle),
            54 => Some(OpCode::_GetIcon),
            55 => Some(OpCode::_SetVewPosition),
            56 => Some(OpCode::GetParamInfo),
            57 => Some(OpCode::_KeysRequired),
            58 => Some(OpCode::GetApiVersion),
            59 => Some(OpCode::EditorKeyDown),
            60 => Some(OpCode::EditorKeyUp),
            61 => Some(OpCode::EditorSetKnobMode),
            62 => Some(OpCode::GetMidiProgramName),
            63 => Some(OpCode::GetCurrentMidiProgram),
            64 => Some(OpCode::GetMidiProgramCategory),
            65 => Some(OpCode::HasMidiProgramsChanged),
            66 => Some(OpCode::GetMidiKeyName),
            67 => Some(OpCode::BeginSetPreset),
            68 => Some(OpCode::EndSetPreset),
            69 => Some(OpCode::GetSpeakerArrangement),
            70 => Some(OpCode::ShellGetNextPlugin),
            71 => Some(OpCode::StartProcess),
            72 => Some(OpCode::StopProcess),
            73 => Some(OpCode::SetTotalSampleToProcess),
            74 => Some(OpCode::SetPanLaw),
            75 => Some(OpCode::BeginLoadBank),
            76 => Some(OpCode::BeginLoadPreset),
            77 => Some(OpCode::SetPrecision),
            78 => Some(OpCode::GetNumMidiInputs),
            79 => Some(OpCode::GetNumMidiOutputs),
            _ => None,
        }
    }

    /// The opcode a number names, if it names one.
    pub open spec fn spec_from_raw(v: i32) -> Option<OpCode> {
        if v == 0 {
            Some(OpCode::Initialize)
        } else if v == 1 {
            Some(OpCode::Shutdown)
        } else if v == 2 {
            Some(OpCode::ChangePreset)
        } else if v == 3 {
            Some(OpCode::GetCurrentPresetNum)
        } else if v == 4 {
            Some(OpCode::SetCurrentPresetName)
        } else if v == 5 {
            Some(OpCode::GetCurrentPresetName)
        } else if v == 6 {
            Some(OpCode::GetParameterLabel)
        } else if v == 7 {
            Some(OpCode::GetParameterDisplay)
        } else if v == 8 {
            Some(OpCode::GetParameterName)
        } else if v == 9 {
            Some(OpCode::_GetVu)
        } else if v == 10 {
            Some(OpCode::SetSampleRate)
        } else if v == 11 {
            Some(OpCode::SetBlockSize)
        } else if v == 12 {
            Some(OpCode::StateChanged)
        } else if v == 13 {
            Some(OpCode::EditorGetRect)
        } else if v == 14 {
            Some(OpCode::EditorOpen)
        } else if v == 15 {
            Some(OpCode::EditorClose)
        } else if v == 16 {
            Some(OpCode::_EditorDraw)
        } else if v == 17 {
            Some(OpCode::_EditorMouse)
        } else if v == 18 {
            Some(OpCode::_EditorKey)
        } else if v == 19 {
            Some(OpCode::EditorIdle)
        } else if v == 20 {
            Some(OpCode::_EditorTop)
        } else if v == 21 {
            Some(OpCode::_EditorSleep)
        } else if v == 22 {
            Some(OpCode::_EditorIdentify)
        } else if v == 23 {
            Some(OpCode::GetData)
        } else if v == 24 {
            Some(OpCode::SetData)
        } else if v == 25 {
            Some(OpCode::ProcessEvents)
        } else if v == 26 {
            Some(OpCode::CanBeAutomated)
        } else if v == 27 {
            Some(OpCode::StringToParameter)
        } else if v == 28 {
            Some(OpCode::_GetNumCategories)
        } else if v == 29 {
            Some(OpCode::GetPresetName)
        } else if v == 30 {
            Some(OpCode::_CopyPreset)
        } else if v == 31 {
            Some(OpCode::_ConnectIn)
        } else if v == 32 {
            Some(OpCode::_ConnectOut)
        } else if v == 33 {
            Some(OpCode::GetInputInfo)
        } else if v == 34 {
            Some(OpCode::GetOutputInfo)
        } else if v == 35 {
            Some(OpCode::GetCategory)
        } else if v == 36 {
            Some(OpCode::_GetCurrentPosition)
        } else if v == 37 {
            Some(OpCode::_GetDestinationBuffer)
        } else if v == 38 {
            Some(OpCode::OfflineNotify)
        } else if v == 39 {
            Some(OpCode::OfflinePrepare)
        } else if v == 40 {
            Some(OpCode::OfflineRun)
        } else if v == 41 {
            Some(OpCode::ProcessVarIo)
        } else if v == 42 {
            Some(OpCode::SetSpeakerArrangement)
        } else if v == 43 {
            Some(OpCode::_SetBlocksizeAndSampleRate)
        } else if v == 44 {
            Some(OpCode::SoftBypass)
        } else if v == 45 {
            Some(OpCode::GetEffectName)
        } else if v == 46 {
            Some(OpCode::_GetErrorText)
        } else if v == 47 {
            Some(OpCode::GetVendorName)
        } else if v == 48 {
            Some(OpCode::GetProductName)
        } else if v == 49 {
            Some(OpCode::GetVendorVersion)
        } else if v == 50 {
            Some(OpCode::VendorSpecific)
        } else if v == 51 {
            Some(OpCode::CanDo)
        } else if v == 52 {
            Some(OpCode::GetTailSize)
        } else if v == 53 {
            Some(OpCode::_Idle)
        } else if v == 54 {
            Some(OpCode::_GetIcon)
        } else if v == 55 {
            Some(OpCode::_SetVewPosition)
        } else if v == 56 {
            Some(OpCode::GetParamInfo)
        } else if v == 57 {
            Some(OpCode::_KeysRequired)
        } else if v == 58 {
            Some(OpCode::GetApiVersion)
        } else if v == 59 {
            Some(OpCode::EditorKeyDown)
        } else if v == 60 {
            Some(OpCode::EditorKeyUp)
        } else if v == 61 {
            Some(OpCode::EditorSetKnobMode)
        } else if v == 62 {
            Some(OpCode::GetMidiProgramName)
        } else if v == 63 {
            Some(OpCode::GetCurrentMidiProgram)
        } else if v == 64 {
            Some(OpCode::GetMidiProgramCategory)
        } else if v == 65 {
            Some(OpCode::HasMidiProgramsChanged)
        } else if v == 66 {
            Some(OpCode::GetMidiKeyName)
        } else if v == 67 {
            Some(OpCode::BeginSetPreset)
        } else if v == 68 {
            Some(OpCode::EndSetPreset)
        } else if v == 69 {
            Some(OpCode::GetSpeakerArrangement)
        } else if v == 70 {
            Some(OpCode::ShellGetNextPlugin)
        } else if v == 71 {
            Some(OpCode::StartProcess)
        } else if v == 72 {
            Some(OpCode::StopProcess)
        } else if v == 73 {
            Some(OpCode::SetTotalSampleToProcess)
        } else if v == 74 {
            Some(OpCode::SetPanLaw)
        } else if v == 75 {
            Some(OpCode::BeginLoadBank)
        } else if v == 76 {
            Some(OpCode::BeginLoadPreset)
        } else if v == 77 {
            Some(OpCode::SetPrecision)
        } else if v == 78 {
            Some(OpCode::GetNumMidiInputs)
        } else if v == 79 {
            Some(OpCode::GetNumMidiOutputs)
        } else {
            None
        }
    }
}

/// Plugin type. Generally either Effect or Synth.
///
/// Other types are not necessary to build a plugin and are only useful for
/// the host to categorize the plugin.
#[derive(Clone, Copy, Debug, PartialEq, Eq, Structural)]
pub enum Category {
    /// Unknown / not implemented
    Unknown,
    /// Any effect
    Effect,
    /// VST instrument
    Synth,
    /// Scope, tuner, spectrum analyser, etc.
    Analysis,
    /// Dynamics, etc.
    Mastering,
    /// Panners, etc.
    Spacializer,
    /// Delays and Reverbs
    RoomFx,
    /// Dedicated surround processor.
    SurroundFx,
    /// Denoiser, etc.
    Restoration,
    /// Offline processing.
    OfflineProcess,
    /// Contains other plugins.
    Shell,
    /// Tone generator, etc.
    Generator,
}

impl Category {
    /// The number the VST API uses for this category.
    pub open spec fn spec_raw(self) -> isize {
        match self {
            Category::Unknown => 0,
            Category::Effect => 1,
            Category::Synth => 2,
            Category::Analysis => 3,
            Category::Mastering => 4,
            Category::Spacializer => 5,
            Category::RoomFx => 6,
            Category::SurroundFx => 7,
            Category::Restoration => 8,
            Category::OfflineProcess => 9,
            Category::Shell => 10,
            Category::Generator => 11,
        }
    }

    /// Convert to the number the VST API uses for this category.
    pub fn into_raw(self) -> (r: isize)
        ensures
            r == self.spec_raw(),
    {
        match self {
            Category::Unknown => 0,
            Category::Effect => 1,
            Category::Synth => 2,
            Category::Analysis => 3,
            Category::Mastering => 4,
            Category::Spacializer => 5,
            Category::RoomFx => 6,
            Category::SurroundFx => 7,
            Category::Restoration => 8,
            Category::OfflineProcess => 9,
            Category::Shell => 10,
            Category::Generator => 11,
        }
    }

    /// Recover the category a number names, if it names one.
    pub fn from_raw(v: isize) -> (r: Option<Category>)
        ensures
            r == Category::spec_from_raw(v),
    {
        match v {
            0 => Some(Category::Unknown),
            1 => Some(Category::Effect),
            2 => Some(Category::Synth),
            3 => Some(Category::Analysis),
            4 => Some(Category::Mastering),
            5 => Some(Category::Spacializer),
            6 => Some(Category::RoomFx),
            7 => Some(Category::SurroundFx),
            8 => Some(Category::Restoration),
            9 => Some(Category::OfflineProcess),
            10 => Some(Category::Shell),
            11 => Some(Category::Generator),
            _ => None,
        }
    }

    /// The category a number names, if it names one.
    pub open spec fn spec_from_raw(v: isize) -> Option<Category> {
        if v == 0 {
            Some(Category::Unknown)
        } else if v == 1 {
            Some(Category::Effect)
        } else if v == 2 {
            Some(Category::Synth)
        } else if v == 3 {
            Some(Category::Analysis)
        } else if v == 4 {
            Some(Category::Mastering)
        } else if v == 5 {
            Some(Category::Spacializer)
        } else if v == 6 {
            Some(Category::RoomFx)
        } else if v == 7 {
            Some(Category::SurroundFx)
        } else if v == 8 {
            Some(Category::Restoration)
        } else if v == 9 {
            Some(Category::OfflineProcess)
        } else if v == 10 {
            Some(Category::Shell)
        } else if v == 11 {
            Some(Category::Generator)
        } else {
            None
        }
    }
}

/// A structure representing static plugin information.
#[derive(Clone, Debug)]
pub struct Info {
    /// Plugin Name.
    pub name: String,
    /// Plugin Vendor.
    pub vendor: String,
    /// Number of different presets.
    pub presets: i32,
    /// Number of parameters.
    pub parameters: i32,
    /// Number of inputs.
    pub inputs: i32,
    /// Number of outputs.
    pub outputs: i32,
    /// Number of MIDI input channels (1-16), or 0 for the default of 16.
    pub midi_inputs: i32,
    /// Number of MIDI output channels (1-16), or 0 for the default of 16.
    pub midi_outputs: i32,
    /// Unique plugin ID, used to identify a plugin during save and load of
    /// a preset and project.
    pub unique_id: i32,
    /// Plugin version (e.g. 0001 = `v0.0.0.1`, 1283 = `v1.2.8.3`).
    pub version: i32,
    /// Plugin category.
    pub category: Category,
    /// Latency of the plugin in samples: how many samples it takes for the
    /// plugin to create an output (group delay).
    pub initial_delay: i32,
    /// Indicates that preset data is handled in formatless chunks.
    pub preset_chunks: bool,
    /// Indicates whether this plugin can process 64-bit sample buffers.
    pub f64_precision: bool,
    /// If true, the plugin will not produce sound when the input is silence.
    pub silent_when_stopped: bool,
}

impl Default for Info {
    /// The default plugin information: a stereo effect named "VST" with one
    /// preset, no parameters and no latency.
    fn default() -> (r: Info)
        ensures
            r.name@ == "VST"@,
            r.vendor@ =~= Seq::<char>::empty(),
            r.presets == 1,
            r.parameters == 0,
            r.inputs == 2,
            r.outputs == 2,
            r.midi_inputs == 0,
            r.midi_outputs == 0,
            r.unique_id == 0,
            r.version == 1,
            r.category == Category::Effect,
            r.initial_delay == 0,
            !r.preset_chunks,
            !r.f64_precision,
            !r.silent_when_stopped,
    {
        Info {
            name: "VST".to_owned(),
            vendor: String::new(),
            presets: 1,
            parameters: 0,
            inputs: 2,
            outputs: 2,
            midi_inputs: 0,
            midi_outputs: 0,
            unique_id: 0,
            version: 1,
            category: Category::Effect,
            initial_delay: 0,
            preset_chunks: false,
            f64_precision: false,
            silent_when_stopped: false,
        }
    }
}

/// The plugin flags an effect reports to the host, given its information
/// and whether it has an editor: replacing processing is always claimed,
/// the rest follows the information.
pub open spec fn spec_plugin_flags(info: Info, has_editor: bool) -> i32 {
    PLUGIN_FLAG_CAN_REPLACING | (if info.f64_precision {
        PLUGIN_FLAG_CAN_DOUBLE_REPLACING
    } else {
        0i32
    }) | (if has_editor {
        PLUGIN_FLAG_HAS_EDITOR
    } else {
        0i32
    }) | (if info.preset_chunks {
        PLUGIN_FLAG_PROGRAM_CHUNKS
    } else {
        0i32
    }) | (if info.category is Synth {
        PLUGIN_FLAG_IS_SYNTH
    } else {
        0i32
    }) | (if info.silent_when_stopped {
        PLUGIN_FLAG_NO_SOUND_IN_STOP
    } else {
        0i32
    })
}

/// Compute the plugin flags an effect reports to the host.
pub fn plugin_flags(info: &Info, has_editor: bool) -> (r: i32)
    ensures
        r == spec_plugin_flags(*info, has_editor),
{
    let double_flag: i32 = if info.f64_precision {
        PLUGIN_FLAG_CAN_DOUBLE_REPLACING
    } else {
        0
    };
    let editor_flag: i32 = if has_editor {
        PLUGIN_FLAG_HAS_EDITOR
    } else {
        0
    };
    let chunks_flag: i32 = if info.preset_chunks {
        PLUGIN_FLAG_PROGRAM_CHUNKS
    } else {
        0
    };
    let synth_flag: i32 = if let Category::Synth = info.category {
        PLUGIN_FLAG_IS_SYNTH
    } else {
        0
    };
    let silent_flag: i32 = if info.silent_when_stopped {
        PLUGIN_FLAG_NO_SOUND_IN_STOP
    } else {
        0
    };
    PLUGIN_FLAG_CAN_REPLACING | double_flag | editor_flag | chunks_flag | synth_flag | silent_flag
}

/// Features which are optionally supported by a plugin. These are queried
/// by the host at run time.
#[derive(Debug)]
#[allow(missing_docs)]
pub enum CanDo {
    SendEvents,
    SendMidiEvent,
    ReceiveEvents,
    ReceiveMidiEvent,
    ReceiveTimeInfo,
    Offline,
    MidiProgramNames,
    Bypass,
    ReceiveSysExEvent,
    MidiSingleNoteTuningChange,
    MidiKeyBasedInstrumentControl,
    Other(String),
}

impl CanDo {
    /// Whether this value is what `from_str` answers for the query `s`.
    pub open spec fn spec_matches(self, s: Seq<char>) -> bool {
        match self {
            CanDo::SendEvents => s == "sendVstEvents"@,
            CanDo::SendMidiEvent => s == "sendVstMidiEvent"@,
            CanDo::ReceiveEvents => s == "receiveVstEvents"@,
            CanDo::ReceiveMidiEvent => s == "receiveVstMidiEvent"@,
            CanDo::ReceiveTimeInfo => s == "receiveVstTimeInfo"@,
            CanDo::Offline => s == "offline"@,
            CanDo::MidiProgramNames => s == "midiProgramNames"@,
            CanDo::Bypass => s == "bypass"@,
            CanDo::ReceiveSysExEvent => s == "receiveVstSysexEvent"@,
            CanDo::MidiSingleNoteTuningChange => s == "midiSingleNoteTuningChange"@,
            CanDo::MidiKeyBasedInstrumentControl => s == "midiKeyBasedInstrumentControl"@,
            CanDo::Other(t) => t@ == s && !CanDo::spec_known(s),
        }
    }

    /// Whether `s` is one of the predefined query strings.
    pub open spec fn spec_known(s: Seq<char>) -> bool {
        ||| s == "sendVstEvents"@
        ||| s == "sendVstMidiEvent"@
        ||| s == "receiveVstEvents"@
        ||| s == "receiveVstMidiEvent"@
        ||| s == "receiveVstTimeInfo"@
        ||| s == "offline"@
        ||| s == "midiProgramNames"@
        ||| s == "bypass"@
        ||| s == "receiveVstSysexEvent"@
        ||| s == "midiSingleNoteTuningChange"@
        ||| s == "midiKeyBasedInstrumentControl"@
    }

    /// Converts a string to a `CanDo` instance. Any given string that does
    /// not match the predefined values gives a `CanDo::Other` value
    /// carrying the string itself.
    pub fn from_str(s: &str) -> (r: CanDo)
        ensures
            r.spec_matches(s@),
    {
        if str_eq(s, "sendVstEvents") {
            CanDo::SendEvents
        } else if str_eq(s, "sendVstMidiEvent") {
            CanDo::SendMidiEvent
        } else if str_eq(s, "receiveVstEvents") {
            CanDo::ReceiveEvents
        } else if str_eq(s, "receiveVstMidiEvent") {
            CanDo::ReceiveMidiEvent
        } else if str_eq(s, "receiveVstTimeInfo") {
            CanDo::ReceiveTimeInfo
        } else if str_eq(s, "offline") {
            CanDo::Offline
        } else if str_eq(s, "midiProgramNames") {
            CanDo::MidiProgramNames
        } else if str_eq(s, "bypass") {
            CanDo::Bypass
        } else if str_eq(s, "receiveVstSysexEvent") {
            CanDo::ReceiveSysExEvent
        } else if str_eq(s, "midiSingleNoteTuningChange") {
            CanDo::MidiSingleNoteTuningChange
        } else if str_eq(s, "midiKeyBasedInstrumentControl") {
            CanDo::MidiKeyBasedInstrumentControl
        } else {
            CanDo::Other(s.to_owned())
        }
    }

    /// The query string this value answers to: the predefined string of
    /// the variant, or the carried string itself.
    pub fn into_text(self) -> (r: String)
        ensures
            match self {
                CanDo::SendEvents => r@ == "sendVstEvents"@,
                CanDo::SendMidiEvent => r@ == "sendVstMidiEvent"@,
                CanDo::ReceiveEvents => r@ == "receiveVstEvents"@,
                CanDo::ReceiveMidiEvent => r@ == "receiveVstMidiEvent"@,
                CanDo::ReceiveTimeInfo => r@ == "receiveVstTimeInfo"@,
                CanDo::Offline => r@ == "offline"@,
                CanDo::MidiProgramNames => r@ == "midiProgramNames"@,
                CanDo::Bypass => r@ == "bypass"@,
                CanDo::ReceiveSysExEvent => r@ == "receiveVstSysexEvent"@,
                CanDo::MidiSingleNoteTuningChange => r@ == "midiSingleNoteTuningChange"@,
                CanDo::MidiKeyBasedInstrumentControl => r@ == "midiKeyBasedInstrumentControl"@,
                CanDo::Other(ref other) => r@ == other@,
            },
    {
        match self {
            CanDo::SendEvents => "sendVstEvents".to_owned(),
            CanDo::SendMidiEvent => "sendVstMidiEvent".to_owned(),
            CanDo::ReceiveEvents => "receiveVstEvents".to_owned(),
            CanDo::ReceiveMidiEvent => "receiveVstMidiEvent".to_owned(),
            CanDo::ReceiveTimeInfo => "receiveVstTimeInfo".to_owned(),
            CanDo::Offline => "offline".to_owned(),
            CanDo::MidiProgramNames => "midiProgramNames".to_owned(),
            CanDo::Bypass => "bypass".to_owned(),
            CanDo::ReceiveSysExEvent => "receiveVstSysexEvent".to_owned(),
            CanDo::MidiSingleNoteTuningChange => "midiSingleNoteTuningChange".to_owned(),
            CanDo::MidiKeyBasedInstrumentControl => "midiKeyBasedInstrumentControl".to_owned(),
            CanDo::Other(other) => other,
        }
    }
}

} // verus!
