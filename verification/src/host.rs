//! Host specific structures.

use vstd::prelude::*;

verus! {

/// Plugin-to-host dispatcher opcodes. The number of an opcode is what
/// `into_raw` states; the numbering leaves one slot unused.
#[allow(missing_docs)]
#[derive(Clone, Copy, Debug, PartialEq, Eq, Structural)]
pub enum OpCode {
    Automate,
    Version,
    CurrentId,
    Idle,
    _PinConnected,
    _WantMidi,
    GetTime,
    ProcessEvents,
    _SetTime,
    _TempoAt,
    _GetNumAutomatableParameters,
    _GetParameterQuantization,
    IOChanged,
    _NeedIdle,
    SizeWindow,
    GetSampleRate,
    GetBlockSize,
    GetInputLatency,
    GetOutputLatency,
    _GetPreviousPlug,
    _GetNextPlug,
    _WillReplaceOrAccumulate,
    GetCurrentProcessLevel,
    GetAutomationState,
    OfflineStart,
    OfflineRead,
    OfflineWrite,
    OfflineGetCurrentPass,
    OfflineGetCurrentMetaPass,
    _SetOutputSampleRate,
    _GetOutputSpeakerArrangement,
    GetVendorString,
    GetProductString,
    GetVendorVersion,
    VendorSpecific,
    _SetIcon,
    CanDo,
    GetLanguage,
    _OpenWindow,
    _CloseWindow,
    GetDirectory,
    UpdateDisplay,
    BeginEdit,
    EndEdit,
    OpenFileSelector,
    CloseFileSelector,
    _EditFile,
    _GetChunkFile,
    _GetInputSpeakerArrangement,
}

impl OpCode {
    /// The number the VST API uses for this opcode.
    pub open spec fn spec_raw(self) -> i32 {
        match self {
            OpCode::Automate => 0,
            OpCode::Version => 1,
            OpCode::CurrentId => 2,
            OpCode::Idle => 3,
            OpCode::_PinConnected => 4,
            OpCode::_WantMidi => 6,
            OpCode::GetTime => 7,
            OpCode::ProcessEvents => 8,
            OpCode::_SetTime => 9,
            OpCode::_TempoAt => 10,
            OpCode::_GetNumAutomatableParameters => 11,
            OpCode::_GetParameterQuantization => 12,
            OpCode::IOChanged => 13,
            OpCode::_NeedIdle => 14,
            OpCode::SizeWindow => 15,
            OpCode::GetSampleRate => 16,
            OpCode::GetBlockSize => 17,
            OpCode::GetInputLatency => 18,
            OpCode::GetOutputLatency => 19,
            OpCode::_GetPreviousPlug => 20,
            OpCode::_GetNextPlug => 21,
            OpCode::_WillReplaceOrAccumulate => 22,
            OpCode::GetCurrentProcessLevel => 23,
            OpCode::GetAutomationState => 24,
            OpCode::OfflineStart => 25,
            OpCode::OfflineRead => 26,
            OpCode::OfflineWrite => 27,
            OpCode::OfflineGetCurrentPass => 28,
            OpCode::OfflineGetCurrentMetaPass => 29,
            OpCode::_SetOutputSampleRate => 30,
            OpCode::_GetOutputSpeakerArrangement => 31,
            OpCode::GetVendorString => 32,
            OpCode::GetProductString => 33,
            OpCode::GetVendorVersion => 34,
            OpCode::VendorSpecific => 35,
            OpCode::_SetIcon => 36,
            OpCode::CanDo => 37,
            OpCode::GetLanguage => 38,
            OpCode::_OpenWindow => 39,
            OpCode::_CloseWindow => 40,
            OpCode::GetDirectory => 41,
            OpCode::UpdateDisplay => 42,
            OpCode::BeginEdit => 43,
            OpCode::EndEdit => 44,
            OpCode::OpenFileSelector => 45,
            OpCode::CloseFileSelector => 46,
            OpCode::_EditFile => 47,
            OpCode::_GetChunkFile => 48,
            OpCode::_GetInputSpeakerArrangement => 49,
        }
    }

    /// Convert to the number the VST API uses for this opcode.
    pub fn into_raw(self) -> (r: i32)
        ensures
            r == self.spec_raw(),
    {
        match self {
            OpCode::Automate => 0,
            OpCode::Version => 1,
            OpCode::CurrentId => 2,
            OpCode::Idle => 3,
            OpCode::_PinConnected => 4,
            OpCode::_WantMidi => 6,
            OpCode::GetTime => 7,
            OpCode::ProcessEvents => 8,
            OpCode::_SetTime => 9,
            OpCode::_TempoAt => 10,
            OpCode::_GetNumAutomatableParameters => 11,
            OpCode::_GetParameterQuantization => 12,
            OpCode::IOChanged => 13,
            OpCode::_NeedIdle => 14,
            OpCode::SizeWindow => 15,
            OpCode::GetSampleRate => 16,
            OpCode::GetBlockSize => 17,
            OpCode::GetInputLatency => 18,
            OpCode::GetOutputLatency => 19,
            OpCode::_GetPreviousPlug => 20,
            OpCode::_GetNextPlug => 21,
            OpCode::_WillReplaceOrAccumulate => 22,
            OpCode::GetCurrentProcessLevel => 23,
            OpCode::GetAutomationState => 24,
            OpCode::OfflineStart => 25,
            OpCode::OfflineRead => 26,
            OpCode::OfflineWrite => 27,
            OpCode::OfflineGetCurrentPass => 28,
            OpCode::OfflineGetCurrentMetaPass => 29,
            OpCode::_SetOutputSampleRate => 30,
            OpCode::_GetOutputSpeakerArrangement => 31,
            OpCode::GetVendorString => 32,
            OpCode::GetProductString => 33,
            OpCode::GetVendorVersion => 34,
            OpCode::VendorSpecific => 35,
            OpCode::_SetIcon => 36,
            OpCode::CanDo => 37,
            OpCode::GetLanguage => 38,
            OpCode::_OpenWindow => 39,
            OpCode::_CloseWindow => 40,
            OpCode::GetDirectory => 41,
            OpCode::UpdateDisplay => 42,
            OpCode::BeginEdit => 43,
            OpCode::EndEdit => 44,
            OpCode::OpenFileSelector => 45,
            OpCode::CloseFileSelector => 46,
            OpCode::_EditFile => 47,
            OpCode::_GetChunkFile => 48,
            OpCode::_GetInputSpeakerArrangement => 49,
        }
    }

    /// Recover the opcode a number names, if it names one.
    pub fn from_raw(v: i32) -> (r: Option<OpCode>)
        ensures
            r == OpCode::spec_from_raw(v),
    {
        match v {
            0 => Some(OpCode::Automate),
            1 => Some(OpCode::Version),
            2 => Some(OpCode::CurrentId),
            3 => Some(OpCode::Idle),
            4 => Some(OpCode::_PinConnected),
            6 => Some(OpCode::_WantMidi),
            7 => Some(OpCode::GetTime),
            8 => Some(OpCode::ProcessEvents),
            9 => Some(OpCode::_SetTime),
            10 => Some(OpCode::_TempoAt),
            11 => Some(OpCode::_GetNumAutomatableParameters),
            12 => Some(OpCode::_GetParameterQuantization),
            13 => Some(OpCode::IOChanged),
            14 => Some(OpCode::_NeedIdle),
            15 => Some(OpCode::SizeWindow),
            16 => Some(OpCode::GetSampleRate),
            17 => Some(OpCode::GetBlockSize),
            18 => Some(OpCode::GetInputLatency),
            19 => Some(OpCode::GetOutputLatency),
            20 => Some(OpCode::_GetPreviousPlug),
            21 => Some(OpCode::_GetNextPlug),
            22 => Some(OpCode::_WillReplaceOrAccumulate),
            23 => Some(OpCode::GetCurrentProcessLevel),
            24 => Some(OpCode::GetAutomationState),
            25 => Some(OpCode::OfflineStart),
            26 => Some(OpCode::OfflineRead),
            27 => Some(OpCode::OfflineWrite),
            28 => Some(OpCode::OfflineGetCurrentPass),
            29 => Some(OpCode::OfflineGetCurrentMetaPass),
            30 => Some(OpCode::_SetOutputSampleRate),
            31 => Some(OpCode::_GetOutputSpeakerArrangement),
            32 => Some(OpCode::GetVendorString),
            33 => Some(OpCode::GetProductString),
            34 => Some(OpCode::GetVendorVersion),
            35 => Some(OpCode::VendorSpecific),
            36 => Some(OpCode::_SetIcon),
            37 => Some(OpCode::CanDo),
            38 => Some(OpCode::GetLanguage),
            39 => Some(OpCode::_OpenWindow),
            40 => Some(OpCode::_CloseWindow),
            41 => Some(OpCode::GetDirectory),
            42 => Some(OpCode::UpdateDisplay),
            43 => Some(OpCode::BeginEdit),
            44 => Some(OpCode::EndEdit),
            45 => Some(OpCode::OpenFileSelector),
            46 => Some(OpCode::CloseFileSelector),
            47 => Some(OpCode::_EditFile),
            48 => Some(OpCode::_GetChunkFile),
            49 => Some(OpCode::_GetInputSpeakerArrangement),
            _ => None,
        }
    }

    /// The opcode a number names, if it names one.
    pub open spec fn spec_from_raw(v: i32) -> Option<OpCode> {
        if v == 0 {
            Some(OpCode::Automate)
        } else if v == 1 {
            Some(OpCode::Version)
        } else if v == 2 {
            Some(OpCode::CurrentId)
        } else if v == 3 {
            Some(OpCode::Idle)
        } else if v == 4 {
            Some(OpCode::_PinConnected)
        } else if v == 6 {
            Some(OpCode::_WantMidi)
        } else if v == 7 {
            Some(OpCode::GetTime)
        } else if v == 8 {
            Some(OpCode::ProcessEvents)
        } else if v == 9 {
            Some(OpCode::_SetTime)
        } else if v == 10 {
            Some(OpCode::_TempoAt)
        } else if v == 11 {
            Some(OpCode::_GetNumAutomatableParameters)
        } else if v == 12 {
            Some(OpCode::_GetParameterQuantization)
        } else if v == 13 {
            Some(OpCode::IOChanged)
        } else if v == 14 {
            Some(OpCode::_NeedIdle)
        } else if v == 15 {
            Some(OpCode::SizeWindow)
        } else if v == 16 {
            Some(OpCode::GetSampleRate)
        } else if v == 17 {
            Some(OpCode::GetBlockSize)
        } else if v == 18 {
            Some(OpCode::GetInputLatency)
        } else if v == 19 {
            Some(OpCode::GetOutputLatency)
        } else if v == 20 {
            Some(OpCode::_GetPreviousPlug)
        } else if v == 21 {
            Some(OpCode::_GetNextPlug)
        } else if v == 22 {
            Some(OpCode::_WillReplaceOrAccumulate)
        } else if v == 23 {
            Some(OpCode::GetCurrentProcessLevel)
        } else if v == 24 {
            Some(OpCode::GetAutomationState)
        } else if v == 25 {
            Some(OpCode::OfflineStart)
        } else if v == 26 {
            Some(OpCode::OfflineRead)
        } else if v == 27 {
            Some(OpCode::OfflineWrite)
        } else if v == 28 {
            Some(OpCode::OfflineGetCurrentPass)
        } else if v == 29 {
            Some(OpCode::OfflineGetCurrentMetaPass)
        } else if v == 30 {
            Some(OpCode::_SetOutputSampleRate)
        } else if v == 31 {
            Some(OpCode::_GetOutputSpeakerArrangement)
        } else if v == 32 {
            Some(OpCode::GetVendorString)
        } else if v == 33 {
            Some(OpCode::GetProductString)
        } else if v == 34 {
            Some(OpCode::GetVendorVersion)
        } else if v == 35 {
            Some(OpCode::VendorSpecific)
        } else if v == 36 {
            Some(OpCode::_SetIcon)
        } else if v == 37 {
            Some(OpCode::CanDo)
        } else if v == 38 {
            Some(OpCode::GetLanguage)
        } else if v == 39 {
            Some(OpCode::_OpenWindow)
        } else if v == 40 {
            Some(OpCode::_CloseWindow)
        } else if v == 41 {
            Some(OpCode::GetDirectory)
        } else if v == 42 {
            Some(OpCode::UpdateDisplay)
        } else if v == 43 {
            Some(OpCode::BeginEdit)
        } else if v == 44 {
            Some(OpCode::EndEdit)
        } else if v == 45 {
            Some(OpCode::OpenFileSelector)
        } else if v == 46 {
            Some(OpCode::CloseFileSelector)
        } else if v == 47 {
            Some(OpCode::_EditFile)
        } else if v == 48 {
            Some(OpCode::_GetChunkFile)
        } else if v == 49 {
            Some(OpCode::_GetInputSpeakerArrangement)
        } else {
            None
        }
    }
}

/// All possible errors that can occur when loading a VST plugin.
#[derive(Clone, Copy, Debug, PartialEq, Eq, Structural)]
pub enum PluginLoadError {
    /// Could not load given path.
    InvalidPath,
    /// Given path is not a VST plugin.
    NotAPlugin,
    /// Failed to create an instance of this plugin.
    ///
    /// This can happen for many reasons, such as if the plugin requires a
    /// different version of the VST API to be used, or due to improper
    /// licensing.
    InstanceFailed,
    /// The API version which the plugin used is not supported by this
    /// library.
    InvalidApiVersion,
}

impl PluginLoadError {
    /// A human readable description of the error.
    pub fn description(&self) -> (r: &'static str)
        ensures
            match *self {
                PluginLoadError::InvalidPath => r@ == "Could not open the requested path"@,
                PluginLoadError::NotAPlugin => r@
                    == "The given path does not contain a VST2.4 compatible library"@,
                PluginLoadError::InstanceFailed => r@ == "Failed to create a plugin instance"@,
                PluginLoadError::InvalidApiVersion => r@
                    == "The plugin API version is not compatible with this library"@,
            },
    {
        match *self {
            PluginLoadError::InvalidPath => "Could not open the requested path",
            PluginLoadError::NotAPlugin => "The given path does not contain a VST2.4 compatible library",
            PluginLoadError::InstanceFailed => "Failed to create a plugin instance",
            PluginLoadError::InvalidApiVersion => "The plugin API version is not compatible with this library",
        }
    }
}

} // verus!
