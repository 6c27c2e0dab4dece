//! Enums for use in this library.

use crate::plugin::str_eq;
use vstd::prelude::*;

verus! {

/// Features which are optionally supported by a plugin. These are queried
/// by the host at run time.
#[derive(Debug)]
#[allow(missing_docs)]
pub enum CanDo {
    SendEvents,
    SendMidiEvent,
    ReceiveEvents,
    ReceiveMidiEvent,
    ReceiveTimeInfo,
    Offline,
    MidiProgramNames,
    Bypass,
    ReceiveSysexEvent,
    MidiSingleNoteTuningChange,
    MidiKeyBasedInstrumentControl,
    Other(String),
}

impl core::str::FromStr for CanDo {
    type Err = String;

    fn from_str(s: &str) -> Result<CanDo, String> {
        if str_eq(s, "sendVstEvents") {
            Ok(CanDo::SendEvents)
        } else if str_eq(s, "sendVstMidiEvent") {
            Ok(CanDo::SendMidiEvent)
        } else if str_eq(s, "receiveVstEvents") {
            Ok(CanDo::ReceiveEvents)
        } else if str_eq(s, "receiveVstMidiEvent") {
            Ok(CanDo::ReceiveMidiEvent)
        } else if str_eq(s, "receiveVstTimeInfo") {
            Ok(CanDo::ReceiveTimeInfo)
        } else if str_eq(s, "offline") {
            Ok(CanDo::Offline)
        } else if str_eq(s, "midiProgramNames") {
            Ok(CanDo::MidiProgramNames)
        } else if str_eq(s, "bypass") {
            Ok(CanDo::Bypass)
        } else if str_eq(s, "receiveVstSysexEvent") {
            Ok(CanDo::ReceiveSysexEvent)
        } else if str_eq(s, "midiSingleNoteTuningChange") {
            Ok(CanDo::MidiSingleNoteTuningChange)
        } else if str_eq(s, "midiKeyBasedInstrumentControl") {
            Ok(CanDo::MidiKeyBasedInstrumentControl)
        } else {
            Ok(CanDo::Other(s.to_owned()))
        }
    }
}

/// Used to specify whether functionality is supported.
#[derive(Clone, Copy, Debug, PartialEq, Eq, Structural)]
#[allow(missing_docs)]
pub enum Supported {
    Yes,
    Maybe,
    No,
}

impl Supported {
    /// Convert to the integer ordinal used across the VST API.
    pub fn into_raw(self) -> (r: isize)
        ensures
            r == match self {
                Supported::Yes => 1int,
                Supported::Maybe => 0int,
                Supported::No => -1int,
            },
    {
        match self {
            Supported::Yes => 1,
            Supported::Maybe => 0,
            Supported::No => -1,
        }
    }
}

} // verus!
