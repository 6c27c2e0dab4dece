//! Core data structures of a VST 2.4 plugin binding layer.
//!
//! The centrepiece is the parameter-transfer engine in [`parameter_transfer`]:
//! a fixed-size table of 32-bit parameter cells together with a packed
//! changed-bitmap that lets a consumer discover, in increasing index order,
//! which parameters were written since the last acknowledgement.
//!
//! Floating-point parameter values are carried as their IEEE-754 bit
//! patterns (`u32`): the table stores and returns bit patterns exactly,
//! so NaN payloads and the sign of zero survive a round trip. Callers
//! convert with `f32::to_bits` / `f32::from_bits` at the boundary.

use vstd::prelude::*;

pub mod api;
pub mod buffer;
pub mod channels;
pub mod editor;
pub mod enums;
pub mod event;
pub mod host;
pub mod plugin;
pub mod atomic_float;
pub mod parameter_transfer;

verus! {

/// The effect record a plugin with the given information and editor
/// presence fills in for the host.
pub open spec fn spec_effect(info: plugin::Info, has_editor: bool) -> api::AEffect {
    api::AEffect {
        magic: api::VST_MAGIC,
        numPrograms: info.presets,
        numParams: info.parameters,
        numInputs: info.inputs,
        numOutputs: info.outputs,
        flags: plugin::spec_plugin_flags(info, has_editor),
        reserved1: 0,
        reserved2: 0,
        initialDelay: info.initial_delay,
        uniqueId: info.unique_id,
        version: info.version,
    }
}

/// Initialize a VST plugin: decide whether the host is accepted, and fill
/// in the effect record the host receives.
///
/// A host that reports VST version 0 is refused — the plugin hands the
/// host nothing. Any other version is accepted, and every field of the
/// record follows from the plugin's information and whether it has an
/// editor, as [`spec_effect`] states.
pub fn create_effect(info: &plugin::Info, has_editor: bool, host_vst_version: i32) -> (r: Option<
    api::AEffect,
>)
    ensures
        r is Some <==> host_vst_version != 0,
        host_vst_version != 0 ==> r == Some(spec_effect(*info, has_editor)),
{
    if host_vst_version == 0 {
        return None;
    }
    Some(
        api::AEffect {
            magic: api::VST_MAGIC,
            numPrograms: info.presets,
            numParams: info.parameters,
            numInputs: info.inputs,
            numOutputs: info.outputs,
            flags: plugin::plugin_flags(info, has_editor),
            reserved1: 0,
            reserved2: 0,
            initialDelay: info.initial_delay,
            uniqueId: info.unique_id,
            version: info.version,
        },
    )
}

} // verus!
