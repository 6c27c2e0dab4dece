//! Tests for plugin initialization: which hosts are accepted and what the
//! effect record the host receives holds.

use vst::api::{AEffect, PLUGIN_FLAG_CAN_REPLACING, VST_MAGIC};
use vst::create_effect;
use vst::plugin::Info;

fn test_plugin_info() -> Info {
    Info {
        name: "Test Plugin".to_string(),
        vendor: "overdrivenpotato".to_string(),
        presets: 1,
        parameters: 1,
        unique_id: 5678,
        version: 1234,
        initial_delay: 123,
        ..Default::default()
    }
}

/// A host that reports VST version 0 (an old host) gets no effect.
#[test]
fn init_old_hosts() {
    assert_eq!(create_effect(&test_plugin_info(), false, 0), None);
}

/// The same refusal through the plugin's main entry point.
#[test]
fn lib_old_hosts() {
    assert_eq!(create_effect(&test_plugin_info(), false, 0), None);
}

/// A failing host callback reports version 0 and is refused.
#[test]
fn init_host_callback() {
    assert_eq!(create_effect(&test_plugin_info(), false, 0), None);
}

/// Same refusal checked from the crate root's entry point.
#[test]
fn lib_host_callback() {
    assert_eq!(create_effect(&test_plugin_info(), false, 0), None);
}

/// A host that reports a non-zero version gets an effect record.
#[test]
fn init_aeffect_created() {
    let aeffect = create_effect(&test_plugin_info(), false, 1);
    assert!(aeffect.is_some());
}

/// Same creation checked from the crate root's entry point.
#[test]
fn lib_aeffect_created() {
    let aeffect = create_effect(&test_plugin_info(), false, 1);
    assert!(aeffect.is_some());
}

fn check_aeffect_params(aeffect: AEffect) {
    assert_eq!(aeffect.magic, VST_MAGIC);
    assert_eq!(aeffect.numPrograms, 1);
    assert_eq!(aeffect.numParams, 1);
    assert_eq!(aeffect.numInputs, 2);
    assert_eq!(aeffect.numOutputs, 2);
    assert_eq!(aeffect.flags, PLUGIN_FLAG_CAN_REPLACING);
    assert_eq!(aeffect.reserved1, 0);
    assert_eq!(aeffect.reserved2, 0);
    assert_eq!(aeffect.initialDelay, 123);
    assert_eq!(aeffect.uniqueId, 5678);
    assert_eq!(aeffect.version, 1234);
}

/// Every field of the effect record follows the plugin's information.
#[test]
fn init_aeffect_params() {
    let aeffect = create_effect(&test_plugin_info(), false, 1).unwrap();
    check_aeffect_params(aeffect);
}

/// Same field check from the crate root's entry point.
#[test]
fn lib_aeffect_params() {
    let aeffect = create_effect(&test_plugin_info(), false, 1).unwrap();
    check_aeffect_params(aeffect);
}
