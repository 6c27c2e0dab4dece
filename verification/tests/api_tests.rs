//! Tests for the API mirror types, enums and their conversions.

use std::str::FromStr;
use vst::api::{
    EventType, SmpteFrameRate, SpeakerArrangementType as RawArrangement, Supported,
    CHANNEL_FLAG_ACTIVE, CHANNEL_FLAG_STEREO, MAX_LABEL, MAX_SHORT_LABEL,
    PLUGIN_FLAG_CAN_DOUBLE_REPLACING, PLUGIN_FLAG_CAN_REPLACING, PLUGIN_FLAG_HAS_EDITOR,
    PLUGIN_FLAG_IS_SYNTH,
};
use vst::channels::{
    ArrangementTarget, ChannelInfo, SpeakerArrangementType, StereoChannel, StereoConfig,
    SurroundConfig,
};
use vst::editor::{Key, KnobMode};
use vst::host::{OpCode as HostOpCode, PluginLoadError};
use vst::plugin::{plugin_flags, CanDo, Category, Info, OpCode as PluginOpCode};

#[test]
fn supported_from_ordinal() {
    assert_eq!(Supported::from(1), Some(Supported::Yes));
    assert_eq!(Supported::from(0), Some(Supported::Maybe));
    assert_eq!(Supported::from(-1), Some(Supported::No));
    assert_eq!(Supported::from(2), None);
    assert_eq!(Supported::Yes.into_raw(), 1);
    assert_eq!(Supported::Custom(42).into_raw(), 42);
}

#[test]
fn enums_supported_into_ordinal() {
    assert_eq!(vst::enums::Supported::Yes.into_raw(), 1);
    assert_eq!(vst::enums::Supported::Maybe.into_raw(), 0);
    assert_eq!(vst::enums::Supported::No.into_raw(), -1);
}

#[test]
fn can_do_from_str() {
    assert!(matches!(CanDo::from_str("sendVstEvents"), CanDo::SendEvents));
    assert!(matches!(CanDo::from_str("receiveVstTimeInfo"), CanDo::ReceiveTimeInfo));
    assert!(matches!(CanDo::from_str("bypass"), CanDo::Bypass));
    match CanDo::from_str("somethingElse") {
        CanDo::Other(s) => assert_eq!(s, "somethingElse"),
        _ => panic!("expected CanDo::Other"),
    }
}

#[test]
fn can_do_into_text() {
    let s: String = CanDo::ReceiveMidiEvent.into_text();
    assert_eq!(s, "receiveVstMidiEvent");
    let o: String = CanDo::Other("weird".to_string()).into_text();
    assert_eq!(o, "weird");
}

#[test]
fn enums_can_do_from_str() {
    let c = vst::enums::CanDo::from_str("midiProgramNames").unwrap();
    assert!(matches!(c, vst::enums::CanDo::MidiProgramNames));
    let o = vst::enums::CanDo::from_str("unheardOf").unwrap();
    match o {
        vst::enums::CanDo::Other(s) => assert_eq!(s, "unheardOf"),
        _ => panic!("expected Other"),
    }
}

#[test]
fn info_default_values() {
    let info = Info::default();
    assert_eq!(info.name, "VST");
    assert_eq!(info.vendor, "");
    assert_eq!(info.presets, 1);
    assert_eq!(info.parameters, 0);
    assert_eq!(info.inputs, 2);
    assert_eq!(info.outputs, 2);
    assert_eq!(info.unique_id, 0);
    assert_eq!(info.version, 1);
    assert!(matches!(info.category, Category::Effect));
    assert_eq!(info.initial_delay, 0);
    assert!(!info.preset_chunks);
    assert!(!info.f64_precision);
    assert!(!info.silent_when_stopped);
}

#[test]
fn plugin_flags_from_info() {
    let plain = Info::default();
    assert_eq!(plugin_flags(&plain, false), PLUGIN_FLAG_CAN_REPLACING);
    let synth = Info { category: Category::Synth, f64_precision: true, ..Default::default() };
    assert_eq!(
        plugin_flags(&synth, true),
        PLUGIN_FLAG_CAN_REPLACING
            | PLUGIN_FLAG_CAN_DOUBLE_REPLACING
            | PLUGIN_FLAG_HAS_EDITOR
            | PLUGIN_FLAG_IS_SYNTH
    );
}

#[test]
fn channel_info_into_properties() {
    let info = ChannelInfo::new(
        "Left".to_string(),
        Some("L".to_string()),
        true,
        Some(SpeakerArrangementType::Stereo(StereoConfig::L_R, StereoChannel::Left)),
    );
    let props = info.into_properties();
    assert_eq!(props.name.len(), MAX_LABEL);
    assert_eq!(&props.name[0..4], b"Left");
    assert!(props.name[4..].iter().all(|&b| b == 0));
    assert_eq!(props.short_name.len(), MAX_SHORT_LABEL);
    assert_eq!(props.short_name[0], b'L');
    assert_eq!(props.flags, CHANNEL_FLAG_ACTIVE | CHANNEL_FLAG_STEREO);
    assert_eq!(props.arrangement_type, RawArrangement::Stereo);
    assert_eq!(props.future.len(), 48);
}

#[test]
fn channel_info_short_name_defaults_to_name() {
    let info = ChannelInfo::new("Mid".to_string(), None, false, None);
    let props = info.into_properties();
    assert_eq!(&props.short_name[0..3], b"Mid");
    assert_eq!(props.flags, 0);
    assert_eq!(props.arrangement_type, RawArrangement::Custom);
}

#[test]
fn channel_info_from_properties() {
    let info = ChannelInfo::new(
        "Surround".to_string(),
        None,
        true,
        Some(SpeakerArrangementType::Surround(SurroundConfig::S5_1)),
    );
    let props = info.into_properties();
    let back = ChannelInfo::from_properties(props);
    let round = back.into_properties();
    assert_eq!(&round.name[0..8], b"Surround");
    assert_eq!(round.arrangement_type, RawArrangement::Surround51);
    assert_ne!(round.flags & CHANNEL_FLAG_ACTIVE, 0);
}

#[test]
fn speaker_arrangement_classification() {
    let stereo = SpeakerArrangementType::Stereo(StereoConfig::Sl_Sr, StereoChannel::Left);
    let right = SpeakerArrangementType::Stereo(StereoConfig::Sl_Sr, StereoChannel::Right);
    let surround = SpeakerArrangementType::Surround(SurroundConfig::S7_1(ArrangementTarget::Cinema));
    assert!(stereo.is_left_stereo());
    assert!(!right.is_left_stereo());
    assert!(!stereo.is_speaker_type());
    assert!(surround.is_speaker_type());
    assert!(!surround.is_left_stereo());
    assert_eq!(stereo.into_api(), RawArrangement::StereoSide);
    assert_eq!(surround.into_api(), RawArrangement::Cinema71);
    assert_eq!(SpeakerArrangementType::default().into_api(), RawArrangement::Mono);
}

#[test]
fn raw_arrangement_numbers() {
    assert_eq!(RawArrangement::Custom.into_raw(), -2);
    assert_eq!(RawArrangement::Empty.into_raw(), -1);
    assert_eq!(RawArrangement::Mono.into_raw(), 0);
    assert_eq!(RawArrangement::Stereo.into_raw(), 1);
    assert_eq!(RawArrangement::Surround102.into_raw(), 28);
}

#[test]
fn smpte_frame_rate_numbers() {
    assert_eq!(SmpteFrameRate::Smpte24fps.into_raw(), 0);
    assert_eq!(SmpteFrameRate::SmpteFilm35mm.into_raw(), 7);
    // The numbering has a gap: the HDTV rates start at 10.
    assert_eq!(SmpteFrameRate::Smpte239fps.into_raw(), 10);
    assert_eq!(SmpteFrameRate::Smpte60fps.into_raw(), 13);
    assert_eq!(SmpteFrameRate::default(), SmpteFrameRate::Smpte24fps);
}

#[test]
fn host_opcode_numbers() {
    assert_eq!(HostOpCode::Automate.into_raw(), 0);
    assert_eq!(HostOpCode::Version.into_raw(), 1);
    // The numbering has a hole at 5.
    assert_eq!(HostOpCode::_WantMidi.into_raw(), 6);
    assert_eq!(HostOpCode::GetTime.into_raw(), 7);
    assert_eq!(HostOpCode::_GetInputSpeakerArrangement.into_raw(), 49);
    assert_eq!(HostOpCode::from_raw(5), None);
    assert_eq!(HostOpCode::from_raw(37), Some(HostOpCode::CanDo));
    assert_eq!(HostOpCode::from_raw(50), None);
}

#[test]
fn plugin_opcode_numbers() {
    assert_eq!(PluginOpCode::Initialize.into_raw(), 0);
    assert_eq!(PluginOpCode::GetApiVersion.into_raw(), 58);
    assert_eq!(PluginOpCode::GetNumMidiOutputs.into_raw(), 79);
    assert_eq!(PluginOpCode::from_raw(1), Some(PluginOpCode::Shutdown));
    assert_eq!(PluginOpCode::from_raw(80), None);
}

#[test]
fn category_numbers() {
    assert_eq!(Category::Unknown.into_raw(), 0);
    assert_eq!(Category::Synth.into_raw(), 2);
    assert_eq!(Category::Generator.into_raw(), 11);
    assert_eq!(Category::from_raw(2), Some(Category::Synth));
    assert_eq!(Category::from_raw(12), None);
}

#[test]
fn key_and_knob_mode_numbers() {
    assert_eq!(Key::NoKey.into_raw(), 0);
    assert_eq!(Key::Back.into_raw(), 1);
    assert_eq!(Key::Equals.into_raw(), 57);
    assert_eq!(Key::from_raw(2), Some(Key::Tab));
    assert_eq!(Key::from_raw(58), None);
    assert_eq!(KnobMode::Circular.into_raw(), 0);
    assert_eq!(KnobMode::from_raw(2), Some(KnobMode::Linear));
    assert_eq!(KnobMode::from_raw(3), None);
}

#[test]
fn plugin_load_error_description() {
    assert_eq!(
        PluginLoadError::InvalidPath.description(),
        "Could not open the requested path"
    );
    assert_eq!(
        PluginLoadError::InvalidApiVersion.description(),
        "The plugin API version is not compatible with this library"
    );
}

#[test]
fn event_type_is_plain() {
    assert_eq!(EventType::Midi, EventType::Midi);
    assert_ne!(EventType::Midi, EventType::SysEx);
}
