use hyperwarp::encoder::{
    default_assignments, setting_assignment, ElementRef, JsonNumber, PipelineElement, PropertyValue,
    SettingValue, WebRTCPreprocessor,
};
use hyperwarp::protocol::{EncodingPreset, PipelineOptimization};

fn el(factory: &str, name: &str) -> PipelineElement {
    PipelineElement::Element { factory: factory.to_string(), name: Some(name.to_string()) }
}

#[test]
fn encoder_types() {
    assert_eq!(WebRTCPreprocessor::get_encoder_element_type(EncodingPreset::H264, PipelineOptimization::NVIDIA), "nvh264enc");
    assert_eq!(WebRTCPreprocessor::get_encoder_element_type(EncodingPreset::H264, PipelineOptimization::Intel), "vah264enc");
    assert_eq!(WebRTCPreprocessor::get_encoder_element_type(EncodingPreset::H265, PipelineOptimization::AMD), "vah265enc");
    assert_eq!(WebRTCPreprocessor::get_encoder_element_type(EncodingPreset::H265, PipelineOptimization::DMABuf), "x265enc");
    assert_eq!(WebRTCPreprocessor::get_encoder_element_type_simple(EncodingPreset::H264), "openh264enc");
    assert_eq!(WebRTCPreprocessor::get_encoder_element_type_simple(EncodingPreset::VP8), "vp8enc");
    assert_eq!(WebRTCPreprocessor::get_encoder_element_type_simple(EncodingPreset::VP9), "vp9enc");
    assert_eq!(WebRTCPreprocessor::get_encoder_element_type_simple(EncodingPreset::AV1), "rav1enc");
    assert_eq!(WebRTCPreprocessor::get_payloader_element_type(EncodingPreset::H265, PipelineOptimization::NVIDIA), "rtph265pay");
    assert_eq!(WebRTCPreprocessor::get_payloader_element_type_simple(EncodingPreset::AV1), "rtpav1pay");
    assert_eq!(WebRTCPreprocessor::get_payloader_element_type_simple(EncodingPreset::VP8), "rtpvp8pay");
}

#[test]
fn nvidia_h264_stage() {
    let p = WebRTCPreprocessor::new_preset(EncodingPreset::H264, PipelineOptimization::NVIDIA);
    assert_eq!(p.encoder, el("nvh264enc", "encoder"));
    assert_eq!(p.payloader, el("rtph264pay", "payloader"));
    assert_eq!(
        p.extra_prefix_elements,
        vec![el("videoconvert", "nvvideoconverter"), PipelineElement::CapsFilter("video/x-raw,format=NV12".to_string())]
    );
    assert_eq!(
        p.extra_middle_elements,
        vec![
            PipelineElement::CapsFilter("video/x-h264,stream-format=byte-stream,profile=main".to_string()),
            el("h264parse", "parser"),
        ]
    );
    assert_eq!(
        p.extra_suffix_elements,
        vec![PipelineElement::CapsFilter("application/x-rtp,media=video,encoding-name=H264,payload=96".to_string())]
    );
    assert_eq!(
        p.link_order(),
        vec![
            ElementRef::Prefix(0),
            ElementRef::Prefix(1),
            ElementRef::Encoder,
            ElementRef::Middle(0),
            ElementRef::Middle(1),
            ElementRef::Payloader,
            ElementRef::Suffix(0),
        ]
    );
    assert_eq!(p.get_last_element(), ElementRef::Suffix(0));
}

#[test]
fn vp8_stage_is_bare() {
    let p = WebRTCPreprocessor::new_preset(EncodingPreset::VP8, PipelineOptimization::NoOptimization);
    assert!(p.extra_prefix_elements.is_empty());
    assert!(p.extra_middle_elements.is_empty());
    assert!(p.extra_suffix_elements.is_empty());
    assert_eq!(p.link_order(), vec![ElementRef::Encoder, ElementRef::Payloader]);
    assert_eq!(p.get_last_element(), ElementRef::Payloader);
    let amd = WebRTCPreprocessor::new_preset(EncodingPreset::H265, PipelineOptimization::AMD);
    assert_eq!(amd.extra_middle_elements, vec![el("h265parse", "parser")]);
}

#[test]
fn configuration() {
    let mut p = WebRTCPreprocessor::new(el("x264enc", "encoder"), el("rtph264pay", "payloader"));
    assert_eq!(p.preset, EncodingPreset::Unknown);
    assert_eq!(p.get_optimizations(), PipelineOptimization::NoOptimization);
    p.set_config(PipelineOptimization::Intel);
    assert_eq!(p.get_optimizations(), PipelineOptimization::Intel);
    p.set_setting("bitrate", SettingValue::Number(JsonNumber::PosInt(1)));
    assert!(p.properties.is_empty());
}

#[test]
fn settings_are_clamped() {
    let a = setting_assignment(EncodingPreset::H264, "bitrate", SettingValue::Number(JsonNumber::PosInt(1))).unwrap();
    assert_eq!(a.value, PropertyValue::U32(307200));
    let a = setting_assignment(EncodingPreset::AV1, "bitrate", SettingValue::Number(JsonNumber::PosInt(u64::MAX))).unwrap();
    assert_eq!(a.value, PropertyValue::U32(104857600));
    let a = setting_assignment(EncodingPreset::AV1, "bitrate", SettingValue::Number(JsonNumber::PosInt(1 << 32))).unwrap();
    assert_eq!(a.value, PropertyValue::U32(307200));
    let a = setting_assignment(EncodingPreset::VP9, "target-bitrate", SettingValue::Number(JsonNumber::Float)).unwrap();
    assert_eq!(a.value, PropertyValue::I32(4194304));
    let a = setting_assignment(EncodingPreset::VP9, "target-bitrate", SettingValue::Number(JsonNumber::PosInt(1 << 40))).unwrap();
    assert_eq!(a.value, PropertyValue::I32(307200));
    let a = setting_assignment(EncodingPreset::H265, "target-bitrate", SettingValue::Number(JsonNumber::PosInt(200000000))).unwrap();
    assert_eq!(a.value, PropertyValue::I32(104857600));
    let a = setting_assignment(EncodingPreset::VP8, "deadline", SettingValue::Number(JsonNumber::NegInt(-5))).unwrap();
    assert_eq!(a.value, PropertyValue::I64(0));
    assert_eq!(a.property, "deadline");
    let a = setting_assignment(EncodingPreset::VP8, "deadline", SettingValue::Number(JsonNumber::PosInt(5000))).unwrap();
    assert_eq!(a.value, PropertyValue::I64(1000));
    assert!(setting_assignment(EncodingPreset::AV1, "target-bitrate", SettingValue::Number(JsonNumber::PosInt(1))).is_none());
    assert!(setting_assignment(EncodingPreset::H264, "deadline", SettingValue::Number(JsonNumber::PosInt(1))).is_none());
    assert!(setting_assignment(EncodingPreset::H264, "bitrate", SettingValue::NotANumber).is_none());
    assert!(setting_assignment(EncodingPreset::Unknown, "bitrate", SettingValue::Number(JsonNumber::PosInt(1))).is_none());
    assert!(setting_assignment(EncodingPreset::H264, "speed", SettingValue::Number(JsonNumber::PosInt(1))).is_none());
}

#[test]
fn default_settings() {
    let d = default_assignments(EncodingPreset::H264, PipelineOptimization::NoOptimization);
    assert_eq!(d.len(), 4);
    assert_eq!(d[0].target, ElementRef::Payloader);
    assert_eq!(d[0].property, "config-interval");
    assert_eq!(d[0].value, PropertyValue::Text("-1".to_string()));
    assert_eq!(d[1].value, PropertyValue::Text("96".to_string()));
    assert_eq!(d[2].property, "rate-control");
    assert_eq!(d[3].property, "bitrate");
    assert_eq!(d[3].value, PropertyValue::U32(6291456));
    let d = default_assignments(EncodingPreset::VP8, PipelineOptimization::NoOptimization);
    assert_eq!(d.len(), 4);
    assert_eq!(d[2].value, PropertyValue::I32(6291456));
    assert_eq!(d[3].value, PropertyValue::I64(0));
    let d = default_assignments(EncodingPreset::AV1, PipelineOptimization::NoOptimization);
    assert_eq!(d.len(), 2);
    let mut p = WebRTCPreprocessor::new_preset(EncodingPreset::H264, PipelineOptimization::NVIDIA);
    p.set_config(PipelineOptimization::NVIDIA);
    p.set_default_settings();
    assert_eq!(p.properties.len(), 5);
    assert_eq!(p.properties[4].target, ElementRef::Middle(1));
    assert_eq!(p.properties[4].value, PropertyValue::I32(-1));
}

#[test]
fn raw_settings_are_recorded() {
    let mut p = WebRTCPreprocessor::new_preset(EncodingPreset::AV1, PipelineOptimization::NoOptimization);
    assert!(p.settings.is_empty());
    p.set_default_settings();
    assert_eq!(p.settings, vec![("target-bitrate".to_string(), SettingValue::Number(JsonNumber::PosInt(4194304)))]);
    let mut v = WebRTCPreprocessor::new_preset(EncodingPreset::VP8, PipelineOptimization::NoOptimization);
    v.set_default_settings();
    assert_eq!(
        v.settings,
        vec![
            ("target-bitrate".to_string(), SettingValue::Number(JsonNumber::PosInt(6291456))),
            ("deadline".to_string(), SettingValue::Number(JsonNumber::PosInt(0))),
        ]
    );
    v.set_setting("deadline", SettingValue::Number(JsonNumber::PosInt(7)));
    assert_eq!(v.settings[1], ("deadline".to_string(), SettingValue::Number(JsonNumber::PosInt(7))));
    assert_eq!(v.settings.len(), 2);
    let mut u = WebRTCPreprocessor::new(
        PipelineElement::CapsFilter("x".to_string()),
        PipelineElement::CapsFilter("y".to_string()),
    );
    u.set_setting("speed", SettingValue::NotANumber);
    assert_eq!(u.settings, vec![("speed".to_string(), SettingValue::NotANumber)]);
    assert!(u.properties.is_empty());
    let mut n = WebRTCPreprocessor::new_preset(EncodingPreset::H264, PipelineOptimization::NVIDIA);
    n.set_config(PipelineOptimization::NVIDIA);
    n.set_default_settings();
    assert!(n.settings.is_empty());
}
