//! The encoding stage of the streamer: which encoder and payloader each
//! preset uses, the elements around them, and the properties they are given.
//! Elements are described by their factory names and caps as text.
use vstd::prelude::*;
use vstd::string::StringExecFns;
use crate::protocol::{EncodingPreset, PipelineOptimization};
use crate::text::has_prefix;

verus! {

/// An element of the encoding stage.
#[derive(Debug, PartialEq)]
pub enum PipelineElement {
    /// An element made by a factory, with a name where it gets one.
    Element { factory: String, name: Option<String> },
    /// A caps filter, with its caps as text.
    CapsFilter(String),
}

/// Whether `e` is an element made by `factory`, named `name`.
pub open spec fn element_is(e: PipelineElement, factory: Seq<char>, name: Seq<char>) -> bool {
    e matches PipelineElement::Element { factory: f, name: Some(n) } && f@ == factory && n@ == name
}

/// Whether `e` is a caps filter for `caps`.
pub open spec fn capsfilter_is(e: PipelineElement, caps: Seq<char>) -> bool {
    e matches PipelineElement::CapsFilter(c) && c@ == caps
}

/// The encoder element of a preset.
pub open spec fn encoder_type(preset: EncodingPreset, optimizations: PipelineOptimization) -> Seq<char> {
    match preset {
        EncodingPreset::H264 => match optimizations {
            PipelineOptimization::NVIDIA => "nvh264enc"@,
            PipelineOptimization::Intel => "vah264enc"@,
            PipelineOptimization::AMD => "vah264enc"@,
            _ => "openh264enc"@,
        },
        EncodingPreset::H265 => match optimizations {
            PipelineOptimization::NVIDIA => "nvh265enc"@,
            PipelineOptimization::Intel => "vah265enc"@,
            PipelineOptimization::AMD => "vah265enc"@,
            _ => "x265enc"@,
        },
        EncodingPreset::VP8 => "vp8enc"@,
        EncodingPreset::VP9 => "vp9enc"@,
        _ => "rav1enc"@,
    }
}

/// The RTP payloader element of a preset.
pub open spec fn payloader_type(preset: EncodingPreset) -> Seq<char> {
    match preset {
        EncodingPreset::H264 => "rtph264pay"@,
        EncodingPreset::H265 => "rtph265pay"@,
        EncodingPreset::VP8 => "rtpvp8pay"@,
        EncodingPreset::VP9 => "rtpvp9pay"@,
        _ => "rtpav1pay"@,
    }
}

/// The name under which a preset's codec appears in element names.
pub open spec fn codec_tag(preset: EncodingPreset) -> Seq<char> {
    match preset {
        EncodingPreset::H264 => "264"@,
        EncodingPreset::H265 => "265"@,
        EncodingPreset::VP8 => "vp8"@,
        EncodingPreset::VP9 => "vp9"@,
        _ => "av1"@,
    }
}

/// Whether `t` occurs in `s`.
pub open spec fn contains_text(s: Seq<char>, t: Seq<char>) -> bool {
    exists|i: int| 0 <= i && i + t.len() <= s.len() && #[trigger] s.subrange(i, i + t.len()) == t
}

/// `t` occurs in `s` where it stands at `i`.
pub proof fn lemma_contains_at(s: Seq<char>, t: Seq<char>, i: int)
    requires
        0 <= i,
        i + t.len() <= s.len(),
        s.subrange(i, i + t.len()) =~= t,
    ensures
        contains_text(s, t),
{
}

/// The encoder chosen for a known preset, whatever the hardware, encodes that
/// preset's codec, and so does its payloader: both name the codec.
pub proof fn law_encoder_and_payloader_share_the_codec(preset: EncodingPreset, optimizations: PipelineOptimization)
    requires
        preset != EncodingPreset::Unknown,
    ensures
        contains_text(encoder_type(preset, optimizations), codec_tag(preset)),
        contains_text(payloader_type(preset), codec_tag(preset)),
{
    reveal_strlit("264");
    reveal_strlit("265");
    reveal_strlit("vp8");
    reveal_strlit("vp9");
    reveal_strlit("av1");
    reveal_strlit("nvh264enc");
    reveal_strlit("vah264enc");
    reveal_strlit("openh264enc");
    reveal_strlit("nvh265enc");
    reveal_strlit("vah265enc");
    reveal_strlit("x265enc");
    reveal_strlit("vp8enc");
    reveal_strlit("vp9enc");
    reveal_strlit("rav1enc");
    reveal_strlit("rtph264pay");
    reveal_strlit("rtph265pay");
    reveal_strlit("rtpvp8pay");
    reveal_strlit("rtpvp9pay");
    reveal_strlit("rtpav1pay");
    let e = encoder_type(preset, optimizations);
    let p = payloader_type(preset);
    let t = codec_tag(preset);
    let ei: int = match preset {
        EncodingPreset::H264 => match optimizations {
            PipelineOptimization::NVIDIA => 3,
            PipelineOptimization::Intel => 3,
            PipelineOptimization::AMD => 3,
            _ => 5,
        },
        EncodingPreset::H265 => match optimizations {
            PipelineOptimization::NVIDIA => 3,
            PipelineOptimization::Intel => 3,
            PipelineOptimization::AMD => 3,
            _ => 1,
        },
        EncodingPreset::VP8 => 0,
        EncodingPreset::VP9 => 0,
        _ => 1,
    };
    let pi: int = match preset {
        EncodingPreset::H264 => 4,
        EncodingPreset::H265 => 4,
        _ => 3,
    };
    lemma_contains_at(e, t, ei);
    lemma_contains_at(p, t, pi);
}

/// For H.264 and H.265 the hardware decides the encoder's vendor: NVIDIA's
/// encoders for NVIDIA, VA-API encoders for Intel and AMD, and software
/// encoders, of neither vendor, otherwise.
pub proof fn law_hardware_picks_the_encoder_vendor(preset: EncodingPreset, optimizations: PipelineOptimization)
    requires
        preset == EncodingPreset::H264 || preset == EncodingPreset::H265,
    ensures
        optimizations == PipelineOptimization::NVIDIA <==> has_prefix(encoder_type(preset, optimizations), "nv"@),
        optimizations == PipelineOptimization::Intel || optimizations == PipelineOptimization::AMD <==> has_prefix(
            encoder_type(preset, optimizations),
            "va"@,
        ),
{
    reveal_strlit("nv");
    reveal_strlit("va");
    reveal_strlit("nvh264enc");
    reveal_strlit("vah264enc");
    reveal_strlit("openh264enc");
    reveal_strlit("nvh265enc");
    reveal_strlit("vah265enc");
    reveal_strlit("x265enc");
    let e = encoder_type(preset, optimizations);
    assert(e.subrange(0, 2) =~= seq![e[0], e[1]]);
    assert("nv"@ =~= seq!['n', 'v']);
    assert("va"@ =~= seq!['v', 'a']);
}

/// An element of the encoding stage, by its place.
#[derive(Debug, Clone, Copy, PartialEq, Eq, Structural)]
pub enum ElementRef {
    Prefix(usize),
    Encoder,
    Middle(usize),
    Payloader,
    Suffix(usize),
}

/// A property value.
#[derive(Debug, PartialEq)]
pub enum PropertyValue {
    /// Given as text, for the element to parse.
    Text(String),
    Bool(bool),
    I32(i32),
    U32(u32),
    I64(i64),
}

/// A property set on an element of the encoding stage.
#[derive(Debug, PartialEq)]
pub struct PropertyAssignment {
    pub target: ElementRef,
    pub property: String,
    pub value: PropertyValue,
}

/// Whether `a` sets property `property` of `target` to the text `text`.
pub open spec fn sets_text(a: PropertyAssignment, target: ElementRef, property: Seq<char>, text: Seq<char>) -> bool {
    &&& a.target == target
    &&& a.property@ == property
    &&& a.value matches PropertyValue::Text(t) && t@ == text
}

/// Whether `a` sets property `property` of `target` to `value` (not text).
pub open spec fn sets_value(a: PropertyAssignment, target: ElementRef, property: Seq<char>, value: PropertyValue) -> bool {
    &&& a.target == target
    &&& a.property@ == property
    &&& a.value == value
}

/// A JSON number, as serde_json holds it: a non-negative integer, a negative
/// integer, or a floating-point number (whose value the library does not need).
#[derive(Debug, Clone, Copy, PartialEq, Eq, Structural)]
pub enum JsonNumber {
    PosInt(u64),
    NegInt(i64),
    Float,
}

/// A setting's value: a JSON number, or any other JSON value.
#[derive(Debug, Clone, Copy, PartialEq, Eq, Structural)]
pub enum SettingValue {
    Number(JsonNumber),
    NotANumber,
}

/// The number as a `u64`, where it is one.
pub open spec fn number_as_u64(n: JsonNumber) -> Option<u64> {
    match n {
        JsonNumber::PosInt(v) => Some(v),
        _ => None,
    }
}

/// The number as an `i64`, where it is one.
pub open spec fn number_as_i64(n: JsonNumber) -> Option<i64> {
    match n {
        JsonNumber::PosInt(v) => if v <= i64::MAX { Some(v as i64) } else { None },
        JsonNumber::NegInt(v) => Some(v),
        JsonNumber::Float => None,
    }
}

/// `v` brought within `[lo, hi]`.
pub open spec fn clamped(v: int, lo: int, hi: int) -> int {
    if v < lo { lo } else if v > hi { hi } else { v }
}

/// Whether a preset's encoder takes a target bitrate.
pub open spec fn supports_target_bitrate(p: EncodingPreset) -> bool {
    p == EncodingPreset::H264 || p == EncodingPreset::H265 || p == EncodingPreset::VP8 || p == EncodingPreset::VP9
}

/// Whether a preset's encoder takes a bitrate.
pub open spec fn supports_bitrate(p: EncodingPreset) -> bool {
    supports_target_bitrate(p) || p == EncodingPreset::AV1
}

/// Whether a preset's encoder takes a deadline.
pub open spec fn supports_deadline(p: EncodingPreset) -> bool {
    p == EncodingPreset::VP8 || p == EncodingPreset::VP9
}

/// The default bitrate, for a number that is not a `u64`.
pub const DEFAULT_BITRATE: u64 = 4194304;

/// The encoder property that a setting becomes for a preset, if any: a
/// target bitrate (the number cut to `i32`, then kept within 300 KiB/s and
/// 100 MiB/s), a bitrate (cut to `u32`, same bounds), or a deadline (within
/// 0 and 1000); a number that does not fit stands for 4 MiB/s, or for a
/// deadline of 0. Nothing for an unknown preset, an unsupported key or a
/// value that is not a number.
pub open spec fn setting_property(preset: EncodingPreset, key: Seq<char>, value: SettingValue) -> Option<(Seq<char>, PropertyValue)> {
    match value {
        SettingValue::Number(n) => if preset == EncodingPreset::Unknown {
            None
        } else if key == "target-bitrate"@ && supports_target_bitrate(preset) {
            let raw = match number_as_u64(n) { Some(v) => v, None => DEFAULT_BITRATE };
            Some(("target-bitrate"@, PropertyValue::I32(clamped((raw as i32) as int, 307200, 104857600) as i32)))
        } else if key == "bitrate"@ && supports_bitrate(preset) {
            let raw = match number_as_u64(n) { Some(v) => v, None => DEFAULT_BITRATE };
            Some(("bitrate"@, PropertyValue::U32(clamped((raw as u32) as int, 307200, 104857600) as u32)))
        } else if key == "deadline"@ && supports_deadline(preset) {
            let raw = match number_as_i64(n) { Some(v) => v, None => 0 };
            Some(("deadline"@, PropertyValue::I64(clamped(raw as int, 0, 1000) as i64)))
        } else {
            None
        },
        SettingValue::NotANumber => None,
    }
}

/// Whether `added` are the properties that the defaults set, in order: the
/// payloader's config interval (-1) and payload type (96); then for H.264 in
/// software a rate control mode of 1 and 6 MiB/s, on NVIDIA zero latency,
/// the low-latency preset and the parser's config interval, on AMD the
/// parser's config interval; for H.265 in software 4 MiB/s, on AMD the
/// parser's config interval; for VP8 and VP9 a target bitrate of 6 and
/// 4 MiB/s and a deadline of 0 (AV1's target bitrate is not supported).
pub open spec fn default_settings_ok(preset: EncodingPreset, optimizations: PipelineOptimization, added: Seq<PropertyAssignment>) -> bool {
    let parser_interval = |a: PropertyAssignment, i: usize| sets_value(a, ElementRef::Middle(i), "config-interval"@, PropertyValue::I32(-1i32));
    &&& added.len() >= 2
    &&& sets_text(added[0], ElementRef::Payloader, "config-interval"@, "-1"@)
    &&& sets_text(added[1], ElementRef::Payloader, "pt"@, "96"@)
    &&& match preset {
        EncodingPreset::H264 => match optimizations {
            PipelineOptimization::NoOptimization => {
                &&& added.len() == 4
                &&& sets_text(added[2], ElementRef::Encoder, "rate-control"@, "1"@)
                &&& sets_value(added[3], ElementRef::Encoder, "bitrate"@, PropertyValue::U32(6291456))
            },
            PipelineOptimization::NVIDIA => {
                &&& added.len() == 5
                &&& sets_value(added[2], ElementRef::Encoder, "zerolatency"@, PropertyValue::Bool(true))
                &&& sets_text(added[3], ElementRef::Encoder, "preset"@, "low-latency-hp"@)
                &&& parser_interval(added[4], 1)
            },
            PipelineOptimization::AMD => added.len() == 3 && parser_interval(added[2], 0),
            _ => added.len() == 2,
        },
        EncodingPreset::H265 => match optimizations {
            PipelineOptimization::NoOptimization => {
                &&& added.len() == 3
                &&& sets_value(added[2], ElementRef::Encoder, "bitrate"@, PropertyValue::U32(4194304))
            },
            PipelineOptimization::AMD => added.len() == 3 && parser_interval(added[2], 0),
            _ => added.len() == 2,
        },
        EncodingPreset::VP8 => {
            &&& added.len() == 4
            &&& sets_value(added[2], ElementRef::Encoder, "target-bitrate"@, PropertyValue::I32(6291456))
            &&& sets_value(added[3], ElementRef::Encoder, "deadline"@, PropertyValue::I64(0))
        },
        EncodingPreset::VP9 => {
            &&& added.len() == 4
            &&& sets_value(added[2], ElementRef::Encoder, "target-bitrate"@, PropertyValue::I32(4194304))
            &&& sets_value(added[3], ElementRef::Encoder, "deadline"@, PropertyValue::I64(0))
        },
        _ => added.len() == 2,
    }
}

/// The encoder property that a setting becomes for a preset, if any (see
/// `setting_property`).
pub fn setting_assignment(preset: EncodingPreset, key: &str, value: SettingValue) -> (r: Option<PropertyAssignment>)
    ensures
        match setting_property(preset, key@, value) {
            Some((name, v)) => r is Some && sets_value(r.unwrap(), ElementRef::Encoder, name, v),
            None => r is None,
        },
{
    proof {
        reveal_strlit("target-bitrate");
        reveal_strlit("bitrate");
        reveal_strlit("deadline");
        assert("target-bitrate"@.len() != "bitrate"@.len());
        assert("target-bitrate"@.len() != "deadline"@.len());
        assert("bitrate"@.len() != "deadline"@.len());
    }
    let n = match value {
        SettingValue::Number(n) => n,
        SettingValue::NotANumber => {
            return None;
        },
    };
    if preset == EncodingPreset::Unknown {
        return None;
    }
    let p = preset;
    let targets = p == EncodingPreset::H264 || p == EncodingPreset::H265 || p == EncodingPreset::VP8
        || p == EncodingPreset::VP9;
    if crate::text::str_eq(key, "target-bitrate") {
        if targets {
            let raw: u64 = match n {
                JsonNumber::PosInt(v) => v,
                _ => DEFAULT_BITRATE,
            };
            let cut: i32 = raw as i32;
            let b: i32 = if cut < 307200 { 307200 } else if cut > 104857600 { 104857600 } else { cut };
            return Some(
                PropertyAssignment {
                    target: ElementRef::Encoder,
                    property: String::from_str("target-bitrate"),
                    value: PropertyValue::I32(b),
                },
            );
        }
    } else if crate::text::str_eq(key, "bitrate") {
        if targets || p == EncodingPreset::AV1 {
            let raw: u64 = match n {
                JsonNumber::PosInt(v) => v,
                _ => DEFAULT_BITRATE,
            };
            let cut: u32 = raw as u32;
            let b: u32 = if cut < 307200 { 307200 } else if cut > 104857600 { 104857600 } else { cut };
            return Some(
                PropertyAssignment {
                    target: ElementRef::Encoder,
                    property: String::from_str("bitrate"),
                    value: PropertyValue::U32(b),
                },
            );
        }
    } else if crate::text::str_eq(key, "deadline") {
        if p == EncodingPreset::VP8 || p == EncodingPreset::VP9 {
            let raw: i64 = match n {
                JsonNumber::PosInt(v) => if v <= 9223372036854775807u64 { v as i64 } else { 0 },
                JsonNumber::NegInt(v) => v,
                JsonNumber::Float => 0,
            };
            let d: i64 = if raw < 0 { 0 } else if raw > 1000 { 1000 } else { raw };
            return Some(
                PropertyAssignment {
                    target: ElementRef::Encoder,
                    property: String::from_str("deadline"),
                    value: PropertyValue::I64(d),
                },
            );
        }
    }
    None
}

/// A property set to a value that is not text.
fn value_property(target: ElementRef, property: &str, value: PropertyValue) -> (r: PropertyAssignment)
    ensures
        sets_value(r, target, property@, value),
{
    PropertyAssignment { target, property: String::from_str(property), value }
}

/// Appends the property that a setting becomes, if any.
fn push_setting(list: &mut Vec<PropertyAssignment>, preset: EncodingPreset, key: &str, value: SettingValue)
    ensures
        match setting_property(preset, key@, value) {
            Some((name, v)) => {
                &&& final(list)@ == old(list)@.push(final(list)@.last())
                &&& sets_value(final(list)@.last(), ElementRef::Encoder, name, v)
            },
            None => final(list)@ == old(list)@,
        },
{
    match setting_assignment(preset, key, value) {
        Some(a) => {
            list.push(a);
        },
        None => {},
    }
}

/// The properties that the defaults set for a preset and optimisations.
pub fn default_assignments(preset: EncodingPreset, optimizations: PipelineOptimization) -> (r: Vec<PropertyAssignment>)
    ensures
        default_settings_ok(preset, optimizations, r@),
{
    proof {
        reveal_strlit("target-bitrate");
        reveal_strlit("bitrate");
        reveal_strlit("deadline");
        assert("target-bitrate"@.len() != "bitrate"@.len());
        assert("target-bitrate"@.len() != "deadline"@.len());
        assert("bitrate"@.len() != "deadline"@.len());
        assert(6291456u64 as u32 == 6291456u32) by (bit_vector);
        assert(4194304u64 as u32 == 4194304u32) by (bit_vector);
        assert(6291456u64 as i32 == 6291456i32) by (bit_vector);
        assert(4194304u64 as i32 == 4194304i32) by (bit_vector);
    }
    let mut added: Vec<PropertyAssignment> = Vec::new();
    added.push(text_property(ElementRef::Payloader, "config-interval", "-1"));
    added.push(text_property(ElementRef::Payloader, "pt", "96"));
    match preset {
        EncodingPreset::H264 => {
            if optimizations == PipelineOptimization::NoOptimization {
                added.push(text_property(ElementRef::Encoder, "rate-control", "1"));
                push_setting(&mut added, preset, "bitrate", SettingValue::Number(JsonNumber::PosInt(6291456)));
            } else if optimizations == PipelineOptimization::NVIDIA {
                added.push(value_property(ElementRef::Encoder, "zerolatency", PropertyValue::Bool(true)));
                added.push(text_property(ElementRef::Encoder, "preset", "low-latency-hp"));
                added.push(value_property(ElementRef::Middle(1), "config-interval", PropertyValue::I32(-1)));
            } else if optimizations == PipelineOptimization::AMD {
                added.push(value_property(ElementRef::Middle(0), "config-interval", PropertyValue::I32(-1)));
            }
        },
        EncodingPreset::H265 => {
            if optimizations == PipelineOptimization::NoOptimization {
                push_setting(&mut added, preset, "bitrate", SettingValue::Number(JsonNumber::PosInt(4194304)));
            } else if optimizations == PipelineOptimization::AMD {
                added.push(value_property(ElementRef::Middle(0), "config-interval", PropertyValue::I32(-1)));
            }
        },
        EncodingPreset::VP8 => {
            push_setting(&mut added, preset, "target-bitrate", SettingValue::Number(JsonNumber::PosInt(6291456)));
        },
        EncodingPreset::VP9 => {
            push_setting(&mut added, preset, "target-bitrate", SettingValue::Number(JsonNumber::PosInt(4194304)));
        },
        EncodingPreset::AV1 => {
            push_setting(&mut added, preset, "target-bitrate", SettingValue::Number(JsonNumber::PosInt(4194304)));
        },
        EncodingPreset::Unknown => {},
    }
    if preset == EncodingPreset::VP8 || preset == EncodingPreset::VP9 {
        push_setting(&mut added, preset, "deadline", SettingValue::Number(JsonNumber::PosInt(0)));
    }
    added
}

/// Whatever a setting holds, the bitrate given to an encoder stays within
/// 300 KiB/s and 100 MiB/s, and a deadline within 0 and 1000.
pub proof fn law_settings_within_bounds(preset: EncodingPreset, key: Seq<char>, value: SettingValue)
    ensures
        match setting_property(preset, key, value) {
            Some((_, PropertyValue::I32(b))) => 307200 <= b <= 104857600,
            Some((_, PropertyValue::U32(b))) => 307200 <= b <= 104857600,
            Some((_, PropertyValue::I64(d))) => 0 <= d <= 1000,
            _ => true,
        },
{
}

/// The value recorded for `key`: that of its first entry.
pub open spec fn recorded(entries: Seq<(Seq<char>, SettingValue)>, key: Seq<char>) -> Option<SettingValue>
    decreases entries.len(),
{
    if entries.len() == 0 {
        None
    } else if entries[0].0 == key {
        Some(entries[0].1)
    } else {
        recorded(entries.drop_first(), key)
    }
}

/// The first entry of a key gives its value.
proof fn lemma_recorded_first(v: Seq<(Seq<char>, SettingValue)>, i: int, key: Seq<char>)
    requires
        0 <= i < v.len(),
        v[i].0 == key,
        forall|j: int| 0 <= j < i ==> #[trigger] v[j].0 != key,
    ensures
        recorded(v, key) == Some(v[i].1),
    decreases v.len(),
{
    if i > 0 {
        assert(v[0].0 != key);
        assert forall|j: int| 0 <= j < i - 1 implies #[trigger] v.drop_first()[j].0 != key by {
            assert(v[j + 1].0 != key);
        }
        lemma_recorded_first(v.drop_first(), i - 1, key);
    }
}

/// Replacing the first entry of a key changes only that key's value.
proof fn lemma_recorded_update(v: Seq<(Seq<char>, SettingValue)>, i: int, key: Seq<char>, x: SettingValue)
    requires
        0 <= i < v.len(),
        v[i].0 == key,
        forall|j: int| 0 <= j < i ==> #[trigger] v[j].0 != key,
    ensures
        recorded(v.update(i, (key, x)), key) == Some(x),
        forall|k: Seq<char>| k != key ==> #[trigger] recorded(v.update(i, (key, x)), k) == recorded(v, k),
    decreases v.len(),
{
    let u = v.update(i, (key, x));
    if i > 0 {
        assert(v[0].0 != key);
        assert forall|j: int| 0 <= j < i - 1 implies #[trigger] v.drop_first()[j].0 != key by {
            assert(v[j + 1].0 != key);
        }
        lemma_recorded_update(v.drop_first(), i - 1, key, x);
        assert(u.drop_first() =~= v.drop_first().update(i - 1, (key, x)));
        assert(u[0] == v[0]);
        assert forall|k: Seq<char>| k != key implies #[trigger] recorded(u, k) == recorded(v, k) by {
            if v[0].0 != k {
                assert(recorded(u.drop_first(), k) == recorded(v.drop_first(), k));
            }
        }
    } else {
        assert(u.drop_first() =~= v.drop_first());
        assert forall|k: Seq<char>| k != key implies #[trigger] recorded(u, k) == recorded(v, k) by {}
    }
}

/// Appending an entry for a key not recorded gives it that value, and no
/// other key changes.
proof fn lemma_recorded_push(v: Seq<(Seq<char>, SettingValue)>, key: Seq<char>, x: SettingValue)
    requires
        recorded(v, key) is None,
    ensures
        recorded(v.push((key, x)), key) == Some(x),
        forall|k: Seq<char>| k != key ==> #[trigger] recorded(v.push((key, x)), k) == recorded(v, k),
    decreases v.len(),
{
    let u = v.push((key, x));
    if v.len() > 0 {
        lemma_recorded_push(v.drop_first(), key, x);
        assert(u.drop_first() =~= v.drop_first().push((key, x)));
        assert(u[0] == v[0]);
        assert forall|k: Seq<char>| k != key implies #[trigger] recorded(u, k) == recorded(v, k) by {
            if v[0].0 != k {
                assert(recorded(u.drop_first(), k) == recorded(v.drop_first(), k));
            }
        }
    } else {
        assert(u.drop_first() =~= Seq::<(Seq<char>, SettingValue)>::empty());
        assert forall|k: Seq<char>| k != key implies #[trigger] recorded(u, k) == recorded(v, k) by {
            assert(recorded(u.drop_first(), k) is None);
        }
    }
}

/// The raw settings that the defaults record for a preset and optimisations:
/// the bitrate of H.264 (6 MiB/s) and H.265 (4 MiB/s) in software, the target
/// bitrate of VP8 (6 MiB/s), VP9 and AV1 (4 MiB/s), and a deadline of 0 for
/// VP8 and VP9; nothing else.
pub open spec fn default_setting(preset: EncodingPreset, optimizations: PipelineOptimization, key: Seq<char>) -> Option<SettingValue> {
    let n = |v: u64| Some(SettingValue::Number(JsonNumber::PosInt(v)));
    match preset {
        EncodingPreset::H264 => if optimizations == PipelineOptimization::NoOptimization && key == "bitrate"@ {
            n(6291456)
        } else {
            None
        },
        EncodingPreset::H265 => if optimizations == PipelineOptimization::NoOptimization && key == "bitrate"@ {
            n(4194304)
        } else {
            None
        },
        EncodingPreset::VP8 => if key == "target-bitrate"@ {
            n(6291456)
        } else if key == "deadline"@ {
            n(0)
        } else {
            None
        },
        EncodingPreset::VP9 => if key == "target-bitrate"@ {
            n(4194304)
        } else if key == "deadline"@ {
            n(0)
        } else {
            None
        },
        EncodingPreset::AV1 => if key == "target-bitrate"@ {
            n(4194304)
        } else {
            None
        },
        EncodingPreset::Unknown => None,
    }
}

/// The encoding stage of the streamer: its encoder and payloader, the
/// elements before the encoder, between the two, and after the payloader,
/// its preset, the optimisations configured, and every property set so far.
#[derive(Debug)]
pub struct WebRTCPreprocessor {
    pub encoder: PipelineElement,
    pub payloader: PipelineElement,
    pub extra_prefix_elements: Vec<PipelineElement>,
    pub extra_middle_elements: Vec<PipelineElement>,
    pub extra_suffix_elements: Vec<PipelineElement>,
    pub preset: EncodingPreset,
    pub config_optimizations: Option<PipelineOptimization>,
    pub properties: Vec<PropertyAssignment>,
    /// Every setting given, by key, with its raw value (the latest for a key).
    pub settings: Vec<(String, SettingValue)>,
}

/// A named element.
fn named(factory: &str, name: &str) -> (r: PipelineElement)
    ensures
        element_is(r, factory@, name@),
{
    PipelineElement::Element { factory: String::from_str(factory), name: Some(String::from_str(name)) }
}

/// A caps filter.
fn caps(text: &str) -> (r: PipelineElement)
    ensures
        capsfilter_is(r, text@),
{
    PipelineElement::CapsFilter(String::from_str(text))
}

/// A property set to text.
fn text_property(target: ElementRef, property: &str, text: &str) -> (r: PropertyAssignment)
    ensures
        sets_text(r, target, property@, text@),
{
    PropertyAssignment { target, property: String::from_str(property), value: PropertyValue::Text(String::from_str(text)) }
}

impl WebRTCPreprocessor {
    /// The raw value recorded for a setting's key, if any.
    pub open spec fn setting(self, key: Seq<char>) -> Option<SettingValue> {
        recorded(self.settings@.map_values(|e: (String, SettingValue)| (e.0@, e.1)), key)
    }

    /// The position of the first record of `key`, if any.
    fn setting_position(&self, key: &str) -> (r: Option<usize>)
        ensures
            match r {
                Some(i) => i < self.settings@.len() && self.settings@[i as int].0@ == key@ && (forall|j: int|
                    0 <= j < i ==> #[trigger] self.settings@[j].0@ != key@),
                None => self.setting(key@) is None,
            },
    {
        let ghost v = self.settings@.map_values(|e: (String, SettingValue)| (e.0@, e.1));
        let mut i: usize = 0;
        assert(v.skip(0) =~= v);
        while i < self.settings.len()
            invariant
                i <= v.len(),
                v == self.settings@.map_values(|e: (String, SettingValue)| (e.0@, e.1)),
                v.len() == self.settings@.len(),
                recorded(v, key@) == recorded(v.skip(i as int), key@),
                forall|j: int| 0 <= j < i ==> #[trigger] self.settings@[j].0@ != key@,
            decreases v.len() - i,
        {
            assert(v.skip(i as int)[0] == v[i as int]);
            if crate::text::str_eq(self.settings[i].0.as_str(), key) {
                return Some(i);
            }
            assert(v.skip(i as int).drop_first() =~= v.skip(i + 1));
            i = i + 1;
        }
        assert(v.skip(i as int) =~= Seq::<(Seq<char>, SettingValue)>::empty());
        None
    }

    /// Records `value` under `key`, replacing an earlier value; nothing else changes.
    fn record_setting(&mut self, key: &str, value: SettingValue)
        ensures
            final(self).setting(key@) == Some(value),
            forall|k: Seq<char>| k != key@ ==> #[trigger] final(self).setting(k) == old(self).setting(k),
            final(self).encoder == old(self).encoder,
            final(self).payloader == old(self).payloader,
            final(self).extra_prefix_elements == old(self).extra_prefix_elements,
            final(self).extra_middle_elements == old(self).extra_middle_elements,
            final(self).extra_suffix_elements == old(self).extra_suffix_elements,
            final(self).preset == old(self).preset,
            final(self).config_optimizations == old(self).config_optimizations,
            final(self).properties == old(self).properties,
    {
        let ghost v0 = self.settings@.map_values(|e: (String, SettingValue)| (e.0@, e.1));
        match self.setting_position(key) {
            Some(i) => {
                self.settings.set(i, (String::from_str(key), value));
                proof {
                    assert forall|j: int| 0 <= j < i implies #[trigger] v0[j].0 != key@ by {
                        assert(old(self).settings@[j].0@ != key@);
                    }
                    lemma_recorded_update(v0, i as int, key@, value);
                    assert(self.settings@.map_values(|e: (String, SettingValue)| (e.0@, e.1)) =~= v0.update(
                        i as int,
                        (key@, value),
                    ));
                }
            },
            None => {
                self.settings.push((String::from_str(key), value));
                proof {
                    lemma_recorded_push(v0, key@, value);
                    assert(self.settings@.map_values(|e: (String, SettingValue)| (e.0@, e.1)) =~= v0.push(
                        (key@, value),
                    ));
                }
            },
        }
    }

    /// The encoder element of a preset, with vendor encoders for NVIDIA, Intel
    /// and AMD. A preset must be known.
    pub fn get_encoder_element_type(preset: EncodingPreset, optimizations: PipelineOptimization) -> (r: String)
        requires
            preset != EncodingPreset::Unknown,
        ensures
            r@ == encoder_type(preset, optimizations),
    {
        let t = match preset {
            EncodingPreset::H264 => match optimizations {
                PipelineOptimization::NVIDIA => "nvh264enc",
                PipelineOptimization::Intel => "vah264enc",
                PipelineOptimization::AMD => "vah264enc",
                _ => "openh264enc",
            },
            EncodingPreset::H265 => match optimizations {
                PipelineOptimization::NVIDIA => "nvh265enc",
                PipelineOptimization::Intel => "vah265enc",
                PipelineOptimization::AMD => "vah265enc",
                _ => "x265enc",
            },
            EncodingPreset::VP8 => "vp8enc",
            EncodingPreset::VP9 => "vp9enc",
            _ => "rav1enc",
        };
        String::from_str(t)
    }

    /// The software encoder element of a preset. A preset must be known.
    pub fn get_encoder_element_type_simple(preset: EncodingPreset) -> (r: String)
        requires
            preset != EncodingPreset::Unknown,
        ensures
            r@ == encoder_type(preset, PipelineOptimization::NoOptimization),
    {
        Self::get_encoder_element_type(preset, PipelineOptimization::NoOptimization)
    }

    /// The RTP payloader element of a preset, whatever the optimisations. A
    /// preset must be known.
    pub fn get_payloader_element_type(preset: EncodingPreset, optimizations: PipelineOptimization) -> (r: String)
        requires
            preset != EncodingPreset::Unknown,
        ensures
            r@ == payloader_type(preset),
    {
        let t = match preset {
            EncodingPreset::H264 => "rtph264pay",
            EncodingPreset::H265 => "rtph265pay",
            EncodingPreset::VP8 => "rtpvp8pay",
            EncodingPreset::VP9 => "rtpvp9pay",
            _ => "rtpav1pay",
        };
        String::from_str(t)
    }

    /// The RTP payloader element of a preset. A preset must be known.
    pub fn get_payloader_element_type_simple(preset: EncodingPreset) -> (r: String)
        requires
            preset != EncodingPreset::Unknown,
        ensures
            r@ == payloader_type(preset),
    {
        Self::get_payloader_element_type(preset, PipelineOptimization::NoOptimization)
    }

    /// An encoding stage of a given encoder and payloader, with no other
    /// element, an unknown preset and no configuration.
    pub fn new(encoder: PipelineElement, payloader: PipelineElement) -> (r: WebRTCPreprocessor)
        ensures
            r.encoder == encoder,
            r.payloader == payloader,
            r.extra_prefix_elements@.len() == 0,
            r.extra_middle_elements@.len() == 0,
            r.extra_suffix_elements@.len() == 0,
            r.preset == EncodingPreset::Unknown,
            r.config_optimizations is None,
            r.properties@.len() == 0,
            forall|k: Seq<char>| #[trigger] r.setting(k) is None,
    {
        WebRTCPreprocessor {
            encoder,
            payloader,
            extra_prefix_elements: Vec::new(),
            extra_middle_elements: Vec::new(),
            extra_suffix_elements: Vec::new(),
            preset: EncodingPreset::Unknown,
            config_optimizations: None,
            properties: Vec::new(),
            settings: Vec::new(),
        }
    }

    /// The encoding stage of a preset. NVIDIA and AMD first convert to NV12;
    /// NVIDIA's H.264 and H.265 encoders are followed by a main-profile
    /// byte-stream caps filter and a parser, AMD's by a parser; H.264 and
    /// H.265 end in an RTP caps filter with payload type 96. A preset must be known.
    pub fn new_preset(preset: EncodingPreset, optimizations: PipelineOptimization) -> (r: WebRTCPreprocessor)
        requires
            preset != EncodingPreset::Unknown,
        ensures
            element_is(r.encoder, encoder_type(preset, optimizations), "encoder"@),
            element_is(r.payloader, payloader_type(preset), "payloader"@),
            r.preset == preset,
            r.config_optimizations is None,
            r.properties@.len() == 0,
            forall|k: Seq<char>| #[trigger] r.setting(k) is None,
            if optimizations == PipelineOptimization::NVIDIA || optimizations == PipelineOptimization::AMD {
                &&& r.extra_prefix_elements@.len() == 2
                &&& element_is(r.extra_prefix_elements@[0], "videoconvert"@, "nvvideoconverter"@)
                &&& capsfilter_is(r.extra_prefix_elements@[1], "video/x-raw,format=NV12"@)
            } else {
                r.extra_prefix_elements@.len() == 0
            },
            if optimizations == PipelineOptimization::NVIDIA && preset == EncodingPreset::H264 {
                &&& r.extra_middle_elements@.len() == 2
                &&& capsfilter_is(r.extra_middle_elements@[0], "video/x-h264,stream-format=byte-stream,profile=main"@)
                &&& element_is(r.extra_middle_elements@[1], "h264parse"@, "parser"@)
            } else if optimizations == PipelineOptimization::NVIDIA && preset == EncodingPreset::H265 {
                &&& r.extra_middle_elements@.len() == 2
                &&& capsfilter_is(r.extra_middle_elements@[0], "video/x-h265,stream-format=byte-stream,profile=main"@)
                &&& element_is(r.extra_middle_elements@[1], "h265parse"@, "parser"@)
            } else if optimizations == PipelineOptimization::AMD && preset == EncodingPreset::H264 {
                &&& r.extra_middle_elements@.len() == 1
                &&& element_is(r.extra_middle_elements@[0], "h264parse"@, "parser"@)
            } else if optimizations == PipelineOptimization::AMD && preset == EncodingPreset::H265 {
                &&& r.extra_middle_elements@.len() == 1
                &&& element_is(r.extra_middle_elements@[0], "h265parse"@, "parser"@)
            } else {
                r.extra_middle_elements@.len() == 0
            },
            if preset == EncodingPreset::H264 {
                &&& r.extra_suffix_elements@.len() == 1
                &&& capsfilter_is(r.extra_suffix_elements@[0], "application/x-rtp,media=video,encoding-name=H264,payload=96"@)
            } else if preset == EncodingPreset::H265 {
                &&& r.extra_suffix_elements@.len() == 1
                &&& capsfilter_is(r.extra_suffix_elements@[0], "application/x-rtp,media=video,encoding-name=H265,payload=96"@)
            } else {
                r.extra_suffix_elements@.len() == 0
            },
    {
        let mut prefix: Vec<PipelineElement> = Vec::new();
        let mut middle: Vec<PipelineElement> = Vec::new();
        let mut suffix: Vec<PipelineElement> = Vec::new();
        let encoder_el_type = Self::get_encoder_element_type(preset, optimizations);
        let payloader_el_type = Self::get_payloader_element_type(preset, optimizations);
        if optimizations == PipelineOptimization::NVIDIA || optimizations == PipelineOptimization::AMD {
            prefix.push(named("videoconvert", "nvvideoconverter"));
            prefix.push(caps("video/x-raw,format=NV12"));
        }
        if optimizations == PipelineOptimization::NVIDIA {
            if preset == EncodingPreset::H264 {
                middle.push(caps("video/x-h264,stream-format=byte-stream,profile=main"));
                middle.push(named("h264parse", "parser"));
            } else if preset == EncodingPreset::H265 {
                middle.push(caps("video/x-h265,stream-format=byte-stream,profile=main"));
                middle.push(named("h265parse", "parser"));
            }
        } else if optimizations == PipelineOptimization::AMD {
            if preset == EncodingPreset::H264 {
                middle.push(named("h264parse", "parser"));
            } else if preset == EncodingPreset::H265 {
                middle.push(named("h265parse", "parser"));
            }
        }
        if preset == EncodingPreset::H264 {
            suffix.push(caps("application/x-rtp,media=video,encoding-name=H264,payload=96"));
        } else if preset == EncodingPreset::H265 {
            suffix.push(caps("application/x-rtp,media=video,encoding-name=H265,payload=96"));
        }
        WebRTCPreprocessor {
            encoder: named(encoder_el_type.as_str(), "encoder"),
            payloader: named(payloader_el_type.as_str(), "payloader"),
            extra_prefix_elements: prefix,
            extra_middle_elements: middle,
            extra_suffix_elements: suffix,
            preset,
            config_optimizations: None,
            properties: Vec::new(),
            settings: Vec::new(),
        }
    }

    /// Records the optimisations that the streamer was configured with.
    pub fn set_config(&mut self, optimizations: PipelineOptimization)
        ensures
            *final(self) == (WebRTCPreprocessor { config_optimizations: Some(optimizations), ..*old(self) }),
    {
        self.config_optimizations = Some(optimizations);
    }

    /// The optimisations configured: none before a configuration is set.
    pub open spec fn optimizations_of(self) -> PipelineOptimization {
        match self.config_optimizations {
            Some(o) => o,
            None => PipelineOptimization::NoOptimization,
        }
    }

    /// The optimisations configured: none before a configuration is set.
    pub fn get_optimizations(&self) -> (r: PipelineOptimization)
        ensures
            r == self.optimizations_of(),
    {
        match self.config_optimizations {
            Some(o) => o,
            None => PipelineOptimization::NoOptimization,
        }
    }

    /// The elements of the stage in link order: the prefix elements, the
    /// encoder, the middle elements, the payloader, the suffix elements.
    pub open spec fn chain(self) -> Seq<ElementRef> {
        Seq::new(self.extra_prefix_elements@.len() as nat, |i: int| ElementRef::Prefix(i as usize))
            .push(ElementRef::Encoder)
            + Seq::new(self.extra_middle_elements@.len() as nat, |i: int| ElementRef::Middle(i as usize))
            .push(ElementRef::Payloader)
            + Seq::new(self.extra_suffix_elements@.len() as nat, |i: int| ElementRef::Suffix(i as usize))
    }

    /// The elements of the stage in the order they are linked after the
    /// element it is attached to (and visited, and set playing).
    pub fn link_order(&self) -> (r: Vec<ElementRef>)
        ensures
            r@ == self.chain(),
    {
        let mut out: Vec<ElementRef> = Vec::new();
        let mut i: usize = 0;
        while i < self.extra_prefix_elements.len()
            invariant
                i <= self.extra_prefix_elements@.len(),
                out@ == Seq::new(i as nat, |k: int| ElementRef::Prefix(k as usize)),
            decreases self.extra_prefix_elements@.len() - i,
        {
            out.push(ElementRef::Prefix(i));
            i = i + 1;
            assert(out@ =~= Seq::new(i as nat, |k: int| ElementRef::Prefix(k as usize)));
        }
        out.push(ElementRef::Encoder);
        let ghost head = out@;
        let mut j: usize = 0;
        while j < self.extra_middle_elements.len()
            invariant
                j <= self.extra_middle_elements@.len(),
                out@ == head + Seq::new(j as nat, |k: int| ElementRef::Middle(k as usize)),
            decreases self.extra_middle_elements@.len() - j,
        {
            out.push(ElementRef::Middle(j));
            j = j + 1;
            assert(out@ =~= head + Seq::new(j as nat, |k: int| ElementRef::Middle(k as usize)));
        }
        out.push(ElementRef::Payloader);
        let ghost body = out@;
        let mut k: usize = 0;
        while k < self.extra_suffix_elements.len()
            invariant
                k <= self.extra_suffix_elements@.len(),
                out@ == body + Seq::new(k as nat, |m: int| ElementRef::Suffix(m as usize)),
            decreases self.extra_suffix_elements@.len() - k,
        {
            out.push(ElementRef::Suffix(k));
            k = k + 1;
            assert(out@ =~= body + Seq::new(k as nat, |m: int| ElementRef::Suffix(m as usize)));
        }
        assert(out@ =~= self.chain());
        out
    }

    /// The element that the rest of the pipeline links to: the last suffix
    /// element, or the payloader where there is none.
    pub fn get_last_element(&self) -> (r: ElementRef)
        ensures
            r == (if self.extra_suffix_elements@.len() > 0 {
                ElementRef::Suffix((self.extra_suffix_elements@.len() - 1) as usize)
            } else {
                ElementRef::Payloader
            }),
    {
        if self.extra_suffix_elements.len() > 0 {
            ElementRef::Suffix(self.extra_suffix_elements.len() - 1)
        } else {
            ElementRef::Payloader
        }
    }

    /// Sets the default properties (see `default_settings_ok`), for the
    /// configured optimisations. The parser they address must be there.
    pub fn set_default_settings(&mut self)
        requires
            old(self).preset == EncodingPreset::H264 && old(self).optimizations_of() == PipelineOptimization::NVIDIA
                ==> old(self).extra_middle_elements@.len() > 1,
            (old(self).preset == EncodingPreset::H264 || old(self).preset == EncodingPreset::H265)
                && old(self).optimizations_of() == PipelineOptimization::AMD ==> old(
                self,
            ).extra_middle_elements@.len() > 0,
        ensures
            final(self).encoder == old(self).encoder,
            final(self).payloader == old(self).payloader,
            final(self).extra_prefix_elements == old(self).extra_prefix_elements,
            final(self).extra_middle_elements == old(self).extra_middle_elements,
            final(self).extra_suffix_elements == old(self).extra_suffix_elements,
            final(self).preset == old(self).preset,
            final(self).config_optimizations == old(self).config_optimizations,
            final(self).properties@.len() >= old(self).properties@.len(),
            final(self).properties@.take(old(self).properties@.len() as int) == old(self).properties@,
            default_settings_ok(
                old(self).preset,
                old(self).optimizations_of(),
                final(self).properties@.skip(old(self).properties@.len() as int),
            ),
            forall|k: Seq<char>| #[trigger] final(self).setting(k) == (match default_setting(
                old(self).preset,
                old(self).optimizations_of(),
                k,
            ) {
                Some(v) => Some(v),
                None => old(self).setting(k),
            }),
    {
        proof {
            reveal_strlit("target-bitrate");
            reveal_strlit("bitrate");
            reveal_strlit("deadline");
            assert("target-bitrate"@.len() != "bitrate"@.len());
            assert("target-bitrate"@.len() != "deadline"@.len());
            assert("bitrate"@.len() != "deadline"@.len());
        }
        let optimizations = self.get_optimizations();
        let mut added = default_assignments(self.preset, optimizations);
        let ghost start = self.properties@;
        let ghost list = added@;
        self.properties.append(&mut added);
        assert(self.properties@.take(start.len() as int) =~= start);
        assert(self.properties@.skip(start.len() as int) =~= list);
        match self.preset {
            EncodingPreset::H264 => {
                if optimizations == PipelineOptimization::NoOptimization {
                    self.record_setting("bitrate", SettingValue::Number(JsonNumber::PosInt(6291456)));
                }
            },
            EncodingPreset::H265 => {
                if optimizations == PipelineOptimization::NoOptimization {
                    self.record_setting("bitrate", SettingValue::Number(JsonNumber::PosInt(4194304)));
                }
            },
            EncodingPreset::VP8 => {
                self.record_setting("target-bitrate", SettingValue::Number(JsonNumber::PosInt(6291456)));
                self.record_setting("deadline", SettingValue::Number(JsonNumber::PosInt(0)));
            },
            EncodingPreset::VP9 => {
                self.record_setting("target-bitrate", SettingValue::Number(JsonNumber::PosInt(4194304)));
                self.record_setting("deadline", SettingValue::Number(JsonNumber::PosInt(0)));
            },
            EncodingPreset::AV1 => {
                self.record_setting("target-bitrate", SettingValue::Number(JsonNumber::PosInt(4194304)));
            },
            EncodingPreset::Unknown => {},
        }
    }

    /// Applies a setting to the encoder (see `setting_property`): the
    /// property it becomes, if any, is appended to those set, and the raw
    /// value is recorded under its key whatever the preset.
    pub fn set_setting(&mut self, key: &str, value: SettingValue)
        ensures
            final(self).encoder == old(self).encoder,
            final(self).payloader == old(self).payloader,
            final(self).extra_prefix_elements == old(self).extra_prefix_elements,
            final(self).extra_middle_elements == old(self).extra_middle_elements,
            final(self).extra_suffix_elements == old(self).extra_suffix_elements,
            final(self).preset == old(self).preset,
            final(self).config_optimizations == old(self).config_optimizations,
            match setting_property(old(self).preset, key@, value) {
                Some((name, v)) => {
                    &&& final(self).properties@.len() == old(self).properties@.len() + 1
                    &&& final(self).properties@.take(old(self).properties@.len() as int) == old(self).properties@
                    &&& sets_value(final(self).properties@.last(), ElementRef::Encoder, name, v)
                },
                None => final(self).properties@ == old(self).properties@,
            },
            final(self).setting(key@) == Some(value),
            forall|k: Seq<char>| k != key@ ==> #[trigger] final(self).setting(k) == old(self).setting(k),
    {
        match setting_assignment(self.preset, key, value) {
            Some(a) => self.properties.push(a),
            None => {},
        }
        self.record_setting(key, value);
    }
}


/// The stage is linked as one chain holding every element once: the encoder
/// first among the codec elements and the payloader after it, and the chain
/// ends at the element that the rest of the pipeline links to.
pub proof fn law_chain_ends_at_last_element(p: WebRTCPreprocessor)
    ensures
        ({
            let c = p.chain();
            let np = p.extra_prefix_elements@.len();
            let nm = p.extra_middle_elements@.len();
            let ns = p.extra_suffix_elements@.len();
            &&& c.len() == np + nm + ns + 2
            &&& c[np as int] == ElementRef::Encoder
            &&& c[(np + nm + 1) as int] == ElementRef::Payloader
            &&& c.last() == (if ns > 0 { ElementRef::Suffix((ns - 1) as usize) } else { ElementRef::Payloader })
            &&& forall|i: int| 0 <= i < c.len() && i != np ==> c[i] != ElementRef::Encoder
            &&& forall|i: int| 0 <= i < c.len() && i != np + nm + 1 ==> c[i] != ElementRef::Payloader
        }),
{
    let c = p.chain();
    let np = p.extra_prefix_elements@.len();
    let nm = p.extra_middle_elements@.len();
    let ns = p.extra_suffix_elements@.len();
    let a = Seq::new(np as nat, |i: int| ElementRef::Prefix(i as usize)).push(ElementRef::Encoder);
    let b = Seq::new(nm as nat, |i: int| ElementRef::Middle(i as usize)).push(ElementRef::Payloader);
    let d = Seq::new(ns as nat, |i: int| ElementRef::Suffix(i as usize));
    assert(c == a + b + d);
    assert forall|i: int| 0 <= i < c.len() && i != np implies c[i] != ElementRef::Encoder by {
        if i < np {
            assert(c[i] == a[i]);
        } else if i < a.len() + b.len() {
            assert(c[i] == b[i - a.len()]);
        } else {
            assert(c[i] == d[i - a.len() - b.len()]);
        }
    }
    assert forall|i: int| 0 <= i < c.len() && i != np + nm + 1 implies c[i] != ElementRef::Payloader by {
        if i < a.len() {
            assert(c[i] == a[i]);
        } else if i < a.len() + b.len() {
            assert(c[i] == b[i - a.len()]);
        } else {
            assert(c[i] == d[i - a.len() - b.len()]);
        }
    }
}

} // verus!
