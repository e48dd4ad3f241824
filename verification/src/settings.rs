//! The settings form of the edit screen: which rows it shows, what each
//! row displays for a movie's options, and how a value entered in a row
//! changes the options.
use vstd::prelude::*;

use crate::options::{
    LoadBehavior, PlayerOptions, PlayerRuntime, StageAlign, StageQuality, StageScaleMode, TimeSpan,
};
use crate::web_url::{parse_url, url_parse};
use crate::text::{decimal_digits, decimal_text_reads_back, opt_chars, parse_u64, parse_u8, parsed_unsigned, str_eq, u64_text, u8_text};

verus! {

/// The options of the form shown as a line of text.
#[derive(Clone, Copy, Debug, PartialEq, Eq, Structural)]
pub enum StringSetting {
    MaxExecutionDuration,
    PlayerVersion,
    BaseUrl,
    SpoofUrl,
    RefererUrl,
    Cookie,
}

/// The options of the form chosen from a menu.
#[derive(Clone, Copy, Debug, PartialEq, Eq, Structural)]
pub enum SelectSetting {
    Quality,
    PlayerRuntime,
    Align,
    ScaleMode,
    LoadBehavior,
}

/// The options of the form that are switched on or off.
#[derive(Clone, Copy, Debug, PartialEq, Eq, Structural)]
pub enum BoolSetting {
    ForceAlign,
    ForceScale,
    UpgradeToHttps,
    DummyExternalInterface,
}

/// A row of the form.
#[derive(Clone, Copy, Debug, PartialEq, Eq, Structural)]
pub enum FormElement {
    /// The movie's name.
    Name,
    String(StringSetting),
    Select(SelectSetting),
    Bool(BoolSetting),
    /// The custom frame rate, a floating-point number that the view shows
    /// and reads.
    FrameRate,
}

/// Why a value entered in the form was refused.
#[derive(Clone, Debug)]
pub enum SettingError {
    InvalidDuration(String),
    InvalidStageQuality,
    InvalidPlayerVersion(String),
    InvalidPlayerRuntime,
    InvalidStage,
    InvalidScaleMode,
    InvalidUrl(String),
    InvalidLoadBehaviour,
}

impl SettingError {
    /// The message that tells the user what was wrong.
    pub fn message(&self) -> (text: String)
        ensures
            text@ == match self {
                SettingError::InvalidDuration(d) => "invalid duration: "@ + d@,
                SettingError::InvalidStageQuality => "invalid stage quality"@,
                SettingError::InvalidPlayerVersion(d) => "invalid player version: "@ + d@,
                SettingError::InvalidPlayerRuntime => "invalid player runtime"@,
                SettingError::InvalidStage => "invalid stage"@,
                SettingError::InvalidScaleMode => "invalid scale mode"@,
                SettingError::InvalidUrl(d) => "invalid URL: "@ + d@,
                SettingError::InvalidLoadBehaviour => "invalid load behaviour"@,
            },
    {
        match self {
            SettingError::InvalidDuration(d) => String::from_str("invalid duration: ").concat(d.as_str()),
            SettingError::InvalidStageQuality => String::from_str("invalid stage quality"),
            SettingError::InvalidPlayerVersion(d) => String::from_str("invalid player version: ").concat(d.as_str()),
            SettingError::InvalidPlayerRuntime => String::from_str("invalid player runtime"),
            SettingError::InvalidStage => String::from_str("invalid stage"),
            SettingError::InvalidScaleMode => String::from_str("invalid scale mode"),
            SettingError::InvalidUrl(d) => String::from_str("invalid URL: ").concat(d.as_str()),
            SettingError::InvalidLoadBehaviour => String::from_str("invalid load behaviour"),
        }
    }
}

/// The menu entry of each stage quality.
pub open spec fn quality_name(q: StageQuality) -> Seq<char> {
    match q {
        StageQuality::Low => "Low"@,
        StageQuality::Medium => "Medium"@,
        StageQuality::High => "High"@,
        StageQuality::Best => "Best"@,
        StageQuality::High8x8 => "High (8x8)"@,
        StageQuality::High8x8Linear => "High (8x8) Linear"@,
        StageQuality::High16x16 => "High (16x16)"@,
        StageQuality::High16x16Linear => "High (16x16) Linear"@,
    }
}

/// The menu entry of each runtime.
pub open spec fn runtime_name(r: PlayerRuntime) -> Seq<char> {
    match r {
        PlayerRuntime::FlashPlayer => "Flash Player"@,
        PlayerRuntime::AIR => "Adobe AIR"@,
    }
}

/// The menu entry of an alignment: one of the nine placements, and
/// "Center" for any other set of edges.
pub open spec fn align_name(a: StageAlign) -> Seq<char> {
    if a.bits == 1 {
        "Top"@
    } else if a.bits == 2 {
        "Bottom"@
    } else if a.bits == 4 {
        "Left"@
    } else if a.bits == 8 {
        "Right"@
    } else if a.bits == 5 {
        "Top-Left"@
    } else if a.bits == 9 {
        "Top-Right"@
    } else if a.bits == 6 {
        "Bottom-Left"@
    } else if a.bits == 10 {
        "Bottom-Right"@
    } else {
        "Center"@
    }
}

/// Whether an alignment is one of the nine placements of the menu.
pub open spec fn align_is_placement(a: StageAlign) -> bool {
    a.bits == 0 || a.bits == 1 || a.bits == 2 || a.bits == 4 || a.bits == 8
        || a.bits == 5 || a.bits == 9 || a.bits == 6 || a.bits == 10
}

/// The menu entry of each scale mode.
pub open spec fn scale_name(m: StageScaleMode) -> Seq<char> {
    match m {
        StageScaleMode::NoScale => "Unscaled (100%)"@,
        StageScaleMode::ShowAll => "Zoom to Fit"@,
        StageScaleMode::ExactFit => "Stretch to Fit"@,
        StageScaleMode::NoBorder => "Crop to Fit"@,
    }
}

/// The menu entry of each load behaviour.
pub open spec fn load_behavior_name(b: LoadBehavior) -> Seq<char> {
    match b {
        LoadBehavior::Streaming => "Streaming"@,
        LoadBehavior::Delayed => "Delayed"@,
        LoadBehavior::Blocking => "Blocking"@,
    }
}

/// The stage quality of a menu entry.
pub open spec fn quality_of(v: Seq<char>) -> Option<StageQuality> {
    if v == "Low"@ {
        Some(StageQuality::Low)
    } else if v == "Medium"@ {
        Some(StageQuality::Medium)
    } else if v == "High"@ {
        Some(StageQuality::High)
    } else if v == "Best"@ {
        Some(StageQuality::Best)
    } else if v == "High (8x8)"@ {
        Some(StageQuality::High8x8)
    } else if v == "High (8x8) Linear"@ {
        Some(StageQuality::High8x8Linear)
    } else if v == "High (16x16)"@ {
        Some(StageQuality::High16x16)
    } else if v == "High (16x16) Linear"@ {
        Some(StageQuality::High16x16Linear)
    } else {
        None
    }
}

/// The runtime of a menu entry.
pub open spec fn runtime_of(v: Seq<char>) -> Option<PlayerRuntime> {
    if v == "Flash Player"@ {
        Some(PlayerRuntime::FlashPlayer)
    } else if v == "Adobe AIR"@ {
        Some(PlayerRuntime::AIR)
    } else {
        None
    }
}

/// The alignment of a menu entry.
pub open spec fn align_of(v: Seq<char>) -> Option<StageAlign> {
    if v == "Center"@ {
        Some(StageAlign { bits: 0 })
    } else if v == "Top"@ {
        Some(StageAlign { bits: 1 })
    } else if v == "Bottom"@ {
        Some(StageAlign { bits: 2 })
    } else if v == "Left"@ {
        Some(StageAlign { bits: 4 })
    } else if v == "Right"@ {
        Some(StageAlign { bits: 8 })
    } else if v == "Top-Left"@ {
        Some(StageAlign { bits: 5 })
    } else if v == "Top-Right"@ {
        Some(StageAlign { bits: 9 })
    } else if v == "Bottom-Left"@ {
        Some(StageAlign { bits: 6 })
    } else if v == "Bottom-Right"@ {
        Some(StageAlign { bits: 10 })
    } else {
        None
    }
}

/// The scale mode of a menu entry.
pub open spec fn scale_of(v: Seq<char>) -> Option<StageScaleMode> {
    if v == "Unscaled (100%)"@ {
        Some(StageScaleMode::NoScale)
    } else if v == "Zoom to Fit"@ {
        Some(StageScaleMode::ShowAll)
    } else if v == "Stretch to Fit"@ {
        Some(StageScaleMode::ExactFit)
    } else if v == "Crop to Fit"@ {
        Some(StageScaleMode::NoBorder)
    } else {
        None
    }
}

/// The load behaviour of a menu entry.
pub open spec fn load_behavior_of(v: Seq<char>) -> Option<LoadBehavior> {
    if v == "Streaming"@ {
        Some(LoadBehavior::Streaming)
    } else if v == "Delayed"@ {
        Some(LoadBehavior::Delayed)
    } else if v == "Blocking"@ {
        Some(LoadBehavior::Blocking)
    } else {
        None
    }
}

/// The entry of a stage quality in the quality menu.
pub fn quality_variant(q: StageQuality) -> (name: &'static str)
    ensures
        name@ == quality_name(q),
{
    match q {
        StageQuality::Low => "Low",
        StageQuality::Medium => "Medium",
        StageQuality::High => "High",
        StageQuality::Best => "Best",
        StageQuality::High8x8 => "High (8x8)",
        StageQuality::High8x8Linear => "High (8x8) Linear",
        StageQuality::High16x16 => "High (16x16)",
        StageQuality::High16x16Linear => "High (16x16) Linear",
    }
}

/// The entry of a runtime in the runtime menu.
pub fn runtime_variant(r: PlayerRuntime) -> (name: &'static str)
    ensures
        name@ == runtime_name(r),
{
    match r {
        PlayerRuntime::FlashPlayer => "Flash Player",
        PlayerRuntime::AIR => "Adobe AIR",
    }
}

/// The entry of an alignment in the alignment menu; sets of edges that are
/// no placement of the menu show as "Center".
pub fn align_variant(a: StageAlign) -> (name: &'static str)
    ensures
        name@ == align_name(a),
{
    if a.bits == 1 {
        "Top"
    } else if a.bits == 2 {
        "Bottom"
    } else if a.bits == 4 {
        "Left"
    } else if a.bits == 8 {
        "Right"
    } else if a.bits == 5 {
        "Top-Left"
    } else if a.bits == 9 {
        "Top-Right"
    } else if a.bits == 6 {
        "Bottom-Left"
    } else if a.bits == 10 {
        "Bottom-Right"
    } else {
        "Center"
    }
}

/// The entry of a scale mode in the scale mode menu.
pub fn scale_variant(m: StageScaleMode) -> (name: &'static str)
    ensures
        name@ == scale_name(m),
{
    match m {
        StageScaleMode::NoScale => "Unscaled (100%)",
        StageScaleMode::ShowAll => "Zoom to Fit",
        StageScaleMode::ExactFit => "Stretch to Fit",
        StageScaleMode::NoBorder => "Crop to Fit",
    }
}

/// The entry of a load behaviour in the load behaviour menu.
pub fn load_behavior_variant(b: LoadBehavior) -> (name: &'static str)
    ensures
        name@ == load_behavior_name(b),
{
    match b {
        LoadBehavior::Streaming => "Streaming",
        LoadBehavior::Delayed => "Delayed",
        LoadBehavior::Blocking => "Blocking",
    }
}

/// The stage quality of a menu entry, if it is one.
pub fn quality_from_variant(v: &str) -> (q: Option<StageQuality>)
    ensures
        q == quality_of(v@),
{
    if str_eq(v, "Low") {
        Some(StageQuality::Low)
    } else if str_eq(v, "Medium") {
        Some(StageQuality::Medium)
    } else if str_eq(v, "High") {
        Some(StageQuality::High)
    } else if str_eq(v, "Best") {
        Some(StageQuality::Best)
    } else if str_eq(v, "High (8x8)") {
        Some(StageQuality::High8x8)
    } else if str_eq(v, "High (8x8) Linear") {
        Some(StageQuality::High8x8Linear)
    } else if str_eq(v, "High (16x16)") {
        Some(StageQuality::High16x16)
    } else if str_eq(v, "High (16x16) Linear") {
        Some(StageQuality::High16x16Linear)
    } else {
        None
    }
}

/// The runtime of a menu entry, if it is one.
pub fn runtime_from_variant(v: &str) -> (r: Option<PlayerRuntime>)
    ensures
        r == runtime_of(v@),
{
    if str_eq(v, "Flash Player") {
        Some(PlayerRuntime::FlashPlayer)
    } else if str_eq(v, "Adobe AIR") {
        Some(PlayerRuntime::AIR)
    } else {
        None
    }
}

/// The alignment of a menu entry, if it is one.
pub fn align_from_variant(v: &str) -> (a: Option<StageAlign>)
    ensures
        a == align_of(v@),
{
    if str_eq(v, "Center") {
        Some(StageAlign::empty())
    } else if str_eq(v, "Top") {
        Some(StageAlign::top())
    } else if str_eq(v, "Bottom") {
        Some(StageAlign::bottom())
    } else if str_eq(v, "Left") {
        Some(StageAlign::left())
    } else if str_eq(v, "Right") {
        Some(StageAlign::right())
    } else if str_eq(v, "Top-Left") {
        let a = StageAlign::top().union(StageAlign::left());
        assert(1u8 | 4u8 == 5u8) by (bit_vector);
        Some(a)
    } else if str_eq(v, "Top-Right") {
        let a = StageAlign::top().union(StageAlign::right());
        assert(1u8 | 8u8 == 9u8) by (bit_vector);
        Some(a)
    } else if str_eq(v, "Bottom-Left") {
        let a = StageAlign::bottom().union(StageAlign::left());
        assert(2u8 | 4u8 == 6u8) by (bit_vector);
        Some(a)
    } else if str_eq(v, "Bottom-Right") {
        let a = StageAlign::bottom().union(StageAlign::right());
        assert(2u8 | 8u8 == 10u8) by (bit_vector);
        Some(a)
    } else {
        None
    }
}

/// The scale mode of a menu entry, if it is one.
pub fn scale_from_variant(v: &str) -> (m: Option<StageScaleMode>)
    ensures
        m == scale_of(v@),
{
    if str_eq(v, "Unscaled (100%)") {
        Some(StageScaleMode::NoScale)
    } else if str_eq(v, "Zoom to Fit") {
        Some(StageScaleMode::ShowAll)
    } else if str_eq(v, "Stretch to Fit") {
        Some(StageScaleMode::ExactFit)
    } else if str_eq(v, "Crop to Fit") {
        Some(StageScaleMode::NoBorder)
    } else {
        None
    }
}

/// The load behaviour of a menu entry, if it is one.
pub fn load_behavior_from_variant(v: &str) -> (b: Option<LoadBehavior>)
    ensures
        b == load_behavior_of(v@),
{
    if str_eq(v, "Streaming") {
        Some(LoadBehavior::Streaming)
    } else if str_eq(v, "Delayed") {
        Some(LoadBehavior::Delayed)
    } else if str_eq(v, "Blocking") {
        Some(LoadBehavior::Blocking)
    } else {
        None
    }
}

/// A static text as its characters, when there is one.
pub open spec fn opt_str_chars(text: Option<&'static str>) -> Option<Seq<char>> {
    match text {
        Some(t) => Some(t@),
        None => None,
    }
}

/// The label of a text row.
pub open spec fn string_label(s: StringSetting) -> Seq<char> {
    match s {
        StringSetting::MaxExecutionDuration => "Maximum execution duration (s)"@,
        StringSetting::PlayerVersion => "Player version"@,
        StringSetting::BaseUrl => "Custom base URL"@,
        StringSetting::SpoofUrl => "Spoof SWF URL"@,
        StringSetting::RefererUrl => "Referer URL"@,
        StringSetting::Cookie => "Cookie"@,
    }
}

/// The label of a menu row.
pub open spec fn select_label(s: SelectSetting) -> Seq<char> {
    match s {
        SelectSetting::Quality => "Quality"@,
        SelectSetting::PlayerRuntime => "Player runtime"@,
        SelectSetting::Align => "Alignment"@,
        SelectSetting::ScaleMode => "Scale mode"@,
        SelectSetting::LoadBehavior => "Load behaviour"@,
    }
}

/// The label of an on/off row.
pub open spec fn bool_label(s: BoolSetting) -> Seq<char> {
    match s {
        BoolSetting::ForceAlign => "Force"@,
        BoolSetting::ForceScale => "Force"@,
        BoolSetting::UpgradeToHttps => "Upgrade HTTP to HTTPS"@,
        BoolSetting::DummyExternalInterface => "Dummy external interface"@,
    }
}

/// The entries of a menu row, in order.
pub open spec fn select_variants(s: SelectSetting) -> Seq<Seq<char>> {
    match s {
        SelectSetting::Quality => seq![
            "Low"@, "Medium"@, "High"@, "Best"@, "High (8x8)"@, "High (8x8) Linear"@,
            "High (16x16)"@, "High (16x16) Linear"@,
        ],
        SelectSetting::PlayerRuntime => seq!["Flash Player"@, "Adobe AIR"@],
        SelectSetting::Align => seq![
            "Center"@, "Top"@, "Bottom"@, "Left"@, "Right"@, "Top-Left"@, "Top-Right"@,
            "Bottom-Left"@, "Bottom-Right"@,
        ],
        SelectSetting::ScaleMode => seq!["Unscaled (100%)"@, "Zoom to Fit"@, "Stretch to Fit"@, "Crop to Fit"@],
        SelectSetting::LoadBehavior => seq!["Streaming"@, "Delayed"@, "Blocking"@],
    }
}

/// The text a text row shows for the options.
pub open spec fn string_text(s: StringSetting, o: PlayerOptions) -> Option<Seq<char>> {
    match s {
        StringSetting::MaxExecutionDuration => match o.max_execution_duration {
            Some(t) => Some(decimal_digits(t.secs as nat)),
            None => None,
        },
        StringSetting::PlayerVersion => match o.player_version {
            Some(v) => Some(decimal_digits(v as nat)),
            None => None,
        },
        StringSetting::BaseUrl => opt_chars(o.base),
        StringSetting::SpoofUrl => opt_chars(o.spoof_url),
        StringSetting::RefererUrl => opt_chars(o.referer),
        StringSetting::Cookie => opt_chars(o.cookie),
    }
}

/// The entry a menu row has chosen for the options, if any.
pub open spec fn enabled_variant(s: SelectSetting, o: PlayerOptions) -> Option<Seq<char>> {
    match s {
        SelectSetting::Quality => match o.quality {
            Some(q) => Some(quality_name(q)),
            None => None,
        },
        SelectSetting::PlayerRuntime => match o.player_runtime {
            Some(r) => Some(runtime_name(r)),
            None => None,
        },
        SelectSetting::Align => match o.align {
            Some(a) => Some(align_name(a)),
            None => None,
        },
        SelectSetting::ScaleMode => match o.scale {
            Some(m) => Some(scale_name(m)),
            None => None,
        },
        SelectSetting::LoadBehavior => match o.load_behavior {
            Some(b) => Some(load_behavior_name(b)),
            None => None,
        },
    }
}

/// The value an on/off row shows for the options.
pub open spec fn bool_value(s: BoolSetting, o: PlayerOptions) -> Option<bool> {
    match s {
        BoolSetting::ForceAlign => o.force_align,
        BoolSetting::ForceScale => o.force_scale,
        BoolSetting::UpgradeToHttps => o.upgrade_to_https,
        BoolSetting::DummyExternalInterface => o.dummy_external_interface,
    }
}

/// Whether a menu row takes the entry `v`.
pub open spec fn select_accepts(s: SelectSetting, v: Seq<char>) -> bool {
    match s {
        SelectSetting::Quality => quality_of(v) is Some,
        SelectSetting::PlayerRuntime => runtime_of(v) is Some,
        SelectSetting::Align => align_of(v) is Some,
        SelectSetting::ScaleMode => scale_of(v) is Some,
        SelectSetting::LoadBehavior => load_behavior_of(v) is Some,
    }
}

/// The options after a menu row took the entry `v`.
pub open spec fn select_written(s: SelectSetting, o: PlayerOptions, v: Seq<char>) -> PlayerOptions {
    match s {
        SelectSetting::Quality => PlayerOptions { quality: quality_of(v), ..o },
        SelectSetting::PlayerRuntime => PlayerOptions { player_runtime: runtime_of(v), ..o },
        SelectSetting::Align => PlayerOptions { align: align_of(v), ..o },
        SelectSetting::ScaleMode => PlayerOptions { scale: scale_of(v), ..o },
        SelectSetting::LoadBehavior => PlayerOptions { load_behavior: load_behavior_of(v), ..o },
    }
}

/// The error of a menu row that does not take an entry.
pub open spec fn select_error(s: SelectSetting, e: SettingError) -> bool {
    match s {
        SelectSetting::Quality => e is InvalidStageQuality,
        SelectSetting::PlayerRuntime => e is InvalidPlayerRuntime,
        SelectSetting::Align => e is InvalidStage,
        SelectSetting::ScaleMode => e is InvalidScaleMode,
        SelectSetting::LoadBehavior => e is InvalidLoadBehaviour,
    }
}

/// The options after an on/off row was set to `value`.
pub open spec fn bool_written(s: BoolSetting, o: PlayerOptions, value: bool) -> PlayerOptions {
    match s {
        BoolSetting::ForceAlign => PlayerOptions { force_align: Some(value), ..o },
        BoolSetting::ForceScale => PlayerOptions { force_scale: Some(value), ..o },
        BoolSetting::UpgradeToHttps => PlayerOptions { upgrade_to_https: Some(value), ..o },
        BoolSetting::DummyExternalInterface => PlayerOptions { dummy_external_interface: Some(value), ..o },
    }
}

/// Whether a text row takes the text `v`: a number that fits for the
/// duration (in seconds) and the player version, a URL that the `url`
/// crate accepts for the URLs, and any text for the cookie.
pub open spec fn string_accepts(s: StringSetting, v: Seq<char>) -> bool {
    match s {
        StringSetting::MaxExecutionDuration => parsed_unsigned(v, u64::MAX as nat) is Some,
        StringSetting::PlayerVersion => parsed_unsigned(v, u8::MAX as nat) is Some,
        StringSetting::BaseUrl | StringSetting::SpoofUrl | StringSetting::RefererUrl => url_parse(v) is Some,
        StringSetting::Cookie => true,
    }
}

/// Whether `after` is the options `before` after a text row took `v`: the
/// row's option holds the value read from the text, all others are kept.
pub open spec fn string_written(s: StringSetting, before: PlayerOptions, v: Seq<char>, after: PlayerOptions) -> bool {
    match s {
        StringSetting::MaxExecutionDuration => after == PlayerOptions {
            max_execution_duration: Some(TimeSpan { secs: parsed_unsigned(v, u64::MAX as nat)->0 as u64, subsec_nanos: 0 }),
            ..before
        },
        StringSetting::PlayerVersion => after == PlayerOptions {
            player_version: Some(parsed_unsigned(v, u8::MAX as nat)->0 as u8),
            ..before
        },
        StringSetting::BaseUrl => opt_chars(after.base) == url_parse(v)
            && PlayerOptions { base: before.base, ..after } == before,
        StringSetting::SpoofUrl => opt_chars(after.spoof_url) == url_parse(v)
            && PlayerOptions { spoof_url: before.spoof_url, ..after } == before,
        StringSetting::RefererUrl => opt_chars(after.referer) == url_parse(v)
            && PlayerOptions { referer: before.referer, ..after } == before,
        StringSetting::Cookie => opt_chars(after.cookie) == Some(v)
            && PlayerOptions { cookie: before.cookie, ..after } == before,
    }
}

/// Whether `e` is the error of a text row that refused a text.
pub open spec fn string_error(s: StringSetting, e: SettingError) -> bool {
    match s {
        StringSetting::MaxExecutionDuration => e is InvalidDuration,
        StringSetting::PlayerVersion => e is InvalidPlayerVersion,
        StringSetting::BaseUrl | StringSetting::SpoofUrl | StringSetting::RefererUrl => e is InvalidUrl,
        StringSetting::Cookie => false,
    }
}

impl StringSetting {
    /// The label of the row.
    pub fn label(self) -> (label: &'static str)
        ensures
            label@ == string_label(self),
    {
        match self {
            StringSetting::MaxExecutionDuration => "Maximum execution duration (s)",
            StringSetting::PlayerVersion => "Player version",
            StringSetting::BaseUrl => "Custom base URL",
            StringSetting::SpoofUrl => "Spoof SWF URL",
            StringSetting::RefererUrl => "Referer URL",
            StringSetting::Cookie => "Cookie",
        }
    }

    /// The text the row shows for the options.
    pub fn text(self, o: &PlayerOptions) -> (text: Option<String>)
        ensures
            opt_chars(text) == string_text(self, *o),
    {
        match self {
            StringSetting::MaxExecutionDuration => match &o.max_execution_duration {
                Some(t) => Some(u64_text(t.secs)),
                None => None,
            },
            StringSetting::PlayerVersion => match &o.player_version {
                Some(v) => Some(u8_text(*v)),
                None => None,
            },
            StringSetting::BaseUrl => o.base.clone(),
            StringSetting::SpoofUrl => o.spoof_url.clone(),
            StringSetting::RefererUrl => o.referer.clone(),
            StringSetting::Cookie => o.cookie.clone(),
        }
    }

    /// Sets the row's option from the text `value`; a text the row does not
    /// take leaves the options unchanged and gives the row's error.
    pub fn write_if_set(self, o: &mut PlayerOptions, value: &str) -> (result: Result<(), SettingError>)
        ensures
            string_accepts(self, value@) ==> result is Ok && string_written(self, *old(o), value@, *final(o)),
            !string_accepts(self, value@) ==> *final(o) == *old(o) && (result matches Err(e) && string_error(self, e)),
    {
        match self {
            StringSetting::MaxExecutionDuration => match parse_u64(value) {
                Ok(secs) => {
                    o.max_execution_duration = Some(TimeSpan { secs, subsec_nanos: 0 });
                    Ok(())
                },
                Err(e) => Err(SettingError::InvalidDuration(e)),
            },
            StringSetting::PlayerVersion => match parse_u8(value) {
                Ok(v) => {
                    o.player_version = Some(v);
                    Ok(())
                },
                Err(e) => Err(SettingError::InvalidPlayerVersion(e)),
            },
            StringSetting::BaseUrl => match parse_url(value) {
                Ok(u) => {
                    o.base = Some(u.serialization);
                    Ok(())
                },
                Err(e) => Err(SettingError::InvalidUrl(e)),
            },
            StringSetting::SpoofUrl => match parse_url(value) {
                Ok(u) => {
                    o.spoof_url = Some(u.serialization);
                    Ok(())
                },
                Err(e) => Err(SettingError::InvalidUrl(e)),
            },
            StringSetting::RefererUrl => match parse_url(value) {
                Ok(u) => {
                    o.referer = Some(u.serialization);
                    Ok(())
                },
                Err(e) => Err(SettingError::InvalidUrl(e)),
            },
            StringSetting::Cookie => {
                o.cookie = Some(value.to_owned());
                Ok(())
            },
        }
    }
}

impl SelectSetting {
    /// The label of the row.
    pub fn label(self) -> (label: &'static str)
        ensures
            label@ == select_label(self),
    {
        match self {
            SelectSetting::Quality => "Quality",
            SelectSetting::PlayerRuntime => "Player runtime",
            SelectSetting::Align => "Alignment",
            SelectSetting::ScaleMode => "Scale mode",
            SelectSetting::LoadBehavior => "Load behaviour",
        }
    }

    /// The entries of the row's menu, in order.
    pub fn variants(self) -> (variants: Vec<&'static str>)
        ensures
            variants@.map_values(|v: &'static str| v@) == select_variants(self),
    {
        let variants = match self {
            SelectSetting::Quality => vec![
                "Low", "Medium", "High", "Best", "High (8x8)", "High (8x8) Linear", "High (16x16)",
                "High (16x16) Linear",
            ],
            SelectSetting::PlayerRuntime => vec!["Flash Player", "Adobe AIR"],
            SelectSetting::Align => vec![
                "Center", "Top", "Bottom", "Left", "Right", "Top-Left", "Top-Right", "Bottom-Left",
                "Bottom-Right",
            ],
            SelectSetting::ScaleMode => vec!["Unscaled (100%)", "Zoom to Fit", "Stretch to Fit", "Crop to Fit"],
            SelectSetting::LoadBehavior => vec!["Streaming", "Delayed", "Blocking"],
        };
        assert(variants@.map_values(|v: &'static str| v@) =~= select_variants(self));
        variants
    }

    /// The entry the row has chosen for the options, if any.
    pub fn enabled_variant(self, o: &PlayerOptions) -> (variant: Option<&'static str>)
        ensures
            opt_str_chars(variant) == enabled_variant(self, *o),
    {
        match self {
            SelectSetting::Quality => match o.quality {
                Some(q) => Some(quality_variant(q)),
                None => None,
            },
            SelectSetting::PlayerRuntime => match o.player_runtime {
                Some(r) => Some(runtime_variant(r)),
                None => None,
            },
            SelectSetting::Align => match o.align {
                Some(a) => Some(align_variant(a)),
                None => None,
            },
            SelectSetting::ScaleMode => match o.scale {
                Some(m) => Some(scale_variant(m)),
                None => None,
            },
            SelectSetting::LoadBehavior => match o.load_behavior {
                Some(b) => Some(load_behavior_variant(b)),
                None => None,
            },
        }
    }

    /// Sets the row's option from the menu entry `value`; an entry the row
    /// does not take leaves the options unchanged and gives the row's error.
    pub fn write_if_set(self, o: &mut PlayerOptions, value: &str) -> (result: Result<(), SettingError>)
        ensures
            select_accepts(self, value@) ==> result is Ok && *final(o) == select_written(self, *old(o), value@),
            !select_accepts(self, value@) ==> *final(o) == *old(o) && (result matches Err(e) && select_error(self, e)),
    {
        match self {
            SelectSetting::Quality => match quality_from_variant(value) {
                Some(q) => {
                    o.quality = Some(q);
                    Ok(())
                },
                None => Err(SettingError::InvalidStageQuality),
            },
            SelectSetting::PlayerRuntime => match runtime_from_variant(value) {
                Some(r) => {
                    o.player_runtime = Some(r);
                    Ok(())
                },
                None => Err(SettingError::InvalidPlayerRuntime),
            },
            SelectSetting::Align => match align_from_variant(value) {
                Some(a) => {
                    o.align = Some(a);
                    Ok(())
                },
                None => Err(SettingError::InvalidStage),
            },
            SelectSetting::ScaleMode => match scale_from_variant(value) {
                Some(m) => {
                    o.scale = Some(m);
                    Ok(())
                },
                None => Err(SettingError::InvalidScaleMode),
            },
            SelectSetting::LoadBehavior => match load_behavior_from_variant(value) {
                Some(b) => {
                    o.load_behavior = Some(b);
                    Ok(())
                },
                None => Err(SettingError::InvalidLoadBehaviour),
            },
        }
    }
}

impl BoolSetting {
    /// The label of the row.
    pub fn label(self) -> (label: &'static str)
        ensures
            label@ == bool_label(self),
    {
        match self {
            BoolSetting::ForceAlign => "Force",
            BoolSetting::ForceScale => "Force",
            BoolSetting::UpgradeToHttps => "Upgrade HTTP to HTTPS",
            BoolSetting::DummyExternalInterface => "Dummy external interface",
        }
    }

    /// The value the row shows for the options.
    pub fn value(self, o: &PlayerOptions) -> (value: Option<bool>)
        ensures
            value == bool_value(self, *o),
    {
        match self {
            BoolSetting::ForceAlign => o.force_align,
            BoolSetting::ForceScale => o.force_scale,
            BoolSetting::UpgradeToHttps => o.upgrade_to_https,
            BoolSetting::DummyExternalInterface => o.dummy_external_interface,
        }
    }

    /// Sets the row's option to `value`.
    pub fn write_if_set(self, o: &mut PlayerOptions, value: bool)
        ensures
            *final(o) == bool_written(self, *old(o), value),
    {
        match self {
            BoolSetting::ForceAlign => o.force_align = Some(value),
            BoolSetting::ForceScale => o.force_scale = Some(value),
            BoolSetting::UpgradeToHttps => o.upgrade_to_https = Some(value),
            BoolSetting::DummyExternalInterface => o.dummy_external_interface = Some(value),
        }
    }
}

/// The sections of the form and their rows, in order: the name; the
/// general options; the stage alignment; the scale mode; the network
/// options. The movie's parameters follow in a section of their own.
pub open spec fn form() -> Seq<Seq<FormElement>> {
    seq![
        seq![FormElement::Name],
        seq![
            FormElement::String(StringSetting::MaxExecutionDuration),
            FormElement::Select(SelectSetting::Quality),
            FormElement::String(StringSetting::PlayerVersion),
            FormElement::Select(SelectSetting::PlayerRuntime),
            FormElement::FrameRate,
        ],
        seq![
            FormElement::Select(SelectSetting::Align),
            FormElement::Bool(BoolSetting::ForceAlign),
        ],
        seq![
            FormElement::Select(SelectSetting::ScaleMode),
            FormElement::Bool(BoolSetting::ForceScale),
        ],
        seq![
            FormElement::String(StringSetting::BaseUrl),
            FormElement::String(StringSetting::SpoofUrl),
            FormElement::String(StringSetting::RefererUrl),
            FormElement::String(StringSetting::Cookie),
            FormElement::Bool(BoolSetting::UpgradeToHttps),
            FormElement::Select(SelectSetting::LoadBehavior),
            FormElement::Bool(BoolSetting::DummyExternalInterface),
        ],
    ]
}

/// The number of sections of the form before the parameters.
pub const FORM_SECTIONS: usize = 5;

/// The number of rows of a section: those of the form, or one per movie
/// parameter and one to add a parameter in the last section.
pub open spec fn rows_in_section(section: int, parameter_count: int) -> int {
    if section == form().len() {
        parameter_count + 1
    } else {
        form()[section].len() as int
    }
}

/// The number of sections of the form's table: those of the form and the
/// movie parameters.
pub fn number_of_sections() -> (n: usize)
    ensures
        n == form().len() + 1,
{
    FORM_SECTIONS + 1
}

/// The number of rows of a section of the form's table.
pub fn number_of_rows_in_section(section: usize, parameter_count: usize) -> (n: usize)
    requires
        section <= form().len(),
        parameter_count < usize::MAX,
    ensures
        n == rows_in_section(section as int, parameter_count as int),
{
    match section {
        0 => 1,
        1 => 5,
        2 => 2,
        3 => 2,
        4 => 7,
        _ => parameter_count + 1,
    }
}

/// The row of the form at `row` of `section`.
pub fn form_element(section: usize, row: usize) -> (element: FormElement)
    requires
        section < form().len(),
        row < form()[section as int].len(),
    ensures
        element == form()[section as int][row as int],
{
    match (section, row) {
        (0, _) => FormElement::Name,
        (1, 0) => FormElement::String(StringSetting::MaxExecutionDuration),
        (1, 1) => FormElement::Select(SelectSetting::Quality),
        (1, 2) => FormElement::String(StringSetting::PlayerVersion),
        (1, 3) => FormElement::Select(SelectSetting::PlayerRuntime),
        (1, _) => FormElement::FrameRate,
        (2, 0) => FormElement::Select(SelectSetting::Align),
        (2, _) => FormElement::Bool(BoolSetting::ForceAlign),
        (3, 0) => FormElement::Select(SelectSetting::ScaleMode),
        (3, _) => FormElement::Bool(BoolSetting::ForceScale),
        (_, 0) => FormElement::String(StringSetting::BaseUrl),
        (_, 1) => FormElement::String(StringSetting::SpoofUrl),
        (_, 2) => FormElement::String(StringSetting::RefererUrl),
        (_, 3) => FormElement::String(StringSetting::Cookie),
        (_, 4) => FormElement::Bool(BoolSetting::UpgradeToHttps),
        (_, 5) => FormElement::Select(SelectSetting::LoadBehavior),
        (_, _) => FormElement::Bool(BoolSetting::DummyExternalInterface),
    }
}

/// An entry of a menu: its title and whether it is checked.
#[derive(Clone, Copy, Debug, PartialEq, Eq)]
pub struct MenuItem {
    pub title: &'static str,
    pub on: bool,
}

/// A menu entry as its title's characters and whether it is checked.
pub open spec fn menu_item_view(item: MenuItem) -> (Seq<char>, bool) {
    (item.title@, item.on)
}

/// What a row of the form's table shows.
#[derive(Clone, Debug)]
pub enum CellContent {
    /// The row to add a movie parameter.
    ParameterAdd,
    /// A movie parameter: its name and value.
    Parameter { name: String, value: String },
    /// The movie's name.
    Name { text: String },
    /// A text row: its label and text.
    Text { setting: StringSetting, label: &'static str, text: Option<String> },
    /// A menu row: its label and the entries of its menu, "Default" first.
    Select { setting: SelectSetting, label: &'static str, items: Vec<MenuItem> },
    /// The frame rate row: its label; the view adds the text.
    FrameRate { label: &'static str },
    /// An on/off row: its label and the chosen segment (0 for the default,
    /// 1 for off, 2 for on).
    Toggle { setting: BoolSetting, label: &'static str, selected_segment: isize },
}

impl CellContent {
    /// The identifier of the cell prototype that shows this content.
    pub fn reuse_identifier(&self) -> (identifier: &'static str)
        ensures
            identifier@ == match self {
                CellContent::ParameterAdd => "movie-parameter-add"@,
                CellContent::Parameter { .. } => "movie-parameter"@,
                CellContent::Name { .. } => "root-name"@,
                CellContent::Text { .. } | CellContent::FrameRate { .. } => "string"@,
                CellContent::Select { .. } => "select"@,
                CellContent::Toggle { .. } => "bool"@,
            },
    {
        match self {
            CellContent::ParameterAdd => "movie-parameter-add",
            CellContent::Parameter { .. } => "movie-parameter",
            CellContent::Name { .. } => "root-name",
            CellContent::Text { .. } | CellContent::FrameRate { .. } => "string",
            CellContent::Select { .. } => "select",
            CellContent::Toggle { .. } => "bool",
        }
    }
}

/// The entries of a menu row for the options: "Default", checked when the
/// options choose nothing, then the row's entries, each checked when the
/// options choose it.
pub open spec fn menu_items(s: SelectSetting, o: PlayerOptions) -> Seq<(Seq<char>, bool)> {
    let enabled = enabled_variant(s, o);
    seq![("Default"@, enabled is None)] + select_variants(s).map_values(
        |v: Seq<char>| (v, enabled == Some(v)),
    )
}

/// The segment an on/off row chooses for a value.
pub open spec fn segment_for(value: Option<bool>) -> isize {
    match value {
        None => 0,
        Some(false) => 1,
        Some(true) => 2,
    }
}

/// Whether `cell` is what the row at `row` of `section` shows for a movie
/// named `cached_name` with options `o`.
pub open spec fn cell_shows(cell: CellContent, o: PlayerOptions, cached_name: Seq<char>, section: int, row: int) -> bool {
    if section == form().len() {
        if row == o.parameters@.len() {
            cell is ParameterAdd
        } else {
            cell matches CellContent::Parameter { name, value }
                && name@ == o.parameters@[row].0@ && value@ == o.parameters@[row].1@
        }
    } else {
        match form()[section][row] {
            FormElement::Name => cell matches CellContent::Name { text } && text@ == cached_name,
            FormElement::String(s) => cell matches CellContent::Text { setting, label, text }
                && setting == s && label@ == string_label(s) && opt_chars(text) == string_text(s, o),
            FormElement::Select(s) => cell matches CellContent::Select { setting, label, items }
                && setting == s && label@ == select_label(s)
                && items@.map_values(|item: MenuItem| menu_item_view(item)) == menu_items(s, o),
            FormElement::FrameRate => cell matches CellContent::FrameRate { label }
                && label@ == "Custom framerate (fps)"@,
            FormElement::Bool(s) => cell matches CellContent::Toggle { setting, label, selected_segment }
                && setting == s && label@ == bool_label(s) && selected_segment == segment_for(bool_value(s, o)),
        }
    }
}

/// The entries of a menu row for the options.
fn menu_for(s: SelectSetting, o: &PlayerOptions) -> (items: Vec<MenuItem>)
    ensures
        items@.map_values(|item: MenuItem| menu_item_view(item)) == menu_items(s, *o),
{
    let enabled = s.enabled_variant(o);
    let variants = s.variants();
    let mut items: Vec<MenuItem> = Vec::new();
    items.push(MenuItem { title: "Default", on: enabled.is_none() });
    let ghost names = select_variants(s);
    let mut i: usize = 0;
    while i < variants.len()
        invariant
            i <= variants.len(),
            variants@.map_values(|v: &'static str| v@) == names,
            names == select_variants(s),
            opt_str_chars(enabled) == enabled_variant(s, *o),
            items@.map_values(|item: MenuItem| menu_item_view(item)) == menu_items(s, *o).subrange(0, i + 1),
        decreases variants.len() - i,
    {
        let title = variants[i];
        let on = match enabled {
            Some(e) => str_eq(e, title),
            None => false,
        };
        assert(names[i as int] == title@);
        assert(on == (enabled_variant(s, *o) == Some(title@)));
        assert(menu_items(s, *o)[i + 1] == (title@, on));
        let ghost before = items@;
        assert(menu_items(s, *o).len() == names.len() + 1);
        assert(names.len() == variants@.len());
        assert(before.map_values(|item: MenuItem| menu_item_view(item)).len() == i + 1);
        assert(before.len() == i + 1);
        items.push(MenuItem { title, on });
        assert(items@ == before.push(MenuItem { title, on }));
        assert forall|k: int| 0 <= k < i + 2 implies
            items@.map_values(|item: MenuItem| menu_item_view(item))[k] == #[trigger] menu_items(s, *o)[k] by {
            if k < i + 1 {
                assert(items@[k] == before[k]);
                assert(before.map_values(|item: MenuItem| menu_item_view(item))[k] == menu_items(s, *o).subrange(0, i + 1)[k]);
            }
        }
        assert(items@.map_values(|item: MenuItem| menu_item_view(item)) =~= menu_items(s, *o).subrange(0, i + 2));
        i = i + 1;
    }
    assert(menu_items(s, *o).subrange(0, i + 1) =~= menu_items(s, *o));
    items
}

/// What the row at `row` of `section` of the form's table shows for a movie
/// named `cached_name` with options `options`.
pub fn cell_at_index_path(options: &PlayerOptions, cached_name: &str, section: usize, row: usize) -> (cell: CellContent)
    requires
        section <= form().len(),
        row < rows_in_section(section as int, options.parameters@.len() as int),
    ensures
        cell_shows(cell, *options, cached_name@, section as int, row as int),
{
    if section == FORM_SECTIONS {
        if row == options.parameters.len() {
            return CellContent::ParameterAdd;
        }
        let (name, value) = &options.parameters[row];
        return CellContent::Parameter { name: name.clone(), value: value.clone() };
    }
    match form_element(section, row) {
        FormElement::Name => CellContent::Name { text: cached_name.to_owned() },
        FormElement::String(s) => CellContent::Text { setting: s, label: s.label(), text: s.text(options) },
        FormElement::Select(s) => CellContent::Select { setting: s, label: s.label(), items: menu_for(s, options) },
        FormElement::FrameRate => CellContent::FrameRate { label: "Custom framerate (fps)" },
        FormElement::Bool(s) => {
            let selected_segment: isize = match s.value(options) {
                None => 0,
                Some(false) => 1,
                Some(true) => 2,
            };
            CellContent::Toggle { setting: s, label: s.label(), selected_segment }
        },
    }
}

/// A menu row that takes one of its own entries then shows that entry as
/// chosen.
pub proof fn menu_entry_written_reads_back(s: SelectSetting, o: PlayerOptions, i: int)
    requires
        0 <= i < select_variants(s).len(),
    ensures
        select_accepts(s, select_variants(s)[i]),
        enabled_variant(s, select_written(s, o, select_variants(s)[i])) == Some(select_variants(s)[i]),
{
    match s {
        SelectSetting::Quality => {
            lemma_quality_menu();
        },
        SelectSetting::PlayerRuntime => {
            lemma_playerruntime_menu();
        },
        SelectSetting::Align => {
            lemma_align_menu();
        },
        SelectSetting::ScaleMode => {
            lemma_scalemode_menu();
        },
        SelectSetting::LoadBehavior => {
            lemma_loadbehavior_menu();
        },
    }
}

/// Taking back the entry that a menu row shows as chosen leaves the options
/// unchanged; for the alignment this holds of the nine placements of the
/// menu only, since any other set of edges shows as "Center".
pub proof fn menu_entry_shown_writes_back(s: SelectSetting, o: PlayerOptions)
    requires
        enabled_variant(s, o) is Some,
        s == SelectSetting::Align ==> align_is_placement(o.align->0),
    ensures
        select_accepts(s, enabled_variant(s, o)->0),
        select_written(s, o, enabled_variant(s, o)->0) == o,
{
    match s {
        SelectSetting::Quality => {
            lemma_quality_menu();
        },
        SelectSetting::PlayerRuntime => {
            lemma_playerruntime_menu();
        },
        SelectSetting::Align => {
            lemma_align_menu();
        },
        SelectSetting::ScaleMode => {
            lemma_scalemode_menu();
        },
        SelectSetting::LoadBehavior => {
            lemma_loadbehavior_menu();
        },
    }
}

proof fn lemma_variants_distinct(s: SelectSetting)
    ensures
        forall|a: int, b: int| 0 <= a < select_variants(s).len() && 0 <= b < select_variants(s).len() && a != b
            ==> #[trigger] select_variants(s)[a] != #[trigger] select_variants(s)[b],
{
    match s {
        SelectSetting::Quality => {
            lemma_quality_menu();
        },
        SelectSetting::PlayerRuntime => {
            lemma_playerruntime_menu();
        },
        SelectSetting::Align => {
            lemma_align_menu();
        },
        SelectSetting::ScaleMode => {
            lemma_scalemode_menu();
        },
        SelectSetting::LoadBehavior => {
            lemma_loadbehavior_menu();
        },
    }
}

/// The entries of the Quality menu: no two alike, each read back as the
/// value it names, and the entry of every value among them.
proof fn lemma_quality_menu()
    ensures
        forall|a: int, b: int| 0 <= a < 8 && 0 <= b < 8 && a != b
            ==> #[trigger] select_variants(SelectSetting::Quality)[a] != #[trigger] select_variants(SelectSetting::Quality)[b],
        forall|x: StageQuality| #[trigger] quality_of(quality_name(x)) == Some(x),
        forall|v: Seq<char>| #[trigger] quality_of(v) matches Some(x) ==> quality_name(x) == v,
        forall|k: int| 0 <= k < 8 ==> #[trigger] quality_of(select_variants(SelectSetting::Quality)[k]) is Some,
        forall|x: StageQuality| select_variants(SelectSetting::Quality).contains(#[trigger] quality_name(x)),
{
    reveal_strlit("Low");
    reveal_strlit("Medium");
    reveal_strlit("High");
    reveal_strlit("Best");
    reveal_strlit("High (8x8)");
    reveal_strlit("High (8x8) Linear");
    reveal_strlit("High (16x16)");
    reveal_strlit("High (16x16) Linear");
    let names = select_variants(SelectSetting::Quality);
    assert(names[0] == "Low"@);
    assert(names[1] == "Medium"@);
    assert(names[2] == "High"@);
    assert(names[3] == "Best"@);
    assert(names[4] == "High (8x8)"@);
    assert(names[5] == "High (8x8) Linear"@);
    assert(names[6] == "High (16x16)"@);
    assert(names[7] == "High (16x16) Linear"@);
    assert forall|a: int, b: int| 0 <= a < 8 && 0 <= b < 8 && a != b implies names[a] != names[b] by {
        assert(names[a].len() != names[b].len() || names[a][0] != names[b][0]);
    }
    assert forall|x: StageQuality| names.contains(#[trigger] quality_name(x)) by {
        assert(exists|k: int| 0 <= k < 8 && names[k] == quality_name(x));
    }
}

/// The entries of the PlayerRuntime menu: no two alike, each read back as the
/// value it names, and the entry of every value among them.
proof fn lemma_playerruntime_menu()
    ensures
        forall|a: int, b: int| 0 <= a < 2 && 0 <= b < 2 && a != b
            ==> #[trigger] select_variants(SelectSetting::PlayerRuntime)[a] != #[trigger] select_variants(SelectSetting::PlayerRuntime)[b],
        forall|x: PlayerRuntime| #[trigger] runtime_of(runtime_name(x)) == Some(x),
        forall|v: Seq<char>| #[trigger] runtime_of(v) matches Some(x) ==> runtime_name(x) == v,
        forall|k: int| 0 <= k < 2 ==> #[trigger] runtime_of(select_variants(SelectSetting::PlayerRuntime)[k]) is Some,
        forall|x: PlayerRuntime| select_variants(SelectSetting::PlayerRuntime).contains(#[trigger] runtime_name(x)),
{
    reveal_strlit("Flash Player");
    reveal_strlit("Adobe AIR");
    let names = select_variants(SelectSetting::PlayerRuntime);
    assert(names[0] == "Flash Player"@);
    assert(names[1] == "Adobe AIR"@);
    assert forall|a: int, b: int| 0 <= a < 2 && 0 <= b < 2 && a != b implies names[a] != names[b] by {
        assert(names[a].len() != names[b].len() || names[a][0] != names[b][0]);
    }
    assert forall|x: PlayerRuntime| names.contains(#[trigger] runtime_name(x)) by {
        assert(exists|k: int| 0 <= k < 2 && names[k] == runtime_name(x));
    }
}

/// The entries of the Align menu: no two alike, each read back as the
/// value it names, and the entry of every value among them.
proof fn lemma_align_menu()
    ensures
        forall|a: int, b: int| 0 <= a < 9 && 0 <= b < 9 && a != b
            ==> #[trigger] select_variants(SelectSetting::Align)[a] != #[trigger] select_variants(SelectSetting::Align)[b],
        forall|x: StageAlign| align_is_placement(x) ==> #[trigger] align_of(align_name(x)) == Some(x),
        forall|v: Seq<char>| #[trigger] align_of(v) matches Some(x) ==> align_name(x) == v,
        forall|k: int| 0 <= k < 9 ==> #[trigger] align_of(select_variants(SelectSetting::Align)[k]) is Some,
        forall|x: StageAlign| select_variants(SelectSetting::Align).contains(#[trigger] align_name(x)),
{
    reveal_strlit("Center");
    reveal_strlit("Top");
    reveal_strlit("Bottom");
    reveal_strlit("Left");
    reveal_strlit("Right");
    reveal_strlit("Top-Left");
    reveal_strlit("Top-Right");
    reveal_strlit("Bottom-Left");
    reveal_strlit("Bottom-Right");
    let names = select_variants(SelectSetting::Align);
    assert(names[0] == "Center"@);
    assert(names[1] == "Top"@);
    assert(names[2] == "Bottom"@);
    assert(names[3] == "Left"@);
    assert(names[4] == "Right"@);
    assert(names[5] == "Top-Left"@);
    assert(names[6] == "Top-Right"@);
    assert(names[7] == "Bottom-Left"@);
    assert(names[8] == "Bottom-Right"@);
    assert forall|a: int, b: int| 0 <= a < 9 && 0 <= b < 9 && a != b implies names[a] != names[b] by {
        assert(names[a].len() != names[b].len() || names[a][0] != names[b][0]);
    }
    assert forall|x: StageAlign| names.contains(#[trigger] align_name(x)) by {
        assert(exists|k: int| 0 <= k < 9 && names[k] == align_name(x));
    }
}

/// The entries of the ScaleMode menu: no two alike, each read back as the
/// value it names, and the entry of every value among them.
proof fn lemma_scalemode_menu()
    ensures
        forall|a: int, b: int| 0 <= a < 4 && 0 <= b < 4 && a != b
            ==> #[trigger] select_variants(SelectSetting::ScaleMode)[a] != #[trigger] select_variants(SelectSetting::ScaleMode)[b],
        forall|x: StageScaleMode| #[trigger] scale_of(scale_name(x)) == Some(x),
        forall|v: Seq<char>| #[trigger] scale_of(v) matches Some(x) ==> scale_name(x) == v,
        forall|k: int| 0 <= k < 4 ==> #[trigger] scale_of(select_variants(SelectSetting::ScaleMode)[k]) is Some,
        forall|x: StageScaleMode| select_variants(SelectSetting::ScaleMode).contains(#[trigger] scale_name(x)),
{
    reveal_strlit("Unscaled (100%)");
    reveal_strlit("Zoom to Fit");
    reveal_strlit("Stretch to Fit");
    reveal_strlit("Crop to Fit");
    let names = select_variants(SelectSetting::ScaleMode);
    assert(names[0] == "Unscaled (100%)"@);
    assert(names[1] == "Zoom to Fit"@);
    assert(names[2] == "Stretch to Fit"@);
    assert(names[3] == "Crop to Fit"@);
    assert forall|a: int, b: int| 0 <= a < 4 && 0 <= b < 4 && a != b implies names[a] != names[b] by {
        assert(names[a].len() != names[b].len() || names[a][0] != names[b][0]);
    }
    assert forall|x: StageScaleMode| names.contains(#[trigger] scale_name(x)) by {
        assert(exists|k: int| 0 <= k < 4 && names[k] == scale_name(x));
    }
}

/// The entries of the LoadBehavior menu: no two alike, each read back as the
/// value it names, and the entry of every value among them.
proof fn lemma_loadbehavior_menu()
    ensures
        forall|a: int, b: int| 0 <= a < 3 && 0 <= b < 3 && a != b
            ==> #[trigger] select_variants(SelectSetting::LoadBehavior)[a] != #[trigger] select_variants(SelectSetting::LoadBehavior)[b],
        forall|x: LoadBehavior| #[trigger] load_behavior_of(load_behavior_name(x)) == Some(x),
        forall|v: Seq<char>| #[trigger] load_behavior_of(v) matches Some(x) ==> load_behavior_name(x) == v,
        forall|k: int| 0 <= k < 3 ==> #[trigger] load_behavior_of(select_variants(SelectSetting::LoadBehavior)[k]) is Some,
        forall|x: LoadBehavior| select_variants(SelectSetting::LoadBehavior).contains(#[trigger] load_behavior_name(x)),
{
    reveal_strlit("Streaming");
    reveal_strlit("Delayed");
    reveal_strlit("Blocking");
    let names = select_variants(SelectSetting::LoadBehavior);
    assert(names[0] == "Streaming"@);
    assert(names[1] == "Delayed"@);
    assert(names[2] == "Blocking"@);
    assert forall|a: int, b: int| 0 <= a < 3 && 0 <= b < 3 && a != b implies names[a] != names[b] by {
        assert(names[a].len() != names[b].len() || names[a][0] != names[b][0]);
    }
    assert forall|x: LoadBehavior| names.contains(#[trigger] load_behavior_name(x)) by {
        assert(exists|k: int| 0 <= k < 3 && names[k] == load_behavior_name(x));
    }
}

/// A menu row checks exactly one entry of its menu: "Default" when the
/// options choose nothing, the chosen entry otherwise.
pub proof fn menu_checks_one_entry(s: SelectSetting, o: PlayerOptions)
    ensures
        exists|k: int| 0 <= k < menu_items(s, o).len() && (#[trigger] menu_items(s, o)[k]).1
            && forall|j: int| 0 <= j < menu_items(s, o).len() && j != k ==> !(#[trigger] menu_items(s, o)[j]).1,
{
    let items = menu_items(s, o);
    let names = select_variants(s);
    match s {
        SelectSetting::Quality => {
            lemma_quality_menu();
        },
        SelectSetting::PlayerRuntime => {
            lemma_playerruntime_menu();
        },
        SelectSetting::Align => {
            lemma_align_menu();
        },
        SelectSetting::ScaleMode => {
            lemma_scalemode_menu();
        },
        SelectSetting::LoadBehavior => {
            lemma_loadbehavior_menu();
        },
    }
    lemma_variants_distinct(s);
    match enabled_variant(s, o) {
        None => {
            assert(items[0].1);
            assert forall|j: int| 0 <= j < items.len() && j != 0 implies !(#[trigger] items[j]).1 by {
                assert(items[j] == (names[j - 1], enabled_variant(s, o) == Some(names[j - 1])));
            }
        },
        Some(e) => {
            assert(names.contains(e));
            let k = choose|k: int| 0 <= k < names.len() && names[k] == e;
            assert(items[k + 1] == (names[k], true));
            assert forall|j: int| 0 <= j < items.len() && j != k + 1 implies !(#[trigger] items[j]).1 by {
                if j > 0 {
                    assert(items[j] == (names[j - 1], enabled_variant(s, o) == Some(names[j - 1])));
                }
            }
        },
    }
}

/// An on/off row that was set shows the value it was set to.
pub proof fn toggle_written_reads_back(s: BoolSetting, o: PlayerOptions, value: bool)
    ensures
        bool_value(s, bool_written(s, o, value)) == Some(value),
{
}

/// Taking back the text that the duration, player version or cookie row
/// shows leaves the options unchanged (for a duration of whole seconds).
pub proof fn text_shown_writes_back(s: StringSetting, o: PlayerOptions)
    requires
        s == StringSetting::MaxExecutionDuration || s == StringSetting::PlayerVersion || s == StringSetting::Cookie,
        string_text(s, o) is Some,
        s == StringSetting::MaxExecutionDuration ==> o.max_execution_duration->0.subsec_nanos == 0,
    ensures
        string_accepts(s, string_text(s, o)->0),
        string_written(s, o, string_text(s, o)->0, o),
{
    match s {
        StringSetting::MaxExecutionDuration => {
            decimal_text_reads_back(o.max_execution_duration->0.secs as nat, u64::MAX as nat);
        },
        StringSetting::PlayerVersion => {
            decimal_text_reads_back(o.player_version->0 as nat, u8::MAX as nat);
        },
        _ => {},
    }
}

/// Each entry of a menu row sets the value it names, and a value shows as
/// its own entry: the entries of the quality, runtime, alignment (the
/// edges top 1, bottom 2, left 4, right 8), scale mode and load behaviour
/// menus, entry by entry; and each menu row shows and sets its own option,
/// leaving the others as they are.
pub proof fn menu_entries_set_what_they_name(o: PlayerOptions, v: Seq<char>)
    ensures
        quality_of("Low"@) == Some(StageQuality::Low),
        quality_name(StageQuality::Low) == "Low"@,
        quality_of("Medium"@) == Some(StageQuality::Medium),
        quality_name(StageQuality::Medium) == "Medium"@,
        quality_of("High"@) == Some(StageQuality::High),
        quality_name(StageQuality::High) == "High"@,
        quality_of("Best"@) == Some(StageQuality::Best),
        quality_name(StageQuality::Best) == "Best"@,
        quality_of("High (8x8)"@) == Some(StageQuality::High8x8),
        quality_name(StageQuality::High8x8) == "High (8x8)"@,
        quality_of("High (8x8) Linear"@) == Some(StageQuality::High8x8Linear),
        quality_name(StageQuality::High8x8Linear) == "High (8x8) Linear"@,
        quality_of("High (16x16)"@) == Some(StageQuality::High16x16),
        quality_name(StageQuality::High16x16) == "High (16x16)"@,
        quality_of("High (16x16) Linear"@) == Some(StageQuality::High16x16Linear),
        quality_name(StageQuality::High16x16Linear) == "High (16x16) Linear"@,
        runtime_of("Flash Player"@) == Some(PlayerRuntime::FlashPlayer),
        runtime_name(PlayerRuntime::FlashPlayer) == "Flash Player"@,
        runtime_of("Adobe AIR"@) == Some(PlayerRuntime::AIR),
        runtime_name(PlayerRuntime::AIR) == "Adobe AIR"@,
        scale_of("Unscaled (100%)"@) == Some(StageScaleMode::NoScale),
        scale_name(StageScaleMode::NoScale) == "Unscaled (100%)"@,
        scale_of("Zoom to Fit"@) == Some(StageScaleMode::ShowAll),
        scale_name(StageScaleMode::ShowAll) == "Zoom to Fit"@,
        scale_of("Stretch to Fit"@) == Some(StageScaleMode::ExactFit),
        scale_name(StageScaleMode::ExactFit) == "Stretch to Fit"@,
        scale_of("Crop to Fit"@) == Some(StageScaleMode::NoBorder),
        scale_name(StageScaleMode::NoBorder) == "Crop to Fit"@,
        load_behavior_of("Streaming"@) == Some(LoadBehavior::Streaming),
        load_behavior_name(LoadBehavior::Streaming) == "Streaming"@,
        load_behavior_of("Delayed"@) == Some(LoadBehavior::Delayed),
        load_behavior_name(LoadBehavior::Delayed) == "Delayed"@,
        load_behavior_of("Blocking"@) == Some(LoadBehavior::Blocking),
        load_behavior_name(LoadBehavior::Blocking) == "Blocking"@,
        align_of("Center"@) == Some((StageAlign { bits: 0 })),
        align_of("Top"@) == Some((StageAlign { bits: 1 })),
        align_name((StageAlign { bits: 1 })) == "Top"@,
        align_of("Bottom"@) == Some((StageAlign { bits: 2 })),
        align_name((StageAlign { bits: 2 })) == "Bottom"@,
        align_of("Left"@) == Some((StageAlign { bits: 4 })),
        align_name((StageAlign { bits: 4 })) == "Left"@,
        align_of("Right"@) == Some((StageAlign { bits: 8 })),
        align_name((StageAlign { bits: 8 })) == "Right"@,
        align_of("Top-Left"@) == Some((StageAlign { bits: 5 })),
        align_name((StageAlign { bits: 5 })) == "Top-Left"@,
        align_of("Top-Right"@) == Some((StageAlign { bits: 9 })),
        align_name((StageAlign { bits: 9 })) == "Top-Right"@,
        align_of("Bottom-Left"@) == Some((StageAlign { bits: 6 })),
        align_name((StageAlign { bits: 6 })) == "Bottom-Left"@,
        align_of("Bottom-Right"@) == Some((StageAlign { bits: 10 })),
        align_name((StageAlign { bits: 10 })) == "Bottom-Right"@,
        align_name((StageAlign { bits: 0 })) == "Center"@,
        select_label(SelectSetting::Quality) == "Quality"@,
        enabled_variant(SelectSetting::Quality, o) == (match o.quality { Some(x) => Some(quality_name(x)), None => None }),
        select_written(SelectSetting::Quality, o, v).quality == quality_of(v),
        (PlayerOptions { quality: o.quality, ..select_written(SelectSetting::Quality, o, v) }) == o,
        select_label(SelectSetting::PlayerRuntime) == "Player runtime"@,
        enabled_variant(SelectSetting::PlayerRuntime, o) == (match o.player_runtime { Some(x) => Some(runtime_name(x)), None => None }),
        select_written(SelectSetting::PlayerRuntime, o, v).player_runtime == runtime_of(v),
        (PlayerOptions { player_runtime: o.player_runtime, ..select_written(SelectSetting::PlayerRuntime, o, v) }) == o,
        select_label(SelectSetting::ScaleMode) == "Scale mode"@,
        enabled_variant(SelectSetting::ScaleMode, o) == (match o.scale { Some(x) => Some(scale_name(x)), None => None }),
        select_written(SelectSetting::ScaleMode, o, v).scale == scale_of(v),
        (PlayerOptions { scale: o.scale, ..select_written(SelectSetting::ScaleMode, o, v) }) == o,
        select_label(SelectSetting::LoadBehavior) == "Load behaviour"@,
        enabled_variant(SelectSetting::LoadBehavior, o) == (match o.load_behavior { Some(x) => Some(load_behavior_name(x)), None => None }),
        select_written(SelectSetting::LoadBehavior, o, v).load_behavior == load_behavior_of(v),
        (PlayerOptions { load_behavior: o.load_behavior, ..select_written(SelectSetting::LoadBehavior, o, v) }) == o,
        select_label(SelectSetting::Align) == "Alignment"@,
        enabled_variant(SelectSetting::Align, o) == (match o.align { Some(a) => Some(align_name(a)), None => None }),
        select_written(SelectSetting::Align, o, v).align == align_of(v),
        (PlayerOptions { align: o.align, ..select_written(SelectSetting::Align, o, v) }) == o,
{
    lemma_quality_menu();
    lemma_playerruntime_menu();
    lemma_align_menu();
    lemma_scalemode_menu();
    lemma_loadbehavior_menu();
    assert(align_is_placement((StageAlign { bits: 0 })));
}

/// Each text row shows and sets its own option: the "Custom base URL" row
/// the base URL, "Spoof SWF URL" the spoofed URL, "Referer URL" the
/// referer, "Cookie" the cookie, "Player version" the player version and
/// "Maximum execution duration (s)" the execution limit in whole seconds;
/// a row's write leaves every other option as it was.
pub proof fn text_rows_show_and_set_their_options(o: PlayerOptions, before: PlayerOptions, v: Seq<char>, after: PlayerOptions)
    ensures
        string_label(StringSetting::MaxExecutionDuration) == "Maximum execution duration (s)"@,
        string_label(StringSetting::PlayerVersion) == "Player version"@,
        string_label(StringSetting::BaseUrl) == "Custom base URL"@,
        string_label(StringSetting::SpoofUrl) == "Spoof SWF URL"@,
        string_label(StringSetting::RefererUrl) == "Referer URL"@,
        string_label(StringSetting::Cookie) == "Cookie"@,
        string_text(StringSetting::BaseUrl, o) == opt_chars(o.base),
        string_text(StringSetting::SpoofUrl, o) == opt_chars(o.spoof_url),
        string_text(StringSetting::RefererUrl, o) == opt_chars(o.referer),
        string_text(StringSetting::Cookie, o) == opt_chars(o.cookie),
        string_text(StringSetting::PlayerVersion, o) == (match o.player_version {
            Some(p) => Some(decimal_digits(p as nat)),
            None => None,
        }),
        string_text(StringSetting::MaxExecutionDuration, o) == (match o.max_execution_duration {
            Some(t) => Some(decimal_digits(t.secs as nat)),
            None => None,
        }),
        string_written(StringSetting::BaseUrl, before, v, after) ==> opt_chars(after.base) == url_parse(v)
            && (PlayerOptions { base: before.base, ..after }) == before,
        string_written(StringSetting::SpoofUrl, before, v, after) ==> opt_chars(after.spoof_url) == url_parse(v)
            && (PlayerOptions { spoof_url: before.spoof_url, ..after }) == before,
        string_written(StringSetting::RefererUrl, before, v, after) ==> opt_chars(after.referer) == url_parse(v)
            && (PlayerOptions { referer: before.referer, ..after }) == before,
        string_written(StringSetting::Cookie, before, v, after) ==> opt_chars(after.cookie) == Some(v)
            && (PlayerOptions { cookie: before.cookie, ..after }) == before,
        string_written(StringSetting::PlayerVersion, before, v, after) ==> after.player_version == Some(
            parsed_unsigned(v, u8::MAX as nat)->0 as u8,
        ) && (PlayerOptions { player_version: before.player_version, ..after }) == before,
        string_written(StringSetting::MaxExecutionDuration, before, v, after) ==> after.max_execution_duration
            == Some((TimeSpan { secs: parsed_unsigned(v, u64::MAX as nat)->0 as u64, subsec_nanos: 0 }))
            && (PlayerOptions { max_execution_duration: before.max_execution_duration, ..after }) == before,
{
}

/// What a text row took, it then shows: the URL that the `url` crate parses
/// from the text, the cookie as typed, and a number in its decimal form.
pub proof fn text_written_reads_back(s: StringSetting, before: PlayerOptions, v: Seq<char>, after: PlayerOptions)
    requires
        string_accepts(s, v),
        string_written(s, before, v, after),
    ensures
        string_text(s, after) == (match s {
            StringSetting::BaseUrl | StringSetting::SpoofUrl | StringSetting::RefererUrl => url_parse(v),
            StringSetting::Cookie => Some(v),
            StringSetting::PlayerVersion => Some(decimal_digits(parsed_unsigned(v, u8::MAX as nat)->0)),
            StringSetting::MaxExecutionDuration => Some(decimal_digits(parsed_unsigned(v, u64::MAX as nat)->0)),
        }),
{
}

/// Each on/off row shows and sets its own option: the "Force" row of the
/// alignment section forces the alignment, that of the scale mode section
/// the scale mode; "Upgrade HTTP to HTTPS" and "Dummy external interface"
/// their own; a row's write leaves every other option as it was.
pub proof fn toggle_rows_show_and_set_their_options(o: PlayerOptions, value: bool)
    ensures
        bool_label(BoolSetting::UpgradeToHttps) == "Upgrade HTTP to HTTPS"@,
        bool_label(BoolSetting::DummyExternalInterface) == "Dummy external interface"@,
        bool_value(BoolSetting::ForceAlign, o) == o.force_align,
        bool_value(BoolSetting::ForceScale, o) == o.force_scale,
        bool_value(BoolSetting::UpgradeToHttps, o) == o.upgrade_to_https,
        bool_value(BoolSetting::DummyExternalInterface, o) == o.dummy_external_interface,
        bool_written(BoolSetting::ForceAlign, o, value) == (PlayerOptions { force_align: Some(value), ..o }),
        bool_written(BoolSetting::ForceScale, o, value) == (PlayerOptions { force_scale: Some(value), ..o }),
        bool_written(BoolSetting::UpgradeToHttps, o, value) == (PlayerOptions { upgrade_to_https: Some(value), ..o }),
        bool_written(BoolSetting::DummyExternalInterface, o, value) == (PlayerOptions {
            dummy_external_interface: Some(value),
            ..o
        }),
{
}

/// The rows of the settings form, section by section: the movie's name;
/// the maximum execution duration, quality, player version, player runtime
/// and frame rate; the alignment and its "Force"; the scale mode and its
/// "Force"; the base URL, spoofed URL, referer, cookie, upgrade to HTTPS,
/// load behaviour and dummy external interface (then one row per movie
/// parameter and one to add a parameter). The menus list their entries in
/// this order, after "Default", which is checked exactly when the options
/// choose nothing; an on/off row shows its default as segment 0, off as 1
/// and on as 2.
pub proof fn form_rows(s: SelectSetting, o: PlayerOptions)
    ensures
        form() == seq![
            seq![FormElement::Name],
            seq![
                FormElement::String(StringSetting::MaxExecutionDuration),
                FormElement::Select(SelectSetting::Quality),
                FormElement::String(StringSetting::PlayerVersion),
                FormElement::Select(SelectSetting::PlayerRuntime),
                FormElement::FrameRate,
            ],
            seq![FormElement::Select(SelectSetting::Align), FormElement::Bool(BoolSetting::ForceAlign)],
            seq![FormElement::Select(SelectSetting::ScaleMode), FormElement::Bool(BoolSetting::ForceScale)],
            seq![
                FormElement::String(StringSetting::BaseUrl),
                FormElement::String(StringSetting::SpoofUrl),
                FormElement::String(StringSetting::RefererUrl),
                FormElement::String(StringSetting::Cookie),
                FormElement::Bool(BoolSetting::UpgradeToHttps),
                FormElement::Select(SelectSetting::LoadBehavior),
                FormElement::Bool(BoolSetting::DummyExternalInterface),
            ],
        ],
        select_variants(SelectSetting::Quality) == seq![
            "Low"@, "Medium"@, "High"@, "Best"@, "High (8x8)"@, "High (8x8) Linear"@, "High (16x16)"@,
            "High (16x16) Linear"@,
        ],
        select_variants(SelectSetting::PlayerRuntime) == seq!["Flash Player"@, "Adobe AIR"@],
        select_variants(SelectSetting::Align) == seq![
            "Center"@, "Top"@, "Bottom"@, "Left"@, "Right"@, "Top-Left"@, "Top-Right"@, "Bottom-Left"@,
            "Bottom-Right"@,
        ],
        select_variants(SelectSetting::ScaleMode) == seq![
            "Unscaled (100%)"@, "Zoom to Fit"@, "Stretch to Fit"@, "Crop to Fit"@,
        ],
        select_variants(SelectSetting::LoadBehavior) == seq!["Streaming"@, "Delayed"@, "Blocking"@],
        menu_items(s, o).len() == select_variants(s).len() + 1,
        menu_items(s, o)[0] == ("Default"@, enabled_variant(s, o) is None),
        forall|k: int| 0 <= k < select_variants(s).len() ==> #[trigger] menu_items(s, o)[k + 1] == (
            select_variants(s)[k],
            enabled_variant(s, o) == Some(select_variants(s)[k]),
        ),
        segment_for(None) == 0,
        segment_for(Some(false)) == 1,
        segment_for(Some(true)) == 2,
{
    assert(form() =~= seq![
        seq![FormElement::Name],
        seq![
            FormElement::String(StringSetting::MaxExecutionDuration),
            FormElement::Select(SelectSetting::Quality),
            FormElement::String(StringSetting::PlayerVersion),
            FormElement::Select(SelectSetting::PlayerRuntime),
            FormElement::FrameRate,
        ],
        seq![FormElement::Select(SelectSetting::Align), FormElement::Bool(BoolSetting::ForceAlign)],
        seq![FormElement::Select(SelectSetting::ScaleMode), FormElement::Bool(BoolSetting::ForceScale)],
        seq![
            FormElement::String(StringSetting::BaseUrl),
            FormElement::String(StringSetting::SpoofUrl),
            FormElement::String(StringSetting::RefererUrl),
            FormElement::String(StringSetting::Cookie),
            FormElement::Bool(BoolSetting::UpgradeToHttps),
            FormElement::Select(SelectSetting::LoadBehavior),
            FormElement::Bool(BoolSetting::DummyExternalInterface),
        ],
    ]);
}

} // verus!
