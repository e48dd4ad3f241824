//! The options that a user or a Ruffle Bundle gives for playing a movie,
//! as the player reads them.
use vstd::prelude::*;

verus! {

/// The rendering quality of the stage.
#[derive(Clone, Copy, Debug, PartialEq, Eq, Structural)]
pub enum StageQuality {
    Low,
    Medium,
    High,
    Best,
    High8x8,
    High8x8Linear,
    High16x16,
    High16x16Linear,
}

/// The runtime that the movie believes it runs in.
#[derive(Clone, Copy, Debug, PartialEq, Eq, Structural)]
pub enum PlayerRuntime {
    FlashPlayer,
    AIR,
}

/// How the stage is scaled to the view.
#[derive(Clone, Copy, Debug, PartialEq, Eq, Structural)]
pub enum StageScaleMode {
    ExactFit,
    NoBorder,
    NoScale,
    ShowAll,
}

/// When a movie starts to play while it loads.
#[derive(Clone, Copy, Debug, PartialEq, Eq, Structural)]
pub enum LoadBehavior {
    Streaming,
    Delayed,
    Blocking,
}

/// Whether the area outside the stage is masked.
#[derive(Clone, Copy, Debug, PartialEq, Eq, Structural)]
pub enum Letterbox {
    Off,
    Fullscreen,
    On,
}

/// The alignment of the stage in the view: a set of edges, as bits
/// (top 1, bottom 2, left 4, right 8); no bits means centered.
#[derive(Clone, Copy, Debug, PartialEq, Eq, Structural)]
pub struct StageAlign {
    pub bits: u8,
}

impl StageAlign {
    /// Centered: no edge.
    pub fn empty() -> (a: StageAlign)
        ensures
            a.bits == 0,
    {
        StageAlign { bits: 0 }
    }

    /// Aligned to the top edge.
    pub fn top() -> (a: StageAlign)
        ensures
            a.bits == 1,
    {
        StageAlign { bits: 1 }
    }

    /// Aligned to the bottom edge.
    pub fn bottom() -> (a: StageAlign)
        ensures
            a.bits == 2,
    {
        StageAlign { bits: 2 }
    }

    /// Aligned to the left edge.
    pub fn left() -> (a: StageAlign)
        ensures
            a.bits == 4,
    {
        StageAlign { bits: 4 }
    }

    /// Aligned to the right edge.
    pub fn right() -> (a: StageAlign)
        ensures
            a.bits == 8,
    {
        StageAlign { bits: 8 }
    }

    /// The edges of both alignments.
    pub fn union(self, other: StageAlign) -> (a: StageAlign)
        ensures
            a.bits == self.bits | other.bits,
    {
        StageAlign { bits: self.bits | other.bits }
    }
}

/// A length of time, as whole seconds and the nanoseconds beyond them.
#[derive(Clone, Copy, Debug, PartialEq, Eq, Structural)]
pub struct TimeSpan {
    pub secs: u64,
    pub subsec_nanos: u32,
}

/// The options for playing a movie; `None` leaves the choice to the movie's
/// bundle or to the player's default. URLs are held in their serialized
/// form. The custom frame rate, a floating-point number, is held as the
/// bit pattern of the `f64` (`f64::to_bits`).
#[derive(Clone, Debug)]
pub struct PlayerOptions {
    pub parameters: Vec<(String, String)>,
    pub max_execution_duration: Option<TimeSpan>,
    pub base: Option<String>,
    pub quality: Option<StageQuality>,
    pub align: Option<StageAlign>,
    pub force_align: Option<bool>,
    pub scale: Option<StageScaleMode>,
    pub force_scale: Option<bool>,
    pub upgrade_to_https: Option<bool>,
    pub load_behavior: Option<LoadBehavior>,
    pub letterbox: Option<Letterbox>,
    pub spoof_url: Option<String>,
    pub player_version: Option<u8>,
    pub player_runtime: Option<PlayerRuntime>,
    pub referer: Option<String>,
    pub cookie: Option<String>,
    pub dummy_external_interface: Option<bool>,
    pub frame_rate_bits: Option<u64>,
}

/// The options as values: texts as sequences of characters, the
/// parameters as pairs of them.
pub struct OptionsView {
    pub parameters: Seq<(Seq<char>, Seq<char>)>,
    pub max_execution_duration: Option<TimeSpan>,
    pub base: Option<Seq<char>>,
    pub quality: Option<StageQuality>,
    pub align: Option<StageAlign>,
    pub force_align: Option<bool>,
    pub scale: Option<StageScaleMode>,
    pub force_scale: Option<bool>,
    pub upgrade_to_https: Option<bool>,
    pub load_behavior: Option<LoadBehavior>,
    pub letterbox: Option<Letterbox>,
    pub spoof_url: Option<Seq<char>>,
    pub player_version: Option<u8>,
    pub player_runtime: Option<PlayerRuntime>,
    pub referer: Option<Seq<char>>,
    pub cookie: Option<Seq<char>>,
    pub dummy_external_interface: Option<bool>,
    pub frame_rate_bits: Option<u64>,
}

/// A text that may be absent, as characters.
pub open spec fn opt_text_view(o: Option<String>) -> Option<Seq<char>> {
    match o {
        Some(s) => Some(s@),
        None => None,
    }
}

/// The parameters as pairs of character sequences.
pub open spec fn parameters_view(ps: Seq<(String, String)>) -> Seq<(Seq<char>, Seq<char>)> {
    ps.map_values(|p: (String, String)| (p.0@, p.1@))
}

/// Options that give nothing, as values.
pub open spec fn unset_view() -> OptionsView {
    OptionsView {
        parameters: Seq::empty(),
        max_execution_duration: None,
        base: None,
        quality: None,
        align: None,
        force_align: None,
        scale: None,
        force_scale: None,
        upgrade_to_https: None,
        load_behavior: None,
        letterbox: None,
        spoof_url: None,
        player_version: None,
        player_runtime: None,
        referer: None,
        cookie: None,
        dummy_external_interface: None,
        frame_rate_bits: None,
    }
}

impl View for PlayerOptions {
    type V = OptionsView;

    open spec fn view(&self) -> OptionsView {
        OptionsView {
            parameters: parameters_view(self.parameters@),
            max_execution_duration: self.max_execution_duration,
            base: opt_text_view(self.base),
            quality: self.quality,
            align: self.align,
            force_align: self.force_align,
            scale: self.scale,
            force_scale: self.force_scale,
            upgrade_to_https: self.upgrade_to_https,
            load_behavior: self.load_behavior,
            letterbox: self.letterbox,
            spoof_url: opt_text_view(self.spoof_url),
            player_version: self.player_version,
            player_runtime: self.player_runtime,
            referer: opt_text_view(self.referer),
            cookie: opt_text_view(self.cookie),
            dummy_external_interface: self.dummy_external_interface,
            frame_rate_bits: self.frame_rate_bits,
        }
    }
}

impl PlayerOptions {
    /// Whether no option is given.
    pub open spec fn is_unset(&self) -> bool {
        &&& self.parameters@.len() == 0
        &&& self.max_execution_duration is None
        &&& self.base is None
        &&& self.quality is None
        &&& self.align is None
        &&& self.force_align is None
        &&& self.scale is None
        &&& self.force_scale is None
        &&& self.upgrade_to_https is None
        &&& self.load_behavior is None
        &&& self.letterbox is None
        &&& self.spoof_url is None
        &&& self.player_version is None
        &&& self.player_runtime is None
        &&& self.referer is None
        &&& self.cookie is None
        &&& self.dummy_external_interface is None
        &&& self.frame_rate_bits is None
    }

    /// Options that give nothing.
    pub fn unset() -> (options: PlayerOptions)
        ensures
            options.is_unset(),
            options@ == unset_view(),
    {
        let options = PlayerOptions {
            parameters: Vec::new(),
            max_execution_duration: None,
            base: None,
            quality: None,
            align: None,
            force_align: None,
            scale: None,
            force_scale: None,
            upgrade_to_https: None,
            load_behavior: None,
            letterbox: None,
            spoof_url: None,
            player_version: None,
            player_runtime: None,
            referer: None,
            cookie: None,
            dummy_external_interface: None,
            frame_rate_bits: None,
        };
        assert(options@.parameters =~= Seq::empty());
        options
    }
}

impl Default for StageAlign {
    /// Centered.
    fn default() -> (a: StageAlign)
        ensures
            a.bits == 0,
    {
        StageAlign { bits: 0 }
    }
}

impl Default for StageScaleMode {
    /// The movie is scaled to fit the view and keeps its aspect ratio.
    fn default() -> (m: StageScaleMode)
        ensures
            m == StageScaleMode::ShowAll,
    {
        StageScaleMode::ShowAll
    }
}

impl Default for PlayerRuntime {
    /// The Flash Player.
    fn default() -> (r: PlayerRuntime)
        ensures
            r == PlayerRuntime::FlashPlayer,
    {
        PlayerRuntime::FlashPlayer
    }
}

} // verus!
