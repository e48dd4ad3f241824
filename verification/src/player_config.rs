//! The configuration a player is built with, from the options of the movie
//! it plays: each option the options leave open takes the player's default.
use vstd::prelude::*;

use crate::text::opt_chars;
use crate::options::{
    Letterbox, LoadBehavior, PlayerOptions, PlayerRuntime, StageAlign, StageQuality, StageScaleMode, TimeSpan,
};

verus! {

/// Everything the player is built with that depends on the options.
#[derive(Clone, Debug)]
pub struct PlayerConfig {
    /// The URL that relative URLs of the movie resolve against.
    pub base_url: String,
    pub referer: Option<String>,
    pub cookie: Option<String>,
    pub upgrade_to_https: bool,
    pub letterbox: Letterbox,
    pub max_execution_duration: TimeSpan,
    pub quality: StageQuality,
    pub align: StageAlign,
    pub force_align: bool,
    pub scale: StageScaleMode,
    pub force_scale: bool,
    pub load_behavior: LoadBehavior,
    pub spoofed_url: Option<String>,
    pub page_url: Option<String>,
    pub player_version: Option<u8>,
    pub player_runtime: PlayerRuntime,
    /// The URL of the root movie to load.
    pub movie_url: String,
    /// The parameters the root movie is loaded with.
    pub parameters: Vec<(String, String)>,
}

/// The longest time span there is: the limit when the options set none.
pub open spec fn unlimited() -> TimeSpan {
    TimeSpan { secs: u64::MAX, subsec_nanos: 999_999_999 }
}

/// Whether `c` is the configuration of a player for the movie at
/// `movie_url` with options `o`: the base URL is the movie's URL unless
/// the options give one; the letterbox is on, the execution time
/// unlimited, the quality high, the stage centered and shown whole
/// (`ShowAll`), loading streamed, the runtime the Flash Player, and
/// alignment, scale mode and HTTPS upgrade not forced, unless the options
/// say otherwise; the spoofed URL also serves as the page URL; the other
/// options pass through.
pub open spec fn configures(c: PlayerConfig, o: PlayerOptions, movie_url: Seq<char>) -> bool {
    &&& c.base_url@ == match o.base {
        Some(b) => b@,
        None => movie_url,
    }
    &&& opt_chars(c.referer) == opt_chars(o.referer)
    &&& opt_chars(c.cookie) == opt_chars(o.cookie)
    &&& c.upgrade_to_https == match o.upgrade_to_https { Some(b) => b, None => false }
    &&& c.letterbox == match o.letterbox { Some(l) => l, None => Letterbox::On }
    &&& c.max_execution_duration == match o.max_execution_duration { Some(d) => d, None => unlimited() }
    &&& c.quality == match o.quality { Some(q) => q, None => StageQuality::High }
    &&& c.align == match o.align { Some(a) => a, None => StageAlign { bits: 0 } }
    &&& c.force_align == match o.force_align { Some(b) => b, None => false }
    &&& c.scale == match o.scale { Some(m) => m, None => StageScaleMode::ShowAll }
    &&& c.force_scale == match o.force_scale { Some(b) => b, None => false }
    &&& c.load_behavior == match o.load_behavior { Some(b) => b, None => LoadBehavior::Streaming }
    &&& opt_chars(c.spoofed_url) == opt_chars(o.spoof_url)
    &&& opt_chars(c.page_url) == opt_chars(o.spoof_url)
    &&& c.player_version == o.player_version
    &&& c.player_runtime == match o.player_runtime { Some(r) => r, None => PlayerRuntime::FlashPlayer }
    &&& c.movie_url@ == movie_url
    &&& c.parameters@ == o.parameters@
}

/// A copy of an optional text.
fn copy_text(text: &Option<String>) -> (copy: Option<String>)
    ensures
        copy == *text,
{
    match text {
        Some(t) => Some(t.clone()),
        None => None,
    }
}

/// A copy of a list of movie parameters.
fn copy_parameters(parameters: &Vec<(String, String)>) -> (copy: Vec<(String, String)>)
    ensures
        copy@ == parameters@,
{
    let mut copy: Vec<(String, String)> = Vec::new();
    let mut i: usize = 0;
    while i < parameters.len()
        invariant
            i <= parameters.len(),
            copy@ == parameters@.subrange(0, i as int),
        decreases parameters.len() - i,
    {
        let (name, value) = &parameters[i];
        copy.push((name.clone(), value.clone()));
        assert(copy@ =~= parameters@.subrange(0, i + 1));
        i = i + 1;
    }
    assert(copy@ =~= parameters@);
    copy
}

/// The configuration of a player for the movie at `movie_url` with the
/// options `options` (those of the user, merged with those of the movie's
/// bundle when it has one).
pub fn player_config(options: &PlayerOptions, movie_url: &str) -> (config: PlayerConfig)
    ensures
        configures(config, *options, movie_url@),
        opt_chars(config.referer) == opt_chars(options.referer),
        opt_chars(config.cookie) == opt_chars(options.cookie),
        opt_chars(config.spoofed_url) == opt_chars(options.spoof_url),
        config.movie_url@ == movie_url@,
{
    let base_url = match &options.base {
        Some(b) => b.clone(),
        None => movie_url.to_owned(),
    };
    PlayerConfig {
        base_url,
        referer: copy_text(&options.referer),
        cookie: copy_text(&options.cookie),
        upgrade_to_https: match options.upgrade_to_https {
            Some(b) => b,
            None => false,
        },
        letterbox: match options.letterbox {
            Some(l) => l,
            None => Letterbox::On,
        },
        max_execution_duration: match options.max_execution_duration {
            Some(d) => d,
            None => TimeSpan { secs: u64::MAX, subsec_nanos: 999_999_999 },
        },
        quality: match options.quality {
            Some(q) => q,
            None => StageQuality::High,
        },
        align: match options.align {
            Some(a) => a,
            None => StageAlign::default(),
        },
        force_align: match options.force_align {
            Some(b) => b,
            None => false,
        },
        scale: match options.scale {
            Some(m) => m,
            None => StageScaleMode::default(),
        },
        force_scale: match options.force_scale {
            Some(b) => b,
            None => false,
        },
        load_behavior: match options.load_behavior {
            Some(b) => b,
            None => LoadBehavior::Streaming,
        },
        spoofed_url: copy_text(&options.spoof_url),
        page_url: copy_text(&options.spoof_url),
        player_version: options.player_version,
        player_runtime: match options.player_runtime {
            Some(r) => r,
            None => PlayerRuntime::default(),
        },
        movie_url: movie_url.to_owned(),
        parameters: copy_parameters(&options.parameters),
    }
}

/// The player is built with what the options say: the referer, the cookie
/// and the spoofed URL (which is also the page URL) are the options' own;
/// the base URL is the options' base URL, else the movie's URL; the movie
/// loads from the movie's URL with the options' parameters; and each option
/// that the options give is the player's, each they leave open the
/// player's default (letterbox on, no time limit, high quality, centered,
/// shown whole, streamed, the Flash Player, nothing forced, no upgrade to
/// HTTPS).
pub proof fn player_takes_the_options(c: PlayerConfig, o: PlayerOptions, movie_url: Seq<char>)
    requires
        configures(c, o, movie_url),
    ensures
        opt_chars(c.referer) == opt_chars(o.referer),
        opt_chars(c.cookie) == opt_chars(o.cookie),
        opt_chars(c.spoofed_url) == opt_chars(o.spoof_url),
        opt_chars(c.page_url) == opt_chars(o.spoof_url),
        o.base is Some ==> c.base_url@ == o.base->0@,
        o.base is None ==> c.base_url@ == movie_url,
        c.movie_url@ == movie_url,
        c.parameters@ == o.parameters@,
        c.player_version == o.player_version,
        o.quality is Some ==> c.quality == o.quality->0,
        o.quality is None ==> c.quality == StageQuality::High,
        o.scale is Some ==> c.scale == o.scale->0,
        o.scale is None ==> c.scale == StageScaleMode::ShowAll,
        o.align is Some ==> c.align == o.align->0,
        o.align is None ==> c.align.bits == 0,
        o.letterbox is Some ==> c.letterbox == o.letterbox->0,
        o.letterbox is None ==> c.letterbox == Letterbox::On,
        o.load_behavior is Some ==> c.load_behavior == o.load_behavior->0,
        o.load_behavior is None ==> c.load_behavior == LoadBehavior::Streaming,
        o.player_runtime is Some ==> c.player_runtime == o.player_runtime->0,
        o.player_runtime is None ==> c.player_runtime == PlayerRuntime::FlashPlayer,
        o.max_execution_duration is Some ==> c.max_execution_duration == o.max_execution_duration->0,
        o.max_execution_duration is None ==> c.max_execution_duration.secs == u64::MAX,
        c.force_align == (o.force_align == Some(true)),
        c.force_scale == (o.force_scale == Some(true)),
        c.upgrade_to_https == (o.upgrade_to_https == Some(true)),
{
}

} // verus!
