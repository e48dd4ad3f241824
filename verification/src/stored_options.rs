//! The stored form of the options that a user sets for a movie. Every
//! option is kept, so that a movie plays again with the options that were
//! set for it.
//!
//! Layout: a format byte; then the eleven small options (quality, align,
//! force align, scale mode, force scale, upgrade to HTTPS, load behavior,
//! letterbox, player version, player runtime, dummy external interface),
//! each as a presence byte and a value byte; the maximum execution
//! duration; the frame rate (the bit pattern of its `f64`, as eight
//! little-endian bytes); the base URL, the spoofed URL, the referer and the
//! cookie; and the parameters. A text is its UTF-8 length as eight little-endian bytes
//! followed by its UTF-8 bytes; a part that may be absent starts with 0
//! (absent) or 1 (present); each parameter is 1, its name and its value,
//! and the parameters end with 0.
use vstd::prelude::*;
use vstd::utf8::{decode_utf8, encode_utf8, valid_utf8};

use crate::options::{
    Letterbox, LoadBehavior, OptionsView, PlayerOptions, PlayerRuntime, StageAlign, StageQuality, StageScaleMode,
    TimeSpan,
};

verus! {

/// The first byte of the stored form.
pub const FORMAT_VERSION: u8 = 1;

/// The number of small options.
pub const SMALL_FIELDS: usize = 11;

// ----- small options -----

/// The code of a quality.
pub open spec fn quality_code(q: StageQuality) -> u8 {
    match q {
        StageQuality::Low => 0,
        StageQuality::Medium => 1,
        StageQuality::High => 2,
        StageQuality::Best => 3,
        StageQuality::High8x8 => 4,
        StageQuality::High8x8Linear => 5,
        StageQuality::High16x16 => 6,
        StageQuality::High16x16Linear => 7,
    }
}

/// The code of a scale mode.
pub open spec fn scale_code(s: StageScaleMode) -> u8 {
    match s {
        StageScaleMode::ExactFit => 0,
        StageScaleMode::NoBorder => 1,
        StageScaleMode::NoScale => 2,
        StageScaleMode::ShowAll => 3,
    }
}

/// The code of a load behavior.
pub open spec fn load_code(l: LoadBehavior) -> u8 {
    match l {
        LoadBehavior::Streaming => 0,
        LoadBehavior::Delayed => 1,
        LoadBehavior::Blocking => 2,
    }
}

/// The code of a letterbox choice.
pub open spec fn letterbox_code(l: Letterbox) -> u8 {
    match l {
        Letterbox::Off => 0,
        Letterbox::Fullscreen => 1,
        Letterbox::On => 2,
    }
}

/// The code of a runtime.
pub open spec fn runtime_code(r: PlayerRuntime) -> u8 {
    match r {
        PlayerRuntime::FlashPlayer => 0,
        PlayerRuntime::AIR => 1,
    }
}

/// The code of a flag.
pub open spec fn bool_code(b: bool) -> u8 {
    if b { 1 } else { 0 }
}

/// A quality that may be absent, as a code.
pub open spec fn quality_field(o: Option<StageQuality>) -> Option<u8> {
    match o {
        Some(q) => Some(quality_code(q)),
        None => None,
    }
}

/// An alignment that may be absent, as a code: its bits.
pub open spec fn align_field(o: Option<StageAlign>) -> Option<u8> {
    match o {
        Some(a) => Some(a.bits),
        None => None,
    }
}

/// A flag that may be absent, as a code.
pub open spec fn bool_field(o: Option<bool>) -> Option<u8> {
    match o {
        Some(b) => Some(bool_code(b)),
        None => None,
    }
}

/// A scale mode that may be absent, as a code.
pub open spec fn scale_field(o: Option<StageScaleMode>) -> Option<u8> {
    match o {
        Some(s) => Some(scale_code(s)),
        None => None,
    }
}

/// A load behavior that may be absent, as a code.
pub open spec fn load_field(o: Option<LoadBehavior>) -> Option<u8> {
    match o {
        Some(l) => Some(load_code(l)),
        None => None,
    }
}

/// A letterbox choice that may be absent, as a code.
pub open spec fn letterbox_field(o: Option<Letterbox>) -> Option<u8> {
    match o {
        Some(l) => Some(letterbox_code(l)),
        None => None,
    }
}

/// A runtime that may be absent, as a code.
pub open spec fn runtime_field(o: Option<PlayerRuntime>) -> Option<u8> {
    match o {
        Some(r) => Some(runtime_code(r)),
        None => None,
    }
}

/// The eleven small options as codes, `None` where an option is not given.
pub open spec fn small_fields(m: OptionsView) -> Seq<Option<u8>> {
    seq![
        quality_field(m.quality),
        align_field(m.align),
        bool_field(m.force_align),
        scale_field(m.scale),
        bool_field(m.force_scale),
        bool_field(m.upgrade_to_https),
        load_field(m.load_behavior),
        letterbox_field(m.letterbox),
        m.player_version,
        runtime_field(m.player_runtime),
        bool_field(m.dummy_external_interface),
    ]
}

/// The presence byte of a code.
pub open spec fn presence(c: Option<u8>) -> u8 {
    match c {
        Some(_) => 1,
        None => 0,
    }
}

/// The value byte of a code; 0 when it is absent.
pub open spec fn value_byte(c: Option<u8>) -> u8 {
    match c {
        Some(v) => v,
        None => 0,
    }
}

/// Codes as pairs of a presence byte and a value byte.
pub open spec fn codes_bytes(codes: Seq<Option<u8>>) -> Seq<u8> {
    Seq::new(
        2 * codes.len(),
        |i: int| if i % 2 == 0 { presence(codes[i / 2]) } else { value_byte(codes[i / 2]) },
    )
}

// ----- numbers and texts -----

/// The eight little-endian bytes of `x`.
pub open spec fn u64_bytes(x: u64) -> Seq<u8> {
    seq![
        x as u8,
        (x >> 8u64) as u8,
        (x >> 16u64) as u8,
        (x >> 24u64) as u8,
        (x >> 32u64) as u8,
        (x >> 40u64) as u8,
        (x >> 48u64) as u8,
        (x >> 56u64) as u8,
    ]
}

/// The number whose little-endian bytes are given.
pub open spec fn u64_of(b0: u8, b1: u8, b2: u8, b3: u8, b4: u8, b5: u8, b6: u8, b7: u8) -> u64 {
    (b0 as u64) | ((b1 as u64) << 8u64) | ((b2 as u64) << 16u64) | ((b3 as u64) << 24u64) | ((b4 as u64)
        << 32u64) | ((b5 as u64) << 40u64) | ((b6 as u64) << 48u64) | ((b7 as u64) << 56u64)
}

/// The number stored in the eight bytes at `p`.
pub open spec fn u64_at(b: Seq<u8>, p: int) -> u64 {
    u64_of(b[p], b[p + 1], b[p + 2], b[p + 3], b[p + 4], b[p + 5], b[p + 6], b[p + 7])
}

/// A text: its UTF-8 length, then its UTF-8 bytes.
pub open spec fn text_bytes(s: Seq<char>) -> Seq<u8> {
    u64_bytes(encode_utf8(s).len() as u64) + encode_utf8(s)
}

/// A text that may be absent.
pub open spec fn opt_text_bytes(o: Option<Seq<char>>) -> Seq<u8> {
    match o {
        Some(s) => seq![1u8] + text_bytes(s),
        None => seq![0u8],
    }
}

/// A duration that may be absent: its seconds, then its nanoseconds.
pub open spec fn span_bytes(o: Option<TimeSpan>) -> Seq<u8> {
    match o {
        Some(t) => seq![1u8] + u64_bytes(t.secs) + u64_bytes(t.subsec_nanos as u64),
        None => seq![0u8],
    }
}

/// A frame rate that may be absent, as the bytes of its bit pattern.
pub open spec fn rate_bytes(o: Option<u64>) -> Seq<u8> {
    match o {
        Some(bits) => seq![1u8] + u64_bytes(bits),
        None => seq![0u8],
    }
}

/// One parameter: 1, its name and its value.
pub open spec fn entry_bytes(p: (Seq<char>, Seq<char>)) -> Seq<u8> {
    seq![1u8] + text_bytes(p.0) + text_bytes(p.1)
}

/// The parameters: each as an entry; then 0.
pub open spec fn parameters_bytes(ps: Seq<(Seq<char>, Seq<char>)>) -> Seq<u8>
    decreases ps.len(),
{
    if ps.len() == 0 {
        seq![0u8]
    } else {
        entry_bytes(ps[0]) + parameters_bytes(ps.drop_first())
    }
}

/// The entries of the parameters, without the final 0.
pub open spec fn entries_bytes(ps: Seq<(Seq<char>, Seq<char>)>) -> Seq<u8>
    decreases ps.len(),
{
    if ps.len() == 0 {
        Seq::empty()
    } else {
        entry_bytes(ps[0]) + entries_bytes(ps.drop_first())
    }
}

/// The stored form of the options `m`.
pub open spec fn options_bytes(m: OptionsView) -> Seq<u8> {
    seq![FORMAT_VERSION] + codes_bytes(small_fields(m)) + span_bytes(m.max_execution_duration)
        + rate_bytes(m.frame_rate_bits) + opt_text_bytes(m.base) + opt_text_bytes(m.spoof_url) + opt_text_bytes(m.referer)
        + opt_text_bytes(m.cookie) + parameters_bytes(m.parameters)
}

/// The options that the bytes `data` hold: those whose stored form they
/// are; no option at all when they are the stored form of none.
pub open spec fn stored_options(data: Seq<u8>) -> OptionsView {
    if exists|m: OptionsView| options_bytes(m) == data {
        choose|m: OptionsView| options_bytes(m) == data
    } else {
        crate::options::unset_view()
    }
}

/// Whether the bytes `e` stand in `b` from position `p` on.
pub open spec fn has_at(b: Seq<u8>, p: int, e: Seq<u8>) -> bool {
    &&& 0 <= p
    &&& p + e.len() <= b.len()
    &&& b.subrange(p, p + e.len()) == e
}

// ----- writing -----

fn push_u64(out: &mut Vec<u8>, x: u64)
    ensures
        final(out)@ == old(out)@ + u64_bytes(x),
{
    out.push(x as u8);
    out.push((x >> 8) as u8);
    out.push((x >> 16) as u8);
    out.push((x >> 24) as u8);
    out.push((x >> 32) as u8);
    out.push((x >> 40) as u8);
    out.push((x >> 48) as u8);
    out.push((x >> 56) as u8);
    assert(out@ =~= old(out)@ + u64_bytes(x));
}

fn push_text(out: &mut Vec<u8>, s: &str)
    ensures
        final(out)@ == old(out)@ + text_bytes(s@),
{
    let bytes = s.as_bytes();
    push_u64(out, bytes.len() as u64);
    let ghost start = out@;
    let mut i: usize = 0;
    while i < bytes.len()
        invariant
            i <= bytes.len(),
            out@ == start + bytes@.subrange(0, i as int),
        decreases bytes.len() - i,
    {
        out.push(bytes[i]);
        assert(bytes@.subrange(0, i + 1) =~= bytes@.subrange(0, i as int).push(bytes@[i as int]));
        i = i + 1;
    }
    assert(bytes@.subrange(0, bytes@.len() as int) =~= bytes@);
    assert(out@ =~= old(out)@ + text_bytes(s@));
}

fn push_opt_text(out: &mut Vec<u8>, o: &Option<String>)
    ensures
        final(out)@ == old(out)@ + opt_text_bytes(crate::options::opt_text_view(*o)),
{
    match o {
        Some(s) => {
            out.push(1);
            push_text(out, s.as_str());
            assert(out@ =~= old(out)@ + opt_text_bytes(crate::options::opt_text_view(*o)));
        },
        None => {
            out.push(0);
            assert(out@ =~= old(out)@ + opt_text_bytes(crate::options::opt_text_view(*o)));
        },
    }
}

fn push_parameters(out: &mut Vec<u8>, ps: &Vec<(String, String)>, i: usize)
    requires
        i <= ps.len(),
    ensures
        final(out)@ == old(out)@ + parameters_bytes(crate::options::parameters_view(ps@).skip(i as int)),
    decreases ps.len() - i,
{
    let ghost v = crate::options::parameters_view(ps@);
    if i == ps.len() {
        out.push(0);
        assert(v.skip(i as int).len() == 0);
        assert(out@ =~= old(out)@ + parameters_bytes(v.skip(i as int)));
    } else {
        out.push(1);
        push_text(out, ps[i].0.as_str());
        push_text(out, ps[i].1.as_str());
        push_parameters(out, ps, i + 1);
        assert(v.skip(i as int).drop_first() =~= v.skip(i + 1));
        assert(v.skip(i as int)[0] == (ps@[i as int].0@, ps@[i as int].1@));
        assert(out@ =~= old(out)@ + parameters_bytes(v.skip(i as int)));
    }
}

fn quality_to_code(q: StageQuality) -> (c: u8)
    ensures
        c == quality_code(q),
{
    match q {
        StageQuality::Low => 0,
        StageQuality::Medium => 1,
        StageQuality::High => 2,
        StageQuality::Best => 3,
        StageQuality::High8x8 => 4,
        StageQuality::High8x8Linear => 5,
        StageQuality::High16x16 => 6,
        StageQuality::High16x16Linear => 7,
    }
}

fn scale_to_code(s: StageScaleMode) -> (c: u8)
    ensures
        c == scale_code(s),
{
    match s {
        StageScaleMode::ExactFit => 0,
        StageScaleMode::NoBorder => 1,
        StageScaleMode::NoScale => 2,
        StageScaleMode::ShowAll => 3,
    }
}

fn load_to_code(l: LoadBehavior) -> (c: u8)
    ensures
        c == load_code(l),
{
    match l {
        LoadBehavior::Streaming => 0,
        LoadBehavior::Delayed => 1,
        LoadBehavior::Blocking => 2,
    }
}

fn letterbox_to_code(l: Letterbox) -> (c: u8)
    ensures
        c == letterbox_code(l),
{
    match l {
        Letterbox::Off => 0,
        Letterbox::Fullscreen => 1,
        Letterbox::On => 2,
    }
}

fn runtime_to_code(r: PlayerRuntime) -> (c: u8)
    ensures
        c == runtime_code(r),
{
    match r {
        PlayerRuntime::FlashPlayer => 0,
        PlayerRuntime::AIR => 1,
    }
}

fn bool_to_code(b: bool) -> (c: u8)
    ensures
        c == bool_code(b),
{
    if b { 1 } else { 0 }
}

fn opt_bool_code(o: Option<bool>) -> (c: Option<u8>)
    ensures
        c == match o { Some(b) => Some(bool_code(b)), None => None },
{
    match o {
        Some(b) => Some(bool_to_code(b)),
        None => None,
    }
}

/// The small options of `o` as codes.
fn small_codes(o: &PlayerOptions) -> (codes: Vec<Option<u8>>)
    ensures
        codes@ == small_fields(o@),
{
    let c0 = match o.quality { Some(q) => Some(quality_to_code(q)), None => None };
    let c1 = match o.align { Some(a) => Some(a.bits), None => None };
    let c2 = opt_bool_code(o.force_align);
    let c3 = match o.scale { Some(s) => Some(scale_to_code(s)), None => None };
    let c4 = opt_bool_code(o.force_scale);
    let c5 = opt_bool_code(o.upgrade_to_https);
    let c6 = match o.load_behavior { Some(l) => Some(load_to_code(l)), None => None };
    let c7 = match o.letterbox { Some(l) => Some(letterbox_to_code(l)), None => None };
    let c8 = o.player_version;
    let c9 = match o.player_runtime { Some(r) => Some(runtime_to_code(r)), None => None };
    let c10 = opt_bool_code(o.dummy_external_interface);
    let codes = vec![c0, c1, c2, c3, c4, c5, c6, c7, c8, c9, c10];
    proof {
        let m = o@;
        assert(m.quality == o.quality && m.align == o.align && m.force_align == o.force_align);
        assert(m.scale == o.scale && m.force_scale == o.force_scale && m.upgrade_to_https == o.upgrade_to_https);
        assert(m.load_behavior == o.load_behavior && m.letterbox == o.letterbox);
        assert(m.player_version == o.player_version && m.player_runtime == o.player_runtime);
        assert(m.dummy_external_interface == o.dummy_external_interface);
        assert(codes@ =~= small_fields(m));
    }
    codes
}

fn push_codes(out: &mut Vec<u8>, codes: &Vec<Option<u8>>)
    ensures
        final(out)@ == old(out)@ + codes_bytes(codes@),
{
    let ghost start = out@;
    let mut i: usize = 0;
    while i < codes.len()
        invariant
            i <= codes.len(),
            out@ == start + codes_bytes(codes@.subrange(0, i as int)),
        decreases codes.len() - i,
    {
        let c = codes[i];
        match c {
            Some(v) => {
                out.push(1);
                out.push(v);
            },
            None => {
                out.push(0);
                out.push(0);
            },
        }
        assert(codes_bytes(codes@.subrange(0, i + 1)) =~= codes_bytes(codes@.subrange(0, i as int)).push(
            presence(c),
        ).push(value_byte(c)));
        i = i + 1;
    }
    assert(codes@.subrange(0, codes@.len() as int) =~= codes@);
}

fn push_span(out: &mut Vec<u8>, o: Option<TimeSpan>)
    ensures
        final(out)@ == old(out)@ + span_bytes(o),
{
    match o {
        Some(t) => {
            out.push(1);
            push_u64(out, t.secs);
            push_u64(out, t.subsec_nanos as u64);
        },
        None => {
            out.push(0);
        },
    }
    assert(out@ =~= old(out)@ + span_bytes(o));
}

fn push_rate(out: &mut Vec<u8>, o: Option<u64>)
    ensures
        final(out)@ == old(out)@ + rate_bytes(o),
{
    match o {
        Some(bits) => {
            out.push(1);
            push_u64(out, bits);
        },
        None => {
            out.push(0);
        },
    }
    assert(out@ =~= old(out)@ + rate_bytes(o));
}

/// The stored form of the options `o`.
pub fn encode_options(o: &PlayerOptions) -> (data: Vec<u8>)
    ensures
        data@ == options_bytes(o@),
{
    let mut out: Vec<u8> = Vec::new();
    out.push(FORMAT_VERSION);
    let codes = small_codes(o);
    push_codes(&mut out, &codes);
    push_span(&mut out, o.max_execution_duration);
    push_rate(&mut out, o.frame_rate_bits);
    push_opt_text(&mut out, &o.base);
    push_opt_text(&mut out, &o.spoof_url);
    push_opt_text(&mut out, &o.referer);
    push_opt_text(&mut out, &o.cookie);
    push_parameters(&mut out, &o.parameters, 0);
    assert(crate::options::parameters_view(o.parameters@).skip(0) =~= o@.parameters);
    assert(out@ =~= options_bytes(o@));
    out
}

// ----- reading -----

proof fn lemma_u64_bytes_read(x: u64)
    by (bit_vector)
    ensures
        u64_of(
            x as u8,
            (x >> 8u64) as u8,
            (x >> 16u64) as u8,
            (x >> 24u64) as u8,
            (x >> 32u64) as u8,
            (x >> 40u64) as u8,
            (x >> 48u64) as u8,
            (x >> 56u64) as u8,
        ) == x,
{
}

proof fn lemma_u64_of_bytes(b0: u8, b1: u8, b2: u8, b3: u8, b4: u8, b5: u8, b6: u8, b7: u8)
    by (bit_vector)
    ensures
        u64_of(b0, b1, b2, b3, b4, b5, b6, b7) as u8 == b0,
        (u64_of(b0, b1, b2, b3, b4, b5, b6, b7) >> 8u64) as u8 == b1,
        (u64_of(b0, b1, b2, b3, b4, b5, b6, b7) >> 16u64) as u8 == b2,
        (u64_of(b0, b1, b2, b3, b4, b5, b6, b7) >> 24u64) as u8 == b3,
        (u64_of(b0, b1, b2, b3, b4, b5, b6, b7) >> 32u64) as u8 == b4,
        (u64_of(b0, b1, b2, b3, b4, b5, b6, b7) >> 40u64) as u8 == b5,
        (u64_of(b0, b1, b2, b3, b4, b5, b6, b7) >> 48u64) as u8 == b6,
        (u64_of(b0, b1, b2, b3, b4, b5, b6, b7) >> 56u64) as u8 == b7,
{
}

/// The number stored at `p` is the one whose bytes stand there, and its
/// bytes are those that stand there.
proof fn lemma_u64_at(b: Seq<u8>, p: int)
    requires
        0 <= p,
        p + 8 <= b.len(),
    ensures
        u64_bytes(u64_at(b, p)) == b.subrange(p, p + 8),
        forall|x: u64| has_at(b, p, #[trigger] u64_bytes(x)) ==> x == u64_at(b, p),
{
    lemma_u64_of_bytes(b[p], b[p + 1], b[p + 2], b[p + 3], b[p + 4], b[p + 5], b[p + 6], b[p + 7]);
    assert(u64_bytes(u64_at(b, p)) =~= b.subrange(p, p + 8));
    assert forall|x: u64| has_at(b, p, #[trigger] u64_bytes(x)) implies x == u64_at(b, p) by {
        let e = u64_bytes(x);
        assert(b.subrange(p, p + 8)[0] == e[0]);
        assert(b.subrange(p, p + 8)[1] == e[1]);
        assert(b.subrange(p, p + 8)[2] == e[2]);
        assert(b.subrange(p, p + 8)[3] == e[3]);
        assert(b.subrange(p, p + 8)[4] == e[4]);
        assert(b.subrange(p, p + 8)[5] == e[5]);
        assert(b.subrange(p, p + 8)[6] == e[6]);
        assert(b.subrange(p, p + 8)[7] == e[7]);
        lemma_u64_bytes_read(x);
    }
}

/// Where `a + b` stands at `p`, `a` stands at `p` and `b` right after it.
proof fn lemma_has_at_concat(data: Seq<u8>, p: int, a: Seq<u8>, b: Seq<u8>)
    requires
        has_at(data, p, a + b),
    ensures
        has_at(data, p, a),
        has_at(data, p + a.len(), b),
{
    let whole = data.subrange(p, p + (a + b).len());
    assert(whole == a + b);
    assert(data.subrange(p, p + a.len()) =~= whole.subrange(0, a.len() as int));
    assert(whole.subrange(0, a.len() as int) =~= a);
    assert(data.subrange(p + a.len(), p + a.len() + b.len()) =~= whole.subrange(
        a.len() as int,
        (a + b).len() as int,
    ));
    assert(whole.subrange(a.len() as int, (a + b).len() as int) =~= b);
}

/// Where `a` stands at `p` and `b` right after it, `a + b` stands at `p`.
proof fn lemma_has_at_join(data: Seq<u8>, p: int, a: Seq<u8>, b: Seq<u8>)
    requires
        has_at(data, p, a),
        has_at(data, p + a.len(), b),
    ensures
        has_at(data, p, a + b),
{
    assert(data.subrange(p, p + (a + b).len()) =~= a + b);
}

fn read_u64(data: &[u8], pos: usize) -> (x: u64)
    requires
        pos + 8 <= data@.len(),
    ensures
        x == u64_at(data@, pos as int),
{
    (data[pos] as u64) | ((data[pos + 1] as u64) << 8) | ((data[pos + 2] as u64) << 16) | ((data[pos + 3] as u64)
        << 24) | ((data[pos + 4] as u64) << 32) | ((data[pos + 5] as u64) << 40) | ((data[pos + 6] as u64) << 48)
        | ((data[pos + 7] as u64) << 56)
}

fn copy_range(data: &[u8], start: usize, end: usize) -> (bytes: Vec<u8>)
    requires
        start <= end <= data@.len(),
    ensures
        bytes@ == data@.subrange(start as int, end as int),
{
    let mut bytes: Vec<u8> = Vec::new();
    let mut i: usize = start;
    while i < end
        invariant
            start <= i <= end,
            end <= data@.len(),
            bytes@ == data@.subrange(start as int, i as int),
        decreases end - i,
    {
        bytes.push(data[i]);
        assert(data@.subrange(start as int, i + 1) =~= data@.subrange(start as int, i as int).push(data@[i as int]));
        i = i + 1;
    }
    bytes
}

/// `String::from_utf8`: the text whose UTF-8 bytes are `bytes`; `None` when
/// they are not well-formed UTF-8. The contract claims std's documented
/// behavior: success exactly on well-formed UTF-8, with the text that the
/// bytes encode.
#[verifier::external_body]
fn string_from_utf8(bytes: Vec<u8>) -> (s: Option<String>)
    ensures
        match s {
            Some(s) => valid_utf8(bytes@) && s@ == decode_utf8(bytes@),
            None => !valid_utf8(bytes@),
        },
{
    String::from_utf8(bytes).ok()
}

/// Reads a text at `pos`.
fn read_text(data: &[u8], pos: usize, Ghost(expect): Ghost<Seq<char>>) -> (r: Option<(String, usize)>)
    requires
        pos <= data@.len(),
    ensures
        match r {
            Some((s, end)) => end == pos + text_bytes(s@).len() && has_at(data@, pos as int, text_bytes(s@)),
            None => true,
        },
        has_at(data@, pos as int, text_bytes(expect)) ==> (r matches Some((s, _)) && s@ == expect),
{
    proof {
        if has_at(data@, pos as int, text_bytes(expect)) {
            lemma_has_at_concat(data@, pos as int, u64_bytes(encode_utf8(expect).len() as u64), encode_utf8(expect));
        }
    }
    if data.len() - pos < 8 {
        return None;
    }
    let n = read_u64(data, pos);
    proof {
        lemma_u64_at(data@, pos as int);
        if has_at(data@, pos as int, text_bytes(expect)) {
            let len = encode_utf8(expect).len();
            assert(len <= data@.len());
            assert(len as u64 == len);
            assert(has_at(data@, pos as int, u64_bytes(len as u64)));
            assert(n == len);
        }
    }
    let start = pos + 8;
    if n > (data.len() - start) as u64 {
        return None;
    }
    let end = start + n as usize;
    let bytes = copy_range(data, start, end);
    match string_from_utf8(bytes) {
        Some(s) => {
            proof {
                vstd::utf8::decode_utf8_encode_utf8(bytes@);
                lemma_has_at_join(data@, pos as int, u64_bytes(n), bytes@);
                if has_at(data@, pos as int, text_bytes(expect)) {
                    assert(bytes@ =~= encode_utf8(expect));
                    vstd::utf8::encode_utf8_decode_utf8(expect);
                }
            }
            Some((s, end))
        },
        None => {
            proof {
                if has_at(data@, pos as int, text_bytes(expect)) {
                    vstd::utf8::encode_utf8_valid_utf8(expect);
                    assert(bytes@ =~= encode_utf8(expect));
                }
            }
            None
        },
    }
}

proof fn lemma_parameters_entries(ps: Seq<(Seq<char>, Seq<char>)>)
    ensures
        parameters_bytes(ps) == entries_bytes(ps) + seq![0u8],
    decreases ps.len(),
{
    if ps.len() > 0 {
        lemma_parameters_entries(ps.drop_first());
        assert(parameters_bytes(ps) =~= entries_bytes(ps) + seq![0u8]);
    } else {
        assert(parameters_bytes(ps) =~= entries_bytes(ps) + seq![0u8]);
    }
}

proof fn lemma_entries_push(ps: Seq<(Seq<char>, Seq<char>)>, x: (Seq<char>, Seq<char>))
    ensures
        entries_bytes(ps.push(x)) == entries_bytes(ps) + entry_bytes(x),
    decreases ps.len(),
{
    if ps.len() == 0 {
        assert(ps.push(x).drop_first() =~= Seq::<(Seq<char>, Seq<char>)>::empty());
        assert(ps.push(x)[0] == x);
        assert(entries_bytes(ps.push(x).drop_first()) == Seq::<u8>::empty());
        assert(entries_bytes(ps) == Seq::<u8>::empty());
        assert(entries_bytes(ps.push(x)) =~= entries_bytes(ps) + entry_bytes(x));
    } else {
        lemma_entries_push(ps.drop_first(), x);
        assert(ps.push(x).drop_first() =~= ps.drop_first().push(x));
        assert(ps.push(x)[0] == ps[0]);
        let a = entry_bytes(ps[0]);
        let b = entries_bytes(ps.drop_first());
        let c = entry_bytes(x);
        assert(entries_bytes(ps.push(x)) == a + (b + c));
        assert(a + (b + c) =~= (a + b) + c);
    }
}

/// Reads a text that may be absent at `pos`.
fn read_opt_text(data: &[u8], pos: usize, Ghost(expect): Ghost<Option<Seq<char>>>) -> (r: Option<(Option<String>, usize)>)
    requires
        pos <= data@.len(),
    ensures
        match r {
            Some((o, end)) => end == pos + opt_text_bytes(crate::options::opt_text_view(o)).len() && has_at(
                data@,
                pos as int,
                opt_text_bytes(crate::options::opt_text_view(o)),
            ),
            None => true,
        },
        has_at(data@, pos as int, opt_text_bytes(expect)) ==> (r matches Some((o, _))
            && crate::options::opt_text_view(o) == expect),
{
    if pos >= data.len() {
        return None;
    }
    let marker = data[pos];
    let ghost inner = match expect { Some(t) => t, None => Seq::empty() };
    proof {
        if has_at(data@, pos as int, opt_text_bytes(expect)) {
            assert(data@[pos as int] == opt_text_bytes(expect)[0]);
            if expect is Some {
                lemma_has_at_concat(data@, pos as int, seq![1u8], text_bytes(inner));
            }
        }
    }
    if marker == 0 {
        proof {
            assert(data@.subrange(pos as int, pos + 1) =~= seq![0u8]);
        }
        Some((None, pos + 1))
    } else if marker == 1 {
        match read_text(data, pos + 1, Ghost(inner)) {
            Some((t, end)) => {
                proof {
                    assert(data@.subrange(pos as int, pos + 1) =~= seq![1u8]);
                    lemma_has_at_join(data@, pos as int, seq![1u8], text_bytes(t@));
                }
                Some((Some(t), end))
            },
            None => None,
        }
    } else {
        None
    }
}

/// Reads a duration that may be absent at `pos`.
fn read_span(data: &[u8], pos: usize, Ghost(expect): Ghost<Option<TimeSpan>>) -> (r: Option<(Option<TimeSpan>, usize)>)
    requires
        pos <= data@.len(),
    ensures
        match r {
            Some((o, end)) => end == pos + span_bytes(o).len() && has_at(data@, pos as int, span_bytes(o)),
            None => true,
        },
        has_at(data@, pos as int, span_bytes(expect)) ==> (r matches Some((o, _)) && o == expect),
{
    if pos >= data.len() {
        return None;
    }
    let marker = data[pos];
    proof {
        if has_at(data@, pos as int, span_bytes(expect)) {
            assert(data@[pos as int] == span_bytes(expect)[0]);
        }
    }
    if marker == 0 {
        proof {
            assert(data@.subrange(pos as int, pos + 1) =~= seq![0u8]);
        }
        Some((None, pos + 1))
    } else if marker == 1 {
        if data.len() - pos < 17 {
            return None;
        }
        let secs = read_u64(data, pos + 1);
        let nanos = read_u64(data, pos + 9);
        proof {
            lemma_u64_at(data@, pos + 1);
            lemma_u64_at(data@, pos + 9);
            if has_at(data@, pos as int, span_bytes(expect)) {
                let t = expect->0;
                lemma_has_at_concat(data@, pos as int, seq![1u8] + u64_bytes(t.secs), u64_bytes(t.subsec_nanos as u64));
                lemma_has_at_concat(data@, pos as int, seq![1u8], u64_bytes(t.secs));
            }
        }
        if nanos > 0xffff_ffffu64 {
            return None;
        }
        let t = TimeSpan { secs, subsec_nanos: nanos as u32 };
        proof {
            assert(data@.subrange(pos as int, pos + 17) =~= span_bytes(Some(t)));
        }
        Some((Some(t), pos + 17))
    } else {
        None
    }
}

/// Reads a frame rate that may be absent at `pos`.
fn read_rate(data: &[u8], pos: usize, Ghost(expect): Ghost<Option<u64>>) -> (r: Option<(Option<u64>, usize)>)
    requires
        pos <= data@.len(),
    ensures
        match r {
            Some((o, end)) => end == pos + rate_bytes(o).len() && has_at(data@, pos as int, rate_bytes(o)),
            None => true,
        },
        has_at(data@, pos as int, rate_bytes(expect)) ==> (r matches Some((o, _)) && o == expect),
{
    if pos >= data.len() {
        return None;
    }
    let marker = data[pos];
    proof {
        if has_at(data@, pos as int, rate_bytes(expect)) {
            assert(data@[pos as int] == rate_bytes(expect)[0]);
        }
    }
    if marker == 0 {
        proof {
            assert(data@.subrange(pos as int, pos + 1) =~= seq![0u8]);
        }
        Some((None, pos + 1))
    } else if marker == 1 {
        if data.len() - pos < 9 {
            return None;
        }
        let bits = read_u64(data, pos + 1);
        proof {
            lemma_u64_at(data@, pos + 1);
            if has_at(data@, pos as int, rate_bytes(expect)) {
                lemma_has_at_concat(data@, pos as int, seq![1u8], u64_bytes(expect->0));
            }
            assert(data@.subrange(pos as int, pos + 9) =~= rate_bytes(Some(bits)));
        }
        Some((Some(bits), pos + 9))
    } else {
        None
    }
}

/// Reads the parameters at `pos`.
fn read_parameters(data: &[u8], pos: usize, Ghost(expect): Ghost<Seq<(Seq<char>, Seq<char>)>>) -> (r: Option<
    (Vec<(String, String)>, usize),
>)
    requires
        pos <= data@.len(),
    ensures
        match r {
            Some((ps, end)) => end == pos + parameters_bytes(crate::options::parameters_view(ps@)).len() && has_at(
                data@,
                pos as int,
                parameters_bytes(crate::options::parameters_view(ps@)),
            ),
            None => true,
        },
        has_at(data@, pos as int, parameters_bytes(expect)) ==> (r matches Some((ps, _))
            && crate::options::parameters_view(ps@) == expect),
{
    let ghost hit = has_at(data@, pos as int, parameters_bytes(expect));
    let mut acc: Vec<(String, String)> = Vec::new();
    let mut p = pos;
    proof {
        assert(crate::options::parameters_view(acc@) =~= Seq::empty());
        assert(expect.skip(0) =~= expect);
        assert(expect.take(0) =~= Seq::empty());
        assert(data@.subrange(pos as int, pos as int) =~= Seq::<u8>::empty());
    }
    loop
        invariant
            pos <= p <= data@.len(),
            has_at(data@, pos as int, entries_bytes(crate::options::parameters_view(acc@))),
            p == pos + entries_bytes(crate::options::parameters_view(acc@)).len(),
            hit == has_at(data@, pos as int, parameters_bytes(expect)),
            hit ==> (acc@.len() <= expect.len() && crate::options::parameters_view(acc@) == expect.take(
                acc@.len() as int,
            ) && has_at(data@, p as int, parameters_bytes(expect.skip(acc@.len() as int)))),
        decreases data@.len() - p,
    {
        let ghost k = acc@.len() as int;
        let ghost view = crate::options::parameters_view(acc@);
        let ghost next = if k < expect.len() { expect[k] } else { (Seq::empty(), Seq::empty()) };
        proof {
            if hit {
                if k < expect.len() {
                    assert(expect.skip(k).drop_first() =~= expect.skip(k + 1));
                    assert(expect.skip(k)[0] == next);
                    lemma_has_at_concat(data@, p as int, entry_bytes(next), parameters_bytes(expect.skip(k + 1)));
                    lemma_has_at_concat(data@, p as int, seq![1u8] + text_bytes(next.0), text_bytes(next.1));
                    lemma_has_at_concat(data@, p as int, seq![1u8], text_bytes(next.0));
                    assert(data@[p as int] == seq![1u8][0]);
                } else {
                    assert(expect.skip(k).len() == 0);
                    assert(data@[p as int] == seq![0u8][0]);
                }
            }
        }
        if p >= data.len() {
            return None;
        }
        let marker = data[p];
        if marker == 0 {
            proof {
                lemma_parameters_entries(view);
                assert(data@.subrange(p as int, p + 1) =~= seq![0u8]);
                lemma_has_at_join(data@, pos as int, entries_bytes(view), seq![0u8]);
                if hit {
                    assert(expect.take(k) =~= expect);
                }
            }
            return Some((acc, p + 1));
        }
        if marker != 1 {
            return None;
        }
        let (key, e1) = match read_text(data, p + 1, Ghost(next.0)) {
            Some(x) => x,
            None => return None,
        };
        let (value, e2) = match read_text(data, e1, Ghost(next.1)) {
            Some(x) => x,
            None => return None,
        };
        proof {
            assert(data@.subrange(p as int, p + 1) =~= seq![1u8]);
            lemma_has_at_join(data@, p as int, seq![1u8], text_bytes(key@));
            lemma_has_at_join(data@, p as int, seq![1u8] + text_bytes(key@), text_bytes(value@));
            lemma_has_at_join(data@, pos as int, entries_bytes(view), entry_bytes((key@, value@)));
            lemma_entries_push(view, (key@, value@));
        }
        acc.push((key, value));
        p = e2;
        proof {
            assert(crate::options::parameters_view(acc@) =~= view.push((key@, value@)));
            if hit {
                assert(expect.take(k + 1) =~= expect.take(k).push(next));
            }
        }
    }
}

/// Reads the codes of the small options, which follow the format byte.
fn read_codes(data: &[u8], Ghost(expect): Ghost<Seq<Option<u8>>>) -> (r: Option<Vec<Option<u8>>>)
    requires
        1 + 2 * SMALL_FIELDS <= data@.len(),
    ensures
        r matches Some(codes) ==> codes@.len() == SMALL_FIELDS && has_at(data@, 1, codes_bytes(codes@)),
        expect.len() == SMALL_FIELDS && has_at(data@, 1, codes_bytes(expect)) ==> (r matches Some(codes)
            && codes@ == expect),
{
    let ghost hit = expect.len() == SMALL_FIELDS && has_at(data@, 1, codes_bytes(expect));
    let mut codes: Vec<Option<u8>> = Vec::new();
    let mut i: usize = 0;
    while i < SMALL_FIELDS
        invariant
            i <= SMALL_FIELDS,
            1 + 2 * SMALL_FIELDS <= data@.len(),
            codes@.len() == i,
            forall|j: int|
                0 <= j < i ==> presence(#[trigger] codes@[j]) == data@[1 + 2 * j] && value_byte(codes@[j]) == data@[2
                    + 2 * j],
            hit == (expect.len() == SMALL_FIELDS && has_at(data@, 1, codes_bytes(expect))),
            hit ==> codes@ == expect.take(i as int),
        decreases SMALL_FIELDS - i,
    {
        let pres = data[1 + 2 * i];
        let val = data[2 + 2 * i];
        proof {
            if hit {
                let e = codes_bytes(expect);
                assert(data@.subrange(1, 1 + e.len() as int)[2 * i] == e[2 * i]);
                assert(data@.subrange(1, 1 + e.len() as int)[2 * i + 1] == e[2 * i + 1]);
                assert((2 * i) / 2 == i && (2 * i) % 2 == 0);
                assert((2 * i + 1) / 2 == i && (2 * i + 1) % 2 == 1);
                assert(pres == presence(expect[i as int]));
                assert(val == value_byte(expect[i as int]));
            }
        }
        let c = if pres == 0 && val == 0 {
            None
        } else if pres == 1 {
            Some(val)
        } else {
            return None;
        };
        codes.push(c);
        proof {
            if hit {
                assert(expect.take(i + 1) =~= expect.take(i as int).push(expect[i as int]));
            }
        }
        i = i + 1;
    }
    proof {
        let b = codes_bytes(codes@);
        assert forall|k: int| 0 <= k < b.len() implies b[k] == data@.subrange(1, 1 + b.len() as int)[k] by {
            let j = k / 2;
            assert(0 <= j < SMALL_FIELDS);
            if k % 2 == 0 {
                assert(k == 2 * j);
            } else {
                assert(k == 2 * j + 1);
            }
        }
        assert(data@.subrange(1, 1 + b.len() as int) =~= b);
        if hit {
            assert(expect.take(SMALL_FIELDS as int) =~= expect);
        }
    }
    Some(codes)
}

fn quality_from(c: Option<u8>, Ghost(expect): Ghost<Option<StageQuality>>) -> (r: Option<Option<StageQuality>>)
    ensures
        r matches Some(q) ==> quality_field(q) == c,
        quality_field(expect) == c ==> r == Some(expect),
{
    match c {
        None => Some(None),
        Some(v) => {
            if v == 0 {
                Some(Some(StageQuality::Low))
            } else if v == 1 {
                Some(Some(StageQuality::Medium))
            } else if v == 2 {
                Some(Some(StageQuality::High))
            } else if v == 3 {
                Some(Some(StageQuality::Best))
            } else if v == 4 {
                Some(Some(StageQuality::High8x8))
            } else if v == 5 {
                Some(Some(StageQuality::High8x8Linear))
            } else if v == 6 {
                Some(Some(StageQuality::High16x16))
            } else if v == 7 {
                Some(Some(StageQuality::High16x16Linear))
            } else {
                None
            }
        },
    }
}

fn scale_from(c: Option<u8>, Ghost(expect): Ghost<Option<StageScaleMode>>) -> (r: Option<Option<StageScaleMode>>)
    ensures
        r matches Some(s) ==> scale_field(s) == c,
        scale_field(expect) == c ==> r == Some(expect),
{
    match c {
        None => Some(None),
        Some(v) => {
            if v == 0 {
                Some(Some(StageScaleMode::ExactFit))
            } else if v == 1 {
                Some(Some(StageScaleMode::NoBorder))
            } else if v == 2 {
                Some(Some(StageScaleMode::NoScale))
            } else if v == 3 {
                Some(Some(StageScaleMode::ShowAll))
            } else {
                None
            }
        },
    }
}

fn load_from(c: Option<u8>, Ghost(expect): Ghost<Option<LoadBehavior>>) -> (r: Option<Option<LoadBehavior>>)
    ensures
        r matches Some(l) ==> load_field(l) == c,
        load_field(expect) == c ==> r == Some(expect),
{
    match c {
        None => Some(None),
        Some(v) => {
            if v == 0 {
                Some(Some(LoadBehavior::Streaming))
            } else if v == 1 {
                Some(Some(LoadBehavior::Delayed))
            } else if v == 2 {
                Some(Some(LoadBehavior::Blocking))
            } else {
                None
            }
        },
    }
}

fn letterbox_from(c: Option<u8>, Ghost(expect): Ghost<Option<Letterbox>>) -> (r: Option<Option<Letterbox>>)
    ensures
        r matches Some(l) ==> letterbox_field(l) == c,
        letterbox_field(expect) == c ==> r == Some(expect),
{
    match c {
        None => Some(None),
        Some(v) => {
            if v == 0 {
                Some(Some(Letterbox::Off))
            } else if v == 1 {
                Some(Some(Letterbox::Fullscreen))
            } else if v == 2 {
                Some(Some(Letterbox::On))
            } else {
                None
            }
        },
    }
}

fn runtime_from(c: Option<u8>, Ghost(expect): Ghost<Option<PlayerRuntime>>) -> (r: Option<Option<PlayerRuntime>>)
    ensures
        r matches Some(x) ==> runtime_field(x) == c,
        runtime_field(expect) == c ==> r == Some(expect),
{
    match c {
        None => Some(None),
        Some(v) => {
            if v == 0 {
                Some(Some(PlayerRuntime::FlashPlayer))
            } else if v == 1 {
                Some(Some(PlayerRuntime::AIR))
            } else {
                None
            }
        },
    }
}

fn bool_from(c: Option<u8>, Ghost(expect): Ghost<Option<bool>>) -> (r: Option<Option<bool>>)
    ensures
        r matches Some(b) ==> bool_field(b) == c,
        bool_field(expect) == c ==> r == Some(expect),
{
    match c {
        None => Some(None),
        Some(v) => {
            if v == 0 {
                Some(Some(false))
            } else if v == 1 {
                Some(Some(true))
            } else {
                None
            }
        },
    }
}

fn align_from(c: Option<u8>) -> (r: Option<StageAlign>)
    ensures
        align_field(r) == c,
{
    match c {
        None => None,
        Some(v) => Some(StageAlign { bits: v }),
    }
}

/// The parts of the stored form of `m`, at their positions.
proof fn lemma_options_parts(data: Seq<u8>, m: OptionsView)
    requires
        options_bytes(m) == data,
    ensures
        data.len() >= 1 + 2 * SMALL_FIELDS,
        data[0] == FORMAT_VERSION,
        has_at(data, 1, codes_bytes(small_fields(m))),
        has_at(data, 1 + 2 * SMALL_FIELDS, span_bytes(m.max_execution_duration)),
        ({
            let p2 = 1 + 2 * SMALL_FIELDS + span_bytes(m.max_execution_duration).len();
            let p3 = p2 + rate_bytes(m.frame_rate_bits).len();
            let p4 = p3 + opt_text_bytes(m.base).len();
            let p5 = p4 + opt_text_bytes(m.spoof_url).len();
            let p6 = p5 + opt_text_bytes(m.referer).len();
            let p7 = p6 + opt_text_bytes(m.cookie).len();
            &&& has_at(data, p2, rate_bytes(m.frame_rate_bits))
            &&& has_at(data, p3, opt_text_bytes(m.base))
            &&& has_at(data, p4, opt_text_bytes(m.spoof_url))
            &&& has_at(data, p5, opt_text_bytes(m.referer))
            &&& has_at(data, p6, opt_text_bytes(m.cookie))
            &&& has_at(data, p7, parameters_bytes(m.parameters))
            &&& p7 + parameters_bytes(m.parameters).len() == data.len()
        }),
{
    let v = seq![FORMAT_VERSION];
    let c = codes_bytes(small_fields(m));
    let sp = span_bytes(m.max_execution_duration);
    let fr = rate_bytes(m.frame_rate_bits);
    let b = opt_text_bytes(m.base);
    let su = opt_text_bytes(m.spoof_url);
    let r = opt_text_bytes(m.referer);
    let ck = opt_text_bytes(m.cookie);
    let ps = parameters_bytes(m.parameters);
    assert(data.subrange(0, data.len() as int) =~= data);
    assert(has_at(data, 0, data));
    lemma_has_at_concat(data, 0, v + c + sp + fr + b + su + r + ck, ps);
    lemma_has_at_concat(data, 0, v + c + sp + fr + b + su + r, ck);
    lemma_has_at_concat(data, 0, v + c + sp + fr + b + su, r);
    lemma_has_at_concat(data, 0, v + c + sp + fr + b, su);
    lemma_has_at_concat(data, 0, v + c + sp + fr, b);
    lemma_has_at_concat(data, 0, v + c + sp, fr);
    lemma_has_at_concat(data, 0, v + c, sp);
    lemma_has_at_concat(data, 0, v, c);
    assert(small_fields(m).len() == SMALL_FIELDS);
    assert(data.subrange(0, 1)[0] == v[0]);
}

/// The small options whose codes are `codes`; `None` when a code stands
/// for no value.
fn decode_small(codes: &Vec<Option<u8>>, Ghost(m): Ghost<OptionsView>) -> (r: Option<PlayerOptions>)
    requires
        codes@.len() == SMALL_FIELDS,
    ensures
        r matches Some(o) ==> small_fields(o@) == codes@,
        codes@ == small_fields(m) ==> (r matches Some(o) && small_fields(o@) == small_fields(m) && o.quality
            == m.quality && o.align == m.align && o.force_align == m.force_align && o.scale == m.scale
            && o.force_scale == m.force_scale && o.upgrade_to_https == m.upgrade_to_https && o.load_behavior
            == m.load_behavior && o.letterbox == m.letterbox && o.player_version == m.player_version
            && o.player_runtime == m.player_runtime && o.dummy_external_interface == m.dummy_external_interface),
{
    let quality = match quality_from(codes[0], Ghost(m.quality)) {
        Some(x) => x,
        None => return None,
    };
    let align = align_from(codes[1]);
    let force_align = match bool_from(codes[2], Ghost(m.force_align)) {
        Some(x) => x,
        None => return None,
    };
    let scale = match scale_from(codes[3], Ghost(m.scale)) {
        Some(x) => x,
        None => return None,
    };
    let force_scale = match bool_from(codes[4], Ghost(m.force_scale)) {
        Some(x) => x,
        None => return None,
    };
    let upgrade_to_https = match bool_from(codes[5], Ghost(m.upgrade_to_https)) {
        Some(x) => x,
        None => return None,
    };
    let load_behavior = match load_from(codes[6], Ghost(m.load_behavior)) {
        Some(x) => x,
        None => return None,
    };
    let letterbox = match letterbox_from(codes[7], Ghost(m.letterbox)) {
        Some(x) => x,
        None => return None,
    };
    let player_version = codes[8];
    let player_runtime = match runtime_from(codes[9], Ghost(m.player_runtime)) {
        Some(x) => x,
        None => return None,
    };
    let dummy_external_interface = match bool_from(codes[10], Ghost(m.dummy_external_interface)) {
        Some(x) => x,
        None => return None,
    };
    let mut o = PlayerOptions::unset();
    o.quality = quality;
    o.align = align;
    o.force_align = force_align;
    o.scale = scale;
    o.force_scale = force_scale;
    o.upgrade_to_https = upgrade_to_https;
    o.load_behavior = load_behavior;
    o.letterbox = letterbox;
    o.player_version = player_version;
    o.player_runtime = player_runtime;
    o.dummy_external_interface = dummy_external_interface;
    proof {
        assert(small_fields(o@) =~= codes@);
    }
    Some(o)
}

/// The options whose stored form `data` is; `None` when it is the stored
/// form of no options.
#[verifier::spinoff_prover]
pub fn decode_options(data: &[u8]) -> (r: Option<PlayerOptions>)
    ensures
        match r {
            Some(o) => options_bytes(o@) == data@,
            None => forall|m: OptionsView| options_bytes(m) != data@,
        },
{
    let ghost hit = exists|m: OptionsView| options_bytes(m) == data@;
    let ghost m = choose|m: OptionsView| options_bytes(m) == data@;
    proof {
        if hit {
            lemma_options_parts(data@, m);
        }
    }
    if data.len() < 1 + 2 * SMALL_FIELDS || data[0] != FORMAT_VERSION {
        return None;
    }
    let codes = match read_codes(data, Ghost(small_fields(m))) {
        Some(c) => c,
        None => return None,
    };
    let small = match decode_small(&codes, Ghost(m)) {
        Some(x) => x,
        None => return None,
    };
    let (max_execution_duration, after_span) = match read_span(data, 1 + 2 * SMALL_FIELDS, Ghost(m.max_execution_duration)) {
        Some(x) => x,
        None => return None,
    };
    let (frame_rate_bits, after_rate) = match read_rate(data, after_span, Ghost(m.frame_rate_bits)) {
        Some(x) => x,
        None => return None,
    };
    let (base, after_base) = match read_opt_text(data, after_rate, Ghost(m.base)) {
        Some(x) => x,
        None => return None,
    };
    let (spoof_url, after_spoof_url) = match read_opt_text(data, after_base, Ghost(m.spoof_url)) {
        Some(x) => x,
        None => return None,
    };
    let (referer, after_referer) = match read_opt_text(data, after_spoof_url, Ghost(m.referer)) {
        Some(x) => x,
        None => return None,
    };
    let (cookie, after_cookie) = match read_opt_text(data, after_referer, Ghost(m.cookie)) {
        Some(x) => x,
        None => return None,
    };
    let (parameters, end) = match read_parameters(data, after_cookie, Ghost(m.parameters)) {
        Some(x) => x,
        None => return None,
    };
    if end != data.len() {
        return None;
    }
    let o = PlayerOptions {
        parameters,
        max_execution_duration,
        frame_rate_bits,
        base,
        spoof_url,
        referer,
        cookie,
        ..small
    };
    proof {
        let om = o@;
        assert(small_fields(om) =~= small_fields(small@));
        let v = seq![FORMAT_VERSION];
        let c = codes_bytes(small_fields(om));
        let sp = span_bytes(om.max_execution_duration);
        let fr = rate_bytes(om.frame_rate_bits);
        let b = opt_text_bytes(om.base);
        let su = opt_text_bytes(om.spoof_url);
        let r = opt_text_bytes(om.referer);
        let ck = opt_text_bytes(om.cookie);
        let ps = parameters_bytes(om.parameters);
        assert(data@.subrange(0, 1) =~= v);
        lemma_has_at_join(data@, 0, v, c);
        lemma_has_at_join(data@, 0, v + c, sp);
        lemma_has_at_join(data@, 0, v + c + sp, fr);
        lemma_has_at_join(data@, 0, v + c + sp + fr, b);
        lemma_has_at_join(data@, 0, v + c + sp + fr + b, su);
        lemma_has_at_join(data@, 0, v + c + sp + fr + b + su, r);
        lemma_has_at_join(data@, 0, v + c + sp + fr + b + su + r, ck);
        lemma_has_at_join(data@, 0, v + c + sp + fr + b + su + r + ck, ps);
        assert(data@.subrange(0, data@.len() as int) =~= data@);
    }
    Some(o)
}

// ----- the stored form determines the options -----

proof fn lemma_text_unique(b: Seq<u8>, p: int, s1: Seq<char>, s2: Seq<char>)
    requires
        b.len() <= u64::MAX,
        has_at(b, p, text_bytes(s1)),
        has_at(b, p, text_bytes(s2)),
    ensures
        s1 == s2,
{
    let e1 = encode_utf8(s1);
    let e2 = encode_utf8(s2);
    lemma_has_at_concat(b, p, u64_bytes(e1.len() as u64), e1);
    lemma_has_at_concat(b, p, u64_bytes(e2.len() as u64), e2);
    lemma_u64_at(b, p);
    assert(e1.len() as u64 == e1.len());
    assert(e2.len() as u64 == e2.len());
    assert(e1.len() == e2.len());
    assert(e1 =~= e2);
    vstd::utf8::encode_utf8_decode_utf8(s1);
    vstd::utf8::encode_utf8_decode_utf8(s2);
}

proof fn lemma_opt_text_unique(b: Seq<u8>, p: int, o1: Option<Seq<char>>, o2: Option<Seq<char>>)
    requires
        b.len() <= u64::MAX,
        has_at(b, p, opt_text_bytes(o1)),
        has_at(b, p, opt_text_bytes(o2)),
    ensures
        o1 == o2,
{
    assert(b.subrange(p, p + opt_text_bytes(o1).len())[0] == opt_text_bytes(o1)[0]);
    assert(b.subrange(p, p + opt_text_bytes(o2).len())[0] == opt_text_bytes(o2)[0]);
    if let Some(s1) = o1 {
        if let Some(s2) = o2 {
            lemma_has_at_concat(b, p, seq![1u8], text_bytes(s1));
            lemma_has_at_concat(b, p, seq![1u8], text_bytes(s2));
            lemma_text_unique(b, p + 1, s1, s2);
        }
    }
}

proof fn lemma_span_unique(b: Seq<u8>, p: int, o1: Option<TimeSpan>, o2: Option<TimeSpan>)
    requires
        has_at(b, p, span_bytes(o1)),
        has_at(b, p, span_bytes(o2)),
    ensures
        o1 == o2,
{
    assert(b.subrange(p, p + span_bytes(o1).len())[0] == span_bytes(o1)[0]);
    assert(b.subrange(p, p + span_bytes(o2).len())[0] == span_bytes(o2)[0]);
    if let Some(t1) = o1 {
        if let Some(t2) = o2 {
            lemma_has_at_concat(b, p, seq![1u8] + u64_bytes(t1.secs), u64_bytes(t1.subsec_nanos as u64));
            lemma_has_at_concat(b, p, seq![1u8], u64_bytes(t1.secs));
            lemma_has_at_concat(b, p, seq![1u8] + u64_bytes(t2.secs), u64_bytes(t2.subsec_nanos as u64));
            lemma_has_at_concat(b, p, seq![1u8], u64_bytes(t2.secs));
            lemma_u64_at(b, p + 1);
            lemma_u64_at(b, p + 9);
        }
    }
}

proof fn lemma_rate_unique(b: Seq<u8>, p: int, o1: Option<u64>, o2: Option<u64>)
    requires
        has_at(b, p, rate_bytes(o1)),
        has_at(b, p, rate_bytes(o2)),
    ensures
        o1 == o2,
{
    assert(b.subrange(p, p + rate_bytes(o1).len())[0] == rate_bytes(o1)[0]);
    assert(b.subrange(p, p + rate_bytes(o2).len())[0] == rate_bytes(o2)[0]);
    if let Some(x1) = o1 {
        if let Some(x2) = o2 {
            lemma_has_at_concat(b, p, seq![1u8], u64_bytes(x1));
            lemma_has_at_concat(b, p, seq![1u8], u64_bytes(x2));
            lemma_u64_at(b, p + 1);
        }
    }
}

proof fn lemma_parameters_unique(
    b: Seq<u8>,
    p: int,
    ps1: Seq<(Seq<char>, Seq<char>)>,
    ps2: Seq<(Seq<char>, Seq<char>)>,
)
    requires
        b.len() <= u64::MAX,
        has_at(b, p, parameters_bytes(ps1)),
        has_at(b, p, parameters_bytes(ps2)),
    ensures
        ps1 == ps2,
    decreases ps1.len(),
{
    if ps1.len() > 0 {
        lemma_has_at_concat(b, p, entry_bytes(ps1[0]), parameters_bytes(ps1.drop_first()));
        lemma_has_at_concat(b, p, seq![1u8] + text_bytes(ps1[0].0), text_bytes(ps1[0].1));
        lemma_has_at_concat(b, p, seq![1u8], text_bytes(ps1[0].0));
        assert(b.subrange(p, p + 1)[0] == 1u8);
    }
    if ps2.len() > 0 {
        lemma_has_at_concat(b, p, entry_bytes(ps2[0]), parameters_bytes(ps2.drop_first()));
        lemma_has_at_concat(b, p, seq![1u8] + text_bytes(ps2[0].0), text_bytes(ps2[0].1));
        lemma_has_at_concat(b, p, seq![1u8], text_bytes(ps2[0].0));
        assert(b.subrange(p, p + 1)[0] == 1u8);
    }
    if ps1.len() == 0 {
        assert(b.subrange(p, p + 1)[0] == 0u8);
    }
    if ps2.len() == 0 {
        assert(b.subrange(p, p + 1)[0] == 0u8);
    }
    if ps1.len() > 0 && ps2.len() > 0 {
        lemma_text_unique(b, p + 1, ps1[0].0, ps2[0].0);
        lemma_text_unique(b, p + 1 + text_bytes(ps1[0].0).len(), ps1[0].1, ps2[0].1);
        lemma_parameters_unique(b, p + entry_bytes(ps1[0]).len(), ps1.drop_first(), ps2.drop_first());
        assert(ps1 =~= ps2) by {
            assert(ps1 =~= seq![ps1[0]] + ps1.drop_first());
            assert(ps2 =~= seq![ps2[0]] + ps2.drop_first());
        }
    } else {
        assert(ps1 =~= ps2);
    }
}

proof fn lemma_codes_unique(b: Seq<u8>, p: int, c1: Seq<Option<u8>>, c2: Seq<Option<u8>>)
    requires
        c1.len() == c2.len(),
        has_at(b, p, codes_bytes(c1)),
        has_at(b, p, codes_bytes(c2)),
    ensures
        c1 == c2,
{
    assert forall|j: int| 0 <= j < c1.len() implies c1[j] == c2[j] by {
        let e1 = codes_bytes(c1);
        let e2 = codes_bytes(c2);
        assert(b.subrange(p, p + e1.len())[2 * j] == e1[2 * j]);
        assert(b.subrange(p, p + e1.len())[2 * j + 1] == e1[2 * j + 1]);
        assert(b.subrange(p, p + e2.len())[2 * j] == e2[2 * j]);
        assert(b.subrange(p, p + e2.len())[2 * j + 1] == e2[2 * j + 1]);
        assert((2 * j) / 2 == j && (2 * j) % 2 == 0);
        assert((2 * j + 1) / 2 == j && (2 * j + 1) % 2 == 1);
    }
    assert(c1 =~= c2);
}

/// Distinct options have distinct stored forms (of a length that a `u64`
/// can count).
pub proof fn options_bytes_injective(m1: OptionsView, m2: OptionsView)
    requires
        options_bytes(m1) == options_bytes(m2),
        options_bytes(m1).len() <= u64::MAX,
    ensures
        m1 == m2,
{
    let data = options_bytes(m1);
    lemma_options_parts(data, m1);
    lemma_options_parts(data, m2);
    lemma_codes_unique(data, 1, small_fields(m1), small_fields(m2));
    assert(small_fields(m1)[0] == small_fields(m2)[0]);
    assert(small_fields(m1)[1] == small_fields(m2)[1]);
    assert(small_fields(m1)[2] == small_fields(m2)[2]);
    assert(small_fields(m1)[3] == small_fields(m2)[3]);
    assert(small_fields(m1)[4] == small_fields(m2)[4]);
    assert(small_fields(m1)[5] == small_fields(m2)[5]);
    assert(small_fields(m1)[6] == small_fields(m2)[6]);
    assert(small_fields(m1)[7] == small_fields(m2)[7]);
    assert(small_fields(m1)[8] == small_fields(m2)[8]);
    assert(small_fields(m1)[9] == small_fields(m2)[9]);
    assert(small_fields(m1)[10] == small_fields(m2)[10]);
    let p2 = 1 + 2 * SMALL_FIELDS;
    lemma_span_unique(data, p2 as int, m1.max_execution_duration, m2.max_execution_duration);
    let p2b = p2 + span_bytes(m1.max_execution_duration).len();
    lemma_rate_unique(data, p2b, m1.frame_rate_bits, m2.frame_rate_bits);
    let p3 = p2b + rate_bytes(m1.frame_rate_bits).len();
    lemma_opt_text_unique(data, p3, m1.base, m2.base);
    let p4 = p3 + opt_text_bytes(m1.base).len();
    lemma_opt_text_unique(data, p4, m1.spoof_url, m2.spoof_url);
    let p5 = p4 + opt_text_bytes(m1.spoof_url).len();
    lemma_opt_text_unique(data, p5, m1.referer, m2.referer);
    let p6 = p5 + opt_text_bytes(m1.referer).len();
    lemma_opt_text_unique(data, p6, m1.cookie, m2.cookie);
    let p7 = p6 + opt_text_bytes(m1.cookie).len();
    lemma_parameters_unique(data, p7, m1.parameters, m2.parameters);
    assert(m1.align == m2.align);
}

/// What a read gives back of a write: the options read from the stored
/// form of options `o` are `o` (for a stored form that fits in memory).
pub proof fn stored_options_read_back(o: OptionsView)
    requires
        options_bytes(o).len() <= usize::MAX,
    ensures
        stored_options(options_bytes(o)) == o,
{
    let data = options_bytes(o);
    assert(exists|m: OptionsView| options_bytes(m) == data);
    let c = choose|m: OptionsView| options_bytes(m) == data;
    options_bytes_injective(c, o);
}

} // verus!
