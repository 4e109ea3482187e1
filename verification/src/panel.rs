//! Candidate panel geometry policy: selection-key labels, the grow-only
//! offscreen-image sizing and the viewport-crop change test.
//!
//! The offscreen image is allocated in quantum steps and only ever grows, so
//! a content change that stays inside the current quantum reuses the image
//! and only re-issues a `wp_viewport` crop.
use vstd::prelude::*;

use crate::paths::{join_path, join_path_str};
use crate::text::opt_str_view;

verus! {

/// Offscreen image width quantum in physical pixels.
pub const SURFACE_WIDTH_QUANTUM: u32 = 64;

/// Offscreen image height quantum in physical pixels.
pub const SURFACE_HEIGHT_QUANTUM: u32 = 32;

/// Initial offscreen image width, a multiple of [`SURFACE_WIDTH_QUANTUM`].
pub const PANEL_PREALLOC_WIDTH: u32 = 512;

/// Initial offscreen image height, a multiple of [`SURFACE_HEIGHT_QUANTUM`].
pub const PANEL_PREALLOC_HEIGHT: u32 = 128;

/// Visual style of the candidate panel.
#[derive(Debug, Clone, Copy, PartialEq, Eq, Structural)]
pub enum PanelStyle {
    Classic,
    LiquidGlass,
}

impl Default for PanelStyle {
    /// The classic style.
    fn default() -> (s: PanelStyle)
        ensures
            s == PanelStyle::Classic,
    {
        PanelStyle::Classic
    }
}

/// ASCII decimal digits of `n`, most significant first (`"0"` for zero).
pub open spec fn decimal_digits(n: nat) -> Seq<u8>
    decreases n,
{
    if n < 10 {
        seq![(48 + n) as u8]
    } else {
        decimal_digits(n / 10).push((48 + n % 10) as u8)
    }
}

/// The label drawn before candidate `index`: the selection key that picks
/// it. The first ten candidates are labelled `1`–`9` and `0` (the digit
/// row); later ones get their 1-based position in decimal.
pub open spec fn candidate_label_spec(index: nat) -> Seq<u8> {
    if index < 9 {
        seq![(49 + index) as u8]
    } else if index == 9 {
        seq![48u8]
    } else {
        decimal_digits(index + 1)
    }
}

fn decimal_bytes(n: usize) -> (out: Vec<u8>)
    ensures
        out@ == decimal_digits(n as nat),
    decreases n,
{
    if n < 10 {
        let mut v = Vec::new();
        v.push((48 + n) as u8);
        v
    } else {
        let mut v = decimal_bytes(n / 10);
        v.push((48 + n % 10) as u8);
        v
    }
}

/// The selection-key label for candidate `index`, as ASCII bytes.
pub fn candidate_number_label(index: usize) -> (label: Vec<u8>)
    requires
        index < usize::MAX,
    ensures
        label@ == candidate_label_spec(index as nat),
{
    if index < 9 {
        let mut v = Vec::new();
        v.push((49 + index) as u8);
        v
    } else if index == 9 {
        let mut v = Vec::new();
        v.push(48u8);
        v
    } else {
        decimal_bytes(index + 1)
    }
}

/// Whether the `wp_viewport` crop must be re-issued: the physical source or
/// the logical destination differs from what was last sent. A cross-output
/// scale change can keep the logical size while changing the physical source,
/// so both sides are compared.
pub fn viewport_mapping_changed(
    cached_source_w_physical: u32,
    cached_source_h_physical: u32,
    cached_dest_w_logical: i32,
    cached_dest_h_logical: i32,
    source_w_physical: u32,
    source_h_physical: u32,
    dest_w_logical: i32,
    dest_h_logical: i32,
) -> (changed: bool)
    ensures
        changed == !(cached_source_w_physical == source_w_physical && cached_source_h_physical
            == source_h_physical && cached_dest_w_logical == dest_w_logical
            && cached_dest_h_logical == dest_h_logical),
{
    cached_source_w_physical != source_w_physical || cached_source_h_physical != source_h_physical
        || cached_dest_w_logical != dest_w_logical || cached_dest_h_logical != dest_h_logical
}

/// `needed` rounded up to a multiple of `quantum`.
pub open spec fn quantize_up(needed: int, quantum: int) -> int {
    (needed / quantum + (if needed % quantum == 0 { 0int } else { 1int })) * quantum
}

/// The grow-only extent of one axis: the current extent, or `needed` rounded
/// up to the quantum when that is larger.
pub open spec fn grow_only_spec(current: int, needed: int, quantum: int) -> int {
    let q = quantize_up(needed, quantum);
    if current >= q { current } else { q }
}

/// One axis of the grow-only offscreen image: keep the current extent unless
/// the content needs more, then grow to the next quantum multiple.
pub fn grow_only_extent(current: u32, needed: u32, quantum: u32) -> (target: u32)
    requires
        quantum > 0,
        quantize_up(needed as int, quantum as int) <= u32::MAX,
    ensures
        target == grow_only_spec(current as int, needed as int, quantum as int),
{
    proof {
        let n = needed as int;
        let q = quantum as int;
        assert(n % q != 0 ==> n / q < 0xffff_ffff) by (nonlinear_arith)
            requires
                q > 0,
                0 <= n <= 0xffff_ffff,
        {
            if n % q != 0 {
                assert(q >= 2);
                assert(n / q <= n / 2) by {
                    vstd::arithmetic::div_mod::lemma_div_is_ordered_by_denominator(n, 2, q);
                }
            }
        }
    }
    let blocks = needed / quantum + if needed % quantum == 0 { 0 } else { 1 };
    let quantised = blocks * quantum;
    if current >= quantised { current } else { quantised }
}

/// The grow-only extent never shrinks, always covers the content, and is
/// stable: asking again for the same content changes nothing.
pub proof fn lemma_grow_only_extent(current: nat, needed: nat, quantum: nat)
    requires
        quantum > 0,
    ensures
        grow_only_spec(current as int, needed as int, quantum as int) >= current,
        grow_only_spec(current as int, needed as int, quantum as int) >= needed,
        grow_only_spec(grow_only_spec(current as int, needed as int, quantum as int), needed as int, quantum as int)
            == grow_only_spec(current as int, needed as int, quantum as int),
        quantize_up(needed as int, quantum as int) % (quantum as int) == 0,
{
    let n = needed as int;
    let q = quantum as int;
    vstd::arithmetic::div_mod::lemma_fundamental_div_mod(n, q);
    vstd::arithmetic::div_mod::lemma_mod_multiples_basic(
        n / q + (if n % q == 0 { 0int } else { 1int }),
        q,
    );
    assert(quantize_up(n, q) >= n) by (nonlinear_arith)
        requires
            n == q * (n / q) + n % q,
            0 <= n % q < q,
            quantize_up(n, q) == (n / q + (if n % q == 0 { 0int } else { 1int })) * q,
    ;
}

/// The new offscreen image size after a content-size request, and whether
/// the image had to be resized.
#[derive(Debug, Clone, Copy, PartialEq, Eq, Structural)]
pub struct SurfaceSizePlan {
    pub width: u32,
    pub height: u32,
    pub resized: bool,
}

/// Grow-only sizing shared by the candidate and banner paths: both axes are
/// quantised up and never shrink; the image is resized only when either axis
/// grows.
pub fn plan_grow_only_size(width: u32, height: u32, phys_width: u32, phys_height: u32) -> (plan:
    SurfaceSizePlan)
    requires
        quantize_up(phys_width as int, SURFACE_WIDTH_QUANTUM as int) <= u32::MAX,
        quantize_up(phys_height as int, SURFACE_HEIGHT_QUANTUM as int) <= u32::MAX,
    ensures
        plan.width == grow_only_spec(width as int, phys_width as int, SURFACE_WIDTH_QUANTUM as int),
        plan.height == grow_only_spec(
            height as int,
            phys_height as int,
            SURFACE_HEIGHT_QUANTUM as int,
        ),
        plan.resized == (plan.width != width || plan.height != height),
{
    let target_w = grow_only_extent(width, phys_width, SURFACE_WIDTH_QUANTUM);
    let target_h = grow_only_extent(height, phys_height, SURFACE_HEIGHT_QUANTUM);
    SurfaceSizePlan {
        width: target_w,
        height: target_h,
        resized: target_w != width || target_h != height,
    }
}

/// Where the compiled-pipeline cache lives: under `$XDG_CACHE_HOME`, else
/// under `$HOME/.cache`; with neither (an empty variable counts as unset)
/// there is no cache.
pub open spec fn pipeline_cache_path_spec(
    cache_home: Option<Seq<char>>,
    home: Option<Seq<char>>,
) -> Option<Seq<char>> {
    match cache_home {
        Some(c) if c.len() > 0 => Some(join_path(c, "typio/pipeline.bin"@)),
        _ => match home {
            Some(h) if h.len() > 0 => Some(join_path(h, ".cache/typio/pipeline.bin"@)),
            _ => None,
        },
    }
}

/// The pipeline cache path for the given `XDG_CACHE_HOME` and `HOME`.
pub fn pipeline_cache_path(cache_home: Option<&str>, home: Option<&str>) -> (p: Option<String>)
    ensures
        match p {
            Some(s) => pipeline_cache_path_spec(opt_str_view(cache_home), opt_str_view(home))
                == Some(s@),
            None => pipeline_cache_path_spec(opt_str_view(cache_home), opt_str_view(home)) is None,
        },
{
    match cache_home {
        Some(c) if c.unicode_len() > 0 => {
            return Some(join_path_str(c, "typio/pipeline.bin"));
        },
        _ => {},
    }
    match home {
        Some(h) if h.unicode_len() > 0 => Some(join_path_str(h, ".cache/typio/pipeline.bin")),
        _ => None,
    }
}

} // verus!
