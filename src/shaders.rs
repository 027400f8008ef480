//! Procedural fragment-coloring patterns and the dispatch between them.
//!
//! Each pattern turns what was sampled for one fragment (band weights, noise
//! values, a seed) into a base color, then scales it by the fragment's
//! lighting intensity. All scalars are in millionths (`UNIT` is 1.0).
use vstd::prelude::*;
use rand::rngs::StdRng;
use rand::Rng;
use rand::SeedableRng;
use crate::color::{Color, UNIT, rgb, black, lerped, scaled};

verus! {

/// What a pattern reads of a rasterized fragment.
#[derive(Clone, Copy, Debug, PartialEq, Eq, Structural)]
pub struct Fragment {
    /// Lighting attenuation in millionths, nominally in `[0, UNIT]`.
    pub intensity: i32,
}

/// The per-fragment inputs of one pattern; the variant selects the pattern.
#[derive(Clone, Copy, Debug, PartialEq, Eq, Structural)]
pub enum Sample {
    /// Gas-giant banding: the three band weights, each nominally in `[0, UNIT]`.
    GasGiant { band1: i32, band2: i32, band3: i32 },
    /// Dalmatian spots: one 2D noise value.
    Dalmatian { noise: i32 },
    /// Scrolling clouds: one 2D noise value.
    Cloud { noise: i32 },
    /// Cellular terrain: one 2D noise value.
    Cellular { noise: i32 },
    /// Lava: two 3D noise values.
    Lava { noise1: i32, noise2: i32 },
    /// Per-fragment random black or white, from a seed.
    BlackAndWhite { seed: u64 },
}

pub open spec fn gas_giant_color(band1: int, band2: int, band3: int) -> Color {
    let white = rgb(255, 255, 255);
    let light_blue = rgb(173, 216, 230);
    let beige = rgb(245, 245, 220);
    let navy = rgb(25, 25, 112);
    let slate_gray = rgb(112, 128, 144);
    lerped(
        lerped(lerped(lerped(white, light_blue, band1), beige, band2), navy, band3),
        slate_gray,
        band2,
    )
}

/// White spots where the noise is below one half, black elsewhere.
pub open spec fn dalmatian_color(noise: int) -> Color {
    if noise < UNIT / 2 {
        rgb(255, 255, 255)
    } else {
        black()
    }
}

/// White cloud where the noise is above one half, sky blue elsewhere.
pub open spec fn cloud_color(noise: int) -> Color {
    if noise > UNIT / 2 {
        rgb(255, 255, 255)
    } else {
        rgb(30, 97, 145)
    }
}

/// Four bands of `|noise|`, each threshold belonging to the band above it:
/// `[0, 0.15)`, `[0.15, 0.7)`, `[0.7, 0.75)`, `[0.75, ..)`.
pub open spec fn cellular_color(noise: int) -> Color {
    let a = if noise < 0 {
        -noise
    } else {
        noise
    };
    if a < 150000 {
        rgb(85, 107, 47)
    } else if a < 700000 {
        rgb(124, 252, 0)
    } else if a < 750000 {
        rgb(34, 139, 34)
    } else {
        rgb(173, 255, 47)
    }
}

/// Dark to bright lava by the mean of the two noise values (rounded down).
pub open spec fn lava_color(noise1: int, noise2: int) -> Color {
    lerped(rgb(130, 20, 0), rgb(255, 240, 0), (noise1 + noise2) / 2)
}

/// Black for a draw below 50, white otherwise.
pub open spec fn black_and_white_color(draw: int) -> Color {
    if draw < 50 {
        black()
    } else {
        rgb(255, 255, 255)
    }
}

/// The number that a generator seeded with `seed` gives for a draw from
/// `0..=100`.
pub uninterp spec fn percent_of(seed: u64) -> int;

/// The unscaled color of a pattern.
pub open spec fn base_color(s: Sample) -> Color {
    match s {
        Sample::GasGiant { band1, band2, band3 } => gas_giant_color(
            band1 as int,
            band2 as int,
            band3 as int,
        ),
        Sample::Dalmatian { noise } => dalmatian_color(noise as int),
        Sample::Cloud { noise } => cloud_color(noise as int),
        Sample::Cellular { noise } => cellular_color(noise as int),
        Sample::Lava { noise1, noise2 } => lava_color(noise1 as int, noise2 as int),
        Sample::BlackAndWhite { seed } => black_and_white_color(percent_of(seed)),
    }
}

pub fn planeta_gaseoso(fragment: &Fragment, band1: i32, band2: i32, band3: i32) -> (c: Color)
    ensures
        c == scaled(gas_giant_color(band1 as int, band2 as int, band3 as int), fragment.intensity as int),
{
    let white = Color::new(255, 255, 255);
    let light_blue = Color::new(173, 216, 230);
    let beige = Color::new(245, 245, 220);
    let navy = Color::new(25, 25, 112);
    let slate_gray = Color::new(112, 128, 144);
    let mut color = white.lerp(&light_blue, band1);
    color = color.lerp(&beige, band2);
    color = color.lerp(&navy, band3);
    color = color.lerp(&slate_gray, band2);
    color.scale(fragment.intensity)
}

pub fn dalmata_shader(fragment: &Fragment, noise: i32) -> (c: Color)
    ensures
        c == scaled(dalmatian_color(noise as int), fragment.intensity as int),
{
    let spot_threshold: i32 = UNIT / 2;
    let color = if noise < spot_threshold {
        Color::new(255, 255, 255)
    } else {
        Color::new(0, 0, 0)
    };
    color.scale(fragment.intensity)
}

pub fn cloud_shader(fragment: &Fragment, noise: i32) -> (c: Color)
    ensures
        c == scaled(cloud_color(noise as int), fragment.intensity as int),
{
    let cloud_threshold: i32 = UNIT / 2;
    let color = if noise > cloud_threshold {
        Color::new(255, 255, 255)
    } else {
        Color::new(30, 97, 145)
    };
    color.scale(fragment.intensity)
}

pub fn cellular_shader(fragment: &Fragment, noise: i32) -> (c: Color)
    ensures
        c == scaled(cellular_color(noise as int), fragment.intensity as int),
{
    let wide: i64 = noise as i64;
    let magnitude: i64 = if wide < 0 {
        -wide
    } else {
        wide
    };
    let color = if magnitude < 150000 {
        Color::new(85, 107, 47)
    } else if magnitude < 700000 {
        Color::new(124, 252, 0)
    } else if magnitude < 750000 {
        Color::new(34, 139, 34)
    } else {
        Color::new(173, 255, 47)
    };
    color.scale(fragment.intensity)
}

pub fn lava_shader(fragment: &Fragment, noise1: i32, noise2: i32) -> (c: Color)
    ensures
        c == scaled(lava_color(noise1 as int, noise2 as int), fragment.intensity as int),
{
    let sum: i64 = noise1 as i64 + noise2 as i64;
    let mean: i64 = if sum >= 0 {
        sum / 2
    } else {
        -((1 - sum) / 2)
    };
    let dark = Color::new(130, 20, 0);
    let bright = Color::new(255, 240, 0);
    let color = dark.lerp(&bright, mean as i32);
    color.scale(fragment.intensity)
}

/// Relies on rand's `StdRng::seed_from_u64` and `Rng::gen_range` over `0..=100`:
/// a draw from that inclusive range (the range is not empty, so no panic),
/// fixed by the seed.
#[verifier::external_body]
fn draw_percent(seed: u64) -> (r: i32)
    ensures
        r == percent_of(seed),
        0 <= r <= 100,
{
    let mut rng = StdRng::seed_from_u64(seed);
    rng.gen_range(0..=100)
}

/// The black-or-white pattern for a draw already made.
pub fn black_or_white(fragment: &Fragment, draw: i32) -> (c: Color)
    ensures
        c == scaled(black_and_white_color(draw as int), fragment.intensity as int),
{
    let color = if draw < 50 {
        Color::new(0, 0, 0)
    } else {
        Color::new(255, 255, 255)
    };
    color.scale(fragment.intensity)
}

/// Draws a number in `[0, 100]` from a generator seeded with `seed`, then
/// picks black or white by it.
pub fn black_and_white(fragment: &Fragment, seed: u64) -> (c: Color)
    ensures
        0 <= percent_of(seed) <= 100,
        c == scaled(black_and_white_color(percent_of(seed)), fragment.intensity as int),
{
    let draw = draw_percent(seed);
    black_or_white(fragment, draw)
}

/// Colors a fragment with the pattern that `sample` selects.
pub fn fragment_shader(fragment: &Fragment, sample: &Sample) -> (c: Color)
    ensures
        c == scaled(base_color(*sample), fragment.intensity as int),
{
    match sample {
        Sample::GasGiant { band1, band2, band3 } => planeta_gaseoso(fragment, *band1, *band2, *band3),
        Sample::Dalmatian { noise } => dalmata_shader(fragment, *noise),
        Sample::Cloud { noise } => cloud_shader(fragment, *noise),
        Sample::Cellular { noise } => cellular_shader(fragment, *noise),
        Sample::Lava { noise1, noise2 } => lava_shader(fragment, *noise1, *noise2),
        Sample::BlackAndWhite { seed } => black_and_white(fragment, *seed),
    }
}

/// Every pattern yields black at intensity 0 and its unscaled color at
/// intensity 1.
pub proof fn lemma_intensity_endpoints(s: Sample)
    ensures
        scaled(base_color(s), 0) == black(),
        scaled(base_color(s), UNIT as int) == base_color(s),
{
    crate::color::lemma_scale_endpoints(base_color(s));
}

} // verus!
