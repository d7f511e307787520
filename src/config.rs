use vstd::prelude::*;

verus! {

/// The noise variant that shapes the height field.
#[derive(Debug, Clone, Copy, PartialEq, Eq, Structural)]
pub enum NoiseType {
    /// Fractal sum of the dominant primitive.
    Simplex,
    /// Fractal sum of the alternate primitive.
    Perlin,
    /// Ridged fractal sum.
    Ridged,
    /// Domain-warped fractal sum.
    Warped,
}

/// The variant that a selector stands for: 1, 2 and 3 name the last three
/// variants, every other value the first.
pub open spec fn noise_type_of(v: u8) -> NoiseType {
    if v == 1 {
        NoiseType::Perlin
    } else if v == 2 {
        NoiseType::Ridged
    } else if v == 3 {
        NoiseType::Warped
    } else {
        NoiseType::Simplex
    }
}

impl From<u8> for NoiseType {
    fn from(v: u8) -> (r: NoiseType) {
        match v {
            1 => NoiseType::Perlin,
            2 => NoiseType::Ridged,
            3 => NoiseType::Warped,
            _ => NoiseType::Simplex,
        }
    }
}

impl vstd::std_specs::convert::FromSpecImpl<u8> for NoiseType {
    open spec fn obeys_from_spec() -> bool {
        true
    }

    open spec fn from_spec(v: u8) -> NoiseType {
        noise_type_of(v)
    }
}

/// The coherent-noise primitive that a fractal sum layers.
#[derive(Debug, Clone, Copy, PartialEq, Eq, Structural)]
pub enum Primitive {
    Simplex,
    Perlin,
}

impl NoiseType {
    /// The primitive sampled by this variant: the alternate one for `Perlin`
    /// alone, the dominant one for the rest.
    pub fn primitive(self) -> (r: Primitive)
        ensures
            (r == Primitive::Perlin) <==> (self == NoiseType::Perlin),
    {
        match self {
            NoiseType::Perlin => Primitive::Perlin,
            _ => Primitive::Simplex,
        }
    }
}

/// The sampler that shapes the height field.
#[derive(Debug, Clone, Copy, PartialEq, Eq, Structural)]
pub enum SamplerKind {
    /// Plain fractal sum.
    Layered,
    /// Ridged fractal sum.
    Ridged,
    /// Fractal sum over domain-warped coordinates.
    Warped,
}

impl NoiseType {
    /// The sampler of this variant: both plain variants share the layered one.
    pub fn sampler_kind(self) -> (r: SamplerKind)
        ensures
            r == (match self {
                NoiseType::Simplex | NoiseType::Perlin => SamplerKind::Layered,
                NoiseType::Ridged => SamplerKind::Ridged,
                NoiseType::Warped => SamplerKind::Warped,
            }),
    {
        match self {
            NoiseType::Simplex | NoiseType::Perlin => SamplerKind::Layered,
            NoiseType::Ridged => SamplerKind::Ridged,
            NoiseType::Warped => SamplerKind::Warped,
        }
    }
}

/// The highest noise-variant selector.
pub const MAX_NOISE_TYPE: u8 = 3;

/// Default cells per chunk edge.
pub const DEFAULT_CHUNK_SIZE: u32 = 128;

/// Default number of fractal layers.
pub const DEFAULT_OCTAVES: u32 = 6;

/// Default number of droplets of an erosion pass.
pub const DEFAULT_EROSION_ITERATIONS: u32 = 50000;

/// The discrete part of a terrain configuration: the seed, the chunk size, the
/// layer count, the droplet count, the two switches and the noise-variant
/// selector. The real-valued parameters (scale, persistence, lacunarity, sea
/// level, the erosion's physical rates, warp strength) are carried beside it by
/// the sampling and simulation code.
pub struct TerrainConfig {
    pub seed: u64,
    pub chunk_size: u32,
    pub octaves: u32,
    pub erosion_iterations: u32,
    pub moisture_enabled: bool,
    pub erosion_enabled: bool,
    /// The noise-variant selector; set it through `set_noise_type`, which
    /// keeps it within `0..=3`.
    pub noise_type: u8,
}

impl TerrainConfig {
    /// The selector stays within the enumerated range.
    pub open spec fn wf(&self) -> bool {
        self.noise_type <= MAX_NOISE_TYPE
    }

    /// The defaults: 128 cells per edge, 6 layers, 50000 droplets, moisture on,
    /// erosion off, the first noise variant.
    pub fn new(seed: u64) -> (r: TerrainConfig)
        ensures
            r.wf(),
            r.seed == seed,
            r.chunk_size == DEFAULT_CHUNK_SIZE,
            r.octaves == DEFAULT_OCTAVES,
            r.erosion_iterations == DEFAULT_EROSION_ITERATIONS,
            r.moisture_enabled,
            !r.erosion_enabled,
            r.noise_type == 0,
    {
        TerrainConfig {
            seed,
            chunk_size: DEFAULT_CHUNK_SIZE,
            octaves: DEFAULT_OCTAVES,
            erosion_iterations: DEFAULT_EROSION_ITERATIONS,
            moisture_enabled: true,
            erosion_enabled: false,
            noise_type: 0,
        }
    }

    /// The noise-variant selector.
    pub fn noise_type(&self) -> (r: u8)
        ensures
            r == self.noise_type,
            self.wf() ==> r <= MAX_NOISE_TYPE,
    {
        self.noise_type
    }

    /// Sets the selector, saturating at the last variant: a value above 3
    /// becomes 3. The other fields stay.
    pub fn set_noise_type(&mut self, val: u8)
        ensures
            final(self).noise_type == (if val <= MAX_NOISE_TYPE { val } else { MAX_NOISE_TYPE }),
            final(self).seed == old(self).seed,
            final(self).chunk_size == old(self).chunk_size,
            final(self).octaves == old(self).octaves,
            final(self).erosion_iterations == old(self).erosion_iterations,
            final(self).moisture_enabled == old(self).moisture_enabled,
            final(self).erosion_enabled == old(self).erosion_enabled,
            final(self).wf(),
    {
        self.noise_type = if val <= MAX_NOISE_TYPE { val } else { MAX_NOISE_TYPE };
    }

    /// The variant that the selector names.
    pub fn noise_kind(&self) -> (r: NoiseType)
        ensures
            r == noise_type_of(self.noise_type),
    {
        NoiseType::from(self.noise_type)
    }

    /// Whether generation runs the erosion pass: it is enabled and has droplets.
    pub fn erosion_active(&self) -> (r: bool)
        ensures
            r == (self.erosion_enabled && self.erosion_iterations > 0),
    {
        self.erosion_enabled && self.erosion_iterations > 0
    }
}

/// The seed of the elevation primitives: the low 32 bits of the configured seed.
pub fn noise_seed(seed: u64) -> (r: u32)
    ensures
        r == seed % 0x1_0000_0000,
{
    (seed % 0x1_0000_0000) as u32
}

/// The offset that decorrelates the moisture field from the elevation field.
pub const MOISTURE_SEED_OFFSET: u64 = 7777;

/// The seed of the moisture primitive: the low 32 bits of the configured seed
/// plus 7777, wrapping.
pub fn moisture_seed(seed: u64) -> (r: u32)
    ensures
        r == ((seed + MOISTURE_SEED_OFFSET) % 0x1_0000_0000_0000_0000) % 0x1_0000_0000,
{
    let shifted: u64 = seed.wrapping_add(MOISTURE_SEED_OFFSET);
    (shifted % 0x1_0000_0000) as u32
}

/// The offsets of the two displacement channels of the warped variant.
pub const WARP_X_SEED_OFFSET: u32 = 1000;
pub const WARP_Z_SEED_OFFSET: u32 = 2000;

/// The seeds of the two displacement channels, from the elevation seed `s`:
/// `s + 1000` and `s + 2000`, wrapping at 32 bits.
pub fn warp_seeds(s: u32) -> (r: (u32, u32))
    ensures
        r.0 == (s + WARP_X_SEED_OFFSET) % 0x1_0000_0000,
        r.1 == (s + WARP_Z_SEED_OFFSET) % 0x1_0000_0000,
{
    (s.wrapping_add(WARP_X_SEED_OFFSET), s.wrapping_add(WARP_Z_SEED_OFFSET))
}

/// The layer count a sampler uses: at least one, so that the amplitude sum
/// it divides by is never zero.
pub fn octave_count(octaves: u32) -> (r: u32)
    ensures
        r >= 1,
        octaves >= 1 ==> r == octaves,
        octaves == 0 ==> r == 1,
{
    if octaves < 1 { 1 } else { octaves }
}

} // verus!
