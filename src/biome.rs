use vstd::prelude::*;

verus! {

/// The twelve biome codes, in code order (`DeepOcean` is 0, `Volcanic` is 11).
/// `Volcanic` is reserved: no classification rule yields it.
#[derive(Debug, Clone, Copy, PartialEq, Eq, Structural)]
pub enum Biome {
    DeepOcean,
    ShallowWater,
    Beach,
    Desert,
    Grassland,
    Forest,
    DenseForest,
    Jungle,
    Tundra,
    Snow,
    Mountain,
    Volcanic,
}

/// The code of a biome.
pub open spec fn biome_code(b: Biome) -> u8 {
    match b {
        Biome::DeepOcean => 0,
        Biome::ShallowWater => 1,
        Biome::Beach => 2,
        Biome::Desert => 3,
        Biome::Grassland => 4,
        Biome::Forest => 5,
        Biome::DenseForest => 6,
        Biome::Jungle => 7,
        Biome::Tundra => 8,
        Biome::Snow => 9,
        Biome::Mountain => 10,
        Biome::Volcanic => 11,
    }
}

impl Biome {
    /// The biome's code, in `0..=11`.
    pub fn code(self) -> (r: u8)
        ensures
            r == biome_code(self),
            r <= 11,
    {
        match self {
            Biome::DeepOcean => 0,
            Biome::ShallowWater => 1,
            Biome::Beach => 2,
            Biome::Desert => 3,
            Biome::Grassland => 4,
            Biome::Forest => 5,
            Biome::DenseForest => 6,
            Biome::Jungle => 7,
            Biome::Tundra => 8,
            Biome::Snow => 9,
            Biome::Mountain => 10,
            Biome::Volcanic => 11,
        }
    }

    /// The biome with the given code; `None` for a code above 11.
    pub fn from_code(c: u8) -> (r: Option<Biome>)
        ensures
            c <= 11 <==> r is Some,
            r matches Some(b) ==> biome_code(b) == c,
    {
        match c {
            0 => Some(Biome::DeepOcean),
            1 => Some(Biome::ShallowWater),
            2 => Some(Biome::Beach),
            3 => Some(Biome::Desert),
            4 => Some(Biome::Grassland),
            5 => Some(Biome::Forest),
            6 => Some(Biome::DenseForest),
            7 => Some(Biome::Jungle),
            8 => Some(Biome::Tundra),
            9 => Some(Biome::Snow),
            10 => Some(Biome::Mountain),
            11 => Some(Biome::Volcanic),
            _ => None,
        }
    }
}

/// Where an elevation stands against the sea level `s`.
#[derive(Debug, Clone, Copy, PartialEq, Eq, Structural)]
pub enum Shoreline {
    /// elevation < s - 0.1
    Deep,
    /// s - 0.1 <= elevation < s
    Shallow,
    /// s <= elevation < s + 0.02
    Shore,
    /// s + 0.02 <= elevation, and the land range 1 - s is positive
    Land,
    /// s + 0.02 <= elevation, but 1 - s <= 0: there is no land range to measure in
    FlatLand,
}

/// Where the normalized land elevation `l = clamp((e - s) / (1 - s), 0, 1)` stands.
#[derive(Debug, Clone, Copy, PartialEq, Eq, Structural)]
pub enum Relief {
    /// l < 0.25
    Low,
    /// 0.25 <= l <= 0.5
    Middle,
    /// 0.5 < l <= 0.65
    Upper,
    /// 0.65 < l <= 0.85
    High,
    /// 0.85 < l
    Peak,
}

/// Where a moisture value `m` stands.
#[derive(Debug, Clone, Copy, PartialEq, Eq, Structural)]
pub enum Wetness {
    /// m < 0.2
    Arid,
    /// 0.2 <= m < 0.3
    Dry,
    /// 0.3 <= m <= 0.4
    Fair,
    /// 0.4 < m <= 0.65
    Moist,
    /// 0.65 < m <= 0.7
    Wet,
    /// 0.7 < m
    Soaked,
}

/// The classification rules, first match wins.
pub open spec fn biome_rule(shore: Shoreline, relief: Relief, wet: Wetness) -> Biome {
    let l_above_085 = relief == Relief::Peak;
    let l_above_065 = relief == Relief::Peak || relief == Relief::High;
    let l_above_05 = l_above_065 || relief == Relief::Upper;
    let l_below_025 = relief == Relief::Low;
    let m_below_02 = wet == Wetness::Arid;
    let m_below_03 = wet == Wetness::Arid || wet == Wetness::Dry;
    let m_above_07 = wet == Wetness::Soaked;
    let m_above_065 = m_above_07 || wet == Wetness::Wet;
    let m_above_04 = m_above_065 || wet == Wetness::Moist;
    if shore == Shoreline::Deep {
        Biome::DeepOcean
    } else if shore == Shoreline::Shallow {
        Biome::ShallowWater
    } else if shore == Shoreline::Shore {
        Biome::Beach
    } else if shore == Shoreline::FlatLand {
        Biome::Grassland
    } else if l_above_085 {
        Biome::Snow
    } else if l_above_065 {
        Biome::Mountain
    } else if l_above_05 && m_below_03 {
        Biome::Tundra
    } else if m_below_02 {
        Biome::Desert
    } else if l_below_025 && m_above_07 {
        Biome::Jungle
    } else if m_above_065 {
        Biome::DenseForest
    } else if m_above_04 {
        Biome::Forest
    } else {
        Biome::Grassland
    }
}

/// Classifies a cell from where its elevation stands against the sea level,
/// where its land elevation and its moisture stand; `relief` is read only on land.
pub fn classify(shore: Shoreline, relief: Relief, wet: Wetness) -> (r: Biome)
    ensures
        r == biome_rule(shore, relief, wet),
        r != Biome::Volcanic,
        biome_code(r) <= 10,
{
    match shore {
        Shoreline::Deep => { return Biome::DeepOcean; },
        Shoreline::Shallow => { return Biome::ShallowWater; },
        Shoreline::Shore => { return Biome::Beach; },
        Shoreline::FlatLand => { return Biome::Grassland; },
        Shoreline::Land => {},
    }
    match relief {
        Relief::Peak => { return Biome::Snow; },
        Relief::High => { return Biome::Mountain; },
        Relief::Upper => {
            if matches!(wet, Wetness::Arid | Wetness::Dry) {
                return Biome::Tundra;
            }
        },
        _ => {},
    }
    match wet {
        Wetness::Arid => Biome::Desert,
        Wetness::Soaked => {
            if matches!(relief, Relief::Low) {
                Biome::Jungle
            } else {
                Biome::DenseForest
            }
        },
        Wetness::Wet => Biome::DenseForest,
        Wetness::Moist => Biome::Forest,
        Wetness::Dry | Wetness::Fair => Biome::Grassland,
    }
}

/// Where one cell stands: against the sea level, in land elevation, in moisture.
#[derive(Debug, Clone, Copy, PartialEq, Eq, Structural)]
pub struct CellClass {
    pub shore: Shoreline,
    pub relief: Relief,
    pub wet: Wetness,
}

/// The biome map of a chunk: the code of the classified biome of each cell,
/// in buffer order. Every code lies in `0..=10`.
pub fn biome_map(cells: &Vec<CellClass>) -> (r: Vec<u8>)
    ensures
        r.len() == cells.len(),
        forall|i: int|
            0 <= i < r.len() ==> #[trigger] r[i] == biome_code(
                biome_rule(cells[i].shore, cells[i].relief, cells[i].wet),
            ),
        forall|i: int| 0 <= i < r.len() ==> #[trigger] r[i] <= 10,
{
    let mut r: Vec<u8> = Vec::new();
    let mut i: usize = 0;
    while i < cells.len()
        invariant
            i <= cells.len(),
            r.len() == i,
            forall|k: int|
                0 <= k < r.len() ==> #[trigger] r[k] == biome_code(
                    biome_rule(cells[k].shore, cells[k].relief, cells[k].wet),
                ),
            forall|k: int| 0 <= k < r.len() ==> #[trigger] r[k] <= 10,
        decreases cells.len() - i,
    {
        let c = cells[i];
        let b = classify(c.shore, c.relief, c.wet);
        r.push(b.code());
        i = i + 1;
    }
    r
}

} // verus!
