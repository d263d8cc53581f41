//! The catalog of terrain tags, the names that select them and the image
//! files that show them.

use vstd::prelude::*;
use vstd::string::StringExecFns;
use crate::text::{lowercase, same_text, to_lowercase};

verus! {

/// A terrain that a cell can be painted with.
///
/// `Unresolved` stands for a name that the catalog does not know; `Blank` is
/// what a fresh cell shows.
#[derive(Clone, Copy, Debug, PartialEq, Eq, Hash, Structural)]
pub enum AssetTag {
    Unresolved,
    Outline,
    Blank,
    BaseLush,
    BaseOcean,
    BaseRocky,
    BaseSnowy,
    ForestConiferLush,
    ForestConiferSnowy,
    ForestDeciduousLush,
    ForestMixedLush,
    HillsDesert,
    HillsLush,
    HillsSnowy,
    MountainVolcanoLush,
    MountainVolcanoRocky,
    MountainVolcanoSnowy,
    MountainFoothillsLush,
    MountainFoothillsRocky,
    MountainFoothillsSnowy,
    MountainLowLush,
    MountainLowRocky,
    MountainLowSnowy,
    MountainMediumLush,
    MountainMediumRocky,
    MountainMediumSnowy,
    MountainPeakLush,
    MountainPeakRocky,
    MountainPeakSnowy,
    PlainsDamp,
    PlainsDesert,
    PlainsFarmland,
    PlainsLush,
    RuinDesert,
    RuinLush,
    SnowArea,
    SnowDrifts,
    SnowField,
    SparseTreesLush,
    SparseTreesSnowy,
    UrbanCityLush,
    UrbanFarmLush,
    UrbanFarmlandLush,
    UrbanTownAbandoned,
    UrbanTownInhabited,
    UrbanTownLumberyardLush,
    UrbanMonasteryLush,
    UrbanTowerLush,
    UrbanTownLush,
    OceanSoftWaves,
    OceanStill,
    OceanWaves,
    SwampSoftWaves,
    SwampStill,
    SwanpWaves,
    WetlandsDamp,
}

/// The number of tags in the catalog.
pub const TAG_COUNT: usize = 56;

/// The place of a tag in the catalog.
pub open spec fn ordinal(tag: AssetTag) -> int {
    match tag {
        AssetTag::Unresolved => 0,
        AssetTag::Outline => 1,
        AssetTag::Blank => 2,
        AssetTag::BaseLush => 3,
        AssetTag::BaseOcean => 4,
        AssetTag::BaseRocky => 5,
        AssetTag::BaseSnowy => 6,
        AssetTag::ForestConiferLush => 7,
        AssetTag::ForestConiferSnowy => 8,
        AssetTag::ForestDeciduousLush => 9,
        AssetTag::ForestMixedLush => 10,
        AssetTag::HillsDesert => 11,
        AssetTag::HillsLush => 12,
        AssetTag::HillsSnowy => 13,
        AssetTag::MountainVolcanoLush => 14,
        AssetTag::MountainVolcanoRocky => 15,
        AssetTag::MountainVolcanoSnowy => 16,
        AssetTag::MountainFoothillsLush => 17,
        AssetTag::MountainFoothillsRocky => 18,
        AssetTag::MountainFoothillsSnowy => 19,
        AssetTag::MountainLowLush => 20,
        AssetTag::MountainLowRocky => 21,
        AssetTag::MountainLowSnowy => 22,
        AssetTag::MountainMediumLush => 23,
        AssetTag::MountainMediumRocky => 24,
        AssetTag::MountainMediumSnowy => 25,
        AssetTag::MountainPeakLush => 26,
        AssetTag::MountainPeakRocky => 27,
        AssetTag::MountainPeakSnowy => 28,
        AssetTag::PlainsDamp => 29,
        AssetTag::PlainsDesert => 30,
        AssetTag::PlainsFarmland => 31,
        AssetTag::PlainsLush => 32,
        AssetTag::RuinDesert => 33,
        AssetTag::RuinLush => 34,
        AssetTag::SnowArea => 35,
        AssetTag::SnowDrifts => 36,
        AssetTag::SnowField => 37,
        AssetTag::SparseTreesLush => 38,
        AssetTag::SparseTreesSnowy => 39,
        AssetTag::UrbanCityLush => 40,
        AssetTag::UrbanFarmLush => 41,
        AssetTag::UrbanFarmlandLush => 42,
        AssetTag::UrbanTownAbandoned => 43,
        AssetTag::UrbanTownInhabited => 44,
        AssetTag::UrbanTownLumberyardLush => 45,
        AssetTag::UrbanMonasteryLush => 46,
        AssetTag::UrbanTowerLush => 47,
        AssetTag::UrbanTownLush => 48,
        AssetTag::OceanSoftWaves => 49,
        AssetTag::OceanStill => 50,
        AssetTag::OceanWaves => 51,
        AssetTag::SwampSoftWaves => 52,
        AssetTag::SwampStill => 53,
        AssetTag::SwanpWaves => 54,
        AssetTag::WetlandsDamp => 55,
    }
}

/// Every tag of the catalog, in catalog order.
pub open spec fn catalog() -> Seq<AssetTag> {
    seq![
        AssetTag::Unresolved,
        AssetTag::Outline,
        AssetTag::Blank,
        AssetTag::BaseLush,
        AssetTag::BaseOcean,
        AssetTag::BaseRocky,
        AssetTag::BaseSnowy,
        AssetTag::ForestConiferLush,
        AssetTag::ForestConiferSnowy,
        AssetTag::ForestDeciduousLush,
        AssetTag::ForestMixedLush,
        AssetTag::HillsDesert,
        AssetTag::HillsLush,
        AssetTag::HillsSnowy,
        AssetTag::MountainVolcanoLush,
        AssetTag::MountainVolcanoRocky,
        AssetTag::MountainVolcanoSnowy,
        AssetTag::MountainFoothillsLush,
        AssetTag::MountainFoothillsRocky,
        AssetTag::MountainFoothillsSnowy,
        AssetTag::MountainLowLush,
        AssetTag::MountainLowRocky,
        AssetTag::MountainLowSnowy,
        AssetTag::MountainMediumLush,
        AssetTag::MountainMediumRocky,
        AssetTag::MountainMediumSnowy,
        AssetTag::MountainPeakLush,
        AssetTag::MountainPeakRocky,
        AssetTag::MountainPeakSnowy,
        AssetTag::PlainsDamp,
        AssetTag::PlainsDesert,
        AssetTag::PlainsFarmland,
        AssetTag::PlainsLush,
        AssetTag::RuinDesert,
        AssetTag::RuinLush,
        AssetTag::SnowArea,
        AssetTag::SnowDrifts,
        AssetTag::SnowField,
        AssetTag::SparseTreesLush,
        AssetTag::SparseTreesSnowy,
        AssetTag::UrbanCityLush,
        AssetTag::UrbanFarmLush,
        AssetTag::UrbanFarmlandLush,
        AssetTag::UrbanTownAbandoned,
        AssetTag::UrbanTownInhabited,
        AssetTag::UrbanTownLumberyardLush,
        AssetTag::UrbanMonasteryLush,
        AssetTag::UrbanTowerLush,
        AssetTag::UrbanTownLush,
        AssetTag::OceanSoftWaves,
        AssetTag::OceanStill,
        AssetTag::OceanWaves,
        AssetTag::SwampSoftWaves,
        AssetTag::SwampStill,
        AssetTag::SwanpWaves,
        AssetTag::WetlandsDamp,
    ]
}

/// The catalog lists each tag once, at its ordinal.
pub proof fn catalog_is_complete(tag: AssetTag)
    ensures
        catalog().len() == TAG_COUNT,
        0 <= ordinal(tag) < TAG_COUNT,
        catalog()[ordinal(tag)] == tag,
        forall|k: int| 0 <= k < TAG_COUNT && catalog()[k] == tag ==> k == ordinal(tag),
{
    assert forall|k: int| 0 <= k < TAG_COUNT implies ordinal(#[trigger] catalog()[k]) == k by {
    }
}

/// Every tag of the catalog, in catalog order.
pub fn all_asset_tags() -> (tags: Vec<AssetTag>)
    ensures
        tags@ == catalog(),
{
    let tags = vec![
        AssetTag::Unresolved,
        AssetTag::Outline,
        AssetTag::Blank,
        AssetTag::BaseLush,
        AssetTag::BaseOcean,
        AssetTag::BaseRocky,
        AssetTag::BaseSnowy,
        AssetTag::ForestConiferLush,
        AssetTag::ForestConiferSnowy,
        AssetTag::ForestDeciduousLush,
        AssetTag::ForestMixedLush,
        AssetTag::HillsDesert,
        AssetTag::HillsLush,
        AssetTag::HillsSnowy,
        AssetTag::MountainVolcanoLush,
        AssetTag::MountainVolcanoRocky,
        AssetTag::MountainVolcanoSnowy,
        AssetTag::MountainFoothillsLush,
        AssetTag::MountainFoothillsRocky,
        AssetTag::MountainFoothillsSnowy,
        AssetTag::MountainLowLush,
        AssetTag::MountainLowRocky,
        AssetTag::MountainLowSnowy,
        AssetTag::MountainMediumLush,
        AssetTag::MountainMediumRocky,
        AssetTag::MountainMediumSnowy,
        AssetTag::MountainPeakLush,
        AssetTag::MountainPeakRocky,
        AssetTag::MountainPeakSnowy,
        AssetTag::PlainsDamp,
        AssetTag::PlainsDesert,
        AssetTag::PlainsFarmland,
        AssetTag::PlainsLush,
        AssetTag::RuinDesert,
        AssetTag::RuinLush,
        AssetTag::SnowArea,
        AssetTag::SnowDrifts,
        AssetTag::SnowField,
        AssetTag::SparseTreesLush,
        AssetTag::SparseTreesSnowy,
        AssetTag::UrbanCityLush,
        AssetTag::UrbanFarmLush,
        AssetTag::UrbanFarmlandLush,
        AssetTag::UrbanTownAbandoned,
        AssetTag::UrbanTownInhabited,
        AssetTag::UrbanTownLumberyardLush,
        AssetTag::UrbanMonasteryLush,
        AssetTag::UrbanTowerLush,
        AssetTag::UrbanTownLush,
        AssetTag::OceanSoftWaves,
        AssetTag::OceanStill,
        AssetTag::OceanWaves,
        AssetTag::SwampSoftWaves,
        AssetTag::SwampStill,
        AssetTag::SwanpWaves,
        AssetTag::WetlandsDamp,
    ];
    assert(tags@ =~= catalog());
    tags
}

/// The tag that a name in lower case selects; `Unresolved` for any other
/// text.
pub open spec fn tag_of_lowercase(name: Seq<char>) -> AssetTag {
    if name == "outline"@ {
        AssetTag::Outline
    } else if name == "blank (white)"@ {
        AssetTag::Blank
    } else if name == "lush (green)"@ {
        AssetTag::BaseLush
    } else if name == "ocean (blue)"@ {
        AssetTag::BaseOcean
    } else if name == "rocky (gray)"@ {
        AssetTag::BaseRocky
    } else if name == "snowy (off-white)"@ {
        AssetTag::BaseSnowy
    } else if name == "forest conifer, lush"@ {
        AssetTag::ForestConiferLush
    } else if name == "forest conifer, snowy"@ {
        AssetTag::ForestConiferSnowy
    } else if name == "forest deciduous, lush"@ {
        AssetTag::ForestDeciduousLush
    } else if name == "forest mixed, lush"@ {
        AssetTag::ForestMixedLush
    } else if name == "hills, desert"@ {
        AssetTag::HillsDesert
    } else if name == "hills, lush"@ {
        AssetTag::HillsLush
    } else if name == "hills, snowy"@ {
        AssetTag::HillsSnowy
    } else if name == "mountain volcano, lush"@ {
        AssetTag::MountainVolcanoLush
    } else if name == "mountain volcano, rocky"@ {
        AssetTag::MountainVolcanoRocky
    } else if name == "mountain volcano, snowy"@ {
        AssetTag::MountainVolcanoSnowy
    } else if name == "mountain foothills, lush"@ {
        AssetTag::MountainFoothillsLush
    } else if name == "mountain foothills, rocky"@ {
        AssetTag::MountainFoothillsRocky
    } else if name == "mountain foothills, snowy"@ {
        AssetTag::MountainFoothillsSnowy
    } else if name == "mountain low, lush"@ {
        AssetTag::MountainLowLush
    } else if name == "mountain low, rocky"@ {
        AssetTag::MountainLowRocky
    } else if name == "mountain low, snowy"@ {
        AssetTag::MountainLowSnowy
    } else if name == "mountain medium, lush"@ {
        AssetTag::MountainMediumLush
    } else if name == "mountain medium, rocky"@ {
        AssetTag::MountainMediumRocky
    } else if name == "mountain medium, snowy"@ {
        AssetTag::MountainMediumSnowy
    } else if name == "mountain peak, lush"@ {
        AssetTag::MountainPeakLush
    } else if name == "mountain peak, rocky"@ {
        AssetTag::MountainPeakRocky
    } else if name == "mountain peak, snowy"@ {
        AssetTag::MountainPeakSnowy
    } else if name == "plains, damp"@ {
        AssetTag::PlainsDamp
    } else if name == "plains, desert"@ {
        AssetTag::PlainsDesert
    } else if name == "plains, farmland"@ {
        AssetTag::PlainsFarmland
    } else if name == "plains, lush"@ {
        AssetTag::PlainsLush
    } else if name == "ruins, desert"@ {
        AssetTag::RuinDesert
    } else if name == "ruins, lush"@ {
        AssetTag::RuinLush
    } else if name == "snow area"@ {
        AssetTag::SnowArea
    } else if name == "snow drifts"@ {
        AssetTag::SnowDrifts
    } else if name == "snow field"@ {
        AssetTag::SnowField
    } else if name == "sparse trees, lush"@ {
        AssetTag::SparseTreesLush
    } else if name == "sparse trees, snowy"@ {
        AssetTag::SparseTreesSnowy
    } else if name == "urban city, lush"@ {
        AssetTag::UrbanCityLush
    } else if name == "urban farm, lush"@ {
        AssetTag::UrbanFarmLush
    } else if name == "urban farmland, lush"@ {
        AssetTag::UrbanFarmlandLush
    } else if name == "urban town, abandoned"@ {
        AssetTag::UrbanTownAbandoned
    } else if name == "urban town, inhabited"@ {
        AssetTag::UrbanTownInhabited
    } else if name == "urban town lumberyard"@ {
        AssetTag::UrbanTownLumberyardLush
    } else if name == "urban monastery"@ {
        AssetTag::UrbanMonasteryLush
    } else if name == "urban tower"@ {
        AssetTag::UrbanTowerLush
    } else if name == "urban town, lush"@ {
        AssetTag::UrbanTownLush
    } else if name == "ocean soft waves"@ {
        AssetTag::OceanSoftWaves
    } else if name == "ocean still water"@ {
        AssetTag::OceanStill
    } else if name == "ocean waves"@ {
        AssetTag::OceanWaves
    } else if name == "wetlands, damp"@ {
        AssetTag::WetlandsDamp
    } else {
        AssetTag::Unresolved
    }
}

/// The tag that a name selects, whatever its letter case.
pub open spec fn tag_of_name(name: Seq<char>) -> AssetTag {
    tag_of_lowercase(lowercase(name))
}

impl AssetTag {
    /// The tag that a name selects, whatever its letter case. A name that
    /// the catalog does not know selects `Unresolved`.
    pub fn from_str(s: &str) -> (tag: AssetTag)
        ensures
            tag == tag_of_name(s@),
    {
        let lower = to_lowercase(s);
        AssetTag::from_lowercase(lower.as_str())
    }

    /// The tag that a name in lower case selects; `Unresolved` for any
    /// other text.
    pub fn from_lowercase(s: &str) -> (tag: AssetTag)
        ensures
            tag == tag_of_lowercase(s@),
    {
        if same_text(s, "outline") {
            AssetTag::Outline
        } else if same_text(s, "blank (white)") {
            AssetTag::Blank
        } else if same_text(s, "lush (green)") {
            AssetTag::BaseLush
        } else if same_text(s, "ocean (blue)") {
            AssetTag::BaseOcean
        } else if same_text(s, "rocky (gray)") {
            AssetTag::BaseRocky
        } else if same_text(s, "snowy (off-white)") {
            AssetTag::BaseSnowy
        } else if same_text(s, "forest conifer, lush") {
            AssetTag::ForestConiferLush
        } else if same_text(s, "forest conifer, snowy") {
            AssetTag::ForestConiferSnowy
        } else if same_text(s, "forest deciduous, lush") {
            AssetTag::ForestDeciduousLush
        } else if same_text(s, "forest mixed, lush") {
            AssetTag::ForestMixedLush
        } else if same_text(s, "hills, desert") {
            AssetTag::HillsDesert
        } else if same_text(s, "hills, lush") {
            AssetTag::HillsLush
        } else if same_text(s, "hills, snowy") {
            AssetTag::HillsSnowy
        } else if same_text(s, "mountain volcano, lush") {
            AssetTag::MountainVolcanoLush
        } else if same_text(s, "mountain volcano, rocky") {
            AssetTag::MountainVolcanoRocky
        } else if same_text(s, "mountain volcano, snowy") {
            AssetTag::MountainVolcanoSnowy
        } else if same_text(s, "mountain foothills, lush") {
            AssetTag::MountainFoothillsLush
        } else if same_text(s, "mountain foothills, rocky") {
            AssetTag::MountainFoothillsRocky
        } else if same_text(s, "mountain foothills, snowy") {
            AssetTag::MountainFoothillsSnowy
        } else if same_text(s, "mountain low, lush") {
            AssetTag::MountainLowLush
        } else if same_text(s, "mountain low, rocky") {
            AssetTag::MountainLowRocky
        } else if same_text(s, "mountain low, snowy") {
            AssetTag::MountainLowSnowy
        } else if same_text(s, "mountain medium, lush") {
            AssetTag::MountainMediumLush
        } else if same_text(s, "mountain medium, rocky") {
            AssetTag::MountainMediumRocky
        } else if same_text(s, "mountain medium, snowy") {
            AssetTag::MountainMediumSnowy
        } else if same_text(s, "mountain peak, lush") {
            AssetTag::MountainPeakLush
        } else if same_text(s, "mountain peak, rocky") {
            AssetTag::MountainPeakRocky
        } else if same_text(s, "mountain peak, snowy") {
            AssetTag::MountainPeakSnowy
        } else if same_text(s, "plains, damp") {
            AssetTag::PlainsDamp
        } else if same_text(s, "plains, desert") {
            AssetTag::PlainsDesert
        } else if same_text(s, "plains, farmland") {
            AssetTag::PlainsFarmland
        } else if same_text(s, "plains, lush") {
            AssetTag::PlainsLush
        } else if same_text(s, "ruins, desert") {
            AssetTag::RuinDesert
        } else if same_text(s, "ruins, lush") {
            AssetTag::RuinLush
        } else if same_text(s, "snow area") {
            AssetTag::SnowArea
        } else if same_text(s, "snow drifts") {
            AssetTag::SnowDrifts
        } else if same_text(s, "snow field") {
            AssetTag::SnowField
        } else if same_text(s, "sparse trees, lush") {
            AssetTag::SparseTreesLush
        } else if same_text(s, "sparse trees, snowy") {
            AssetTag::SparseTreesSnowy
        } else if same_text(s, "urban city, lush") {
            AssetTag::UrbanCityLush
        } else if same_text(s, "urban farm, lush") {
            AssetTag::UrbanFarmLush
        } else if same_text(s, "urban farmland, lush") {
            AssetTag::UrbanFarmlandLush
        } else if same_text(s, "urban town, abandoned") {
            AssetTag::UrbanTownAbandoned
        } else if same_text(s, "urban town, inhabited") {
            AssetTag::UrbanTownInhabited
        } else if same_text(s, "urban town lumberyard") {
            AssetTag::UrbanTownLumberyardLush
        } else if same_text(s, "urban monastery") {
            AssetTag::UrbanMonasteryLush
        } else if same_text(s, "urban tower") {
            AssetTag::UrbanTowerLush
        } else if same_text(s, "urban town, lush") {
            AssetTag::UrbanTownLush
        } else if same_text(s, "ocean soft waves") {
            AssetTag::OceanSoftWaves
        } else if same_text(s, "ocean still water") {
            AssetTag::OceanStill
        } else if same_text(s, "ocean waves") {
            AssetTag::OceanWaves
        } else if same_text(s, "wetlands, damp") {
            AssetTag::WetlandsDamp
        } else {
            AssetTag::Unresolved
        }
    }
}

/// The image file that shows a tag; none for `Unresolved`.
pub open spec fn asset_file(tag: AssetTag) -> Option<Seq<char>> {
    match tag {
        AssetTag::Unresolved => None,
        AssetTag::Outline => Some("Hex - Base (outline).webp"@),
        AssetTag::Blank => Some("Hex - Base (blank).webp"@),
        AssetTag::BaseLush => Some("Hex - Base (lush).webp"@),
        AssetTag::BaseOcean => Some("Hex - Base (ocean).webp"@),
        AssetTag::BaseRocky => Some("Hex - Base (rocky).webp"@),
        AssetTag::BaseSnowy => Some("Hex - Base (snowy).webp"@),
        AssetTag::ForestConiferLush => Some("Hex - Forest, conifer (lush).webp"@),
        AssetTag::ForestConiferSnowy => Some("Hex - Forest, conifer (snowy).webp"@),
        AssetTag::ForestDeciduousLush => Some("Hex - Forest, deciduous (lush).webp"@),
        AssetTag::ForestMixedLush => Some("Hex - Forest, mixed (lush).webp"@),
        AssetTag::HillsDesert => Some("Hex - Hills (desert) 1.webp"@),
        AssetTag::HillsLush => Some("Hex - Hills (lush) 1.webp"@),
        AssetTag::HillsSnowy => Some("Hex - Hills (snowy) 1.webp"@),
        AssetTag::MountainVolcanoLush => Some("Hex - Mountain, Volcano (lush) 1.webp"@),
        AssetTag::MountainVolcanoRocky => Some("Hex - Mountain, Volcano (rocky) 1.webp"@),
        AssetTag::MountainVolcanoSnowy => Some("Hex - Mountain, Volcano (snowy) 1.webp"@),
        AssetTag::MountainFoothillsLush => Some("Hex - Mountains, foothills (lush).webp"@),
        AssetTag::MountainFoothillsRocky => Some("Hex - Mountains, foothills (rocky).webp"@),
        AssetTag::MountainFoothillsSnowy => Some("Hex - Mountains, foothills (snowy).webp"@),
        AssetTag::MountainLowLush => Some("Hex - Mountains, low (lush).webp"@),
        AssetTag::MountainLowRocky => Some("Hex - Mountains, low (rocky).webp"@),
        AssetTag::MountainLowSnowy => Some("Hex - Mountains, low (snowy).webp"@),
        AssetTag::MountainMediumLush => Some("Hex - Mountains, medium (lush).webp"@),
        AssetTag::MountainMediumRocky => Some("Hex - Mountains, medium (rocky).webp"@),
        AssetTag::MountainMediumSnowy => Some("Hex - Mountains, medium (snowy).webp"@),
        AssetTag::MountainPeakLush => Some("Hex - Mountains, peak (lush).webp"@),
        AssetTag::MountainPeakRocky => Some("Hex - Mountains, peak (rocky).webp"@),
        AssetTag::MountainPeakSnowy => Some("Hex - Mountains, peak (snowy).webp"@),
        AssetTag::PlainsDamp => Some("Hex - Plains (damp) 1.webp"@),
        AssetTag::PlainsDesert => Some("Hex - Plains (desert) 4.webp"@),
        AssetTag::PlainsFarmland => Some("Hex - Plains (farmland) 1.webp"@),
        AssetTag::PlainsLush => Some("Hex - Plains (lush) 5.webp"@),
        AssetTag::RuinDesert => Some("Hex - Ruin (desert).webp"@),
        AssetTag::RuinLush => Some("Hex - Ruin (lush).webp"@),
        AssetTag::SnowArea => Some("Hex - Snow (area) 1.webp"@),
        AssetTag::SnowDrifts => Some("Hex - Snow (drifts) 1.webp"@),
        AssetTag::SnowField => Some("Hex - Snow (field) 1.webp"@),
        AssetTag::SparseTreesLush => Some("Hex - Sparse Trees (lush) 1.webp"@),
        AssetTag::SparseTreesSnowy => Some("Hex - Sparse Trees (snowy).webp"@),
        AssetTag::UrbanCityLush => Some("Hex - Urban - City (lush).webp"@),
        AssetTag::UrbanFarmLush => Some("Hex - Urban - Farm (lush).webp"@),
        AssetTag::UrbanFarmlandLush => Some("Hex - Urban - Farmland (lush) 1.webp"@),
        AssetTag::UrbanTownAbandoned => Some("Hex - Urban - Modern Town, abandoned (lush) 1.webp"@),
        AssetTag::UrbanTownInhabited => Some("Hex - Urban - Modern Town, inhabited (lush) 1.webp"@),
        AssetTag::UrbanTownLumberyardLush => Some("Hex - Urban - Modern Town, lumber yard (lush).webp"@),
        AssetTag::UrbanMonasteryLush => Some("Hex - Urban - Monastery (lush).webp"@),
        AssetTag::UrbanTowerLush => Some("Hex - Urban - Tower (lush).webp"@),
        AssetTag::UrbanTownLush => Some("Hex - Urban - Town (lush).webp"@),
        AssetTag::OceanSoftWaves => Some("Hex - Water - Ocean (soft waves) 1.webp"@),
        AssetTag::OceanStill => Some("Hex - Water - Ocean (still water) 1.webp"@),
        AssetTag::OceanWaves => Some("Hex - Water - Ocean (waves) 1.webp"@),
        AssetTag::SwampSoftWaves => Some("Hex - Water - Swamp (soft waves) 1.webp"@),
        AssetTag::SwampStill => Some("Hex - Water - Swamp (still water) 1.webp"@),
        AssetTag::SwanpWaves => Some("Hex - Water - Swamp (waves) 1.webp"@),
        AssetTag::WetlandsDamp => Some("Hex - Wetlands (damp) 1.webp"@),
    }
}

/// The image file that shows a tag; none for `Unresolved`.
pub fn get_asset_for_tag(tag: AssetTag) -> (file: Option<&'static str>)
    ensures
        file.is_some() == asset_file(tag).is_some(),
        file.is_some() ==> file.unwrap()@ == asset_file(tag).unwrap(),
{
    match tag {
        AssetTag::Unresolved => None,
        AssetTag::Outline => Some("Hex - Base (outline).webp"),
        AssetTag::Blank => Some("Hex - Base (blank).webp"),
        AssetTag::BaseLush => Some("Hex - Base (lush).webp"),
        AssetTag::BaseOcean => Some("Hex - Base (ocean).webp"),
        AssetTag::BaseRocky => Some("Hex - Base (rocky).webp"),
        AssetTag::BaseSnowy => Some("Hex - Base (snowy).webp"),
        AssetTag::ForestConiferLush => Some("Hex - Forest, conifer (lush).webp"),
        AssetTag::ForestConiferSnowy => Some("Hex - Forest, conifer (snowy).webp"),
        AssetTag::ForestDeciduousLush => Some("Hex - Forest, deciduous (lush).webp"),
        AssetTag::ForestMixedLush => Some("Hex - Forest, mixed (lush).webp"),
        AssetTag::HillsDesert => Some("Hex - Hills (desert) 1.webp"),
        AssetTag::HillsLush => Some("Hex - Hills (lush) 1.webp"),
        AssetTag::HillsSnowy => Some("Hex - Hills (snowy) 1.webp"),
        AssetTag::MountainVolcanoLush => Some("Hex - Mountain, Volcano (lush) 1.webp"),
        AssetTag::MountainVolcanoRocky => Some("Hex - Mountain, Volcano (rocky) 1.webp"),
        AssetTag::MountainVolcanoSnowy => Some("Hex - Mountain, Volcano (snowy) 1.webp"),
        AssetTag::MountainFoothillsLush => Some("Hex - Mountains, foothills (lush).webp"),
        AssetTag::MountainFoothillsRocky => Some("Hex - Mountains, foothills (rocky).webp"),
        AssetTag::MountainFoothillsSnowy => Some("Hex - Mountains, foothills (snowy).webp"),
        AssetTag::MountainLowLush => Some("Hex - Mountains, low (lush).webp"),
        AssetTag::MountainLowRocky => Some("Hex - Mountains, low (rocky).webp"),
        AssetTag::MountainLowSnowy => Some("Hex - Mountains, low (snowy).webp"),
        AssetTag::MountainMediumLush => Some("Hex - Mountains, medium (lush).webp"),
        AssetTag::MountainMediumRocky => Some("Hex - Mountains, medium (rocky).webp"),
        AssetTag::MountainMediumSnowy => Some("Hex - Mountains, medium (snowy).webp"),
        AssetTag::MountainPeakLush => Some("Hex - Mountains, peak (lush).webp"),
        AssetTag::MountainPeakRocky => Some("Hex - Mountains, peak (rocky).webp"),
        AssetTag::MountainPeakSnowy => Some("Hex - Mountains, peak (snowy).webp"),
        AssetTag::PlainsDamp => Some("Hex - Plains (damp) 1.webp"),
        AssetTag::PlainsDesert => Some("Hex - Plains (desert) 4.webp"),
        AssetTag::PlainsFarmland => Some("Hex - Plains (farmland) 1.webp"),
        AssetTag::PlainsLush => Some("Hex - Plains (lush) 5.webp"),
        AssetTag::RuinDesert => Some("Hex - Ruin (desert).webp"),
        AssetTag::RuinLush => Some("Hex - Ruin (lush).webp"),
        AssetTag::SnowArea => Some("Hex - Snow (area) 1.webp"),
        AssetTag::SnowDrifts => Some("Hex - Snow (drifts) 1.webp"),
        AssetTag::SnowField => Some("Hex - Snow (field) 1.webp"),
        AssetTag::SparseTreesLush => Some("Hex - Sparse Trees (lush) 1.webp"),
        AssetTag::SparseTreesSnowy => Some("Hex - Sparse Trees (snowy).webp"),
        AssetTag::UrbanCityLush => Some("Hex - Urban - City (lush).webp"),
        AssetTag::UrbanFarmLush => Some("Hex - Urban - Farm (lush).webp"),
        AssetTag::UrbanFarmlandLush => Some("Hex - Urban - Farmland (lush) 1.webp"),
        AssetTag::UrbanTownAbandoned => Some("Hex - Urban - Modern Town, abandoned (lush) 1.webp"),
        AssetTag::UrbanTownInhabited => Some("Hex - Urban - Modern Town, inhabited (lush) 1.webp"),
        AssetTag::UrbanTownLumberyardLush => Some("Hex - Urban - Modern Town, lumber yard (lush).webp"),
        AssetTag::UrbanMonasteryLush => Some("Hex - Urban - Monastery (lush).webp"),
        AssetTag::UrbanTowerLush => Some("Hex - Urban - Tower (lush).webp"),
        AssetTag::UrbanTownLush => Some("Hex - Urban - Town (lush).webp"),
        AssetTag::OceanSoftWaves => Some("Hex - Water - Ocean (soft waves) 1.webp"),
        AssetTag::OceanStill => Some("Hex - Water - Ocean (still water) 1.webp"),
        AssetTag::OceanWaves => Some("Hex - Water - Ocean (waves) 1.webp"),
        AssetTag::SwampSoftWaves => Some("Hex - Water - Swamp (soft waves) 1.webp"),
        AssetTag::SwampStill => Some("Hex - Water - Swamp (still water) 1.webp"),
        AssetTag::SwanpWaves => Some("Hex - Water - Swamp (waves) 1.webp"),
        AssetTag::WetlandsDamp => Some("Hex - Wetlands (damp) 1.webp"),
    }
}

/// The directory that holds the image files.
pub open spec fn asset_directory() -> Seq<char> {
    "hextiles/"@
}

/// The path under which a tag's image is loaded; none for a tag without an
/// image file.
pub open spec fn asset_path(tag: AssetTag) -> Option<Seq<char>> {
    match asset_file(tag) {
        Some(file) => Some(asset_directory() + file),
        None => None,
    }
}

/// The path under which a tag's image is loaded; none for a tag without an
/// image file, which is shown by the placeholder image.
pub fn load_tag(tag: AssetTag) -> (path: Option<String>)
    ensures
        path.is_some() == asset_path(tag).is_some(),
        path.is_some() ==> path.unwrap()@ == asset_path(tag).unwrap(),
{
    match get_asset_for_tag(tag) {
        Some(file) => {
            let mut path = String::from_str("hextiles/");
            path.append(file);
            Some(path)
        },
        None => None,
    }
}

} // verus!
