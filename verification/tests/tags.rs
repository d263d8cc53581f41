use hex_painter::tags::{all_asset_tags, get_asset_for_tag, load_tag, AssetTag, TAG_COUNT};

#[test]
fn names_select_their_tags() {
    assert_eq!(AssetTag::from_str("outline"), AssetTag::Outline);
    assert_eq!(AssetTag::from_str("blank (white)"), AssetTag::Blank);
    assert_eq!(AssetTag::from_str("lush (green)"), AssetTag::BaseLush);
    assert_eq!(AssetTag::from_str("ocean (blue)"), AssetTag::BaseOcean);
    assert_eq!(AssetTag::from_str("forest conifer, lush"), AssetTag::ForestConiferLush);
    assert_eq!(AssetTag::from_str("mountain peak, rocky"), AssetTag::MountainPeakRocky);
    assert_eq!(AssetTag::from_str("ruins, desert"), AssetTag::RuinDesert);
    assert_eq!(AssetTag::from_str("urban town lumberyard"), AssetTag::UrbanTownLumberyardLush);
    assert_eq!(AssetTag::from_str("urban monastery"), AssetTag::UrbanMonasteryLush);
    assert_eq!(AssetTag::from_str("ocean still water"), AssetTag::OceanStill);
    assert_eq!(AssetTag::from_str("wetlands, damp"), AssetTag::WetlandsDamp);
}

#[test]
fn names_are_matched_whatever_their_case() {
    assert_eq!(AssetTag::from_str("Mountain Peak, Rocky"), AssetTag::MountainPeakRocky);
    assert_eq!(AssetTag::from_str("OUTLINE"), AssetTag::Outline);
    assert_eq!(AssetTag::from_str("Snow Drifts"), AssetTag::SnowDrifts);
    assert_eq!(AssetTag::from_str("pLAINS, fARMLAND"), AssetTag::PlainsFarmland);
}

#[test]
fn lowercasing_follows_unicode() {
    assert_eq!(AssetTag::from_str("blan\u{212A} (white)"), AssetTag::Blank);
    assert_eq!(AssetTag::from_lowercase("blan\u{212A} (white)"), AssetTag::Unresolved);
}

#[test]
fn unknown_names_are_unresolved() {
    assert_eq!(AssetTag::from_str("bogus"), AssetTag::Unresolved);
    assert_eq!(AssetTag::from_str(""), AssetTag::Unresolved);
    assert_eq!(AssetTag::from_str("Erase"), AssetTag::Unresolved);
    assert_eq!(AssetTag::from_str(" outline"), AssetTag::Unresolved);
    assert_eq!(AssetTag::from_str("outline "), AssetTag::Unresolved);
    assert_eq!(AssetTag::from_str("outlin"), AssetTag::Unresolved);
    assert_eq!(AssetTag::from_str("swamp still water"), AssetTag::Unresolved);
    assert_eq!(AssetTag::from_str("none"), AssetTag::Unresolved);
}

#[test]
fn from_lowercase_matches_exactly() {
    assert_eq!(AssetTag::from_lowercase("hills, snowy"), AssetTag::HillsSnowy);
    assert_eq!(AssetTag::from_lowercase("Hills, Snowy"), AssetTag::Unresolved);
    assert_eq!(AssetTag::from_lowercase("urban tower"), AssetTag::UrbanTowerLush);
}

#[test]
fn tags_have_their_image_files() {
    assert_eq!(get_asset_for_tag(AssetTag::Blank), Some("Hex - Base (blank).webp"));
    assert_eq!(get_asset_for_tag(AssetTag::Outline), Some("Hex - Base (outline).webp"));
    assert_eq!(get_asset_for_tag(AssetTag::HillsDesert), Some("Hex - Hills (desert) 1.webp"));
    assert_eq!(
        get_asset_for_tag(AssetTag::UrbanTownLumberyardLush),
        Some("Hex - Urban - Modern Town, lumber yard (lush).webp")
    );
    assert_eq!(
        get_asset_for_tag(AssetTag::SwanpWaves),
        Some("Hex - Water - Swamp (waves) 1.webp")
    );
    assert_eq!(get_asset_for_tag(AssetTag::WetlandsDamp), Some("Hex - Wetlands (damp) 1.webp"));
    assert_eq!(get_asset_for_tag(AssetTag::Unresolved), None);
}

#[test]
fn only_the_unresolved_tag_lacks_an_image() {
    for tag in all_asset_tags() {
        assert_eq!(get_asset_for_tag(tag).is_none(), tag == AssetTag::Unresolved);
        assert_eq!(load_tag(tag).is_none(), tag == AssetTag::Unresolved);
    }
}

#[test]
fn images_are_loaded_from_the_tile_directory() {
    assert_eq!(load_tag(AssetTag::Blank), Some(String::from("hextiles/Hex - Base (blank).webp")));
    assert_eq!(
        load_tag(AssetTag::PlainsLush),
        Some(String::from("hextiles/Hex - Plains (lush) 5.webp"))
    );
    assert_eq!(load_tag(AssetTag::Unresolved), None);
    for tag in all_asset_tags() {
        if let Some(file) = get_asset_for_tag(tag) {
            assert_eq!(load_tag(tag), Some(format!("hextiles/{}", file)));
        }
    }
}

#[test]
fn catalog_lists_every_tag_once() {
    let tags = all_asset_tags();
    assert_eq!(tags.len(), TAG_COUNT);
    assert_eq!(tags.len(), 56);
    assert_eq!(tags[0], AssetTag::Unresolved);
    assert_eq!(tags[1], AssetTag::Outline);
    assert_eq!(tags[2], AssetTag::Blank);
    assert_eq!(tags[55], AssetTag::WetlandsDamp);
    for (i, a) in tags.iter().enumerate() {
        for (j, b) in tags.iter().enumerate() {
            assert_eq!(a == b, i == j);
        }
    }
}

#[test]
fn every_named_tag_is_in_the_catalog() {
    let tags = all_asset_tags();
    for name in ["outline", "hills, lush", "snow field", "urban city, lush", "ocean waves"] {
        assert!(tags.contains(&AssetTag::from_str(name)));
    }
}
