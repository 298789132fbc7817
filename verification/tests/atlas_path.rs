use std::path::PathBuf;

use bevy::asset::AssetPath;
use dm_spine_bevy::atlas_path::{
    atlas_file_name, derive_atlas_path, page_image_paths, strip_rig_suffix, try_derive_atlas_path,
    AssetPathError, AssetPathParts, AtlasDeriveError,
};

fn parts_of(a: &AssetPath) -> AssetPathParts {
    AssetPathParts {
        source: a.source().as_str().map(String::from),
        path: a.path().to_str().unwrap().to_string(),
        label: a.label().map(String::from),
    }
}

fn make_path(p: &str) -> AssetPathParts {
    parts_of(&AssetPath::from(PathBuf::from(p)))
}

fn plain(p: &str) -> AssetPathParts {
    AssetPathParts { source: None, path: p.to_string(), label: None }
}

#[test]
fn skel_loader_strips_pro_suffix() {
    let skel = make_path("rigs/spineboy/export/spineboy-pro.skel");
    let atlas = derive_atlas_path(&skel, None).unwrap();
    assert_eq!(Some(atlas.path.as_str()), Some("rigs/spineboy/export/spineboy.atlas"));
}

#[test]
fn strips_ess_suffix() {
    let skel = make_path("rigs/spineboy-ess.skel");
    let atlas = derive_atlas_path(&skel, None).unwrap();
    assert_eq!(Some(atlas.path.as_str()), Some("rigs/spineboy.atlas"));
}

#[test]
fn keeps_unsuffixed_stem() {
    let skel = make_path("rigs/raptor.skel");
    let atlas = derive_atlas_path(&skel, None).unwrap();
    assert_eq!(Some(atlas.path.as_str()), Some("rigs/raptor.atlas"));
}

#[test]
fn skel_loader_honours_override() {
    let skel = make_path("rigs/spineboy-pro.skel");
    let atlas = derive_atlas_path(&skel, Some("packs/hero.atlas")).unwrap();
    assert_eq!(Some(atlas.path.as_str()), Some("packs/hero.atlas"));
}

#[test]
fn skel_json_loader_strips_pro_suffix() {
    let j = make_path("rigs/spineboy/export/spineboy-pro.json");
    let atlas = derive_atlas_path(&j, None).unwrap();
    assert_eq!(Some(atlas.path.as_str()), Some("rigs/spineboy/export/spineboy.atlas"));
}

#[test]
fn skel_json_loader_honours_override() {
    let j = make_path("rigs/spineboy-pro.json");
    let atlas = derive_atlas_path(&j, Some("packs/hero.atlas")).unwrap();
    assert_eq!(Some(atlas.path.as_str()), Some("packs/hero.atlas"));
}

#[test]
fn strips_ios_suffix() {
    let atlas = derive_atlas_path(&make_path("rigs/owl-ios.skel"), None).unwrap();
    assert_eq!(atlas, plain("rigs/owl.atlas"));
}

#[test]
fn strips_only_one_suffix() {
    assert_eq!(strip_rig_suffix("hero-pro-pro"), "hero-pro");
    assert_eq!(strip_rig_suffix("hero-ess-pro"), "hero-ess");
    assert_eq!(strip_rig_suffix("-pro"), "");
    assert_eq!(strip_rig_suffix("pro"), "pro");
    assert_eq!(strip_rig_suffix("hero-PRO"), "hero-PRO");
}

#[test]
fn atlas_file_name_appends_extension() {
    assert_eq!(atlas_file_name("spineboy-pro"), "spineboy.atlas");
    assert_eq!(atlas_file_name("raptor"), "raptor.atlas");
    assert_eq!(atlas_file_name(""), ".atlas");
}

#[test]
fn override_keeps_source_and_label() {
    let skel = make_path("rigs/spineboy-pro.skel");
    let out = derive_atlas_path(&skel, Some("remote://packs/hero.atlas#page")).unwrap();
    assert_eq!(
        out,
        AssetPathParts {
            source: Some("remote".to_string()),
            path: "packs/hero.atlas".to_string(),
            label: Some("page".to_string()),
        }
    );
    assert_eq!(out.to_text(), "remote://packs/hero.atlas#page");
}

#[test]
fn derived_path_keeps_source() {
    let skel = parts_of(&AssetPath::parse("remote://rigs/spineboy-pro.skel"));
    let out = derive_atlas_path(&skel, None).unwrap();
    assert_eq!(out.to_text(), "remote://rigs/spineboy.atlas");
    assert_eq!(out.source.as_deref(), Some("remote"));
}

#[test]
fn hash_in_skeleton_file_name_is_kept_in_the_path() {
    // A path built from a `PathBuf` may hold `#` in its file name; it is not
    // a label there. The derived name `a#b.atlas` is then read as a relative
    // asset path, whose `#` does start a label.
    let skel = make_path("rigs/a#b.skel");
    assert_eq!(skel.path, "rigs/a#b.skel");
    let out = derive_atlas_path(&skel, None).unwrap();
    let expected = parts_of(&AssetPath::from(PathBuf::from("rigs/a#b.skel")).resolve_embed("a#b.atlas").unwrap());
    assert_eq!(out, expected);
    assert_eq!(out.to_text(), "rigs/a#b.atlas");
}

#[test]
fn path_without_stem_is_bad_stem() {
    match derive_atlas_path(&plain(""), None) {
        Err(AtlasDeriveError::BadStem(s)) => assert_eq!(s, ""),
        other => panic!("unexpected {:?}", other),
    }
    let no_stem = AssetPathParts { source: Some("src".to_string()), path: "".to_string(), label: Some("x".to_string()) };
    match derive_atlas_path(&no_stem, None) {
        Err(AtlasDeriveError::BadStem(s)) => assert_eq!(s, "src://#x"),
        other => panic!("unexpected {:?}", other),
    }
}

#[test]
fn invalid_override_is_refused() {
    match try_derive_atlas_path(&plain("rigs/a.skel"), Some("file.atlas#")) {
        Err(AtlasDeriveError::Parse(e)) => assert_eq!(e, AssetPathError::MissingLabel),
        other => panic!("unexpected {:?}", other),
    }
    match try_derive_atlas_path(&plain("rigs/a.skel"), Some("://file.atlas")) {
        Err(AtlasDeriveError::Parse(e)) => assert_eq!(e, AssetPathError::MissingSource),
        other => panic!("unexpected {:?}", other),
    }
}

#[test]
fn try_derive_matches_derive_on_valid_input() {
    let skel = plain("rigs/spineboy-pro.skel");
    assert_eq!(
        try_derive_atlas_path(&skel, None).unwrap(),
        derive_atlas_path(&skel, None).unwrap()
    );
    assert_eq!(try_derive_atlas_path(&skel, Some("x/y.atlas")).unwrap(), plain("x/y.atlas"));
}

#[test]
fn page_images_resolve_next_to_atlas() {
    let pages = vec!["spineboy.png".to_string(), "../shared/other.png".to_string(), "bad#".to_string()];
    let atlas = plain("rigs/spineboy.atlas");
    let out = page_image_paths(&atlas, &pages);
    assert_eq!(out, vec![plain("rigs/spineboy.png"), plain("shared/other.png"), plain("rigs/spineboy.atlas")]);
    assert!(page_image_paths(&atlas, &vec![]).is_empty());
}

#[test]
fn asset_path_text_writes_all_parts() {
    assert_eq!(plain("a/b.png").to_text(), "a/b.png");
    let p = AssetPathParts { source: Some("s".to_string()), path: "a".to_string(), label: Some("l".to_string()) };
    assert_eq!(p.to_text(), "s://a#l");
    assert_eq!(p.copy(), p);
}
