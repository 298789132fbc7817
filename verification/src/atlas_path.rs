//! Atlas-path derivation shared by the skeleton loaders.

use bevy::asset::AssetPath;
use bevy::asset::ParseAssetPathError::{
    InvalidLabelSyntax, InvalidSourceSyntax, MissingLabel, MissingSource,
};
use std::path::{Path, PathBuf};
use vstd::prelude::*;

verus! {

/// `s` ends with `suffix`.
pub open spec fn ends_with(s: Seq<char>, suffix: Seq<char>) -> bool {
    suffix.len() <= s.len() && s.subrange(s.len() - suffix.len(), s.len() as int) == suffix
}

/// The rig-export suffixes that are stripped from a skeleton stem, in the
/// order they are tried.
pub open spec fn rig_suffixes() -> Seq<Seq<char>> {
    seq![seq!['-', 'p', 'r', 'o'], seq!['-', 'e', 's', 's'], seq!['-', 'i', 'o', 's']]
}

/// The stem with the first matching rig suffix removed, or the stem itself
/// when none matches.
pub open spec fn spec_strip_rig_suffix(stem: Seq<char>) -> Seq<char> {
    if ends_with(stem, rig_suffixes()[0]) {
        stem.subrange(0, stem.len() - 4)
    } else if ends_with(stem, rig_suffixes()[1]) {
        stem.subrange(0, stem.len() - 4)
    } else if ends_with(stem, rig_suffixes()[2]) {
        stem.subrange(0, stem.len() - 4)
    } else {
        stem
    }
}

/// Whether `s` ends with `suffix`, compared character by character.
fn str_ends_with(s: &str, suffix: &str) -> (r: bool)
    ensures
        r == ends_with(s@, suffix@),
{
    let n = s.unicode_len();
    let m = suffix.unicode_len();
    if m > n {
        return false;
    }
    let off = n - m;
    let mut i: usize = 0;
    while i < m
        invariant
            n == s@.len(),
            m == suffix@.len(),
            m <= n,
            off == n - m,
            i <= m,
            forall|j: int| 0 <= j < i ==> s@[off + j] == suffix@[j],
        decreases m - i,
    {
        if s.get_char(off + i) != suffix.get_char(i) {
            assert(s@.subrange(off as int, n as int)[i as int] != suffix@[i as int]);
            return false;
        }
        i = i + 1;
    }
    assert(s@.subrange(off as int, n as int) =~= suffix@);
    true
}

/// Strips the first of the rig suffixes `-pro`, `-ess`, `-ios` that `stem`
/// ends with; returns `stem` unchanged when it ends with none of them.
pub fn strip_rig_suffix(stem: &str) -> (r: &str)
    ensures
        r@ == spec_strip_rig_suffix(stem@),
        (stem@.len() >= 4 && (stem@.subrange(stem@.len() - 4, stem@.len() as int) == seq!['-', 'p', 'r', 'o']
                || stem@.subrange(stem@.len() - 4, stem@.len() as int) == seq!['-', 'e', 's', 's']
                || stem@.subrange(stem@.len() - 4, stem@.len() as int) == seq!['-', 'i', 'o', 's'])) ==> r@ == stem@.subrange(0, stem@.len() - 4),
        !(stem@.len() >= 4 && (stem@.subrange(stem@.len() - 4, stem@.len() as int) == seq!['-', 'p', 'r', 'o']
                || stem@.subrange(stem@.len() - 4, stem@.len() as int) == seq!['-', 'e', 's', 's']
                || stem@.subrange(stem@.len() - 4, stem@.len() as int) == seq!['-', 'i', 'o', 's'])) ==> r@ == stem@,
{
    let pro = "-pro";
    let ess = "-ess";
    let ios = "-ios";
    proof {
        reveal_strlit("-pro");
        reveal_strlit("-ess");
        reveal_strlit("-ios");
        assert(pro@ =~= rig_suffixes()[0]);
        assert(ess@ =~= rig_suffixes()[1]);
        assert(ios@ =~= rig_suffixes()[2]);
    }
    let n = stem.unicode_len();
    if str_ends_with(stem, pro) || str_ends_with(stem, ess) || str_ends_with(stem, ios) {
        stem.substring_char(0, n - 4)
    } else {
        stem
    }
}

/// Why an asset-path string was refused; one variant per refusal that the
/// asset-path grammar knows.
#[derive(Clone, Copy, Debug, PartialEq, Eq, Structural)]
pub enum AssetPathError {
    /// The source part (before `://`) holds a `#`.
    InvalidSourceSyntax,
    /// The label part (after `#`) holds `://`.
    InvalidLabelSyntax,
    /// Nothing precedes `://`.
    MissingSource,
    /// Nothing follows `#`.
    MissingLabel,
}

/// An asset path as plain values: the name of its asset source (`None` for
/// the default source), its path in that source, and its sub-asset label.
#[derive(Clone, Debug, PartialEq, Eq)]
pub struct AssetPathParts {
    pub source: Option<String>,
    pub path: String,
    pub label: Option<String>,
}

/// The characters of an optional string.
pub open spec fn opt_string_view(o: Option<String>) -> Option<Seq<char>> {
    match o {
        Some(s) => Some(s@),
        None => None,
    }
}

/// The characters of an optional string slice.
pub open spec fn opt_str_view(o: Option<&str>) -> Option<Seq<char>> {
    match o {
        Some(s) => Some(s@),
        None => None,
    }
}

impl View for AssetPathParts {
    /// Source name, path and label.
    type V = (Option<Seq<char>>, Seq<char>, Option<Seq<char>>);

    open spec fn view(&self) -> Self::V {
        (opt_string_view(self.source), self.path@, opt_string_view(self.label))
    }
}

/// `://`
pub open spec fn source_separator() -> Seq<char> {
    seq![':', '/', '/']
}

/// How an asset path is written: `source://` when it has a named source,
/// then the path, then `#label` when it has a label.
pub open spec fn spec_asset_path_text(p: (Option<Seq<char>>, Seq<char>, Option<Seq<char>>)) -> Seq<
    char,
> {
    let source = match p.0 {
        Some(s) => s + source_separator(),
        None => Seq::empty(),
    };
    let label = match p.2 {
        Some(l) => seq!['#'] + l,
        None => Seq::empty(),
    };
    source + p.1 + label
}

/// Why no atlas path could be derived for a skeleton path.
#[derive(Debug)]
pub enum AtlasDeriveError {
    /// The skeleton path (written out here) has no file stem.
    BadStem(String),
    /// The derived or given atlas path is not a valid asset path.
    Parse(AssetPathError),
}

/// What `AssetPath::try_parse` makes of `text`: the source name, path and
/// label of the accepted asset path, or the error it is refused with.
pub uninterp spec fn asset_path_parse(text: Seq<char>) -> Result<
    (Option<Seq<char>>, Seq<char>, Option<Seq<char>>),
    AssetPathError,
>;

/// `Path::file_stem` of `path`, under the path rules of the target the crate
/// is built for.
pub uninterp spec fn path_file_stem(path: Seq<char>) -> Option<Seq<char>>;

/// What `AssetPath::resolve_embed(base, rel)` gives (joined and normalised
/// under the path rules of the target the crate is built for): the source
/// name, path and label of the resolved asset path, or the error with which
/// `rel` is refused.
pub uninterp spec fn asset_path_resolve_embed(
    base: (Option<Seq<char>>, Seq<char>, Option<Seq<char>>),
    rel: Seq<char>,
) -> Result<(Option<Seq<char>>, Seq<char>, Option<Seq<char>>), AssetPathError>;

/// Parses `text` with `bevy::asset::AssetPath::try_parse` and reads back the
/// source, path and label of the result. The contract claims that the outcome
/// is the named one, and that the parts of an accepted path, written out,
/// give back `text` (the parser splits the text at the first `://` and the
/// last `#` and keeps everything else as it stands). The path of a path
/// parsed from a `&str` is valid UTF-8, so writing it out loses nothing.
#[verifier::external_body]
fn parse_asset_path(text: &str) -> (r: Result<AssetPathParts, AssetPathError>)
    ensures
        match r {
            Ok(p) => asset_path_parse(text@) == Ok::<_, AssetPathError>(p@)
                && spec_asset_path_text(p@) == text@,
            Err(e) => asset_path_parse(text@) == Err::<
                (Option<Seq<char>>, Seq<char>, Option<Seq<char>>),
                AssetPathError,
            >(e),
        },
{
    match AssetPath::try_parse(text) {
        Ok(p) => Ok(AssetPathParts { source: p.source().as_str().map(String::from), path: p.path().display().to_string(), label: p.label().map(String::from) }),
        Err(InvalidSourceSyntax) => Err(AssetPathError::InvalidSourceSyntax),
        Err(InvalidLabelSyntax) => Err(AssetPathError::InvalidLabelSyntax),
        Err(MissingSource) => Err(AssetPathError::MissingSource),
        Err(MissingLabel) => Err(AssetPathError::MissingLabel),
    }
}

/// Calls `std::path::Path::file_stem` on `path`. The contract claims only
/// that the outcome is the named one.
#[verifier::external_body]
fn file_stem_of(path: &str) -> (r: Option<String>)
    ensures
        opt_string_view(r) == path_file_stem(path@),
{
    Some(Path::new(path).file_stem()?.to_str()?.to_string())
}

/// Builds the asset path with `base`'s source, path and label, calls
/// `bevy::asset::AssetPath::resolve_embed` on it with `rel`, and reads back
/// the source, path and label of the result (a path joined from UTF-8
/// pieces, so writing it out loses nothing). The contract claims only that
/// the outcome is the named one.
#[verifier::external_body]
fn resolve_embed_parts(base: &AssetPathParts, rel: &str) -> (r: Result<AssetPathParts, AssetPathError>)
    ensures
        match r {
            Ok(p) => asset_path_resolve_embed(base@, rel@) == Ok::<_, AssetPathError>(p@),
            Err(e) => asset_path_resolve_embed(base@, rel@) == Err::<
                (Option<Seq<char>>, Seq<char>, Option<Seq<char>>),
                AssetPathError,
            >(e),
        },
{
    let b = AssetPath::from_path_buf(PathBuf::from(&base.path));
    let b = match base.source.clone() { Some(s) => b.with_source(s), None => b };
    let b = match base.label.clone() { Some(l) => b.with_label(l), None => b };
    match b.resolve_embed(rel) {
        Ok(p) => Ok(AssetPathParts { source: p.source().as_str().map(String::from), path: p.path().display().to_string(), label: p.label().map(String::from) }),
        Err(InvalidSourceSyntax) => Err(AssetPathError::InvalidSourceSyntax),
        Err(InvalidLabelSyntax) => Err(AssetPathError::InvalidLabelSyntax),
        Err(MissingSource) => Err(AssetPathError::MissingSource),
        Err(MissingLabel) => Err(AssetPathError::MissingLabel),
    }
}

/// A copy of an optional string.
fn copy_opt_string(o: &Option<String>) -> (r: Option<String>)
    ensures
        opt_string_view(r) == opt_string_view(*o),
{
    match o {
        Some(s) => Some(s.clone()),
        None => None,
    }
}

impl AssetPathParts {
    /// A copy of these parts.
    pub fn copy(&self) -> (r: AssetPathParts)
        ensures
            r@ == self@,
    {
        AssetPathParts {
            source: copy_opt_string(&self.source),
            path: self.path.clone(),
            label: copy_opt_string(&self.label),
        }
    }

    /// The asset path written out: `source://path#label`, leaving out the
    /// source and the label where there are none.
    pub fn to_text(&self) -> (r: String)
        ensures
            r@ == spec_asset_path_text(self@),
    {
        let sep = "://";
        let hash = "#";
        proof {
            reveal_strlit("://");
            reveal_strlit("#");
            assert(sep@ =~= source_separator());
            assert(hash@ =~= seq!['#']);
        }
        let mut out = String::new();
        if let Some(s) = &self.source {
            out.append(s.as_str());
            out.append(sep);
        }
        out.append(self.path.as_str());
        if let Some(l) = &self.label {
            out.append(hash);
            out.append(l.as_str());
        }
        proof {
            let p = self@;
            let source = match p.0 {
                Some(s) => s + source_separator(),
                None => Seq::empty(),
            };
            let label = match p.2 {
                Some(l) => seq!['#'] + l,
                None => Seq::empty(),
            };
            assert(out@ =~= source + p.1 + label);
        }
        out
    }
}

/// `.atlas`
pub open spec fn atlas_extension() -> Seq<char> {
    seq!['.', 'a', 't', 'l', 'a', 's']
}

/// The atlas file name for a skeleton stem: the stem without its rig
/// suffix, followed by `.atlas`.
pub open spec fn spec_atlas_file_name(stem: Seq<char>) -> Seq<char> {
    spec_strip_rig_suffix(stem) + atlas_extension()
}

/// What `derive_atlas_path` gives for the skeleton asset path `skel` and the
/// optional override `over`: the override parsed as an asset path (written
/// out, it is the override's text verbatim), or the atlas file name of the
/// skeleton's stem resolved next to the skeleton.
pub open spec fn derive_atlas_path_ok(
    skel: (Option<Seq<char>>, Seq<char>, Option<Seq<char>>),
    over: Option<Seq<char>>,
    r: Result<AssetPathParts, AtlasDeriveError>,
) -> bool {
    match over {
        Some(p) => match asset_path_parse(p) {
            Ok(v) => r matches Ok(x) && x@ == v && spec_asset_path_text(x@) == p,
            Err(e) => r matches Err(AtlasDeriveError::Parse(x)) && x == e,
        },
        None => match path_file_stem(skel.1) {
            None => r matches Err(AtlasDeriveError::BadStem(s)) && s@ == spec_asset_path_text(skel),
            Some(stem) => match asset_path_resolve_embed(skel, spec_atlas_file_name(stem)) {
                Ok(v) => r matches Ok(x) && x@ == v,
                Err(e) => r matches Err(AtlasDeriveError::Parse(x)) && x == e,
            },
        },
    }
}

/// The atlas file name for a skeleton stem: `spineboy-pro` gives
/// `spineboy.atlas`, `raptor` gives `raptor.atlas`.
pub fn atlas_file_name(stem: &str) -> (r: String)
    ensures
        r@ == spec_atlas_file_name(stem@),
        (stem@.len() >= 4 && (stem@.subrange(stem@.len() - 4, stem@.len() as int) == seq!['-', 'p', 'r', 'o']
                || stem@.subrange(stem@.len() - 4, stem@.len() as int) == seq!['-', 'e', 's', 's']
                || stem@.subrange(stem@.len() - 4, stem@.len() as int) == seq!['-', 'i', 'o', 's'])) ==> r@ == stem@.subrange(0, stem@.len() - 4) + seq!['.', 'a', 't', 'l', 'a', 's'],
        !(stem@.len() >= 4 && (stem@.subrange(stem@.len() - 4, stem@.len() as int) == seq!['-', 'p', 'r', 'o']
                || stem@.subrange(stem@.len() - 4, stem@.len() as int) == seq!['-', 'e', 's', 's']
                || stem@.subrange(stem@.len() - 4, stem@.len() as int) == seq!['-', 'i', 'o', 's'])) ==> r@ == stem@ + seq!['.', 'a', 't', 'l', 'a', 's'],
{
    let ext = ".atlas";
    proof {
        reveal_strlit(".atlas");
        assert(ext@ =~= atlas_extension());
    }
    let base = strip_rig_suffix(stem);
    let mut name = String::from_str(base);
    name.append(ext);
    name
}

/// Derives the atlas asset path for a skeleton asset path. An override is
/// parsed and used as it stands; otherwise the skeleton's file stem loses a
/// trailing `-pro`, `-ess` or `-ios`, gains `.atlas`, and is resolved next to
/// the skeleton (`rigs/spineboy-pro.skel` gives `rigs/spineboy.atlas`).
pub fn derive_atlas_path(skel_path: &AssetPathParts, override_path: Option<&str>) -> (r: Result<
    AssetPathParts,
    AtlasDeriveError,
>)
    requires
        override_path matches Some(p) ==> asset_path_parse(p@) is Ok,
    ensures
        derive_atlas_path_ok(skel_path@, opt_str_view(override_path), r),
{
    match override_path {
        Some(p) => {
            match parse_asset_path(p) {
                Ok(t) => Ok(t),
                Err(e) => Err(AtlasDeriveError::Parse(e)),
            }
        },
        None => {
            match file_stem_of(skel_path.path.as_str()) {
                None => Err(AtlasDeriveError::BadStem(skel_path.to_text())),
                Some(stem) => {
                    let name = atlas_file_name(stem.as_str());
                    match resolve_embed_parts(skel_path, name.as_str()) {
                        Ok(t) => Ok(t),
                        Err(e) => Err(AtlasDeriveError::Parse(e)),
                    }
                },
            }
        },
    }
}

/// `derive_atlas_path` for any override: an override that is not a valid
/// asset path is answered with its parse error instead of being used.
pub fn try_derive_atlas_path(skel_path: &AssetPathParts, override_path: Option<&str>) -> (r: Result<
    AssetPathParts,
    AtlasDeriveError,
>)
    ensures
        derive_atlas_path_ok(skel_path@, opt_str_view(override_path), r),
{
    if let Some(p) = override_path {
        if let Err(e) = parse_asset_path(p) {
            return Err(AtlasDeriveError::Parse(e));
        }
    }
    derive_atlas_path(skel_path, override_path)
}

/// An override, once accepted, is the atlas path verbatim: written out, the
/// derived path is the override's text.
pub proof fn lemma_override_verbatim(
    skel: (Option<Seq<char>>, Seq<char>, Option<Seq<char>>),
    over: Seq<char>,
    r: Result<AssetPathParts, AtlasDeriveError>,
)
    requires
        derive_atlas_path_ok(skel, Some(over), r),
        r is Ok,
    ensures
        spec_asset_path_text(r->Ok_0@) == over,
{
}

/// Where the image of an atlas page named `page` is loaded from: the page
/// name resolved next to the atlas, or the atlas path itself when that
/// resolution fails.
pub open spec fn spec_page_image_path(
    atlas: (Option<Seq<char>>, Seq<char>, Option<Seq<char>>),
    page: Seq<char>,
) -> (Option<Seq<char>>, Seq<char>, Option<Seq<char>>) {
    match asset_path_resolve_embed(atlas, page) {
        Ok(v) => v,
        Err(_) => atlas,
    }
}

/// The image path of every atlas page, in page order, so that image `i`
/// belongs to page `i`.
pub fn page_image_paths(atlas_path: &AssetPathParts, page_names: &Vec<String>) -> (r: Vec<
    AssetPathParts,
>)
    ensures
        r@.len() == page_names@.len(),
        forall|i: int|
            0 <= i < r@.len() ==> #[trigger] r@[i]@ == spec_page_image_path(
                atlas_path@,
                page_names@[i]@,
            ),
        forall|i: int|
            0 <= i < r@.len() ==> match asset_path_resolve_embed(atlas_path@, page_names@[i]@) {
                Ok(v) => #[trigger] r@[i]@ == v,
                Err(_) => r@[i]@ == atlas_path@,
            },
{
    let mut out: Vec<AssetPathParts> = Vec::with_capacity(page_names.len());
    let mut i: usize = 0;
    while i < page_names.len()
        invariant
            i <= page_names@.len(),
            out@.len() == i,
            forall|j: int|
                0 <= j < i ==> #[trigger] out@[j]@ == spec_page_image_path(
                    atlas_path@,
                    page_names@[j]@,
                ),
        decreases page_names@.len() - i,
    {
        let path = match resolve_embed_parts(atlas_path, page_names[i].as_str()) {
            Ok(t) => t,
            Err(_) => atlas_path.copy(),
        };
        out.push(path);
        i = i + 1;
    }
    out
}

/// Only the three rig suffixes are stripped, and at most once: a stem ending
/// in `-pro`, `-ess` or `-ios` loses exactly those four characters, any other
/// stem (dashes and all) is kept whole.
pub proof fn lemma_strip_only_rig_suffixes(stem: Seq<char>)
    ensures
        (stem.len() >= 4 && (stem.subrange(stem.len() - 4, stem.len() as int) == seq!['-', 'p', 'r', 'o']
                || stem.subrange(stem.len() - 4, stem.len() as int) == seq!['-', 'e', 's', 's']
                || stem.subrange(stem.len() - 4, stem.len() as int) == seq!['-', 'i', 'o', 's'])) ==> spec_strip_rig_suffix(stem) == stem.subrange(0, stem.len() - 4),
        !(stem.len() >= 4 && (stem.subrange(stem.len() - 4, stem.len() as int) == seq!['-', 'p', 'r', 'o']
                || stem.subrange(stem.len() - 4, stem.len() as int) == seq!['-', 'e', 's', 's']
                || stem.subrange(stem.len() - 4, stem.len() as int) == seq!['-', 'i', 'o', 's'])) ==> spec_strip_rig_suffix(stem) == stem,
{
    assert(rig_suffixes()[0] =~= seq!['-', 'p', 'r', 'o']);
    assert(rig_suffixes()[1] =~= seq!['-', 'e', 's', 's']);
    assert(rig_suffixes()[2] =~= seq!['-', 'i', 'o', 's']);
}

/// The atlas file name keeps every character of the stem but a rig suffix,
/// and ends in `.atlas`: `mix-and-match-pro` gives `mix-and-match.atlas`,
/// `cloud-pot` gives `cloud-pot.atlas`.
pub proof fn lemma_atlas_file_name_keeps_stem(stem: Seq<char>)
    ensures
        (stem.len() >= 4 && (stem.subrange(stem.len() - 4, stem.len() as int) == seq!['-', 'p', 'r', 'o']
                || stem.subrange(stem.len() - 4, stem.len() as int) == seq!['-', 'e', 's', 's']
                || stem.subrange(stem.len() - 4, stem.len() as int) == seq!['-', 'i', 'o', 's'])) ==> spec_atlas_file_name(stem) == stem.subrange(0, stem.len() - 4) + seq![
            '.',
            'a',
            't',
            'l',
            'a',
            's',
        ],
        !(stem.len() >= 4 && (stem.subrange(stem.len() - 4, stem.len() as int) == seq!['-', 'p', 'r', 'o']
                || stem.subrange(stem.len() - 4, stem.len() as int) == seq!['-', 'e', 's', 's']
                || stem.subrange(stem.len() - 4, stem.len() as int) == seq!['-', 'i', 'o', 's'])) ==> spec_atlas_file_name(stem) == stem + seq!['.', 'a', 't', 'l', 'a', 's'],
        spec_atlas_file_name(stem).subrange(0, spec_atlas_file_name(stem).len() - 6) =~= if (stem.len() >= 4 && (stem.subrange(stem.len() - 4, stem.len() as int) == seq!['-', 'p', 'r', 'o']
                || stem.subrange(stem.len() - 4, stem.len() as int) == seq!['-', 'e', 's', 's']
                || stem.subrange(stem.len() - 4, stem.len() as int) == seq!['-', 'i', 'o', 's'])) {
            stem.subrange(0, stem.len() - 4)
        } else {
            stem
        },
{
    lemma_strip_only_rig_suffixes(stem);
    assert(atlas_extension() =~= seq!['.', 'a', 't', 'l', 'a', 's']);
}

/// Without an override, the atlas path is the stem's atlas file name
/// resolved against the skeleton path itself, source and label included.
pub proof fn lemma_derived_atlas_resolves_against_skeleton(
    skel: (Option<Seq<char>>, Seq<char>, Option<Seq<char>>),
    stem: Seq<char>,
    r: Result<AssetPathParts, AtlasDeriveError>,
)
    requires
        derive_atlas_path_ok(skel, None, r),
        path_file_stem(skel.1) == Some(stem),
    ensures
        match asset_path_resolve_embed(
            skel,
            (if (stem.len() >= 4 && (stem.subrange(stem.len() - 4, stem.len() as int) == seq!['-', 'p', 'r', 'o']
                || stem.subrange(stem.len() - 4, stem.len() as int) == seq!['-', 'e', 's', 's']
                || stem.subrange(stem.len() - 4, stem.len() as int) == seq!['-', 'i', 'o', 's'])) {
                stem.subrange(0, stem.len() - 4)
            } else {
                stem
            }) + seq!['.', 'a', 't', 'l', 'a', 's'],
        ) {
            Ok(v) => r matches Ok(x) && x@ == v,
            Err(e) => r matches Err(AtlasDeriveError::Parse(x)) && x == e,
        },
{
    lemma_atlas_file_name_keeps_stem(stem);
}

/// Every page image is the page name resolved against the atlas path itself
/// (its source and label included), or that atlas path when resolution
/// fails; the image path of a page depends on that page's name alone.
pub proof fn lemma_page_image_resolves_against_atlas(
    atlas: (Option<Seq<char>>, Seq<char>, Option<Seq<char>>),
    page: Seq<char>,
)
    ensures
        match asset_path_resolve_embed(atlas, page) {
            Ok(v) => spec_page_image_path(atlas, page) == v,
            Err(_) => spec_page_image_path(atlas, page) == atlas,
        },
{
}

} // verus!
