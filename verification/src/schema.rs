//! The schema model: the typed form of the structured classification
//! payload that the external vision service returns.
//!
//! Closed string enumerations of the wire schema are held as tagged
//! variants with an explicit fallback that preserves the unrecognized
//! text, so that forward-compatible input survives a round trip while
//! the scoring rules treat it as matching nothing.

use vstd::prelude::*;

verus! {

/// The declared hazard category.  `NoHazard` is the wire word `none`;
/// any text outside the closed vocabulary is preserved in `Unrecognized`.
#[derive(Clone, Debug, PartialEq, Eq)]
pub enum Category {
    Powder,
    LooseSnow,
    Slab,
    NoHazard,
    Unrecognized(Vec<char>),
}

/// Snow density: wire words `low`, `medium`, `high`.
#[derive(Clone, Debug, PartialEq, Eq)]
pub enum Density {
    Low,
    Medium,
    High,
    Other(Vec<char>),
}

/// Initial release width: wire words `point`, `wide`, `undefined`.
#[derive(Clone, Debug, PartialEq, Eq)]
pub enum StartingWidth {
    Point,
    Wide,
    Undefined,
    Other(Vec<char>),
}

/// How the release spreads: wire words `fan`, `linear`, `chaotic`, `none`.
#[derive(Clone, Debug, PartialEq, Eq)]
pub enum Propagation {
    Fan,
    Linear,
    Chaotic,
    Absent,
    Other(Vec<char>),
}

/// Shape of the debris field: wire words `fan-shaped`, `linear`,
/// `scattered`, `none`.
#[derive(Clone, Debug, PartialEq, Eq)]
pub enum DebrisPattern {
    FanShaped,
    Linear,
    Scattered,
    Absent,
    Other(Vec<char>),
}

/// Surface roughness: wire words `smooth`, `rough`, `variable`.
#[derive(Clone, Debug, PartialEq, Eq)]
pub enum SurfaceRoughness {
    Smooth,
    Rough,
    Variable,
    Other(Vec<char>),
}

/// Observed snow texture.
#[derive(Clone, Debug, PartialEq, Eq)]
pub struct SnowTexture {
    pub granular: bool,
    pub blocky: bool,
    pub fluffy: bool,
    pub density: Density,
}

/// Observed movement of the release.
#[derive(Clone, Debug, PartialEq, Eq)]
pub struct MovementPattern {
    pub starting_width: StartingWidth,
    pub propagation: Propagation,
    pub vertical_movement: bool,
    pub lateral_spread: bool,
}

/// Observed terrain around the release.
#[derive(Clone, Debug, PartialEq, Eq)]
pub struct TerrainShape {
    pub slope_angle: Option<Vec<char>>,
    pub surface_roughness: SurfaceRoughness,
    pub anchoring_points: bool,
    pub convex_rollover: bool,
}

/// The structured sub-observations that feed the scoring engine.
#[derive(Clone, Debug, PartialEq, Eq)]
pub struct VisualCharacteristics {
    pub powder_cloud: bool,
    pub fracture_line: bool,
    pub fracture_depth: Option<Vec<char>>,
    pub point_release: bool,
    pub debris_pattern: DebrisPattern,
    pub snow_texture: SnowTexture,
    pub movement_pattern: MovementPattern,
    pub terrain: TerrainShape,
}

/// The root entity: one decoded classification, immutable once built.
///
/// Confidence is held in hundredths of a percent, so the domain
/// invariant `0 <= confidence <= 100` reads `0 <= confidence_centi <= 10000`;
/// a value outside that range is kept as it came and rejected by
/// validation, never clamped.
#[derive(Clone, Debug, PartialEq, Eq)]
pub struct ClassificationResult {
    pub present: bool,
    pub category: Category,
    pub confidence_centi: i64,
    pub observations: Vec<Vec<char>>,
    pub characteristics: VisualCharacteristics,
}

/// Upper bound of the confidence domain, in hundredths of a percent.
pub const CONFIDENCE_CENTI_MAX: i64 = 10000;

/// The wire word that a category carries: the canonical spelling for the
/// four closed variants, the preserved text for an unrecognized one.
pub open spec fn category_word(c: Category) -> Seq<char> {
    match c {
        Category::Powder => "powder"@,
        Category::LooseSnow => "loose-snow"@,
        Category::Slab => "slab"@,
        Category::NoHazard => "none"@,
        Category::Unrecognized(s) => s@,
    }
}

/// A text is one of the four canonical category spellings.
pub open spec fn spec_canonical_category(s: Seq<char>) -> bool {
    s == "powder"@ || s == "loose-snow"@ || s == "slab"@ || s == "none"@
}

/// The confidence value lies inside the allowed domain.
pub open spec fn confidence_in_range(c: i64) -> bool {
    0 <= c <= CONFIDENCE_CENTI_MAX
}

/// Checks that a text is one of the four canonical category spellings.
pub fn canonical_category(s: &Vec<char>) -> (r: bool)
    ensures
        r == spec_canonical_category(s@),
{
    crate::text::chars_eq_str(s, "powder") || crate::text::chars_eq_str(s, "loose-snow")
        || crate::text::chars_eq_str(s, "slab") || crate::text::chars_eq_str(s, "none")
}

} // verus!
