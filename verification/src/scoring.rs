//! The consistency scoring engine.
//!
//! The hazard category that the external model declares is advisory: it
//! must be corroborated by the structured sub-observations the model
//! reported alongside it.  The engine scores the three candidate
//! categories from those sub-observations with a fixed weighted rule
//! table, and accepts the declared category only when one candidate
//! stands out clearly enough and agrees with it.

use vstd::prelude::*;
use crate::schema::{
    Category, ClassificationResult, Density, DebrisPattern, Propagation, StartingWidth,
    VisualCharacteristics, category_word, spec_canonical_category, confidence_in_range,
};
use crate::text::{spec_starts_with_steep, starts_with_steep, chars_eq_str};

verus! {

/// Why a decoded classification was rejected.  Every failure of one
/// invocation is terminal; nothing is retried inside the library.
#[derive(Clone, Debug, PartialEq, Eq)]
pub enum ValidationError {
    /// Network failure, non-success status, or an empty reply body.
    Transport,
    /// The reply could not be decoded as a structured object.
    MalformedPayload,
    /// A required field of the wire schema is absent; carries its name.
    MissingField(Vec<char>),
    /// The declared category is no canonical spelling.
    InvalidCategory,
    /// The confidence lies outside `[0, 100]` percent.
    ConfidenceOutOfRange,
    /// The two best category scores are too close to separate.
    AmbiguousEvidence,
    /// The best category score is below the acceptance threshold.
    InsufficientEvidence,
    /// The declared category disagrees with the evidence; carries the
    /// category the evidence points to, the declared one, and the score.
    InconsistentClassification { expected: Category, reported: Category, score: u32 },
}

/// The terminal outcome of one invocation: the decoded classification,
/// accepted, or the reason it was rejected.
#[derive(Clone, Debug, PartialEq, Eq)]
pub enum RequestOutcome {
    Accepted(ClassificationResult),
    Rejected(ValidationError),
}

/// One integer score per candidate category, computed fresh from the
/// sub-observations of one result and never persisted.
#[derive(Clone, Copy, Debug, PartialEq, Eq)]
pub struct ScoreVector {
    pub powder: u32,
    pub loose_snow: u32,
    pub slab: u32,
}

/// Weight of a primary indicator.
pub const PRIMARY_WEIGHT: u32 = 3;

/// Weight of a secondary indicator.
pub const SECONDARY_WEIGHT: u32 = 1;

/// Least margin between the best and second-best score.
pub const EVIDENCE_MARGIN: u32 = 3;

/// Least best score that counts as enough evidence.
pub const EVIDENCE_FLOOR: u32 = 6;

/// The slope angle is reported and begins with `steep`.
pub open spec fn spec_steep_slope(c: VisualCharacteristics) -> bool {
    match c.terrain.slope_angle {
        Option::Some(a) => spec_starts_with_steep(a@),
        Option::None => false,
    }
}

/// Powder score: powder cloud, fluffy texture and vertical movement are
/// primary; low density, chaotic propagation and a steep slope secondary.
pub open spec fn spec_powder_score(c: VisualCharacteristics) -> int {
    (if c.powder_cloud { 3int } else { 0int })
        + (if c.snow_texture.fluffy { 3int } else { 0int })
        + (if c.movement_pattern.vertical_movement { 3int } else { 0int })
        + (if c.snow_texture.density is Low { 1int } else { 0int })
        + (if c.movement_pattern.propagation is Chaotic { 1int } else { 0int })
        + (if spec_steep_slope(c) { 1int } else { 0int })
}

/// Loose-snow score: point release width, fan propagation, granular
/// texture and fan-shaped debris are primary; no fracture line, low
/// density and a steep slope secondary.
pub open spec fn spec_loose_snow_score(c: VisualCharacteristics) -> int {
    (if c.movement_pattern.starting_width is Point { 3int } else { 0int })
        + (if c.movement_pattern.propagation is Fan { 3int } else { 0int })
        + (if c.snow_texture.granular { 3int } else { 0int })
        + (if c.debris_pattern is FanShaped { 3int } else { 0int })
        + (if !c.fracture_line { 1int } else { 0int })
        + (if c.snow_texture.density is Low { 1int } else { 0int })
        + (if spec_steep_slope(c) { 1int } else { 0int })
}

/// Slab score: a fracture line, blocky texture, wide release and linear
/// propagation are primary; high density, linear debris and lateral
/// spread secondary.
pub open spec fn spec_slab_score(c: VisualCharacteristics) -> int {
    (if c.fracture_line { 3int } else { 0int })
        + (if c.snow_texture.blocky { 3int } else { 0int })
        + (if c.movement_pattern.starting_width is Wide { 3int } else { 0int })
        + (if c.movement_pattern.propagation is Linear { 3int } else { 0int })
        + (if c.snow_texture.density is High { 1int } else { 0int })
        + (if c.debris_pattern is Linear { 1int } else { 0int })
        + (if c.movement_pattern.lateral_spread { 1int } else { 0int })
}

/// The full score vector of one set of sub-observations.
pub open spec fn spec_scores(c: VisualCharacteristics) -> ScoreVector {
    ScoreVector {
        powder: spec_powder_score(c) as u32,
        loose_snow: spec_loose_snow_score(c) as u32,
        slab: spec_slab_score(c) as u32,
    }
}

/// The category owning the best score; the earlier of `Powder`,
/// `LooseSnow`, `Slab` wins a tie, which validation never lets matter
/// because a tied best score is rejected as ambiguous.
pub open spec fn spec_expected_category(c: VisualCharacteristics) -> Category {
    if spec_powder_score(c) >= spec_loose_snow_score(c) && spec_powder_score(c)
        >= spec_slab_score(c) {
        Category::Powder
    } else if spec_loose_snow_score(c) >= spec_slab_score(c) {
        Category::LooseSnow
    } else {
        Category::Slab
    }
}

/// The best of the three scores.
pub open spec fn spec_highest_score(c: VisualCharacteristics) -> int {
    if spec_powder_score(c) >= spec_loose_snow_score(c) && spec_powder_score(c)
        >= spec_slab_score(c) {
        spec_powder_score(c)
    } else if spec_loose_snow_score(c) >= spec_slab_score(c) {
        spec_loose_snow_score(c)
    } else {
        spec_slab_score(c)
    }
}

/// The greater of the two scores that the best category does not own.
pub open spec fn spec_second_score(c: VisualCharacteristics) -> int {
    match spec_expected_category(c) {
        Category::Powder => if spec_loose_snow_score(c) >= spec_slab_score(c) {
            spec_loose_snow_score(c)
        } else {
            spec_slab_score(c)
        },
        Category::LooseSnow => if spec_powder_score(c) >= spec_slab_score(c) {
            spec_powder_score(c)
        } else {
            spec_slab_score(c)
        },
        _ => if spec_powder_score(c) >= spec_loose_snow_score(c) {
            spec_powder_score(c)
        } else {
            spec_loose_snow_score(c)
        },
    }
}

/// The value-domain checks that stand apart from scoring: the declared
/// category must be a canonical spelling and the confidence must lie in
/// its domain.
pub open spec fn spec_domain_verdict(r: ClassificationResult) -> RequestOutcome {
    if !spec_canonical_category(category_word(r.category)) {
        RequestOutcome::Rejected(ValidationError::InvalidCategory)
    } else if !confidence_in_range(r.confidence_centi) {
        RequestOutcome::Rejected(ValidationError::ConfidenceOutOfRange)
    } else {
        RequestOutcome::Accepted(r)
    }
}

/// The verdict of the engine on one decoded classification.
///
/// A `present == false` result skips scoring: a no-hazard verdict has no
/// category ambiguity to resolve, so its sub-observations are never
/// consulted.  Otherwise the declared category must be corroborated: a
/// margin under `EVIDENCE_MARGIN` between the two best scores is
/// ambiguous, a best score under `EVIDENCE_FLOOR` is insufficient, and a
/// declared category that is not the best-scoring one is inconsistent.
/// The value-domain checks on category spelling and confidence close
/// both paths.
pub open spec fn spec_validate(r: ClassificationResult) -> RequestOutcome {
    if !r.present {
        spec_domain_verdict(r)
    } else if spec_highest_score(r.characteristics) - spec_second_score(r.characteristics)
        < EVIDENCE_MARGIN {
        RequestOutcome::Rejected(ValidationError::AmbiguousEvidence)
    } else if spec_highest_score(r.characteristics) < EVIDENCE_FLOOR {
        RequestOutcome::Rejected(ValidationError::InsufficientEvidence)
    } else if category_word(r.category) != category_word(
        spec_expected_category(r.characteristics),
    ) {
        RequestOutcome::Rejected(
            ValidationError::InconsistentClassification {
                expected: spec_expected_category(r.characteristics),
                reported: r.category,
                score: spec_highest_score(r.characteristics) as u32,
            },
        )
    } else {
        spec_domain_verdict(r)
    }
}

/// Whether the reported slope angle begins with `steep`.
fn steep_slope(c: &VisualCharacteristics) -> (r: bool)
    ensures
        r == spec_steep_slope(*c),
{
    match &c.terrain.slope_angle {
        Option::Some(a) => starts_with_steep(a),
        Option::None => false,
    }
}

/// Scores the powder rules of one set of sub-observations.
fn powder_score(c: &VisualCharacteristics) -> (n: u32)
    ensures
        n == spec_powder_score(*c),
        n <= 12,
{
    let steep: bool = steep_slope(c);
    let mut n: u32 = 0;
    if c.powder_cloud {
        n = n + PRIMARY_WEIGHT;
    }
    if c.snow_texture.fluffy {
        n = n + PRIMARY_WEIGHT;
    }
    if c.movement_pattern.vertical_movement {
        n = n + PRIMARY_WEIGHT;
    }
    if matches!(c.snow_texture.density, Density::Low) {
        n = n + SECONDARY_WEIGHT;
    }
    if matches!(c.movement_pattern.propagation, Propagation::Chaotic) {
        n = n + SECONDARY_WEIGHT;
    }
    if steep {
        n = n + SECONDARY_WEIGHT;
    }
    n
}

/// Scores the loose-snow rules of one set of sub-observations.
fn loose_snow_score(c: &VisualCharacteristics) -> (n: u32)
    ensures
        n == spec_loose_snow_score(*c),
        n <= 15,
{
    let steep: bool = steep_slope(c);
    let mut n: u32 = 0;
    if matches!(c.movement_pattern.starting_width, StartingWidth::Point) {
        n = n + PRIMARY_WEIGHT;
    }
    if matches!(c.movement_pattern.propagation, Propagation::Fan) {
        n = n + PRIMARY_WEIGHT;
    }
    if c.snow_texture.granular {
        n = n + PRIMARY_WEIGHT;
    }
    if matches!(c.debris_pattern, DebrisPattern::FanShaped) {
        n = n + PRIMARY_WEIGHT;
    }
    if !c.fracture_line {
        n = n + SECONDARY_WEIGHT;
    }
    if matches!(c.snow_texture.density, Density::Low) {
        n = n + SECONDARY_WEIGHT;
    }
    if steep {
        n = n + SECONDARY_WEIGHT;
    }
    n
}

/// Scores the slab rules of one set of sub-observations.
fn slab_score(c: &VisualCharacteristics) -> (n: u32)
    ensures
        n == spec_slab_score(*c),
        n <= 15,
{
    let mut n: u32 = 0;
    if c.fracture_line {
        n = n + PRIMARY_WEIGHT;
    }
    if c.snow_texture.blocky {
        n = n + PRIMARY_WEIGHT;
    }
    if matches!(c.movement_pattern.starting_width, StartingWidth::Wide) {
        n = n + PRIMARY_WEIGHT;
    }
    if matches!(c.movement_pattern.propagation, Propagation::Linear) {
        n = n + PRIMARY_WEIGHT;
    }
    if matches!(c.snow_texture.density, Density::High) {
        n = n + SECONDARY_WEIGHT;
    }
    if matches!(c.debris_pattern, DebrisPattern::Linear) {
        n = n + SECONDARY_WEIGHT;
    }
    if c.movement_pattern.lateral_spread {
        n = n + SECONDARY_WEIGHT;
    }
    n
}

/// Computes the three category scores of one set of sub-observations.
pub fn compute_scores(c: &VisualCharacteristics) -> (s: ScoreVector)
    ensures
        s == spec_scores(*c),
        s.powder <= 12,
        s.loose_snow <= 15,
        s.slab <= 15,
{
    ScoreVector { powder: powder_score(c), loose_snow: loose_snow_score(c), slab: slab_score(c) }
}

/// Checks that the wire words of two categories agree, which is how the
/// declared category is held against the expected one.
fn category_matches(reported: &Category, expected: &Category) -> (r: bool)
    ensures
        r == (category_word(*reported) == category_word(*expected)),
{
    match (reported, expected) {
        (Category::Powder, Category::Powder) => true,
        (Category::LooseSnow, Category::LooseSnow) => true,
        (Category::Slab, Category::Slab) => true,
        (Category::NoHazard, Category::NoHazard) => true,
        (Category::Unrecognized(s), Category::Powder) => chars_eq_str(s, "powder"),
        (Category::Unrecognized(s), Category::LooseSnow) => chars_eq_str(s, "loose-snow"),
        (Category::Unrecognized(s), Category::Slab) => chars_eq_str(s, "slab"),
        (Category::Unrecognized(s), Category::NoHazard) => chars_eq_str(s, "none"),
        (Category::Powder, Category::Unrecognized(s)) => chars_eq_str(s, "powder"),
        (Category::LooseSnow, Category::Unrecognized(s)) => chars_eq_str(s, "loose-snow"),
        (Category::Slab, Category::Unrecognized(s)) => chars_eq_str(s, "slab"),
        (Category::NoHazard, Category::Unrecognized(s)) => chars_eq_str(s, "none"),
        (Category::Unrecognized(a), Category::Unrecognized(b)) => crate::text::chars_eq(a, b),
        _ => {
            proof {
                reveal_strlit("powder");
                reveal_strlit("loose-snow");
                reveal_strlit("slab");
                reveal_strlit("none");
                assert("powder"@.len() == 6 && "loose-snow"@.len() == 10 && "slab"@.len()
                    == 4 && "none"@.len() == 4);
                assert("slab"@[0] == 's' && "none"@[0] == 'n');
                assert("powder"@ != "loose-snow"@ && "powder"@ != "slab"@ && "powder"@
                    != "none"@ && "loose-snow"@ != "slab"@ && "loose-snow"@ != "none"@
                    && "slab"@ != "none"@);
                assert(category_word(*reported) != category_word(*expected));
            }
            false
        },
    }
}

/// The value-domain checks on one result.
fn domain_verdict(r: ClassificationResult) -> (o: RequestOutcome)
    ensures
        o == spec_domain_verdict(r),
{
    let canonical: bool = match &r.category {
        Category::Unrecognized(s) => crate::schema::canonical_category(s),
        _ => true,
    };
    if !canonical {
        proof {
            lemma_closed_words_canonical();
        }
        RequestOutcome::Rejected(ValidationError::InvalidCategory)
    } else if r.confidence_centi < 0 || r.confidence_centi > crate::schema::CONFIDENCE_CENTI_MAX {
        proof {
            lemma_closed_words_canonical();
        }
        RequestOutcome::Rejected(ValidationError::ConfidenceOutOfRange)
    } else {
        proof {
            lemma_closed_words_canonical();
        }
        RequestOutcome::Accepted(r)
    }
}

/// The four closed category variants carry canonical spellings.
proof fn lemma_closed_words_canonical()
    ensures
        spec_canonical_category(category_word(Category::Powder)),
        spec_canonical_category(category_word(Category::LooseSnow)),
        spec_canonical_category(category_word(Category::Slab)),
        spec_canonical_category(category_word(Category::NoHazard)),
{
}

/// Validates one decoded classification: either promotes it to
/// `Accepted` or rejects it with the reason, exactly as `spec_validate`
/// lays down.
pub fn validate(r: ClassificationResult) -> (o: RequestOutcome)
    ensures
        o == spec_validate(r),
{
    if !r.present {
        return domain_verdict(r);
    }
    let s: ScoreVector = compute_scores(&r.characteristics);
    let expected: Category =
        if s.powder >= s.loose_snow && s.powder >= s.slab {
            Category::Powder
        } else if s.loose_snow >= s.slab {
            Category::LooseSnow
        } else {
            Category::Slab
        };
    let highest: u32 =
        if s.powder >= s.loose_snow && s.powder >= s.slab {
            s.powder
        } else if s.loose_snow >= s.slab {
            s.loose_snow
        } else {
            s.slab
        };
    let second: u32 = match &expected {
        Category::Powder => if s.loose_snow >= s.slab {
            s.loose_snow
        } else {
            s.slab
        },
        Category::LooseSnow => if s.powder >= s.slab {
            s.powder
        } else {
            s.slab
        },
        _ => if s.powder >= s.loose_snow {
            s.powder
        } else {
            s.loose_snow
        },
    };
    if highest - second < EVIDENCE_MARGIN {
        return RequestOutcome::Rejected(ValidationError::AmbiguousEvidence);
    }
    if highest < EVIDENCE_FLOOR {
        return RequestOutcome::Rejected(ValidationError::InsufficientEvidence);
    }
    if !category_matches(&r.category, &expected) {
        return RequestOutcome::Rejected(
            ValidationError::InconsistentClassification {
                expected,
                reported: r.category,
                score: highest,
            },
        );
    }
    domain_verdict(r)
}

/// Determinism of the engine: the verdict is a function of the decoded
/// classification alone, so two evaluations of the same value return the
/// same outcome.
pub proof fn lemma_engine_deterministic(
    r: ClassificationResult,
    o1: RequestOutcome,
    o2: RequestOutcome,
)
    requires
        o1 == spec_validate(r),
        o2 == spec_validate(r),
    ensures
        o1 == o2,
{
}

/// The same result with its sub-observations replaced.
pub open spec fn with_characteristics(
    r: ClassificationResult,
    c: VisualCharacteristics,
) -> ClassificationResult {
    ClassificationResult { characteristics: c, ..r }
}

/// A no-hazard verdict short-circuits scoring: with `present == false`
/// the sub-observations never influence the verdict, however
/// inconsistent they are.  A result whose category spelling and
/// confidence lie in their domains is accepted as it stands, whatever
/// its characteristics hold; otherwise the same domain error comes back
/// whatever its characteristics hold.
pub proof fn lemma_no_hazard_short_circuit(r: ClassificationResult, c: VisualCharacteristics)
    requires
        !r.present,
    ensures
        spec_canonical_category(category_word(r.category)) && confidence_in_range(
            r.confidence_centi,
        ) ==> spec_validate(r) == RequestOutcome::Accepted(r) && spec_validate(
            with_characteristics(r, c),
        ) == RequestOutcome::Accepted(with_characteristics(r, c)),
        !spec_canonical_category(category_word(r.category)) ==> spec_validate(r)
            == RequestOutcome::Rejected(ValidationError::InvalidCategory) && spec_validate(
            with_characteristics(r, c),
        ) == RequestOutcome::Rejected(ValidationError::InvalidCategory),
        spec_canonical_category(category_word(r.category)) && !confidence_in_range(
            r.confidence_centi,
        ) ==> spec_validate(r) == RequestOutcome::Rejected(
            ValidationError::ConfidenceOutOfRange,
        ) && spec_validate(with_characteristics(r, c)) == RequestOutcome::Rejected(
            ValidationError::ConfidenceOutOfRange,
        ),
{
}

/// The acceptance thresholds are inclusive: a best score of exactly
/// `EVIDENCE_FLOOR` with a margin of exactly `EVIDENCE_MARGIN` passes
/// scoring, a smaller margin is ambiguous, and a smaller best score with
/// enough margin is insufficient.
pub proof fn lemma_thresholds_inclusive(r: ClassificationResult)
    requires
        r.present,
    ensures
        spec_highest_score(r.characteristics) == EVIDENCE_FLOOR && spec_second_score(
            r.characteristics,
        ) == EVIDENCE_FLOOR - EVIDENCE_MARGIN && category_word(r.category) == category_word(
            spec_expected_category(r.characteristics),
        ) ==> spec_validate(r) == spec_domain_verdict(r),
        spec_highest_score(r.characteristics) - spec_second_score(r.characteristics)
            < EVIDENCE_MARGIN ==> spec_validate(r) == RequestOutcome::Rejected(
            ValidationError::AmbiguousEvidence,
        ),
        spec_highest_score(r.characteristics) - spec_second_score(r.characteristics)
            >= EVIDENCE_MARGIN && spec_highest_score(r.characteristics) < EVIDENCE_FLOOR
            ==> spec_validate(r) == RequestOutcome::Rejected(
            ValidationError::InsufficientEvidence,
        ),
{
}

} // verus!
