use avalanche_classifier::schema::{
    Category, ClassificationResult, Density, DebrisPattern, MovementPattern, Propagation,
    SnowTexture, StartingWidth, SurfaceRoughness, TerrainShape, VisualCharacteristics,
};
use avalanche_classifier::scoring::{
    compute_scores, validate, RequestOutcome, ValidationError,
};

fn chars(s: &str) -> Vec<char> {
    s.chars().collect()
}

fn quiet_characteristics() -> VisualCharacteristics {
    VisualCharacteristics {
        powder_cloud: false,
        fracture_line: true,
        fracture_depth: None,
        point_release: false,
        debris_pattern: DebrisPattern::Scattered,
        snow_texture: SnowTexture {
            granular: false,
            blocky: false,
            fluffy: false,
            density: Density::Medium,
        },
        movement_pattern: MovementPattern {
            starting_width: StartingWidth::Undefined,
            propagation: Propagation::Absent,
            vertical_movement: false,
            lateral_spread: false,
        },
        terrain: TerrainShape {
            slope_angle: None,
            surface_roughness: SurfaceRoughness::Smooth,
            anchoring_points: false,
            convex_rollover: false,
        },
    }
}

fn slab_signature() -> VisualCharacteristics {
    let mut c = quiet_characteristics();
    c.fracture_line = true;
    c.snow_texture.blocky = true;
    c.movement_pattern.starting_width = StartingWidth::Wide;
    c.movement_pattern.propagation = Propagation::Linear;
    c.snow_texture.density = Density::High;
    c
}

fn result_with(
    present: bool,
    category: Category,
    confidence_centi: i64,
    characteristics: VisualCharacteristics,
) -> ClassificationResult {
    ClassificationResult {
        present,
        category,
        confidence_centi,
        observations: vec![],
        characteristics,
    }
}

#[test]
fn scores_of_slab_signature() {
    let s = compute_scores(&slab_signature());
    assert_eq!(s.slab, 13);
    assert_eq!(s.powder, 0);
    // the fracture line removes the loose-snow secondary point
    assert_eq!(s.loose_snow, 0);
}

#[test]
fn scoring_is_deterministic() {
    let c = slab_signature();
    let s1 = compute_scores(&c);
    let s2 = compute_scores(&c);
    assert_eq!(s1, s2);
    let r = result_with(true, Category::Slab, 8500, slab_signature());
    let o1 = validate(r.clone());
    let o2 = validate(r);
    assert_eq!(o1, o2);
}

#[test]
fn scenario_slab_signature_accepted() {
    let r = result_with(true, Category::Slab, 8500, slab_signature());
    match validate(r.clone()) {
        RequestOutcome::Accepted(a) => assert_eq!(a, r),
        RequestOutcome::Rejected(e) => panic!("rejected: {:?}", e),
    }
}

#[test]
fn scenario_mismatch_rejected_as_inconsistent() {
    let r = result_with(true, Category::Powder, 8500, slab_signature());
    match validate(r) {
        RequestOutcome::Rejected(ValidationError::InconsistentClassification {
            expected,
            reported,
            score,
        }) => {
            assert_eq!(expected, Category::Slab);
            assert_eq!(reported, Category::Powder);
            assert_eq!(score, 13);
        },
        other => panic!("expected inconsistency, got {:?}", other),
    }
}

#[test]
fn scenario_confidence_out_of_range() {
    // 137.0 percent, held in hundredths
    let r = result_with(true, Category::Slab, 13700, slab_signature());
    assert_eq!(
        validate(r),
        RequestOutcome::Rejected(ValidationError::ConfidenceOutOfRange)
    );
}

#[test]
fn boundary_score_six_margin_three_accepted() {
    // slab 3+3 = 6, loose-snow 3 from granular texture, margin exactly 3
    let mut c = quiet_characteristics();
    c.fracture_line = true;
    c.snow_texture.blocky = true;
    c.snow_texture.granular = true;
    let s = compute_scores(&c);
    assert_eq!((s.slab, s.loose_snow, s.powder), (6, 3, 0));
    let r = result_with(true, Category::Slab, 5000, c);
    match validate(r.clone()) {
        RequestOutcome::Accepted(a) => assert_eq!(a, r),
        RequestOutcome::Rejected(e) => panic!("rejected: {:?}", e),
    }
}

#[test]
fn boundary_score_five_rejected_insufficient() {
    // slab 3+1+1 = 5, everything else 0: enough margin, too little evidence
    let mut c = quiet_characteristics();
    c.fracture_line = true;
    c.snow_texture.density = Density::High;
    c.movement_pattern.lateral_spread = true;
    let s = compute_scores(&c);
    assert_eq!((s.slab, s.loose_snow, s.powder), (5, 0, 0));
    let r = result_with(true, Category::Slab, 5000, c);
    assert_eq!(
        validate(r),
        RequestOutcome::Rejected(ValidationError::InsufficientEvidence)
    );
}

#[test]
fn boundary_margin_two_rejected_ambiguous() {
    // slab 6, loose-snow 4 (granular + steep slope), margin only 2
    let mut c = quiet_characteristics();
    c.fracture_line = true;
    c.snow_texture.blocky = true;
    c.snow_texture.granular = true;
    c.terrain.slope_angle = Some(chars("steep (>45°)"));
    let s = compute_scores(&c);
    assert_eq!((s.slab, s.loose_snow, s.powder), (6, 4, 1));
    let r = result_with(true, Category::Slab, 5000, c);
    assert_eq!(
        validate(r),
        RequestOutcome::Rejected(ValidationError::AmbiguousEvidence)
    );
}

#[test]
fn no_hazard_accepted_despite_inconsistent_characteristics() {
    // present == false short-circuits scoring entirely
    let mut c = slab_signature();
    c.powder_cloud = true;
    c.snow_texture.fluffy = true;
    c.snow_texture.granular = true;
    let r = result_with(false, Category::NoHazard, 9000, c);
    match validate(r.clone()) {
        RequestOutcome::Accepted(a) => assert_eq!(a, r),
        RequestOutcome::Rejected(e) => panic!("rejected: {:?}", e),
    }
}

#[test]
fn no_hazard_with_unrecognized_category_rejected() {
    let r = result_with(
        false,
        Category::Unrecognized(chars("wet-slab")),
        5000,
        quiet_characteristics(),
    );
    assert_eq!(
        validate(r),
        RequestOutcome::Rejected(ValidationError::InvalidCategory)
    );
}

#[test]
fn no_hazard_with_bad_confidence_rejected() {
    let r = result_with(false, Category::NoHazard, -1, quiet_characteristics());
    assert_eq!(
        validate(r),
        RequestOutcome::Rejected(ValidationError::ConfidenceOutOfRange)
    );
}

#[test]
fn powder_signature_accepted() {
    let mut c = quiet_characteristics();
    c.fracture_line = false;
    c.powder_cloud = true;
    c.snow_texture.fluffy = true;
    c.movement_pattern.vertical_movement = true;
    c.movement_pattern.propagation = Propagation::Chaotic;
    c.snow_texture.density = Density::Low;
    let s = compute_scores(&c);
    assert_eq!(s.powder, 11);
    // loose-snow takes points from the absent fracture line and low density
    assert_eq!(s.loose_snow, 2);
    let r = result_with(true, Category::Powder, 7700, c);
    match validate(r.clone()) {
        RequestOutcome::Accepted(a) => assert_eq!(a, r),
        RequestOutcome::Rejected(e) => panic!("rejected: {:?}", e),
    }
}
