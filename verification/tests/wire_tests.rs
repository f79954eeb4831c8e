use avalanche_classifier::codec::{decode_result, encode_result, ParseError};
use avalanche_classifier::json::JsonValue;
use avalanche_classifier::jsontext::{parse_document, write_document};
use avalanche_classifier::orchestrator::{build_request_body, classify_response, RUBRIC};
use avalanche_classifier::schema::{
    Category, ClassificationResult, Density, DebrisPattern, MovementPattern, Propagation,
    SnowTexture, StartingWidth, SurfaceRoughness, TerrainShape, VisualCharacteristics,
};
use avalanche_classifier::scoring::{RequestOutcome, ValidationError};
use base64::Engine;

fn chars(s: &str) -> Vec<char> {
    s.chars().collect()
}

fn text_of(v: &[char]) -> String {
    v.iter().collect()
}

fn sample_result() -> ClassificationResult {
    ClassificationResult {
        present: true,
        category: Category::Slab,
        confidence_centi: 8550,
        observations: vec![chars("cornice above the bowl"), chars("crown line \"sharp\"")],
        characteristics: VisualCharacteristics {
            powder_cloud: false,
            fracture_line: true,
            fracture_depth: Some(chars("deep")),
            point_release: false,
            debris_pattern: DebrisPattern::Linear,
            snow_texture: SnowTexture {
                granular: false,
                blocky: true,
                fluffy: false,
                density: Density::High,
            },
            movement_pattern: MovementPattern {
                starting_width: StartingWidth::Wide,
                propagation: Propagation::Linear,
                vertical_movement: false,
                lateral_spread: true,
            },
            terrain: TerrainShape {
                slope_angle: Some(chars("steep (>45°)")),
                surface_roughness: SurfaceRoughness::Smooth,
                anchoring_points: false,
                convex_rollover: true,
            },
        },
    }
}

#[test]
fn round_trip_through_document_and_text() {
    let r = sample_result();
    let doc = encode_result(&r);
    let text = write_document(&doc);
    let doc2 = parse_document(&text).expect("written text must parse");
    let r2 = decode_result(&doc2).expect("written document must decode");
    assert_eq!(r2, r);
}

#[test]
fn round_trip_keeps_unrecognized_words() {
    let mut r = sample_result();
    r.present = false;
    r.category = Category::Unrecognized(chars("wet-slab"));
    r.characteristics.snow_texture.density = Density::Other(chars("slushy"));
    r.characteristics.debris_pattern = DebrisPattern::Other(chars("piled"));
    r.characteristics.movement_pattern.starting_width = StartingWidth::Other(chars("narrow"));
    r.characteristics.movement_pattern.propagation = Propagation::Other(chars("spiral"));
    r.characteristics.terrain.surface_roughness = SurfaceRoughness::Other(chars("crusty"));
    let text = write_document(&encode_result(&r));
    let r2 = decode_result(&parse_document(&text).unwrap()).unwrap();
    assert_eq!(r2, r);
}

#[test]
fn round_trip_of_a_minimal_no_hazard_result() {
    let mut r = sample_result();
    r.present = false;
    r.category = Category::NoHazard;
    r.confidence_centi = 0;
    r.observations = vec![];
    r.characteristics.fracture_depth = None;
    r.characteristics.terrain.slope_angle = None;
    let text = write_document(&encode_result(&r));
    let r2 = decode_result(&parse_document(&text).unwrap()).unwrap();
    assert_eq!(r2, r);
}

#[test]
fn parse_rejects_malformed_text() {
    assert_eq!(
        parse_document(&chars("this is not a document")),
        Err(ParseError::MalformedPayload)
    );
    assert_eq!(parse_document(&chars("{\"a\":1,}")), Err(ParseError::MalformedPayload));
    assert_eq!(parse_document(&chars("")), Err(ParseError::MalformedPayload));
}

#[test]
fn parse_reads_numbers_in_hundredths() {
    let doc = parse_document(&chars("{\"confidence_level\": 85.5}")).unwrap();
    match doc {
        JsonValue::Obj(members) => match &members[0].1 {
            JsonValue::Num(n) => assert_eq!(*n, 8550),
            other => panic!("expected a number, got {:?}", other),
        },
        other => panic!("expected an object, got {:?}", other),
    }
    let doc = parse_document(&chars("[-3, 600, 0.25]")).unwrap();
    match doc {
        JsonValue::Arr(elems) => {
            assert_eq!(elems[0], JsonValue::Num(-300));
            assert_eq!(elems[1], JsonValue::Num(60000));
            assert_eq!(elems[2], JsonValue::Num(25));
        },
        other => panic!("expected an array, got {:?}", other),
    }
}

#[test]
fn decode_names_the_missing_field() {
    let text = chars("{\"avalanche_present\": true}");
    let doc = parse_document(&text).unwrap();
    assert_eq!(
        decode_result(&doc),
        Err(ParseError::MissingField(chars("avalanche_type")))
    );
}

#[test]
fn decode_ignores_unknown_members() {
    let r = sample_result();
    let mut text = text_of(&write_document(&encode_result(&r)));
    assert!(text.ends_with('}'));
    text.pop();
    text.push_str(",\"brand_new_field\":[1,2,3]}");
    let doc = parse_document(&text.chars().collect()).unwrap();
    assert_eq!(decode_result(&doc).unwrap(), r);
}

#[test]
fn request_body_embeds_rubric_and_base64_image() {
    let image: Vec<u8> = vec![0xff, 0xee, 0x11, 0x05];
    let body = text_of(&build_request_body(&image));
    let expected64 = base64::engine::general_purpose::STANDARD.encode(&image);
    assert!(body.contains(&format!("data:image/jpeg;base64,{}", expected64)));
    assert!(body.contains("gpt-4o-mini"));
    assert!(body.contains("\"max_tokens\":600"));
    // the rubric is carried whole; its first line survives escaping
    assert!(body.contains("Analyze this mountain terrain for avalanche characteristics"));
    assert!(RUBRIC.contains("A single PRIMARY indicator is not enough"));
}

fn reply_around(content: Vec<char>) -> Vec<char> {
    let outer = JsonValue::Obj(vec![(
        chars("choices"),
        JsonValue::Arr(vec![JsonValue::Obj(vec![(
            chars("message"),
            JsonValue::Obj(vec![(chars("content"), JsonValue::Text(content))]),
        )])]),
    )]);
    write_document(&outer)
}

#[test]
fn classify_response_accepts_a_consistent_reply() {
    let r = sample_result();
    let inner = write_document(&encode_result(&r));
    let body = reply_around(inner);
    match classify_response(true, &body) {
        RequestOutcome::Accepted(a) => assert_eq!(a, r),
        RequestOutcome::Rejected(e) => panic!("rejected: {:?}", e),
    }
}

#[test]
fn classify_response_maps_transport_failures() {
    assert_eq!(
        classify_response(false, &chars("{}")),
        RequestOutcome::Rejected(ValidationError::Transport)
    );
    assert_eq!(
        classify_response(true, &chars("")),
        RequestOutcome::Rejected(ValidationError::Transport)
    );
}

#[test]
fn classify_response_rejects_bodies_outside_the_grammar() {
    assert_eq!(
        classify_response(true, &chars("garbage")),
        RequestOutcome::Rejected(ValidationError::MalformedPayload)
    );
}

#[test]
fn classify_response_names_missing_reply_parts() {
    let body = write_document(&JsonValue::Obj(vec![(
        chars("usage"),
        JsonValue::Num(100),
    )]));
    assert_eq!(
        classify_response(true, &body),
        RequestOutcome::Rejected(ValidationError::MissingField(chars("choices")))
    );
}

#[test]
fn classify_response_rejects_inconsistent_content() {
    let mut r = sample_result();
    r.category = Category::Powder;
    let inner = write_document(&encode_result(&r));
    let body = reply_around(inner);
    match classify_response(true, &body) {
        RequestOutcome::Rejected(ValidationError::InconsistentClassification {
            expected, ..
        }) => assert_eq!(expected, Category::Slab),
        other => panic!("expected inconsistency, got {:?}", other),
    }
}

#[test]
fn classify_response_rejects_unparsable_content() {
    let body = reply_around(chars("not a json object"));
    assert_eq!(
        classify_response(true, &body),
        RequestOutcome::Rejected(ValidationError::MalformedPayload)
    );
}
