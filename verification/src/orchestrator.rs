//! The request orchestrator: one outbound request, one terminal outcome.
//!
//! The library builds the complete request body — the fixed
//! classification rubric and the base64-embedded image — and turns the
//! raw reply text into exactly one `RequestOutcome`: transport failures,
//! malformed or incomplete payloads and inconsistent classifications
//! each map to their own rejection, and everything else to the accepted
//! classification.  The network exchange itself is the caller's: it
//! hands the reply text in and performs no retry.

use vstd::prelude::*;
use crate::json::{JsonV, JsonValue, jv, lookup, get_member, lemma_entries_v, entries_v, jv_seq,
    lemma_jv_seq};
use crate::codec::{DecodeErr, ParseError, decode_result, spec_decode_err, decodes_to, perr_v};
use crate::jsontext::{json_text_of, parse_document, spec_parse_document, write_document};
use crate::scoring::{RequestOutcome, ValidationError, spec_validate, validate};
use crate::text::str_chars;
use base64::Engine;

verus! {

/// The fixed instruction rubric sent with every image: it defines the
/// JSON shape the service must answer with, the three hazard categories
/// and their primary and secondary indicators.
pub const RUBRIC: &'static str = r#"Analyze this mountain terrain for avalanche characteristics with extreme detail. Return a JSON object with this structure:
{
    "avalanche_present": boolean,
    "avalanche_type": "powder"|"loose-snow"|"slab"|"none",
    "confidence_level": 0.0-100.0,
    "terrain_features": string[],
    "visual_characteristics": {
        "powder_cloud": boolean,
        "fracture_line": boolean,
        "fracture_depth": "shallow"|"deep"|"variable"|null,
        "point_release": boolean,
        "debris_pattern": "fan-shaped"|"linear"|"scattered"|"none",
        "snow_texture": {
            "granular": boolean,
            "blocky": boolean,
            "fluffy": boolean,
            "density": "low"|"medium"|"high"
        },
        "movement_pattern": {
            "starting_width": "point"|"wide"|"undefined",
            "propagation": "fan"|"linear"|"chaotic"|"none",
            "vertical_movement": boolean,
            "lateral_spread": boolean
        },
        "terrain": {
            "slope_angle": "steep (>45°)"|"moderate (30-45°)"|"gentle (<30°)"|null,
            "surface_roughness": "smooth"|"rough"|"variable",
            "anchoring_points": boolean,
            "convex_rollover": boolean
        }
    }
}

DETAILED ANALYSIS GUIDELINES:

1. Snow Texture Analysis:
   - Granular: Individual snow particles visible? Common in loose snow
   - Blocky: Cohesive blocks or chunks? Typical of slab
   - Fluffy: Light, airy appearance? Common in powder
   - Density: Assess snow compactness

2. Movement Pattern Analysis:
   - Starting Width: Point source vs wide initial fracture
   - Propagation: How the avalanche spreads
   - Vertical Movement: Significant up/down motion
   - Lateral Spread: Sideways expansion

3. Terrain Analysis:
   - Slope Angle: Critical for type determination
   - Surface Roughness: Affects release pattern
   - Anchoring Points: Trees/rocks that affect flow
   - Convex Rollover: Terrain shape at release point

AVALANCHE TYPE CHARACTERISTICS:

LOOSE-SNOW Avalanche:
PRIMARY Indicators:
- Starting_width: "point"
- Propagation: "fan"
- Snow_texture: granular=true, blocky=false
- Debris_pattern: "fan-shaped"
SECONDARY Indicators:
- No distinct fracture line
- Low to medium density
- Often on steeper slopes
- Minimal lateral spread

SLAB Avalanche:
PRIMARY Indicators:
- Fracture_line: true
- Snow_texture: blocky=true
- Starting_width: "wide"
- Propagation: "linear"
SECONDARY Indicators:
- Medium to high density
- Linear debris pattern
- Moderate slope angles
- Significant lateral spread

POWDER Avalanche:
PRIMARY Indicators:
- Powder_cloud: true
- Snow_texture: fluffy=true
- Vertical_movement: true
SECONDARY Indicators:
- Low density
- Significant vertical displacement
- Often on steep terrain
- Chaotic propagation

Analyze ALL characteristics before classification. If mixed indicators present, weight PRIMARY indicators more heavily. A single PRIMARY indicator is not enough - require multiple matching characteristics for classification."#;

/// The base64 text of a byte sequence, as the standard padded alphabet
/// writes it: a function of the bytes alone.
pub uninterp spec fn base64_of(bytes: Seq<u8>) -> Seq<char>;

/// Relies on the `base64` crate's `STANDARD` engine: the padded
/// standard-alphabet encoding of the bytes, four characters for every
/// started group of three bytes, depending on the bytes alone.
#[verifier::external_body]
fn encode_base64(bytes: &Vec<u8>) -> (r: Vec<char>)
    ensures
        r@ == base64_of(bytes@),
        r@.len() == 4 * ((bytes@.len() + 2) / 3),
{
    base64::engine::general_purpose::STANDARD.encode(bytes.as_slice()).chars().collect()
}

/// The request document around one base64-encoded image.
pub open spec fn spec_request_doc(img64: Seq<char>) -> JsonV {
    JsonV::Obj(
        seq![
            ("model"@, JsonV::Text("gpt-4o-mini"@)),
            (
                "response_format"@,
                JsonV::Obj(seq![("type"@, JsonV::Text("json_object"@))]),
            ),
            (
                "messages"@,
                JsonV::Arr(
                    seq![
                        JsonV::Obj(
                            seq![
                                ("role"@, JsonV::Text("user"@)),
                                (
                                    "content"@,
                                    JsonV::Arr(
                                        seq![
                                            JsonV::Obj(
                                                seq![
                                                    ("type"@, JsonV::Text("text"@)),
                                                    ("text"@, JsonV::Text(RUBRIC@)),
                                                ],
                                            ),
                                            JsonV::Obj(
                                                seq![
                                                    ("type"@, JsonV::Text("image_url"@)),
                                                    (
                                                        "image_url"@,
                                                        JsonV::Obj(
                                                            seq![
                                                                (
                                                                    "url"@,
                                                                    JsonV::Text(
                                                                        "data:image/jpeg;base64,"@
                                                                            + img64,
                                                                    ),
                                                                ),
                                                                (
                                                                    "detail"@,
                                                                    JsonV::Text("high"@),
                                                                ),
                                                            ],
                                                        ),
                                                    ),
                                                ],
                                            ),
                                        ],
                                    ),
                                ),
                            ],
                        ),
                    ],
                ),
            ),
            ("max_tokens"@, JsonV::Num(60000)),
        ],
    )
}

/// Builds the complete outbound request body for one image: the fixed
/// rubric and the image as a base64 data URL, written as document text.
pub fn build_request_body(image: &Vec<u8>) -> (r: Vec<char>)
    ensures
        r@ == json_text_of(spec_request_doc(base64_of(image@))),
{
    let img64: Vec<char> = encode_base64(image);
    let ghost b64 = base64_of(image@);
    let mut url: Vec<char> = str_chars("data:image/jpeg;base64,");
    let mut k: usize = 0;
    while k < img64.len()
        invariant
            0 <= k <= img64@.len(),
            img64@ == b64,
            url@ == "data:image/jpeg;base64,"@ + img64@.subrange(0, k as int),
        decreases img64@.len() - k,
    {
        url.push(img64[k]);
        proof {
            assert(url@ =~= "data:image/jpeg;base64,"@ + img64@.subrange(0, k + 1));
        }
        k = k + 1;
    }
    proof {
        assert(img64@.subrange(0, img64@.len() as int) =~= img64@);
        assert(url@ == "data:image/jpeg;base64,"@ + b64);
    }
    let ghost target = spec_request_doc(b64);
    let url_val = JsonValue::Text(url);
    let high_val = JsonValue::Text(str_chars("high"));
    proof {
        assert(jv(url_val) == JsonV::Text("data:image/jpeg;base64,"@ + b64));
        assert(jv(high_val) == JsonV::Text("high"@));
    }
    let mut image_url: Vec<(Vec<char>, JsonValue)> = Vec::new();
    image_url.push((str_chars("url"), url_val));
    image_url.push((str_chars("detail"), high_val));
    let iu_val = JsonValue::Obj(image_url);
    proof {
        lemma_entries_v(iu_val->Obj_0@);
        assert(iu_val->Obj_0@.len() == 2);
        assert(entries_v(iu_val->Obj_0@).len() == 2);
        assert(entries_v(iu_val->Obj_0@)[0].0 == "url"@);
        assert(entries_v(iu_val->Obj_0@)[0].1 == JsonV::Text("data:image/jpeg;base64,"@ + b64));
        assert(entries_v(iu_val->Obj_0@)[1].0 == "detail"@);
        assert(entries_v(iu_val->Obj_0@)[1].1 == JsonV::Text("high"@));
        assert(entries_v(iu_val->Obj_0@) =~= seq![
            ("url"@, JsonV::Text("data:image/jpeg;base64,"@ + b64)),
            ("detail"@, JsonV::Text("high"@)),
        ]);
        assert(jv(iu_val) == JsonV::Obj(
            seq![
                ("url"@, JsonV::Text("data:image/jpeg;base64,"@ + b64)),
                ("detail"@, JsonV::Text("high"@)),
            ],
        ));
    }
    let t_iu = JsonValue::Text(str_chars("image_url"));
    proof {
        assert(jv(t_iu) == JsonV::Text("image_url"@));
    }
    let mut part2: Vec<(Vec<char>, JsonValue)> = Vec::new();
    part2.push((str_chars("type"), t_iu));
    part2.push((str_chars("image_url"), iu_val));
    let p2_val = JsonValue::Obj(part2);
    let ghost p2_spec = (target->Obj_0)[2].1->Arr_0[0]->Obj_0[1].1->Arr_0[1];
    proof {
        lemma_entries_v(p2_val->Obj_0@);
        assert(entries_v(p2_val->Obj_0@) =~= p2_spec->Obj_0);
        assert(jv(p2_val) == p2_spec);
    }
    let t_text = JsonValue::Text(str_chars("text"));
    let rubric_val = JsonValue::Text(str_chars(RUBRIC));
    proof {
        assert(jv(t_text) == JsonV::Text("text"@));
        assert(jv(rubric_val) == JsonV::Text(RUBRIC@));
    }
    let mut part1: Vec<(Vec<char>, JsonValue)> = Vec::new();
    part1.push((str_chars("type"), t_text));
    part1.push((str_chars("text"), rubric_val));
    let p1_val = JsonValue::Obj(part1);
    let ghost p1_spec = (target->Obj_0)[2].1->Arr_0[0]->Obj_0[1].1->Arr_0[0];
    proof {
        lemma_entries_v(p1_val->Obj_0@);
        assert(entries_v(p1_val->Obj_0@) =~= p1_spec->Obj_0);
        assert(jv(p1_val) == p1_spec);
    }
    let mut content: Vec<JsonValue> = Vec::new();
    content.push(p1_val);
    content.push(p2_val);
    let ct_val = JsonValue::Arr(content);
    proof {
        lemma_jv_seq(ct_val->Arr_0@);
        assert(jv_seq(ct_val->Arr_0@) =~= ((target->Obj_0)[2].1->Arr_0[0]->Obj_0[1].1)->Arr_0);
        assert(jv(ct_val) == (target->Obj_0)[2].1->Arr_0[0]->Obj_0[1].1);
    }
    let role_val = JsonValue::Text(str_chars("user"));
    proof {
        assert(jv(role_val) == JsonV::Text("user"@));
    }
    let mut message: Vec<(Vec<char>, JsonValue)> = Vec::new();
    message.push((str_chars("role"), role_val));
    message.push((str_chars("content"), ct_val));
    let msg_val = JsonValue::Obj(message);
    proof {
        lemma_entries_v(msg_val->Obj_0@);
        assert(entries_v(msg_val->Obj_0@) =~= ((target->Obj_0)[2].1->Arr_0[0])->Obj_0);
        assert(jv(msg_val) == (target->Obj_0)[2].1->Arr_0[0]);
    }
    let mut messages: Vec<JsonValue> = Vec::new();
    messages.push(msg_val);
    let msgs_val = JsonValue::Arr(messages);
    proof {
        lemma_jv_seq(msgs_val->Arr_0@);
        assert(jv_seq(msgs_val->Arr_0@) =~= ((target->Obj_0)[2].1)->Arr_0);
        assert(jv(msgs_val) == (target->Obj_0)[2].1);
    }
    let t_json = JsonValue::Text(str_chars("json_object"));
    proof {
        assert(jv(t_json) == JsonV::Text("json_object"@));
    }
    let mut fmt: Vec<(Vec<char>, JsonValue)> = Vec::new();
    fmt.push((str_chars("type"), t_json));
    let fmt_val = JsonValue::Obj(fmt);
    proof {
        lemma_entries_v(fmt_val->Obj_0@);
        assert(entries_v(fmt_val->Obj_0@) =~= ((target->Obj_0)[1].1)->Obj_0);
        assert(jv(fmt_val) == (target->Obj_0)[1].1);
    }
    let model_val = JsonValue::Text(str_chars("gpt-4o-mini"));
    proof {
        assert(jv(model_val) == JsonV::Text("gpt-4o-mini"@));
    }
    let mut root: Vec<(Vec<char>, JsonValue)> = Vec::new();
    root.push((str_chars("model"), model_val));
    root.push((str_chars("response_format"), fmt_val));
    root.push((str_chars("messages"), msgs_val));
    root.push((str_chars("max_tokens"), JsonValue::Num(60000)));
    let doc = JsonValue::Obj(root);
    proof {
        lemma_entries_v(doc->Obj_0@);
        assert(entries_v(doc->Obj_0@) =~= target->Obj_0);
        assert(jv(doc) == target);
    }
    write_document(&doc)
}

/// The text the service's reply carries inside
/// `choices[0].message.content`, or why it cannot be read: an absent
/// `choices`, `message` or `content` member is a missing field, any
/// other deviation from the agreed reply shape is a malformed payload.
pub open spec fn spec_content(d: JsonV) -> Result<Seq<char>, DecodeErr> {
    match d {
        JsonV::Obj(o) => match lookup(o, "choices"@) {
            Option::None => Result::Err(DecodeErr::Missing("choices"@)),
            Option::Some(JsonV::Arr(cs)) => if cs.len() == 0 {
                Result::Err(DecodeErr::Malformed)
            } else {
                match cs[0] {
                    JsonV::Obj(c0) => match lookup(c0, "message"@) {
                        Option::None => Result::Err(DecodeErr::Missing("message"@)),
                        Option::Some(JsonV::Obj(m)) => match lookup(m, "content"@) {
                            Option::None => Result::Err(DecodeErr::Missing("content"@)),
                            Option::Some(JsonV::Text(t)) => Result::Ok(t),
                            Option::Some(_) => Result::Err(DecodeErr::Malformed),
                        },
                        Option::Some(_) => Result::Err(DecodeErr::Malformed),
                    },
                    _ => Result::Err(DecodeErr::Malformed),
                }
            },
            Option::Some(_) => Result::Err(DecodeErr::Malformed),
        },
        _ => Result::Err(DecodeErr::Malformed),
    }
}

/// Reads `choices[0].message.content` out of the reply document.
pub fn extract_content(j: &JsonValue) -> (r: Result<Vec<char>, ParseError>)
    ensures
        r matches Result::Ok(t) ==> spec_content(jv(*j)) == Result::<Seq<char>, DecodeErr>::Ok(
            t@,
        ),
        r matches Result::Err(e) ==> spec_content(jv(*j)) == Result::<
            Seq<char>,
            DecodeErr,
        >::Err(perr_v(e)),
{
    let o: &Vec<(Vec<char>, JsonValue)> = match j {
        JsonValue::Obj(o) => o,
        _ => { return Result::Err(ParseError::MalformedPayload); },
    };
    let cs: &Vec<JsonValue> = match get_member(o, "choices") {
        Option::Some(JsonValue::Arr(cs)) => cs,
        Option::Some(_) => { return Result::Err(ParseError::MalformedPayload); },
        Option::None => {
            return Result::Err(ParseError::MissingField(str_chars("choices")));
        },
    };
    if cs.len() == 0 {
        proof {
            lemma_jv_seq(cs@);
        }
        return Result::Err(ParseError::MalformedPayload);
    }
    proof {
        lemma_jv_seq(cs@);
    }
    let c0: &Vec<(Vec<char>, JsonValue)> = match &cs[0] {
        JsonValue::Obj(c0) => c0,
        _ => { return Result::Err(ParseError::MalformedPayload); },
    };
    let m: &Vec<(Vec<char>, JsonValue)> = match get_member(c0, "message") {
        Option::Some(JsonValue::Obj(m)) => m,
        Option::Some(_) => { return Result::Err(ParseError::MalformedPayload); },
        Option::None => {
            return Result::Err(ParseError::MissingField(str_chars("message")));
        },
    };
    match get_member(m, "content") {
        Option::Some(JsonValue::Text(t)) => Result::Ok(crate::json::clone_chars(t)),
        Option::Some(_) => Result::Err(ParseError::MalformedPayload),
        Option::None => Result::Err(ParseError::MissingField(str_chars("content"))),
    }
}

/// The rejection an unreadable payload maps to.
pub open spec fn rejection_of(o: RequestOutcome, e: DecodeErr) -> bool {
    match e {
        DecodeErr::Malformed => o == RequestOutcome::Rejected(ValidationError::MalformedPayload),
        DecodeErr::Missing(nm) => o matches RequestOutcome::Rejected(
            ValidationError::MissingField(n),
        ) && n@ == nm,
    }
}

/// What `classify_response` returns for one reply, stage by stage: a
/// failed transport or empty body is a transport rejection; a body
/// outside the document grammar, a reply without its content text, a
/// content text outside the grammar, and a content document missing the
/// schema's fields each map to their parse rejection; and a decoded
/// classification is judged by the scoring engine alone.
pub open spec fn spec_classified(status_ok: bool, body: Seq<char>, o: RequestOutcome) -> bool {
    if !status_ok || body.len() == 0 {
        o == RequestOutcome::Rejected(ValidationError::Transport)
    } else {
        match spec_parse_document(body) {
            Option::None => o == RequestOutcome::Rejected(ValidationError::MalformedPayload),
            Option::Some(d) => match spec_content(d) {
                Result::Err(e) => rejection_of(o, e),
                Result::Ok(ct) => match spec_parse_document(ct) {
                    Option::None => o == RequestOutcome::Rejected(
                        ValidationError::MalformedPayload,
                    ),
                    Option::Some(d2) => match spec_decode_err(d2) {
                        Option::Some(e) => rejection_of(o, e),
                        Option::None => exists|r: crate::schema::ClassificationResult|
                            #[trigger] decodes_to(d2, r) && o == spec_validate(r),
                    },
                },
            },
        }
    }
}

/// Turns one reply of the external service into the terminal outcome of
/// the invocation, exactly as `spec_classified` lays down.
pub fn classify_response(status_ok: bool, body: &Vec<char>) -> (o: RequestOutcome)
    ensures
        spec_classified(status_ok, body@, o),
{
    if !status_ok || body.len() == 0 {
        return RequestOutcome::Rejected(ValidationError::Transport);
    }
    let doc: JsonValue = match parse_document(body) {
        Result::Ok(d) => d,
        Result::Err(_) => {
            return RequestOutcome::Rejected(ValidationError::MalformedPayload);
        },
    };
    let content: Vec<char> = match extract_content(&doc) {
        Result::Ok(t) => t,
        Result::Err(ParseError::MalformedPayload) => {
            return RequestOutcome::Rejected(ValidationError::MalformedPayload);
        },
        Result::Err(ParseError::MissingField(n)) => {
            return RequestOutcome::Rejected(ValidationError::MissingField(n));
        },
    };
    let inner: JsonValue = match parse_document(&content) {
        Result::Ok(d) => d,
        Result::Err(_) => {
            return RequestOutcome::Rejected(ValidationError::MalformedPayload);
        },
    };
    let decoded: crate::schema::ClassificationResult = match decode_result(&inner) {
        Result::Ok(r) => r,
        Result::Err(ParseError::MalformedPayload) => {
            return RequestOutcome::Rejected(ValidationError::MalformedPayload);
        },
        Result::Err(ParseError::MissingField(n)) => {
            return RequestOutcome::Rejected(ValidationError::MissingField(n));
        },
    };
    let ghost d2 = jv(inner);
    let ghost dec = decoded;
    let out = validate(decoded);
    proof {
        assert(decodes_to(d2, dec) && out == spec_validate(dec));
    }
    out
}

} // verus!
