//! The response codec: between the wire document and the schema model.
//!
//! Decoding enforces the required fields and the value kinds of the
//! agreed schema; unknown members are ignored for forward compatibility,
//! and a word outside a closed vocabulary is preserved in the matching
//! `Other` variant rather than refused.  Encoding writes a model value
//! back into the same document shape, and the two directions are proved
//! inverse on every well-formed value.

use vstd::prelude::*;
use crate::json::{
    JsonV, JsonValue, entries_v, jv, jv_seq, lookup, get_member, clone_chars, lemma_entries_v,
    lemma_jv_seq, lemma_lookup_first_match,
};
use crate::schema::{
    Category, ClassificationResult, Density, DebrisPattern, MovementPattern, Propagation,
    SnowTexture, StartingWidth, SurfaceRoughness, TerrainShape, VisualCharacteristics,
    category_word, spec_canonical_category,
};
use crate::text::{chars_eq_str, str_chars};

verus! {

/// Why a reply failed to decode.
#[derive(Clone, Debug, PartialEq, Eq)]
pub enum ParseError {
    /// The payload is no structured object of the agreed shape.
    MalformedPayload,
    /// A required field is absent; carries the field name.
    MissingField(Vec<char>),
}

/// The mathematical shape of a decode failure.
pub ghost enum DecodeErr {
    Malformed,
    Missing(Seq<char>),
}

/// The shape of an executable decode failure.
pub open spec fn perr_v(e: ParseError) -> DecodeErr {
    match e {
        ParseError::MalformedPayload => DecodeErr::Malformed,
        ParseError::MissingField(n) => DecodeErr::Missing(n@),
    }
}

/// The earlier of two possible failures.
pub open spec fn first_err(a: Option<DecodeErr>, b: Option<DecodeErr>) -> Option<DecodeErr> {
    if a is Some {
        a
    } else {
        b
    }
}

// ---------------------------------------------------------------------
// Closed vocabularies
// ---------------------------------------------------------------------

/// The wire word of a density.
pub open spec fn density_word(d: Density) -> Seq<char> {
    match d {
        Density::Low => "low"@,
        Density::Medium => "medium"@,
        Density::High => "high"@,
        Density::Other(s) => s@,
    }
}

/// A word of the closed density vocabulary.
pub open spec fn density_canon(w: Seq<char>) -> bool {
    w == "low"@ || w == "medium"@ || w == "high"@
}

/// The density that a wire word decodes to: the closed variant for a
/// word of the vocabulary, otherwise `Other` preserving the word.
pub open spec fn density_decodes(w: Seq<char>, d: Density) -> bool {
    if w == "low"@ {
        d is Low
    } else if w == "medium"@ {
        d is Medium
    } else if w == "high"@ {
        d is High
    } else {
        d matches Density::Other(s) && s@ == w
    }
}

/// The wire word of a starting width.
pub open spec fn width_word(x: StartingWidth) -> Seq<char> {
    match x {
        StartingWidth::Point => "point"@,
        StartingWidth::Wide => "wide"@,
        StartingWidth::Undefined => "undefined"@,
        StartingWidth::Other(s) => s@,
    }
}

/// A word of the closed starting-width vocabulary.
pub open spec fn width_canon(w: Seq<char>) -> bool {
    w == "point"@ || w == "wide"@ || w == "undefined"@
}

/// The starting width that a wire word decodes to.
pub open spec fn width_decodes(w: Seq<char>, x: StartingWidth) -> bool {
    if w == "point"@ {
        x is Point
    } else if w == "wide"@ {
        x is Wide
    } else if w == "undefined"@ {
        x is Undefined
    } else {
        x matches StartingWidth::Other(s) && s@ == w
    }
}

/// The wire word of a propagation.
pub open spec fn prop_word(x: Propagation) -> Seq<char> {
    match x {
        Propagation::Fan => "fan"@,
        Propagation::Linear => "linear"@,
        Propagation::Chaotic => "chaotic"@,
        Propagation::Absent => "none"@,
        Propagation::Other(s) => s@,
    }
}

/// A word of the closed propagation vocabulary.
pub open spec fn prop_canon(w: Seq<char>) -> bool {
    w == "fan"@ || w == "linear"@ || w == "chaotic"@ || w == "none"@
}

/// The propagation that a wire word decodes to.
pub open spec fn prop_decodes(w: Seq<char>, x: Propagation) -> bool {
    if w == "fan"@ {
        x is Fan
    } else if w == "linear"@ {
        x is Linear
    } else if w == "chaotic"@ {
        x is Chaotic
    } else if w == "none"@ {
        x is Absent
    } else {
        x matches Propagation::Other(s) && s@ == w
    }
}

/// The wire word of a debris pattern.
pub open spec fn debris_word(x: DebrisPattern) -> Seq<char> {
    match x {
        DebrisPattern::FanShaped => "fan-shaped"@,
        DebrisPattern::Linear => "linear"@,
        DebrisPattern::Scattered => "scattered"@,
        DebrisPattern::Absent => "none"@,
        DebrisPattern::Other(s) => s@,
    }
}

/// A word of the closed debris vocabulary.
pub open spec fn debris_canon(w: Seq<char>) -> bool {
    w == "fan-shaped"@ || w == "linear"@ || w == "scattered"@ || w == "none"@
}

/// The debris pattern that a wire word decodes to.
pub open spec fn debris_decodes(w: Seq<char>, x: DebrisPattern) -> bool {
    if w == "fan-shaped"@ {
        x is FanShaped
    } else if w == "linear"@ {
        x is Linear
    } else if w == "scattered"@ {
        x is Scattered
    } else if w == "none"@ {
        x is Absent
    } else {
        x matches DebrisPattern::Other(s) && s@ == w
    }
}

/// The wire word of a surface roughness.
pub open spec fn surface_word(x: SurfaceRoughness) -> Seq<char> {
    match x {
        SurfaceRoughness::Smooth => "smooth"@,
        SurfaceRoughness::Rough => "rough"@,
        SurfaceRoughness::Variable => "variable"@,
        SurfaceRoughness::Other(s) => s@,
    }
}

/// A word of the closed surface vocabulary.
pub open spec fn surface_canon(w: Seq<char>) -> bool {
    w == "smooth"@ || w == "rough"@ || w == "variable"@
}

/// The surface roughness that a wire word decodes to.
pub open spec fn surface_decodes(w: Seq<char>, x: SurfaceRoughness) -> bool {
    if w == "smooth"@ {
        x is Smooth
    } else if w == "rough"@ {
        x is Rough
    } else if w == "variable"@ {
        x is Variable
    } else {
        x matches SurfaceRoughness::Other(s) && s@ == w
    }
}

/// The category that a wire word decodes to.
pub open spec fn cat_decodes(w: Seq<char>, c: Category) -> bool {
    if w == "powder"@ {
        c is Powder
    } else if w == "loose-snow"@ {
        c is LooseSnow
    } else if w == "slab"@ {
        c is Slab
    } else if w == "none"@ {
        c is NoHazard
    } else {
        c matches Category::Unrecognized(s) && s@ == w
    }
}

/// A nullable text field relates to its document value: `Null` is the
/// absent report, a text is the reported one.
pub open spec fn opt_text_decodes(v: JsonV, o: Option<Vec<char>>) -> bool {
    match v {
        JsonV::Null => o is None,
        JsonV::Text(w) => o matches Option::Some(s) && s@ == w,
        _ => false,
    }
}

/// The document value of a nullable text field.
pub open spec fn opt_text_v(o: Option<Vec<char>>) -> JsonV {
    match o {
        Option::None => JsonV::Null,
        Option::Some(s) => JsonV::Text(s@),
    }
}

// ---------------------------------------------------------------------
// Well-formedness: the domain constraints of the schema model
// ---------------------------------------------------------------------

/// An `Other` variant may not spell a word of its own closed
/// vocabulary; that spelling belongs to the closed variant.
pub open spec fn wf_characteristics(c: VisualCharacteristics) -> bool {
    &&& (c.snow_texture.density matches Density::Other(s) ==> !density_canon(s@))
    &&& (c.movement_pattern.starting_width matches StartingWidth::Other(s) ==> !width_canon(s@))
    &&& (c.movement_pattern.propagation matches Propagation::Other(s) ==> !prop_canon(s@))
    &&& (c.debris_pattern matches DebrisPattern::Other(s) ==> !debris_canon(s@))
    &&& (c.terrain.surface_roughness matches SurfaceRoughness::Other(s) ==> !surface_canon(s@))
}

/// The domain constraints of one classification: closed words stand in
/// their closed variants, and the confidence lies in its domain.
pub open spec fn wf_result(r: ClassificationResult) -> bool {
    &&& (r.category matches Category::Unrecognized(s) ==> !spec_canonical_category(s@))
    &&& crate::schema::confidence_in_range(r.confidence_centi)
    &&& wf_characteristics(r.characteristics)
}

// ---------------------------------------------------------------------
// Field access
// ---------------------------------------------------------------------

/// The failure, if any, of reading a required boolean member.
pub open spec fn bool_field_err(o: Seq<(Seq<char>, JsonV)>, key: Seq<char>) -> Option<DecodeErr> {
    match lookup(o, key) {
        Option::None => Option::Some(DecodeErr::Missing(key)),
        Option::Some(JsonV::Bool(_)) => Option::None,
        Option::Some(_) => Option::Some(DecodeErr::Malformed),
    }
}

/// The failure, if any, of reading a required text member.
pub open spec fn text_field_err(o: Seq<(Seq<char>, JsonV)>, key: Seq<char>) -> Option<DecodeErr> {
    match lookup(o, key) {
        Option::None => Option::Some(DecodeErr::Missing(key)),
        Option::Some(JsonV::Text(_)) => Option::None,
        Option::Some(_) => Option::Some(DecodeErr::Malformed),
    }
}

/// The failure, if any, of reading a required nullable-text member.
pub open spec fn opt_text_field_err(o: Seq<(Seq<char>, JsonV)>, key: Seq<char>) -> Option<
    DecodeErr,
> {
    match lookup(o, key) {
        Option::None => Option::Some(DecodeErr::Missing(key)),
        Option::Some(JsonV::Null) => Option::None,
        Option::Some(JsonV::Text(_)) => Option::None,
        Option::Some(_) => Option::Some(DecodeErr::Malformed),
    }
}

/// The failure, if any, of reading a required number member.
pub open spec fn num_field_err(o: Seq<(Seq<char>, JsonV)>, key: Seq<char>) -> Option<DecodeErr> {
    match lookup(o, key) {
        Option::None => Option::Some(DecodeErr::Missing(key)),
        Option::Some(JsonV::Num(_)) => Option::None,
        Option::Some(_) => Option::Some(DecodeErr::Malformed),
    }
}

/// The failure, if any, of reading a required object member.
pub open spec fn obj_field_err(o: Seq<(Seq<char>, JsonV)>, key: Seq<char>) -> Option<DecodeErr> {
    match lookup(o, key) {
        Option::None => Option::Some(DecodeErr::Missing(key)),
        Option::Some(JsonV::Obj(_)) => Option::None,
        Option::Some(_) => Option::Some(DecodeErr::Malformed),
    }
}

/// The text sequence a document array carries, when every element is a
/// text.
pub open spec fn texts_of(a: Seq<JsonV>) -> Option<Seq<Seq<char>>>
    decreases a.len(),
{
    if a.len() == 0 {
        Option::Some(Seq::empty())
    } else {
        match a[0] {
            JsonV::Text(t) => match texts_of(a.subrange(1, a.len() as int)) {
                Option::Some(rest) => Option::Some(seq![t] + rest),
                Option::None => Option::None,
            },
            _ => Option::None,
        }
    }
}

/// The text sequences that a vector of texts holds.
pub open spec fn texts_v(v: Seq<Vec<char>>) -> Seq<Seq<char>> {
    v.map_values(|t: Vec<char>| t@)
}

/// The document array of a text sequence.
pub open spec fn texts_enc(ts: Seq<Seq<char>>) -> Seq<JsonV> {
    ts.map_values(|t: Seq<char>| JsonV::Text(t))
}

/// The failure, if any, of reading a required text-array member.
pub open spec fn texts_field_err(o: Seq<(Seq<char>, JsonV)>, key: Seq<char>) -> Option<
    DecodeErr,
> {
    match lookup(o, key) {
        Option::None => Option::Some(DecodeErr::Missing(key)),
        Option::Some(JsonV::Arr(a)) => if texts_of(a) is Some {
            Option::None
        } else {
            Option::Some(DecodeErr::Malformed)
        },
        Option::Some(_) => Option::Some(DecodeErr::Malformed),
    }
}

/// Reads a required boolean member.
fn get_bool(o: &Vec<(Vec<char>, JsonValue)>, key: &str) -> (r: Result<bool, ParseError>)
    ensures
        (r is Err) <==> (bool_field_err(entries_v(o@), key@) is Some),
        r matches Result::Err(e) ==> Option::Some(perr_v(e)) == bool_field_err(
            entries_v(o@),
            key@,
        ),
        r matches Result::Ok(b) ==> lookup(entries_v(o@), key@) == Option::Some(JsonV::Bool(b)),
{
    match get_member(o, key) {
        Option::Some(JsonValue::Bool(b)) => Result::Ok(*b),
        Option::Some(_) => Result::Err(ParseError::MalformedPayload),
        Option::None => Result::Err(ParseError::MissingField(str_chars(key))),
    }
}

/// Reads a required text member.
fn get_text(o: &Vec<(Vec<char>, JsonValue)>, key: &str) -> (r: Result<Vec<char>, ParseError>)
    ensures
        (r is Err) <==> (text_field_err(entries_v(o@), key@) is Some),
        r matches Result::Err(e) ==> Option::Some(perr_v(e)) == text_field_err(
            entries_v(o@),
            key@,
        ),
        r matches Result::Ok(t) ==> lookup(entries_v(o@), key@) == Option::Some(
            JsonV::Text(t@),
        ),
{
    match get_member(o, key) {
        Option::Some(JsonValue::Text(t)) => Result::Ok(clone_chars(t)),
        Option::Some(_) => Result::Err(ParseError::MalformedPayload),
        Option::None => Result::Err(ParseError::MissingField(str_chars(key))),
    }
}

/// Reads a required nullable-text member.
fn get_opt_text(o: &Vec<(Vec<char>, JsonValue)>, key: &str) -> (r: Result<
    Option<Vec<char>>,
    ParseError,
>)
    ensures
        (r is Err) <==> (opt_text_field_err(entries_v(o@), key@) is Some),
        r matches Result::Err(e) ==> Option::Some(perr_v(e)) == opt_text_field_err(
            entries_v(o@),
            key@,
        ),
        r matches Result::Ok(t) ==> lookup(entries_v(o@), key@) matches Option::Some(v)
            && opt_text_decodes(v, t),
{
    match get_member(o, key) {
        Option::Some(JsonValue::Null) => Result::Ok(Option::None),
        Option::Some(JsonValue::Text(t)) => Result::Ok(Option::Some(clone_chars(t))),
        Option::Some(_) => Result::Err(ParseError::MalformedPayload),
        Option::None => Result::Err(ParseError::MissingField(str_chars(key))),
    }
}

/// Reads a required number member.
fn get_num(o: &Vec<(Vec<char>, JsonValue)>, key: &str) -> (r: Result<i64, ParseError>)
    ensures
        (r is Err) <==> (num_field_err(entries_v(o@), key@) is Some),
        r matches Result::Err(e) ==> Option::Some(perr_v(e)) == num_field_err(
            entries_v(o@),
            key@,
        ),
        r matches Result::Ok(n) ==> lookup(entries_v(o@), key@) == Option::Some(
            JsonV::Num(n as int),
        ),
{
    match get_member(o, key) {
        Option::Some(JsonValue::Num(n)) => Result::Ok(*n),
        Option::Some(_) => Result::Err(ParseError::MalformedPayload),
        Option::None => Result::Err(ParseError::MissingField(str_chars(key))),
    }
}

/// Reads a required object member, handing out its member list.
fn get_obj<'a>(o: &'a Vec<(Vec<char>, JsonValue)>, key: &str) -> (r: Result<
    &'a Vec<(Vec<char>, JsonValue)>,
    ParseError,
>)
    ensures
        (r is Err) <==> (obj_field_err(entries_v(o@), key@) is Some),
        r matches Result::Err(e) ==> Option::Some(perr_v(e)) == obj_field_err(
            entries_v(o@),
            key@,
        ),
        r matches Result::Ok(m) ==> lookup(entries_v(o@), key@) == Option::Some(
            JsonV::Obj(entries_v(m@)),
        ),
{
    match get_member(o, key) {
        Option::Some(JsonValue::Obj(m)) => Result::Ok(m),
        Option::Some(_) => Result::Err(ParseError::MalformedPayload),
        Option::None => Result::Err(ParseError::MissingField(str_chars(key))),
    }
}

/// Reads a required text-array member.
fn get_texts(o: &Vec<(Vec<char>, JsonValue)>, key: &str) -> (r: Result<
    Vec<Vec<char>>,
    ParseError,
>)
    ensures
        (r is Err) <==> (texts_field_err(entries_v(o@), key@) is Some),
        r matches Result::Err(e) ==> Option::Some(perr_v(e)) == texts_field_err(
            entries_v(o@),
            key@,
        ),
        r matches Result::Ok(ts) ==> lookup(entries_v(o@), key@) matches Option::Some(
            JsonV::Arr(a),
        ) && texts_of(a) == Option::Some(texts_v(ts@)),
{
    let arr: &Vec<JsonValue> = match get_member(o, key) {
        Option::Some(JsonValue::Arr(a)) => a,
        Option::Some(_) => {
            return Result::Err(ParseError::MalformedPayload);
        },
        Option::None => {
            return Result::Err(ParseError::MissingField(str_chars(key)));
        },
    };
    let ghost a = jv_seq(arr@);
    proof {
        lemma_jv_seq(arr@);
        assert(lookup(entries_v(o@), key@) == Option::Some(JsonV::Arr(a)));
    }
    let mut ts: Vec<Vec<char>> = Vec::new();
    let mut i: usize = 0;
    while i < arr.len()
        invariant
            0 <= i <= arr@.len(),
            a == jv_seq(arr@),
            lookup(entries_v(o@), key@) == Option::Some(JsonV::Arr(a)),
            a.len() == arr@.len(),
            forall|k: int| 0 <= k < arr@.len() ==> a[k] == jv(arr@[k]),
            ts@.len() == i,
            forall|k: int| 0 <= k < i ==> a[k] == JsonV::Text(#[trigger] ts@[k]@),
        decreases arr@.len() - i,
    {
        match &arr[i] {
            JsonValue::Text(t) => {
                proof {
                    assert(a[i as int] == jv(arr@[i as int]));
                }
                ts.push(clone_chars(t));
            },
            _ => {
                proof {
                    assert forall|k: int| 0 <= k < i implies (a[k]) is Text by {
                        assert(a[k] == JsonV::Text(ts@[k]@));
                    }
                    assert(a[i as int] == jv(arr@[i as int]));
                    assert(!(a[i as int] is Text));
                    lemma_texts_of_prefix_fails(a, i as int);
                }
                return Result::Err(ParseError::MalformedPayload);
            },
        }
        i = i + 1;
    }
    proof {
        assert forall|k: int| 0 <= k < a.len() implies a[k] == JsonV::Text(
            #[trigger] texts_v(ts@)[k],
        ) by {
            assert(a[k] == JsonV::Text(ts@[k]@));
            assert(texts_v(ts@)[k] == ts@[k]@);
        }
        lemma_texts_of_all(a, texts_v(ts@));
    }
    Result::Ok(ts)
}

/// When every element before `i` is a text and element `i` is not,
/// the array carries no text sequence.
proof fn lemma_texts_of_prefix_fails(a: Seq<JsonV>, i: int)
    requires
        0 <= i < a.len(),
        forall|k: int| 0 <= k < i ==> a[k] is Text,
        !(a[i] is Text),
    ensures
        texts_of(a) is None,
    decreases i,
{
    if i > 0 {
        lemma_texts_of_prefix_fails(a.subrange(1, a.len() as int), i - 1);
    }
}

/// When every element is the text of `ts`, in order, the array carries
/// exactly `ts`.
proof fn lemma_texts_of_all(a: Seq<JsonV>, ts: Seq<Seq<char>>)
    requires
        a.len() == ts.len(),
        forall|k: int| 0 <= k < a.len() ==> a[k] == JsonV::Text(#[trigger] ts[k]),
    ensures
        texts_of(a) == Option::Some(ts),
    decreases a.len(),
{
    if a.len() > 0 {
        lemma_texts_of_all(a.subrange(1, a.len() as int), ts.subrange(1, ts.len() as int));
        assert(seq![ts[0]] + ts.subrange(1, ts.len() as int) =~= ts);
    }
}

/// Encoding then reading back a text sequence returns it unchanged.
proof fn lemma_texts_round_trip(ts: Seq<Seq<char>>)
    ensures
        texts_of(texts_enc(ts)) == Option::Some(ts),
{
    lemma_texts_of_all(texts_enc(ts), ts);
}

// ---------------------------------------------------------------------
// Per-vocabulary decode and encode
// ---------------------------------------------------------------------

/// Decodes a density word.
fn decode_density(t: Vec<char>) -> (d: Density)
    ensures
        density_decodes(t@, d),
{
    if chars_eq_str(&t, "low") {
        Density::Low
    } else if chars_eq_str(&t, "medium") {
        Density::Medium
    } else if chars_eq_str(&t, "high") {
        Density::High
    } else {
        Density::Other(t)
    }
}

/// Decodes a starting-width word.
fn decode_width(t: Vec<char>) -> (x: StartingWidth)
    ensures
        width_decodes(t@, x),
{
    if chars_eq_str(&t, "point") {
        StartingWidth::Point
    } else if chars_eq_str(&t, "wide") {
        StartingWidth::Wide
    } else if chars_eq_str(&t, "undefined") {
        StartingWidth::Undefined
    } else {
        StartingWidth::Other(t)
    }
}

/// Decodes a propagation word.
fn decode_prop(t: Vec<char>) -> (x: Propagation)
    ensures
        prop_decodes(t@, x),
{
    if chars_eq_str(&t, "fan") {
        Propagation::Fan
    } else if chars_eq_str(&t, "linear") {
        Propagation::Linear
    } else if chars_eq_str(&t, "chaotic") {
        Propagation::Chaotic
    } else if chars_eq_str(&t, "none") {
        Propagation::Absent
    } else {
        Propagation::Other(t)
    }
}

/// Decodes a debris-pattern word.
fn decode_debris(t: Vec<char>) -> (x: DebrisPattern)
    ensures
        debris_decodes(t@, x),
{
    if chars_eq_str(&t, "fan-shaped") {
        DebrisPattern::FanShaped
    } else if chars_eq_str(&t, "linear") {
        DebrisPattern::Linear
    } else if chars_eq_str(&t, "scattered") {
        DebrisPattern::Scattered
    } else if chars_eq_str(&t, "none") {
        DebrisPattern::Absent
    } else {
        DebrisPattern::Other(t)
    }
}

/// Decodes a surface-roughness word.
fn decode_surface(t: Vec<char>) -> (x: SurfaceRoughness)
    ensures
        surface_decodes(t@, x),
{
    if chars_eq_str(&t, "smooth") {
        SurfaceRoughness::Smooth
    } else if chars_eq_str(&t, "rough") {
        SurfaceRoughness::Rough
    } else if chars_eq_str(&t, "variable") {
        SurfaceRoughness::Variable
    } else {
        SurfaceRoughness::Other(t)
    }
}

/// Decodes a category word.
fn decode_category(t: Vec<char>) -> (c: Category)
    ensures
        cat_decodes(t@, c),
{
    if chars_eq_str(&t, "powder") {
        Category::Powder
    } else if chars_eq_str(&t, "loose-snow") {
        Category::LooseSnow
    } else if chars_eq_str(&t, "slab") {
        Category::Slab
    } else if chars_eq_str(&t, "none") {
        Category::NoHazard
    } else {
        Category::Unrecognized(t)
    }
}

/// Writes a density word.
fn density_text(d: &Density) -> (r: Vec<char>)
    ensures
        r@ == density_word(*d),
{
    match d {
        Density::Low => str_chars("low"),
        Density::Medium => str_chars("medium"),
        Density::High => str_chars("high"),
        Density::Other(s) => clone_chars(s),
    }
}

/// Writes a starting-width word.
fn width_text(x: &StartingWidth) -> (r: Vec<char>)
    ensures
        r@ == width_word(*x),
{
    match x {
        StartingWidth::Point => str_chars("point"),
        StartingWidth::Wide => str_chars("wide"),
        StartingWidth::Undefined => str_chars("undefined"),
        StartingWidth::Other(s) => clone_chars(s),
    }
}

/// Writes a propagation word.
fn prop_text(x: &Propagation) -> (r: Vec<char>)
    ensures
        r@ == prop_word(*x),
{
    match x {
        Propagation::Fan => str_chars("fan"),
        Propagation::Linear => str_chars("linear"),
        Propagation::Chaotic => str_chars("chaotic"),
        Propagation::Absent => str_chars("none"),
        Propagation::Other(s) => clone_chars(s),
    }
}

/// Writes a debris-pattern word.
fn debris_text(x: &DebrisPattern) -> (r: Vec<char>)
    ensures
        r@ == debris_word(*x),
{
    match x {
        DebrisPattern::FanShaped => str_chars("fan-shaped"),
        DebrisPattern::Linear => str_chars("linear"),
        DebrisPattern::Scattered => str_chars("scattered"),
        DebrisPattern::Absent => str_chars("none"),
        DebrisPattern::Other(s) => clone_chars(s),
    }
}

/// Writes a surface-roughness word.
fn surface_text(x: &SurfaceRoughness) -> (r: Vec<char>)
    ensures
        r@ == surface_word(*x),
{
    match x {
        SurfaceRoughness::Smooth => str_chars("smooth"),
        SurfaceRoughness::Rough => str_chars("rough"),
        SurfaceRoughness::Variable => str_chars("variable"),
        SurfaceRoughness::Other(s) => clone_chars(s),
    }
}

/// Writes a category word.
fn category_text(c: &Category) -> (r: Vec<char>)
    ensures
        r@ == category_word(*c),
{
    match c {
        Category::Powder => str_chars("powder"),
        Category::LooseSnow => str_chars("loose-snow"),
        Category::Slab => str_chars("slab"),
        Category::NoHazard => str_chars("none"),
        Category::Unrecognized(s) => clone_chars(s),
    }
}

/// Writes a nullable text field.
fn opt_text_value(o: &Option<Vec<char>>) -> (j: JsonValue)
    ensures
        jv(j) == opt_text_v(*o),
{
    match o {
        Option::None => JsonValue::Null,
        Option::Some(s) => JsonValue::Text(clone_chars(s)),
    }
}

// ---------------------------------------------------------------------
// Snow texture
// ---------------------------------------------------------------------

/// The failure, if any, of decoding a snow-texture object.
pub open spec fn snow_err(o: Seq<(Seq<char>, JsonV)>) -> Option<DecodeErr> {
    first_err(
        bool_field_err(o, "granular"@),
        first_err(
            bool_field_err(o, "blocky"@),
            first_err(bool_field_err(o, "fluffy"@), text_field_err(o, "density"@)),
        ),
    )
}

/// A snow-texture object decodes to the given value.
pub open spec fn snow_decodes(o: Seq<(Seq<char>, JsonV)>, s: SnowTexture) -> bool {
    &&& lookup(o, "granular"@) == Option::Some(JsonV::Bool(s.granular))
    &&& lookup(o, "blocky"@) == Option::Some(JsonV::Bool(s.blocky))
    &&& lookup(o, "fluffy"@) == Option::Some(JsonV::Bool(s.fluffy))
    &&& (lookup(o, "density"@) matches Option::Some(JsonV::Text(w)) && density_decodes(
        w,
        s.density,
    ))
}

/// Decodes a snow-texture object.
fn decode_snow(o: &Vec<(Vec<char>, JsonValue)>) -> (r: Result<SnowTexture, ParseError>)
    ensures
        (r is Err) <==> (snow_err(entries_v(o@)) is Some),
        r matches Result::Err(e) ==> Option::Some(perr_v(e)) == snow_err(entries_v(o@)),
        r matches Result::Ok(s) ==> snow_decodes(entries_v(o@), s),
{
    let granular: bool = match get_bool(o, "granular") {
        Result::Ok(b) => b,
        Result::Err(e) => { return Result::Err(e); },
    };
    let blocky: bool = match get_bool(o, "blocky") {
        Result::Ok(b) => b,
        Result::Err(e) => { return Result::Err(e); },
    };
    let fluffy: bool = match get_bool(o, "fluffy") {
        Result::Ok(b) => b,
        Result::Err(e) => { return Result::Err(e); },
    };
    let density_t: Vec<char> = match get_text(o, "density") {
        Result::Ok(t) => t,
        Result::Err(e) => { return Result::Err(e); },
    };
    Result::Ok(SnowTexture { granular, blocky, fluffy, density: decode_density(density_t) })
}

/// The wire document of a snow texture.
pub open spec fn spec_encode_snow(s: SnowTexture) -> JsonV {
    JsonV::Obj(
        seq![
            ("granular"@, JsonV::Bool(s.granular)),
            ("blocky"@, JsonV::Bool(s.blocky)),
            ("fluffy"@, JsonV::Bool(s.fluffy)),
            ("density"@, JsonV::Text(density_word(s.density))),
        ],
    )
}

/// Writes a snow texture into the wire document.
fn encode_snow(s: &SnowTexture) -> (j: JsonValue)
    ensures
        jv(j) == spec_encode_snow(*s),
{
    let mut m: Vec<(Vec<char>, JsonValue)> = Vec::new();
    m.push((str_chars("granular"), JsonValue::Bool(s.granular)));
    m.push((str_chars("blocky"), JsonValue::Bool(s.blocky)));
    m.push((str_chars("fluffy"), JsonValue::Bool(s.fluffy)));
    m.push((str_chars("density"), JsonValue::Text(density_text(&s.density))));
    proof {
        lemma_entries_v(m@);
        assert(entries_v(m@) =~= spec_encode_snow(*s)->Obj_0);
    }
    JsonValue::Obj(m)
}

/// Writing a well-formed snow texture and decoding it returns it.
proof fn lemma_snow_rt(s: SnowTexture)
    requires
        s.density matches Density::Other(p) ==> !density_canon(p@),
    ensures
        spec_encode_snow(s) matches JsonV::Obj(o) && snow_err(o) is None && snow_decodes(o, s),
{
    reveal_strlit("granular");
    reveal_strlit("blocky");
    reveal_strlit("fluffy");
    reveal_strlit("density");
    reveal_strlit("low");
    reveal_strlit("medium");
    reveal_strlit("high");
    let o = spec_encode_snow(s)->Obj_0;
    assert("granular"@.len() == 8 && "blocky"@.len() == 6 && "fluffy"@.len() == 6
        && "density"@.len() == 7);
    assert("blocky"@[0] == 'b' && "fluffy"@[0] == 'f');
    lemma_lookup_first_match(o, "granular"@, 0);
    lemma_lookup_first_match(o, "blocky"@, 1);
    lemma_lookup_first_match(o, "fluffy"@, 2);
    lemma_lookup_first_match(o, "density"@, 3);
    assert("low"@.len() == 3 && "medium"@.len() == 6 && "high"@.len() == 4);
    assert(density_decodes(density_word(s.density), s.density));
}

// ---------------------------------------------------------------------
// Movement pattern
// ---------------------------------------------------------------------

/// The failure, if any, of decoding a movement-pattern object.
pub open spec fn movement_err(o: Seq<(Seq<char>, JsonV)>) -> Option<DecodeErr> {
    first_err(
        text_field_err(o, "starting_width"@),
        first_err(
            text_field_err(o, "propagation"@),
            first_err(
                bool_field_err(o, "vertical_movement"@),
                bool_field_err(o, "lateral_spread"@),
            ),
        ),
    )
}

/// A movement-pattern object decodes to the given value.
pub open spec fn movement_decodes(o: Seq<(Seq<char>, JsonV)>, m: MovementPattern) -> bool {
    &&& (lookup(o, "starting_width"@) matches Option::Some(JsonV::Text(w)) && width_decodes(
        w,
        m.starting_width,
    ))
    &&& (lookup(o, "propagation"@) matches Option::Some(JsonV::Text(w)) && prop_decodes(
        w,
        m.propagation,
    ))
    &&& lookup(o, "vertical_movement"@) == Option::Some(JsonV::Bool(m.vertical_movement))
    &&& lookup(o, "lateral_spread"@) == Option::Some(JsonV::Bool(m.lateral_spread))
}

/// Decodes a movement-pattern object.
fn decode_movement(o: &Vec<(Vec<char>, JsonValue)>) -> (r: Result<MovementPattern, ParseError>)
    ensures
        (r is Err) <==> (movement_err(entries_v(o@)) is Some),
        r matches Result::Err(e) ==> Option::Some(perr_v(e)) == movement_err(entries_v(o@)),
        r matches Result::Ok(m) ==> movement_decodes(entries_v(o@), m),
{
    let width_t: Vec<char> = match get_text(o, "starting_width") {
        Result::Ok(t) => t,
        Result::Err(e) => { return Result::Err(e); },
    };
    let prop_t: Vec<char> = match get_text(o, "propagation") {
        Result::Ok(t) => t,
        Result::Err(e) => { return Result::Err(e); },
    };
    let vertical_movement: bool = match get_bool(o, "vertical_movement") {
        Result::Ok(b) => b,
        Result::Err(e) => { return Result::Err(e); },
    };
    let lateral_spread: bool = match get_bool(o, "lateral_spread") {
        Result::Ok(b) => b,
        Result::Err(e) => { return Result::Err(e); },
    };
    Result::Ok(
        MovementPattern {
            starting_width: decode_width(width_t),
            propagation: decode_prop(prop_t),
            vertical_movement,
            lateral_spread,
        },
    )
}

/// The wire document of a movement pattern.
pub open spec fn spec_encode_movement(m: MovementPattern) -> JsonV {
    JsonV::Obj(
        seq![
            ("starting_width"@, JsonV::Text(width_word(m.starting_width))),
            ("propagation"@, JsonV::Text(prop_word(m.propagation))),
            ("vertical_movement"@, JsonV::Bool(m.vertical_movement)),
            ("lateral_spread"@, JsonV::Bool(m.lateral_spread)),
        ],
    )
}

/// Writes a movement pattern into the wire document.
fn encode_movement(m: &MovementPattern) -> (j: JsonValue)
    ensures
        jv(j) == spec_encode_movement(*m),
{
    let mut v: Vec<(Vec<char>, JsonValue)> = Vec::new();
    v.push((str_chars("starting_width"), JsonValue::Text(width_text(&m.starting_width))));
    v.push((str_chars("propagation"), JsonValue::Text(prop_text(&m.propagation))));
    v.push((str_chars("vertical_movement"), JsonValue::Bool(m.vertical_movement)));
    v.push((str_chars("lateral_spread"), JsonValue::Bool(m.lateral_spread)));
    proof {
        lemma_entries_v(v@);
        assert(entries_v(v@) =~= spec_encode_movement(*m)->Obj_0);
    }
    JsonValue::Obj(v)
}

/// Writing a well-formed movement pattern and decoding it returns it.
proof fn lemma_movement_rt(m: MovementPattern)
    requires
        m.starting_width matches StartingWidth::Other(p) ==> !width_canon(p@),
        m.propagation matches Propagation::Other(p) ==> !prop_canon(p@),
    ensures
        spec_encode_movement(m) matches JsonV::Obj(o) && movement_err(o) is None
            && movement_decodes(o, m),
{
    reveal_strlit("starting_width");
    reveal_strlit("propagation");
    reveal_strlit("vertical_movement");
    reveal_strlit("lateral_spread");
    reveal_strlit("point");
    reveal_strlit("wide");
    reveal_strlit("undefined");
    reveal_strlit("fan");
    reveal_strlit("linear");
    reveal_strlit("chaotic");
    reveal_strlit("none");
    let o = spec_encode_movement(m)->Obj_0;
    assert("starting_width"@.len() == 14 && "propagation"@.len() == 11
        && "vertical_movement"@.len() == 17 && "lateral_spread"@.len() == 14);
    assert("starting_width"@[0] == 's' && "lateral_spread"@[0] == 'l');
    lemma_lookup_first_match(o, "starting_width"@, 0);
    lemma_lookup_first_match(o, "propagation"@, 1);
    lemma_lookup_first_match(o, "vertical_movement"@, 2);
    lemma_lookup_first_match(o, "lateral_spread"@, 3);
    assert("point"@.len() == 5 && "wide"@.len() == 4 && "undefined"@.len() == 9);
    assert("fan"@.len() == 3 && "linear"@.len() == 6 && "chaotic"@.len() == 7 && "none"@.len()
        == 4);
    assert(width_decodes(width_word(m.starting_width), m.starting_width));
    assert(prop_decodes(prop_word(m.propagation), m.propagation));
}

// ---------------------------------------------------------------------
// Terrain
// ---------------------------------------------------------------------

/// The failure, if any, of decoding a terrain object.
pub open spec fn terrain_err(o: Seq<(Seq<char>, JsonV)>) -> Option<DecodeErr> {
    first_err(
        opt_text_field_err(o, "slope_angle"@),
        first_err(
            text_field_err(o, "surface_roughness"@),
            first_err(
                bool_field_err(o, "anchoring_points"@),
                bool_field_err(o, "convex_rollover"@),
            ),
        ),
    )
}

/// A terrain object decodes to the given value.
pub open spec fn terrain_decodes(o: Seq<(Seq<char>, JsonV)>, t: TerrainShape) -> bool {
    &&& (lookup(o, "slope_angle"@) matches Option::Some(v) && opt_text_decodes(
        v,
        t.slope_angle,
    ))
    &&& (lookup(o, "surface_roughness"@) matches Option::Some(JsonV::Text(w))
        && surface_decodes(w, t.surface_roughness))
    &&& lookup(o, "anchoring_points"@) == Option::Some(JsonV::Bool(t.anchoring_points))
    &&& lookup(o, "convex_rollover"@) == Option::Some(JsonV::Bool(t.convex_rollover))
}

/// Decodes a terrain object.
fn decode_terrain(o: &Vec<(Vec<char>, JsonValue)>) -> (r: Result<TerrainShape, ParseError>)
    ensures
        (r is Err) <==> (terrain_err(entries_v(o@)) is Some),
        r matches Result::Err(e) ==> Option::Some(perr_v(e)) == terrain_err(entries_v(o@)),
        r matches Result::Ok(t) ==> terrain_decodes(entries_v(o@), t),
{
    let slope_angle: Option<Vec<char>> = match get_opt_text(o, "slope_angle") {
        Result::Ok(t) => t,
        Result::Err(e) => { return Result::Err(e); },
    };
    let surface_t: Vec<char> = match get_text(o, "surface_roughness") {
        Result::Ok(t) => t,
        Result::Err(e) => { return Result::Err(e); },
    };
    let anchoring_points: bool = match get_bool(o, "anchoring_points") {
        Result::Ok(b) => b,
        Result::Err(e) => { return Result::Err(e); },
    };
    let convex_rollover: bool = match get_bool(o, "convex_rollover") {
        Result::Ok(b) => b,
        Result::Err(e) => { return Result::Err(e); },
    };
    Result::Ok(
        TerrainShape {
            slope_angle,
            surface_roughness: decode_surface(surface_t),
            anchoring_points,
            convex_rollover,
        },
    )
}

/// The wire document of a terrain description.
pub open spec fn spec_encode_terrain(t: TerrainShape) -> JsonV {
    JsonV::Obj(
        seq![
            ("slope_angle"@, opt_text_v(t.slope_angle)),
            ("surface_roughness"@, JsonV::Text(surface_word(t.surface_roughness))),
            ("anchoring_points"@, JsonV::Bool(t.anchoring_points)),
            ("convex_rollover"@, JsonV::Bool(t.convex_rollover)),
        ],
    )
}

/// Writes a terrain description into the wire document.
fn encode_terrain(t: &TerrainShape) -> (j: JsonValue)
    ensures
        jv(j) == spec_encode_terrain(*t),
{
    let mut v: Vec<(Vec<char>, JsonValue)> = Vec::new();
    v.push((str_chars("slope_angle"), opt_text_value(&t.slope_angle)));
    v.push((str_chars("surface_roughness"), JsonValue::Text(surface_text(&t.surface_roughness))));
    v.push((str_chars("anchoring_points"), JsonValue::Bool(t.anchoring_points)));
    v.push((str_chars("convex_rollover"), JsonValue::Bool(t.convex_rollover)));
    proof {
        lemma_entries_v(v@);
        assert(entries_v(v@) =~= spec_encode_terrain(*t)->Obj_0);
    }
    JsonValue::Obj(v)
}

/// Writing a well-formed terrain description and decoding it returns it.
proof fn lemma_terrain_rt(t: TerrainShape)
    requires
        t.surface_roughness matches SurfaceRoughness::Other(p) ==> !surface_canon(p@),
    ensures
        spec_encode_terrain(t) matches JsonV::Obj(o) && terrain_err(o) is None
            && terrain_decodes(o, t),
{
    reveal_strlit("slope_angle");
    reveal_strlit("surface_roughness");
    reveal_strlit("anchoring_points");
    reveal_strlit("convex_rollover");
    reveal_strlit("smooth");
    reveal_strlit("rough");
    reveal_strlit("variable");
    let o = spec_encode_terrain(t)->Obj_0;
    assert("slope_angle"@.len() == 11 && "surface_roughness"@.len() == 17
        && "anchoring_points"@.len() == 16 && "convex_rollover"@.len() == 15);
    lemma_lookup_first_match(o, "slope_angle"@, 0);
    lemma_lookup_first_match(o, "surface_roughness"@, 1);
    lemma_lookup_first_match(o, "anchoring_points"@, 2);
    lemma_lookup_first_match(o, "convex_rollover"@, 3);
    assert("smooth"@.len() == 6 && "rough"@.len() == 5 && "variable"@.len() == 8);
    assert(surface_decodes(surface_word(t.surface_roughness), t.surface_roughness));
    assert(opt_text_decodes(opt_text_v(t.slope_angle), t.slope_angle));
}

// ---------------------------------------------------------------------
// Visual characteristics
// ---------------------------------------------------------------------

/// The failure, if any, of decoding a nested object member.
pub open spec fn sub_obj_err(
    o: Seq<(Seq<char>, JsonV)>,
    key: Seq<char>,
    inner: Option<DecodeErr>,
) -> Option<DecodeErr> {
    match lookup(o, key) {
        Option::None => Option::Some(DecodeErr::Missing(key)),
        Option::Some(JsonV::Obj(_)) => inner,
        Option::Some(_) => Option::Some(DecodeErr::Malformed),
    }
}

/// The member list of a nested object member, when it is one.
pub open spec fn sub_obj(o: Seq<(Seq<char>, JsonV)>, key: Seq<char>) -> Seq<(Seq<char>, JsonV)> {
    match lookup(o, key) {
        Option::Some(JsonV::Obj(m)) => m,
        _ => Seq::empty(),
    }
}

/// The failure, if any, of decoding a visual-characteristics object.
pub open spec fn visual_err(o: Seq<(Seq<char>, JsonV)>) -> Option<DecodeErr> {
    first_err(
        bool_field_err(o, "powder_cloud"@),
        first_err(
            bool_field_err(o, "fracture_line"@),
            first_err(
                opt_text_field_err(o, "fracture_depth"@),
                first_err(
                    bool_field_err(o, "point_release"@),
                    first_err(
                        text_field_err(o, "debris_pattern"@),
                        first_err(
                            sub_obj_err(o, "snow_texture"@, snow_err(sub_obj(o, "snow_texture"@))),
                            first_err(
                                sub_obj_err(
                                    o,
                                    "movement_pattern"@,
                                    movement_err(sub_obj(o, "movement_pattern"@)),
                                ),
                                sub_obj_err(o, "terrain"@, terrain_err(sub_obj(o, "terrain"@))),
                            ),
                        ),
                    ),
                ),
            ),
        ),
    )
}

/// A visual-characteristics object decodes to the given value.
pub open spec fn visual_decodes(o: Seq<(Seq<char>, JsonV)>, c: VisualCharacteristics) -> bool {
    &&& lookup(o, "powder_cloud"@) == Option::Some(JsonV::Bool(c.powder_cloud))
    &&& lookup(o, "fracture_line"@) == Option::Some(JsonV::Bool(c.fracture_line))
    &&& (lookup(o, "fracture_depth"@) matches Option::Some(v) && opt_text_decodes(
        v,
        c.fracture_depth,
    ))
    &&& lookup(o, "point_release"@) == Option::Some(JsonV::Bool(c.point_release))
    &&& (lookup(o, "debris_pattern"@) matches Option::Some(JsonV::Text(w)) && debris_decodes(
        w,
        c.debris_pattern,
    ))
    &&& (lookup(o, "snow_texture"@) matches Option::Some(JsonV::Obj(m)) && snow_decodes(
        m,
        c.snow_texture,
    ))
    &&& (lookup(o, "movement_pattern"@) matches Option::Some(JsonV::Obj(m)) && movement_decodes(
        m,
        c.movement_pattern,
    ))
    &&& (lookup(o, "terrain"@) matches Option::Some(JsonV::Obj(m)) && terrain_decodes(
        m,
        c.terrain,
    ))
}

/// Decodes a visual-characteristics object.
fn decode_visual(o: &Vec<(Vec<char>, JsonValue)>) -> (r: Result<
    VisualCharacteristics,
    ParseError,
>)
    ensures
        (r is Err) <==> (visual_err(entries_v(o@)) is Some),
        r matches Result::Err(e) ==> Option::Some(perr_v(e)) == visual_err(entries_v(o@)),
        r matches Result::Ok(c) ==> visual_decodes(entries_v(o@), c),
{
    let powder_cloud: bool = match get_bool(o, "powder_cloud") {
        Result::Ok(b) => b,
        Result::Err(e) => { return Result::Err(e); },
    };
    let fracture_line: bool = match get_bool(o, "fracture_line") {
        Result::Ok(b) => b,
        Result::Err(e) => { return Result::Err(e); },
    };
    let fracture_depth: Option<Vec<char>> = match get_opt_text(o, "fracture_depth") {
        Result::Ok(t) => t,
        Result::Err(e) => { return Result::Err(e); },
    };
    let point_release: bool = match get_bool(o, "point_release") {
        Result::Ok(b) => b,
        Result::Err(e) => { return Result::Err(e); },
    };
    let debris_t: Vec<char> = match get_text(o, "debris_pattern") {
        Result::Ok(t) => t,
        Result::Err(e) => { return Result::Err(e); },
    };
    let snow_texture: SnowTexture = match get_obj(o, "snow_texture") {
        Result::Ok(m) => match decode_snow(m) {
            Result::Ok(s) => s,
            Result::Err(e) => { return Result::Err(e); },
        },
        Result::Err(e) => { return Result::Err(e); },
    };
    let movement_pattern: MovementPattern = match get_obj(o, "movement_pattern") {
        Result::Ok(m) => match decode_movement(m) {
            Result::Ok(s) => s,
            Result::Err(e) => { return Result::Err(e); },
        },
        Result::Err(e) => { return Result::Err(e); },
    };
    let terrain: TerrainShape = match get_obj(o, "terrain") {
        Result::Ok(m) => match decode_terrain(m) {
            Result::Ok(s) => s,
            Result::Err(e) => { return Result::Err(e); },
        },
        Result::Err(e) => { return Result::Err(e); },
    };
    Result::Ok(
        VisualCharacteristics {
            powder_cloud,
            fracture_line,
            fracture_depth,
            point_release,
            debris_pattern: decode_debris(debris_t),
            snow_texture,
            movement_pattern,
            terrain,
        },
    )
}

/// The wire document of a visual-characteristics description.
pub open spec fn spec_encode_visual(c: VisualCharacteristics) -> JsonV {
    JsonV::Obj(
        seq![
            ("powder_cloud"@, JsonV::Bool(c.powder_cloud)),
            ("fracture_line"@, JsonV::Bool(c.fracture_line)),
            ("fracture_depth"@, opt_text_v(c.fracture_depth)),
            ("point_release"@, JsonV::Bool(c.point_release)),
            ("debris_pattern"@, JsonV::Text(debris_word(c.debris_pattern))),
            ("snow_texture"@, spec_encode_snow(c.snow_texture)),
            ("movement_pattern"@, spec_encode_movement(c.movement_pattern)),
            ("terrain"@, spec_encode_terrain(c.terrain)),
        ],
    )
}

/// Writes a visual-characteristics description into the wire document.
fn encode_visual(c: &VisualCharacteristics) -> (j: JsonValue)
    ensures
        jv(j) == spec_encode_visual(*c),
{
    let mut v: Vec<(Vec<char>, JsonValue)> = Vec::new();
    v.push((str_chars("powder_cloud"), JsonValue::Bool(c.powder_cloud)));
    v.push((str_chars("fracture_line"), JsonValue::Bool(c.fracture_line)));
    v.push((str_chars("fracture_depth"), opt_text_value(&c.fracture_depth)));
    v.push((str_chars("point_release"), JsonValue::Bool(c.point_release)));
    v.push((str_chars("debris_pattern"), JsonValue::Text(debris_text(&c.debris_pattern))));
    v.push((str_chars("snow_texture"), encode_snow(&c.snow_texture)));
    v.push((str_chars("movement_pattern"), encode_movement(&c.movement_pattern)));
    v.push((str_chars("terrain"), encode_terrain(&c.terrain)));
    proof {
        lemma_entries_v(v@);
        assert(entries_v(v@) =~= spec_encode_visual(*c)->Obj_0);
    }
    JsonValue::Obj(v)
}

/// Writing well-formed visual characteristics and decoding them returns
/// them.
proof fn lemma_visual_rt(c: VisualCharacteristics)
    requires
        wf_characteristics(c),
    ensures
        spec_encode_visual(c) matches JsonV::Obj(o) && visual_err(o) is None && visual_decodes(
            o,
            c,
        ),
{
    reveal_strlit("powder_cloud");
    reveal_strlit("fracture_line");
    reveal_strlit("fracture_depth");
    reveal_strlit("point_release");
    reveal_strlit("debris_pattern");
    reveal_strlit("snow_texture");
    reveal_strlit("movement_pattern");
    reveal_strlit("terrain");
    reveal_strlit("fan-shaped");
    reveal_strlit("linear");
    reveal_strlit("scattered");
    reveal_strlit("none");
    let o = spec_encode_visual(c)->Obj_0;
    assert("powder_cloud"@.len() == 12 && "fracture_line"@.len() == 13
        && "fracture_depth"@.len() == 14 && "point_release"@.len() == 13
        && "debris_pattern"@.len() == 14 && "snow_texture"@.len() == 12
        && "movement_pattern"@.len() == 16 && "terrain"@.len() == 7);
    assert("powder_cloud"@[0] == 'p' && "snow_texture"@[0] == 's');
    assert("fracture_line"@[0] == 'f' && "point_release"@[0] == 'p');
    assert("fracture_depth"@[0] == 'f' && "debris_pattern"@[0] == 'd');
    lemma_lookup_first_match(o, "powder_cloud"@, 0);
    lemma_lookup_first_match(o, "fracture_line"@, 1);
    lemma_lookup_first_match(o, "fracture_depth"@, 2);
    lemma_lookup_first_match(o, "point_release"@, 3);
    lemma_lookup_first_match(o, "debris_pattern"@, 4);
    lemma_lookup_first_match(o, "snow_texture"@, 5);
    lemma_lookup_first_match(o, "movement_pattern"@, 6);
    lemma_lookup_first_match(o, "terrain"@, 7);
    assert("fan-shaped"@.len() == 10 && "linear"@.len() == 6 && "scattered"@.len() == 9
        && "none"@.len() == 4);
    assert(debris_decodes(debris_word(c.debris_pattern), c.debris_pattern));
    assert(opt_text_decodes(opt_text_v(c.fracture_depth), c.fracture_depth));
    lemma_snow_rt(c.snow_texture);
    lemma_movement_rt(c.movement_pattern);
    lemma_terrain_rt(c.terrain);
}

// ---------------------------------------------------------------------
// The root document
// ---------------------------------------------------------------------

/// The failure, if any, of decoding a root member list.
pub open spec fn result_err(o: Seq<(Seq<char>, JsonV)>) -> Option<DecodeErr> {
    first_err(
        bool_field_err(o, "avalanche_present"@),
        first_err(
            text_field_err(o, "avalanche_type"@),
            first_err(
                num_field_err(o, "confidence_level"@),
                first_err(
                    texts_field_err(o, "terrain_features"@),
                    sub_obj_err(
                        o,
                        "visual_characteristics"@,
                        visual_err(sub_obj(o, "visual_characteristics"@)),
                    ),
                ),
            ),
        ),
    )
}

/// A root member list decodes to the given classification.
pub open spec fn result_decodes(o: Seq<(Seq<char>, JsonV)>, r: ClassificationResult) -> bool {
    &&& lookup(o, "avalanche_present"@) == Option::Some(JsonV::Bool(r.present))
    &&& (lookup(o, "avalanche_type"@) matches Option::Some(JsonV::Text(w)) && cat_decodes(
        w,
        r.category,
    ))
    &&& lookup(o, "confidence_level"@) == Option::Some(JsonV::Num(r.confidence_centi as int))
    &&& (lookup(o, "terrain_features"@) matches Option::Some(JsonV::Arr(a)) && texts_of(a)
        == Option::Some(texts_v(r.observations@)))
    &&& (lookup(o, "visual_characteristics"@) matches Option::Some(JsonV::Obj(m))
        && visual_decodes(m, r.characteristics))
}

/// The failure, if any, of decoding a whole wire document.
pub open spec fn spec_decode_err(d: JsonV) -> Option<DecodeErr> {
    match d {
        JsonV::Obj(o) => result_err(o),
        _ => Option::Some(DecodeErr::Malformed),
    }
}

/// A wire document decodes to the given classification.
pub open spec fn decodes_to(d: JsonV, r: ClassificationResult) -> bool {
    d matches JsonV::Obj(o) && result_decodes(o, r)
}

/// Decodes a wire document into a classification: the response parser.
/// The payload must be an object carrying every required field with the
/// right kind of value; unknown members are ignored, and a word outside
/// a closed vocabulary is preserved rather than refused.
pub fn decode_result(j: &JsonValue) -> (r: Result<ClassificationResult, ParseError>)
    ensures
        (r is Err) <==> (spec_decode_err(jv(*j)) is Some),
        r matches Result::Err(e) ==> Option::Some(perr_v(e)) == spec_decode_err(jv(*j)),
        r matches Result::Ok(res) ==> decodes_to(jv(*j), res),
{
    let o: &Vec<(Vec<char>, JsonValue)> = match j {
        JsonValue::Obj(o) => o,
        _ => { return Result::Err(ParseError::MalformedPayload); },
    };
    let present: bool = match get_bool(o, "avalanche_present") {
        Result::Ok(b) => b,
        Result::Err(e) => { return Result::Err(e); },
    };
    let cat_t: Vec<char> = match get_text(o, "avalanche_type") {
        Result::Ok(t) => t,
        Result::Err(e) => { return Result::Err(e); },
    };
    let confidence_centi: i64 = match get_num(o, "confidence_level") {
        Result::Ok(n) => n,
        Result::Err(e) => { return Result::Err(e); },
    };
    let observations: Vec<Vec<char>> = match get_texts(o, "terrain_features") {
        Result::Ok(ts) => ts,
        Result::Err(e) => { return Result::Err(e); },
    };
    let characteristics: VisualCharacteristics = match get_obj(o, "visual_characteristics") {
        Result::Ok(m) => match decode_visual(m) {
            Result::Ok(c) => c,
            Result::Err(e) => { return Result::Err(e); },
        },
        Result::Err(e) => { return Result::Err(e); },
    };
    Result::Ok(
        ClassificationResult {
            present,
            category: decode_category(cat_t),
            confidence_centi,
            observations,
            characteristics,
        },
    )
}

/// The wire document of a classification.
pub open spec fn spec_encode_result(r: ClassificationResult) -> JsonV {
    JsonV::Obj(
        seq![
            ("avalanche_present"@, JsonV::Bool(r.present)),
            ("avalanche_type"@, JsonV::Text(category_word(r.category))),
            ("confidence_level"@, JsonV::Num(r.confidence_centi as int)),
            ("terrain_features"@, JsonV::Arr(texts_enc(texts_v(r.observations@)))),
            ("visual_characteristics"@, spec_encode_visual(r.characteristics)),
        ],
    )
}

/// Writes a classification into the wire document.
pub fn encode_result(r: &ClassificationResult) -> (j: JsonValue)
    ensures
        jv(j) == spec_encode_result(*r),
{
    let mut obs: Vec<JsonValue> = Vec::new();
    let mut i: usize = 0;
    while i < r.observations.len()
        invariant
            0 <= i <= r.observations@.len(),
            obs@.len() == i,
            forall|k: int| 0 <= k < i ==> ((#[trigger] obs@[k]) matches JsonValue::Text(t)
                && t@ == r.observations@[k]@),
        decreases r.observations@.len() - i,
    {
        obs.push(JsonValue::Text(clone_chars(&r.observations[i])));
        i = i + 1;
    }
    proof {
        lemma_jv_seq(obs@);
        assert(jv_seq(obs@) =~= texts_enc(texts_v(r.observations@)));
    }
    let mut v: Vec<(Vec<char>, JsonValue)> = Vec::new();
    v.push((str_chars("avalanche_present"), JsonValue::Bool(r.present)));
    v.push((str_chars("avalanche_type"), JsonValue::Text(category_text(&r.category))));
    v.push((str_chars("confidence_level"), JsonValue::Num(r.confidence_centi)));
    v.push((str_chars("terrain_features"), JsonValue::Arr(obs)));
    v.push((str_chars("visual_characteristics"), encode_visual(&r.characteristics)));
    proof {
        lemma_entries_v(v@);
        assert(entries_v(v@) =~= spec_encode_result(*r)->Obj_0);
    }
    JsonValue::Obj(v)
}

/// Round trip: writing a classification that satisfies the domain
/// constraints into the wire document and decoding that document yields
/// it back unchanged — the decode succeeds and relates the document to
/// exactly the written value, field for field.
pub proof fn lemma_wire_round_trip(r: ClassificationResult)
    requires
        wf_result(r),
    ensures
        spec_decode_err(spec_encode_result(r)) is None,
        decodes_to(spec_encode_result(r), r),
{
    reveal_strlit("avalanche_present");
    reveal_strlit("avalanche_type");
    reveal_strlit("confidence_level");
    reveal_strlit("terrain_features");
    reveal_strlit("visual_characteristics");
    reveal_strlit("powder");
    reveal_strlit("loose-snow");
    reveal_strlit("slab");
    reveal_strlit("none");
    let o = spec_encode_result(r)->Obj_0;
    assert("avalanche_present"@.len() == 17 && "avalanche_type"@.len() == 14
        && "confidence_level"@.len() == 16 && "terrain_features"@.len() == 16
        && "visual_characteristics"@.len() == 22);
    assert("confidence_level"@[0] == 'c' && "terrain_features"@[0] == 't');
    lemma_lookup_first_match(o, "avalanche_present"@, 0);
    lemma_lookup_first_match(o, "avalanche_type"@, 1);
    lemma_lookup_first_match(o, "confidence_level"@, 2);
    lemma_lookup_first_match(o, "terrain_features"@, 3);
    lemma_lookup_first_match(o, "visual_characteristics"@, 4);
    assert("powder"@.len() == 6 && "loose-snow"@.len() == 10 && "slab"@.len() == 4
        && "none"@.len() == 4);
    assert("slab"@[0] == 's' && "none"@[0] == 'n');
    assert(cat_decodes(category_word(r.category), r.category));
    lemma_texts_round_trip(texts_v(r.observations@));
    lemma_visual_rt(r.characteristics);
}

/// A wire document relates to at most one classification: two values
/// decoded from the same document agree field for field, so they write
/// back into the same document.
pub proof fn lemma_decode_unique(d: JsonV, a: ClassificationResult, b: ClassificationResult)
    requires
        decodes_to(d, a),
        decodes_to(d, b),
    ensures
        spec_encode_result(a) == spec_encode_result(b),
{
    assert(category_word(a.category) == category_word(b.category));
    assert(texts_v(a.observations@) == texts_v(b.observations@));
    let ca = a.characteristics;
    let cb = b.characteristics;
    assert(density_word(ca.snow_texture.density) == density_word(cb.snow_texture.density));
    assert(width_word(ca.movement_pattern.starting_width) == width_word(
        cb.movement_pattern.starting_width,
    ));
    assert(prop_word(ca.movement_pattern.propagation) == prop_word(
        cb.movement_pattern.propagation,
    ));
    assert(debris_word(ca.debris_pattern) == debris_word(cb.debris_pattern));
    assert(surface_word(ca.terrain.surface_roughness) == surface_word(
        cb.terrain.surface_roughness,
    ));
    assert(opt_text_v(ca.fracture_depth) == opt_text_v(cb.fracture_depth));
    assert(opt_text_v(ca.terrain.slope_angle) == opt_text_v(cb.terrain.slope_angle));
    assert(spec_encode_snow(ca.snow_texture)->Obj_0 =~= spec_encode_snow(
        cb.snow_texture,
    )->Obj_0);
    assert(spec_encode_movement(ca.movement_pattern)->Obj_0 =~= spec_encode_movement(
        cb.movement_pattern,
    )->Obj_0);
    assert(spec_encode_terrain(ca.terrain)->Obj_0 =~= spec_encode_terrain(cb.terrain)->Obj_0);
    assert(spec_encode_visual(ca)->Obj_0 =~= spec_encode_visual(cb)->Obj_0);
    assert(spec_encode_result(a)->Obj_0 =~= spec_encode_result(b)->Obj_0);
}

} // verus!
