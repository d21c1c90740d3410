//! The record decoder: raw stored values, the document tree they decode to,
//! and the decoder's error vocabulary.
//!
//! A stored value is a tagged union at the storage layer; only the
//! structured-text (JSON) variant is meaningful here.  Parsing the text is
//! delegated to `serde_json`; everything after the parse — mapping the tree
//! onto record shapes, reading numbers, looking up fields — is verified.

use vstd::prelude::*;
use vstd::string::StrSliceExecFns;

verus! {

/// A parsed structured-text document.
///
/// Numbers keep their canonical token text instead of a machine value: the
/// update log carries arbitrary trees whose numbers are never interpreted,
/// while the record shapes that do interpret a number (schema versions,
/// timestamps) parse the token with [`parse_u64_digits`].
#[derive(Debug, PartialEq)]
pub enum JsonValue {
    Null,
    Bool(bool),
    Num(String),
    Str(String),
    Arr(Vec<JsonValue>),
    Obj(Vec<(String, JsonValue)>),
}

/// A stored value as the decoder sees it: either structured text or one of
/// the storage layer's other encodings, which this tool does not support.
#[derive(Debug, PartialEq)]
pub enum RawValue {
    Json(String),
    Other,
}

/// The fields the record shapes know; lookups and diagnostics both speak of
/// a field through this one description.
#[derive(Debug, Clone, Copy, PartialEq, Eq, Structural)]
pub enum Field {
    Slug,
    Status,
    Reason,
    Branch,
    ExperimentEndedAt,
    IsRollout,
    IsEnrollmentPaused,
    FeatureIds,
}

/// How a decoded document failed to fit the expected record shape.
#[derive(Debug, Clone, Copy, PartialEq, Eq, Structural)]
pub enum Mismatch {
    /// The text is not a well-formed document.
    InvalidJson,
    /// The shape expects an object.
    NotAnObject,
    /// A required field is absent.
    MissingField(Field),
    /// A field is present but holds the wrong kind of value.
    WrongFieldType(Field),
    /// A status value is not a single-key tagged object.
    NotAVariant,
    /// A status tag lies outside the closed set of five.
    UnknownVariantTag,
}

/// A failure to decode one stored record.
#[derive(Debug, Clone, Copy, PartialEq, Eq, Structural)]
pub enum DecodeError {
    /// The stored value is not in the structured-text encoding.
    UnsupportedValueEncoding,
    /// The decoded structure does not match the expected shape.
    SchemaMismatch(Mismatch),
    /// A key that must be text is not valid text (update log only).
    KeyNotText,
}

impl Field {
    /// The field's key in the stored document.
    pub open spec fn spec_json_key(self) -> Seq<char> {
        match self {
            Field::Slug => "slug"@,
            Field::Status => "status"@,
            Field::Reason => "reason"@,
            Field::Branch => "branch"@,
            Field::ExperimentEndedAt => "experiment_ended_at"@,
            Field::IsRollout => "isRollout"@,
            Field::IsEnrollmentPaused => "isEnrollmentPaused"@,
            Field::FeatureIds => "featureIds"@,
        }
    }

    pub fn json_key(self) -> (r: &'static str)
        ensures
            r@ == self.spec_json_key(),
    {
        match self {
            Field::Slug => "slug",
            Field::Status => "status",
            Field::Reason => "reason",
            Field::Branch => "branch",
            Field::ExperimentEndedAt => "experiment_ended_at",
            Field::IsRollout => "isRollout",
            Field::IsEnrollmentPaused => "isEnrollmentPaused",
            Field::FeatureIds => "featureIds",
        }
    }
}

#[verifier::external_type_specification]
#[verifier::external_body]
pub struct ExSerdeValue(serde_json::Value);

/// The document tree that a given text parses to, if it parses at all.
/// The parse is a function of the text alone.
pub uninterp spec fn json_parse(s: Seq<char>) -> Option<JsonValue>;

/// Relies on `serde_json::from_str::<serde_json::Value>`: parses a text as a
/// JSON document; the result depends on the text alone.
#[verifier::external_body]
fn parse_json(s: &str) -> (r: Option<JsonValue>)
    ensures
        r == json_parse(s@),
{
    serde_json::from_str::<serde_json::Value>(s).ok().map(json_from_serde)
}

/// Relies on the shape of `serde_json::Value`: carries each variant of the
/// parsed document over to [`JsonValue`], arrays and objects element by
/// element, numbers as their canonical token text.
#[verifier::external_body]
fn json_from_serde(v: serde_json::Value) -> JsonValue {
    match v {
        serde_json::Value::Null => JsonValue::Null,
        serde_json::Value::Bool(b) => JsonValue::Bool(b),
        serde_json::Value::Number(n) => JsonValue::Num(n.to_string()),
        serde_json::Value::String(s) => JsonValue::Str(s),
        serde_json::Value::Array(a) => JsonValue::Arr(
            a.into_iter().map(json_from_serde).collect(),
        ),
        serde_json::Value::Object(m) => JsonValue::Obj(
            m.into_iter().map(|(k, w)| (k, json_from_serde(w))).collect(),
        ),
    }
}

/// Decoding a raw stored value into a document tree: only structured text is
/// supported, and the text must parse.
pub open spec fn spec_json_of_raw(v: RawValue) -> Result<JsonValue, DecodeError> {
    match v {
        RawValue::Json(s) => match json_parse(s@) {
            Some(j) => Ok(j),
            None => Err(DecodeError::SchemaMismatch(Mismatch::InvalidJson)),
        },
        RawValue::Other => Err(DecodeError::UnsupportedValueEncoding),
    }
}

pub fn json_of_raw(v: &RawValue) -> (r: Result<JsonValue, DecodeError>)
    ensures
        r == spec_json_of_raw(*v),
{
    match v {
        RawValue::Json(s) => match parse_json(s.as_str()) {
            Some(j) => Ok(j),
            None => Err(DecodeError::SchemaMismatch(Mismatch::InvalidJson)),
        },
        RawValue::Other => Err(DecodeError::UnsupportedValueEncoding),
    }
}

/// First entry of an object whose key is `key`, searching front to back.
pub open spec fn spec_obj_get(entries: Seq<(String, JsonValue)>, key: Seq<char>) -> Option<
    JsonValue,
>
    decreases entries.len(),
{
    if entries.len() == 0 {
        None
    } else if entries.first().0@ == key {
        Some(entries.first().1)
    } else {
        spec_obj_get(entries.drop_first(), key)
    }
}

pub fn obj_get<'a>(entries: &'a Vec<(String, JsonValue)>, key: &String) -> (r: Option<
    &'a JsonValue,
>)
    ensures
        match r {
            Some(v) => spec_obj_get(entries@, key@) == Some(*v),
            None => spec_obj_get(entries@, key@) is None,
        },
{
    let n = entries.len();
    let mut i: usize = 0;
    proof {
        assert(entries@.skip(0) =~= entries@);
    }
    while i < n
        invariant
            0 <= i <= n,
            n == entries@.len(),
            spec_obj_get(entries@, key@) == spec_obj_get(entries@.skip(i as int), key@),
        decreases n - i,
    {
        let e = &entries[i];
        proof {
            assert(entries@.skip(i as int).first() == entries@[i as int]);
        }
        if e.0 == *key {
            return Some(&e.1);
        }
        proof {
            assert(entries@.skip(i as int).drop_first() =~= entries@.skip(i as int + 1));
        }
        i = i + 1;
    }
    proof {
        assert(entries@.skip(n as int).len() == 0);
    }
    None
}

pub open spec fn is_decimal_digit(c: char) -> bool {
    48 <= c as int && c as int <= 57
}

pub open spec fn digit_val(c: char) -> nat {
    (c as int - 48) as nat
}

/// The value of a digit string, most significant digit first.
pub open spec fn dec_val(s: Seq<char>) -> nat
    decreases s.len(),
{
    if s.len() == 0 {
        0
    } else {
        dec_val(s.drop_last()) * 10 + digit_val(s.last())
    }
}

/// A number token decodes to a `u64` exactly when it is a non-empty string
/// of decimal digits whose value fits.
pub open spec fn spec_parse_u64(s: Seq<char>) -> Option<u64> {
    if s.len() > 0 && (forall|i: int| 0 <= i < s.len() ==> is_decimal_digit(#[trigger] s[i]))
        && dec_val(s) <= u64::MAX {
        Some(dec_val(s) as u64)
    } else {
        None
    }
}

pub open spec fn spec_parse_u16(s: Seq<char>) -> Option<u16> {
    if s.len() > 0 && (forall|i: int| 0 <= i < s.len() ==> is_decimal_digit(#[trigger] s[i]))
        && dec_val(s) <= u16::MAX {
        Some(dec_val(s) as u16)
    } else {
        None
    }
}

proof fn lemma_dec_val_take_step(s: Seq<char>, i: int)
    requires
        0 <= i < s.len(),
    ensures
        dec_val(s.take(i + 1)) == dec_val(s.take(i)) * 10 + digit_val(s[i]),
{
    assert(s.take(i + 1).drop_last() =~= s.take(i));
    assert(s.take(i + 1).last() == s[i]);
}

/// A digit string is worth at least any of its prefixes.
proof fn lemma_dec_val_prefix(s: Seq<char>, i: int)
    requires
        0 <= i <= s.len(),
    ensures
        dec_val(s.take(i)) <= dec_val(s),
    decreases s.len() - i,
{
    if i < s.len() {
        lemma_dec_val_take_step(s, i);
        lemma_dec_val_prefix(s, i + 1);
    } else {
        assert(s.take(i) =~= s);
    }
}

pub fn parse_u64_digits(s: &str) -> (r: Option<u64>)
    ensures
        r == spec_parse_u64(s@),
{
    let n = s.unicode_len();
    if n == 0 {
        return None;
    }
    let mut acc: u64 = 0;
    let mut i: usize = 0;
    while i < n
        invariant
            0 <= i <= n,
            n == s@.len(),
            forall|j: int| 0 <= j < i ==> is_decimal_digit(#[trigger] s@[j]),
            acc == dec_val(s@.take(i as int)),
        decreases n - i,
    {
        let c = s.get_char(i);
        let u: u32 = c as u32;
        if u < 48 || u > 57 {
            proof {
                assert(!is_decimal_digit(s@[i as int]));
            }
            return None;
        }
        let d: u64 = (u - 48) as u64;
        proof {
            lemma_dec_val_take_step(s@, i as int);
        }
        // u64::MAX / 10: one more digit fits only below it, or at it with a
        // final digit of at most u64::MAX % 10.
        let limit: u64 = 1844674407370955161;
        if acc > limit || (acc == limit && d > 5) {
            proof {
                assert(dec_val(s@.take(i as int + 1)) > u64::MAX);
                lemma_dec_val_prefix(s@, i as int + 1);
            }
            return None;
        }
        acc = acc * 10 + d;
        i = i + 1;
    }
    proof {
        assert(s@.take(n as int) =~= s@);
    }
    Some(acc)
}

pub fn parse_u16_digits(s: &str) -> (r: Option<u16>)
    ensures
        r == spec_parse_u16(s@),
{
    match parse_u64_digits(s) {
        Some(v) => {
            if v <= 65535 {
                Some(v as u16)
            } else {
                None
            }
        },
        None => None,
    }
}

} // verus!
