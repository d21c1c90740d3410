//! The record shapes of the three data tables and their decoders.
//!
//! Each shape lists its fields once; the decoder reads exactly those fields
//! from the document tree, ignores unknown fields, and reports the first
//! field that is missing or of the wrong kind.  The enrollment status is a
//! closed tagged union: a tag outside its five shapes is a hard error.

use vstd::prelude::*;
use crate::json::{
    DecodeError, Field, JsonValue, Mismatch, RawValue, json_of_raw, obj_get, parse_u64_digits,
    spec_json_of_raw, spec_obj_get, spec_parse_u64,
};

verus! {

/// A user's relationship to one experiment; exactly one shape applies.
#[derive(Debug, PartialEq)]
pub enum EnrollmentStatus {
    Enrolled { reason: String, branch: String },
    NotEnrolled { reason: String },
    Disqualified { reason: String, branch: String },
    WasEnrolled { branch: String, experiment_ended_at: u64 },
    Error { reason: String },
}

pub enum EnrollmentStatusV {
    Enrolled { reason: Seq<char>, branch: Seq<char> },
    NotEnrolled { reason: Seq<char> },
    Disqualified { reason: Seq<char>, branch: Seq<char> },
    WasEnrolled { branch: Seq<char>, experiment_ended_at: u64 },
    Error { reason: Seq<char> },
}

impl View for EnrollmentStatus {
    type V = EnrollmentStatusV;

    open spec fn view(&self) -> EnrollmentStatusV {
        match self {
            EnrollmentStatus::Enrolled { reason, branch } => EnrollmentStatusV::Enrolled {
                reason: reason@,
                branch: branch@,
            },
            EnrollmentStatus::NotEnrolled { reason } => EnrollmentStatusV::NotEnrolled {
                reason: reason@,
            },
            EnrollmentStatus::Disqualified { reason, branch } => EnrollmentStatusV::Disqualified {
                reason: reason@,
                branch: branch@,
            },
            EnrollmentStatus::WasEnrolled { branch, experiment_ended_at } => (
            EnrollmentStatusV::WasEnrolled {
                branch: branch@,
                experiment_ended_at: *experiment_ended_at,
            }),
            EnrollmentStatus::Error { reason } => EnrollmentStatusV::Error { reason: reason@ },
        }
    }
}

/// One row of the enrollments table.
#[derive(Debug, PartialEq)]
pub struct Enrollment {
    pub slug: String,
    pub status: EnrollmentStatus,
}

pub struct EnrollmentV {
    pub slug: Seq<char>,
    pub status: EnrollmentStatusV,
}

impl View for Enrollment {
    type V = EnrollmentV;

    open spec fn view(&self) -> EnrollmentV {
        EnrollmentV { slug: self.slug@, status: self.status@ }
    }
}

/// One row of the experiment-definitions table.
#[derive(Debug, PartialEq)]
pub struct Experiment {
    pub slug: String,
    pub is_rollout: bool,
    pub is_enrollment_paused: bool,
    pub feature_ids: Vec<String>,
}

pub struct ExperimentV {
    pub slug: Seq<char>,
    pub is_rollout: bool,
    pub is_enrollment_paused: bool,
    pub feature_ids: Seq<Seq<char>>,
}

/// The views of a sequence of strings, element by element.
pub open spec fn string_seq_view(v: Seq<String>) -> Seq<Seq<char>> {
    Seq::new(v.len(), |i: int| v[i]@)
}

impl View for Experiment {
    type V = ExperimentV;

    open spec fn view(&self) -> ExperimentV {
        ExperimentV {
            slug: self.slug@,
            is_rollout: self.is_rollout,
            is_enrollment_paused: self.is_enrollment_paused,
            feature_ids: string_seq_view(self.feature_ids@),
        }
    }
}

/// One row of the pending-update log: a text key and an arbitrary document
/// whose internals are deliberately not validated.
#[derive(Debug, PartialEq)]
pub struct UpdateRecord {
    pub key: String,
    pub value: JsonValue,
}

pub struct UpdateRecordV {
    pub key: Seq<char>,
    pub value: JsonValue,
}

impl View for UpdateRecord {
    type V = UpdateRecordV;

    open spec fn view(&self) -> UpdateRecordV {
        UpdateRecordV { key: self.key@, value: self.value }
    }
}

/// A record shape expects an object at this position.
pub open spec fn spec_as_object(j: JsonValue) -> Result<Seq<(String, JsonValue)>, Mismatch> {
    match j {
        JsonValue::Obj(b) => Ok(b@),
        _ => Err(Mismatch::NotAnObject),
    }
}

/// A required field that must hold text.
pub open spec fn spec_str_field(body: Seq<(String, JsonValue)>, f: Field) -> Result<
    Seq<char>,
    Mismatch,
> {
    match spec_obj_get(body, f.spec_json_key()) {
        Some(v) => match v {
            JsonValue::Str(s) => Ok(s@),
            _ => Err(Mismatch::WrongFieldType(f)),
        },
        None => Err(Mismatch::MissingField(f)),
    }
}

/// A required field that must hold a non-negative integer fitting a `u64`.
pub open spec fn spec_u64_field(body: Seq<(String, JsonValue)>, f: Field) -> Result<
    u64,
    Mismatch,
> {
    match spec_obj_get(body, f.spec_json_key()) {
        Some(v) => match v {
            JsonValue::Num(t) => match spec_parse_u64(t@) {
                Some(n) => Ok(n),
                None => Err(Mismatch::WrongFieldType(f)),
            },
            _ => Err(Mismatch::WrongFieldType(f)),
        },
        None => Err(Mismatch::MissingField(f)),
    }
}

/// A required field that must hold a boolean.
pub open spec fn spec_bool_field(body: Seq<(String, JsonValue)>, f: Field) -> Result<
    bool,
    Mismatch,
> {
    match spec_obj_get(body, f.spec_json_key()) {
        Some(v) => match v {
            JsonValue::Bool(b) => Ok(b),
            _ => Err(Mismatch::WrongFieldType(f)),
        },
        None => Err(Mismatch::MissingField(f)),
    }
}

pub open spec fn all_strings(a: Seq<JsonValue>) -> bool {
    forall|i: int| 0 <= i < a.len() ==> a[i] is Str
}

pub open spec fn string_views(a: Seq<JsonValue>) -> Seq<Seq<char>> {
    Seq::new(a.len(), |i: int| a[i]->Str_0@)
}

/// A required field that must hold an array of text values.
pub open spec fn spec_string_list_field(body: Seq<(String, JsonValue)>, f: Field) -> Result<
    Seq<Seq<char>>,
    Mismatch,
> {
    match spec_obj_get(body, f.spec_json_key()) {
        Some(v) => match v {
            JsonValue::Arr(a) => if all_strings(a@) {
                Ok(string_views(a@))
            } else {
                Err(Mismatch::WrongFieldType(f))
            },
            _ => Err(Mismatch::WrongFieldType(f)),
        },
        None => Err(Mismatch::MissingField(f)),
    }
}

/// The body that goes with one status tag.
pub open spec fn spec_status_variant(tag: Seq<char>, body: JsonValue) -> Result<
    EnrollmentStatusV,
    Mismatch,
> {
    if tag == "Enrolled"@ {
        match spec_as_object(body) {
            Err(m) => Err(m),
            Ok(b) => match (spec_str_field(b, Field::Reason), spec_str_field(b, Field::Branch)) {
                (Ok(reason), Ok(branch)) => Ok(EnrollmentStatusV::Enrolled { reason, branch }),
                (Err(m), _) => Err(m),
                (Ok(_), Err(m)) => Err(m),
            },
        }
    } else if tag == "NotEnrolled"@ {
        match spec_as_object(body) {
            Err(m) => Err(m),
            Ok(b) => match spec_str_field(b, Field::Reason) {
                Ok(reason) => Ok(EnrollmentStatusV::NotEnrolled { reason }),
                Err(m) => Err(m),
            },
        }
    } else if tag == "Disqualified"@ {
        match spec_as_object(body) {
            Err(m) => Err(m),
            Ok(b) => match (spec_str_field(b, Field::Reason), spec_str_field(b, Field::Branch)) {
                (Ok(reason), Ok(branch)) => Ok(
                    EnrollmentStatusV::Disqualified { reason, branch },
                ),
                (Err(m), _) => Err(m),
                (Ok(_), Err(m)) => Err(m),
            },
        }
    } else if tag == "WasEnrolled"@ {
        match spec_as_object(body) {
            Err(m) => Err(m),
            Ok(b) => match (
                spec_str_field(b, Field::Branch),
                spec_u64_field(b, Field::ExperimentEndedAt),
            ) {
                (Ok(branch), Ok(t)) => Ok(
                    EnrollmentStatusV::WasEnrolled { branch, experiment_ended_at: t },
                ),
                (Err(m), _) => Err(m),
                (Ok(_), Err(m)) => Err(m),
            },
        }
    } else if tag == "Error"@ {
        match spec_as_object(body) {
            Err(m) => Err(m),
            Ok(b) => match spec_str_field(b, Field::Reason) {
                Ok(reason) => Ok(EnrollmentStatusV::Error { reason }),
                Err(m) => Err(m),
            },
        }
    } else {
        Err(Mismatch::UnknownVariantTag)
    }
}

/// An enrollment status document: an object with a single entry whose key is
/// one of the five tags and whose value holds that shape's fields.
pub open spec fn spec_decode_status(j: JsonValue) -> Result<EnrollmentStatusV, Mismatch> {
    match j {
        JsonValue::Obj(entries) => if entries@.len() != 1 {
            Err(Mismatch::NotAVariant)
        } else {
            spec_status_variant(entries@[0].0@, entries@[0].1)
        },
        _ => Err(Mismatch::NotAVariant),
    }
}

/// An enrollment record: `slug` and a status.
pub open spec fn spec_decode_enrollment(j: JsonValue) -> Result<EnrollmentV, Mismatch> {
    match spec_as_object(j) {
        Err(m) => Err(m),
        Ok(b) => match spec_str_field(b, Field::Slug) {
            Err(m) => Err(m),
            Ok(slug) => match spec_obj_get(b, Field::Status.spec_json_key()) {
                None => Err(Mismatch::MissingField(Field::Status)),
                Some(sv) => match spec_decode_status(sv) {
                    Err(m) => Err(m),
                    Ok(status) => Ok(EnrollmentV { slug, status }),
                },
            },
        },
    }
}

/// An experiment-definition record.
pub open spec fn spec_decode_experiment(j: JsonValue) -> Result<ExperimentV, Mismatch> {
    match spec_as_object(j) {
        Err(m) => Err(m),
        Ok(b) => match spec_str_field(b, Field::Slug) {
            Err(m) => Err(m),
            Ok(slug) => match spec_bool_field(b, Field::IsRollout) {
                Err(m) => Err(m),
                Ok(is_rollout) => match spec_bool_field(b, Field::IsEnrollmentPaused) {
                    Err(m) => Err(m),
                    Ok(is_enrollment_paused) => match spec_string_list_field(
                        b,
                        Field::FeatureIds,
                    ) {
                        Err(m) => Err(m),
                        Ok(feature_ids) => Ok(
                            ExperimentV { slug, is_rollout, is_enrollment_paused, feature_ids },
                        ),
                    },
                },
            },
        },
    }
}

/// Decoding an enrollment record straight from a stored value.
pub open spec fn spec_decode_enrollment_raw(v: RawValue) -> Result<EnrollmentV, DecodeError> {
    match spec_json_of_raw(v) {
        Err(e) => Err(e),
        Ok(j) => match spec_decode_enrollment(j) {
            Ok(e) => Ok(e),
            Err(m) => Err(DecodeError::SchemaMismatch(m)),
        },
    }
}

/// Decoding an experiment record straight from a stored value.
pub open spec fn spec_decode_experiment_raw(v: RawValue) -> Result<ExperimentV, DecodeError> {
    match spec_json_of_raw(v) {
        Err(e) => Err(e),
        Ok(j) => match spec_decode_experiment(j) {
            Ok(e) => Ok(e),
            Err(m) => Err(DecodeError::SchemaMismatch(m)),
        },
    }
}

fn str_is(s: &String, lit: &str) -> (r: bool)
    ensures
        r == (s@ == lit@),
{
    let l: String = lit.to_owned();
    *s == l
}

fn as_object<'a>(j: &'a JsonValue) -> (r: Result<&'a Vec<(String, JsonValue)>, Mismatch>)
    ensures
        match r {
            Ok(b) => spec_as_object(*j) == Ok::<Seq<(String, JsonValue)>, Mismatch>(b@),
            Err(m) => spec_as_object(*j) == Err::<Seq<(String, JsonValue)>, Mismatch>(m),
        },
{
    match j {
        JsonValue::Obj(b) => Ok(b),
        _ => Err(Mismatch::NotAnObject),
    }
}

fn get_str_field(body: &Vec<(String, JsonValue)>, f: Field) -> (r: Result<String, Mismatch>)
    ensures
        match r {
            Ok(s) => spec_str_field(body@, f) == Ok::<Seq<char>, Mismatch>(s@),
            Err(m) => spec_str_field(body@, f) == Err::<Seq<char>, Mismatch>(m),
        },
{
    let key: String = f.json_key().to_owned();
    match obj_get(body, &key) {
        Some(v) => match v {
            JsonValue::Str(s) => Ok(s.clone()),
            _ => Err(Mismatch::WrongFieldType(f)),
        },
        None => Err(Mismatch::MissingField(f)),
    }
}

fn get_u64_field(body: &Vec<(String, JsonValue)>, f: Field) -> (r: Result<u64, Mismatch>)
    ensures
        match r {
            Ok(n) => spec_u64_field(body@, f) == Ok::<u64, Mismatch>(n),
            Err(m) => spec_u64_field(body@, f) == Err::<u64, Mismatch>(m),
        },
{
    let key: String = f.json_key().to_owned();
    match obj_get(body, &key) {
        Some(v) => match v {
            JsonValue::Num(t) => match parse_u64_digits(t.as_str()) {
                Some(n) => Ok(n),
                None => Err(Mismatch::WrongFieldType(f)),
            },
            _ => Err(Mismatch::WrongFieldType(f)),
        },
        None => Err(Mismatch::MissingField(f)),
    }
}

fn get_bool_field(body: &Vec<(String, JsonValue)>, f: Field) -> (r: Result<bool, Mismatch>)
    ensures
        match r {
            Ok(b) => spec_bool_field(body@, f) == Ok::<bool, Mismatch>(b),
            Err(m) => spec_bool_field(body@, f) == Err::<bool, Mismatch>(m),
        },
{
    let key: String = f.json_key().to_owned();
    match obj_get(body, &key) {
        Some(v) => match v {
            JsonValue::Bool(b) => Ok(*b),
            _ => Err(Mismatch::WrongFieldType(f)),
        },
        None => Err(Mismatch::MissingField(f)),
    }
}

fn get_string_list_field(body: &Vec<(String, JsonValue)>, f: Field) -> (r: Result<
    Vec<String>,
    Mismatch,
>)
    ensures
        match r {
            Ok(v) => spec_string_list_field(body@, f) == Ok::<Seq<Seq<char>>, Mismatch>(
                string_seq_view(v@),
            ),
            Err(m) => spec_string_list_field(body@, f) == Err::<Seq<Seq<char>>, Mismatch>(m),
        },
{
    let key: String = f.json_key().to_owned();
    match obj_get(body, &key) {
        Some(v) => match v {
            JsonValue::Arr(a) => {
                let mut out: Vec<String> = Vec::new();
                let n = a.len();
                let mut i: usize = 0;
                while i < n
                    invariant
                        0 <= i <= n,
                        n == a@.len(),
                        spec_obj_get(body@, f.spec_json_key()) == Some(JsonValue::Arr(*a)),
                        out@.len() == i,
                        forall|j: int| 0 <= j < i ==> a@[j] is Str,
                        forall|j: int| 0 <= j < i ==> out@[j]@ == a@[j]->Str_0@,
                    decreases n - i,
                {
                    match &a[i] {
                        JsonValue::Str(s) => {
                            out.push(s.clone());
                        },
                        _ => {
                            proof {
                                assert(!(a@[i as int] is Str));
                                assert(!all_strings(a@));
                            }
                            return Err(Mismatch::WrongFieldType(f));
                        },
                    }
                    i = i + 1;
                }
                proof {
                    assert(all_strings(a@));
                    assert(string_seq_view(out@) =~= string_views(a@));
                }
                Ok(out)
            },
            _ => Err(Mismatch::WrongFieldType(f)),
        },
        None => Err(Mismatch::MissingField(f)),
    }
}

/// Decodes an enrollment status document; the five tags are a closed set.
pub fn decode_status(j: &JsonValue) -> (r: Result<EnrollmentStatus, Mismatch>)
    ensures
        match r {
            Ok(st) => spec_decode_status(*j) == Ok::<EnrollmentStatusV, Mismatch>(st@),
            Err(m) => spec_decode_status(*j) == Err::<EnrollmentStatusV, Mismatch>(m),
        },
{
    let entries = match j {
        JsonValue::Obj(entries) => entries,
        _ => {
            return Err(Mismatch::NotAVariant);
        },
    };
    if entries.len() != 1 {
        return Err(Mismatch::NotAVariant);
    }
    let tag = &entries[0].0;
    let body = &entries[0].1;
    if str_is(tag, "Enrolled") {
        match as_object(body) {
            Err(m) => Err(m),
            Ok(b) => match get_str_field(b, Field::Reason) {
                Err(m) => Err(m),
                Ok(reason) => match get_str_field(b, Field::Branch) {
                    Err(m) => Err(m),
                    Ok(branch) => Ok(EnrollmentStatus::Enrolled { reason, branch }),
                },
            },
        }
    } else if str_is(tag, "NotEnrolled") {
        match as_object(body) {
            Err(m) => Err(m),
            Ok(b) => match get_str_field(b, Field::Reason) {
                Err(m) => Err(m),
                Ok(reason) => Ok(EnrollmentStatus::NotEnrolled { reason }),
            },
        }
    } else if str_is(tag, "Disqualified") {
        match as_object(body) {
            Err(m) => Err(m),
            Ok(b) => match get_str_field(b, Field::Reason) {
                Err(m) => Err(m),
                Ok(reason) => match get_str_field(b, Field::Branch) {
                    Err(m) => Err(m),
                    Ok(branch) => Ok(EnrollmentStatus::Disqualified { reason, branch }),
                },
            },
        }
    } else if str_is(tag, "WasEnrolled") {
        match as_object(body) {
            Err(m) => Err(m),
            Ok(b) => match get_str_field(b, Field::Branch) {
                Err(m) => Err(m),
                Ok(branch) => match get_u64_field(b, Field::ExperimentEndedAt) {
                    Err(m) => Err(m),
                    Ok(t) => Ok(
                        EnrollmentStatus::WasEnrolled { branch, experiment_ended_at: t },
                    ),
                },
            },
        }
    } else if str_is(tag, "Error") {
        match as_object(body) {
            Err(m) => Err(m),
            Ok(b) => match get_str_field(b, Field::Reason) {
                Err(m) => Err(m),
                Ok(reason) => Ok(EnrollmentStatus::Error { reason }),
            },
        }
    } else {
        Err(Mismatch::UnknownVariantTag)
    }
}

/// Decodes an enrollment record from a document tree.
pub fn decode_enrollment_json(j: &JsonValue) -> (r: Result<Enrollment, Mismatch>)
    ensures
        match r {
            Ok(e) => spec_decode_enrollment(*j) == Ok::<EnrollmentV, Mismatch>(e@),
            Err(m) => spec_decode_enrollment(*j) == Err::<EnrollmentV, Mismatch>(m),
        },
{
    match as_object(j) {
        Err(m) => Err(m),
        Ok(b) => match get_str_field(b, Field::Slug) {
            Err(m) => Err(m),
            Ok(slug) => {
                let key: String = Field::Status.json_key().to_owned();
                match obj_get(b, &key) {
                    None => Err(Mismatch::MissingField(Field::Status)),
                    Some(sv) => match decode_status(sv) {
                        Err(m) => Err(m),
                        Ok(status) => Ok(Enrollment { slug, status }),
                    },
                }
            },
        },
    }
}

/// Decodes an experiment-definition record from a document tree.
pub fn decode_experiment_json(j: &JsonValue) -> (r: Result<Experiment, Mismatch>)
    ensures
        match r {
            Ok(e) => spec_decode_experiment(*j) == Ok::<ExperimentV, Mismatch>(e@),
            Err(m) => spec_decode_experiment(*j) == Err::<ExperimentV, Mismatch>(m),
        },
{
    match as_object(j) {
        Err(m) => Err(m),
        Ok(b) => match get_str_field(b, Field::Slug) {
            Err(m) => Err(m),
            Ok(slug) => match get_bool_field(b, Field::IsRollout) {
                Err(m) => Err(m),
                Ok(is_rollout) => match get_bool_field(b, Field::IsEnrollmentPaused) {
                    Err(m) => Err(m),
                    Ok(is_enrollment_paused) => match get_string_list_field(
                        b,
                        Field::FeatureIds,
                    ) {
                        Err(m) => Err(m),
                        Ok(feature_ids) => Ok(
                            Experiment { slug, is_rollout, is_enrollment_paused, feature_ids },
                        ),
                    },
                },
            },
        },
    }
}

/// Decodes an enrollment record from a stored value.
pub fn decode_enrollment(v: &RawValue) -> (r: Result<Enrollment, DecodeError>)
    ensures
        match r {
            Ok(e) => spec_decode_enrollment_raw(*v) == Ok::<EnrollmentV, DecodeError>(e@),
            Err(er) => spec_decode_enrollment_raw(*v) == Err::<EnrollmentV, DecodeError>(er),
        },
{
    match json_of_raw(v) {
        Err(e) => Err(e),
        Ok(j) => match decode_enrollment_json(&j) {
            Ok(e) => Ok(e),
            Err(m) => Err(DecodeError::SchemaMismatch(m)),
        },
    }
}

/// Decodes an experiment record from a stored value.
pub fn decode_experiment(v: &RawValue) -> (r: Result<Experiment, DecodeError>)
    ensures
        match r {
            Ok(e) => spec_decode_experiment_raw(*v) == Ok::<ExperimentV, DecodeError>(e@),
            Err(er) => spec_decode_experiment_raw(*v) == Err::<ExperimentV, DecodeError>(er),
        },
{
    match json_of_raw(v) {
        Err(e) => Err(e),
        Ok(j) => match decode_experiment_json(&j) {
            Ok(e) => Ok(e),
            Err(m) => Err(DecodeError::SchemaMismatch(m)),
        },
    }
}

} // verus!
