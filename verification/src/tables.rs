//! The three data-table readers.
//!
//! Each reader walks a table's entries in the order the store yields them,
//! decodes every value with that table's shape, and aborts the whole read at
//! the first entry that fails, reporting the offending key — partial lists
//! are never returned, because surfacing corruption is this tool's purpose.
//! An empty table is a valid read that yields an empty sequence.

use vstd::prelude::*;
use vstd::utf8::{decode_utf8, valid_utf8};
use crate::json::{DecodeError, json_of_raw, RawValue, spec_json_of_raw};
use crate::records::{
    decode_enrollment, decode_experiment, Enrollment, EnrollmentV, Experiment, ExperimentV,
    spec_decode_enrollment_raw, spec_decode_experiment_raw, UpdateRecord, UpdateRecordV,
};

verus! {

/// The three data tables this crate reads record streams from.
#[derive(Debug, Clone, Copy, PartialEq, Eq, Structural)]
pub enum TableKind {
    Enrollments,
    Experiments,
    Updates,
}

impl TableKind {
    /// The table's name in the store, which diagnostics also print.
    pub open spec fn spec_store_name(self) -> Seq<char> {
        match self {
            TableKind::Enrollments => "enrollments"@,
            TableKind::Experiments => "experiments"@,
            TableKind::Updates => "updates"@,
        }
    }

    pub fn store_name(self) -> (r: &'static str)
        ensures
            r@ == self.spec_store_name(),
    {
        match self {
            TableKind::Enrollments => "enrollments",
            TableKind::Experiments => "experiments",
            TableKind::Updates => "updates",
        }
    }
}

/// A whole-table read failure: the table, the key of the offending entry,
/// and what went wrong with it.
#[derive(Debug, PartialEq)]
pub struct TableDecodeError {
    pub table: TableKind,
    pub key: Vec<u8>,
    pub cause: DecodeError,
}

/// Relies on `core::str::from_utf8`: succeeds exactly on the byte sequences
/// that are valid UTF-8 and returns the text they encode.
#[verifier::external_body]
fn bytes_to_text(b: &[u8]) -> (r: Option<&str>)
    ensures
        r is Some <==> valid_utf8(b@),
        r matches Some(s) ==> s@ == decode_utf8(b@),
{
    core::str::from_utf8(b).ok()
}

/// Decoding one update-log entry: the key must be text and the value must be
/// a structured-text document, but the document's internals are free.
pub open spec fn spec_decode_update(key: Seq<u8>, v: RawValue) -> Result<
    UpdateRecordV,
    DecodeError,
> {
    if !valid_utf8(key) {
        Err(DecodeError::KeyNotText)
    } else {
        match spec_json_of_raw(v) {
            Ok(j) => Ok(UpdateRecordV { key: decode_utf8(key), value: j }),
            Err(e) => Err(e),
        }
    }
}

/// Reads the enrollments table from its entries, in the given order.
pub fn read_enrollments(entries: &Vec<(Vec<u8>, RawValue)>) -> (r: Result<
    Vec<Enrollment>,
    TableDecodeError,
>)
    ensures
        match r {
            Ok(v) => {
                &&& v@.len() == entries@.len()
                &&& forall|i: int|
                    0 <= i < entries@.len() ==> spec_decode_enrollment_raw(
                        #[trigger] entries@[i].1,
                    ) == Ok::<EnrollmentV, DecodeError>(v@[i]@)
            },
            Err(e) => {
                &&& e.table == TableKind::Enrollments
                &&& exists|i: int|
                    {
                        &&& 0 <= i < entries@.len()
                        &&& #[trigger] spec_decode_enrollment_raw(entries@[i].1) == Err::<
                            EnrollmentV,
                            DecodeError,
                        >(e.cause)
                        &&& e.key@ == entries@[i].0@
                        &&& forall|j: int|
                            0 <= j < i ==> spec_decode_enrollment_raw(
                                #[trigger] entries@[j].1,
                            ) is Ok
                    }
            },
        },
{
    let n = entries.len();
    let mut out: Vec<Enrollment> = Vec::new();
    let mut i: usize = 0;
    while i < n
        invariant
            0 <= i <= n,
            n == entries@.len(),
            out@.len() == i,
            forall|j: int|
                0 <= j < i ==> spec_decode_enrollment_raw(#[trigger] entries@[j].1) == Ok::<
                    EnrollmentV,
                    DecodeError,
                >(out@[j]@),
        decreases n - i,
    {
        let e = &entries[i];
        match decode_enrollment(&e.1) {
            Ok(rec) => {
                out.push(rec);
            },
            Err(c) => {
                return Err(
                    TableDecodeError {
                        table: TableKind::Enrollments,
                        key: e.0.clone(),
                        cause: c,
                    },
                );
            },
        }
        i = i + 1;
    }
    Ok(out)
}

/// Reads the experiment-definitions table from its entries, in the given
/// order.
pub fn read_experiments(entries: &Vec<(Vec<u8>, RawValue)>) -> (r: Result<
    Vec<Experiment>,
    TableDecodeError,
>)
    ensures
        match r {
            Ok(v) => {
                &&& v@.len() == entries@.len()
                &&& forall|i: int|
                    0 <= i < entries@.len() ==> spec_decode_experiment_raw(
                        #[trigger] entries@[i].1,
                    ) == Ok::<ExperimentV, DecodeError>(v@[i]@)
            },
            Err(e) => {
                &&& e.table == TableKind::Experiments
                &&& exists|i: int|
                    {
                        &&& 0 <= i < entries@.len()
                        &&& #[trigger] spec_decode_experiment_raw(entries@[i].1) == Err::<
                            ExperimentV,
                            DecodeError,
                        >(e.cause)
                        &&& e.key@ == entries@[i].0@
                        &&& forall|j: int|
                            0 <= j < i ==> spec_decode_experiment_raw(
                                #[trigger] entries@[j].1,
                            ) is Ok
                    }
            },
        },
{
    let n = entries.len();
    let mut out: Vec<Experiment> = Vec::new();
    let mut i: usize = 0;
    while i < n
        invariant
            0 <= i <= n,
            n == entries@.len(),
            out@.len() == i,
            forall|j: int|
                0 <= j < i ==> spec_decode_experiment_raw(#[trigger] entries@[j].1) == Ok::<
                    ExperimentV,
                    DecodeError,
                >(out@[j]@),
        decreases n - i,
    {
        let e = &entries[i];
        match decode_experiment(&e.1) {
            Ok(rec) => {
                out.push(rec);
            },
            Err(c) => {
                return Err(
                    TableDecodeError {
                        table: TableKind::Experiments,
                        key: e.0.clone(),
                        cause: c,
                    },
                );
            },
        }
        i = i + 1;
    }
    Ok(out)
}

/// Reads the pending-update log from its entries, in the given order.  Keys
/// must be text; values must parse, but keep whatever shape they have.
pub fn read_updates(entries: &Vec<(Vec<u8>, RawValue)>) -> (r: Result<
    Vec<UpdateRecord>,
    TableDecodeError,
>)
    ensures
        match r {
            Ok(v) => {
                &&& v@.len() == entries@.len()
                &&& forall|i: int|
                    0 <= i < entries@.len() ==> spec_decode_update(
                        (#[trigger] entries@[i]).0@,
                        entries@[i].1,
                    ) == Ok::<UpdateRecordV, DecodeError>(v@[i]@)
            },
            Err(e) => {
                &&& e.table == TableKind::Updates
                &&& exists|i: int|
                    {
                        &&& 0 <= i < entries@.len()
                        &&& spec_decode_update(
                            (#[trigger] entries@[i]).0@,
                            entries@[i].1,
                        ) == Err::<UpdateRecordV, DecodeError>(e.cause)
                        &&& e.key@ == entries@[i].0@
                        &&& forall|j: int|
                            0 <= j < i ==> spec_decode_update(
                                (#[trigger] entries@[j]).0@,
                                entries@[j].1,
                            ) is Ok
                    }
            },
        },
{
    let n = entries.len();
    let mut out: Vec<UpdateRecord> = Vec::new();
    let mut i: usize = 0;
    while i < n
        invariant
            0 <= i <= n,
            n == entries@.len(),
            out@.len() == i,
            forall|j: int|
                0 <= j < i ==> spec_decode_update(
                    (#[trigger] entries@[j]).0@,
                    entries@[j].1,
                ) == Ok::<UpdateRecordV, DecodeError>(out@[j]@),
        decreases n - i,
    {
        let e = &entries[i];
        let text = match bytes_to_text(e.0.as_slice()) {
            Some(t) => t,
            None => {
                return Err(
                    TableDecodeError {
                        table: TableKind::Updates,
                        key: e.0.clone(),
                        cause: DecodeError::KeyNotText,
                    },
                );
            },
        };
        let key: String = text.to_owned();
        match json_of_raw(&e.1) {
            Ok(j) => {
                out.push(UpdateRecord { key, value: j });
            },
            Err(c) => {
                return Err(
                    TableDecodeError { table: TableKind::Updates, key: e.0.clone(), cause: c },
                );
            },
        }
        i = i + 1;
    }
    Ok(out)
}

} // verus!
