//! The schema-version resolver for the metadata table.
//!
//! The persisted schema version decides how the two participation flags are
//! laid out: versions 1 and 2 keep one legacy flag that supplies both,
//! version 3 keeps two independent keys, and any other version is refused
//! outright — guessing at an unknown layout could misreport a
//! privacy-sensitive value.

use vstd::prelude::*;
use crate::json::{JsonValue, RawValue, spec_json_of_raw, spec_parse_u16, json_of_raw,
    parse_u16_digits};

verus! {

/// The metadata key that holds the schema version.
pub open spec fn spec_version_key_name() -> Seq<char> {
    "db_version"@
}

pub fn version_key_name() -> (r: &'static str)
    ensures
        r@ == spec_version_key_name(),
{
    "db_version"
}

/// The metadata keys that can supply a participation flag.
#[derive(Debug, Clone, Copy, PartialEq, Eq, Structural)]
pub enum ParticipationKey {
    /// The single flag of schema versions 1 and 2.
    Legacy,
    /// The experiment flag of schema version 3.
    Experiments,
    /// The rollout flag of schema version 3.
    Rollouts,
}

impl ParticipationKey {
    /// The key's name in the metadata table.
    pub open spec fn spec_key_name(self) -> Seq<char> {
        match self {
            ParticipationKey::Legacy => "user-opt-in"@,
            ParticipationKey::Experiments => "user-opt-in-experiments"@,
            ParticipationKey::Rollouts => "user-opt-in-rollouts"@,
        }
    }

    pub fn key_name(self) -> (r: &'static str)
        ensures
            r@ == self.spec_key_name(),
    {
        match self {
            ParticipationKey::Legacy => "user-opt-in",
            ParticipationKey::Experiments => "user-opt-in-experiments",
            ParticipationKey::Rollouts => "user-opt-in-rollouts",
        }
    }
}

/// Why the metadata table could not be resolved; fatal for the whole run.
#[derive(Debug, Clone, Copy, PartialEq, Eq, Structural)]
pub enum MetaError {
    /// The schema-version key is absent.
    MissingVersion,
    /// The schema-version key does not decode to a version number.
    CorruptVersion,
    /// The version lies outside the three known layouts.
    UnsupportedVersion(u16),
    /// A key the resolved layout requires is absent.
    MissingParticipationKey(ParticipationKey),
    /// A key the resolved layout requires does not decode to a boolean.
    CorruptParticipationKey(ParticipationKey),
}

/// The normalized view of the metadata table: the raw version, surfaced for
/// display, and the two resolved flags.
#[derive(Debug, Clone, Copy, PartialEq, Eq, Structural)]
pub struct Participation {
    pub db_version: u16,
    pub experiments: bool,
    pub rollouts: bool,
}

/// What a stored metadata value yields when read as a version number.
pub open spec fn spec_u16_of_raw(v: RawValue) -> Option<u16> {
    match spec_json_of_raw(v) {
        Ok(j) => match j {
            JsonValue::Num(t) => spec_parse_u16(t@),
            _ => None,
        },
        Err(_) => None,
    }
}

/// What a stored metadata value yields when read as a flag.
pub open spec fn spec_bool_of_raw(v: RawValue) -> Option<bool> {
    match spec_json_of_raw(v) {
        Ok(j) => match j {
            JsonValue::Bool(b) => Some(b),
            _ => None,
        },
        Err(_) => None,
    }
}

/// Resolving one required flag key: absent and undecodable are distinct
/// errors, both carrying the key's identity.
pub open spec fn spec_flag(v: Option<RawValue>, k: ParticipationKey) -> Result<bool, MetaError> {
    match v {
        None => Err(MetaError::MissingParticipationKey(k)),
        Some(raw) => match spec_bool_of_raw(raw) {
            Some(b) => Ok(b),
            None => Err(MetaError::CorruptParticipationKey(k)),
        },
    }
}

/// The three-way resolution rule.  `version` is the stored value under the
/// schema-version key, the other three arguments the stored values under the
/// flag keys; each is `None` where the key is absent.
pub open spec fn spec_resolve_participation(
    version: Option<RawValue>,
    legacy: Option<RawValue>,
    experiments: Option<RawValue>,
    rollouts: Option<RawValue>,
) -> Result<Participation, MetaError> {
    match version {
        None => Err(MetaError::MissingVersion),
        Some(raw) => match spec_u16_of_raw(raw) {
            None => Err(MetaError::CorruptVersion),
            Some(n) => if n == 1 || n == 2 {
                match spec_flag(legacy, ParticipationKey::Legacy) {
                    Ok(b) => Ok(Participation { db_version: n, experiments: b, rollouts: b }),
                    Err(e) => Err(e),
                }
            } else if n == 3 {
                match spec_flag(experiments, ParticipationKey::Experiments) {
                    Err(e) => Err(e),
                    Ok(eb) => match spec_flag(rollouts, ParticipationKey::Rollouts) {
                        Err(e) => Err(e),
                        Ok(rb) => Ok(
                            Participation { db_version: n, experiments: eb, rollouts: rb },
                        ),
                    },
                }
            } else {
                Err(MetaError::UnsupportedVersion(n))
            },
        },
    }
}

fn u16_of_raw(v: &RawValue) -> (r: Option<u16>)
    ensures
        r == spec_u16_of_raw(*v),
{
    match json_of_raw(v) {
        Ok(j) => match j {
            JsonValue::Num(t) => parse_u16_digits(t.as_str()),
            _ => None,
        },
        Err(_) => None,
    }
}

fn bool_of_raw(v: &RawValue) -> (r: Option<bool>)
    ensures
        r == spec_bool_of_raw(*v),
{
    match json_of_raw(v) {
        Ok(j) => match j {
            JsonValue::Bool(b) => Some(b),
            _ => None,
        },
        Err(_) => None,
    }
}

fn resolve_flag(v: &Option<RawValue>, k: ParticipationKey) -> (r: Result<bool, MetaError>)
    ensures
        r == spec_flag(*v, k),
{
    match v {
        None => Err(MetaError::MissingParticipationKey(k)),
        Some(raw) => match bool_of_raw(raw) {
            Some(b) => Ok(b),
            None => Err(MetaError::CorruptParticipationKey(k)),
        },
    }
}

/// Resolves the participation settings from the stored metadata values.
///
/// The caller looks the four keys up in the metadata table and passes each
/// value through unchanged, `None` where the key is absent.
pub fn resolve_participation(
    version: &Option<RawValue>,
    legacy: &Option<RawValue>,
    experiments: &Option<RawValue>,
    rollouts: &Option<RawValue>,
) -> (r: Result<Participation, MetaError>)
    ensures
        r == spec_resolve_participation(*version, *legacy, *experiments, *rollouts),
{
    let raw = match version {
        None => {
            return Err(MetaError::MissingVersion);
        },
        Some(raw) => raw,
    };
    let n = match u16_of_raw(raw) {
        None => {
            return Err(MetaError::CorruptVersion);
        },
        Some(n) => n,
    };
    if n == 1 || n == 2 {
        match resolve_flag(legacy, ParticipationKey::Legacy) {
            Ok(b) => Ok(Participation { db_version: n, experiments: b, rollouts: b }),
            Err(e) => Err(e),
        }
    } else if n == 3 {
        match resolve_flag(experiments, ParticipationKey::Experiments) {
            Err(e) => Err(e),
            Ok(eb) => match resolve_flag(rollouts, ParticipationKey::Rollouts) {
                Err(e) => Err(e),
                Ok(rb) => Ok(Participation { db_version: n, experiments: eb, rollouts: rb }),
            },
        }
    } else {
        Err(MetaError::UnsupportedVersion(n))
    }
}

/// Under schema versions 1 and 2 the two participation flags cannot differ:
/// whatever boolean the legacy key holds supplies both of them.
pub proof fn lemma_legacy_versions_share_flag(
    version: RawValue,
    legacy: Option<RawValue>,
    experiments: Option<RawValue>,
    rollouts: Option<RawValue>,
    n: u16,
    b: bool,
)
    requires
        spec_u16_of_raw(version) == Some(n),
        n == 1 || n == 2,
        spec_flag(legacy, ParticipationKey::Legacy) == Ok::<bool, MetaError>(b),
    ensures
        spec_resolve_participation(Some(version), legacy, experiments, rollouts) == Ok::<
            Participation,
            MetaError,
        >(Participation { db_version: n, experiments: b, rollouts: b }),
{
}

/// Under schema version 3 the two keys are read independently, so the flags
/// resolve to exactly what each key holds and may legitimately differ.
pub proof fn lemma_split_flags_are_independent(
    version: RawValue,
    legacy: Option<RawValue>,
    experiments: Option<RawValue>,
    rollouts: Option<RawValue>,
    eb: bool,
    rb: bool,
)
    requires
        spec_u16_of_raw(version) == Some(3u16),
        spec_flag(experiments, ParticipationKey::Experiments) == Ok::<bool, MetaError>(eb),
        spec_flag(rollouts, ParticipationKey::Rollouts) == Ok::<bool, MetaError>(rb),
    ensures
        spec_resolve_participation(Some(version), legacy, experiments, rollouts) == Ok::<
            Participation,
            MetaError,
        >(Participation { db_version: 3, experiments: eb, rollouts: rb }),
{
}

/// Any version outside the three known layouts fails with the unsupported
/// version error, whatever the flag keys hold: no participation values are
/// produced for it.
pub proof fn lemma_unknown_version_is_refused(
    version: RawValue,
    legacy: Option<RawValue>,
    experiments: Option<RawValue>,
    rollouts: Option<RawValue>,
    n: u16,
)
    requires
        spec_u16_of_raw(version) == Some(n),
        n != 1 && n != 2 && n != 3,
    ensures
        spec_resolve_participation(Some(version), legacy, experiments, rollouts) == Err::<
            Participation,
            MetaError,
        >(MetaError::UnsupportedVersion(n)),
{
}

} // verus!
