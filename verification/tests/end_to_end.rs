use nimbus_inspect::display::{join_feature_ids, paused_marker, rollout_marker, section_heading};
use nimbus_inspect::json::RawValue;
use nimbus_inspect::meta::{resolve_participation, Participation};
use nimbus_inspect::records::EnrollmentStatus;
use nimbus_inspect::tables::{read_enrollments, read_experiments, read_updates, TableKind};

fn j(s: &str) -> Option<RawValue> {
    Some(RawValue::Json(s.to_string()))
}

#[test]
fn whole_store_inspection_scenario() {
    // Metadata: version 3 with two distinct flags.
    let participation =
        resolve_participation(&j("3"), &None, &j("true"), &j("false")).unwrap();
    assert_eq!(
        participation,
        Participation { db_version: 3, experiments: true, rollouts: false }
    );

    // One enrollment whose status ended.
    let enrollment_rows = vec![(
        b"exp-1".to_vec(),
        RawValue::Json(
            "{\"slug\":\"exp-1\",\"status\":{\"WasEnrolled\":{\"branch\":\"control\",\"experiment_ended_at\":1700000000}}}"
                .to_string(),
        ),
    )];
    let enrollments = read_enrollments(&enrollment_rows).unwrap();
    assert_eq!(enrollments.len(), 1);
    assert_eq!(enrollments[0].slug, "exp-1");
    assert_eq!(
        enrollments[0].status,
        EnrollmentStatus::WasEnrolled {
            branch: "control".to_string(),
            experiment_ended_at: 1700000000,
        }
    );
    assert_eq!(section_heading(TableKind::Enrollments, enrollments.is_empty()), "Enrollments:");

    // One matching experiment definition.
    let experiment_rows = vec![(
        b"exp-1".to_vec(),
        RawValue::Json(
            "{\"slug\":\"exp-1\",\"isRollout\":false,\"isEnrollmentPaused\":false,\"featureIds\":[\"feature-a\"]}"
                .to_string(),
        ),
    )];
    let experiments = read_experiments(&experiment_rows).unwrap();
    assert_eq!(experiments.len(), 1);
    assert_eq!(experiments[0].slug, "exp-1");
    assert_eq!(rollout_marker(experiments[0].is_rollout), "E");
    assert_eq!(paused_marker(experiments[0].is_enrollment_paused), " ");
    assert_eq!(join_feature_ids(&experiments[0].feature_ids), "feature-a");

    // An empty update log.
    let updates = read_updates(&vec![]).unwrap();
    assert!(updates.is_empty());
    assert_eq!(section_heading(TableKind::Updates, updates.is_empty()), "No experiments");
}
