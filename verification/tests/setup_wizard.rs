use pion::setup_wizard::{
    tracked_setup_wizard_update, PionSetupWizardDbInfraUpdated, PionSetupWizardHostEnrollmentUpdated,
    SetupWizardUpdate,
};

#[test]
fn correlation_keys_route_to_their_topics() {
    match tracked_setup_wizard_update(" setup_wizard_db_infra:cell-a ", " running ") {
        Some(SetupWizardUpdate::DbInfra(e)) => {
            assert_eq!(e.setup_wizard_session_id, "default");
            assert_eq!(e.cell_id, "cell-a");
            assert_eq!(e.status, "running:setup_wizard_db_infra:cell-a");
        }
        other => panic!("unexpected {other:?}"),
    }
    match tracked_setup_wizard_update("setup_wizard_service_deploy:cell-b", "pending") {
        Some(SetupWizardUpdate::ServiceDeploy(e)) => assert_eq!(e.cell_id, "cell-b"),
        other => panic!("unexpected {other:?}"),
    }
    match tracked_setup_wizard_update("host_hw_probe:cell-c:node-1", "succeeded") {
        Some(SetupWizardUpdate::Capacity(e)) => assert_eq!(e.cell_id, "cell-c"),
        other => panic!("unexpected {other:?}"),
    }
    match tracked_setup_wizard_update("setup_wizard_intercell_probe:a:b", "failed") {
        Some(SetupWizardUpdate::IntercellProbe(e)) => {
            assert_eq!(e.cell_id, "setup_wizard_intercell_probe:a:b")
        }
        other => panic!("unexpected {other:?}"),
    }
    match tracked_setup_wizard_update("setup_wizard_dns_probe:example.org", "running") {
        Some(SetupWizardUpdate::Capacity(e)) => assert_eq!(e.cell_id, "global_dns"),
        other => panic!("unexpected {other:?}"),
    }
    assert!(tracked_setup_wizard_update("   ", "running").is_none());
    assert!(tracked_setup_wizard_update("lab:deploy", "running").is_none());
}

#[test]
fn setup_wizard_topics_are_stable() {
    assert_eq!(PionSetupWizardDbInfraUpdated::topic(), "gluon.setup_wizard.db_infra.updated");
    assert_eq!(
        PionSetupWizardHostEnrollmentUpdated::topic(),
        "gluon.setup_wizard.host_enrollment.updated"
    );
    let e = PionSetupWizardHostEnrollmentUpdated::new("default", "enr-1", "claimed");
    assert_eq!(e.enrollment_id, "enr-1");
    assert_eq!(e.status, "claimed");
}
