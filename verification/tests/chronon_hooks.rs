use pion::chronon_hooks::{all_jobs, expired_lease_sweep};

fn is_plausible_five_field_cron(expr: &str) -> bool {
    expr.split_whitespace().count() == 5
}

#[test]
fn all_jobs_have_non_empty_fields_and_plausible_cron() {
    for job in all_jobs() {
        assert_ne!(job.name, "");
        assert_ne!(job.description, "");
        assert!(
            is_plausible_five_field_cron(job.cron_expr),
            "job {} has non-5-field cron expr: {}",
            job.name,
            job.cron_expr
        );
    }
}

#[test]
fn job_names_are_unique_and_namespaced_under_pion() {
    let jobs = all_jobs();
    let mut names: Vec<&str> = jobs.iter().map(|j| j.name).collect();
    let before = names.len();
    names.sort_unstable();
    names.dedup();
    assert_eq!(names.len(), before, "duplicate chronon job name");
    assert!(jobs.iter().all(|j| j.name.starts_with("pion.")));
}

#[test]
fn expired_lease_sweep_matches_wired_default_job() {
    assert_eq!(expired_lease_sweep().name, "pion.node_actions.expired_lease_sweep");
    assert_eq!(expired_lease_sweep().cron_expr, "*/2 * * * *");
}
