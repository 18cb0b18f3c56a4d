use metadata_registry::clock::Timestamp;
use metadata_registry::error::ErrorKind;
use metadata_registry::models::request::{
    CreateDbschemaRequest, CreateOrUpdatePackageRequest, CreateOrganizationRequest,
    PipelineStatusUpdateRequest, UpdateServiceRequest,
};
use metadata_registry::registry::Registry;
use metadata_registry::routes::dbschema::create_dbschema_with;
use metadata_registry::routes::package::create_or_update_package;
use metadata_registry::config::Config;
use metadata_registry::routes::pipeline::{
    after_publish, apply_status, find_status_target, publication, update_pipeline_status,
};
use metadata_registry::routes::service::update_or_create_service;
use metadata_registry::routes::workspace::{create_organization, GroupAnswer};
use metadata_registry::status::{PipelineStatus, UpdateKind};

fn populated() -> Registry {
    let mut reg = Registry::new();
    create_organization(
        &mut reg,
        &CreateOrganizationRequest { name: "Acme".to_string() },
        GroupAnswer::Created("group-acme".to_string()),
    )
    .unwrap();
    let schema = CreateDbschemaRequest {
        name: "orders".to_string(),
        description: None,
        data: None,
        organisation_id: "acme".to_string(),
        db_type: "rdbms".to_string(),
        repo_origin: "r".to_string(),
        version: "0.1.0".to_string(),
        quick_links: None,
    };
    create_dbschema_with(&mut reg, &schema, None, "schema-1".to_string(), Timestamp { micros: 1 }).unwrap();
    for env in ["stage", "prod"] {
        let package = CreateOrUpdatePackageRequest {
            identifier: "core".to_string(),
            package_type: "library".to_string(),
            lang: "rust".to_string(),
            version: "1.0.0".to_string(),
            description: String::new(),
            organization_id: "acme".to_string(),
            dependencies: vec![],
            env: env.to_string(),
            repo_origin: None,
            quick_links: None,
        };
        create_or_update_package(&mut reg, &package, None).unwrap();
        let service = UpdateServiceRequest {
            identifier: "billing".to_string(),
            env: env.to_string(),
            base_url: "u".to_string(),
            base_url_ws: None,
            spec: "{}".to_string(),
            dependencies: vec![],
            tables: vec![],
            db_schema_id: None,
            cache_schema_id: None,
            message_queue_schema_id: None,
            service_type: Some("t".to_string()),
            version: Some("1.0.0".to_string()),
            lang: Some("rust".to_string()),
            description: String::new(),
            organization_id: "acme".to_string(),
            repo_origin: None,
            quick_links: None,
        };
        update_or_create_service(&mut reg, &service, None).unwrap();
    }
    reg
}

fn update(kind: &str, identifier: &str, env: &str, status: &str) -> PipelineStatusUpdateRequest {
    PipelineStatusUpdateRequest {
        env: env.to_string(),
        status: status.to_string(),
        update_type: kind.to_string(),
        org_id: "acme".to_string(),
        identifier: identifier.to_string(),
    }
}

#[test]
fn a_status_is_set_on_one_row_only() {
    let mut reg = populated();
    apply_status(&mut reg, UpdateKind::Service, "acme", "billing", "prod", PipelineStatus::Running).unwrap();
    assert_eq!(reg.service_envs()[0].pipeline_status, None);
    assert_eq!(reg.service_envs()[1].pipeline_status, Some("running".to_string()));
    assert_eq!(reg.package_envs()[0].pipeline_status, None);
    assert_eq!(reg.package_envs()[1].pipeline_status, None);
    assert_eq!(reg.dbschema_branches()[0].pipeline_status, None);
    apply_status(&mut reg, UpdateKind::Package, "acme", "core", "stage", PipelineStatus::Failed).unwrap();
    apply_status(&mut reg, UpdateKind::Schema, "acme", "schema-1", "stage", PipelineStatus::Dormant).unwrap();
    assert_eq!(reg.package_envs()[0].pipeline_status, Some("failed".to_string()));
    assert_eq!(reg.package_envs()[1].pipeline_status, None);
    assert_eq!(reg.dbschema_branches()[0].pipeline_status, Some("dormant".to_string()));
    assert_eq!(reg.service_envs()[1].pipeline_status, Some("running".to_string()));
    assert_eq!(reg.service_envs()[1].version, "1.0.0");
}

#[test]
fn any_status_may_follow_any_other() {
    let mut reg = populated();
    for status in [
        PipelineStatus::Passing,
        PipelineStatus::Running,
        PipelineStatus::Dormant,
        PipelineStatus::Failed,
        PipelineStatus::Failed,
        PipelineStatus::Passing,
    ] {
        apply_status(&mut reg, UpdateKind::Package, "acme", "core", "prod", status).unwrap();
        assert_eq!(reg.package_envs()[1].pipeline_status, Some(status.as_text()));
    }
}

#[test]
fn a_status_for_an_unknown_entity_changes_nothing() {
    let mut reg = populated();
    let before_services = reg.service_envs().clone();
    let before_packages = reg.package_envs().clone();
    let before_branches = reg.dbschema_branches().clone();
    for (kind, identifier, org, env) in [
        (UpdateKind::Service, "ledger", "acme", "prod"),
        (UpdateKind::Service, "billing", "other", "prod"),
        (UpdateKind::Service, "billing", "acme", "dev"),
        (UpdateKind::Package, "core", "acme", "dev"),
        (UpdateKind::Package, "billing", "acme", "prod"),
        (UpdateKind::Schema, "schema-2", "acme", "stage"),
        (UpdateKind::Schema, "schema-1", "acme", "prod"),
        (UpdateKind::Schema, "orders", "acme", "stage"),
    ] {
        let refused = apply_status(&mut reg, kind, org, identifier, env, PipelineStatus::Passing);
        assert_eq!(refused.unwrap_err().kind, ErrorKind::NotFound);
    }
    assert_eq!(reg.service_envs(), &before_services);
    assert_eq!(reg.package_envs(), &before_packages);
    assert_eq!(reg.dbschema_branches(), &before_branches);
}

#[test]
fn a_status_update_is_answered_with_a_notification() {
    let mut reg = populated();
    let n = update_pipeline_status(&mut reg, &update("service", "billing", "stage", "passing")).unwrap();
    assert_eq!(n.group_id, "group-acme");
    assert_eq!(n.topic, "pipeline-update");
    assert_eq!(n.payload, r#"{"identifier":"billing","org_id":"acme","status":"passing"}"#);
    assert_eq!(reg.service_envs()[0].pipeline_status, Some("passing".to_string()));
    let n = update_pipeline_status(&mut reg, &update("schema", "schema-1", "stage", "failed")).unwrap();
    assert_eq!(n.payload, r#"{"identifier":"schema-1","org_id":"acme","status":"failed"}"#);
    assert_eq!(reg.dbschema_branches()[0].pipeline_status, Some("failed".to_string()));
    update_pipeline_status(&mut reg, &update("package", "core", "prod", "running")).unwrap();
    assert_eq!(reg.package_envs()[1].pipeline_status, Some("running".to_string()));
}

#[test]
fn a_malformed_status_update_is_refused() {
    let mut reg = populated();
    for (kind, status) in [("organization", "passing"), ("service", "green"), ("", ""), ("Service", "passing")] {
        let refused = update_pipeline_status(&mut reg, &update(kind, "billing", "stage", status));
        assert_eq!(refused.unwrap_err().kind, ErrorKind::Validation);
    }
    let missing = update_pipeline_status(&mut reg, &update("service", "ledger", "stage", "passing"));
    assert_eq!(missing.unwrap_err().kind, ErrorKind::NotFound);
    assert_eq!(reg.service_envs()[0].pipeline_status, None);
}

#[test]
fn an_unknown_entity_is_not_found_whatever_the_status() {
    let mut reg = populated();
    for (kind, identifier, env) in [
        ("service", "ledger", "stage"),
        ("service", "billing", "dev"),
        ("package", "ledger", "stage"),
        ("package", "core", "dev"),
        ("schema", "schema-2", "stage"),
        ("schema", "schema-1", "prod"),
    ] {
        for status in ["green", "", "passing"] {
            let refused = update_pipeline_status(&mut reg, &update(kind, identifier, env, status));
            let refused = refused.unwrap_err();
            assert_eq!(refused.kind, ErrorKind::NotFound, "{} {} {} {}", kind, identifier, env, status);
            assert_eq!(refused.http_status(), 404);
        }
    }
    let unkind = update_pipeline_status(&mut reg, &update("organization", "ledger", "stage", "green"));
    assert_eq!(unkind.unwrap_err().kind, ErrorKind::Validation);
    assert_eq!(reg.service_envs()[0].pipeline_status, None);
    assert_eq!(reg.package_envs()[0].pipeline_status, None);
    assert_eq!(reg.dbschema_branches()[0].pipeline_status, None);
}

#[test]
fn a_notification_is_published_where_the_service_is_used() {
    let mut reg = populated();
    let n = update_pipeline_status(&mut reg, &update("service", "billing", "stage", "passing")).unwrap();
    let on = Config { identity_integration: false, notification_integration: true };
    let off = Config { identity_integration: true, notification_integration: false };
    assert_eq!(publication(&on, n.clone()), Some(n.clone()));
    assert_eq!(publication(&off, n), None);
    assert_eq!(find_status_target(&reg, UpdateKind::Service, "acme", "billing", "prod"), Some(1));
    assert_eq!(find_status_target(&reg, UpdateKind::Service, "acme", "billing", "dev"), None);
    assert_eq!(find_status_target(&reg, UpdateKind::Schema, "acme", "schema-1", "stage"), Some(0));
}

#[test]
fn the_status_stays_where_the_organization_is_missing() {
    let mut reg = populated();
    let mut far = UpdateServiceRequest {
        identifier: "far".to_string(),
        env: "stage".to_string(),
        base_url: "u".to_string(),
        base_url_ws: None,
        spec: "{}".to_string(),
        dependencies: vec![],
        tables: vec![],
        db_schema_id: None,
        cache_schema_id: None,
        message_queue_schema_id: None,
        service_type: Some("t".to_string()),
        version: Some("1.0.0".to_string()),
        lang: None,
        description: String::new(),
        organization_id: "nowhere".to_string(),
        repo_origin: None,
        quick_links: None,
    };
    update_or_create_service(&mut reg, &far, None).unwrap();
    far.lang = Some("rust".to_string());
    let mut request = update("service", "far", "stage", "passing");
    request.org_id = "nowhere".to_string();
    let refused = update_pipeline_status(&mut reg, &request);
    assert_eq!(refused.unwrap_err().kind, ErrorKind::NotFound);
    assert_eq!(reg.service_envs()[2].pipeline_status, Some("passing".to_string()));
}

#[test]
fn a_failed_publication_is_a_failure_of_the_service() {
    assert!(after_publish(Ok(())).is_ok());
    let failed = after_publish(Err("connection refused".to_string())).unwrap_err();
    assert_eq!(failed.kind, ErrorKind::Upstream);
    assert_eq!(failed.http_status(), 500);
}
