use metadata_registry::error::ErrorKind;
use metadata_registry::models::request::{
    CreateDbschemaBranchRequest, CreateDbschemaRequest, CreateOrganizationRequest,
    PipelineStatusUpdateRequest,
};
use metadata_registry::registry::Registry;
use metadata_registry::routes::dbschema::{
    create_dbschema, create_dbschema_branch, fetch_dbschemas_and_tables, get_dbschema_by_id,
};
use metadata_registry::routes::pipeline::{after_publish, update_pipeline_status};
use metadata_registry::routes::workspace::{create_organization, get_workspace_public, GroupAnswer};

#[test]
fn from_an_organization_to_a_passing_pipeline() {
    let mut reg = Registry::new();

    let org = CreateOrganizationRequest { name: "Acme Corp!".to_string() };
    create_organization(&mut reg, &org, GroupAnswer::Created("group-1".to_string())).unwrap();
    assert_eq!(reg.organizations()[0].slug, "acme-corp");
    assert!(get_workspace_public(&reg, "acme-corp").is_ok());

    let schema = CreateDbschemaRequest {
        name: "orders".to_string(),
        description: None,
        data: None,
        organisation_id: "acme-corp".to_string(),
        db_type: "rdbms".to_string(),
        repo_origin: "https://example.org/orders".to_string(),
        version: "0.0.1".to_string(),
        quick_links: None,
    };
    let created = create_dbschema(&mut reg, &schema, None).unwrap();
    let identifier = created.identifier;

    let stage = "stage".to_string();
    let seen = get_dbschema_by_id(&reg, &identifier, Some(&stage)).unwrap();
    assert_eq!(seen.data, None);
    assert_eq!(seen.version, Some("0.0.1".to_string()));
    assert_eq!(seen.name, "orders");
    assert_eq!(seen.org_id, Some("acme-corp".to_string()));
    assert_eq!(seen.pipeline_status, None);

    let again = CreateDbschemaBranchRequest { branch_name: "stage".to_string(), data: None };
    assert_eq!(
        create_dbschema_branch(&mut reg, created.id, &again).unwrap_err().kind,
        ErrorKind::Conflict
    );

    let update = PipelineStatusUpdateRequest {
        env: "stage".to_string(),
        status: "passing".to_string(),
        update_type: "schema".to_string(),
        org_id: "acme-corp".to_string(),
        identifier: identifier.clone(),
    };
    let notification = update_pipeline_status(&mut reg, &update).unwrap();
    assert_eq!(notification.group_id, "group-1");
    assert!(after_publish(Ok(())).is_ok());

    let seen = get_dbschema_by_id(&reg, &identifier, Some(&stage)).unwrap();
    assert_eq!(seen.data, None);
    assert_eq!(seen.version, Some("0.0.1".to_string()));
    assert_eq!(seen.pipeline_status, Some("passing".to_string()));
    assert_eq!(reg.dbschema_branches()[0].pipeline_status, Some("passing".to_string()));
    let listed = fetch_dbschemas_and_tables(&reg, "stage", "acme-corp").unwrap();
    assert_eq!(listed.len(), 1);
    assert_eq!(listed[0].pipeline_status, Some("passing".to_string()));
    assert_eq!(listed[0].identifier, Some(identifier));
}
