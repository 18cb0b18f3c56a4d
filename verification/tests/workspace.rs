use metadata_registry::claims::{APIClaims, APIClaimsError};
use metadata_registry::clock::Timestamp;
use metadata_registry::config::Config;
use metadata_registry::error::ErrorKind;
use metadata_registry::models::request::{CreateOrganizationRequest, CreateSnapshotRequest};
use metadata_registry::registry::Registry;
use metadata_registry::routes::catalog::{create_snapshot, create_snapshot_at, get_snapshots};
use metadata_registry::routes::workspace::{
    backing_group, create_organization, delete_workspace, fetch_workspace,
    get_current_workspace,
    get_workspace, get_workspace_details, get_workspace_public, get_workspaces,
    organization_group_request, update_block_positions, GroupAnswer,
};

fn named(name: &str) -> CreateOrganizationRequest {
    CreateOrganizationRequest { name: name.to_string() }
}

fn groups(names: &[&str]) -> Vec<String> {
    names.iter().map(|n| n.to_string()).collect()
}

fn two_organizations() -> Registry {
    let mut reg = Registry::new();
    create_organization(&mut reg, &named("Acme Corp!"), GroupAnswer::Created("g-acme".to_string())).unwrap();
    create_organization(&mut reg, &named("Umbrella"), GroupAnswer::Created("g-umbrella".to_string())).unwrap();
    reg
}

#[test]
fn an_organization_is_created_under_its_slug() {
    let mut reg = Registry::new();
    let done = create_organization(&mut reg, &named("Acme Corp!"), GroupAnswer::Created("g-acme".to_string())).unwrap();
    assert_eq!(done.message, "Organization created successfully");
    assert_eq!(done.id, 1);
    let row = &reg.organizations()[0];
    assert_eq!(row.slug, "acme-corp");
    assert_eq!(row.name, Some("Acme Corp!".to_string()));
    assert_eq!(row.group_id, "g-acme");
    assert!(row.is_active);
    assert!(!row.is_public);
    assert_eq!(row.blocks_positions, None);
    assert_eq!(row.version, None);
}

#[test]
fn a_taken_slug_is_a_conflict() {
    let mut reg = Registry::new();
    create_organization(&mut reg, &named("Acme Corp!"), GroupAnswer::NotAsked).unwrap();
    for answer in [GroupAnswer::Created("g".to_string()), GroupAnswer::NotAsked, GroupAnswer::Failed] {
        let refused = create_organization(&mut reg, &named("ACME   corp"), answer).unwrap_err();
        assert_eq!(refused.kind, ErrorKind::Conflict);
        assert_eq!(refused.http_status(), 409);
    }
    assert_eq!(reg.organizations().len(), 1);
    assert_eq!(reg.organizations()[0].group_id, "");
}

#[test]
fn the_backing_group_is_what_the_identity_service_created() {
    assert_eq!(backing_group(GroupAnswer::NotAsked).unwrap(), None);
    assert_eq!(backing_group(GroupAnswer::Created("g".to_string())).unwrap(), Some("g".to_string()));
    let failed = backing_group(GroupAnswer::Failed).unwrap_err();
    assert_eq!(failed.kind, ErrorKind::Upstream);
    assert_eq!(failed.http_status(), 500);
}

#[test]
fn a_failure_of_the_identity_service_creates_nothing() {
    let mut reg = Registry::new();
    let refused = create_organization(&mut reg, &named("Acme"), GroupAnswer::Failed).unwrap_err();
    assert_eq!(refused.kind, ErrorKind::Upstream);
    assert!(reg.organizations().is_empty());
}

#[test]
fn a_group_is_asked_for_where_the_identity_service_is_used() {
    let mut reg = Registry::new();
    let on = Config { identity_integration: true, notification_integration: true };
    let off = Config { identity_integration: false, notification_integration: false };
    let name = organization_group_request(&reg, &named("Acme"), &on).unwrap().unwrap();
    assert_eq!(name.len(), 36);
    assert_eq!(name.matches('-').count(), 4);
    assert_eq!(&name[14..15], "4");
    assert!(name.chars().all(|c| c == '-' || c.is_ascii_digit() || ('a'..='f').contains(&c)));
    assert_ne!(name, organization_group_request(&reg, &named("Acme"), &on).unwrap().unwrap());
    assert_eq!(organization_group_request(&reg, &named("Acme"), &off).unwrap(), None);
    create_organization(&mut reg, &named("Acme"), GroupAnswer::NotAsked).unwrap();
    assert_eq!(organization_group_request(&reg, &named("acme!"), &on).unwrap_err().kind, ErrorKind::Conflict);
    assert_eq!(organization_group_request(&reg, &named("acme!"), &off).unwrap_err().kind, ErrorKind::Conflict);
}

#[test]
fn organizations_are_listed_for_the_groups_of_the_caller() {
    let reg = two_organizations();
    let listed = get_workspaces(&reg, &groups(&["g-umbrella"]), &groups(&["g-acme", "g-umbrella"]));
    assert_eq!(listed.len(), 2);
    assert_eq!(listed[0].slug, "acme-corp");
    assert!(!listed[0].is_admin);
    assert_eq!(listed[0].group_id, "g-acme");
    assert_eq!(listed[0].name, Some("Acme Corp!".to_string()));
    assert!(listed[0].is_active);
    assert_eq!(listed[1].slug, "umbrella");
    assert!(listed[1].is_admin);
    let one = get_workspaces(&reg, &groups(&["g-umbrella"]), &groups(&["g-acme"]));
    assert_eq!(one.len(), 1);
    assert!(!one[0].is_admin);
    assert!(get_workspaces(&reg, &groups(&["g-acme"]), &groups(&[])).is_empty());
}

#[test]
fn an_organization_is_shown_with_its_layout() {
    let mut reg = two_organizations();
    let done = update_block_positions(&mut reg, "acme-corp", "{\"x\": 1}".to_string()).unwrap();
    assert_eq!(done, "Block positions updated successfully");
    assert_eq!(
        update_block_positions(&mut reg, "acme", "{}".to_string()).unwrap_err().kind,
        ErrorKind::NotFound
    );
    let owner = groups(&["g-acme"]);
    let shown = fetch_workspace(&reg, "acme-corp", Some(&owner)).unwrap();
    assert_eq!(shown.name, Some("Acme Corp!".to_string()));
    assert_eq!(shown.block_positions, Some("{\"x\": 1}".to_string()));
    assert!(shown.is_active);
    assert!(shown.is_admin);
    assert!(get_workspace(&reg, "acme-corp", &owner).unwrap().is_admin);
    assert!(!get_workspace(&reg, "umbrella", &owner).unwrap().is_admin);
    assert!(!get_workspace_public(&reg, "acme-corp").unwrap().is_admin);
    assert_eq!(get_workspace_public(&reg, "umbrella").unwrap().block_positions, None);
    assert_eq!(get_workspace_public(&reg, "nobody").unwrap_err().kind, ErrorKind::NotFound);
    assert_eq!(reg.organizations()[1].blocks_positions, None);
}

#[test]
fn the_details_of_an_organization_are_for_its_owners() {
    let reg = two_organizations();
    let details = get_workspace_details(&reg, &groups(&["x", "g-acme"]), "acme-corp").unwrap();
    assert_eq!(details.slug, "acme-corp");
    assert!(details.is_admin);
    assert_eq!(details.group_id, "g-acme");
    assert_eq!(
        get_workspace_details(&reg, &groups(&["g-umbrella"]), "acme-corp").unwrap_err().kind,
        ErrorKind::NotFound
    );
    assert_eq!(
        get_workspace_details(&reg, &groups(&["g-acme"]), "acme").unwrap_err().kind,
        ErrorKind::NotFound
    );
}

#[test]
fn an_organization_is_deleted_by_its_owner() {
    let mut reg = two_organizations();
    assert_eq!(
        delete_workspace(&mut reg, "acme-corp", &groups(&["g-umbrella"])).unwrap_err().kind,
        ErrorKind::Forbidden
    );
    assert_eq!(delete_workspace(&mut reg, "acme", &groups(&["g-acme"])).unwrap_err().kind, ErrorKind::NotFound);
    assert_eq!(reg.organizations().len(), 2);
    let done = delete_workspace(&mut reg, "acme-corp", &groups(&["g-acme"])).unwrap();
    assert_eq!(done.message, "Workspace successfully deleted");
    assert_eq!(reg.organizations().len(), 1);
    assert_eq!(reg.organizations()[0].slug, "umbrella");
    assert_eq!(reg.organizations()[0].id, 2);
    let again = create_organization(&mut reg, &named("acme corp"), GroupAnswer::NotAsked).unwrap();
    assert_eq!(again.id, 3);
}

#[test]
fn the_session_names_the_organization_of_its_subject() {
    let reg = two_organizations();
    let claims = APIClaims {
        sub: "g-umbrella".to_string(),
        exp: 1_900_000_000,
        group_id: 42,
        scopes: groups(&["read", "write"]),
    };
    let session = get_current_workspace(&reg, &claims).unwrap();
    assert_eq!(session.sub, "g-umbrella");
    assert_eq!(session.exp, 1_900_000_000);
    assert_eq!(session.group_id, 42);
    assert_eq!(session.scopes, groups(&["read", "write"]));
    assert_eq!(session.org_id, "umbrella");
    let stranger = APIClaims { sub: "nobody".to_string(), exp: 0, group_id: 0, scopes: vec![] };
    assert_eq!(get_current_workspace(&reg, &stranger).unwrap_err().kind, ErrorKind::NotFound);
    assert_ne!(APIClaimsError::Missing, APIClaimsError::Invalid);
}

#[test]
fn a_snapshot_brings_the_organization_to_its_version() {
    let mut reg = two_organizations();
    let request = CreateSnapshotRequest {
        version: "7".to_string(),
        org_id: "acme-corp".to_string(),
        infra_repo_origin: "https://example.org/infra".to_string(),
        quick_links: "[]".to_string(),
    };
    let done = create_snapshot_at(&mut reg, &request, Timestamp { micros: 11 }).unwrap();
    assert_eq!(done.message, "Snapshot record created and organization updated");
    let row = &reg.organizations()[0];
    assert_eq!(row.version, Some("7".to_string()));
    assert_eq!(row.infra_repo_origin, Some("https://example.org/infra".to_string()));
    assert_eq!(row.quick_links, Some("[]".to_string()));
    assert_eq!(row.slug, "acme-corp");
    assert_eq!(reg.organizations()[1].version, None);
    let next = CreateSnapshotRequest { version: "8".to_string(), ..request.clone() };
    create_snapshot(&mut reg, &next).unwrap();
    let listed = get_snapshots(&reg, "acme-corp");
    assert_eq!(listed.len(), 2);
    assert_eq!(listed[0].version, "7");
    assert_eq!(listed[0].created_at, Timestamp { micros: 11 });
    assert_eq!(listed[1].version, "8");
    assert!(listed[1].created_at.micros > 11);
    assert!(get_snapshots(&reg, "umbrella").is_empty());
}

#[test]
fn a_snapshot_of_a_missing_organization_stays_recorded() {
    let mut reg = two_organizations();
    let request = CreateSnapshotRequest {
        version: "1".to_string(),
        org_id: "nobody".to_string(),
        infra_repo_origin: String::new(),
        quick_links: String::new(),
    };
    assert_eq!(create_snapshot(&mut reg, &request).unwrap_err().kind, ErrorKind::NotFound);
    assert_eq!(get_snapshots(&reg, "nobody").len(), 1);
    assert_eq!(reg.organizations()[0].version, None);
}

#[test]
fn a_new_organization_and_a_snapshot_need_room() {
    let mut reg = Registry::starting_at(i64::MAX);
    let refused = create_organization(&mut reg, &named("Acme"), GroupAnswer::NotAsked).unwrap_err();
    assert_eq!(refused.kind, ErrorKind::StoreUnavailable);
    let request = CreateSnapshotRequest {
        version: "1".to_string(),
        org_id: "acme".to_string(),
        infra_repo_origin: String::new(),
        quick_links: String::new(),
    };
    assert_eq!(create_snapshot(&mut reg, &request).unwrap_err().kind, ErrorKind::StoreUnavailable);
    assert!(reg.snapshots().is_empty());
}
