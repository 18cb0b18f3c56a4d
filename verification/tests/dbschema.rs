use metadata_registry::clock::Timestamp;
use metadata_registry::error::ErrorKind;
use metadata_registry::models::request::{
    CreateDbschemaBranchRequest, CreateDbschemaRequest, UpdateDbPipelineRequest,
    UpdateDbschemaBranchRequest, UpdateDbschemaRequest,
};
use metadata_registry::registry::Registry;
use metadata_registry::config::Config;
use metadata_registry::routes::dbschema::{
    create_dbschema, create_dbschema_branch, create_dbschema_branch_at, create_dbschema_with,
    dbschema_group_request, fetch_dbschema_by_id, fetch_dbschemas_and_tables, get_dbschema_by_id,
    get_dbschema_by_id_public, get_dbschema_by_id_userland, get_dbschemas,
    get_dbschemas_and_tables, get_dbschemas_and_tables_public,
    get_dbschemas_and_tables_user_land, update_dbschema, update_dbschema_at,
    update_dbschema_branch, update_dbschema_branch_at,
};
use metadata_registry::routes::pipeline::update_db_pipeline;

fn at(micros: i64) -> Timestamp {
    Timestamp { micros }
}

fn request(name: &str, org: &str, data: Option<&str>) -> CreateDbschemaRequest {
    CreateDbschemaRequest {
        name: name.to_string(),
        description: Some(format!("the {} schema", name)),
        data: data.map(|d| d.to_string()),
        organisation_id: org.to_string(),
        db_type: "rdbms".to_string(),
        repo_origin: "https://example.org/repo".to_string(),
        version: "0.1.0".to_string(),
        quick_links: None,
    }
}

fn is_uuid(s: &str) -> bool {
    let b = s.as_bytes();
    b.len() == 36
        && b.iter().enumerate().all(|(i, c)| match i {
            8 | 13 | 18 | 23 => *c == b'-',
            _ => c.is_ascii_digit() || (b'a'..=b'f').contains(c),
        })
        && b[14] == b'4'
        && matches!(b[19], b'8' | b'9' | b'a' | b'b')
}

#[test]
fn a_created_schema_is_found_under_its_identifier() {
    let mut reg = Registry::new();
    let created = create_dbschema(&mut reg, &request("orders", "acme", None), None).unwrap();
    assert_eq!(created.message, "Dbschema created successfully");
    assert_eq!(created.id, 1);
    assert!(is_uuid(&created.identifier), "{}", created.identifier);
    let found = fetch_dbschema_by_id(&reg, &created.identifier, None).unwrap();
    assert_eq!(found.id, 1);
    assert_eq!(found.name, "orders");
    assert_eq!(found.description, Some("the orders schema".to_string()));
    assert_eq!(found.org_id, Some("acme".to_string()));
    assert_eq!(found.version, None);
    assert_eq!(found.branch_id, None);
    assert_eq!(found.group_id, None);
    assert!(found.updated_at.micros >= 0);
}

#[test]
fn a_taken_identifier_is_a_conflict() {
    let mut reg = Registry::new();
    create_dbschema_with(&mut reg, &request("orders", "acme", None), None, "id-1".to_string(), at(1)).unwrap();
    let refused =
        create_dbschema_with(&mut reg, &request("users", "other", None), None, "id-1".to_string(), at(2))
            .unwrap_err();
    assert_eq!(refused.kind, ErrorKind::Conflict);
    assert_eq!(reg.dbschemas().len(), 1);
    assert_eq!(reg.dbschema_branches().len(), 1);
    assert_eq!(fetch_dbschema_by_id(&reg, "id-1", None).unwrap().name, "orders");
}

#[test]
fn a_group_is_asked_for_a_schema_where_the_identity_service_is_used() {
    let on = Config { identity_integration: true, notification_integration: false };
    let off = Config { identity_integration: false, notification_integration: true };
    let name = dbschema_group_request(&on).unwrap();
    assert!(is_uuid(&name), "{}", name);
    assert_ne!(name, dbschema_group_request(&on).unwrap());
    assert_eq!(dbschema_group_request(&off), None);
}

#[test]
fn identifiers_are_fresh() {
    let mut reg = Registry::new();
    let a = create_dbschema(&mut reg, &request("a", "acme", None), None).unwrap();
    let b = create_dbschema(&mut reg, &request("b", "acme", None), None).unwrap();
    assert_ne!(a.identifier, b.identifier);
    assert_eq!(b.id, 2);
}

#[test]
fn a_new_schema_has_the_branch_stage() {
    let mut reg = Registry::new();
    let group = Some("g1".to_string());
    let created =
        create_dbschema_with(&mut reg, &request("orders", "acme", Some("[]")), group, "id-1".to_string(), at(7))
            .unwrap();
    assert_eq!(created.identifier, "id-1");
    let row = &reg.dbschemas()[0];
    assert_eq!(row.created_at, at(7));
    assert_eq!(row.updated_at, at(7));
    assert_eq!(row.group_id, Some("g1".to_string()));
    assert_eq!(row.identifier, Some("id-1".to_string()));
    assert_eq!(row.repo_origin, Some("https://example.org/repo".to_string()));
    assert_eq!(row.db_type, "rdbms");
    let branch = &reg.dbschema_branches()[0];
    assert_eq!(branch.parent_id, 1);
    assert_eq!(branch.branch_name, "stage");
    assert_eq!(branch.data, None);
    assert_eq!(branch.version, Some("0.1.0".to_string()));
    assert_eq!(branch.pipeline_status, None);
    assert_eq!(branch.created_at, at(7));
    let stage = "stage".to_string();
    let seen = fetch_dbschema_by_id(&reg, "id-1", Some(&stage)).unwrap();
    assert_eq!(seen.version, Some("0.1.0".to_string()));
    assert_eq!(seen.branch_id, Some(1));
    assert_eq!(seen.data, Some("[]".to_string()));
    assert_eq!(seen.pipeline_status, None);
}

#[test]
fn a_missing_schema_or_branch_is_not_found() {
    let mut reg = Registry::new();
    create_dbschema_with(&mut reg, &request("orders", "acme", None), None, "id-1".to_string(), at(1)).unwrap();
    let prod = "prod".to_string();
    assert_eq!(fetch_dbschema_by_id(&reg, "id-2", None).unwrap_err().kind, ErrorKind::NotFound);
    assert_eq!(fetch_dbschema_by_id(&reg, "id-1", Some(&prod)).unwrap_err().kind, ErrorKind::NotFound);
    assert_eq!(get_dbschema_by_id(&reg, "id-2", None).unwrap_err().kind, ErrorKind::NotFound);
    assert_eq!(get_dbschema_by_id_public(&reg, "id-1", Some(&prod)).unwrap_err().kind, ErrorKind::NotFound);
    assert_eq!(get_dbschema_by_id_userland(&reg, "id-1", None).unwrap().name, "orders");
}

#[test]
fn the_data_of_a_branch_overrides_the_data_of_the_schema() {
    let mut reg = Registry::new();
    create_dbschema_with(&mut reg, &request("orders", "acme", Some("base")), None, "id-1".to_string(), at(1))
        .unwrap();
    let with_data = CreateDbschemaBranchRequest { branch_name: "prod".to_string(), data: Some("override".to_string()) };
    let without = CreateDbschemaBranchRequest { branch_name: "dev".to_string(), data: None };
    let created = create_dbschema_branch(&mut reg, 1, &with_data).unwrap();
    assert_eq!(created.message, "Dbschema branch created successfully");
    assert_eq!(created.id, 2);
    assert_eq!(create_dbschema_branch_at(&mut reg, 1, &without, at(9)).unwrap().id, 3);
    let prod = "prod".to_string();
    let dev = "dev".to_string();
    let on_prod = fetch_dbschema_by_id(&reg, "id-1", Some(&prod)).unwrap();
    assert_eq!(on_prod.data, Some("override".to_string()));
    assert_eq!(on_prod.branch_id, Some(2));
    assert_eq!(on_prod.version, None);
    let on_dev = fetch_dbschema_by_id(&reg, "id-1", Some(&dev)).unwrap();
    assert_eq!(on_dev.data, Some("base".to_string()));
    assert_eq!(on_dev.branch_id, Some(3));
    assert_eq!(fetch_dbschema_by_id(&reg, "id-1", None).unwrap().data, Some("base".to_string()));
    assert_eq!(reg.dbschema_branches()[2].updated_at, at(9));
}

#[test]
fn a_second_branch_of_a_name_is_a_conflict() {
    let mut reg = Registry::new();
    create_dbschema_with(&mut reg, &request("orders", "acme", None), None, "id-1".to_string(), at(1)).unwrap();
    let prod = CreateDbschemaBranchRequest { branch_name: "prod".to_string(), data: None };
    create_dbschema_branch(&mut reg, 1, &prod).unwrap();
    assert_eq!(create_dbschema_branch(&mut reg, 1, &prod).unwrap_err().kind, ErrorKind::Conflict);
    let stage = CreateDbschemaBranchRequest { branch_name: "stage".to_string(), data: None };
    assert_eq!(create_dbschema_branch(&mut reg, 1, &stage).unwrap_err().kind, ErrorKind::Conflict);
    assert_eq!(create_dbschema_branch(&mut reg, 2, &prod).unwrap_err().kind, ErrorKind::NotFound);
    assert_eq!(reg.dbschema_branches().len(), 2);
}

#[test]
fn a_schema_is_updated_with_the_version_of_a_branch() {
    let mut reg = Registry::new();
    create_dbschema_with(&mut reg, &request("orders", "acme", Some("d")), Some("g".to_string()), "id-1".to_string(), at(1))
        .unwrap();
    let update = UpdateDbschemaRequest {
        name: "orders2".to_string(),
        description: None,
        organisation_id: "acme2".to_string(),
        repo_origin: "https://example.org/other".to_string(),
        version: "0.2.0".to_string(),
        quick_links: Some("[]".to_string()),
    };
    let row = update_dbschema_at(&mut reg, "id-1", "stage", &update, at(5)).unwrap();
    assert_eq!(row.name, "orders2");
    assert_eq!(row.description, None);
    assert_eq!(row.organization_id, Some("acme2".to_string()));
    assert_eq!(row.repo_origin, Some("https://example.org/other".to_string()));
    assert_eq!(row.quick_links, Some("[]".to_string()));
    assert_eq!(row.updated_at, at(5));
    assert_eq!(row.created_at, at(1));
    assert_eq!(row.data, Some("d".to_string()));
    assert_eq!(row.group_id, Some("g".to_string()));
    assert_eq!(row.identifier, Some("id-1".to_string()));
    assert_eq!(&row, &reg.dbschemas()[0]);
    assert_eq!(reg.dbschema_branches()[0].version, Some("0.2.0".to_string()));
    assert_eq!(reg.dbschema_branches()[0].updated_at, at(5));
    let again = update_dbschema(&mut reg, "id-1", "nowhere", &update).unwrap();
    assert_eq!(again.name, "orders2");
    assert_eq!(reg.dbschema_branches()[0].updated_at, at(5));
    assert_eq!(update_dbschema(&mut reg, "id-9", "stage", &update).unwrap_err().kind, ErrorKind::NotFound);
}

#[test]
fn a_branch_is_updated_by_a_member_of_the_group() {
    let mut reg = Registry::new();
    create_dbschema_with(&mut reg, &request("orders", "acme", None), Some("g".to_string()), "id-1".to_string(), at(1))
        .unwrap();
    create_dbschema_with(&mut reg, &request("users", "acme", None), None, "id-2".to_string(), at(1)).unwrap();
    create_dbschema_branch(&mut reg, 1, &CreateDbschemaBranchRequest { branch_name: "prod".to_string(), data: None })
        .unwrap();
    let member = vec!["x".to_string(), "g".to_string()];
    let stranger = vec!["x".to_string()];
    let rename = UpdateDbschemaBranchRequest {
        branch_name: "live".to_string(),
        data: Some("[]".to_string()),
        merged: None,
    };
    assert_eq!(
        update_dbschema_branch(&mut reg, "id-9", 3, &rename, &member).unwrap_err().kind,
        ErrorKind::NotFound
    );
    assert_eq!(
        update_dbschema_branch(&mut reg, "id-1", 3, &rename, &stranger).unwrap_err().kind,
        ErrorKind::Forbidden
    );
    assert_eq!(
        update_dbschema_branch(&mut reg, "id-2", 2, &rename, &member).unwrap_err().kind,
        ErrorKind::Forbidden
    );
    assert_eq!(
        update_dbschema_branch(&mut reg, "id-1", 2, &rename, &member).unwrap_err().kind,
        ErrorKind::NotFound
    );
    assert_eq!(
        update_dbschema_branch(&mut reg, "id-1", 9, &rename, &member).unwrap_err().kind,
        ErrorKind::NotFound
    );
    let taken = UpdateDbschemaBranchRequest { branch_name: "stage".to_string(), data: None, merged: None };
    assert_eq!(
        update_dbschema_branch(&mut reg, "id-1", 3, &taken, &member).unwrap_err().kind,
        ErrorKind::Conflict
    );
    assert_eq!(reg.dbschema_branches()[2].branch_name, "prod");
    let done = update_dbschema_branch_at(&mut reg, "id-1", 3, &rename, &member, at(8)).unwrap();
    assert_eq!(done.message, "Dbschema branch updated successfully");
    assert_eq!(done.id, 3);
    let row = &reg.dbschema_branches()[2];
    assert_eq!(row.branch_name, "live");
    assert_eq!(row.data, Some("[]".to_string()));
    assert_eq!(row.updated_at, at(8));
    assert_eq!(row.parent_id, 1);
    let same = UpdateDbschemaBranchRequest { branch_name: "live".to_string(), data: None, merged: Some(true) };
    assert!(update_dbschema_branch(&mut reg, "id-1", 3, &same, &member).is_ok());
    assert_eq!(reg.dbschema_branches()[2].data, None);
}

#[test]
fn schemas_are_listed_for_the_groups_of_the_caller() {
    let mut reg = Registry::new();
    for (i, name) in ["orders", "users", "borders", "other"].iter().enumerate() {
        let group = if i == 3 { None } else { Some(format!("g{}", i % 2)) };
        create_dbschema_with(&mut reg, &request(name, "acme", None), group, format!("id-{}", i), at(i as i64)).unwrap();
    }
    let both = vec!["g0".to_string(), "g1".to_string()];
    let all = get_dbschemas(&reg, &both, None, None, None).unwrap();
    assert_eq!(all.iter().map(|d| d.name.as_str()).collect::<Vec<_>>(), vec!["orders", "users", "borders"]);
    assert_eq!(all[0].id, 1);
    assert_eq!(all[0].identifier, Some("id-0".to_string()));
    assert_eq!(all[0].organization_id, "acme");
    assert_eq!(all[0].description, Some("the orders schema".to_string()));
    assert_eq!(all[2].updated_at, at(2));
    let g0 = vec!["g0".to_string()];
    let mine = get_dbschemas(&reg, &g0, None, None, None).unwrap();
    assert_eq!(mine.iter().map(|d| d.name.as_str()).collect::<Vec<_>>(), vec!["orders", "borders"]);
    let term = "order".to_string();
    let found = get_dbschemas(&reg, &both, Some(&term), None, None).unwrap();
    assert_eq!(found.iter().map(|d| d.name.as_str()).collect::<Vec<_>>(), vec!["orders", "borders"]);
    let second = get_dbschemas(&reg, &both, None, Some(2), Some(2)).unwrap();
    assert_eq!(second.iter().map(|d| d.name.as_str()).collect::<Vec<_>>(), vec!["borders"]);
    let clamped = get_dbschemas(&reg, &both, None, Some(0), Some(0)).unwrap();
    assert_eq!(clamped.iter().map(|d| d.name.as_str()).collect::<Vec<_>>(), vec!["orders"]);
    assert!(get_dbschemas(&reg, &both, None, Some(5), None).unwrap().is_empty());
    assert!(get_dbschemas(&reg, &Vec::new(), None, None, None).unwrap().is_empty());
    let wildcard = "%".to_string();
    assert!(get_dbschemas(&reg, &both, Some(&wildcard), None, None).unwrap().is_empty());
}

#[test]
fn schemas_are_listed_with_their_tables() {
    let mut reg = Registry::new();
    let base = r#"[{"data": {"name": "users"}}, {"data": {"name": "orders"}}]"#;
    create_dbschema_with(&mut reg, &request("a", "acme", Some(base)), None, "id-a".to_string(), at(1)).unwrap();
    create_dbschema_with(&mut reg, &request("b", "acme", None), None, "id-b".to_string(), at(2)).unwrap();
    create_dbschema_with(&mut reg, &request("c", "other", Some("oops")), None, "id-c".to_string(), at(3)).unwrap();
    let listed = fetch_dbschemas_and_tables(&reg, "stage", "acme").unwrap();
    assert_eq!(listed.len(), 2);
    assert_eq!(listed[0].name, "a");
    assert_eq!(listed[0].tables, vec!["users".to_string(), "orders".to_string()]);
    assert_eq!(listed[0].version, Some("0.1.0".to_string()));
    assert_eq!(listed[0].pipeline_status, None);
    assert_eq!(listed[0].db_type, Some("rdbms".to_string()));
    assert_eq!(listed[0].organization_id, "acme");
    assert_eq!(listed[0].identifier, Some("id-a".to_string()));
    assert_eq!(listed[1].tables, Vec::<String>::new());
    let over = CreateDbschemaBranchRequest {
        branch_name: "prod".to_string(),
        data: Some(r#"[{"data": {"name": "carts"}}, {"nothing": 1}]"#.to_string()),
    };
    create_dbschema_branch(&mut reg, 1, &over).unwrap();
    assert_eq!(
        get_dbschemas_and_tables(&reg, "prod", "acme").unwrap_err().kind,
        ErrorKind::NotFound
    );
    create_dbschema_branch(&mut reg, 2, &CreateDbschemaBranchRequest { branch_name: "prod".to_string(), data: None })
        .unwrap();
    let on_prod = get_dbschemas_and_tables_public(&reg, "prod", "acme").unwrap();
    assert_eq!(on_prod[0].tables, vec!["carts".to_string()]);
    assert_eq!(on_prod[0].version, None);
    assert_eq!(
        get_dbschemas_and_tables_user_land(&reg, "stage", "other").unwrap_err().kind,
        ErrorKind::Validation
    );
    assert!(fetch_dbschemas_and_tables(&reg, "stage", "nobody").unwrap().is_empty());
}

#[test]
fn the_pipeline_of_a_branch_is_set_by_the_name_of_the_schema() {
    let mut reg = Registry::new();
    create_dbschema_with(&mut reg, &request("orders", "acme", None), None, "id-1".to_string(), at(1)).unwrap();
    let passing = UpdateDbPipelineRequest { status: "passing".to_string() };
    let row = update_db_pipeline(&mut reg, "acme", "orders", "stage", &passing).unwrap();
    assert_eq!(row.name, "orders");
    assert_eq!(&row, &reg.dbschemas()[0]);
    assert_eq!(reg.dbschema_branches()[0].pipeline_status, Some("passing".to_string()));
    assert_eq!(reg.dbschema_branches()[0].updated_at, at(1));
    let stage = "stage".to_string();
    assert_eq!(
        fetch_dbschema_by_id(&reg, "id-1", Some(&stage)).unwrap().pipeline_status,
        Some("passing".to_string())
    );
    assert_eq!(fetch_dbschema_by_id(&reg, "id-1", None).unwrap().pipeline_status, None);
    assert_eq!(
        update_db_pipeline(&mut reg, "acme", "orders", "prod", &passing).unwrap_err().kind,
        ErrorKind::NotFound
    );
    assert_eq!(
        update_db_pipeline(&mut reg, "acme", "users", "stage", &passing).unwrap_err().kind,
        ErrorKind::NotFound
    );
    assert_eq!(
        update_db_pipeline(&mut reg, "other", "orders", "stage", &passing).unwrap_err().kind,
        ErrorKind::NotFound
    );
    let odd = UpdateDbPipelineRequest { status: "green".to_string() };
    assert_eq!(
        update_db_pipeline(&mut reg, "acme", "orders", "stage", &odd).unwrap_err().kind,
        ErrorKind::Validation
    );
    assert_eq!(
        update_db_pipeline(&mut reg, "acme", "users", "stage", &odd).unwrap_err().kind,
        ErrorKind::NotFound
    );
    assert_eq!(
        update_db_pipeline(&mut reg, "acme", "orders", "prod", &odd).unwrap_err().kind,
        ErrorKind::NotFound
    );
    assert_eq!(reg.dbschema_branches()[0].pipeline_status, Some("passing".to_string()));
}

#[test]
fn a_schema_needs_room_for_itself_and_its_branch() {
    let mut reg = Registry::starting_at(i64::MAX);
    let refused = create_dbschema(&mut reg, &request("orders", "acme", None), None).unwrap_err();
    assert_eq!(refused.kind, ErrorKind::StoreUnavailable);
    assert!(reg.dbschemas().is_empty());
    assert!(reg.dbschema_branches().is_empty());
    let mut reg = Registry::starting_at(i64::MAX - 1);
    create_dbschema(&mut reg, &request("orders", "acme", None), None).unwrap();
    let prod = CreateDbschemaBranchRequest { branch_name: "prod".to_string(), data: None };
    assert_eq!(
        create_dbschema_branch(&mut reg, i64::MAX - 1, &prod).unwrap_err().kind,
        ErrorKind::StoreUnavailable
    );
}
