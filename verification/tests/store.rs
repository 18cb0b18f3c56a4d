use metadata_registry::clock::Timestamp;
use metadata_registry::error::ErrorKind;
use metadata_registry::models::schema::{
    DbschemaInsertable, Dbschema_BranchInsertable, OrganizationInsertable, PackageInsertable,
    Package_EnvInsertable, ServiceInsertable, Service_EnvsInsertable, SnapshotsInsertable,
    TemplatesInsertable,
};
use metadata_registry::registry::Registry;
use metadata_registry::routes::catalog::get_all_templates;

fn at(micros: i64) -> Timestamp {
    Timestamp { micros }
}

fn schema(name: &str, identifier: &str, org: &str) -> DbschemaInsertable {
    DbschemaInsertable {
        name: name.to_string(),
        description: None,
        created_at: at(1),
        updated_at: at(1),
        data: None,
        group_id: None,
        identifier: Some(identifier.to_string()),
        organization_id: Some(org.to_string()),
        repo_origin: None,
        db_type: "rdbms".to_string(),
        quick_links: None,
    }
}

fn branch(parent_id: i64, name: &str) -> Dbschema_BranchInsertable {
    Dbschema_BranchInsertable {
        parent_id,
        branch_name: name.to_string(),
        data: None,
        created_at: at(1),
        updated_at: at(1),
        version: None,
        pipeline_status: None,
    }
}

fn service(identifier: &str) -> ServiceInsertable {
    ServiceInsertable {
        identifier: identifier.to_string(),
        group_id: None,
        db_schema_id: None,
        tables_json: None,
        dependencies_json: None,
        service_type: "api".to_string(),
        lang: None,
        description: None,
        organization_id: None,
        repo_origin: None,
        cache_schema_id: None,
        message_queue_schema_id: None,
        quick_links: None,
    }
}

fn package(identifier: &str) -> PackageInsertable {
    PackageInsertable {
        identifier: identifier.to_string(),
        package_type: "library".to_string(),
        lang: "rust".to_string(),
        group_id: None,
        updated_at: at(1),
        created_at: None,
        organization_id: None,
        description: None,
        dependencies_json: None,
        repo_origin: None,
        quick_links: None,
    }
}

fn organization(slug: &str, group: &str) -> OrganizationInsertable {
    OrganizationInsertable {
        slug: slug.to_string(),
        group_id: group.to_string(),
        is_active: true,
        blocks_positions: None,
        name: None,
        is_public: false,
        infra_repo_origin: None,
        quick_links: None,
        version: None,
    }
}

#[test]
fn a_new_registry_is_empty() {
    let reg = Registry::new();
    assert!(reg.dbschemas().is_empty());
    assert!(reg.dbschema_branches().is_empty());
    assert!(reg.templates().is_empty());
    assert!(reg.services().is_empty());
    assert!(reg.service_envs().is_empty());
    assert!(reg.packages().is_empty());
    assert!(reg.package_envs().is_empty());
    assert!(reg.organizations().is_empty());
    assert!(reg.snapshots().is_empty());
}

#[test]
fn ids_are_given_from_one_on_in_each_table() {
    let mut reg = Registry::new();
    assert_eq!(reg.insert_dbschema(schema("a", "ia", "o")).unwrap(), 1);
    assert_eq!(reg.insert_dbschema(schema("b", "ib", "o")).unwrap(), 2);
    assert_eq!(reg.insert_dbschema_branch(branch(1, "stage")).unwrap(), 1);
    assert_eq!(reg.insert_organization(organization("o", "g")).unwrap(), 1);
    assert_eq!(reg.dbschemas().len(), 2);
    assert_eq!(reg.dbschemas()[1].name, "b");
    assert_eq!(reg.dbschemas()[1].id, 2);
}

#[test]
fn rows_are_found_by_their_keys() {
    let mut reg = Registry::new();
    reg.insert_dbschema(schema("a", "ia", "o1")).unwrap();
    reg.insert_dbschema(schema("b", "ib", "o2")).unwrap();
    reg.insert_dbschema(schema("c", "ic", "o3")).unwrap();
    assert_eq!(reg.find_dbschema("ia"), Some(0));
    assert_eq!(reg.find_dbschema("ib"), Some(1));
    assert_eq!(reg.find_dbschema("id"), None);
    assert_eq!(reg.find_dbschema_in("ic", "o3"), Some(2));
    assert_eq!(reg.find_dbschema_in("ib", "o1"), None);
    assert_eq!(reg.find_dbschema_named("c", "o3"), Some(2));
    assert_eq!(reg.find_dbschema_named("c", "o2"), None);
}

#[test]
fn an_identifier_names_one_schema() {
    let mut reg = Registry::new();
    reg.insert_dbschema(schema("a", "ia", "o1")).unwrap();
    let refused = reg.insert_dbschema(schema("b", "ia", "o2")).unwrap_err();
    assert_eq!(refused.kind, ErrorKind::Conflict);
    assert_eq!(reg.dbschemas().len(), 1);
    let mut unnamed = schema("c", "", "o1");
    unnamed.identifier = None;
    assert_eq!(reg.insert_dbschema(unnamed.clone()).unwrap(), 2);
    assert_eq!(reg.insert_dbschema(unnamed).unwrap(), 3);
}

#[test]
fn a_branch_or_an_environment_needs_its_parent() {
    let mut reg = Registry::new();
    assert_eq!(reg.insert_dbschema_branch(branch(1, "stage")).unwrap_err().kind, ErrorKind::NotFound);
    let env = Service_EnvsInsertable {
        parent_id: 1,
        spec: "{}".to_string(),
        env: "stage".to_string(),
        base_url: "http://x".to_string(),
        base_url_ws: None,
        updated_at: None,
        version: "1.0.0".to_string(),
        pipeline_status: None,
    };
    assert_eq!(reg.insert_service_env(env.clone()).unwrap_err().kind, ErrorKind::NotFound);
    let penv = Package_EnvInsertable {
        version: "1.0.0".to_string(),
        env: "stage".to_string(),
        parent_id: 1,
        pipeline_status: None,
    };
    assert_eq!(reg.insert_package_env(penv.clone()).unwrap_err().kind, ErrorKind::NotFound);
    assert!(reg.dbschema_branches().is_empty());
    assert!(reg.service_envs().is_empty());
    assert!(reg.package_envs().is_empty());
    reg.insert_dbschema(schema("a", "ia", "o")).unwrap();
    reg.insert_service(service("s")).unwrap();
    reg.insert_package(package("p")).unwrap();
    assert_eq!(reg.insert_dbschema_branch(branch(1, "stage")).unwrap(), 1);
    assert_eq!(reg.insert_service_env(env).unwrap(), 1);
    assert_eq!(reg.insert_package_env(penv).unwrap(), 1);
    assert_eq!(reg.insert_dbschema_branch(branch(2, "stage")).unwrap_err().kind, ErrorKind::NotFound);
}

#[test]
fn a_schema_has_one_branch_of_a_name() {
    let mut reg = Registry::new();
    reg.insert_dbschema(schema("a", "ia", "o")).unwrap();
    reg.insert_dbschema(schema("b", "ib", "o")).unwrap();
    reg.insert_dbschema_branch(branch(1, "stage")).unwrap();
    assert_eq!(reg.insert_dbschema_branch(branch(1, "stage")).unwrap_err().kind, ErrorKind::Conflict);
    assert_eq!(reg.insert_dbschema_branch(branch(1, "prod")).unwrap(), 2);
    assert_eq!(reg.insert_dbschema_branch(branch(2, "stage")).unwrap(), 3);
    assert_eq!(reg.dbschema_branches().len(), 3);
    assert_eq!(reg.find_branch(1, "prod"), Some(1));
    assert_eq!(reg.find_branch(3, "prod"), None);
    assert_eq!(reg.find_branch_by_id(3, 2), Some(2));
    assert_eq!(reg.find_branch_by_id(3, 1), None);
}

#[test]
fn a_service_and_a_package_have_one_row_for_an_environment() {
    let mut reg = Registry::new();
    for name in ["a", "b"] {
        reg.insert_service(service(name)).unwrap();
        reg.insert_package(package(name)).unwrap();
    }
    let env = |parent_id: i64, env: &str| Service_EnvsInsertable {
        parent_id,
        spec: "{}".to_string(),
        env: env.to_string(),
        base_url: "http://x".to_string(),
        base_url_ws: None,
        updated_at: None,
        version: "1.0.0".to_string(),
        pipeline_status: None,
    };
    assert_eq!(reg.insert_service_env(env(1, "stage")).unwrap(), 1);
    assert_eq!(reg.insert_service_env(env(1, "stage")).unwrap_err().kind, ErrorKind::Conflict);
    assert_eq!(reg.insert_service_env(env(1, "prod")).unwrap(), 2);
    let penv = |parent_id: i64, env: &str| Package_EnvInsertable {
        version: "1.0.0".to_string(),
        env: env.to_string(),
        parent_id,
        pipeline_status: None,
    };
    assert_eq!(reg.insert_package_env(penv(1, "stage")).unwrap(), 1);
    assert_eq!(reg.insert_package_env(penv(1, "stage")).unwrap_err().kind, ErrorKind::Conflict);
    assert_eq!(reg.insert_package_env(penv(2, "stage")).unwrap(), 2);
    assert_eq!(reg.service_envs().len(), 2);
    assert_eq!(reg.package_envs().len(), 2);
}

#[test]
fn a_slug_names_one_organization() {
    let mut reg = Registry::new();
    reg.insert_organization(organization("acme", "g1")).unwrap();
    assert_eq!(
        reg.insert_organization(organization("acme", "g2")).unwrap_err().kind,
        ErrorKind::Conflict
    );
    assert_eq!(reg.insert_organization(organization("other", "g1")).unwrap(), 2);
    assert_eq!(reg.find_organization("other"), Some(1));
    assert_eq!(reg.find_organization_of_group("g1"), Some(0));
    assert_eq!(reg.find_organization_of_group("g2"), None);
    assert_eq!(reg.find_organization_owned("other", &vec!["g1".to_string()]), Some(1));
    assert_eq!(reg.find_organization_owned("other", &vec!["g2".to_string()]), None);
}

#[test]
fn templates_and_snapshots_are_kept_in_order() {
    let mut reg = Registry::new();
    for name in ["api", "worker"] {
        reg.insert_template(TemplatesInsertable {
            short_name: name.to_string(),
            description: format!("a {}", name),
            repo_link: format!("https://example.org/{}", name),
            identifier: name.to_string(),
        })
        .unwrap();
    }
    let listed = get_all_templates(&reg);
    assert_eq!(listed.len(), 2);
    assert_eq!(listed[0].short_name, "api");
    assert_eq!(listed[0].id, 1);
    assert_eq!(listed[1].repo_link, "https://example.org/worker");
    assert_eq!(&listed, reg.templates());
    let id = reg
        .insert_snapshot(SnapshotsInsertable {
            version: "1".to_string(),
            created_at: at(5),
            updated_at: at(5),
            organization_id: "acme".to_string(),
        })
        .unwrap();
    assert_eq!(id, 1);
    assert_eq!(reg.snapshots()[0].created_at, at(5));
}

#[test]
fn ids_can_start_anywhere() {
    let mut reg = Registry::starting_at(100);
    assert_eq!(reg.insert_dbschema(schema("a", "ia", "o")).unwrap(), 100);
    assert_eq!(reg.insert_dbschema(schema("b", "ib", "o")).unwrap(), 101);
    assert_eq!(reg.insert_organization(organization("o", "g")).unwrap(), 100);
    let mut low = Registry::starting_at(-5);
    assert_eq!(low.insert_dbschema(schema("a", "ia", "o")).unwrap(), 1);
}

#[test]
fn a_full_table_takes_no_row() {
    let mut reg = Registry::starting_at(i64::MAX - 1);
    assert_eq!(reg.insert_dbschema(schema("a", "ia", "o")).unwrap(), i64::MAX - 1);
    let refused = reg.insert_dbschema(schema("b", "ib", "o")).unwrap_err();
    assert_eq!(refused.kind, ErrorKind::StoreUnavailable);
    assert_eq!(refused.http_status(), 503);
    assert_eq!(reg.dbschemas().len(), 1);
    let parent = i64::MAX - 1;
    assert_eq!(reg.insert_dbschema_branch(branch(parent, "stage")).unwrap(), i64::MAX - 1);
    assert_eq!(
        reg.insert_dbschema_branch(branch(parent, "stage")).unwrap_err().kind,
        ErrorKind::Conflict
    );
    assert_eq!(
        reg.insert_dbschema_branch(branch(parent, "prod")).unwrap_err().kind,
        ErrorKind::StoreUnavailable
    );
}
