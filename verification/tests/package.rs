use metadata_registry::clock::Timestamp;
use metadata_registry::config::Config;
use metadata_registry::error::ErrorKind;
use metadata_registry::models::request::CreateOrUpdatePackageRequest;
use metadata_registry::models::schema::{PackageInsertable, Package_EnvInsertable};
use metadata_registry::registry::Registry;
use metadata_registry::routes::package::{
    create_or_update_package, create_or_update_package_at, fetch_user_packages,
    package_group_request,
    get_package_version, get_package_version_plain_text, get_user_packages,
    get_user_packages_public, get_user_packages_user_land,
};

fn at(micros: i64) -> Timestamp {
    Timestamp { micros }
}

fn request(identifier: &str, env: &str, version: &str, org: &str) -> CreateOrUpdatePackageRequest {
    CreateOrUpdatePackageRequest {
        identifier: identifier.to_string(),
        package_type: "library".to_string(),
        lang: "rust".to_string(),
        version: version.to_string(),
        description: "a package".to_string(),
        organization_id: org.to_string(),
        dependencies: vec!["serde".to_string()],
        env: env.to_string(),
        repo_origin: Some("https://example.org/p".to_string()),
        quick_links: None,
    }
}

#[test]
fn a_package_is_created_and_then_updated() {
    let mut reg = Registry::new();
    let done = create_or_update_package_at(&mut reg, &request("core", "stage", "1.0.0", "acme"), Some("g".to_string()), at(1))
        .unwrap();
    assert_eq!(done.message, "Package created or updated successfully");
    assert_eq!(done.package_id, 1);
    {
        let row = &reg.packages()[0];
        assert_eq!(row.identifier, "core");
        assert_eq!(row.created_at, Some(at(1)));
        assert_eq!(row.updated_at, at(1));
        assert_eq!(row.group_id, Some("g".to_string()));
        assert_eq!(row.dependencies_json, Some("[\"serde\"]".to_string()));
        assert_eq!(row.organization_id, Some("acme".to_string()));
        assert_eq!(reg.package_envs()[0].version, "1.0.0");
        assert_eq!(reg.package_envs()[0].pipeline_status, None);
    }
    let mut next = request("core", "stage", "1.1.0", "elsewhere");
    next.lang = "go".to_string();
    next.dependencies = vec![];
    let again = create_or_update_package_at(&mut reg, &next, None, at(2)).unwrap();
    assert_eq!(again.package_id, 1);
    assert_eq!(reg.packages().len(), 1);
    assert_eq!(reg.package_envs().len(), 1);
    let row = &reg.packages()[0];
    assert_eq!(row.lang, "go");
    assert_eq!(row.created_at, Some(at(1)));
    assert_eq!(row.updated_at, at(2));
    assert_eq!(row.group_id, Some("g".to_string()));
    assert_eq!(row.organization_id, Some("acme".to_string()));
    assert_eq!(row.dependencies_json, Some("[]".to_string()));
    assert_eq!(reg.package_envs()[0].version, "1.1.0");
    create_or_update_package(&mut reg, &request("core", "prod", "1.0.0", "acme"), None).unwrap();
    assert_eq!(reg.package_envs().len(), 2);
    assert!(reg.packages()[0].updated_at.micros > 2);
}

#[test]
fn packages_are_listed_for_an_environment() {
    let mut reg = Registry::new();
    create_or_update_package_at(&mut reg, &request("core", "stage", "1.0.0", "acme"), None, at(1)).unwrap();
    create_or_update_package_at(&mut reg, &request("cli", "prod", "2.0.0", "acme"), None, at(2)).unwrap();
    create_or_update_package_at(&mut reg, &request("ui", "stage", "3.0.0", "acme"), None, at(3)).unwrap();
    create_or_update_package_at(&mut reg, &request("far", "stage", "4.0.0", "other"), None, at(4)).unwrap();
    let listed = fetch_user_packages(&reg, "stage", "acme").unwrap();
    assert_eq!(listed.iter().map(|p| p.identifier.as_str()).collect::<Vec<_>>(), vec!["core", "ui"]);
    assert_eq!(listed[1].version, "3.0.0");
    assert_eq!(listed[1].updated_at, at(3));
    assert_eq!(listed[1].dependencies, vec!["serde".to_string()]);
    assert_eq!(listed[1].description, "a package");
    assert_eq!(listed[1].organization_id, "acme");
    assert_eq!(listed[1].package_type, "library");
    assert_eq!(listed[1].lang, "rust");
    assert_eq!(listed[1].pipeline_status, None);
    assert_eq!(listed[1].repo_origin, Some("https://example.org/p".to_string()));
    assert_eq!(get_user_packages(&reg, "prod", "acme").unwrap().len(), 1);
    assert!(get_user_packages_public(&reg, "dev", "acme").unwrap().is_empty());
    assert_eq!(get_user_packages_user_land(&reg, "stage", "other").unwrap()[0].identifier, "far");
}

#[test]
fn a_package_without_a_list_has_no_dependencies() {
    let mut reg = Registry::new();
    let package = |identifier: &str, deps: Option<&str>| PackageInsertable {
        identifier: identifier.to_string(),
        package_type: "library".to_string(),
        lang: "rust".to_string(),
        group_id: None,
        updated_at: at(1),
        created_at: None,
        organization_id: Some("acme".to_string()),
        description: None,
        dependencies_json: deps.map(|d| d.to_string()),
        repo_origin: None,
        quick_links: None,
    };
    let env = |parent_id: i64| Package_EnvInsertable {
        version: "1".to_string(),
        env: "stage".to_string(),
        parent_id,
        pipeline_status: Some("failed".to_string()),
    };
    reg.insert_package(package("bare", None)).unwrap();
    reg.insert_package_env(env(1)).unwrap();
    let listed = fetch_user_packages(&reg, "stage", "acme").unwrap();
    assert_eq!(listed[0].dependencies, Vec::<String>::new());
    assert_eq!(listed[0].description, "");
    assert_eq!(listed[0].pipeline_status, Some("failed".to_string()));
    reg.insert_package(package("broken", Some("[1]"))).unwrap();
    assert_eq!(fetch_user_packages(&reg, "stage", "acme").unwrap().len(), 1);
    reg.insert_package_env(env(2)).unwrap();
    assert_eq!(fetch_user_packages(&reg, "stage", "acme").unwrap_err().kind, ErrorKind::Validation);
}

#[test]
fn the_latest_version_is_the_last_one_as_text() {
    let mut reg = Registry::new();
    create_or_update_package(&mut reg, &request("core", "dev", "1.0.0", "acme"), None).unwrap();
    create_or_update_package(&mut reg, &request("core", "stage", "2.0.0", "acme"), None).unwrap();
    create_or_update_package(&mut reg, &request("core", "prod", "10.0.0", "acme"), None).unwrap();
    assert_eq!(get_package_version_plain_text(&reg, "acme", "core").unwrap(), "2.0.0");
    assert_eq!(get_package_version(&reg, "acme", "core").unwrap().version, "2.0.0");
}

#[test]
fn the_latest_version_does_not_depend_on_the_order_of_the_rows() {
    for order in [["2.0.0", "10.0.0", "1.0.0"], ["10.0.0", "1.0.0", "2.0.0"], ["2.0.0", "2.0.0", "1.0.0"]] {
        let mut reg = Registry::new();
        for (i, v) in order.iter().enumerate() {
            create_or_update_package(&mut reg, &request("core", &format!("e{}", i), v, "acme"), None).unwrap();
        }
        assert_eq!(get_package_version_plain_text(&reg, "acme", "core").unwrap(), "2.0.0");
    }
}

#[test]
fn a_package_without_a_version_is_not_found() {
    let mut reg = Registry::new();
    create_or_update_package(&mut reg, &request("core", "dev", "1.0.0", "acme"), None).unwrap();
    assert_eq!(get_package_version_plain_text(&reg, "acme", "cli").unwrap_err().kind, ErrorKind::NotFound);
    assert_eq!(get_package_version_plain_text(&reg, "other", "core").unwrap_err().kind, ErrorKind::NotFound);
    assert_eq!(get_package_version(&reg, "other", "core").unwrap_err().kind, ErrorKind::NotFound);
    assert_eq!(get_package_version(&reg, "acme", "core").unwrap().version, "1.0.0");
}

#[test]
fn a_group_is_asked_for_a_package_that_is_new() {
    let mut reg = Registry::new();
    let on = Config { identity_integration: true, notification_integration: false };
    let off = Config { identity_integration: false, notification_integration: false };
    let req = request("core", "stage", "1.0.0", "acme");
    assert_eq!(package_group_request(&reg, &req, &on).unwrap().len(), 36);
    assert_eq!(package_group_request(&reg, &req, &off), None);
    create_or_update_package(&mut reg, &req, None).unwrap();
    assert_eq!(package_group_request(&reg, &req, &on), None);
}

#[test]
fn a_new_package_needs_room() {
    let mut reg = Registry::starting_at(i64::MAX);
    let refused = create_or_update_package(&mut reg, &request("core", "stage", "1.0.0", "acme"), None);
    assert_eq!(refused.unwrap_err().kind, ErrorKind::StoreUnavailable);
    assert!(reg.packages().is_empty());
}
