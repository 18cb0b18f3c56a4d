use metadata_registry::clock::Timestamp;
use metadata_registry::config::Config;
use metadata_registry::error::ErrorKind;
use metadata_registry::models::request::UpdateServiceRequest;
use metadata_registry::models::schema::ServiceInsertable;
use metadata_registry::registry::Registry;
use metadata_registry::routes::service::{
    fetch_service_and_env_by_id, fetch_services_and_envs, get_service_and_env_by_id,
    get_service_and_env_by_id_public, get_service_and_env_by_id_user_land, get_service_by_id,
    get_services_and_envs, get_services_and_envs_public, get_services_and_envs_user_land,
    read_page_param, service_group_request, update_or_create_service,
    update_or_create_service_at,
};
use metadata_registry::text::or_empty;

fn at(micros: i64) -> Timestamp {
    Timestamp { micros }
}

fn request(identifier: &str, env: &str, org: &str) -> UpdateServiceRequest {
    UpdateServiceRequest {
        identifier: identifier.to_string(),
        env: env.to_string(),
        base_url: format!("https://{}.{}.example.org", identifier, env),
        base_url_ws: None,
        spec: "{\"openapi\": \"3.0.0\"}".to_string(),
        dependencies: vec!["auth".to_string(), "a \"quoted\" name".to_string()],
        tables: vec!["users".to_string()],
        db_schema_id: Some("schema-1".to_string()),
        cache_schema_id: None,
        message_queue_schema_id: None,
        service_type: Some("RPCEndpoint".to_string()),
        version: Some("1.0.0".to_string()),
        lang: Some("rust".to_string()),
        description: "a service".to_string(),
        organization_id: org.to_string(),
        repo_origin: None,
        quick_links: None,
    }
}

#[test]
fn a_service_is_created_with_its_environment() {
    let mut reg = Registry::new();
    let done = update_or_create_service_at(&mut reg, &request("billing", "stage", "acme"), Some("g".to_string()), at(3))
        .unwrap();
    assert_eq!(done.message, "Service and environment updated successfully");
    assert_eq!(done.service_id, 1);
    let row = &reg.services()[0];
    assert_eq!(row.identifier, "billing");
    assert_eq!(row.group_id, Some("g".to_string()));
    assert_eq!(row.tables_json, Some("[\"users\"]".to_string()));
    assert_eq!(row.dependencies_json, Some("[\"auth\",\"a \\\"quoted\\\" name\"]".to_string()));
    assert_eq!(row.service_type, "RPCEndpoint");
    assert_eq!(row.lang, Some("rust".to_string()));
    assert_eq!(row.description, Some("a service".to_string()));
    assert_eq!(row.organization_id, Some("acme".to_string()));
    let env = &reg.service_envs()[0];
    assert_eq!(env.parent_id, 1);
    assert_eq!(env.env, "stage");
    assert_eq!(env.version, "1.0.0");
    assert_eq!(env.updated_at, Some(at(3)));
    assert_eq!(env.pipeline_status, None);
    assert_eq!(env.id, 1);
}

#[test]
fn a_service_is_updated_where_it_exists() {
    let mut reg = Registry::new();
    update_or_create_service_at(&mut reg, &request("billing", "stage", "acme"), Some("g".to_string()), at(3)).unwrap();
    let mut again = request("billing", "stage", "acme2");
    again.version = None;
    again.tables = vec![];
    again.base_url = "https://new".to_string();
    again.base_url_ws = Some("wss://new".to_string());
    let done = update_or_create_service_at(&mut reg, &again, Some("other".to_string()), at(4)).unwrap();
    assert_eq!(done.service_id, 1);
    assert_eq!(reg.services().len(), 1);
    assert_eq!(reg.service_envs().len(), 1);
    let row = &reg.services()[0];
    assert_eq!(row.group_id, Some("g".to_string()));
    assert_eq!(row.organization_id, Some("acme2".to_string()));
    assert_eq!(row.tables_json, Some("[]".to_string()));
    let env = &reg.service_envs()[0];
    assert_eq!(env.version, "0.0.0");
    assert_eq!(env.base_url, "https://new");
    assert_eq!(env.base_url_ws, Some("wss://new".to_string()));
    assert_eq!(env.updated_at, Some(at(4)));
    let prod = update_or_create_service(&mut reg, &request("billing", "prod", "acme2"), None).unwrap();
    assert_eq!(prod.service_id, 1);
    assert_eq!(reg.service_envs().len(), 2);
    assert_eq!(reg.service_envs()[1].env, "prod");
    assert!(reg.service_envs()[1].updated_at.unwrap().micros > 0);
}

#[test]
fn a_request_without_what_it_needs_is_refused() {
    let mut reg = Registry::new();
    let mut untyped = request("billing", "stage", "acme");
    untyped.service_type = None;
    assert_eq!(update_or_create_service(&mut reg, &untyped, None).unwrap_err().kind, ErrorKind::Validation);
    let mut unversioned = request("billing", "stage", "acme");
    unversioned.version = None;
    assert_eq!(update_or_create_service(&mut reg, &unversioned, None).unwrap_err().kind, ErrorKind::Validation);
    assert!(reg.services().is_empty());
    assert!(reg.service_envs().is_empty());
    let mut no_lang = request("billing", "stage", "acme");
    no_lang.lang = None;
    update_or_create_service(&mut reg, &no_lang, None).unwrap();
    assert_eq!(reg.services()[0].lang, None);
    assert_eq!(update_or_create_service(&mut reg, &no_lang, None).unwrap_err().kind, ErrorKind::Validation);
    unversioned.env = "prod".to_string();
    assert_eq!(update_or_create_service(&mut reg, &unversioned, None).unwrap_err().kind, ErrorKind::Validation);
    assert_eq!(reg.service_envs().len(), 1);
}

#[test]
fn an_environment_of_a_service_is_found_within_its_organization() {
    let mut reg = Registry::new();
    update_or_create_service(&mut reg, &request("billing", "stage", "acme"), None).unwrap();
    let shown = fetch_service_and_env_by_id(&reg, "acme", "billing", "stage").unwrap();
    assert_eq!(shown.spec, "{\"openapi\": \"3.0.0\"}");
    assert_eq!(shown.base_url, "https://billing.stage.example.org");
    assert_eq!(get_service_and_env_by_id(&reg, "acme", "billing", "prod").unwrap_err().kind, ErrorKind::NotFound);
    assert_eq!(get_service_and_env_by_id_public(&reg, "other", "billing", "stage").unwrap_err().kind, ErrorKind::NotFound);
    assert_eq!(get_service_and_env_by_id_user_land(&reg, "acme", "ledger", "stage").unwrap_err().kind, ErrorKind::NotFound);
}

#[test]
fn the_lists_of_a_service_come_back_as_they_were_given() {
    let mut reg = Registry::new();
    let req = request("billing", "stage", "acme");
    update_or_create_service(&mut reg, &req, Some("g".to_string())).unwrap();
    let shown = get_service_by_id(&reg, "billing", "acme").unwrap();
    assert_eq!(shown.id, 1);
    assert_eq!(shown.identifier, "billing");
    assert_eq!(shown.group_id, Some("g".to_string()));
    assert_eq!(shown.db_schema_id, "schema-1");
    assert_eq!(shown.dependencies, req.dependencies);
    assert_eq!(shown.tables, req.tables);
    assert_eq!(shown.description, "a service");
    assert_eq!(shown.organization_id, "acme");
    assert_eq!(get_service_by_id(&reg, "billing", "other").unwrap_err().kind, ErrorKind::NotFound);
}

#[test]
fn a_service_whose_lists_cannot_be_read_is_malformed() {
    let mut reg = Registry::new();
    let broken = |identifier: &str, tables: Option<&str>| ServiceInsertable {
        identifier: identifier.to_string(),
        group_id: None,
        db_schema_id: None,
        tables_json: tables.map(|t| t.to_string()),
        dependencies_json: Some("[]".to_string()),
        service_type: "x".to_string(),
        lang: None,
        description: None,
        organization_id: Some("acme".to_string()),
        repo_origin: None,
        cache_schema_id: None,
        message_queue_schema_id: None,
        quick_links: None,
    };
    reg.insert_service(broken("fine", Some("[\"t\"]"))).unwrap();
    reg.insert_service(broken("none", None)).unwrap();
    reg.insert_service(broken("bad", Some("{"))).unwrap();
    let fine = get_service_by_id(&reg, "fine", "acme").unwrap();
    assert_eq!(fine.tables, vec!["t".to_string()]);
    assert_eq!(fine.db_schema_id, "");
    assert_eq!(fine.description, "");
    assert_eq!(get_service_by_id(&reg, "none", "acme").unwrap_err().kind, ErrorKind::Validation);
    assert_eq!(get_service_by_id(&reg, "bad", "acme").unwrap_err().kind, ErrorKind::Validation);
    let one = "1".to_string();
    assert_eq!(fetch_services_and_envs(&reg, "acme", None, Some(&one)).unwrap().len(), 1);
    assert_eq!(fetch_services_and_envs(&reg, "acme", None, None).unwrap_err().kind, ErrorKind::Validation);
}

#[test]
fn services_are_listed_by_pages_with_their_environments() {
    let mut reg = Registry::new();
    for name in ["a", "b", "c"] {
        update_or_create_service_at(&mut reg, &request(name, "stage", "acme"), None, at(1)).unwrap();
    }
    update_or_create_service_at(&mut reg, &request("z", "stage", "other"), None, at(1)).unwrap();
    update_or_create_service_at(&mut reg, &request("a", "prod", "acme"), None, at(2)).unwrap();
    let all = fetch_services_and_envs(&reg, "acme", None, None).unwrap();
    assert_eq!(all.iter().map(|s| s.identifier.as_str()).collect::<Vec<_>>(), vec!["a", "b", "c"]);
    assert_eq!(all[0].envs.len(), 2);
    assert_eq!(all[0].envs[0].env_key, "stage");
    assert_eq!(all[0].envs[1].env_key, "prod");
    assert_eq!(all[0].envs[1].version, Some("1.0.0".to_string()));
    assert_eq!(all[0].envs[1].updated_at, Some(at(2)));
    assert_eq!(all[0].envs[1].base_url, "https://a.prod.example.org");
    assert_eq!(all[0].envs[1].pipeline_status, None);
    assert_eq!(all[1].envs.len(), 1);
    assert_eq!(all[0].tables, vec!["users".to_string()]);
    assert_eq!(all[0].dependencies.len(), 2);
    assert_eq!(all[0].service_type, Some("RPCEndpoint".to_string()));
    assert_eq!(all[0].organization_id, "acme");
    assert_eq!(all[0].description, "a service");
    let two = "2".to_string();
    let second = get_services_and_envs(&reg, "acme", Some(&two), Some(&two)).unwrap();
    assert_eq!(second.iter().map(|s| s.identifier.as_str()).collect::<Vec<_>>(), vec!["c"]);
    let junk = "two".to_string();
    let defaulted = get_services_and_envs_public(&reg, "acme", Some(&junk), Some(&two)).unwrap();
    assert_eq!(defaulted.iter().map(|s| s.identifier.as_str()).collect::<Vec<_>>(), vec!["a", "b"]);
    let zero = "0".to_string();
    let clamped = get_services_and_envs_user_land(&reg, "acme", Some(&zero), Some(&zero)).unwrap();
    assert_eq!(clamped.iter().map(|s| s.identifier.as_str()).collect::<Vec<_>>(), vec!["a"]);
    assert!(fetch_services_and_envs(&reg, "nobody", None, None).unwrap().is_empty());
}

#[test]
fn a_group_is_asked_for_a_service_that_is_new() {
    let mut reg = Registry::new();
    let on = Config { identity_integration: true, notification_integration: false };
    let off = Config { identity_integration: false, notification_integration: false };
    let req = request("billing", "stage", "acme");
    let name = service_group_request(&reg, &req, &on).unwrap();
    assert_eq!(name.len(), 36);
    assert_eq!(service_group_request(&reg, &req, &off), None);
    update_or_create_service(&mut reg, &req, Some("g".to_string())).unwrap();
    assert_eq!(service_group_request(&reg, &req, &on), None);
    assert!(service_group_request(&reg, &request("ledger", "stage", "acme"), &on).is_some());
}

#[test]
fn page_parameters_are_numbers() {
    let seven = "7".to_string();
    let minus = "-7".to_string();
    let plus = "+7".to_string();
    let spaced = " 7".to_string();
    let big = "9223372036854775808".to_string();
    assert_eq!(read_page_param(Some(&seven)), Some(7));
    assert_eq!(read_page_param(Some(&minus)), Some(-7));
    assert_eq!(read_page_param(Some(&plus)), Some(7));
    assert_eq!(read_page_param(Some(&spaced)), None);
    assert_eq!(read_page_param(Some(&big)), None);
    assert_eq!(read_page_param(None), None);
    for (text, number) in [
        ("0", Some(0)),
        ("-0", Some(0)),
        ("007", Some(7)),
        ("9223372036854775807", Some(i64::MAX)),
        ("-9223372036854775808", Some(i64::MIN)),
        ("-9223372036854775809", None),
        ("", None),
        ("+", None),
        ("-", None),
        ("--1", None),
        ("1_000", None),
        ("1.0", None),
        ("7 ", None),
        ("٣", None),
        ("0x10", None),
    ] {
        assert_eq!(read_page_param(Some(&text.to_string())), number, "for {:?}", text);
    }
    assert_eq!(or_empty(&None), "");
    assert_eq!(or_empty(&Some("x".to_string())), "x");
}

#[test]
fn a_new_service_needs_room() {
    let mut reg = Registry::starting_at(i64::MAX);
    let refused = update_or_create_service(&mut reg, &request("billing", "stage", "acme"), None);
    assert_eq!(refused.unwrap_err().kind, ErrorKind::StoreUnavailable);
    assert!(reg.services().is_empty());
    assert!(reg.service_envs().is_empty());
}
