//! Services and their environments.

use vstd::prelude::*;
use crate::clock::{now, Timestamp};
use crate::config::Config;
use crate::error::{fails_with, ErrorKind, RegistryError};
use crate::ident::{is_uuid_text, new_identifier};
use crate::json::{encode_list, json_list_of_text, json_text_of_list, names_of_json};
use crate::models::request::{UpdateServiceRequest, UpdateServiceRequestView};
use crate::models::response::{
    ServiceResponse, ServiceResponseView, ServicesEnvResponse, ServicesEnvResponseView,
    ServicesEnvTrimmedResponse, ServicesEnvTrimmedResponseView, ServicesTrimmedResponse,
    ServicesTrimmedResponseView, UpdateServiceResponse, UpdateServiceResponseView,
};
use crate::models::schema::{Service, ServiceView, Service_Envs, Service_EnvsView};
use crate::query::{
    lemma_filter_none, lemma_filter_step, lemma_views_push, page_of, page_range, picks, selects,
    views,
};
use crate::registry::{lemma_service_added, lemma_service_replaced, Registry, RegistryState};
use crate::text::{opt_is, opt_text, or_empty, parse_i64, parsed_i64, text_or_empty, texts};

verus! {

/// A service row after a request has been applied to it: the identifier
/// and the group stay, everything else comes from the request.
pub open spec fn service_updated(
    row: ServiceView,
    req: UpdateServiceRequestView,
    service_type: Seq<char>,
    lang: Seq<char>,
) -> ServiceView {
    ServiceView {
        db_schema_id: req.db_schema_id,
        description: Some(req.description),
        organization_id: Some(req.organization_id),
        service_type,
        lang: Some(lang),
        dependencies_json: Some(json_text_of_list(req.dependencies)),
        tables_json: Some(json_text_of_list(req.tables)),
        repo_origin: req.repo_origin,
        quick_links: req.quick_links,
        cache_schema_id: req.cache_schema_id,
        message_queue_schema_id: req.message_queue_schema_id,
        ..row
    }
}

/// The row of a service that a request creates.
pub open spec fn service_created(
    req: UpdateServiceRequestView,
    service_type: Seq<char>,
    group_id: Option<Seq<char>>,
    id: i64,
) -> ServiceView {
    ServiceView {
        identifier: req.identifier,
        group_id,
        db_schema_id: req.db_schema_id,
        tables_json: Some(json_text_of_list(req.tables)),
        dependencies_json: Some(json_text_of_list(req.dependencies)),
        service_type,
        lang: req.lang,
        description: Some(req.description),
        organization_id: Some(req.organization_id),
        repo_origin: req.repo_origin,
        cache_schema_id: req.cache_schema_id,
        message_queue_schema_id: req.message_queue_schema_id,
        quick_links: req.quick_links,
        id,
    }
}

/// The version that an environment gets from a request: the one given,
/// or `0.0.0` where none is given.
pub open spec fn version_or_default(version: Option<Seq<char>>) -> Seq<char> {
    match version {
        Some(v) => v,
        None => "0.0.0"@,
    }
}

/// An environment row after a request has been applied to it: the
/// pipeline status stays.
pub open spec fn service_env_updated(
    row: Service_EnvsView,
    req: UpdateServiceRequestView,
    now: Timestamp,
) -> Service_EnvsView {
    Service_EnvsView {
        base_url: req.base_url,
        base_url_ws: req.base_url_ws,
        spec: req.spec,
        updated_at: Some(now),
        version: version_or_default(req.version),
        ..row
    }
}

/// The environment row that a request creates: it has no pipeline status
/// yet.
pub open spec fn service_env_created(
    req: UpdateServiceRequestView,
    version: Seq<char>,
    parent_id: i64,
    id: i64,
    now: Timestamp,
) -> Service_EnvsView {
    Service_EnvsView {
        parent_id,
        spec: req.spec,
        env: req.env,
        base_url: req.base_url,
        base_url_ws: req.base_url_ws,
        updated_at: Some(now),
        version,
        pipeline_status: None,
        id,
    }
}

/// The id of the service that a request is about: that of the service
/// with the request's identifier, or the id that a new service will get.
pub open spec fn service_id_for(pre: RegistryState, req: UpdateServiceRequestView) -> i64 {
    match pre.service_by_identifier(req.identifier) {
        Some(i) => pre.services.rows[i].id,
        None => pre.services.next_id,
    }
}

/// Why a request to create or update a service is refused, if it is.
///
/// A service type is always needed; a language is needed to update a
/// service, a version to create an environment. A new row needs a table
/// with room for it.
pub open spec fn service_request_error(pre: RegistryState, req: UpdateServiceRequestView) -> Option<
    ErrorKind,
> {
    let found = pre.service_by_identifier(req.identifier);
    let env = pre.service_env_of(service_id_for(pre, req), req.env);
    if req.service_type is None {
        Some(ErrorKind::Validation)
    } else if found is Some && req.lang is None {
        Some(ErrorKind::Validation)
    } else if env is None && req.version is None {
        Some(ErrorKind::Validation)
    } else if found is None && !pre.services.has_room() {
        Some(ErrorKind::StoreUnavailable)
    } else if env is None && !pre.service_envs.has_room() {
        Some(ErrorKind::StoreUnavailable)
    } else {
        None
    }
}

/// The registry after a request to create or update a service has been
/// carried out: the service is updated where it exists and created where
/// it does not, and so is its row for the environment of the request.
pub open spec fn service_request_applied(
    pre: RegistryState,
    req: UpdateServiceRequestView,
    group_id: Option<Seq<char>>,
    now: Timestamp,
) -> RegistryState {
    let service_id = service_id_for(pre, req);
    let services = match pre.service_by_identifier(req.identifier) {
        Some(i) => pre.services.replaced(
            i,
            service_updated(pre.services.rows[i], req, req.service_type->0, req.lang->0),
        ),
        None => pre.services.appended(
            service_created(req, req.service_type->0, group_id, service_id),
        ),
    };
    let service_envs = match pre.service_env_of(service_id, req.env) {
        Some(k) => pre.service_envs.replaced(
            k,
            service_env_updated(pre.service_envs.rows[k], req, now),
        ),
        None => pre.service_envs.appended(
            service_env_created(req, req.version->0, service_id, pre.service_envs.next_id, now),
        ),
    };
    pre.with_services(services).with_service_envs(service_envs)
}

/// What a request to create or update a service does at a given time:
/// nothing but a refusal where the request is refused, and otherwise the
/// change of `service_request_applied`, answered with the id of the
/// service.
pub open spec fn service_request_outcome(
    pre: RegistryState,
    req: UpdateServiceRequestView,
    group_id: Option<Seq<char>>,
    now: Timestamp,
    post: RegistryState,
    r: Result<UpdateServiceResponse, RegistryError>,
) -> bool {
    match service_request_error(pre, req) {
        Some(kind) => fails_with(r, kind) && post == pre,
        None => {
            &&& r matches Ok(resp)
            &&& resp@ == (UpdateServiceResponseView {
                message: "Service and environment updated successfully"@,
                service_id: service_id_for(pre, req),
            })
            &&& post == service_request_applied(pre, req, group_id, now)
        },
    }
}

/// The lists of a request read back from their JSON text as they are.
pub open spec fn lists_read_back(req: UpdateServiceRequestView) -> bool {
    &&& json_list_of_text(json_text_of_list(req.tables)) == Some(req.tables)
    &&& json_list_of_text(json_text_of_list(req.dependencies)) == Some(req.dependencies)
}

/// Creates or updates a service and its row for one environment, at the
/// time `now`. `group_id` is the group that backs the service if it is
/// created here. The tables and the dependencies are kept as JSON text,
/// from which they read back unchanged.
pub fn update_or_create_service_at(
    reg: &mut Registry,
    request: &UpdateServiceRequest,
    group_id: Option<String>,
    now: Timestamp,
) -> (r: Result<UpdateServiceResponse, RegistryError>)
    requires
        old(reg)@.wf(),
    ensures
        final(reg)@.wf(),
        service_request_outcome(old(reg)@, request@, opt_text(group_id), now, final(reg)@, r),
        r is Ok ==> lists_read_back(request@),
{
    let found = reg.find_service(request.identifier.as_str());
    let service_id = match found {
        Some(i) => reg.services.row(i).id,
        None => reg.services.next_id(),
    };
    let env_at = reg.find_service_env(service_id, request.env.as_str());
    let service_type = match &request.service_type {
        Some(t) => t.clone(),
        None => {
            return Err(RegistryError::new(ErrorKind::Validation, "Missing service type"));
        },
    };
    if found.is_some() && request.lang.is_none() {
        return Err(RegistryError::new(ErrorKind::Validation, "Missing language"));
    }
    if env_at.is_none() && request.version.is_none() {
        return Err(RegistryError::new(ErrorKind::Validation, "Version is missing"));
    }
    if found.is_none() && !reg.services.has_room() {
        return Err(RegistryError::new(ErrorKind::StoreUnavailable, "Error creating service"));
    }
    if env_at.is_none() && !reg.service_envs.has_room() {
        return Err(
            RegistryError::new(ErrorKind::StoreUnavailable, "Error creating service environment"),
        );
    }
    let tables_json = encode_list(&request.tables);
    let dependencies_json = encode_list(&request.dependencies);
    match found {
        Some(i) => {
            let held = reg.services.row(i);
            let row = Service {
                identifier: held.identifier.clone(),
                group_id: held.group_id.clone(),
                db_schema_id: request.db_schema_id.clone(),
                tables_json: Some(tables_json),
                dependencies_json: Some(dependencies_json),
                service_type,
                lang: request.lang.clone(),
                description: Some(request.description.clone()),
                organization_id: Some(request.organization_id.clone()),
                repo_origin: request.repo_origin.clone(),
                cache_schema_id: request.cache_schema_id.clone(),
                message_queue_schema_id: request.message_queue_schema_id.clone(),
                quick_links: request.quick_links.clone(),
                id: held.id,
            };
            proof {
                lemma_service_replaced(reg@, i as int, row@);
                reg@.services.lemma_position_holds(service_id);
            }
            reg.services.replace(i, row);
        },
        None => {
            let row = Service {
                identifier: request.identifier.clone(),
                group_id,
                db_schema_id: request.db_schema_id.clone(),
                tables_json: Some(tables_json),
                dependencies_json: Some(dependencies_json),
                service_type,
                lang: request.lang.clone(),
                description: Some(request.description.clone()),
                organization_id: Some(request.organization_id.clone()),
                repo_origin: request.repo_origin.clone(),
                cache_schema_id: request.cache_schema_id.clone(),
                message_queue_schema_id: request.message_queue_schema_id.clone(),
                quick_links: request.quick_links.clone(),
                id: service_id,
            };
            proof {
                lemma_service_added(reg@, row@);
            }
            reg.services.append(row);
        },
    }
    match env_at {
        Some(k) => {
            let held = reg.service_envs.row(k);
            let version = match &request.version {
                Some(v) => v.clone(),
                None => "0.0.0".to_owned(),
            };
            let row = Service_Envs {
                parent_id: held.parent_id,
                spec: request.spec.clone(),
                env: held.env.clone(),
                base_url: request.base_url.clone(),
                base_url_ws: request.base_url_ws.clone(),
                updated_at: Some(now),
                version,
                pipeline_status: held.pipeline_status.clone(),
                id: held.id,
            };
            reg.service_envs.replace(k, row);
        },
        None => {
            let version = match &request.version {
                Some(v) => v.clone(),
                None => "0.0.0".to_owned(),
            };
            let id = reg.service_envs.next_id();
            let row = Service_Envs {
                parent_id: service_id,
                spec: request.spec.clone(),
                env: request.env.clone(),
                base_url: request.base_url.clone(),
                base_url_ws: request.base_url_ws.clone(),
                updated_at: Some(now),
                version,
                pipeline_status: None,
                id,
            };
            reg.service_envs.append(row);
        },
    }
    Ok(
        UpdateServiceResponse {
            message: "Service and environment updated successfully".to_owned(),
            service_id,
        },
    )
}

/// The name under which a group is to be asked for before a request to
/// create or update a service is carried out: a fresh random identifier
/// where the registry works with the identity service and the service does
/// not exist yet, and none otherwise.
pub fn service_group_request(reg: &Registry, request: &UpdateServiceRequest, config: &Config) -> (r:
    Option<String>)
    ensures
        match r {
            Some(name) => {
                &&& config.identity_integration
                &&& reg@.service_by_identifier(request@.identifier) is None
                &&& is_uuid_text(name@)
            },
            None => !config.identity_integration || reg@.service_by_identifier(
                request@.identifier,
            ) is Some,
        },
{
    if config.identity_integration && reg.find_service(request.identifier.as_str()).is_none() {
        Some(new_identifier())
    } else {
        None
    }
}

/// Creates or updates a service and its row for one environment.
///
/// The service is looked for by its identifier. Where it exists, its
/// fields are replaced by those of the request; where it does not, it is
/// created, backed by `group_id`. The same is done with its row for the
/// environment of the request, which records the current time.
pub fn update_or_create_service(
    reg: &mut Registry,
    request: &UpdateServiceRequest,
    group_id: Option<String>,
) -> (r: Result<UpdateServiceResponse, RegistryError>)
    requires
        old(reg)@.wf(),
    ensures
        final(reg)@.wf(),
        exists|at: Timestamp|
            at.micros >= 0 && service_request_outcome(
                old(reg)@,
                request@,
                opt_text(group_id),
                at,
                final(reg)@,
                r,
            ),
        r is Ok ==> lists_read_back(request@),
{
    let at = now();
    update_or_create_service_at(reg, request, group_id, at)
}

/// The condition that a service belongs to the given organization.
pub open spec fn service_in_org(org: Seq<char>) -> spec_fn(ServiceView) -> bool {
    |s: ServiceView| s.organization_id == Some(org)
}

/// The condition that an environment row belongs to the given service.
pub open spec fn env_of_service(parent_id: i64) -> spec_fn(Service_EnvsView) -> bool {
    |e: Service_EnvsView| e.parent_id == parent_id
}

/// What is shown of an environment of a service in a list.
pub open spec fn env_summary(e: Service_EnvsView) -> ServicesEnvTrimmedResponseView {
    ServicesEnvTrimmedResponseView {
        env_key: e.env,
        base_url: e.base_url,
        base_url_ws: e.base_url_ws,
        updated_at: e.updated_at,
        version: Some(e.version),
        pipeline_status: e.pipeline_status,
    }
}

/// What is shown of each of the given environments, in their order.
pub open spec fn env_summaries(envs: Seq<Service_EnvsView>) -> Seq<ServicesEnvTrimmedResponseView> {
    Seq::new(envs.len(), |i: int| env_summary(envs[i]))
}

/// The environments of a service, in the order in which they were
/// created.
pub open spec fn envs_of(pre: RegistryState, service_id: i64) -> Seq<Service_EnvsView> {
    pre.service_envs.rows.filter(env_of_service(service_id))
}

/// The list of names that a row keeps as JSON text, where it keeps one
/// and the text is a JSON array of strings.
pub open spec fn names_kept(json: Option<Seq<char>>) -> Option<Seq<Seq<char>>> {
    match json {
        Some(text) => json_list_of_text(text),
        None => None,
    }
}

/// What is shown of a service in a list, where its tables and its
/// dependencies can be read.
pub open spec fn service_summary(pre: RegistryState, s: ServiceView) -> Option<
    ServicesTrimmedResponseView,
> {
    match (names_kept(s.tables_json), names_kept(s.dependencies_json)) {
        (Some(tables), Some(dependencies)) => Some(
            ServicesTrimmedResponseView {
                identifier: s.identifier,
                envs: env_summaries(envs_of(pre, s.id)),
                tables,
                dependencies,
                db_schema_id: s.db_schema_id,
                cache_schema_id: s.cache_schema_id,
                message_queue_schema_id: s.message_queue_schema_id,
                service_type: Some(s.service_type),
                lang: s.lang,
                description: text_or_empty(s.description),
                organization_id: text_or_empty(s.organization_id),
                repo_origin: s.repo_origin,
                quick_links: s.quick_links,
            },
        ),
        _ => None,
    }
}

/// What is shown of a single service, where its tables and its
/// dependencies can be read.
pub open spec fn service_detail(s: ServiceView) -> Option<ServiceResponseView> {
    match (names_kept(s.dependencies_json), names_kept(s.tables_json)) {
        (Some(dependencies), Some(tables)) => Some(
            ServiceResponseView {
                id: s.id,
                identifier: s.identifier,
                group_id: s.group_id,
                db_schema_id: text_or_empty(s.db_schema_id),
                dependencies,
                tables,
                description: text_or_empty(s.description),
                organization_id: text_or_empty(s.organization_id),
                repo_origin: s.repo_origin,
            },
        ),
        _ => None,
    }
}

/// The number that a page parameter gives, where it is given and is a
/// number.
pub open spec fn page_param(text: Option<Seq<char>>) -> Option<i64> {
    match text {
        Some(t) => parsed_i64(t),
        None => None,
    }
}

/// The services of an organization that lie on a page, in the order in
/// which they were created.
pub open spec fn services_page(
    pre: RegistryState,
    org: Seq<char>,
    page_number: Option<i64>,
    page_size: Option<i64>,
) -> Seq<ServiceView> {
    page_of(pre.services.rows.filter(service_in_org(org)), page_number, page_size)
}

/// One of the given services has tables or dependencies that cannot be
/// read.
pub open spec fn some_unreadable(pre: RegistryState, services: Seq<ServiceView>) -> bool {
    exists|k: int|
        0 <= k < services.len() && service_summary(pre, #[trigger] services[k]) is None
}

/// Each of the given answers shows the service at its position, with its
/// environments.
pub open spec fn services_shown(
    pre: RegistryState,
    services: Seq<ServiceView>,
    list: Seq<ServicesTrimmedResponse>,
) -> bool {
    &&& list.len() == services.len()
    &&& forall|k: int|
        0 <= k < services.len() ==> service_summary(pre, #[trigger] services[k]) == Some(
            list[k]@,
        )
}

/// What a request for the services of an organization is answered with:
/// what is shown of each service on the page, or a refusal where one of
/// them cannot be shown.
pub open spec fn services_listed(
    pre: RegistryState,
    org: Seq<char>,
    page_number: Option<&String>,
    page_size: Option<&String>,
    r: Result<Vec<ServicesTrimmedResponse>, RegistryError>,
) -> bool {
    let page = services_page(
        pre,
        org,
        page_param(
            match page_number {
                Some(t) => Some(t@),
                None => None,
            },
        ),
        page_param(
            match page_size {
                Some(t) => Some(t@),
                None => None,
            },
        ),
    );
    match r {
        Ok(list) => services_shown(pre, page, list@),
        Err(e) => e.kind == ErrorKind::Validation && some_unreadable(pre, page),
    }
}

/// The list of names that a row keeps as JSON text. A row that keeps
/// none, or a text that is no JSON array of strings, is malformed.
pub fn names_kept_in(json: &Option<String>) -> (r: Result<Vec<String>, RegistryError>)
    ensures
        match r {
            Ok(names) => names_kept(opt_text(*json)) == Some(texts(names@)),
            Err(e) => names_kept(opt_text(*json)) is None && e.kind == ErrorKind::Validation,
        },
{
    match json {
        Some(text) => names_of_json(text.as_str()),
        None => Err(RegistryError::new(ErrorKind::Validation, "the row keeps no list")),
    }
}

/// The number that a page parameter gives.
pub fn read_page_param(text: Option<&String>) -> (r: Option<i64>)
    ensures
        r == page_param(
            match text {
                Some(t) => Some(t@),
                None => None,
            },
        ),
{
    match text {
        Some(t) => parse_i64(t.as_str()),
        None => None,
    }
}

/// The positions of the services of an organization.
fn service_positions(reg: &Registry, org: &str) -> (at: Vec<usize>)
    ensures
        selects(reg@.services.rows, service_in_org(org@), at@),
{
    let rows = reg.services.rows();
    let ghost held = reg@.services.rows;
    let ghost p = service_in_org(org@);
    let mut at: Vec<usize> = Vec::new();
    let mut i: usize = 0;
    proof {
        lemma_filter_none(held.subrange(0, 0), p);
        assert(picks(held, at@) =~= held.subrange(0, 0).filter(p));
    }
    while i < rows.len()
        invariant
            i <= rows.len(),
            held == reg@.services.rows,
            rows@.len() == held.len(),
            forall|j: int| 0 <= j < rows@.len() ==> (#[trigger] rows@[j])@ == held[j],
            p == service_in_org(org@),
            forall|k: int| 0 <= k < at@.len() ==> (#[trigger] at@[k]) < i,
            picks(held, at@) == held.subrange(0, i as int).filter(p),
        decreases rows.len() - i,
    {
        proof {
            assert(rows@[i as int]@ == held[i as int]);
            lemma_filter_step(held, p, i as int);
        }
        if opt_is(&rows[i].organization_id, org) {
            let ghost before = at@;
            at.push(i);
            assert(picks(held, at@) =~= picks(held, before).push(held[i as int]));
        }
        i += 1;
    }
    assert(held.subrange(0, i as int) =~= held);
    at
}

/// What is shown of the environments of a service.
fn env_summaries_of(reg: &Registry, service_id: i64) -> (r: Vec<ServicesEnvTrimmedResponse>)
    ensures
        views(r@) == env_summaries(envs_of(reg@, service_id)),
{
    let rows = reg.service_envs.rows();
    let ghost held = reg@.service_envs.rows;
    let ghost p = env_of_service(service_id);
    let mut out: Vec<ServicesEnvTrimmedResponse> = Vec::new();
    let mut i: usize = 0;
    proof {
        lemma_filter_none(held.subrange(0, 0), p);
        assert(views(out@) =~= env_summaries(held.subrange(0, 0).filter(p)));
    }
    while i < rows.len()
        invariant
            i <= rows.len(),
            held == reg@.service_envs.rows,
            rows@.len() == held.len(),
            forall|j: int| 0 <= j < rows@.len() ==> (#[trigger] rows@[j])@ == held[j],
            p == env_of_service(service_id),
            views(out@) == env_summaries(held.subrange(0, i as int).filter(p)),
        decreases rows.len() - i,
    {
        proof {
            assert(rows@[i as int]@ == held[i as int]);
            lemma_filter_step(held, p, i as int);
        }
        if rows[i].parent_id == service_id {
            let ghost before = out@;
            let e = &rows[i];
            let item = ServicesEnvTrimmedResponse {
                env_key: e.env.clone(),
                base_url: e.base_url.clone(),
                base_url_ws: e.base_url_ws.clone(),
                updated_at: e.updated_at,
                version: Some(e.version.clone()),
                pipeline_status: e.pipeline_status.clone(),
            };
            out.push(item);
            proof {
                lemma_views_push(before, item);
                let sofar = held.subrange(0, i as int).filter(p);
                assert(env_summaries(sofar.push(held[i as int])) =~= env_summaries(sofar).push(
                    env_summary(held[i as int]),
                ));
            }
        }
        i += 1;
    }
    assert(held.subrange(0, i as int) =~= held);
    out
}

/// The services of an organization with their environments, one page of
/// them.
///
/// The services are taken in the order in which they were created. Pages
/// are counted from 1 and hold 10 services unless the parameters say
/// otherwise; a parameter that is no number counts as not given. A service
/// on the page whose tables or dependencies cannot be read makes the
/// request fail.
#[verifier::loop_isolation(false)]
pub fn fetch_services_and_envs(
    reg: &Registry,
    org_id: &str,
    page_number: Option<&String>,
    page_size: Option<&String>,
) -> (r: Result<Vec<ServicesTrimmedResponse>, RegistryError>)
    ensures
        services_listed(reg@, org_id@, page_number, page_size, r),
{
    let number = read_page_param(page_number);
    let size = read_page_param(page_size);
    let at = service_positions(reg, org_id);
    let (start, end) = page_range(at.len(), number, size);
    let ghost all = reg@.services.rows.filter(service_in_org(org_id@));
    let ghost page = services_page(reg@, org_id@, number, size);
    let mut out: Vec<ServicesTrimmedResponse> = Vec::new();
    let mut k: usize = start;
    while k < end
        invariant
            start <= k <= end <= at@.len(),
            selects(reg@.services.rows, service_in_org(org_id@), at@),
            all == reg@.services.rows.filter(service_in_org(org_id@)),
            page == all.subrange(start as int, end as int),
            out@.len() == k - start,
            forall|m: int|
                0 <= m < out@.len() ==> service_summary(reg@, #[trigger] page[m]) == Some(
                    out@[m]@,
                ),
        decreases end - k,
    {
        let s = reg.services.row(at[k]);
        proof {
            assert(picks(reg@.services.rows, at@)[k as int] == reg@.services.rows[at@[k as int] as int]);
            assert(page[k - start] == all[k as int]);
        }
        let tables = match names_kept_in(&s.tables_json) {
            Ok(names) => names,
            Err(e) => {
                proof {
                    assert(service_summary(reg@, page[k - start]) is None);
                }
                return Err(e);
            },
        };
        let dependencies = match names_kept_in(&s.dependencies_json) {
            Ok(names) => names,
            Err(e) => {
                proof {
                    assert(service_summary(reg@, page[k - start]) is None);
                }
                return Err(e);
            },
        };
        let item = ServicesTrimmedResponse {
            identifier: s.identifier.clone(),
            envs: env_summaries_of(reg, s.id),
            tables,
            dependencies,
            db_schema_id: s.db_schema_id.clone(),
            cache_schema_id: s.cache_schema_id.clone(),
            message_queue_schema_id: s.message_queue_schema_id.clone(),
            service_type: Some(s.service_type.clone()),
            lang: s.lang.clone(),
            description: or_empty(&s.description),
            organization_id: or_empty(&s.organization_id),
            repo_origin: s.repo_origin.clone(),
            quick_links: s.quick_links.clone(),
        };
        out.push(item);
        k += 1;
    }
    Ok(out)
}

/// See `fetch_services_and_envs`.
pub fn get_services_and_envs(
    reg: &Registry,
    org_id: &str,
    page_number: Option<&String>,
    page_size: Option<&String>,
) -> (r: Result<Vec<ServicesTrimmedResponse>, RegistryError>)
    ensures
        services_listed(reg@, org_id@, page_number, page_size, r),
{
    fetch_services_and_envs(reg, org_id, page_number, page_size)
}

/// See `fetch_services_and_envs`.
pub fn get_services_and_envs_public(
    reg: &Registry,
    org_id: &str,
    page_number: Option<&String>,
    page_size: Option<&String>,
) -> (r: Result<Vec<ServicesTrimmedResponse>, RegistryError>)
    ensures
        services_listed(reg@, org_id@, page_number, page_size, r),
{
    fetch_services_and_envs(reg, org_id, page_number, page_size)
}

/// See `fetch_services_and_envs`.
pub fn get_services_and_envs_user_land(
    reg: &Registry,
    org_id: &str,
    page_number: Option<&String>,
    page_size: Option<&String>,
) -> (r: Result<Vec<ServicesTrimmedResponse>, RegistryError>)
    ensures
        services_listed(reg@, org_id@, page_number, page_size, r),
{
    fetch_services_and_envs(reg, org_id, page_number, page_size)
}

/// What a request for one environment of a service is answered with:
/// its specification and its address, or a refusal where the organization
/// has no service of the identifier or the service has no row for the
/// environment.
pub open spec fn service_env_shown(
    pre: RegistryState,
    org: Seq<char>,
    identifier: Seq<char>,
    env: Seq<char>,
    r: Result<ServicesEnvResponse, RegistryError>,
) -> bool {
    match pre.service_in(identifier, org) {
        None => fails_with(r, ErrorKind::NotFound),
        Some(i) => match pre.service_env_of(pre.services.rows[i].id, env) {
            None => fails_with(r, ErrorKind::NotFound),
            Some(k) => {
                &&& r matches Ok(resp)
                &&& resp@ == (ServicesEnvResponseView {
                    spec: pre.service_envs.rows[k].spec,
                    base_url: pre.service_envs.rows[k].base_url,
                })
            },
        },
    }
}

/// What one environment of a service of an organization offers. A
/// service has no fields of its own to fall back to: the specification and
/// the address are those of the environment.
pub fn fetch_service_and_env_by_id(
    reg: &Registry,
    org_id: &str,
    service_identifier: &str,
    env: &str,
) -> (r: Result<ServicesEnvResponse, RegistryError>)
    ensures
        service_env_shown(reg@, org_id@, service_identifier@, env@, r),
{
    let i = match reg.find_service_in(service_identifier, org_id) {
        Some(i) => i,
        None => {
            return Err(RegistryError::new(ErrorKind::NotFound, "Service not found"));
        },
    };
    let service_id = reg.services.row(i).id;
    let k = match reg.find_service_env(service_id, env) {
        Some(k) => k,
        None => {
            return Err(RegistryError::new(ErrorKind::NotFound, "Service environment not found"));
        },
    };
    let e = reg.service_envs.row(k);
    Ok(ServicesEnvResponse { spec: e.spec.clone(), base_url: e.base_url.clone() })
}

/// See `fetch_service_and_env_by_id`.
pub fn get_service_and_env_by_id(
    reg: &Registry,
    org_id: &str,
    service_identifier: &str,
    env: &str,
) -> (r: Result<ServicesEnvResponse, RegistryError>)
    ensures
        service_env_shown(reg@, org_id@, service_identifier@, env@, r),
{
    fetch_service_and_env_by_id(reg, org_id, service_identifier, env)
}

/// See `fetch_service_and_env_by_id`.
pub fn get_service_and_env_by_id_public(
    reg: &Registry,
    org_id: &str,
    service_identifier: &str,
    env: &str,
) -> (r: Result<ServicesEnvResponse, RegistryError>)
    ensures
        service_env_shown(reg@, org_id@, service_identifier@, env@, r),
{
    fetch_service_and_env_by_id(reg, org_id, service_identifier, env)
}

/// See `fetch_service_and_env_by_id`.
pub fn get_service_and_env_by_id_user_land(
    reg: &Registry,
    org_id: &str,
    service_identifier: &str,
    env: &str,
) -> (r: Result<ServicesEnvResponse, RegistryError>)
    ensures
        service_env_shown(reg@, org_id@, service_identifier@, env@, r),
{
    fetch_service_and_env_by_id(reg, org_id, service_identifier, env)
}

/// A service of an organization, with its tables and its dependencies.
/// A service whose tables or dependencies cannot be read is malformed.
pub fn get_service_by_id(reg: &Registry, service_identifier: &str, org_id: &str) -> (r: Result<
    ServiceResponse,
    RegistryError,
>)
    ensures
        match reg@.service_in(service_identifier@, org_id@) {
            None => fails_with(r, ErrorKind::NotFound),
            Some(i) => match service_detail(reg@.services.rows[i]) {
                None => fails_with(r, ErrorKind::Validation),
                Some(detail) => r matches Ok(resp) && resp@ == detail,
            },
        },
{
    let i = match reg.find_service_in(service_identifier, org_id) {
        Some(i) => i,
        None => {
            return Err(RegistryError::new(ErrorKind::NotFound, "Service not found"));
        },
    };
    let s = reg.services.row(i);
    let dependencies = match names_kept_in(&s.dependencies_json) {
        Ok(names) => names,
        Err(e) => {
            return Err(e);
        },
    };
    let tables = match names_kept_in(&s.tables_json) {
        Ok(names) => names,
        Err(e) => {
            return Err(e);
        },
    };
    Ok(
        ServiceResponse {
            id: s.id,
            identifier: s.identifier.clone(),
            group_id: s.group_id.clone(),
            db_schema_id: or_empty(&s.db_schema_id),
            dependencies,
            tables,
            description: or_empty(&s.description),
            organization_id: or_empty(&s.organization_id),
            repo_origin: s.repo_origin.clone(),
        },
    )
}

} // verus!
