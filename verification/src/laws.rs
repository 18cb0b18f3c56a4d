//! What holds of the operations of the registry taken together.

use vstd::prelude::*;
use crate::clock::Timestamp;
use crate::error::{fails_with, ErrorKind, RegistryError};
use crate::models::request::{
    CreateDbschemaBranchRequestView, CreateDbschemaRequestView, CreateOrUpdatePackageRequestView,
    CreateOrganizationRequestView, PipelineStatusUpdateRequestView, UpdateServiceRequestView,
};
use crate::models::response::{
    CreateDbschemaBranchResponse, CreateDbschemaResponse, CreateOrUpdatePackageResponse,
    CreateOrganizationResponse, GetDbschemaByIdResponse, UpdateServiceResponse,
    WorkspaceDetailResponse,
};
use crate::models::schema::{Dbschema_BranchView, Package_EnvView, Service_EnvsView};
use crate::query::{
    lemma_first_is, lemma_first_match, lemma_first_match_push, lemma_first_match_update,
};
use crate::registry::{
    branch_at, dbschema_identified, dbschema_identified_in, organization_slugged, package_env_at, package_identified,
    service_env_at, service_identified, service_identified_in, RegistryState,
};
use crate::routes::package::{package_id_for, package_request_outcome};
use crate::routes::service::{
    lists_read_back, service_detail, service_id_for, service_request_outcome, version_or_default,
};
use crate::routes::dbschema::{create_branch_outcome, create_dbschema_outcome, dbschema_resolved};
use crate::routes::pipeline::{
    status_applied, status_target, status_update_outcome, Notification,
};
use crate::routes::workspace::{create_organization_outcome, workspace_shown, GroupAnswer};
use crate::slug::slug_text;
use crate::status::{kind_named, lemma_status_names, status_named, PipelineStatus, UpdateKind};

verus! {

/// A schema that has just been created is found under its identifier,
/// with the name, the description and the organization of the request that
/// created it.
///
/// Seen from its first branch, `stage`, it stands at the version of that
/// request and shows its own data.
pub proof fn lemma_created_dbschema_is_found(
    pre: RegistryState,
    req: CreateDbschemaRequestView,
    group_id: Option<Seq<char>>,
    identifier: Seq<char>,
    now: Timestamp,
    post: RegistryState,
    created: Result<CreateDbschemaResponse, RegistryError>,
    fetched: Result<GetDbschemaByIdResponse, RegistryError>,
    fetched_on_stage: Result<GetDbschemaByIdResponse, RegistryError>,
)
    requires
        pre.wf(),
        create_dbschema_outcome(pre, req, group_id, identifier, now, post, created),
        created is Ok,
        dbschema_resolved(post, identifier, None, fetched),
        dbschema_resolved(post, identifier, Some("stage"@), fetched_on_stage),
    ensures
        fetched matches Ok(resp) && {
            &&& resp@.id == created->Ok_0@.id
            &&& resp@.name == req.name
            &&& resp@.description == req.description
            &&& resp@.org_id == Some(req.organisation_id)
            &&& resp@.data == req.data
        },
        fetched_on_stage matches Ok(resp) && {
            &&& resp@.id == created->Ok_0@.id
            &&& resp@.name == req.name
            &&& resp@.version == Some(req.version)
            &&& resp@.data == req.data
            &&& resp@.branch_id is Some
        },
{
    let id = pre.dbschemas.next_id;
    let row = post.dbschemas.rows[pre.dbschemas.rows.len() as int];
    lemma_first_match_push(pre.dbschemas.rows, dbschema_identified(identifier), row);
    let branch = post.dbschema_branches.rows[pre.dbschema_branches.rows.len() as int];
    lemma_first_match_push(pre.dbschema_branches.rows, branch_at(id, "stage"@), branch);
}

/// Once a branch has been created, a second branch of the same name for
/// the same schema is refused as a conflict, and changes nothing.
pub proof fn lemma_second_branch_is_a_conflict(
    pre: RegistryState,
    schema_id: i64,
    first: CreateDbschemaBranchRequestView,
    first_at: Timestamp,
    between: RegistryState,
    first_answer: Result<CreateDbschemaBranchResponse, RegistryError>,
    second: CreateDbschemaBranchRequestView,
    second_at: Timestamp,
    post: RegistryState,
    second_answer: Result<CreateDbschemaBranchResponse, RegistryError>,
)
    requires
        pre.wf(),
        create_branch_outcome(pre, schema_id, first, first_at, between, first_answer),
        first_answer is Ok,
        second.branch_name == first.branch_name,
        create_branch_outcome(between, schema_id, second, second_at, post, second_answer),
    ensures
        fails_with(second_answer, ErrorKind::Conflict),
        post == between,
{
    let row = between.dbschema_branches.rows[pre.dbschema_branches.rows.len() as int];
    lemma_first_match_push(
        pre.dbschema_branches.rows,
        branch_at(schema_id, first.branch_name),
        row,
    );
}

/// A schema is seen from a branch only where it has that branch. Where
/// it has, the data that is shown is the data of the branch, whatever the
/// data of the schema, provided that the branch has data; a branch without
/// data shows the data of the schema. The version and the pipeline status
/// that are shown are those of the branch.
pub proof fn lemma_branch_data_overrides(
    pre: RegistryState,
    identifier: Seq<char>,
    branch_name: Seq<char>,
    r: Result<GetDbschemaByIdResponse, RegistryError>,
)
    requires
        pre.dbschema_by_identifier(identifier) is Some,
        dbschema_resolved(pre, identifier, Some(branch_name), r),
    ensures
        ({
            let d = pre.dbschemas.rows[pre.dbschema_by_identifier(identifier)->0];
            match pre.branch_of(d.id, branch_name) {
                None => fails_with(r, ErrorKind::NotFound),
                Some(k) => {
                    let b = pre.dbschema_branches.rows[k];
                    &&& r matches Ok(resp)
                    &&& b.data is Some ==> resp@.data == b.data
                    &&& b.data is None ==> resp@.data == d.data
                    &&& resp@.version == b.version
                    &&& resp@.pipeline_status == b.pipeline_status
                    &&& resp@.branch_id == Some(b.id)
                },
            }
        }),
{
}

/// The position of the entity that a status update is about, in the
/// table of its kind.
pub open spec fn status_parent(
    pre: RegistryState,
    kind: UpdateKind,
    org: Seq<char>,
    identifier: Seq<char>,
) -> Option<int> {
    match kind {
        UpdateKind::Schema => pre.dbschema_in(identifier, org),
        UpdateKind::Package => pre.package_in(identifier, org),
        UpdateKind::Service => pre.service_in(identifier, org),
    }
}

/// A status for an entity that the organization does not have is
/// refused, and changes nothing.
pub proof fn lemma_status_of_unknown_entity(
    pre: RegistryState,
    kind: UpdateKind,
    org: Seq<char>,
    identifier: Seq<char>,
    env: Seq<char>,
    status: PipelineStatus,
    post: RegistryState,
    r: Result<(), RegistryError>,
)
    requires
        status_parent(pre, kind, org, identifier) is None,
        status_applied(pre, kind, org, identifier, env, status, post, r),
    ensures
        fails_with(r, ErrorKind::NotFound),
        post == pre,
{
}

/// The statuses of the rows of a table of branches.
pub open spec fn branch_statuses(pre: RegistryState) -> Seq<Option<Seq<char>>> {
    Seq::new(
        pre.dbschema_branches.rows.len(),
        |j: int| pre.dbschema_branches.rows[j].pipeline_status,
    )
}

/// The statuses of the rows of a table of package environments.
pub open spec fn package_statuses(pre: RegistryState) -> Seq<Option<Seq<char>>> {
    Seq::new(pre.package_envs.rows.len(), |j: int| pre.package_envs.rows[j].pipeline_status)
}

/// The statuses of the rows of a table of service environments.
pub open spec fn service_statuses(pre: RegistryState) -> Seq<Option<Seq<char>>> {
    Seq::new(pre.service_envs.rows.len(), |j: int| pre.service_envs.rows[j].pipeline_status)
}

/// Two registries differ in nothing but pipeline statuses.
pub open spec fn same_but_statuses(a: RegistryState, b: RegistryState) -> bool {
    &&& a.dbschemas == b.dbschemas
    &&& a.templates == b.templates
    &&& a.services == b.services
    &&& a.packages == b.packages
    &&& a.organizations == b.organizations
    &&& a.snapshots == b.snapshots
    &&& a.dbschema_branches.next_id == b.dbschema_branches.next_id
    &&& a.package_envs.next_id == b.package_envs.next_id
    &&& a.service_envs.next_id == b.service_envs.next_id
    &&& a.dbschema_branches.rows.len() == b.dbschema_branches.rows.len()
    &&& a.package_envs.rows.len() == b.package_envs.rows.len()
    &&& a.service_envs.rows.len() == b.service_envs.rows.len()
    &&& forall|j: int|
        0 <= j < a.dbschema_branches.rows.len() ==> #[trigger] b.dbschema_branches.rows[j]
            == (Dbschema_BranchView {
            pipeline_status: b.dbschema_branches.rows[j].pipeline_status,
            ..a.dbschema_branches.rows[j]
        })
    &&& forall|j: int|
        0 <= j < a.package_envs.rows.len() ==> #[trigger] b.package_envs.rows[j] == (
        Package_EnvView {
            pipeline_status: b.package_envs.rows[j].pipeline_status,
            ..a.package_envs.rows[j]
        })
    &&& forall|j: int|
        0 <= j < a.service_envs.rows.len() ==> #[trigger] b.service_envs.rows[j] == (
        Service_EnvsView {
            pipeline_status: b.service_envs.rows[j].pipeline_status,
            ..a.service_envs.rows[j]
        })
}

/// The statuses of the rows of the table that holds the children of a
/// kind of entity.
pub open spec fn statuses_of(pre: RegistryState, kind: UpdateKind) -> Seq<Option<Seq<char>>> {
    match kind {
        UpdateKind::Schema => branch_statuses(pre),
        UpdateKind::Package => package_statuses(pre),
        UpdateKind::Service => service_statuses(pre),
    }
}

/// A status for an existing branch or environment of an entity is
/// recorded on the row of that branch or environment, and on no other:
/// every other row keeps its status, and no row changes in anything else.
pub proof fn lemma_status_touches_one_row(
    pre: RegistryState,
    kind: UpdateKind,
    org: Seq<char>,
    identifier: Seq<char>,
    env: Seq<char>,
    status: PipelineStatus,
    post: RegistryState,
    r: Result<(), RegistryError>,
)
    requires
        pre.wf(),
        status_target(pre, kind, org, identifier, env) is Some,
        status_applied(pre, kind, org, identifier, env, status, post, r),
    ensures
        r is Ok,
        same_but_statuses(pre, post),
        statuses_of(post, kind) == statuses_of(pre, kind).update(
            status_target(pre, kind, org, identifier, env)->0,
            Some(status.text()),
        ),
        forall|other: UpdateKind| other != kind ==> statuses_of(post, other) == statuses_of(pre, other),
        status_target(post, kind, org, identifier, env) == status_target(
            pre,
            kind,
            org,
            identifier,
            env,
        ),
{
    let k = status_target(pre, kind, org, identifier, env)->0;
    match kind {
        UpdateKind::Schema => {
            let i = pre.dbschema_in(identifier, org)->0;
            lemma_first_match(pre.dbschema_branches.rows, branch_at(pre.dbschemas.rows[i].id, env));
            lemma_first_match_update(
                pre.dbschema_branches.rows,
                branch_at(pre.dbschemas.rows[i].id, env),
                k,
                post.dbschema_branches.rows[k],
            );
            assert(branch_statuses(post) =~= branch_statuses(pre).update(k, Some(status.text())));
        },
        UpdateKind::Package => {
            let i = pre.package_in(identifier, org)->0;
            let p = package_env_at(pre.packages.rows[i].id, env);
            lemma_first_match(pre.package_envs.rows, p);
            lemma_first_match_update(
                pre.package_envs.rows,
                p,
                k,
                post.package_envs.rows[k],
            );
            assert(package_statuses(post) =~= package_statuses(pre).update(
                k,
                Some(status.text()),
            ));
        },
        UpdateKind::Service => {
            let i = pre.service_in(identifier, org)->0;
            let p = service_env_at(pre.services.rows[i].id, env);
            lemma_first_match(pre.service_envs.rows, p);
            lemma_first_match_update(
                pre.service_envs.rows,
                p,
                k,
                post.service_envs.rows[k],
            );
            assert(service_statuses(post) =~= service_statuses(pre).update(
                k,
                Some(status.text()),
            ));
        },
    }
    assert forall|other: UpdateKind| other != kind implies statuses_of(post, other) == statuses_of(
        pre,
        other,
    ) by {
        assert(branch_statuses(post) =~= branch_statuses(pre) || kind == UpdateKind::Schema);
        assert(package_statuses(post) =~= package_statuses(pre) || kind == UpdateKind::Package);
        assert(service_statuses(post) =~= service_statuses(pre) || kind == UpdateKind::Service);
    }
}

/// The tables and the dependencies of a service come back as they were
/// given: once a request to create or update a service has been carried
/// out, the service is found under its identifier in its organization,
/// with the lists of the request.
pub proof fn lemma_service_lists_come_back(
    pre: RegistryState,
    req: UpdateServiceRequestView,
    group_id: Option<Seq<char>>,
    now: Timestamp,
    post: RegistryState,
    stored: Result<UpdateServiceResponse, RegistryError>,
)
    requires
        pre.wf(),
        service_request_outcome(pre, req, group_id, now, post, stored),
        stored is Ok,
        lists_read_back(req),
    ensures
        post.service_in(req.identifier, req.organization_id) matches Some(i) && {
            &&& post.services.rows[i].id == stored->Ok_0@.service_id
            &&& service_detail(post.services.rows[i]) matches Some(detail)
            &&& detail.tables == req.tables
            &&& detail.dependencies == req.dependencies
        },
{
    let by_name = service_identified(req.identifier);
    let by_both = service_identified_in(req.identifier, req.organization_id);
    lemma_first_match(pre.services.rows, by_name);
    match pre.service_by_identifier(req.identifier) {
        Some(i) => {
            let rows = post.services.rows;
            assert forall|j: int| 0 <= j < i implies !by_both(#[trigger] rows[j]) by {
                assert(rows[j] == pre.services.rows[j]);
                assert(!by_name(pre.services.rows[j]));
            }
            lemma_first_is(rows, by_both, i);
        },
        None => {
            let n = pre.services.rows.len() as int;
            let rows = post.services.rows;
            assert forall|j: int| 0 <= j < n implies !by_both(#[trigger] rows[j]) by {
                assert(rows[j] == pre.services.rows[j]);
                assert(!by_name(pre.services.rows[j]));
            }
            lemma_first_is(rows, by_both, n);
        },
    }
}

/// A status update for an entity that the organization does not have is
/// refused as not found and changes nothing, whatever status the request
/// names.
pub proof fn lemma_status_request_for_unknown_entity(
    pre: RegistryState,
    req: PipelineStatusUpdateRequestView,
    post: RegistryState,
    r: Result<Notification, RegistryError>,
)
    requires
        kind_named(req.update_type) matches Some(kind) && status_parent(
            pre,
            kind,
            req.org_id,
            req.identifier,
        ) is None,
        status_update_outcome(pre, req, post, r),
    ensures
        fails_with(r, ErrorKind::NotFound),
        post == pre,
{
}

/// The status of a row is unset or one of the four names of a state.
pub open spec fn is_status(status: Option<Seq<char>>) -> bool {
    match status {
        Some(name) => status_named(name) is Some,
        None => true,
    }
}

/// Every branch and every environment has a status that is unset or one
/// of the four names of a state.
pub open spec fn statuses_are_named(pre: RegistryState) -> bool {
    forall|kind: UpdateKind, j: int|
        0 <= j < statuses_of(pre, kind).len() ==> is_status(#[trigger] statuses_of(pre, kind)[j])
}

/// Recording a status leaves every status unset or one of the four names
/// of a state.
pub proof fn lemma_statuses_stay_named(
    pre: RegistryState,
    kind: UpdateKind,
    org: Seq<char>,
    identifier: Seq<char>,
    env: Seq<char>,
    status: PipelineStatus,
    post: RegistryState,
    r: Result<(), RegistryError>,
)
    requires
        pre.wf(),
        statuses_are_named(pre),
        status_applied(pre, kind, org, identifier, env, status, post, r),
    ensures
        statuses_are_named(post),
{
    if status_target(pre, kind, org, identifier, env) is Some {
        lemma_status_touches_one_row(pre, kind, org, identifier, env, status, post, r);
        lemma_status_names(status);
        assert forall|other: UpdateKind, j: int|
            0 <= j < statuses_of(post, other).len() implies is_status(
            #[trigger] statuses_of(post, other)[j],
        ) by {
            assert(is_status(statuses_of(pre, other)[j]));
        }
    }
}

/// An organization that has just been created is found under the slug of
/// its name, with that name; and no second organization can be created
/// under a name with the same slug.
pub proof fn lemma_created_organization_is_found(
    pre: RegistryState,
    req: CreateOrganizationRequestView,
    answer: GroupAnswer,
    post: RegistryState,
    created: Result<CreateOrganizationResponse, RegistryError>,
    shown: Result<WorkspaceDetailResponse, RegistryError>,
    other: CreateOrganizationRequestView,
    other_answer: GroupAnswer,
    after: RegistryState,
    second: Result<CreateOrganizationResponse, RegistryError>,
)
    requires
        pre.wf(),
        create_organization_outcome(pre, req, answer, post, created),
        created is Ok,
        workspace_shown(post, slug_text(req.name), None, shown),
        slug_text(other.name) == slug_text(req.name),
        create_organization_outcome(post, other, other_answer, after, second),
    ensures
        shown matches Ok(resp) && resp@.name == Some(req.name) && resp@.is_active,
        fails_with(second, ErrorKind::Conflict),
        after == post,
{
    let row = post.organizations.rows[pre.organizations.rows.len() as int];
    lemma_first_match_push(pre.organizations.rows, organization_slugged(slug_text(req.name)), row);
}

/// The row of a service for an environment is created by the first
/// request that names it and updated in place by every later one: a second
/// request for the same service and environment creates no row, and leaves
/// the id and the pipeline status of the row as they are.
pub proof fn lemma_service_env_is_updated_in_place(
    pre: RegistryState,
    first: UpdateServiceRequestView,
    first_group: Option<Seq<char>>,
    first_at: Timestamp,
    between: RegistryState,
    first_answer: Result<UpdateServiceResponse, RegistryError>,
    second: UpdateServiceRequestView,
    second_group: Option<Seq<char>>,
    second_at: Timestamp,
    post: RegistryState,
    second_answer: Result<UpdateServiceResponse, RegistryError>,
)
    requires
        pre.wf(),
        service_request_outcome(pre, first, first_group, first_at, between, first_answer),
        first_answer is Ok,
        second.identifier == first.identifier,
        second.env == first.env,
        service_request_outcome(between, second, second_group, second_at, post, second_answer),
        second_answer is Ok,
    ensures
        second_answer->Ok_0@.service_id == first_answer->Ok_0@.service_id,
        post.services.rows.len() == between.services.rows.len(),
        post.service_envs.rows.len() == between.service_envs.rows.len(),
        between.service_env_of(service_id_for(pre, first), first.env) matches Some(k) && {
            &&& post.service_envs.rows[k].id == between.service_envs.rows[k].id
            &&& post.service_envs.rows[k].pipeline_status
                == between.service_envs.rows[k].pipeline_status
            &&& post.service_envs.rows[k].version == version_or_default(second.version)
        },
{
    let by_name = service_identified(first.identifier);
    let id = service_id_for(pre, first);
    let by_env = service_env_at(id, first.env);
    lemma_first_match(pre.services.rows, by_name);
    lemma_first_match(pre.service_envs.rows, by_env);
    match pre.service_by_identifier(first.identifier) {
        Some(i) => {
            lemma_first_match_update(pre.services.rows, by_name, i, between.services.rows[i]);
        },
        None => {
            lemma_first_match_push(
                pre.services.rows,
                by_name,
                between.services.rows[pre.services.rows.len() as int],
            );
        },
    }
    assert(service_id_for(between, second) == id);
    match pre.service_env_of(id, first.env) {
        Some(k) => {
            lemma_first_match_update(pre.service_envs.rows, by_env, k, between.service_envs.rows[k]);
        },
        None => {
            lemma_first_match_push(
                pre.service_envs.rows,
                by_env,
                between.service_envs.rows[pre.service_envs.rows.len() as int],
            );
        },
    }
}

/// The row of a package for an environment is created by the first
/// request that names it and updated in place by every later one: a second
/// request for the same package and environment creates no row, and leaves
/// the id and the pipeline status of the row as they are.
pub proof fn lemma_package_env_is_updated_in_place(
    pre: RegistryState,
    first: CreateOrUpdatePackageRequestView,
    first_group: Option<Seq<char>>,
    first_at: Timestamp,
    between: RegistryState,
    first_answer: Result<CreateOrUpdatePackageResponse, RegistryError>,
    second: CreateOrUpdatePackageRequestView,
    second_group: Option<Seq<char>>,
    second_at: Timestamp,
    post: RegistryState,
    second_answer: Result<CreateOrUpdatePackageResponse, RegistryError>,
)
    requires
        pre.wf(),
        package_request_outcome(pre, first, first_group, first_at, between, first_answer),
        first_answer is Ok,
        second.identifier == first.identifier,
        second.env == first.env,
        package_request_outcome(between, second, second_group, second_at, post, second_answer),
        second_answer is Ok,
    ensures
        second_answer->Ok_0@.package_id == first_answer->Ok_0@.package_id,
        post.packages.rows.len() == between.packages.rows.len(),
        post.package_envs.rows.len() == between.package_envs.rows.len(),
        between.package_env_of(package_id_for(pre, first), first.env) matches Some(k) && {
            &&& post.package_envs.rows[k].id == between.package_envs.rows[k].id
            &&& post.package_envs.rows[k].pipeline_status
                == between.package_envs.rows[k].pipeline_status
            &&& post.package_envs.rows[k].version == second.version
        },
{
    let by_name = package_identified(first.identifier);
    let id = package_id_for(pre, first);
    let by_env = package_env_at(id, first.env);
    lemma_first_match(pre.packages.rows, by_name);
    lemma_first_match(pre.package_envs.rows, by_env);
    match pre.package_by_identifier(first.identifier) {
        Some(i) => {
            lemma_first_match_update(pre.packages.rows, by_name, i, between.packages.rows[i]);
        },
        None => {
            lemma_first_match_push(
                pre.packages.rows,
                by_name,
                between.packages.rows[pre.packages.rows.len() as int],
            );
        },
    }
    assert(package_id_for(between, second) == id);
    match pre.package_env_of(id, first.env) {
        Some(k) => {
            lemma_first_match_update(pre.package_envs.rows, by_env, k, between.package_envs.rows[k]);
        },
        None => {
            lemma_first_match_push(
                pre.package_envs.rows,
                by_env,
                between.package_envs.rows[pre.package_envs.rows.len() as int],
            );
        },
    }
}

/// A status update for a branch or an environment that the entity does
/// not have is refused as not found and changes nothing, whatever status
/// the request names.
pub proof fn lemma_status_request_for_missing_row(
    pre: RegistryState,
    req: PipelineStatusUpdateRequestView,
    post: RegistryState,
    r: Result<Notification, RegistryError>,
)
    requires
        kind_named(req.update_type) matches Some(kind) && status_target(
            pre,
            kind,
            req.org_id,
            req.identifier,
            req.env,
        ) is None,
        status_update_outcome(pre, req, post, r),
    ensures
        fails_with(r, ErrorKind::NotFound),
        post == pre,
{
}

/// Once a status has been recorded for a branch of a schema, the schema
/// seen from that branch shows the status; the data and the version that
/// it shows are what they were.
pub proof fn lemma_recorded_status_is_shown(
    pre: RegistryState,
    org: Seq<char>,
    identifier: Seq<char>,
    branch_name: Seq<char>,
    status: PipelineStatus,
    post: RegistryState,
    recorded: Result<(), RegistryError>,
    before: Result<GetDbschemaByIdResponse, RegistryError>,
    after: Result<GetDbschemaByIdResponse, RegistryError>,
)
    requires
        pre.wf(),
        status_applied(pre, UpdateKind::Schema, org, identifier, branch_name, status, post, recorded),
        recorded is Ok,
        dbschema_resolved(pre, identifier, Some(branch_name), before),
        dbschema_resolved(post, identifier, Some(branch_name), after),
    ensures
        before matches Ok(old_view) && after matches Ok(new_view) && {
            &&& new_view@.pipeline_status == Some(status.text())
            &&& new_view@.data == old_view@.data
            &&& new_view@.version == old_view@.version
            &&& new_view@.id == old_view@.id
            &&& new_view@.branch_id == old_view@.branch_id
        },
{
    let by_both = dbschema_identified_in(identifier, org);
    let by_name = dbschema_identified(identifier);
    let rows = pre.dbschemas.rows;
    lemma_first_match(rows, by_both);
    lemma_first_match(rows, by_name);
    let i = pre.dbschema_in(identifier, org)->0;
    assert(by_name(rows[i]));
    let j = pre.dbschema_by_identifier(identifier)->0;
    if j < i {
        assert(rows[j].identifier == rows[i].identifier);
    }
    assert(i == j);
    let k = pre.branch_of(rows[i].id, branch_name)->0;
    let p = branch_at(rows[i].id, branch_name);
    lemma_first_match(pre.dbschema_branches.rows, p);
    lemma_first_match_update(pre.dbschema_branches.rows, p, k, post.dbschema_branches.rows[k]);
}

/// Creating a schema under an identifier that no schema has succeeds
/// wherever the tables have room. It adds the schema, with the fields of
/// the request, and its first branch, `stage`, which has neither data nor
/// a status; it changes no other row. The answer names the schema by its
/// id and by the identifier.
pub proof fn lemma_created_dbschema_is_one_row(
    pre: RegistryState,
    req: CreateDbschemaRequestView,
    group_id: Option<Seq<char>>,
    identifier: Seq<char>,
    now: Timestamp,
    post: RegistryState,
    created: Result<CreateDbschemaResponse, RegistryError>,
)
    requires
        pre.wf(),
        pre.dbschema_by_identifier(identifier) is None,
        pre.dbschemas.has_room(),
        pre.dbschema_branches.has_room(),
        create_dbschema_outcome(pre, req, group_id, identifier, now, post, created),
    ensures
        created matches Ok(resp) && {
            let n = pre.dbschemas.rows.len() as int;
            let m = pre.dbschema_branches.rows.len() as int;
            &&& resp@.identifier == identifier
            &&& post.dbschemas.rows.len() == n + 1
            &&& post.dbschemas.rows.subrange(0, n) == pre.dbschemas.rows
            &&& post.dbschemas.rows[n].id == resp@.id
            &&& post.dbschemas.rows[n].identifier == Some(identifier)
            &&& post.dbschemas.rows[n].name == req.name
            &&& post.dbschemas.rows[n].description == req.description
            &&& post.dbschemas.rows[n].data == req.data
            &&& post.dbschemas.rows[n].db_type == req.db_type
            &&& post.dbschemas.rows[n].organization_id == Some(req.organisation_id)
            &&& post.dbschema_branches.rows.len() == m + 1
            &&& post.dbschema_branches.rows.subrange(0, m) == pre.dbschema_branches.rows
            &&& post.dbschema_branches.rows[m].parent_id == resp@.id
            &&& post.dbschema_branches.rows[m].branch_name == "stage"@
            &&& post.dbschema_branches.rows[m].data is None
            &&& post.dbschema_branches.rows[m].version == Some(req.version)
            &&& post.dbschema_branches.rows[m].pipeline_status is None
            &&& post == RegistryState {
                dbschemas: post.dbschemas,
                dbschema_branches: post.dbschema_branches,
                ..pre
            }
        },
{
    let n = pre.dbschemas.rows.len() as int;
    let m = pre.dbschema_branches.rows.len() as int;
    assert(post.dbschemas.rows.subrange(0, n) =~= pre.dbschemas.rows);
    assert(post.dbschema_branches.rows.subrange(0, m) =~= pre.dbschema_branches.rows);
}

/// Creating a branch of a name that an existing schema does not have
/// succeeds wherever the table of branches has room. It adds that branch,
/// with the data of the request and without a version or a status, and
/// changes no other row.
pub proof fn lemma_created_branch_is_one_row(
    pre: RegistryState,
    schema_id: i64,
    req: CreateDbschemaBranchRequestView,
    now: Timestamp,
    post: RegistryState,
    created: Result<CreateDbschemaBranchResponse, RegistryError>,
)
    requires
        pre.wf(),
        pre.dbschemas.holds_id(schema_id),
        pre.branch_of(schema_id, req.branch_name) is None,
        pre.dbschema_branches.has_room(),
        create_branch_outcome(pre, schema_id, req, now, post, created),
    ensures
        created matches Ok(resp) && {
            let m = pre.dbschema_branches.rows.len() as int;
            &&& post.dbschema_branches.rows.len() == m + 1
            &&& post.dbschema_branches.rows.subrange(0, m) == pre.dbschema_branches.rows
            &&& post.dbschema_branches.rows[m].id == resp@.id
            &&& post.dbschema_branches.rows[m].parent_id == schema_id
            &&& post.dbschema_branches.rows[m].branch_name == req.branch_name
            &&& post.dbschema_branches.rows[m].data == req.data
            &&& post.dbschema_branches.rows[m].version is None
            &&& post.dbschema_branches.rows[m].pipeline_status is None
            &&& post == RegistryState { dbschema_branches: post.dbschema_branches, ..pre }
        },
{
    pre.dbschemas.lemma_position_holds(schema_id);
    let m = pre.dbschema_branches.rows.len() as int;
    assert(post.dbschema_branches.rows.subrange(0, m) =~= pre.dbschema_branches.rows);
}

} // verus!
