//! Pipeline status: what the last build or deployment of a branch or an
//! environment came to.
//!
//! A status is recorded on the row of a branch of a schema, or of an
//! environment of a package or a service. Any status may follow any other.
//! Only an existing row takes a status: none is created for it, and a
//! request for an entity or an environment that does not exist is not
//! found, whatever else it says. The status is recorded before anybody is
//! told of it, so that a notification that fails leaves the status in
//! place.

use vstd::prelude::*;
use crate::config::Config;
use crate::error::{fails_with, ErrorKind, RegistryError};
use crate::json::{encode_object, json_text_of_object};
use crate::models::request::{
    PipelineStatusUpdateRequest, PipelineStatusUpdateRequestView, UpdateDbPipelineRequest,
};
use crate::models::schema::{
    Dbschema, Dbschema_Branch, Dbschema_BranchView, Package_Env, Package_EnvView, Service_Envs,
    Service_EnvsView,
};
use crate::registry::{Registry, RegistryState};
use crate::status::{kind_named, status_named, PipelineStatus, UpdateKind};

verus! {

/// A message for the members of a group.
#[derive(Clone, Debug, PartialEq, Eq)]
pub struct Notification {
    pub group_id: String,
    pub topic: String,
    pub payload: String,
}

/// What a `Notification` holds.
pub struct NotificationView {
    pub group_id: Seq<char>,
    pub topic: Seq<char>,
    pub payload: Seq<char>,
}

impl View for Notification {
    type V = NotificationView;

    open spec fn view(&self) -> NotificationView {
        NotificationView { group_id: self.group_id@, topic: self.topic@, payload: self.payload@ }
    }
}

/// The row that a status update is for: the position of the branch or
/// environment row in its table, or the reason why there is none. The
/// parent is looked for by its identifier within the organization, the row
/// by the branch or environment name under that parent.
pub open spec fn status_target(
    pre: RegistryState,
    kind: UpdateKind,
    org: Seq<char>,
    identifier: Seq<char>,
    env: Seq<char>,
) -> Option<int> {
    match kind {
        UpdateKind::Schema => match pre.dbschema_in(identifier, org) {
            Some(i) => pre.branch_of(pre.dbschemas.rows[i].id, env),
            None => None,
        },
        UpdateKind::Package => match pre.package_in(identifier, org) {
            Some(i) => pre.package_env_of(pre.packages.rows[i].id, env),
            None => None,
        },
        UpdateKind::Service => match pre.service_in(identifier, org) {
            Some(i) => pre.service_env_of(pre.services.rows[i].id, env),
            None => None,
        },
    }
}

/// The registry with the given status on one branch or environment row.
pub open spec fn with_status(
    pre: RegistryState,
    kind: UpdateKind,
    k: int,
    status: Seq<char>,
) -> RegistryState {
    match kind {
        UpdateKind::Schema => pre.with_dbschema_branches(
            pre.dbschema_branches.replaced(
                k,
                Dbschema_BranchView {
                    pipeline_status: Some(status),
                    ..pre.dbschema_branches.rows[k]
                },
            ),
        ),
        UpdateKind::Package => pre.with_package_envs(
            pre.package_envs.replaced(
                k,
                Package_EnvView { pipeline_status: Some(status), ..pre.package_envs.rows[k] },
            ),
        ),
        UpdateKind::Service => pre.with_service_envs(
            pre.service_envs.replaced(
                k,
                Service_EnvsView { pipeline_status: Some(status), ..pre.service_envs.rows[k] },
            ),
        ),
    }
}

/// What recording a status does: where the entity or its row for the
/// environment does not exist, nothing but a refusal; otherwise the status
/// is set on that row.
pub open spec fn status_applied(
    pre: RegistryState,
    kind: UpdateKind,
    org: Seq<char>,
    identifier: Seq<char>,
    env: Seq<char>,
    status: PipelineStatus,
    post: RegistryState,
    r: Result<(), RegistryError>,
) -> bool {
    match status_target(pre, kind, org, identifier, env) {
        None => fails_with(r, ErrorKind::NotFound) && post == pre,
        Some(k) => r is Ok && post == with_status(pre, kind, k, status.text()),
    }
}

/// Sets the status on the branch at position `k`.
fn set_branch_status(reg: &mut Registry, k: usize, status: PipelineStatus)
    requires
        old(reg)@.wf(),
        k < old(reg)@.dbschema_branches.rows.len(),
    ensures
        final(reg)@.wf(),
        final(reg)@ == with_status(old(reg)@, UpdateKind::Schema, k as int, status.text()),
{
    let b = reg.dbschema_branches.row(k);
    let row = Dbschema_Branch {
        parent_id: b.parent_id,
        branch_name: b.branch_name.clone(),
        data: b.data.clone(),
        created_at: b.created_at,
        updated_at: b.updated_at,
        version: b.version.clone(),
        pipeline_status: Some(status.as_text()),
        id: b.id,
    };
    reg.dbschema_branches.replace(k, row);
}

/// Sets the status on the package environment at position `k`.
fn set_package_status(reg: &mut Registry, k: usize, status: PipelineStatus)
    requires
        old(reg)@.wf(),
        k < old(reg)@.package_envs.rows.len(),
    ensures
        final(reg)@.wf(),
        final(reg)@ == with_status(old(reg)@, UpdateKind::Package, k as int, status.text()),
{
    let e = reg.package_envs.row(k);
    let row = Package_Env {
        version: e.version.clone(),
        env: e.env.clone(),
        parent_id: e.parent_id,
        pipeline_status: Some(status.as_text()),
        id: e.id,
    };
    reg.package_envs.replace(k, row);
}

/// Sets the status on the service environment at position `k`.
fn set_service_status(reg: &mut Registry, k: usize, status: PipelineStatus)
    requires
        old(reg)@.wf(),
        k < old(reg)@.service_envs.rows.len(),
    ensures
        final(reg)@.wf(),
        final(reg)@ == with_status(old(reg)@, UpdateKind::Service, k as int, status.text()),
{
    let e = reg.service_envs.row(k);
    let row = Service_Envs {
        parent_id: e.parent_id,
        spec: e.spec.clone(),
        env: e.env.clone(),
        base_url: e.base_url.clone(),
        base_url_ws: e.base_url_ws.clone(),
        updated_at: e.updated_at,
        version: e.version.clone(),
        pipeline_status: Some(status.as_text()),
        id: e.id,
    };
    reg.service_envs.replace(k, row);
}

/// The number of rows that can take a status for a kind of entity.
pub open spec fn status_rows(pre: RegistryState, kind: UpdateKind) -> nat {
    match kind {
        UpdateKind::Schema => pre.dbschema_branches.rows.len(),
        UpdateKind::Package => pre.package_envs.rows.len(),
        UpdateKind::Service => pre.service_envs.rows.len(),
    }
}

/// The row that a status update is for: the entity is looked for by its
/// identifier within the organization, the row by the name of the branch
/// or environment under it.
pub fn find_status_target(
    reg: &Registry,
    kind: UpdateKind,
    org_id: &str,
    identifier: &str,
    env: &str,
) -> (r: Option<usize>)
    ensures
        match r {
            Some(k) => status_target(reg@, kind, org_id@, identifier@, env@) == Some(k as int)
                && k < status_rows(reg@, kind),
            None => status_target(reg@, kind, org_id@, identifier@, env@) is None,
        },
{
    match kind {
        UpdateKind::Schema => match reg.find_dbschema_in(identifier, org_id) {
            Some(i) => reg.find_branch(reg.dbschemas.row(i).id, env),
            None => None,
        },
        UpdateKind::Package => match reg.find_package_in(identifier, org_id) {
            Some(i) => reg.find_package_env(reg.packages.row(i).id, env),
            None => None,
        },
        UpdateKind::Service => match reg.find_service_in(identifier, org_id) {
            Some(i) => reg.find_service_env(reg.services.row(i).id, env),
            None => None,
        },
    }
}

/// Sets the status on the row at position `k` of the table that holds the
/// branches or environments of a kind of entity.
fn set_status(reg: &mut Registry, kind: UpdateKind, k: usize, status: PipelineStatus)
    requires
        old(reg)@.wf(),
        k < status_rows(old(reg)@, kind),
    ensures
        final(reg)@.wf(),
        final(reg)@ == with_status(old(reg)@, kind, k as int, status.text()),
{
    match kind {
        UpdateKind::Schema => set_branch_status(reg, k, status),
        UpdateKind::Package => set_package_status(reg, k, status),
        UpdateKind::Service => set_service_status(reg, k, status),
    }
}

/// Records a pipeline status for one branch of a schema, or one
/// environment of a package or a service.
///
/// The entity is looked for by its identifier within the organization,
/// its row by the name of the branch or environment. Where either is
/// missing the request is refused and nothing changes. Otherwise that row
/// gets the status; no other row and no other field changes.
pub fn apply_status(
    reg: &mut Registry,
    kind: UpdateKind,
    org_id: &str,
    identifier: &str,
    env: &str,
    status: PipelineStatus,
) -> (r: Result<(), RegistryError>)
    requires
        old(reg)@.wf(),
    ensures
        final(reg)@.wf(),
        status_applied(old(reg)@, kind, org_id@, identifier@, env@, status, final(reg)@, r),
{
    match find_status_target(reg, kind, org_id, identifier, env) {
        Some(k) => {
            set_status(reg, kind, k, status);
            Ok(())
        },
        None => Err(RegistryError::new(ErrorKind::NotFound, not_found_message(kind))),
    }
}

/// What is said where the entity of a status update, or its row for the
/// environment, does not exist.
fn not_found_message(kind: UpdateKind) -> (message: &'static str) {
    match kind {
        UpdateKind::Schema => "Schema not found",
        UpdateKind::Package => "Package not found",
        UpdateKind::Service => "Service not found",
    }
}

/// The members of the payload of a notification of a status update.
pub open spec fn payload_members(req: PipelineStatusUpdateRequestView) -> Seq<
    (Seq<char>, Seq<char>),
> {
    seq![("org_id"@, req.org_id), ("identifier"@, req.identifier), ("status"@, req.status)]
}

/// The notification of a status update: for the group that backs the
/// organization, on the topic `pipeline-update`, with a JSON object of the
/// organization, the identifier and the status as its payload.
pub open spec fn status_notification(
    req: PipelineStatusUpdateRequestView,
    group_id: Seq<char>,
) -> NotificationView {
    NotificationView {
        group_id,
        topic: "pipeline-update"@,
        payload: json_text_of_object(payload_members(req)),
    }
}

/// Why a request for a status update changes nothing, if it changes
/// nothing. The request is read in this order: it must name a kind of
/// entity; the entity and its row for the environment must exist; and it
/// must name a status.
pub open spec fn status_update_error(
    pre: RegistryState,
    req: PipelineStatusUpdateRequestView,
) -> Option<ErrorKind> {
    match kind_named(req.update_type) {
        None => Some(ErrorKind::Validation),
        Some(kind) => match status_target(pre, kind, req.org_id, req.identifier, req.env) {
            None => Some(ErrorKind::NotFound),
            Some(_) => if status_named(req.status) is None {
                Some(ErrorKind::Validation)
            } else {
                None
            },
        },
    }
}

/// What a request for a status update does.
///
/// A request that changes nothing is refused. Otherwise the status is
/// recorded, whatever follows. The answer is then the notification to
/// publish, or, where no organization has the slug that the request names,
/// a refusal.
pub open spec fn status_update_outcome(
    pre: RegistryState,
    req: PipelineStatusUpdateRequestView,
    post: RegistryState,
    r: Result<Notification, RegistryError>,
) -> bool {
    match status_update_error(pre, req) {
        Some(kind) => fails_with(r, kind) && post == pre,
        None => {
            let kind = kind_named(req.update_type)->0;
            let k = status_target(pre, kind, req.org_id, req.identifier, req.env)->0;
            &&& post == with_status(pre, kind, k, req.status)
            &&& match pre.organization_by_slug(req.org_id) {
                None => fails_with(r, ErrorKind::NotFound),
                Some(o) => r matches Ok(n) && n@ == status_notification(
                    req,
                    pre.organizations.rows[o].group_id,
                ),
            }
        },
    }
}

/// Records the pipeline status that a request reports, and prepares the
/// notification of it.
///
/// The kind of entity is one of `schema`, `package` and `service`, the
/// status one of `running`, `failed`, `passing` and `dormant`. A request
/// for an entity or an environment that does not exist is refused as not
/// found, whatever status it names. The caller publishes the notification
/// that is returned; whether or not that succeeds, the status stays
/// recorded.
pub fn update_pipeline_status(reg: &mut Registry, request: &PipelineStatusUpdateRequest) -> (r:
    Result<Notification, RegistryError>)
    requires
        old(reg)@.wf(),
    ensures
        final(reg)@.wf(),
        status_update_outcome(old(reg)@, request@, final(reg)@, r),
{
    let kind = match UpdateKind::parse(request.update_type.as_str()) {
        Some(kind) => kind,
        None => {
            return Err(RegistryError::new(ErrorKind::Validation, "Invalid update_type provided"));
        },
    };
    let k = match find_status_target(
        reg,
        kind,
        request.org_id.as_str(),
        request.identifier.as_str(),
        request.env.as_str(),
    ) {
        Some(k) => k,
        None => {
            return Err(RegistryError::new(ErrorKind::NotFound, not_found_message(kind)));
        },
    };
    let status = match PipelineStatus::parse(request.status.as_str()) {
        Some(status) => status,
        None => {
            return Err(RegistryError::new(ErrorKind::Validation, "Invalid status provided"));
        },
    };
    set_status(reg, kind, k, status);
    let o = match reg.find_organization(request.org_id.as_str()) {
        Some(o) => o,
        None => {
            return Err(RegistryError::new(ErrorKind::NotFound, "Organization not found"));
        },
    };
    let group_id = reg.organizations.row(o).group_id.clone();
    let mut members: Vec<(String, String)> = Vec::new();
    members.push(("org_id".to_owned(), request.org_id.clone()));
    members.push(("identifier".to_owned(), request.identifier.clone()));
    members.push(("status".to_owned(), request.status.clone()));
    proof {
        assert(crate::json::text_pairs(members@) =~= payload_members(request@));
    }
    let payload = encode_object(&members);
    Ok(Notification { group_id, topic: "pipeline-update".to_owned(), payload })
}

/// The notification that is to be published after a status update: the
/// one that was prepared where the registry works with the notification
/// service, and none where it does not.
pub fn publication(config: &Config, notification: Notification) -> (r: Option<Notification>)
    ensures
        r == (if config.notification_integration {
            Some(notification)
        } else {
            None
        }),
{
    if config.notification_integration {
        Some(notification)
    } else {
        None
    }
}

/// What the caller of `update_pipeline_status` answers once it has tried
/// to publish the notification: success where it was published, and a
/// failure of the notification service where it was not.
pub fn after_publish(published: Result<(), String>) -> (r: Result<(), RegistryError>)
    ensures
        match published {
            Ok(_) => r is Ok,
            Err(_) => fails_with(r, ErrorKind::Upstream),
        },
{
    match published {
        Ok(_) => Ok(()),
        Err(_) => Err(RegistryError::new(ErrorKind::Upstream, "Failed to publish message")),
    }
}

/// What a request for the pipeline status of a branch of a schema does.
/// The schema and the branch are looked for first; then the status must be
/// one of the four names of a state.
pub open spec fn db_pipeline_outcome(
    pre: RegistryState,
    org: Seq<char>,
    schema_name: Seq<char>,
    branch_name: Seq<char>,
    status: Seq<char>,
    post: RegistryState,
    r: Result<Dbschema, RegistryError>,
) -> bool {
    match pre.dbschema_named(schema_name, org) {
        None => fails_with(r, ErrorKind::NotFound) && post == pre,
        Some(i) => match pre.branch_of(pre.dbschemas.rows[i].id, branch_name) {
            None => fails_with(r, ErrorKind::NotFound) && post == pre,
            Some(k) => if status_named(status) is None {
                fails_with(r, ErrorKind::Validation) && post == pre
            } else {
                &&& r matches Ok(row)
                &&& row@ == pre.dbschemas.rows[i]
                &&& post == with_status(pre, UpdateKind::Schema, k, status)
            },
        },
    }
}

/// Records a pipeline status for a branch of the schema that has the
/// given name in the organization. The answer is the schema.
pub fn update_db_pipeline(
    reg: &mut Registry,
    org_id: &str,
    schema_name: &str,
    branch_name: &str,
    request: &UpdateDbPipelineRequest,
) -> (r: Result<Dbschema, RegistryError>)
    requires
        old(reg)@.wf(),
    ensures
        final(reg)@.wf(),
        db_pipeline_outcome(
            old(reg)@,
            org_id@,
            schema_name@,
            branch_name@,
            request.status@,
            final(reg)@,
            r,
        ),
{
    let i = match reg.find_dbschema_named(schema_name, org_id) {
        Some(i) => i,
        None => {
            return Err(RegistryError::new(ErrorKind::NotFound, "Dbschema not found"));
        },
    };
    let d = reg.dbschemas.row(i);
    let answer = Dbschema {
        name: d.name.clone(),
        description: d.description.clone(),
        created_at: d.created_at,
        updated_at: d.updated_at,
        data: d.data.clone(),
        group_id: d.group_id.clone(),
        identifier: d.identifier.clone(),
        organization_id: d.organization_id.clone(),
        repo_origin: d.repo_origin.clone(),
        db_type: d.db_type.clone(),
        quick_links: d.quick_links.clone(),
        id: d.id,
    };
    let k = match reg.find_branch(answer.id, branch_name) {
        Some(k) => k,
        None => {
            return Err(RegistryError::new(ErrorKind::NotFound, "Dbschema branch not found"));
        },
    };
    let status = match PipelineStatus::parse(request.status.as_str()) {
        Some(status) => status,
        None => {
            return Err(RegistryError::new(ErrorKind::Validation, "Invalid status provided"));
        },
    };
    set_branch_status(reg, k, status);
    Ok(answer)
}

} // verus!
