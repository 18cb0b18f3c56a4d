//! Database schemas and their branches.
//!
//! A schema is seen either by itself or from one of its branches. Seen
//! from a branch, the version and the pipeline status are those of the
//! branch, and the data is that of the branch where the branch has data
//! and that of the schema where it has none.

use vstd::prelude::*;
use crate::clock::{now, Timestamp};
use crate::config::Config;
use crate::error::{fails_with, ErrorKind, RegistryError};
use crate::ident::{is_uuid_text, new_identifier};
use crate::json::{tables_of_data, tables_of_text};
use crate::models::request::{
    CreateDbschemaBranchRequest, CreateDbschemaBranchRequestView, CreateDbschemaRequest,
    CreateDbschemaRequestView, UpdateDbschemaBranchRequest, UpdateDbschemaBranchRequestView,
    UpdateDbschemaRequest, UpdateDbschemaRequestView,
};
use crate::models::response::{
    CreateDbschemaBranchResponse, CreateDbschemaBranchResponseView, CreateDbschemaResponse,
    CreateDbschemaResponseView, GetDbschemaAndTablesResponse, GetDbschemaAndTablesResponseView,
    GetDbschemaByIdResponse, GetDbschemaByIdResponseView, GetDbschemaResponse,
    GetDbschemaResponseView, UpdateDbschemaBranchResponse, UpdateDbschemaBranchResponseView,
};
use crate::models::schema::{Dbschema, DbschemaView, Dbschema_Branch, Dbschema_BranchView};
use crate::query::{
    first_match, lemma_filter_none, lemma_filter_prefix, lemma_filter_step, lemma_first_is,
    lemma_first_match, lemma_first_none, page_of, page_range, picks, selects,
};
use crate::registry::{
    branch_at, lemma_schema_added, lemma_schema_replaced, Registry, RegistryState,
};

use crate::text::{
    contains_subtext, contains_text, has_subtext, has_text, opt_is, opt_text, texts,
};

verus! {

/// The row of a schema that a request creates.
pub open spec fn dbschema_created(
    req: CreateDbschemaRequestView,
    group_id: Option<Seq<char>>,
    identifier: Seq<char>,
    id: i64,
    now: Timestamp,
) -> DbschemaView {
    DbschemaView {
        name: req.name,
        description: req.description,
        created_at: now,
        updated_at: now,
        data: req.data,
        group_id,
        identifier: Some(identifier),
        organization_id: Some(req.organisation_id),
        repo_origin: Some(req.repo_origin),
        db_type: req.db_type,
        quick_links: req.quick_links,
        id,
    }
}

/// The first branch of a new schema: `stage`, without data of its own
/// and without a pipeline status, at the version of the request.
pub open spec fn first_branch(
    req: CreateDbschemaRequestView,
    parent_id: i64,
    id: i64,
    now: Timestamp,
) -> Dbschema_BranchView {
    Dbschema_BranchView {
        parent_id,
        branch_name: "stage"@,
        data: None,
        created_at: now,
        updated_at: now,
        version: Some(req.version),
        pipeline_status: None,
        id,
    }
}

/// Why a schema cannot be created under an identifier, if it cannot: the
/// identifier is that of an older schema, or a table is full.
pub open spec fn create_dbschema_error(pre: RegistryState, identifier: Seq<char>) -> Option<
    ErrorKind,
> {
    if pre.dbschema_by_identifier(identifier) is Some {
        Some(ErrorKind::Conflict)
    } else if !pre.dbschemas.has_room() || !pre.dbschema_branches.has_room() {
        Some(ErrorKind::StoreUnavailable)
    } else {
        None
    }
}

/// The registry with a new schema and its first branch.
pub open spec fn with_new_dbschema(
    pre: RegistryState,
    req: CreateDbschemaRequestView,
    group_id: Option<Seq<char>>,
    identifier: Seq<char>,
    now: Timestamp,
) -> RegistryState {
    let id = pre.dbschemas.next_id;
    pre.with_dbschemas(
        pre.dbschemas.appended(dbschema_created(req, group_id, identifier, id, now)),
    ).with_dbschema_branches(
        pre.dbschema_branches.appended(first_branch(req, id, pre.dbschema_branches.next_id, now)),
    )
}

/// What the creation of a schema under a given identifier does at a
/// given time.
pub open spec fn create_dbschema_outcome(
    pre: RegistryState,
    req: CreateDbschemaRequestView,
    group_id: Option<Seq<char>>,
    identifier: Seq<char>,
    now: Timestamp,
    post: RegistryState,
    r: Result<CreateDbschemaResponse, RegistryError>,
) -> bool {
    match create_dbschema_error(pre, identifier) {
        Some(kind) => fails_with(r, kind) && post == pre,
        None => {
            &&& r matches Ok(resp)
            &&& resp@ == (CreateDbschemaResponseView {
                message: "Dbschema created successfully"@,
                id: pre.dbschemas.next_id,
                identifier,
            })
            &&& post == with_new_dbschema(pre, req, group_id, identifier, now)
        },
    }
}

/// Creates a schema under the given external identifier, at the time
/// `now`, together with its first branch, `stage`. `group_id` is the group
/// that backs the schema. An identifier that an older schema has is refused
/// as a conflict.
pub fn create_dbschema_with(
    reg: &mut Registry,
    request: &CreateDbschemaRequest,
    group_id: Option<String>,
    identifier: String,
    now: Timestamp,
) -> (r: Result<CreateDbschemaResponse, RegistryError>)
    requires
        old(reg)@.wf(),
    ensures
        final(reg)@.wf(),
        create_dbschema_outcome(
            old(reg)@,
            request@,
            opt_text(group_id),
            identifier@,
            now,
            final(reg)@,
            r,
        ),
{
    let id = reg.dbschemas.next_id();
    if reg.find_dbschema(identifier.as_str()).is_some() {
        return Err(RegistryError::new(ErrorKind::Conflict, "The identifier is taken"));
    }
    if !reg.dbschemas.has_room() || !reg.dbschema_branches.has_room() {
        return Err(RegistryError::new(ErrorKind::StoreUnavailable, "Error inserting new dbschema"));
    }
    let row = Dbschema {
        name: request.name.clone(),
        description: request.description.clone(),
        created_at: now,
        updated_at: now,
        data: request.data.clone(),
        group_id,
        identifier: Some(identifier.clone()),
        organization_id: Some(request.organisation_id.clone()),
        repo_origin: Some(request.repo_origin.clone()),
        db_type: request.db_type.clone(),
        quick_links: request.quick_links.clone(),
        id,
    };
    proof {
        lemma_schema_added(reg@, row@);
        assert forall|k: int| 0 <= k < reg@.dbschema_branches.rows.len() implies (
        #[trigger] reg@.dbschema_branches.rows[k]).parent_id != id by {
            reg@.dbschemas.lemma_held_id_is_below_next(reg@.dbschema_branches.rows[k].parent_id);
        }
    }
    reg.dbschemas.append(row);
    let branch = Dbschema_Branch {
        parent_id: id,
        branch_name: "stage".to_owned(),
        data: None,
        created_at: now,
        updated_at: now,
        version: Some(request.version.clone()),
        pipeline_status: None,
        id: reg.dbschema_branches.next_id(),
    };
    reg.dbschema_branches.append(branch);
    Ok(
        CreateDbschemaResponse {
            message: "Dbschema created successfully".to_owned(),
            id,
            identifier,
        },
    )
}

/// The name under which a group is to be asked for before a schema is
/// created: a fresh random identifier where the registry works with the
/// identity service, and none where it does not.
pub fn dbschema_group_request(config: &Config) -> (r: Option<String>)
    ensures
        match r {
            Some(name) => config.identity_integration && is_uuid_text(name@),
            None => !config.identity_integration,
        },
{
    if config.identity_integration {
        Some(new_identifier())
    } else {
        None
    }
}

/// Creates a schema with a fresh random identifier, together with its
/// first branch, `stage`, which starts at the version of the request.
/// `group_id` is the group that backs the schema. The current time is
/// recorded on both rows.
pub fn create_dbschema(
    reg: &mut Registry,
    request: &CreateDbschemaRequest,
    group_id: Option<String>,
) -> (r: Result<CreateDbschemaResponse, RegistryError>)
    requires
        old(reg)@.wf(),
    ensures
        final(reg)@.wf(),
        exists|identifier: Seq<char>, at: Timestamp|
            is_uuid_text(identifier) && at.micros >= 0 && #[trigger] create_dbschema_outcome(
                old(reg)@,
                request@,
                opt_text(group_id),
                identifier,
                at,
                final(reg)@,
                r,
            ),
{
    let identifier = new_identifier();
    let at = now();
    create_dbschema_with(reg, request, group_id, identifier, at)
}

/// What a schema is seen as by itself: its own fields, with its own data
/// and without a version or a pipeline status.
pub open spec fn dbschema_alone(d: DbschemaView) -> GetDbschemaByIdResponseView {
    GetDbschemaByIdResponseView {
        id: d.id,
        name: d.name,
        description: d.description,
        version: None,
        updated_at: d.updated_at,
        data: d.data,
        pipeline_status: None,
        branch_id: None,
        org_id: d.organization_id,
        group_id: d.group_id,
    }
}

/// The data of a schema as seen from a branch: that of the branch where
/// it has data, that of the schema where it has none.
pub open spec fn merged_data(d: DbschemaView, b: Dbschema_BranchView) -> Option<Seq<char>> {
    match b.data {
        Some(data) => Some(data),
        None => d.data,
    }
}

/// What a schema is seen as from a branch: the version and the pipeline
/// status are those of the branch, the data is merged.
pub open spec fn dbschema_on_branch(
    d: DbschemaView,
    b: Dbschema_BranchView,
) -> GetDbschemaByIdResponseView {
    GetDbschemaByIdResponseView {
        id: d.id,
        name: d.name,
        description: d.description,
        version: b.version,
        updated_at: d.updated_at,
        data: merged_data(d, b),
        pipeline_status: b.pipeline_status,
        branch_id: Some(b.id),
        org_id: d.organization_id,
        group_id: d.group_id,
    }
}

/// What a request for a schema is answered with: the schema by itself
/// where no branch is named, the schema as seen from the branch where one
/// is named, and a refusal where the schema or the branch does not exist.
pub open spec fn dbschema_resolved(
    pre: RegistryState,
    identifier: Seq<char>,
    branch: Option<Seq<char>>,
    r: Result<GetDbschemaByIdResponse, RegistryError>,
) -> bool {
    match pre.dbschema_by_identifier(identifier) {
        None => fails_with(r, ErrorKind::NotFound),
        Some(i) => {
            let d = pre.dbschemas.rows[i];
            match branch {
                None => r matches Ok(resp) && resp@ == dbschema_alone(d),
                Some(name) => match pre.branch_of(d.id, name) {
                    None => fails_with(r, ErrorKind::NotFound),
                    Some(k) => r matches Ok(resp) && resp@ == dbschema_on_branch(
                        d,
                        pre.dbschema_branches.rows[k],
                    ),
                },
            }
        },
    }
}

/// A copy of the data of a branch, or of the schema where the branch has
/// none.
fn merge_data(d: &Dbschema, b: &Dbschema_Branch) -> (r: Option<String>)
    ensures
        opt_text(r) == merged_data(d@, b@),
{
    match &b.data {
        Some(data) => Some(data.clone()),
        None => d.data.clone(),
    }
}

/// A schema, by itself or as seen from one of its branches.
pub fn fetch_dbschema_by_id(reg: &Registry, schema_id: &str, branch: Option<&String>) -> (r:
    Result<GetDbschemaByIdResponse, RegistryError>)
    ensures
        dbschema_resolved(
            reg@,
            schema_id@,
            match branch {
                Some(name) => Some(name@),
                None => None,
            },
            r,
        ),
{
    let i = match reg.find_dbschema(schema_id) {
        Some(i) => i,
        None => {
            return Err(RegistryError::new(ErrorKind::NotFound, "Dbschema not found"));
        },
    };
    let d = reg.dbschemas.row(i);
    match branch {
        None => Ok(
            GetDbschemaByIdResponse {
                id: d.id,
                name: d.name.clone(),
                description: d.description.clone(),
                version: None,
                updated_at: d.updated_at,
                data: d.data.clone(),
                pipeline_status: None,
                branch_id: None,
                org_id: d.organization_id.clone(),
                group_id: d.group_id.clone(),
            },
        ),
        Some(name) => {
            let k = match reg.find_branch(d.id, name.as_str()) {
                Some(k) => k,
                None => {
                    return Err(
                        RegistryError::new(ErrorKind::NotFound, "Dbschema branch not found"),
                    );
                },
            };
            let b = reg.dbschema_branches.row(k);
            Ok(
                GetDbschemaByIdResponse {
                    id: d.id,
                    name: d.name.clone(),
                    description: d.description.clone(),
                    version: b.version.clone(),
                    updated_at: d.updated_at,
                    data: merge_data(d, b),
                    pipeline_status: b.pipeline_status.clone(),
                    branch_id: Some(b.id),
                    org_id: d.organization_id.clone(),
                    group_id: d.group_id.clone(),
                },
            )
        },
    }
}

/// See `fetch_dbschema_by_id`.
pub fn get_dbschema_by_id(reg: &Registry, schema_id: &str, branch: Option<&String>) -> (r: Result<
    GetDbschemaByIdResponse,
    RegistryError,
>)
    ensures
        dbschema_resolved(
            reg@,
            schema_id@,
            match branch {
                Some(name) => Some(name@),
                None => None,
            },
            r,
        ),
{
    fetch_dbschema_by_id(reg, schema_id, branch)
}

/// See `fetch_dbschema_by_id`.
pub fn get_dbschema_by_id_public(reg: &Registry, schema_id: &str, branch: Option<&String>) -> (r:
    Result<GetDbschemaByIdResponse, RegistryError>)
    ensures
        dbschema_resolved(
            reg@,
            schema_id@,
            match branch {
                Some(name) => Some(name@),
                None => None,
            },
            r,
        ),
{
    fetch_dbschema_by_id(reg, schema_id, branch)
}

/// See `fetch_dbschema_by_id`.
pub fn get_dbschema_by_id_userland(reg: &Registry, schema_id: &str, branch: Option<&String>) -> (r:
    Result<GetDbschemaByIdResponse, RegistryError>)
    ensures
        dbschema_resolved(
            reg@,
            schema_id@,
            match branch {
                Some(name) => Some(name@),
                None => None,
            },
            r,
        ),
{
    fetch_dbschema_by_id(reg, schema_id, branch)
}

/// Why a branch cannot be created, if it cannot: the schema does not
/// exist, it has a branch of the name already, or the table is full.
pub open spec fn create_branch_error(
    pre: RegistryState,
    schema_id: i64,
    req: CreateDbschemaBranchRequestView,
) -> Option<ErrorKind> {
    if pre.dbschemas.position_of(schema_id) is None {
        Some(ErrorKind::NotFound)
    } else if pre.branch_of(schema_id, req.branch_name) is Some {
        Some(ErrorKind::Conflict)
    } else if !pre.dbschema_branches.has_room() {
        Some(ErrorKind::StoreUnavailable)
    } else {
        None
    }
}

/// The branch that a request creates: it has neither a version nor a
/// pipeline status yet.
pub open spec fn branch_created(
    req: CreateDbschemaBranchRequestView,
    parent_id: i64,
    id: i64,
    now: Timestamp,
) -> Dbschema_BranchView {
    Dbschema_BranchView {
        parent_id,
        branch_name: req.branch_name,
        data: req.data,
        created_at: now,
        updated_at: now,
        version: None,
        pipeline_status: None,
        id,
    }
}

/// What the creation of a branch does at a given time.
pub open spec fn create_branch_outcome(
    pre: RegistryState,
    schema_id: i64,
    req: CreateDbschemaBranchRequestView,
    now: Timestamp,
    post: RegistryState,
    r: Result<CreateDbschemaBranchResponse, RegistryError>,
) -> bool {
    match create_branch_error(pre, schema_id, req) {
        Some(kind) => fails_with(r, kind) && post == pre,
        None => {
            &&& r matches Ok(resp)
            &&& resp@ == (CreateDbschemaBranchResponseView {
                message: "Dbschema branch created successfully"@,
                id: pre.dbschema_branches.next_id,
            })
            &&& post == pre.with_dbschema_branches(
                pre.dbschema_branches.appended(
                    branch_created(req, schema_id, pre.dbschema_branches.next_id, now),
                ),
            )
        },
    }
}

/// Creates a branch of the schema with the given id, at the time `now`.
pub fn create_dbschema_branch_at(
    reg: &mut Registry,
    schema_id: i64,
    request: &CreateDbschemaBranchRequest,
    now: Timestamp,
) -> (r: Result<CreateDbschemaBranchResponse, RegistryError>)
    requires
        old(reg)@.wf(),
    ensures
        final(reg)@.wf(),
        create_branch_outcome(old(reg)@, schema_id, request@, now, final(reg)@, r),
{
    if reg.dbschemas.index_of(schema_id).is_none() {
        return Err(RegistryError::new(ErrorKind::NotFound, "Dbschema not found"));
    }
    if reg.find_branch(schema_id, request.branch_name.as_str()).is_some() {
        return Err(RegistryError::new(ErrorKind::Conflict, "The schema has a branch of this name"));
    }
    if !reg.dbschema_branches.has_room() {
        return Err(
            RegistryError::new(ErrorKind::StoreUnavailable, "Failed to insert new Dbschema_Branch"),
        );
    }
    let id = reg.dbschema_branches.next_id();
    let row = Dbschema_Branch {
        parent_id: schema_id,
        branch_name: request.branch_name.clone(),
        data: request.data.clone(),
        created_at: now,
        updated_at: now,
        version: None,
        pipeline_status: None,
        id,
    };
    reg.dbschema_branches.append(row);
    Ok(
        CreateDbschemaBranchResponse {
            message: "Dbschema branch created successfully".to_owned(),
            id,
        },
    )
}

/// Creates a branch of the schema with the given id. A schema has one
/// branch of a name at most: a second one is refused as a conflict. The
/// current time is recorded on the branch.
pub fn create_dbschema_branch(
    reg: &mut Registry,
    schema_id: i64,
    request: &CreateDbschemaBranchRequest,
) -> (r: Result<CreateDbschemaBranchResponse, RegistryError>)
    requires
        old(reg)@.wf(),
    ensures
        final(reg)@.wf(),
        exists|at: Timestamp|
            at.micros >= 0 && create_branch_outcome(
                old(reg)@,
                schema_id,
                request@,
                at,
                final(reg)@,
                r,
            ),
{
    let at = now();
    create_dbschema_branch_at(reg, schema_id, request, at)
}

/// A schema row after an update: the name, the description, the origin,
/// the organization and the links come from the request, and the time of
/// the update is recorded.
pub open spec fn dbschema_updated(
    row: DbschemaView,
    req: UpdateDbschemaRequestView,
    now: Timestamp,
) -> DbschemaView {
    DbschemaView {
        name: req.name,
        description: req.description,
        repo_origin: Some(req.repo_origin),
        organization_id: Some(req.organisation_id),
        quick_links: req.quick_links,
        updated_at: now,
        ..row
    }
}

/// The registry after a schema has been updated: the schema has its new
/// fields, and its branch of the given name, where it has one, the version
/// of the request and the time of the update.
pub open spec fn with_updated_dbschema(
    pre: RegistryState,
    i: int,
    branch_name: Seq<char>,
    req: UpdateDbschemaRequestView,
    now: Timestamp,
) -> RegistryState {
    let d = pre.dbschemas.rows[i];
    let dbschemas = pre.dbschemas.replaced(i, dbschema_updated(d, req, now));
    match pre.branch_of(d.id, branch_name) {
        Some(k) => pre.with_dbschemas(dbschemas).with_dbschema_branches(
            pre.dbschema_branches.replaced(
                k,
                Dbschema_BranchView {
                    version: Some(req.version),
                    updated_at: now,
                    ..pre.dbschema_branches.rows[k]
                },
            ),
        ),
        None => pre.with_dbschemas(dbschemas),
    }
}

/// What the update of a schema does at a given time.
pub open spec fn update_dbschema_outcome(
    pre: RegistryState,
    identifier: Seq<char>,
    branch_name: Seq<char>,
    req: UpdateDbschemaRequestView,
    now: Timestamp,
    post: RegistryState,
    r: Result<Dbschema, RegistryError>,
) -> bool {
    match pre.dbschema_by_identifier(identifier) {
        None => fails_with(r, ErrorKind::NotFound) && post == pre,
        Some(i) => {
            &&& r matches Ok(row)
            &&& row@ == dbschema_updated(pre.dbschemas.rows[i], req, now)
            &&& post == with_updated_dbschema(pre, i, branch_name, req, now)
        },
    }
}

/// Updates the schema with the given external identifier, at the time
/// `now`, and sets the version of its branch of the given name.
pub fn update_dbschema_at(
    reg: &mut Registry,
    schema_id: &str,
    branch_name: &str,
    request: &UpdateDbschemaRequest,
    now: Timestamp,
) -> (r: Result<Dbschema, RegistryError>)
    requires
        old(reg)@.wf(),
    ensures
        final(reg)@.wf(),
        update_dbschema_outcome(
            old(reg)@,
            schema_id@,
            branch_name@,
            request@,
            now,
            final(reg)@,
            r,
        ),
{
    let i = match reg.find_dbschema(schema_id) {
        Some(i) => i,
        None => {
            return Err(RegistryError::new(ErrorKind::NotFound, "Dbschema not found"));
        },
    };
    let held = reg.dbschemas.row(i);
    let id = held.id;
    let row = Dbschema {
        name: request.name.clone(),
        description: request.description.clone(),
        created_at: held.created_at,
        updated_at: now,
        data: held.data.clone(),
        group_id: held.group_id.clone(),
        identifier: held.identifier.clone(),
        organization_id: Some(request.organisation_id.clone()),
        repo_origin: Some(request.repo_origin.clone()),
        db_type: held.db_type.clone(),
        quick_links: request.quick_links.clone(),
        id,
    };
    let answer = Dbschema {
        name: row.name.clone(),
        description: row.description.clone(),
        created_at: row.created_at,
        updated_at: row.updated_at,
        data: row.data.clone(),
        group_id: row.group_id.clone(),
        identifier: row.identifier.clone(),
        organization_id: row.organization_id.clone(),
        repo_origin: row.repo_origin.clone(),
        db_type: row.db_type.clone(),
        quick_links: row.quick_links.clone(),
        id,
    };
    proof {
        lemma_schema_replaced(reg@, i as int, row@);
    }
    reg.dbschemas.replace(i, row);
    match reg.find_branch(id, branch_name) {
        Some(k) => {
            let b = reg.dbschema_branches.row(k);
            let branch = Dbschema_Branch {
                parent_id: b.parent_id,
                branch_name: b.branch_name.clone(),
                data: b.data.clone(),
                created_at: b.created_at,
                updated_at: now,
                version: Some(request.version.clone()),
                pipeline_status: b.pipeline_status.clone(),
                id: b.id,
            };
            reg.dbschema_branches.replace(k, branch);
        },
        None => {},
    }
    Ok(answer)
}

/// Updates the schema with the given external identifier and sets the
/// version of its branch of the given name; a schema without such a branch
/// is updated all the same. The current time is recorded on the rows that
/// change. The answer is the schema as it stands after the update.
pub fn update_dbschema(
    reg: &mut Registry,
    schema_id: &str,
    branch_name: &str,
    request: &UpdateDbschemaRequest,
) -> (r: Result<Dbschema, RegistryError>)
    requires
        old(reg)@.wf(),
    ensures
        final(reg)@.wf(),
        exists|at: Timestamp|
            at.micros >= 0 && update_dbschema_outcome(
                old(reg)@,
                schema_id@,
                branch_name@,
                request@,
                at,
                final(reg)@,
                r,
            ),
{
    let at = now();
    update_dbschema_at(reg, schema_id, branch_name, request, at)
}

/// Why a branch cannot be updated, if it cannot.
///
/// The schema must exist and be backed by a group of which the caller is
/// a member; the branch must exist and belong to the schema; and the
/// schema must have no other branch of the new name.
pub open spec fn update_branch_error(
    pre: RegistryState,
    identifier: Seq<char>,
    branch_id: i64,
    req: UpdateDbschemaBranchRequestView,
    groups: Seq<String>,
) -> Option<ErrorKind> {
    match pre.dbschema_by_identifier(identifier) {
        None => Some(ErrorKind::NotFound),
        Some(i) => {
            let d = pre.dbschemas.rows[i];
            match d.group_id {
                None => Some(ErrorKind::Forbidden),
                Some(g) => if !has_text(groups, g) {
                    Some(ErrorKind::Forbidden)
                } else {
                    match pre.branch_by_id(branch_id, d.id) {
                        None => Some(ErrorKind::NotFound),
                        Some(k) => match pre.branch_of(d.id, req.branch_name) {
                            Some(other) => if other != k {
                                Some(ErrorKind::Conflict)
                            } else {
                                None
                            },
                            None => None,
                        },
                    }
                },
            }
        },
    }
}

/// The registry after a branch has been given a new name and new data.
pub open spec fn with_updated_branch(
    pre: RegistryState,
    identifier: Seq<char>,
    branch_id: i64,
    req: UpdateDbschemaBranchRequestView,
    now: Timestamp,
) -> RegistryState {
    let d = pre.dbschemas.rows[pre.dbschema_by_identifier(identifier)->0];
    let k = pre.branch_by_id(branch_id, d.id)->0;
    pre.with_dbschema_branches(
        pre.dbschema_branches.replaced(
            k,
            Dbschema_BranchView {
                branch_name: req.branch_name,
                data: req.data,
                updated_at: now,
                ..pre.dbschema_branches.rows[k]
            },
        ),
    )
}

/// What the update of a branch does at a given time.
pub open spec fn update_branch_outcome(
    pre: RegistryState,
    identifier: Seq<char>,
    branch_id: i64,
    req: UpdateDbschemaBranchRequestView,
    groups: Seq<String>,
    now: Timestamp,
    post: RegistryState,
    r: Result<UpdateDbschemaBranchResponse, RegistryError>,
) -> bool {
    match update_branch_error(pre, identifier, branch_id, req, groups) {
        Some(kind) => fails_with(r, kind) && post == pre,
        None => {
            &&& r matches Ok(resp)
            &&& resp@ == (UpdateDbschemaBranchResponseView {
                message: "Dbschema branch updated successfully"@,
                id: branch_id,
            })
            &&& post == with_updated_branch(pre, identifier, branch_id, req, now)
        },
    }
}

/// Gives a branch of a schema a new name and new data, at the time `now`.
/// `groups` are the groups of which the caller is a member.
pub fn update_dbschema_branch_at(
    reg: &mut Registry,
    schema_id: &str,
    branch_id: i64,
    request: &UpdateDbschemaBranchRequest,
    groups: &Vec<String>,
    now: Timestamp,
) -> (r: Result<UpdateDbschemaBranchResponse, RegistryError>)
    requires
        old(reg)@.wf(),
    ensures
        final(reg)@.wf(),
        update_branch_outcome(
            old(reg)@,
            schema_id@,
            branch_id,
            request@,
            groups@,
            now,
            final(reg)@,
            r,
        ),
{
    let i = match reg.find_dbschema(schema_id) {
        Some(i) => i,
        None => {
            return Err(RegistryError::new(ErrorKind::NotFound, "Dbschema not found"));
        },
    };
    let d = reg.dbschemas.row(i);
    let parent_id = d.id;
    match &d.group_id {
        Some(g) => {
            if !contains_text(groups, g.as_str()) {
                return Err(
                    RegistryError::new(
                        ErrorKind::Forbidden,
                        "Permission Denied: You are not authorized to update this schema branch.",
                    ),
                );
            }
        },
        None => {
            return Err(
                RegistryError::new(
                    ErrorKind::Forbidden,
                    "Permission Denied: Dbschema group ID is missing.",
                ),
            );
        },
    }
    let k = match reg.find_branch_by_id(branch_id, parent_id) {
        Some(k) => k,
        None => {
            return Err(RegistryError::new(ErrorKind::NotFound, "Dbschema branch not found"));
        },
    };
    match reg.find_branch(parent_id, request.branch_name.as_str()) {
        Some(other) => {
            if other != k {
                return Err(
                    RegistryError::new(ErrorKind::Conflict, "The schema has a branch of this name"),
                );
            }
        },
        None => {},
    }
    let b = reg.dbschema_branches.row(k);
    let row = Dbschema_Branch {
        parent_id: b.parent_id,
        branch_name: request.branch_name.clone(),
        data: request.data.clone(),
        created_at: b.created_at,
        updated_at: now,
        version: b.version.clone(),
        pipeline_status: b.pipeline_status.clone(),
        id: b.id,
    };
    proof {
        let rows = reg@.dbschema_branches.rows;
        let p = branch_at(parent_id, request.branch_name@);
        lemma_first_match(rows, p);
        assert forall|j: int| 0 <= j < rows.len() && j != k implies !p(#[trigger] rows[j]) by {
            if p(rows[j]) {
                if reg@.branch_of(parent_id, request.branch_name@) == Some(k as int) {
                    assert(p(rows[k as int]));
                    if j < k {
                        assert(rows[j].parent_id == rows[k as int].parent_id);
                    } else {
                        assert(rows[k as int].parent_id == rows[j].parent_id);
                    }
                }
            }
        }
    }
    reg.dbschema_branches.replace(k, row);
    Ok(
        UpdateDbschemaBranchResponse {
            message: "Dbschema branch updated successfully".to_owned(),
            id: branch_id,
        },
    )
}

/// Gives a branch of a schema a new name and new data. `groups` are the
/// groups of which the caller is a member: the schema must be backed by
/// one of them. A name that another branch of the schema has is refused as
/// a conflict. The current time is recorded on the branch.
pub fn update_dbschema_branch(
    reg: &mut Registry,
    schema_id: &str,
    branch_id: i64,
    request: &UpdateDbschemaBranchRequest,
    groups: &Vec<String>,
) -> (r: Result<UpdateDbschemaBranchResponse, RegistryError>)
    requires
        old(reg)@.wf(),
    ensures
        final(reg)@.wf(),
        exists|at: Timestamp|
            at.micros >= 0 && update_branch_outcome(
                old(reg)@,
                schema_id@,
                branch_id,
                request@,
                groups@,
                at,
                final(reg)@,
                r,
            ),
{
    let at = now();
    update_dbschema_branch_at(reg, schema_id, branch_id, request, groups, at)
}

/// The condition that a schema is backed by one of the given groups and,
/// where a search term is given, has the term in its name.
pub open spec fn dbschema_listed(groups: Seq<String>, search: Option<Seq<char>>) -> spec_fn(
    DbschemaView,
) -> bool {
    |d: DbschemaView|
        {
            &&& d.group_id matches Some(g) && has_text(groups, g)
            &&& search matches Some(term) ==> has_subtext(d.name, term)
        }
}

/// What is shown of a schema in a list, where the schema names its
/// organization.
pub open spec fn dbschema_line(d: DbschemaView) -> Option<GetDbschemaResponseView> {
    match d.organization_id {
        Some(org) => Some(
            GetDbschemaResponseView {
                id: d.id,
                name: d.name,
                description: d.description,
                updated_at: d.updated_at,
                identifier: d.identifier,
                organization_id: org,
            },
        ),
        None => None,
    }
}

/// One of the given schemas names no organization.
pub open spec fn some_dbschema_unlisted(schemas: Seq<DbschemaView>) -> bool {
    exists|k: int| 0 <= k < schemas.len() && dbschema_line(#[trigger] schemas[k]) is None
}

/// Each of the given answers shows the schema at its position.
pub open spec fn dbschemas_shown(schemas: Seq<DbschemaView>, list: Seq<GetDbschemaResponse>) -> bool {
    &&& list.len() == schemas.len()
    &&& forall|k: int|
        0 <= k < schemas.len() ==> dbschema_line(#[trigger] schemas[k]) == Some(list[k]@)
}

/// What a request for a list of schemas is answered with: one page of the
/// schemas that are backed by a group of the caller and match the search,
/// in the order in which they were created. A schema on the page that
/// names no organization makes the request fail.
pub open spec fn dbschemas_listed(
    pre: RegistryState,
    groups: Seq<String>,
    search: Option<Seq<char>>,
    page_number: Option<i64>,
    page_size: Option<i64>,
    r: Result<Vec<GetDbschemaResponse>, RegistryError>,
) -> bool {
    let page = page_of(
        pre.dbschemas.rows.filter(dbschema_listed(groups, search)),
        page_number,
        page_size,
    );
    match r {
        Ok(list) => dbschemas_shown(page, list@),
        Err(e) => e.kind == ErrorKind::Validation && some_dbschema_unlisted(page),
    }
}

/// The positions of the schemas that a list request selects.
fn listed_positions(reg: &Registry, groups: &Vec<String>, search: Option<&String>) -> (at: Vec<
    usize,
>)
    ensures
        selects(
            reg@.dbschemas.rows,
            dbschema_listed(
                groups@,
                match search {
                    Some(term) => Some(term@),
                    None => None,
                },
            ),
            at@,
        ),
{
    let rows = reg.dbschemas.rows();
    let ghost held = reg@.dbschemas.rows;
    let ghost p = dbschema_listed(
        groups@,
        match search {
            Some(term) => Some(term@),
            None => None,
        },
    );
    let mut at: Vec<usize> = Vec::new();
    let mut i: usize = 0;
    proof {
        lemma_filter_none(held.subrange(0, 0), p);
        assert(picks(held, at@) =~= held.subrange(0, 0).filter(p));
    }
    while i < rows.len()
        invariant
            i <= rows.len(),
            held == reg@.dbschemas.rows,
            rows@.len() == held.len(),
            forall|j: int| 0 <= j < rows@.len() ==> (#[trigger] rows@[j])@ == held[j],
            p == dbschema_listed(
                groups@,
                match search {
                    Some(term) => Some(term@),
                    None => None,
                },
            ),
            forall|k: int| 0 <= k < at@.len() ==> (#[trigger] at@[k]) < i,
            picks(held, at@) == held.subrange(0, i as int).filter(p),
        decreases rows.len() - i,
    {
        proof {
            assert(rows@[i as int]@ == held[i as int]);
            lemma_filter_step(held, p, i as int);
        }
        let member = match &rows[i].group_id {
            Some(g) => contains_text(groups, g.as_str()),
            None => false,
        };
        let found = match search {
            Some(term) => contains_subtext(rows[i].name.as_str(), term.as_str()),
            None => true,
        };
        if member && found {
            let ghost before = at@;
            at.push(i);
            assert(picks(held, at@) =~= picks(held, before).push(held[i as int]));
        }
        i += 1;
    }
    assert(held.subrange(0, i as int) =~= held);
    at
}

/// The schemas that are backed by one of the caller's groups, one page of
/// them.
///
/// `groups` are the groups of which the caller is a member. Where a search
/// term is given, only schemas with the term in their name are listed.
/// Pages are counted from 1 and hold 10 schemas unless the parameters say
/// otherwise; a page number or size below 1 counts as 1.
#[verifier::loop_isolation(false)]
pub fn get_dbschemas(
    reg: &Registry,
    groups: &Vec<String>,
    search: Option<&String>,
    page_number: Option<i64>,
    page_size: Option<i64>,
) -> (r: Result<Vec<GetDbschemaResponse>, RegistryError>)
    ensures
        dbschemas_listed(
            reg@,
            groups@,
            match search {
                Some(term) => Some(term@),
                None => None,
            },
            page_number,
            page_size,
            r,
        ),
{
    let at = listed_positions(reg, groups, search);
    let (start, end) = page_range(at.len(), page_number, page_size);
    let ghost all = picks(reg@.dbschemas.rows, at@);
    let ghost page = all.subrange(start as int, end as int);
    let mut out: Vec<GetDbschemaResponse> = Vec::new();
    let mut k: usize = start;
    while k < end
        invariant
            start <= k <= end <= at@.len(),
            out@.len() == k - start,
            forall|m: int|
                0 <= m < out@.len() ==> dbschema_line(#[trigger] page[m]) == Some(out@[m]@),
        decreases end - k,
    {
        let d = reg.dbschemas.row(at[k]);
        proof {
            assert(all[k as int] == reg@.dbschemas.rows[at@[k as int] as int]);
            assert(page[k - start] == all[k as int]);
        }
        let organization_id = match &d.organization_id {
            Some(org) => org.clone(),
            None => {
                proof {
                    assert(dbschema_line(page[k - start]) is None);
                }
                return Err(
                    RegistryError::new(ErrorKind::Validation, "The schema names no organization"),
                );
            },
        };
        out.push(
            GetDbschemaResponse {
                id: d.id,
                name: d.name.clone(),
                description: d.description.clone(),
                updated_at: d.updated_at,
                identifier: d.identifier.clone(),
                organization_id,
            },
        );
        k += 1;
    }
    Ok(out)
}

/// The condition that a schema belongs to the given organization.
pub open spec fn dbschema_in_org(org: Seq<char>) -> spec_fn(DbschemaView) -> bool {
    |d: DbschemaView| d.organization_id == Some(org)
}

/// The tables that a schema names as seen from a branch: those of the
/// merged data, none where there is no data, and nothing where the data is
/// not JSON.
pub open spec fn merged_tables(d: DbschemaView, b: Dbschema_BranchView) -> Option<Seq<Seq<char>>> {
    match merged_data(d, b) {
        Some(text) => tables_of_text(text),
        None => Some(Seq::empty()),
    }
}

/// What is shown of a schema with its tables as seen from the branch of
/// the given name, or why it cannot be shown: the schema has no such
/// branch, or its data is not JSON.
pub open spec fn dbschema_with_tables(pre: RegistryState, d: DbschemaView, env: Seq<char>) -> Result<
    GetDbschemaAndTablesResponseView,
    ErrorKind,
> {
    match pre.branch_of(d.id, env) {
        None => Err(ErrorKind::NotFound),
        Some(k) => {
            let b = pre.dbschema_branches.rows[k];
            match merged_tables(d, b) {
                None => Err(ErrorKind::Validation),
                Some(tables) => Ok(
                    GetDbschemaAndTablesResponseView {
                        id: d.id,
                        name: d.name,
                        description: d.description,
                        version: b.version,
                        updated_at: d.updated_at,
                        identifier: d.identifier,
                        db_type: Some(d.db_type),
                        organization_id: match d.organization_id {
                            Some(org) => org,
                            None => Seq::empty(),
                        },
                        tables,
                        pipeline_status: b.pipeline_status,
                        repo_origin: d.repo_origin,
                        quick_links: d.quick_links,
                    },
                ),
            }
        },
    }
}

/// The condition that a schema cannot be shown with its tables as seen
/// from the branch of the given name.
pub open spec fn cannot_show(pre: RegistryState, env: Seq<char>) -> spec_fn(DbschemaView) -> bool {
    |d: DbschemaView| dbschema_with_tables(pre, d, env) is Err
}

/// Each of the given answers shows the schema at its position, with its
/// tables.
pub open spec fn tables_shown(
    pre: RegistryState,
    schemas: Seq<DbschemaView>,
    env: Seq<char>,
    list: Seq<GetDbschemaAndTablesResponse>,
) -> bool {
    &&& list.len() == schemas.len()
    &&& forall|k: int|
        0 <= k < schemas.len() ==> dbschema_with_tables(pre, #[trigger] schemas[k], env) == Ok::<
            GetDbschemaAndTablesResponseView,
            ErrorKind,
        >(list[k]@)
}

/// What a request for the schemas of an organization with their tables is
/// answered with: every schema of the organization as seen from the branch
/// of the given name, in the order in which the schemas were created. The
/// first schema that cannot be shown makes the request fail, for the
/// reason for which it cannot be shown.
pub open spec fn tables_listed(
    pre: RegistryState,
    env: Seq<char>,
    org: Seq<char>,
    r: Result<Vec<GetDbschemaAndTablesResponse>, RegistryError>,
) -> bool {
    let all = pre.dbschemas.rows.filter(dbschema_in_org(org));
    match first_match(all, cannot_show(pre, env)) {
        Some(k) => fails_with(r, dbschema_with_tables(pre, all[k], env)->Err_0),
        None => r matches Ok(list) && tables_shown(pre, all, env, list@),
    }
}

/// The tables that a schema names as seen from a branch.
fn tables_seen(d: &Dbschema, b: &Dbschema_Branch) -> (r: Result<Vec<String>, RegistryError>)
    ensures
        match r {
            Ok(names) => merged_tables(d@, b@) == Some(texts(names@)),
            Err(e) => merged_tables(d@, b@) is None && e.kind == ErrorKind::Validation,
        },
{
    let data = match &b.data {
        Some(data) => Some(data),
        None => match &d.data {
            Some(data) => Some(data),
            None => None,
        },
    };
    match data {
        Some(text) => tables_of_data(text.as_str()),
        None => {
            let names: Vec<String> = Vec::new();
            assert(texts(names@) =~= Seq::<Seq<char>>::empty());
            Ok(names)
        },
    }
}

/// The schemas of an organization with the names of their tables, as
/// seen from the branch of the given name.
///
/// The tables of a schema are read from its data as seen from the branch:
/// the data is a JSON array, and an element names a table where it is an
/// object whose member `data` is an object whose member `name` is a
/// string. Elements of any other shape are passed over; data that is no
/// array names no table.
#[verifier::loop_isolation(false)]
pub fn fetch_dbschemas_and_tables(reg: &Registry, env: &str, org_id: &str) -> (r: Result<
    Vec<GetDbschemaAndTablesResponse>,
    RegistryError,
>)
    ensures
        tables_listed(reg@, env@, org_id@, r),
{
    let rows = reg.dbschemas.rows();
    let ghost held = reg@.dbschemas.rows;
    let ghost p = dbschema_in_org(org_id@);
    let ghost bad = cannot_show(reg@, env@);
    let ghost all = held.filter(p);
    let mut out: Vec<GetDbschemaAndTablesResponse> = Vec::new();
    let mut i: usize = 0;
    proof {
        lemma_filter_none(held.subrange(0, 0), p);
    }
    while i < rows.len()
        invariant
            i <= rows.len(),
            tables_shown(reg@, held.subrange(0, i as int).filter(p), env@, out@),
        decreases rows.len() - i,
    {
        let ghost sofar = held.subrange(0, i as int).filter(p);
        proof {
            assert(rows@[i as int]@ == held[i as int]);
            lemma_filter_step(held, p, i as int);
            lemma_filter_prefix(held, p, i as int);
            lemma_filter_prefix(held, p, i as int + 1);
        }
        let d = &rows[i];
        if opt_is(&d.organization_id, org_id) {
            proof {
                let n = sofar.len() as int;
                assert(all[n] == held[i as int]);
                assert forall|j: int| 0 <= j < n implies !bad(#[trigger] all[j]) by {
                    assert(all[j] == sofar[j]);
                }
            }
            let k = match reg.find_branch(d.id, env) {
                Some(k) => k,
                None => {
                    proof {
                        lemma_first_is(all, bad, sofar.len() as int);
                    }
                    return Err(
                        RegistryError::new(ErrorKind::NotFound, "Dbschema branch not found"),
                    );
                },
            };
            let b = reg.dbschema_branches.row(k);
            let tables = match tables_seen(d, b) {
                Ok(names) => names,
                Err(e) => {
                    proof {
                        lemma_first_is(all, bad, sofar.len() as int);
                    }
                    return Err(e);
                },
            };
            out.push(
                GetDbschemaAndTablesResponse {
                    id: d.id,
                    name: d.name.clone(),
                    description: d.description.clone(),
                    version: b.version.clone(),
                    updated_at: d.updated_at,
                    identifier: d.identifier.clone(),
                    db_type: Some(d.db_type.clone()),
                    organization_id: match &d.organization_id {
                        Some(org) => org.clone(),
                        None => String::new(),
                    },
                    tables,
                    pipeline_status: b.pipeline_status.clone(),
                    repo_origin: d.repo_origin.clone(),
                    quick_links: d.quick_links.clone(),
                },
            );
        }
        i += 1;
    }
    proof {
        assert(held.subrange(0, i as int) =~= held);
        lemma_first_none(all, bad);
    }
    Ok(out)
}

/// See `fetch_dbschemas_and_tables`.
pub fn get_dbschemas_and_tables(reg: &Registry, env: &str, org_id: &str) -> (r: Result<
    Vec<GetDbschemaAndTablesResponse>,
    RegistryError,
>)
    ensures
        tables_listed(reg@, env@, org_id@, r),
{
    fetch_dbschemas_and_tables(reg, env, org_id)
}

/// See `fetch_dbschemas_and_tables`.
pub fn get_dbschemas_and_tables_user_land(reg: &Registry, env: &str, org_id: &str) -> (r: Result<
    Vec<GetDbschemaAndTablesResponse>,
    RegistryError,
>)
    ensures
        tables_listed(reg@, env@, org_id@, r),
{
    fetch_dbschemas_and_tables(reg, env, org_id)
}

/// See `fetch_dbschemas_and_tables`.
pub fn get_dbschemas_and_tables_public(reg: &Registry, env: &str, org_id: &str) -> (r: Result<
    Vec<GetDbschemaAndTablesResponse>,
    RegistryError,
>)
    ensures
        tables_listed(reg@, env@, org_id@, r),
{
    fetch_dbschemas_and_tables(reg, env, org_id)
}

} // verus!
