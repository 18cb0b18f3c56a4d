//! Organizations, which are also called workspaces.

use vstd::prelude::*;
use crate::claims::APIClaims;
use crate::config::Config;
use crate::error::{fails_with, ErrorKind, RegistryError};
use crate::ident::{is_uuid_text, new_identifier};
use crate::models::request::{CreateOrganizationRequest, CreateOrganizationRequestView};
use crate::models::response::{
    APISessionDetailsResponse, APISessionDetailsResponseView, CreateOrganizationResponse,
    CreateOrganizationResponseView, MessageResponse, MessageResponseView,
    WorkspaceDetailResponse, WorkspaceDetailResponseView, WorkspaceSummaryResponse,
    WorkspaceSummaryResponseView,
};
use crate::models::schema::{Organization, OrganizationView};
use crate::query::{lemma_filter_none, lemma_filter_step};
use crate::registry::{Registry, RegistryState};
use crate::slug::{slug_text, to_slug};
use crate::text::{contains_text, copy_texts, has_text};

verus! {

/// What the identity service answered when it was asked for a group.
#[derive(Clone, Debug, PartialEq, Eq)]
pub enum GroupAnswer {
    /// It was not asked: the registry works without it.
    NotAsked,
    /// It created the group with this identifier.
    Created(String),
    /// It failed.
    Failed,
}

/// The name under which a group is to be asked for before an organization
/// is created: none where the registry works without the identity service,
/// and none where the organization cannot be created anyway because its
/// slug is taken.
pub open spec fn group_request_planned(
    pre: RegistryState,
    req: CreateOrganizationRequestView,
    config: Config,
    r: Result<Option<String>, RegistryError>,
) -> bool {
    if pre.organization_by_slug(slug_text(req.name)) is Some {
        fails_with(r, ErrorKind::Conflict)
    } else if config.identity_integration {
        r matches Ok(Some(name)) && is_uuid_text(name@)
    } else {
        r == Ok::<Option<String>, RegistryError>(None)
    }
}

/// The first step of creating an organization: whether it can be created,
/// and under which name a group is to be asked for. The name is a fresh
/// random identifier.
pub fn organization_group_request(
    reg: &Registry,
    request: &CreateOrganizationRequest,
    config: &Config,
) -> (r: Result<Option<String>, RegistryError>)
    ensures
        group_request_planned(reg@, request@, *config, r),
{
    let slug = to_slug(request.name.as_str());
    if reg.find_organization(slug.as_str()).is_some() {
        return Err(RegistryError::new(ErrorKind::Conflict, "Workspace ID is already taken"));
    }
    if config.identity_integration {
        Ok(Some(new_identifier()))
    } else {
        Ok(None)
    }
}

/// The group that backs a new schema, service or package, given what the
/// identity service answered: the group that it created, none where it was
/// not asked, and a refusal where it failed.
pub fn backing_group(answer: GroupAnswer) -> (r: Result<Option<String>, RegistryError>)
    ensures
        match answer {
            GroupAnswer::NotAsked => r == Ok::<Option<String>, RegistryError>(None),
            GroupAnswer::Created(id) => r == Ok::<Option<String>, RegistryError>(Some(id)),
            GroupAnswer::Failed => fails_with(r, ErrorKind::Upstream),
        },
{
    match answer {
        GroupAnswer::NotAsked => Ok(None),
        GroupAnswer::Created(id) => Ok(Some(id)),
        GroupAnswer::Failed => Err(
            RegistryError::new(ErrorKind::Upstream, "Failed to create group in IAM service"),
        ),
    }
}

/// The group that backs a new organization: the one that the identity
/// service created, or none, written as an empty identifier.
pub open spec fn group_of(answer: GroupAnswer) -> Seq<char> {
    match answer {
        GroupAnswer::Created(id) => id@,
        _ => Seq::empty(),
    }
}

/// The row of a new organization: active, not public, without a layout.
pub open spec fn organization_created(
    req: CreateOrganizationRequestView,
    group_id: Seq<char>,
    id: i64,
) -> OrganizationView {
    OrganizationView {
        slug: slug_text(req.name),
        group_id,
        is_active: true,
        blocks_positions: None,
        name: Some(req.name),
        is_public: false,
        infra_repo_origin: None,
        quick_links: None,
        version: None,
        id,
    }
}

/// Why an organization cannot be created, if it cannot: its slug is
/// taken, the identity service failed, or the table is full.
pub open spec fn create_organization_error(
    pre: RegistryState,
    req: CreateOrganizationRequestView,
    answer: GroupAnswer,
) -> Option<ErrorKind> {
    if pre.organization_by_slug(slug_text(req.name)) is Some {
        Some(ErrorKind::Conflict)
    } else if answer is Failed {
        Some(ErrorKind::Upstream)
    } else if !pre.organizations.has_room() {
        Some(ErrorKind::StoreUnavailable)
    } else {
        None
    }
}

/// What the creation of an organization does.
pub open spec fn create_organization_outcome(
    pre: RegistryState,
    req: CreateOrganizationRequestView,
    answer: GroupAnswer,
    post: RegistryState,
    r: Result<CreateOrganizationResponse, RegistryError>,
) -> bool {
    match create_organization_error(pre, req, answer) {
        Some(kind) => fails_with(r, kind) && post == pre,
        None => {
            &&& r matches Ok(resp)
            &&& resp@ == (CreateOrganizationResponseView {
                message: "Organization created successfully"@,
                id: pre.organizations.next_id,
            })
            &&& post == pre.with_organizations(
                pre.organizations.appended(
                    organization_created(req, group_of(answer), pre.organizations.next_id),
                ),
            )
        },
    }
}

/// Creates an organization under the slug of its name.
///
/// `answer` is what the identity service said when it was asked for a
/// group to back the organization. An organization whose slug is taken is
/// refused as a conflict, whatever the answer.
pub fn create_organization(
    reg: &mut Registry,
    request: &CreateOrganizationRequest,
    answer: GroupAnswer,
) -> (r: Result<CreateOrganizationResponse, RegistryError>)
    requires
        old(reg)@.wf(),
    ensures
        final(reg)@.wf(),
        create_organization_outcome(old(reg)@, request@, answer, final(reg)@, r),
{
    let slug = to_slug(request.name.as_str());
    if reg.find_organization(slug.as_str()).is_some() {
        return Err(RegistryError::new(ErrorKind::Conflict, "Workspace ID is already taken"));
    }
    let group_id = match answer {
        GroupAnswer::Created(id) => id,
        GroupAnswer::NotAsked => String::new(),
        GroupAnswer::Failed => {
            return Err(
                RegistryError::new(ErrorKind::Upstream, "Failed to create group in IAM service"),
            );
        },
    };
    if !reg.organizations.has_room() {
        return Err(
            RegistryError::new(ErrorKind::StoreUnavailable, "Error inserting new organization"),
        );
    }
    let id = reg.organizations.next_id();
    let row = Organization {
        slug,
        group_id,
        is_active: true,
        blocks_positions: None,
        name: Some(request.name.clone()),
        is_public: false,
        infra_repo_origin: None,
        quick_links: None,
        version: None,
        id,
    };
    reg.organizations.append(row);
    Ok(CreateOrganizationResponse { message: "Organization created successfully".to_owned(), id })
}

/// A copy of an organization row.
fn copy_organization(o: &Organization) -> (r: Organization)
    ensures
        r@ == o@,
{
    Organization {
        slug: o.slug.clone(),
        group_id: o.group_id.clone(),
        is_active: o.is_active,
        blocks_positions: o.blocks_positions.clone(),
        name: o.name.clone(),
        is_public: o.is_public,
        infra_repo_origin: o.infra_repo_origin.clone(),
        quick_links: o.quick_links.clone(),
        version: o.version.clone(),
        id: o.id,
    }
}

/// What setting the layout of an organization does.
pub open spec fn block_positions_outcome(
    pre: RegistryState,
    org: Seq<char>,
    block_positions: Seq<char>,
    post: RegistryState,
    r: Result<String, RegistryError>,
) -> bool {
    match pre.organization_by_slug(org) {
        None => fails_with(r, ErrorKind::NotFound) && post == pre,
        Some(i) => {
            &&& r matches Ok(message)
            &&& message@ == "Block positions updated successfully"@
            &&& post == pre.with_organizations(
                pre.organizations.replaced(
                    i,
                    OrganizationView {
                        blocks_positions: Some(block_positions),
                        ..pre.organizations.rows[i]
                    },
                ),
            )
        },
    }
}

/// Sets the layout of the blocks of an organization, a JSON text that is
/// kept as it is given.
pub fn update_block_positions(reg: &mut Registry, org_id: &str, block_positions: String) -> (r:
    Result<String, RegistryError>)
    requires
        old(reg)@.wf(),
    ensures
        final(reg)@.wf(),
        block_positions_outcome(old(reg)@, org_id@, block_positions@, final(reg)@, r),
{
    let i = match reg.find_organization(org_id) {
        Some(i) => i,
        None => {
            return Err(RegistryError::new(ErrorKind::NotFound, "Organization not found"));
        },
    };
    let mut row = copy_organization(reg.organizations.row(i));
    row.blocks_positions = Some(block_positions);
    reg.organizations.replace(i, row);
    Ok("Block positions updated successfully".to_owned())
}

/// The condition that an organization is backed by one of the given
/// groups.
pub open spec fn organization_of_member(groups: Seq<String>) -> spec_fn(OrganizationView) -> bool {
    |o: OrganizationView| has_text(groups, o.group_id)
}

/// What is shown of an organization in a list.
pub open spec fn workspace_summary(o: OrganizationView, is_admin: bool) -> WorkspaceSummaryResponseView {
    WorkspaceSummaryResponseView {
        slug: o.slug,
        name: o.name,
        is_active: o.is_active,
        is_admin,
        group_id: o.group_id,
        infra_repo_origin: o.infra_repo_origin,
        quick_links: o.quick_links,
        version: o.version,
    }
}

/// Each of the given answers shows the organization at its position; the
/// caller is an administrator of those that one of the owned groups backs.
pub open spec fn workspaces_shown(
    organizations: Seq<OrganizationView>,
    owned: Seq<String>,
    list: Seq<WorkspaceSummaryResponse>,
) -> bool {
    &&& list.len() == organizations.len()
    &&& forall|k: int|
        0 <= k < organizations.len() ==> (#[trigger] list[k])@ == workspace_summary(
            organizations[k],
            has_text(owned, organizations[k].group_id),
        )
}

/// What is shown of an organization in a list.
fn summary_of(o: &Organization, is_admin: bool) -> (r: WorkspaceSummaryResponse)
    ensures
        r@ == workspace_summary(o@, is_admin),
{
    WorkspaceSummaryResponse {
        slug: o.slug.clone(),
        name: o.name.clone(),
        is_active: o.is_active,
        is_admin,
        group_id: o.group_id.clone(),
        infra_repo_origin: o.infra_repo_origin.clone(),
        quick_links: o.quick_links.clone(),
        version: o.version.clone(),
    }
}

/// The organizations that are backed by a group of which the caller is a
/// member, in the order in which they were created. `groups_owned` are the
/// groups that the caller owns, `groups` those of which it is a member.
#[verifier::loop_isolation(false)]
pub fn get_workspaces(reg: &Registry, groups_owned: &Vec<String>, groups: &Vec<String>) -> (list:
    Vec<WorkspaceSummaryResponse>)
    ensures
        workspaces_shown(
            reg@.organizations.rows.filter(organization_of_member(groups@)),
            groups_owned@,
            list@,
        ),
{
    let rows = reg.organizations.rows();
    let ghost held = reg@.organizations.rows;
    let ghost p = organization_of_member(groups@);
    let mut out: Vec<WorkspaceSummaryResponse> = Vec::new();
    let mut i: usize = 0;
    proof {
        lemma_filter_none(held.subrange(0, 0), p);
    }
    while i < rows.len()
        invariant
            i <= rows.len(),
            workspaces_shown(held.subrange(0, i as int).filter(p), groups_owned@, out@),
        decreases rows.len() - i,
    {
        proof {
            assert(rows@[i as int]@ == held[i as int]);
            lemma_filter_step(held, p, i as int);
        }
        let o = &rows[i];
        if contains_text(groups, o.group_id.as_str()) {
            let is_admin = contains_text(groups_owned, o.group_id.as_str());
            out.push(summary_of(o, is_admin));
        }
        i += 1;
    }
    assert(held.subrange(0, i as int) =~= held);
    out
}

/// Whether the caller is an administrator of an organization: it is
/// where it owns the group that backs the organization, and it is not
/// where nothing is known of what it owns.
pub open spec fn is_admin_of(owned: Option<Seq<String>>, o: OrganizationView) -> bool {
    match owned {
        Some(groups) => has_text(groups, o.group_id),
        None => false,
    }
}

/// What a request for an organization is answered with.
pub open spec fn workspace_shown(
    pre: RegistryState,
    org: Seq<char>,
    owned: Option<Seq<String>>,
    r: Result<WorkspaceDetailResponse, RegistryError>,
) -> bool {
    match pre.organization_by_slug(org) {
        None => fails_with(r, ErrorKind::NotFound),
        Some(i) => {
            let o = pre.organizations.rows[i];
            &&& r matches Ok(resp)
            &&& resp@ == (WorkspaceDetailResponseView {
                name: o.name,
                block_positions: o.blocks_positions,
                is_active: o.is_active,
                is_admin: is_admin_of(owned, o),
            })
        },
    }
}

/// The organization with the given slug, with the layout of its blocks.
/// `is_admin` holds the groups that the caller owns, where they are known.
pub fn fetch_workspace(reg: &Registry, org_id: &str, is_admin: Option<&Vec<String>>) -> (r: Result<
    WorkspaceDetailResponse,
    RegistryError,
>)
    ensures
        workspace_shown(
            reg@,
            org_id@,
            match is_admin {
                Some(groups) => Some(groups@),
                None => None,
            },
            r,
        ),
{
    let i = match reg.find_organization(org_id) {
        Some(i) => i,
        None => {
            return Err(RegistryError::new(ErrorKind::NotFound, "Workspace not found"));
        },
    };
    let o = reg.organizations.row(i);
    let admin = match is_admin {
        Some(groups) => contains_text(groups, o.group_id.as_str()),
        None => false,
    };
    Ok(
        WorkspaceDetailResponse {
            name: o.name.clone(),
            block_positions: o.blocks_positions.clone(),
            is_active: o.is_active,
            is_admin: admin,
        },
    )
}

/// The organization with the given slug, for a caller who owns the given
/// groups.
pub fn get_workspace(reg: &Registry, org_id: &str, groups_owned: &Vec<String>) -> (r: Result<
    WorkspaceDetailResponse,
    RegistryError,
>)
    ensures
        workspace_shown(reg@, org_id@, Some(groups_owned@), r),
{
    fetch_workspace(reg, org_id, Some(groups_owned))
}

/// The organization with the given slug, for a caller of whom nothing is
/// known.
pub fn get_workspace_public(reg: &Registry, org_id: &str) -> (r: Result<
    WorkspaceDetailResponse,
    RegistryError,
>)
    ensures
        workspace_shown(reg@, org_id@, None, r),
{
    fetch_workspace(reg, org_id, None)
}

/// The organization with the given slug, for one of its administrators:
/// it is found only where the caller owns the group that backs it.
pub fn get_workspace_details(reg: &Registry, groups_owned: &Vec<String>, org_id: &str) -> (r:
    Result<WorkspaceSummaryResponse, RegistryError>)
    ensures
        match reg@.organization_owned_by(org_id@, groups_owned@) {
            None => fails_with(r, ErrorKind::NotFound),
            Some(i) => r matches Ok(resp) && resp@ == workspace_summary(
                reg@.organizations.rows[i],
                true,
            ),
        },
{
    match reg.find_organization_owned(org_id, groups_owned) {
        Some(i) => Ok(summary_of(reg.organizations.row(i), true)),
        None => Err(RegistryError::new(ErrorKind::NotFound, "Workspace not found")),
    }
}

/// What the deletion of an organization does: where no organization has
/// the slug, or the caller does not own the group that backs it, nothing
/// but a refusal; otherwise the row of the organization is removed, and
/// nothing else.
pub open spec fn delete_workspace_outcome(
    pre: RegistryState,
    org: Seq<char>,
    owned: Seq<String>,
    post: RegistryState,
    r: Result<MessageResponse, RegistryError>,
) -> bool {
    match pre.organization_by_slug(org) {
        None => fails_with(r, ErrorKind::NotFound) && post == pre,
        Some(i) => if !has_text(owned, pre.organizations.rows[i].group_id) {
            fails_with(r, ErrorKind::Forbidden) && post == pre
        } else {
            &&& r matches Ok(resp)
            &&& resp@ == (MessageResponseView { message: "Workspace successfully deleted"@ })
            &&& post == pre.with_organizations(pre.organizations.removed(i))
        },
    }
}

/// Deletes the organization with the given slug, for a caller who owns
/// the group that backs it. The schemas, services and packages of the
/// organization are left as they are.
pub fn delete_workspace(reg: &mut Registry, org_id: &str, groups_owned: &Vec<String>) -> (r: Result<
    MessageResponse,
    RegistryError,
>)
    requires
        old(reg)@.wf(),
    ensures
        final(reg)@.wf(),
        delete_workspace_outcome(old(reg)@, org_id@, groups_owned@, final(reg)@, r),
{
    let i = match reg.find_organization(org_id) {
        Some(i) => i,
        None => {
            return Err(RegistryError::new(ErrorKind::NotFound, "Workspace not found"));
        },
    };
    if !contains_text(groups_owned, reg.organizations.row(i).group_id.as_str()) {
        return Err(RegistryError::new(ErrorKind::Forbidden, "The workspace is not yours"));
    }
    let ghost before = reg@.organizations.rows;
    reg.organizations.remove(i);
    proof {
        let after = reg@.organizations.rows;
        assert forall|a: int, b: int| 0 <= a < b < after.len() implies (#[trigger] after[a]).slug
            != (#[trigger] after[b]).slug by {
            let a0 = if a < i { a } else { a + 1 };
            let b0 = if b < i { b } else { b + 1 };
            assert(after[a] == before[a0]);
            assert(after[b] == before[b0]);
        }
    }
    Ok(MessageResponse { message: "Workspace successfully deleted".to_owned() })
}

/// The session of the bearer of a token: its claims, with the slug of
/// the organization that is backed by the group named as the subject of the
/// token.
pub fn get_current_workspace(reg: &Registry, claims: &APIClaims) -> (r: Result<
    APISessionDetailsResponse,
    RegistryError,
>)
    ensures
        match reg@.organization_by_group(claims@.sub) {
            None => fails_with(r, ErrorKind::NotFound),
            Some(i) => r matches Ok(resp) && resp@ == (APISessionDetailsResponseView {
                sub: claims@.sub,
                exp: claims@.exp,
                scopes: claims@.scopes,
                group_id: claims@.group_id,
                org_id: reg@.organizations.rows[i].slug,
            }),
        },
{
    match reg.find_organization_of_group(claims.sub.as_str()) {
        Some(i) => Ok(
            APISessionDetailsResponse {
                sub: claims.sub.clone(),
                exp: claims.exp,
                scopes: copy_texts(&claims.scopes),
                group_id: claims.group_id,
                org_id: reg.organizations.row(i).slug.clone(),
            },
        ),
        None => Err(RegistryError::new(ErrorKind::NotFound, "Workspace not found")),
    }
}

} // verus!
