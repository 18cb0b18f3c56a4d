//! The template catalog, and the snapshots of organizations.

use vstd::prelude::*;
use crate::clock::{now, Timestamp};
use crate::error::{fails_with, ErrorKind, RegistryError};
use crate::models::request::{CreateSnapshotRequest, CreateSnapshotRequestView};
use crate::models::response::{
    MessageResponse, MessageResponseView, SnapshotsResponse, SnapshotsResponseView,
};
use crate::models::schema::{Organization, OrganizationView, Snapshots, SnapshotsView, Templates};
use crate::query::{lemma_filter_none, lemma_filter_step, views};
use crate::registry::{Registry, RegistryState};
use crate::text::same_text;

verus! {

/// All templates of the catalog, in the order in which they were added.
pub fn get_all_templates(reg: &Registry) -> (list: Vec<Templates>)
    ensures
        views(list@) == reg@.templates.rows,
{
    let rows = reg.templates.rows();
    let ghost held = reg@.templates.rows;
    let mut out: Vec<Templates> = Vec::new();
    let mut i: usize = 0;
    while i < rows.len()
        invariant
            i <= rows.len(),
            held == reg@.templates.rows,
            rows@.len() == held.len(),
            forall|j: int| 0 <= j < rows@.len() ==> (#[trigger] rows@[j])@ == held[j],
            out@.len() == i,
            forall|j: int| 0 <= j < i ==> (#[trigger] out@[j])@ == held[j],
        decreases rows.len() - i,
    {
        let t = &rows[i];
        out.push(
            Templates {
                short_name: t.short_name.clone(),
                description: t.description.clone(),
                repo_link: t.repo_link.clone(),
                identifier: t.identifier.clone(),
                id: t.id,
            },
        );
        i += 1;
    }
    assert(views(out@) =~= held);
    out
}

/// The snapshot that a request records.
pub open spec fn snapshot_created(req: CreateSnapshotRequestView, id: i64, now: Timestamp) -> SnapshotsView {
    SnapshotsView {
        version: req.version,
        created_at: now,
        updated_at: now,
        organization_id: req.org_id,
        id,
    }
}

/// An organization after a snapshot of it has been taken: it stands at
/// the version of the snapshot, with the origin and the links of the
/// request.
pub open spec fn organization_snapped(
    o: OrganizationView,
    req: CreateSnapshotRequestView,
) -> OrganizationView {
    OrganizationView {
        infra_repo_origin: Some(req.infra_repo_origin),
        quick_links: Some(req.quick_links),
        version: Some(req.version),
        ..o
    }
}

/// What taking a snapshot does at a given time.
///
/// The snapshot is recorded first, whether or not an organization has the
/// slug that the request names. Then the organization is brought to the
/// version of the snapshot; where there is none, the request is refused
/// and the snapshot stays.
pub open spec fn snapshot_outcome(
    pre: RegistryState,
    req: CreateSnapshotRequestView,
    now: Timestamp,
    post: RegistryState,
    r: Result<MessageResponse, RegistryError>,
) -> bool {
    if !pre.snapshots.has_room() {
        fails_with(r, ErrorKind::StoreUnavailable) && post == pre
    } else {
        let recorded = pre.with_snapshots(
            pre.snapshots.appended(snapshot_created(req, pre.snapshots.next_id, now)),
        );
        match pre.organization_by_slug(req.org_id) {
            None => fails_with(r, ErrorKind::NotFound) && post == recorded,
            Some(i) => {
                &&& r matches Ok(resp)
                &&& resp@ == (MessageResponseView {
                    message: "Snapshot record created and organization updated"@,
                })
                &&& post == recorded.with_organizations(
                    pre.organizations.replaced(
                        i,
                        organization_snapped(pre.organizations.rows[i], req),
                    ),
                )
            },
        }
    }
}

/// Records a snapshot of an organization at the time `now`.
pub fn create_snapshot_at(reg: &mut Registry, request: &CreateSnapshotRequest, now: Timestamp) -> (r:
    Result<MessageResponse, RegistryError>)
    requires
        old(reg)@.wf(),
    ensures
        final(reg)@.wf(),
        snapshot_outcome(old(reg)@, request@, now, final(reg)@, r),
{
    if !reg.snapshots.has_room() {
        return Err(RegistryError::new(ErrorKind::StoreUnavailable, "Failed to create snapshot"));
    }
    let id = reg.snapshots.next_id();
    reg.snapshots.append(
        Snapshots {
            version: request.version.clone(),
            created_at: now,
            updated_at: now,
            organization_id: request.org_id.clone(),
            id,
        },
    );
    let i = match reg.find_organization(request.org_id.as_str()) {
        Some(i) => i,
        None => {
            return Err(RegistryError::new(ErrorKind::NotFound, "Organization not found"));
        },
    };
    let o = reg.organizations.row(i);
    let row = Organization {
        slug: o.slug.clone(),
        group_id: o.group_id.clone(),
        is_active: o.is_active,
        blocks_positions: o.blocks_positions.clone(),
        name: o.name.clone(),
        is_public: o.is_public,
        infra_repo_origin: Some(request.infra_repo_origin.clone()),
        quick_links: Some(request.quick_links.clone()),
        version: Some(request.version.clone()),
        id: o.id,
    };
    reg.organizations.replace(i, row);
    Ok(
        MessageResponse {
            message: "Snapshot record created and organization updated".to_owned(),
        },
    )
}

/// Records a snapshot of an organization at its current version, and
/// brings the organization to that version. The current time is recorded
/// on the snapshot.
pub fn create_snapshot(reg: &mut Registry, request: &CreateSnapshotRequest) -> (r: Result<
    MessageResponse,
    RegistryError,
>)
    requires
        old(reg)@.wf(),
    ensures
        final(reg)@.wf(),
        exists|at: Timestamp|
            at.micros >= 0 && snapshot_outcome(old(reg)@, request@, at, final(reg)@, r),
{
    let at = now();
    create_snapshot_at(reg, request, at)
}

/// The condition that a snapshot is of the given organization.
pub open spec fn snapshot_of(org: Seq<char>) -> spec_fn(SnapshotsView) -> bool {
    |s: SnapshotsView| s.organization_id == org
}

/// Each of the given answers shows the version and the time of the
/// snapshot at its position.
pub open spec fn snapshots_shown(snapshots: Seq<SnapshotsView>, list: Seq<SnapshotsResponse>) -> bool {
    &&& list.len() == snapshots.len()
    &&& forall|k: int|
        0 <= k < snapshots.len() ==> (#[trigger] list[k])@ == (SnapshotsResponseView {
            version: snapshots[k].version,
            created_at: snapshots[k].created_at,
        })
}

/// The snapshots of an organization, in the order in which they were
/// taken.
#[verifier::loop_isolation(false)]
pub fn get_snapshots(reg: &Registry, org_id: &str) -> (list: Vec<SnapshotsResponse>)
    ensures
        snapshots_shown(reg@.snapshots.rows.filter(snapshot_of(org_id@)), list@),
{
    let rows = reg.snapshots.rows();
    let ghost held = reg@.snapshots.rows;
    let ghost p = snapshot_of(org_id@);
    let mut out: Vec<SnapshotsResponse> = Vec::new();
    let mut i: usize = 0;
    proof {
        lemma_filter_none(held.subrange(0, 0), p);
    }
    while i < rows.len()
        invariant
            i <= rows.len(),
            snapshots_shown(held.subrange(0, i as int).filter(p), out@),
        decreases rows.len() - i,
    {
        proof {
            assert(rows@[i as int]@ == held[i as int]);
            lemma_filter_step(held, p, i as int);
        }
        let s = &rows[i];
        if same_text(s.organization_id.as_str(), org_id) {
            out.push(SnapshotsResponse { version: s.version.clone(), created_at: s.created_at });
        }
        i += 1;
    }
    assert(held.subrange(0, i as int) =~= held);
    out
}

} // verus!
