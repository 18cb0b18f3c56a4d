//! Packages, their environments and their versions.

use vstd::prelude::*;
use crate::clock::{now, Timestamp};
use crate::config::Config;
use crate::error::{fails_with, ErrorKind, RegistryError};
use crate::ident::{is_uuid_text, new_identifier};
use crate::json::{encode_list, json_list_of_text, json_text_of_list, names_of_json};
use crate::models::request::{CreateOrUpdatePackageRequest, CreateOrUpdatePackageRequestView};
use crate::models::response::{
    CreateOrUpdatePackageResponse, CreateOrUpdatePackageResponseView, PackageResponse,
    PackageResponseView, VersionResponse,
};
use crate::models::schema::{Package, PackageView, Package_Env, Package_EnvView};
use crate::query::{lemma_filter_none, lemma_filter_prefix, lemma_filter_step};
use crate::registry::{
    lemma_package_added, lemma_package_replaced, Registry, RegistryState,
};
use crate::text::{
    lemma_text_le_antisymmetric, lemma_text_le_reflexive, lemma_text_le_total,
    lemma_text_le_transitive, opt_is, opt_text, or_empty, same_text, text_before_or_equal, text_le,
    text_or_empty, texts,
};

verus! {

/// A package row after a request has been applied to it: the identifier,
/// the group, the organization and the time of creation stay.
pub open spec fn package_updated(
    row: PackageView,
    req: CreateOrUpdatePackageRequestView,
    now: Timestamp,
) -> PackageView {
    PackageView {
        package_type: req.package_type,
        lang: req.lang,
        updated_at: now,
        dependencies_json: Some(json_text_of_list(req.dependencies)),
        description: Some(req.description),
        repo_origin: req.repo_origin,
        quick_links: req.quick_links,
        ..row
    }
}

/// The row of a package that a request creates.
pub open spec fn package_created(
    req: CreateOrUpdatePackageRequestView,
    group_id: Option<Seq<char>>,
    id: i64,
    now: Timestamp,
) -> PackageView {
    PackageView {
        identifier: req.identifier,
        package_type: req.package_type,
        lang: req.lang,
        group_id,
        updated_at: now,
        created_at: Some(now),
        organization_id: Some(req.organization_id),
        description: Some(req.description),
        dependencies_json: Some(json_text_of_list(req.dependencies)),
        repo_origin: req.repo_origin,
        quick_links: req.quick_links,
        id,
    }
}

/// The id of the package that a request is about: that of the package
/// with the request's identifier, or the id that a new package will get.
pub open spec fn package_id_for(pre: RegistryState, req: CreateOrUpdatePackageRequestView) -> i64 {
    match pre.package_by_identifier(req.identifier) {
        Some(i) => pre.packages.rows[i].id,
        None => pre.packages.next_id,
    }
}

/// Whether a request to create or update a package finds no room for a
/// row that it has to create.
pub open spec fn package_request_refused(
    pre: RegistryState,
    req: CreateOrUpdatePackageRequestView,
) -> bool {
    ||| pre.package_by_identifier(req.identifier) is None && !pre.packages.has_room()
    ||| pre.package_env_of(package_id_for(pre, req), req.env) is None
        && !pre.package_envs.has_room()
}

/// The registry after a request to create or update a package has been
/// carried out: the package is updated where it exists and created where
/// it does not; its row for the environment of the request gets the
/// version of the request, and is created without a pipeline status where
/// it does not exist.
pub open spec fn package_request_applied(
    pre: RegistryState,
    req: CreateOrUpdatePackageRequestView,
    group_id: Option<Seq<char>>,
    now: Timestamp,
) -> RegistryState {
    let package_id = package_id_for(pre, req);
    let packages = match pre.package_by_identifier(req.identifier) {
        Some(i) => pre.packages.replaced(i, package_updated(pre.packages.rows[i], req, now)),
        None => pre.packages.appended(package_created(req, group_id, package_id, now)),
    };
    let package_envs = match pre.package_env_of(package_id, req.env) {
        Some(k) => pre.package_envs.replaced(
            k,
            Package_EnvView { version: req.version, ..pre.package_envs.rows[k] },
        ),
        None => pre.package_envs.appended(
            Package_EnvView {
                version: req.version,
                env: req.env,
                parent_id: package_id,
                pipeline_status: None,
                id: pre.package_envs.next_id,
            },
        ),
    };
    pre.with_packages(packages).with_package_envs(package_envs)
}

/// What a request to create or update a package does at a given time.
pub open spec fn package_request_outcome(
    pre: RegistryState,
    req: CreateOrUpdatePackageRequestView,
    group_id: Option<Seq<char>>,
    now: Timestamp,
    post: RegistryState,
    r: Result<CreateOrUpdatePackageResponse, RegistryError>,
) -> bool {
    if package_request_refused(pre, req) {
        fails_with(r, ErrorKind::StoreUnavailable) && post == pre
    } else {
        &&& r matches Ok(resp)
        &&& resp@ == (CreateOrUpdatePackageResponseView {
            message: "Package created or updated successfully"@,
            package_id: package_id_for(pre, req),
        })
        &&& post == package_request_applied(pre, req, group_id, now)
    }
}

/// Creates or updates a package and its row for one environment, at the
/// time `now`. `group_id` is the group that backs the package if it is
/// created here.
pub fn create_or_update_package_at(
    reg: &mut Registry,
    request: &CreateOrUpdatePackageRequest,
    group_id: Option<String>,
    now: Timestamp,
) -> (r: Result<CreateOrUpdatePackageResponse, RegistryError>)
    requires
        old(reg)@.wf(),
    ensures
        final(reg)@.wf(),
        package_request_outcome(old(reg)@, request@, opt_text(group_id), now, final(reg)@, r),
        r is Ok ==> json_list_of_text(json_text_of_list(request@.dependencies)) == Some(
            request@.dependencies,
        ),
{
    let found = reg.find_package(request.identifier.as_str());
    let package_id = match found {
        Some(i) => reg.packages.row(i).id,
        None => reg.packages.next_id(),
    };
    let env_at = reg.find_package_env(package_id, request.env.as_str());
    if found.is_none() && !reg.packages.has_room() {
        return Err(RegistryError::new(ErrorKind::StoreUnavailable, "Error creating package"));
    }
    if env_at.is_none() && !reg.package_envs.has_room() {
        return Err(
            RegistryError::new(ErrorKind::StoreUnavailable, "Error creating package environment"),
        );
    }
    let dependencies_json = encode_list(&request.dependencies);
    match found {
        Some(i) => {
            let held = reg.packages.row(i);
            let row = Package {
                identifier: held.identifier.clone(),
                package_type: request.package_type.clone(),
                lang: request.lang.clone(),
                group_id: held.group_id.clone(),
                updated_at: now,
                created_at: held.created_at,
                organization_id: held.organization_id.clone(),
                description: Some(request.description.clone()),
                dependencies_json: Some(dependencies_json),
                repo_origin: request.repo_origin.clone(),
                quick_links: request.quick_links.clone(),
                id: held.id,
            };
            proof {
                lemma_package_replaced(reg@, i as int, row@);
            }
            reg.packages.replace(i, row);
        },
        None => {
            let row = Package {
                identifier: request.identifier.clone(),
                package_type: request.package_type.clone(),
                lang: request.lang.clone(),
                group_id,
                updated_at: now,
                created_at: Some(now),
                organization_id: Some(request.organization_id.clone()),
                description: Some(request.description.clone()),
                dependencies_json: Some(dependencies_json),
                repo_origin: request.repo_origin.clone(),
                quick_links: request.quick_links.clone(),
                id: package_id,
            };
            proof {
                lemma_package_added(reg@, row@);
            }
            reg.packages.append(row);
        },
    }
    match env_at {
        Some(k) => {
            let held = reg.package_envs.row(k);
            let row = Package_Env {
                version: request.version.clone(),
                env: held.env.clone(),
                parent_id: held.parent_id,
                pipeline_status: held.pipeline_status.clone(),
                id: held.id,
            };
            reg.package_envs.replace(k, row);
        },
        None => {
            let id = reg.package_envs.next_id();
            let row = Package_Env {
                version: request.version.clone(),
                env: request.env.clone(),
                parent_id: package_id,
                pipeline_status: None,
                id,
            };
            reg.package_envs.append(row);
        },
    }
    Ok(
        CreateOrUpdatePackageResponse {
            message: "Package created or updated successfully".to_owned(),
            package_id,
        },
    )
}

/// The name under which a group is to be asked for before a request to
/// create or update a package is carried out: a fresh random identifier
/// where the registry works with the identity service and the package does
/// not exist yet, and none otherwise.
pub fn package_group_request(
    reg: &Registry,
    request: &CreateOrUpdatePackageRequest,
    config: &Config,
) -> (r: Option<String>)
    ensures
        match r {
            Some(name) => {
                &&& config.identity_integration
                &&& reg@.package_by_identifier(request@.identifier) is None
                &&& is_uuid_text(name@)
            },
            None => !config.identity_integration || reg@.package_by_identifier(
                request@.identifier,
            ) is Some,
        },
{
    if config.identity_integration && reg.find_package(request.identifier.as_str()).is_none() {
        Some(new_identifier())
    } else {
        None
    }
}

/// Creates or updates a package and its row for one environment.
///
/// The package is looked for by its identifier. Where it exists, its type,
/// language, dependencies, description, origin and links are replaced by
/// those of the request; where it does not, it is created, backed by
/// `group_id`. Its row for the environment of the request gets the version
/// of the request. The current time is recorded on the package.
pub fn create_or_update_package(
    reg: &mut Registry,
    request: &CreateOrUpdatePackageRequest,
    group_id: Option<String>,
) -> (r: Result<CreateOrUpdatePackageResponse, RegistryError>)
    requires
        old(reg)@.wf(),
    ensures
        final(reg)@.wf(),
        exists|at: Timestamp|
            at.micros >= 0 && package_request_outcome(
                old(reg)@,
                request@,
                opt_text(group_id),
                at,
                final(reg)@,
                r,
            ),
        r is Ok ==> json_list_of_text(json_text_of_list(request@.dependencies)) == Some(
            request@.dependencies,
        ),
{
    let at = now();
    create_or_update_package_at(reg, request, group_id, at)
}

/// The condition that a package belongs to the given organization and
/// has a row for the given environment.
pub open spec fn package_offered(pre: RegistryState, org: Seq<char>, env: Seq<char>) -> spec_fn(
    PackageView,
) -> bool {
    |p: PackageView| p.organization_id == Some(org) && pre.package_env_of(p.id, env) is Some
}

/// The dependencies that a package keeps: none where it keeps no list,
/// and otherwise the list, where the text is a JSON array of strings.
pub open spec fn dependencies_kept(json: Option<Seq<char>>) -> Option<Seq<Seq<char>>> {
    match json {
        Some(text) => json_list_of_text(text),
        None => Some(Seq::empty()),
    }
}

/// What is shown of a package in an environment, where its dependencies
/// can be read: the fields of the package, with the version and the
/// pipeline status of its row for the environment.
pub open spec fn package_summary(pre: RegistryState, p: PackageView, env: Seq<char>) -> Option<
    PackageResponseView,
> {
    match (pre.package_env_of(p.id, env), dependencies_kept(p.dependencies_json)) {
        (Some(k), Some(dependencies)) => Some(
            PackageResponseView {
                identifier: p.identifier,
                package_type: p.package_type,
                lang: p.lang,
                version: pre.package_envs.rows[k].version,
                updated_at: p.updated_at,
                description: text_or_empty(p.description),
                organization_id: text_or_empty(p.organization_id),
                dependencies,
                pipeline_status: pre.package_envs.rows[k].pipeline_status,
                repo_origin: p.repo_origin,
                quick_links: p.quick_links,
            },
        ),
        _ => None,
    }
}

/// One of the given packages cannot be shown in the environment.
pub open spec fn some_package_unreadable(
    pre: RegistryState,
    packages: Seq<PackageView>,
    env: Seq<char>,
) -> bool {
    exists|k: int|
        0 <= k < packages.len() && package_summary(pre, #[trigger] packages[k], env) is None
}

/// Each of the given answers shows the package at its position.
pub open spec fn packages_shown(
    pre: RegistryState,
    packages: Seq<PackageView>,
    env: Seq<char>,
    list: Seq<PackageResponse>,
) -> bool {
    &&& list.len() == packages.len()
    &&& forall|k: int|
        0 <= k < packages.len() ==> package_summary(pre, #[trigger] packages[k], env) == Some(
            list[k]@,
        )
}

/// What a request for the packages of an organization in an environment
/// is answered with: what is shown of each package of the organization
/// that has a row for the environment, in the order in which the packages
/// were created, or a refusal where the dependencies of one of them cannot
/// be read.
pub open spec fn packages_listed(
    pre: RegistryState,
    env: Seq<char>,
    org: Seq<char>,
    r: Result<Vec<PackageResponse>, RegistryError>,
) -> bool {
    let offered = pre.packages.rows.filter(package_offered(pre, org, env));
    match r {
        Ok(list) => packages_shown(pre, offered, env, list@),
        Err(e) => e.kind == ErrorKind::Validation && some_package_unreadable(pre, offered, env),
    }
}

/// The dependencies that a package keeps.
fn dependencies_kept_in(json: &Option<String>) -> (r: Result<Vec<String>, RegistryError>)
    ensures
        match r {
            Ok(names) => dependencies_kept(opt_text(*json)) == Some(texts(names@)),
            Err(e) => dependencies_kept(opt_text(*json)) is None && e.kind
                == ErrorKind::Validation,
        },
{
    match json {
        Some(text) => names_of_json(text.as_str()),
        None => {
            let names: Vec<String> = Vec::new();
            assert(texts(names@) =~= Seq::<Seq<char>>::empty());
            Ok(names)
        },
    }
}

/// The packages of an organization as they stand in an environment.
#[verifier::loop_isolation(false)]
pub fn fetch_user_packages(reg: &Registry, env: &str, org_id: &str) -> (r: Result<
    Vec<PackageResponse>,
    RegistryError,
>)
    ensures
        packages_listed(reg@, env@, org_id@, r),
{
    let rows = reg.packages.rows();
    let ghost held = reg@.packages.rows;
    let ghost p = package_offered(reg@, org_id@, env@);
    let mut out: Vec<PackageResponse> = Vec::new();
    let mut i: usize = 0;
    proof {
        lemma_filter_none(held.subrange(0, 0), p);
    }
    while i < rows.len()
        invariant
            i <= rows.len(),
            packages_shown(reg@, held.subrange(0, i as int).filter(p), env@, out@),
        decreases rows.len() - i,
    {
        let ghost sofar = held.subrange(0, i as int).filter(p);
        proof {
            assert(rows@[i as int]@ == held[i as int]);
            lemma_filter_step(held, p, i as int);
        }
        let row = &rows[i];
        if opt_is(&row.organization_id, org_id) {
            match reg.find_package_env(row.id, env) {
                Some(k) => {
                    let e = reg.package_envs.row(k);
                    let dependencies = match dependencies_kept_in(&row.dependencies_json) {
                        Ok(names) => names,
                        Err(err) => {
                            proof {
                                let all = held.filter(p);
                                let n = sofar.len() as int;
                                lemma_filter_prefix(held, p, i as int + 1);
                                assert(all[n] == held[i as int]);
                                assert(package_summary(reg@, all[n], env@) is None);
                            }
                            return Err(err);
                        },
                    };
                    let item = PackageResponse {
                        identifier: row.identifier.clone(),
                        package_type: row.package_type.clone(),
                        lang: row.lang.clone(),
                        version: e.version.clone(),
                        updated_at: row.updated_at,
                        description: or_empty(&row.description),
                        organization_id: or_empty(&row.organization_id),
                        dependencies,
                        pipeline_status: e.pipeline_status.clone(),
                        repo_origin: row.repo_origin.clone(),
                        quick_links: row.quick_links.clone(),
                    };
                    out.push(item);
                },
                None => {},
            }
        }
        i += 1;
    }
    assert(held.subrange(0, i as int) =~= held);
    Ok(out)
}

/// See `fetch_user_packages`.
pub fn get_user_packages(reg: &Registry, env: &str, org_id: &str) -> (r: Result<
    Vec<PackageResponse>,
    RegistryError,
>)
    ensures
        packages_listed(reg@, env@, org_id@, r),
{
    fetch_user_packages(reg, env, org_id)
}

/// See `fetch_user_packages`.
pub fn get_user_packages_user_land(reg: &Registry, env: &str, org_id: &str) -> (r: Result<
    Vec<PackageResponse>,
    RegistryError,
>)
    ensures
        packages_listed(reg@, env@, org_id@, r),
{
    fetch_user_packages(reg, env, org_id)
}

/// See `fetch_user_packages`.
pub fn get_user_packages_public(reg: &Registry, env: &str, org_id: &str) -> (r: Result<
    Vec<PackageResponse>,
    RegistryError,
>)
    ensures
        packages_listed(reg@, env@, org_id@, r),
{
    fetch_user_packages(reg, env, org_id)
}

/// The package at position `i` belongs to the organization and has the
/// given identifier, and the environment row at position `k` is one of its
/// rows.
pub open spec fn version_offered_at(
    pre: RegistryState,
    org: Seq<char>,
    name: Seq<char>,
    i: int,
    k: int,
) -> bool {
    &&& 0 <= i < pre.packages.rows.len()
    &&& 0 <= k < pre.package_envs.rows.len()
    &&& pre.packages.rows[i].identifier == name
    &&& pre.packages.rows[i].organization_id == Some(org)
    &&& pre.package_envs.rows[k].parent_id == pre.packages.rows[i].id
}

/// The version `v` is that of some environment of the package of the
/// given identifier in the organization.
pub open spec fn version_offered(
    pre: RegistryState,
    org: Seq<char>,
    name: Seq<char>,
    v: Seq<char>,
) -> bool {
    exists|i: int, k: int| #[trigger]
        version_offered_at(pre, org, name, i, k) && pre.package_envs.rows[k].version == v
}

/// The package of the given identifier in the organization has no
/// environment.
pub open spec fn no_version_offered(pre: RegistryState, org: Seq<char>, name: Seq<char>) -> bool {
    forall|i: int, k: int| !#[trigger] version_offered_at(pre, org, name, i, k)
}

/// Every version among the environments of the package comes before
/// `v`, or equals it, in the order of texts.
pub open spec fn bounds_versions(
    pre: RegistryState,
    org: Seq<char>,
    name: Seq<char>,
    v: Seq<char>,
) -> bool {
    forall|i: int, k: int| #[trigger]
        version_offered_at(pre, org, name, i, k) ==> text_le(pre.package_envs.rows[k].version, v)
}

/// `v` is the latest version of the package: the last of the versions of
/// its environments in the order of texts, character by character. This
/// is not the order of version numbers: `2.0.0` comes after `10.0.0`.
pub open spec fn is_latest_version(
    pre: RegistryState,
    org: Seq<char>,
    name: Seq<char>,
    v: Seq<char>,
) -> bool {
    version_offered(pre, org, name, v) && bounds_versions(pre, org, name, v)
}

/// What a request for the latest version of a package is answered with.
pub open spec fn latest_version_found(
    pre: RegistryState,
    org: Seq<char>,
    name: Seq<char>,
    r: Result<String, RegistryError>,
) -> bool {
    match r {
        Ok(v) => is_latest_version(pre, org, name, v@),
        Err(e) => e.kind == ErrorKind::NotFound && no_version_offered(pre, org, name),
    }
}

/// A package has one latest version at most.
pub proof fn lemma_latest_version_unique(
    pre: RegistryState,
    org: Seq<char>,
    name: Seq<char>,
    v: Seq<char>,
    w: Seq<char>,
)
    requires
        is_latest_version(pre, org, name, v),
        is_latest_version(pre, org, name, w),
    ensures
        v == w,
{
    let (i, k) = choose|i: int, k: int| #[trigger]
        version_offered_at(pre, org, name, i, k) && pre.package_envs.rows[k].version == v;
    let (j, m) = choose|j: int, m: int| #[trigger]
        version_offered_at(pre, org, name, j, m) && pre.package_envs.rows[m].version == w;
    assert(text_le(v, w));
    assert(text_le(w, v));
    assert(v.subrange(0, 0) =~= w.subrange(0, 0));
    lemma_text_le_antisymmetric(v, w, 0);
}

/// The state of a search for the latest version that has looked at the
/// environments before position `k` for the package at position `i`, and
/// at all environments for the packages before it.
pub open spec fn latest_so_far(
    pre: RegistryState,
    org: Seq<char>,
    name: Seq<char>,
    i: int,
    k: int,
    best: Option<Seq<char>>,
) -> bool {
    &&& best matches Some(b) ==> version_offered(pre, org, name, b)
    &&& forall|j: int, m: int|
        (j < i || (j == i && m < k)) && #[trigger] version_offered_at(pre, org, name, j, m)
            ==> best is Some && text_le(pre.package_envs.rows[m].version, best->0)
}

/// The later of the best version so far and a candidate.
fn later_version(best: Option<String>, candidate: &String) -> (r: String)
    ensures
        text_le(candidate@, r@),
        best matches Some(b) ==> text_le(b@, r@),
        r@ == candidate@ || best == Some(r),
{
    match best {
        Some(b) => {
            if text_before_or_equal(b.as_str(), candidate.as_str()) {
                proof {
                    lemma_text_le_reflexive(candidate@, 0);
                }
                candidate.clone()
            } else {
                proof {
                    lemma_text_le_total(b@, candidate@, 0);
                    lemma_text_le_reflexive(b@, 0);
                }
                b
            }
        },
        None => {
            proof {
                lemma_text_le_reflexive(candidate@, 0);
            }
            candidate.clone()
        },
    }
}

/// The latest version of a package of an organization, as plain text.
///
/// The versions of all environments of the package are compared as texts,
/// character by character, and the last one in that order is returned: of
/// `1.0.0`, `2.0.0` and `10.0.0` that is `2.0.0`.
#[verifier::loop_isolation(false)]
pub fn get_package_version_plain_text(reg: &Registry, org_id: &str, package_name: &str) -> (r:
    Result<String, RegistryError>)
    ensures
        latest_version_found(reg@, org_id@, package_name@, r),
{
    let packages = reg.packages.rows();
    let envs = reg.package_envs.rows();
    let ghost pre = reg@;
    let ghost org = org_id@;
    let ghost name = package_name@;
    let mut best: Option<String> = None;
    let mut i: usize = 0;
    while i < packages.len()
        invariant
            i <= packages.len(),
            latest_so_far(pre, org, name, i as int, 0, opt_text(best)),
        decreases packages.len() - i,
    {
        let p = &packages[i];
        proof {
            assert(p@ == pre.packages.rows[i as int]);
        }
        if same_text(p.identifier.as_str(), package_name) && opt_is(&p.organization_id, org_id) {
            let mut k: usize = 0;
            while k < envs.len()
                invariant
                    k <= envs.len(),
                    i < packages.len(),
                    p@ == pre.packages.rows[i as int],
                    p.identifier@ == name,
                    opt_text(p.organization_id) == Some(org),
                    latest_so_far(pre, org, name, i as int, k as int, opt_text(best)),
                decreases envs.len() - k,
            {
                let e = &envs[k];
                proof {
                    assert(e@ == pre.package_envs.rows[k as int]);
                }
                if e.parent_id == p.id {
                    let ghost before = opt_text(best);
                    let next = later_version(best, &e.version);
                    proof {
                        assert(version_offered_at(pre, org, name, i as int, k as int));
                        assert forall|j: int, m: int|
                            (j < i || (j == i && m < k + 1)) && #[trigger] version_offered_at(
                                pre,
                                org,
                                name,
                                j,
                                m,
                            ) implies text_le(pre.package_envs.rows[m].version, next@) by {
                            if j == i && m == k {
                            } else {
                                lemma_text_le_transitive(
                                    pre.package_envs.rows[m].version,
                                    before->0,
                                    next@,
                                    0,
                                );
                            }
                        }
                    }
                    best = Some(next);
                }
                k += 1;
            }
        }
        i += 1;
    }
    match best {
        Some(v) => Ok(v),
        None => Err(RegistryError::new(ErrorKind::NotFound, "Package or version not found")),
    }
}

/// The latest version of a package of an organization. See
/// `get_package_version_plain_text` for the order in which versions are
/// compared.
pub fn get_package_version(reg: &Registry, org_id: &str, package_name: &str) -> (r: Result<
    VersionResponse,
    RegistryError,
>)
    ensures
        match r {
            Ok(resp) => is_latest_version(reg@, org_id@, package_name@, resp@.version),
            Err(e) => e.kind == ErrorKind::NotFound && no_version_offered(
                reg@,
                org_id@,
                package_name@,
            ),
        },
{
    match get_package_version_plain_text(reg, org_id, package_name) {
        Ok(version) => Ok(VersionResponse { version }),
        Err(e) => Err(e),
    }
}

} // verus!
