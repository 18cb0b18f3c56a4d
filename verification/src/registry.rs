//! The registry: the tables of the store, the rules that hold of them,
//! and the lookups and insertions on which every operation is built.
//!
//! Rows are found by scanning a table from its first row on; where more
//! than one row meets a condition, the one inserted first is the one found.
//! A branch or an environment is stored only under a schema, a service or
//! a package that exists, and those are never deleted. Deleting an
//! organization removes its row only: the services, schemas and packages
//! that name it stay.

use vstd::prelude::*;
use crate::error::{ErrorKind, RegistryError};
use crate::models::schema::{
    Dbschema, DbschemaInsertable, DbschemaInsertableView, DbschemaView, Dbschema_Branch,
    Dbschema_BranchInsertable, Dbschema_BranchInsertableView, Dbschema_BranchView, Organization,
    OrganizationInsertable, OrganizationInsertableView, OrganizationView, Package,
    PackageInsertable, PackageInsertableView, PackageView, Package_Env, Package_EnvInsertable,
    Package_EnvInsertableView, Package_EnvView, Service, ServiceInsertable,
    ServiceInsertableView, ServiceView, Service_Envs, Service_EnvsInsertable,
    Service_EnvsInsertableView, Service_EnvsView, Snapshots, SnapshotsInsertable,
    SnapshotsInsertableView, SnapshotsView, Templates, TemplatesInsertable,
    TemplatesInsertableView, TemplatesView,
};
use crate::query::{first_match, is_first, lemma_first_is, lemma_first_none, none_meets};
use crate::store::{Table, TableState};
use crate::text::{contains_text, has_text, opt_is, same_text};

verus! {

/// The condition that a schema has the given external identifier.
pub open spec fn dbschema_identified(identifier: Seq<char>) -> spec_fn(DbschemaView) -> bool {
    |d: DbschemaView| d.identifier == Some(identifier)
}

/// The condition that a schema has the given external identifier and
/// belongs to the given organization.
pub open spec fn dbschema_identified_in(identifier: Seq<char>, org: Seq<char>) -> spec_fn(DbschemaView) -> bool {
    |d: DbschemaView| d.identifier == Some(identifier) && d.organization_id == Some(org)
}

/// The condition that a schema has the given name and belongs to the
/// given organization.
pub open spec fn dbschema_named_in(name: Seq<char>, org: Seq<char>) -> spec_fn(DbschemaView) -> bool {
    |d: DbschemaView| d.name == name && d.organization_id == Some(org)
}

/// The condition that a branch belongs to the given schema and has the
/// given name.
pub open spec fn branch_at(parent_id: i64, name: Seq<char>) -> spec_fn(Dbschema_BranchView) -> bool {
    |b: Dbschema_BranchView| b.parent_id == parent_id && b.branch_name == name
}

/// The condition that a branch has the given id and belongs to the given
/// schema.
pub open spec fn branch_under(id: i64, parent_id: i64) -> spec_fn(Dbschema_BranchView) -> bool {
    |b: Dbschema_BranchView| b.id == id && b.parent_id == parent_id
}

/// The condition that a service has the given identifier.
pub open spec fn service_identified(identifier: Seq<char>) -> spec_fn(ServiceView) -> bool {
    |s: ServiceView| s.identifier == identifier
}

/// The condition that a service has the given identifier and belongs to
/// the given organization.
pub open spec fn service_identified_in(identifier: Seq<char>, org: Seq<char>) -> spec_fn(ServiceView) -> bool {
    |s: ServiceView| s.identifier == identifier && s.organization_id == Some(org)
}

/// The condition that an environment row belongs to the given service
/// and names the given environment.
pub open spec fn service_env_at(parent_id: i64, env: Seq<char>) -> spec_fn(Service_EnvsView) -> bool {
    |e: Service_EnvsView| e.parent_id == parent_id && e.env == env
}

/// The condition that a package has the given identifier.
pub open spec fn package_identified(identifier: Seq<char>) -> spec_fn(PackageView) -> bool {
    |p: PackageView| p.identifier == identifier
}

/// The condition that a package has the given identifier and belongs to
/// the given organization.
pub open spec fn package_identified_in(identifier: Seq<char>, org: Seq<char>) -> spec_fn(PackageView) -> bool {
    |p: PackageView| p.identifier == identifier && p.organization_id == Some(org)
}

/// The condition that an environment row belongs to the given package
/// and names the given environment.
pub open spec fn package_env_at(parent_id: i64, env: Seq<char>) -> spec_fn(Package_EnvView) -> bool {
    |e: Package_EnvView| e.parent_id == parent_id && e.env == env
}

/// The condition that an organization has the given slug.
pub open spec fn organization_slugged(slug: Seq<char>) -> spec_fn(OrganizationView) -> bool {
    |o: OrganizationView| o.slug == slug
}

/// The condition that an organization is backed by the given group.
pub open spec fn organization_grouped(group_id: Seq<char>) -> spec_fn(OrganizationView) -> bool {
    |o: OrganizationView| o.group_id == group_id
}

/// The condition that an organization has the given slug and is backed
/// by one of the given groups.
pub open spec fn organization_owned(slug: Seq<char>, groups: Seq<String>) -> spec_fn(OrganizationView) -> bool {
    |o: OrganizationView| o.slug == slug && has_text(groups, o.group_id)
}

/// No two schemas have one external identifier.
pub open spec fn unique_identifiers(rows: Seq<DbschemaView>) -> bool {
    forall|i: int, j: int|
        0 <= i < j < rows.len() ==> !((#[trigger] rows[i]).identifier is Some && rows[i].identifier
            == (#[trigger] rows[j]).identifier)
}

/// No schema has two branches of one name.
pub open spec fn unique_branches(rows: Seq<Dbschema_BranchView>) -> bool {
    forall|i: int, j: int|
        0 <= i < j < rows.len() ==> !((#[trigger] rows[i]).parent_id == (
        #[trigger] rows[j]).parent_id && rows[i].branch_name == rows[j].branch_name)
}

/// No service has two rows for one environment.
pub open spec fn unique_service_envs(rows: Seq<Service_EnvsView>) -> bool {
    forall|i: int, j: int|
        0 <= i < j < rows.len() ==> !((#[trigger] rows[i]).parent_id == (
        #[trigger] rows[j]).parent_id && rows[i].env == rows[j].env)
}

/// No package has two rows for one environment.
pub open spec fn unique_package_envs(rows: Seq<Package_EnvView>) -> bool {
    forall|i: int, j: int|
        0 <= i < j < rows.len() ==> !((#[trigger] rows[i]).parent_id == (
        #[trigger] rows[j]).parent_id && rows[i].env == rows[j].env)
}

/// No two organizations have one slug.
pub open spec fn unique_slugs(rows: Seq<OrganizationView>) -> bool {
    forall|i: int, j: int|
        0 <= i < j < rows.len() ==> (#[trigger] rows[i]).slug != (#[trigger] rows[j]).slug
}

/// What the registry holds.
pub struct RegistryState {
    pub dbschemas: TableState<Dbschema>,
    pub dbschema_branches: TableState<Dbschema_Branch>,
    pub templates: TableState<Templates>,
    pub services: TableState<Service>,
    pub service_envs: TableState<Service_Envs>,
    pub packages: TableState<Package>,
    pub package_envs: TableState<Package_Env>,
    pub organizations: TableState<Organization>,
    pub snapshots: TableState<Snapshots>,
}

impl RegistryState {
    /// A registry without rows.
    pub open spec fn empty() -> RegistryState {
        RegistryState {
            dbschemas: TableState::empty(),
            dbschema_branches: TableState::empty(),
            templates: TableState::empty(),
            services: TableState::empty(),
            service_envs: TableState::empty(),
            packages: TableState::empty(),
            package_envs: TableState::empty(),
            organizations: TableState::empty(),
            snapshots: TableState::empty(),
        }
    }

    /// A registry without rows, in which the first row of every table will
    /// get the given id, or the id 1 where the given one is below 1.
    pub open spec fn starting_at(first_id: i64) -> RegistryState {
        RegistryState {
            dbschemas: TableState::starting_at(first_id),
            dbschema_branches: TableState::starting_at(first_id),
            templates: TableState::starting_at(first_id),
            services: TableState::starting_at(first_id),
            service_envs: TableState::starting_at(first_id),
            packages: TableState::starting_at(first_id),
            package_envs: TableState::starting_at(first_id),
            organizations: TableState::starting_at(first_id),
            snapshots: TableState::starting_at(first_id),
        }
    }

    /// The rules of the store: in each table no id is given twice; an
    /// external identifier names one schema at most; a schema has one branch
    /// of a name at most; a service and a package have one row for an
    /// environment at most; a slug names one organization at most; and
    /// every branch and every environment belongs to a schema, a service or
    /// a package that exists.
    pub open spec fn wf(self) -> bool {
        &&& self.dbschemas.wf()
        &&& self.dbschema_branches.wf()
        &&& self.templates.wf()
        &&& self.services.wf()
        &&& self.service_envs.wf()
        &&& self.packages.wf()
        &&& self.package_envs.wf()
        &&& self.organizations.wf()
        &&& self.snapshots.wf()
        &&& unique_identifiers(self.dbschemas.rows)
        &&& unique_branches(self.dbschema_branches.rows)
        &&& unique_service_envs(self.service_envs.rows)
        &&& unique_package_envs(self.package_envs.rows)
        &&& unique_slugs(self.organizations.rows)
        &&& self.branches_have_schemas()
        &&& self.service_envs_have_services()
        &&& self.package_envs_have_packages()
    }

    /// Every branch belongs to a schema that exists.
    pub open spec fn branches_have_schemas(self) -> bool {
        forall|k: int|
            0 <= k < self.dbschema_branches.rows.len() ==> self.dbschemas.holds_id(
                (#[trigger] self.dbschema_branches.rows[k]).parent_id,
            )
    }

    /// Every environment of a service belongs to a service that exists.
    pub open spec fn service_envs_have_services(self) -> bool {
        forall|k: int|
            0 <= k < self.service_envs.rows.len() ==> self.services.holds_id(
                (#[trigger] self.service_envs.rows[k]).parent_id,
            )
    }

    /// Every environment of a package belongs to a package that exists.
    pub open spec fn package_envs_have_packages(self) -> bool {
        forall|k: int|
            0 <= k < self.package_envs.rows.len() ==> self.packages.holds_id(
                (#[trigger] self.package_envs.rows[k]).parent_id,
            )
    }

    /// The same registry with another table of schemas.
    pub open spec fn with_dbschemas(self, table: TableState<Dbschema>) -> RegistryState {
        RegistryState { dbschemas: table, ..self }
    }

    /// The same registry with another table of branches.
    pub open spec fn with_dbschema_branches(self, table: TableState<Dbschema_Branch>) -> RegistryState {
        RegistryState { dbschema_branches: table, ..self }
    }

    /// The same registry with another table of templates.
    pub open spec fn with_templates(self, table: TableState<Templates>) -> RegistryState {
        RegistryState { templates: table, ..self }
    }

    /// The same registry with another table of services.
    pub open spec fn with_services(self, table: TableState<Service>) -> RegistryState {
        RegistryState { services: table, ..self }
    }

    /// The same registry with another table of service environments.
    pub open spec fn with_service_envs(self, table: TableState<Service_Envs>) -> RegistryState {
        RegistryState { service_envs: table, ..self }
    }

    /// The same registry with another table of packages.
    pub open spec fn with_packages(self, table: TableState<Package>) -> RegistryState {
        RegistryState { packages: table, ..self }
    }

    /// The same registry with another table of package environments.
    pub open spec fn with_package_envs(self, table: TableState<Package_Env>) -> RegistryState {
        RegistryState { package_envs: table, ..self }
    }

    /// The same registry with another table of organizations.
    pub open spec fn with_organizations(self, table: TableState<Organization>) -> RegistryState {
        RegistryState { organizations: table, ..self }
    }

    /// The same registry with another table of snapshots.
    pub open spec fn with_snapshots(self, table: TableState<Snapshots>) -> RegistryState {
        RegistryState { snapshots: table, ..self }
    }

    /// The position of the schema with the given external identifier.
    pub open spec fn dbschema_by_identifier(self, identifier: Seq<char>) -> Option<int> {
        first_match(self.dbschemas.rows, dbschema_identified(identifier))
    }

    /// The position of the schema of an organization with the given
    /// external identifier.
    pub open spec fn dbschema_in(self, identifier: Seq<char>, org: Seq<char>) -> Option<int> {
        first_match(self.dbschemas.rows, dbschema_identified_in(identifier, org))
    }

    /// The position of the schema of an organization with the given name.
    pub open spec fn dbschema_named(self, name: Seq<char>, org: Seq<char>) -> Option<int> {
        first_match(self.dbschemas.rows, dbschema_named_in(name, org))
    }

    /// The position of the branch of a schema with the given name.
    pub open spec fn branch_of(self, parent_id: i64, name: Seq<char>) -> Option<int> {
        first_match(self.dbschema_branches.rows, branch_at(parent_id, name))
    }

    /// The position of the branch with the given id, if it belongs to the
    /// given schema.
    pub open spec fn branch_by_id(self, id: i64, parent_id: i64) -> Option<int> {
        first_match(self.dbschema_branches.rows, branch_under(id, parent_id))
    }

    /// The position of the service with the given identifier.
    pub open spec fn service_by_identifier(self, identifier: Seq<char>) -> Option<int> {
        first_match(self.services.rows, service_identified(identifier))
    }

    /// The position of the service of an organization with the given
    /// identifier.
    pub open spec fn service_in(self, identifier: Seq<char>, org: Seq<char>) -> Option<int> {
        first_match(self.services.rows, service_identified_in(identifier, org))
    }

    /// The position of the row of a service for an environment.
    pub open spec fn service_env_of(self, parent_id: i64, env: Seq<char>) -> Option<int> {
        first_match(self.service_envs.rows, service_env_at(parent_id, env))
    }

    /// The position of the package with the given identifier.
    pub open spec fn package_by_identifier(self, identifier: Seq<char>) -> Option<int> {
        first_match(self.packages.rows, package_identified(identifier))
    }

    /// The position of the package of an organization with the given
    /// identifier.
    pub open spec fn package_in(self, identifier: Seq<char>, org: Seq<char>) -> Option<int> {
        first_match(self.packages.rows, package_identified_in(identifier, org))
    }

    /// The position of the row of a package for an environment.
    pub open spec fn package_env_of(self, parent_id: i64, env: Seq<char>) -> Option<int> {
        first_match(self.package_envs.rows, package_env_at(parent_id, env))
    }

    /// The position of the organization with the given slug.
    pub open spec fn organization_by_slug(self, slug: Seq<char>) -> Option<int> {
        first_match(self.organizations.rows, organization_slugged(slug))
    }

    /// The position of the organization that the given group backs.
    pub open spec fn organization_by_group(self, group_id: Seq<char>) -> Option<int> {
        first_match(self.organizations.rows, organization_grouped(group_id))
    }

    /// The position of the organization with the given slug, if one of
    /// the given groups backs it.
    pub open spec fn organization_owned_by(self, slug: Seq<char>, groups: Seq<String>) -> Option<int> {
        first_match(self.organizations.rows, organization_owned(slug, groups))
    }
    /// Why a schema cannot be stored, if it cannot: its external identifier
    /// is taken, or the table is full.
    pub open spec fn insert_dbschema_error(self, r: DbschemaInsertableView) -> Option<ErrorKind> {
        if r.identifier matches Some(identifier) && self.dbschema_by_identifier(identifier) is Some {
            Some(ErrorKind::Conflict)
        } else if !self.dbschemas.has_room() {
            Some(ErrorKind::StoreUnavailable)
        } else {
            None
        }
    }

    /// Why a branch cannot be stored, if it cannot: its schema does not
    /// exist, the schema has a branch of the name, or the table is full.
    pub open spec fn insert_dbschema_branch_error(self, r: Dbschema_BranchInsertableView) -> Option<
        ErrorKind,
    > {
        if !self.dbschemas.holds_id(r.parent_id) {
            Some(ErrorKind::NotFound)
        } else if self.branch_of(r.parent_id, r.branch_name) is Some {
            Some(ErrorKind::Conflict)
        } else if !self.dbschema_branches.has_room() {
            Some(ErrorKind::StoreUnavailable)
        } else {
            None
        }
    }

    /// Why a template cannot be stored, if it cannot: the table is full.
    pub open spec fn insert_template_error(self, r: TemplatesInsertableView) -> Option<ErrorKind> {
        if !self.templates.has_room() {
            Some(ErrorKind::StoreUnavailable)
        } else {
            None
        }
    }

    /// Why a service cannot be stored, if it cannot: the table is full.
    pub open spec fn insert_service_error(self, r: ServiceInsertableView) -> Option<ErrorKind> {
        if !self.services.has_room() {
            Some(ErrorKind::StoreUnavailable)
        } else {
            None
        }
    }

    /// Why an environment of a service cannot be stored, if it cannot: the
    /// service does not exist, it has a row for the environment, or the
    /// table is full.
    pub open spec fn insert_service_env_error(self, r: Service_EnvsInsertableView) -> Option<
        ErrorKind,
    > {
        if !self.services.holds_id(r.parent_id) {
            Some(ErrorKind::NotFound)
        } else if self.service_env_of(r.parent_id, r.env) is Some {
            Some(ErrorKind::Conflict)
        } else if !self.service_envs.has_room() {
            Some(ErrorKind::StoreUnavailable)
        } else {
            None
        }
    }

    /// Why a package cannot be stored, if it cannot: the table is full.
    pub open spec fn insert_package_error(self, r: PackageInsertableView) -> Option<ErrorKind> {
        if !self.packages.has_room() {
            Some(ErrorKind::StoreUnavailable)
        } else {
            None
        }
    }

    /// Why an environment of a package cannot be stored, if it cannot: the
    /// package does not exist, it has a row for the environment, or the
    /// table is full.
    pub open spec fn insert_package_env_error(self, r: Package_EnvInsertableView) -> Option<
        ErrorKind,
    > {
        if !self.packages.holds_id(r.parent_id) {
            Some(ErrorKind::NotFound)
        } else if self.package_env_of(r.parent_id, r.env) is Some {
            Some(ErrorKind::Conflict)
        } else if !self.package_envs.has_room() {
            Some(ErrorKind::StoreUnavailable)
        } else {
            None
        }
    }

    /// Why an organization cannot be stored, if it cannot: its slug is
    /// taken, or the table is full.
    pub open spec fn insert_organization_error(self, r: OrganizationInsertableView) -> Option<
        ErrorKind,
    > {
        if self.organization_by_slug(r.slug) is Some {
            Some(ErrorKind::Conflict)
        } else if !self.organizations.has_room() {
            Some(ErrorKind::StoreUnavailable)
        } else {
            None
        }
    }

    /// Why a snapshot cannot be stored, if it cannot: the table is full.
    pub open spec fn insert_snapshot_error(self, r: SnapshotsInsertableView) -> Option<ErrorKind> {
        if !self.snapshots.has_room() {
            Some(ErrorKind::StoreUnavailable)
        } else {
            None
        }
    }
}

/// The row that a record becomes under the given id.
pub open spec fn dbschema_row(r: DbschemaInsertableView, id: i64) -> DbschemaView {
    DbschemaView {
        name: r.name,
        description: r.description,
        created_at: r.created_at,
        updated_at: r.updated_at,
        data: r.data,
        group_id: r.group_id,
        identifier: r.identifier,
        organization_id: r.organization_id,
        repo_origin: r.repo_origin,
        db_type: r.db_type,
        quick_links: r.quick_links,
        id,
    }
}

/// The row that a record becomes under the given id.
pub open spec fn branch_row(r: Dbschema_BranchInsertableView, id: i64) -> Dbschema_BranchView {
    Dbschema_BranchView {
        parent_id: r.parent_id,
        branch_name: r.branch_name,
        data: r.data,
        created_at: r.created_at,
        updated_at: r.updated_at,
        version: r.version,
        pipeline_status: r.pipeline_status,
        id,
    }
}

/// The row that a record becomes under the given id.
pub open spec fn template_row(r: TemplatesInsertableView, id: i64) -> TemplatesView {
    TemplatesView {
        short_name: r.short_name,
        description: r.description,
        repo_link: r.repo_link,
        identifier: r.identifier,
        id,
    }
}

/// The row that a record becomes under the given id.
pub open spec fn service_row(r: ServiceInsertableView, id: i64) -> ServiceView {
    ServiceView {
        identifier: r.identifier,
        group_id: r.group_id,
        db_schema_id: r.db_schema_id,
        tables_json: r.tables_json,
        dependencies_json: r.dependencies_json,
        service_type: r.service_type,
        lang: r.lang,
        description: r.description,
        organization_id: r.organization_id,
        repo_origin: r.repo_origin,
        cache_schema_id: r.cache_schema_id,
        message_queue_schema_id: r.message_queue_schema_id,
        quick_links: r.quick_links,
        id,
    }
}

/// The row that a record becomes under the given id.
pub open spec fn service_env_row(r: Service_EnvsInsertableView, id: i64) -> Service_EnvsView {
    Service_EnvsView {
        parent_id: r.parent_id,
        spec: r.spec,
        env: r.env,
        base_url: r.base_url,
        base_url_ws: r.base_url_ws,
        updated_at: r.updated_at,
        version: r.version,
        pipeline_status: r.pipeline_status,
        id,
    }
}

/// The row that a record becomes under the given id.
pub open spec fn package_row(r: PackageInsertableView, id: i64) -> PackageView {
    PackageView {
        identifier: r.identifier,
        package_type: r.package_type,
        lang: r.lang,
        group_id: r.group_id,
        updated_at: r.updated_at,
        created_at: r.created_at,
        organization_id: r.organization_id,
        description: r.description,
        dependencies_json: r.dependencies_json,
        repo_origin: r.repo_origin,
        quick_links: r.quick_links,
        id,
    }
}

/// The row that a record becomes under the given id.
pub open spec fn package_env_row(r: Package_EnvInsertableView, id: i64) -> Package_EnvView {
    Package_EnvView {
        version: r.version,
        env: r.env,
        parent_id: r.parent_id,
        pipeline_status: r.pipeline_status,
        id,
    }
}

/// The row that a record becomes under the given id.
pub open spec fn organization_row(r: OrganizationInsertableView, id: i64) -> OrganizationView {
    OrganizationView {
        slug: r.slug,
        group_id: r.group_id,
        is_active: r.is_active,
        blocks_positions: r.blocks_positions,
        name: r.name,
        is_public: r.is_public,
        infra_repo_origin: r.infra_repo_origin,
        quick_links: r.quick_links,
        version: r.version,
        id,
    }
}

/// The row that a record becomes under the given id.
pub open spec fn snapshot_row(r: SnapshotsInsertableView, id: i64) -> SnapshotsView {
    SnapshotsView {
        version: r.version,
        created_at: r.created_at,
        updated_at: r.updated_at,
        organization_id: r.organization_id,
        id,
    }
}

/// With one more schema, every branch still belongs to a schema that exists, and
/// the new schema exists.
pub proof fn lemma_schema_added(pre: RegistryState, row: DbschemaView)
    requires
        pre.branches_have_schemas(),
    ensures
        pre.with_dbschemas(pre.dbschemas.appended(row)).branches_have_schemas(),
        pre.dbschemas.appended(row).holds_id(row.id),
{
    let after = pre.dbschemas.appended(row);
    assert forall|k: int| 0 <= k < pre.dbschema_branches.rows.len() implies after.holds_id(
        (#[trigger] pre.dbschema_branches.rows[k]).parent_id,
    ) by {
        pre.dbschemas.lemma_holds_id_appended(row, pre.dbschema_branches.rows[k].parent_id);
    }
    pre.dbschemas.lemma_holds_id_appended(row, row.id);
}

/// With a schema replaced by one of the same id, every branch still belongs to
/// a schema that exists.
pub proof fn lemma_schema_replaced(pre: RegistryState, i: int, row: DbschemaView)
    requires
        pre.branches_have_schemas(),
        0 <= i < pre.dbschemas.rows.len(),
        row.id == pre.dbschemas.rows[i].id,
    ensures
        pre.with_dbschemas(pre.dbschemas.replaced(i, row)).branches_have_schemas(),
        forall|id: i64| pre.dbschemas.holds_id(id) ==> #[trigger] pre.dbschemas.replaced(i, row).holds_id(id),
{
    let after = pre.dbschemas.replaced(i, row);
    assert forall|id: i64| pre.dbschemas.holds_id(id) implies #[trigger] after.holds_id(id) by {
        pre.dbschemas.lemma_holds_id_replaced(i, row, id);
    }
    assert forall|k: int| 0 <= k < pre.dbschema_branches.rows.len() implies after.holds_id(
        (#[trigger] pre.dbschema_branches.rows[k]).parent_id,
    ) by {
        pre.dbschemas.lemma_holds_id_replaced(i, row, pre.dbschema_branches.rows[k].parent_id);
    }
}

/// With one more service, every environment still belongs to a service that exists, and
/// the new service exists.
pub proof fn lemma_service_added(pre: RegistryState, row: ServiceView)
    requires
        pre.service_envs_have_services(),
    ensures
        pre.with_services(pre.services.appended(row)).service_envs_have_services(),
        pre.services.appended(row).holds_id(row.id),
{
    let after = pre.services.appended(row);
    assert forall|k: int| 0 <= k < pre.service_envs.rows.len() implies after.holds_id(
        (#[trigger] pre.service_envs.rows[k]).parent_id,
    ) by {
        pre.services.lemma_holds_id_appended(row, pre.service_envs.rows[k].parent_id);
    }
    pre.services.lemma_holds_id_appended(row, row.id);
}

/// With a service replaced by one of the same id, every environment still belongs to
/// a service that exists.
pub proof fn lemma_service_replaced(pre: RegistryState, i: int, row: ServiceView)
    requires
        pre.service_envs_have_services(),
        0 <= i < pre.services.rows.len(),
        row.id == pre.services.rows[i].id,
    ensures
        pre.with_services(pre.services.replaced(i, row)).service_envs_have_services(),
        forall|id: i64| pre.services.holds_id(id) ==> #[trigger] pre.services.replaced(i, row).holds_id(id),
{
    let after = pre.services.replaced(i, row);
    assert forall|id: i64| pre.services.holds_id(id) implies #[trigger] after.holds_id(id) by {
        pre.services.lemma_holds_id_replaced(i, row, id);
    }
    assert forall|k: int| 0 <= k < pre.service_envs.rows.len() implies after.holds_id(
        (#[trigger] pre.service_envs.rows[k]).parent_id,
    ) by {
        pre.services.lemma_holds_id_replaced(i, row, pre.service_envs.rows[k].parent_id);
    }
}

/// With one more package, every environment still belongs to a package that exists, and
/// the new package exists.
pub proof fn lemma_package_added(pre: RegistryState, row: PackageView)
    requires
        pre.package_envs_have_packages(),
    ensures
        pre.with_packages(pre.packages.appended(row)).package_envs_have_packages(),
        pre.packages.appended(row).holds_id(row.id),
{
    let after = pre.packages.appended(row);
    assert forall|k: int| 0 <= k < pre.package_envs.rows.len() implies after.holds_id(
        (#[trigger] pre.package_envs.rows[k]).parent_id,
    ) by {
        pre.packages.lemma_holds_id_appended(row, pre.package_envs.rows[k].parent_id);
    }
    pre.packages.lemma_holds_id_appended(row, row.id);
}

/// With a package replaced by one of the same id, every environment still belongs to
/// a package that exists.
pub proof fn lemma_package_replaced(pre: RegistryState, i: int, row: PackageView)
    requires
        pre.package_envs_have_packages(),
        0 <= i < pre.packages.rows.len(),
        row.id == pre.packages.rows[i].id,
    ensures
        pre.with_packages(pre.packages.replaced(i, row)).package_envs_have_packages(),
        forall|id: i64| pre.packages.holds_id(id) ==> #[trigger] pre.packages.replaced(i, row).holds_id(id),
{
    let after = pre.packages.replaced(i, row);
    assert forall|id: i64| pre.packages.holds_id(id) implies #[trigger] after.holds_id(id) by {
        pre.packages.lemma_holds_id_replaced(i, row, id);
    }
    assert forall|k: int| 0 <= k < pre.package_envs.rows.len() implies after.holds_id(
        (#[trigger] pre.package_envs.rows[k]).parent_id,
    ) by {
        pre.packages.lemma_holds_id_replaced(i, row, pre.package_envs.rows[k].parent_id);
    }
}

/// What a search returned: the position of the first row that meets the
/// condition, or nothing where no row meets it.
pub open spec fn located<T>(rows: Seq<T>, p: spec_fn(T) -> bool, r: Option<usize>) -> bool {
    match r {
        Some(i) => is_first(rows, p, i as int) && first_match(rows, p) == Some(i as int),
        None => none_meets(rows, p) && first_match(rows, p) is None,
    }
}

/// The registry: every table of the store.
pub struct Registry {
    pub(crate) dbschemas: Table<Dbschema>,
    pub(crate) dbschema_branches: Table<Dbschema_Branch>,
    pub(crate) templates: Table<Templates>,
    pub(crate) services: Table<Service>,
    pub(crate) service_envs: Table<Service_Envs>,
    pub(crate) packages: Table<Package>,
    pub(crate) package_envs: Table<Package_Env>,
    pub(crate) organizations: Table<Organization>,
    pub(crate) snapshots: Table<Snapshots>,
}

impl View for Registry {
    type V = RegistryState;

    open(crate) spec fn view(&self) -> RegistryState {
        RegistryState {
            dbschemas: self.dbschemas@,
            dbschema_branches: self.dbschema_branches@,
            templates: self.templates@,
            services: self.services@,
            service_envs: self.service_envs@,
            packages: self.packages@,
            package_envs: self.package_envs@,
            organizations: self.organizations@,
            snapshots: self.snapshots@,
        }
    }
}

impl Registry {
    /// A registry with no rows.
    pub fn new() -> (reg: Registry)
        ensures
            reg@ == RegistryState::empty(),
            reg@.wf(),
    {
        Registry {
            dbschemas: Table::new(),
            dbschema_branches: Table::new(),
            templates: Table::new(),
            services: Table::new(),
            service_envs: Table::new(),
            packages: Table::new(),
            package_envs: Table::new(),
            organizations: Table::new(),
            snapshots: Table::new(),
        }
    }

    /// A registry with no rows, in which the first row of every table will
    /// get the given id, or the id 1 where the given one is below 1.
    pub fn starting_at(first_id: i64) -> (reg: Registry)
        ensures
            reg@ == RegistryState::starting_at(first_id),
            reg@.wf(),
    {
        Registry {
            dbschemas: Table::starting_at(first_id),
            dbschema_branches: Table::starting_at(first_id),
            templates: Table::starting_at(first_id),
            services: Table::starting_at(first_id),
            service_envs: Table::starting_at(first_id),
            packages: Table::starting_at(first_id),
            package_envs: Table::starting_at(first_id),
            organizations: Table::starting_at(first_id),
            snapshots: Table::starting_at(first_id),
        }
    }

    /// The schemas, in the order in which they were inserted.
    pub fn dbschemas(&self) -> (rows: &Vec<Dbschema>)
        ensures
            rows@.len() == self@.dbschemas.rows.len(),
            forall|i: int| 0 <= i < rows@.len() ==> (#[trigger] rows@[i])@ == self@.dbschemas.rows[i],
    {
        self.dbschemas.rows()
    }

    /// The branches, in the order in which they were inserted.
    pub fn dbschema_branches(&self) -> (rows: &Vec<Dbschema_Branch>)
        ensures
            rows@.len() == self@.dbschema_branches.rows.len(),
            forall|i: int| 0 <= i < rows@.len() ==> (#[trigger] rows@[i])@ == self@.dbschema_branches.rows[i],
    {
        self.dbschema_branches.rows()
    }

    /// The templates, in the order in which they were inserted.
    pub fn templates(&self) -> (rows: &Vec<Templates>)
        ensures
            rows@.len() == self@.templates.rows.len(),
            forall|i: int| 0 <= i < rows@.len() ==> (#[trigger] rows@[i])@ == self@.templates.rows[i],
    {
        self.templates.rows()
    }

    /// The services, in the order in which they were inserted.
    pub fn services(&self) -> (rows: &Vec<Service>)
        ensures
            rows@.len() == self@.services.rows.len(),
            forall|i: int| 0 <= i < rows@.len() ==> (#[trigger] rows@[i])@ == self@.services.rows[i],
    {
        self.services.rows()
    }

    /// The service environments, in the order in which they were inserted.
    pub fn service_envs(&self) -> (rows: &Vec<Service_Envs>)
        ensures
            rows@.len() == self@.service_envs.rows.len(),
            forall|i: int| 0 <= i < rows@.len() ==> (#[trigger] rows@[i])@ == self@.service_envs.rows[i],
    {
        self.service_envs.rows()
    }

    /// The packages, in the order in which they were inserted.
    pub fn packages(&self) -> (rows: &Vec<Package>)
        ensures
            rows@.len() == self@.packages.rows.len(),
            forall|i: int| 0 <= i < rows@.len() ==> (#[trigger] rows@[i])@ == self@.packages.rows[i],
    {
        self.packages.rows()
    }

    /// The package environments, in the order in which they were inserted.
    pub fn package_envs(&self) -> (rows: &Vec<Package_Env>)
        ensures
            rows@.len() == self@.package_envs.rows.len(),
            forall|i: int| 0 <= i < rows@.len() ==> (#[trigger] rows@[i])@ == self@.package_envs.rows[i],
    {
        self.package_envs.rows()
    }

    /// The organizations, in the order in which they were inserted.
    pub fn organizations(&self) -> (rows: &Vec<Organization>)
        ensures
            rows@.len() == self@.organizations.rows.len(),
            forall|i: int| 0 <= i < rows@.len() ==> (#[trigger] rows@[i])@ == self@.organizations.rows[i],
    {
        self.organizations.rows()
    }

    /// The snapshots, in the order in which they were inserted.
    pub fn snapshots(&self) -> (rows: &Vec<Snapshots>)
        ensures
            rows@.len() == self@.snapshots.rows.len(),
            forall|i: int| 0 <= i < rows@.len() ==> (#[trigger] rows@[i])@ == self@.snapshots.rows[i],
    {
        self.snapshots.rows()
    }

    /// The schema with the given external identifier.
    pub fn find_dbschema(&self, identifier: &str) -> (r: Option<usize>)
        ensures
            located(self@.dbschemas.rows, dbschema_identified(identifier@), r),
    {
        let rows = self.dbschemas.rows();
        let ghost p = dbschema_identified(identifier@);
        let ghost held = self@.dbschemas.rows;
        let mut i: usize = 0;
        while i < rows.len()
            invariant
                i <= rows.len(),
                held == self@.dbschemas.rows,
                rows@.len() == held.len(),
                forall|j: int| 0 <= j < rows@.len() ==> (#[trigger] rows@[j])@ == held[j],
                p == dbschema_identified(identifier@),
                forall|j: int| 0 <= j < i ==> !p(#[trigger] held[j]),
            decreases rows.len() - i,
        {
            proof {
                assert(rows@[i as int]@ == held[i as int]);
            }
            if opt_is(&rows[i].identifier, identifier) {
                proof {
                    lemma_first_is(held, p, i as int);
                }
                return Some(i);
            }
            i += 1;
        }
        proof {
            lemma_first_none(held, p);
        }
        None
    }

    /// The schema of an organization with the given external identifier.
    pub fn find_dbschema_in(&self, identifier: &str, org: &str) -> (r: Option<usize>)
        ensures
            located(self@.dbschemas.rows, dbschema_identified_in(identifier@, org@), r),
    {
        let rows = self.dbschemas.rows();
        let ghost p = dbschema_identified_in(identifier@, org@);
        let ghost held = self@.dbschemas.rows;
        let mut i: usize = 0;
        while i < rows.len()
            invariant
                i <= rows.len(),
                held == self@.dbschemas.rows,
                rows@.len() == held.len(),
                forall|j: int| 0 <= j < rows@.len() ==> (#[trigger] rows@[j])@ == held[j],
                p == dbschema_identified_in(identifier@, org@),
                forall|j: int| 0 <= j < i ==> !p(#[trigger] held[j]),
            decreases rows.len() - i,
        {
            proof {
                assert(rows@[i as int]@ == held[i as int]);
            }
            if opt_is(&rows[i].identifier, identifier) && opt_is(&rows[i].organization_id, org) {
                proof {
                    lemma_first_is(held, p, i as int);
                }
                return Some(i);
            }
            i += 1;
        }
        proof {
            lemma_first_none(held, p);
        }
        None
    }

    /// The schema of an organization with the given name.
    pub fn find_dbschema_named(&self, name: &str, org: &str) -> (r: Option<usize>)
        ensures
            located(self@.dbschemas.rows, dbschema_named_in(name@, org@), r),
    {
        let rows = self.dbschemas.rows();
        let ghost p = dbschema_named_in(name@, org@);
        let ghost held = self@.dbschemas.rows;
        let mut i: usize = 0;
        while i < rows.len()
            invariant
                i <= rows.len(),
                held == self@.dbschemas.rows,
                rows@.len() == held.len(),
                forall|j: int| 0 <= j < rows@.len() ==> (#[trigger] rows@[j])@ == held[j],
                p == dbschema_named_in(name@, org@),
                forall|j: int| 0 <= j < i ==> !p(#[trigger] held[j]),
            decreases rows.len() - i,
        {
            proof {
                assert(rows@[i as int]@ == held[i as int]);
            }
            if same_text(rows[i].name.as_str(), name) && opt_is(&rows[i].organization_id, org) {
                proof {
                    lemma_first_is(held, p, i as int);
                }
                return Some(i);
            }
            i += 1;
        }
        proof {
            lemma_first_none(held, p);
        }
        None
    }

    /// The branch of a schema with the given name.
    pub fn find_branch(&self, parent_id: i64, name: &str) -> (r: Option<usize>)
        ensures
            located(self@.dbschema_branches.rows, branch_at(parent_id, name@), r),
    {
        let rows = self.dbschema_branches.rows();
        let ghost p = branch_at(parent_id, name@);
        let ghost held = self@.dbschema_branches.rows;
        let mut i: usize = 0;
        while i < rows.len()
            invariant
                i <= rows.len(),
                held == self@.dbschema_branches.rows,
                rows@.len() == held.len(),
                forall|j: int| 0 <= j < rows@.len() ==> (#[trigger] rows@[j])@ == held[j],
                p == branch_at(parent_id, name@),
                forall|j: int| 0 <= j < i ==> !p(#[trigger] held[j]),
            decreases rows.len() - i,
        {
            proof {
                assert(rows@[i as int]@ == held[i as int]);
            }
            if rows[i].parent_id == parent_id && same_text(rows[i].branch_name.as_str(), name) {
                proof {
                    lemma_first_is(held, p, i as int);
                }
                return Some(i);
            }
            i += 1;
        }
        proof {
            lemma_first_none(held, p);
        }
        None
    }

    /// The branch with the given id, if it belongs to the given schema.
    pub fn find_branch_by_id(&self, id: i64, parent_id: i64) -> (r: Option<usize>)
        ensures
            located(self@.dbschema_branches.rows, branch_under(id, parent_id), r),
    {
        let rows = self.dbschema_branches.rows();
        let ghost p = branch_under(id, parent_id);
        let ghost held = self@.dbschema_branches.rows;
        let mut i: usize = 0;
        while i < rows.len()
            invariant
                i <= rows.len(),
                held == self@.dbschema_branches.rows,
                rows@.len() == held.len(),
                forall|j: int| 0 <= j < rows@.len() ==> (#[trigger] rows@[j])@ == held[j],
                p == branch_under(id, parent_id),
                forall|j: int| 0 <= j < i ==> !p(#[trigger] held[j]),
            decreases rows.len() - i,
        {
            proof {
                assert(rows@[i as int]@ == held[i as int]);
            }
            if rows[i].id == id && rows[i].parent_id == parent_id {
                proof {
                    lemma_first_is(held, p, i as int);
                }
                return Some(i);
            }
            i += 1;
        }
        proof {
            lemma_first_none(held, p);
        }
        None
    }

    /// The service with the given identifier.
    pub fn find_service(&self, identifier: &str) -> (r: Option<usize>)
        ensures
            located(self@.services.rows, service_identified(identifier@), r),
    {
        let rows = self.services.rows();
        let ghost p = service_identified(identifier@);
        let ghost held = self@.services.rows;
        let mut i: usize = 0;
        while i < rows.len()
            invariant
                i <= rows.len(),
                held == self@.services.rows,
                rows@.len() == held.len(),
                forall|j: int| 0 <= j < rows@.len() ==> (#[trigger] rows@[j])@ == held[j],
                p == service_identified(identifier@),
                forall|j: int| 0 <= j < i ==> !p(#[trigger] held[j]),
            decreases rows.len() - i,
        {
            proof {
                assert(rows@[i as int]@ == held[i as int]);
            }
            if same_text(rows[i].identifier.as_str(), identifier) {
                proof {
                    lemma_first_is(held, p, i as int);
                }
                return Some(i);
            }
            i += 1;
        }
        proof {
            lemma_first_none(held, p);
        }
        None
    }

    /// The service of an organization with the given identifier.
    pub fn find_service_in(&self, identifier: &str, org: &str) -> (r: Option<usize>)
        ensures
            located(self@.services.rows, service_identified_in(identifier@, org@), r),
    {
        let rows = self.services.rows();
        let ghost p = service_identified_in(identifier@, org@);
        let ghost held = self@.services.rows;
        let mut i: usize = 0;
        while i < rows.len()
            invariant
                i <= rows.len(),
                held == self@.services.rows,
                rows@.len() == held.len(),
                forall|j: int| 0 <= j < rows@.len() ==> (#[trigger] rows@[j])@ == held[j],
                p == service_identified_in(identifier@, org@),
                forall|j: int| 0 <= j < i ==> !p(#[trigger] held[j]),
            decreases rows.len() - i,
        {
            proof {
                assert(rows@[i as int]@ == held[i as int]);
            }
            if same_text(rows[i].identifier.as_str(), identifier) && opt_is(&rows[i].organization_id, org) {
                proof {
                    lemma_first_is(held, p, i as int);
                }
                return Some(i);
            }
            i += 1;
        }
        proof {
            lemma_first_none(held, p);
        }
        None
    }

    /// The row of a service for an environment.
    pub fn find_service_env(&self, parent_id: i64, env: &str) -> (r: Option<usize>)
        ensures
            located(self@.service_envs.rows, service_env_at(parent_id, env@), r),
    {
        let rows = self.service_envs.rows();
        let ghost p = service_env_at(parent_id, env@);
        let ghost held = self@.service_envs.rows;
        let mut i: usize = 0;
        while i < rows.len()
            invariant
                i <= rows.len(),
                held == self@.service_envs.rows,
                rows@.len() == held.len(),
                forall|j: int| 0 <= j < rows@.len() ==> (#[trigger] rows@[j])@ == held[j],
                p == service_env_at(parent_id, env@),
                forall|j: int| 0 <= j < i ==> !p(#[trigger] held[j]),
            decreases rows.len() - i,
        {
            proof {
                assert(rows@[i as int]@ == held[i as int]);
            }
            if rows[i].parent_id == parent_id && same_text(rows[i].env.as_str(), env) {
                proof {
                    lemma_first_is(held, p, i as int);
                }
                return Some(i);
            }
            i += 1;
        }
        proof {
            lemma_first_none(held, p);
        }
        None
    }

    /// The package with the given identifier.
    pub fn find_package(&self, identifier: &str) -> (r: Option<usize>)
        ensures
            located(self@.packages.rows, package_identified(identifier@), r),
    {
        let rows = self.packages.rows();
        let ghost p = package_identified(identifier@);
        let ghost held = self@.packages.rows;
        let mut i: usize = 0;
        while i < rows.len()
            invariant
                i <= rows.len(),
                held == self@.packages.rows,
                rows@.len() == held.len(),
                forall|j: int| 0 <= j < rows@.len() ==> (#[trigger] rows@[j])@ == held[j],
                p == package_identified(identifier@),
                forall|j: int| 0 <= j < i ==> !p(#[trigger] held[j]),
            decreases rows.len() - i,
        {
            proof {
                assert(rows@[i as int]@ == held[i as int]);
            }
            if same_text(rows[i].identifier.as_str(), identifier) {
                proof {
                    lemma_first_is(held, p, i as int);
                }
                return Some(i);
            }
            i += 1;
        }
        proof {
            lemma_first_none(held, p);
        }
        None
    }

    /// The package of an organization with the given identifier.
    pub fn find_package_in(&self, identifier: &str, org: &str) -> (r: Option<usize>)
        ensures
            located(self@.packages.rows, package_identified_in(identifier@, org@), r),
    {
        let rows = self.packages.rows();
        let ghost p = package_identified_in(identifier@, org@);
        let ghost held = self@.packages.rows;
        let mut i: usize = 0;
        while i < rows.len()
            invariant
                i <= rows.len(),
                held == self@.packages.rows,
                rows@.len() == held.len(),
                forall|j: int| 0 <= j < rows@.len() ==> (#[trigger] rows@[j])@ == held[j],
                p == package_identified_in(identifier@, org@),
                forall|j: int| 0 <= j < i ==> !p(#[trigger] held[j]),
            decreases rows.len() - i,
        {
            proof {
                assert(rows@[i as int]@ == held[i as int]);
            }
            if same_text(rows[i].identifier.as_str(), identifier) && opt_is(&rows[i].organization_id, org) {
                proof {
                    lemma_first_is(held, p, i as int);
                }
                return Some(i);
            }
            i += 1;
        }
        proof {
            lemma_first_none(held, p);
        }
        None
    }

    /// The row of a package for an environment.
    pub fn find_package_env(&self, parent_id: i64, env: &str) -> (r: Option<usize>)
        ensures
            located(self@.package_envs.rows, package_env_at(parent_id, env@), r),
    {
        let rows = self.package_envs.rows();
        let ghost p = package_env_at(parent_id, env@);
        let ghost held = self@.package_envs.rows;
        let mut i: usize = 0;
        while i < rows.len()
            invariant
                i <= rows.len(),
                held == self@.package_envs.rows,
                rows@.len() == held.len(),
                forall|j: int| 0 <= j < rows@.len() ==> (#[trigger] rows@[j])@ == held[j],
                p == package_env_at(parent_id, env@),
                forall|j: int| 0 <= j < i ==> !p(#[trigger] held[j]),
            decreases rows.len() - i,
        {
            proof {
                assert(rows@[i as int]@ == held[i as int]);
            }
            if rows[i].parent_id == parent_id && same_text(rows[i].env.as_str(), env) {
                proof {
                    lemma_first_is(held, p, i as int);
                }
                return Some(i);
            }
            i += 1;
        }
        proof {
            lemma_first_none(held, p);
        }
        None
    }

    /// The organization with the given slug.
    pub fn find_organization(&self, slug: &str) -> (r: Option<usize>)
        ensures
            located(self@.organizations.rows, organization_slugged(slug@), r),
    {
        let rows = self.organizations.rows();
        let ghost p = organization_slugged(slug@);
        let ghost held = self@.organizations.rows;
        let mut i: usize = 0;
        while i < rows.len()
            invariant
                i <= rows.len(),
                held == self@.organizations.rows,
                rows@.len() == held.len(),
                forall|j: int| 0 <= j < rows@.len() ==> (#[trigger] rows@[j])@ == held[j],
                p == organization_slugged(slug@),
                forall|j: int| 0 <= j < i ==> !p(#[trigger] held[j]),
            decreases rows.len() - i,
        {
            proof {
                assert(rows@[i as int]@ == held[i as int]);
            }
            if same_text(rows[i].slug.as_str(), slug) {
                proof {
                    lemma_first_is(held, p, i as int);
                }
                return Some(i);
            }
            i += 1;
        }
        proof {
            lemma_first_none(held, p);
        }
        None
    }

    /// The organization that the given group backs.
    pub fn find_organization_of_group(&self, group_id: &str) -> (r: Option<usize>)
        ensures
            located(self@.organizations.rows, organization_grouped(group_id@), r),
    {
        let rows = self.organizations.rows();
        let ghost p = organization_grouped(group_id@);
        let ghost held = self@.organizations.rows;
        let mut i: usize = 0;
        while i < rows.len()
            invariant
                i <= rows.len(),
                held == self@.organizations.rows,
                rows@.len() == held.len(),
                forall|j: int| 0 <= j < rows@.len() ==> (#[trigger] rows@[j])@ == held[j],
                p == organization_grouped(group_id@),
                forall|j: int| 0 <= j < i ==> !p(#[trigger] held[j]),
            decreases rows.len() - i,
        {
            proof {
                assert(rows@[i as int]@ == held[i as int]);
            }
            if same_text(rows[i].group_id.as_str(), group_id) {
                proof {
                    lemma_first_is(held, p, i as int);
                }
                return Some(i);
            }
            i += 1;
        }
        proof {
            lemma_first_none(held, p);
        }
        None
    }

    /// The organization with the given slug, if one of the given groups backs it.
    pub fn find_organization_owned(&self, slug: &str, groups: &Vec<String>) -> (r: Option<usize>)
        ensures
            located(self@.organizations.rows, organization_owned(slug@, groups@), r),
    {
        let rows = self.organizations.rows();
        let ghost p = organization_owned(slug@, groups@);
        let ghost held = self@.organizations.rows;
        let mut i: usize = 0;
        while i < rows.len()
            invariant
                i <= rows.len(),
                held == self@.organizations.rows,
                rows@.len() == held.len(),
                forall|j: int| 0 <= j < rows@.len() ==> (#[trigger] rows@[j])@ == held[j],
                p == organization_owned(slug@, groups@),
                forall|j: int| 0 <= j < i ==> !p(#[trigger] held[j]),
            decreases rows.len() - i,
        {
            proof {
                assert(rows@[i as int]@ == held[i as int]);
            }
            if same_text(rows[i].slug.as_str(), slug) && contains_text(groups, rows[i].group_id.as_str()) {
                proof {
                    lemma_first_is(held, p, i as int);
                }
                return Some(i);
            }
            i += 1;
        }
        proof {
            lemma_first_none(held, p);
        }
        None
    }

    /// Stores a new schema and returns its id. An external identifier names one
    /// schema at most: a second schema with one that is taken is a conflict.
    pub fn insert_dbschema(&mut self, record: DbschemaInsertable) -> (r: Result<i64, RegistryError>)
        requires
            old(self)@.wf(),
        ensures
            final(self)@.wf(),
            match old(self)@.insert_dbschema_error(record@) {
                Some(kind) => r matches Err(e) && e.kind == kind && final(self)@ == old(self)@,
                None => {
                    &&& r == Ok::<i64, RegistryError>(old(self)@.dbschemas.next_id)
                    &&& final(self)@ == old(self)@.with_dbschemas(
                        old(self)@.dbschemas.appended(
                            dbschema_row(record@, old(self)@.dbschemas.next_id),
                        ),
                    )
                },
            },
    {
        let taken = match &record.identifier {
            Some(identifier) => self.find_dbschema(identifier.as_str()).is_some(),
            None => false,
        };
        if taken {
            return Err(RegistryError::new(ErrorKind::Conflict, "a row with this key already exists"));
        }
        if !self.dbschemas.has_room() {
            return Err(RegistryError::new(ErrorKind::StoreUnavailable, "the table is full"));
        }
        let id = self.dbschemas.next_id();
        let row = Dbschema {
            name: record.name,
            description: record.description,
            created_at: record.created_at,
            updated_at: record.updated_at,
            data: record.data,
            group_id: record.group_id,
            identifier: record.identifier,
            organization_id: record.organization_id,
            repo_origin: record.repo_origin,
            db_type: record.db_type,
            quick_links: record.quick_links,
            id,
        };
        proof {
            let before = self@.dbschemas;
            assert forall|k: int| 0 <= k < self@.dbschema_branches.rows.len() implies before.appended(
                row@,
            ).holds_id((#[trigger] self@.dbschema_branches.rows[k]).parent_id) by {
                before.lemma_holds_id_appended(row@, self@.dbschema_branches.rows[k].parent_id);
            }
        }
        self.dbschemas.append(row);
        Ok(id)
    }

    /// Stores a new branch and returns its id. The schema of the branch must
    /// exist. A schema has one branch of a name at most: a second one is a
    /// conflict.
    pub fn insert_dbschema_branch(&mut self, record: Dbschema_BranchInsertable) -> (r: Result<i64, RegistryError>)
        requires
            old(self)@.wf(),
        ensures
            final(self)@.wf(),
            match old(self)@.insert_dbschema_branch_error(record@) {
                Some(kind) => r matches Err(e) && e.kind == kind && final(self)@ == old(self)@,
                None => {
                    &&& r == Ok::<i64, RegistryError>(old(self)@.dbschema_branches.next_id)
                    &&& final(self)@ == old(self)@.with_dbschema_branches(
                        old(self)@.dbschema_branches.appended(
                            branch_row(record@, old(self)@.dbschema_branches.next_id),
                        ),
                    )
                },
            },
    {
        if self.dbschemas.index_of(record.parent_id).is_none() {
            return Err(RegistryError::new(ErrorKind::NotFound, "the parent row does not exist"));
        }
        if self.find_branch(record.parent_id, record.branch_name.as_str()).is_some() {
            return Err(RegistryError::new(ErrorKind::Conflict, "a row with this key already exists"));
        }
        if !self.dbschema_branches.has_room() {
            return Err(RegistryError::new(ErrorKind::StoreUnavailable, "the table is full"));
        }
        let id = self.dbschema_branches.next_id();
        let row = Dbschema_Branch {
            parent_id: record.parent_id,
            branch_name: record.branch_name,
            data: record.data,
            created_at: record.created_at,
            updated_at: record.updated_at,
            version: record.version,
            pipeline_status: record.pipeline_status,
            id,
        };
        proof {
            self@.dbschemas.lemma_position_holds(record@.parent_id);
        }
        self.dbschema_branches.append(row);
        Ok(id)
    }

    /// Stores a new template and returns its id.
    pub fn insert_template(&mut self, record: TemplatesInsertable) -> (r: Result<i64, RegistryError>)
        requires
            old(self)@.wf(),
        ensures
            final(self)@.wf(),
            match old(self)@.insert_template_error(record@) {
                Some(kind) => r matches Err(e) && e.kind == kind && final(self)@ == old(self)@,
                None => {
                    &&& r == Ok::<i64, RegistryError>(old(self)@.templates.next_id)
                    &&& final(self)@ == old(self)@.with_templates(
                        old(self)@.templates.appended(
                            template_row(record@, old(self)@.templates.next_id),
                        ),
                    )
                },
            },
    {
        if !self.templates.has_room() {
            return Err(RegistryError::new(ErrorKind::StoreUnavailable, "the table is full"));
        }
        let id = self.templates.next_id();
        let row = Templates {
            short_name: record.short_name,
            description: record.description,
            repo_link: record.repo_link,
            identifier: record.identifier,
            id,
        };
        self.templates.append(row);
        Ok(id)
    }

    /// Stores a new service and returns its id.
    pub fn insert_service(&mut self, record: ServiceInsertable) -> (r: Result<i64, RegistryError>)
        requires
            old(self)@.wf(),
        ensures
            final(self)@.wf(),
            match old(self)@.insert_service_error(record@) {
                Some(kind) => r matches Err(e) && e.kind == kind && final(self)@ == old(self)@,
                None => {
                    &&& r == Ok::<i64, RegistryError>(old(self)@.services.next_id)
                    &&& final(self)@ == old(self)@.with_services(
                        old(self)@.services.appended(
                            service_row(record@, old(self)@.services.next_id),
                        ),
                    )
                },
            },
    {
        if !self.services.has_room() {
            return Err(RegistryError::new(ErrorKind::StoreUnavailable, "the table is full"));
        }
        let id = self.services.next_id();
        let row = Service {
            identifier: record.identifier,
            group_id: record.group_id,
            db_schema_id: record.db_schema_id,
            tables_json: record.tables_json,
            dependencies_json: record.dependencies_json,
            service_type: record.service_type,
            lang: record.lang,
            description: record.description,
            organization_id: record.organization_id,
            repo_origin: record.repo_origin,
            cache_schema_id: record.cache_schema_id,
            message_queue_schema_id: record.message_queue_schema_id,
            quick_links: record.quick_links,
            id,
        };
        proof {
            let before = self@.services;
            assert forall|k: int| 0 <= k < self@.service_envs.rows.len() implies before.appended(
                row@,
            ).holds_id((#[trigger] self@.service_envs.rows[k]).parent_id) by {
                before.lemma_holds_id_appended(row@, self@.service_envs.rows[k].parent_id);
            }
        }
        self.services.append(row);
        Ok(id)
    }

    /// Stores a new environment of a service and returns its id. The service
    /// must exist. A service has one row for an environment at most: a second
    /// one is a conflict.
    pub fn insert_service_env(&mut self, record: Service_EnvsInsertable) -> (r: Result<i64, RegistryError>)
        requires
            old(self)@.wf(),
        ensures
            final(self)@.wf(),
            match old(self)@.insert_service_env_error(record@) {
                Some(kind) => r matches Err(e) && e.kind == kind && final(self)@ == old(self)@,
                None => {
                    &&& r == Ok::<i64, RegistryError>(old(self)@.service_envs.next_id)
                    &&& final(self)@ == old(self)@.with_service_envs(
                        old(self)@.service_envs.appended(
                            service_env_row(record@, old(self)@.service_envs.next_id),
                        ),
                    )
                },
            },
    {
        if self.services.index_of(record.parent_id).is_none() {
            return Err(RegistryError::new(ErrorKind::NotFound, "the parent row does not exist"));
        }
        if self.find_service_env(record.parent_id, record.env.as_str()).is_some() {
            return Err(RegistryError::new(ErrorKind::Conflict, "a row with this key already exists"));
        }
        if !self.service_envs.has_room() {
            return Err(RegistryError::new(ErrorKind::StoreUnavailable, "the table is full"));
        }
        let id = self.service_envs.next_id();
        let row = Service_Envs {
            parent_id: record.parent_id,
            spec: record.spec,
            env: record.env,
            base_url: record.base_url,
            base_url_ws: record.base_url_ws,
            updated_at: record.updated_at,
            version: record.version,
            pipeline_status: record.pipeline_status,
            id,
        };
        proof {
            self@.services.lemma_position_holds(record@.parent_id);
        }
        self.service_envs.append(row);
        Ok(id)
    }

    /// Stores a new package and returns its id.
    pub fn insert_package(&mut self, record: PackageInsertable) -> (r: Result<i64, RegistryError>)
        requires
            old(self)@.wf(),
        ensures
            final(self)@.wf(),
            match old(self)@.insert_package_error(record@) {
                Some(kind) => r matches Err(e) && e.kind == kind && final(self)@ == old(self)@,
                None => {
                    &&& r == Ok::<i64, RegistryError>(old(self)@.packages.next_id)
                    &&& final(self)@ == old(self)@.with_packages(
                        old(self)@.packages.appended(
                            package_row(record@, old(self)@.packages.next_id),
                        ),
                    )
                },
            },
    {
        if !self.packages.has_room() {
            return Err(RegistryError::new(ErrorKind::StoreUnavailable, "the table is full"));
        }
        let id = self.packages.next_id();
        let row = Package {
            identifier: record.identifier,
            package_type: record.package_type,
            lang: record.lang,
            group_id: record.group_id,
            updated_at: record.updated_at,
            created_at: record.created_at,
            organization_id: record.organization_id,
            description: record.description,
            dependencies_json: record.dependencies_json,
            repo_origin: record.repo_origin,
            quick_links: record.quick_links,
            id,
        };
        proof {
            let before = self@.packages;
            assert forall|k: int| 0 <= k < self@.package_envs.rows.len() implies before.appended(
                row@,
            ).holds_id((#[trigger] self@.package_envs.rows[k]).parent_id) by {
                before.lemma_holds_id_appended(row@, self@.package_envs.rows[k].parent_id);
            }
        }
        self.packages.append(row);
        Ok(id)
    }

    /// Stores a new environment of a package and returns its id. The package
    /// must exist. A package has one row for an environment at most: a second
    /// one is a conflict.
    pub fn insert_package_env(&mut self, record: Package_EnvInsertable) -> (r: Result<i64, RegistryError>)
        requires
            old(self)@.wf(),
        ensures
            final(self)@.wf(),
            match old(self)@.insert_package_env_error(record@) {
                Some(kind) => r matches Err(e) && e.kind == kind && final(self)@ == old(self)@,
                None => {
                    &&& r == Ok::<i64, RegistryError>(old(self)@.package_envs.next_id)
                    &&& final(self)@ == old(self)@.with_package_envs(
                        old(self)@.package_envs.appended(
                            package_env_row(record@, old(self)@.package_envs.next_id),
                        ),
                    )
                },
            },
    {
        if self.packages.index_of(record.parent_id).is_none() {
            return Err(RegistryError::new(ErrorKind::NotFound, "the parent row does not exist"));
        }
        if self.find_package_env(record.parent_id, record.env.as_str()).is_some() {
            return Err(RegistryError::new(ErrorKind::Conflict, "a row with this key already exists"));
        }
        if !self.package_envs.has_room() {
            return Err(RegistryError::new(ErrorKind::StoreUnavailable, "the table is full"));
        }
        let id = self.package_envs.next_id();
        let row = Package_Env {
            version: record.version,
            env: record.env,
            parent_id: record.parent_id,
            pipeline_status: record.pipeline_status,
            id,
        };
        proof {
            self@.packages.lemma_position_holds(record@.parent_id);
        }
        self.package_envs.append(row);
        Ok(id)
    }

    /// Stores a new organization and returns its id. A slug names one
    /// organization at most: a second one is a conflict.
    pub fn insert_organization(&mut self, record: OrganizationInsertable) -> (r: Result<i64, RegistryError>)
        requires
            old(self)@.wf(),
        ensures
            final(self)@.wf(),
            match old(self)@.insert_organization_error(record@) {
                Some(kind) => r matches Err(e) && e.kind == kind && final(self)@ == old(self)@,
                None => {
                    &&& r == Ok::<i64, RegistryError>(old(self)@.organizations.next_id)
                    &&& final(self)@ == old(self)@.with_organizations(
                        old(self)@.organizations.appended(
                            organization_row(record@, old(self)@.organizations.next_id),
                        ),
                    )
                },
            },
    {
        if self.find_organization(record.slug.as_str()).is_some() {
            return Err(RegistryError::new(ErrorKind::Conflict, "a row with this key already exists"));
        }
        if !self.organizations.has_room() {
            return Err(RegistryError::new(ErrorKind::StoreUnavailable, "the table is full"));
        }
        let id = self.organizations.next_id();
        let row = Organization {
            slug: record.slug,
            group_id: record.group_id,
            is_active: record.is_active,
            blocks_positions: record.blocks_positions,
            name: record.name,
            is_public: record.is_public,
            infra_repo_origin: record.infra_repo_origin,
            quick_links: record.quick_links,
            version: record.version,
            id,
        };
        self.organizations.append(row);
        Ok(id)
    }

    /// Stores a new snapshot and returns its id.
    pub fn insert_snapshot(&mut self, record: SnapshotsInsertable) -> (r: Result<i64, RegistryError>)
        requires
            old(self)@.wf(),
        ensures
            final(self)@.wf(),
            match old(self)@.insert_snapshot_error(record@) {
                Some(kind) => r matches Err(e) && e.kind == kind && final(self)@ == old(self)@,
                None => {
                    &&& r == Ok::<i64, RegistryError>(old(self)@.snapshots.next_id)
                    &&& final(self)@ == old(self)@.with_snapshots(
                        old(self)@.snapshots.appended(
                            snapshot_row(record@, old(self)@.snapshots.next_id),
                        ),
                    )
                },
            },
    {
        if !self.snapshots.has_room() {
            return Err(RegistryError::new(ErrorKind::StoreUnavailable, "the table is full"));
        }
        let id = self.snapshots.next_id();
        let row = Snapshots {
            version: record.version,
            created_at: record.created_at,
            updated_at: record.updated_at,
            organization_id: record.organization_id,
            id,
        };
        self.snapshots.append(row);
        Ok(id)
    }
}

} // verus!
