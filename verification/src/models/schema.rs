//! The rows of the store, one type per table, and for each the record
//! from which a row is made: the same fields without the `id`, which the
//! store assigns.

#![allow(non_camel_case_types)]

use vstd::prelude::*;
use crate::text::opt_text;
use crate::clock::Timestamp;

verus! {

/// A database schema. `data` is its default definition, a JSON text.
#[derive(Clone, Debug, PartialEq, Eq)]
pub struct Dbschema {
    pub name: String,
    pub description: Option<String>,
    pub created_at: Timestamp,
    pub updated_at: Timestamp,
    pub data: Option<String>,
    pub group_id: Option<String>,
    pub identifier: Option<String>,
    pub organization_id: Option<String>,
    pub repo_origin: Option<String>,
    pub db_type: String,
    pub quick_links: Option<String>,
    pub id: i64,
}

/// What a `Dbschema` holds.
pub struct DbschemaView {
    pub name: Seq<char>,
    pub description: Option<Seq<char>>,
    pub created_at: Timestamp,
    pub updated_at: Timestamp,
    pub data: Option<Seq<char>>,
    pub group_id: Option<Seq<char>>,
    pub identifier: Option<Seq<char>>,
    pub organization_id: Option<Seq<char>>,
    pub repo_origin: Option<Seq<char>>,
    pub db_type: Seq<char>,
    pub quick_links: Option<Seq<char>>,
    pub id: i64,
}

impl View for Dbschema {
    type V = DbschemaView;

    open spec fn view(&self) -> DbschemaView {
        DbschemaView {
            name: self.name@,
            description: opt_text(self.description),
            created_at: self.created_at,
            updated_at: self.updated_at,
            data: opt_text(self.data),
            group_id: opt_text(self.group_id),
            identifier: opt_text(self.identifier),
            organization_id: opt_text(self.organization_id),
            repo_origin: opt_text(self.repo_origin),
            db_type: self.db_type@,
            quick_links: opt_text(self.quick_links),
            id: self.id,
        }
    }
}

/// A branch of a database schema: a named override of its definition.
/// There is at most one branch of a name for a schema.
#[derive(Clone, Debug, PartialEq, Eq)]
pub struct Dbschema_Branch {
    pub parent_id: i64,
    pub branch_name: String,
    pub data: Option<String>,
    pub created_at: Timestamp,
    pub updated_at: Timestamp,
    pub version: Option<String>,
    pub pipeline_status: Option<String>,
    pub id: i64,
}

/// What a `Dbschema_Branch` holds.
pub struct Dbschema_BranchView {
    pub parent_id: i64,
    pub branch_name: Seq<char>,
    pub data: Option<Seq<char>>,
    pub created_at: Timestamp,
    pub updated_at: Timestamp,
    pub version: Option<Seq<char>>,
    pub pipeline_status: Option<Seq<char>>,
    pub id: i64,
}

impl View for Dbschema_Branch {
    type V = Dbschema_BranchView;

    open spec fn view(&self) -> Dbschema_BranchView {
        Dbschema_BranchView {
            parent_id: self.parent_id,
            branch_name: self.branch_name@,
            data: opt_text(self.data),
            created_at: self.created_at,
            updated_at: self.updated_at,
            version: opt_text(self.version),
            pipeline_status: opt_text(self.pipeline_status),
            id: self.id,
        }
    }
}

/// An entry of the template catalog.
#[derive(Clone, Debug, PartialEq, Eq)]
pub struct Templates {
    pub short_name: String,
    pub description: String,
    pub repo_link: String,
    pub identifier: String,
    pub id: i64,
}

/// What a `Templates` holds.
pub struct TemplatesView {
    pub short_name: Seq<char>,
    pub description: Seq<char>,
    pub repo_link: Seq<char>,
    pub identifier: Seq<char>,
    pub id: i64,
}

impl View for Templates {
    type V = TemplatesView;

    open spec fn view(&self) -> TemplatesView {
        TemplatesView {
            short_name: self.short_name@,
            description: self.description@,
            repo_link: self.repo_link@,
            identifier: self.identifier@,
            id: self.id,
        }
    }
}

/// A service. `tables_json` and `dependencies_json` are JSON arrays of
/// strings, kept as text.
#[derive(Clone, Debug, PartialEq, Eq)]
pub struct Service {
    pub identifier: String,
    pub group_id: Option<String>,
    pub db_schema_id: Option<String>,
    pub tables_json: Option<String>,
    pub dependencies_json: Option<String>,
    pub service_type: String,
    pub lang: Option<String>,
    pub description: Option<String>,
    pub organization_id: Option<String>,
    pub repo_origin: Option<String>,
    pub cache_schema_id: Option<String>,
    pub message_queue_schema_id: Option<String>,
    pub quick_links: Option<String>,
    pub id: i64,
}

/// What a `Service` holds.
pub struct ServiceView {
    pub identifier: Seq<char>,
    pub group_id: Option<Seq<char>>,
    pub db_schema_id: Option<Seq<char>>,
    pub tables_json: Option<Seq<char>>,
    pub dependencies_json: Option<Seq<char>>,
    pub service_type: Seq<char>,
    pub lang: Option<Seq<char>>,
    pub description: Option<Seq<char>>,
    pub organization_id: Option<Seq<char>>,
    pub repo_origin: Option<Seq<char>>,
    pub cache_schema_id: Option<Seq<char>>,
    pub message_queue_schema_id: Option<Seq<char>>,
    pub quick_links: Option<Seq<char>>,
    pub id: i64,
}

impl View for Service {
    type V = ServiceView;

    open spec fn view(&self) -> ServiceView {
        ServiceView {
            identifier: self.identifier@,
            group_id: opt_text(self.group_id),
            db_schema_id: opt_text(self.db_schema_id),
            tables_json: opt_text(self.tables_json),
            dependencies_json: opt_text(self.dependencies_json),
            service_type: self.service_type@,
            lang: opt_text(self.lang),
            description: opt_text(self.description),
            organization_id: opt_text(self.organization_id),
            repo_origin: opt_text(self.repo_origin),
            cache_schema_id: opt_text(self.cache_schema_id),
            message_queue_schema_id: opt_text(self.message_queue_schema_id),
            quick_links: opt_text(self.quick_links),
            id: self.id,
        }
    }
}

/// A service in one environment. There is at most one row of an
/// environment for a service.
#[derive(Clone, Debug, PartialEq, Eq)]
pub struct Service_Envs {
    pub parent_id: i64,
    pub spec: String,
    pub env: String,
    pub base_url: String,
    pub base_url_ws: Option<String>,
    pub updated_at: Option<Timestamp>,
    pub version: String,
    pub pipeline_status: Option<String>,
    pub id: i64,
}

/// What a `Service_Envs` holds.
pub struct Service_EnvsView {
    pub parent_id: i64,
    pub spec: Seq<char>,
    pub env: Seq<char>,
    pub base_url: Seq<char>,
    pub base_url_ws: Option<Seq<char>>,
    pub updated_at: Option<Timestamp>,
    pub version: Seq<char>,
    pub pipeline_status: Option<Seq<char>>,
    pub id: i64,
}

impl View for Service_Envs {
    type V = Service_EnvsView;

    open spec fn view(&self) -> Service_EnvsView {
        Service_EnvsView {
            parent_id: self.parent_id,
            spec: self.spec@,
            env: self.env@,
            base_url: self.base_url@,
            base_url_ws: opt_text(self.base_url_ws),
            updated_at: self.updated_at,
            version: self.version@,
            pipeline_status: opt_text(self.pipeline_status),
            id: self.id,
        }
    }
}

/// A package. `dependencies_json` is a JSON array of strings, kept as text.
#[derive(Clone, Debug, PartialEq, Eq)]
pub struct Package {
    pub identifier: String,
    pub package_type: String,
    pub lang: String,
    pub group_id: Option<String>,
    pub updated_at: Timestamp,
    pub created_at: Option<Timestamp>,
    pub organization_id: Option<String>,
    pub description: Option<String>,
    pub dependencies_json: Option<String>,
    pub repo_origin: Option<String>,
    pub quick_links: Option<String>,
    pub id: i64,
}

/// What a `Package` holds.
pub struct PackageView {
    pub identifier: Seq<char>,
    pub package_type: Seq<char>,
    pub lang: Seq<char>,
    pub group_id: Option<Seq<char>>,
    pub updated_at: Timestamp,
    pub created_at: Option<Timestamp>,
    pub organization_id: Option<Seq<char>>,
    pub description: Option<Seq<char>>,
    pub dependencies_json: Option<Seq<char>>,
    pub repo_origin: Option<Seq<char>>,
    pub quick_links: Option<Seq<char>>,
    pub id: i64,
}

impl View for Package {
    type V = PackageView;

    open spec fn view(&self) -> PackageView {
        PackageView {
            identifier: self.identifier@,
            package_type: self.package_type@,
            lang: self.lang@,
            group_id: opt_text(self.group_id),
            updated_at: self.updated_at,
            created_at: self.created_at,
            organization_id: opt_text(self.organization_id),
            description: opt_text(self.description),
            dependencies_json: opt_text(self.dependencies_json),
            repo_origin: opt_text(self.repo_origin),
            quick_links: opt_text(self.quick_links),
            id: self.id,
        }
    }
}

/// A package in one environment. There is at most one row of an
/// environment for a package.
#[derive(Clone, Debug, PartialEq, Eq)]
pub struct Package_Env {
    pub version: String,
    pub env: String,
    pub parent_id: i64,
    pub pipeline_status: Option<String>,
    pub id: i64,
}

/// What a `Package_Env` holds.
pub struct Package_EnvView {
    pub version: Seq<char>,
    pub env: Seq<char>,
    pub parent_id: i64,
    pub pipeline_status: Option<Seq<char>>,
    pub id: i64,
}

impl View for Package_Env {
    type V = Package_EnvView;

    open spec fn view(&self) -> Package_EnvView {
        Package_EnvView {
            version: self.version@,
            env: self.env@,
            parent_id: self.parent_id,
            pipeline_status: opt_text(self.pipeline_status),
            id: self.id,
        }
    }
}

/// An organization, also called a workspace. No two have the same slug.
#[derive(Clone, Debug, PartialEq, Eq)]
pub struct Organization {
    pub slug: String,
    pub group_id: String,
    pub is_active: bool,
    pub blocks_positions: Option<String>,
    pub name: Option<String>,
    pub is_public: bool,
    pub infra_repo_origin: Option<String>,
    pub quick_links: Option<String>,
    pub version: Option<String>,
    pub id: i64,
}

/// What a `Organization` holds.
pub struct OrganizationView {
    pub slug: Seq<char>,
    pub group_id: Seq<char>,
    pub is_active: bool,
    pub blocks_positions: Option<Seq<char>>,
    pub name: Option<Seq<char>>,
    pub is_public: bool,
    pub infra_repo_origin: Option<Seq<char>>,
    pub quick_links: Option<Seq<char>>,
    pub version: Option<Seq<char>>,
    pub id: i64,
}

impl View for Organization {
    type V = OrganizationView;

    open spec fn view(&self) -> OrganizationView {
        OrganizationView {
            slug: self.slug@,
            group_id: self.group_id@,
            is_active: self.is_active,
            blocks_positions: opt_text(self.blocks_positions),
            name: opt_text(self.name),
            is_public: self.is_public,
            infra_repo_origin: opt_text(self.infra_repo_origin),
            quick_links: opt_text(self.quick_links),
            version: opt_text(self.version),
            id: self.id,
        }
    }
}

/// A marker that an organization stood at a version at some time.
#[derive(Clone, Debug, PartialEq, Eq)]
pub struct Snapshots {
    pub version: String,
    pub created_at: Timestamp,
    pub updated_at: Timestamp,
    pub organization_id: String,
    pub id: i64,
}

/// What a `Snapshots` holds.
pub struct SnapshotsView {
    pub version: Seq<char>,
    pub created_at: Timestamp,
    pub updated_at: Timestamp,
    pub organization_id: Seq<char>,
    pub id: i64,
}

impl View for Snapshots {
    type V = SnapshotsView;

    open spec fn view(&self) -> SnapshotsView {
        SnapshotsView {
            version: self.version@,
            created_at: self.created_at,
            updated_at: self.updated_at,
            organization_id: self.organization_id@,
            id: self.id,
        }
    }
}

/// A schema that is not yet stored.
#[derive(Clone, Debug, PartialEq, Eq)]
pub struct DbschemaInsertable {
    pub name: String,
    pub description: Option<String>,
    pub created_at: Timestamp,
    pub updated_at: Timestamp,
    pub data: Option<String>,
    pub group_id: Option<String>,
    pub identifier: Option<String>,
    pub organization_id: Option<String>,
    pub repo_origin: Option<String>,
    pub db_type: String,
    pub quick_links: Option<String>,
}

/// What a `DbschemaInsertable` holds.
pub struct DbschemaInsertableView {
    pub name: Seq<char>,
    pub description: Option<Seq<char>>,
    pub created_at: Timestamp,
    pub updated_at: Timestamp,
    pub data: Option<Seq<char>>,
    pub group_id: Option<Seq<char>>,
    pub identifier: Option<Seq<char>>,
    pub organization_id: Option<Seq<char>>,
    pub repo_origin: Option<Seq<char>>,
    pub db_type: Seq<char>,
    pub quick_links: Option<Seq<char>>,
}

impl View for DbschemaInsertable {
    type V = DbschemaInsertableView;

    open spec fn view(&self) -> DbschemaInsertableView {
        DbschemaInsertableView {
            name: self.name@,
            description: opt_text(self.description),
            created_at: self.created_at,
            updated_at: self.updated_at,
            data: opt_text(self.data),
            group_id: opt_text(self.group_id),
            identifier: opt_text(self.identifier),
            organization_id: opt_text(self.organization_id),
            repo_origin: opt_text(self.repo_origin),
            db_type: self.db_type@,
            quick_links: opt_text(self.quick_links),
        }
    }
}

/// A branch that is not yet stored.
#[derive(Clone, Debug, PartialEq, Eq)]
pub struct Dbschema_BranchInsertable {
    pub parent_id: i64,
    pub branch_name: String,
    pub data: Option<String>,
    pub created_at: Timestamp,
    pub updated_at: Timestamp,
    pub version: Option<String>,
    pub pipeline_status: Option<String>,
}

/// What a `Dbschema_BranchInsertable` holds.
pub struct Dbschema_BranchInsertableView {
    pub parent_id: i64,
    pub branch_name: Seq<char>,
    pub data: Option<Seq<char>>,
    pub created_at: Timestamp,
    pub updated_at: Timestamp,
    pub version: Option<Seq<char>>,
    pub pipeline_status: Option<Seq<char>>,
}

impl View for Dbschema_BranchInsertable {
    type V = Dbschema_BranchInsertableView;

    open spec fn view(&self) -> Dbschema_BranchInsertableView {
        Dbschema_BranchInsertableView {
            parent_id: self.parent_id,
            branch_name: self.branch_name@,
            data: opt_text(self.data),
            created_at: self.created_at,
            updated_at: self.updated_at,
            version: opt_text(self.version),
            pipeline_status: opt_text(self.pipeline_status),
        }
    }
}

/// A template that is not yet stored.
#[derive(Clone, Debug, PartialEq, Eq)]
pub struct TemplatesInsertable {
    pub short_name: String,
    pub description: String,
    pub repo_link: String,
    pub identifier: String,
}

/// What a `TemplatesInsertable` holds.
pub struct TemplatesInsertableView {
    pub short_name: Seq<char>,
    pub description: Seq<char>,
    pub repo_link: Seq<char>,
    pub identifier: Seq<char>,
}

impl View for TemplatesInsertable {
    type V = TemplatesInsertableView;

    open spec fn view(&self) -> TemplatesInsertableView {
        TemplatesInsertableView {
            short_name: self.short_name@,
            description: self.description@,
            repo_link: self.repo_link@,
            identifier: self.identifier@,
        }
    }
}

/// A service that is not yet stored.
#[derive(Clone, Debug, PartialEq, Eq)]
pub struct ServiceInsertable {
    pub identifier: String,
    pub group_id: Option<String>,
    pub db_schema_id: Option<String>,
    pub tables_json: Option<String>,
    pub dependencies_json: Option<String>,
    pub service_type: String,
    pub lang: Option<String>,
    pub description: Option<String>,
    pub organization_id: Option<String>,
    pub repo_origin: Option<String>,
    pub cache_schema_id: Option<String>,
    pub message_queue_schema_id: Option<String>,
    pub quick_links: Option<String>,
}

/// What a `ServiceInsertable` holds.
pub struct ServiceInsertableView {
    pub identifier: Seq<char>,
    pub group_id: Option<Seq<char>>,
    pub db_schema_id: Option<Seq<char>>,
    pub tables_json: Option<Seq<char>>,
    pub dependencies_json: Option<Seq<char>>,
    pub service_type: Seq<char>,
    pub lang: Option<Seq<char>>,
    pub description: Option<Seq<char>>,
    pub organization_id: Option<Seq<char>>,
    pub repo_origin: Option<Seq<char>>,
    pub cache_schema_id: Option<Seq<char>>,
    pub message_queue_schema_id: Option<Seq<char>>,
    pub quick_links: Option<Seq<char>>,
}

impl View for ServiceInsertable {
    type V = ServiceInsertableView;

    open spec fn view(&self) -> ServiceInsertableView {
        ServiceInsertableView {
            identifier: self.identifier@,
            group_id: opt_text(self.group_id),
            db_schema_id: opt_text(self.db_schema_id),
            tables_json: opt_text(self.tables_json),
            dependencies_json: opt_text(self.dependencies_json),
            service_type: self.service_type@,
            lang: opt_text(self.lang),
            description: opt_text(self.description),
            organization_id: opt_text(self.organization_id),
            repo_origin: opt_text(self.repo_origin),
            cache_schema_id: opt_text(self.cache_schema_id),
            message_queue_schema_id: opt_text(self.message_queue_schema_id),
            quick_links: opt_text(self.quick_links),
        }
    }
}

/// An environment of a service that is not yet stored.
#[derive(Clone, Debug, PartialEq, Eq)]
pub struct Service_EnvsInsertable {
    pub parent_id: i64,
    pub spec: String,
    pub env: String,
    pub base_url: String,
    pub base_url_ws: Option<String>,
    pub updated_at: Option<Timestamp>,
    pub version: String,
    pub pipeline_status: Option<String>,
}

/// What a `Service_EnvsInsertable` holds.
pub struct Service_EnvsInsertableView {
    pub parent_id: i64,
    pub spec: Seq<char>,
    pub env: Seq<char>,
    pub base_url: Seq<char>,
    pub base_url_ws: Option<Seq<char>>,
    pub updated_at: Option<Timestamp>,
    pub version: Seq<char>,
    pub pipeline_status: Option<Seq<char>>,
}

impl View for Service_EnvsInsertable {
    type V = Service_EnvsInsertableView;

    open spec fn view(&self) -> Service_EnvsInsertableView {
        Service_EnvsInsertableView {
            parent_id: self.parent_id,
            spec: self.spec@,
            env: self.env@,
            base_url: self.base_url@,
            base_url_ws: opt_text(self.base_url_ws),
            updated_at: self.updated_at,
            version: self.version@,
            pipeline_status: opt_text(self.pipeline_status),
        }
    }
}

/// A package that is not yet stored.
#[derive(Clone, Debug, PartialEq, Eq)]
pub struct PackageInsertable {
    pub identifier: String,
    pub package_type: String,
    pub lang: String,
    pub group_id: Option<String>,
    pub updated_at: Timestamp,
    pub created_at: Option<Timestamp>,
    pub organization_id: Option<String>,
    pub description: Option<String>,
    pub dependencies_json: Option<String>,
    pub repo_origin: Option<String>,
    pub quick_links: Option<String>,
}

/// What a `PackageInsertable` holds.
pub struct PackageInsertableView {
    pub identifier: Seq<char>,
    pub package_type: Seq<char>,
    pub lang: Seq<char>,
    pub group_id: Option<Seq<char>>,
    pub updated_at: Timestamp,
    pub created_at: Option<Timestamp>,
    pub organization_id: Option<Seq<char>>,
    pub description: Option<Seq<char>>,
    pub dependencies_json: Option<Seq<char>>,
    pub repo_origin: Option<Seq<char>>,
    pub quick_links: Option<Seq<char>>,
}

impl View for PackageInsertable {
    type V = PackageInsertableView;

    open spec fn view(&self) -> PackageInsertableView {
        PackageInsertableView {
            identifier: self.identifier@,
            package_type: self.package_type@,
            lang: self.lang@,
            group_id: opt_text(self.group_id),
            updated_at: self.updated_at,
            created_at: self.created_at,
            organization_id: opt_text(self.organization_id),
            description: opt_text(self.description),
            dependencies_json: opt_text(self.dependencies_json),
            repo_origin: opt_text(self.repo_origin),
            quick_links: opt_text(self.quick_links),
        }
    }
}

/// An environment of a package that is not yet stored.
#[derive(Clone, Debug, PartialEq, Eq)]
pub struct Package_EnvInsertable {
    pub version: String,
    pub env: String,
    pub parent_id: i64,
    pub pipeline_status: Option<String>,
}

/// What a `Package_EnvInsertable` holds.
pub struct Package_EnvInsertableView {
    pub version: Seq<char>,
    pub env: Seq<char>,
    pub parent_id: i64,
    pub pipeline_status: Option<Seq<char>>,
}

impl View for Package_EnvInsertable {
    type V = Package_EnvInsertableView;

    open spec fn view(&self) -> Package_EnvInsertableView {
        Package_EnvInsertableView {
            version: self.version@,
            env: self.env@,
            parent_id: self.parent_id,
            pipeline_status: opt_text(self.pipeline_status),
        }
    }
}

/// An organization that is not yet stored.
#[derive(Clone, Debug, PartialEq, Eq)]
pub struct OrganizationInsertable {
    pub slug: String,
    pub group_id: String,
    pub is_active: bool,
    pub blocks_positions: Option<String>,
    pub name: Option<String>,
    pub is_public: bool,
    pub infra_repo_origin: Option<String>,
    pub quick_links: Option<String>,
    pub version: Option<String>,
}

/// What a `OrganizationInsertable` holds.
pub struct OrganizationInsertableView {
    pub slug: Seq<char>,
    pub group_id: Seq<char>,
    pub is_active: bool,
    pub blocks_positions: Option<Seq<char>>,
    pub name: Option<Seq<char>>,
    pub is_public: bool,
    pub infra_repo_origin: Option<Seq<char>>,
    pub quick_links: Option<Seq<char>>,
    pub version: Option<Seq<char>>,
}

impl View for OrganizationInsertable {
    type V = OrganizationInsertableView;

    open spec fn view(&self) -> OrganizationInsertableView {
        OrganizationInsertableView {
            slug: self.slug@,
            group_id: self.group_id@,
            is_active: self.is_active,
            blocks_positions: opt_text(self.blocks_positions),
            name: opt_text(self.name),
            is_public: self.is_public,
            infra_repo_origin: opt_text(self.infra_repo_origin),
            quick_links: opt_text(self.quick_links),
            version: opt_text(self.version),
        }
    }
}

/// A snapshot that is not yet stored.
#[derive(Clone, Debug, PartialEq, Eq)]
pub struct SnapshotsInsertable {
    pub version: String,
    pub created_at: Timestamp,
    pub updated_at: Timestamp,
    pub organization_id: String,
}

/// What a `SnapshotsInsertable` holds.
pub struct SnapshotsInsertableView {
    pub version: Seq<char>,
    pub created_at: Timestamp,
    pub updated_at: Timestamp,
    pub organization_id: Seq<char>,
}

impl View for SnapshotsInsertable {
    type V = SnapshotsInsertableView;

    open spec fn view(&self) -> SnapshotsInsertableView {
        SnapshotsInsertableView {
            version: self.version@,
            created_at: self.created_at,
            updated_at: self.updated_at,
            organization_id: self.organization_id@,
        }
    }
}

} // verus!
