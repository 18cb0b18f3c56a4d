//! The answers of the registry.

use vstd::prelude::*;
use crate::query::views;
use crate::text::{opt_text, texts};
use crate::clock::Timestamp;

verus! {

/// The answer to the creation of a schema: its id and its external identifier.
#[derive(Clone, Debug, PartialEq, Eq)]
pub struct CreateDbschemaResponse {
    pub message: String,
    pub id: i64,
    pub identifier: String,
}

/// What a `CreateDbschemaResponse` holds.
pub struct CreateDbschemaResponseView {
    pub message: Seq<char>,
    pub id: i64,
    pub identifier: Seq<char>,
}

impl View for CreateDbschemaResponse {
    type V = CreateDbschemaResponseView;

    open spec fn view(&self) -> CreateDbschemaResponseView {
        CreateDbschemaResponseView {
            message: self.message@,
            id: self.id,
            identifier: self.identifier@,
        }
    }
}

/// A schema, as it is shown in a list.
#[derive(Clone, Debug, PartialEq, Eq)]
pub struct GetDbschemaResponse {
    pub id: i64,
    pub name: String,
    pub description: Option<String>,
    pub updated_at: Timestamp,
    pub identifier: Option<String>,
    pub organization_id: String,
}

/// What a `GetDbschemaResponse` holds.
pub struct GetDbschemaResponseView {
    pub id: i64,
    pub name: Seq<char>,
    pub description: Option<Seq<char>>,
    pub updated_at: Timestamp,
    pub identifier: Option<Seq<char>>,
    pub organization_id: Seq<char>,
}

impl View for GetDbschemaResponse {
    type V = GetDbschemaResponseView;

    open spec fn view(&self) -> GetDbschemaResponseView {
        GetDbschemaResponseView {
            id: self.id,
            name: self.name@,
            description: opt_text(self.description),
            updated_at: self.updated_at,
            identifier: opt_text(self.identifier),
            organization_id: self.organization_id@,
        }
    }
}

/// A database schema as seen from one branch, with the names of its tables.
#[derive(Clone, Debug, PartialEq, Eq)]
pub struct GetDbschemaAndTablesResponse {
    pub id: i64,
    pub name: String,
    pub description: Option<String>,
    pub version: Option<String>,
    pub updated_at: Timestamp,
    pub identifier: Option<String>,
    pub db_type: Option<String>,
    pub organization_id: String,
    pub tables: Vec<String>,
    pub pipeline_status: Option<String>,
    pub repo_origin: Option<String>,
    pub quick_links: Option<String>,
}

/// What a `GetDbschemaAndTablesResponse` holds.
pub struct GetDbschemaAndTablesResponseView {
    pub id: i64,
    pub name: Seq<char>,
    pub description: Option<Seq<char>>,
    pub version: Option<Seq<char>>,
    pub updated_at: Timestamp,
    pub identifier: Option<Seq<char>>,
    pub db_type: Option<Seq<char>>,
    pub organization_id: Seq<char>,
    pub tables: Seq<Seq<char>>,
    pub pipeline_status: Option<Seq<char>>,
    pub repo_origin: Option<Seq<char>>,
    pub quick_links: Option<Seq<char>>,
}

impl View for GetDbschemaAndTablesResponse {
    type V = GetDbschemaAndTablesResponseView;

    open spec fn view(&self) -> GetDbschemaAndTablesResponseView {
        GetDbschemaAndTablesResponseView {
            id: self.id,
            name: self.name@,
            description: opt_text(self.description),
            version: opt_text(self.version),
            updated_at: self.updated_at,
            identifier: opt_text(self.identifier),
            db_type: opt_text(self.db_type),
            organization_id: self.organization_id@,
            tables: texts(self.tables@),
            pipeline_status: opt_text(self.pipeline_status),
            repo_origin: opt_text(self.repo_origin),
            quick_links: opt_text(self.quick_links),
        }
    }
}

/// A database schema, alone or as seen from one branch. Seen from a
/// branch, it shows the version and the pipeline status of the branch.
#[derive(Clone, Debug, PartialEq, Eq)]
pub struct GetDbschemaByIdResponse {
    pub id: i64,
    pub name: String,
    pub description: Option<String>,
    pub version: Option<String>,
    pub updated_at: Timestamp,
    pub data: Option<String>,
    pub pipeline_status: Option<String>,
    pub branch_id: Option<i64>,
    pub org_id: Option<String>,
    pub group_id: Option<String>,
}

/// What a `GetDbschemaByIdResponse` holds.
pub struct GetDbschemaByIdResponseView {
    pub id: i64,
    pub name: Seq<char>,
    pub description: Option<Seq<char>>,
    pub version: Option<Seq<char>>,
    pub updated_at: Timestamp,
    pub data: Option<Seq<char>>,
    pub pipeline_status: Option<Seq<char>>,
    pub branch_id: Option<i64>,
    pub org_id: Option<Seq<char>>,
    pub group_id: Option<Seq<char>>,
}

impl View for GetDbschemaByIdResponse {
    type V = GetDbschemaByIdResponseView;

    open spec fn view(&self) -> GetDbschemaByIdResponseView {
        GetDbschemaByIdResponseView {
            id: self.id,
            name: self.name@,
            description: opt_text(self.description),
            version: opt_text(self.version),
            updated_at: self.updated_at,
            data: opt_text(self.data),
            pipeline_status: opt_text(self.pipeline_status),
            branch_id: self.branch_id,
            org_id: opt_text(self.org_id),
            group_id: opt_text(self.group_id),
        }
    }
}

/// The answer to the creation of a branch: its id.
#[derive(Clone, Debug, PartialEq, Eq)]
pub struct CreateDbschemaBranchResponse {
    pub message: String,
    pub id: i64,
}

/// What a `CreateDbschemaBranchResponse` holds.
pub struct CreateDbschemaBranchResponseView {
    pub message: Seq<char>,
    pub id: i64,
}

impl View for CreateDbschemaBranchResponse {
    type V = CreateDbschemaBranchResponseView;

    open spec fn view(&self) -> CreateDbschemaBranchResponseView {
        CreateDbschemaBranchResponseView {
            message: self.message@,
            id: self.id,
        }
    }
}

/// The answer to the update of a branch: its id.
#[derive(Clone, Debug, PartialEq, Eq)]
pub struct UpdateDbschemaBranchResponse {
    pub message: String,
    pub id: i64,
}

/// What a `UpdateDbschemaBranchResponse` holds.
pub struct UpdateDbschemaBranchResponseView {
    pub message: Seq<char>,
    pub id: i64,
}

impl View for UpdateDbschemaBranchResponse {
    type V = UpdateDbschemaBranchResponseView;

    open spec fn view(&self) -> UpdateDbschemaBranchResponseView {
        UpdateDbschemaBranchResponseView {
            message: self.message@,
            id: self.id,
        }
    }
}

/// The answer to a request to create or update a service: the id of the service.
#[derive(Clone, Debug, PartialEq, Eq)]
pub struct UpdateServiceResponse {
    pub message: String,
    pub service_id: i64,
}

/// What a `UpdateServiceResponse` holds.
pub struct UpdateServiceResponseView {
    pub message: Seq<char>,
    pub service_id: i64,
}

impl View for UpdateServiceResponse {
    type V = UpdateServiceResponseView;

    open spec fn view(&self) -> UpdateServiceResponseView {
        UpdateServiceResponseView {
            message: self.message@,
            service_id: self.service_id,
        }
    }
}

/// What one environment of a service offers.
#[derive(Clone, Debug, PartialEq, Eq)]
pub struct ServicesEnvResponse {
    pub spec: String,
    pub base_url: String,
}

/// What a `ServicesEnvResponse` holds.
pub struct ServicesEnvResponseView {
    pub spec: Seq<char>,
    pub base_url: Seq<char>,
}

impl View for ServicesEnvResponse {
    type V = ServicesEnvResponseView;

    open spec fn view(&self) -> ServicesEnvResponseView {
        ServicesEnvResponseView {
            spec: self.spec@,
            base_url: self.base_url@,
        }
    }
}

/// One environment of a service, without its specification.
#[derive(Clone, Debug, PartialEq, Eq)]
pub struct ServicesEnvTrimmedResponse {
    pub env_key: String,
    pub base_url: String,
    pub base_url_ws: Option<String>,
    pub updated_at: Option<Timestamp>,
    pub version: Option<String>,
    pub pipeline_status: Option<String>,
}

/// What a `ServicesEnvTrimmedResponse` holds.
pub struct ServicesEnvTrimmedResponseView {
    pub env_key: Seq<char>,
    pub base_url: Seq<char>,
    pub base_url_ws: Option<Seq<char>>,
    pub updated_at: Option<Timestamp>,
    pub version: Option<Seq<char>>,
    pub pipeline_status: Option<Seq<char>>,
}

impl View for ServicesEnvTrimmedResponse {
    type V = ServicesEnvTrimmedResponseView;

    open spec fn view(&self) -> ServicesEnvTrimmedResponseView {
        ServicesEnvTrimmedResponseView {
            env_key: self.env_key@,
            base_url: self.base_url@,
            base_url_ws: opt_text(self.base_url_ws),
            updated_at: self.updated_at,
            version: opt_text(self.version),
            pipeline_status: opt_text(self.pipeline_status),
        }
    }
}

/// A service with all of its environments.
#[derive(Clone, Debug, PartialEq, Eq)]
pub struct ServicesTrimmedResponse {
    pub identifier: String,
    pub envs: Vec<ServicesEnvTrimmedResponse>,
    pub tables: Vec<String>,
    pub dependencies: Vec<String>,
    pub db_schema_id: Option<String>,
    pub cache_schema_id: Option<String>,
    pub message_queue_schema_id: Option<String>,
    pub service_type: Option<String>,
    pub lang: Option<String>,
    pub description: String,
    pub organization_id: String,
    pub repo_origin: Option<String>,
    pub quick_links: Option<String>,
}

/// What a `ServicesTrimmedResponse` holds.
pub struct ServicesTrimmedResponseView {
    pub identifier: Seq<char>,
    pub envs: Seq<ServicesEnvTrimmedResponseView>,
    pub tables: Seq<Seq<char>>,
    pub dependencies: Seq<Seq<char>>,
    pub db_schema_id: Option<Seq<char>>,
    pub cache_schema_id: Option<Seq<char>>,
    pub message_queue_schema_id: Option<Seq<char>>,
    pub service_type: Option<Seq<char>>,
    pub lang: Option<Seq<char>>,
    pub description: Seq<char>,
    pub organization_id: Seq<char>,
    pub repo_origin: Option<Seq<char>>,
    pub quick_links: Option<Seq<char>>,
}

impl View for ServicesTrimmedResponse {
    type V = ServicesTrimmedResponseView;

    open spec fn view(&self) -> ServicesTrimmedResponseView {
        ServicesTrimmedResponseView {
            identifier: self.identifier@,
            envs: views(self.envs@),
            tables: texts(self.tables@),
            dependencies: texts(self.dependencies@),
            db_schema_id: opt_text(self.db_schema_id),
            cache_schema_id: opt_text(self.cache_schema_id),
            message_queue_schema_id: opt_text(self.message_queue_schema_id),
            service_type: opt_text(self.service_type),
            lang: opt_text(self.lang),
            description: self.description@,
            organization_id: self.organization_id@,
            repo_origin: opt_text(self.repo_origin),
            quick_links: opt_text(self.quick_links),
        }
    }
}

/// The caller's session, with the organization it belongs to.
#[derive(Clone, Debug, PartialEq, Eq)]
pub struct APISessionDetailsResponse {
    pub sub: String,
    pub exp: usize,
    pub scopes: Vec<String>,
    pub group_id: i64,
    pub org_id: String,
}

/// What a `APISessionDetailsResponse` holds.
pub struct APISessionDetailsResponseView {
    pub sub: Seq<char>,
    pub exp: usize,
    pub scopes: Seq<Seq<char>>,
    pub group_id: i64,
    pub org_id: Seq<char>,
}

impl View for APISessionDetailsResponse {
    type V = APISessionDetailsResponseView;

    open spec fn view(&self) -> APISessionDetailsResponseView {
        APISessionDetailsResponseView {
            sub: self.sub@,
            exp: self.exp,
            scopes: texts(self.scopes@),
            group_id: self.group_id,
            org_id: self.org_id@,
        }
    }
}

/// A service, with its tables and its dependencies.
#[derive(Clone, Debug, PartialEq, Eq)]
pub struct ServiceResponse {
    pub id: i64,
    pub identifier: String,
    pub group_id: Option<String>,
    pub db_schema_id: String,
    pub dependencies: Vec<String>,
    pub tables: Vec<String>,
    pub description: String,
    pub organization_id: String,
    pub repo_origin: Option<String>,
}

/// What a `ServiceResponse` holds.
pub struct ServiceResponseView {
    pub id: i64,
    pub identifier: Seq<char>,
    pub group_id: Option<Seq<char>>,
    pub db_schema_id: Seq<char>,
    pub dependencies: Seq<Seq<char>>,
    pub tables: Seq<Seq<char>>,
    pub description: Seq<char>,
    pub organization_id: Seq<char>,
    pub repo_origin: Option<Seq<char>>,
}

impl View for ServiceResponse {
    type V = ServiceResponseView;

    open spec fn view(&self) -> ServiceResponseView {
        ServiceResponseView {
            id: self.id,
            identifier: self.identifier@,
            group_id: opt_text(self.group_id),
            db_schema_id: self.db_schema_id@,
            dependencies: texts(self.dependencies@),
            tables: texts(self.tables@),
            description: self.description@,
            organization_id: self.organization_id@,
            repo_origin: opt_text(self.repo_origin),
        }
    }
}

/// The answer to a request to create or update a package: the id of the package.
#[derive(Clone, Debug, PartialEq, Eq)]
pub struct CreateOrUpdatePackageResponse {
    pub message: String,
    pub package_id: i64,
}

/// What a `CreateOrUpdatePackageResponse` holds.
pub struct CreateOrUpdatePackageResponseView {
    pub message: Seq<char>,
    pub package_id: i64,
}

impl View for CreateOrUpdatePackageResponse {
    type V = CreateOrUpdatePackageResponseView;

    open spec fn view(&self) -> CreateOrUpdatePackageResponseView {
        CreateOrUpdatePackageResponseView {
            message: self.message@,
            package_id: self.package_id,
        }
    }
}

/// A package as seen from one environment.
#[derive(Clone, Debug, PartialEq, Eq)]
pub struct PackageResponse {
    pub identifier: String,
    pub package_type: String,
    pub lang: String,
    pub version: String,
    pub updated_at: Timestamp,
    pub description: String,
    pub organization_id: String,
    pub dependencies: Vec<String>,
    pub pipeline_status: Option<String>,
    pub repo_origin: Option<String>,
    pub quick_links: Option<String>,
}

/// What a `PackageResponse` holds.
pub struct PackageResponseView {
    pub identifier: Seq<char>,
    pub package_type: Seq<char>,
    pub lang: Seq<char>,
    pub version: Seq<char>,
    pub updated_at: Timestamp,
    pub description: Seq<char>,
    pub organization_id: Seq<char>,
    pub dependencies: Seq<Seq<char>>,
    pub pipeline_status: Option<Seq<char>>,
    pub repo_origin: Option<Seq<char>>,
    pub quick_links: Option<Seq<char>>,
}

impl View for PackageResponse {
    type V = PackageResponseView;

    open spec fn view(&self) -> PackageResponseView {
        PackageResponseView {
            identifier: self.identifier@,
            package_type: self.package_type@,
            lang: self.lang@,
            version: self.version@,
            updated_at: self.updated_at,
            description: self.description@,
            organization_id: self.organization_id@,
            dependencies: texts(self.dependencies@),
            pipeline_status: opt_text(self.pipeline_status),
            repo_origin: opt_text(self.repo_origin),
            quick_links: opt_text(self.quick_links),
        }
    }
}

/// The answer to the creation of an organization: its id.
#[derive(Clone, Debug, PartialEq, Eq)]
pub struct CreateOrganizationResponse {
    pub message: String,
    pub id: i64,
}

/// What a `CreateOrganizationResponse` holds.
pub struct CreateOrganizationResponseView {
    pub message: Seq<char>,
    pub id: i64,
}

impl View for CreateOrganizationResponse {
    type V = CreateOrganizationResponseView;

    open spec fn view(&self) -> CreateOrganizationResponseView {
        CreateOrganizationResponseView {
            message: self.message@,
            id: self.id,
        }
    }
}

/// An organization, as it is shown in a list. `is_admin` says whether the
/// caller owns the group that backs it.
#[derive(Clone, Debug, PartialEq, Eq)]
pub struct WorkspaceSummaryResponse {
    pub slug: String,
    pub name: Option<String>,
    pub is_active: bool,
    pub is_admin: bool,
    pub group_id: String,
    pub infra_repo_origin: Option<String>,
    pub quick_links: Option<String>,
    pub version: Option<String>,
}

/// What a `WorkspaceSummaryResponse` holds.
pub struct WorkspaceSummaryResponseView {
    pub slug: Seq<char>,
    pub name: Option<Seq<char>>,
    pub is_active: bool,
    pub is_admin: bool,
    pub group_id: Seq<char>,
    pub infra_repo_origin: Option<Seq<char>>,
    pub quick_links: Option<Seq<char>>,
    pub version: Option<Seq<char>>,
}

impl View for WorkspaceSummaryResponse {
    type V = WorkspaceSummaryResponseView;

    open spec fn view(&self) -> WorkspaceSummaryResponseView {
        WorkspaceSummaryResponseView {
            slug: self.slug@,
            name: opt_text(self.name),
            is_active: self.is_active,
            is_admin: self.is_admin,
            group_id: self.group_id@,
            infra_repo_origin: opt_text(self.infra_repo_origin),
            quick_links: opt_text(self.quick_links),
            version: opt_text(self.version),
        }
    }
}

/// The latest version of a package.
#[derive(Clone, Debug, PartialEq, Eq)]
pub struct VersionResponse {
    pub version: String,
}

/// What a `VersionResponse` holds.
pub struct VersionResponseView {
    pub version: Seq<char>,
}

impl View for VersionResponse {
    type V = VersionResponseView;

    open spec fn view(&self) -> VersionResponseView {
        VersionResponseView {
            version: self.version@,
        }
    }
}

/// A snapshot: the version at which an organization stood, and when.
#[derive(Clone, Debug, PartialEq, Eq)]
pub struct SnapshotsResponse {
    pub version: String,
    pub created_at: Timestamp,
}

/// What a `SnapshotsResponse` holds.
pub struct SnapshotsResponseView {
    pub version: Seq<char>,
    pub created_at: Timestamp,
}

impl View for SnapshotsResponse {
    type V = SnapshotsResponseView;

    open spec fn view(&self) -> SnapshotsResponseView {
        SnapshotsResponseView {
            version: self.version@,
            created_at: self.created_at,
        }
    }
}

/// An organization, with the layout of its blocks.
#[derive(Clone, Debug, PartialEq, Eq)]
pub struct WorkspaceDetailResponse {
    pub name: Option<String>,
    pub block_positions: Option<String>,
    pub is_active: bool,
    pub is_admin: bool,
}

/// What a `WorkspaceDetailResponse` holds.
pub struct WorkspaceDetailResponseView {
    pub name: Option<Seq<char>>,
    pub block_positions: Option<Seq<char>>,
    pub is_active: bool,
    pub is_admin: bool,
}

impl View for WorkspaceDetailResponse {
    type V = WorkspaceDetailResponseView;

    open spec fn view(&self) -> WorkspaceDetailResponseView {
        WorkspaceDetailResponseView {
            name: opt_text(self.name),
            block_positions: opt_text(self.block_positions),
            is_active: self.is_active,
            is_admin: self.is_admin,
        }
    }
}

/// A plain confirmation.
#[derive(Clone, Debug, PartialEq, Eq)]
pub struct MessageResponse {
    pub message: String,
}

/// What a `MessageResponse` holds.
pub struct MessageResponseView {
    pub message: Seq<char>,
}

impl View for MessageResponse {
    type V = MessageResponseView;

    open spec fn view(&self) -> MessageResponseView {
        MessageResponseView {
            message: self.message@,
        }
    }
}

} // verus!
