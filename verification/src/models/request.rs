//! The bodies of the requests that change the registry.

use vstd::prelude::*;
use crate::text::{opt_text, texts};

verus! {

/// A new database schema. Its first branch, `stage`, starts at `version`.
#[derive(Clone, Debug, PartialEq, Eq)]
pub struct CreateDbschemaRequest {
    pub name: String,
    pub description: Option<String>,
    pub data: Option<String>,
    pub organisation_id: String,
    pub db_type: String,
    pub repo_origin: String,
    pub version: String,
    pub quick_links: Option<String>,
}

/// What a `CreateDbschemaRequest` holds.
pub struct CreateDbschemaRequestView {
    pub name: Seq<char>,
    pub description: Option<Seq<char>>,
    pub data: Option<Seq<char>>,
    pub organisation_id: Seq<char>,
    pub db_type: Seq<char>,
    pub repo_origin: Seq<char>,
    pub version: Seq<char>,
    pub quick_links: Option<Seq<char>>,
}

impl View for CreateDbschemaRequest {
    type V = CreateDbschemaRequestView;

    open spec fn view(&self) -> CreateDbschemaRequestView {
        CreateDbschemaRequestView {
            name: self.name@,
            description: opt_text(self.description),
            data: opt_text(self.data),
            organisation_id: self.organisation_id@,
            db_type: self.db_type@,
            repo_origin: self.repo_origin@,
            version: self.version@,
            quick_links: opt_text(self.quick_links),
        }
    }
}

/// New base fields for a database schema, and a version for one branch.
#[derive(Clone, Debug, PartialEq, Eq)]
pub struct UpdateDbschemaRequest {
    pub name: String,
    pub description: Option<String>,
    pub organisation_id: String,
    pub repo_origin: String,
    pub version: String,
    pub quick_links: Option<String>,
}

/// What a `UpdateDbschemaRequest` holds.
pub struct UpdateDbschemaRequestView {
    pub name: Seq<char>,
    pub description: Option<Seq<char>>,
    pub organisation_id: Seq<char>,
    pub repo_origin: Seq<char>,
    pub version: Seq<char>,
    pub quick_links: Option<Seq<char>>,
}

impl View for UpdateDbschemaRequest {
    type V = UpdateDbschemaRequestView;

    open spec fn view(&self) -> UpdateDbschemaRequestView {
        UpdateDbschemaRequestView {
            name: self.name@,
            description: opt_text(self.description),
            organisation_id: self.organisation_id@,
            repo_origin: self.repo_origin@,
            version: self.version@,
            quick_links: opt_text(self.quick_links),
        }
    }
}

/// A pipeline status for one branch of a database schema.
#[derive(Clone, Debug, PartialEq, Eq)]
pub struct UpdateDbPipelineRequest {
    pub status: String,
}

/// What a `UpdateDbPipelineRequest` holds.
pub struct UpdateDbPipelineRequestView {
    pub status: Seq<char>,
}

impl View for UpdateDbPipelineRequest {
    type V = UpdateDbPipelineRequestView;

    open spec fn view(&self) -> UpdateDbPipelineRequestView {
        UpdateDbPipelineRequestView {
            status: self.status@,
        }
    }
}

/// A new branch of a database schema.
#[derive(Clone, Debug, PartialEq, Eq)]
pub struct CreateDbschemaBranchRequest {
    pub branch_name: String,
    pub data: Option<String>,
}

/// What a `CreateDbschemaBranchRequest` holds.
pub struct CreateDbschemaBranchRequestView {
    pub branch_name: Seq<char>,
    pub data: Option<Seq<char>>,
}

impl View for CreateDbschemaBranchRequest {
    type V = CreateDbschemaBranchRequestView;

    open spec fn view(&self) -> CreateDbschemaBranchRequestView {
        CreateDbschemaBranchRequestView {
            branch_name: self.branch_name@,
            data: opt_text(self.data),
        }
    }
}

/// A new name and new data for a branch.
#[derive(Clone, Debug, PartialEq, Eq)]
pub struct UpdateDbschemaBranchRequest {
    pub branch_name: String,
    pub data: Option<String>,
    pub merged: Option<bool>,
}

/// What a `UpdateDbschemaBranchRequest` holds.
pub struct UpdateDbschemaBranchRequestView {
    pub branch_name: Seq<char>,
    pub data: Option<Seq<char>>,
    pub merged: Option<bool>,
}

impl View for UpdateDbschemaBranchRequest {
    type V = UpdateDbschemaBranchRequestView;

    open spec fn view(&self) -> UpdateDbschemaBranchRequestView {
        UpdateDbschemaBranchRequestView {
            branch_name: self.branch_name@,
            data: opt_text(self.data),
            merged: self.merged,
        }
    }
}

/// A service and one of its environments, to create or to bring up to date.
#[derive(Clone, Debug, PartialEq, Eq)]
pub struct UpdateServiceRequest {
    pub identifier: String,
    pub env: String,
    pub base_url: String,
    pub base_url_ws: Option<String>,
    pub spec: String,
    pub dependencies: Vec<String>,
    pub tables: Vec<String>,
    pub db_schema_id: Option<String>,
    pub cache_schema_id: Option<String>,
    pub message_queue_schema_id: Option<String>,
    pub service_type: Option<String>,
    pub version: Option<String>,
    pub lang: Option<String>,
    pub description: String,
    pub organization_id: String,
    pub repo_origin: Option<String>,
    pub quick_links: Option<String>,
}

/// What a `UpdateServiceRequest` holds.
pub struct UpdateServiceRequestView {
    pub identifier: Seq<char>,
    pub env: Seq<char>,
    pub base_url: Seq<char>,
    pub base_url_ws: Option<Seq<char>>,
    pub spec: Seq<char>,
    pub dependencies: Seq<Seq<char>>,
    pub tables: Seq<Seq<char>>,
    pub db_schema_id: Option<Seq<char>>,
    pub cache_schema_id: Option<Seq<char>>,
    pub message_queue_schema_id: Option<Seq<char>>,
    pub service_type: Option<Seq<char>>,
    pub version: Option<Seq<char>>,
    pub lang: Option<Seq<char>>,
    pub description: Seq<char>,
    pub organization_id: Seq<char>,
    pub repo_origin: Option<Seq<char>>,
    pub quick_links: Option<Seq<char>>,
}

impl View for UpdateServiceRequest {
    type V = UpdateServiceRequestView;

    open spec fn view(&self) -> UpdateServiceRequestView {
        UpdateServiceRequestView {
            identifier: self.identifier@,
            env: self.env@,
            base_url: self.base_url@,
            base_url_ws: opt_text(self.base_url_ws),
            spec: self.spec@,
            dependencies: texts(self.dependencies@),
            tables: texts(self.tables@),
            db_schema_id: opt_text(self.db_schema_id),
            cache_schema_id: opt_text(self.cache_schema_id),
            message_queue_schema_id: opt_text(self.message_queue_schema_id),
            service_type: opt_text(self.service_type),
            version: opt_text(self.version),
            lang: opt_text(self.lang),
            description: self.description@,
            organization_id: self.organization_id@,
            repo_origin: opt_text(self.repo_origin),
            quick_links: opt_text(self.quick_links),
        }
    }
}

/// A package and one of its environments, to create or to bring up to date.
#[derive(Clone, Debug, PartialEq, Eq)]
pub struct CreateOrUpdatePackageRequest {
    pub identifier: String,
    pub package_type: String,
    pub lang: String,
    pub version: String,
    pub description: String,
    pub organization_id: String,
    pub dependencies: Vec<String>,
    pub env: String,
    pub repo_origin: Option<String>,
    pub quick_links: Option<String>,
}

/// What a `CreateOrUpdatePackageRequest` holds.
pub struct CreateOrUpdatePackageRequestView {
    pub identifier: Seq<char>,
    pub package_type: Seq<char>,
    pub lang: Seq<char>,
    pub version: Seq<char>,
    pub description: Seq<char>,
    pub organization_id: Seq<char>,
    pub dependencies: Seq<Seq<char>>,
    pub env: Seq<char>,
    pub repo_origin: Option<Seq<char>>,
    pub quick_links: Option<Seq<char>>,
}

impl View for CreateOrUpdatePackageRequest {
    type V = CreateOrUpdatePackageRequestView;

    open spec fn view(&self) -> CreateOrUpdatePackageRequestView {
        CreateOrUpdatePackageRequestView {
            identifier: self.identifier@,
            package_type: self.package_type@,
            lang: self.lang@,
            version: self.version@,
            description: self.description@,
            organization_id: self.organization_id@,
            dependencies: texts(self.dependencies@),
            env: self.env@,
            repo_origin: opt_text(self.repo_origin),
            quick_links: opt_text(self.quick_links),
        }
    }
}

/// A pipeline status for one environment or branch of one entity.
///
/// `status` is one of `running`, `failed`, `passing`, `dormant`;
/// `update_type` is one of `schema`, `package`, `service`.
#[derive(Clone, Debug, PartialEq, Eq)]
pub struct PipelineStatusUpdateRequest {
    pub env: String,
    pub status: String,
    pub update_type: String,
    pub org_id: String,
    pub identifier: String,
}

/// What a `PipelineStatusUpdateRequest` holds.
pub struct PipelineStatusUpdateRequestView {
    pub env: Seq<char>,
    pub status: Seq<char>,
    pub update_type: Seq<char>,
    pub org_id: Seq<char>,
    pub identifier: Seq<char>,
}

impl View for PipelineStatusUpdateRequest {
    type V = PipelineStatusUpdateRequestView;

    open spec fn view(&self) -> PipelineStatusUpdateRequestView {
        PipelineStatusUpdateRequestView {
            env: self.env@,
            status: self.status@,
            update_type: self.update_type@,
            org_id: self.org_id@,
            identifier: self.identifier@,
        }
    }
}

/// A new organization.
#[derive(Clone, Debug, PartialEq, Eq)]
pub struct CreateOrganizationRequest {
    pub name: String,
}

/// What a `CreateOrganizationRequest` holds.
pub struct CreateOrganizationRequestView {
    pub name: Seq<char>,
}

impl View for CreateOrganizationRequest {
    type V = CreateOrganizationRequestView;

    open spec fn view(&self) -> CreateOrganizationRequestView {
        CreateOrganizationRequestView {
            name: self.name@,
        }
    }
}

/// A snapshot of an organization at a version.
#[derive(Clone, Debug, PartialEq, Eq)]
pub struct CreateSnapshotRequest {
    pub version: String,
    pub org_id: String,
    pub infra_repo_origin: String,
    pub quick_links: String,
}

/// What a `CreateSnapshotRequest` holds.
pub struct CreateSnapshotRequestView {
    pub version: Seq<char>,
    pub org_id: Seq<char>,
    pub infra_repo_origin: Seq<char>,
    pub quick_links: Seq<char>,
}

impl View for CreateSnapshotRequest {
    type V = CreateSnapshotRequestView;

    open spec fn view(&self) -> CreateSnapshotRequestView {
        CreateSnapshotRequestView {
            version: self.version@,
            org_id: self.org_id@,
            infra_repo_origin: self.infra_repo_origin@,
            quick_links: self.quick_links@,
        }
    }
}

} // verus!
