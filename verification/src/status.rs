//! Pipeline states and the kinds of entity whose pipeline is tracked.

use vstd::prelude::*;
use crate::text::same_text;

verus! {

/// The states a build or deploy pipeline can report for a branch or an
/// environment. Any state may follow any other.
#[derive(Clone, Copy, Debug, PartialEq, Eq, Structural)]
pub enum PipelineStatus {
    Running,
    Failed,
    Passing,
    Dormant,
}

/// The entity families whose children carry a pipeline status.
#[derive(Clone, Copy, Debug, PartialEq, Eq, Structural)]
pub enum UpdateKind {
    Schema,
    Package,
    Service,
}

/// The state that a text names, if it names one.
pub open spec fn status_named(s: Seq<char>) -> Option<PipelineStatus> {
    if s == "running"@ {
        Some(PipelineStatus::Running)
    } else if s == "failed"@ {
        Some(PipelineStatus::Failed)
    } else if s == "passing"@ {
        Some(PipelineStatus::Passing)
    } else if s == "dormant"@ {
        Some(PipelineStatus::Dormant)
    } else {
        None
    }
}

/// The entity family that a text names, if it names one.
pub open spec fn kind_named(s: Seq<char>) -> Option<UpdateKind> {
    if s == "schema"@ {
        Some(UpdateKind::Schema)
    } else if s == "package"@ {
        Some(UpdateKind::Package)
    } else if s == "service"@ {
        Some(UpdateKind::Service)
    } else {
        None
    }
}

impl PipelineStatus {
    /// The name of the state, as it is stored and sent.
    pub open spec fn text(self) -> Seq<char> {
        match self {
            PipelineStatus::Running => "running"@,
            PipelineStatus::Failed => "failed"@,
            PipelineStatus::Passing => "passing"@,
            PipelineStatus::Dormant => "dormant"@,
        }
    }

    /// Reads a state from its name: one of `running`, `failed`, `passing`
    /// and `dormant`, in lower case. Any other text names no state.
    pub fn parse(s: &str) -> (r: Option<PipelineStatus>)
        ensures
            r == status_named(s@),
    {
        if same_text(s, "running") {
            Some(PipelineStatus::Running)
        } else if same_text(s, "failed") {
            Some(PipelineStatus::Failed)
        } else if same_text(s, "passing") {
            Some(PipelineStatus::Passing)
        } else if same_text(s, "dormant") {
            Some(PipelineStatus::Dormant)
        } else {
            None
        }
    }

    /// The name of the state.
    pub fn as_text(&self) -> (s: String)
        ensures
            s@ == self.text(),
    {
        match self {
            PipelineStatus::Running => "running".to_owned(),
            PipelineStatus::Failed => "failed".to_owned(),
            PipelineStatus::Passing => "passing".to_owned(),
            PipelineStatus::Dormant => "dormant".to_owned(),
        }
    }
}

impl UpdateKind {
    /// Reads an entity family from its name: one of `schema`, `package`
    /// and `service`. Any other text names none.
    pub fn parse(s: &str) -> (r: Option<UpdateKind>)
        ensures
            r == kind_named(s@),
    {
        if same_text(s, "schema") {
            Some(UpdateKind::Schema)
        } else if same_text(s, "package") {
            Some(UpdateKind::Package)
        } else if same_text(s, "service") {
            Some(UpdateKind::Service)
        } else {
            None
        }
    }
}

/// A state is named by its own name, and by no other state's.
pub proof fn lemma_status_names(p: PipelineStatus)
    ensures
        status_named(p.text()) == Some(p),
{
    reveal_strlit("running");
    reveal_strlit("failed");
    reveal_strlit("passing");
    reveal_strlit("dormant");
    assert("running"@.len() == 7);
    assert("failed"@.len() == 6);
    assert("passing"@[0] == 'p');
    assert("dormant"@[0] == 'd');
    assert("running"@[0] == 'r');
}

} // verus!
