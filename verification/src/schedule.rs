//! The multi-target deployment schedule that a project's metadata may declare.

use vstd::prelude::*;

verus! {

/// One entry of the schedule: a component and the node it is deployed to.
#[derive(Debug, Clone, PartialEq, Eq)]
pub struct DeployTarget {
    /// Identifier of the component whose bytecode is deployed.
    pub compose: String,
    /// URL of the node that receives it.
    pub url: String,
}

/// The mathematical content of a [`DeployTarget`].
pub struct TargetView {
    pub compose: Seq<char>,
    pub url: Seq<char>,
}

impl View for DeployTarget {
    type V = TargetView;

    open spec fn view(&self) -> TargetView {
        TargetView { compose: self.compose@, url: self.url@ }
    }
}

/// The views of a run of schedule entries, in order.
pub open spec fn targets_view(targets: Seq<DeployTarget>) -> Seq<TargetView> {
    targets.map_values(|t: DeployTarget| t@)
}

/// The schedule section of the project metadata.
#[derive(Debug, Clone, PartialEq, Eq)]
pub struct ComposableSchedule {
    /// The entries to deploy, in the order in which they are deployed.
    pub deploy: Option<Vec<DeployTarget>>,
}

impl View for ComposableSchedule {
    type V = Option<Seq<TargetView>>;

    open spec fn view(&self) -> Option<Seq<TargetView>> {
        match self.deploy {
            Some(targets) => Some(targets_view(targets@)),
            None => None,
        }
    }
}

} // verus!
