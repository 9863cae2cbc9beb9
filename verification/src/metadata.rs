use vstd::prelude::*;
use crate::string_map::StringMap;

verus! {

/// The label that names the Compose project a container belongs to.
pub const LABEL_COMPOSE_PROJECT: &'static str = "com.docker.compose.project";

/// The configuration part of a container's description.
#[derive(Debug)]
pub struct ContainerConfig {
    pub labels: Option<StringMap>,
}

/// What the container runtime tells of one container when it is inspected.
#[derive(Debug)]
pub struct ContainerInspection {
    pub config: Option<ContainerConfig>,
}

/// Why the Compose project of this process's own container is not known.
#[derive(Clone, Copy, Debug, PartialEq, Eq, Structural)]
pub enum MissingMetadata {
    /// The runtime knows no container under this process's host name.
    ContainerNotFound,
    /// The container carries no Compose project label.
    ProjectLabelAbsent,
}

/// What a container's configuration is, with its labels as a mapping.
pub struct ContainerConfigView {
    pub labels: Option<Map<Seq<char>, Seq<char>>>,
}

/// What an inspection is, with its configuration by its view.
pub struct ContainerInspectionView {
    pub config: Option<ContainerConfigView>,
}

impl View for ContainerConfig {
    type V = ContainerConfigView;

    open spec fn view(&self) -> ContainerConfigView {
        ContainerConfigView {
            labels: match self.labels {
                Some(labels) => Some(labels@),
                None => None,
            },
        }
    }
}

impl View for ContainerInspection {
    type V = ContainerInspectionView;

    open spec fn view(&self) -> ContainerInspectionView {
        ContainerInspectionView {
            config: match self.config {
                Some(config) => Some(config@),
                None => None,
            },
        }
    }
}

impl ContainerInspectionView {
    /// The value of the Compose project label, where the container has a
    /// configuration with labels that hold one.
    pub open spec fn compose_project(self) -> Option<Seq<char>> {
        match self.config {
            Some(config) => match config.labels {
                Some(labels) => if labels.contains_key(LABEL_COMPOSE_PROJECT@) {
                    Some(labels[LABEL_COMPOSE_PROJECT@])
                } else {
                    None
                },
                None => None,
            },
            None => None,
        }
    }
}

/// The Compose project of the inspected container, or the reason why there
/// is none: no container was found, or it lacks the label.
pub open spec fn resolve_spec(inspection: Option<ContainerInspectionView>) -> Result<
    Seq<char>,
    MissingMetadata,
> {
    match inspection {
        None => Err(MissingMetadata::ContainerNotFound),
        Some(found) => match found.compose_project() {
            Some(project) => Ok(project),
            None => Err(MissingMetadata::ProjectLabelAbsent),
        },
    }
}

impl ContainerInspection {
    /// The value of the container's Compose project label, if it has one.
    pub fn compose_project(&self) -> (project: Option<&String>)
        ensures
            match project {
                Some(value) => self@.compose_project() == Some(value@),
                None => self@.compose_project() is None,
            },
    {
        match &self.config {
            Some(config) => match &config.labels {
                Some(labels) => labels.get(LABEL_COMPOSE_PROJECT),
                None => None,
            },
            None => None,
        }
    }
}

/// The view of an inspection that may have found no container.
pub open spec fn inspection_view(inspection: Option<&ContainerInspection>) -> Option<
    ContainerInspectionView,
> {
    match inspection {
        Some(found) => Some(found@),
        None => None,
    }
}

/// Finds the Compose project that this process runs in, from the inspection
/// of its own container: `None` stands for a container that was not found.
pub fn resolve_compose_project(inspection: Option<&ContainerInspection>) -> (project: Result<
    String,
    MissingMetadata,
>)
    ensures
        match project {
            Ok(name) => resolve_spec(inspection_view(inspection)) == Ok::<
                Seq<char>,
                MissingMetadata,
            >(name@),
            Err(reason) => resolve_spec(inspection_view(inspection)) == Err::<
                Seq<char>,
                MissingMetadata,
            >(reason),
        },
{
    match inspection {
        None => Err(MissingMetadata::ContainerNotFound),
        Some(found) => match found.compose_project() {
            Some(project) => Ok(project.clone()),
            None => Err(MissingMetadata::ProjectLabelAbsent),
        },
    }
}

} // verus!
