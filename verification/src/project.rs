//! Research projects whose patients are tagged.

use vstd::prelude::*;

verus! {

/// A research project: a stable code and a display name.
#[derive(Debug, Clone)]
pub struct Project {
    pub id: String,
    pub name: String,
}

/// Mathematical model of a [`Project`].
pub ghost struct ProjectView {
    pub id: Seq<char>,
    pub name: Seq<char>,
}

impl DeepView for Project {
    type V = ProjectView;

    open spec fn deep_view(&self) -> ProjectView {
        ProjectView { id: self.id@, name: self.name@ }
    }
}

impl View for Project {
    type V = ProjectView;

    open spec fn view(&self) -> ProjectView {
        self.deep_view()
    }
}

impl Project {
    /// Builds a project from its code and its display name.
    pub fn new(id: String, name: String) -> (project: Project)
        ensures
            project.id == id,
            project.name == name,
    {
        Project { id, name }
    }
}

} // verus!
