//! The deploy request as the pipeline receives it.
use vstd::prelude::*;
use crate::text::{optional_text, optional_texts};

verus! {

/// One request to deploy a project.
pub struct DeployRequest {
    /// Where the repository is cloned from.
    pub giturl: String,
    /// The label chosen for the project; several projects may share one.
    pub name: String,
    /// The directory inside the repository that is the deployment root.
    pub downdir: Option<String>,
    /// The credential presented with the request.
    pub token: String,
    /// Image references to evict before the project is started again.
    pub invalidate_images: Option<Vec<String>>,
}

/// The mathematical content of a [`DeployRequest`].
pub ghost struct DeployRequestView {
    pub giturl: Seq<char>,
    pub name: Seq<char>,
    pub downdir: Option<Seq<char>>,
    pub token: Seq<char>,
    pub invalidate_images: Option<Seq<Seq<char>>>,
}

impl View for DeployRequest {
    type V = DeployRequestView;

    open spec fn view(&self) -> DeployRequestView {
        DeployRequestView {
            giturl: self.giturl@,
            name: self.name@,
            downdir: optional_text(self.downdir),
            token: self.token@,
            invalidate_images: optional_texts(self.invalidate_images),
        }
    }
}

} // verus!
