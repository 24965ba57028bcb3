//! The ways in which a deployment fails, each with what it concerns.
use vstd::prelude::*;
use vstd::string::*;
use crate::text::{join2, texts};

verus! {

/// Why a deployment did not complete.
pub enum DeployError {
    /// The presented token is not the configured one.
    Unauthorized,
    /// The repository could not be cloned.
    Clone { giturl: String },
    /// A file could not be brought into the staging directory.
    Copy { file: String },
    /// A template could not be rendered.
    Substitution { file: String },
    /// A rendered template could not be removed.
    Removal { file: String },
    /// A compose descriptor could not be brought down.
    Stop { file: String },
    /// A compose descriptor could not be brought up.
    Start { file: String },
    /// The listed images could not be removed.
    ImageInvalidation { images: Vec<String> },
    /// The checkout could not be removed.
    Cleanup { directory: String },
    /// A directory could not be enumerated.
    Traversal { directory: String },
}

/// The mathematical content of a [`DeployError`].
pub ghost enum DeployErrorView {
    Unauthorized,
    Clone { giturl: Seq<char> },
    Copy { file: Seq<char> },
    Substitution { file: Seq<char> },
    Removal { file: Seq<char> },
    Stop { file: Seq<char> },
    Start { file: Seq<char> },
    ImageInvalidation { images: Seq<Seq<char>> },
    Cleanup { directory: Seq<char> },
    Traversal { directory: Seq<char> },
}

impl View for DeployError {
    type V = DeployErrorView;

    open spec fn view(&self) -> DeployErrorView {
        match *self {
            DeployError::Unauthorized => DeployErrorView::Unauthorized,
            DeployError::Clone { giturl } => DeployErrorView::Clone { giturl: giturl@ },
            DeployError::Copy { file } => DeployErrorView::Copy { file: file@ },
            DeployError::Substitution { file } => DeployErrorView::Substitution { file: file@ },
            DeployError::Removal { file } => DeployErrorView::Removal { file: file@ },
            DeployError::Stop { file } => DeployErrorView::Stop { file: file@ },
            DeployError::Start { file } => DeployErrorView::Start { file: file@ },
            DeployError::ImageInvalidation { images } => DeployErrorView::ImageInvalidation {
                images: texts(images@),
            },
            DeployError::Cleanup { directory } => DeployErrorView::Cleanup { directory: directory@ },
            DeployError::Traversal { directory } => DeployErrorView::Traversal {
                directory: directory@,
            },
        }
    }
}

/// The items one after another, each with a space before it.
pub open spec fn spaced(items: Seq<Seq<char>>) -> Seq<char>
    decreases items.len(),
{
    if items.len() == 0 {
        Seq::empty()
    } else {
        spaced(items.drop_last()) + " "@ + items.last()
    }
}

/// The sentence that describes an error.
pub open spec fn description(error: DeployErrorView) -> Seq<char> {
    match error {
        DeployErrorView::Unauthorized => "the token does not match"@,
        DeployErrorView::Clone { giturl } => "unable to clone the url "@ + giturl,
        DeployErrorView::Copy { file } => "unable to copy the file "@ + file,
        DeployErrorView::Substitution { file } => "unable to run command 'envsubst' on file "@
            + file,
        DeployErrorView::Removal { file } => "unable to remove file "@ + file,
        DeployErrorView::Stop { file } => "unable to stop docker compose file "@ + file,
        DeployErrorView::Start { file } => "unable to start docker compose file "@ + file,
        DeployErrorView::ImageInvalidation { images } => "unable to remove the images"@ + spaced(
            images,
        ),
        DeployErrorView::Cleanup { directory } => "unable to remove the checked out repository "@
            + directory,
        DeployErrorView::Traversal { directory } => "unable to read the directory "@ + directory,
    }
}

/// Writes the items one after another, each with a space before it.
fn spaced_text(items: &Vec<String>) -> (line: String)
    ensures
        line@ == spaced(texts(items@)),
{
    let mut line = String::new();
    let mut i: usize = 0;
    while i < items.len()
        invariant
            i <= items.len(),
            line@ == spaced(texts(items@).subrange(0, i as int)),
        decreases items.len() - i,
    {
        let ghost head = texts(items@).subrange(0, i + 1);
        assert(head.drop_last() =~= texts(items@).subrange(0, i as int));
        assert(head.last() == items@[i as int]@);
        line.append(" ");
        line.append(items[i].as_str());
        i = i + 1;
    }
    assert(texts(items@).subrange(0, i as int) =~= texts(items@));
    line
}

impl DeployError {
    /// Describes the error in one sentence that names what it concerns.
    pub fn message(&self) -> (sentence: String)
        ensures
            sentence@ == description(self@),
    {
        match self {
            DeployError::Unauthorized => String::from_str("the token does not match"),
            DeployError::Clone { giturl } => join2("unable to clone the url ", giturl.as_str()),
            DeployError::Copy { file } => join2("unable to copy the file ", file.as_str()),
            DeployError::Substitution { file } => join2(
                "unable to run command 'envsubst' on file ",
                file.as_str(),
            ),
            DeployError::Removal { file } => join2("unable to remove file ", file.as_str()),
            DeployError::Stop { file } => join2(
                "unable to stop docker compose file ",
                file.as_str(),
            ),
            DeployError::Start { file } => join2(
                "unable to start docker compose file ",
                file.as_str(),
            ),
            DeployError::ImageInvalidation { images } => {
                let list = spaced_text(images);
                join2("unable to remove the images", list.as_str())
            },
            DeployError::Cleanup { directory } => join2(
                "unable to remove the checked out repository ",
                directory.as_str(),
            ),
            DeployError::Traversal { directory } => join2(
                "unable to read the directory ",
                directory.as_str(),
            ),
        }
    }
}

} // verus!
