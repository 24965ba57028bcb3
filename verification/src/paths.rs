//! Where things live on disk, and which role a file plays by its name.
use vstd::prelude::*;
use vstd::string::*;
use crate::text::{ends_with, is_suffix, join3, optional_text, strip_tail, without_tail};

verus! {

/// The two roots under which every project is kept.
pub struct Layout {
    /// The directory that holds one transient checkout per identity.
    pub checkouts: String,
    /// The directory that holds one staging directory per identity.
    pub staging: String,
}

/// The mathematical content of a [`Layout`].
pub ghost struct LayoutView {
    pub checkouts: Seq<char>,
    pub staging: Seq<char>,
}

impl View for Layout {
    type V = LayoutView;

    open spec fn view(&self) -> LayoutView {
        LayoutView { checkouts: self.checkouts@, staging: self.staging@ }
    }
}

/// The path of the entry `name` directly inside `dir`.
pub open spec fn child(dir: Seq<char>, name: Seq<char>) -> Seq<char> {
    dir + "/"@ + name
}

/// The checkout directory of an identity.
pub open spec fn checkout_path(layout: LayoutView, identity: Seq<char>) -> Seq<char> {
    child(layout.checkouts, identity)
}

/// The staging directory of an identity.
pub open spec fn staging_path(layout: LayoutView, identity: Seq<char>) -> Seq<char> {
    child(layout.staging, identity)
}

/// The directory of a checkout from which configuration is taken: `conf`
/// under the checkout, or under the given subdirectory of it.
pub open spec fn config_source(checkout: Seq<char>, downdir: Option<Seq<char>>) -> Seq<char> {
    match downdir {
        Some(d) => child(child(checkout, d), "conf"@),
        None => child(checkout, "conf"@),
    }
}

/// Whether a path names a compose descriptor.
pub open spec fn is_compose_path(path: Seq<char>) -> bool {
    is_suffix(path, "docker-compose.yaml"@) || is_suffix(path, "docker-compose.yml"@)
}

/// Whether a path names a template.
pub open spec fn is_template_path(path: Seq<char>) -> bool {
    is_suffix(path, ".template"@)
}

/// The path to which a template is rendered: the template's path
/// without the marker at its end.
pub open spec fn rendered_path(template: Seq<char>) -> Seq<char>
    recommends
        is_template_path(template),
{
    without_tail(template, ".template"@.len())
}

impl Layout {
    /// The layout of a standard installation.
    pub fn standard() -> (layout: Layout)
        ensures
            layout@.checkouts == "/etc/simple-cd/checkouts"@,
            layout@.staging == "/etc/simple-cd/conf"@,
    {
        Layout {
            checkouts: String::from_str("/etc/simple-cd/checkouts"),
            staging: String::from_str("/etc/simple-cd/conf"),
        }
    }

    /// The checkout directory of an identity.
    pub fn checkout_dir(&self, identity: &str) -> (path: String)
        ensures
            path@ == checkout_path(self@, identity@),
    {
        child_path(self.checkouts.as_str(), identity)
    }

    /// The staging directory of an identity.
    pub fn staging_dir(&self, identity: &str) -> (path: String)
        ensures
            path@ == staging_path(self@, identity@),
    {
        child_path(self.staging.as_str(), identity)
    }
}

/// Joins a directory and the name of an entry in it.
pub fn child_path(dir: &str, name: &str) -> (path: String)
    ensures
        path@ == child(dir@, name@),
{
    join3(dir, "/", name)
}

/// The directory of a checkout that holds the configuration to stage.
pub fn config_root(checkout: &str, downdir: &Option<String>) -> (path: String)
    ensures
        path@ == config_source(checkout@, optional_text(*downdir)),
{
    match downdir {
        Some(d) => {
            let root = child_path(checkout, d.as_str());
            child_path(root.as_str(), "conf")
        },
        None => child_path(checkout, "conf"),
    }
}

/// Tells whether a file is a compose descriptor, by the end of its path.
pub fn is_compose_descriptor(path: &str) -> (found: bool)
    ensures
        found == is_compose_path(path@),
{
    ends_with(path, "docker-compose.yaml") || ends_with(path, "docker-compose.yml")
}

/// Tells whether a file is a template, by the end of its path.
pub fn is_template(path: &str) -> (found: bool)
    ensures
        found == is_template_path(path@),
{
    ends_with(path, ".template")
}

/// The path to which a template is rendered, or `None` for a file that
/// is no template.
pub fn render_target(path: &str) -> (target: Option<String>)
    ensures
        is_template_path(path@) ==> target.is_some() && target.unwrap()@ == rendered_path(path@),
        !is_template_path(path@) ==> target.is_none(),
{
    if is_template(path) {
        let marker: usize = ".template".unicode_len();
        Some(strip_tail(path, marker))
    } else {
        None
    }
}

/// Rendering a template gives a sibling of it: the template's path is
/// the rendered path followed by the marker, so the two differ and the
/// rendered one is the shorter by nine characters.
pub proof fn rendered_path_is_sibling(template: Seq<char>)
    requires
        is_template_path(template),
    ensures
        rendered_path(template) + ".template"@ == template,
        rendered_path(template).len() + 9 == template.len(),
        rendered_path(template) != template,
{
    reveal_strlit(".template");
    let marker = ".template"@;
    let head = rendered_path(template);
    assert(template.subrange(template.len() - marker.len(), template.len() as int) == marker);
    assert(head + marker =~= template);
}

/// A file directly inside a directory is addressed by one more segment:
/// its path is longer than the directory's, starts with it, and has the
/// separator right behind it.
pub proof fn child_extends_directory(dir: Seq<char>, name: Seq<char>)
    ensures
        child(dir, name).len() == dir.len() + 1 + name.len(),
        child(dir, name).subrange(0, dir.len() as int) == dir,
        child(dir, name)[dir.len() as int] == '/',
        child(dir, name).subrange(dir.len() as int + 1, child(dir, name).len() as int) == name,
{
    reveal_strlit("/");
    let path = child(dir, name);
    assert(path.subrange(0, dir.len() as int) =~= dir);
    assert(path.subrange(dir.len() as int + 1, path.len() as int) =~= name);
}

} // verus!
