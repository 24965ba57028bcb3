//! Project identities: a directory name derived from the name, the
//! repository and the subdirectory of a deployment.
use vstd::prelude::*;
use vstd::string::*;
use vstd::std_specs::hash::*;
use std::collections::hash_map::DefaultHasher;
use std::hash::{Hash, Hasher};
use crate::request::DeployRequest;
use crate::text::{decimal, decimal_is_digits, decimal_is_injective, digit_is_plain, join3, to_decimal};

verus! {

/// The three fields that tell one deployment target from another, in the
/// order in which they are hashed.
#[derive(Hash)]
pub struct Project<'r> {
    pub name: &'r str,
    pub giturl: &'r str,
    pub downdir: Option<&'r str>,
}

/// The mathematical content of a [`Project`].
pub ghost struct ProjectView {
    pub name: Seq<char>,
    pub giturl: Seq<char>,
    pub downdir: Option<Seq<char>>,
}

impl<'r> View for Project<'r> {
    type V = ProjectView;

    open spec fn view(&self) -> ProjectView {
        ProjectView {
            name: self.name@,
            giturl: self.giturl@,
            downdir: match self.downdir {
                Some(d) => Some(d@),
                None => None,
            },
        }
    }
}

/// The writes that hashing a project feeds to a hasher, as a function of
/// the project's three fields.
pub uninterp spec fn hashed_writes(
    name: Seq<char>,
    giturl: Seq<char>,
    downdir: Option<Seq<char>>,
) -> Seq<Seq<u8>>;

/// Feeds a project to the hasher through the derived `Hash::hash`.
///
/// Trusted: the writes that reach the hasher are appended to those it has
/// seen, and they depend on the three fields alone (their bytes, in
/// declaration order, as one build of the standard library lays them
/// out). Nothing is claimed about what the writes are.
#[verifier::external_body]
fn feed(project: &Project<'_>, state: &mut DefaultHasher)
    ensures
        final(state)@ == old(state)@ + hashed_writes(
            project@.name,
            project@.giturl,
            project@.downdir,
        ),
{
    project.hash(state)
}

/// The 64-bit hash of a project triple: what the default hasher, freshly
/// made, yields once the project has been fed to it.
pub open spec fn project_hash(
    name: Seq<char>,
    giturl: Seq<char>,
    downdir: Option<Seq<char>>,
) -> u64 {
    DefaultHasher::spec_finish(hashed_writes(name, giturl, downdir))
}

/// The identity written from a name and a hash: the name, a hyphen, and
/// the hash in decimal.
pub open spec fn identity_text(name: Seq<char>, hash: u64) -> Seq<char> {
    name + seq!['-'] + decimal(hash as nat)
}

/// The identity of the deployment target `(name, giturl, downdir)`.
pub open spec fn project_identity(
    name: Seq<char>,
    giturl: Seq<char>,
    downdir: Option<Seq<char>>,
) -> Seq<char> {
    identity_text(name, project_hash(name, giturl, downdir))
}

/// Hashes a project with the default hasher in its initial state.
pub fn hash_project(project: &Project<'_>) -> (hash: u64)
    ensures
        hash == project_hash(project@.name, project@.giturl, project@.downdir),
{
    let mut hasher = DefaultHasher::new();
    feed(project, &mut hasher);
    assert(hasher@ =~= hashed_writes(project@.name, project@.giturl, project@.downdir));
    hasher.finish()
}

/// Writes the identity for a name and an already computed hash.
pub fn format_identity(name: &str, hash: u64) -> (identity: String)
    ensures
        identity@ == identity_text(name@, hash),
{
    proof {
        reveal_strlit("-");
    }
    let numeral = to_decimal(hash);
    let identity = join3(name, "-", numeral.as_str());
    assert("-"@ =~= seq!['-']);
    identity
}

/// Derives the identity under which a request's project is staged and
/// checked out. The name goes into the identity as it is: a caller that
/// wants a single path segment passes a name without a separator.
pub fn get_project_name(request: &DeployRequest) -> (identity: String)
    ensures
        identity@ == project_identity(request@.name, request@.giturl, request@.downdir),
{
    let downdir: Option<&str> = match &request.downdir {
        Some(d) => Some(d.as_str()),
        None => None,
    };
    let project = Project {
        name: request.name.as_str(),
        giturl: request.giturl.as_str(),
        downdir,
    };
    let hash = hash_project(&project);
    format_identity(request.name.as_str(), hash)
}

/// Equal triples have equal identities.
pub proof fn identity_is_deterministic(
    name1: Seq<char>,
    giturl1: Seq<char>,
    downdir1: Option<Seq<char>>,
    name2: Seq<char>,
    giturl2: Seq<char>,
    downdir2: Option<Seq<char>>,
)
    requires
        name1 == name2,
        giturl1 == giturl2,
        downdir1 == downdir2,
    ensures
        project_identity(name1, giturl1, downdir1) == project_identity(name2, giturl2, downdir2),
{
}

/// An identity tells its name and its hash: two identities are equal
/// only if both the names and the hashes are. Targets with different
/// names therefore never share an identity, and targets with one name
/// share it exactly when their hashes collide.
pub proof fn identity_tells_name_and_hash(name1: Seq<char>, hash1: u64, name2: Seq<char>, hash2: u64)
    requires
        identity_text(name1, hash1) == identity_text(name2, hash2),
    ensures
        name1 == name2,
        hash1 == hash2,
{
    let d1 = decimal(hash1 as nat);
    let d2 = decimal(hash2 as nat);
    let id1 = identity_text(name1, hash1);
    let id2 = identity_text(name2, hash2);
    decimal_is_digits(hash1 as nat);
    decimal_is_digits(hash2 as nat);
    assert(id1.len() == name1.len() + 1 + d1.len());
    assert(id2.len() == name2.len() + 1 + d2.len());
    assert(id1[name1.len() as int] == '-');
    assert(id2[name2.len() as int] == '-');
    if name1.len() < name2.len() {
        let k = name2.len() - name1.len() - 1;
        assert(id1[name2.len() as int] == d1[k]);
        digit_is_plain(d1[k]);
    } else if name2.len() < name1.len() {
        let k = name1.len() - name2.len() - 1;
        assert(id2[name1.len() as int] == d2[k]);
        digit_is_plain(d2[k]);
    } else {
        assert(name1 =~= id1.subrange(0, name1.len() as int));
        assert(name2 =~= id2.subrange(0, name2.len() as int));
        assert(d1 =~= id1.subrange(name1.len() as int + 1, id1.len() as int));
        assert(d2 =~= id2.subrange(name2.len() as int + 1, id2.len() as int));
        decimal_is_injective(hash1 as nat, hash2 as nat);
    }
}

/// An identity is a usable path segment whenever its name has no
/// separator: it is not empty, it is neither `.` nor `..`, and it holds
/// a slash only where the name does.
pub proof fn identity_is_one_segment(name: Seq<char>, hash: u64)
    ensures
        identity_text(name, hash).len() >= 2,
        identity_text(name, hash) != seq!['.'],
        identity_text(name, hash) != seq!['.', '.'],
        !name.contains('/') ==> !identity_text(name, hash).contains('/'),
{
    let d = decimal(hash as nat);
    let id = identity_text(name, hash);
    decimal_is_digits(hash as nat);
    assert(id.len() == name.len() + 1 + d.len());
    assert(id[id.len() - 1] == d[d.len() - 1]);
    digit_is_plain(d[d.len() - 1]);
    if id == seq!['.', '.'] {
        assert(seq!['.', '.'][1] == '.');
        assert(false);
    }
    if !name.contains('/') && id.contains('/') {
        let i = choose|i: int| 0 <= i < id.len() && id[i] == '/';
        if i < name.len() {
            assert(name[i] == '/');
            assert(name.contains('/'));
        } else if i > name.len() {
            assert(id[i] == d[i - name.len() - 1]);
            digit_is_plain(d[i - name.len() - 1]);
        }
    }
}

} // verus!
