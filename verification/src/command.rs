//! The external tools of a deployment, as the command lines that call them.
use vstd::prelude::*;
use vstd::string::*;
use crate::text::texts;

verus! {

/// A program and the arguments it is started with.
pub struct Invocation {
    pub program: String,
    pub args: Vec<String>,
}

/// The mathematical content of an [`Invocation`].
pub ghost struct InvocationView {
    pub program: Seq<char>,
    pub args: Seq<Seq<char>>,
}

impl View for Invocation {
    type V = InvocationView;

    open spec fn view(&self) -> InvocationView {
        InvocationView { program: self.program@, args: texts(self.args@) }
    }
}

/// `git clone <giturl> <destination>`.
pub open spec fn clone_invocation(giturl: Seq<char>, destination: Seq<char>) -> InvocationView {
    InvocationView { program: "git"@, args: seq!["clone"@, giturl, destination] }
}

/// `docker compose -f <file> down`.
pub open spec fn down_invocation(file: Seq<char>) -> InvocationView {
    InvocationView { program: "docker"@, args: seq!["compose"@, "-f"@, file, "down"@] }
}

/// `docker compose -f <file> up -d`.
pub open spec fn up_invocation(file: Seq<char>) -> InvocationView {
    InvocationView { program: "docker"@, args: seq!["compose"@, "-f"@, file, "up"@, "-d"@] }
}

/// `docker image rm <images...> --force`.
pub open spec fn removal_invocation(images: Seq<Seq<char>>) -> InvocationView {
    InvocationView { program: "docker"@, args: seq!["image"@, "rm"@] + images + seq!["--force"@] }
}

/// The shell line that renders `template` to `output` with `envsubst`.
pub open spec fn substitution_line(template: Seq<char>, output: Seq<char>) -> Seq<char> {
    "envsubst < "@ + template + " > "@ + output
}

/// The command that clones a repository to a directory.
pub fn clone_command(giturl: &str, destination: &str) -> (command: Invocation)
    ensures
        command@ == clone_invocation(giturl@, destination@),
{
    let mut args: Vec<String> = Vec::new();
    args.push(String::from_str("clone"));
    args.push(String::from_str(giturl));
    args.push(String::from_str(destination));
    assert(texts(args@) =~= seq!["clone"@, giturl@, destination@]);
    Invocation { program: String::from_str("git"), args }
}

/// The command that brings down the containers of a compose descriptor.
pub fn compose_down(file: &str) -> (command: Invocation)
    ensures
        command@ == down_invocation(file@),
{
    let mut args: Vec<String> = Vec::new();
    args.push(String::from_str("compose"));
    args.push(String::from_str("-f"));
    args.push(String::from_str(file));
    args.push(String::from_str("down"));
    assert(texts(args@) =~= seq!["compose"@, "-f"@, file@, "down"@]);
    Invocation { program: String::from_str("docker"), args }
}

/// The command that brings up, detached, the containers of a compose
/// descriptor.
pub fn compose_up(file: &str) -> (command: Invocation)
    ensures
        command@ == up_invocation(file@),
{
    let mut args: Vec<String> = Vec::new();
    args.push(String::from_str("compose"));
    args.push(String::from_str("-f"));
    args.push(String::from_str(file));
    args.push(String::from_str("up"));
    args.push(String::from_str("-d"));
    assert(texts(args@) =~= seq!["compose"@, "-f"@, file@, "up"@, "-d"@]);
    Invocation { program: String::from_str("docker"), args }
}

/// The command that removes the given images, in the order given,
/// whether or not containers still use them.
pub fn image_removal(images: &Vec<String>) -> (command: Invocation)
    ensures
        command@ == removal_invocation(texts(images@)),
{
    let mut args: Vec<String> = Vec::new();
    args.push(String::from_str("image"));
    args.push(String::from_str("rm"));
    let mut i: usize = 0;
    while i < images.len()
        invariant
            i <= images.len(),
            texts(args@) == seq!["image"@, "rm"@] + texts(images@).subrange(0, i as int),
        decreases images.len() - i,
    {
        let ghost before = texts(args@);
        args.push(images[i].clone());
        assert(texts(args@) =~= before.push(images@[i as int]@));
        assert(texts(images@).subrange(0, i + 1) =~= texts(images@).subrange(0, i as int).push(
            images@[i as int]@,
        ));
        assert(texts(args@) =~= seq!["image"@, "rm"@] + texts(images@).subrange(0, i + 1));
        i = i + 1;
    }
    assert(texts(images@).subrange(0, i as int) =~= texts(images@));
    let ghost before = texts(args@);
    args.push(String::from_str("--force"));
    assert(texts(args@) =~= before + seq!["--force"@]);
    Invocation { program: String::from_str("docker"), args }
}

/// The shell line that renders a template to an output file.
pub fn substitution_script(template: &str, output: &str) -> (script: String)
    ensures
        script@ == substitution_line(template@, output@),
{
    let mut script = String::from_str("envsubst < ");
    script.append(template);
    script.append(" > ");
    script.append(output);
    script
}

} // verus!
