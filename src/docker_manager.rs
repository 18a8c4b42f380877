//! The launcher's command-line driver of the container engine: the commands
//! it issues and how it reads their answers.
use vstd::prelude::*;

use crate::text::{chars_of, string_of, trim, trim_exec};

verus! {

pub struct DockerError(pub String);

pub struct DockerManager {
    container_name: String,
    image_tag: String,
}

pub open spec fn args_view(args: Vec<String>) -> Seq<Seq<char>> {
    args@.map_values(|a: String| a@)
}

fn text_of(s: &str) -> (r: String)
    ensures
        r@ == s@,
{
    string_of(&chars_of(s))
}

fn push_word(v: &mut Vec<String>, w: &str)
    ensures
        args_view(*final(v)) == args_view(*old(v)).push(w@),
{
    v.push(text_of(w));
    assert(args_view(*v) =~= args_view(*old(v)).push(w@));
}

impl DockerManager {
    pub closed spec fn container_name(&self) -> Seq<char> {
        self.container_name@
    }

    pub closed spec fn image_tag(&self) -> Seq<char> {
        self.image_tag@
    }

    pub fn new() -> (r: DockerManager)
        ensures
            r.container_name() == "consoley_desktop"@,
            r.image_tag() == "consoleai/desktop:latest"@,
    {
        DockerManager {
            container_name: text_of("consoley_desktop"),
            image_tag: text_of("consoleai/desktop:latest"),
        }
    }

    /// The engine command that creates the container: the three published
    /// ports, privileged, with the host's X11 socket mounted.
    pub fn create_args(&self) -> (r: Vec<String>)
        ensures
            args_view(r) == seq![
                "create"@,
                "--name"@,
                self.container_name(),
                "-p"@,
                "5800:5900"@,
                "-p"@,
                "6070:6080"@,
                "-p"@,
                "8090:8080"@,
                "--privileged"@,
                "-v"@,
                "/tmp/.X11-unix:/tmp/.X11-unix:rw"@,
                self.image_tag(),
            ],
    {
        let mut v: Vec<String> = Vec::new();
        push_word(&mut v, "create");
        push_word(&mut v, "--name");
        push_word(&mut v, self.container_name.as_str());
        push_word(&mut v, "-p");
        push_word(&mut v, "5800:5900");
        push_word(&mut v, "-p");
        push_word(&mut v, "6070:6080");
        push_word(&mut v, "-p");
        push_word(&mut v, "8090:8080");
        push_word(&mut v, "--privileged");
        push_word(&mut v, "-v");
        push_word(&mut v, "/tmp/.X11-unix:/tmp/.X11-unix:rw");
        push_word(&mut v, self.image_tag.as_str());
        v
    }
}

/// The container's status as `docker inspect` reported it, or `not_found`
/// when the command failed.
pub fn container_status(success: bool, stdout: &str) -> (r: String)
    ensures
        success ==> r@ == trim(stdout@),
        !success ==> r@ == "not_found"@,
{
    if !success {
        return text_of("not_found");
    }
    string_of(&trim_exec(&chars_of(stdout)))
}

/// Whether a listing command printed anything but white space.
pub fn listing_found(stdout: &str) -> (r: bool)
    ensures
        r == (trim(stdout@).len() > 0),
{
    trim_exec(&chars_of(stdout)).len() > 0
}

} // verus!
