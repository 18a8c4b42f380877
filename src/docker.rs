//! The decisions of the desktop launcher that provisions the sandbox: which
//! container to use, what its logs say, and whether a cached image archive
//! looks usable. The container engine itself is driven by the caller.
use vstd::prelude::*;

use crate::text::{chars_of, contains, contains_exec, push_str, same_text, string_of};

verus! {

pub enum DockerError {
    Connection(String),
    Container(String),
    Image(String),
    IO(String),
}

/// The text of an error, as it is shown to the user.
pub open spec fn docker_error_text(e: DockerError) -> Seq<char> {
    match e {
        DockerError::Connection(m) => "Docker connection error: "@ + m@,
        DockerError::Container(m) => "Container operation error: "@ + m@,
        DockerError::Image(m) => "Image operation error: "@ + m@,
        DockerError::IO(m) => "IO error: "@ + m@,
    }
}

impl DockerError {
    pub fn message(&self) -> (r: String)
        ensures
            r@ == docker_error_text(*self),
    {
        let (head, m) = match self {
            DockerError::Connection(m) => ("Docker connection error: ", m),
            DockerError::Container(m) => ("Container operation error: ", m),
            DockerError::Image(m) => ("Image operation error: ", m),
            DockerError::IO(m) => ("IO error: ", m),
        };
        let mut v = chars_of(head);
        push_str(&mut v, m.as_str());
        string_of(&v)
    }
}

/// What the launcher knows of a container that the engine listed.
pub struct ContainerSummary {
    pub id: Option<String>,
    pub state: Option<String>,
}

/// Whether to reuse a listed container, starting it first unless it runs, or to create one.
pub enum ContainerPlan {
    Reuse { id: String, start: bool },
    Create,
}

/// The first listed container is reused if it has an id; else a new one is created.
pub fn plan_container(existing: &Vec<ContainerSummary>) -> (r: ContainerPlan)
    ensures
        existing@.len() == 0 ==> r is Create,
        existing@.len() > 0 ==> match existing@[0].id {
            None => r is Create,
            Some(id) => r matches ContainerPlan::Reuse { id: rid, start } && rid@ == id@ && start
                == !(existing@[0].state matches Some(s) && s@ == "running"@),
        },
{
    if existing.len() == 0 {
        return ContainerPlan::Create;
    }
    let first = &existing[0];
    match &first.id {
        None => ContainerPlan::Create,
        Some(id) => {
            let running = match &first.state {
                Some(s) => same_text(s.as_str(), "running"),
                None => false,
            };
            ContainerPlan::Reuse { id: string_of(&chars_of(id.as_str())), start: !running }
        },
    }
}

/// How many times the logs are polled, a second apart, for the desktop to come up.
pub const SERVICE_POLLS: u32 = 30;

/// Whether the supervisor logs report that the API server exited with an error.
pub fn api_server_failed(logs: &str) -> (r: bool)
    ensures
        r == contains(logs@, "exited: api-server (exit status 1)"@),
{
    contains_exec(&chars_of(logs), &chars_of("exited: api-server (exit status 1)"))
}

/// Whether the supervisor logs report that the remote screen is up.
pub fn services_ready(logs: &str) -> (r: bool)
    ensures
        r == contains(logs@, "success: x11vnc entered RUNNING state"@),
{
    contains_exec(&chars_of(logs), &chars_of("success: x11vnc entered RUNNING state"))
}

/// Whether a cached image archive can be used as it is: larger than 100 MB,
/// and starting as a gzip stream or with the `ustar` magic.
pub open spec fn usable_archive(size: u64, header: Seq<u8>) -> bool {
    size > 100_000_000 && ((header.len() >= 2 && header[0] == 0x1f && header[1] == 0x8b) || (
    header.len() >= 5 && header[0] == 0x75 && header[1] == 0x73 && header[2] == 0x74 && header[3]
        == 0x61 && header[4] == 0x72))
}

pub fn is_usable_archive(size: u64, header: &Vec<u8>) -> (r: bool)
    ensures
        r == usable_archive(size, header@),
{
    if size <= 100_000_000 {
        return false;
    }
    let gzip = header.len() >= 2 && header[0] == 0x1f && header[1] == 0x8b;
    let tar = header.len() >= 5 && header[0] == 0x75 && header[1] == 0x73 && header[2] == 0x74
        && header[3] == 0x61 && header[4] == 0x72;
    gzip || tar
}

} // verus!
