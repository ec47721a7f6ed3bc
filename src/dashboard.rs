use vstd::prelude::*;
use crate::docker::{ContainerInfo, ContainerStatus};

verus! {

/// The dashboard's login form.
#[derive(Clone, Debug)]
pub struct LoginForm {
    pub password: String,
}

/// A container as the dashboard shows it: its status label and the style class
/// the label is drawn with.
#[derive(Clone, Debug)]
pub struct ContainerDisplay {
    pub name: String,
    pub image: String,
    pub status: String,
    pub status_class: String,
}

/// The style class of a status: running, stopped and paused have their own, every
/// other status is drawn as an error.
pub open spec fn status_class_of(status: ContainerStatus) -> Seq<char> {
    match status {
        ContainerStatus::Running => "running"@,
        ContainerStatus::Stopped => "stopped"@,
        ContainerStatus::Paused => "paused"@,
        _ => "error"@,
    }
}

pub fn status_class(status: ContainerStatus) -> (r: &'static str)
    ensures
        r@ == status_class_of(status),
{
    match status {
        ContainerStatus::Running => "running",
        ContainerStatus::Stopped => "stopped",
        ContainerStatus::Paused => "paused",
        _ => "error",
    }
}

impl ContainerDisplay {
    pub fn from_info(info: ContainerInfo) -> (r: ContainerDisplay)
        ensures
            r.name@ == info.name@,
            r.image@ == info.image@,
            r.status@ == info.status.spec_label(),
            r.status_class@ == status_class_of(info.status),
    {
        let status = info.status.to_string();
        let class = status_class(info.status).to_string();
        ContainerDisplay { name: info.name, image: info.image, status, status_class: class }
    }
}

/// The first eight characters of a commit id, or the whole id when it is shorter.
pub fn short_commit(commit: &str) -> (r: String)
    ensures
        commit@.len() >= 8 ==> r@ == commit@.subrange(0, 8),
        commit@.len() < 8 ==> r@ == commit@,
{
    let n = commit.unicode_len();
    if n >= 8 {
        commit.substring_char(0, 8).to_string()
    } else {
        commit.to_string()
    }
}

} // verus!
