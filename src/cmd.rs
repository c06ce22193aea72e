//! The verbs' decisions: for each of `init`, `list`, `launch`, `exec` and
//! `delete`, what is to be done given what the host holds.
use vstd::prelude::*;
use crate::command::Launch;
use crate::engine::Container;
use crate::error::Error;
use crate::overlay::{delete_plan, delete_spec, launch_plan, launch_spec, step_views, Step};
use crate::session::{entry_views, init_spec, list_output, names_text, Session};
use crate::text::{chars_of, str_views, string_of};
use crate::user::User;

verus! {

/// Runs `init`: initialises the state root.
pub struct InitStruct;

impl InitStruct {
    pub fn new() -> (r: InitStruct) {
        InitStruct
    }

    /// The directories to create for `user`, given which of the state root,
    /// the images root and the sessions root exist.
    pub fn init(&self, user: &User, home_exists: bool, images_exist: bool, containers_exist: bool) -> (r:
        Result<Vec<String>, Error>)
        ensures
            match init_spec(
                user.home_view(),
                user.images_view(),
                user.containers_view(),
                home_exists,
                images_exist,
                containers_exist,
            ) {
                Ok(dirs) => r is Ok && str_views(r->Ok_0@) == dirs,
                Err(e) => r == Err::<Vec<String>, Error>(e),
            },
    {
        if home_exists && images_exist && containers_exist {
            return Err(Error::AlreadyInitialized);
        }
        let mut dirs: Vec<String> = Vec::new();
        if !home_exists {
            dirs.push(string_of(&chars_of(user.injesh_home())));
        }
        if !images_exist {
            dirs.push(string_of(&chars_of(user.images())));
        }
        if !containers_exist {
            dirs.push(string_of(&chars_of(user.containers())));
        }
        proof {
            let a = if home_exists { seq![] } else { seq![user.home_view()] };
            let b = if images_exist { a } else { a.push(user.images_view()) };
            let c = if containers_exist { b } else { b.push(user.containers_view()) };
            assert(str_views(dirs@) =~= c);
        }
        Ok(dirs)
    }
}

/// Runs `list`: prints the session names.
pub struct ListStruct;

impl ListStruct {
    pub fn new() -> (r: ListStruct) {
        ListStruct
    }

    /// What `list` prints, given the entries of the sessions root.
    pub fn list(&self, initialized: bool, entries: &Vec<(String, bool)>) -> (r: Result<String, Error>)
        ensures
            !initialized ==> r == Err::<String, Error>(Error::NotInitialized),
            initialized ==> match r {
                Ok(s) => s@ == names_text(entry_views(entries@)) && s@.len() > 0,
                Err(e) => e == Error::NoSessions && names_text(entry_views(entries@)).len() == 0,
            },
    {
        if !initialized {
            return Err(Error::NotInitialized);
        }
        list_output(entries)
    }
}

/// Runs `launch`: builds a debug session on a target.
pub struct LaunchStruct;

impl LaunchStruct {
    pub fn new() -> (r: LaunchStruct) {
        LaunchStruct
    }

    /// The steps that inject `rootfs` into the target of `launch` for `session`.
    pub fn launch(
        &self,
        initialized: bool,
        session_exists: bool,
        launch: &Launch,
        rootfs: &str,
        session: &Session,
    ) -> (r: Result<Vec<Step>, Error>)
        ensures
            match launch_spec(initialized, session_exists, launch.target_view()@, rootfs@, session@) {
                Ok(steps) => r is Ok && step_views(r->Ok_0@) == steps,
                Err(e) => r == Err::<Vec<Step>, Error>(e),
            },
    {
        launch_plan(initialized, session_exists, launch.target_container(), rootfs, session)
    }
}

/// Runs `exec`: enters an existing session.
pub struct ExecStruct;

impl ExecStruct {
    pub fn new() -> (r: ExecStruct) {
        ExecStruct
    }

    /// The root directory that the debug process enters: the session's merged view.
    pub fn exec(&self, initialized: bool, session_exists: bool, session: &Session) -> (r: Result<
        String,
        Error,
    >)
        ensures
            !initialized ==> r == Err::<String, Error>(Error::NotInitialized),
            initialized && !session_exists ==> r == Err::<String, Error>(Error::ContainerNotFound),
            initialized && session_exists ==> r is Ok && r->Ok_0@ == session@.base + "/"@ + "merged"@,
    {
        if !initialized {
            return Err(Error::NotInitialized);
        }
        if !session_exists {
            return Err(Error::ContainerNotFound);
        }
        Ok(session.private_merged())
    }
}

/// Runs `delete`: dissolves a debug session.
pub struct DeleteStruct;

impl DeleteStruct {
    pub fn new() -> (r: DeleteStruct) {
        DeleteStruct
    }

    /// The steps that dissolve `session` from `target`.
    pub fn delete(
        &self,
        initialized: bool,
        session_exists: bool,
        target: &Container,
        session: &Session,
    ) -> (r: Result<Vec<Step>, Error>)
        ensures
            match delete_spec(initialized, session_exists, target@, session@) {
                Ok(steps) => r is Ok && step_views(r->Ok_0@) == steps,
                Err(e) => r == Err::<Vec<Step>, Error>(e),
            },
    {
        delete_plan(initialized, session_exists, target, session)
    }
}

/// The kernel namespaces that a debug process joins.
#[derive(Copy, Clone, Debug, PartialEq, Eq)]
pub enum Namespace {
    Net,
    Cgroup,
    Ipc,
    Pid,
    Uts,
    Mnt,
}

pub open spec fn namespace_name(n: Namespace) -> Seq<char> {
    match n {
        Namespace::Net => "net"@,
        Namespace::Cgroup => "cgroup"@,
        Namespace::Ipc => "ipc"@,
        Namespace::Pid => "pid"@,
        Namespace::Uts => "uts"@,
        Namespace::Mnt => "mnt"@,
    }
}

impl Namespace {
    /// The name of the namespace's handle under `/proc/<pid>/ns/`.
    pub fn name(&self) -> (r: String)
        ensures
            r@ == namespace_name(*self),
    {
        match self {
            Namespace::Net => string_of(&chars_of("net")),
            Namespace::Cgroup => string_of(&chars_of("cgroup")),
            Namespace::Ipc => string_of(&chars_of("ipc")),
            Namespace::Pid => string_of(&chars_of("pid")),
            Namespace::Uts => string_of(&chars_of("uts")),
            Namespace::Mnt => string_of(&chars_of("mnt")),
        }
    }
}

/// The order in which the target's namespaces are joined: the mount
/// namespace last, so that `/proc` stays readable for the others.
pub fn join_order() -> (r: Vec<Namespace>)
    ensures
        r@ == seq![
            Namespace::Net,
            Namespace::Cgroup,
            Namespace::Ipc,
            Namespace::Pid,
            Namespace::Uts,
            Namespace::Mnt,
        ],
{
    let mut v: Vec<Namespace> = Vec::new();
    v.push(Namespace::Net);
    v.push(Namespace::Cgroup);
    v.push(Namespace::Ipc);
    v.push(Namespace::Pid);
    v.push(Namespace::Uts);
    v.push(Namespace::Mnt);
    assert(v@ =~= seq![
        Namespace::Net,
        Namespace::Cgroup,
        Namespace::Ipc,
        Namespace::Pid,
        Namespace::Uts,
        Namespace::Mnt,
    ]);
    v
}

} // verus!
