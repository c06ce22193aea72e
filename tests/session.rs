use injesh::cmd::{join_order, DeleteStruct, ExecStruct, InitStruct, LaunchStruct, ListStruct, Namespace};
use injesh::command::{Cmd, Launch, RootFSOption};
use injesh::engine::{Container, DockerGraphDriverData};
use injesh::error::Error;
use injesh::overlay::{
    delete_plan, injected_target_options, launch_plan, session_overlay_options, target_overlay_options, Step,
};
use injesh::session::{check_container_exists, check_initialized, extract_container_names, list_output, Session};
use injesh::user::User;

fn user() -> User {
    User::new("/home/u/.injesh", "x86_64").unwrap()
}

fn target() -> Container {
    let data = DockerGraphDriverData {
        lower_dir: "/d/l1:/d/l2".to_string(),
        upper_dir: "/d/abc/diff".to_string(),
        merged_dir: "/d/abc/merged".to_string(),
        work_dir: "/d/abc/work".to_string(),
    };
    Container::new("abcdef012345", 7, "overlay2", &data).unwrap()
}

#[test]
fn initialize_on_a_fresh_host() {
    let dirs = InitStruct::new().init(&user(), false, false, false).unwrap();
    assert_eq!(dirs, vec!["/home/u/.injesh", "/home/u/.injesh/images", "/home/u/.injesh/containers"]);
    let some = InitStruct::new().init(&user(), true, false, true).unwrap();
    assert_eq!(some, vec!["/home/u/.injesh/images"]);
}

#[test]
fn repeat_initialize() {
    assert_eq!(InitStruct::new().init(&user(), true, true, true), Err(Error::AlreadyInitialized));
    assert_eq!(check_initialized(true, true, true), Ok(()));
    assert_eq!(check_initialized(true, false, true), Err(Error::NotInitialized));
}

#[test]
fn init_twice_in_a_row() {
    let u = user();
    let first = InitStruct::new().init(&u, false, true, false).unwrap();
    let has = |p: &str| first.iter().any(|d| d == p);
    let second = InitStruct::new().init(&u, has(u.injesh_home()), true, has(u.containers()));
    assert_eq!(second, Err(Error::AlreadyInitialized));
}

#[test]
fn list_empty() {
    assert_eq!(list_output(&vec![]), Err(Error::NoSessions));
    assert_eq!(list_output(&vec![("file.txt".to_string(), false)]), Err(Error::NoSessions));
    assert_eq!(ListStruct::new().list(false, &vec![]), Err(Error::NotInitialized));
}

#[test]
fn list_populated() {
    let entries = vec![("alpha".to_string(), true), ("notes".to_string(), false), ("bravo".to_string(), true)];
    assert_eq!(ListStruct::new().list(true, &entries).unwrap(), "alpha\nbravo\n");
    assert_eq!(extract_container_names(&entries), "alpha\nbravo\n");
}

#[test]
fn session_layout() {
    let s = Session::new(&user(), "dbg");
    assert_eq!(s.name(), "dbg");
    assert_eq!(s.base_dir(), "/home/u/.injesh/containers/dbg");
    assert_eq!(s.private_upper(), "/home/u/.injesh/containers/dbg/upper");
    assert_eq!(s.private_work(), "/home/u/.injesh/containers/dbg/worker");
    assert_eq!(s.private_merged(), "/home/u/.injesh/containers/dbg/merged");
    assert_eq!(s.settings(), "/home/u/.injesh/containers/dbg/setting.yaml");
    assert_eq!(check_container_exists(false), Err(Error::ContainerNotFound));
    assert_eq!(check_container_exists(true), Ok(()));
}

#[test]
fn mount_options() {
    let t = target();
    let s = Session::new(&user(), "dbg");
    assert_eq!(target_overlay_options(&t), "lowerdir=/d/l1:/d/l2,upperdir=/d/abc/diff,workdir=/d/abc/work");
    assert_eq!(
        injected_target_options("/r/rootfs", &t),
        "lowerdir=/r/rootfs:/d/l1:/d/l2,upperdir=/d/abc/diff,workdir=/d/abc/work"
    );
    assert_eq!(
        session_overlay_options("/r/rootfs", &t, &s),
        "lowerdir=/r/rootfs:/d/abc/merged,upperdir=/home/u/.injesh/containers/dbg/upper,workdir=/home/u/.injesh/containers/dbg/worker"
    );
}

#[test]
fn launch_steps() {
    let t = target();
    let s = Session::new(&user(), "dbg");
    let steps = launch_plan(true, false, &t, "/r/rootfs", &s).unwrap();
    assert_eq!(steps.len(), 10);
    assert!(matches!(&steps[4], Step::CopyTree { from, to } if from == "/d/abc/diff" && to == "/home/u/.injesh/containers/dbg/upper"));
    assert!(matches!(&steps[5], Step::Unmount(p) if p == "/d/abc/merged"));
    assert!(matches!(&steps[7], Step::Restart));
    assert!(matches!(&steps[9], Step::Mount { at, .. } if at == "/home/u/.injesh/containers/dbg/merged"));
}

#[test]
fn launch_with_an_existing_name() {
    let t = target();
    let s = Session::new(&user(), "dbg");
    assert!(matches!(launch_plan(true, true, &t, "/r/rootfs", &s), Err(Error::AlreadyExists)));
    assert!(matches!(launch_plan(false, false, &t, "/r/rootfs", &s), Err(Error::NotInitialized)));
    let launch = Launch::new(t, RootFSOption::Rootfs("/r/rootfs".to_string()), "dbg".to_string(), Cmd::new(vec![]));
    assert!(matches!(LaunchStruct::new().launch(true, true, &launch, "/r/rootfs", &s), Err(Error::AlreadyExists)));
    assert_eq!(launch.name(), "dbg");
    assert_eq!(launch.target_container().container_id(), "abcdef012345");
    assert!(matches!(launch.rootfs_option(), RootFSOption::Rootfs(p) if p == "/r/rootfs"));
    assert_eq!(launch.cmd().main(), "/bin/bash");
}

#[test]
fn delete_steps() {
    let t = target();
    let s = Session::new(&user(), "dbg");
    assert!(matches!(delete_plan(true, false, &t, &s), Err(Error::ContainerNotFound)));
    let steps = DeleteStruct::new().delete(true, true, &t, &s).unwrap();
    assert_eq!(steps.len(), 6);
    assert!(matches!(&steps[2], Step::CopyTree { from, to } if from == "/home/u/.injesh/containers/dbg/upper" && to == "/d/abc/diff"));
    assert!(matches!(&steps[3], Step::Mount { at, options } if at == "/d/abc/merged" && options == "lowerdir=/d/l1:/d/l2,upperdir=/d/abc/diff,workdir=/d/abc/work"));
    assert!(matches!(&steps[5], Step::RemoveTree(p) if p == "/home/u/.injesh/containers/dbg"));
}

#[test]
fn exec_root_and_namespaces() {
    let s = Session::new(&user(), "dbg");
    assert_eq!(ExecStruct::new().exec(true, true, &s).unwrap(), "/home/u/.injesh/containers/dbg/merged");
    assert_eq!(ExecStruct::new().exec(true, false, &s), Err(Error::ContainerNotFound));
    let order: Vec<String> = join_order().iter().map(|n| n.name()).collect();
    assert_eq!(order, vec!["net", "cgroup", "ipc", "pid", "uts", "mnt"]);
    assert_eq!(Namespace::Mnt.name(), "mnt");
}
