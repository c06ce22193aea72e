use injesh::command::{
    check_rootfs, initialize_file_pull, initialize_file_push, parse_container_path, Cmd, Delete, Exec,
    File, FileSubCommand, Init, List, RootFSOption, SubCommand,
};
use injesh::error::Error;
use injesh::setting::{Reader, Setting, SettingHandler, Shell, Writer};
use injesh::user::User;
use std::cell::RefCell;

fn user() -> User {
    User::new("/home/u/.injesh", "aarch64").unwrap()
}

#[test]
fn cmd_defaults_to_bash() {
    let c = Cmd::new(vec![]);
    assert_eq!(c.main(), "/bin/bash");
    assert!(c.detail().is_empty());
    let c = Cmd::new(vec!["echo".to_string(), "hoge".to_string()]);
    assert_eq!(c.main(), "echo");
    assert_eq!(c.detail(), &vec!["hoge".to_string()]);
    assert_eq!(c.detail_iter(), vec!["hoge"]);
}

#[test]
fn rootfs_options() {
    let u = user();
    assert!(matches!(check_rootfs(&u, None, None, None, None), Ok(RootFSOption::Default)));
    assert!(matches!(check_rootfs(&u, Some("/tmp/r"), None, None, None), Ok(RootFSOption::Rootfs(p)) if p == "/tmp/r"));
    match check_rootfs(&u, None, Some("busybox/1.34.1"), None, None) {
        Ok(RootFSOption::RootfsImage(img)) => {
            assert_eq!(img.distribution(), "busybox");
            assert_eq!(img.version(), "1.34.1");
            assert_eq!(img.image_base_path(), "/home/u/.injesh/images/busybox/1.34.1");
        }
        other => panic!("unexpected {:?}", other),
    }
    assert!(matches!(check_rootfs(&u, None, Some("busybox"), None, None), Err(Error::ImageSyntaxError)));
    assert!(matches!(check_rootfs(&u, None, Some("/1.0"), None, None), Err(Error::ImageSyntaxError)));
    assert!(matches!(check_rootfs(&u, None, Some("busybox/"), None, None), Err(Error::ImageSyntaxError)));
    assert!(matches!(check_rootfs(&u, Some("/r"), None, Some("img"), None), Err(Error::CommandError)));
    assert!(matches!(check_rootfs(&u, None, None, None, Some("ubuntu:20.04")), Ok(RootFSOption::RootfsLxd(p)) if p == "ubuntu:20.04"));
    assert!(matches!(check_rootfs(&u, None, None, Some("alpine"), None), Ok(RootFSOption::RootfsDocker(p)) if p == "alpine"));
}

#[test]
fn container_paths() {
    assert_eq!(parse_container_path("dbg:/etc/hosts").unwrap(), ("dbg".to_string(), "/etc/hosts".to_string()));
    assert_eq!(parse_container_path("dbg/etc"), Err(Error::FromParseError));
    let f = initialize_file_pull("dbg:/etc/hosts", "/tmp/hosts").unwrap();
    assert_eq!((f.name.as_str(), f.from.as_str(), f.to.as_str()), ("dbg", "/etc/hosts", "/tmp/hosts"));
    let f = initialize_file_push("/tmp/hosts", "dbg:/etc/hosts").unwrap();
    assert_eq!((f.name.as_str(), f.from.as_str(), f.to.as_str()), ("dbg", "/tmp/hosts", "/etc/hosts"));
    assert!(matches!(initialize_file_push("/tmp/hosts", "/etc/hosts"), Err(Error::FromParseError)));
}

#[test]
fn verbs_as_values() {
    let d = Delete::new("dbg".to_string());
    assert_eq!(d.name(), "dbg");
    let e = Exec::new("dbg".to_string(), Some("ls".to_string()));
    assert_eq!(e.cmd.as_deref(), Some("ls"));
    let i = Init::new(user());
    assert_eq!(i.user().images(), "/home/u/.injesh/images");
    let l = List::new(user());
    assert_eq!(l.user().containers(), "/home/u/.injesh/containers");
    let f = File::new("dbg".to_string(), "/a".to_string(), "/b".to_string());
    assert!(matches!(SubCommand::File(FileSubCommand::Pull(f)), SubCommand::File(_)));
}

#[test]
fn shells() {
    assert_eq!(Shell::Bash.to_string(), "bash");
    assert_eq!(Shell::Sh.to_string(), "sh");
    assert_eq!(Shell::from_name("/bin/bash"), Ok(Shell::Bash));
    assert_eq!(Shell::from_name("sh"), Ok(Shell::Sh));
    assert_eq!(Shell::from_name("/bin/sh"), Ok(Shell::Sh));
    assert_eq!(Shell::from_name("zsh"), Err(Error::UnexpectedShell));
    assert_eq!(Shell::from_name(&Shell::Sh.to_string()), Ok(Shell::Sh));
}

#[test]
fn settings_record() {
    let commands = vec!["ls".to_string(), "cat".to_string()];
    let s = Setting::from_record("abcd", "bash", &commands).unwrap();
    assert_eq!(s, Setting::new("abcd", Shell::Bash, &commands));
    assert_eq!(s.docker_container_id(), "abcd");
    assert_eq!(s.commands(), &commands[..]);
    assert_eq!(s.shell(), Shell::Bash);
    assert_eq!(Setting::from_record("abcd", "fish", &commands), Err(Error::UnexpectedShell));
}

struct Memory {
    stored: RefCell<Option<(String, Shell, Vec<String>)>>,
    reads: RefCell<usize>,
}

impl Reader for Memory {
    fn read(&self) -> Result<Setting, Error> {
        *self.reads.borrow_mut() += 1;
        match &*self.stored.borrow() {
            Some((id, sh, c)) => Ok(Setting::new(id, *sh, c)),
            None => Err(Error::ContainerNotFound),
        }
    }
}

impl Writer for Memory {
    fn write(&self, setting: &Setting) -> Result<(), Error> {
        *self.stored.borrow_mut() =
            Some((setting.docker_container_id().to_string(), setting.shell(), setting.commands().to_vec()));
        Ok(())
    }
}

#[test]
fn setting_handler_caches() {
    let mem = Memory { stored: RefCell::new(None), reads: RefCell::new(0) };
    let mut h = SettingHandler::new(mem);
    assert!(h.write().is_ok());
    assert_eq!(h.read().err(), Some(Error::ContainerNotFound));
    h.init("abcdef012345", Shell::Sh, &["top".to_string()]);
    h.write().unwrap();
    let s = h.read().unwrap();
    assert_eq!(s.docker_container_id(), "abcdef012345");
    assert_eq!(s.shell(), Shell::Sh);
    let m = h.read_mut().unwrap();
    assert_eq!(m.commands(), &["top".to_string()][..]);

    let stored = Memory {
        stored: RefCell::new(Some(("abcd".to_string(), Shell::Bash, vec!["ls".to_string()]))),
        reads: RefCell::new(0),
    };
    let mut h2 = SettingHandler::new(stored);
    assert_eq!(h2.read().unwrap().docker_container_id(), "abcd");
    assert_eq!(h2.read().unwrap().docker_container_id(), "abcd");
}
