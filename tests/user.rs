use injesh::error::Error;
use injesh::setting::Shell;
use injesh::user::{injesh_home_dir, login_name, CpuArchitecture, Passwd, User};

const PASSWD: &str = "root:x:0:0:root:/root:/bin/bash\n\
daemon:x:1:1:daemon:/usr/sbin:/usr/sbin/nologin\n\
runner:x:1001:121::/home/runner:/bin/bash\n";

fn runner() -> User {
    let home = injesh_home_dir(PASSWD, "runner").unwrap();
    User::new(&home, "x86_64").unwrap()
}

#[test]
fn test_user_home() {
    let userinfo = runner();
    assert_eq!(userinfo.injesh_home(), "/home/runner/.injesh");
}

#[test]
fn test_user_images() {
    let userinfo = runner();
    assert_eq!(userinfo.images(), "/home/runner/.injesh/images");
}

#[test]
fn test_user_containers() {
    let userinfo = runner();
    assert_eq!(userinfo.containers(), "/home/runner/.injesh/containers");
}

#[test]
fn test_user_architecture() {
    let userinfo = runner();
    assert_eq!(userinfo.architecture(), CpuArchitecture::Amd64);
}

#[test]
fn test_user_architecture_display() {
    let userinfo = runner();
    assert_eq!(userinfo.architecture().to_string(), "amd64");
}

#[test]
fn architecture_mapping_is_total_on_three_names() {
    assert_eq!(CpuArchitecture::new("x86_64"), Ok(CpuArchitecture::Amd64));
    assert_eq!(CpuArchitecture::new("aarch64"), Ok(CpuArchitecture::Aarch64));
    assert_eq!(CpuArchitecture::new("armv7l"), Ok(CpuArchitecture::Armhf));
    assert_eq!(CpuArchitecture::new("i686"), Err(Error::UnsupportedArchitecture));
    assert_eq!(CpuArchitecture::new(""), Err(Error::UnsupportedArchitecture));
    assert_eq!(CpuArchitecture::Aarch64.to_string(), "aarch64");
    assert_eq!(CpuArchitecture::Armhf.to_string(), "armhf");
}

#[test]
fn user_with_unknown_machine_fails() {
    assert!(matches!(User::new("/root/.injesh", "riscv64"), Err(Error::UnsupportedArchitecture)));
}

#[test]
fn passwd_line_fields() {
    let p = Passwd::parse_passwd_line("runner:x:1001:121:Runner:/home/runner:/bin/sh").unwrap();
    assert_eq!(p.user_name, "runner");
    assert_eq!(p.password, "x");
    assert_eq!(p.user_id, 1001);
    assert_eq!(p.group_id, 121);
    assert_eq!(p.comment, "Runner");
    assert_eq!(p.home_dir, "/home/runner");
    assert_eq!(p.login_shell, Some(Shell::Sh));
    let q = Passwd::parse_passwd_line("daemon:x:1:1:daemon:/usr/sbin:/usr/sbin/nologin").unwrap();
    assert_eq!(q.login_shell, None);
}

#[test]
fn passwd_line_errors() {
    assert!(matches!(Passwd::parse_passwd_line("a:b:c"), Err(Error::InvalidPasswd)));
    assert!(matches!(Passwd::parse_passwd_line("a:x:one:1::/h:/bin/sh"), Err(Error::InvalidUserId)));
    assert!(matches!(Passwd::parse_passwd_line("a:x:1:-1::/h:/bin/sh"), Err(Error::InvalidGroupId)));
    assert!(matches!(
        Passwd::parse_passwd_line("a:x:99999999999999999999:1::/h:/bin/sh"),
        Err(Error::InvalidUserId)
    ));
}

#[test]
fn home_lookup() {
    assert_eq!(injesh_home_dir(PASSWD, "root").unwrap(), "/root/.injesh");
    assert_eq!(injesh_home_dir(PASSWD, "nobody"), Err(Error::SudoUserNotFound));
    assert_eq!(injesh_home_dir("broken\nrunner:x:1:1::/home/runner:/bin/sh\n", "runner"), Err(Error::InvalidPasswd));
}

#[test]
fn login_name_prefers_sudo_user() {
    assert_eq!(login_name(Some("alice".to_string()), Some("root".to_string())).unwrap(), "alice");
    assert_eq!(login_name(None, Some("root".to_string())).unwrap(), "root");
    assert_eq!(login_name(None, None), Err(Error::SudoUserNotFound));
}
