//! The verbs of the command line as values: their arguments, the command run
//! inside a session, and the checks made on the arguments.
use vstd::prelude::*;
use crate::catalog::{Image, ImageView};
use crate::engine::Container;
use crate::error::Error;
use crate::text::{chars_of, split_once, split_once_at, str_views, string_of};
use crate::user::User;

verus! {

/// The command run inside a session: the program, and the arguments handed
/// to it. With no words, `/bin/bash` with no arguments.
#[derive(Debug)]
pub struct Cmd {
    main: String,
    detail: Vec<String>,
}

pub ghost struct CmdView {
    pub main: Seq<char>,
    pub detail: Seq<Seq<char>>,
}

impl View for Cmd {
    type V = CmdView;

    closed spec fn view(&self) -> CmdView {
        CmdView { main: self.main@, detail: str_views(self.detail@) }
    }
}

/// The command that the words `words` give.
pub open spec fn cmd_of(words: Seq<Seq<char>>) -> CmdView {
    if words.len() == 0 {
        CmdView { main: "/bin/bash"@, detail: seq![] }
    } else {
        CmdView { main: words[0], detail: words.drop_first() }
    }
}

impl Cmd {
    pub fn new(words: Vec<String>) -> (r: Cmd)
        ensures
            r@ == cmd_of(str_views(words@)),
    {
        if words.len() == 0 {
            let main = string_of(&chars_of("/bin/bash"));
            let detail: Vec<String> = Vec::new();
            assert(str_views(detail@) =~= seq![]);
            Cmd { main, detail }
        } else {
            let main = string_of(&chars_of(words[0].as_str()));
            let mut detail: Vec<String> = Vec::new();
            let mut i: usize = 1;
            while i < words.len()
                invariant
                    1 <= i <= words@.len(),
                    str_views(detail@) == str_views(words@).subrange(1, i as int),
                decreases words@.len() - i,
            {
                let ghost prev = detail@;
                detail.push(string_of(&chars_of(words[i].as_str())));
                assert(str_views(detail@) =~= str_views(prev).push(words@[i as int]@));
                assert(str_views(words@).subrange(1, i + 1) =~= str_views(words@).subrange(
                    1,
                    i as int,
                ).push(words@[i as int]@));
                i = i + 1;
            }
            assert(str_views(words@).subrange(1, words@.len() as int) =~= str_views(
                words@,
            ).drop_first());
            Cmd { main, detail }
        }
    }

    pub fn main(&self) -> (r: &str)
        ensures
            r@ == self@.main,
    {
        self.main.as_str()
    }

    pub fn detail(&self) -> (r: &Vec<String>)
        ensures
            str_views(r@) == self@.detail,
    {
        &self.detail
    }

    /// The arguments, as string slices.
    pub fn detail_iter(&self) -> (r: Vec<&str>)
        ensures
            r@.map_values(|s: &str| s@) == self@.detail,
    {
        let mut r: Vec<&str> = Vec::new();
        let mut i: usize = 0;
        while i < self.detail.len()
            invariant
                i <= self.detail@.len(),
                r@.map_values(|s: &str| s@) == str_views(self.detail@.subrange(0, i as int)),
            decreases self.detail@.len() - i,
        {
            let ghost prev = r@;
            r.push(self.detail[i].as_str());
            assert(r@.map_values(|s: &str| s@) =~= prev.map_values(|s: &str| s@).push(
                self.detail@[i as int]@,
            ));
            assert(str_views(self.detail@.subrange(0, i + 1)) =~= str_views(
                self.detail@.subrange(0, i as int),
            ).push(self.detail@[i as int]@));
            i = i + 1;
        }
        assert(self.detail@.subrange(0, self.detail@.len() as int) =~= self.detail@);
        r
    }
}

/// Where the injected root filesystem comes from.
#[derive(Debug)]
pub enum RootFSOption {
    Rootfs(String),
    RootfsImage(Image),
    RootfsDocker(String),
    RootfsLxd(String),
    Default,
}

/// The distribution and version that an `--rootfs-image` value
/// `<distribution>/<version>` names, both non-empty.
pub open spec fn image_ref(s: Seq<char>) -> Option<(Seq<char>, Seq<char>)> {
    match split_once(s, "/"@) {
        Some((d, v)) => if d.len() > 0 && v.len() > 0 {
            Some((d, v))
        } else {
            None
        },
        None => None,
    }
}

pub open spec fn count_some(a: bool, b: bool, c: bool, d: bool) -> int {
    (if a { 1int } else { 0 }) + (if b { 1int } else { 0 }) + (if c { 1int } else { 0 }) + (if d {
        1int
    } else {
        0
    })
}

/// The root filesystem that the four `--rootfs*` options select. An
/// `--rootfs-image` value that is not `<distribution>/<version>` gives
/// `ImageSyntaxError`; otherwise more than one option gives `CommandError`.
pub fn check_rootfs(
    user: &User,
    opt_rootfs: Option<&str>,
    opt_rootfs_image: Option<&str>,
    opt_rootfs_docker: Option<&str>,
    opt_rootfs_lxd: Option<&str>,
) -> (r: Result<RootFSOption, Error>)
    ensures
        match opt_rootfs_image {
            Some(i) => image_ref(i@) is None ==> r == Err::<RootFSOption, Error>(Error::ImageSyntaxError),
            None => true,
        },
        (opt_rootfs_image matches Some(i) ==> image_ref(i@) is Some) ==> {
            if count_some(
                opt_rootfs is Some,
                opt_rootfs_image is Some,
                opt_rootfs_docker is Some,
                opt_rootfs_lxd is Some,
            ) > 1 {
                r == Err::<RootFSOption, Error>(Error::CommandError)
            } else {
                r is Ok && match r->Ok_0 {
                    RootFSOption::Rootfs(p) => opt_rootfs matches Some(o) && p@ == o@,
                    RootFSOption::RootfsImage(img) => opt_rootfs_image matches Some(i) && image_ref(
                        i@,
                    ) == Some((img@.distribution, img@.version)) && img@ == (ImageView {
                        distribution: img@.distribution,
                        version: img@.version,
                        base: user.images_view() + "/"@ + img@.distribution + "/"@ + img@.version,
                    }),
                    RootFSOption::RootfsDocker(p) => opt_rootfs_docker matches Some(o) && p@ == o@,
                    RootFSOption::RootfsLxd(p) => opt_rootfs_lxd matches Some(o) && p@ == o@,
                    RootFSOption::Default => opt_rootfs is None && opt_rootfs_image is None
                        && opt_rootfs_docker is None && opt_rootfs_lxd is None,
                }
            }
        },
{
    let mut count: usize = 0;
    let mut rootfs = RootFSOption::Default;
    if let Some(p) = opt_rootfs {
        count = count + 1;
        rootfs = RootFSOption::Rootfs(string_of(&chars_of(p)));
    }
    if let Some(arg) = opt_rootfs_image {
        count = count + 1;
        let slash = chars_of("/");
        let (d, v) = match split_once_at(&chars_of(arg), &slash) {
            Some(p) => p,
            None => return Err(Error::ImageSyntaxError),
        };
        if d.len() == 0 || v.len() == 0 {
            return Err(Error::ImageSyntaxError);
        }
        let ds = string_of(&d);
        let vs = string_of(&v);
        rootfs = RootFSOption::RootfsImage(Image::new(ds.as_str(), vs.as_str(), user));
    }
    if let Some(p) = opt_rootfs_docker {
        count = count + 1;
        rootfs = RootFSOption::RootfsDocker(string_of(&chars_of(p)));
    }
    if let Some(p) = opt_rootfs_lxd {
        count = count + 1;
        rootfs = RootFSOption::RootfsLxd(string_of(&chars_of(p)));
    }
    if count > 1 {
        return Err(Error::CommandError);
    }
    Ok(rootfs)
}

/// The session name and the path of a `<name>:<path>` argument of `file`;
/// `FromParseError` where it has no `:`.
pub fn parse_container_path(arg: &str) -> (r: Result<(String, String), Error>)
    ensures
        match split_once(arg@, ":"@) {
            Some((n, p)) => r is Ok && r->Ok_0.0@ == n && r->Ok_0.1@ == p,
            None => r == Err::<(String, String), Error>(Error::FromParseError),
        },
{
    match split_once_at(&chars_of(arg), &chars_of(":")) {
        Some((n, p)) => Ok((string_of(&n), string_of(&p))),
        None => Err(Error::FromParseError),
    }
}

/// The arguments of `init`.
#[derive(Debug)]
pub struct Init {
    user: User,
}

impl Init {
    pub fn new(user: User) -> (r: Init)
        ensures
            r.user_view() == user,
    {
        Init { user }
    }

    pub closed spec fn user_view(&self) -> User {
        self.user
    }

    pub fn user(&self) -> (r: &User)
        ensures
            *r == self.user_view(),
    {
        &self.user
    }
}

/// The arguments of `list`.
#[derive(Debug)]
pub struct List {
    user: User,
}

impl List {
    pub fn new(user: User) -> (r: List)
        ensures
            r.user_view() == user,
    {
        List { user }
    }

    pub closed spec fn user_view(&self) -> User {
        self.user
    }

    pub fn user(&self) -> (r: &User)
        ensures
            *r == self.user_view(),
    {
        &self.user
    }
}

/// The arguments of `launch`.
#[derive(Debug)]
pub struct Launch {
    target_container: Container,
    rootfs_option: RootFSOption,
    name: String,
    cmd: Cmd,
}

impl Launch {
    pub fn new(target_container: Container, rootfs_option: RootFSOption, name: String, cmd: Cmd) -> (r:
        Launch)
        ensures
            r.target_view() == target_container,
            r.rootfs_view() == rootfs_option,
            r.name_view() == name@,
            r.cmd_view() == cmd,
    {
        Launch { target_container, rootfs_option, name, cmd }
    }

    pub closed spec fn target_view(&self) -> Container {
        self.target_container
    }

    pub closed spec fn rootfs_view(&self) -> RootFSOption {
        self.rootfs_option
    }

    pub closed spec fn name_view(&self) -> Seq<char> {
        self.name@
    }

    pub closed spec fn cmd_view(&self) -> Cmd {
        self.cmd
    }

    pub fn name(&self) -> (r: &str)
        ensures
            r@ == self.name_view(),
    {
        self.name.as_str()
    }

    pub fn target_container(&self) -> (r: &Container)
        ensures
            *r == self.target_view(),
    {
        &self.target_container
    }

    pub fn rootfs_option(&self) -> (r: &RootFSOption)
        ensures
            *r == self.rootfs_view(),
    {
        &self.rootfs_option
    }

    pub fn cmd(&self) -> (r: &Cmd)
        ensures
            *r == self.cmd_view(),
    {
        &self.cmd
    }
}

/// The arguments of `exec`.
#[derive(Debug)]
pub struct Exec {
    pub name: String,
    pub cmd: Option<String>,
}

impl Exec {
    pub fn new(name: String, cmd: Option<String>) -> (r: Exec)
        ensures
            r.name == name && r.cmd == cmd,
    {
        Exec { name, cmd }
    }
}

/// The arguments of `delete`.
#[derive(Debug)]
pub struct Delete {
    name: String,
}

impl Delete {
    pub fn new(name: String) -> (r: Delete)
        ensures
            r.name_view() == name@,
    {
        Delete { name }
    }

    pub closed spec fn name_view(&self) -> Seq<char> {
        self.name@
    }

    pub fn name(&self) -> (r: &str)
        ensures
            r@ == self.name_view(),
    {
        self.name.as_str()
    }
}

/// The arguments of `file pull` and `file push`.
#[derive(Debug)]
pub struct File {
    pub name: String,
    pub from: String,
    pub to: String,
}

impl File {
    pub fn new(name: String, from: String, to: String) -> (r: File)
        ensures
            r.name == name && r.from == from && r.to == to,
    {
        File { name, from, to }
    }
}

#[derive(Debug)]
pub enum FileSubCommand {
    Pull(File),
    Push(File),
}

/// The arguments of `file pull <NAME>:<SRC> <DEST>`.
pub fn initialize_file_pull(src: &str, dest: &str) -> (r: Result<File, Error>)
    ensures
        match split_once(src@, ":"@) {
            Some((n, p)) => r is Ok && r->Ok_0.name@ == n && r->Ok_0.from@ == p && r->Ok_0.to@
                == dest@,
            None => r is Err && r->Err_0 == Error::FromParseError,
        },
{
    let (n, p) = parse_container_path(src)?;
    Ok(File::new(n, p, string_of(&chars_of(dest))))
}

/// The arguments of `file push <SRC> <NAME>:<DEST>`.
pub fn initialize_file_push(src: &str, dest: &str) -> (r: Result<File, Error>)
    ensures
        match split_once(dest@, ":"@) {
            Some((n, p)) => r is Ok && r->Ok_0.name@ == n && r->Ok_0.from@ == src@ && r->Ok_0.to@
                == p,
            None => r is Err && r->Err_0 == Error::FromParseError,
        },
{
    let (n, p) = parse_container_path(dest)?;
    Ok(File::new(n, string_of(&chars_of(src)), p))
}

/// A verb of the command line with its arguments.
#[derive(Debug)]
pub enum SubCommand {
    Exec(Exec),
    Init(Init),
    Launch(Launch),
    List(List),
    Delete(Delete),
    File(FileSubCommand),
}

} // verus!
