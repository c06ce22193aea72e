//! The invoking user's identity: the state root under the home directory, the
//! CPU architecture used to pick images, and the passwd database lookup that
//! finds the home directory of the user behind `sudo`.
use vstd::prelude::*;
use crate::error::Error;
use crate::setting::Shell;
use crate::text::{non_empty, chars_of, concat, parse_at_most, parse_decimal, same_chars, split, split_on, str_eq, string_of, views};

verus! {

/// The architectures for which images are fetched.
#[derive(Copy, Clone, Debug, PartialEq, Eq)]
pub enum CpuArchitecture {
    Aarch64,
    Amd64,
    Armhf,
}

/// The architecture that a kernel machine name stands for.
pub open spec fn arch_of(machine: Seq<char>) -> Option<CpuArchitecture> {
    if machine == "x86_64"@ {
        Some(CpuArchitecture::Amd64)
    } else if machine == "aarch64"@ {
        Some(CpuArchitecture::Aarch64)
    } else if machine == "armv7l"@ {
        Some(CpuArchitecture::Armhf)
    } else {
        None
    }
}

/// The name that the image catalog uses for an architecture.
pub open spec fn arch_name(a: CpuArchitecture) -> Seq<char> {
    match a {
        CpuArchitecture::Aarch64 => "aarch64"@,
        CpuArchitecture::Amd64 => "amd64"@,
        CpuArchitecture::Armhf => "armhf"@,
    }
}

impl CpuArchitecture {
    /// The architecture of a kernel machine name (`utsname.machine`).
    pub fn new(machine: &str) -> (r: Result<CpuArchitecture, Error>)
        ensures
            r == match arch_of(machine@) {
                Some(a) => Ok(a),
                None => Err(Error::UnsupportedArchitecture),
            },
    {
        if str_eq(machine, "x86_64") {
            Ok(CpuArchitecture::Amd64)
        } else if str_eq(machine, "aarch64") {
            Ok(CpuArchitecture::Aarch64)
        } else if str_eq(machine, "armv7l") {
            Ok(CpuArchitecture::Armhf)
        } else {
            Err(Error::UnsupportedArchitecture)
        }
    }

    /// The catalog name of the architecture.
    pub fn to_string(&self) -> (r: String)
        ensures
            r@ == arch_name(*self),
    {
        match self {
            CpuArchitecture::Aarch64 => string_of(&chars_of("aarch64")),
            CpuArchitecture::Amd64 => string_of(&chars_of("amd64")),
            CpuArchitecture::Armhf => string_of(&chars_of("armhf")),
        }
    }
}

/// The per-user state root and its two subdirectories, with the architecture.
#[derive(Debug)]
pub struct User {
    injesh_home: String,
    images: String,
    containers: String,
    architecture: CpuArchitecture,
}

impl User {
    pub closed spec fn home_view(&self) -> Seq<char> {
        self.injesh_home@
    }

    pub closed spec fn images_view(&self) -> Seq<char> {
        self.images@
    }

    pub closed spec fn containers_view(&self) -> Seq<char> {
        self.containers@
    }

    pub closed spec fn arch_view(&self) -> CpuArchitecture {
        self.architecture
    }

    /// The user whose state root is `injesh_home`, on a host whose kernel
    /// reports the machine name `machine`.
    pub fn new(injesh_home: &str, machine: &str) -> (r: Result<User, Error>)
        ensures
            match r {
                Ok(u) => {
                    &&& arch_of(machine@) == Some(u.arch_view())
                    &&& u.home_view() == injesh_home@
                    &&& u.images_view() == injesh_home@ + "/images"@
                    &&& u.containers_view() == injesh_home@ + "/containers"@
                },
                Err(e) => arch_of(machine@).is_none() && e == Error::UnsupportedArchitecture,
            },
    {
        let architecture = CpuArchitecture::new(machine)?;
        Ok(User {
            injesh_home: string_of(&chars_of(injesh_home)),
            images: concat(injesh_home, "/images"),
            containers: concat(injesh_home, "/containers"),
            architecture,
        })
    }

    pub fn injesh_home(&self) -> (r: &str)
        ensures
            r@ == self.home_view(),
    {
        self.injesh_home.as_str()
    }

    pub fn images(&self) -> (r: &str)
        ensures
            r@ == self.images_view(),
    {
        self.images.as_str()
    }

    pub fn containers(&self) -> (r: &str)
        ensures
            r@ == self.containers_view(),
    {
        self.containers.as_str()
    }

    pub fn architecture(&self) -> (r: CpuArchitecture)
        ensures
            r == self.arch_view(),
    {
        self.architecture
    }
}

/// The name of the user whose home holds the state root: the one behind
/// `sudo` when there is one, else the current user.
pub fn login_name(sudo_user: Option<String>, user: Option<String>) -> (r: Result<String, Error>)
    ensures
        r == match sudo_user {
            Some(s) => Ok(s),
            None => match user {
                Some(u) => Ok(u),
                None => Err(Error::SudoUserNotFound),
            },
        },
{
    match sudo_user {
        Some(s) => Ok(s),
        None => match user {
            Some(u) => Ok(u),
            None => Err(Error::SudoUserNotFound),
        },
    }
}

/// One record of the passwd database.
#[derive(Debug)]
pub struct Passwd {
    pub user_name: String,
    pub password: String,
    pub user_id: u64,
    pub group_id: u64,
    pub comment: String,
    pub home_dir: String,
    pub login_shell: Option<Shell>,
}

/// The login shell that a passwd shell field names, if it is one the library knows.
pub open spec fn login_shell_of(f: Seq<char>) -> Option<Shell> {
    if f == "/bin/bash"@ {
        Some(Shell::Bash)
    } else if f == "/bin/sh"@ {
        Some(Shell::Sh)
    } else {
        None
    }
}

/// Why a passwd line cannot be read, if it cannot.
pub open spec fn passwd_error(line: Seq<char>) -> Option<Error> {
    let f = split(line, ':');
    if f.len() < 7 {
        Some(Error::InvalidPasswd)
    } else if parse_at_most(f[2], u64::MAX as nat).is_none() {
        Some(Error::InvalidUserId)
    } else if parse_at_most(f[3], u64::MAX as nat).is_none() {
        Some(Error::InvalidGroupId)
    } else {
        None
    }
}

impl Passwd {
    /// The fields of one passwd line, `name:password:uid:gid:comment:home:shell`.
    pub fn parse_passwd_line(line: &str) -> (r: Result<Passwd, Error>)
        ensures
            match r {
                Ok(p) => {
                    let f = split(line@, ':');
                    &&& passwd_error(line@).is_none()
                    &&& p.user_name@ == f[0]
                    &&& p.password@ == f[1]
                    &&& parse_at_most(f[2], u64::MAX as nat) == Some(p.user_id as nat)
                    &&& parse_at_most(f[3], u64::MAX as nat) == Some(p.group_id as nat)
                    &&& p.comment@ == f[4]
                    &&& p.home_dir@ == f[5]
                    &&& p.login_shell == login_shell_of(f[6])
                },
                Err(e) => passwd_error(line@) == Some(e),
            },
    {
        let f = split_on(&chars_of(line), ':');
        assert(views(f@).len() == f@.len());
        if f.len() < 7 {
            return Err(Error::InvalidPasswd);
        }
        assert(views(f@)[2] == f@[2]@ && views(f@)[3] == f@[3]@);
        let user_id = match parse_decimal(&f[2], u64::MAX) {
            Some(v) => v,
            None => return Err(Error::InvalidUserId),
        };
        let group_id = match parse_decimal(&f[3], u64::MAX) {
            Some(v) => v,
            None => return Err(Error::InvalidGroupId),
        };
        assert(views(f@)[0] == f@[0]@ && views(f@)[1] == f@[1]@ && views(f@)[4] == f@[4]@);
        assert(views(f@)[5] == f@[5]@ && views(f@)[6] == f@[6]@);
        let login_shell = if same_chars(&f[6], &chars_of("/bin/bash")) {
            Some(Shell::Bash)
        } else if same_chars(&f[6], &chars_of("/bin/sh")) {
            Some(Shell::Sh)
        } else {
            None
        };
        Ok(Passwd {
            user_name: string_of(&f[0]),
            password: string_of(&f[1]),
            user_id,
            group_id,
            comment: string_of(&f[4]),
            home_dir: string_of(&f[5]),
            login_shell,
        })
    }
}

/// The records of a passwd file, one per non-empty line.
pub open spec fn passwd_records(text: Seq<char>) -> Seq<Seq<char>> {
    non_empty(split(text, '\n'))
}

/// The first error among the records `lines`.
pub open spec fn first_passwd_error(lines: Seq<Seq<char>>) -> Option<Error>
    decreases lines.len(),
{
    if lines.len() == 0 {
        None
    } else {
        match first_passwd_error(lines.drop_last()) {
            Some(e) => Some(e),
            None => passwd_error(lines.last()),
        }
    }
}

/// The home directory of the first of the records `lines` that names `user`.
pub open spec fn home_of(lines: Seq<Seq<char>>, user: Seq<char>) -> Option<Seq<char>>
    decreases lines.len(),
{
    if lines.len() == 0 {
        None
    } else {
        match home_of(lines.drop_last(), user) {
            Some(h) => Some(h),
            None => {
                let f = split(lines.last(), ':');
                if passwd_error(lines.last()).is_none() && f[0] == user {
                    Some(f[5])
                } else {
                    None
                }
            },
        }
    }
}

/// What the state root lookup gives for a passwd file and a user name.
pub open spec fn injesh_home_spec(text: Seq<char>, user: Seq<char>) -> Result<Seq<char>, Error> {
    let lines = passwd_records(text);
    match first_passwd_error(lines) {
        Some(e) => Err(e),
        None => match home_of(lines, user) {
            Some(h) => Ok(h + "/.injesh"@),
            None => Err(Error::SudoUserNotFound),
        },
    }
}

/// The state root `<home>/.injesh` of `user`, found in the passwd file `passwd`.
/// Every record must be well formed.
pub fn injesh_home_dir(passwd: &str, user: &str) -> (r: Result<String, Error>)
    ensures
        match r {
            Ok(s) => injesh_home_spec(passwd@, user@) == Ok::<Seq<char>, Error>(s@),
            Err(e) => injesh_home_spec(passwd@, user@) == Err::<Seq<char>, Error>(e),
        },
{
    let lines = split_on(&chars_of(passwd), '\n');
    let ghost all = split(passwd@, '\n');
    let mut err: Option<Error> = None;
    let mut home: Option<String> = None;
    let mut i: usize = 0;
    while i < lines.len()
        invariant
            i <= lines@.len(),
            views(lines@) == all,
            all.len() == lines@.len(),
            err == first_passwd_error(non_empty(all.subrange(0, i as int))),
            match home {
                Some(h) => home_of(non_empty(all.subrange(0, i as int)), user@) == Some(h@),
                None => home_of(non_empty(all.subrange(0, i as int)), user@).is_none(),
            },
        decreases lines@.len() - i,
    {
        let ghost pre = all.subrange(0, i as int);
        let ghost next = all.subrange(0, i + 1);
        proof {
            assert(next.drop_last() =~= pre);
            assert(views(lines@)[i as int] == lines@[i as int]@);
        }
        if lines[i].len() > 0 {
            let line = string_of(&lines[i]);
            let ghost fl = non_empty(next);
            assert(next.last() == lines@[i as int]@);
            assert(fl == non_empty(pre).push(next.last()));
            assert(fl.drop_last() =~= non_empty(pre));
            assert(fl.last() == line@);
            match Passwd::parse_passwd_line(line.as_str()) {
                Ok(p) => {
                    if home.is_none() && str_eq(p.user_name.as_str(), user) {
                        home = Some(p.home_dir);
                    }
                },
                Err(e) => {
                    if err.is_none() {
                        err = Some(e);
                    }
                },
            }
        } else {
            assert(next.last() == lines@[i as int]@);
        }
        i = i + 1;
    }
    assert(all.subrange(0, i as int) =~= all);
    match err {
        Some(e) => Err(e),
        None => match home {
            Some(h) => Ok(concat(h.as_str(), "/.injesh")),
            None => Err(Error::SudoUserNotFound),
        },
    }
}

} // verus!
