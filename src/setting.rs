//! The per-session settings record: the target's id, the shell, and the
//! commands, with the handler that caches it between a reader and a writer.
use vstd::prelude::*;
use crate::error::Error;
use crate::text::{chars_of, str_eq, str_views, string_of};

verus! {

/// The shells that a session may run.
#[derive(Copy, Clone, Debug, PartialEq, Eq)]
pub enum Shell {
    Bash,
    Sh,
}

/// The name under which a shell is recorded.
pub open spec fn shell_name(s: Shell) -> Seq<char> {
    match s {
        Shell::Bash => "bash"@,
        Shell::Sh => "sh"@,
    }
}

/// The shell that a recorded name stands for: `bash` or `/bin/bash`, `sh` or `/bin/sh`.
pub open spec fn shell_of(name: Seq<char>) -> Option<Shell> {
    if name == "bash"@ || name == "/bin/bash"@ {
        Some(Shell::Bash)
    } else if name == "sh"@ || name == "/bin/sh"@ {
        Some(Shell::Sh)
    } else {
        None
    }
}

impl Shell {
    /// The name under which the shell is recorded.
    pub fn to_string(&self) -> (r: String)
        ensures
            r@ == shell_name(*self),
    {
        match self {
            Shell::Bash => string_of(&chars_of("bash")),
            Shell::Sh => string_of(&chars_of("sh")),
        }
    }

    /// The shell that a recorded name stands for; `UnexpectedShell` for any other name.
    pub fn from_name(name: &str) -> (r: Result<Shell, Error>)
        ensures
            r == match shell_of(name@) {
                Some(s) => Ok(s),
                None => Err(Error::UnexpectedShell),
            },
    {
        if str_eq(name, "bash") || str_eq(name, "/bin/bash") {
            Ok(Shell::Bash)
        } else if str_eq(name, "sh") || str_eq(name, "/bin/sh") {
            Ok(Shell::Sh)
        } else {
            Err(Error::UnexpectedShell)
        }
    }
}

/// A shell recorded by its name reads back as the same shell.
pub proof fn shell_round_trip(s: Shell)
    ensures
        shell_of(shell_name(s)) == Some(s),
{
    reveal_strlit("bash");
    reveal_strlit("/bin/bash");
    reveal_strlit("sh");
    reveal_strlit("/bin/sh");
    match s {
        Shell::Bash => {},
        Shell::Sh => {
            assert("sh"@ != "bash"@) by {
                assert("sh"@.len() != "bash"@.len());
            }
            assert("sh"@ != "/bin/bash"@) by {
                assert("sh"@.len() != "/bin/bash"@.len());
            }
        },
    }
}

/// The settings record of a debug session.
#[derive(Debug, PartialEq)]
pub struct Setting {
    docker_container_id: String,
    shell: Shell,
    commands: Vec<String>,
}

pub ghost struct SettingView {
    pub id: Seq<char>,
    pub shell: Shell,
    pub commands: Seq<Seq<char>>,
}

impl View for Setting {
    type V = SettingView;

    closed spec fn view(&self) -> SettingView {
        SettingView {
            id: self.docker_container_id@,
            shell: self.shell,
            commands: str_views(self.commands@),
        }
    }
}

fn copy_strings(v: &[String]) -> (r: Vec<String>)
    ensures
        str_views(r@) == str_views(v@),
{
    let mut r: Vec<String> = Vec::new();
    let mut i: usize = 0;
    while i < v.len()
        invariant
            i <= v@.len(),
            str_views(r@) == str_views(v@.subrange(0, i as int)),
        decreases v@.len() - i,
    {
        let ghost prev = r@;
        r.push(string_of(&chars_of(v[i].as_str())));
        assert(str_views(r@) =~= str_views(prev).push(v@[i as int]@));
        assert(str_views(v@.subrange(0, i + 1)) =~= str_views(v@.subrange(0, i as int)).push(
            v@[i as int]@,
        ));
        i = i + 1;
    }
    assert(v@.subrange(0, v@.len() as int) =~= v@);
    r
}

impl Setting {
    pub fn new(docker_container_id: &str, shell: Shell, commands: &[String]) -> (r: Self)
        ensures
            r@ == (SettingView {
                id: docker_container_id@,
                shell,
                commands: str_views(commands@),
            }),
    {
        Setting {
            docker_container_id: string_of(&chars_of(docker_container_id)),
            shell,
            commands: copy_strings(commands),
        }
    }

    /// The record read back from its stored fields; `UnexpectedShell` where
    /// the shell is not one of `bash`, `/bin/bash`, `sh`, `/bin/sh`.
    pub fn from_record(docker_container_id: &str, shell: &str, commands: &[String]) -> (r: Result<
        Setting,
        Error,
    >)
        ensures
            match shell_of(shell@) {
                Some(s) => r is Ok && r->Ok_0@ == (SettingView {
                    id: docker_container_id@,
                    shell: s,
                    commands: str_views(commands@),
                }),
                None => r == Err::<Setting, Error>(Error::UnexpectedShell),
            },
    {
        let s = Shell::from_name(shell)?;
        Ok(Setting::new(docker_container_id, s, commands))
    }

    pub fn docker_container_id(&self) -> (r: &str)
        ensures
            r@ == self@.id,
    {
        self.docker_container_id.as_str()
    }

    pub fn commands(&self) -> (r: &[String])
        ensures
            str_views(r@) == self@.commands,
    {
        self.commands.as_slice()
    }

    pub fn shell(&self) -> (r: Shell)
        ensures
            r == self@.shell,
    {
        self.shell
    }
}

/// Reads the settings record from where it is stored.
pub trait Reader {
    fn read(&self) -> Result<Setting, Error>;
}

/// Stores the settings record.
pub trait Writer {
    fn write(&self, setting: &Setting) -> Result<(), Error>;
}

/// Caches a session's settings record between a store's reader and writer.
pub struct SettingHandler<RW: Reader + Writer> {
    reader_writer: RW,
    setting: Option<Setting>,
}

impl<RW: Reader + Writer> SettingHandler<RW> {
    /// The record held, if one was set or read.
    pub closed spec fn cached(&self) -> Option<SettingView> {
        match self.setting {
            Some(s) => Some(s@),
            None => None,
        }
    }

    /// The store that the record is read from and written to.
    pub closed spec fn store(&self) -> RW {
        self.reader_writer
    }

    pub fn new(reader_writer: RW) -> (r: SettingHandler<RW>)
        ensures
            r.cached().is_none(),
            r.store() == reader_writer,
    {
        SettingHandler { reader_writer, setting: None }
    }

    /// Sets the record to hold.
    pub fn init(&mut self, docker_container_id: &str, shell: Shell, commands: &[String])
        ensures
            final(self).cached() == Some(
                SettingView { id: docker_container_id@, shell, commands: str_views(commands@) },
            ),
            final(self).store() == old(self).store(),
    {
        self.setting = Some(Setting::new(docker_container_id, shell, commands));
    }

    /// Stores the record held, if any; with none held, does nothing.
    pub fn write(&self) -> (r: Result<(), Error>)
        ensures
            self.cached().is_none() ==> r is Ok,
    {
        match &self.setting {
            Some(s) => self.reader_writer.write(s),
            None => Ok(()),
        }
    }

    /// The record: the one held, else the one read (which is then held).
    pub fn read(&mut self) -> (r: Result<&Setting, Error>)
        ensures
            old(self).cached() is Some ==> r is Ok && Some(r->Ok_0@) == old(self).cached()
                && final(self).cached() == old(self).cached(),
            r is Ok ==> final(self).cached() == Some(r->Ok_0@),
            r is Err ==> final(self).cached() == old(self).cached(),
            final(self).store() == old(self).store(),
    {
        if self.setting.is_none() {
            let s = self.reader_writer.read()?;
            self.setting = Some(s);
        }
        match &self.setting {
            Some(s) => Ok(s),
            None => Err(Error::NotInitialized),
        }
    }

    /// The record, for change: the one held, else the one read (which is then held).
    pub fn read_mut(&mut self) -> (r: Result<&mut Setting, Error>)
        ensures
            old(self).cached() is Some ==> r is Ok && Some(r->Ok_0@) == old(self).cached(),
            r is Ok ==> final(self).cached() is Some,
            r is Err ==> final(self).cached() == old(self).cached(),
            final(self).store() == old(self).store(),
    {
        if self.setting.is_none() {
            let s = self.reader_writer.read()?;
            self.setting = Some(s);
        }
        match &mut self.setting {
            Some(s) => Ok(s),
            None => Err(Error::NotInitialized),
        }
    }
}

} // verus!
