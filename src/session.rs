//! The state root's lifecycle and the debug sessions kept under it: the
//! layout of a session directory, the overlay mounts that inject a root
//! filesystem into a target and dissolve it again, and the ordered steps of
//! `launch` and `delete`.
use vstd::prelude::*;
use crate::error::Error;
use crate::text::{chars_of, extend, join_path, string_of};
use crate::user::User;

verus! {

/// `Ok` when the state root and both its subdirectories exist; else `NotInitialized`.
pub fn check_initialized(home_exists: bool, images_exist: bool, containers_exist: bool) -> (r:
    Result<(), Error>)
    ensures
        r == if home_exists && images_exist && containers_exist {
            Ok::<(), Error>(())
        } else {
            Err(Error::NotInitialized)
        },
{
    if home_exists && images_exist && containers_exist {
        Ok(())
    } else {
        Err(Error::NotInitialized)
    }
}

/// The directories that `init` creates: those of the state root, its images
/// root and its sessions root that are missing, in that order;
/// `AlreadyInitialized` when none is.
pub open spec fn init_spec(
    home: Seq<char>,
    images: Seq<char>,
    containers: Seq<char>,
    home_exists: bool,
    images_exist: bool,
    containers_exist: bool,
) -> Result<Seq<Seq<char>>, Error> {
    if home_exists && images_exist && containers_exist {
        Err(Error::AlreadyInitialized)
    } else {
        let a = if home_exists { seq![] } else { seq![home] };
        let b = if images_exist { a } else { a.push(images) };
        Ok(if containers_exist { b } else { b.push(containers) })
    }
}

/// Running `init` a second time, once the first has created what it listed,
/// ends with `AlreadyInitialized`.
pub proof fn init_twice(
    home: Seq<char>,
    images: Seq<char>,
    containers: Seq<char>,
    home_exists: bool,
    images_exist: bool,
    containers_exist: bool,
)
    ensures
        match init_spec(home, images, containers, home_exists, images_exist, containers_exist) {
            Ok(dirs) => init_spec(
                home,
                images,
                containers,
                home_exists || dirs.contains(home),
                images_exist || dirs.contains(images),
                containers_exist || dirs.contains(containers),
            ) == Err::<Seq<Seq<char>>, Error>(Error::AlreadyInitialized),
            Err(e) => e == Error::AlreadyInitialized,
        },
{
    match init_spec(home, images, containers, home_exists, images_exist, containers_exist) {
        Ok(dirs) => {
            let a = if home_exists { seq![] } else { seq![home] };
            let b = if images_exist { a } else { a.push(images) };
            if !home_exists {
                assert(a[0] == home);
                assert(b[0] == home);
                if containers_exist {
                } else {
                    assert(dirs[0] == home);
                }
            }
            if !images_exist {
                assert(b[b.len() - 1] == images);
                if !containers_exist {
                    assert(dirs[b.len() - 1] == images);
                }
            }
            if !containers_exist {
                assert(dirs[dirs.len() - 1] == containers);
            }
        },
        Err(_) => {},
    }
}

/// A debug session's directory under the sessions root.
#[derive(Debug)]
pub struct Session {
    name: String,
    base_dir: String,
}

pub ghost struct SessionView {
    pub name: Seq<char>,
    pub base: Seq<char>,
}

impl View for Session {
    type V = SessionView;

    closed spec fn view(&self) -> SessionView {
        SessionView { name: self.name@, base: self.base_dir@ }
    }
}

impl Session {
    /// The session `name` of `user`: `sessions_root/<name>`.
    pub fn new(user: &User, name: &str) -> (r: Session)
        ensures
            r@ == (SessionView { name: name@, base: user.containers_view() + "/"@ + name@ }),
    {
        Session { name: string_of(&chars_of(name)), base_dir: join_path(user.containers(), name) }
    }

    pub fn name(&self) -> (r: &str)
        ensures
            r@ == self@.name,
    {
        self.name.as_str()
    }

    pub fn base_dir(&self) -> (r: &str)
        ensures
            r@ == self@.base,
    {
        self.base_dir.as_str()
    }

    /// `<base>/upper`: the snapshot of the target's writable layer, and the
    /// session's own upper layer.
    pub fn private_upper(&self) -> (r: String)
        ensures
            r@ == self@.base + "/"@ + "upper"@,
    {
        join_path(self.base_dir.as_str(), "upper")
    }

    /// `<base>/worker`: the session's overlay work directory.
    pub fn private_work(&self) -> (r: String)
        ensures
            r@ == self@.base + "/"@ + "worker"@,
    {
        join_path(self.base_dir.as_str(), "worker")
    }

    /// `<base>/merged`: the view that the debug process enters.
    pub fn private_merged(&self) -> (r: String)
        ensures
            r@ == self@.base + "/"@ + "merged"@,
    {
        join_path(self.base_dir.as_str(), "merged")
    }

    /// `<base>/setting.yaml`: the settings record.
    pub fn settings(&self) -> (r: String)
        ensures
            r@ == self@.base + "/"@ + "setting.yaml"@,
    {
        join_path(self.base_dir.as_str(), "setting.yaml")
    }
}

/// `Ok` when the session directory exists; else `ContainerNotFound`.
pub fn check_container_exists(dir_exists: bool) -> (r: Result<(), Error>)
    ensures
        r == if dir_exists {
            Ok::<(), Error>(())
        } else {
            Err(Error::ContainerNotFound)
        },
{
    if dir_exists {
        Ok(())
    } else {
        Err(Error::ContainerNotFound)
    }
}

/// The names of the sessions, from the entries of the sessions root (name,
/// and whether it is a directory), one per line, in enumeration order.
pub open spec fn names_text(entries: Seq<(Seq<char>, bool)>) -> Seq<char>
    decreases entries.len(),
{
    if entries.len() == 0 {
        Seq::empty()
    } else if entries.last().1 {
        names_text(entries.drop_last()) + entries.last().0 + "\n"@
    } else {
        names_text(entries.drop_last())
    }
}

pub open spec fn entry_views(v: Seq<(String, bool)>) -> Seq<(Seq<char>, bool)> {
    v.map_values(|e: (String, bool)| (e.0@, e.1))
}

/// The names of the directories among the entries of the sessions root, each
/// followed by a line feed.
pub fn extract_container_names(entries: &Vec<(String, bool)>) -> (r: String)
    ensures
        r@ == names_text(entry_views(entries@)),
{
    let ghost all = entry_views(entries@);
    let mut v: Vec<char> = Vec::new();
    let mut i: usize = 0;
    while i < entries.len()
        invariant
            i <= entries@.len(),
            all == entry_views(entries@),
            v@ == names_text(all.subrange(0, i as int)),
        decreases entries@.len() - i,
    {
        let ghost next = all.subrange(0, i + 1);
        assert(next.drop_last() =~= all.subrange(0, i as int));
        assert(next.last() == (entries@[i as int].0@, entries@[i as int].1));
        if entries[i].1 {
            extend(&mut v, &chars_of(entries[i].0.as_str()));
            extend(&mut v, &chars_of("\n"));
        }
        i = i + 1;
    }
    assert(all.subrange(0, entries@.len() as int) =~= all);
    string_of(&v)
}

/// What `list` prints: the session names, one per line; `NoSessions` where there is none.
pub fn list_output(entries: &Vec<(String, bool)>) -> (r: Result<String, Error>)
    ensures
        match r {
            Ok(s) => s@ == names_text(entry_views(entries@)) && s@.len() > 0,
            Err(e) => e == Error::NoSessions && names_text(entry_views(entries@)).len() == 0,
        },
{
    let names = extract_container_names(entries);
    if names.as_str().unicode_len() == 0 {
        Err(Error::NoSessions)
    } else {
        Ok(names)
    }
}

} // verus!
