//! The overlay composer: the mount options that inject a root filesystem
//! beneath a target's writable layer, and the ordered steps with which
//! `launch` builds a debug session and `delete` dissolves it.
use vstd::prelude::*;
use crate::engine::{Container, ContainerView};
use crate::error::Error;
use crate::session::{Session, SessionView};
use crate::text::{chars_of, extend, string_of};

verus! {

/// The data of an overlay mount: its lower layers, upper layer and work directory.
pub open spec fn overlay_options(lower: Seq<char>, upper: Seq<char>, work: Seq<char>) -> Seq<char> {
    "lowerdir="@ + lower + ",upperdir="@ + upper + ",workdir="@ + work
}

fn options_of(lower: &Vec<char>, upper: &str, work: &str) -> (r: String)
    ensures
        r@ == overlay_options(lower@, upper@, work@),
{
    let mut v = chars_of("lowerdir=");
    extend(&mut v, lower);
    extend(&mut v, &chars_of(",upperdir="));
    extend(&mut v, &chars_of(upper));
    extend(&mut v, &chars_of(",workdir="));
    extend(&mut v, &chars_of(work));
    string_of(&v)
}

/// `a:b`, two lower layers with `a` on top.
pub open spec fn stacked(a: Seq<char>, b: Seq<char>) -> Seq<char> {
    a + ":"@ + b
}

fn stack(a: &str, b: &str) -> (r: Vec<char>)
    ensures
        r@ == stacked(a@, b@),
{
    let mut v = chars_of(a);
    extend(&mut v, &chars_of(":"));
    extend(&mut v, &chars_of(b));
    v
}

/// The target's own overlay, as the engine mounted it.
pub fn target_overlay_options(target: &Container) -> (r: String)
    ensures
        r@ == overlay_options(target@.lowerdir, target@.upperdir, target@.workdir),
{
    options_of(&chars_of(target.lowerdir()), target.upperdir(), target.workdir())
}

/// The target's overlay with the root filesystem `rootfs` beneath its layers.
pub fn injected_target_options(rootfs: &str, target: &Container) -> (r: String)
    ensures
        r@ == overlay_options(stacked(rootfs@, target@.lowerdir), target@.upperdir, target@.workdir),
{
    options_of(&stack(rootfs, target.lowerdir()), target.upperdir(), target.workdir())
}

pub open spec fn session_upper(s: SessionView) -> Seq<char> {
    s.base + "/"@ + "upper"@
}

pub open spec fn session_work(s: SessionView) -> Seq<char> {
    s.base + "/"@ + "worker"@
}

pub open spec fn session_merged(s: SessionView) -> Seq<char> {
    s.base + "/"@ + "merged"@
}

/// The session's overlay: `rootfs` over the target's merged view, with the
/// session's private upper and work directories.
pub open spec fn session_options(rootfs: Seq<char>, t: ContainerView, s: SessionView) -> Seq<char> {
    overlay_options(stacked(rootfs, t.mergeddir), session_upper(s), session_work(s))
}

/// The data of the session's overlay mount.
pub fn session_overlay_options(rootfs: &str, target: &Container, session: &Session) -> (r: String)
    ensures
        r@ == session_options(rootfs@, target@, session@),
{
    let upper = session.private_upper();
    let work = session.private_work();
    options_of(&stack(rootfs, target.mergeddir()), upper.as_str(), work.as_str())
}

/// One action on the host that `launch` or `delete` performs.
#[derive(Debug)]
pub enum Step {
    CreateDir(String),
    WriteSettings,
    CopyTree { from: String, to: String },
    Unmount(String),
    Mount { at: String, options: String },
    Restart,
    RefreshPid,
    RemoveTree(String),
}

pub ghost enum StepView {
    CreateDir(Seq<char>),
    WriteSettings,
    CopyTree { from: Seq<char>, to: Seq<char> },
    Unmount(Seq<char>),
    Mount { at: Seq<char>, options: Seq<char> },
    Restart,
    RefreshPid,
    RemoveTree(Seq<char>),
}

impl View for Step {
    type V = StepView;

    open spec fn view(&self) -> StepView {
        match self {
            Step::CreateDir(p) => StepView::CreateDir(p@),
            Step::WriteSettings => StepView::WriteSettings,
            Step::CopyTree { from, to } => StepView::CopyTree { from: from@, to: to@ },
            Step::Unmount(p) => StepView::Unmount(p@),
            Step::Mount { at, options } => StepView::Mount { at: at@, options: options@ },
            Step::Restart => StepView::Restart,
            Step::RefreshPid => StepView::RefreshPid,
            Step::RemoveTree(p) => StepView::RemoveTree(p@),
        }
    }
}

pub open spec fn step_views(v: Seq<Step>) -> Seq<StepView> {
    v.map_values(|s: Step| s@)
}

/// What `launch` does to inject `rootfs` into target `t` for the new session `s`.
pub open spec fn launch_spec(
    initialized: bool,
    session_exists: bool,
    t: ContainerView,
    rootfs: Seq<char>,
    s: SessionView,
) -> Result<Seq<StepView>, Error> {
    if !initialized {
        Err(Error::NotInitialized)
    } else if session_exists {
        Err(Error::AlreadyExists)
    } else {
        Ok(
            seq![
                StepView::CreateDir(session_upper(s)),
                StepView::CreateDir(session_work(s)),
                StepView::CreateDir(session_merged(s)),
                StepView::WriteSettings,
                StepView::CopyTree { from: t.upperdir, to: session_upper(s) },
                StepView::Unmount(t.mergeddir),
                StepView::Mount {
                    at: t.mergeddir,
                    options: overlay_options(stacked(rootfs, t.lowerdir), t.upperdir, t.workdir),
                },
                StepView::Restart,
                StepView::RefreshPid,
                StepView::Mount { at: session_merged(s), options: session_options(rootfs, t, s) },
            ],
        )
    }
}

/// The steps of `launch`: create the session's directories and settings,
/// snapshot the target's writable layer, remount the target with `rootfs`
/// injected, restart it, and mount the session's own view. Nothing is done
/// where the state root is not initialised or the session already exists.
pub fn launch_plan(
    initialized: bool,
    session_exists: bool,
    target: &Container,
    rootfs: &str,
    session: &Session,
) -> (r: Result<Vec<Step>, Error>)
    ensures
        match launch_spec(initialized, session_exists, target@, rootfs@, session@) {
            Ok(steps) => r is Ok && step_views(r->Ok_0@) == steps,
            Err(e) => r == Err::<Vec<Step>, Error>(e),
        },
{
    if !initialized {
        return Err(Error::NotInitialized);
    }
    if session_exists {
        return Err(Error::AlreadyExists);
    }
    let mut v: Vec<Step> = Vec::new();
    v.push(Step::CreateDir(session.private_upper()));
    v.push(Step::CreateDir(session.private_work()));
    v.push(Step::CreateDir(session.private_merged()));
    v.push(Step::WriteSettings);
    v.push(
        Step::CopyTree {
            from: string_of(&chars_of(target.upperdir())),
            to: session.private_upper(),
        },
    );
    v.push(Step::Unmount(string_of(&chars_of(target.mergeddir()))));
    v.push(
        Step::Mount {
            at: string_of(&chars_of(target.mergeddir())),
            options: injected_target_options(rootfs, target),
        },
    );
    v.push(Step::Restart);
    v.push(Step::RefreshPid);
    v.push(
        Step::Mount {
            at: session.private_merged(),
            options: session_overlay_options(rootfs, target, session),
        },
    );
    proof {
        let steps = launch_spec(initialized, session_exists, target@, rootfs@, session@)->Ok_0;
        assert(step_views(v@) =~= steps);
    }
    Ok(v)
}

/// What `delete` does to dissolve session `s` from target `t`.
pub open spec fn delete_spec(
    initialized: bool,
    session_exists: bool,
    t: ContainerView,
    s: SessionView,
) -> Result<Seq<StepView>, Error> {
    if !initialized {
        Err(Error::NotInitialized)
    } else if !session_exists {
        Err(Error::ContainerNotFound)
    } else {
        Ok(
            seq![
                StepView::Unmount(session_merged(s)),
                StepView::Unmount(t.mergeddir),
                StepView::CopyTree { from: session_upper(s), to: t.upperdir },
                StepView::Mount {
                    at: t.mergeddir,
                    options: overlay_options(t.lowerdir, t.upperdir, t.workdir),
                },
                StepView::Restart,
                StepView::RemoveTree(s.base),
            ],
        )
    }
}

/// The steps of `delete`: unmount both views, copy the snapshot back over
/// the target's writable layer, remount the target as it was, restart it and
/// remove the session directory.
pub fn delete_plan(initialized: bool, session_exists: bool, target: &Container, session: &Session) -> (r:
    Result<Vec<Step>, Error>)
    ensures
        match delete_spec(initialized, session_exists, target@, session@) {
            Ok(steps) => r is Ok && step_views(r->Ok_0@) == steps,
            Err(e) => r == Err::<Vec<Step>, Error>(e),
        },
{
    if !initialized {
        return Err(Error::NotInitialized);
    }
    if !session_exists {
        return Err(Error::ContainerNotFound);
    }
    let mut v: Vec<Step> = Vec::new();
    v.push(Step::Unmount(session.private_merged()));
    v.push(Step::Unmount(string_of(&chars_of(target.mergeddir()))));
    v.push(
        Step::CopyTree {
            from: session.private_upper(),
            to: string_of(&chars_of(target.upperdir())),
        },
    );
    v.push(
        Step::Mount {
            at: string_of(&chars_of(target.mergeddir())),
            options: target_overlay_options(target),
        },
    );
    v.push(Step::Restart);
    v.push(Step::RemoveTree(string_of(&chars_of(session.base_dir()))));
    proof {
        let steps = delete_spec(initialized, session_exists, target@, session@)->Ok_0;
        assert(step_views(v@) =~= steps);
    }
    Ok(v)
}

/// A step that writes into the directory `p`.
pub open spec fn writes_to(step: StepView, p: Seq<char>) -> bool {
    match step {
        StepView::CreateDir(d) => d == p,
        StepView::CopyTree { from, to } => to == p,
        StepView::Mount { at, options } => at == p,
        StepView::RemoveTree(d) => d == p,
        _ => false,
    }
}

/// Session isolation: the session's view is an overlay whose only writable
/// layer is the session's private upper directory, with the injected root
/// filesystem and the target's merged view as read-only lower layers; no step
/// of `launch` copies into or mounts over the target's writable layer or the
/// injected root filesystem, where those lie apart from the session's
/// directories and the target's merged view.
pub proof fn session_isolation(
    initialized: bool,
    session_exists: bool,
    t: ContainerView,
    rootfs: Seq<char>,
    s: SessionView,
)
    requires
        launch_spec(initialized, session_exists, t, rootfs, s) is Ok,
        t.upperdir != session_upper(s) && t.upperdir != session_work(s) && t.upperdir
            != session_merged(s) && t.upperdir != t.mergeddir,
        rootfs != session_upper(s) && rootfs != session_work(s) && rootfs != session_merged(s)
            && rootfs != t.mergeddir,
    ensures
        ({
            let steps = launch_spec(initialized, session_exists, t, rootfs, s)->Ok_0;
            &&& steps.last() == StepView::Mount {
                at: session_merged(s),
                options: overlay_options(
                    stacked(rootfs, t.mergeddir),
                    session_upper(s),
                    session_work(s),
                ),
            }
            &&& forall|k: int|
                0 <= k < steps.len() ==> !writes_to(#[trigger] steps[k], t.upperdir) && !writes_to(
                    steps[k],
                    rootfs,
                )
        }),
{
}

/// Dissolve restores: `launch` snapshots the target's writable layer into
/// the session's private upper directory before it unmounts or mounts
/// anything, and `delete` copies that directory back over the target's
/// writable layer after unmounting the target and before remounting it with
/// its original layers; nothing in `delete` writes to the snapshot.
pub proof fn dissolve_restores(
    initialized: bool,
    t: ContainerView,
    rootfs: Seq<char>,
    s: SessionView,
)
    requires
        initialized,
        t.upperdir != session_upper(s),
    ensures
        ({
            let l = launch_spec(initialized, false, t, rootfs, s)->Ok_0;
            let d = delete_spec(initialized, true, t, s)->Ok_0;
            &&& l[4] == StepView::CopyTree { from: t.upperdir, to: session_upper(s) }
            &&& forall|k: int|
                0 <= k < 4 ==> !(#[trigger] l[k] is Unmount) && !(l[k] is Mount) && !(l[k] is CopyTree)
            &&& d[1] == StepView::Unmount(t.mergeddir)
            &&& d[2] == StepView::CopyTree { from: session_upper(s), to: t.upperdir }
            &&& d[3] == StepView::Mount {
                at: t.mergeddir,
                options: overlay_options(t.lowerdir, t.upperdir, t.workdir),
            }
            &&& forall|k: int| 0 <= k < d.len() ==> !(#[trigger] d[k] is CopyTree && d[k]->to == session_upper(s))
        }),
{
}

} // verus!
