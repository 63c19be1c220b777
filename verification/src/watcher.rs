//! Change notifications on the kernel sources: which file belongs to which
//! kernel, and which notification asks for a reload.

use vstd::prelude::*;
use vstd::string::StringExecFns;
use crate::registry::KernelKind;

verus! {

/// Quiet time, in milliseconds, that has to follow a change before it is
/// reported: rapid successive writes of one save arrive as one notification.
pub const DEBOUNCE_MILLIS: u64 = 200;

/// File name of the source of `kind`.
pub open spec fn kernel_file_name(kind: KernelKind) -> Seq<char> {
    match kind {
        KernelKind::Move => "move_slimes.wgsl"@,
        KernelKind::Update => "update_world.wgsl"@,
        KernelKind::Convert => "world_to_tex.wgsl"@,
    }
}

/// The directory that holds the kernel sources, relative to the working
/// directory.
pub open spec fn kernel_dir() -> Seq<char> {
    "src/shaders/"@
}

/// Path of the source of `kind`.
pub open spec fn kernel_source_path(kind: KernelKind) -> Seq<char> {
    kernel_dir() + kernel_file_name(kind)
}

/// The kernel whose source has the file name `name`, if there is one.
pub open spec fn kernel_named(name: Seq<char>) -> Option<KernelKind> {
    if name == kernel_file_name(KernelKind::Move) {
        Some(KernelKind::Move)
    } else if name == kernel_file_name(KernelKind::Update) {
        Some(KernelKind::Update)
    } else if name == kernel_file_name(KernelKind::Convert) {
        Some(KernelKind::Convert)
    } else {
        None
    }
}

/// Each kernel is found again by its file name: no two kernels share one.
pub proof fn lemma_kernel_named_round_trip(kind: KernelKind)
    ensures
        kernel_named(kernel_file_name(kind)) == Some(kind),
{
    reveal_strlit("move_slimes.wgsl");
    reveal_strlit("update_world.wgsl");
    reveal_strlit("world_to_tex.wgsl");
    assert("move_slimes.wgsl"@[0] == 'm');
    assert("update_world.wgsl"@[0] == 'u');
    assert("world_to_tex.wgsl"@[0] == 'w');
}

/// What a notification reports, variant for variant as the file watcher has
/// them.
#[derive(Clone, Copy, Debug, PartialEq, Eq, Structural)]
pub enum ChangeKind {
    NoticeWrite,
    NoticeRemove,
    Create,
    Write,
    Chmod,
    Remove,
    Rename,
    Rescan,
    Error,
}

/// A notification: what happened, and the last component of the path that it
/// happened to, where the notification names a path and that component is
/// text.
#[derive(Debug, PartialEq, Eq)]
pub struct WatchEvent {
    pub kind: ChangeKind,
    pub file_name: Option<String>,
}

/// Mathematical content of a [`WatchEvent`].
pub struct WatchEventView {
    pub kind: ChangeKind,
    pub file_name: Option<Seq<char>>,
}

impl View for WatchEvent {
    type V = WatchEventView;

    open spec fn view(&self) -> WatchEventView {
        WatchEventView {
            kind: self.kind,
            file_name: match self.file_name {
                Some(name) => Some(name@),
                None => None,
            },
        }
    }
}

/// The kernel that a notification asks to reload: the one whose source was
/// written. Every other notification, and one without a readable name, asks
/// for nothing.
pub open spec fn reload_wanted(event: WatchEventView) -> Option<KernelKind> {
    match (event.kind, event.file_name) {
        (ChangeKind::Write, Some(name)) => kernel_named(name),
        _ => None,
    }
}

/// File name of the source of `kind`.
pub fn file_name(kind: KernelKind) -> (name: &'static str)
    ensures
        name@ == kernel_file_name(kind),
{
    match kind {
        KernelKind::Move => "move_slimes.wgsl",
        KernelKind::Update => "update_world.wgsl",
        KernelKind::Convert => "world_to_tex.wgsl",
    }
}

/// The directory to watch.
pub fn watched_dir() -> (dir: &'static str)
    ensures
        dir@ == kernel_dir(),
{
    "src/shaders/"
}

/// Path of the source of `kind`.
pub fn source_path(kind: KernelKind) -> (path: String)
    ensures
        path@ == kernel_source_path(kind),
{
    let mut path = String::from_str(watched_dir());
    path.append(file_name(kind));
    path
}

/// The kernel whose source has the file name `name`, if there is one.
pub fn kernel_for_file(name: &str) -> (kind: Option<KernelKind>)
    ensures
        kind == kernel_named(name@),
{
    let name = String::from_str(name);
    if name == String::from_str(file_name(KernelKind::Move)) {
        Some(KernelKind::Move)
    } else if name == String::from_str(file_name(KernelKind::Update)) {
        Some(KernelKind::Update)
    } else if name == String::from_str(file_name(KernelKind::Convert)) {
        Some(KernelKind::Convert)
    } else {
        None
    }
}

/// The kernel that the polled notification asks to reload, if any. `None`
/// stands for a poll that found no notification.
pub fn reload_target(polled: &Option<WatchEvent>) -> (kind: Option<KernelKind>)
    ensures
        kind == match *polled {
            Some(event) => reload_wanted(event@),
            None => None,
        },
{
    match polled {
        Some(event) => match (event.kind, &event.file_name) {
            (ChangeKind::Write, Some(name)) => kernel_for_file(name.as_str()),
            _ => None,
        },
        None => None,
    }
}

} // verus!
