//! The scratch area's layout and the mount operations of a run.
use vstd::prelude::*;

verus! {

/// `name` placed under the directory `base`.
pub open spec fn join_spec(base: Seq<char>, name: Seq<char>) -> Seq<char> {
    base + "/"@ + name
}

/// The option string of an overlay with the given lower, upper and work
/// directories.
pub open spec fn overlay_options_spec(lower: Seq<char>, upper: Seq<char>, work: Seq<char>) -> Seq<
    char,
> {
    "lowerdir="@ + lower + ",upperdir="@ + upper + ",workdir="@ + work
}

/// Joins `name` under the directory `base`.
pub fn join(base: &str, name: &str) -> (r: String)
    ensures
        r@ == join_spec(base@, name@),
{
    let mut r = base.to_owned();
    r.append("/");
    r.append(name);
    r
}

/// The mount options that stack `upper` over `lower`, with `work` as the
/// overlay's work directory.
pub fn overlay_options(lower: &str, upper: &str, work: &str) -> (r: String)
    ensures
        r@ == overlay_options_spec(lower@, upper@, work@),
{
    let mut r = "lowerdir=".to_owned();
    r.append(lower);
    r.append(",upperdir=");
    r.append(upper);
    r.append(",workdir=");
    r.append(work);
    r
}

/// One mount call: what is mounted where, with which filesystem type, options
/// and flags.
pub struct MountRequest {
    pub source: Option<String>,
    pub target: String,
    pub fstype: Option<String>,
    pub data: Option<String>,
    /// Make an existing tree visible at `target`.
    pub bind: bool,
    /// Apply to the whole subtree of mounts below `target` too.
    pub recursive: bool,
    /// Stop mount events from propagating to or from other namespaces.
    pub private: bool,
}

/// One unmount call.
pub struct UnmountRequest {
    pub target: String,
    /// Detach at once and release the mount when its last user goes, rather
    /// than fail while it is busy.
    pub lazy: bool,
}

/// The request that makes the whole mount tree, from the root down, private
/// to the current namespace.
pub fn propagation_request() -> (r: MountRequest)
    ensures
        r.source is None,
        r.target@ == "/"@,
        r.fstype is None,
        r.data is None,
        !r.bind,
        r.recursive,
        r.private,
{
    MountRequest {
        source: None,
        target: "/".to_owned(),
        fstype: None,
        data: None,
        bind: false,
        recursive: true,
        private: true,
    }
}

/// Where a run keeps its machinery: the target directory, the scratch
/// directory, and under it the snapshot, delta and work directories.
pub struct Layout {
    pub target: String,
    pub scratch: String,
    pub snapshot: String,
    pub delta: String,
    pub work: String,
}

impl Layout {
    /// The layout of a run over `target` with scratch directory `scratch`:
    /// the snapshot under `orig`, the delta under `upper`, and the overlay's
    /// work directory under `work`.
    pub fn new(target: &str, scratch: &str) -> (r: Layout)
        ensures
            r.target@ == target@,
            r.scratch@ == scratch@,
            r.snapshot@ == join_spec(scratch@, "orig"@),
            r.delta@ == join_spec(scratch@, "upper"@),
            r.work@ == join_spec(scratch@, "work"@),
    {
        Layout {
            target: target.to_owned(),
            scratch: scratch.to_owned(),
            snapshot: join(scratch, "orig"),
            delta: join(scratch, "upper"),
            work: join(scratch, "work"),
        }
    }

    /// The directories to create inside the scratch area, in order.
    pub fn layer_dirs(&self) -> (r: Vec<String>)
        ensures
            r@.len() == 3,
            r@[0]@ == self.snapshot@,
            r@[1]@ == self.delta@,
            r@[2]@ == self.work@,
    {
        let mut r: Vec<String> = Vec::new();
        r.push(self.snapshot.clone());
        r.push(self.delta.clone());
        r.push(self.work.clone());
        r
    }

    /// The recursive bind of the target directory onto the snapshot
    /// directory.
    pub fn snapshot_request(&self) -> (r: MountRequest)
        ensures
            r.source matches Some(s) && s@ == self.target@,
            r.target@ == self.snapshot@,
            r.fstype is None,
            r.data is None,
            r.bind,
            r.recursive,
            !r.private,
    {
        MountRequest {
            source: Some(self.target.clone()),
            target: self.snapshot.clone(),
            fstype: None,
            data: None,
            bind: true,
            recursive: true,
            private: false,
        }
    }

    /// The overlay mounted at the target directory itself: the snapshot as
    /// its lower layer, the delta as its upper layer.
    pub fn overlay_request(&self) -> (r: MountRequest)
        ensures
            r.source matches Some(s) && s@ == "overlay"@,
            r.target@ == self.target@,
            r.fstype matches Some(t) && t@ == "overlay"@,
            r.data matches Some(d) && d@ == overlay_options_spec(
                self.snapshot@,
                self.delta@,
                self.work@,
            ),
            !r.bind,
            !r.recursive,
            !r.private,
    {
        MountRequest {
            source: Some("overlay".to_owned()),
            target: self.target.clone(),
            fstype: Some("overlay".to_owned()),
            data: Some(overlay_options(&self.snapshot, &self.delta, &self.work)),
            bind: false,
            recursive: false,
            private: false,
        }
    }

    /// What the reconciliation reads from and writes into: the target
    /// directory as the overlay shows it, and the snapshot, through which the
    /// real directory is reached.
    pub fn sync_paths(&self) -> (r: (String, String))
        ensures
            r.0@ == self.target@,
            r.1@ == self.snapshot@,
    {
        (self.target.clone(), self.snapshot.clone())
    }

    /// The lazy detach of the overlay at the target directory.
    pub fn overlay_detach(&self) -> (r: UnmountRequest)
        ensures
            r.target@ == self.target@,
            r.lazy,
    {
        UnmountRequest { target: self.target.clone(), lazy: true }
    }

    /// The lazy detach of the snapshot binding.
    pub fn snapshot_detach(&self) -> (r: UnmountRequest)
        ensures
            r.target@ == self.snapshot@,
            r.lazy,
    {
        UnmountRequest { target: self.snapshot.clone(), lazy: true }
    }
}

} // verus!
