//! The pipeline's steps as plain values, and the resource-ownership model.
//!
//! A step is a command to run, a file to write, or a bookkeeping marker that
//! records the acquisition or release of an OS-level resource (the loop
//! device, a mount, a bind mount, the guard over started services). The
//! functions over step traces say which resources a trace acquires and
//! releases and which are active after a prefix of it; the lemmas here prove
//! the stack discipline of acquisition followed by reverse-order teardown.

use vstd::prelude::*;

use crate::cmd::{Cmd, CmdModel};

verus! {

/// An OS-level resource owned by the pipeline.
#[derive(Debug)]
pub enum Resource {
    /// A loop device bound to the backing image.
    LoopDevice { path: String },
    /// A normal mount at a destination directory.
    MountPoint { dest: String },
    /// A bind mount at a destination directory.
    BindMount { dest: String },
    /// Background services started inside the target root that must be
    /// stopped before its bind mounts can be released.
    ServiceGuard { root: String, services: Vec<String> },
}

/// The mathematical value of a resource.
#[verifier::ext_equal]
pub enum ResourceModel {
    LoopDevice { path: Seq<char> },
    MountPoint { dest: Seq<char> },
    BindMount { dest: Seq<char> },
    ServiceGuard { root: Seq<char>, services: Seq<Seq<char>> },
}

impl View for Resource {
    type V = ResourceModel;

    open spec fn view(&self) -> ResourceModel {
        match self {
            Resource::LoopDevice { path } => ResourceModel::LoopDevice { path: path@ },
            Resource::MountPoint { dest } => ResourceModel::MountPoint { dest: dest@ },
            Resource::BindMount { dest } => ResourceModel::BindMount { dest: dest@ },
            Resource::ServiceGuard { root, services } => ResourceModel::ServiceGuard {
                root: root@,
                services: services.deep_view(),
            },
        }
    }
}

impl DeepView for Resource {
    type V = ResourceModel;

    open spec fn deep_view(&self) -> ResourceModel {
        self.view()
    }
}

/// Whether a resource is a mount of either kind.
pub open spec fn is_mount_resource(r: ResourceModel) -> bool {
    match r {
        ResourceModel::MountPoint { .. } => true,
        ResourceModel::BindMount { .. } => true,
        _ => false,
    }
}

/// Whether a resource is the loop device.
pub open spec fn is_loop_resource(r: ResourceModel) -> bool {
    match r {
        ResourceModel::LoopDevice { .. } => true,
        _ => false,
    }
}

/// One step of the pipeline.
#[derive(Debug)]
pub enum Step {
    /// Run a command; a non-zero exit aborts the pipeline.
    Run(Cmd),
    /// Run a command and hand its captured stdout back to the pipeline.
    RunCapture(Cmd),
    /// Run a command, feeding the given lines to its stdin.
    PipeStdin { cmd: Cmd, lines: Vec<String> },
    /// Create a sparse file of the given length.
    CreateSparseFile { path: String, size_bytes: u64 },
    /// Write a text file of the given lines, each followed by a newline.
    WriteFile { path: String, lines: Vec<String> },
    /// Copy one file over another.
    CopyFile { src: String, dest: String },
    /// Hand the names of a directory's entries back to the pipeline.
    ListDir { path: String },
    /// Report progress to the operator.
    Print { text: String },
    /// Record that a resource is now held.
    Acquire(Resource),
    /// Record that a resource is no longer held.
    Release(Resource),
}

/// The mathematical value of a step.
#[verifier::ext_equal]
pub enum StepModel {
    Run(CmdModel),
    RunCapture(CmdModel),
    PipeStdin { cmd: CmdModel, lines: Seq<Seq<char>> },
    CreateSparseFile { path: Seq<char>, size_bytes: u64 },
    WriteFile { path: Seq<char>, lines: Seq<Seq<char>> },
    CopyFile { src: Seq<char>, dest: Seq<char> },
    ListDir { path: Seq<char> },
    Print { text: Seq<char> },
    Acquire(ResourceModel),
    Release(ResourceModel),
}

impl View for Step {
    type V = StepModel;

    open spec fn view(&self) -> StepModel {
        match self {
            Step::Run(c) => StepModel::Run(c@),
            Step::RunCapture(c) => StepModel::RunCapture(c@),
            Step::PipeStdin { cmd, lines } => StepModel::PipeStdin {
                cmd: cmd@,
                lines: lines.deep_view(),
            },
            Step::CreateSparseFile { path, size_bytes } => StepModel::CreateSparseFile {
                path: path@,
                size_bytes: *size_bytes,
            },
            Step::WriteFile { path, lines } => StepModel::WriteFile {
                path: path@,
                lines: lines.deep_view(),
            },
            Step::CopyFile { src, dest } => StepModel::CopyFile { src: src@, dest: dest@ },
            Step::ListDir { path } => StepModel::ListDir { path: path@ },
            Step::Print { text } => StepModel::Print { text: text@ },
            Step::Acquire(r) => StepModel::Acquire(r@),
            Step::Release(r) => StepModel::Release(r@),
        }
    }
}

impl DeepView for Step {
    type V = StepModel;

    open spec fn deep_view(&self) -> StepModel {
        self.view()
    }
}

/// Whether a step is an acquisition marker.
pub open spec fn is_acquire_step(s: StepModel) -> bool {
    match s {
        StepModel::Acquire(_) => true,
        _ => false,
    }
}

/// Whether a step is a release marker.
pub open spec fn is_release_step(s: StepModel) -> bool {
    match s {
        StepModel::Release(_) => true,
        _ => false,
    }
}

/// The resource an acquisition or release marker speaks of.
pub open spec fn marker_resource(s: StepModel) -> ResourceModel
    recommends
        is_acquire_step(s) || is_release_step(s),
{
    match s {
        StepModel::Acquire(r) => r,
        StepModel::Release(r) => r,
        _ => arbitrary(),
    }
}

/// The resources a trace acquires, in order.
pub open spec fn acquires_of(t: Seq<StepModel>) -> Seq<ResourceModel>
    decreases t.len(),
{
    if t.len() == 0 {
        Seq::<ResourceModel>::empty()
    } else if is_acquire_step(t.last()) {
        acquires_of(t.drop_last()).push(marker_resource(t.last()))
    } else {
        acquires_of(t.drop_last())
    }
}

/// The resources a trace releases, in order.
pub open spec fn releases_of(t: Seq<StepModel>) -> Seq<ResourceModel>
    decreases t.len(),
{
    if t.len() == 0 {
        Seq::<ResourceModel>::empty()
    } else if is_release_step(t.last()) {
        releases_of(t.drop_last()).push(marker_resource(t.last()))
    } else {
        releases_of(t.drop_last())
    }
}

/// The resources still held after a trace: acquisitions push, releases pop.
pub open spec fn active_of(t: Seq<StepModel>) -> Seq<ResourceModel>
    decreases t.len(),
{
    if t.len() == 0 {
        Seq::<ResourceModel>::empty()
    } else {
        let prev = active_of(t.drop_last());
        if is_acquire_step(t.last()) {
            prev.push(marker_resource(t.last()))
        } else if is_release_step(t.last()) {
            if prev.len() > 0 && prev.last() == marker_resource(t.last()) {
                prev.drop_last()
            } else {
                prev
            }
        } else {
            prev
        }
    }
}

/// A trace observes the stack discipline: every release step releases the
/// most recently acquired resource still held.
pub open spec fn stack_ok(t: Seq<StepModel>) -> bool
    decreases t.len(),
{
    t.len() == 0 || (stack_ok(t.drop_last()) && (is_release_step(t.last()) ==> {
        let prev = active_of(t.drop_last());
        prev.len() > 0 && prev.last() == marker_resource(t.last())
    }))
}

/// `a` is a prefix of `b`.
pub open spec fn is_prefix_of<T>(a: Seq<T>, b: Seq<T>) -> bool {
    a.len() <= b.len() && a == b.take(a.len() as int)
}

/// A trace without acquisition or release markers.
pub open spec fn no_markers(t: Seq<StepModel>) -> bool {
    forall|i: int| 0 <= i < t.len() ==> !is_acquire_step(#[trigger] t[i]) && !is_release_step(t[i])
}

/// Acquisitions and releases distribute over trace concatenation.
pub proof fn lemma_markers_concat(a: Seq<StepModel>, b: Seq<StepModel>)
    ensures
        acquires_of(a + b) == acquires_of(a) + acquires_of(b),
        releases_of(a + b) == releases_of(a) + releases_of(b),
    decreases b.len(),
{
    if b.len() == 0 {
        assert(a + b =~= a);
        assert(acquires_of(a) + acquires_of(b) =~= acquires_of(a));
        assert(releases_of(a) + releases_of(b) =~= releases_of(a));
    } else {
        lemma_markers_concat(a, b.drop_last());
        assert((a + b).drop_last() =~= a + b.drop_last());
        assert((a + b).last() == b.last());
        assert(acquires_of(a + b) =~= acquires_of(a) + acquires_of(b));
        assert(releases_of(a + b) =~= releases_of(a) + releases_of(b));
    }
}

/// A marker-free extension changes neither the held resources nor the
/// acquisition and release records, and keeps the stack discipline.
pub proof fn lemma_extend_no_markers(t: Seq<StepModel>, u: Seq<StepModel>)
    requires
        no_markers(u),
    ensures
        active_of(t + u) == active_of(t),
        acquires_of(t + u) == acquires_of(t),
        releases_of(t + u) == releases_of(t),
        stack_ok(t) ==> stack_ok(t + u),
    decreases u.len(),
{
    if u.len() == 0 {
        assert(t + u =~= t);
    } else {
        assert(no_markers(u.drop_last())) by {
            assert(forall|i: int| 0 <= i < u.drop_last().len() ==> u.drop_last()[i] == u[i]);
        }
        lemma_extend_no_markers(t, u.drop_last());
        assert((t + u).drop_last() =~= t + u.drop_last());
        assert(!is_acquire_step((t + u).last()) && !is_release_step((t + u).last())) by {
            assert((t + u).last() == u[u.len() - 1]);
        }
    }
}

/// In a trace without releases, the held resources are exactly the
/// acquisitions, in order.
pub proof fn lemma_active_without_releases(t: Seq<StepModel>)
    requires
        forall|i: int| 0 <= i < t.len() ==> !is_release_step(#[trigger] t[i]),
    ensures
        active_of(t) == acquires_of(t),
        releases_of(t) == Seq::<ResourceModel>::empty(),
        stack_ok(t),
    decreases t.len(),
{
    if t.len() > 0 {
        assert(forall|i: int| 0 <= i < t.drop_last().len() ==> t.drop_last()[i] == t[i]);
        lemma_active_without_releases(t.drop_last());
        assert(!is_release_step(t.last())) by {
            assert(t.last() == t[t.len() - 1]);
        }
    }
}

/// The acquisitions of a prefix are a prefix of the acquisitions.
pub proof fn lemma_acquires_of_prefix(t: Seq<StepModel>, i: int)
    requires
        0 <= i <= t.len(),
    ensures
        is_prefix_of(acquires_of(t.take(i)), acquires_of(t)),
    decreases t.len() - i,
{
    if i == t.len() {
        assert(t.take(i) =~= t);
        assert(acquires_of(t) =~= acquires_of(t).take(acquires_of(t).len() as int));
    } else {
        lemma_acquires_of_prefix(t, i + 1);
        assert(t.take(i + 1).drop_last() =~= t.take(i));
        assert(t.take(i + 1).last() == t[i]);
        let a = acquires_of(t.take(i));
        let b = acquires_of(t.take(i + 1));
        let c = acquires_of(t);
        if is_acquire_step(t[i]) {
            assert(b == a.push(marker_resource(t[i])));
        } else {
            assert(b == a);
        }
        assert(a =~= b.take(a.len() as int));
        assert(is_prefix_of(a, b));
        assert(a =~= c.take(b.len() as int).take(a.len() as int));
        assert(c.take(b.len() as int).take(a.len() as int) =~= c.take(a.len() as int));
    }
}

/// The stack discipline carries over to every prefix of a trace.
pub proof fn lemma_stack_ok_prefix(t: Seq<StepModel>, i: int)
    requires
        stack_ok(t),
        0 <= i <= t.len(),
    ensures
        stack_ok(t.take(i)),
    decreases t.len(),
{
    if i < t.len() && t.len() > 0 {
        assert(t.drop_last().take(i) =~= t.take(i));
        lemma_stack_ok_prefix(t.drop_last(), i);
    } else {
        assert(t.take(i) =~= t);
    }
}


/// What a single step records.
pub proof fn lemma_markers_singleton(s: StepModel)
    ensures
        acquires_of(seq![s]) == (if is_acquire_step(s) {
            seq![marker_resource(s)]
        } else {
            Seq::<ResourceModel>::empty()
        }),
        releases_of(seq![s]) == (if is_release_step(s) {
            seq![marker_resource(s)]
        } else {
            Seq::<ResourceModel>::empty()
        }),
{
    assert(seq![s].drop_last() =~= Seq::<StepModel>::empty());
    assert(seq![s].last() == s);
    assert(acquires_of(Seq::<StepModel>::empty()) == Seq::<ResourceModel>::empty());
    assert(releases_of(Seq::<StepModel>::empty()) == Seq::<ResourceModel>::empty());
    if is_acquire_step(s) {
        assert(acquires_of(seq![s]) =~= seq![marker_resource(s)]);
    }
    if is_release_step(s) {
        assert(releases_of(seq![s]) =~= seq![marker_resource(s)]);
    }
}

/// A trace that records no release holds no release step.
pub proof fn lemma_no_releases_of(t: Seq<StepModel>)
    requires
        releases_of(t) == Seq::<ResourceModel>::empty(),
    ensures
        forall|i: int| 0 <= i < t.len() ==> !is_release_step(#[trigger] t[i]),
    decreases t.len(),
{
    if t.len() > 0 {
        assert(!is_release_step(t.last())) by {
            if is_release_step(t.last()) {
                assert(releases_of(t).len() > 0);
            }
        }
        lemma_no_releases_of(t.drop_last());
        assert(forall|i: int| 0 <= i < t.len() - 1 ==> t.drop_last()[i] == #[trigger] t[i]);
        assert(t[t.len() - 1] == t.last());
    }
}

/// A marker-free trace records nothing.
pub proof fn lemma_no_markers_records(u: Seq<StepModel>)
    requires
        no_markers(u),
    ensures
        acquires_of(u) == Seq::<ResourceModel>::empty(),
        releases_of(u) == Seq::<ResourceModel>::empty(),
{
    lemma_extend_no_markers(Seq::<StepModel>::empty(), u);
    assert(Seq::<StepModel>::empty() + u =~= u);
    assert(acquires_of(Seq::<StepModel>::empty()) == Seq::<ResourceModel>::empty());
    assert(releases_of(Seq::<StepModel>::empty()) == Seq::<ResourceModel>::empty());
}

} // verus!
