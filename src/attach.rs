use vstd::prelude::*;

verus! {

/// File name of the native animation library.
pub const LIBRARY_FILE: &'static str = "libNotchCapsuleKit.dylib";

/// Selector of the native animator's attach entry point.
pub const ATTACH_SELECTOR: &'static str = "attachTo:closedRect:expandedRect:corner:";

/// Selector through which the native animator takes the configuration.
pub const CONFIG_SELECTOR: &'static str = "setConfigJson:";

/// A directory from which a library candidate path is formed.
#[derive(Clone, Copy, Debug, PartialEq, Eq, Structural)]
pub enum PathBase {
    /// The directory of the running executable.
    ExecutableDir,
    /// The parent of the executable's directory.
    ExecutableParent,
    /// The current working directory.
    WorkingDir,
}

/// One place where the native library may be found: `relative` under `base`.
#[derive(Clone, Debug)]
pub struct LibraryCandidate {
    pub base: PathBase,
    pub relative: String,
}

fn candidate(base: PathBase, relative: &str) -> (r: LibraryCandidate)
    ensures
        r.base == base,
        r.relative@ == relative@,
{
    LibraryCandidate { base, relative: relative.to_string() }
}

/// The places searched for the animation library, in order.
pub fn library_candidates() -> (r: Vec<LibraryCandidate>)
    ensures
        r@.len() == 4,
        r@[0].base == PathBase::ExecutableDir && r@[0].relative@ == LIBRARY_FILE@,
        r@[1].base == PathBase::ExecutableParent && r@[1].relative@ == LIBRARY_FILE@,
        r@[2].base == PathBase::WorkingDir && r@[2].relative@
            == "target/debug/libNotchCapsuleKit.dylib"@,
        r@[3].base == PathBase::WorkingDir && r@[3].relative@
            == "target/release/libNotchCapsuleKit.dylib"@,
{
    let mut r: Vec<LibraryCandidate> = Vec::new();
    r.push(candidate(PathBase::ExecutableDir, LIBRARY_FILE));
    r.push(candidate(PathBase::ExecutableParent, LIBRARY_FILE));
    r.push(candidate(PathBase::WorkingDir, "target/debug/libNotchCapsuleKit.dylib"));
    r.push(candidate(PathBase::WorkingDir, "target/release/libNotchCapsuleKit.dylib"));
    r
}

/// The names under which the animator class may be registered, in order:
/// module-qualified, plain, and the mangled form.
pub fn animator_class_names() -> (r: Vec<String>)
    ensures
        r@.len() == 3,
        r@[0]@ == "NotchCapsuleKit.NotchAnimator"@,
        r@[1]@ == "NotchAnimator"@,
        r@[2]@ == "_TtC15NotchCapsuleKit13NotchAnimator"@,
{
    let mut r: Vec<String> = Vec::new();
    r.push("NotchCapsuleKit.NotchAnimator".to_string());
    r.push("NotchAnimator".to_string());
    r.push("_TtC15NotchCapsuleKit13NotchAnimator".to_string());
    r
}

/// The places searched for the library by the notch manager, in order.
pub fn manager_library_candidates() -> (r: Vec<LibraryCandidate>)
    ensures
        r@.len() == 5,
        r@[0].base == PathBase::ExecutableDir && r@[0].relative@ == LIBRARY_FILE@,
        r@[1].base == PathBase::ExecutableDir && r@[1].relative@
            == "../Resources/target/release/libNotchCapsuleKit.dylib"@,
        r@[2].base == PathBase::ExecutableParent && r@[2].relative@ == LIBRARY_FILE@,
        r@[3].base == PathBase::WorkingDir && r@[3].relative@
            == "target/debug/libNotchCapsuleKit.dylib"@,
        r@[4].base == PathBase::WorkingDir && r@[4].relative@
            == "target/release/libNotchCapsuleKit.dylib"@,
{
    let mut r: Vec<LibraryCandidate> = Vec::new();
    r.push(candidate(PathBase::ExecutableDir, LIBRARY_FILE));
    r.push(
        candidate(PathBase::ExecutableDir, "../Resources/target/release/libNotchCapsuleKit.dylib"),
    );
    r.push(candidate(PathBase::ExecutableParent, LIBRARY_FILE));
    r.push(candidate(PathBase::WorkingDir, "target/debug/libNotchCapsuleKit.dylib"));
    r.push(candidate(PathBase::WorkingDir, "target/release/libNotchCapsuleKit.dylib"));
    r
}

/// The names under which the notch manager class may be registered, in order.
pub fn manager_class_names() -> (r: Vec<String>)
    ensures
        r@.len() == 3,
        r@[0]@ == "NotchCapsuleKit.NotchManager"@,
        r@[1]@ == "NotchManager"@,
        r@[2]@ == "_TtC15NotchCapsuleKit12NotchManager"@,
{
    let mut r: Vec<String> = Vec::new();
    r.push("NotchCapsuleKit.NotchManager".to_string());
    r.push("NotchManager".to_string());
    r.push("_TtC15NotchCapsuleKit12NotchManager".to_string());
    r
}

/// Where a probe over an ordered candidate list stands.
#[derive(Clone, Copy, Debug, PartialEq, Eq, Structural)]
pub enum ProbeStep {
    /// Try the candidate at this index.
    Try(usize),
    /// The candidate at this index worked; the rest are not tried.
    Found(usize),
    /// Every candidate failed.
    Exhausted,
}

/// A probe over `count` candidates, tried in order until one works.
#[derive(Clone, Copy, Debug, PartialEq, Eq, Structural)]
pub struct CandidateProbe {
    pub step: ProbeStep,
    pub count: usize,
}

/// The probe's step after trying the current candidate.
pub open spec fn next_probe_step(step: ProbeStep, ok: bool, count: usize) -> ProbeStep {
    match step {
        ProbeStep::Try(i) => if ok {
            ProbeStep::Found(i)
        } else if i + 1 < count {
            ProbeStep::Try((i + 1) as usize)
        } else {
            ProbeStep::Exhausted
        },
        s => s,
    }
}

impl CandidateProbe {
    /// The index being tried stays within the list.
    pub open spec fn wf(self) -> bool {
        self.step matches ProbeStep::Try(i) ==> i < self.count
    }

    /// A probe that starts at the first of `count` candidates.
    pub fn new(count: usize) -> (r: Self)
        ensures
            r.wf(),
            r.count == count,
            r.step == (if count > 0 {
                ProbeStep::Try(0)
            } else {
                ProbeStep::Exhausted
            }),
    {
        let step = if count > 0 {
            ProbeStep::Try(0)
        } else {
            ProbeStep::Exhausted
        };
        CandidateProbe { step, count }
    }

    /// Records whether the current candidate worked; returns the next step.
    pub fn advance(&mut self, ok: bool) -> (r: ProbeStep)
        requires
            old(self).wf(),
        ensures
            final(self).wf(),
            final(self).count == old(self).count,
            r == final(self).step,
            r == next_probe_step(old(self).step, ok, old(self).count),
    {
        let next = match self.step {
            ProbeStep::Try(i) => if ok {
                ProbeStep::Found(i)
            } else if i + 1 < self.count {
                ProbeStep::Try(i + 1)
            } else {
                ProbeStep::Exhausted
            },
            s => s,
        };
        self.step = next;
        next
    }
}

/// Why an attach left no native animator in place.
#[derive(Clone, Copy, Debug, PartialEq, Eq, Structural)]
pub enum AttachError {
    /// The capsule's native window could not be reached.
    WindowUnavailable,
    /// No candidate library could be loaded.
    LibraryNotFound,
    /// No candidate class name resolved, or the class lacks the attach entry.
    SymbolNotFound,
    /// The class would not produce an instance.
    InstantiationFailed,
    /// The attach call faulted.
    InvocationFault,
}

/// What the attach sequence asks for next, or how it ended.
#[derive(Clone, Copy, Debug, PartialEq, Eq, Structural)]
pub enum AttachStep {
    /// Reach the capsule's native window.
    FindWindow,
    /// Load the library at this index of the candidates.
    LoadLibrary(usize),
    /// Look up the class under this index of the candidate names.
    ResolveClass(usize),
    /// Create an animator instance from the class.
    Instantiate,
    /// Check that the class answers the attach selector.
    CheckSelector,
    /// Call the attach entry point; afterwards the animator is live.
    InvokeAttach,
    /// Hand the configuration over, where the animator takes it.
    SendConfig,
    /// Finished with a live animator; whether it took the configuration.
    Attached(bool),
    /// Finished without an animator.
    Failed(AttachError),
}

/// The attach sequence as a state machine: the caller performs each step on
/// the UI thread and reports whether it succeeded.
#[derive(Clone, Copy, Debug, PartialEq, Eq, Structural)]
pub struct AttachProbe {
    pub step: AttachStep,
    pub libraries: usize,
    pub classes: usize,
}

/// The step after `step`, given whether it succeeded. Candidates are tried
/// in order and the first success moves on; a failed configuration hand-over
/// does not undo the attach.
pub open spec fn next_step(step: AttachStep, ok: bool, libraries: usize, classes: usize) -> AttachStep {
    match step {
        AttachStep::FindWindow => if !ok {
            AttachStep::Failed(AttachError::WindowUnavailable)
        } else if libraries > 0 {
            AttachStep::LoadLibrary(0)
        } else {
            AttachStep::Failed(AttachError::LibraryNotFound)
        },
        AttachStep::LoadLibrary(i) => if ok {
            if classes > 0 {
                AttachStep::ResolveClass(0)
            } else {
                AttachStep::Failed(AttachError::SymbolNotFound)
            }
        } else if i + 1 < libraries {
            AttachStep::LoadLibrary((i + 1) as usize)
        } else {
            AttachStep::Failed(AttachError::LibraryNotFound)
        },
        AttachStep::ResolveClass(i) => if ok {
            AttachStep::Instantiate
        } else if i + 1 < classes {
            AttachStep::ResolveClass((i + 1) as usize)
        } else {
            AttachStep::Failed(AttachError::SymbolNotFound)
        },
        AttachStep::Instantiate => if ok {
            AttachStep::CheckSelector
        } else {
            AttachStep::Failed(AttachError::InstantiationFailed)
        },
        AttachStep::CheckSelector => if ok {
            AttachStep::InvokeAttach
        } else {
            AttachStep::Failed(AttachError::SymbolNotFound)
        },
        AttachStep::InvokeAttach => if ok {
            AttachStep::SendConfig
        } else {
            AttachStep::Failed(AttachError::InvocationFault)
        },
        AttachStep::SendConfig => AttachStep::Attached(ok),
        AttachStep::Attached(c) => AttachStep::Attached(c),
        AttachStep::Failed(e) => AttachStep::Failed(e),
    }
}

/// An upper bound on the steps left before the sequence finishes.
pub open spec fn steps_left(step: AttachStep, libraries: usize, classes: usize) -> int {
    match step {
        AttachStep::FindWindow => libraries + classes + 5,
        AttachStep::LoadLibrary(i) => libraries - i + classes + 4,
        AttachStep::ResolveClass(i) => classes - i + 4,
        AttachStep::Instantiate => 4,
        AttachStep::CheckSelector => 3,
        AttachStep::InvokeAttach => 2,
        AttachStep::SendConfig => 1,
        AttachStep::Attached(_) => 0,
        AttachStep::Failed(_) => 0,
    }
}

/// The step reached from `step` when the steps report `results` in turn.
pub open spec fn run_attach(step: AttachStep, results: Seq<bool>, libraries: usize, classes: usize) -> AttachStep
    decreases results.len(),
{
    if results.len() == 0 {
        step
    } else {
        run_attach(next_step(step, results[0], libraries, classes), results.drop_first(), libraries, classes)
    }
}

proof fn lemma_failed_loads(i: usize, results: Seq<bool>, libraries: usize, classes: usize)
    requires
        i < libraries,
        results.len() == libraries - i,
        forall|k: int| 0 <= k < results.len() ==> !#[trigger] results[k],
    ensures
        run_attach(AttachStep::LoadLibrary(i), results, libraries, classes) == AttachStep::Failed(
            AttachError::LibraryNotFound,
        ),
    decreases libraries - i,
{
    let rest = results.drop_first();
    assert(!results[0]);
    let next = next_step(AttachStep::LoadLibrary(i), false, libraries, classes);
    assert(run_attach(AttachStep::LoadLibrary(i), results, libraries, classes) == run_attach(
        next,
        rest,
        libraries,
        classes,
    ));
    if i + 1 < libraries {
        assert forall|k: int| 0 <= k < rest.len() implies !#[trigger] rest[k] by {
            assert(rest[k] == results[k + 1]);
        }
        lemma_failed_loads((i + 1) as usize, rest, libraries, classes);
    } else {
        assert(rest.len() == 0);
    }
}

/// When the window is reached but no library candidate loads, the attach
/// ends without an animator, reporting that no library was found, whatever
/// the number of candidates.
pub proof fn missing_library_leaves_no_animator(
    libraries: usize,
    classes: usize,
    results: Seq<bool>,
)
    requires
        results.len() == libraries + 1,
        results[0],
        forall|k: int| 1 <= k < results.len() ==> !#[trigger] results[k],
    ensures
        run_attach(AttachStep::FindWindow, results, libraries, classes) == AttachStep::Failed(
            AttachError::LibraryNotFound,
        ),
{
    let rest = results.drop_first();
    let next = next_step(AttachStep::FindWindow, true, libraries, classes);
    assert(run_attach(AttachStep::FindWindow, results, libraries, classes) == run_attach(
        next,
        rest,
        libraries,
        classes,
    ));
    if libraries > 0 {
        assert forall|k: int| 0 <= k < rest.len() implies !#[trigger] rest[k] by {
            assert(rest[k] == results[k + 1]);
        }
        lemma_failed_loads(0, rest, libraries, classes);
    } else {
        assert(rest.len() == 0);
    }
}

impl AttachStep {
    /// The sequence has finished.
    pub open spec fn is_done(self) -> bool {
        self is Attached || self is Failed
    }
}

impl AttachProbe {
    /// Candidate indices stay within their lists.
    pub open spec fn wf(self) -> bool {
        &&& self.step matches AttachStep::LoadLibrary(i) ==> i < self.libraries
        &&& self.step matches AttachStep::ResolveClass(i) ==> i < self.classes
    }

    /// A fresh sequence over `libraries` library candidates and `classes`
    /// class names.
    pub fn new(libraries: usize, classes: usize) -> (r: Self)
        ensures
            r == (AttachProbe { step: AttachStep::FindWindow, libraries, classes }),
            r.wf(),
    {
        AttachProbe { step: AttachStep::FindWindow, libraries, classes }
    }

    /// Records the result of the current step and returns the next one.
    /// Each call before the end brings the end closer.
    pub fn advance(&mut self, ok: bool) -> (r: AttachStep)
        requires
            old(self).wf(),
        ensures
            final(self).wf(),
            final(self).libraries == old(self).libraries,
            final(self).classes == old(self).classes,
            r == final(self).step,
            r == next_step(old(self).step, ok, old(self).libraries, old(self).classes),
            !old(self).step.is_done() ==> 0 <= steps_left(r, old(self).libraries, old(self).classes)
                < steps_left(old(self).step, old(self).libraries, old(self).classes),
    {
        let next = match self.step {
            AttachStep::FindWindow => if !ok {
                AttachStep::Failed(AttachError::WindowUnavailable)
            } else if self.libraries > 0 {
                AttachStep::LoadLibrary(0)
            } else {
                AttachStep::Failed(AttachError::LibraryNotFound)
            },
            AttachStep::LoadLibrary(i) => if ok {
                if self.classes > 0 {
                    AttachStep::ResolveClass(0)
                } else {
                    AttachStep::Failed(AttachError::SymbolNotFound)
                }
            } else if i + 1 < self.libraries {
                AttachStep::LoadLibrary(i + 1)
            } else {
                AttachStep::Failed(AttachError::LibraryNotFound)
            },
            AttachStep::ResolveClass(i) => if ok {
                AttachStep::Instantiate
            } else if i + 1 < self.classes {
                AttachStep::ResolveClass(i + 1)
            } else {
                AttachStep::Failed(AttachError::SymbolNotFound)
            },
            AttachStep::Instantiate => if ok {
                AttachStep::CheckSelector
            } else {
                AttachStep::Failed(AttachError::InstantiationFailed)
            },
            AttachStep::CheckSelector => if ok {
                AttachStep::InvokeAttach
            } else {
                AttachStep::Failed(AttachError::SymbolNotFound)
            },
            AttachStep::InvokeAttach => if ok {
                AttachStep::SendConfig
            } else {
                AttachStep::Failed(AttachError::InvocationFault)
            },
            AttachStep::SendConfig => AttachStep::Attached(ok),
            AttachStep::Attached(c) => AttachStep::Attached(c),
        AttachStep::Failed(e) => AttachStep::Failed(e),
        };
        self.step = next;
        next
    }
}

} // verus!
