use notch_capsule::attach::{
    animator_class_names, library_candidates, manager_class_names, manager_library_candidates,
    AttachError, AttachProbe, AttachStep, CandidateProbe, PathBase, ProbeStep,
};

fn run(probe: &mut AttachProbe, results: &[bool]) -> Vec<AttachStep> {
    results.iter().map(|&ok| probe.advance(ok)).collect()
}

#[test]
fn full_success_path() {
    let mut p = AttachProbe::new(4, 3);
    let steps = run(&mut p, &[true, false, true, false, false, true, true, true, true, true]);
    assert_eq!(
        steps,
        vec![
            AttachStep::LoadLibrary(0),
            AttachStep::LoadLibrary(1),
            AttachStep::ResolveClass(0),
            AttachStep::ResolveClass(1),
            AttachStep::ResolveClass(2),
            AttachStep::Instantiate,
            AttachStep::CheckSelector,
            AttachStep::InvokeAttach,
            AttachStep::SendConfig,
            AttachStep::Attached(true),
        ]
    );
}

#[test]
fn missing_config_setter_keeps_the_attach() {
    let mut p = AttachProbe::new(1, 1);
    let steps = run(&mut p, &[true, true, true, true, true, true, false]);
    assert_eq!(*steps.last().unwrap(), AttachStep::Attached(false));
    assert_eq!(p.advance(true), AttachStep::Attached(false));
}

#[test]
fn each_failure_has_its_error() {
    let cases: Vec<(usize, usize, Vec<bool>, AttachError)> = vec![
        (4, 3, vec![false], AttachError::WindowUnavailable),
        (0, 3, vec![true], AttachError::LibraryNotFound),
        (2, 3, vec![true, false, false], AttachError::LibraryNotFound),
        (2, 0, vec![true, true], AttachError::SymbolNotFound),
        (2, 2, vec![true, true, false, false], AttachError::SymbolNotFound),
        (1, 1, vec![true, true, true, false], AttachError::InstantiationFailed),
        (1, 1, vec![true, true, true, true, false], AttachError::SymbolNotFound),
        (1, 1, vec![true, true, true, true, true, false], AttachError::InvocationFault),
    ];
    for (libs, classes, results, err) in cases {
        let mut p = AttachProbe::new(libs, classes);
        let steps = run(&mut p, &results);
        assert_eq!(*steps.last().unwrap(), AttachStep::Failed(err));
    }
}

#[test]
fn candidate_lists_in_order() {
    let libs = library_candidates();
    assert_eq!(libs.len(), 4);
    assert_eq!(libs[0].base, PathBase::ExecutableDir);
    assert_eq!(libs[0].relative, "libNotchCapsuleKit.dylib");
    assert_eq!(libs[1].base, PathBase::ExecutableParent);
    assert_eq!(libs[3].relative, "target/release/libNotchCapsuleKit.dylib");
    assert_eq!(
        animator_class_names(),
        vec!["NotchCapsuleKit.NotchAnimator", "NotchAnimator", "_TtC15NotchCapsuleKit13NotchAnimator"]
    );
    let mlibs = manager_library_candidates();
    assert_eq!(mlibs.len(), 5);
    assert_eq!(mlibs[1].relative, "../Resources/target/release/libNotchCapsuleKit.dylib");
    assert_eq!(manager_class_names()[2], "_TtC15NotchCapsuleKit12NotchManager");
}

#[test]
fn candidate_probe_stops_at_first_success() {
    let mut p = CandidateProbe::new(3);
    assert_eq!(p.step, ProbeStep::Try(0));
    assert_eq!(p.advance(false), ProbeStep::Try(1));
    assert_eq!(p.advance(true), ProbeStep::Found(1));
    assert_eq!(p.advance(false), ProbeStep::Found(1));
    let mut q = CandidateProbe::new(2);
    q.advance(false);
    assert_eq!(q.advance(false), ProbeStep::Exhausted);
    assert_eq!(CandidateProbe::new(0).step, ProbeStep::Exhausted);
}
