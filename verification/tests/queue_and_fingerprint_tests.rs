use ccargo::fingerprint::{
    DepInfo, DepInfoPathType, DepObject, FileStamp, FsSnapshot, Fingerprint, CompareResult,
    dep_info_stale_sources,
};

fn stamp(secs: i64) -> FileStamp {
    FileStamp { secs, nanos: 0 }
}

#[test]
fn depinfo_round_trip() {
    let info = DepInfo {
        files: vec![
            (DepInfoPathType::PackageRootRelative, b"src/a.c".to_vec()),
            (DepInfoPathType::TargetRootRelative, b"gen/h.h".to_vec()),
            (DepInfoPathType::PackageRootRelative, b"inc/b.h".to_vec()),
        ],
        objects: vec![
            DepObject { file: 0, inputs: vec![1, 2] },
            DepObject { file: 2, inputs: vec![] },
        ],
    };
    let bytes = info.serialize();
    let back = DepInfo::deserialize(&bytes).unwrap();
    assert_eq!(info.files.len(), back.files.len());
    for (a, b) in info.files.iter().zip(back.files.iter()) {
        assert_eq!(a.0, b.0);
        assert_eq!(a.1, b.1);
    }
    assert_eq!(info.objects.len(), back.objects.len());
    for (a, b) in info.objects.iter().zip(back.objects.iter()) {
        assert_eq!(a.file, b.file);
        assert_eq!(a.inputs, b.inputs);
    }
    assert!(DepInfo::deserialize(&bytes[..bytes.len() - 1]).is_none());
}

#[test]
fn header_touch_marks_owning_source() {
    // one source whose header is newer than the dep-info stamp
    let info = DepInfo {
        files: vec![
            (DepInfoPathType::PackageRootRelative, b"src/hello.c".to_vec()),
            (DepInfoPathType::PackageRootRelative, b"inc/hello.h".to_vec()),
        ],
        objects: vec![DepObject { file: 0, inputs: vec![1] }],
    };
    let mut snap = FsSnapshot::new();
    snap.add_stamp(b"/ws/src/hello.c".to_vec(), stamp(100));
    snap.add_stamp(b"/ws/inc/hello.h".to_vec(), stamp(500));
    let mut updated = Vec::new();
    let found = dep_info_stale_sources(
        &info, b"/ws", b"/t", &stamp(200), &snap, true, &mut updated,
    );
    assert!(found);
    // the header itself and its owning source are both reported
    assert!(updated.contains(&b"/ws/inc/hello.h".to_vec()));
    assert!(updated.contains(&b"/ws/src/hello.c".to_vec()));

    // with an older header nothing is stale
    let mut snap2 = FsSnapshot::new();
    snap2.add_stamp(b"/ws/src/hello.c".to_vec(), stamp(100));
    snap2.add_stamp(b"/ws/inc/hello.h".to_vec(), stamp(150));
    let mut updated2 = Vec::new();
    let found2 = dep_info_stale_sources(
        &info, b"/ws", b"/t", &stamp(200), &snap2, true, &mut updated2,
    );
    assert!(!found2);
    assert_eq!(0, updated2.len());
}

#[test]
fn fingerprint_hash_deterministic() {
    let mut a = Fingerprint::new();
    a.compiler_hash = 11;
    a.target_hash = 22;
    a.profile_hash = 33;
    let mut b = Fingerprint::new();
    b.compiler_hash = 11;
    b.target_hash = 22;
    b.profile_hash = 33;
    assert_eq!(a.hash_u64(), b.hash_u64());
    b.target_hash = 23;
    assert_ne!(a.hash_u64(), b.hash_u64());
}

#[test]
fn stable_hash_ignores_workspace() {
    let ws1 = b"/home/one/proj".to_vec();
    let ws2 = b"/mnt/elsewhere/proj".to_vec();
    let paths1 = vec![ccargo::paths::join(&ws1, b"src/a.c"), ccargo::paths::join(&ws1, b"inc/b.h")];
    let paths2 = vec![ccargo::paths::join(&ws2, b"src/a.c"), ccargo::paths::join(&ws2, b"inc/b.h")];
    let h1 = ccargo::fingerprint::stable_hash_paths(&ws1, &paths1);
    let h2 = ccargo::fingerprint::stable_hash_paths(&ws2, &paths2);
    assert_eq!(h1, h2);
    let other = vec![ccargo::paths::join(&ws2, b"src/other.c")];
    assert_ne!(h1, ccargo::fingerprint::stable_hash_paths(&ws2, &other));
}

#[test]
fn compare_explains_differences() {
    let mut a = Fingerprint::new();
    a.compiler_hash = 1;
    let mut b = Fingerprint::new();
    b.compiler_hash = 2;
    assert_eq!(CompareResult::CompilerChanged, a.compare(&b));
    b.compiler_hash = 1;
    b.target_hash = 9;
    assert_eq!(CompareResult::TargetConfigurationChanged, a.compare(&b));
    b.target_hash = 0;
    b.profile_hash = 9;
    assert_eq!(CompareResult::ProfileConfigurationChanged, a.compare(&b));
    b.profile_hash = 0;
    assert_eq!(CompareResult::FilesystemOutdated, a.compare(&b));
}

#[test]
fn outputs_missing_means_stale() {
    let mut f = Fingerprint::new();
    f.outputs.push(b"/t/bin/app".to_vec());
    let snap = FsSnapshot::new();
    let sources = vec![b"/ws/src/a.c".to_vec()];
    let mut state = ccargo::fingerprint::FingerprintState::new();
    f.check_outputs_and_deps(&snap, &sources, &mut state);
    assert!(state.link);
    assert!(!state.is_fresh());
    assert!(state.files.contains(&b"/ws/src/a.c".to_vec()));

    // with the output present and no deps, the unit is up to date
    let mut f2 = Fingerprint::new();
    f2.outputs.push(b"/t/bin/app".to_vec());
    let mut snap2 = FsSnapshot::new();
    snap2.add_stamp(b"/t/bin/app".to_vec(), stamp(50));
    let mut state2 = ccargo::fingerprint::FingerprintState::new();
    f2.check_outputs_and_deps(&snap2, &sources, &mut state2);
    assert!(state2.is_fresh());
    assert!(f2.fs_status.up_to_date());
}
