use ccargo::driver::{arg_key, msvc_arch_flag, opt_level_flags, output_artifacts, Artifact};
use ccargo::options::{Crt, Language, OptLevel, Profile};
use ccargo::toolchain::ToolFamily;
use ccargo::unit::{BinType, parse_step_line, StepDirective, TargetKind};

#[test]
fn profiles_and_language() {
    let dev = Profile::dev();
    assert!(dev.debug && dev.incremental && !dev.is_optimized());
    assert!(dev.is_incremental());
    assert!(!dev.is_lto_enabled());
    let rel = Profile::release();
    assert!(rel.is_optimized());
    assert!(!rel.is_incremental());
    assert!(rel.is_lto_enabled());
    assert_eq!(b"debug".to_vec(), dev.dir_name);
    assert_eq!(b"release".to_vec(), rel.dir_name);
    assert_eq!(Language::C, Language::detect(b"src/a.c"));
    assert_eq!(Language::C, Language::detect(b"boot.S"));
    assert_eq!(Language::C, Language::detect(b"x.asm"));
    assert_eq!(Language::Cxx, Language::detect(b"src/a.cpp"));
    assert_eq!(Language::Cxx, Language::detect(b"noext"));
    assert!(Language::C.is_c() && !Language::C.is_cxx());
}

#[test]
fn bin_type_extensions() {
    assert_eq!(b"lib".to_vec(), BinType::Static.ext(b"x86_64-pc-windows-msvc"));
    assert_eq!(b"dll".to_vec(), BinType::Shared.ext(b"x86_64-pc-windows-msvc"));
    assert_eq!(b"exe".to_vec(), BinType::Exe.ext(b"x86_64-pc-windows-msvc"));
    assert_eq!(b"a".to_vec(), BinType::Static.ext(b"x86_64-apple-darwin"));
    assert_eq!(b"dylib".to_vec(), BinType::Shared.ext(b"x86_64-apple-darwin"));
    assert_eq!(b"".to_vec(), BinType::Exe.ext(b"x86_64-unknown-linux-gnu"));
    assert_eq!(b"so".to_vec(), BinType::Shared.ext(b"x86_64-unknown-linux-gnu"));
    assert_eq!(BinType::Exe, BinType::from_kind(TargetKind::Test));
    assert_eq!(BinType::Static, BinType::from_kind(TargetKind::Static));
}

#[test]
fn opt_and_arch_flags() {
    assert_eq!(
        vec![b"-Od".to_vec(), b"-Ob0".to_vec()],
        opt_level_flags(ToolFamily::Msvc, OptLevel::O0)
    );
    assert_eq!(
        vec![b"-O2".to_vec(), b"-Ob2".to_vec()],
        opt_level_flags(ToolFamily::Msvc, OptLevel::O3)
    );
    assert_eq!(vec![b"-O3".to_vec()], opt_level_flags(ToolFamily::Gnu, OptLevel::O3));
    // old GNU has no -Oz; clang does
    assert_eq!(vec![b"-Os".to_vec()], opt_level_flags(ToolFamily::Gnu, OptLevel::Oz));
    assert_eq!(vec![b"-Oz".to_vec()], opt_level_flags(ToolFamily::Clang, OptLevel::Oz));
    assert_eq!(b"-machine:x64".to_vec(), msvc_arch_flag(b"x86_64-pc-windows-msvc"));
    assert_eq!(b"-machine:x86".to_vec(), msvc_arch_flag(b"i686-pc-windows-msvc"));
}

#[test]
fn artifacts_by_family() {
    let dev = Profile::dev();
    let rel = Profile::release();
    assert_eq!(
        vec![Artifact::Lib, Artifact::Exp, Artifact::Pdb, Artifact::Ilk],
        output_artifacts(BinType::Shared, ToolFamily::Msvc, false, &dev)
    );
    assert_eq!(
        Vec::<Artifact>::new(),
        output_artifacts(BinType::Exe, ToolFamily::Msvc, false, &rel)
    );
    assert_eq!(
        vec![Artifact::Dsym],
        output_artifacts(BinType::Exe, ToolFamily::Gnu, true, &dev)
    );
    assert!(Artifact::Pdb.is_debug_info());
    assert!(Artifact::Ilk.is_auxiliary());
    assert_eq!(b"dSYM".to_vec(), Artifact::Dsym.ext());
}

#[test]
fn arg_keys() {
    assert_eq!(b"Zc:inline".to_vec(), arg_key(ToolFamily::Msvc, b"-Zc:inline"));
    assert_eq!(b"Zc:inline".to_vec(), arg_key(ToolFamily::Msvc, b"/Zc:inline"));
    assert_eq!(b"Fo".to_vec(), arg_key(ToolFamily::Msvc, b"-Fo:out"));
    assert_eq!(b"-std".to_vec(), arg_key(ToolFamily::Gnu, b"-std=c11"));
    assert_eq!(b"-Wl,-rpath".to_vec(), arg_key(ToolFamily::Gnu, b"-Wl,-rpath,$ORIGIN"));
    assert_eq!(b"-Wall".to_vec(), arg_key(ToolFamily::Gnu, b"-Wall"));
}

#[test]
fn step_directives() {
    match parse_step_line(b"ccargo:rerun-if-changed:input.txt") {
        StepDirective::RerunIfChanged(p) => assert_eq!(b"input.txt".to_vec(), p),
        _ => panic!("expected a rerun directive"),
    }
    assert!(matches!(parse_step_line(b"ccargo:frob:x"), StepDirective::Invalid));
    match parse_step_line(b"plain output") {
        StepDirective::Raw(l) => assert_eq!(b"plain output".to_vec(), l),
        _ => panic!("expected raw output"),
    }
}

#[test]
fn crt_inference() {
    assert!(ccargo::driver::static_crt(Crt::Static, true));
    assert!(!ccargo::driver::static_crt(Crt::Shared, false));
    assert!(ccargo::driver::static_crt(Crt::Default, false));
    assert!(!ccargo::driver::static_crt(Crt::Default, true));
}
