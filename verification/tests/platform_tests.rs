use ccargo::flags::gcc_target_rules;
use ccargo::platform::{host_triple, validate_target, HostArch, HostOs, RustcTarget, parse_host_line};
use ccargo::prefixes::{prefix_for_target, PrefixResult};
use ccargo::which::{split_path_entries, which_candidates, with_exe_extension};
use ccargo::toml_model::{StringOrBool, TomlOptions, TomlTarget, TomlStep};
use ccargo::unit::TargetKind;

#[test]
fn gcc_target_flag_table() {
    assert_eq!(vec![b"-m32".to_vec()], gcc_target_rules(b"i686-unknown-linux-gnu")[..1].to_vec());
    assert_eq!(
        vec![b"-m32".to_vec(), b"-march=i686".to_vec()],
        gcc_target_rules(b"i686-unknown-linux-gnu")
    );
    assert_eq!(vec![b"-m64".to_vec()], gcc_target_rules(b"x86_64-unknown-linux-gnu"));
    assert_eq!(vec![b"-mx32".to_vec()], gcc_target_rules(b"x86_64-unknown-linux-gnux32"));
    assert_eq!(
        vec![b"-march=armv7-a".to_vec(), b"-mfpu=vfpv3-d16".to_vec()],
        gcc_target_rules(b"armv7-unknown-linux-gnueabihf")
    );
    assert_eq!(
        vec![
            b"-mthumb".to_vec(),
            b"-mfloat-abi=hard".to_vec(),
            b"-march=armv7e-m".to_vec(),
            b"-mfpu=fpv4-sp-d16".to_vec(),
        ],
        gcc_target_rules(b"thumbv7em-none-eabihf")
    );
    assert_eq!(
        vec![
            b"-march=rv64gc".to_vec(),
            b"-mabi=lp64d".to_vec(),
            b"-mcmodel=medany".to_vec(),
        ],
        gcc_target_rules(b"riscv64gc-unknown-linux-gnu")
    );
    assert_eq!(
        vec![
            b"-march=rv32imac".to_vec(),
            b"-mabi=ilp32".to_vec(),
            b"-mcmodel=medany".to_vec(),
        ],
        gcc_target_rules(b"riscv32imac-unknown-none-elf")
    );
    assert_eq!(
        vec![b"-m64".to_vec(), b"-arch".to_vec(), b"x86_64".to_vec()],
        gcc_target_rules(b"x86_64-apple-darwin")
    );
    assert_eq!(Vec::<Vec<u8>>::new(), gcc_target_rules(b"sparc-unknown-linux-gnu"));
    assert_eq!(vec![b"-m64".to_vec()], gcc_target_rules(b"x86_64-pc-windows-gnu"));
}

#[test]
fn prefixes() {
    match prefix_for_target(b"aarch64-unknown-linux-gnu") {
        PrefixResult::Fixed(p) => assert_eq!(b"aarch64-linux-gnu".to_vec(), p),
        _ => panic!("expected a fixed prefix"),
    }
    match prefix_for_target(b"riscv64gc-unknown-none-elf") {
        PrefixResult::Probe(ps) => {
            assert_eq!(3, ps.len());
            assert_eq!(b"riscv64-unknown-elf".to_vec(), ps[0]);
        }
        _ => panic!("expected probe candidates"),
    }
    assert!(matches!(prefix_for_target(b"wasm32-wasi"), PrefixResult::Unknown));
}

#[test]
fn hosts_and_targets() {
    assert_eq!(
        b"x86_64-unknown-linux-gnu".to_vec(),
        host_triple(HostOs::Linux, HostArch::X8664)
    );
    assert_eq!(
        b"x86_64-pc-windows-msvc".to_vec(),
        host_triple(HostOs::Windows, HostArch::X8664)
    );
    assert!(validate_target(b"x86_64-unknown-linux-gnu"));
    assert!(validate_target(b"thumbv8m.main-none-eabihf"));
    assert!(!validate_target(b"not-a-real-target"));
    let rt = RustcTarget::new(b"x86_64-unknown-linux-gnu".to_vec(), Vec::new());
    assert_eq!(b"x86_64-unknown-linux-gnu".to_vec(), rt.target().clone());
    let parsed = parse_host_line(b"rustc 1.70.0\nhost: x86_64-unknown-linux-gnu\nrelease: x\n");
    assert_eq!(Some(b"x86_64-unknown-linux-gnu".to_vec()), parsed);
}

#[test]
fn which_candidate_paths() {
    let entries = split_path_entries(b"/usr/bin::/opt/t/bin");
    assert_eq!(2, entries.len());
    let exe = with_exe_extension(b"gcc", false);
    let cands = which_candidates(&exe, &entries);
    assert_eq!(vec![b"/usr/bin/gcc".to_vec(), b"/opt/t/bin/gcc".to_vec()], cands);
    assert_eq!(b"cl.exe".to_vec(), with_exe_extension(b"cl", true));
}

#[test]
fn tool_families() {
    assert_eq!(ccargo::toolchain::ToolFamily::Msvc, ccargo::toolchain::detect_family_name(b"cl.exe"));
    assert_eq!(ccargo::toolchain::ToolFamily::Msvc, ccargo::toolchain::detect_family_name(b"cl"));
    assert_eq!(ccargo::toolchain::ToolFamily::Clang, ccargo::toolchain::detect_family_name(b"clang++"));
    assert_eq!(ccargo::toolchain::ToolFamily::Gnu, ccargo::toolchain::detect_family_name(b"gcc"));
    let t = ccargo::toolchain::Tool::new(ccargo::toolchain::ToolKind::Compiler, b"/usr/bin/clang".to_vec());
    assert_eq!(ccargo::toolchain::ToolFamily::Clang, t.family);
    assert!(ccargo::toolchain::android_clang_compiler_uses_target_arg_internally(
        b"aarch64-linux-android21-clang"
    ));
    assert_eq!(
        Some(b"arm64".to_vec()),
        ccargo::toolchain::map_darwin_target_from_rust_to_compiler_architecture(
            b"aarch64-apple-darwin"
        )
    );
}

#[test]
fn dep_files() {
    let d = b"out/a.o: src/a.c \\\n  inc/a.h inc/b.h\n";
    let paths = ccargo::dep_info::parse_dependency_file_unix(d);
    assert_eq!(vec![b"inc/a.h".to_vec(), b"inc/b.h".to_vec()], paths);
    let rendered = ccargo::dep_info::render_dependency_file(
        &vec![b"c:/i/x.h".to_vec(), b"c:/i/y.h".to_vec()]
    );
    assert_eq!(b"@DEPS@\nc:/i/x.h\nc:/i/y.h".to_vec(), rendered);
    let listed = ccargo::dep_info::read_dependency_data(&rendered);
    assert_eq!(vec![b"c:/i/x.h".to_vec(), b"c:/i/y.h".to_vec()], listed);
    let filtered = ccargo::dep_info::filter_system_paths(
        &vec![b"/msvc/inc/stdio.h".to_vec(), b"/ws/inc/a.h".to_vec()],
        b"/msvc",
    );
    assert_eq!(vec![b"/ws/inc/a.h".to_vec()], filtered);
}

#[test]
fn toml_conversion() {
    let opts = TomlOptions {
        std_c: Some(ccargo::options::StdC::C99),
        std_cxx: None,
        cxx_stdlib: None,
        gnu: None,
        warning_level: Some(ccargo::options::WarningLevel::All),
        warning_errors: Some(true),
        warning_extra: None,
        static_crt: None,
        cc_flags: Some(vec![b"-fno-rtti".to_vec()]),
        ld_flags: None,
        ar_flags: None,
        asm_flags: None,
        pic: None,
        plt: None,
        force_frame_pointer: None,
    };
    let real = opts.to_real(TargetKind::Shared);
    assert_eq!(ccargo::options::Crt::Shared, real.crt);
    assert_eq!(ccargo::options::StdC::C99, real.std.c);
    assert_eq!(ccargo::options::WarningLevel::All, real.warnings.level);
    assert_eq!(vec![b"-fno-rtti".to_vec()], real.cc_flags);

    let tt = TomlTarget {
        name: b"mylib".to_vec(),
        sources: vec![b"src/a.c".to_vec()],
        define_public: vec![b"PUB".to_vec()],
        define_private: vec![],
        include_public: vec![b"inc".to_vec()],
        include_private: vec![],
        depends_public: vec![],
        depends_private: vec![],
        options: None,
        export_header: None,
        shared: Some(true),
        runtime: None,
        is_bin: false,
    };
    let t = tt.to_real(b"/ws/pkg", b"pkg");
    assert_eq!(TargetKind::Shared, t.kind);
    assert_eq!(vec![b"/ws/pkg/src/a.c".to_vec()], t.sources);
    // the declared define plus the shared-library pair
    assert_eq!(3, t.defines.len());
    assert_eq!(b"PUB".to_vec(), t.defines[0].get().clone());
    assert!(t.defines[0].is_public());
    assert_eq!(b"mylib_SHARED".to_vec(), t.defines[1].get().clone());
    assert_eq!(b"mylib_EXPORTS".to_vec(), t.defines[2].get().clone());
    assert!(!t.defines[2].is_public());
    assert!(t.rpath.is_none());

    let tt2 = TomlTarget { runtime: Some(StringOrBool::Flag(true)), ..tt.clone() };
    let t2 = tt2.to_real(b"/ws/pkg", b"pkg");
    assert_eq!(Some(b".".to_vec()), t2.rpath);

    let st = TomlStep {
        name: b"gen".to_vec(),
        command: b"tools/gen.py --fast".to_vec(),
        inputs: vec![b"input.txt".to_vec()],
        outputs: vec![b"generated.h".to_vec()],
        depends: vec![],
    };
    let s = st.to_real(b"/ws/pkg", b"pkg");
    assert_eq!(vec![b"/ws/pkg/input.txt".to_vec()], s.inputs);
    assert_eq!(vec![b"/ws/pkg/generated.h".to_vec()], s.outputs);
    match &s.program {
        ccargo::unit::Program::Script { tool, script } => {
            assert_eq!(b"python".to_vec(), tool.clone());
            assert_eq!(b"tools/gen.py".to_vec(), script.clone());
        }
        _ => panic!("expected a script program"),
    }
    assert_eq!(vec![b"--fast".to_vec()], s.args);
}

#[test]
fn supported_flags_cache() {
    let mut f = ccargo::supported_flags::SupportedFlags::new();
    assert!(!f.contains(b"-Wall"));
    f.insert(b"-Wall");
    assert!(f.contains(b"-Wall"));
    assert!(!f.contains(b"-Wextra"));
    let mut w = ccargo::serde_bin::BinaryWriter::new();
    f.serialize(&mut w);
    let bytes = w.into_inner();
    let mut r = ccargo::serde_bin::BinaryReader::new(&bytes);
    let back = ccargo::supported_flags::SupportedFlags::deserialize(&mut r).unwrap();
    assert!(back.contains(b"-Wall"));
}
