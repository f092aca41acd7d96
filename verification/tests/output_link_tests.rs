use ccargo::output::Message;
use ccargo::toolchain::{ToolFamily, ToolKind};

fn run3(input: &[u8], kind: ToolKind, family: ToolFamily, windows: bool, colors: bool) -> Vec<u8> {
    let msgs = Message::parse_all(input, kind, family, windows, colors);
    let mut out = Vec::new();
    for m in &msgs {
        m.print(&mut out, colors);
    }
    out
}

const RESET: &str = "\x1b[0m";
const BOLD: &str = "\x1b[1m";
const RED: &str = "\x1b[31m";
const CYAN: &str = "\x1b[36m";

#[test]
fn gcc_link_error_plain_unix() {
    let input = "obj/m.o:(.text+0x4): undefined reference to `foo'\n";
    let out = run3(input.as_bytes(), ToolKind::Linker, ToolFamily::Gnu, false, false);
    let expected = "error .text+0x4:  undefined reference to `foo'\n   --> obj/m.o\n";
    assert_eq!(String::from_utf8_lossy(&out), expected);
}

#[test]
fn gcc_link_error_plain_win32() {
    let input = "main.o:(.text+0x10): undefined reference to `bar'\n";
    let out = run3(input.as_bytes(), ToolKind::Linker, ToolFamily::Gnu, true, false);
    let expected = "error .text+0x10:  undefined reference to `bar'\n   --> main.o\n";
    assert_eq!(String::from_utf8_lossy(&out), expected);
}

#[test]
fn gcc_link_warning_plain_unix() {
    // ld chatter without a `path:(section):` shape prints nothing
    let input = "ld: warning: libm.so, needed by libfoo.so, not found\n";
    let out = run3(input.as_bytes(), ToolKind::Linker, ToolFamily::Gnu, false, false);
    assert_eq!(String::from_utf8_lossy(&out), "");
}

#[test]
fn gcc_link_error_colors_unix() {
    let input = "obj/m.o:(.text+0x4): undefined reference to `x'\n";
    let out = run3(input.as_bytes(), ToolKind::Linker, ToolFamily::Gnu, false, true);
    let expected = format!(
        "{RESET}{BOLD}{RED}error .text+0x4{RESET}{BOLD}: {RESET} undefined reference to `x'\
         {RESET}{BOLD}{CYAN}\n   --> {RESET}obj/m.o{RESET}\n"
    );
    assert_eq!(String::from_utf8_lossy(&out), expected);
}

#[test]
fn gcc_link_warning_colors_unix() {
    let input = "ld: warning: cannot find entry symbol _start\n";
    let out = run3(input.as_bytes(), ToolKind::Linker, ToolFamily::Gnu, false, true);
    assert_eq!(String::from_utf8_lossy(&out), "");
}

#[test]
fn clang_link_warning_plain_unix() {
    // clang's linker chatter is silent too
    let input = "ld: warning: duplicate -rpath ignored\n";
    let out = run3(input.as_bytes(), ToolKind::Linker, ToolFamily::Clang, false, false);
    assert_eq!(String::from_utf8_lossy(&out), "");
}

#[test]
fn clang_link_error_colors_unix() {
    let input = "a.o:(.data+0x8): multiple definition of `n'\n";
    let out = run3(input.as_bytes(), ToolKind::Linker, ToolFamily::Clang, false, true);
    let expected = format!(
        "{RESET}{BOLD}{RED}error .data+0x8{RESET}{BOLD}: {RESET} multiple definition of `n'\
         {RESET}{BOLD}{CYAN}\n   --> {RESET}a.o{RESET}\n"
    );
    assert_eq!(String::from_utf8_lossy(&out), expected);
}

#[test]
fn clang_link_warning_colors_unix() {
    let input = "ld: warning: text relocation in read-only segment\n";
    let out = run3(input.as_bytes(), ToolKind::Linker, ToolFamily::Clang, false, true);
    assert_eq!(String::from_utf8_lossy(&out), "");
}

#[test]
fn msvc_link_error_plain() {
    let input = "main.obj(1): error LNK2019: unresolved external symbol _bar\n\
                 util.obj(2): error LNK2001: unresolved external symbol _baz\n";
    let out = run3(input.as_bytes(), ToolKind::Linker, ToolFamily::Msvc, true, false);
    let expected = "error LNK2019: unresolved external symbol _bar\n   --> main.obj:1\n\
                    error LNK2001: unresolved external symbol _baz\n   --> util.obj:2\n";
    assert_eq!(String::from_utf8_lossy(&out), expected);
}

#[test]
fn msvc_link_warning_error() {
    // the treated-as-error flip applies to linker warnings as well
    let input = "a.obj(1): error C2220: the following warning is treated as an error\n\
                 a.obj(2): warning LNK4217: symbol imported locally\n";
    let out = run3(input.as_bytes(), ToolKind::Linker, ToolFamily::Msvc, true, false);
    let expected = "error C2220: the following warning is treated as an error\n   --> a.obj:1\n\
                    error LNK4217: symbol imported locally\n   --> a.obj:2\n";
    assert_eq!(String::from_utf8_lossy(&out), expected);
}
