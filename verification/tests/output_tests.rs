use ccargo::output::Message;
use ccargo::toolchain::{ToolFamily, ToolKind};

fn run(input: &[u8], kind: ToolKind, family: ToolFamily, windows: bool, colors: bool) -> Vec<u8> {
    let msgs = Message::parse_all(input, kind, family, windows, colors);
    let mut out = Vec::new();
    for m in &msgs {
        m.print(&mut out, colors);
    }
    out
}

fn s(x: &str) -> Vec<u8> {
    x.as_bytes().to_vec()
}

// ANSI pieces termcolor emits
const RESET: &str = "\x1b[0m";
const BOLD: &str = "\x1b[1m";
const RED: &str = "\x1b[31m";
const YELLOW: &str = "\x1b[33m";
const CYAN: &str = "\x1b[36m";

#[test]
fn output_error_plain_unix() {
    // gcc compile error with a preceding In-function note
    let input = "src/main.c: In function 'main':\n\
                 src/main.c:5:10: error: expected ';' before 'return'\n";
    let out = run(input.as_bytes(), ToolKind::Compiler, ToolFamily::Gnu, false, false);
    let expected = "error: expected ';' before 'return'\n   \
                    --> src/main.c:5:10 in function `'main'`\n";
    assert_eq!(String::from_utf8_lossy(&out), expected.replace("\n   --> ", "\n   --> "));
    // clang compile error
    let input2 = "main.c:3:7: error: use of undeclared identifier 'y'\n";
    let out2 = run(input2.as_bytes(), ToolKind::Compiler, ToolFamily::Clang, false, false);
    let expected2 = "error: use of undeclared identifier 'y'\n   --> main.c:3:7\n";
    assert_eq!(String::from_utf8_lossy(&out2), expected2);
    // gnu ld link error
    let input3 = "foo.o: In function `main':\n\
                  foo.o:(.text+0x1a): undefined reference to `bar'\n";
    let out3 = run(input3.as_bytes(), ToolKind::Linker, ToolFamily::Gnu, false, false);
    let expected3 = "error .text+0x1a:  undefined reference to `bar'\n   \
                     --> foo.o in function `main`\n";
    assert_eq!(String::from_utf8_lossy(&out3), expected3);
}

#[test]
fn output_error_plain_win32() {
    // gnu ld on windows shortens the ld.exe path prefix
    let input = "C:/mingw/bin/ld.exe: foo.o:(.text+0x1a): undefined reference to `bar'\n";
    let out = run(input.as_bytes(), ToolKind::Linker, ToolFamily::Gnu, true, false);
    let expected = "error .text+0x1a:  undefined reference to `bar'\n   --> ld.exe: foo.o\n";
    assert_eq!(String::from_utf8_lossy(&out), expected);
    // gcc compile on windows parses like unix
    let input2 = "main.c:1:5: error: unknown type name 'foo'\n";
    let out2 = run(input2.as_bytes(), ToolKind::Compiler, ToolFamily::Gnu, true, false);
    let expected2 = "error: unknown type name 'foo'\n   --> main.c:1:5\n";
    assert_eq!(String::from_utf8_lossy(&out2), expected2);
}

#[test]
fn output_warning_plain_unix() {
    let input = "src/a.c:2:9: warning: unused variable 'x' [-Wunused-variable]\n\
                 more context\n";
    let out = run(input.as_bytes(), ToolKind::Compiler, ToolFamily::Gnu, false, false);
    let expected = "warning: unused variable 'x' [-Wunused-variable]\n   \
                    --> src/a.c:2:9\nmore context\n";
    assert_eq!(String::from_utf8_lossy(&out), expected);
    // clang adds a line-number gutter to code excerpts and turns the
    // summary into a status line
    let input2 = "a.c:3:7: warning: unused variable 'x'\n\
                  \u{20}\u{20}\u{20}\u{20}int x;\n\
                  1 warning generated.\n";
    let out2 = run(input2.as_bytes(), ToolKind::Compiler, ToolFamily::Clang, false, false);
    let expected2 = "warning: unused variable 'x'\n   --> a.c:3:7\n\
                     \u{20}\u{20}\u{20}\u{20}3 |     int x;\n\
                     1 warning generated.\n";
    assert_eq!(String::from_utf8_lossy(&out2), expected2);
}

#[test]
fn output_warning_plain_win32() {
    let input = "main.c:7:1: warning: control reaches end of non-void function\n";
    let out = run(input.as_bytes(), ToolKind::Compiler, ToolFamily::Gnu, true, false);
    let expected = "warning: control reaches end of non-void function\n   --> main.c:7:1\n";
    assert_eq!(String::from_utf8_lossy(&out), expected);
}

#[test]
fn output_error_colors_unix() {
    // a coloured gcc error: the path span keeps its colours out of the
    // location, and the printed header uses the standard palette
    let input = format!(
        "{BOLD}src/x.c:1:2:{RESET} \x1b[01;31merror: \x1b[0mbad thing\n"
    );
    let out = run(input.as_bytes(), ToolKind::Compiler, ToolFamily::Gnu, false, true);
    let expected = format!(
        "{RESET}{BOLD}{RED}error{RESET}{BOLD}: {RESET}\x1b[0mbad thing\
         {RESET}{BOLD}{CYAN}\n   --> {RESET}src/x.c:1:2{RESET}\n"
    );
    assert_eq!(String::from_utf8_lossy(&out), expected);
}

#[test]
fn output_warning_colors_unix() {
    // clang warnings arrive magenta; the parser recolours them yellow
    let input = format!(
        "{BOLD}x.c:1:2:{RESET} \x1b[01;35mwarning: \x1b[0modd\n"
    );
    let out = run(input.as_bytes(), ToolKind::Compiler, ToolFamily::Clang, false, true);
    let expected = format!(
        "{RESET}{BOLD}{YELLOW}warning{RESET}{BOLD}: {RESET}\x1b[0modd\
         {RESET}{BOLD}{CYAN}\n   --> {RESET}x.c:1:2{RESET}\n"
    );
    assert_eq!(String::from_utf8_lossy(&out), expected);
}

#[test]
fn output_error() {
    // MSVC compile error, with noise lines dropped
    let input = "main.c\n\
                 Generating Code...\n\
                 main.c(5): error C2143: syntax error: missing ';'\n";
    let out = run(input.as_bytes(), ToolKind::Compiler, ToolFamily::Msvc, true, false);
    let expected = "error C2143: syntax error: missing ';'\n   --> main.c:5\n";
    assert_eq!(String::from_utf8_lossy(&out), expected);
    // MSVC link error
    let input2 = "main.obj(1): error LNK2019: unresolved external symbol _bar\n";
    let out2 = run(input2.as_bytes(), ToolKind::Linker, ToolFamily::Msvc, true, false);
    let expected2 = "error LNK2019: unresolved external symbol _bar\n   --> main.obj:1\n";
    assert_eq!(String::from_utf8_lossy(&out2), expected2);
}

#[test]
fn output_warning() {
    let input = "main.c(9,5): warning C4700: uninitialized local variable 'x' used\n";
    let out = run(input.as_bytes(), ToolKind::Compiler, ToolFamily::Msvc, true, false);
    let expected = "warning C4700: uninitialized local variable 'x' used\n   --> main.c:9:5\n";
    assert_eq!(String::from_utf8_lossy(&out), expected);
}

#[test]
fn output_warning_error() {
    // once a line says warnings are treated as errors, later warnings
    // print as errors
    let input = "main.c(1): error C2220: the following warning is treated as an error\n\
                 main.c(2): warning C4700: uninitialized local variable\n";
    let out = run(input.as_bytes(), ToolKind::Compiler, ToolFamily::Msvc, true, false);
    let expected = "error C2220: the following warning is treated as an error\n   --> main.c:1\n\
                    error C4700: uninitialized local variable\n   --> main.c:2\n";
    assert_eq!(String::from_utf8_lossy(&out), expected);
}

#[test]
fn output_include_notes_are_silent() {
    let input = "Note: including file: C:/inc/stdio.h\n\
                 main.c(5): error C2143: syntax error\n";
    let msgs = Message::parse_all(input.as_bytes(), ToolKind::Compiler, ToolFamily::Msvc, true, false);
    assert_eq!(2, msgs.len());
    match &msgs[0] {
        Message::Extra(ccargo::output::Extra::IncludePath(p)) => {
            assert_eq!(b"C:/inc/stdio.h".to_vec(), p.clone());
        }
        _ => panic!("expected an include note"),
    }
    let mut out = Vec::new();
    msgs[0].print(&mut out, false);
    assert_eq!(0, out.len());
}

#[test]
fn output_replace_and_trim_colors() {
    let mut line = b"pre \x1b[01;35mwarning\x1b[0m post".to_vec();
    ccargo::output::replace_warning_color(&mut line);
    assert_eq!(b"pre \x1b[01;33mwarning\x1b[0m post".to_vec(), line);
    let mut line2 = b";35m;35m".to_vec();
    ccargo::output::replace_color(b'5', b'3', &mut line2);
    assert_eq!(b";33m;33m".to_vec(), line2);
    let trimmed = ccargo::output::trim_colors(b"\x1b[1mpath.c\x1b[0m rest");
    assert_eq!(b"path.c".to_vec(), trimmed);
    let untouched = ccargo::output::trim_colors(b"plain");
    assert_eq!(b"plain".to_vec(), untouched);
}
