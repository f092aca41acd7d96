use ccargo::output::Message;
use ccargo::toolchain::{ToolFamily, ToolKind};

fn run2(input: &[u8], kind: ToolKind, family: ToolFamily, windows: bool, colors: bool) -> Vec<u8> {
    let msgs = Message::parse_all(input, kind, family, windows, colors);
    let mut out = Vec::new();
    for m in &msgs {
        m.print(&mut out, colors);
    }
    out
}

const RESET: &str = "\x1b[0m";
const BOLD: &str = "\x1b[1m";
const RED: &str = "\x1b[31m";
const YELLOW: &str = "\x1b[33m";
const CYAN: &str = "\x1b[36m";

#[test]
fn error_plain_unix() {
    // clang link errors go through the ld rules off Windows
    let input = "obj/a.o:(.data+0x0): multiple definition of `counter'\n";
    let out = run2(input.as_bytes(), ToolKind::Linker, ToolFamily::Clang, false, false);
    let expected = "error .data+0x0:  multiple definition of `counter'\n   --> obj/a.o\n";
    assert_eq!(String::from_utf8_lossy(&out), expected);
}

#[test]
fn error_plain_win32() {
    // clang as linker on Windows follows the MSVC conventions
    let input = "main.obj(1): error LNK2001: unresolved external symbol _foo\n";
    let out = run2(input.as_bytes(), ToolKind::Linker, ToolFamily::Clang, true, false);
    let expected = "error LNK2001: unresolved external symbol _foo\n   --> main.obj:1\n";
    assert_eq!(String::from_utf8_lossy(&out), expected);
}

#[test]
fn warning_plain_unix() {
    // a body line between diagnostics passes through untouched
    let input = "x.c:1:1: warning: something odd\n\
                 note: expanded from here\n";
    let out = run2(input.as_bytes(), ToolKind::Compiler, ToolFamily::Gnu, false, false);
    let expected = "warning: something odd\n   --> x.c:1:1\nnote: expanded from here\n";
    assert_eq!(String::from_utf8_lossy(&out), expected);
}

#[test]
fn warning_plain_win32() {
    let input = "util.c(12): warning C4018: signed/unsigned mismatch\n";
    let out = run2(input.as_bytes(), ToolKind::Compiler, ToolFamily::Msvc, true, false);
    let expected = "warning C4018: signed/unsigned mismatch\n   --> util.c:12\n";
    assert_eq!(String::from_utf8_lossy(&out), expected);
}

#[test]
fn error_colors_unix() {
    // Clang recolours its green source highlight to match an error
    let input = format!(
        "{BOLD}y.c:2:3:{RESET} \x1b[01;31merror: \x1b[0mbroken\n\
         \u{20}\u{20}\u{20}\u{20}foo(\x1b[0;32mbar\x1b[0m);\n"
    );
    let out = run2(input.as_bytes(), ToolKind::Compiler, ToolFamily::Clang, false, true);
    let expected = format!(
        "{RESET}{BOLD}{RED}error{RESET}{BOLD}: {RESET}\x1b[0mbroken\
         {RESET}{BOLD}{CYAN}\n   --> {RESET}y.c:2:3{RESET}\n\
         \u{20}\u{20}\u{20}\u{20}2 |     foo(\x1b[0;31mbar\x1b[0m);{RESET}\n"
    );
    assert_eq!(String::from_utf8_lossy(&out), expected);
}

#[test]
fn warning_colors_unix() {
    // GCC's magenta warnings turn yellow
    let input = format!(
        "{BOLD}z.c:4:5:{RESET} \x1b[01;35mwarning: \x1b[0munused thing\n"
    );
    let out = run2(input.as_bytes(), ToolKind::Compiler, ToolFamily::Gnu, false, true);
    let expected = format!(
        "{RESET}{BOLD}{YELLOW}warning{RESET}{BOLD}: {RESET}\x1b[0munused thing\
         {RESET}{BOLD}{CYAN}\n   --> {RESET}z.c:4:5{RESET}\n"
    );
    assert_eq!(String::from_utf8_lossy(&out), expected);
}

#[test]
fn error() {
    let input = "thing.c(3): error C2065: 'n': undeclared identifier\n";
    let out = run2(input.as_bytes(), ToolKind::Compiler, ToolFamily::Msvc, true, false);
    let expected = "error C2065: 'n': undeclared identifier\n   --> thing.c:3\n";
    assert_eq!(String::from_utf8_lossy(&out), expected);
}

#[test]
fn warning() {
    let input = "lib.c(8,3): warning C4244: conversion may lose data\n";
    let out = run2(input.as_bytes(), ToolKind::Linker, ToolFamily::Msvc, true, false);
    let expected = "warning C4244: conversion may lose data\n   --> lib.c:8:3\n";
    assert_eq!(String::from_utf8_lossy(&out), expected);
}

#[test]
fn warning_error() {
    // without the treated-as-error flip, a warning stays a warning
    let input = "a.c(1): warning C4700: before the flip\n\
                 a.c(2): error C2220: warning treated as an error\n\
                 a.c(3): warning C4701: after the flip\n";
    let out = run2(input.as_bytes(), ToolKind::Compiler, ToolFamily::Msvc, true, false);
    let expected = "warning C4700: before the flip\n   --> a.c:1\n\
                    error C2220: warning treated as an error\n   --> a.c:2\n\
                    error C4701: after the flip\n   --> a.c:3\n";
    assert_eq!(String::from_utf8_lossy(&out), expected);
}
