//! Stream parser for compiler and linker output.
//!
//! Raw tool output is cut into lines and each line is classified as a
//! diagnostic header, a continuation body line, a terminal status line,
//! or an include-path note, following the conventions of the MSVC, GNU
//! and Clang families.  The parser state carries the pieces that span
//! lines: the current diagnostic kind, a pending `In function` note,
//! the last header's line number and MSVC's warnings-as-errors flip.

use vstd::prelude::*;
use crate::bytes::{
    ends_with_spec, find_byte_first, find_first, is_match_at, rfind_byte_last, rfind_last,
    slice_range, spec_find, spec_find_byte, spec_rfind, spec_rfind_byte, starts_with,
    starts_with_spec, sub_vec, ends_with, spec_decimal, format_decimal,
};
use crate::color::ColorString;
use crate::patterns::{
    spec_pat_generating_code, spec_pat_creating_library, spec_pat_note_including,
    spec_pat_paren_colon, spec_pat_error_word, spec_pat_warning_word, spec_pat_treated_as_error,
    spec_pat_error_colon, spec_pat_warning_colon, spec_pat_generated_dot, spec_pat_four_spaces,
    spec_pat_n_function, spec_pat_ld_exe, spec_pat_colon_paren, spec_pat_arrow,
    spec_pat_in_function, spec_pat_gutter, spec_pat_empty_gutter,
    pat_generating_code, pat_creating_library, pat_note_including, pat_paren_colon,
    pat_error_word, pat_warning_word, pat_treated_as_error, pat_error_colon, pat_warning_colon,
    pat_generated_dot, pat_four_spaces, pat_n_function, pat_ld_exe, pat_colon_paren, pat_arrow,
    pat_in_function, pat_gutter, pat_empty_gutter,
};
use crate::toolchain::{ToolFamily, ToolKind};

verus! {

/// Space.
pub const SPACE: u8 = 32;

/// Colon.
pub const COLON: u8 = 58;

/// Newline.
pub const NL: u8 = 10;

/// Carriage return.
pub const CR: u8 = 13;

/// Opening parenthesis.
pub const LPAR: u8 = 40;

/// Comma.
pub const COMMA: u8 = 44;

/// Backtick.
pub const BACKTICK: u8 = 96;

/// Horizontal tab.
pub const TAB: u8 = 9;

/// ANSI colour digits, without the escape prefix.
pub const RED: u8 = 49;

/// Green colour digit.
pub const GREEN: u8 = 50;

/// Yellow colour digit.
pub const YELLOW: u8 = 51;

/// Magenta colour digit.
pub const MAGENTA: u8 = 53;

/// Is the diagnostic a warning or an error?
#[derive(Debug, Clone, Copy, PartialEq, Eq, Structural)]
pub enum Kind {
    Warning,
    Error,
}

/// Where a diagnostic points.
#[derive(Debug, Clone)]
pub struct Loc {
    pub path: ColorString,
    pub line: Option<ColorString>,
    pub column: Option<ColorString>,
    pub func: Option<ColorString>,
}

/// A parsed diagnostic header.
#[derive(Debug, Clone)]
pub struct Status {
    pub kind: Kind,
    pub loc: Loc,
    pub msg: ColorString,
    pub code: Option<ColorString>,
}

/// Extra information recovered from the stream.
#[derive(Debug, Clone)]
pub enum Extra {
    IncludePath(Vec<u8>),
}

/// One structured message of tool output.
#[derive(Debug, Clone)]
pub enum Message {
    Header(Status),
    Body(ColorString),
    Status(ColorString),
    Extra(Extra),
}

/// Spec-level mirror of `Loc`.
#[verifier::ext_equal]
pub struct LocV {
    pub path: Seq<u8>,
    pub line: Option<Seq<u8>>,
    pub column: Option<Seq<u8>>,
    pub func: Option<Seq<u8>>,
}

/// Spec-level mirror of `Status`.
#[verifier::ext_equal]
pub struct StatusV {
    pub kind: Kind,
    pub loc: LocV,
    pub msg: Seq<u8>,
    pub code: Option<Seq<u8>>,
}

/// Spec-level mirror of `Message`.
#[verifier::ext_equal]
pub enum MessageV {
    Header(StatusV),
    Body(Seq<u8>),
    Status(Seq<u8>),
    Include(Seq<u8>),
}

/// View of an optional coloured string.
pub open spec fn opt_cs(o: Option<ColorString>) -> Option<Seq<u8>> {
    match o {
        Some(c) => Some(c@),
        None => None,
    }
}

impl View for Loc {
    type V = LocV;

    open spec fn view(&self) -> LocV {
        LocV {
            path: self.path@,
            line: opt_cs(self.line),
            column: opt_cs(self.column),
            func: opt_cs(self.func),
        }
    }
}

impl View for Status {
    type V = StatusV;

    open spec fn view(&self) -> StatusV {
        StatusV { kind: self.kind, loc: self.loc@, msg: self.msg@, code: opt_cs(self.code) }
    }
}

impl View for Message {
    type V = MessageV;

    open spec fn view(&self) -> MessageV {
        match self {
            Message::Header(s) => MessageV::Header(s@),
            Message::Body(m) => MessageV::Body(m@),
            Message::Status(m) => MessageV::Status(m@),
            Message::Extra(Extra::IncludePath(p)) => MessageV::Include(p@),
        }
    }
}

/// View of an optional message.
pub open spec fn opt_msg(o: Option<Message>) -> Option<MessageV> {
    match o {
        Some(m) => Some(m@),
        None => None,
    }
}

/// Restartable parser state.
#[derive(Debug, Clone)]
pub struct Parser {
    /// Kind of the last header seen, used to recolour Clang's source
    /// highlight.
    pub kind: Option<Kind>,
    /// A pending `In function '...'` note to attach to the next header.
    pub func: Option<ColorString>,
    /// The last header's line number, used for Clang's code gutter.
    pub last_line: Option<u64>,
    /// MSVC flips warnings to errors once a line says so.
    pub warnings_as_errors: bool,
}

/// Spec-level mirror of `Parser`.
#[verifier::ext_equal]
pub struct ParserV {
    pub kind: Option<Kind>,
    pub func: Option<Seq<u8>>,
    pub last_line: Option<u64>,
    pub warnings_as_errors: bool,
}

impl View for Parser {
    type V = ParserV;

    open spec fn view(&self) -> ParserV {
        ParserV {
            kind: self.kind,
            func: opt_cs(self.func),
            last_line: self.last_line,
            warnings_as_errors: self.warnings_as_errors,
        }
    }
}

impl Parser {
    /// Fresh parser state.
    pub fn new() -> (r: Self)
        ensures
            r@ == (ParserV {
                kind: None::<Kind>,
                func: None::<Seq<u8>>,
                last_line: None::<u64>,
                warnings_as_errors: false,
            }),
    {
        Parser { kind: None, func: None, last_line: None, warnings_as_errors: false }
    }
}

// ---------------------------------------------------------------------
// colour rewriting

/// The pattern `;3<digit>m` that selects an ANSI foreground colour.
pub open spec fn spec_color_pat(color: u8) -> Seq<u8> {
    seq![59, 51, color, 109]
}

/// Replace one ANSI foreground colour with another, everywhere.  The
/// occurrences of `;3<from>m` never overlap, so this is a pointwise
/// rewrite of the colour digit.
pub open spec fn spec_replace_color(s: Seq<u8>, from: u8, to: u8) -> Seq<u8> {
    Seq::new(s.len(), |i: int|
        if is_match_at(s, spec_color_pat(from), i - 2) {
            to
        } else {
            s[i]
        })
}

/// Replaces an ANSI colour in the given buffer.
pub fn replace_color(from: u8, to: u8, haystack: &mut Vec<u8>)
    requires
        from != to,
        from != 109,
        to != 109,
        from != 59,
        to != 59,
    ensures
        final(haystack)@ == spec_replace_color(old(haystack)@, from, to),
{
    let ghost orig = haystack@;
    let ghost pat = spec_color_pat(from);
    let mut pattern: Vec<u8> = Vec::new();
    pattern.push(59);
    pattern.push(51);
    pattern.push(from);
    pattern.push(109);
    proof {
        assert(pattern@ =~= pat);
    }
    let n = haystack.len();
    let mut offset: usize = 0;
    while offset < n
        invariant
            from != to && from != 109 && to != 109 && from != 59 && to != 59,
            pattern@ == pat,
            pat == spec_color_pat(from),
            n == haystack@.len() == orig.len(),
            orig == old(haystack)@,
            0 <= offset <= n,
            // a byte is rewritten exactly when it is the colour digit of
            // a pattern occurrence whose digit lies before `offset`
            forall|i: int| 0 <= i < n ==> #[trigger] haystack@[i]
                == (if is_match_at(orig, pat, i - 2) && i < offset { to } else { orig[i] }),
            // `offset` always sits right after a rewritten digit
            offset == 0 || is_match_at(orig, pat, offset - 3),
        decreases n - offset,
    {
        let tail = slice_range(haystack.as_slice(), offset, n);
        proof {
            // the tail is untouched: rewritten digits lie before `offset`
            assert forall|t: int| 0 <= t < tail@.len()
                implies #[trigger] tail@[t] == orig[offset + t] by {
                assert(tail@[t] == haystack@[offset + t]);
            }
            assert(tail@ =~= orig.subrange(offset as int, n as int));
        }
        let r = find_first(tail, pattern.as_slice());
        let i = match r {
            Some(i) => i,
            None => {
                proof {
                    assert forall|j: int| offset <= j implies !is_match_at(orig, pat, j) by {
                        if is_match_at(orig, pat, j) {
                            assert(j + pat.len() <= n);
                            assert(tail@.subrange(j - offset, j - offset + pat.len())
                                =~= orig.subrange(j, j + pat.len()));
                            assert(is_match_at(tail@, pat, j - offset));
                        }
                    }
                    lemma_replace_color_done(orig, from, to, haystack@, offset as int);
                }
                return;
            }
        };
        // a match in the tail is a match in the original
        proof {
            assert(is_match_at(tail@, pat, i as int));
            assert(orig.subrange(offset + i, offset + i + pat.len())
                =~= tail@.subrange(i as int, i + pat.len()));
            assert(is_match_at(orig, pat, offset + i));
        }
        let pos = offset + i + 2;
        haystack.set(pos, to);
        proof {
            let off = offset as int;
            assert(is_match_at(orig, pat, pos - 2));
            assert forall|i2: int| 0 <= i2 < n implies #[trigger] haystack@[i2]
                == (if is_match_at(orig, pat, i2 - 2) && i2 < pos + 1 { to } else { orig[i2] })
                by {
                if i2 != pos && is_match_at(orig, pat, i2 - 2) && off <= i2 < pos + 1 {
                    // no other pattern occurrence has its digit in this window
                    if off <= i2 - 2 < pos - 2 {
                        // it would have been found earlier in the tail
                        assert(is_match_at(tail@, pat, i2 - 2 - off)) by {
                            assert(tail@.subrange(i2 - 2 - off, i2 - 2 - off + pat.len())
                                =~= orig.subrange(i2 - 2, i2 - 2 + pat.len()));
                        }
                        assert(false);
                    } else if i2 - 2 < off {
                        // overlaps the previously rewritten occurrence
                        assert(off > 0 && is_match_at(orig, pat, off - 3));
                        if i2 - 2 != off - 3 {
                            lemma_color_pat_no_overlap(orig, from, off - 3, i2 - 2);
                        }
                        assert(i2 < off);
                    } else {
                        // overlaps the occurrence just found
                        assert(pos - 2 <= i2 - 2 < pos - 1);
                        lemma_color_pat_no_overlap(orig, from, pos - 2, i2 - 2);
                        assert(false);
                    }
                }
            }
        }
        offset = pos + 1;
    }
    proof {
        assert forall|j: int| offset <= j implies !is_match_at(orig, pat, j) by {
            if is_match_at(orig, pat, j) {
                assert(j + spec_color_pat(from).len() <= n);
            }
        }
        lemma_replace_color_done(orig, from, to, haystack@, offset as int);
    }
}

/// When every pattern occurrence before `offset` is rewritten and none
/// remains at or after `offset - 2`, the rewrite is complete.
proof fn lemma_replace_color_done(
    orig: Seq<u8>,
    from: u8,
    to: u8,
    cur: Seq<u8>,
    offset: int,
)
    requires
        from != to && from != 109 && to != 109 && from != 59 && to != 59,
        cur.len() == orig.len(),
        0 <= offset <= orig.len(),
        forall|i: int| 0 <= i < orig.len() ==> #[trigger] cur[i]
            == (if is_match_at(orig, spec_color_pat(from), i - 2) && i < offset {
                to
            } else {
                orig[i]
            }),
        offset == 0 || is_match_at(orig, spec_color_pat(from), offset - 3),
        forall|j: int| offset <= j ==> !is_match_at(orig, spec_color_pat(from), j),
    ensures
        cur == spec_replace_color(orig, from, to),
{
    let pat = spec_color_pat(from);
    assert forall|i: int| 0 <= i < orig.len()
        implies #[trigger] cur[i] == spec_replace_color(orig, from, to)[i] by {
        if is_match_at(orig, pat, i - 2) && i >= offset {
            // the occurrence would start at or after `offset - 2`; the
            // only candidates overlap the last rewritten one
            assert(i - 2 < offset);
            assert(offset > 0);
            if i - 2 != offset - 3 {
                lemma_color_pat_no_overlap(orig, from, offset - 3, i - 2);
            }
            assert(false);
        }
    }
    assert(cur =~= spec_replace_color(orig, from, to));
}

/// Two occurrences of the colour pattern never overlap.
proof fn lemma_color_pat_no_overlap(s: Seq<u8>, from: u8, a: int, b: int)
    requires
        from != 109,
        from != 59,
        is_match_at(s, spec_color_pat(from), a),
        is_match_at(s, spec_color_pat(from), b),
        a != b,
    ensures
        b <= a - 4 || b >= a + 4,
{
    let pat = spec_color_pat(from);
    assert(forall|t: int| 0 <= t < 4 ==> #[trigger] s[a + t] == pat[t]) by {
        assert(forall|t: int| 0 <= t < 4
            ==> #[trigger] s.subrange(a, a + 4)[t] == s[a + t]);
    }
    assert(forall|t: int| 0 <= t < 4 ==> #[trigger] s[b + t] == pat[t]) by {
        assert(forall|t: int| 0 <= t < 4
            ==> #[trigger] s.subrange(b, b + 4)[t] == s[b + t]);
    }
    if a < b < a + 4 {
        if b == a + 1 {
            assert(s[b] == 59 && s[b] == 51);
        } else if b == a + 2 {
            assert(s[b] == 59 && s[b] == from);
        } else {
            assert(s[b] == 59 && s[b] == 109);
        }
    } else if b < a < b + 4 {
        if a == b + 1 {
            assert(s[a] == 59 && s[a] == 51);
        } else if a == b + 2 {
            assert(s[a] == 59 && s[a] == from);
        } else {
            assert(s[a] == 59 && s[a] == 109);
        }
    }
}

/// Warnings in Clang and GCC come out magenta; make them yellow like
/// everything else.
pub fn replace_warning_color(haystack: &mut Vec<u8>)
    ensures
        final(haystack)@ == spec_replace_color(old(haystack)@, MAGENTA, YELLOW),
{
    replace_color(MAGENTA, YELLOW, haystack);
}

/// `ESC[K` and `ESC[1m`, the colour prefixes GCC puts before a path.
pub open spec fn spec_trim_part1() -> Seq<u8> {
    seq![27, 91, 75]
}

/// Second colour prefix form.
pub open spec fn spec_trim_part2() -> Seq<u8> {
    seq![27, 91, 49, 109]
}

/// What `trim_colors` yields: the span after the first known colour
/// prefix, cut at the next escape byte.
pub open spec fn spec_trim_colors(s: Seq<u8>) -> Seq<u8> {
    let p1 = spec_find(s, spec_trim_part1());
    let p2 = spec_find(s, spec_trim_part2());
    let hit = if p1 is Some {
        Some((p1.unwrap(), spec_trim_part1().len() as int))
    } else if p2 is Some {
        Some((p2.unwrap(), spec_trim_part2().len() as int))
    } else {
        None
    };
    match hit {
        Some((begin0, plen)) => {
            let begin = begin0 + plen;
            match spec_find_byte(s.skip(begin), 27) {
                Some(end) => s.subrange(begin, begin + end),
                None => s.skip(begin),
            }
        }
        None => s,
    }
}

/// Trim colour escapes from the start and end of a section.
#[verifier::spinoff_prover]
#[verifier::rlimit(100)]
pub fn trim_colors(s: &[u8]) -> (r: Vec<u8>)
    ensures
        r@ == spec_trim_colors(s@),
{
    let sl = s.len();
    let mut part1: Vec<u8> = Vec::new();
    part1.push(27);
    part1.push(91);
    part1.push(75);
    let mut part2: Vec<u8> = Vec::new();
    part2.push(27);
    part2.push(91);
    part2.push(49);
    part2.push(109);
    proof {
        assert(part1@ =~= spec_trim_part1());
        assert(part2@ =~= spec_trim_part2());
    }
    let r1 = find_first(s, part1.as_slice());
    let (begin0, plen) = match r1 {
        Some(i) => (i, part1.len()),
        None => {
            match find_first(s, part2.as_slice()) {
                Some(i) => (i, part2.len()),
                None => {
                    return sub_vec(s, 0, s.len());
                }
            }
        }
    };
    let begin = begin0 + plen;
    let tail = slice_range(s, begin, sl);
    proof {
        assert(tail@ == s@.skip(begin as int));
    }
    match find_byte_first(tail, 27) {
        Some(end) => sub_vec(s, begin, begin + end),
        None => sub_vec(s, begin, sl),
    }
}


// ---------------------------------------------------------------------
// small text helpers

/// ASCII whitespace, as trimmed from include-path notes.
pub open spec fn spec_is_ws(b: u8) -> bool {
    b == SPACE || b == TAB || b == CR || b == NL
}

/// Drop leading ASCII whitespace.
pub open spec fn spec_trim_start(s: Seq<u8>) -> Seq<u8>
    decreases s.len(),
{
    if s.len() > 0 && spec_is_ws(s[0]) {
        spec_trim_start(s.skip(1))
    } else {
        s
    }
}

/// Drop trailing ASCII whitespace.
pub open spec fn spec_trim_end(s: Seq<u8>) -> Seq<u8>
    decreases s.len(),
{
    if s.len() > 0 && spec_is_ws(s.last()) {
        spec_trim_end(s.drop_last())
    } else {
        s
    }
}

/// Drop ASCII whitespace from both ends.
pub open spec fn spec_trim(s: Seq<u8>) -> Seq<u8> {
    spec_trim_end(spec_trim_start(s))
}

proof fn lemma_trim_start_at(s: Seq<u8>, k: int)
    requires
        0 <= k <= s.len(),
        forall|j: int| 0 <= j < k ==> spec_is_ws(#[trigger] s[j]),
        k == s.len() || !spec_is_ws(s[k]),
    ensures
        spec_trim_start(s) == s.skip(k),
    decreases k,
{
    if k == 0 {
        assert(s.skip(0) =~= s);
    } else {
        assert(spec_is_ws(s[0]));
        assert(s.len() > 0);
        let t = s.skip(1);
        assert(forall|j: int| 0 <= j < k - 1 ==> #[trigger] t[j] == s[j + 1]);
        lemma_trim_start_at(t, k - 1);
        assert(t.skip(k - 1) =~= s.skip(k));
    }
}

proof fn lemma_trim_end_at(s: Seq<u8>, k: int)
    requires
        0 <= k <= s.len(),
        forall|j: int| k <= j < s.len() ==> spec_is_ws(#[trigger] s[j]),
        k == 0 || !spec_is_ws(s[k - 1]),
    ensures
        spec_trim_end(s) == s.take(k),
    decreases s.len() - k,
{
    if k == s.len() {
        assert(s.take(k) =~= s);
    } else {
        assert(spec_is_ws(s.last()));
        let t = s.drop_last();
        assert(forall|j: int| 0 <= j < t.len() ==> #[trigger] t[j] == s[j]);
        lemma_trim_end_at(t, k);
        assert(t.take(k) =~= s.take(k));
    }
}

/// Trim ASCII whitespace from both ends.
pub fn trim_ascii(s: &[u8]) -> (r: Vec<u8>)
    ensures
        r@ == spec_trim(s@),
{
    let n = s.len();
    let mut a: usize = 0;
    while a < n && (s[a] == SPACE || s[a] == TAB || s[a] == CR || s[a] == NL)
        invariant
            0 <= a <= n,
            n == s@.len(),
            forall|j: int| 0 <= j < a ==> spec_is_ws(#[trigger] s@[j]),
        decreases n - a,
    {
        a = a + 1;
    }
    proof {
        lemma_trim_start_at(s@, a as int);
    }
    let mut b: usize = n;
    while b > a && (s[b - 1] == SPACE || s[b - 1] == TAB || s[b - 1] == CR || s[b - 1] == NL)
        invariant
            a <= b <= n,
            n == s@.len(),
            forall|j: int| b <= j < n ==> spec_is_ws(#[trigger] s@[j]),
        decreases b,
    {
        b = b - 1;
    }
    proof {
        let t = s@.skip(a as int);
        assert(forall|j: int| 0 <= j < t.len() ==> #[trigger] t[j] == s@[a + j]);
        lemma_trim_end_at(t, b - a);
        assert(t.take(b - a) =~= s@.subrange(a as int, b as int));
    }
    sub_vec(s, a, b)
}

/// The last space-separated token of `s` (empty when `s` ends with a
/// space).
pub open spec fn spec_last_token(s: Seq<u8>) -> Seq<u8> {
    match spec_rfind_byte(s, SPACE) {
        Some(i) => s.skip(i + 1),
        None => s,
    }
}

/// The last space-separated token.
pub fn last_token(s: &[u8]) -> (r: Vec<u8>)
    ensures
        r@ == spec_last_token(s@),
{
    let n = s.len();
    match rfind_byte_last(s, SPACE) {
        Some(i) => sub_vec(s, i + 1, n),
        None => sub_vec(s, 0, n),
    }
}

/// Numeric value of a digit string, most significant digit first.
pub open spec fn spec_dec_value(s: Seq<u8>) -> nat
    decreases s.len(),
{
    if s.len() == 0 {
        0
    } else {
        spec_dec_value(s.drop_last()) * 10 + (s.last() - 48) as nat
    }
}

/// All bytes are decimal digits.
pub open spec fn spec_all_digits(s: Seq<u8>) -> bool {
    forall|j: int| 0 <= j < s.len() ==> 48 <= #[trigger] s[j] <= 57
}

/// Parse a decimal number, as the code-gutter logic does: nonempty, all
/// digits, at most nineteen of them.
pub open spec fn spec_parse_decimal(s: Seq<u8>) -> Option<u64> {
    if s.len() == 0 || s.len() > 19 || !spec_all_digits(s) {
        None
    } else {
        Some(spec_dec_value(s) as u64)
    }
}

/// Powers of ten.
pub open spec fn spec_pow10(k: nat) -> nat
    decreases k,
{
    if k == 0 {
        1
    } else {
        10 * spec_pow10((k - 1) as nat)
    }
}

proof fn lemma_pow10_mono(a: nat, b: nat)
    requires
        a <= b,
    ensures
        spec_pow10(a) <= spec_pow10(b),
        spec_pow10(a) >= 1,
    decreases b,
{
    if b > 0 {
        if a == b {
            lemma_pow10_mono((a - 1) as nat, (b - 1) as nat);
            assert(spec_pow10(b) == 10 * spec_pow10((b - 1) as nat));
        } else {
            lemma_pow10_mono(a, (b - 1) as nat);
            assert(spec_pow10(b) == 10 * spec_pow10((b - 1) as nat));
        }
    }
}

proof fn lemma_dec_value_bound(s: Seq<u8>)
    requires
        spec_all_digits(s),
    ensures
        spec_dec_value(s) < spec_pow10(s.len()),
    decreases s.len(),
{
    if s.len() == 0 {
    } else {
        assert(forall|j: int| 0 <= j < s.len() - 1 ==> s.drop_last()[j] == s[j]);
        lemma_dec_value_bound(s.drop_last());
        let prev = spec_dec_value(s.drop_last());
        let p1 = spec_pow10((s.len() - 1) as nat);
        lemma_pow10_mono(0, (s.len() - 1) as nat);
        assert(48 <= s[s.len() - 1] <= 57);
        assert(prev * 10 + 9 < 10 * p1) by (nonlinear_arith)
            requires
                prev < p1,
                p1 >= 1,
        ;
        assert(spec_dec_value(s) == prev * 10 + (s.last() - 48) as nat);
    }
}

proof fn lemma_pow10_19()
    ensures
        spec_pow10(19) == 10000000000000000000,
{
    reveal_with_fuel(spec_pow10, 21);
}

/// Parse a decimal line number.
pub fn parse_decimal(s: &[u8]) -> (r: Option<u64>)
    ensures
        r == spec_parse_decimal(s@),
{
    let n = s.len();
    if n == 0 || n > 19 {
        return None;
    }
    let mut v: u64 = 0;
    let mut i: usize = 0;
    proof {
        assert(s@.take(0) =~= Seq::<u8>::empty());
    }
    while i < n
        invariant
            0 <= i <= n,
            n == s@.len(),
            n <= 19,
            spec_all_digits(s@.take(i as int)),
            v == spec_dec_value(s@.take(i as int)),
        decreases n - i,
    {
        let b = s[i];
        if b < 48 || b > 57 {
            proof {
                assert(!spec_all_digits(s@));
            }
            return None;
        }
        proof {
            lemma_dec_value_bound(s@.take(i as int));
            lemma_pow10_mono(i as nat, 18);
            lemma_pow10_19();
            assert(spec_pow10(19) == 10 * spec_pow10(18));
            assert(v < spec_pow10(18));
            assert(v * 10 + 9 < 10 * spec_pow10(18)) by (nonlinear_arith)
                requires
                    v < spec_pow10(18),
                    spec_pow10(18) >= 1,
            ;
            assert(s@.take(i + 1).drop_last() =~= s@.take(i as int));
            assert(s@.take(i + 1).last() == s@[i as int]);
            assert forall|j: int| 0 <= j < i + 1
                implies 48 <= #[trigger] s@.take(i + 1)[j] <= 57 by {
                if j < i {
                    assert(s@.take(i as int)[j] == s@.take(i + 1)[j]);
                }
            }
        }
        v = v * 10 + ((b - 48) as u64);
        i = i + 1;
    }
    proof {
        assert(s@.take(n as int) =~= s@);
        lemma_dec_value_bound(s@);
        lemma_pow10_mono(n as nat, 19);
        lemma_pow10_19();
    }
    Some(v)
}

/// `k` spaces.
pub open spec fn spec_spaces(k: int) -> Seq<u8> {
    Seq::new(if k > 0 { k as nat } else { 0 }, |i: int| SPACE)
}

/// A line number right-justified to five columns, with the ` | ` gutter,
/// as in GCC's source excerpts.
pub open spec fn spec_gutter_prefix(last_line: Option<u64>) -> Seq<u8> {
    match last_line {
        Some(n) => {
            let d = spec_decimal(n as nat);
            spec_spaces(5 - d.len()) + d + spec_pat_gutter()
        }
        None => spec_pat_empty_gutter(),
    }
}

/// Build the gutter prefix.
pub fn gutter_prefix(last_line: Option<u64>) -> (r: Vec<u8>)
    ensures
        r@ == spec_gutter_prefix(last_line),
{
    match last_line {
        Some(n) => {
            let d = format_decimal(n);
            let mut out: Vec<u8> = Vec::new();
            let mut k: usize = 0;
            let pad = if d.len() < 5 { 5 - d.len() } else { 0 };
            while k < pad
                invariant
                    0 <= k <= pad,
                    out@ =~= spec_spaces(k as int),
                decreases pad - k,
            {
                out.push(SPACE);
                proof {
                    assert(out@ =~= spec_spaces(k + 1));
                }
                k = k + 1;
            }
            proof {
                assert(out@ =~= spec_spaces(5 - d@.len()));
            }
            crate::bytes::push_all(&mut out, d.as_slice());
            let g = pat_gutter();
            crate::bytes::push_all(&mut out, g.as_slice());
            out
        }
        None => pat_empty_gutter(),
    }
}


// ---------------------------------------------------------------------
// location parsing

/// MSVC's `origin(line,col)` location syntax.  The origin may carry a
/// `(line)`, `(line,col)` or longer suffix; the pieces between the last
/// parenthesis, the last comma and the closing parenthesis are taken as
/// written, and malformed suffixes keep only the path.
pub open spec fn spec_loc_msvc(loc: Seq<u8>) -> LocV {
    match spec_rfind_byte(loc, LPAR) {
        Some(lp) => {
            let ln_begin = lp + 1;
            let loc_end = loc.len() - 1;
            let com = spec_rfind_byte(loc, COMMA);
            if com is Some && ln_begin <= com.unwrap() && com.unwrap() + 1 <= loc_end {
                LocV {
                    path: loc.take(lp),
                    line: Some(loc.subrange(ln_begin, com.unwrap())),
                    column: Some(loc.subrange(com.unwrap() + 1, loc_end)),
                    func: None,
                }
            } else {
                LocV {
                    path: loc.take(lp),
                    line: Some(
                        if ln_begin <= loc_end {
                            loc.subrange(ln_begin, loc_end)
                        } else {
                            Seq::<u8>::empty()
                        },
                    ),
                    column: None,
                    func: None,
                }
            }
        }
        None => LocV { path: loc, line: None, column: None, func: None },
    }
}

/// Parse an MSVC location.
pub fn loc_msvc(loc: &[u8]) -> (r: Loc)
    ensures
        r@ =~= spec_loc_msvc(loc@),
{
    let n = loc.len();
    match rfind_byte_last(loc, LPAR) {
        Some(lp) => {
            let ln_begin = lp + 1;
            let loc_end = n - 1;
            let path = ColorString::from_vec(sub_vec(loc, 0, lp));
            match rfind_byte_last(loc, COMMA) {
                Some(c) if ln_begin <= c && c + 1 <= loc_end => {
                    Loc {
                        path,
                        line: Some(ColorString::from_vec(sub_vec(loc, ln_begin, c))),
                        column: Some(ColorString::from_vec(sub_vec(loc, c + 1, loc_end))),
                        func: None,
                    }
                }
                _ => {
                    let line = if ln_begin <= loc_end {
                        sub_vec(loc, ln_begin, loc_end)
                    } else {
                        Vec::new()
                    };
                    proof {
                        if !(ln_begin <= loc_end) {
                            assert(line@ =~= Seq::<u8>::empty());
                        }
                    }
                    Loc {
                        path,
                        line: Some(ColorString::from_vec(line)),
                        column: None,
                        func: None,
                    }
                }
            }
        }
        None => {
            Loc {
                path: ColorString::from_vec(sub_vec(loc, 0, n)),
                line: None,
                column: None,
                func: None,
            }
        }
    }
}

/// GCC and Clang's `path:line:column` location syntax, with colour
/// escapes stripped from the path span first.
pub open spec fn spec_loc_gcc_clang(loc0: Seq<u8>) -> LocV {
    let loc = spec_trim_colors(loc0);
    match spec_rfind_byte(loc, COLON) {
        None => LocV { path: loc, line: None, column: None, func: None },
        Some(cb) => {
            match spec_rfind_byte(loc.take(cb), COLON) {
                None => LocV {
                    path: loc.take(cb),
                    line: Some(loc.skip(cb + 1)),
                    column: None,
                    func: None,
                },
                Some(lb) => LocV {
                    path: loc.take(lb),
                    line: Some(loc.subrange(lb + 1, cb)),
                    column: Some(loc.skip(cb + 1)),
                    func: None,
                },
            }
        }
    }
}

/// Parse a GCC/Clang location.
pub fn loc_gcc_clang(loc0: &[u8]) -> (r: Loc)
    ensures
        r@ =~= spec_loc_gcc_clang(loc0@),
{
    let loc = trim_colors(loc0);
    let n = loc.len();
    match rfind_byte_last(loc.as_slice(), COLON) {
        None => {
            Loc {
                path: ColorString::from_vec(loc),
                line: None,
                column: None,
                func: None,
            }
        }
        Some(cb) => {
            let head = sub_vec(loc.as_slice(), 0, cb);
            let tail = sub_vec(loc.as_slice(), cb + 1, n);
            match rfind_byte_last(head.as_slice(), COLON) {
                None => {
                    proof {
                        assert(head@ == loc@.take(cb as int));
                    }
                    Loc {
                        path: ColorString::from_vec(head),
                        line: Some(ColorString::from_vec(tail)),
                        column: None,
                        func: None,
                    }
                }
                Some(lb) => {
                    proof {
                        assert(head@ == loc@.take(cb as int));
                        assert(head@.subrange(lb + 1, cb as int)
                            =~= loc@.subrange(lb + 1, cb as int));
                        assert(head@.take(lb as int) =~= loc@.take(lb as int));
                    }
                    Loc {
                        path: ColorString::from_vec(sub_vec(head.as_slice(), 0, lb)),
                        line: Some(ColorString::from_vec(sub_vec(head.as_slice(), lb + 1, cb))),
                        column: Some(ColorString::from_vec(tail)),
                        func: None,
                    }
                }
            }
        }
    }
}

/// An `In function ...:`-style note: the span after `n function `, with
/// the final byte dropped and colours trimmed.
pub open spec fn spec_func_name(line: Seq<u8>) -> Option<Seq<u8>> {
    match spec_find(line, spec_pat_n_function()) {
        None => None,
        Some(i) => {
            let begin = i + spec_pat_n_function().len();
            let end = line.len() - 1;
            if begin <= end {
                Some(spec_trim_colors(line.subrange(begin, end)))
            } else {
                Some(spec_trim_colors(Seq::<u8>::empty()))
            }
        }
    }
}

/// Recognize an `In function ...` note.
pub fn func_name(line: &[u8]) -> (r: Option<Vec<u8>>)
    ensures
        match r {
            Some(v) => spec_func_name(line@) == Some(v@),
            None => spec_func_name(line@) is None,
        },
{
    let n = line.len();
    let patv = pat_n_function();
    match find_first(line, patv.as_slice()) {
        None => None,
        Some(i) => {
            let begin = i + 11;
            if begin <= n - 1 {
                let mid = sub_vec(line, begin, n - 1);
                Some(trim_colors(mid.as_slice()))
            } else {
                proof {
                    assert(spec_trim_colors(Seq::<u8>::empty()) =~= Seq::<u8>::empty());
                }
                Some(Vec::new())
            }
        }
    }
}


// ---------------------------------------------------------------------
// MSVC lines

/// The line is one of MSVC's noise lines: code-generation banners,
/// library banners, or a bare file-name echo without any space.
pub open spec fn spec_msvc_noise(l: Seq<u8>) -> bool {
    ||| starts_with_spec(l, spec_pat_generating_code())
    ||| starts_with_spec(l, spec_pat_creating_library())
    ||| spec_find_byte(l, SPACE) is None
}

/// One MSVC line: noise is dropped, `-showIncludes` notes become
/// include paths, `origin : category code : text` lines become headers
/// whose kind follows the category (with warnings flipped to errors
/// once a line ends with `treated as an error`), and anything else in
/// that shape is a body line.
#[verifier::opaque]
pub open spec fn spec_msvc(p: ParserV, l: Seq<u8>) -> (ParserV, Option<MessageV>) {
    if spec_msvc_noise(l) {
        (p, None)
    } else if starts_with_spec(l, spec_pat_note_including()) {
        (p, Some(MessageV::Include(spec_trim(l.skip(spec_pat_note_including().len() as int)))))
    } else {
        match spec_find(l, spec_pat_paren_colon()) {
            None => (p, None),
            Some(f) => {
                let col0 = f + 1;
                match spec_find(l.skip(col0 + 1), seq![COLON]) {
                    None => (p, None),
                    Some(j) => {
                        let col1 = 1 + col0 + j;
                        let loc = l.take(col0);
                        let status = if col0 + 2 <= col1 {
                            l.subrange(col0 + 2, col1)
                        } else {
                            Seq::<u8>::empty()
                        };
                        let body = if col1 + 2 <= l.len() {
                            l.skip(col1 + 2)
                        } else {
                            Seq::<u8>::empty()
                        };
                        let code = Some(spec_last_token(status));
                        if spec_rfind(status, spec_pat_error_word()) is Some {
                            let p2 = ParserV {
                                warnings_as_errors: p.warnings_as_errors
                                    || ends_with_spec(l, spec_pat_treated_as_error()),
                                ..p
                            };
                            (p2, Some(MessageV::Header(StatusV {
                                kind: Kind::Error,
                                msg: body,
                                code,
                                loc: spec_loc_msvc(loc),
                            })))
                        } else if spec_rfind(status, spec_pat_warning_word()) is Some {
                            let kind = if p.warnings_as_errors {
                                Kind::Error
                            } else {
                                Kind::Warning
                            };
                            (p, Some(MessageV::Header(StatusV {
                                kind,
                                msg: body,
                                code,
                                loc: spec_loc_msvc(loc),
                            })))
                        } else {
                            (p, Some(MessageV::Body(l)))
                        }
                    }
                }
            }
        }
    }
}

impl Parser {
    /// Parse one line of MSVC tool output.
    #[verifier::spinoff_prover]
    #[verifier::rlimit(100)]
    pub fn msvc(&mut self, line: &[u8]) -> (r: Option<Message>)
        ensures
            final(self)@ == spec_msvc(old(self)@, line@).0,
            opt_msg(r) == spec_msvc(old(self)@, line@).1,
    {
        proof {
            reveal(spec_msvc);
        }
        let n = line.len();
        let gen = pat_generating_code();
        let cre = pat_creating_library();
        if starts_with(line, gen.as_slice()) || starts_with(line, cre.as_slice()) {
            return None;
        }
        if find_byte_first(line, SPACE).is_none() {
            return None;
        }
        let note = pat_note_including();
        if starts_with(line, note.as_slice()) {
            let rest = slice_range(line, note.len(), n);
            proof {
                assert(rest@ == line@.skip(spec_pat_note_including().len() as int));
            }
            return Some(Message::Extra(Extra::IncludePath(trim_ascii(rest))));
        }
        let pc = pat_paren_colon();
        let f = match find_first(line, pc.as_slice()) {
            Some(f) => f,
            None => {
                return None;
            }
        };
        let col0 = f + 1;
        let after = slice_range(line, col0 + 1, n);
        proof {
            assert(after@ == line@.skip(col0 + 1));
        }
        let j = match find_byte_first(after, COLON) {
            Some(j) => j,
            None => {
                return None;
            }
        };
        let col1 = 1 + col0 + j;
        let loc = sub_vec(line, 0, col0);
        proof {
            assert(loc@ == line@.take(col0 as int));
        }
        let status = if col1 - col0 >= 2 {
            sub_vec(line, col0 + 2, col1)
        } else {
            Vec::new()
        };
        proof {
            if !(col0 + 2 <= col1) {
                assert(status@ =~= Seq::<u8>::empty());
            }
        }
        let body = if n - col1 >= 2 {
            sub_vec(line, col1 + 2, n)
        } else {
            Vec::new()
        };
        proof {
            if !(col1 + 2 <= n) {
                assert(body@ =~= Seq::<u8>::empty());
            }
        }
        let code = Some(ColorString::from_vec(last_token(status.as_slice())));
        let errw = pat_error_word();
        let warnw = pat_warning_word();
        if rfind_last(status.as_slice(), errw.as_slice()).is_some() {
            let treated = pat_treated_as_error();
            if ends_with(line, treated.as_slice()) {
                self.warnings_as_errors = true;
            }
            Some(Message::Header(Status {
                kind: Kind::Error,
                msg: ColorString::from_vec(body),
                code,
                loc: loc_msvc(loc.as_slice()),
            }))
        } else if rfind_last(status.as_slice(), warnw.as_slice()).is_some() {
            let kind = if self.warnings_as_errors {
                Kind::Error
            } else {
                Kind::Warning
            };
            Some(Message::Header(Status {
                kind,
                msg: ColorString::from_vec(body),
                code,
                loc: loc_msvc(loc.as_slice()),
            }))
        } else {
            Some(Message::Body(ColorString::from_slice(line)))
        }
    }
}

// ---------------------------------------------------------------------
// GCC and Clang lines

/// The shared GCC/Clang classification of one line: a header when the
/// line carries `error:` or `warning:`, a body line otherwise.  A
/// header records its kind in the state and picks up a pending
/// `In function` note.
#[verifier::opaque]
pub open spec fn spec_gcc_clang_core(p: ParserV, l: Seq<u8>) -> (ParserV, MessageV) {
    let hit = if spec_find(l, spec_pat_error_colon()) is Some {
        Some((Kind::Error, spec_find(l, spec_pat_error_colon()).unwrap(),
            spec_find(l, spec_pat_error_colon()).unwrap() + 7))
    } else if spec_find(l, spec_pat_warning_colon()) is Some {
        Some((Kind::Warning, spec_find(l, spec_pat_warning_colon()).unwrap(),
            spec_find(l, spec_pat_warning_colon()).unwrap() + 9))
    } else {
        None
    };
    match hit {
        None => (p, MessageV::Body(l)),
        Some((k, start, end0)) => {
            let end = if end0 <= l.len() { end0 } else { l.len() as int };
            let msg = l.skip(end);
            let loc_end = match spec_rfind_byte(l.take(start), COLON) {
                Some(x) => x,
                None => 0,
            };
            let loc = spec_loc_gcc_clang(l.take(loc_end));
            let p2 = ParserV { kind: Some(k), ..p };
            (p2, MessageV::Header(StatusV {
                kind: k,
                msg,
                code: None,
                loc: LocV { func: p.func, ..loc },
            }))
        }
    }
}

impl Parser {
    /// Classify one GCC/Clang line, header or body.
    fn gcc_clang(&mut self, line: &[u8]) -> (r: Message)
        ensures
            final(self)@ == spec_gcc_clang_core(old(self)@, line@).0,
            r@ == spec_gcc_clang_core(old(self)@, line@).1,
    {
        proof {
            reveal(spec_gcc_clang_core);
        }
        let n = line.len();
        let errp = pat_error_colon();
        let warnp = pat_warning_colon();
        let hit = match find_first(line, errp.as_slice()) {
            Some(i) => Some((Kind::Error, i, 7usize)),
            None => {
                match find_first(line, warnp.as_slice()) {
                    Some(i) => Some((Kind::Warning, i, 9usize)),
                    None => None,
                }
            }
        };
        match hit {
            None => Message::Body(ColorString::from_slice(line)),
            Some((k, start, width)) => {
                let end = if n - start >= width { start + width } else { n };
                proof {
                    let end0 = start + width;
                    assert(end == if end0 <= line@.len() { end0 } else { line@.len() as int });
                }
                let msg = sub_vec(line, end, n);
                proof {
                    assert(msg@ == line@.skip(end as int));
                }
                let head = sub_vec(line, 0, start);
                proof {
                    assert(head@ == line@.take(start as int));
                }
                let loc_end = match rfind_byte_last(head.as_slice(), COLON) {
                    Some(x) => x,
                    None => 0,
                };
                let locb = sub_vec(line, 0, loc_end);
                proof {
                    assert(locb@ == line@.take(loc_end as int));
                }
                let mut loc = loc_gcc_clang(locb.as_slice());
                loc.func = match &self.func {
                    Some(c) => Some(ColorString::from_slice(c.as_bytes())),
                    None => None,
                };
                self.kind = Some(k);
                Message::Header(Status {
                    kind: k,
                    msg: ColorString::from_vec(msg),
                    code: None,
                    loc,
                })
            }
        }
    }
}


/// One GCC compile line: with colours on, magenta warnings are turned
/// yellow first; `In function` notes are held back for the next
/// header; everything else classifies as under `spec_gcc_clang_core`.
#[verifier::opaque]
pub open spec fn spec_gcc(p: ParserV, l0: Seq<u8>, colors: bool) -> (ParserV, Option<MessageV>) {
    let l = if colors {
        spec_replace_color(l0, MAGENTA, YELLOW)
    } else {
        l0
    };
    match spec_func_name(l) {
        Some(f) => (ParserV { func: Some(f), ..p }, None),
        None => {
            let pm = spec_gcc_clang_core(p, l);
            (pm.0, Some(pm.1))
        }
    }
}

/// One Clang compile line: like GCC, but the green source highlight is
/// recoloured to match the current diagnostic kind, `N errors ...
/// generated.` becomes a status line, and code excerpts get a
/// GCC-style line-number gutter.
pub open spec fn spec_clang_line(p: ParserV, l0: Seq<u8>, colors: bool) -> Seq<u8> {
    let l1 = if colors {
        spec_replace_color(l0, MAGENTA, YELLOW)
    } else {
        l0
    };
    if colors && p.kind is Some {
        spec_replace_color(l1, GREEN, if p.kind == Some(Kind::Error) { RED } else { YELLOW })
    } else {
        l1
    }
}

/// Clang's post-classification step: status lines, code gutters and
/// the recorded header line number.
pub open spec fn spec_clang_post(pm: (ParserV, MessageV)) -> (ParserV, Option<MessageV>) {
    let p2 = pm.0;
    match pm.1 {
        MessageV::Body(b) => {
            if ends_with_spec(b, spec_pat_generated_dot()) {
                (p2, Some(MessageV::Status(b)))
            } else if spec_find(b, spec_pat_four_spaces()) is Some {
                let prefix = spec_gutter_prefix(p2.last_line);
                (ParserV { last_line: None, ..p2 }, Some(MessageV::Body(prefix + b)))
            } else {
                (p2, Some(MessageV::Body(b)))
            }
        }
        MessageV::Header(st) => {
            let ll = match st.loc.line {
                Some(ls) => spec_parse_decimal(ls),
                None => None,
            };
            (ParserV { last_line: ll, ..p2 }, Some(MessageV::Header(st)))
        }
        m => (p2, Some(m)),
    }
}

/// The whole Clang step: recolour, classify, post-process.
#[verifier::opaque]
pub open spec fn spec_clang(p: ParserV, l0: Seq<u8>, colors: bool) -> (ParserV, Option<MessageV>) {
    spec_clang_post(spec_gcc_clang_core(p, spec_clang_line(p, l0, colors)))
}

/// One GNU `ld` line: `In function` notes lose their quotes and wait
/// for the next header; on Windows the long `ld.exe` path prefix is
/// cut; `path:(section): message` becomes an error header.
#[verifier::opaque]
pub open spec fn spec_ld(p: ParserV, l0: Seq<u8>, windows: bool) -> (ParserV, Option<MessageV>) {
    match spec_func_name(l0) {
        Some(f) => {
            let inner = if f.len() >= 2 {
                f.subrange(1, f.len() - 1)
            } else {
                Seq::<u8>::empty()
            };
            (ParserV { func: Some(inner), ..p }, None)
        }
        None => {
            let l = if windows && spec_find(l0, spec_pat_ld_exe()) is Some {
                l0.skip(spec_find(l0, spec_pat_ld_exe()).unwrap() + 1)
            } else {
                l0
            };
            match spec_find(l, spec_pat_colon_paren()) {
                None => (p, None),
                Some(pe) => {
                    match spec_find(l.skip(pe + 2), spec_pat_paren_colon()) {
                        None => (p, None),
                        Some(j) => {
                            let se = 2 + pe + j;
                            (p, Some(MessageV::Header(StatusV {
                                kind: Kind::Error,
                                code: Some(l.subrange(pe + 2, se)),
                                msg: l.skip(se + 2),
                                loc: LocV {
                                    path: l.take(pe),
                                    line: None,
                                    column: None,
                                    func: p.func,
                                },
                            })))
                        }
                    }
                }
            }
        }
    }
}

impl Parser {
    /// Parse one line of GCC compiler output.
    pub fn gcc(&mut self, line: &mut Vec<u8>, colors: bool) -> (r: Option<Message>)
        ensures
            final(self)@ == spec_gcc(old(self)@, old(line)@, colors).0,
            opt_msg(r) == spec_gcc(old(self)@, old(line)@, colors).1,
    {
        proof {
            reveal(spec_gcc);
        }
        if colors {
            replace_warning_color(line);
        }
        match func_name(line.as_slice()) {
            Some(f) => {
                self.func = Some(ColorString::from_vec(f));
                None
            }
            None => Some(self.gcc_clang(line.as_slice())),
        }
    }

    /// Parse one line of Clang compiler output.
    #[verifier::spinoff_prover]
    #[verifier::rlimit(100)]
    pub fn clang(&mut self, line: &mut Vec<u8>, colors: bool) -> (r: Option<Message>)
        ensures
            final(self)@ == spec_clang(old(self)@, old(line)@, colors).0,
            opt_msg(r) == spec_clang(old(self)@, old(line)@, colors).1,
    {
        proof {
            reveal(spec_clang);
        }
        let ghost p0 = self@;
        if colors {
            replace_warning_color(line);
            match self.kind {
                Some(k) => {
                    let to = if matches!(k, Kind::Error) {
                        RED
                    } else {
                        YELLOW
                    };
                    replace_color(GREEN, to, line);
                }
                None => {}
            }
        }
        proof {
            assert(line@ == spec_clang_line(p0, old(line)@, colors));
        }
        let ghost pm = spec_gcc_clang_core(p0, line@);
        let msg = self.gcc_clang(line.as_slice());
        proof {
            assert(self@ == pm.0 && msg@ == pm.1);
            assert(spec_clang(p0, old(line)@, colors) == spec_clang_post(pm));
        }
        match msg {
            Message::Body(m) => {
                let gen = pat_generated_dot();
                if ends_with(m.as_bytes(), gen.as_slice()) {
                    return Some(Message::Status(m));
                }
                let four = pat_four_spaces();
                if find_first(m.as_bytes(), four.as_slice()).is_some() {
                    let prefix = gutter_prefix(self.last_line);
                    self.last_line = None;
                    let mut out = ColorString::from_vec(prefix);
                    out.push_bytes(m.as_bytes());
                    return Some(Message::Body(out));
                }
                Some(Message::Body(m))
            }
            Message::Header(st) => {
                self.last_line = match &st.loc.line {
                    Some(ls) => parse_decimal(ls.as_bytes()),
                    None => None,
                };
                Some(Message::Header(st))
            }
            m => Some(m),
        }
    }

    /// Parse one line of GNU linker output.
    pub fn ld(&mut self, line: &[u8], windows: bool) -> (r: Option<Message>)
        ensures
            final(self)@ == spec_ld(old(self)@, line@, windows).0,
            opt_msg(r) == spec_ld(old(self)@, line@, windows).1,
    {
        proof {
            reveal(spec_ld);
        }
        match func_name(line) {
            Some(f) => {
                let inner = if f.len() >= 2 {
                    sub_vec(f.as_slice(), 1, f.len() - 1)
                } else {
                    Vec::new()
                };
                proof {
                    if f@.len() < 2 {
                        assert(inner@ =~= Seq::<u8>::empty());
                    }
                }
                self.func = Some(ColorString::from_vec(inner));
                return None;
            }
            None => {}
        }
        let n0 = line.len();
        let ldp = pat_ld_exe();
        let shortened: &[u8] = if windows {
            match find_first(line, ldp.as_slice()) {
                Some(i) => slice_range(line, i + 1, n0),
                None => line,
            }
        } else {
            line
        };
        let ghost l = if windows && spec_find(line@, spec_pat_ld_exe()) is Some {
            line@.skip(spec_find(line@, spec_pat_ld_exe()).unwrap() + 1)
        } else {
            line@
        };
        proof {
            assert(shortened@ == l);
        }
        let n = shortened.len();
        let cp = pat_colon_paren();
        let pe = match find_first(shortened, cp.as_slice()) {
            Some(pe) => pe,
            None => {
                return None;
            }
        };
        let after = slice_range(shortened, pe + 2, n);
        proof {
            assert(after@ == l.skip(pe + 2));
        }
        let pc = pat_paren_colon();
        let j = match find_first(after, pc.as_slice()) {
            Some(j) => j,
            None => {
                return None;
            }
        };
        let se = 2 + pe + j;
        let code = sub_vec(shortened, pe + 2, se);
        let msg = sub_vec(shortened, se + 2, n);
        let path = sub_vec(shortened, 0, pe);
        proof {
            assert(code@ == l.subrange(pe + 2, se as int));
            assert(msg@ == l.skip(se + 2));
            assert(path@ == l.take(pe as int));
        }
        let func = match &self.func {
            Some(c) => Some(ColorString::from_slice(c.as_bytes())),
            None => None,
        };
        Some(Message::Header(Status {
            kind: Kind::Error,
            code: Some(ColorString::from_vec(code)),
            msg: ColorString::from_vec(msg),
            loc: Loc {
                path: ColorString::from_vec(path),
                line: None,
                column: None,
                func,
            },
        }))
    }
}


// ---------------------------------------------------------------------
// printing

/// The bytes `print` emits for a message: nothing for include notes,
/// the line plus newline for bodies and statuses (with a colour reset
/// when colours are on), and the two-line `kind code: msg` /
/// `   --> path:line:column` form for headers.
pub open spec fn spec_print(m: MessageV, colors: bool) -> Seq<u8> {
    match m {
        MessageV::Include(_) => Seq::<u8>::empty(),
        MessageV::Body(b) => if colors {
            b + crate::color::spec_ansi_reset() + seq![NL]
        } else {
            b + seq![NL]
        },
        MessageV::Status(b) => if colors {
            b + crate::color::spec_ansi_reset() + seq![NL]
        } else {
            b + seq![NL]
        },
        MessageV::Header(st) => {
            let kindword = if st.kind == Kind::Error {
                spec_pat_error_word()
            } else {
                spec_pat_warning_word()
            };
            let kindcolor = if st.kind == Kind::Error {
                crate::color::Color::Red
            } else {
                crate::color::Color::Yellow
            };
            (if colors { crate::color::spec_ansi(Some(kindcolor), true) } else { Seq::<u8>::empty() })
            + kindword
            + (match st.code {
                Some(c) => seq![SPACE] + c,
                None => Seq::<u8>::empty(),
            })
            + (if colors { crate::color::spec_ansi(None, true) } else { Seq::<u8>::empty() })
            + seq![COLON, SPACE]
            + (if colors { crate::color::spec_ansi_reset() } else { Seq::<u8>::empty() })
            + st.msg
            + (if colors {
                crate::color::spec_ansi(Some(crate::color::Color::Cyan), true)
            } else {
                Seq::<u8>::empty()
            })
            + spec_pat_arrow()
            + (if colors { crate::color::spec_ansi_reset() } else { Seq::<u8>::empty() })
            + st.loc.path
            + (match st.loc.line {
                Some(l) => seq![COLON] + l,
                None => Seq::<u8>::empty(),
            })
            + (match st.loc.column {
                Some(c) => seq![COLON] + c,
                None => Seq::<u8>::empty(),
            })
            + (match st.loc.func {
                Some(f) => spec_pat_in_function() + f + seq![BACKTICK],
                None => Seq::<u8>::empty(),
            })
            + (if colors { crate::color::spec_ansi_reset() } else { Seq::<u8>::empty() })
            + seq![NL]
        }
    }
}

/// Render a diagnostic header.
#[verifier::spinoff_prover]
#[verifier::rlimit(100)]
fn header_bytes(st: &Status, colors: bool) -> (r: ColorString)
    ensures
        r@ == spec_print(MessageV::Header(st@), colors),
{
    let ghost none8: Seq<u8> = Seq::<u8>::empty();
    let mut w = ColorString::new();
    let kindcolor = if matches!(st.kind, Kind::Error) {
        crate::color::Color::Red
    } else {
        crate::color::Color::Yellow
    };
    if colors {
        w.set_bold(Some(kindcolor));
    }
    let ghost e1 = if colors { crate::color::spec_ansi(Some(kindcolor), true) } else { none8 };
    proof {
        assert(w@ =~= e1);
    }
    let kindword = if matches!(st.kind, Kind::Error) {
        pat_error_word()
    } else {
        pat_warning_word()
    };
    w.push_bytes(kindword.as_slice());
    match &st.code {
        Some(code) => {
            w.push(SPACE);
            w.push_bytes(code.as_bytes());
        }
        None => {}
    }
    let ghost e2 = e1 + kindword@ + (match st@.code {
        Some(c) => seq![SPACE] + c,
        None => none8,
    });
    proof {
        assert(w@ =~= e2);
    }
    if colors {
        w.set_bold(None);
    }
    w.push(COLON);
    w.push(SPACE);
    if colors {
        w.reset_color();
    }
    let ghost e3 = e2 + (if colors { crate::color::spec_ansi(None, true) } else { none8 })
        + seq![COLON, SPACE]
        + (if colors { crate::color::spec_ansi_reset() } else { none8 });
    proof {
        assert(w@ =~= e3);
    }
    w.push_bytes(st.msg.as_bytes());
    if colors {
        w.set_bold(Some(crate::color::Color::Cyan));
    }
    let arrow = pat_arrow();
    w.push_bytes(arrow.as_slice());
    if colors {
        w.reset_color();
    }
    let ghost e4 = e3 + st@.msg
        + (if colors { crate::color::spec_ansi(Some(crate::color::Color::Cyan), true) } else { none8 })
        + spec_pat_arrow()
        + (if colors { crate::color::spec_ansi_reset() } else { none8 });
    proof {
        assert(w@ =~= e4);
    }
    w.push_bytes(st.loc.path.as_bytes());
    match &st.loc.line {
        Some(l) => {
            w.push(COLON);
            w.push_bytes(l.as_bytes());
        }
        None => {}
    }
    match &st.loc.column {
        Some(c) => {
            w.push(COLON);
            w.push_bytes(c.as_bytes());
        }
        None => {}
    }
    let ghost e5 = e4 + st@.loc.path
        + (match st@.loc.line {
            Some(l) => seq![COLON] + l,
            None => none8,
        })
        + (match st@.loc.column {
            Some(c) => seq![COLON] + c,
            None => none8,
        });
    proof {
        assert(w@ =~= e5);
    }
    match &st.loc.func {
        Some(f) => {
            let infn = pat_in_function();
            w.push_bytes(infn.as_slice());
            w.push_bytes(f.as_bytes());
            w.push(BACKTICK);
        }
        None => {}
    }
    if colors {
        w.reset_color();
    }
    w.push(NL);
    let ghost e6 = e5 + (match st@.loc.func {
        Some(f) => spec_pat_in_function() + f + seq![BACKTICK],
        None => none8,
    }) + (if colors { crate::color::spec_ansi_reset() } else { none8 }) + seq![NL];
    proof {
        assert(w@ =~= e6);
        assert(e6 =~= spec_print(MessageV::Header(st@), colors));
    }
    w
}

impl Message {
    /// Append the user-visible form of this message to `o`.
    pub fn print(&self, o: &mut Vec<u8>, colors: bool)
        ensures
            final(o)@ == old(o)@ + spec_print(self@, colors),
    {
        match self {
            Message::Extra(..) => {
                proof {
                    assert(final(o)@ =~= old(o)@ + spec_print(self@, colors));
                }
            }
            Message::Body(m) | Message::Status(m) => {
                let mut w = ColorString::from_slice(m.as_bytes());
                if colors {
                    w.reset_color();
                }
                w.push(NL);
                crate::bytes::push_all(o, w.as_bytes());
                proof {
                    assert(final(o)@ =~= old(o)@ + spec_print(self@, colors));
                }
            }
            Message::Header(st) => {
                let w = header_bytes(st, colors);
                crate::bytes::push_all(o, w.as_bytes());
                proof {
                    assert(final(o)@ =~= old(o)@ + spec_print(self@, colors));
                }
            }
        }
    }
}

// ---------------------------------------------------------------------
// the stream

/// Split a byte stream on newlines; the empty stream has no lines, and
/// a trailing newline does not add one.
pub open spec fn spec_split_nl(s: Seq<u8>) -> Seq<Seq<u8>>
    decreases s.len(),
{
    if s.len() == 0 {
        seq![Seq::<u8>::empty()]
    } else if s.last() == NL {
        spec_split_nl(s.drop_last()).push(Seq::<u8>::empty())
    } else {
        let prev = spec_split_nl(s.drop_last());
        prev.update(prev.len() - 1, prev.last().push(s.last()))
    }
}

/// Drop one trailing carriage return.
pub open spec fn spec_strip_cr(l: Seq<u8>) -> Seq<u8> {
    if l.len() > 0 && l.last() == CR {
        l.drop_last()
    } else {
        l
    }
}

/// The lines of a tool-output stream.
pub open spec fn spec_stream_lines(s: Seq<u8>) -> Seq<Seq<u8>> {
    if s.len() == 0 {
        Seq::<Seq<u8>>::empty()
    } else {
        let parts = spec_split_nl(s);
        let kept = if s.last() == NL {
            parts.drop_last()
        } else {
            parts
        };
        kept.map_values(|l: Seq<u8>| spec_strip_cr(l))
    }
}

proof fn lemma_split_nl_len(s: Seq<u8>)
    ensures
        spec_split_nl(s).len() >= 1,
    decreases s.len(),
{
    if s.len() != 0 {
        lemma_split_nl_len(s.drop_last());
    }
}

/// A nonempty stream has at least one line.
pub proof fn lemma_stream_lines_nonempty(s: Seq<u8>)
    requires
        s.len() > 0,
    ensures
        spec_stream_lines(s).len() >= 1,
{
    lemma_split_nl_len(s);
    if s.last() == NL {
        lemma_split_nl_len(s.drop_last());
    }
}

/// Split a stream into lines, dropping each line's trailing `\r`.
pub fn split_stream_lines(input: &[u8]) -> (lines: Vec<Vec<u8>>)
    ensures
        lines@.map_values(|l: Vec<u8>| l@) == spec_stream_lines(input@),
{
    let n = input.len();
    if n == 0 {
        let lines: Vec<Vec<u8>> = Vec::new();
        proof {
            assert(lines@.map_values(|l: Vec<u8>| l@) =~~= spec_stream_lines(input@));
        }
        return lines;
    }
    let mut parts: Vec<Vec<u8>> = Vec::new();
    let mut cur: Vec<u8> = Vec::new();
    let mut i: usize = 0;
    proof {
        assert(input@.subrange(0, 0) =~= Seq::<u8>::empty());
        assert(parts@.map_values(|c: Vec<u8>| c@).push(cur@)
            =~= spec_split_nl(input@.subrange(0, 0)));
    }
    while i < n
        invariant
            0 <= i <= n,
            n == input@.len(),
            parts@.map_values(|c: Vec<u8>| c@).push(cur@)
                == spec_split_nl(input@.subrange(0, i as int)),
        decreases n - i,
    {
        let ghost prefix = input@.subrange(0, i as int);
        let ghost next = input@.subrange(0, i + 1);
        proof {
            assert(next.drop_last() =~= prefix);
            assert(next.last() == input@[i as int]);
        }
        if input[i] == NL {
            parts.push(cur);
            cur = Vec::new();
            proof {
                assert(parts@.map_values(|c: Vec<u8>| c@).push(cur@)
                    =~= spec_split_nl(prefix).push(Seq::<u8>::empty()));
            }
        } else {
            let ghost old_parts = parts@.map_values(|c: Vec<u8>| c@);
            let ghost old_cur = cur@;
            cur.push(input[i]);
            proof {
                let prev = spec_split_nl(prefix);
                assert(next.drop_last() == prefix);
                assert(prev == old_parts.push(old_cur));
                assert(prev.last() == old_cur);
                assert(prev.len() == old_parts.len() + 1);
                assert(cur@ == old_cur.push(input@[i as int]));
                assert(spec_split_nl(next)
                    == prev.update(prev.len() - 1, prev.last().push(input@[i as int])));
                assert(prev.update(prev.len() - 1, old_cur.push(input@[i as int]))
                    =~= old_parts.push(cur@));
            }
        }
        i = i + 1;
    }
    proof {
        assert(input@.subrange(0, n as int) =~= input@);
    }
    // a trailing newline does not produce a final empty line
    let last_is_nl = input[n - 1] == NL;
    if !last_is_nl {
        parts.push(cur);
    }
    let ghost kept = parts@.map_values(|c: Vec<u8>| c@);
    proof {
        if last_is_nl {
            assert(kept =~~= spec_split_nl(input@).drop_last());
        }
    }
    // strip one carriage return from each line
    let mut out: Vec<Vec<u8>> = Vec::new();
    let mut k: usize = 0;
    while k < parts.len()
        invariant
            0 <= k <= parts@.len(),
            kept == parts@.map_values(|c: Vec<u8>| c@),
            out@.len() == k,
            forall|j: int| 0 <= j < k
                ==> #[trigger] out@[j]@ == spec_strip_cr(kept[j]),
        decreases parts@.len() - k,
    {
        let src = &parts[k];
        proof {
            assert(kept[k as int] == parts@[k as int]@);
        }
        let m = src.len();
        let stripped = if m > 0 && src[m - 1] == CR {
            sub_vec(src.as_slice(), 0, m - 1)
        } else {
            sub_vec(src.as_slice(), 0, m)
        };
        proof {
            if m > 0 && src@[m - 1] == CR {
                assert(stripped@ =~= spec_strip_cr(kept[k as int]));
            } else {
                assert(stripped@ =~= kept[k as int]);
            }
        }
        out.push(stripped);
        k = k + 1;
    }
    proof {
        let target = kept.map_values(|l: Seq<u8>| spec_strip_cr(l));
        assert forall|j: int| 0 <= j < out@.len()
            implies out@.map_values(|l: Vec<u8>| l@)[j] == target[j] by {
            assert(out@[j]@ == spec_strip_cr(kept[j]));
        }
        assert(out@.map_values(|l: Vec<u8>| l@) =~~= target);
        assert(out@.map_values(|l: Vec<u8>| l@) =~~= spec_stream_lines(input@));
    }
    out
}

/// One parser step for the given tool kind and family.
pub open spec fn spec_step(
    kind: ToolKind,
    family: ToolFamily,
    windows: bool,
    colors: bool,
    p: ParserV,
    l: Seq<u8>,
) -> (ParserV, Option<MessageV>) {
    match family {
        ToolFamily::Msvc => spec_msvc(p, l),
        ToolFamily::Gnu => {
            if kind == ToolKind::Linker {
                spec_ld(p, l, windows)
            } else {
                spec_gcc(p, l, colors)
            }
        }
        ToolFamily::Clang => {
            if kind == ToolKind::Linker {
                if windows {
                    spec_msvc(p, l)
                } else {
                    spec_ld(p, l, false)
                }
            } else {
                spec_clang(p, l, colors)
            }
        }
    }
}

/// Run the parser over a list of lines, collecting the messages.
pub open spec fn spec_run(
    kind: ToolKind,
    family: ToolFamily,
    windows: bool,
    colors: bool,
    p: ParserV,
    lines: Seq<Seq<u8>>,
) -> (ParserV, Seq<MessageV>)
    decreases lines.len(),
{
    if lines.len() == 0 {
        (p, Seq::<MessageV>::empty())
    } else {
        let prev = spec_run(kind, family, windows, colors, p, lines.drop_last());
        let step = spec_step(kind, family, windows, colors, prev.0, lines.last());
        match step.1 {
            Some(m) => (step.0, prev.1.push(m)),
            None => (step.0, prev.1),
        }
    }
}

/// The fresh parser state a stream starts from.
pub open spec fn spec_parser_init() -> ParserV {
    ParserV {
        kind: None::<Kind>,
        func: None::<Seq<u8>>,
        last_line: None::<u64>,
        warnings_as_errors: false,
    }
}

impl Message {
    /// Parse a whole tool-output stream into structured messages,
    /// following the family- and kind-specific line rules.
    #[verifier::spinoff_prover]
    #[verifier::rlimit(100)]
    pub fn parse_all(
        input: &[u8],
        kind: ToolKind,
        family: ToolFamily,
        windows: bool,
        colors: bool,
    ) -> (msgs: Vec<Message>)
        ensures
            msgs@.map_values(|m: Message| m@) == spec_run(
                kind, family, windows, colors, spec_parser_init(),
                spec_stream_lines(input@),
            ).1,
    {
        let lines = split_stream_lines(input);
        let ghost all = lines@.map_values(|l: Vec<u8>| l@);
        let mut parser = Parser::new();
        let mut msgs: Vec<Message> = Vec::new();
        let mut i: usize = 0;
        proof {
            assert(all.subrange(0, 0) =~= Seq::<Seq<u8>>::empty());
            assert(msgs@.map_values(|m: Message| m@)
                =~= spec_run(kind, family, windows, colors, spec_parser_init(),
                    all.subrange(0, 0)).1);
        }
        while i < lines.len()
            invariant
                0 <= i <= lines@.len(),
                all == lines@.map_values(|l: Vec<u8>| l@),
                parser@ == spec_run(kind, family, windows, colors, spec_parser_init(),
                    all.subrange(0, i as int)).0,
                msgs@.map_values(|m: Message| m@)
                    == spec_run(kind, family, windows, colors, spec_parser_init(),
                        all.subrange(0, i as int)).1,
            decreases lines@.len() - i,
        {
            let ghost before = all.subrange(0, i as int);
            let ghost after = all.subrange(0, i + 1);
            proof {
                assert(after.drop_last() =~= before);
                assert(after.last() == all[i as int]);
            }
            let src = &lines[i];
            proof {
                assert(src@ == all[i as int]);
            }
            let ghost p_pre = parser@;
            let ghost step = spec_step(kind, family, windows, colors, p_pre, all[i as int]);
            let r: Option<Message> = match family {
                ToolFamily::Msvc => {
                    let r = parser.msvc(src.as_slice());
                    proof {
                        assert(step == spec_msvc(p_pre, all[i as int]));
                        assert(parser@ == step.0 && opt_msg(r) == step.1);
                    }
                    r
                }
                ToolFamily::Gnu => {
                    if matches!(kind, ToolKind::Linker) {
                        let r = parser.ld(src.as_slice(), windows);
                        proof {
                            assert(step == spec_ld(p_pre, all[i as int], windows));
                            assert(parser@ == step.0 && opt_msg(r) == step.1);
                        }
                        r
                    } else {
                        let mut line = sub_vec(src.as_slice(), 0, src.len());
                        proof {
                            assert(line@ =~= all[i as int]);
                        }
                        let r = parser.gcc(&mut line, colors);
                        proof {
                            assert(step == spec_gcc(p_pre, all[i as int], colors));
                            assert(parser@ == step.0 && opt_msg(r) == step.1);
                        }
                        r
                    }
                }
                ToolFamily::Clang => {
                    if matches!(kind, ToolKind::Linker) {
                        if windows {
                            let r = parser.msvc(src.as_slice());
                            proof {
                                assert(step == spec_msvc(p_pre, all[i as int]));
                                assert(parser@ == step.0 && opt_msg(r) == step.1);
                            }
                            r
                        } else {
                            let r = parser.ld(src.as_slice(), false);
                            proof {
                                assert(step == spec_ld(p_pre, all[i as int], false));
                                assert(parser@ == step.0 && opt_msg(r) == step.1);
                            }
                            r
                        }
                    } else {
                        let mut line = sub_vec(src.as_slice(), 0, src.len());
                        proof {
                            assert(line@ =~= all[i as int]);
                        }
                        let r = parser.clang(&mut line, colors);
                        proof {
                            assert(step == spec_clang(p_pre, all[i as int], colors));
                            assert(parser@ == step.0 && opt_msg(r) == step.1);
                        }
                        r
                    }
                }
            };
            let ghost old_msgs = msgs@.map_values(|m: Message| m@);
            match r {
                Some(m) => {
                    msgs.push(m);
                    proof {
                        assert(msgs@.map_values(|m2: Message| m2@)
                            =~= old_msgs.push(msgs@.last()@));
                    }
                }
                None => {}
            }
            i = i + 1;
        }
        proof {
            assert(all.subrange(0, all.len() as int) =~= all);
        }
        msgs
    }
}

} // verus!
