//! Byte patterns the tool-output parser recognizes.

use vstd::prelude::*;

verus! {

/// `Generating Code...`
pub open spec fn spec_pat_generating_code() -> Seq<u8> {
    seq![71, 101, 110, 101, 114, 97, 116, 105, 110, 103, 32, 67, 111, 100, 101, 46, 46, 46]
}

/// The bytes of `spec_pat_generating_code`.
pub fn pat_generating_code() -> (r: Vec<u8>)
    ensures
        r@ == spec_pat_generating_code(),
{
    let mut v: Vec<u8> = Vec::new();
    v.push(71);
    v.push(101);
    v.push(110);
    v.push(101);
    v.push(114);
    v.push(97);
    v.push(116);
    v.push(105);
    v.push(110);
    v.push(103);
    v.push(32);
    v.push(67);
    v.push(111);
    v.push(100);
    v.push(101);
    v.push(46);
    v.push(46);
    v.push(46);
    proof {
        assert(v@ =~= spec_pat_generating_code());
    }
    v
}

/// `   Creating library`
pub open spec fn spec_pat_creating_library() -> Seq<u8> {
    seq![32, 32, 32, 67, 114, 101, 97, 116, 105, 110, 103, 32, 108, 105, 98, 114, 97, 114, 121]
}

/// The bytes of `spec_pat_creating_library`.
pub fn pat_creating_library() -> (r: Vec<u8>)
    ensures
        r@ == spec_pat_creating_library(),
{
    let mut v: Vec<u8> = Vec::new();
    v.push(32);
    v.push(32);
    v.push(32);
    v.push(67);
    v.push(114);
    v.push(101);
    v.push(97);
    v.push(116);
    v.push(105);
    v.push(110);
    v.push(103);
    v.push(32);
    v.push(108);
    v.push(105);
    v.push(98);
    v.push(114);
    v.push(97);
    v.push(114);
    v.push(121);
    proof {
        assert(v@ =~= spec_pat_creating_library());
    }
    v
}

/// `Note: including file:`
pub open spec fn spec_pat_note_including() -> Seq<u8> {
    seq![78, 111, 116, 101, 58, 32, 105, 110, 99, 108, 117, 100, 105, 110, 103, 32, 102, 105, 108, 101, 58]
}

/// The bytes of `spec_pat_note_including`.
pub fn pat_note_including() -> (r: Vec<u8>)
    ensures
        r@ == spec_pat_note_including(),
{
    let mut v: Vec<u8> = Vec::new();
    v.push(78);
    v.push(111);
    v.push(116);
    v.push(101);
    v.push(58);
    v.push(32);
    v.push(105);
    v.push(110);
    v.push(99);
    v.push(108);
    v.push(117);
    v.push(100);
    v.push(105);
    v.push(110);
    v.push(103);
    v.push(32);
    v.push(102);
    v.push(105);
    v.push(108);
    v.push(101);
    v.push(58);
    proof {
        assert(v@ =~= spec_pat_note_including());
    }
    v
}

/// `):`
pub open spec fn spec_pat_paren_colon() -> Seq<u8> {
    seq![41, 58]
}

/// The bytes of `spec_pat_paren_colon`.
pub fn pat_paren_colon() -> (r: Vec<u8>)
    ensures
        r@ == spec_pat_paren_colon(),
{
    let mut v: Vec<u8> = Vec::new();
    v.push(41);
    v.push(58);
    proof {
        assert(v@ =~= spec_pat_paren_colon());
    }
    v
}

/// `error`
pub open spec fn spec_pat_error_word() -> Seq<u8> {
    seq![101, 114, 114, 111, 114]
}

/// The bytes of `spec_pat_error_word`.
pub fn pat_error_word() -> (r: Vec<u8>)
    ensures
        r@ == spec_pat_error_word(),
{
    let mut v: Vec<u8> = Vec::new();
    v.push(101);
    v.push(114);
    v.push(114);
    v.push(111);
    v.push(114);
    proof {
        assert(v@ =~= spec_pat_error_word());
    }
    v
}

/// `warning`
pub open spec fn spec_pat_warning_word() -> Seq<u8> {
    seq![119, 97, 114, 110, 105, 110, 103]
}

/// The bytes of `spec_pat_warning_word`.
pub fn pat_warning_word() -> (r: Vec<u8>)
    ensures
        r@ == spec_pat_warning_word(),
{
    let mut v: Vec<u8> = Vec::new();
    v.push(119);
    v.push(97);
    v.push(114);
    v.push(110);
    v.push(105);
    v.push(110);
    v.push(103);
    proof {
        assert(v@ =~= spec_pat_warning_word());
    }
    v
}

/// `treated as an error`
pub open spec fn spec_pat_treated_as_error() -> Seq<u8> {
    seq![116, 114, 101, 97, 116, 101, 100, 32, 97, 115, 32, 97, 110, 32, 101, 114, 114, 111, 114]
}

/// The bytes of `spec_pat_treated_as_error`.
pub fn pat_treated_as_error() -> (r: Vec<u8>)
    ensures
        r@ == spec_pat_treated_as_error(),
{
    let mut v: Vec<u8> = Vec::new();
    v.push(116);
    v.push(114);
    v.push(101);
    v.push(97);
    v.push(116);
    v.push(101);
    v.push(100);
    v.push(32);
    v.push(97);
    v.push(115);
    v.push(32);
    v.push(97);
    v.push(110);
    v.push(32);
    v.push(101);
    v.push(114);
    v.push(114);
    v.push(111);
    v.push(114);
    proof {
        assert(v@ =~= spec_pat_treated_as_error());
    }
    v
}

/// `error:`
pub open spec fn spec_pat_error_colon() -> Seq<u8> {
    seq![101, 114, 114, 111, 114, 58]
}

/// The bytes of `spec_pat_error_colon`.
pub fn pat_error_colon() -> (r: Vec<u8>)
    ensures
        r@ == spec_pat_error_colon(),
{
    let mut v: Vec<u8> = Vec::new();
    v.push(101);
    v.push(114);
    v.push(114);
    v.push(111);
    v.push(114);
    v.push(58);
    proof {
        assert(v@ =~= spec_pat_error_colon());
    }
    v
}

/// `warning:`
pub open spec fn spec_pat_warning_colon() -> Seq<u8> {
    seq![119, 97, 114, 110, 105, 110, 103, 58]
}

/// The bytes of `spec_pat_warning_colon`.
pub fn pat_warning_colon() -> (r: Vec<u8>)
    ensures
        r@ == spec_pat_warning_colon(),
{
    let mut v: Vec<u8> = Vec::new();
    v.push(119);
    v.push(97);
    v.push(114);
    v.push(110);
    v.push(105);
    v.push(110);
    v.push(103);
    v.push(58);
    proof {
        assert(v@ =~= spec_pat_warning_colon());
    }
    v
}

/// ` generated.`
pub open spec fn spec_pat_generated_dot() -> Seq<u8> {
    seq![32, 103, 101, 110, 101, 114, 97, 116, 101, 100, 46]
}

/// The bytes of `spec_pat_generated_dot`.
pub fn pat_generated_dot() -> (r: Vec<u8>)
    ensures
        r@ == spec_pat_generated_dot(),
{
    let mut v: Vec<u8> = Vec::new();
    v.push(32);
    v.push(103);
    v.push(101);
    v.push(110);
    v.push(101);
    v.push(114);
    v.push(97);
    v.push(116);
    v.push(101);
    v.push(100);
    v.push(46);
    proof {
        assert(v@ =~= spec_pat_generated_dot());
    }
    v
}

/// `    `
pub open spec fn spec_pat_four_spaces() -> Seq<u8> {
    seq![32, 32, 32, 32]
}

/// The bytes of `spec_pat_four_spaces`.
pub fn pat_four_spaces() -> (r: Vec<u8>)
    ensures
        r@ == spec_pat_four_spaces(),
{
    let mut v: Vec<u8> = Vec::new();
    v.push(32);
    v.push(32);
    v.push(32);
    v.push(32);
    proof {
        assert(v@ =~= spec_pat_four_spaces());
    }
    v
}

/// `n function `
pub open spec fn spec_pat_n_function() -> Seq<u8> {
    seq![110, 32, 102, 117, 110, 99, 116, 105, 111, 110, 32]
}

/// The bytes of `spec_pat_n_function`.
pub fn pat_n_function() -> (r: Vec<u8>)
    ensures
        r@ == spec_pat_n_function(),
{
    let mut v: Vec<u8> = Vec::new();
    v.push(110);
    v.push(32);
    v.push(102);
    v.push(117);
    v.push(110);
    v.push(99);
    v.push(116);
    v.push(105);
    v.push(111);
    v.push(110);
    v.push(32);
    proof {
        assert(v@ =~= spec_pat_n_function());
    }
    v
}

/// `/ld.exe: `
pub open spec fn spec_pat_ld_exe() -> Seq<u8> {
    seq![47, 108, 100, 46, 101, 120, 101, 58, 32]
}

/// The bytes of `spec_pat_ld_exe`.
pub fn pat_ld_exe() -> (r: Vec<u8>)
    ensures
        r@ == spec_pat_ld_exe(),
{
    let mut v: Vec<u8> = Vec::new();
    v.push(47);
    v.push(108);
    v.push(100);
    v.push(46);
    v.push(101);
    v.push(120);
    v.push(101);
    v.push(58);
    v.push(32);
    proof {
        assert(v@ =~= spec_pat_ld_exe());
    }
    v
}

/// `:(`
pub open spec fn spec_pat_colon_paren() -> Seq<u8> {
    seq![58, 40]
}

/// The bytes of `spec_pat_colon_paren`.
pub fn pat_colon_paren() -> (r: Vec<u8>)
    ensures
        r@ == spec_pat_colon_paren(),
{
    let mut v: Vec<u8> = Vec::new();
    v.push(58);
    v.push(40);
    proof {
        assert(v@ =~= spec_pat_colon_paren());
    }
    v
}

/// `\n   --> `
pub open spec fn spec_pat_arrow() -> Seq<u8> {
    seq![10, 32, 32, 32, 45, 45, 62, 32]
}

/// The bytes of `spec_pat_arrow`.
pub fn pat_arrow() -> (r: Vec<u8>)
    ensures
        r@ == spec_pat_arrow(),
{
    let mut v: Vec<u8> = Vec::new();
    v.push(10);
    v.push(32);
    v.push(32);
    v.push(32);
    v.push(45);
    v.push(45);
    v.push(62);
    v.push(32);
    proof {
        assert(v@ =~= spec_pat_arrow());
    }
    v
}

/// ` in function ``
pub open spec fn spec_pat_in_function() -> Seq<u8> {
    seq![32, 105, 110, 32, 102, 117, 110, 99, 116, 105, 111, 110, 32, 96]
}

/// The bytes of `spec_pat_in_function`.
pub fn pat_in_function() -> (r: Vec<u8>)
    ensures
        r@ == spec_pat_in_function(),
{
    let mut v: Vec<u8> = Vec::new();
    v.push(32);
    v.push(105);
    v.push(110);
    v.push(32);
    v.push(102);
    v.push(117);
    v.push(110);
    v.push(99);
    v.push(116);
    v.push(105);
    v.push(111);
    v.push(110);
    v.push(32);
    v.push(96);
    proof {
        assert(v@ =~= spec_pat_in_function());
    }
    v
}

/// ` | `
pub open spec fn spec_pat_gutter() -> Seq<u8> {
    seq![32, 124, 32]
}

/// The bytes of `spec_pat_gutter`.
pub fn pat_gutter() -> (r: Vec<u8>)
    ensures
        r@ == spec_pat_gutter(),
{
    let mut v: Vec<u8> = Vec::new();
    v.push(32);
    v.push(124);
    v.push(32);
    proof {
        assert(v@ =~= spec_pat_gutter());
    }
    v
}

/// `      | `
pub open spec fn spec_pat_empty_gutter() -> Seq<u8> {
    seq![32, 32, 32, 32, 32, 32, 124, 32]
}

/// The bytes of `spec_pat_empty_gutter`.
pub fn pat_empty_gutter() -> (r: Vec<u8>)
    ensures
        r@ == spec_pat_empty_gutter(),
{
    let mut v: Vec<u8> = Vec::new();
    v.push(32);
    v.push(32);
    v.push(32);
    v.push(32);
    v.push(32);
    v.push(32);
    v.push(124);
    v.push(32);
    proof {
        assert(v@ =~= spec_pat_empty_gutter());
    }
    v
}

} // verus!
