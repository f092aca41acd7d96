//! Family-specific flag translation tables for target triples.
//!
//! Each rule matches the triple by substring, prefix, suffix or
//! equality and contributes its flags in table order; the exec
//! function is proved to produce exactly what the table says.

use vstd::prelude::*;
use crate::bytes::{ends_with, ends_with_spec, find_first, spec_find, starts_with,
    starts_with_spec, bytes_eq};

verus! {

/// `i686`
pub open spec fn spec_l0() -> Seq<u8> {
    seq![105u8, 54u8, 56u8, 54u8]
}

fn mk_l0() -> (r: Vec<u8>)
    ensures
        r@ == spec_l0(),
{
    let mut v: Vec<u8> = Vec::new();
    v.push(105);
    v.push(54);
    v.push(56);
    v.push(54);
    proof {
        assert(v@ =~= spec_l0());
    }
    v
}

fn has_l0(t: &[u8]) -> (r: bool)
    ensures
        r <==> spec_find(t@, spec_l0()) is Some,
{
    let p = mk_l0();
    find_first(t, p.as_slice()).is_some()
}

fn sw_l0(t: &[u8]) -> (r: bool)
    ensures
        r <==> starts_with_spec(t@, spec_l0()),
{
    let p = mk_l0();
    starts_with(t, p.as_slice())
}

fn ew_l0(t: &[u8]) -> (r: bool)
    ensures
        r <==> ends_with_spec(t@, spec_l0()),
{
    let p = mk_l0();
    ends_with(t, p.as_slice())
}

fn eq_l0(t: &[u8]) -> (r: bool)
    ensures
        r <==> t@ == spec_l0(),
{
    let p = mk_l0();
    bytes_eq(t, p.as_slice())
}

/// `i586`
pub open spec fn spec_l1() -> Seq<u8> {
    seq![105u8, 53u8, 56u8, 54u8]
}

fn mk_l1() -> (r: Vec<u8>)
    ensures
        r@ == spec_l1(),
{
    let mut v: Vec<u8> = Vec::new();
    v.push(105);
    v.push(53);
    v.push(56);
    v.push(54);
    proof {
        assert(v@ =~= spec_l1());
    }
    v
}

fn has_l1(t: &[u8]) -> (r: bool)
    ensures
        r <==> spec_find(t@, spec_l1()) is Some,
{
    let p = mk_l1();
    find_first(t, p.as_slice()).is_some()
}

fn sw_l1(t: &[u8]) -> (r: bool)
    ensures
        r <==> starts_with_spec(t@, spec_l1()),
{
    let p = mk_l1();
    starts_with(t, p.as_slice())
}

fn ew_l1(t: &[u8]) -> (r: bool)
    ensures
        r <==> ends_with_spec(t@, spec_l1()),
{
    let p = mk_l1();
    ends_with(t, p.as_slice())
}

fn eq_l1(t: &[u8]) -> (r: bool)
    ensures
        r <==> t@ == spec_l1(),
{
    let p = mk_l1();
    bytes_eq(t, p.as_slice())
}

/// `-m32`
pub open spec fn spec_l2() -> Seq<u8> {
    seq![45u8, 109u8, 51u8, 50u8]
}

fn mk_l2() -> (r: Vec<u8>)
    ensures
        r@ == spec_l2(),
{
    let mut v: Vec<u8> = Vec::new();
    v.push(45);
    v.push(109);
    v.push(51);
    v.push(50);
    proof {
        assert(v@ =~= spec_l2());
    }
    v
}

fn has_l2(t: &[u8]) -> (r: bool)
    ensures
        r <==> spec_find(t@, spec_l2()) is Some,
{
    let p = mk_l2();
    find_first(t, p.as_slice()).is_some()
}

fn sw_l2(t: &[u8]) -> (r: bool)
    ensures
        r <==> starts_with_spec(t@, spec_l2()),
{
    let p = mk_l2();
    starts_with(t, p.as_slice())
}

fn ew_l2(t: &[u8]) -> (r: bool)
    ensures
        r <==> ends_with_spec(t@, spec_l2()),
{
    let p = mk_l2();
    ends_with(t, p.as_slice())
}

fn eq_l2(t: &[u8]) -> (r: bool)
    ensures
        r <==> t@ == spec_l2(),
{
    let p = mk_l2();
    bytes_eq(t, p.as_slice())
}

/// `x86_64-unknown-linux-gnux32`
pub open spec fn spec_l3() -> Seq<u8> {
    seq![120u8, 56u8, 54u8, 95u8, 54u8, 52u8, 45u8, 117u8, 110u8, 107u8, 110u8, 111u8, 119u8, 110u8, 45u8, 108u8, 105u8, 110u8, 117u8, 120u8, 45u8, 103u8, 110u8, 117u8, 120u8, 51u8, 50u8]
}

fn mk_l3() -> (r: Vec<u8>)
    ensures
        r@ == spec_l3(),
{
    let mut v: Vec<u8> = Vec::new();
    v.push(120);
    v.push(56);
    v.push(54);
    v.push(95);
    v.push(54);
    v.push(52);
    v.push(45);
    v.push(117);
    v.push(110);
    v.push(107);
    v.push(110);
    v.push(111);
    v.push(119);
    v.push(110);
    v.push(45);
    v.push(108);
    v.push(105);
    v.push(110);
    v.push(117);
    v.push(120);
    v.push(45);
    v.push(103);
    v.push(110);
    v.push(117);
    v.push(120);
    v.push(51);
    v.push(50);
    proof {
        assert(v@ =~= spec_l3());
    }
    v
}

fn has_l3(t: &[u8]) -> (r: bool)
    ensures
        r <==> spec_find(t@, spec_l3()) is Some,
{
    let p = mk_l3();
    find_first(t, p.as_slice()).is_some()
}

fn sw_l3(t: &[u8]) -> (r: bool)
    ensures
        r <==> starts_with_spec(t@, spec_l3()),
{
    let p = mk_l3();
    starts_with(t, p.as_slice())
}

fn ew_l3(t: &[u8]) -> (r: bool)
    ensures
        r <==> ends_with_spec(t@, spec_l3()),
{
    let p = mk_l3();
    ends_with(t, p.as_slice())
}

fn eq_l3(t: &[u8]) -> (r: bool)
    ensures
        r <==> t@ == spec_l3(),
{
    let p = mk_l3();
    bytes_eq(t, p.as_slice())
}

/// `-mx32`
pub open spec fn spec_l4() -> Seq<u8> {
    seq![45u8, 109u8, 120u8, 51u8, 50u8]
}

fn mk_l4() -> (r: Vec<u8>)
    ensures
        r@ == spec_l4(),
{
    let mut v: Vec<u8> = Vec::new();
    v.push(45);
    v.push(109);
    v.push(120);
    v.push(51);
    v.push(50);
    proof {
        assert(v@ =~= spec_l4());
    }
    v
}

fn has_l4(t: &[u8]) -> (r: bool)
    ensures
        r <==> spec_find(t@, spec_l4()) is Some,
{
    let p = mk_l4();
    find_first(t, p.as_slice()).is_some()
}

fn sw_l4(t: &[u8]) -> (r: bool)
    ensures
        r <==> starts_with_spec(t@, spec_l4()),
{
    let p = mk_l4();
    starts_with(t, p.as_slice())
}

fn ew_l4(t: &[u8]) -> (r: bool)
    ensures
        r <==> ends_with_spec(t@, spec_l4()),
{
    let p = mk_l4();
    ends_with(t, p.as_slice())
}

fn eq_l4(t: &[u8]) -> (r: bool)
    ensures
        r <==> t@ == spec_l4(),
{
    let p = mk_l4();
    bytes_eq(t, p.as_slice())
}

/// `x86_64`
pub open spec fn spec_l5() -> Seq<u8> {
    seq![120u8, 56u8, 54u8, 95u8, 54u8, 52u8]
}

fn mk_l5() -> (r: Vec<u8>)
    ensures
        r@ == spec_l5(),
{
    let mut v: Vec<u8> = Vec::new();
    v.push(120);
    v.push(56);
    v.push(54);
    v.push(95);
    v.push(54);
    v.push(52);
    proof {
        assert(v@ =~= spec_l5());
    }
    v
}

fn has_l5(t: &[u8]) -> (r: bool)
    ensures
        r <==> spec_find(t@, spec_l5()) is Some,
{
    let p = mk_l5();
    find_first(t, p.as_slice()).is_some()
}

fn sw_l5(t: &[u8]) -> (r: bool)
    ensures
        r <==> starts_with_spec(t@, spec_l5()),
{
    let p = mk_l5();
    starts_with(t, p.as_slice())
}

fn ew_l5(t: &[u8]) -> (r: bool)
    ensures
        r <==> ends_with_spec(t@, spec_l5()),
{
    let p = mk_l5();
    ends_with(t, p.as_slice())
}

fn eq_l5(t: &[u8]) -> (r: bool)
    ensures
        r <==> t@ == spec_l5(),
{
    let p = mk_l5();
    bytes_eq(t, p.as_slice())
}

/// `powerpc64`
pub open spec fn spec_l6() -> Seq<u8> {
    seq![112u8, 111u8, 119u8, 101u8, 114u8, 112u8, 99u8, 54u8, 52u8]
}

fn mk_l6() -> (r: Vec<u8>)
    ensures
        r@ == spec_l6(),
{
    let mut v: Vec<u8> = Vec::new();
    v.push(112);
    v.push(111);
    v.push(119);
    v.push(101);
    v.push(114);
    v.push(112);
    v.push(99);
    v.push(54);
    v.push(52);
    proof {
        assert(v@ =~= spec_l6());
    }
    v
}

fn has_l6(t: &[u8]) -> (r: bool)
    ensures
        r <==> spec_find(t@, spec_l6()) is Some,
{
    let p = mk_l6();
    find_first(t, p.as_slice()).is_some()
}

fn sw_l6(t: &[u8]) -> (r: bool)
    ensures
        r <==> starts_with_spec(t@, spec_l6()),
{
    let p = mk_l6();
    starts_with(t, p.as_slice())
}

fn ew_l6(t: &[u8]) -> (r: bool)
    ensures
        r <==> ends_with_spec(t@, spec_l6()),
{
    let p = mk_l6();
    ends_with(t, p.as_slice())
}

fn eq_l6(t: &[u8]) -> (r: bool)
    ensures
        r <==> t@ == spec_l6(),
{
    let p = mk_l6();
    bytes_eq(t, p.as_slice())
}

/// `-m64`
pub open spec fn spec_l7() -> Seq<u8> {
    seq![45u8, 109u8, 54u8, 52u8]
}

fn mk_l7() -> (r: Vec<u8>)
    ensures
        r@ == spec_l7(),
{
    let mut v: Vec<u8> = Vec::new();
    v.push(45);
    v.push(109);
    v.push(54);
    v.push(52);
    proof {
        assert(v@ =~= spec_l7());
    }
    v
}

fn has_l7(t: &[u8]) -> (r: bool)
    ensures
        r <==> spec_find(t@, spec_l7()) is Some,
{
    let p = mk_l7();
    find_first(t, p.as_slice()).is_some()
}

fn sw_l7(t: &[u8]) -> (r: bool)
    ensures
        r <==> starts_with_spec(t@, spec_l7()),
{
    let p = mk_l7();
    starts_with(t, p.as_slice())
}

fn ew_l7(t: &[u8]) -> (r: bool)
    ensures
        r <==> ends_with_spec(t@, spec_l7()),
{
    let p = mk_l7();
    ends_with(t, p.as_slice())
}

fn eq_l7(t: &[u8]) -> (r: bool)
    ensures
        r <==> t@ == spec_l7(),
{
    let p = mk_l7();
    bytes_eq(t, p.as_slice())
}

/// `-kmc-solid_`
pub open spec fn spec_l8() -> Seq<u8> {
    seq![45u8, 107u8, 109u8, 99u8, 45u8, 115u8, 111u8, 108u8, 105u8, 100u8, 95u8]
}

fn mk_l8() -> (r: Vec<u8>)
    ensures
        r@ == spec_l8(),
{
    let mut v: Vec<u8> = Vec::new();
    v.push(45);
    v.push(107);
    v.push(109);
    v.push(99);
    v.push(45);
    v.push(115);
    v.push(111);
    v.push(108);
    v.push(105);
    v.push(100);
    v.push(95);
    proof {
        assert(v@ =~= spec_l8());
    }
    v
}

fn has_l8(t: &[u8]) -> (r: bool)
    ensures
        r <==> spec_find(t@, spec_l8()) is Some,
{
    let p = mk_l8();
    find_first(t, p.as_slice()).is_some()
}

fn sw_l8(t: &[u8]) -> (r: bool)
    ensures
        r <==> starts_with_spec(t@, spec_l8()),
{
    let p = mk_l8();
    starts_with(t, p.as_slice())
}

fn ew_l8(t: &[u8]) -> (r: bool)
    ensures
        r <==> ends_with_spec(t@, spec_l8()),
{
    let p = mk_l8();
    ends_with(t, p.as_slice())
}

fn eq_l8(t: &[u8]) -> (r: bool)
    ensures
        r <==> t@ == spec_l8(),
{
    let p = mk_l8();
    bytes_eq(t, p.as_slice())
}

/// `-finput-charset=utf-8`
pub open spec fn spec_l9() -> Seq<u8> {
    seq![45u8, 102u8, 105u8, 110u8, 112u8, 117u8, 116u8, 45u8, 99u8, 104u8, 97u8, 114u8, 115u8, 101u8, 116u8, 61u8, 117u8, 116u8, 102u8, 45u8, 56u8]
}

fn mk_l9() -> (r: Vec<u8>)
    ensures
        r@ == spec_l9(),
{
    let mut v: Vec<u8> = Vec::new();
    v.push(45);
    v.push(102);
    v.push(105);
    v.push(110);
    v.push(112);
    v.push(117);
    v.push(116);
    v.push(45);
    v.push(99);
    v.push(104);
    v.push(97);
    v.push(114);
    v.push(115);
    v.push(101);
    v.push(116);
    v.push(61);
    v.push(117);
    v.push(116);
    v.push(102);
    v.push(45);
    v.push(56);
    proof {
        assert(v@ =~= spec_l9());
    }
    v
}

fn has_l9(t: &[u8]) -> (r: bool)
    ensures
        r <==> spec_find(t@, spec_l9()) is Some,
{
    let p = mk_l9();
    find_first(t, p.as_slice()).is_some()
}

fn sw_l9(t: &[u8]) -> (r: bool)
    ensures
        r <==> starts_with_spec(t@, spec_l9()),
{
    let p = mk_l9();
    starts_with(t, p.as_slice())
}

fn ew_l9(t: &[u8]) -> (r: bool)
    ensures
        r <==> ends_with_spec(t@, spec_l9()),
{
    let p = mk_l9();
    ends_with(t, p.as_slice())
}

fn eq_l9(t: &[u8]) -> (r: bool)
    ensures
        r <==> t@ == spec_l9(),
{
    let p = mk_l9();
    bytes_eq(t, p.as_slice())
}

/// `armv7`
pub open spec fn spec_l10() -> Seq<u8> {
    seq![97u8, 114u8, 109u8, 118u8, 55u8]
}

fn mk_l10() -> (r: Vec<u8>)
    ensures
        r@ == spec_l10(),
{
    let mut v: Vec<u8> = Vec::new();
    v.push(97);
    v.push(114);
    v.push(109);
    v.push(118);
    v.push(55);
    proof {
        assert(v@ =~= spec_l10());
    }
    v
}

fn has_l10(t: &[u8]) -> (r: bool)
    ensures
        r <==> spec_find(t@, spec_l10()) is Some,
{
    let p = mk_l10();
    find_first(t, p.as_slice()).is_some()
}

fn sw_l10(t: &[u8]) -> (r: bool)
    ensures
        r <==> starts_with_spec(t@, spec_l10()),
{
    let p = mk_l10();
    starts_with(t, p.as_slice())
}

fn ew_l10(t: &[u8]) -> (r: bool)
    ensures
        r <==> ends_with_spec(t@, spec_l10()),
{
    let p = mk_l10();
    ends_with(t, p.as_slice())
}

fn eq_l10(t: &[u8]) -> (r: bool)
    ensures
        r <==> t@ == spec_l10(),
{
    let p = mk_l10();
    bytes_eq(t, p.as_slice())
}

/// `thumbv7`
pub open spec fn spec_l11() -> Seq<u8> {
    seq![116u8, 104u8, 117u8, 109u8, 98u8, 118u8, 55u8]
}

fn mk_l11() -> (r: Vec<u8>)
    ensures
        r@ == spec_l11(),
{
    let mut v: Vec<u8> = Vec::new();
    v.push(116);
    v.push(104);
    v.push(117);
    v.push(109);
    v.push(98);
    v.push(118);
    v.push(55);
    proof {
        assert(v@ =~= spec_l11());
    }
    v
}

fn has_l11(t: &[u8]) -> (r: bool)
    ensures
        r <==> spec_find(t@, spec_l11()) is Some,
{
    let p = mk_l11();
    find_first(t, p.as_slice()).is_some()
}

fn sw_l11(t: &[u8]) -> (r: bool)
    ensures
        r <==> starts_with_spec(t@, spec_l11()),
{
    let p = mk_l11();
    starts_with(t, p.as_slice())
}

fn ew_l11(t: &[u8]) -> (r: bool)
    ensures
        r <==> ends_with_spec(t@, spec_l11()),
{
    let p = mk_l11();
    ends_with(t, p.as_slice())
}

fn eq_l11(t: &[u8]) -> (r: bool)
    ensures
        r <==> t@ == spec_l11(),
{
    let p = mk_l11();
    bytes_eq(t, p.as_slice())
}

/// `-linux-`
pub open spec fn spec_l12() -> Seq<u8> {
    seq![45u8, 108u8, 105u8, 110u8, 117u8, 120u8, 45u8]
}

fn mk_l12() -> (r: Vec<u8>)
    ensures
        r@ == spec_l12(),
{
    let mut v: Vec<u8> = Vec::new();
    v.push(45);
    v.push(108);
    v.push(105);
    v.push(110);
    v.push(117);
    v.push(120);
    v.push(45);
    proof {
        assert(v@ =~= spec_l12());
    }
    v
}

fn has_l12(t: &[u8]) -> (r: bool)
    ensures
        r <==> spec_find(t@, spec_l12()) is Some,
{
    let p = mk_l12();
    find_first(t, p.as_slice()).is_some()
}

fn sw_l12(t: &[u8]) -> (r: bool)
    ensures
        r <==> starts_with_spec(t@, spec_l12()),
{
    let p = mk_l12();
    starts_with(t, p.as_slice())
}

fn ew_l12(t: &[u8]) -> (r: bool)
    ensures
        r <==> ends_with_spec(t@, spec_l12()),
{
    let p = mk_l12();
    ends_with(t, p.as_slice())
}

fn eq_l12(t: &[u8]) -> (r: bool)
    ensures
        r <==> t@ == spec_l12(),
{
    let p = mk_l12();
    bytes_eq(t, p.as_slice())
}

/// `-march=armv7-a`
pub open spec fn spec_l13() -> Seq<u8> {
    seq![45u8, 109u8, 97u8, 114u8, 99u8, 104u8, 61u8, 97u8, 114u8, 109u8, 118u8, 55u8, 45u8, 97u8]
}

fn mk_l13() -> (r: Vec<u8>)
    ensures
        r@ == spec_l13(),
{
    let mut v: Vec<u8> = Vec::new();
    v.push(45);
    v.push(109);
    v.push(97);
    v.push(114);
    v.push(99);
    v.push(104);
    v.push(61);
    v.push(97);
    v.push(114);
    v.push(109);
    v.push(118);
    v.push(55);
    v.push(45);
    v.push(97);
    proof {
        assert(v@ =~= spec_l13());
    }
    v
}

fn has_l13(t: &[u8]) -> (r: bool)
    ensures
        r <==> spec_find(t@, spec_l13()) is Some,
{
    let p = mk_l13();
    find_first(t, p.as_slice()).is_some()
}

fn sw_l13(t: &[u8]) -> (r: bool)
    ensures
        r <==> starts_with_spec(t@, spec_l13()),
{
    let p = mk_l13();
    starts_with(t, p.as_slice())
}

fn ew_l13(t: &[u8]) -> (r: bool)
    ensures
        r <==> ends_with_spec(t@, spec_l13()),
{
    let p = mk_l13();
    ends_with(t, p.as_slice())
}

fn eq_l13(t: &[u8]) -> (r: bool)
    ensures
        r <==> t@ == spec_l13(),
{
    let p = mk_l13();
    bytes_eq(t, p.as_slice())
}

/// `eabihf`
pub open spec fn spec_l14() -> Seq<u8> {
    seq![101u8, 97u8, 98u8, 105u8, 104u8, 102u8]
}

fn mk_l14() -> (r: Vec<u8>)
    ensures
        r@ == spec_l14(),
{
    let mut v: Vec<u8> = Vec::new();
    v.push(101);
    v.push(97);
    v.push(98);
    v.push(105);
    v.push(104);
    v.push(102);
    proof {
        assert(v@ =~= spec_l14());
    }
    v
}

fn has_l14(t: &[u8]) -> (r: bool)
    ensures
        r <==> spec_find(t@, spec_l14()) is Some,
{
    let p = mk_l14();
    find_first(t, p.as_slice()).is_some()
}

fn sw_l14(t: &[u8]) -> (r: bool)
    ensures
        r <==> starts_with_spec(t@, spec_l14()),
{
    let p = mk_l14();
    starts_with(t, p.as_slice())
}

fn ew_l14(t: &[u8]) -> (r: bool)
    ensures
        r <==> ends_with_spec(t@, spec_l14()),
{
    let p = mk_l14();
    ends_with(t, p.as_slice())
}

fn eq_l14(t: &[u8]) -> (r: bool)
    ensures
        r <==> t@ == spec_l14(),
{
    let p = mk_l14();
    bytes_eq(t, p.as_slice())
}

/// `-mfpu=vfpv3-d16`
pub open spec fn spec_l15() -> Seq<u8> {
    seq![45u8, 109u8, 102u8, 112u8, 117u8, 61u8, 118u8, 102u8, 112u8, 118u8, 51u8, 45u8, 100u8, 49u8, 54u8]
}

fn mk_l15() -> (r: Vec<u8>)
    ensures
        r@ == spec_l15(),
{
    let mut v: Vec<u8> = Vec::new();
    v.push(45);
    v.push(109);
    v.push(102);
    v.push(112);
    v.push(117);
    v.push(61);
    v.push(118);
    v.push(102);
    v.push(112);
    v.push(118);
    v.push(51);
    v.push(45);
    v.push(100);
    v.push(49);
    v.push(54);
    proof {
        assert(v@ =~= spec_l15());
    }
    v
}

fn has_l15(t: &[u8]) -> (r: bool)
    ensures
        r <==> spec_find(t@, spec_l15()) is Some,
{
    let p = mk_l15();
    find_first(t, p.as_slice()).is_some()
}

fn sw_l15(t: &[u8]) -> (r: bool)
    ensures
        r <==> starts_with_spec(t@, spec_l15()),
{
    let p = mk_l15();
    starts_with(t, p.as_slice())
}

fn ew_l15(t: &[u8]) -> (r: bool)
    ensures
        r <==> ends_with_spec(t@, spec_l15()),
{
    let p = mk_l15();
    ends_with(t, p.as_slice())
}

fn eq_l15(t: &[u8]) -> (r: bool)
    ensures
        r <==> t@ == spec_l15(),
{
    let p = mk_l15();
    bytes_eq(t, p.as_slice())
}

/// `-androideabi`
pub open spec fn spec_l16() -> Seq<u8> {
    seq![45u8, 97u8, 110u8, 100u8, 114u8, 111u8, 105u8, 100u8, 101u8, 97u8, 98u8, 105u8]
}

fn mk_l16() -> (r: Vec<u8>)
    ensures
        r@ == spec_l16(),
{
    let mut v: Vec<u8> = Vec::new();
    v.push(45);
    v.push(97);
    v.push(110);
    v.push(100);
    v.push(114);
    v.push(111);
    v.push(105);
    v.push(100);
    v.push(101);
    v.push(97);
    v.push(98);
    v.push(105);
    proof {
        assert(v@ =~= spec_l16());
    }
    v
}

fn has_l16(t: &[u8]) -> (r: bool)
    ensures
        r <==> spec_find(t@, spec_l16()) is Some,
{
    let p = mk_l16();
    find_first(t, p.as_slice()).is_some()
}

fn sw_l16(t: &[u8]) -> (r: bool)
    ensures
        r <==> starts_with_spec(t@, spec_l16()),
{
    let p = mk_l16();
    starts_with(t, p.as_slice())
}

fn ew_l16(t: &[u8]) -> (r: bool)
    ensures
        r <==> ends_with_spec(t@, spec_l16()),
{
    let p = mk_l16();
    ends_with(t, p.as_slice())
}

fn eq_l16(t: &[u8]) -> (r: bool)
    ensures
        r <==> t@ == spec_l16(),
{
    let p = mk_l16();
    bytes_eq(t, p.as_slice())
}

/// `v7`
pub open spec fn spec_l17() -> Seq<u8> {
    seq![118u8, 55u8]
}

fn mk_l17() -> (r: Vec<u8>)
    ensures
        r@ == spec_l17(),
{
    let mut v: Vec<u8> = Vec::new();
    v.push(118);
    v.push(55);
    proof {
        assert(v@ =~= spec_l17());
    }
    v
}

fn has_l17(t: &[u8]) -> (r: bool)
    ensures
        r <==> spec_find(t@, spec_l17()) is Some,
{
    let p = mk_l17();
    find_first(t, p.as_slice()).is_some()
}

fn sw_l17(t: &[u8]) -> (r: bool)
    ensures
        r <==> starts_with_spec(t@, spec_l17()),
{
    let p = mk_l17();
    starts_with(t, p.as_slice())
}

fn ew_l17(t: &[u8]) -> (r: bool)
    ensures
        r <==> ends_with_spec(t@, spec_l17()),
{
    let p = mk_l17();
    ends_with(t, p.as_slice())
}

fn eq_l17(t: &[u8]) -> (r: bool)
    ensures
        r <==> t@ == spec_l17(),
{
    let p = mk_l17();
    bytes_eq(t, p.as_slice())
}

/// `-mthumb`
pub open spec fn spec_l18() -> Seq<u8> {
    seq![45u8, 109u8, 116u8, 104u8, 117u8, 109u8, 98u8]
}

fn mk_l18() -> (r: Vec<u8>)
    ensures
        r@ == spec_l18(),
{
    let mut v: Vec<u8> = Vec::new();
    v.push(45);
    v.push(109);
    v.push(116);
    v.push(104);
    v.push(117);
    v.push(109);
    v.push(98);
    proof {
        assert(v@ =~= spec_l18());
    }
    v
}

fn has_l18(t: &[u8]) -> (r: bool)
    ensures
        r <==> spec_find(t@, spec_l18()) is Some,
{
    let p = mk_l18();
    find_first(t, p.as_slice()).is_some()
}

fn sw_l18(t: &[u8]) -> (r: bool)
    ensures
        r <==> starts_with_spec(t@, spec_l18()),
{
    let p = mk_l18();
    starts_with(t, p.as_slice())
}

fn ew_l18(t: &[u8]) -> (r: bool)
    ensures
        r <==> ends_with_spec(t@, spec_l18()),
{
    let p = mk_l18();
    ends_with(t, p.as_slice())
}

fn eq_l18(t: &[u8]) -> (r: bool)
    ensures
        r <==> t@ == spec_l18(),
{
    let p = mk_l18();
    bytes_eq(t, p.as_slice())
}

/// `neon`
pub open spec fn spec_l19() -> Seq<u8> {
    seq![110u8, 101u8, 111u8, 110u8]
}

fn mk_l19() -> (r: Vec<u8>)
    ensures
        r@ == spec_l19(),
{
    let mut v: Vec<u8> = Vec::new();
    v.push(110);
    v.push(101);
    v.push(111);
    v.push(110);
    proof {
        assert(v@ =~= spec_l19());
    }
    v
}

fn has_l19(t: &[u8]) -> (r: bool)
    ensures
        r <==> spec_find(t@, spec_l19()) is Some,
{
    let p = mk_l19();
    find_first(t, p.as_slice()).is_some()
}

fn sw_l19(t: &[u8]) -> (r: bool)
    ensures
        r <==> starts_with_spec(t@, spec_l19()),
{
    let p = mk_l19();
    starts_with(t, p.as_slice())
}

fn ew_l19(t: &[u8]) -> (r: bool)
    ensures
        r <==> ends_with_spec(t@, spec_l19()),
{
    let p = mk_l19();
    ends_with(t, p.as_slice())
}

fn eq_l19(t: &[u8]) -> (r: bool)
    ensures
        r <==> t@ == spec_l19(),
{
    let p = mk_l19();
    bytes_eq(t, p.as_slice())
}

/// `-mfloat-abi=softfp`
pub open spec fn spec_l20() -> Seq<u8> {
    seq![45u8, 109u8, 102u8, 108u8, 111u8, 97u8, 116u8, 45u8, 97u8, 98u8, 105u8, 61u8, 115u8, 111u8, 102u8, 116u8, 102u8, 112u8]
}

fn mk_l20() -> (r: Vec<u8>)
    ensures
        r@ == spec_l20(),
{
    let mut v: Vec<u8> = Vec::new();
    v.push(45);
    v.push(109);
    v.push(102);
    v.push(108);
    v.push(111);
    v.push(97);
    v.push(116);
    v.push(45);
    v.push(97);
    v.push(98);
    v.push(105);
    v.push(61);
    v.push(115);
    v.push(111);
    v.push(102);
    v.push(116);
    v.push(102);
    v.push(112);
    proof {
        assert(v@ =~= spec_l20());
    }
    v
}

fn has_l20(t: &[u8]) -> (r: bool)
    ensures
        r <==> spec_find(t@, spec_l20()) is Some,
{
    let p = mk_l20();
    find_first(t, p.as_slice()).is_some()
}

fn sw_l20(t: &[u8]) -> (r: bool)
    ensures
        r <==> starts_with_spec(t@, spec_l20()),
{
    let p = mk_l20();
    starts_with(t, p.as_slice())
}

fn ew_l20(t: &[u8]) -> (r: bool)
    ensures
        r <==> ends_with_spec(t@, spec_l20()),
{
    let p = mk_l20();
    ends_with(t, p.as_slice())
}

fn eq_l20(t: &[u8]) -> (r: bool)
    ensures
        r <==> t@ == spec_l20(),
{
    let p = mk_l20();
    bytes_eq(t, p.as_slice())
}

/// `-mfpu=neon-vfpv4`
pub open spec fn spec_l21() -> Seq<u8> {
    seq![45u8, 109u8, 102u8, 112u8, 117u8, 61u8, 110u8, 101u8, 111u8, 110u8, 45u8, 118u8, 102u8, 112u8, 118u8, 52u8]
}

fn mk_l21() -> (r: Vec<u8>)
    ensures
        r@ == spec_l21(),
{
    let mut v: Vec<u8> = Vec::new();
    v.push(45);
    v.push(109);
    v.push(102);
    v.push(112);
    v.push(117);
    v.push(61);
    v.push(110);
    v.push(101);
    v.push(111);
    v.push(110);
    v.push(45);
    v.push(118);
    v.push(102);
    v.push(112);
    v.push(118);
    v.push(52);
    proof {
        assert(v@ =~= spec_l21());
    }
    v
}

fn has_l21(t: &[u8]) -> (r: bool)
    ensures
        r <==> spec_find(t@, spec_l21()) is Some,
{
    let p = mk_l21();
    find_first(t, p.as_slice()).is_some()
}

fn sw_l21(t: &[u8]) -> (r: bool)
    ensures
        r <==> starts_with_spec(t@, spec_l21()),
{
    let p = mk_l21();
    starts_with(t, p.as_slice())
}

fn ew_l21(t: &[u8]) -> (r: bool)
    ensures
        r <==> ends_with_spec(t@, spec_l21()),
{
    let p = mk_l21();
    ends_with(t, p.as_slice())
}

fn eq_l21(t: &[u8]) -> (r: bool)
    ensures
        r <==> t@ == spec_l21(),
{
    let p = mk_l21();
    bytes_eq(t, p.as_slice())
}

/// `armv4t-unknown-linux-`
pub open spec fn spec_l22() -> Seq<u8> {
    seq![97u8, 114u8, 109u8, 118u8, 52u8, 116u8, 45u8, 117u8, 110u8, 107u8, 110u8, 111u8, 119u8, 110u8, 45u8, 108u8, 105u8, 110u8, 117u8, 120u8, 45u8]
}

fn mk_l22() -> (r: Vec<u8>)
    ensures
        r@ == spec_l22(),
{
    let mut v: Vec<u8> = Vec::new();
    v.push(97);
    v.push(114);
    v.push(109);
    v.push(118);
    v.push(52);
    v.push(116);
    v.push(45);
    v.push(117);
    v.push(110);
    v.push(107);
    v.push(110);
    v.push(111);
    v.push(119);
    v.push(110);
    v.push(45);
    v.push(108);
    v.push(105);
    v.push(110);
    v.push(117);
    v.push(120);
    v.push(45);
    proof {
        assert(v@ =~= spec_l22());
    }
    v
}

fn has_l22(t: &[u8]) -> (r: bool)
    ensures
        r <==> spec_find(t@, spec_l22()) is Some,
{
    let p = mk_l22();
    find_first(t, p.as_slice()).is_some()
}

fn sw_l22(t: &[u8]) -> (r: bool)
    ensures
        r <==> starts_with_spec(t@, spec_l22()),
{
    let p = mk_l22();
    starts_with(t, p.as_slice())
}

fn ew_l22(t: &[u8]) -> (r: bool)
    ensures
        r <==> ends_with_spec(t@, spec_l22()),
{
    let p = mk_l22();
    ends_with(t, p.as_slice())
}

fn eq_l22(t: &[u8]) -> (r: bool)
    ensures
        r <==> t@ == spec_l22(),
{
    let p = mk_l22();
    bytes_eq(t, p.as_slice())
}

/// `-march=armv4t`
pub open spec fn spec_l23() -> Seq<u8> {
    seq![45u8, 109u8, 97u8, 114u8, 99u8, 104u8, 61u8, 97u8, 114u8, 109u8, 118u8, 52u8, 116u8]
}

fn mk_l23() -> (r: Vec<u8>)
    ensures
        r@ == spec_l23(),
{
    let mut v: Vec<u8> = Vec::new();
    v.push(45);
    v.push(109);
    v.push(97);
    v.push(114);
    v.push(99);
    v.push(104);
    v.push(61);
    v.push(97);
    v.push(114);
    v.push(109);
    v.push(118);
    v.push(52);
    v.push(116);
    proof {
        assert(v@ =~= spec_l23());
    }
    v
}

fn has_l23(t: &[u8]) -> (r: bool)
    ensures
        r <==> spec_find(t@, spec_l23()) is Some,
{
    let p = mk_l23();
    find_first(t, p.as_slice()).is_some()
}

fn sw_l23(t: &[u8]) -> (r: bool)
    ensures
        r <==> starts_with_spec(t@, spec_l23()),
{
    let p = mk_l23();
    starts_with(t, p.as_slice())
}

fn ew_l23(t: &[u8]) -> (r: bool)
    ensures
        r <==> ends_with_spec(t@, spec_l23()),
{
    let p = mk_l23();
    ends_with(t, p.as_slice())
}

fn eq_l23(t: &[u8]) -> (r: bool)
    ensures
        r <==> t@ == spec_l23(),
{
    let p = mk_l23();
    bytes_eq(t, p.as_slice())
}

/// `-marm`
pub open spec fn spec_l24() -> Seq<u8> {
    seq![45u8, 109u8, 97u8, 114u8, 109u8]
}

fn mk_l24() -> (r: Vec<u8>)
    ensures
        r@ == spec_l24(),
{
    let mut v: Vec<u8> = Vec::new();
    v.push(45);
    v.push(109);
    v.push(97);
    v.push(114);
    v.push(109);
    proof {
        assert(v@ =~= spec_l24());
    }
    v
}

fn has_l24(t: &[u8]) -> (r: bool)
    ensures
        r <==> spec_find(t@, spec_l24()) is Some,
{
    let p = mk_l24();
    find_first(t, p.as_slice()).is_some()
}

fn sw_l24(t: &[u8]) -> (r: bool)
    ensures
        r <==> starts_with_spec(t@, spec_l24()),
{
    let p = mk_l24();
    starts_with(t, p.as_slice())
}

fn ew_l24(t: &[u8]) -> (r: bool)
    ensures
        r <==> ends_with_spec(t@, spec_l24()),
{
    let p = mk_l24();
    ends_with(t, p.as_slice())
}

fn eq_l24(t: &[u8]) -> (r: bool)
    ensures
        r <==> t@ == spec_l24(),
{
    let p = mk_l24();
    bytes_eq(t, p.as_slice())
}

/// `-mfloat-abi=soft`
pub open spec fn spec_l25() -> Seq<u8> {
    seq![45u8, 109u8, 102u8, 108u8, 111u8, 97u8, 116u8, 45u8, 97u8, 98u8, 105u8, 61u8, 115u8, 111u8, 102u8, 116u8]
}

fn mk_l25() -> (r: Vec<u8>)
    ensures
        r@ == spec_l25(),
{
    let mut v: Vec<u8> = Vec::new();
    v.push(45);
    v.push(109);
    v.push(102);
    v.push(108);
    v.push(111);
    v.push(97);
    v.push(116);
    v.push(45);
    v.push(97);
    v.push(98);
    v.push(105);
    v.push(61);
    v.push(115);
    v.push(111);
    v.push(102);
    v.push(116);
    proof {
        assert(v@ =~= spec_l25());
    }
    v
}

fn has_l25(t: &[u8]) -> (r: bool)
    ensures
        r <==> spec_find(t@, spec_l25()) is Some,
{
    let p = mk_l25();
    find_first(t, p.as_slice()).is_some()
}

fn sw_l25(t: &[u8]) -> (r: bool)
    ensures
        r <==> starts_with_spec(t@, spec_l25()),
{
    let p = mk_l25();
    starts_with(t, p.as_slice())
}

fn ew_l25(t: &[u8]) -> (r: bool)
    ensures
        r <==> ends_with_spec(t@, spec_l25()),
{
    let p = mk_l25();
    ends_with(t, p.as_slice())
}

fn eq_l25(t: &[u8]) -> (r: bool)
    ensures
        r <==> t@ == spec_l25(),
{
    let p = mk_l25();
    bytes_eq(t, p.as_slice())
}

/// `armv5te-unknown-linux-`
pub open spec fn spec_l26() -> Seq<u8> {
    seq![97u8, 114u8, 109u8, 118u8, 53u8, 116u8, 101u8, 45u8, 117u8, 110u8, 107u8, 110u8, 111u8, 119u8, 110u8, 45u8, 108u8, 105u8, 110u8, 117u8, 120u8, 45u8]
}

fn mk_l26() -> (r: Vec<u8>)
    ensures
        r@ == spec_l26(),
{
    let mut v: Vec<u8> = Vec::new();
    v.push(97);
    v.push(114);
    v.push(109);
    v.push(118);
    v.push(53);
    v.push(116);
    v.push(101);
    v.push(45);
    v.push(117);
    v.push(110);
    v.push(107);
    v.push(110);
    v.push(111);
    v.push(119);
    v.push(110);
    v.push(45);
    v.push(108);
    v.push(105);
    v.push(110);
    v.push(117);
    v.push(120);
    v.push(45);
    proof {
        assert(v@ =~= spec_l26());
    }
    v
}

fn has_l26(t: &[u8]) -> (r: bool)
    ensures
        r <==> spec_find(t@, spec_l26()) is Some,
{
    let p = mk_l26();
    find_first(t, p.as_slice()).is_some()
}

fn sw_l26(t: &[u8]) -> (r: bool)
    ensures
        r <==> starts_with_spec(t@, spec_l26()),
{
    let p = mk_l26();
    starts_with(t, p.as_slice())
}

fn ew_l26(t: &[u8]) -> (r: bool)
    ensures
        r <==> ends_with_spec(t@, spec_l26()),
{
    let p = mk_l26();
    ends_with(t, p.as_slice())
}

fn eq_l26(t: &[u8]) -> (r: bool)
    ensures
        r <==> t@ == spec_l26(),
{
    let p = mk_l26();
    bytes_eq(t, p.as_slice())
}

/// `-march=armv5te`
pub open spec fn spec_l27() -> Seq<u8> {
    seq![45u8, 109u8, 97u8, 114u8, 99u8, 104u8, 61u8, 97u8, 114u8, 109u8, 118u8, 53u8, 116u8, 101u8]
}

fn mk_l27() -> (r: Vec<u8>)
    ensures
        r@ == spec_l27(),
{
    let mut v: Vec<u8> = Vec::new();
    v.push(45);
    v.push(109);
    v.push(97);
    v.push(114);
    v.push(99);
    v.push(104);
    v.push(61);
    v.push(97);
    v.push(114);
    v.push(109);
    v.push(118);
    v.push(53);
    v.push(116);
    v.push(101);
    proof {
        assert(v@ =~= spec_l27());
    }
    v
}

fn has_l27(t: &[u8]) -> (r: bool)
    ensures
        r <==> spec_find(t@, spec_l27()) is Some,
{
    let p = mk_l27();
    find_first(t, p.as_slice()).is_some()
}

fn sw_l27(t: &[u8]) -> (r: bool)
    ensures
        r <==> starts_with_spec(t@, spec_l27()),
{
    let p = mk_l27();
    starts_with(t, p.as_slice())
}

fn ew_l27(t: &[u8]) -> (r: bool)
    ensures
        r <==> ends_with_spec(t@, spec_l27()),
{
    let p = mk_l27();
    ends_with(t, p.as_slice())
}

fn eq_l27(t: &[u8]) -> (r: bool)
    ensures
        r <==> t@ == spec_l27(),
{
    let p = mk_l27();
    bytes_eq(t, p.as_slice())
}

/// `arm-unknown-linux-`
pub open spec fn spec_l28() -> Seq<u8> {
    seq![97u8, 114u8, 109u8, 45u8, 117u8, 110u8, 107u8, 110u8, 111u8, 119u8, 110u8, 45u8, 108u8, 105u8, 110u8, 117u8, 120u8, 45u8]
}

fn mk_l28() -> (r: Vec<u8>)
    ensures
        r@ == spec_l28(),
{
    let mut v: Vec<u8> = Vec::new();
    v.push(97);
    v.push(114);
    v.push(109);
    v.push(45);
    v.push(117);
    v.push(110);
    v.push(107);
    v.push(110);
    v.push(111);
    v.push(119);
    v.push(110);
    v.push(45);
    v.push(108);
    v.push(105);
    v.push(110);
    v.push(117);
    v.push(120);
    v.push(45);
    proof {
        assert(v@ =~= spec_l28());
    }
    v
}

fn has_l28(t: &[u8]) -> (r: bool)
    ensures
        r <==> spec_find(t@, spec_l28()) is Some,
{
    let p = mk_l28();
    find_first(t, p.as_slice()).is_some()
}

fn sw_l28(t: &[u8]) -> (r: bool)
    ensures
        r <==> starts_with_spec(t@, spec_l28()),
{
    let p = mk_l28();
    starts_with(t, p.as_slice())
}

fn ew_l28(t: &[u8]) -> (r: bool)
    ensures
        r <==> ends_with_spec(t@, spec_l28()),
{
    let p = mk_l28();
    ends_with(t, p.as_slice())
}

fn eq_l28(t: &[u8]) -> (r: bool)
    ensures
        r <==> t@ == spec_l28(),
{
    let p = mk_l28();
    bytes_eq(t, p.as_slice())
}

/// `-march=armv6`
pub open spec fn spec_l29() -> Seq<u8> {
    seq![45u8, 109u8, 97u8, 114u8, 99u8, 104u8, 61u8, 97u8, 114u8, 109u8, 118u8, 54u8]
}

fn mk_l29() -> (r: Vec<u8>)
    ensures
        r@ == spec_l29(),
{
    let mut v: Vec<u8> = Vec::new();
    v.push(45);
    v.push(109);
    v.push(97);
    v.push(114);
    v.push(99);
    v.push(104);
    v.push(61);
    v.push(97);
    v.push(114);
    v.push(109);
    v.push(118);
    v.push(54);
    proof {
        assert(v@ =~= spec_l29());
    }
    v
}

fn has_l29(t: &[u8]) -> (r: bool)
    ensures
        r <==> spec_find(t@, spec_l29()) is Some,
{
    let p = mk_l29();
    find_first(t, p.as_slice()).is_some()
}

fn sw_l29(t: &[u8]) -> (r: bool)
    ensures
        r <==> starts_with_spec(t@, spec_l29()),
{
    let p = mk_l29();
    starts_with(t, p.as_slice())
}

fn ew_l29(t: &[u8]) -> (r: bool)
    ensures
        r <==> ends_with_spec(t@, spec_l29()),
{
    let p = mk_l29();
    ends_with(t, p.as_slice())
}

fn eq_l29(t: &[u8]) -> (r: bool)
    ensures
        r <==> t@ == spec_l29(),
{
    let p = mk_l29();
    bytes_eq(t, p.as_slice())
}

/// `hf`
pub open spec fn spec_l30() -> Seq<u8> {
    seq![104u8, 102u8]
}

fn mk_l30() -> (r: Vec<u8>)
    ensures
        r@ == spec_l30(),
{
    let mut v: Vec<u8> = Vec::new();
    v.push(104);
    v.push(102);
    proof {
        assert(v@ =~= spec_l30());
    }
    v
}

fn has_l30(t: &[u8]) -> (r: bool)
    ensures
        r <==> spec_find(t@, spec_l30()) is Some,
{
    let p = mk_l30();
    find_first(t, p.as_slice()).is_some()
}

fn sw_l30(t: &[u8]) -> (r: bool)
    ensures
        r <==> starts_with_spec(t@, spec_l30()),
{
    let p = mk_l30();
    starts_with(t, p.as_slice())
}

fn ew_l30(t: &[u8]) -> (r: bool)
    ensures
        r <==> ends_with_spec(t@, spec_l30()),
{
    let p = mk_l30();
    ends_with(t, p.as_slice())
}

fn eq_l30(t: &[u8]) -> (r: bool)
    ensures
        r <==> t@ == spec_l30(),
{
    let p = mk_l30();
    bytes_eq(t, p.as_slice())
}

/// `-mfpu=vfp`
pub open spec fn spec_l31() -> Seq<u8> {
    seq![45u8, 109u8, 102u8, 112u8, 117u8, 61u8, 118u8, 102u8, 112u8]
}

fn mk_l31() -> (r: Vec<u8>)
    ensures
        r@ == spec_l31(),
{
    let mut v: Vec<u8> = Vec::new();
    v.push(45);
    v.push(109);
    v.push(102);
    v.push(112);
    v.push(117);
    v.push(61);
    v.push(118);
    v.push(102);
    v.push(112);
    proof {
        assert(v@ =~= spec_l31());
    }
    v
}

fn has_l31(t: &[u8]) -> (r: bool)
    ensures
        r <==> spec_find(t@, spec_l31()) is Some,
{
    let p = mk_l31();
    find_first(t, p.as_slice()).is_some()
}

fn sw_l31(t: &[u8]) -> (r: bool)
    ensures
        r <==> starts_with_spec(t@, spec_l31()),
{
    let p = mk_l31();
    starts_with(t, p.as_slice())
}

fn ew_l31(t: &[u8]) -> (r: bool)
    ensures
        r <==> ends_with_spec(t@, spec_l31()),
{
    let p = mk_l31();
    ends_with(t, p.as_slice())
}

fn eq_l31(t: &[u8]) -> (r: bool)
    ensures
        r <==> t@ == spec_l31(),
{
    let p = mk_l31();
    bytes_eq(t, p.as_slice())
}

/// `arm-frc-`
pub open spec fn spec_l32() -> Seq<u8> {
    seq![97u8, 114u8, 109u8, 45u8, 102u8, 114u8, 99u8, 45u8]
}

fn mk_l32() -> (r: Vec<u8>)
    ensures
        r@ == spec_l32(),
{
    let mut v: Vec<u8> = Vec::new();
    v.push(97);
    v.push(114);
    v.push(109);
    v.push(45);
    v.push(102);
    v.push(114);
    v.push(99);
    v.push(45);
    proof {
        assert(v@ =~= spec_l32());
    }
    v
}

fn has_l32(t: &[u8]) -> (r: bool)
    ensures
        r <==> spec_find(t@, spec_l32()) is Some,
{
    let p = mk_l32();
    find_first(t, p.as_slice()).is_some()
}

fn sw_l32(t: &[u8]) -> (r: bool)
    ensures
        r <==> starts_with_spec(t@, spec_l32()),
{
    let p = mk_l32();
    starts_with(t, p.as_slice())
}

fn ew_l32(t: &[u8]) -> (r: bool)
    ensures
        r <==> ends_with_spec(t@, spec_l32()),
{
    let p = mk_l32();
    ends_with(t, p.as_slice())
}

fn eq_l32(t: &[u8]) -> (r: bool)
    ensures
        r <==> t@ == spec_l32(),
{
    let p = mk_l32();
    bytes_eq(t, p.as_slice())
}

/// `-mcpu=cortex-a9`
pub open spec fn spec_l33() -> Seq<u8> {
    seq![45u8, 109u8, 99u8, 112u8, 117u8, 61u8, 99u8, 111u8, 114u8, 116u8, 101u8, 120u8, 45u8, 97u8, 57u8]
}

fn mk_l33() -> (r: Vec<u8>)
    ensures
        r@ == spec_l33(),
{
    let mut v: Vec<u8> = Vec::new();
    v.push(45);
    v.push(109);
    v.push(99);
    v.push(112);
    v.push(117);
    v.push(61);
    v.push(99);
    v.push(111);
    v.push(114);
    v.push(116);
    v.push(101);
    v.push(120);
    v.push(45);
    v.push(97);
    v.push(57);
    proof {
        assert(v@ =~= spec_l33());
    }
    v
}

fn has_l33(t: &[u8]) -> (r: bool)
    ensures
        r <==> spec_find(t@, spec_l33()) is Some,
{
    let p = mk_l33();
    find_first(t, p.as_slice()).is_some()
}

fn sw_l33(t: &[u8]) -> (r: bool)
    ensures
        r <==> starts_with_spec(t@, spec_l33()),
{
    let p = mk_l33();
    starts_with(t, p.as_slice())
}

fn ew_l33(t: &[u8]) -> (r: bool)
    ensures
        r <==> ends_with_spec(t@, spec_l33()),
{
    let p = mk_l33();
    ends_with(t, p.as_slice())
}

fn eq_l33(t: &[u8]) -> (r: bool)
    ensures
        r <==> t@ == spec_l33(),
{
    let p = mk_l33();
    bytes_eq(t, p.as_slice())
}

/// `-mfpu=vfpv3`
pub open spec fn spec_l34() -> Seq<u8> {
    seq![45u8, 109u8, 102u8, 112u8, 117u8, 61u8, 118u8, 102u8, 112u8, 118u8, 51u8]
}

fn mk_l34() -> (r: Vec<u8>)
    ensures
        r@ == spec_l34(),
{
    let mut v: Vec<u8> = Vec::new();
    v.push(45);
    v.push(109);
    v.push(102);
    v.push(112);
    v.push(117);
    v.push(61);
    v.push(118);
    v.push(102);
    v.push(112);
    v.push(118);
    v.push(51);
    proof {
        assert(v@ =~= spec_l34());
    }
    v
}

fn has_l34(t: &[u8]) -> (r: bool)
    ensures
        r <==> spec_find(t@, spec_l34()) is Some,
{
    let p = mk_l34();
    find_first(t, p.as_slice()).is_some()
}

fn sw_l34(t: &[u8]) -> (r: bool)
    ensures
        r <==> starts_with_spec(t@, spec_l34()),
{
    let p = mk_l34();
    starts_with(t, p.as_slice())
}

fn ew_l34(t: &[u8]) -> (r: bool)
    ensures
        r <==> ends_with_spec(t@, spec_l34()),
{
    let p = mk_l34();
    ends_with(t, p.as_slice())
}

fn eq_l34(t: &[u8]) -> (r: bool)
    ensures
        r <==> t@ == spec_l34(),
{
    let p = mk_l34();
    bytes_eq(t, p.as_slice())
}

/// `i586-unknown-linux-`
pub open spec fn spec_l35() -> Seq<u8> {
    seq![105u8, 53u8, 56u8, 54u8, 45u8, 117u8, 110u8, 107u8, 110u8, 111u8, 119u8, 110u8, 45u8, 108u8, 105u8, 110u8, 117u8, 120u8, 45u8]
}

fn mk_l35() -> (r: Vec<u8>)
    ensures
        r@ == spec_l35(),
{
    let mut v: Vec<u8> = Vec::new();
    v.push(105);
    v.push(53);
    v.push(56);
    v.push(54);
    v.push(45);
    v.push(117);
    v.push(110);
    v.push(107);
    v.push(110);
    v.push(111);
    v.push(119);
    v.push(110);
    v.push(45);
    v.push(108);
    v.push(105);
    v.push(110);
    v.push(117);
    v.push(120);
    v.push(45);
    proof {
        assert(v@ =~= spec_l35());
    }
    v
}

fn has_l35(t: &[u8]) -> (r: bool)
    ensures
        r <==> spec_find(t@, spec_l35()) is Some,
{
    let p = mk_l35();
    find_first(t, p.as_slice()).is_some()
}

fn sw_l35(t: &[u8]) -> (r: bool)
    ensures
        r <==> starts_with_spec(t@, spec_l35()),
{
    let p = mk_l35();
    starts_with(t, p.as_slice())
}

fn ew_l35(t: &[u8]) -> (r: bool)
    ensures
        r <==> ends_with_spec(t@, spec_l35()),
{
    let p = mk_l35();
    ends_with(t, p.as_slice())
}

fn eq_l35(t: &[u8]) -> (r: bool)
    ensures
        r <==> t@ == spec_l35(),
{
    let p = mk_l35();
    bytes_eq(t, p.as_slice())
}

/// `-march=pentium`
pub open spec fn spec_l36() -> Seq<u8> {
    seq![45u8, 109u8, 97u8, 114u8, 99u8, 104u8, 61u8, 112u8, 101u8, 110u8, 116u8, 105u8, 117u8, 109u8]
}

fn mk_l36() -> (r: Vec<u8>)
    ensures
        r@ == spec_l36(),
{
    let mut v: Vec<u8> = Vec::new();
    v.push(45);
    v.push(109);
    v.push(97);
    v.push(114);
    v.push(99);
    v.push(104);
    v.push(61);
    v.push(112);
    v.push(101);
    v.push(110);
    v.push(116);
    v.push(105);
    v.push(117);
    v.push(109);
    proof {
        assert(v@ =~= spec_l36());
    }
    v
}

fn has_l36(t: &[u8]) -> (r: bool)
    ensures
        r <==> spec_find(t@, spec_l36()) is Some,
{
    let p = mk_l36();
    find_first(t, p.as_slice()).is_some()
}

fn sw_l36(t: &[u8]) -> (r: bool)
    ensures
        r <==> starts_with_spec(t@, spec_l36()),
{
    let p = mk_l36();
    starts_with(t, p.as_slice())
}

fn ew_l36(t: &[u8]) -> (r: bool)
    ensures
        r <==> ends_with_spec(t@, spec_l36()),
{
    let p = mk_l36();
    ends_with(t, p.as_slice())
}

fn eq_l36(t: &[u8]) -> (r: bool)
    ensures
        r <==> t@ == spec_l36(),
{
    let p = mk_l36();
    bytes_eq(t, p.as_slice())
}

/// `i686-unknown-linux-`
pub open spec fn spec_l37() -> Seq<u8> {
    seq![105u8, 54u8, 56u8, 54u8, 45u8, 117u8, 110u8, 107u8, 110u8, 111u8, 119u8, 110u8, 45u8, 108u8, 105u8, 110u8, 117u8, 120u8, 45u8]
}

fn mk_l37() -> (r: Vec<u8>)
    ensures
        r@ == spec_l37(),
{
    let mut v: Vec<u8> = Vec::new();
    v.push(105);
    v.push(54);
    v.push(56);
    v.push(54);
    v.push(45);
    v.push(117);
    v.push(110);
    v.push(107);
    v.push(110);
    v.push(111);
    v.push(119);
    v.push(110);
    v.push(45);
    v.push(108);
    v.push(105);
    v.push(110);
    v.push(117);
    v.push(120);
    v.push(45);
    proof {
        assert(v@ =~= spec_l37());
    }
    v
}

fn has_l37(t: &[u8]) -> (r: bool)
    ensures
        r <==> spec_find(t@, spec_l37()) is Some,
{
    let p = mk_l37();
    find_first(t, p.as_slice()).is_some()
}

fn sw_l37(t: &[u8]) -> (r: bool)
    ensures
        r <==> starts_with_spec(t@, spec_l37()),
{
    let p = mk_l37();
    starts_with(t, p.as_slice())
}

fn ew_l37(t: &[u8]) -> (r: bool)
    ensures
        r <==> ends_with_spec(t@, spec_l37()),
{
    let p = mk_l37();
    ends_with(t, p.as_slice())
}

fn eq_l37(t: &[u8]) -> (r: bool)
    ensures
        r <==> t@ == spec_l37(),
{
    let p = mk_l37();
    bytes_eq(t, p.as_slice())
}

/// `-march=i686`
pub open spec fn spec_l38() -> Seq<u8> {
    seq![45u8, 109u8, 97u8, 114u8, 99u8, 104u8, 61u8, 105u8, 54u8, 56u8, 54u8]
}

fn mk_l38() -> (r: Vec<u8>)
    ensures
        r@ == spec_l38(),
{
    let mut v: Vec<u8> = Vec::new();
    v.push(45);
    v.push(109);
    v.push(97);
    v.push(114);
    v.push(99);
    v.push(104);
    v.push(61);
    v.push(105);
    v.push(54);
    v.push(56);
    v.push(54);
    proof {
        assert(v@ =~= spec_l38());
    }
    v
}

fn has_l38(t: &[u8]) -> (r: bool)
    ensures
        r <==> spec_find(t@, spec_l38()) is Some,
{
    let p = mk_l38();
    find_first(t, p.as_slice()).is_some()
}

fn sw_l38(t: &[u8]) -> (r: bool)
    ensures
        r <==> starts_with_spec(t@, spec_l38()),
{
    let p = mk_l38();
    starts_with(t, p.as_slice())
}

fn ew_l38(t: &[u8]) -> (r: bool)
    ensures
        r <==> ends_with_spec(t@, spec_l38()),
{
    let p = mk_l38();
    ends_with(t, p.as_slice())
}

fn eq_l38(t: &[u8]) -> (r: bool)
    ensures
        r <==> t@ == spec_l38(),
{
    let p = mk_l38();
    bytes_eq(t, p.as_slice())
}

/// `i686-unknown-linux-musl`
pub open spec fn spec_l39() -> Seq<u8> {
    seq![105u8, 54u8, 56u8, 54u8, 45u8, 117u8, 110u8, 107u8, 110u8, 111u8, 119u8, 110u8, 45u8, 108u8, 105u8, 110u8, 117u8, 120u8, 45u8, 109u8, 117u8, 115u8, 108u8]
}

fn mk_l39() -> (r: Vec<u8>)
    ensures
        r@ == spec_l39(),
{
    let mut v: Vec<u8> = Vec::new();
    v.push(105);
    v.push(54);
    v.push(56);
    v.push(54);
    v.push(45);
    v.push(117);
    v.push(110);
    v.push(107);
    v.push(110);
    v.push(111);
    v.push(119);
    v.push(110);
    v.push(45);
    v.push(108);
    v.push(105);
    v.push(110);
    v.push(117);
    v.push(120);
    v.push(45);
    v.push(109);
    v.push(117);
    v.push(115);
    v.push(108);
    proof {
        assert(v@ =~= spec_l39());
    }
    v
}

fn has_l39(t: &[u8]) -> (r: bool)
    ensures
        r <==> spec_find(t@, spec_l39()) is Some,
{
    let p = mk_l39();
    find_first(t, p.as_slice()).is_some()
}

fn sw_l39(t: &[u8]) -> (r: bool)
    ensures
        r <==> starts_with_spec(t@, spec_l39()),
{
    let p = mk_l39();
    starts_with(t, p.as_slice())
}

fn ew_l39(t: &[u8]) -> (r: bool)
    ensures
        r <==> ends_with_spec(t@, spec_l39()),
{
    let p = mk_l39();
    ends_with(t, p.as_slice())
}

fn eq_l39(t: &[u8]) -> (r: bool)
    ensures
        r <==> t@ == spec_l39(),
{
    let p = mk_l39();
    bytes_eq(t, p.as_slice())
}

/// `i586-unknown-linux-musl`
pub open spec fn spec_l40() -> Seq<u8> {
    seq![105u8, 53u8, 56u8, 54u8, 45u8, 117u8, 110u8, 107u8, 110u8, 111u8, 119u8, 110u8, 45u8, 108u8, 105u8, 110u8, 117u8, 120u8, 45u8, 109u8, 117u8, 115u8, 108u8]
}

fn mk_l40() -> (r: Vec<u8>)
    ensures
        r@ == spec_l40(),
{
    let mut v: Vec<u8> = Vec::new();
    v.push(105);
    v.push(53);
    v.push(56);
    v.push(54);
    v.push(45);
    v.push(117);
    v.push(110);
    v.push(107);
    v.push(110);
    v.push(111);
    v.push(119);
    v.push(110);
    v.push(45);
    v.push(108);
    v.push(105);
    v.push(110);
    v.push(117);
    v.push(120);
    v.push(45);
    v.push(109);
    v.push(117);
    v.push(115);
    v.push(108);
    proof {
        assert(v@ =~= spec_l40());
    }
    v
}

fn has_l40(t: &[u8]) -> (r: bool)
    ensures
        r <==> spec_find(t@, spec_l40()) is Some,
{
    let p = mk_l40();
    find_first(t, p.as_slice()).is_some()
}

fn sw_l40(t: &[u8]) -> (r: bool)
    ensures
        r <==> starts_with_spec(t@, spec_l40()),
{
    let p = mk_l40();
    starts_with(t, p.as_slice())
}

fn ew_l40(t: &[u8]) -> (r: bool)
    ensures
        r <==> ends_with_spec(t@, spec_l40()),
{
    let p = mk_l40();
    ends_with(t, p.as_slice())
}

fn eq_l40(t: &[u8]) -> (r: bool)
    ensures
        r <==> t@ == spec_l40(),
{
    let p = mk_l40();
    bytes_eq(t, p.as_slice())
}

/// `-Wl,-melf_i386`
pub open spec fn spec_l41() -> Seq<u8> {
    seq![45u8, 87u8, 108u8, 44u8, 45u8, 109u8, 101u8, 108u8, 102u8, 95u8, 105u8, 51u8, 56u8, 54u8]
}

fn mk_l41() -> (r: Vec<u8>)
    ensures
        r@ == spec_l41(),
{
    let mut v: Vec<u8> = Vec::new();
    v.push(45);
    v.push(87);
    v.push(108);
    v.push(44);
    v.push(45);
    v.push(109);
    v.push(101);
    v.push(108);
    v.push(102);
    v.push(95);
    v.push(105);
    v.push(51);
    v.push(56);
    v.push(54);
    proof {
        assert(v@ =~= spec_l41());
    }
    v
}

fn has_l41(t: &[u8]) -> (r: bool)
    ensures
        r <==> spec_find(t@, spec_l41()) is Some,
{
    let p = mk_l41();
    find_first(t, p.as_slice()).is_some()
}

fn sw_l41(t: &[u8]) -> (r: bool)
    ensures
        r <==> starts_with_spec(t@, spec_l41()),
{
    let p = mk_l41();
    starts_with(t, p.as_slice())
}

fn ew_l41(t: &[u8]) -> (r: bool)
    ensures
        r <==> ends_with_spec(t@, spec_l41()),
{
    let p = mk_l41();
    ends_with(t, p.as_slice())
}

fn eq_l41(t: &[u8]) -> (r: bool)
    ensures
        r <==> t@ == spec_l41(),
{
    let p = mk_l41();
    bytes_eq(t, p.as_slice())
}

/// `thumb`
pub open spec fn spec_l42() -> Seq<u8> {
    seq![116u8, 104u8, 117u8, 109u8, 98u8]
}

fn mk_l42() -> (r: Vec<u8>)
    ensures
        r@ == spec_l42(),
{
    let mut v: Vec<u8> = Vec::new();
    v.push(116);
    v.push(104);
    v.push(117);
    v.push(109);
    v.push(98);
    proof {
        assert(v@ =~= spec_l42());
    }
    v
}

fn has_l42(t: &[u8]) -> (r: bool)
    ensures
        r <==> spec_find(t@, spec_l42()) is Some,
{
    let p = mk_l42();
    find_first(t, p.as_slice()).is_some()
}

fn sw_l42(t: &[u8]) -> (r: bool)
    ensures
        r <==> starts_with_spec(t@, spec_l42()),
{
    let p = mk_l42();
    starts_with(t, p.as_slice())
}

fn ew_l42(t: &[u8]) -> (r: bool)
    ensures
        r <==> ends_with_spec(t@, spec_l42()),
{
    let p = mk_l42();
    ends_with(t, p.as_slice())
}

fn eq_l42(t: &[u8]) -> (r: bool)
    ensures
        r <==> t@ == spec_l42(),
{
    let p = mk_l42();
    bytes_eq(t, p.as_slice())
}

/// `thumbv7em`
pub open spec fn spec_l43() -> Seq<u8> {
    seq![116u8, 104u8, 117u8, 109u8, 98u8, 118u8, 55u8, 101u8, 109u8]
}

fn mk_l43() -> (r: Vec<u8>)
    ensures
        r@ == spec_l43(),
{
    let mut v: Vec<u8> = Vec::new();
    v.push(116);
    v.push(104);
    v.push(117);
    v.push(109);
    v.push(98);
    v.push(118);
    v.push(55);
    v.push(101);
    v.push(109);
    proof {
        assert(v@ =~= spec_l43());
    }
    v
}

fn has_l43(t: &[u8]) -> (r: bool)
    ensures
        r <==> spec_find(t@, spec_l43()) is Some,
{
    let p = mk_l43();
    find_first(t, p.as_slice()).is_some()
}

fn sw_l43(t: &[u8]) -> (r: bool)
    ensures
        r <==> starts_with_spec(t@, spec_l43()),
{
    let p = mk_l43();
    starts_with(t, p.as_slice())
}

fn ew_l43(t: &[u8]) -> (r: bool)
    ensures
        r <==> ends_with_spec(t@, spec_l43()),
{
    let p = mk_l43();
    ends_with(t, p.as_slice())
}

fn eq_l43(t: &[u8]) -> (r: bool)
    ensures
        r <==> t@ == spec_l43(),
{
    let p = mk_l43();
    bytes_eq(t, p.as_slice())
}

/// `thumbv8m.main`
pub open spec fn spec_l44() -> Seq<u8> {
    seq![116u8, 104u8, 117u8, 109u8, 98u8, 118u8, 56u8, 109u8, 46u8, 109u8, 97u8, 105u8, 110u8]
}

fn mk_l44() -> (r: Vec<u8>)
    ensures
        r@ == spec_l44(),
{
    let mut v: Vec<u8> = Vec::new();
    v.push(116);
    v.push(104);
    v.push(117);
    v.push(109);
    v.push(98);
    v.push(118);
    v.push(56);
    v.push(109);
    v.push(46);
    v.push(109);
    v.push(97);
    v.push(105);
    v.push(110);
    proof {
        assert(v@ =~= spec_l44());
    }
    v
}

fn has_l44(t: &[u8]) -> (r: bool)
    ensures
        r <==> spec_find(t@, spec_l44()) is Some,
{
    let p = mk_l44();
    find_first(t, p.as_slice()).is_some()
}

fn sw_l44(t: &[u8]) -> (r: bool)
    ensures
        r <==> starts_with_spec(t@, spec_l44()),
{
    let p = mk_l44();
    starts_with(t, p.as_slice())
}

fn ew_l44(t: &[u8]) -> (r: bool)
    ensures
        r <==> ends_with_spec(t@, spec_l44()),
{
    let p = mk_l44();
    ends_with(t, p.as_slice())
}

fn eq_l44(t: &[u8]) -> (r: bool)
    ensures
        r <==> t@ == spec_l44(),
{
    let p = mk_l44();
    bytes_eq(t, p.as_slice())
}

/// `-mfloat-abi=hard`
pub open spec fn spec_l45() -> Seq<u8> {
    seq![45u8, 109u8, 102u8, 108u8, 111u8, 97u8, 116u8, 45u8, 97u8, 98u8, 105u8, 61u8, 104u8, 97u8, 114u8, 100u8]
}

fn mk_l45() -> (r: Vec<u8>)
    ensures
        r@ == spec_l45(),
{
    let mut v: Vec<u8> = Vec::new();
    v.push(45);
    v.push(109);
    v.push(102);
    v.push(108);
    v.push(111);
    v.push(97);
    v.push(116);
    v.push(45);
    v.push(97);
    v.push(98);
    v.push(105);
    v.push(61);
    v.push(104);
    v.push(97);
    v.push(114);
    v.push(100);
    proof {
        assert(v@ =~= spec_l45());
    }
    v
}

fn has_l45(t: &[u8]) -> (r: bool)
    ensures
        r <==> spec_find(t@, spec_l45()) is Some,
{
    let p = mk_l45();
    find_first(t, p.as_slice()).is_some()
}

fn sw_l45(t: &[u8]) -> (r: bool)
    ensures
        r <==> starts_with_spec(t@, spec_l45()),
{
    let p = mk_l45();
    starts_with(t, p.as_slice())
}

fn ew_l45(t: &[u8]) -> (r: bool)
    ensures
        r <==> ends_with_spec(t@, spec_l45()),
{
    let p = mk_l45();
    ends_with(t, p.as_slice())
}

fn eq_l45(t: &[u8]) -> (r: bool)
    ensures
        r <==> t@ == spec_l45(),
{
    let p = mk_l45();
    bytes_eq(t, p.as_slice())
}

/// `thumbv6m`
pub open spec fn spec_l46() -> Seq<u8> {
    seq![116u8, 104u8, 117u8, 109u8, 98u8, 118u8, 54u8, 109u8]
}

fn mk_l46() -> (r: Vec<u8>)
    ensures
        r@ == spec_l46(),
{
    let mut v: Vec<u8> = Vec::new();
    v.push(116);
    v.push(104);
    v.push(117);
    v.push(109);
    v.push(98);
    v.push(118);
    v.push(54);
    v.push(109);
    proof {
        assert(v@ =~= spec_l46());
    }
    v
}

fn has_l46(t: &[u8]) -> (r: bool)
    ensures
        r <==> spec_find(t@, spec_l46()) is Some,
{
    let p = mk_l46();
    find_first(t, p.as_slice()).is_some()
}

fn sw_l46(t: &[u8]) -> (r: bool)
    ensures
        r <==> starts_with_spec(t@, spec_l46()),
{
    let p = mk_l46();
    starts_with(t, p.as_slice())
}

fn ew_l46(t: &[u8]) -> (r: bool)
    ensures
        r <==> ends_with_spec(t@, spec_l46()),
{
    let p = mk_l46();
    ends_with(t, p.as_slice())
}

fn eq_l46(t: &[u8]) -> (r: bool)
    ensures
        r <==> t@ == spec_l46(),
{
    let p = mk_l46();
    bytes_eq(t, p.as_slice())
}

/// `-march=armv6s-m`
pub open spec fn spec_l47() -> Seq<u8> {
    seq![45u8, 109u8, 97u8, 114u8, 99u8, 104u8, 61u8, 97u8, 114u8, 109u8, 118u8, 54u8, 115u8, 45u8, 109u8]
}

fn mk_l47() -> (r: Vec<u8>)
    ensures
        r@ == spec_l47(),
{
    let mut v: Vec<u8> = Vec::new();
    v.push(45);
    v.push(109);
    v.push(97);
    v.push(114);
    v.push(99);
    v.push(104);
    v.push(61);
    v.push(97);
    v.push(114);
    v.push(109);
    v.push(118);
    v.push(54);
    v.push(115);
    v.push(45);
    v.push(109);
    proof {
        assert(v@ =~= spec_l47());
    }
    v
}

fn has_l47(t: &[u8]) -> (r: bool)
    ensures
        r <==> spec_find(t@, spec_l47()) is Some,
{
    let p = mk_l47();
    find_first(t, p.as_slice()).is_some()
}

fn sw_l47(t: &[u8]) -> (r: bool)
    ensures
        r <==> starts_with_spec(t@, spec_l47()),
{
    let p = mk_l47();
    starts_with(t, p.as_slice())
}

fn ew_l47(t: &[u8]) -> (r: bool)
    ensures
        r <==> ends_with_spec(t@, spec_l47()),
{
    let p = mk_l47();
    ends_with(t, p.as_slice())
}

fn eq_l47(t: &[u8]) -> (r: bool)
    ensures
        r <==> t@ == spec_l47(),
{
    let p = mk_l47();
    bytes_eq(t, p.as_slice())
}

/// `-march=armv7e-m`
pub open spec fn spec_l48() -> Seq<u8> {
    seq![45u8, 109u8, 97u8, 114u8, 99u8, 104u8, 61u8, 97u8, 114u8, 109u8, 118u8, 55u8, 101u8, 45u8, 109u8]
}

fn mk_l48() -> (r: Vec<u8>)
    ensures
        r@ == spec_l48(),
{
    let mut v: Vec<u8> = Vec::new();
    v.push(45);
    v.push(109);
    v.push(97);
    v.push(114);
    v.push(99);
    v.push(104);
    v.push(61);
    v.push(97);
    v.push(114);
    v.push(109);
    v.push(118);
    v.push(55);
    v.push(101);
    v.push(45);
    v.push(109);
    proof {
        assert(v@ =~= spec_l48());
    }
    v
}

fn has_l48(t: &[u8]) -> (r: bool)
    ensures
        r <==> spec_find(t@, spec_l48()) is Some,
{
    let p = mk_l48();
    find_first(t, p.as_slice()).is_some()
}

fn sw_l48(t: &[u8]) -> (r: bool)
    ensures
        r <==> starts_with_spec(t@, spec_l48()),
{
    let p = mk_l48();
    starts_with(t, p.as_slice())
}

fn ew_l48(t: &[u8]) -> (r: bool)
    ensures
        r <==> ends_with_spec(t@, spec_l48()),
{
    let p = mk_l48();
    ends_with(t, p.as_slice())
}

fn eq_l48(t: &[u8]) -> (r: bool)
    ensures
        r <==> t@ == spec_l48(),
{
    let p = mk_l48();
    bytes_eq(t, p.as_slice())
}

/// `-mfpu=fpv4-sp-d16`
pub open spec fn spec_l49() -> Seq<u8> {
    seq![45u8, 109u8, 102u8, 112u8, 117u8, 61u8, 102u8, 112u8, 118u8, 52u8, 45u8, 115u8, 112u8, 45u8, 100u8, 49u8, 54u8]
}

fn mk_l49() -> (r: Vec<u8>)
    ensures
        r@ == spec_l49(),
{
    let mut v: Vec<u8> = Vec::new();
    v.push(45);
    v.push(109);
    v.push(102);
    v.push(112);
    v.push(117);
    v.push(61);
    v.push(102);
    v.push(112);
    v.push(118);
    v.push(52);
    v.push(45);
    v.push(115);
    v.push(112);
    v.push(45);
    v.push(100);
    v.push(49);
    v.push(54);
    proof {
        assert(v@ =~= spec_l49());
    }
    v
}

fn has_l49(t: &[u8]) -> (r: bool)
    ensures
        r <==> spec_find(t@, spec_l49()) is Some,
{
    let p = mk_l49();
    find_first(t, p.as_slice()).is_some()
}

fn sw_l49(t: &[u8]) -> (r: bool)
    ensures
        r <==> starts_with_spec(t@, spec_l49()),
{
    let p = mk_l49();
    starts_with(t, p.as_slice())
}

fn ew_l49(t: &[u8]) -> (r: bool)
    ensures
        r <==> ends_with_spec(t@, spec_l49()),
{
    let p = mk_l49();
    ends_with(t, p.as_slice())
}

fn eq_l49(t: &[u8]) -> (r: bool)
    ensures
        r <==> t@ == spec_l49(),
{
    let p = mk_l49();
    bytes_eq(t, p.as_slice())
}

/// `thumbv7m`
pub open spec fn spec_l50() -> Seq<u8> {
    seq![116u8, 104u8, 117u8, 109u8, 98u8, 118u8, 55u8, 109u8]
}

fn mk_l50() -> (r: Vec<u8>)
    ensures
        r@ == spec_l50(),
{
    let mut v: Vec<u8> = Vec::new();
    v.push(116);
    v.push(104);
    v.push(117);
    v.push(109);
    v.push(98);
    v.push(118);
    v.push(55);
    v.push(109);
    proof {
        assert(v@ =~= spec_l50());
    }
    v
}

fn has_l50(t: &[u8]) -> (r: bool)
    ensures
        r <==> spec_find(t@, spec_l50()) is Some,
{
    let p = mk_l50();
    find_first(t, p.as_slice()).is_some()
}

fn sw_l50(t: &[u8]) -> (r: bool)
    ensures
        r <==> starts_with_spec(t@, spec_l50()),
{
    let p = mk_l50();
    starts_with(t, p.as_slice())
}

fn ew_l50(t: &[u8]) -> (r: bool)
    ensures
        r <==> ends_with_spec(t@, spec_l50()),
{
    let p = mk_l50();
    ends_with(t, p.as_slice())
}

fn eq_l50(t: &[u8]) -> (r: bool)
    ensures
        r <==> t@ == spec_l50(),
{
    let p = mk_l50();
    bytes_eq(t, p.as_slice())
}

/// `-march=armv7-m`
pub open spec fn spec_l51() -> Seq<u8> {
    seq![45u8, 109u8, 97u8, 114u8, 99u8, 104u8, 61u8, 97u8, 114u8, 109u8, 118u8, 55u8, 45u8, 109u8]
}

fn mk_l51() -> (r: Vec<u8>)
    ensures
        r@ == spec_l51(),
{
    let mut v: Vec<u8> = Vec::new();
    v.push(45);
    v.push(109);
    v.push(97);
    v.push(114);
    v.push(99);
    v.push(104);
    v.push(61);
    v.push(97);
    v.push(114);
    v.push(109);
    v.push(118);
    v.push(55);
    v.push(45);
    v.push(109);
    proof {
        assert(v@ =~= spec_l51());
    }
    v
}

fn has_l51(t: &[u8]) -> (r: bool)
    ensures
        r <==> spec_find(t@, spec_l51()) is Some,
{
    let p = mk_l51();
    find_first(t, p.as_slice()).is_some()
}

fn sw_l51(t: &[u8]) -> (r: bool)
    ensures
        r <==> starts_with_spec(t@, spec_l51()),
{
    let p = mk_l51();
    starts_with(t, p.as_slice())
}

fn ew_l51(t: &[u8]) -> (r: bool)
    ensures
        r <==> ends_with_spec(t@, spec_l51()),
{
    let p = mk_l51();
    ends_with(t, p.as_slice())
}

fn eq_l51(t: &[u8]) -> (r: bool)
    ensures
        r <==> t@ == spec_l51(),
{
    let p = mk_l51();
    bytes_eq(t, p.as_slice())
}

/// `thumbv8m.base`
pub open spec fn spec_l52() -> Seq<u8> {
    seq![116u8, 104u8, 117u8, 109u8, 98u8, 118u8, 56u8, 109u8, 46u8, 98u8, 97u8, 115u8, 101u8]
}

fn mk_l52() -> (r: Vec<u8>)
    ensures
        r@ == spec_l52(),
{
    let mut v: Vec<u8> = Vec::new();
    v.push(116);
    v.push(104);
    v.push(117);
    v.push(109);
    v.push(98);
    v.push(118);
    v.push(56);
    v.push(109);
    v.push(46);
    v.push(98);
    v.push(97);
    v.push(115);
    v.push(101);
    proof {
        assert(v@ =~= spec_l52());
    }
    v
}

fn has_l52(t: &[u8]) -> (r: bool)
    ensures
        r <==> spec_find(t@, spec_l52()) is Some,
{
    let p = mk_l52();
    find_first(t, p.as_slice()).is_some()
}

fn sw_l52(t: &[u8]) -> (r: bool)
    ensures
        r <==> starts_with_spec(t@, spec_l52()),
{
    let p = mk_l52();
    starts_with(t, p.as_slice())
}

fn ew_l52(t: &[u8]) -> (r: bool)
    ensures
        r <==> ends_with_spec(t@, spec_l52()),
{
    let p = mk_l52();
    ends_with(t, p.as_slice())
}

fn eq_l52(t: &[u8]) -> (r: bool)
    ensures
        r <==> t@ == spec_l52(),
{
    let p = mk_l52();
    bytes_eq(t, p.as_slice())
}

/// `-march=armv8-m.base`
pub open spec fn spec_l53() -> Seq<u8> {
    seq![45u8, 109u8, 97u8, 114u8, 99u8, 104u8, 61u8, 97u8, 114u8, 109u8, 118u8, 56u8, 45u8, 109u8, 46u8, 98u8, 97u8, 115u8, 101u8]
}

fn mk_l53() -> (r: Vec<u8>)
    ensures
        r@ == spec_l53(),
{
    let mut v: Vec<u8> = Vec::new();
    v.push(45);
    v.push(109);
    v.push(97);
    v.push(114);
    v.push(99);
    v.push(104);
    v.push(61);
    v.push(97);
    v.push(114);
    v.push(109);
    v.push(118);
    v.push(56);
    v.push(45);
    v.push(109);
    v.push(46);
    v.push(98);
    v.push(97);
    v.push(115);
    v.push(101);
    proof {
        assert(v@ =~= spec_l53());
    }
    v
}

fn has_l53(t: &[u8]) -> (r: bool)
    ensures
        r <==> spec_find(t@, spec_l53()) is Some,
{
    let p = mk_l53();
    find_first(t, p.as_slice()).is_some()
}

fn sw_l53(t: &[u8]) -> (r: bool)
    ensures
        r <==> starts_with_spec(t@, spec_l53()),
{
    let p = mk_l53();
    starts_with(t, p.as_slice())
}

fn ew_l53(t: &[u8]) -> (r: bool)
    ensures
        r <==> ends_with_spec(t@, spec_l53()),
{
    let p = mk_l53();
    ends_with(t, p.as_slice())
}

fn eq_l53(t: &[u8]) -> (r: bool)
    ensures
        r <==> t@ == spec_l53(),
{
    let p = mk_l53();
    bytes_eq(t, p.as_slice())
}

/// `-march=armv8-m.main`
pub open spec fn spec_l54() -> Seq<u8> {
    seq![45u8, 109u8, 97u8, 114u8, 99u8, 104u8, 61u8, 97u8, 114u8, 109u8, 118u8, 56u8, 45u8, 109u8, 46u8, 109u8, 97u8, 105u8, 110u8]
}

fn mk_l54() -> (r: Vec<u8>)
    ensures
        r@ == spec_l54(),
{
    let mut v: Vec<u8> = Vec::new();
    v.push(45);
    v.push(109);
    v.push(97);
    v.push(114);
    v.push(99);
    v.push(104);
    v.push(61);
    v.push(97);
    v.push(114);
    v.push(109);
    v.push(118);
    v.push(56);
    v.push(45);
    v.push(109);
    v.push(46);
    v.push(109);
    v.push(97);
    v.push(105);
    v.push(110);
    proof {
        assert(v@ =~= spec_l54());
    }
    v
}

fn has_l54(t: &[u8]) -> (r: bool)
    ensures
        r <==> spec_find(t@, spec_l54()) is Some,
{
    let p = mk_l54();
    find_first(t, p.as_slice()).is_some()
}

fn sw_l54(t: &[u8]) -> (r: bool)
    ensures
        r <==> starts_with_spec(t@, spec_l54()),
{
    let p = mk_l54();
    starts_with(t, p.as_slice())
}

fn ew_l54(t: &[u8]) -> (r: bool)
    ensures
        r <==> ends_with_spec(t@, spec_l54()),
{
    let p = mk_l54();
    ends_with(t, p.as_slice())
}

fn eq_l54(t: &[u8]) -> (r: bool)
    ensures
        r <==> t@ == spec_l54(),
{
    let p = mk_l54();
    bytes_eq(t, p.as_slice())
}

/// `-mfpu=fpv5-sp-d16`
pub open spec fn spec_l55() -> Seq<u8> {
    seq![45u8, 109u8, 102u8, 112u8, 117u8, 61u8, 102u8, 112u8, 118u8, 53u8, 45u8, 115u8, 112u8, 45u8, 100u8, 49u8, 54u8]
}

fn mk_l55() -> (r: Vec<u8>)
    ensures
        r@ == spec_l55(),
{
    let mut v: Vec<u8> = Vec::new();
    v.push(45);
    v.push(109);
    v.push(102);
    v.push(112);
    v.push(117);
    v.push(61);
    v.push(102);
    v.push(112);
    v.push(118);
    v.push(53);
    v.push(45);
    v.push(115);
    v.push(112);
    v.push(45);
    v.push(100);
    v.push(49);
    v.push(54);
    proof {
        assert(v@ =~= spec_l55());
    }
    v
}

fn has_l55(t: &[u8]) -> (r: bool)
    ensures
        r <==> spec_find(t@, spec_l55()) is Some,
{
    let p = mk_l55();
    find_first(t, p.as_slice()).is_some()
}

fn sw_l55(t: &[u8]) -> (r: bool)
    ensures
        r <==> starts_with_spec(t@, spec_l55()),
{
    let p = mk_l55();
    starts_with(t, p.as_slice())
}

fn ew_l55(t: &[u8]) -> (r: bool)
    ensures
        r <==> ends_with_spec(t@, spec_l55()),
{
    let p = mk_l55();
    ends_with(t, p.as_slice())
}

fn eq_l55(t: &[u8]) -> (r: bool)
    ensures
        r <==> t@ == spec_l55(),
{
    let p = mk_l55();
    bytes_eq(t, p.as_slice())
}

/// `armebv7r`
pub open spec fn spec_l56() -> Seq<u8> {
    seq![97u8, 114u8, 109u8, 101u8, 98u8, 118u8, 55u8, 114u8]
}

fn mk_l56() -> (r: Vec<u8>)
    ensures
        r@ == spec_l56(),
{
    let mut v: Vec<u8> = Vec::new();
    v.push(97);
    v.push(114);
    v.push(109);
    v.push(101);
    v.push(98);
    v.push(118);
    v.push(55);
    v.push(114);
    proof {
        assert(v@ =~= spec_l56());
    }
    v
}

fn has_l56(t: &[u8]) -> (r: bool)
    ensures
        r <==> spec_find(t@, spec_l56()) is Some,
{
    let p = mk_l56();
    find_first(t, p.as_slice()).is_some()
}

fn sw_l56(t: &[u8]) -> (r: bool)
    ensures
        r <==> starts_with_spec(t@, spec_l56()),
{
    let p = mk_l56();
    starts_with(t, p.as_slice())
}

fn ew_l56(t: &[u8]) -> (r: bool)
    ensures
        r <==> ends_with_spec(t@, spec_l56()),
{
    let p = mk_l56();
    ends_with(t, p.as_slice())
}

fn eq_l56(t: &[u8]) -> (r: bool)
    ensures
        r <==> t@ == spec_l56(),
{
    let p = mk_l56();
    bytes_eq(t, p.as_slice())
}

/// `armv7r`
pub open spec fn spec_l57() -> Seq<u8> {
    seq![97u8, 114u8, 109u8, 118u8, 55u8, 114u8]
}

fn mk_l57() -> (r: Vec<u8>)
    ensures
        r@ == spec_l57(),
{
    let mut v: Vec<u8> = Vec::new();
    v.push(97);
    v.push(114);
    v.push(109);
    v.push(118);
    v.push(55);
    v.push(114);
    proof {
        assert(v@ =~= spec_l57());
    }
    v
}

fn has_l57(t: &[u8]) -> (r: bool)
    ensures
        r <==> spec_find(t@, spec_l57()) is Some,
{
    let p = mk_l57();
    find_first(t, p.as_slice()).is_some()
}

fn sw_l57(t: &[u8]) -> (r: bool)
    ensures
        r <==> starts_with_spec(t@, spec_l57()),
{
    let p = mk_l57();
    starts_with(t, p.as_slice())
}

fn ew_l57(t: &[u8]) -> (r: bool)
    ensures
        r <==> ends_with_spec(t@, spec_l57()),
{
    let p = mk_l57();
    ends_with(t, p.as_slice())
}

fn eq_l57(t: &[u8]) -> (r: bool)
    ensures
        r <==> t@ == spec_l57(),
{
    let p = mk_l57();
    bytes_eq(t, p.as_slice())
}

/// `armeb`
pub open spec fn spec_l58() -> Seq<u8> {
    seq![97u8, 114u8, 109u8, 101u8, 98u8]
}

fn mk_l58() -> (r: Vec<u8>)
    ensures
        r@ == spec_l58(),
{
    let mut v: Vec<u8> = Vec::new();
    v.push(97);
    v.push(114);
    v.push(109);
    v.push(101);
    v.push(98);
    proof {
        assert(v@ =~= spec_l58());
    }
    v
}

fn has_l58(t: &[u8]) -> (r: bool)
    ensures
        r <==> spec_find(t@, spec_l58()) is Some,
{
    let p = mk_l58();
    find_first(t, p.as_slice()).is_some()
}

fn sw_l58(t: &[u8]) -> (r: bool)
    ensures
        r <==> starts_with_spec(t@, spec_l58()),
{
    let p = mk_l58();
    starts_with(t, p.as_slice())
}

fn ew_l58(t: &[u8]) -> (r: bool)
    ensures
        r <==> ends_with_spec(t@, spec_l58()),
{
    let p = mk_l58();
    ends_with(t, p.as_slice())
}

fn eq_l58(t: &[u8]) -> (r: bool)
    ensures
        r <==> t@ == spec_l58(),
{
    let p = mk_l58();
    bytes_eq(t, p.as_slice())
}

/// `-mbig-endian`
pub open spec fn spec_l59() -> Seq<u8> {
    seq![45u8, 109u8, 98u8, 105u8, 103u8, 45u8, 101u8, 110u8, 100u8, 105u8, 97u8, 110u8]
}

fn mk_l59() -> (r: Vec<u8>)
    ensures
        r@ == spec_l59(),
{
    let mut v: Vec<u8> = Vec::new();
    v.push(45);
    v.push(109);
    v.push(98);
    v.push(105);
    v.push(103);
    v.push(45);
    v.push(101);
    v.push(110);
    v.push(100);
    v.push(105);
    v.push(97);
    v.push(110);
    proof {
        assert(v@ =~= spec_l59());
    }
    v
}

fn has_l59(t: &[u8]) -> (r: bool)
    ensures
        r <==> spec_find(t@, spec_l59()) is Some,
{
    let p = mk_l59();
    find_first(t, p.as_slice()).is_some()
}

fn sw_l59(t: &[u8]) -> (r: bool)
    ensures
        r <==> starts_with_spec(t@, spec_l59()),
{
    let p = mk_l59();
    starts_with(t, p.as_slice())
}

fn ew_l59(t: &[u8]) -> (r: bool)
    ensures
        r <==> ends_with_spec(t@, spec_l59()),
{
    let p = mk_l59();
    ends_with(t, p.as_slice())
}

fn eq_l59(t: &[u8]) -> (r: bool)
    ensures
        r <==> t@ == spec_l59(),
{
    let p = mk_l59();
    bytes_eq(t, p.as_slice())
}

/// `-mlittle-endian`
pub open spec fn spec_l60() -> Seq<u8> {
    seq![45u8, 109u8, 108u8, 105u8, 116u8, 116u8, 108u8, 101u8, 45u8, 101u8, 110u8, 100u8, 105u8, 97u8, 110u8]
}

fn mk_l60() -> (r: Vec<u8>)
    ensures
        r@ == spec_l60(),
{
    let mut v: Vec<u8> = Vec::new();
    v.push(45);
    v.push(109);
    v.push(108);
    v.push(105);
    v.push(116);
    v.push(116);
    v.push(108);
    v.push(101);
    v.push(45);
    v.push(101);
    v.push(110);
    v.push(100);
    v.push(105);
    v.push(97);
    v.push(110);
    proof {
        assert(v@ =~= spec_l60());
    }
    v
}

fn has_l60(t: &[u8]) -> (r: bool)
    ensures
        r <==> spec_find(t@, spec_l60()) is Some,
{
    let p = mk_l60();
    find_first(t, p.as_slice()).is_some()
}

fn sw_l60(t: &[u8]) -> (r: bool)
    ensures
        r <==> starts_with_spec(t@, spec_l60()),
{
    let p = mk_l60();
    starts_with(t, p.as_slice())
}

fn ew_l60(t: &[u8]) -> (r: bool)
    ensures
        r <==> ends_with_spec(t@, spec_l60()),
{
    let p = mk_l60();
    ends_with(t, p.as_slice())
}

fn eq_l60(t: &[u8]) -> (r: bool)
    ensures
        r <==> t@ == spec_l60(),
{
    let p = mk_l60();
    bytes_eq(t, p.as_slice())
}

/// `-march=armv7-r`
pub open spec fn spec_l61() -> Seq<u8> {
    seq![45u8, 109u8, 97u8, 114u8, 99u8, 104u8, 61u8, 97u8, 114u8, 109u8, 118u8, 55u8, 45u8, 114u8]
}

fn mk_l61() -> (r: Vec<u8>)
    ensures
        r@ == spec_l61(),
{
    let mut v: Vec<u8> = Vec::new();
    v.push(45);
    v.push(109);
    v.push(97);
    v.push(114);
    v.push(99);
    v.push(104);
    v.push(61);
    v.push(97);
    v.push(114);
    v.push(109);
    v.push(118);
    v.push(55);
    v.push(45);
    v.push(114);
    proof {
        assert(v@ =~= spec_l61());
    }
    v
}

fn has_l61(t: &[u8]) -> (r: bool)
    ensures
        r <==> spec_find(t@, spec_l61()) is Some,
{
    let p = mk_l61();
    find_first(t, p.as_slice()).is_some()
}

fn sw_l61(t: &[u8]) -> (r: bool)
    ensures
        r <==> starts_with_spec(t@, spec_l61()),
{
    let p = mk_l61();
    starts_with(t, p.as_slice())
}

fn ew_l61(t: &[u8]) -> (r: bool)
    ensures
        r <==> ends_with_spec(t@, spec_l61()),
{
    let p = mk_l61();
    ends_with(t, p.as_slice())
}

fn eq_l61(t: &[u8]) -> (r: bool)
    ensures
        r <==> t@ == spec_l61(),
{
    let p = mk_l61();
    bytes_eq(t, p.as_slice())
}

/// `armv7a`
pub open spec fn spec_l62() -> Seq<u8> {
    seq![97u8, 114u8, 109u8, 118u8, 55u8, 97u8]
}

fn mk_l62() -> (r: Vec<u8>)
    ensures
        r@ == spec_l62(),
{
    let mut v: Vec<u8> = Vec::new();
    v.push(97);
    v.push(114);
    v.push(109);
    v.push(118);
    v.push(55);
    v.push(97);
    proof {
        assert(v@ =~= spec_l62());
    }
    v
}

fn has_l62(t: &[u8]) -> (r: bool)
    ensures
        r <==> spec_find(t@, spec_l62()) is Some,
{
    let p = mk_l62();
    find_first(t, p.as_slice()).is_some()
}

fn sw_l62(t: &[u8]) -> (r: bool)
    ensures
        r <==> starts_with_spec(t@, spec_l62()),
{
    let p = mk_l62();
    starts_with(t, p.as_slice())
}

fn ew_l62(t: &[u8]) -> (r: bool)
    ensures
        r <==> ends_with_spec(t@, spec_l62()),
{
    let p = mk_l62();
    ends_with(t, p.as_slice())
}

fn eq_l62(t: &[u8]) -> (r: bool)
    ensures
        r <==> t@ == spec_l62(),
{
    let p = mk_l62();
    bytes_eq(t, p.as_slice())
}

/// One slice of the GCC table.
pub open spec fn spec_gcc_rules_part0(t: Seq<u8>) -> Seq<Seq<u8>> {
    Seq::<Seq<u8>>::empty()
        + (if (spec_find(t, spec_l0()) is Some || spec_find(t, spec_l1()) is Some) { seq![spec_l2()] } else { Seq::<Seq<u8>>::empty() })
        + (if t == spec_l3() { seq![spec_l4()] } else { Seq::<Seq<u8>>::empty() })
        + (if (!((spec_find(t, spec_l0()) is Some || spec_find(t, spec_l1()) is Some)) && (!(t == spec_l3()) && (spec_find(t, spec_l5()) is Some || spec_find(t, spec_l6()) is Some))) { seq![spec_l7()] } else { Seq::<Seq<u8>>::empty() })
}

#[verifier::spinoff_prover]
#[verifier::rlimit(100)]
fn gcc_rules_part0(target: &[u8], out: &mut Vec<Vec<u8>>)
    ensures
        final(out)@.map_values(|f: Vec<u8>| f@)
            == old(out)@.map_values(|f: Vec<u8>| f@) + spec_gcc_rules_part0(target@),
{
    let ghost base = out@.map_values(|f: Vec<u8>| f@);
    let ghost mut expect: Seq<Seq<u8>> = Seq::<Seq<u8>>::empty();
    proof {
        assert(out@.map_values(|f: Vec<u8>| f@) =~~= base + expect);
    }
    if (has_l0(target) || has_l1(target)) {
        out.push(mk_l2());
    }
    proof {
        expect = expect + (if (spec_find(target@, spec_l0()) is Some || spec_find(target@, spec_l1()) is Some) { seq![spec_l2()] } else { Seq::<Seq<u8>>::empty() });
        assert(out@.map_values(|f: Vec<u8>| f@) =~~= base + expect);
    }
    if eq_l3(target) {
        out.push(mk_l4());
    }
    proof {
        expect = expect + (if target@ == spec_l3() { seq![spec_l4()] } else { Seq::<Seq<u8>>::empty() });
        assert(out@.map_values(|f: Vec<u8>| f@) =~~= base + expect);
    }
    if (!((has_l0(target) || has_l1(target))) && (!(eq_l3(target)) && (has_l5(target) || has_l6(target)))) {
        out.push(mk_l7());
    }
    proof {
        expect = expect + (if (!((spec_find(target@, spec_l0()) is Some || spec_find(target@, spec_l1()) is Some)) && (!(target@ == spec_l3()) && (spec_find(target@, spec_l5()) is Some || spec_find(target@, spec_l6()) is Some))) { seq![spec_l7()] } else { Seq::<Seq<u8>>::empty() });
        assert(out@.map_values(|f: Vec<u8>| f@) =~~= base + expect);
    }
    proof {
        assert(expect =~~= spec_gcc_rules_part0(target@));
    }
}

/// One slice of the GCC table.
pub open spec fn spec_gcc_rules_part1(t: Seq<u8>) -> Seq<Seq<u8>> {
    Seq::<Seq<u8>>::empty()
        + (if spec_find(t, spec_l8()) is Some { seq![spec_l9()] } else { Seq::<Seq<u8>>::empty() })
        + (if ((starts_with_spec(t, spec_l10()) || starts_with_spec(t, spec_l11())) && (spec_find(t, spec_l12()) is Some || spec_find(t, spec_l8()) is Some)) { seq![spec_l13()] } else { Seq::<Seq<u8>>::empty() })
        + (if (((starts_with_spec(t, spec_l10()) || starts_with_spec(t, spec_l11())) && (spec_find(t, spec_l12()) is Some || spec_find(t, spec_l8()) is Some)) && ends_with_spec(t, spec_l14())) { seq![spec_l15()] } else { Seq::<Seq<u8>>::empty() })
}

#[verifier::spinoff_prover]
#[verifier::rlimit(100)]
fn gcc_rules_part1(target: &[u8], out: &mut Vec<Vec<u8>>)
    ensures
        final(out)@.map_values(|f: Vec<u8>| f@)
            == old(out)@.map_values(|f: Vec<u8>| f@) + spec_gcc_rules_part1(target@),
{
    let ghost base = out@.map_values(|f: Vec<u8>| f@);
    let ghost mut expect: Seq<Seq<u8>> = Seq::<Seq<u8>>::empty();
    proof {
        assert(out@.map_values(|f: Vec<u8>| f@) =~~= base + expect);
    }
    if has_l8(target) {
        out.push(mk_l9());
    }
    proof {
        expect = expect + (if spec_find(target@, spec_l8()) is Some { seq![spec_l9()] } else { Seq::<Seq<u8>>::empty() });
        assert(out@.map_values(|f: Vec<u8>| f@) =~~= base + expect);
    }
    if ((sw_l10(target) || sw_l11(target)) && (has_l12(target) || has_l8(target))) {
        out.push(mk_l13());
    }
    proof {
        expect = expect + (if ((starts_with_spec(target@, spec_l10()) || starts_with_spec(target@, spec_l11())) && (spec_find(target@, spec_l12()) is Some || spec_find(target@, spec_l8()) is Some)) { seq![spec_l13()] } else { Seq::<Seq<u8>>::empty() });
        assert(out@.map_values(|f: Vec<u8>| f@) =~~= base + expect);
    }
    if (((sw_l10(target) || sw_l11(target)) && (has_l12(target) || has_l8(target))) && ew_l14(target)) {
        out.push(mk_l15());
    }
    proof {
        expect = expect + (if (((starts_with_spec(target@, spec_l10()) || starts_with_spec(target@, spec_l11())) && (spec_find(target@, spec_l12()) is Some || spec_find(target@, spec_l8()) is Some)) && ends_with_spec(target@, spec_l14())) { seq![spec_l15()] } else { Seq::<Seq<u8>>::empty() });
        assert(out@.map_values(|f: Vec<u8>| f@) =~~= base + expect);
    }
    proof {
        assert(expect =~~= spec_gcc_rules_part1(target@));
    }
}

/// One slice of the GCC table.
pub open spec fn spec_gcc_rules_part2(t: Seq<u8>) -> Seq<Seq<u8>> {
    Seq::<Seq<u8>>::empty()
        + (if (spec_find(t, spec_l16()) is Some && spec_find(t, spec_l17()) is Some) { seq![spec_l18()] } else { Seq::<Seq<u8>>::empty() })
        + (if ((spec_find(t, spec_l16()) is Some && spec_find(t, spec_l17()) is Some) && !(spec_find(t, spec_l19()) is Some)) { seq![spec_l15()] } else { Seq::<Seq<u8>>::empty() })
        + (if (spec_find(t, spec_l16()) is Some && spec_find(t, spec_l17()) is Some) { seq![spec_l20()] } else { Seq::<Seq<u8>>::empty() })
}

#[verifier::spinoff_prover]
#[verifier::rlimit(100)]
fn gcc_rules_part2(target: &[u8], out: &mut Vec<Vec<u8>>)
    ensures
        final(out)@.map_values(|f: Vec<u8>| f@)
            == old(out)@.map_values(|f: Vec<u8>| f@) + spec_gcc_rules_part2(target@),
{
    let ghost base = out@.map_values(|f: Vec<u8>| f@);
    let ghost mut expect: Seq<Seq<u8>> = Seq::<Seq<u8>>::empty();
    proof {
        assert(out@.map_values(|f: Vec<u8>| f@) =~~= base + expect);
    }
    if (has_l16(target) && has_l17(target)) {
        out.push(mk_l18());
    }
    proof {
        expect = expect + (if (spec_find(target@, spec_l16()) is Some && spec_find(target@, spec_l17()) is Some) { seq![spec_l18()] } else { Seq::<Seq<u8>>::empty() });
        assert(out@.map_values(|f: Vec<u8>| f@) =~~= base + expect);
    }
    if ((has_l16(target) && has_l17(target)) && !(has_l19(target))) {
        out.push(mk_l15());
    }
    proof {
        expect = expect + (if ((spec_find(target@, spec_l16()) is Some && spec_find(target@, spec_l17()) is Some) && !(spec_find(target@, spec_l19()) is Some)) { seq![spec_l15()] } else { Seq::<Seq<u8>>::empty() });
        assert(out@.map_values(|f: Vec<u8>| f@) =~~= base + expect);
    }
    if (has_l16(target) && has_l17(target)) {
        out.push(mk_l20());
    }
    proof {
        expect = expect + (if (spec_find(target@, spec_l16()) is Some && spec_find(target@, spec_l17()) is Some) { seq![spec_l20()] } else { Seq::<Seq<u8>>::empty() });
        assert(out@.map_values(|f: Vec<u8>| f@) =~~= base + expect);
    }
    proof {
        assert(expect =~~= spec_gcc_rules_part2(target@));
    }
}

/// One slice of the GCC table.
pub open spec fn spec_gcc_rules_part3(t: Seq<u8>) -> Seq<Seq<u8>> {
    Seq::<Seq<u8>>::empty()
        + (if spec_find(t, spec_l19()) is Some { seq![spec_l21()] } else { Seq::<Seq<u8>>::empty() })
        + (if starts_with_spec(t, spec_l22()) { seq![spec_l23(), spec_l24(), spec_l25()] } else { Seq::<Seq<u8>>::empty() })
        + (if starts_with_spec(t, spec_l26()) { seq![spec_l27(), spec_l24(), spec_l25()] } else { Seq::<Seq<u8>>::empty() })
}

#[verifier::spinoff_prover]
#[verifier::rlimit(100)]
fn gcc_rules_part3(target: &[u8], out: &mut Vec<Vec<u8>>)
    ensures
        final(out)@.map_values(|f: Vec<u8>| f@)
            == old(out)@.map_values(|f: Vec<u8>| f@) + spec_gcc_rules_part3(target@),
{
    let ghost base = out@.map_values(|f: Vec<u8>| f@);
    let ghost mut expect: Seq<Seq<u8>> = Seq::<Seq<u8>>::empty();
    proof {
        assert(out@.map_values(|f: Vec<u8>| f@) =~~= base + expect);
    }
    if has_l19(target) {
        out.push(mk_l21());
    }
    proof {
        expect = expect + (if spec_find(target@, spec_l19()) is Some { seq![spec_l21()] } else { Seq::<Seq<u8>>::empty() });
        assert(out@.map_values(|f: Vec<u8>| f@) =~~= base + expect);
    }
    if sw_l22(target) {
        out.push(mk_l23());
        out.push(mk_l24());
        out.push(mk_l25());
    }
    proof {
        expect = expect + (if starts_with_spec(target@, spec_l22()) { seq![spec_l23(), spec_l24(), spec_l25()] } else { Seq::<Seq<u8>>::empty() });
        assert(out@.map_values(|f: Vec<u8>| f@) =~~= base + expect);
    }
    if sw_l26(target) {
        out.push(mk_l27());
        out.push(mk_l24());
        out.push(mk_l25());
    }
    proof {
        expect = expect + (if starts_with_spec(target@, spec_l26()) { seq![spec_l27(), spec_l24(), spec_l25()] } else { Seq::<Seq<u8>>::empty() });
        assert(out@.map_values(|f: Vec<u8>| f@) =~~= base + expect);
    }
    proof {
        assert(expect =~~= spec_gcc_rules_part3(target@));
    }
}

/// One slice of the GCC table.
pub open spec fn spec_gcc_rules_part4(t: Seq<u8>) -> Seq<Seq<u8>> {
    Seq::<Seq<u8>>::empty()
        + (if starts_with_spec(t, spec_l28()) { seq![spec_l29(), spec_l24()] } else { Seq::<Seq<u8>>::empty() })
        + (if (starts_with_spec(t, spec_l28()) && ends_with_spec(t, spec_l30())) { seq![spec_l31()] } else { Seq::<Seq<u8>>::empty() })
        + (if (starts_with_spec(t, spec_l28()) && !(ends_with_spec(t, spec_l30()))) { seq![spec_l25()] } else { Seq::<Seq<u8>>::empty() })
}

#[verifier::spinoff_prover]
#[verifier::rlimit(100)]
fn gcc_rules_part4(target: &[u8], out: &mut Vec<Vec<u8>>)
    ensures
        final(out)@.map_values(|f: Vec<u8>| f@)
            == old(out)@.map_values(|f: Vec<u8>| f@) + spec_gcc_rules_part4(target@),
{
    let ghost base = out@.map_values(|f: Vec<u8>| f@);
    let ghost mut expect: Seq<Seq<u8>> = Seq::<Seq<u8>>::empty();
    proof {
        assert(out@.map_values(|f: Vec<u8>| f@) =~~= base + expect);
    }
    if sw_l28(target) {
        out.push(mk_l29());
        out.push(mk_l24());
    }
    proof {
        expect = expect + (if starts_with_spec(target@, spec_l28()) { seq![spec_l29(), spec_l24()] } else { Seq::<Seq<u8>>::empty() });
        assert(out@.map_values(|f: Vec<u8>| f@) =~~= base + expect);
    }
    if (sw_l28(target) && ew_l30(target)) {
        out.push(mk_l31());
    }
    proof {
        expect = expect + (if (starts_with_spec(target@, spec_l28()) && ends_with_spec(target@, spec_l30())) { seq![spec_l31()] } else { Seq::<Seq<u8>>::empty() });
        assert(out@.map_values(|f: Vec<u8>| f@) =~~= base + expect);
    }
    if (sw_l28(target) && !(ew_l30(target))) {
        out.push(mk_l25());
    }
    proof {
        expect = expect + (if (starts_with_spec(target@, spec_l28()) && !(ends_with_spec(target@, spec_l30()))) { seq![spec_l25()] } else { Seq::<Seq<u8>>::empty() });
        assert(out@.map_values(|f: Vec<u8>| f@) =~~= base + expect);
    }
    proof {
        assert(expect =~~= spec_gcc_rules_part4(target@));
    }
}

/// One slice of the GCC table.
pub open spec fn spec_gcc_rules_part5(t: Seq<u8>) -> Seq<Seq<u8>> {
    Seq::<Seq<u8>>::empty()
        + (if starts_with_spec(t, spec_l32()) { seq![spec_l13(), spec_l33(), spec_l34(), spec_l20(), spec_l24()] } else { Seq::<Seq<u8>>::empty() })
        + (if starts_with_spec(t, spec_l35()) { seq![spec_l36()] } else { Seq::<Seq<u8>>::empty() })
        + (if starts_with_spec(t, spec_l37()) { seq![spec_l38()] } else { Seq::<Seq<u8>>::empty() })
}

#[verifier::spinoff_prover]
#[verifier::rlimit(100)]
fn gcc_rules_part5(target: &[u8], out: &mut Vec<Vec<u8>>)
    ensures
        final(out)@.map_values(|f: Vec<u8>| f@)
            == old(out)@.map_values(|f: Vec<u8>| f@) + spec_gcc_rules_part5(target@),
{
    let ghost base = out@.map_values(|f: Vec<u8>| f@);
    let ghost mut expect: Seq<Seq<u8>> = Seq::<Seq<u8>>::empty();
    proof {
        assert(out@.map_values(|f: Vec<u8>| f@) =~~= base + expect);
    }
    if sw_l32(target) {
        out.push(mk_l13());
        out.push(mk_l33());
        out.push(mk_l34());
        out.push(mk_l20());
        out.push(mk_l24());
    }
    proof {
        expect = expect + (if starts_with_spec(target@, spec_l32()) { seq![spec_l13(), spec_l33(), spec_l34(), spec_l20(), spec_l24()] } else { Seq::<Seq<u8>>::empty() });
        assert(out@.map_values(|f: Vec<u8>| f@) =~~= base + expect);
    }
    if sw_l35(target) {
        out.push(mk_l36());
    }
    proof {
        expect = expect + (if starts_with_spec(target@, spec_l35()) { seq![spec_l36()] } else { Seq::<Seq<u8>>::empty() });
        assert(out@.map_values(|f: Vec<u8>| f@) =~~= base + expect);
    }
    if sw_l37(target) {
        out.push(mk_l38());
    }
    proof {
        expect = expect + (if starts_with_spec(target@, spec_l37()) { seq![spec_l38()] } else { Seq::<Seq<u8>>::empty() });
        assert(out@.map_values(|f: Vec<u8>| f@) =~~= base + expect);
    }
    proof {
        assert(expect =~~= spec_gcc_rules_part5(target@));
    }
}

/// One slice of the GCC table.
pub open spec fn spec_gcc_rules_part6(t: Seq<u8>) -> Seq<Seq<u8>> {
    Seq::<Seq<u8>>::empty()
        + (if (t == spec_l39() || t == spec_l40()) { seq![spec_l41()] } else { Seq::<Seq<u8>>::empty() })
        + (if starts_with_spec(t, spec_l42()) { seq![spec_l18()] } else { Seq::<Seq<u8>>::empty() })
        + (if (starts_with_spec(t, spec_l42()) && ends_with_spec(t, spec_l14())) { seq![spec_l45()] } else { Seq::<Seq<u8>>::empty() })
}

#[verifier::spinoff_prover]
#[verifier::rlimit(100)]
fn gcc_rules_part6(target: &[u8], out: &mut Vec<Vec<u8>>)
    ensures
        final(out)@.map_values(|f: Vec<u8>| f@)
            == old(out)@.map_values(|f: Vec<u8>| f@) + spec_gcc_rules_part6(target@),
{
    let ghost base = out@.map_values(|f: Vec<u8>| f@);
    let ghost mut expect: Seq<Seq<u8>> = Seq::<Seq<u8>>::empty();
    proof {
        assert(out@.map_values(|f: Vec<u8>| f@) =~~= base + expect);
    }
    if (eq_l39(target) || eq_l40(target)) {
        out.push(mk_l41());
    }
    proof {
        expect = expect + (if (target@ == spec_l39() || target@ == spec_l40()) { seq![spec_l41()] } else { Seq::<Seq<u8>>::empty() });
        assert(out@.map_values(|f: Vec<u8>| f@) =~~= base + expect);
    }
    if sw_l42(target) {
        out.push(mk_l18());
    }
    proof {
        expect = expect + (if starts_with_spec(target@, spec_l42()) { seq![spec_l18()] } else { Seq::<Seq<u8>>::empty() });
        assert(out@.map_values(|f: Vec<u8>| f@) =~~= base + expect);
    }
    if (sw_l42(target) && ew_l14(target)) {
        out.push(mk_l45());
    }
    proof {
        expect = expect + (if (starts_with_spec(target@, spec_l42()) && ends_with_spec(target@, spec_l14())) { seq![spec_l45()] } else { Seq::<Seq<u8>>::empty() });
        assert(out@.map_values(|f: Vec<u8>| f@) =~~= base + expect);
    }
    proof {
        assert(expect =~~= spec_gcc_rules_part6(target@));
    }
}

/// One slice of the GCC table.
pub open spec fn spec_gcc_rules_part7(t: Seq<u8>) -> Seq<Seq<u8>> {
    Seq::<Seq<u8>>::empty()
        + (if starts_with_spec(t, spec_l46()) { seq![spec_l47()] } else { Seq::<Seq<u8>>::empty() })
        + (if starts_with_spec(t, spec_l43()) { seq![spec_l48()] } else { Seq::<Seq<u8>>::empty() })
        + (if (starts_with_spec(t, spec_l43()) && ends_with_spec(t, spec_l14())) { seq![spec_l49()] } else { Seq::<Seq<u8>>::empty() })
}

#[verifier::spinoff_prover]
#[verifier::rlimit(100)]
fn gcc_rules_part7(target: &[u8], out: &mut Vec<Vec<u8>>)
    ensures
        final(out)@.map_values(|f: Vec<u8>| f@)
            == old(out)@.map_values(|f: Vec<u8>| f@) + spec_gcc_rules_part7(target@),
{
    let ghost base = out@.map_values(|f: Vec<u8>| f@);
    let ghost mut expect: Seq<Seq<u8>> = Seq::<Seq<u8>>::empty();
    proof {
        assert(out@.map_values(|f: Vec<u8>| f@) =~~= base + expect);
    }
    if sw_l46(target) {
        out.push(mk_l47());
    }
    proof {
        expect = expect + (if starts_with_spec(target@, spec_l46()) { seq![spec_l47()] } else { Seq::<Seq<u8>>::empty() });
        assert(out@.map_values(|f: Vec<u8>| f@) =~~= base + expect);
    }
    if sw_l43(target) {
        out.push(mk_l48());
    }
    proof {
        expect = expect + (if starts_with_spec(target@, spec_l43()) { seq![spec_l48()] } else { Seq::<Seq<u8>>::empty() });
        assert(out@.map_values(|f: Vec<u8>| f@) =~~= base + expect);
    }
    if (sw_l43(target) && ew_l14(target)) {
        out.push(mk_l49());
    }
    proof {
        expect = expect + (if (starts_with_spec(target@, spec_l43()) && ends_with_spec(target@, spec_l14())) { seq![spec_l49()] } else { Seq::<Seq<u8>>::empty() });
        assert(out@.map_values(|f: Vec<u8>| f@) =~~= base + expect);
    }
    proof {
        assert(expect =~~= spec_gcc_rules_part7(target@));
    }
}

/// One slice of the GCC table.
pub open spec fn spec_gcc_rules_part8(t: Seq<u8>) -> Seq<Seq<u8>> {
    Seq::<Seq<u8>>::empty()
        + (if starts_with_spec(t, spec_l50()) { seq![spec_l51()] } else { Seq::<Seq<u8>>::empty() })
        + (if starts_with_spec(t, spec_l52()) { seq![spec_l53()] } else { Seq::<Seq<u8>>::empty() })
        + (if starts_with_spec(t, spec_l44()) { seq![spec_l54()] } else { Seq::<Seq<u8>>::empty() })
}

#[verifier::spinoff_prover]
#[verifier::rlimit(100)]
fn gcc_rules_part8(target: &[u8], out: &mut Vec<Vec<u8>>)
    ensures
        final(out)@.map_values(|f: Vec<u8>| f@)
            == old(out)@.map_values(|f: Vec<u8>| f@) + spec_gcc_rules_part8(target@),
{
    let ghost base = out@.map_values(|f: Vec<u8>| f@);
    let ghost mut expect: Seq<Seq<u8>> = Seq::<Seq<u8>>::empty();
    proof {
        assert(out@.map_values(|f: Vec<u8>| f@) =~~= base + expect);
    }
    if sw_l50(target) {
        out.push(mk_l51());
    }
    proof {
        expect = expect + (if starts_with_spec(target@, spec_l50()) { seq![spec_l51()] } else { Seq::<Seq<u8>>::empty() });
        assert(out@.map_values(|f: Vec<u8>| f@) =~~= base + expect);
    }
    if sw_l52(target) {
        out.push(mk_l53());
    }
    proof {
        expect = expect + (if starts_with_spec(target@, spec_l52()) { seq![spec_l53()] } else { Seq::<Seq<u8>>::empty() });
        assert(out@.map_values(|f: Vec<u8>| f@) =~~= base + expect);
    }
    if sw_l44(target) {
        out.push(mk_l54());
    }
    proof {
        expect = expect + (if starts_with_spec(target@, spec_l44()) { seq![spec_l54()] } else { Seq::<Seq<u8>>::empty() });
        assert(out@.map_values(|f: Vec<u8>| f@) =~~= base + expect);
    }
    proof {
        assert(expect =~~= spec_gcc_rules_part8(target@));
    }
}

/// One slice of the GCC table.
pub open spec fn spec_gcc_rules_part9(t: Seq<u8>) -> Seq<Seq<u8>> {
    Seq::<Seq<u8>>::empty()
        + (if (starts_with_spec(t, spec_l44()) && ends_with_spec(t, spec_l14())) { seq![spec_l55()] } else { Seq::<Seq<u8>>::empty() })
        + (if ((starts_with_spec(t, spec_l56()) || starts_with_spec(t, spec_l57())) && starts_with_spec(t, spec_l58())) { seq![spec_l59()] } else { Seq::<Seq<u8>>::empty() })
        + (if ((starts_with_spec(t, spec_l56()) || starts_with_spec(t, spec_l57())) && !(starts_with_spec(t, spec_l58()))) { seq![spec_l60()] } else { Seq::<Seq<u8>>::empty() })
}

#[verifier::spinoff_prover]
#[verifier::rlimit(100)]
fn gcc_rules_part9(target: &[u8], out: &mut Vec<Vec<u8>>)
    ensures
        final(out)@.map_values(|f: Vec<u8>| f@)
            == old(out)@.map_values(|f: Vec<u8>| f@) + spec_gcc_rules_part9(target@),
{
    let ghost base = out@.map_values(|f: Vec<u8>| f@);
    let ghost mut expect: Seq<Seq<u8>> = Seq::<Seq<u8>>::empty();
    proof {
        assert(out@.map_values(|f: Vec<u8>| f@) =~~= base + expect);
    }
    if (sw_l44(target) && ew_l14(target)) {
        out.push(mk_l55());
    }
    proof {
        expect = expect + (if (starts_with_spec(target@, spec_l44()) && ends_with_spec(target@, spec_l14())) { seq![spec_l55()] } else { Seq::<Seq<u8>>::empty() });
        assert(out@.map_values(|f: Vec<u8>| f@) =~~= base + expect);
    }
    if ((sw_l56(target) || sw_l57(target)) && sw_l58(target)) {
        out.push(mk_l59());
    }
    proof {
        expect = expect + (if ((starts_with_spec(target@, spec_l56()) || starts_with_spec(target@, spec_l57())) && starts_with_spec(target@, spec_l58())) { seq![spec_l59()] } else { Seq::<Seq<u8>>::empty() });
        assert(out@.map_values(|f: Vec<u8>| f@) =~~= base + expect);
    }
    if ((sw_l56(target) || sw_l57(target)) && !(sw_l58(target))) {
        out.push(mk_l60());
    }
    proof {
        expect = expect + (if ((starts_with_spec(target@, spec_l56()) || starts_with_spec(target@, spec_l57())) && !(starts_with_spec(target@, spec_l58()))) { seq![spec_l60()] } else { Seq::<Seq<u8>>::empty() });
        assert(out@.map_values(|f: Vec<u8>| f@) =~~= base + expect);
    }
    proof {
        assert(expect =~~= spec_gcc_rules_part9(target@));
    }
}

/// One slice of the GCC table.
pub open spec fn spec_gcc_rules_part10(t: Seq<u8>) -> Seq<Seq<u8>> {
    Seq::<Seq<u8>>::empty()
        + (if (starts_with_spec(t, spec_l56()) || starts_with_spec(t, spec_l57())) { seq![spec_l24(), spec_l61()] } else { Seq::<Seq<u8>>::empty() })
        + (if ((starts_with_spec(t, spec_l56()) || starts_with_spec(t, spec_l57())) && ends_with_spec(t, spec_l14())) { seq![spec_l45(), spec_l15()] } else { Seq::<Seq<u8>>::empty() })
        + (if ((starts_with_spec(t, spec_l56()) || starts_with_spec(t, spec_l57())) && !(ends_with_spec(t, spec_l14()))) { seq![spec_l25()] } else { Seq::<Seq<u8>>::empty() })
}

#[verifier::spinoff_prover]
#[verifier::rlimit(100)]
fn gcc_rules_part10(target: &[u8], out: &mut Vec<Vec<u8>>)
    ensures
        final(out)@.map_values(|f: Vec<u8>| f@)
            == old(out)@.map_values(|f: Vec<u8>| f@) + spec_gcc_rules_part10(target@),
{
    let ghost base = out@.map_values(|f: Vec<u8>| f@);
    let ghost mut expect: Seq<Seq<u8>> = Seq::<Seq<u8>>::empty();
    proof {
        assert(out@.map_values(|f: Vec<u8>| f@) =~~= base + expect);
    }
    if (sw_l56(target) || sw_l57(target)) {
        out.push(mk_l24());
        out.push(mk_l61());
    }
    proof {
        expect = expect + (if (starts_with_spec(target@, spec_l56()) || starts_with_spec(target@, spec_l57())) { seq![spec_l24(), spec_l61()] } else { Seq::<Seq<u8>>::empty() });
        assert(out@.map_values(|f: Vec<u8>| f@) =~~= base + expect);
    }
    if ((sw_l56(target) || sw_l57(target)) && ew_l14(target)) {
        out.push(mk_l45());
        out.push(mk_l15());
    }
    proof {
        expect = expect + (if ((starts_with_spec(target@, spec_l56()) || starts_with_spec(target@, spec_l57())) && ends_with_spec(target@, spec_l14())) { seq![spec_l45(), spec_l15()] } else { Seq::<Seq<u8>>::empty() });
        assert(out@.map_values(|f: Vec<u8>| f@) =~~= base + expect);
    }
    if ((sw_l56(target) || sw_l57(target)) && !(ew_l14(target))) {
        out.push(mk_l25());
    }
    proof {
        expect = expect + (if ((starts_with_spec(target@, spec_l56()) || starts_with_spec(target@, spec_l57())) && !(ends_with_spec(target@, spec_l14()))) { seq![spec_l25()] } else { Seq::<Seq<u8>>::empty() });
        assert(out@.map_values(|f: Vec<u8>| f@) =~~= base + expect);
    }
    proof {
        assert(expect =~~= spec_gcc_rules_part10(target@));
    }
}

/// One slice of the GCC table.
pub open spec fn spec_gcc_rules_part11(t: Seq<u8>) -> Seq<Seq<u8>> {
    Seq::<Seq<u8>>::empty()
        + (if starts_with_spec(t, spec_l62()) { seq![spec_l13()] } else { Seq::<Seq<u8>>::empty() })
        + (if (starts_with_spec(t, spec_l62()) && ends_with_spec(t, spec_l14())) { seq![spec_l15()] } else { Seq::<Seq<u8>>::empty() })
}

#[verifier::spinoff_prover]
#[verifier::rlimit(100)]
fn gcc_rules_part11(target: &[u8], out: &mut Vec<Vec<u8>>)
    ensures
        final(out)@.map_values(|f: Vec<u8>| f@)
            == old(out)@.map_values(|f: Vec<u8>| f@) + spec_gcc_rules_part11(target@),
{
    let ghost base = out@.map_values(|f: Vec<u8>| f@);
    let ghost mut expect: Seq<Seq<u8>> = Seq::<Seq<u8>>::empty();
    proof {
        assert(out@.map_values(|f: Vec<u8>| f@) =~~= base + expect);
    }
    if sw_l62(target) {
        out.push(mk_l13());
    }
    proof {
        expect = expect + (if starts_with_spec(target@, spec_l62()) { seq![spec_l13()] } else { Seq::<Seq<u8>>::empty() });
        assert(out@.map_values(|f: Vec<u8>| f@) =~~= base + expect);
    }
    if (sw_l62(target) && ew_l14(target)) {
        out.push(mk_l15());
    }
    proof {
        expect = expect + (if (starts_with_spec(target@, spec_l62()) && ends_with_spec(target@, spec_l14())) { seq![spec_l15()] } else { Seq::<Seq<u8>>::empty() });
        assert(out@.map_values(|f: Vec<u8>| f@) =~~= base + expect);
    }
    proof {
        assert(expect =~~= spec_gcc_rules_part11(target@));
    }
}


fn mkb_riscv32() -> (r: Vec<u8>)
    ensures
        r@ == seq![114u8, 105u8, 115u8, 99u8, 118u8, 51u8, 50u8],
{
    let mut v: Vec<u8> = Vec::new();
    v.push(114);
    v.push(105);
    v.push(115);
    v.push(99);
    v.push(118);
    v.push(51);
    v.push(50);
    proof {
        assert(v@ =~= seq![114u8, 105u8, 115u8, 99u8, 118u8, 51u8, 50u8]);
    }
    v
}

fn mkb_riscv64() -> (r: Vec<u8>)
    ensures
        r@ == seq![114u8, 105u8, 115u8, 99u8, 118u8, 54u8, 52u8],
{
    let mut v: Vec<u8> = Vec::new();
    v.push(114);
    v.push(105);
    v.push(115);
    v.push(99);
    v.push(118);
    v.push(54);
    v.push(52);
    proof {
        assert(v@ =~= seq![114u8, 105u8, 115u8, 99u8, 118u8, 54u8, 52u8]);
    }
    v
}

fn mkb_64() -> (r: Vec<u8>)
    ensures
        r@ == seq![54u8, 52u8],
{
    let mut v: Vec<u8> = Vec::new();
    v.push(54);
    v.push(52);
    proof {
        assert(v@ =~= seq![54u8, 52u8]);
    }
    v
}

fn mkb_32() -> (r: Vec<u8>)
    ensures
        r@ == seq![51u8, 50u8],
{
    let mut v: Vec<u8> = Vec::new();
    v.push(51);
    v.push(50);
    proof {
        assert(v@ =~= seq![51u8, 50u8]);
    }
    v
}

fn mkb_linux() -> (r: Vec<u8>)
    ensures
        r@ == seq![108u8, 105u8, 110u8, 117u8, 120u8],
{
    let mut v: Vec<u8> = Vec::new();
    v.push(108);
    v.push(105);
    v.push(110);
    v.push(117);
    v.push(120);
    proof {
        assert(v@ =~= seq![108u8, 105u8, 110u8, 117u8, 120u8]);
    }
    v
}

fn mkb_freebsd() -> (r: Vec<u8>)
    ensures
        r@ == seq![102u8, 114u8, 101u8, 101u8, 98u8, 115u8, 100u8],
{
    let mut v: Vec<u8> = Vec::new();
    v.push(102);
    v.push(114);
    v.push(101);
    v.push(101);
    v.push(98);
    v.push(115);
    v.push(100);
    proof {
        assert(v@ =~= seq![102u8, 114u8, 101u8, 101u8, 98u8, 115u8, 100u8]);
    }
    v
}

fn mkb_openbsd() -> (r: Vec<u8>)
    ensures
        r@ == seq![111u8, 112u8, 101u8, 110u8, 98u8, 115u8, 100u8],
{
    let mut v: Vec<u8> = Vec::new();
    v.push(111);
    v.push(112);
    v.push(101);
    v.push(110);
    v.push(98);
    v.push(115);
    v.push(100);
    proof {
        assert(v@ =~= seq![111u8, 112u8, 101u8, 110u8, 98u8, 115u8, 100u8]);
    }
    v
}

fn mkb_m64gc() -> (r: Vec<u8>)
    ensures
        r@ == seq![45u8, 109u8, 97u8, 114u8, 99u8, 104u8, 61u8, 114u8, 118u8, 54u8, 52u8, 103u8, 99u8],
{
    let mut v: Vec<u8> = Vec::new();
    v.push(45);
    v.push(109);
    v.push(97);
    v.push(114);
    v.push(99);
    v.push(104);
    v.push(61);
    v.push(114);
    v.push(118);
    v.push(54);
    v.push(52);
    v.push(103);
    v.push(99);
    proof {
        assert(v@ =~= seq![45u8, 109u8, 97u8, 114u8, 99u8, 104u8, 61u8, 114u8, 118u8, 54u8, 52u8, 103u8, 99u8]);
    }
    v
}

fn mkb_lp64d() -> (r: Vec<u8>)
    ensures
        r@ == seq![45u8, 109u8, 97u8, 98u8, 105u8, 61u8, 108u8, 112u8, 54u8, 52u8, 100u8],
{
    let mut v: Vec<u8> = Vec::new();
    v.push(45);
    v.push(109);
    v.push(97);
    v.push(98);
    v.push(105);
    v.push(61);
    v.push(108);
    v.push(112);
    v.push(54);
    v.push(52);
    v.push(100);
    proof {
        assert(v@ =~= seq![45u8, 109u8, 97u8, 98u8, 105u8, 61u8, 108u8, 112u8, 54u8, 52u8, 100u8]);
    }
    v
}

fn mkb_m32gc() -> (r: Vec<u8>)
    ensures
        r@ == seq![45u8, 109u8, 97u8, 114u8, 99u8, 104u8, 61u8, 114u8, 118u8, 51u8, 50u8, 103u8, 99u8],
{
    let mut v: Vec<u8> = Vec::new();
    v.push(45);
    v.push(109);
    v.push(97);
    v.push(114);
    v.push(99);
    v.push(104);
    v.push(61);
    v.push(114);
    v.push(118);
    v.push(51);
    v.push(50);
    v.push(103);
    v.push(99);
    proof {
        assert(v@ =~= seq![45u8, 109u8, 97u8, 114u8, 99u8, 104u8, 61u8, 114u8, 118u8, 51u8, 50u8, 103u8, 99u8]);
    }
    v
}

fn mkb_ilp32d() -> (r: Vec<u8>)
    ensures
        r@ == seq![45u8, 109u8, 97u8, 98u8, 105u8, 61u8, 105u8, 108u8, 112u8, 51u8, 50u8, 100u8],
{
    let mut v: Vec<u8> = Vec::new();
    v.push(45);
    v.push(109);
    v.push(97);
    v.push(98);
    v.push(105);
    v.push(61);
    v.push(105);
    v.push(108);
    v.push(112);
    v.push(51);
    v.push(50);
    v.push(100);
    proof {
        assert(v@ =~= seq![45u8, 109u8, 97u8, 98u8, 105u8, 61u8, 105u8, 108u8, 112u8, 51u8, 50u8, 100u8]);
    }
    v
}

fn mkb_mrv() -> (r: Vec<u8>)
    ensures
        r@ == seq![45u8, 109u8, 97u8, 114u8, 99u8, 104u8, 61u8, 114u8, 118u8],
{
    let mut v: Vec<u8> = Vec::new();
    v.push(45);
    v.push(109);
    v.push(97);
    v.push(114);
    v.push(99);
    v.push(104);
    v.push(61);
    v.push(114);
    v.push(118);
    proof {
        assert(v@ =~= seq![45u8, 109u8, 97u8, 114u8, 99u8, 104u8, 61u8, 114u8, 118u8]);
    }
    v
}

fn mkb_lp64() -> (r: Vec<u8>)
    ensures
        r@ == seq![45u8, 109u8, 97u8, 98u8, 105u8, 61u8, 108u8, 112u8, 54u8, 52u8],
{
    let mut v: Vec<u8> = Vec::new();
    v.push(45);
    v.push(109);
    v.push(97);
    v.push(98);
    v.push(105);
    v.push(61);
    v.push(108);
    v.push(112);
    v.push(54);
    v.push(52);
    proof {
        assert(v@ =~= seq![45u8, 109u8, 97u8, 98u8, 105u8, 61u8, 108u8, 112u8, 54u8, 52u8]);
    }
    v
}

fn mkb_ilp32() -> (r: Vec<u8>)
    ensures
        r@ == seq![45u8, 109u8, 97u8, 98u8, 105u8, 61u8, 105u8, 108u8, 112u8, 51u8, 50u8],
{
    let mut v: Vec<u8> = Vec::new();
    v.push(45);
    v.push(109);
    v.push(97);
    v.push(98);
    v.push(105);
    v.push(61);
    v.push(105);
    v.push(108);
    v.push(112);
    v.push(51);
    v.push(50);
    proof {
        assert(v@ =~= seq![45u8, 109u8, 97u8, 98u8, 105u8, 61u8, 105u8, 108u8, 112u8, 51u8, 50u8]);
    }
    v
}

fn mkb_medany() -> (r: Vec<u8>)
    ensures
        r@ == seq![45u8, 109u8, 99u8, 109u8, 111u8, 100u8, 101u8, 108u8, 61u8, 109u8, 101u8, 100u8, 97u8, 110u8, 121u8],
{
    let mut v: Vec<u8> = Vec::new();
    v.push(45);
    v.push(109);
    v.push(99);
    v.push(109);
    v.push(111);
    v.push(100);
    v.push(101);
    v.push(108);
    v.push(61);
    v.push(109);
    v.push(101);
    v.push(100);
    v.push(97);
    v.push(110);
    v.push(121);
    proof {
        assert(v@ =~= seq![45u8, 109u8, 99u8, 109u8, 111u8, 100u8, 101u8, 108u8, 61u8, 109u8, 101u8, 100u8, 97u8, 110u8, 121u8]);
    }
    v
}

/// The Darwin rule: `-arch <mapped architecture>` when the triple is a
/// Darwin one whose architecture the mapper knows.
pub open spec fn spec_gcc_darwin(t: Seq<u8>) -> Seq<Seq<u8>> {
    if spec_find(t, seq![100u8, 97u8, 114u8, 119u8, 105u8, 110u8]) is Some
        && crate::toolchain::spec_map_darwin_arch(t) is Some {
        seq![seq![45u8, 97u8, 114u8, 99u8, 104u8], crate::toolchain::spec_map_darwin_arch(t).unwrap()]
    } else {
        Seq::<Seq<u8>>::empty()
    }
}

/// Append the Darwin `-arch` pair when it applies.
#[verifier::spinoff_prover]
#[verifier::rlimit(100)]
fn gcc_darwin_rules(target: &[u8], out: &mut Vec<Vec<u8>>)
    ensures
        final(out)@.map_values(|f: Vec<u8>| f@)
            == old(out)@.map_values(|f: Vec<u8>| f@) + spec_gcc_darwin(target@),
{
    let ghost base = out@.map_values(|f: Vec<u8>| f@);
    let mut darwin: Vec<u8> = Vec::new();
    darwin.push(100);
    darwin.push(97);
    darwin.push(114);
    darwin.push(119);
    darwin.push(105);
    darwin.push(110);
    proof {
        assert(darwin@ =~= seq![100u8, 97u8, 114u8, 119u8, 105u8, 110u8]);
    }
    if crate::bytes::find_first(target, darwin.as_slice()).is_some() {
        match crate::toolchain::map_darwin_target_from_rust_to_compiler_architecture(target) {
            Some(arch) => {
                let mut flag: Vec<u8> = Vec::new();
                flag.push(45);
                flag.push(97);
                flag.push(114);
                flag.push(99);
                flag.push(104);
                proof {
                    assert(flag@ =~= seq![45u8, 97u8, 114u8, 99u8, 104u8]);
                }
                out.push(flag);
                out.push(arch);
                proof {
                    assert(final(out)@.map_values(|f: Vec<u8>| f@)
                        =~~= base + spec_gcc_darwin(target@));
                }
            }
            None => {
                proof {
                    assert(final(out)@.map_values(|f: Vec<u8>| f@)
                        =~~= base + spec_gcc_darwin(target@));
                }
            }
        }
    } else {
        proof {
            assert(final(out)@.map_values(|f: Vec<u8>| f@)
                =~~= base + spec_gcc_darwin(target@));
        }
    }
}

/// The RISC-V block: `-march=rv<arch>` with the matching ABI, special
/// cased to `rv64gc`/`rv32gc` on the hosted systems, plus the medany
/// code model.
pub open spec fn spec_gcc_riscv(t: Seq<u8>) -> Seq<Seq<u8>> {
    if starts_with_spec(t, seq![114u8, 105u8, 115u8, 99u8, 118u8, 51u8, 50u8]) || starts_with_spec(t, seq![114u8, 105u8, 115u8, 99u8, 118u8, 54u8, 52u8]) {
        let seg_end = match crate::bytes::spec_find_byte(t, 45) {
            Some(d) => d,
            None => t.len() as int,
        };
        let arch = t.subrange(5, seg_end);
        let sixty_four = starts_with_spec(arch, seq![54u8, 52u8]);
        let thirty_two = starts_with_spec(arch, seq![51u8, 50u8]);
        let linux = spec_find(t, seq![108u8, 105u8, 110u8, 117u8, 120u8]) is Some;
        let freebsd = spec_find(t, seq![102u8, 114u8, 101u8, 101u8, 98u8, 115u8, 100u8]) is Some;
        let openbsd = spec_find(t, seq![111u8, 112u8, 101u8, 110u8, 98u8, 115u8, 100u8]) is Some;
        (if linux && sixty_four {
            seq![seq![45u8, 109u8, 97u8, 114u8, 99u8, 104u8, 61u8, 114u8, 118u8, 54u8, 52u8, 103u8, 99u8], seq![45u8, 109u8, 97u8, 98u8, 105u8, 61u8, 108u8, 112u8, 54u8, 52u8, 100u8]]
        } else if freebsd && sixty_four {
            seq![seq![45u8, 109u8, 97u8, 114u8, 99u8, 104u8, 61u8, 114u8, 118u8, 54u8, 52u8, 103u8, 99u8], seq![45u8, 109u8, 97u8, 98u8, 105u8, 61u8, 108u8, 112u8, 54u8, 52u8, 100u8]]
        } else if openbsd && sixty_four {
            seq![seq![45u8, 109u8, 97u8, 114u8, 99u8, 104u8, 61u8, 114u8, 118u8, 54u8, 52u8, 103u8, 99u8], seq![45u8, 109u8, 97u8, 98u8, 105u8, 61u8, 108u8, 112u8, 54u8, 52u8, 100u8]]
        } else if linux && thirty_two {
            seq![seq![45u8, 109u8, 97u8, 114u8, 99u8, 104u8, 61u8, 114u8, 118u8, 51u8, 50u8, 103u8, 99u8], seq![45u8, 109u8, 97u8, 98u8, 105u8, 61u8, 105u8, 108u8, 112u8, 51u8, 50u8, 100u8]]
        } else if sixty_four {
            seq![seq![45u8, 109u8, 97u8, 114u8, 99u8, 104u8, 61u8, 114u8, 118u8] + arch, seq![45u8, 109u8, 97u8, 98u8, 105u8, 61u8, 108u8, 112u8, 54u8, 52u8]]
        } else {
            seq![seq![45u8, 109u8, 97u8, 114u8, 99u8, 104u8, 61u8, 114u8, 118u8] + arch, seq![45u8, 109u8, 97u8, 98u8, 105u8, 61u8, 105u8, 108u8, 112u8, 51u8, 50u8]]
        }) + seq![seq![45u8, 109u8, 99u8, 109u8, 111u8, 100u8, 101u8, 108u8, 61u8, 109u8, 101u8, 100u8, 97u8, 110u8, 121u8]]
    } else {
        Seq::<Seq<u8>>::empty()
    }
}

/// Append the RISC-V flags when they apply.
#[verifier::spinoff_prover]
#[verifier::rlimit(100)]
fn gcc_riscv_rules(target: &[u8], out: &mut Vec<Vec<u8>>)
    ensures
        final(out)@.map_values(|f: Vec<u8>| f@)
            == old(out)@.map_values(|f: Vec<u8>| f@) + spec_gcc_riscv(target@),
{
    let ghost base = out@.map_values(|f: Vec<u8>| f@);
    let r32 = mkb_riscv32();
    let r64 = mkb_riscv64();
    if !(starts_with(target, r32.as_slice()) || starts_with(target, r64.as_slice())) {
        proof {
            assert(final(out)@.map_values(|f: Vec<u8>| f@)
                =~~= base + spec_gcc_riscv(target@));
        }
        return;
    }
    let n = target.len();
    let seg_end = match crate::bytes::find_byte_first(target, 45) {
        Some(d) => d,
        None => n,
    };
    let arch = crate::bytes::sub_vec(target, 5, seg_end);
    proof {
        assert(arch@ == target@.subrange(5, seg_end as int));
    }
    let s64 = mkb_64();
    let s32 = mkb_32();
    let sixty_four = starts_with(arch.as_slice(), s64.as_slice());
    let thirty_two = starts_with(arch.as_slice(), s32.as_slice());
    let linuxp = mkb_linux();
    let freebsdp = mkb_freebsd();
    let openbsdp = mkb_openbsd();
    let linux = crate::bytes::find_first(target, linuxp.as_slice()).is_some();
    let freebsd = crate::bytes::find_first(target, freebsdp.as_slice()).is_some();
    let openbsd = crate::bytes::find_first(target, openbsdp.as_slice()).is_some();
    if (linux && sixty_four) || (freebsd && sixty_four) || (openbsd && sixty_four) {
        out.push(mkb_m64gc());
        out.push(mkb_lp64d());
    } else if linux && thirty_two {
        out.push(mkb_m32gc());
        out.push(mkb_ilp32d());
    } else if sixty_four {
        let mut m = mkb_mrv();
        crate::bytes::push_all(&mut m, arch.as_slice());
        out.push(m);
        out.push(mkb_lp64());
    } else {
        let mut m = mkb_mrv();
        crate::bytes::push_all(&mut m, arch.as_slice());
        out.push(m);
        out.push(mkb_ilp32());
    }
    out.push(mkb_medany());
    proof {
        assert(final(out)@.map_values(|f: Vec<u8>| f@)
            =~~= base + spec_gcc_riscv(target@));
    }
}

/// The whole GCC table: the flags of every matching rule, in
/// table order, with the Darwin `-arch` pair after the word-size
/// rules and the RISC-V block at the end.
pub open spec fn spec_gcc_target_rules(t: Seq<u8>) -> Seq<Seq<u8>> {
    spec_gcc_rules_part0(t)
        + spec_gcc_darwin(t)
        + spec_gcc_rules_part1(t)
        + spec_gcc_rules_part2(t)
        + spec_gcc_rules_part3(t)
        + spec_gcc_rules_part4(t)
        + spec_gcc_rules_part5(t)
        + spec_gcc_rules_part6(t)
        + spec_gcc_rules_part7(t)
        + spec_gcc_rules_part8(t)
        + spec_gcc_rules_part9(t)
        + spec_gcc_rules_part10(t)
        + spec_gcc_rules_part11(t)
        + spec_gcc_riscv(t)
}

/// Flags the GCC family needs for a target triple, by the table.
#[verifier::spinoff_prover]
#[verifier::rlimit(100)]
pub fn gcc_target_rules(target: &[u8]) -> (r: Vec<Vec<u8>>)
    ensures
        r@.map_values(|f: Vec<u8>| f@) == spec_gcc_target_rules(target@),
{
    let mut out: Vec<Vec<u8>> = Vec::new();
    proof {
        assert(out@.map_values(|f: Vec<u8>| f@) =~~= Seq::<Seq<u8>>::empty());
    }
    gcc_rules_part0(target, &mut out);
    gcc_darwin_rules(target, &mut out);
    gcc_rules_part1(target, &mut out);
    gcc_rules_part2(target, &mut out);
    gcc_rules_part3(target, &mut out);
    gcc_rules_part4(target, &mut out);
    gcc_rules_part5(target, &mut out);
    gcc_rules_part6(target, &mut out);
    gcc_rules_part7(target, &mut out);
    gcc_rules_part8(target, &mut out);
    gcc_rules_part9(target, &mut out);
    gcc_rules_part10(target, &mut out);
    gcc_rules_part11(target, &mut out);
    gcc_riscv_rules(target, &mut out);
    proof {
        assert(out@.map_values(|f: Vec<u8>| f@) =~~= spec_gcc_target_rules(target@));
    }
    out
}

} // verus!
