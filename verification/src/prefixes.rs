//! Cross-compilation tool-name prefixes by target triple.
//!
//! A triple either maps to one fixed GNU prefix, or to a list of
//! candidate prefixes the caller probes on PATH in order, or to
//! nothing.

use vstd::prelude::*;

verus! {

/// How a triple resolves to a toolchain prefix.
#[derive(Debug, Clone)]
pub enum PrefixResult {
    /// One known prefix.
    Fixed(Vec<u8>),
    /// Candidate prefixes, most likely first; the caller keeps the
    /// first whose compiler is on PATH.
    Probe(Vec<Vec<u8>>),
    /// No prefix is known for the triple.
    Unknown,
}

/// Spec-level mirror of `PrefixResult`.
#[verifier::ext_equal]
pub enum PrefixV {
    Fixed(Seq<u8>),
    Probe(Seq<Seq<u8>>),
    Unknown,
}

impl View for PrefixResult {
    type V = PrefixV;

    open spec fn view(&self) -> PrefixV {
        match self {
            PrefixResult::Fixed(p) => PrefixV::Fixed(p@),
            PrefixResult::Probe(ps) => PrefixV::Probe(ps@.map_values(|p: Vec<u8>| p@)),
            PrefixResult::Unknown => PrefixV::Unknown,
        }
    }
}

/// One slice of the prefix table.
pub open spec fn spec_prefix_group0(t: Seq<u8>) -> PrefixV {
    if t == seq![97u8, 97u8, 114u8, 99u8, 104u8, 54u8, 52u8, 45u8, 112u8, 99u8, 45u8, 119u8, 105u8, 110u8, 100u8, 111u8, 119u8, 115u8, 45u8, 103u8, 110u8, 117u8, 108u8, 108u8, 118u8, 109u8] {
        PrefixV::Fixed(seq![97u8, 97u8, 114u8, 99u8, 104u8, 54u8, 52u8, 45u8, 119u8, 54u8, 52u8, 45u8, 109u8, 105u8, 110u8, 103u8, 119u8, 51u8, 50u8])
    } else if t == seq![97u8, 97u8, 114u8, 99u8, 104u8, 54u8, 52u8, 45u8, 117u8, 119u8, 112u8, 45u8, 119u8, 105u8, 110u8, 100u8, 111u8, 119u8, 115u8, 45u8, 103u8, 110u8, 117u8] {
        PrefixV::Fixed(seq![97u8, 97u8, 114u8, 99u8, 104u8, 54u8, 52u8, 45u8, 119u8, 54u8, 52u8, 45u8, 109u8, 105u8, 110u8, 103u8, 119u8, 51u8, 50u8])
    } else if t == seq![97u8, 97u8, 114u8, 99u8, 104u8, 54u8, 52u8, 45u8, 117u8, 110u8, 107u8, 110u8, 111u8, 119u8, 110u8, 45u8, 108u8, 105u8, 110u8, 117u8, 120u8, 45u8, 103u8, 110u8, 117u8] {
        PrefixV::Fixed(seq![97u8, 97u8, 114u8, 99u8, 104u8, 54u8, 52u8, 45u8, 108u8, 105u8, 110u8, 117u8, 120u8, 45u8, 103u8, 110u8, 117u8])
    } else if t == seq![97u8, 97u8, 114u8, 99u8, 104u8, 54u8, 52u8, 45u8, 117u8, 110u8, 107u8, 110u8, 111u8, 119u8, 110u8, 45u8, 108u8, 105u8, 110u8, 117u8, 120u8, 45u8, 109u8, 117u8, 115u8, 108u8] {
        PrefixV::Fixed(seq![97u8, 97u8, 114u8, 99u8, 104u8, 54u8, 52u8, 45u8, 108u8, 105u8, 110u8, 117u8, 120u8, 45u8, 109u8, 117u8, 115u8, 108u8])
    } else if t == seq![97u8, 97u8, 114u8, 99u8, 104u8, 54u8, 52u8, 45u8, 117u8, 110u8, 107u8, 110u8, 111u8, 119u8, 110u8, 45u8, 110u8, 101u8, 116u8, 98u8, 115u8, 100u8] {
        PrefixV::Fixed(seq![97u8, 97u8, 114u8, 99u8, 104u8, 54u8, 52u8, 45u8, 45u8, 110u8, 101u8, 116u8, 98u8, 115u8, 100u8])
    } else if t == seq![97u8, 114u8, 109u8, 45u8, 117u8, 110u8, 107u8, 110u8, 111u8, 119u8, 110u8, 45u8, 108u8, 105u8, 110u8, 117u8, 120u8, 45u8, 103u8, 110u8, 117u8, 101u8, 97u8, 98u8, 105u8] {
        PrefixV::Fixed(seq![97u8, 114u8, 109u8, 45u8, 108u8, 105u8, 110u8, 117u8, 120u8, 45u8, 103u8, 110u8, 117u8, 101u8, 97u8, 98u8, 105u8])
    } else if t == seq![97u8, 114u8, 109u8, 118u8, 52u8, 116u8, 45u8, 117u8, 110u8, 107u8, 110u8, 111u8, 119u8, 110u8, 45u8, 108u8, 105u8, 110u8, 117u8, 120u8, 45u8, 103u8, 110u8, 117u8, 101u8, 97u8, 98u8, 105u8] {
        PrefixV::Fixed(seq![97u8, 114u8, 109u8, 45u8, 108u8, 105u8, 110u8, 117u8, 120u8, 45u8, 103u8, 110u8, 117u8, 101u8, 97u8, 98u8, 105u8])
    } else if t == seq![97u8, 114u8, 109u8, 118u8, 53u8, 116u8, 101u8, 45u8, 117u8, 110u8, 107u8, 110u8, 111u8, 119u8, 110u8, 45u8, 108u8, 105u8, 110u8, 117u8, 120u8, 45u8, 103u8, 110u8, 117u8, 101u8, 97u8, 98u8, 105u8] {
        PrefixV::Fixed(seq![97u8, 114u8, 109u8, 45u8, 108u8, 105u8, 110u8, 117u8, 120u8, 45u8, 103u8, 110u8, 117u8, 101u8, 97u8, 98u8, 105u8])
    } else if t == seq![97u8, 114u8, 109u8, 118u8, 53u8, 116u8, 101u8, 45u8, 117u8, 110u8, 107u8, 110u8, 111u8, 119u8, 110u8, 45u8, 108u8, 105u8, 110u8, 117u8, 120u8, 45u8, 109u8, 117u8, 115u8, 108u8, 101u8, 97u8, 98u8, 105u8] {
        PrefixV::Fixed(seq![97u8, 114u8, 109u8, 45u8, 108u8, 105u8, 110u8, 117u8, 120u8, 45u8, 103u8, 110u8, 117u8, 101u8, 97u8, 98u8, 105u8])
    } else if t == seq![97u8, 114u8, 109u8, 45u8, 102u8, 114u8, 99u8, 45u8, 108u8, 105u8, 110u8, 117u8, 120u8, 45u8, 103u8, 110u8, 117u8, 101u8, 97u8, 98u8, 105u8] {
        PrefixV::Fixed(seq![97u8, 114u8, 109u8, 45u8, 102u8, 114u8, 99u8, 45u8, 108u8, 105u8, 110u8, 117u8, 120u8, 45u8, 103u8, 110u8, 117u8, 101u8, 97u8, 98u8, 105u8])
    } else if t == seq![97u8, 114u8, 109u8, 45u8, 117u8, 110u8, 107u8, 110u8, 111u8, 119u8, 110u8, 45u8, 108u8, 105u8, 110u8, 117u8, 120u8, 45u8, 103u8, 110u8, 117u8, 101u8, 97u8, 98u8, 105u8, 104u8, 102u8] {
        PrefixV::Fixed(seq![97u8, 114u8, 109u8, 45u8, 108u8, 105u8, 110u8, 117u8, 120u8, 45u8, 103u8, 110u8, 117u8, 101u8, 97u8, 98u8, 105u8, 104u8, 102u8])
    } else if t == seq![97u8, 114u8, 109u8, 45u8, 117u8, 110u8, 107u8, 110u8, 111u8, 119u8, 110u8, 45u8, 108u8, 105u8, 110u8, 117u8, 120u8, 45u8, 109u8, 117u8, 115u8, 108u8, 101u8, 97u8, 98u8, 105u8] {
        PrefixV::Fixed(seq![97u8, 114u8, 109u8, 45u8, 108u8, 105u8, 110u8, 117u8, 120u8, 45u8, 109u8, 117u8, 115u8, 108u8, 101u8, 97u8, 98u8, 105u8])
    } else {
        PrefixV::Unknown
    }
}

#[verifier::spinoff_prover]
#[verifier::rlimit(100)]
fn prefix_group0(t: &[u8]) -> (r: Option<PrefixResult>)
    ensures
        match r {
            Some(p) => p@ =~~= spec_prefix_group0(t@) && !(spec_prefix_group0(t@) is Unknown),
            None => spec_prefix_group0(t@) is Unknown,
        },
{
    let mut k0: Vec<u8> = Vec::new();
    k0.push(97);
    k0.push(97);
    k0.push(114);
    k0.push(99);
    k0.push(104);
    k0.push(54);
    k0.push(52);
    k0.push(45);
    k0.push(112);
    k0.push(99);
    k0.push(45);
    k0.push(119);
    k0.push(105);
    k0.push(110);
    k0.push(100);
    k0.push(111);
    k0.push(119);
    k0.push(115);
    k0.push(45);
    k0.push(103);
    k0.push(110);
    k0.push(117);
    k0.push(108);
    k0.push(108);
    k0.push(118);
    k0.push(109);
    proof {
        assert(k0@ =~= seq![97u8, 97u8, 114u8, 99u8, 104u8, 54u8, 52u8, 45u8, 112u8, 99u8, 45u8, 119u8, 105u8, 110u8, 100u8, 111u8, 119u8, 115u8, 45u8, 103u8, 110u8, 117u8, 108u8, 108u8, 118u8, 109u8]);
    }
    if crate::bytes::bytes_eq(t, k0.as_slice()) {
    let mut v0: Vec<u8> = Vec::new();
    v0.push(97);
    v0.push(97);
    v0.push(114);
    v0.push(99);
    v0.push(104);
    v0.push(54);
    v0.push(52);
    v0.push(45);
    v0.push(119);
    v0.push(54);
    v0.push(52);
    v0.push(45);
    v0.push(109);
    v0.push(105);
    v0.push(110);
    v0.push(103);
    v0.push(119);
    v0.push(51);
    v0.push(50);
    proof {
        assert(v0@ =~= seq![97u8, 97u8, 114u8, 99u8, 104u8, 54u8, 52u8, 45u8, 119u8, 54u8, 52u8, 45u8, 109u8, 105u8, 110u8, 103u8, 119u8, 51u8, 50u8]);
    }
        return Some(PrefixResult::Fixed(v0));
    }
    let mut k1: Vec<u8> = Vec::new();
    k1.push(97);
    k1.push(97);
    k1.push(114);
    k1.push(99);
    k1.push(104);
    k1.push(54);
    k1.push(52);
    k1.push(45);
    k1.push(117);
    k1.push(119);
    k1.push(112);
    k1.push(45);
    k1.push(119);
    k1.push(105);
    k1.push(110);
    k1.push(100);
    k1.push(111);
    k1.push(119);
    k1.push(115);
    k1.push(45);
    k1.push(103);
    k1.push(110);
    k1.push(117);
    proof {
        assert(k1@ =~= seq![97u8, 97u8, 114u8, 99u8, 104u8, 54u8, 52u8, 45u8, 117u8, 119u8, 112u8, 45u8, 119u8, 105u8, 110u8, 100u8, 111u8, 119u8, 115u8, 45u8, 103u8, 110u8, 117u8]);
    }
    if crate::bytes::bytes_eq(t, k1.as_slice()) {
    let mut v1: Vec<u8> = Vec::new();
    v1.push(97);
    v1.push(97);
    v1.push(114);
    v1.push(99);
    v1.push(104);
    v1.push(54);
    v1.push(52);
    v1.push(45);
    v1.push(119);
    v1.push(54);
    v1.push(52);
    v1.push(45);
    v1.push(109);
    v1.push(105);
    v1.push(110);
    v1.push(103);
    v1.push(119);
    v1.push(51);
    v1.push(50);
    proof {
        assert(v1@ =~= seq![97u8, 97u8, 114u8, 99u8, 104u8, 54u8, 52u8, 45u8, 119u8, 54u8, 52u8, 45u8, 109u8, 105u8, 110u8, 103u8, 119u8, 51u8, 50u8]);
    }
        return Some(PrefixResult::Fixed(v1));
    }
    let mut k2: Vec<u8> = Vec::new();
    k2.push(97);
    k2.push(97);
    k2.push(114);
    k2.push(99);
    k2.push(104);
    k2.push(54);
    k2.push(52);
    k2.push(45);
    k2.push(117);
    k2.push(110);
    k2.push(107);
    k2.push(110);
    k2.push(111);
    k2.push(119);
    k2.push(110);
    k2.push(45);
    k2.push(108);
    k2.push(105);
    k2.push(110);
    k2.push(117);
    k2.push(120);
    k2.push(45);
    k2.push(103);
    k2.push(110);
    k2.push(117);
    proof {
        assert(k2@ =~= seq![97u8, 97u8, 114u8, 99u8, 104u8, 54u8, 52u8, 45u8, 117u8, 110u8, 107u8, 110u8, 111u8, 119u8, 110u8, 45u8, 108u8, 105u8, 110u8, 117u8, 120u8, 45u8, 103u8, 110u8, 117u8]);
    }
    if crate::bytes::bytes_eq(t, k2.as_slice()) {
    let mut v2: Vec<u8> = Vec::new();
    v2.push(97);
    v2.push(97);
    v2.push(114);
    v2.push(99);
    v2.push(104);
    v2.push(54);
    v2.push(52);
    v2.push(45);
    v2.push(108);
    v2.push(105);
    v2.push(110);
    v2.push(117);
    v2.push(120);
    v2.push(45);
    v2.push(103);
    v2.push(110);
    v2.push(117);
    proof {
        assert(v2@ =~= seq![97u8, 97u8, 114u8, 99u8, 104u8, 54u8, 52u8, 45u8, 108u8, 105u8, 110u8, 117u8, 120u8, 45u8, 103u8, 110u8, 117u8]);
    }
        return Some(PrefixResult::Fixed(v2));
    }
    let mut k3: Vec<u8> = Vec::new();
    k3.push(97);
    k3.push(97);
    k3.push(114);
    k3.push(99);
    k3.push(104);
    k3.push(54);
    k3.push(52);
    k3.push(45);
    k3.push(117);
    k3.push(110);
    k3.push(107);
    k3.push(110);
    k3.push(111);
    k3.push(119);
    k3.push(110);
    k3.push(45);
    k3.push(108);
    k3.push(105);
    k3.push(110);
    k3.push(117);
    k3.push(120);
    k3.push(45);
    k3.push(109);
    k3.push(117);
    k3.push(115);
    k3.push(108);
    proof {
        assert(k3@ =~= seq![97u8, 97u8, 114u8, 99u8, 104u8, 54u8, 52u8, 45u8, 117u8, 110u8, 107u8, 110u8, 111u8, 119u8, 110u8, 45u8, 108u8, 105u8, 110u8, 117u8, 120u8, 45u8, 109u8, 117u8, 115u8, 108u8]);
    }
    if crate::bytes::bytes_eq(t, k3.as_slice()) {
    let mut v3: Vec<u8> = Vec::new();
    v3.push(97);
    v3.push(97);
    v3.push(114);
    v3.push(99);
    v3.push(104);
    v3.push(54);
    v3.push(52);
    v3.push(45);
    v3.push(108);
    v3.push(105);
    v3.push(110);
    v3.push(117);
    v3.push(120);
    v3.push(45);
    v3.push(109);
    v3.push(117);
    v3.push(115);
    v3.push(108);
    proof {
        assert(v3@ =~= seq![97u8, 97u8, 114u8, 99u8, 104u8, 54u8, 52u8, 45u8, 108u8, 105u8, 110u8, 117u8, 120u8, 45u8, 109u8, 117u8, 115u8, 108u8]);
    }
        return Some(PrefixResult::Fixed(v3));
    }
    let mut k4: Vec<u8> = Vec::new();
    k4.push(97);
    k4.push(97);
    k4.push(114);
    k4.push(99);
    k4.push(104);
    k4.push(54);
    k4.push(52);
    k4.push(45);
    k4.push(117);
    k4.push(110);
    k4.push(107);
    k4.push(110);
    k4.push(111);
    k4.push(119);
    k4.push(110);
    k4.push(45);
    k4.push(110);
    k4.push(101);
    k4.push(116);
    k4.push(98);
    k4.push(115);
    k4.push(100);
    proof {
        assert(k4@ =~= seq![97u8, 97u8, 114u8, 99u8, 104u8, 54u8, 52u8, 45u8, 117u8, 110u8, 107u8, 110u8, 111u8, 119u8, 110u8, 45u8, 110u8, 101u8, 116u8, 98u8, 115u8, 100u8]);
    }
    if crate::bytes::bytes_eq(t, k4.as_slice()) {
    let mut v4: Vec<u8> = Vec::new();
    v4.push(97);
    v4.push(97);
    v4.push(114);
    v4.push(99);
    v4.push(104);
    v4.push(54);
    v4.push(52);
    v4.push(45);
    v4.push(45);
    v4.push(110);
    v4.push(101);
    v4.push(116);
    v4.push(98);
    v4.push(115);
    v4.push(100);
    proof {
        assert(v4@ =~= seq![97u8, 97u8, 114u8, 99u8, 104u8, 54u8, 52u8, 45u8, 45u8, 110u8, 101u8, 116u8, 98u8, 115u8, 100u8]);
    }
        return Some(PrefixResult::Fixed(v4));
    }
    let mut k5: Vec<u8> = Vec::new();
    k5.push(97);
    k5.push(114);
    k5.push(109);
    k5.push(45);
    k5.push(117);
    k5.push(110);
    k5.push(107);
    k5.push(110);
    k5.push(111);
    k5.push(119);
    k5.push(110);
    k5.push(45);
    k5.push(108);
    k5.push(105);
    k5.push(110);
    k5.push(117);
    k5.push(120);
    k5.push(45);
    k5.push(103);
    k5.push(110);
    k5.push(117);
    k5.push(101);
    k5.push(97);
    k5.push(98);
    k5.push(105);
    proof {
        assert(k5@ =~= seq![97u8, 114u8, 109u8, 45u8, 117u8, 110u8, 107u8, 110u8, 111u8, 119u8, 110u8, 45u8, 108u8, 105u8, 110u8, 117u8, 120u8, 45u8, 103u8, 110u8, 117u8, 101u8, 97u8, 98u8, 105u8]);
    }
    if crate::bytes::bytes_eq(t, k5.as_slice()) {
    let mut v5: Vec<u8> = Vec::new();
    v5.push(97);
    v5.push(114);
    v5.push(109);
    v5.push(45);
    v5.push(108);
    v5.push(105);
    v5.push(110);
    v5.push(117);
    v5.push(120);
    v5.push(45);
    v5.push(103);
    v5.push(110);
    v5.push(117);
    v5.push(101);
    v5.push(97);
    v5.push(98);
    v5.push(105);
    proof {
        assert(v5@ =~= seq![97u8, 114u8, 109u8, 45u8, 108u8, 105u8, 110u8, 117u8, 120u8, 45u8, 103u8, 110u8, 117u8, 101u8, 97u8, 98u8, 105u8]);
    }
        return Some(PrefixResult::Fixed(v5));
    }
    let mut k6: Vec<u8> = Vec::new();
    k6.push(97);
    k6.push(114);
    k6.push(109);
    k6.push(118);
    k6.push(52);
    k6.push(116);
    k6.push(45);
    k6.push(117);
    k6.push(110);
    k6.push(107);
    k6.push(110);
    k6.push(111);
    k6.push(119);
    k6.push(110);
    k6.push(45);
    k6.push(108);
    k6.push(105);
    k6.push(110);
    k6.push(117);
    k6.push(120);
    k6.push(45);
    k6.push(103);
    k6.push(110);
    k6.push(117);
    k6.push(101);
    k6.push(97);
    k6.push(98);
    k6.push(105);
    proof {
        assert(k6@ =~= seq![97u8, 114u8, 109u8, 118u8, 52u8, 116u8, 45u8, 117u8, 110u8, 107u8, 110u8, 111u8, 119u8, 110u8, 45u8, 108u8, 105u8, 110u8, 117u8, 120u8, 45u8, 103u8, 110u8, 117u8, 101u8, 97u8, 98u8, 105u8]);
    }
    if crate::bytes::bytes_eq(t, k6.as_slice()) {
    let mut v6: Vec<u8> = Vec::new();
    v6.push(97);
    v6.push(114);
    v6.push(109);
    v6.push(45);
    v6.push(108);
    v6.push(105);
    v6.push(110);
    v6.push(117);
    v6.push(120);
    v6.push(45);
    v6.push(103);
    v6.push(110);
    v6.push(117);
    v6.push(101);
    v6.push(97);
    v6.push(98);
    v6.push(105);
    proof {
        assert(v6@ =~= seq![97u8, 114u8, 109u8, 45u8, 108u8, 105u8, 110u8, 117u8, 120u8, 45u8, 103u8, 110u8, 117u8, 101u8, 97u8, 98u8, 105u8]);
    }
        return Some(PrefixResult::Fixed(v6));
    }
    let mut k7: Vec<u8> = Vec::new();
    k7.push(97);
    k7.push(114);
    k7.push(109);
    k7.push(118);
    k7.push(53);
    k7.push(116);
    k7.push(101);
    k7.push(45);
    k7.push(117);
    k7.push(110);
    k7.push(107);
    k7.push(110);
    k7.push(111);
    k7.push(119);
    k7.push(110);
    k7.push(45);
    k7.push(108);
    k7.push(105);
    k7.push(110);
    k7.push(117);
    k7.push(120);
    k7.push(45);
    k7.push(103);
    k7.push(110);
    k7.push(117);
    k7.push(101);
    k7.push(97);
    k7.push(98);
    k7.push(105);
    proof {
        assert(k7@ =~= seq![97u8, 114u8, 109u8, 118u8, 53u8, 116u8, 101u8, 45u8, 117u8, 110u8, 107u8, 110u8, 111u8, 119u8, 110u8, 45u8, 108u8, 105u8, 110u8, 117u8, 120u8, 45u8, 103u8, 110u8, 117u8, 101u8, 97u8, 98u8, 105u8]);
    }
    if crate::bytes::bytes_eq(t, k7.as_slice()) {
    let mut v7: Vec<u8> = Vec::new();
    v7.push(97);
    v7.push(114);
    v7.push(109);
    v7.push(45);
    v7.push(108);
    v7.push(105);
    v7.push(110);
    v7.push(117);
    v7.push(120);
    v7.push(45);
    v7.push(103);
    v7.push(110);
    v7.push(117);
    v7.push(101);
    v7.push(97);
    v7.push(98);
    v7.push(105);
    proof {
        assert(v7@ =~= seq![97u8, 114u8, 109u8, 45u8, 108u8, 105u8, 110u8, 117u8, 120u8, 45u8, 103u8, 110u8, 117u8, 101u8, 97u8, 98u8, 105u8]);
    }
        return Some(PrefixResult::Fixed(v7));
    }
    let mut k8: Vec<u8> = Vec::new();
    k8.push(97);
    k8.push(114);
    k8.push(109);
    k8.push(118);
    k8.push(53);
    k8.push(116);
    k8.push(101);
    k8.push(45);
    k8.push(117);
    k8.push(110);
    k8.push(107);
    k8.push(110);
    k8.push(111);
    k8.push(119);
    k8.push(110);
    k8.push(45);
    k8.push(108);
    k8.push(105);
    k8.push(110);
    k8.push(117);
    k8.push(120);
    k8.push(45);
    k8.push(109);
    k8.push(117);
    k8.push(115);
    k8.push(108);
    k8.push(101);
    k8.push(97);
    k8.push(98);
    k8.push(105);
    proof {
        assert(k8@ =~= seq![97u8, 114u8, 109u8, 118u8, 53u8, 116u8, 101u8, 45u8, 117u8, 110u8, 107u8, 110u8, 111u8, 119u8, 110u8, 45u8, 108u8, 105u8, 110u8, 117u8, 120u8, 45u8, 109u8, 117u8, 115u8, 108u8, 101u8, 97u8, 98u8, 105u8]);
    }
    if crate::bytes::bytes_eq(t, k8.as_slice()) {
    let mut v8: Vec<u8> = Vec::new();
    v8.push(97);
    v8.push(114);
    v8.push(109);
    v8.push(45);
    v8.push(108);
    v8.push(105);
    v8.push(110);
    v8.push(117);
    v8.push(120);
    v8.push(45);
    v8.push(103);
    v8.push(110);
    v8.push(117);
    v8.push(101);
    v8.push(97);
    v8.push(98);
    v8.push(105);
    proof {
        assert(v8@ =~= seq![97u8, 114u8, 109u8, 45u8, 108u8, 105u8, 110u8, 117u8, 120u8, 45u8, 103u8, 110u8, 117u8, 101u8, 97u8, 98u8, 105u8]);
    }
        return Some(PrefixResult::Fixed(v8));
    }
    let mut k9: Vec<u8> = Vec::new();
    k9.push(97);
    k9.push(114);
    k9.push(109);
    k9.push(45);
    k9.push(102);
    k9.push(114);
    k9.push(99);
    k9.push(45);
    k9.push(108);
    k9.push(105);
    k9.push(110);
    k9.push(117);
    k9.push(120);
    k9.push(45);
    k9.push(103);
    k9.push(110);
    k9.push(117);
    k9.push(101);
    k9.push(97);
    k9.push(98);
    k9.push(105);
    proof {
        assert(k9@ =~= seq![97u8, 114u8, 109u8, 45u8, 102u8, 114u8, 99u8, 45u8, 108u8, 105u8, 110u8, 117u8, 120u8, 45u8, 103u8, 110u8, 117u8, 101u8, 97u8, 98u8, 105u8]);
    }
    if crate::bytes::bytes_eq(t, k9.as_slice()) {
    let mut v9: Vec<u8> = Vec::new();
    v9.push(97);
    v9.push(114);
    v9.push(109);
    v9.push(45);
    v9.push(102);
    v9.push(114);
    v9.push(99);
    v9.push(45);
    v9.push(108);
    v9.push(105);
    v9.push(110);
    v9.push(117);
    v9.push(120);
    v9.push(45);
    v9.push(103);
    v9.push(110);
    v9.push(117);
    v9.push(101);
    v9.push(97);
    v9.push(98);
    v9.push(105);
    proof {
        assert(v9@ =~= seq![97u8, 114u8, 109u8, 45u8, 102u8, 114u8, 99u8, 45u8, 108u8, 105u8, 110u8, 117u8, 120u8, 45u8, 103u8, 110u8, 117u8, 101u8, 97u8, 98u8, 105u8]);
    }
        return Some(PrefixResult::Fixed(v9));
    }
    let mut k10: Vec<u8> = Vec::new();
    k10.push(97);
    k10.push(114);
    k10.push(109);
    k10.push(45);
    k10.push(117);
    k10.push(110);
    k10.push(107);
    k10.push(110);
    k10.push(111);
    k10.push(119);
    k10.push(110);
    k10.push(45);
    k10.push(108);
    k10.push(105);
    k10.push(110);
    k10.push(117);
    k10.push(120);
    k10.push(45);
    k10.push(103);
    k10.push(110);
    k10.push(117);
    k10.push(101);
    k10.push(97);
    k10.push(98);
    k10.push(105);
    k10.push(104);
    k10.push(102);
    proof {
        assert(k10@ =~= seq![97u8, 114u8, 109u8, 45u8, 117u8, 110u8, 107u8, 110u8, 111u8, 119u8, 110u8, 45u8, 108u8, 105u8, 110u8, 117u8, 120u8, 45u8, 103u8, 110u8, 117u8, 101u8, 97u8, 98u8, 105u8, 104u8, 102u8]);
    }
    if crate::bytes::bytes_eq(t, k10.as_slice()) {
    let mut v10: Vec<u8> = Vec::new();
    v10.push(97);
    v10.push(114);
    v10.push(109);
    v10.push(45);
    v10.push(108);
    v10.push(105);
    v10.push(110);
    v10.push(117);
    v10.push(120);
    v10.push(45);
    v10.push(103);
    v10.push(110);
    v10.push(117);
    v10.push(101);
    v10.push(97);
    v10.push(98);
    v10.push(105);
    v10.push(104);
    v10.push(102);
    proof {
        assert(v10@ =~= seq![97u8, 114u8, 109u8, 45u8, 108u8, 105u8, 110u8, 117u8, 120u8, 45u8, 103u8, 110u8, 117u8, 101u8, 97u8, 98u8, 105u8, 104u8, 102u8]);
    }
        return Some(PrefixResult::Fixed(v10));
    }
    let mut k11: Vec<u8> = Vec::new();
    k11.push(97);
    k11.push(114);
    k11.push(109);
    k11.push(45);
    k11.push(117);
    k11.push(110);
    k11.push(107);
    k11.push(110);
    k11.push(111);
    k11.push(119);
    k11.push(110);
    k11.push(45);
    k11.push(108);
    k11.push(105);
    k11.push(110);
    k11.push(117);
    k11.push(120);
    k11.push(45);
    k11.push(109);
    k11.push(117);
    k11.push(115);
    k11.push(108);
    k11.push(101);
    k11.push(97);
    k11.push(98);
    k11.push(105);
    proof {
        assert(k11@ =~= seq![97u8, 114u8, 109u8, 45u8, 117u8, 110u8, 107u8, 110u8, 111u8, 119u8, 110u8, 45u8, 108u8, 105u8, 110u8, 117u8, 120u8, 45u8, 109u8, 117u8, 115u8, 108u8, 101u8, 97u8, 98u8, 105u8]);
    }
    if crate::bytes::bytes_eq(t, k11.as_slice()) {
    let mut v11: Vec<u8> = Vec::new();
    v11.push(97);
    v11.push(114);
    v11.push(109);
    v11.push(45);
    v11.push(108);
    v11.push(105);
    v11.push(110);
    v11.push(117);
    v11.push(120);
    v11.push(45);
    v11.push(109);
    v11.push(117);
    v11.push(115);
    v11.push(108);
    v11.push(101);
    v11.push(97);
    v11.push(98);
    v11.push(105);
    proof {
        assert(v11@ =~= seq![97u8, 114u8, 109u8, 45u8, 108u8, 105u8, 110u8, 117u8, 120u8, 45u8, 109u8, 117u8, 115u8, 108u8, 101u8, 97u8, 98u8, 105u8]);
    }
        return Some(PrefixResult::Fixed(v11));
    }
    None
}

/// One slice of the prefix table.
pub open spec fn spec_prefix_group1(t: Seq<u8>) -> PrefixV {
    if t == seq![97u8, 114u8, 109u8, 45u8, 117u8, 110u8, 107u8, 110u8, 111u8, 119u8, 110u8, 45u8, 108u8, 105u8, 110u8, 117u8, 120u8, 45u8, 109u8, 117u8, 115u8, 108u8, 101u8, 97u8, 98u8, 105u8, 104u8, 102u8] {
        PrefixV::Fixed(seq![97u8, 114u8, 109u8, 45u8, 108u8, 105u8, 110u8, 117u8, 120u8, 45u8, 109u8, 117u8, 115u8, 108u8, 101u8, 97u8, 98u8, 105u8, 104u8, 102u8])
    } else if t == seq![97u8, 114u8, 109u8, 45u8, 117u8, 110u8, 107u8, 110u8, 111u8, 119u8, 110u8, 45u8, 110u8, 101u8, 116u8, 98u8, 115u8, 100u8, 45u8, 101u8, 97u8, 98u8, 105u8] {
        PrefixV::Fixed(seq![97u8, 114u8, 109u8, 45u8, 45u8, 110u8, 101u8, 116u8, 98u8, 115u8, 100u8, 101u8, 108u8, 102u8, 45u8, 101u8, 97u8, 98u8, 105u8])
    } else if t == seq![97u8, 114u8, 109u8, 118u8, 54u8, 45u8, 117u8, 110u8, 107u8, 110u8, 111u8, 119u8, 110u8, 45u8, 110u8, 101u8, 116u8, 98u8, 115u8, 100u8, 45u8, 101u8, 97u8, 98u8, 105u8, 104u8, 102u8] {
        PrefixV::Fixed(seq![97u8, 114u8, 109u8, 118u8, 54u8, 45u8, 45u8, 110u8, 101u8, 116u8, 98u8, 115u8, 100u8, 101u8, 108u8, 102u8, 45u8, 101u8, 97u8, 98u8, 105u8, 104u8, 102u8])
    } else if t == seq![97u8, 114u8, 109u8, 118u8, 55u8, 45u8, 117u8, 110u8, 107u8, 110u8, 111u8, 119u8, 110u8, 45u8, 108u8, 105u8, 110u8, 117u8, 120u8, 45u8, 103u8, 110u8, 117u8, 101u8, 97u8, 98u8, 105u8] {
        PrefixV::Fixed(seq![97u8, 114u8, 109u8, 45u8, 108u8, 105u8, 110u8, 117u8, 120u8, 45u8, 103u8, 110u8, 117u8, 101u8, 97u8, 98u8, 105u8])
    } else if t == seq![97u8, 114u8, 109u8, 118u8, 55u8, 45u8, 117u8, 110u8, 107u8, 110u8, 111u8, 119u8, 110u8, 45u8, 108u8, 105u8, 110u8, 117u8, 120u8, 45u8, 103u8, 110u8, 117u8, 101u8, 97u8, 98u8, 105u8, 104u8, 102u8] {
        PrefixV::Fixed(seq![97u8, 114u8, 109u8, 45u8, 108u8, 105u8, 110u8, 117u8, 120u8, 45u8, 103u8, 110u8, 117u8, 101u8, 97u8, 98u8, 105u8, 104u8, 102u8])
    } else if t == seq![97u8, 114u8, 109u8, 118u8, 55u8, 45u8, 117u8, 110u8, 107u8, 110u8, 111u8, 119u8, 110u8, 45u8, 108u8, 105u8, 110u8, 117u8, 120u8, 45u8, 109u8, 117u8, 115u8, 108u8, 101u8, 97u8, 98u8, 105u8, 104u8, 102u8] {
        PrefixV::Fixed(seq![97u8, 114u8, 109u8, 45u8, 108u8, 105u8, 110u8, 117u8, 120u8, 45u8, 109u8, 117u8, 115u8, 108u8, 101u8, 97u8, 98u8, 105u8, 104u8, 102u8])
    } else if t == seq![97u8, 114u8, 109u8, 118u8, 55u8, 110u8, 101u8, 111u8, 110u8, 45u8, 117u8, 110u8, 107u8, 110u8, 111u8, 119u8, 110u8, 45u8, 108u8, 105u8, 110u8, 117u8, 120u8, 45u8, 103u8, 110u8, 117u8, 101u8, 97u8, 98u8, 105u8, 104u8, 102u8] {
        PrefixV::Fixed(seq![97u8, 114u8, 109u8, 45u8, 108u8, 105u8, 110u8, 117u8, 120u8, 45u8, 103u8, 110u8, 117u8, 101u8, 97u8, 98u8, 105u8, 104u8, 102u8])
    } else if t == seq![97u8, 114u8, 109u8, 118u8, 55u8, 110u8, 101u8, 111u8, 110u8, 45u8, 117u8, 110u8, 107u8, 110u8, 111u8, 119u8, 110u8, 45u8, 108u8, 105u8, 110u8, 117u8, 120u8, 45u8, 109u8, 117u8, 115u8, 108u8, 101u8, 97u8, 98u8, 105u8, 104u8, 102u8] {
        PrefixV::Fixed(seq![97u8, 114u8, 109u8, 45u8, 108u8, 105u8, 110u8, 117u8, 120u8, 45u8, 109u8, 117u8, 115u8, 108u8, 101u8, 97u8, 98u8, 105u8, 104u8, 102u8])
    } else if t == seq![116u8, 104u8, 117u8, 109u8, 98u8, 118u8, 55u8, 45u8, 117u8, 110u8, 107u8, 110u8, 111u8, 119u8, 110u8, 45u8, 108u8, 105u8, 110u8, 117u8, 120u8, 45u8, 103u8, 110u8, 117u8, 101u8, 97u8, 98u8, 105u8, 104u8, 102u8] {
        PrefixV::Fixed(seq![97u8, 114u8, 109u8, 45u8, 108u8, 105u8, 110u8, 117u8, 120u8, 45u8, 103u8, 110u8, 117u8, 101u8, 97u8, 98u8, 105u8, 104u8, 102u8])
    } else if t == seq![116u8, 104u8, 117u8, 109u8, 98u8, 118u8, 55u8, 45u8, 117u8, 110u8, 107u8, 110u8, 111u8, 119u8, 110u8, 45u8, 108u8, 105u8, 110u8, 117u8, 120u8, 45u8, 109u8, 117u8, 115u8, 108u8, 101u8, 97u8, 98u8, 105u8, 104u8, 102u8] {
        PrefixV::Fixed(seq![97u8, 114u8, 109u8, 45u8, 108u8, 105u8, 110u8, 117u8, 120u8, 45u8, 109u8, 117u8, 115u8, 108u8, 101u8, 97u8, 98u8, 105u8, 104u8, 102u8])
    } else if t == seq![116u8, 104u8, 117u8, 109u8, 98u8, 118u8, 55u8, 110u8, 101u8, 111u8, 110u8, 45u8, 117u8, 110u8, 107u8, 110u8, 111u8, 119u8, 110u8, 45u8, 108u8, 105u8, 110u8, 117u8, 120u8, 45u8, 103u8, 110u8, 117u8, 101u8, 97u8, 98u8, 105u8, 104u8, 102u8] {
        PrefixV::Fixed(seq![97u8, 114u8, 109u8, 45u8, 108u8, 105u8, 110u8, 117u8, 120u8, 45u8, 103u8, 110u8, 117u8, 101u8, 97u8, 98u8, 105u8, 104u8, 102u8])
    } else if t == seq![116u8, 104u8, 117u8, 109u8, 98u8, 118u8, 55u8, 110u8, 101u8, 111u8, 110u8, 45u8, 117u8, 110u8, 107u8, 110u8, 111u8, 119u8, 110u8, 45u8, 108u8, 105u8, 110u8, 117u8, 120u8, 45u8, 109u8, 117u8, 115u8, 108u8, 101u8, 97u8, 98u8, 105u8, 104u8, 102u8] {
        PrefixV::Fixed(seq![97u8, 114u8, 109u8, 45u8, 108u8, 105u8, 110u8, 117u8, 120u8, 45u8, 109u8, 117u8, 115u8, 108u8, 101u8, 97u8, 98u8, 105u8, 104u8, 102u8])
    } else {
        PrefixV::Unknown
    }
}

#[verifier::spinoff_prover]
#[verifier::rlimit(100)]
fn prefix_group1(t: &[u8]) -> (r: Option<PrefixResult>)
    ensures
        match r {
            Some(p) => p@ =~~= spec_prefix_group1(t@) && !(spec_prefix_group1(t@) is Unknown),
            None => spec_prefix_group1(t@) is Unknown,
        },
{
    let mut k0: Vec<u8> = Vec::new();
    k0.push(97);
    k0.push(114);
    k0.push(109);
    k0.push(45);
    k0.push(117);
    k0.push(110);
    k0.push(107);
    k0.push(110);
    k0.push(111);
    k0.push(119);
    k0.push(110);
    k0.push(45);
    k0.push(108);
    k0.push(105);
    k0.push(110);
    k0.push(117);
    k0.push(120);
    k0.push(45);
    k0.push(109);
    k0.push(117);
    k0.push(115);
    k0.push(108);
    k0.push(101);
    k0.push(97);
    k0.push(98);
    k0.push(105);
    k0.push(104);
    k0.push(102);
    proof {
        assert(k0@ =~= seq![97u8, 114u8, 109u8, 45u8, 117u8, 110u8, 107u8, 110u8, 111u8, 119u8, 110u8, 45u8, 108u8, 105u8, 110u8, 117u8, 120u8, 45u8, 109u8, 117u8, 115u8, 108u8, 101u8, 97u8, 98u8, 105u8, 104u8, 102u8]);
    }
    if crate::bytes::bytes_eq(t, k0.as_slice()) {
    let mut v0: Vec<u8> = Vec::new();
    v0.push(97);
    v0.push(114);
    v0.push(109);
    v0.push(45);
    v0.push(108);
    v0.push(105);
    v0.push(110);
    v0.push(117);
    v0.push(120);
    v0.push(45);
    v0.push(109);
    v0.push(117);
    v0.push(115);
    v0.push(108);
    v0.push(101);
    v0.push(97);
    v0.push(98);
    v0.push(105);
    v0.push(104);
    v0.push(102);
    proof {
        assert(v0@ =~= seq![97u8, 114u8, 109u8, 45u8, 108u8, 105u8, 110u8, 117u8, 120u8, 45u8, 109u8, 117u8, 115u8, 108u8, 101u8, 97u8, 98u8, 105u8, 104u8, 102u8]);
    }
        return Some(PrefixResult::Fixed(v0));
    }
    let mut k1: Vec<u8> = Vec::new();
    k1.push(97);
    k1.push(114);
    k1.push(109);
    k1.push(45);
    k1.push(117);
    k1.push(110);
    k1.push(107);
    k1.push(110);
    k1.push(111);
    k1.push(119);
    k1.push(110);
    k1.push(45);
    k1.push(110);
    k1.push(101);
    k1.push(116);
    k1.push(98);
    k1.push(115);
    k1.push(100);
    k1.push(45);
    k1.push(101);
    k1.push(97);
    k1.push(98);
    k1.push(105);
    proof {
        assert(k1@ =~= seq![97u8, 114u8, 109u8, 45u8, 117u8, 110u8, 107u8, 110u8, 111u8, 119u8, 110u8, 45u8, 110u8, 101u8, 116u8, 98u8, 115u8, 100u8, 45u8, 101u8, 97u8, 98u8, 105u8]);
    }
    if crate::bytes::bytes_eq(t, k1.as_slice()) {
    let mut v1: Vec<u8> = Vec::new();
    v1.push(97);
    v1.push(114);
    v1.push(109);
    v1.push(45);
    v1.push(45);
    v1.push(110);
    v1.push(101);
    v1.push(116);
    v1.push(98);
    v1.push(115);
    v1.push(100);
    v1.push(101);
    v1.push(108);
    v1.push(102);
    v1.push(45);
    v1.push(101);
    v1.push(97);
    v1.push(98);
    v1.push(105);
    proof {
        assert(v1@ =~= seq![97u8, 114u8, 109u8, 45u8, 45u8, 110u8, 101u8, 116u8, 98u8, 115u8, 100u8, 101u8, 108u8, 102u8, 45u8, 101u8, 97u8, 98u8, 105u8]);
    }
        return Some(PrefixResult::Fixed(v1));
    }
    let mut k2: Vec<u8> = Vec::new();
    k2.push(97);
    k2.push(114);
    k2.push(109);
    k2.push(118);
    k2.push(54);
    k2.push(45);
    k2.push(117);
    k2.push(110);
    k2.push(107);
    k2.push(110);
    k2.push(111);
    k2.push(119);
    k2.push(110);
    k2.push(45);
    k2.push(110);
    k2.push(101);
    k2.push(116);
    k2.push(98);
    k2.push(115);
    k2.push(100);
    k2.push(45);
    k2.push(101);
    k2.push(97);
    k2.push(98);
    k2.push(105);
    k2.push(104);
    k2.push(102);
    proof {
        assert(k2@ =~= seq![97u8, 114u8, 109u8, 118u8, 54u8, 45u8, 117u8, 110u8, 107u8, 110u8, 111u8, 119u8, 110u8, 45u8, 110u8, 101u8, 116u8, 98u8, 115u8, 100u8, 45u8, 101u8, 97u8, 98u8, 105u8, 104u8, 102u8]);
    }
    if crate::bytes::bytes_eq(t, k2.as_slice()) {
    let mut v2: Vec<u8> = Vec::new();
    v2.push(97);
    v2.push(114);
    v2.push(109);
    v2.push(118);
    v2.push(54);
    v2.push(45);
    v2.push(45);
    v2.push(110);
    v2.push(101);
    v2.push(116);
    v2.push(98);
    v2.push(115);
    v2.push(100);
    v2.push(101);
    v2.push(108);
    v2.push(102);
    v2.push(45);
    v2.push(101);
    v2.push(97);
    v2.push(98);
    v2.push(105);
    v2.push(104);
    v2.push(102);
    proof {
        assert(v2@ =~= seq![97u8, 114u8, 109u8, 118u8, 54u8, 45u8, 45u8, 110u8, 101u8, 116u8, 98u8, 115u8, 100u8, 101u8, 108u8, 102u8, 45u8, 101u8, 97u8, 98u8, 105u8, 104u8, 102u8]);
    }
        return Some(PrefixResult::Fixed(v2));
    }
    let mut k3: Vec<u8> = Vec::new();
    k3.push(97);
    k3.push(114);
    k3.push(109);
    k3.push(118);
    k3.push(55);
    k3.push(45);
    k3.push(117);
    k3.push(110);
    k3.push(107);
    k3.push(110);
    k3.push(111);
    k3.push(119);
    k3.push(110);
    k3.push(45);
    k3.push(108);
    k3.push(105);
    k3.push(110);
    k3.push(117);
    k3.push(120);
    k3.push(45);
    k3.push(103);
    k3.push(110);
    k3.push(117);
    k3.push(101);
    k3.push(97);
    k3.push(98);
    k3.push(105);
    proof {
        assert(k3@ =~= seq![97u8, 114u8, 109u8, 118u8, 55u8, 45u8, 117u8, 110u8, 107u8, 110u8, 111u8, 119u8, 110u8, 45u8, 108u8, 105u8, 110u8, 117u8, 120u8, 45u8, 103u8, 110u8, 117u8, 101u8, 97u8, 98u8, 105u8]);
    }
    if crate::bytes::bytes_eq(t, k3.as_slice()) {
    let mut v3: Vec<u8> = Vec::new();
    v3.push(97);
    v3.push(114);
    v3.push(109);
    v3.push(45);
    v3.push(108);
    v3.push(105);
    v3.push(110);
    v3.push(117);
    v3.push(120);
    v3.push(45);
    v3.push(103);
    v3.push(110);
    v3.push(117);
    v3.push(101);
    v3.push(97);
    v3.push(98);
    v3.push(105);
    proof {
        assert(v3@ =~= seq![97u8, 114u8, 109u8, 45u8, 108u8, 105u8, 110u8, 117u8, 120u8, 45u8, 103u8, 110u8, 117u8, 101u8, 97u8, 98u8, 105u8]);
    }
        return Some(PrefixResult::Fixed(v3));
    }
    let mut k4: Vec<u8> = Vec::new();
    k4.push(97);
    k4.push(114);
    k4.push(109);
    k4.push(118);
    k4.push(55);
    k4.push(45);
    k4.push(117);
    k4.push(110);
    k4.push(107);
    k4.push(110);
    k4.push(111);
    k4.push(119);
    k4.push(110);
    k4.push(45);
    k4.push(108);
    k4.push(105);
    k4.push(110);
    k4.push(117);
    k4.push(120);
    k4.push(45);
    k4.push(103);
    k4.push(110);
    k4.push(117);
    k4.push(101);
    k4.push(97);
    k4.push(98);
    k4.push(105);
    k4.push(104);
    k4.push(102);
    proof {
        assert(k4@ =~= seq![97u8, 114u8, 109u8, 118u8, 55u8, 45u8, 117u8, 110u8, 107u8, 110u8, 111u8, 119u8, 110u8, 45u8, 108u8, 105u8, 110u8, 117u8, 120u8, 45u8, 103u8, 110u8, 117u8, 101u8, 97u8, 98u8, 105u8, 104u8, 102u8]);
    }
    if crate::bytes::bytes_eq(t, k4.as_slice()) {
    let mut v4: Vec<u8> = Vec::new();
    v4.push(97);
    v4.push(114);
    v4.push(109);
    v4.push(45);
    v4.push(108);
    v4.push(105);
    v4.push(110);
    v4.push(117);
    v4.push(120);
    v4.push(45);
    v4.push(103);
    v4.push(110);
    v4.push(117);
    v4.push(101);
    v4.push(97);
    v4.push(98);
    v4.push(105);
    v4.push(104);
    v4.push(102);
    proof {
        assert(v4@ =~= seq![97u8, 114u8, 109u8, 45u8, 108u8, 105u8, 110u8, 117u8, 120u8, 45u8, 103u8, 110u8, 117u8, 101u8, 97u8, 98u8, 105u8, 104u8, 102u8]);
    }
        return Some(PrefixResult::Fixed(v4));
    }
    let mut k5: Vec<u8> = Vec::new();
    k5.push(97);
    k5.push(114);
    k5.push(109);
    k5.push(118);
    k5.push(55);
    k5.push(45);
    k5.push(117);
    k5.push(110);
    k5.push(107);
    k5.push(110);
    k5.push(111);
    k5.push(119);
    k5.push(110);
    k5.push(45);
    k5.push(108);
    k5.push(105);
    k5.push(110);
    k5.push(117);
    k5.push(120);
    k5.push(45);
    k5.push(109);
    k5.push(117);
    k5.push(115);
    k5.push(108);
    k5.push(101);
    k5.push(97);
    k5.push(98);
    k5.push(105);
    k5.push(104);
    k5.push(102);
    proof {
        assert(k5@ =~= seq![97u8, 114u8, 109u8, 118u8, 55u8, 45u8, 117u8, 110u8, 107u8, 110u8, 111u8, 119u8, 110u8, 45u8, 108u8, 105u8, 110u8, 117u8, 120u8, 45u8, 109u8, 117u8, 115u8, 108u8, 101u8, 97u8, 98u8, 105u8, 104u8, 102u8]);
    }
    if crate::bytes::bytes_eq(t, k5.as_slice()) {
    let mut v5: Vec<u8> = Vec::new();
    v5.push(97);
    v5.push(114);
    v5.push(109);
    v5.push(45);
    v5.push(108);
    v5.push(105);
    v5.push(110);
    v5.push(117);
    v5.push(120);
    v5.push(45);
    v5.push(109);
    v5.push(117);
    v5.push(115);
    v5.push(108);
    v5.push(101);
    v5.push(97);
    v5.push(98);
    v5.push(105);
    v5.push(104);
    v5.push(102);
    proof {
        assert(v5@ =~= seq![97u8, 114u8, 109u8, 45u8, 108u8, 105u8, 110u8, 117u8, 120u8, 45u8, 109u8, 117u8, 115u8, 108u8, 101u8, 97u8, 98u8, 105u8, 104u8, 102u8]);
    }
        return Some(PrefixResult::Fixed(v5));
    }
    let mut k6: Vec<u8> = Vec::new();
    k6.push(97);
    k6.push(114);
    k6.push(109);
    k6.push(118);
    k6.push(55);
    k6.push(110);
    k6.push(101);
    k6.push(111);
    k6.push(110);
    k6.push(45);
    k6.push(117);
    k6.push(110);
    k6.push(107);
    k6.push(110);
    k6.push(111);
    k6.push(119);
    k6.push(110);
    k6.push(45);
    k6.push(108);
    k6.push(105);
    k6.push(110);
    k6.push(117);
    k6.push(120);
    k6.push(45);
    k6.push(103);
    k6.push(110);
    k6.push(117);
    k6.push(101);
    k6.push(97);
    k6.push(98);
    k6.push(105);
    k6.push(104);
    k6.push(102);
    proof {
        assert(k6@ =~= seq![97u8, 114u8, 109u8, 118u8, 55u8, 110u8, 101u8, 111u8, 110u8, 45u8, 117u8, 110u8, 107u8, 110u8, 111u8, 119u8, 110u8, 45u8, 108u8, 105u8, 110u8, 117u8, 120u8, 45u8, 103u8, 110u8, 117u8, 101u8, 97u8, 98u8, 105u8, 104u8, 102u8]);
    }
    if crate::bytes::bytes_eq(t, k6.as_slice()) {
    let mut v6: Vec<u8> = Vec::new();
    v6.push(97);
    v6.push(114);
    v6.push(109);
    v6.push(45);
    v6.push(108);
    v6.push(105);
    v6.push(110);
    v6.push(117);
    v6.push(120);
    v6.push(45);
    v6.push(103);
    v6.push(110);
    v6.push(117);
    v6.push(101);
    v6.push(97);
    v6.push(98);
    v6.push(105);
    v6.push(104);
    v6.push(102);
    proof {
        assert(v6@ =~= seq![97u8, 114u8, 109u8, 45u8, 108u8, 105u8, 110u8, 117u8, 120u8, 45u8, 103u8, 110u8, 117u8, 101u8, 97u8, 98u8, 105u8, 104u8, 102u8]);
    }
        return Some(PrefixResult::Fixed(v6));
    }
    let mut k7: Vec<u8> = Vec::new();
    k7.push(97);
    k7.push(114);
    k7.push(109);
    k7.push(118);
    k7.push(55);
    k7.push(110);
    k7.push(101);
    k7.push(111);
    k7.push(110);
    k7.push(45);
    k7.push(117);
    k7.push(110);
    k7.push(107);
    k7.push(110);
    k7.push(111);
    k7.push(119);
    k7.push(110);
    k7.push(45);
    k7.push(108);
    k7.push(105);
    k7.push(110);
    k7.push(117);
    k7.push(120);
    k7.push(45);
    k7.push(109);
    k7.push(117);
    k7.push(115);
    k7.push(108);
    k7.push(101);
    k7.push(97);
    k7.push(98);
    k7.push(105);
    k7.push(104);
    k7.push(102);
    proof {
        assert(k7@ =~= seq![97u8, 114u8, 109u8, 118u8, 55u8, 110u8, 101u8, 111u8, 110u8, 45u8, 117u8, 110u8, 107u8, 110u8, 111u8, 119u8, 110u8, 45u8, 108u8, 105u8, 110u8, 117u8, 120u8, 45u8, 109u8, 117u8, 115u8, 108u8, 101u8, 97u8, 98u8, 105u8, 104u8, 102u8]);
    }
    if crate::bytes::bytes_eq(t, k7.as_slice()) {
    let mut v7: Vec<u8> = Vec::new();
    v7.push(97);
    v7.push(114);
    v7.push(109);
    v7.push(45);
    v7.push(108);
    v7.push(105);
    v7.push(110);
    v7.push(117);
    v7.push(120);
    v7.push(45);
    v7.push(109);
    v7.push(117);
    v7.push(115);
    v7.push(108);
    v7.push(101);
    v7.push(97);
    v7.push(98);
    v7.push(105);
    v7.push(104);
    v7.push(102);
    proof {
        assert(v7@ =~= seq![97u8, 114u8, 109u8, 45u8, 108u8, 105u8, 110u8, 117u8, 120u8, 45u8, 109u8, 117u8, 115u8, 108u8, 101u8, 97u8, 98u8, 105u8, 104u8, 102u8]);
    }
        return Some(PrefixResult::Fixed(v7));
    }
    let mut k8: Vec<u8> = Vec::new();
    k8.push(116);
    k8.push(104);
    k8.push(117);
    k8.push(109);
    k8.push(98);
    k8.push(118);
    k8.push(55);
    k8.push(45);
    k8.push(117);
    k8.push(110);
    k8.push(107);
    k8.push(110);
    k8.push(111);
    k8.push(119);
    k8.push(110);
    k8.push(45);
    k8.push(108);
    k8.push(105);
    k8.push(110);
    k8.push(117);
    k8.push(120);
    k8.push(45);
    k8.push(103);
    k8.push(110);
    k8.push(117);
    k8.push(101);
    k8.push(97);
    k8.push(98);
    k8.push(105);
    k8.push(104);
    k8.push(102);
    proof {
        assert(k8@ =~= seq![116u8, 104u8, 117u8, 109u8, 98u8, 118u8, 55u8, 45u8, 117u8, 110u8, 107u8, 110u8, 111u8, 119u8, 110u8, 45u8, 108u8, 105u8, 110u8, 117u8, 120u8, 45u8, 103u8, 110u8, 117u8, 101u8, 97u8, 98u8, 105u8, 104u8, 102u8]);
    }
    if crate::bytes::bytes_eq(t, k8.as_slice()) {
    let mut v8: Vec<u8> = Vec::new();
    v8.push(97);
    v8.push(114);
    v8.push(109);
    v8.push(45);
    v8.push(108);
    v8.push(105);
    v8.push(110);
    v8.push(117);
    v8.push(120);
    v8.push(45);
    v8.push(103);
    v8.push(110);
    v8.push(117);
    v8.push(101);
    v8.push(97);
    v8.push(98);
    v8.push(105);
    v8.push(104);
    v8.push(102);
    proof {
        assert(v8@ =~= seq![97u8, 114u8, 109u8, 45u8, 108u8, 105u8, 110u8, 117u8, 120u8, 45u8, 103u8, 110u8, 117u8, 101u8, 97u8, 98u8, 105u8, 104u8, 102u8]);
    }
        return Some(PrefixResult::Fixed(v8));
    }
    let mut k9: Vec<u8> = Vec::new();
    k9.push(116);
    k9.push(104);
    k9.push(117);
    k9.push(109);
    k9.push(98);
    k9.push(118);
    k9.push(55);
    k9.push(45);
    k9.push(117);
    k9.push(110);
    k9.push(107);
    k9.push(110);
    k9.push(111);
    k9.push(119);
    k9.push(110);
    k9.push(45);
    k9.push(108);
    k9.push(105);
    k9.push(110);
    k9.push(117);
    k9.push(120);
    k9.push(45);
    k9.push(109);
    k9.push(117);
    k9.push(115);
    k9.push(108);
    k9.push(101);
    k9.push(97);
    k9.push(98);
    k9.push(105);
    k9.push(104);
    k9.push(102);
    proof {
        assert(k9@ =~= seq![116u8, 104u8, 117u8, 109u8, 98u8, 118u8, 55u8, 45u8, 117u8, 110u8, 107u8, 110u8, 111u8, 119u8, 110u8, 45u8, 108u8, 105u8, 110u8, 117u8, 120u8, 45u8, 109u8, 117u8, 115u8, 108u8, 101u8, 97u8, 98u8, 105u8, 104u8, 102u8]);
    }
    if crate::bytes::bytes_eq(t, k9.as_slice()) {
    let mut v9: Vec<u8> = Vec::new();
    v9.push(97);
    v9.push(114);
    v9.push(109);
    v9.push(45);
    v9.push(108);
    v9.push(105);
    v9.push(110);
    v9.push(117);
    v9.push(120);
    v9.push(45);
    v9.push(109);
    v9.push(117);
    v9.push(115);
    v9.push(108);
    v9.push(101);
    v9.push(97);
    v9.push(98);
    v9.push(105);
    v9.push(104);
    v9.push(102);
    proof {
        assert(v9@ =~= seq![97u8, 114u8, 109u8, 45u8, 108u8, 105u8, 110u8, 117u8, 120u8, 45u8, 109u8, 117u8, 115u8, 108u8, 101u8, 97u8, 98u8, 105u8, 104u8, 102u8]);
    }
        return Some(PrefixResult::Fixed(v9));
    }
    let mut k10: Vec<u8> = Vec::new();
    k10.push(116);
    k10.push(104);
    k10.push(117);
    k10.push(109);
    k10.push(98);
    k10.push(118);
    k10.push(55);
    k10.push(110);
    k10.push(101);
    k10.push(111);
    k10.push(110);
    k10.push(45);
    k10.push(117);
    k10.push(110);
    k10.push(107);
    k10.push(110);
    k10.push(111);
    k10.push(119);
    k10.push(110);
    k10.push(45);
    k10.push(108);
    k10.push(105);
    k10.push(110);
    k10.push(117);
    k10.push(120);
    k10.push(45);
    k10.push(103);
    k10.push(110);
    k10.push(117);
    k10.push(101);
    k10.push(97);
    k10.push(98);
    k10.push(105);
    k10.push(104);
    k10.push(102);
    proof {
        assert(k10@ =~= seq![116u8, 104u8, 117u8, 109u8, 98u8, 118u8, 55u8, 110u8, 101u8, 111u8, 110u8, 45u8, 117u8, 110u8, 107u8, 110u8, 111u8, 119u8, 110u8, 45u8, 108u8, 105u8, 110u8, 117u8, 120u8, 45u8, 103u8, 110u8, 117u8, 101u8, 97u8, 98u8, 105u8, 104u8, 102u8]);
    }
    if crate::bytes::bytes_eq(t, k10.as_slice()) {
    let mut v10: Vec<u8> = Vec::new();
    v10.push(97);
    v10.push(114);
    v10.push(109);
    v10.push(45);
    v10.push(108);
    v10.push(105);
    v10.push(110);
    v10.push(117);
    v10.push(120);
    v10.push(45);
    v10.push(103);
    v10.push(110);
    v10.push(117);
    v10.push(101);
    v10.push(97);
    v10.push(98);
    v10.push(105);
    v10.push(104);
    v10.push(102);
    proof {
        assert(v10@ =~= seq![97u8, 114u8, 109u8, 45u8, 108u8, 105u8, 110u8, 117u8, 120u8, 45u8, 103u8, 110u8, 117u8, 101u8, 97u8, 98u8, 105u8, 104u8, 102u8]);
    }
        return Some(PrefixResult::Fixed(v10));
    }
    let mut k11: Vec<u8> = Vec::new();
    k11.push(116);
    k11.push(104);
    k11.push(117);
    k11.push(109);
    k11.push(98);
    k11.push(118);
    k11.push(55);
    k11.push(110);
    k11.push(101);
    k11.push(111);
    k11.push(110);
    k11.push(45);
    k11.push(117);
    k11.push(110);
    k11.push(107);
    k11.push(110);
    k11.push(111);
    k11.push(119);
    k11.push(110);
    k11.push(45);
    k11.push(108);
    k11.push(105);
    k11.push(110);
    k11.push(117);
    k11.push(120);
    k11.push(45);
    k11.push(109);
    k11.push(117);
    k11.push(115);
    k11.push(108);
    k11.push(101);
    k11.push(97);
    k11.push(98);
    k11.push(105);
    k11.push(104);
    k11.push(102);
    proof {
        assert(k11@ =~= seq![116u8, 104u8, 117u8, 109u8, 98u8, 118u8, 55u8, 110u8, 101u8, 111u8, 110u8, 45u8, 117u8, 110u8, 107u8, 110u8, 111u8, 119u8, 110u8, 45u8, 108u8, 105u8, 110u8, 117u8, 120u8, 45u8, 109u8, 117u8, 115u8, 108u8, 101u8, 97u8, 98u8, 105u8, 104u8, 102u8]);
    }
    if crate::bytes::bytes_eq(t, k11.as_slice()) {
    let mut v11: Vec<u8> = Vec::new();
    v11.push(97);
    v11.push(114);
    v11.push(109);
    v11.push(45);
    v11.push(108);
    v11.push(105);
    v11.push(110);
    v11.push(117);
    v11.push(120);
    v11.push(45);
    v11.push(109);
    v11.push(117);
    v11.push(115);
    v11.push(108);
    v11.push(101);
    v11.push(97);
    v11.push(98);
    v11.push(105);
    v11.push(104);
    v11.push(102);
    proof {
        assert(v11@ =~= seq![97u8, 114u8, 109u8, 45u8, 108u8, 105u8, 110u8, 117u8, 120u8, 45u8, 109u8, 117u8, 115u8, 108u8, 101u8, 97u8, 98u8, 105u8, 104u8, 102u8]);
    }
        return Some(PrefixResult::Fixed(v11));
    }
    None
}

/// One slice of the prefix table.
pub open spec fn spec_prefix_group2(t: Seq<u8>) -> PrefixV {
    if t == seq![97u8, 114u8, 109u8, 118u8, 55u8, 45u8, 117u8, 110u8, 107u8, 110u8, 111u8, 119u8, 110u8, 45u8, 110u8, 101u8, 116u8, 98u8, 115u8, 100u8, 45u8, 101u8, 97u8, 98u8, 105u8, 104u8, 102u8] {
        PrefixV::Fixed(seq![97u8, 114u8, 109u8, 118u8, 55u8, 45u8, 45u8, 110u8, 101u8, 116u8, 98u8, 115u8, 100u8, 101u8, 108u8, 102u8, 45u8, 101u8, 97u8, 98u8, 105u8, 104u8, 102u8])
    } else if t == seq![104u8, 101u8, 120u8, 97u8, 103u8, 111u8, 110u8, 45u8, 117u8, 110u8, 107u8, 110u8, 111u8, 119u8, 110u8, 45u8, 108u8, 105u8, 110u8, 117u8, 120u8, 45u8, 109u8, 117u8, 115u8, 108u8] {
        PrefixV::Fixed(seq![104u8, 101u8, 120u8, 97u8, 103u8, 111u8, 110u8, 45u8, 108u8, 105u8, 110u8, 117u8, 120u8, 45u8, 109u8, 117u8, 115u8, 108u8])
    } else if t == seq![105u8, 53u8, 56u8, 54u8, 45u8, 117u8, 110u8, 107u8, 110u8, 111u8, 119u8, 110u8, 45u8, 108u8, 105u8, 110u8, 117u8, 120u8, 45u8, 109u8, 117u8, 115u8, 108u8] {
        PrefixV::Fixed(seq![109u8, 117u8, 115u8, 108u8])
    } else if t == seq![105u8, 54u8, 56u8, 54u8, 45u8, 112u8, 99u8, 45u8, 119u8, 105u8, 110u8, 100u8, 111u8, 119u8, 115u8, 45u8, 103u8, 110u8, 117u8] {
        PrefixV::Fixed(seq![105u8, 54u8, 56u8, 54u8, 45u8, 119u8, 54u8, 52u8, 45u8, 109u8, 105u8, 110u8, 103u8, 119u8, 51u8, 50u8])
    } else if t == seq![105u8, 54u8, 56u8, 54u8, 45u8, 117u8, 119u8, 112u8, 45u8, 119u8, 105u8, 110u8, 100u8, 111u8, 119u8, 115u8, 45u8, 103u8, 110u8, 117u8] {
        PrefixV::Fixed(seq![105u8, 54u8, 56u8, 54u8, 45u8, 119u8, 54u8, 52u8, 45u8, 109u8, 105u8, 110u8, 103u8, 119u8, 51u8, 50u8])
    } else if t == seq![105u8, 54u8, 56u8, 54u8, 45u8, 117u8, 110u8, 107u8, 110u8, 111u8, 119u8, 110u8, 45u8, 108u8, 105u8, 110u8, 117u8, 120u8, 45u8, 109u8, 117u8, 115u8, 108u8] {
        PrefixV::Fixed(seq![109u8, 117u8, 115u8, 108u8])
    } else if t == seq![105u8, 54u8, 56u8, 54u8, 45u8, 117u8, 110u8, 107u8, 110u8, 111u8, 119u8, 110u8, 45u8, 110u8, 101u8, 116u8, 98u8, 115u8, 100u8] {
        PrefixV::Fixed(seq![105u8, 52u8, 56u8, 54u8, 45u8, 45u8, 110u8, 101u8, 116u8, 98u8, 115u8, 100u8, 101u8, 108u8, 102u8])
    } else if t == seq![109u8, 105u8, 112u8, 115u8, 45u8, 117u8, 110u8, 107u8, 110u8, 111u8, 119u8, 110u8, 45u8, 108u8, 105u8, 110u8, 117u8, 120u8, 45u8, 103u8, 110u8, 117u8] {
        PrefixV::Fixed(seq![109u8, 105u8, 112u8, 115u8, 45u8, 108u8, 105u8, 110u8, 117u8, 120u8, 45u8, 103u8, 110u8, 117u8])
    } else if t == seq![109u8, 105u8, 112u8, 115u8, 45u8, 117u8, 110u8, 107u8, 110u8, 111u8, 119u8, 110u8, 45u8, 108u8, 105u8, 110u8, 117u8, 120u8, 45u8, 109u8, 117u8, 115u8, 108u8] {
        PrefixV::Fixed(seq![109u8, 105u8, 112u8, 115u8, 45u8, 108u8, 105u8, 110u8, 117u8, 120u8, 45u8, 109u8, 117u8, 115u8, 108u8])
    } else if t == seq![109u8, 105u8, 112u8, 115u8, 101u8, 108u8, 45u8, 117u8, 110u8, 107u8, 110u8, 111u8, 119u8, 110u8, 45u8, 108u8, 105u8, 110u8, 117u8, 120u8, 45u8, 103u8, 110u8, 117u8] {
        PrefixV::Fixed(seq![109u8, 105u8, 112u8, 115u8, 101u8, 108u8, 45u8, 108u8, 105u8, 110u8, 117u8, 120u8, 45u8, 103u8, 110u8, 117u8])
    } else if t == seq![109u8, 105u8, 112u8, 115u8, 101u8, 108u8, 45u8, 117u8, 110u8, 107u8, 110u8, 111u8, 119u8, 110u8, 45u8, 108u8, 105u8, 110u8, 117u8, 120u8, 45u8, 109u8, 117u8, 115u8, 108u8] {
        PrefixV::Fixed(seq![109u8, 105u8, 112u8, 115u8, 101u8, 108u8, 45u8, 108u8, 105u8, 110u8, 117u8, 120u8, 45u8, 109u8, 117u8, 115u8, 108u8])
    } else if t == seq![109u8, 105u8, 112u8, 115u8, 54u8, 52u8, 45u8, 117u8, 110u8, 107u8, 110u8, 111u8, 119u8, 110u8, 45u8, 108u8, 105u8, 110u8, 117u8, 120u8, 45u8, 103u8, 110u8, 117u8, 97u8, 98u8, 105u8, 54u8, 52u8] {
        PrefixV::Fixed(seq![109u8, 105u8, 112u8, 115u8, 54u8, 52u8, 45u8, 108u8, 105u8, 110u8, 117u8, 120u8, 45u8, 103u8, 110u8, 117u8, 97u8, 98u8, 105u8, 54u8, 52u8])
    } else {
        PrefixV::Unknown
    }
}

#[verifier::spinoff_prover]
#[verifier::rlimit(100)]
fn prefix_group2(t: &[u8]) -> (r: Option<PrefixResult>)
    ensures
        match r {
            Some(p) => p@ =~~= spec_prefix_group2(t@) && !(spec_prefix_group2(t@) is Unknown),
            None => spec_prefix_group2(t@) is Unknown,
        },
{
    let mut k0: Vec<u8> = Vec::new();
    k0.push(97);
    k0.push(114);
    k0.push(109);
    k0.push(118);
    k0.push(55);
    k0.push(45);
    k0.push(117);
    k0.push(110);
    k0.push(107);
    k0.push(110);
    k0.push(111);
    k0.push(119);
    k0.push(110);
    k0.push(45);
    k0.push(110);
    k0.push(101);
    k0.push(116);
    k0.push(98);
    k0.push(115);
    k0.push(100);
    k0.push(45);
    k0.push(101);
    k0.push(97);
    k0.push(98);
    k0.push(105);
    k0.push(104);
    k0.push(102);
    proof {
        assert(k0@ =~= seq![97u8, 114u8, 109u8, 118u8, 55u8, 45u8, 117u8, 110u8, 107u8, 110u8, 111u8, 119u8, 110u8, 45u8, 110u8, 101u8, 116u8, 98u8, 115u8, 100u8, 45u8, 101u8, 97u8, 98u8, 105u8, 104u8, 102u8]);
    }
    if crate::bytes::bytes_eq(t, k0.as_slice()) {
    let mut v0: Vec<u8> = Vec::new();
    v0.push(97);
    v0.push(114);
    v0.push(109);
    v0.push(118);
    v0.push(55);
    v0.push(45);
    v0.push(45);
    v0.push(110);
    v0.push(101);
    v0.push(116);
    v0.push(98);
    v0.push(115);
    v0.push(100);
    v0.push(101);
    v0.push(108);
    v0.push(102);
    v0.push(45);
    v0.push(101);
    v0.push(97);
    v0.push(98);
    v0.push(105);
    v0.push(104);
    v0.push(102);
    proof {
        assert(v0@ =~= seq![97u8, 114u8, 109u8, 118u8, 55u8, 45u8, 45u8, 110u8, 101u8, 116u8, 98u8, 115u8, 100u8, 101u8, 108u8, 102u8, 45u8, 101u8, 97u8, 98u8, 105u8, 104u8, 102u8]);
    }
        return Some(PrefixResult::Fixed(v0));
    }
    let mut k1: Vec<u8> = Vec::new();
    k1.push(104);
    k1.push(101);
    k1.push(120);
    k1.push(97);
    k1.push(103);
    k1.push(111);
    k1.push(110);
    k1.push(45);
    k1.push(117);
    k1.push(110);
    k1.push(107);
    k1.push(110);
    k1.push(111);
    k1.push(119);
    k1.push(110);
    k1.push(45);
    k1.push(108);
    k1.push(105);
    k1.push(110);
    k1.push(117);
    k1.push(120);
    k1.push(45);
    k1.push(109);
    k1.push(117);
    k1.push(115);
    k1.push(108);
    proof {
        assert(k1@ =~= seq![104u8, 101u8, 120u8, 97u8, 103u8, 111u8, 110u8, 45u8, 117u8, 110u8, 107u8, 110u8, 111u8, 119u8, 110u8, 45u8, 108u8, 105u8, 110u8, 117u8, 120u8, 45u8, 109u8, 117u8, 115u8, 108u8]);
    }
    if crate::bytes::bytes_eq(t, k1.as_slice()) {
    let mut v1: Vec<u8> = Vec::new();
    v1.push(104);
    v1.push(101);
    v1.push(120);
    v1.push(97);
    v1.push(103);
    v1.push(111);
    v1.push(110);
    v1.push(45);
    v1.push(108);
    v1.push(105);
    v1.push(110);
    v1.push(117);
    v1.push(120);
    v1.push(45);
    v1.push(109);
    v1.push(117);
    v1.push(115);
    v1.push(108);
    proof {
        assert(v1@ =~= seq![104u8, 101u8, 120u8, 97u8, 103u8, 111u8, 110u8, 45u8, 108u8, 105u8, 110u8, 117u8, 120u8, 45u8, 109u8, 117u8, 115u8, 108u8]);
    }
        return Some(PrefixResult::Fixed(v1));
    }
    let mut k2: Vec<u8> = Vec::new();
    k2.push(105);
    k2.push(53);
    k2.push(56);
    k2.push(54);
    k2.push(45);
    k2.push(117);
    k2.push(110);
    k2.push(107);
    k2.push(110);
    k2.push(111);
    k2.push(119);
    k2.push(110);
    k2.push(45);
    k2.push(108);
    k2.push(105);
    k2.push(110);
    k2.push(117);
    k2.push(120);
    k2.push(45);
    k2.push(109);
    k2.push(117);
    k2.push(115);
    k2.push(108);
    proof {
        assert(k2@ =~= seq![105u8, 53u8, 56u8, 54u8, 45u8, 117u8, 110u8, 107u8, 110u8, 111u8, 119u8, 110u8, 45u8, 108u8, 105u8, 110u8, 117u8, 120u8, 45u8, 109u8, 117u8, 115u8, 108u8]);
    }
    if crate::bytes::bytes_eq(t, k2.as_slice()) {
    let mut v2: Vec<u8> = Vec::new();
    v2.push(109);
    v2.push(117);
    v2.push(115);
    v2.push(108);
    proof {
        assert(v2@ =~= seq![109u8, 117u8, 115u8, 108u8]);
    }
        return Some(PrefixResult::Fixed(v2));
    }
    let mut k3: Vec<u8> = Vec::new();
    k3.push(105);
    k3.push(54);
    k3.push(56);
    k3.push(54);
    k3.push(45);
    k3.push(112);
    k3.push(99);
    k3.push(45);
    k3.push(119);
    k3.push(105);
    k3.push(110);
    k3.push(100);
    k3.push(111);
    k3.push(119);
    k3.push(115);
    k3.push(45);
    k3.push(103);
    k3.push(110);
    k3.push(117);
    proof {
        assert(k3@ =~= seq![105u8, 54u8, 56u8, 54u8, 45u8, 112u8, 99u8, 45u8, 119u8, 105u8, 110u8, 100u8, 111u8, 119u8, 115u8, 45u8, 103u8, 110u8, 117u8]);
    }
    if crate::bytes::bytes_eq(t, k3.as_slice()) {
    let mut v3: Vec<u8> = Vec::new();
    v3.push(105);
    v3.push(54);
    v3.push(56);
    v3.push(54);
    v3.push(45);
    v3.push(119);
    v3.push(54);
    v3.push(52);
    v3.push(45);
    v3.push(109);
    v3.push(105);
    v3.push(110);
    v3.push(103);
    v3.push(119);
    v3.push(51);
    v3.push(50);
    proof {
        assert(v3@ =~= seq![105u8, 54u8, 56u8, 54u8, 45u8, 119u8, 54u8, 52u8, 45u8, 109u8, 105u8, 110u8, 103u8, 119u8, 51u8, 50u8]);
    }
        return Some(PrefixResult::Fixed(v3));
    }
    let mut k4: Vec<u8> = Vec::new();
    k4.push(105);
    k4.push(54);
    k4.push(56);
    k4.push(54);
    k4.push(45);
    k4.push(117);
    k4.push(119);
    k4.push(112);
    k4.push(45);
    k4.push(119);
    k4.push(105);
    k4.push(110);
    k4.push(100);
    k4.push(111);
    k4.push(119);
    k4.push(115);
    k4.push(45);
    k4.push(103);
    k4.push(110);
    k4.push(117);
    proof {
        assert(k4@ =~= seq![105u8, 54u8, 56u8, 54u8, 45u8, 117u8, 119u8, 112u8, 45u8, 119u8, 105u8, 110u8, 100u8, 111u8, 119u8, 115u8, 45u8, 103u8, 110u8, 117u8]);
    }
    if crate::bytes::bytes_eq(t, k4.as_slice()) {
    let mut v4: Vec<u8> = Vec::new();
    v4.push(105);
    v4.push(54);
    v4.push(56);
    v4.push(54);
    v4.push(45);
    v4.push(119);
    v4.push(54);
    v4.push(52);
    v4.push(45);
    v4.push(109);
    v4.push(105);
    v4.push(110);
    v4.push(103);
    v4.push(119);
    v4.push(51);
    v4.push(50);
    proof {
        assert(v4@ =~= seq![105u8, 54u8, 56u8, 54u8, 45u8, 119u8, 54u8, 52u8, 45u8, 109u8, 105u8, 110u8, 103u8, 119u8, 51u8, 50u8]);
    }
        return Some(PrefixResult::Fixed(v4));
    }
    let mut k5: Vec<u8> = Vec::new();
    k5.push(105);
    k5.push(54);
    k5.push(56);
    k5.push(54);
    k5.push(45);
    k5.push(117);
    k5.push(110);
    k5.push(107);
    k5.push(110);
    k5.push(111);
    k5.push(119);
    k5.push(110);
    k5.push(45);
    k5.push(108);
    k5.push(105);
    k5.push(110);
    k5.push(117);
    k5.push(120);
    k5.push(45);
    k5.push(109);
    k5.push(117);
    k5.push(115);
    k5.push(108);
    proof {
        assert(k5@ =~= seq![105u8, 54u8, 56u8, 54u8, 45u8, 117u8, 110u8, 107u8, 110u8, 111u8, 119u8, 110u8, 45u8, 108u8, 105u8, 110u8, 117u8, 120u8, 45u8, 109u8, 117u8, 115u8, 108u8]);
    }
    if crate::bytes::bytes_eq(t, k5.as_slice()) {
    let mut v5: Vec<u8> = Vec::new();
    v5.push(109);
    v5.push(117);
    v5.push(115);
    v5.push(108);
    proof {
        assert(v5@ =~= seq![109u8, 117u8, 115u8, 108u8]);
    }
        return Some(PrefixResult::Fixed(v5));
    }
    let mut k6: Vec<u8> = Vec::new();
    k6.push(105);
    k6.push(54);
    k6.push(56);
    k6.push(54);
    k6.push(45);
    k6.push(117);
    k6.push(110);
    k6.push(107);
    k6.push(110);
    k6.push(111);
    k6.push(119);
    k6.push(110);
    k6.push(45);
    k6.push(110);
    k6.push(101);
    k6.push(116);
    k6.push(98);
    k6.push(115);
    k6.push(100);
    proof {
        assert(k6@ =~= seq![105u8, 54u8, 56u8, 54u8, 45u8, 117u8, 110u8, 107u8, 110u8, 111u8, 119u8, 110u8, 45u8, 110u8, 101u8, 116u8, 98u8, 115u8, 100u8]);
    }
    if crate::bytes::bytes_eq(t, k6.as_slice()) {
    let mut v6: Vec<u8> = Vec::new();
    v6.push(105);
    v6.push(52);
    v6.push(56);
    v6.push(54);
    v6.push(45);
    v6.push(45);
    v6.push(110);
    v6.push(101);
    v6.push(116);
    v6.push(98);
    v6.push(115);
    v6.push(100);
    v6.push(101);
    v6.push(108);
    v6.push(102);
    proof {
        assert(v6@ =~= seq![105u8, 52u8, 56u8, 54u8, 45u8, 45u8, 110u8, 101u8, 116u8, 98u8, 115u8, 100u8, 101u8, 108u8, 102u8]);
    }
        return Some(PrefixResult::Fixed(v6));
    }
    let mut k7: Vec<u8> = Vec::new();
    k7.push(109);
    k7.push(105);
    k7.push(112);
    k7.push(115);
    k7.push(45);
    k7.push(117);
    k7.push(110);
    k7.push(107);
    k7.push(110);
    k7.push(111);
    k7.push(119);
    k7.push(110);
    k7.push(45);
    k7.push(108);
    k7.push(105);
    k7.push(110);
    k7.push(117);
    k7.push(120);
    k7.push(45);
    k7.push(103);
    k7.push(110);
    k7.push(117);
    proof {
        assert(k7@ =~= seq![109u8, 105u8, 112u8, 115u8, 45u8, 117u8, 110u8, 107u8, 110u8, 111u8, 119u8, 110u8, 45u8, 108u8, 105u8, 110u8, 117u8, 120u8, 45u8, 103u8, 110u8, 117u8]);
    }
    if crate::bytes::bytes_eq(t, k7.as_slice()) {
    let mut v7: Vec<u8> = Vec::new();
    v7.push(109);
    v7.push(105);
    v7.push(112);
    v7.push(115);
    v7.push(45);
    v7.push(108);
    v7.push(105);
    v7.push(110);
    v7.push(117);
    v7.push(120);
    v7.push(45);
    v7.push(103);
    v7.push(110);
    v7.push(117);
    proof {
        assert(v7@ =~= seq![109u8, 105u8, 112u8, 115u8, 45u8, 108u8, 105u8, 110u8, 117u8, 120u8, 45u8, 103u8, 110u8, 117u8]);
    }
        return Some(PrefixResult::Fixed(v7));
    }
    let mut k8: Vec<u8> = Vec::new();
    k8.push(109);
    k8.push(105);
    k8.push(112);
    k8.push(115);
    k8.push(45);
    k8.push(117);
    k8.push(110);
    k8.push(107);
    k8.push(110);
    k8.push(111);
    k8.push(119);
    k8.push(110);
    k8.push(45);
    k8.push(108);
    k8.push(105);
    k8.push(110);
    k8.push(117);
    k8.push(120);
    k8.push(45);
    k8.push(109);
    k8.push(117);
    k8.push(115);
    k8.push(108);
    proof {
        assert(k8@ =~= seq![109u8, 105u8, 112u8, 115u8, 45u8, 117u8, 110u8, 107u8, 110u8, 111u8, 119u8, 110u8, 45u8, 108u8, 105u8, 110u8, 117u8, 120u8, 45u8, 109u8, 117u8, 115u8, 108u8]);
    }
    if crate::bytes::bytes_eq(t, k8.as_slice()) {
    let mut v8: Vec<u8> = Vec::new();
    v8.push(109);
    v8.push(105);
    v8.push(112);
    v8.push(115);
    v8.push(45);
    v8.push(108);
    v8.push(105);
    v8.push(110);
    v8.push(117);
    v8.push(120);
    v8.push(45);
    v8.push(109);
    v8.push(117);
    v8.push(115);
    v8.push(108);
    proof {
        assert(v8@ =~= seq![109u8, 105u8, 112u8, 115u8, 45u8, 108u8, 105u8, 110u8, 117u8, 120u8, 45u8, 109u8, 117u8, 115u8, 108u8]);
    }
        return Some(PrefixResult::Fixed(v8));
    }
    let mut k9: Vec<u8> = Vec::new();
    k9.push(109);
    k9.push(105);
    k9.push(112);
    k9.push(115);
    k9.push(101);
    k9.push(108);
    k9.push(45);
    k9.push(117);
    k9.push(110);
    k9.push(107);
    k9.push(110);
    k9.push(111);
    k9.push(119);
    k9.push(110);
    k9.push(45);
    k9.push(108);
    k9.push(105);
    k9.push(110);
    k9.push(117);
    k9.push(120);
    k9.push(45);
    k9.push(103);
    k9.push(110);
    k9.push(117);
    proof {
        assert(k9@ =~= seq![109u8, 105u8, 112u8, 115u8, 101u8, 108u8, 45u8, 117u8, 110u8, 107u8, 110u8, 111u8, 119u8, 110u8, 45u8, 108u8, 105u8, 110u8, 117u8, 120u8, 45u8, 103u8, 110u8, 117u8]);
    }
    if crate::bytes::bytes_eq(t, k9.as_slice()) {
    let mut v9: Vec<u8> = Vec::new();
    v9.push(109);
    v9.push(105);
    v9.push(112);
    v9.push(115);
    v9.push(101);
    v9.push(108);
    v9.push(45);
    v9.push(108);
    v9.push(105);
    v9.push(110);
    v9.push(117);
    v9.push(120);
    v9.push(45);
    v9.push(103);
    v9.push(110);
    v9.push(117);
    proof {
        assert(v9@ =~= seq![109u8, 105u8, 112u8, 115u8, 101u8, 108u8, 45u8, 108u8, 105u8, 110u8, 117u8, 120u8, 45u8, 103u8, 110u8, 117u8]);
    }
        return Some(PrefixResult::Fixed(v9));
    }
    let mut k10: Vec<u8> = Vec::new();
    k10.push(109);
    k10.push(105);
    k10.push(112);
    k10.push(115);
    k10.push(101);
    k10.push(108);
    k10.push(45);
    k10.push(117);
    k10.push(110);
    k10.push(107);
    k10.push(110);
    k10.push(111);
    k10.push(119);
    k10.push(110);
    k10.push(45);
    k10.push(108);
    k10.push(105);
    k10.push(110);
    k10.push(117);
    k10.push(120);
    k10.push(45);
    k10.push(109);
    k10.push(117);
    k10.push(115);
    k10.push(108);
    proof {
        assert(k10@ =~= seq![109u8, 105u8, 112u8, 115u8, 101u8, 108u8, 45u8, 117u8, 110u8, 107u8, 110u8, 111u8, 119u8, 110u8, 45u8, 108u8, 105u8, 110u8, 117u8, 120u8, 45u8, 109u8, 117u8, 115u8, 108u8]);
    }
    if crate::bytes::bytes_eq(t, k10.as_slice()) {
    let mut v10: Vec<u8> = Vec::new();
    v10.push(109);
    v10.push(105);
    v10.push(112);
    v10.push(115);
    v10.push(101);
    v10.push(108);
    v10.push(45);
    v10.push(108);
    v10.push(105);
    v10.push(110);
    v10.push(117);
    v10.push(120);
    v10.push(45);
    v10.push(109);
    v10.push(117);
    v10.push(115);
    v10.push(108);
    proof {
        assert(v10@ =~= seq![109u8, 105u8, 112u8, 115u8, 101u8, 108u8, 45u8, 108u8, 105u8, 110u8, 117u8, 120u8, 45u8, 109u8, 117u8, 115u8, 108u8]);
    }
        return Some(PrefixResult::Fixed(v10));
    }
    let mut k11: Vec<u8> = Vec::new();
    k11.push(109);
    k11.push(105);
    k11.push(112);
    k11.push(115);
    k11.push(54);
    k11.push(52);
    k11.push(45);
    k11.push(117);
    k11.push(110);
    k11.push(107);
    k11.push(110);
    k11.push(111);
    k11.push(119);
    k11.push(110);
    k11.push(45);
    k11.push(108);
    k11.push(105);
    k11.push(110);
    k11.push(117);
    k11.push(120);
    k11.push(45);
    k11.push(103);
    k11.push(110);
    k11.push(117);
    k11.push(97);
    k11.push(98);
    k11.push(105);
    k11.push(54);
    k11.push(52);
    proof {
        assert(k11@ =~= seq![109u8, 105u8, 112u8, 115u8, 54u8, 52u8, 45u8, 117u8, 110u8, 107u8, 110u8, 111u8, 119u8, 110u8, 45u8, 108u8, 105u8, 110u8, 117u8, 120u8, 45u8, 103u8, 110u8, 117u8, 97u8, 98u8, 105u8, 54u8, 52u8]);
    }
    if crate::bytes::bytes_eq(t, k11.as_slice()) {
    let mut v11: Vec<u8> = Vec::new();
    v11.push(109);
    v11.push(105);
    v11.push(112);
    v11.push(115);
    v11.push(54);
    v11.push(52);
    v11.push(45);
    v11.push(108);
    v11.push(105);
    v11.push(110);
    v11.push(117);
    v11.push(120);
    v11.push(45);
    v11.push(103);
    v11.push(110);
    v11.push(117);
    v11.push(97);
    v11.push(98);
    v11.push(105);
    v11.push(54);
    v11.push(52);
    proof {
        assert(v11@ =~= seq![109u8, 105u8, 112u8, 115u8, 54u8, 52u8, 45u8, 108u8, 105u8, 110u8, 117u8, 120u8, 45u8, 103u8, 110u8, 117u8, 97u8, 98u8, 105u8, 54u8, 52u8]);
    }
        return Some(PrefixResult::Fixed(v11));
    }
    None
}

/// One slice of the prefix table.
pub open spec fn spec_prefix_group3(t: Seq<u8>) -> PrefixV {
    if t == seq![109u8, 105u8, 112u8, 115u8, 54u8, 52u8, 101u8, 108u8, 45u8, 117u8, 110u8, 107u8, 110u8, 111u8, 119u8, 110u8, 45u8, 108u8, 105u8, 110u8, 117u8, 120u8, 45u8, 103u8, 110u8, 117u8, 97u8, 98u8, 105u8, 54u8, 52u8] {
        PrefixV::Fixed(seq![109u8, 105u8, 112u8, 115u8, 54u8, 52u8, 101u8, 108u8, 45u8, 108u8, 105u8, 110u8, 117u8, 120u8, 45u8, 103u8, 110u8, 117u8, 97u8, 98u8, 105u8, 54u8, 52u8])
    } else if t == seq![109u8, 105u8, 112u8, 115u8, 105u8, 115u8, 97u8, 51u8, 50u8, 114u8, 54u8, 45u8, 117u8, 110u8, 107u8, 110u8, 111u8, 119u8, 110u8, 45u8, 108u8, 105u8, 110u8, 117u8, 120u8, 45u8, 103u8, 110u8, 117u8] {
        PrefixV::Fixed(seq![109u8, 105u8, 112u8, 115u8, 105u8, 115u8, 97u8, 51u8, 50u8, 114u8, 54u8, 45u8, 108u8, 105u8, 110u8, 117u8, 120u8, 45u8, 103u8, 110u8, 117u8])
    } else if t == seq![109u8, 105u8, 112u8, 115u8, 105u8, 115u8, 97u8, 51u8, 50u8, 114u8, 54u8, 101u8, 108u8, 45u8, 117u8, 110u8, 107u8, 110u8, 111u8, 119u8, 110u8, 45u8, 108u8, 105u8, 110u8, 117u8, 120u8, 45u8, 103u8, 110u8, 117u8] {
        PrefixV::Fixed(seq![109u8, 105u8, 112u8, 115u8, 105u8, 115u8, 97u8, 51u8, 50u8, 114u8, 54u8, 101u8, 108u8, 45u8, 108u8, 105u8, 110u8, 117u8, 120u8, 45u8, 103u8, 110u8, 117u8])
    } else if t == seq![109u8, 105u8, 112u8, 115u8, 105u8, 115u8, 97u8, 54u8, 52u8, 114u8, 54u8, 45u8, 117u8, 110u8, 107u8, 110u8, 111u8, 119u8, 110u8, 45u8, 108u8, 105u8, 110u8, 117u8, 120u8, 45u8, 103u8, 110u8, 117u8, 97u8, 98u8, 105u8, 54u8, 52u8] {
        PrefixV::Fixed(seq![109u8, 105u8, 112u8, 115u8, 105u8, 115u8, 97u8, 54u8, 52u8, 114u8, 54u8, 45u8, 108u8, 105u8, 110u8, 117u8, 120u8, 45u8, 103u8, 110u8, 117u8, 97u8, 98u8, 105u8, 54u8, 52u8])
    } else if t == seq![109u8, 105u8, 112u8, 115u8, 105u8, 115u8, 97u8, 54u8, 52u8, 114u8, 54u8, 101u8, 108u8, 45u8, 117u8, 110u8, 107u8, 110u8, 111u8, 119u8, 110u8, 45u8, 108u8, 105u8, 110u8, 117u8, 120u8, 45u8, 103u8, 110u8, 117u8, 97u8, 98u8, 105u8, 54u8, 52u8] {
        PrefixV::Fixed(seq![109u8, 105u8, 112u8, 115u8, 105u8, 115u8, 97u8, 54u8, 52u8, 114u8, 54u8, 101u8, 108u8, 45u8, 108u8, 105u8, 110u8, 117u8, 120u8, 45u8, 103u8, 110u8, 117u8, 97u8, 98u8, 105u8, 54u8, 52u8])
    } else if t == seq![112u8, 111u8, 119u8, 101u8, 114u8, 112u8, 99u8, 45u8, 117u8, 110u8, 107u8, 110u8, 111u8, 119u8, 110u8, 45u8, 108u8, 105u8, 110u8, 117u8, 120u8, 45u8, 103u8, 110u8, 117u8] {
        PrefixV::Fixed(seq![112u8, 111u8, 119u8, 101u8, 114u8, 112u8, 99u8, 45u8, 108u8, 105u8, 110u8, 117u8, 120u8, 45u8, 103u8, 110u8, 117u8])
    } else if t == seq![112u8, 111u8, 119u8, 101u8, 114u8, 112u8, 99u8, 45u8, 117u8, 110u8, 107u8, 110u8, 111u8, 119u8, 110u8, 45u8, 108u8, 105u8, 110u8, 117u8, 120u8, 45u8, 103u8, 110u8, 117u8, 115u8, 112u8, 101u8] {
        PrefixV::Fixed(seq![112u8, 111u8, 119u8, 101u8, 114u8, 112u8, 99u8, 45u8, 108u8, 105u8, 110u8, 117u8, 120u8, 45u8, 103u8, 110u8, 117u8, 115u8, 112u8, 101u8])
    } else if t == seq![112u8, 111u8, 119u8, 101u8, 114u8, 112u8, 99u8, 45u8, 117u8, 110u8, 107u8, 110u8, 111u8, 119u8, 110u8, 45u8, 110u8, 101u8, 116u8, 98u8, 115u8, 100u8] {
        PrefixV::Fixed(seq![112u8, 111u8, 119u8, 101u8, 114u8, 112u8, 99u8, 45u8, 45u8, 110u8, 101u8, 116u8, 98u8, 115u8, 100u8])
    } else if t == seq![112u8, 111u8, 119u8, 101u8, 114u8, 112u8, 99u8, 54u8, 52u8, 45u8, 117u8, 110u8, 107u8, 110u8, 111u8, 119u8, 110u8, 45u8, 108u8, 105u8, 110u8, 117u8, 120u8, 45u8, 103u8, 110u8, 117u8] {
        PrefixV::Fixed(seq![112u8, 111u8, 119u8, 101u8, 114u8, 112u8, 99u8, 45u8, 108u8, 105u8, 110u8, 117u8, 120u8, 45u8, 103u8, 110u8, 117u8])
    } else if t == seq![112u8, 111u8, 119u8, 101u8, 114u8, 112u8, 99u8, 54u8, 52u8, 108u8, 101u8, 45u8, 117u8, 110u8, 107u8, 110u8, 111u8, 119u8, 110u8, 45u8, 108u8, 105u8, 110u8, 117u8, 120u8, 45u8, 103u8, 110u8, 117u8] {
        PrefixV::Fixed(seq![112u8, 111u8, 119u8, 101u8, 114u8, 112u8, 99u8, 54u8, 52u8, 108u8, 101u8, 45u8, 108u8, 105u8, 110u8, 117u8, 120u8, 45u8, 103u8, 110u8, 117u8])
    } else if t == seq![114u8, 105u8, 115u8, 99u8, 118u8, 54u8, 52u8, 103u8, 99u8, 45u8, 117u8, 110u8, 107u8, 110u8, 111u8, 119u8, 110u8, 45u8, 108u8, 105u8, 110u8, 117u8, 120u8, 45u8, 103u8, 110u8, 117u8] {
        PrefixV::Fixed(seq![114u8, 105u8, 115u8, 99u8, 118u8, 54u8, 52u8, 45u8, 108u8, 105u8, 110u8, 117u8, 120u8, 45u8, 103u8, 110u8, 117u8])
    } else if t == seq![114u8, 105u8, 115u8, 99u8, 118u8, 51u8, 50u8, 103u8, 99u8, 45u8, 117u8, 110u8, 107u8, 110u8, 111u8, 119u8, 110u8, 45u8, 108u8, 105u8, 110u8, 117u8, 120u8, 45u8, 103u8, 110u8, 117u8] {
        PrefixV::Fixed(seq![114u8, 105u8, 115u8, 99u8, 118u8, 51u8, 50u8, 45u8, 108u8, 105u8, 110u8, 117u8, 120u8, 45u8, 103u8, 110u8, 117u8])
    } else {
        PrefixV::Unknown
    }
}

#[verifier::spinoff_prover]
#[verifier::rlimit(100)]
fn prefix_group3(t: &[u8]) -> (r: Option<PrefixResult>)
    ensures
        match r {
            Some(p) => p@ =~~= spec_prefix_group3(t@) && !(spec_prefix_group3(t@) is Unknown),
            None => spec_prefix_group3(t@) is Unknown,
        },
{
    let mut k0: Vec<u8> = Vec::new();
    k0.push(109);
    k0.push(105);
    k0.push(112);
    k0.push(115);
    k0.push(54);
    k0.push(52);
    k0.push(101);
    k0.push(108);
    k0.push(45);
    k0.push(117);
    k0.push(110);
    k0.push(107);
    k0.push(110);
    k0.push(111);
    k0.push(119);
    k0.push(110);
    k0.push(45);
    k0.push(108);
    k0.push(105);
    k0.push(110);
    k0.push(117);
    k0.push(120);
    k0.push(45);
    k0.push(103);
    k0.push(110);
    k0.push(117);
    k0.push(97);
    k0.push(98);
    k0.push(105);
    k0.push(54);
    k0.push(52);
    proof {
        assert(k0@ =~= seq![109u8, 105u8, 112u8, 115u8, 54u8, 52u8, 101u8, 108u8, 45u8, 117u8, 110u8, 107u8, 110u8, 111u8, 119u8, 110u8, 45u8, 108u8, 105u8, 110u8, 117u8, 120u8, 45u8, 103u8, 110u8, 117u8, 97u8, 98u8, 105u8, 54u8, 52u8]);
    }
    if crate::bytes::bytes_eq(t, k0.as_slice()) {
    let mut v0: Vec<u8> = Vec::new();
    v0.push(109);
    v0.push(105);
    v0.push(112);
    v0.push(115);
    v0.push(54);
    v0.push(52);
    v0.push(101);
    v0.push(108);
    v0.push(45);
    v0.push(108);
    v0.push(105);
    v0.push(110);
    v0.push(117);
    v0.push(120);
    v0.push(45);
    v0.push(103);
    v0.push(110);
    v0.push(117);
    v0.push(97);
    v0.push(98);
    v0.push(105);
    v0.push(54);
    v0.push(52);
    proof {
        assert(v0@ =~= seq![109u8, 105u8, 112u8, 115u8, 54u8, 52u8, 101u8, 108u8, 45u8, 108u8, 105u8, 110u8, 117u8, 120u8, 45u8, 103u8, 110u8, 117u8, 97u8, 98u8, 105u8, 54u8, 52u8]);
    }
        return Some(PrefixResult::Fixed(v0));
    }
    let mut k1: Vec<u8> = Vec::new();
    k1.push(109);
    k1.push(105);
    k1.push(112);
    k1.push(115);
    k1.push(105);
    k1.push(115);
    k1.push(97);
    k1.push(51);
    k1.push(50);
    k1.push(114);
    k1.push(54);
    k1.push(45);
    k1.push(117);
    k1.push(110);
    k1.push(107);
    k1.push(110);
    k1.push(111);
    k1.push(119);
    k1.push(110);
    k1.push(45);
    k1.push(108);
    k1.push(105);
    k1.push(110);
    k1.push(117);
    k1.push(120);
    k1.push(45);
    k1.push(103);
    k1.push(110);
    k1.push(117);
    proof {
        assert(k1@ =~= seq![109u8, 105u8, 112u8, 115u8, 105u8, 115u8, 97u8, 51u8, 50u8, 114u8, 54u8, 45u8, 117u8, 110u8, 107u8, 110u8, 111u8, 119u8, 110u8, 45u8, 108u8, 105u8, 110u8, 117u8, 120u8, 45u8, 103u8, 110u8, 117u8]);
    }
    if crate::bytes::bytes_eq(t, k1.as_slice()) {
    let mut v1: Vec<u8> = Vec::new();
    v1.push(109);
    v1.push(105);
    v1.push(112);
    v1.push(115);
    v1.push(105);
    v1.push(115);
    v1.push(97);
    v1.push(51);
    v1.push(50);
    v1.push(114);
    v1.push(54);
    v1.push(45);
    v1.push(108);
    v1.push(105);
    v1.push(110);
    v1.push(117);
    v1.push(120);
    v1.push(45);
    v1.push(103);
    v1.push(110);
    v1.push(117);
    proof {
        assert(v1@ =~= seq![109u8, 105u8, 112u8, 115u8, 105u8, 115u8, 97u8, 51u8, 50u8, 114u8, 54u8, 45u8, 108u8, 105u8, 110u8, 117u8, 120u8, 45u8, 103u8, 110u8, 117u8]);
    }
        return Some(PrefixResult::Fixed(v1));
    }
    let mut k2: Vec<u8> = Vec::new();
    k2.push(109);
    k2.push(105);
    k2.push(112);
    k2.push(115);
    k2.push(105);
    k2.push(115);
    k2.push(97);
    k2.push(51);
    k2.push(50);
    k2.push(114);
    k2.push(54);
    k2.push(101);
    k2.push(108);
    k2.push(45);
    k2.push(117);
    k2.push(110);
    k2.push(107);
    k2.push(110);
    k2.push(111);
    k2.push(119);
    k2.push(110);
    k2.push(45);
    k2.push(108);
    k2.push(105);
    k2.push(110);
    k2.push(117);
    k2.push(120);
    k2.push(45);
    k2.push(103);
    k2.push(110);
    k2.push(117);
    proof {
        assert(k2@ =~= seq![109u8, 105u8, 112u8, 115u8, 105u8, 115u8, 97u8, 51u8, 50u8, 114u8, 54u8, 101u8, 108u8, 45u8, 117u8, 110u8, 107u8, 110u8, 111u8, 119u8, 110u8, 45u8, 108u8, 105u8, 110u8, 117u8, 120u8, 45u8, 103u8, 110u8, 117u8]);
    }
    if crate::bytes::bytes_eq(t, k2.as_slice()) {
    let mut v2: Vec<u8> = Vec::new();
    v2.push(109);
    v2.push(105);
    v2.push(112);
    v2.push(115);
    v2.push(105);
    v2.push(115);
    v2.push(97);
    v2.push(51);
    v2.push(50);
    v2.push(114);
    v2.push(54);
    v2.push(101);
    v2.push(108);
    v2.push(45);
    v2.push(108);
    v2.push(105);
    v2.push(110);
    v2.push(117);
    v2.push(120);
    v2.push(45);
    v2.push(103);
    v2.push(110);
    v2.push(117);
    proof {
        assert(v2@ =~= seq![109u8, 105u8, 112u8, 115u8, 105u8, 115u8, 97u8, 51u8, 50u8, 114u8, 54u8, 101u8, 108u8, 45u8, 108u8, 105u8, 110u8, 117u8, 120u8, 45u8, 103u8, 110u8, 117u8]);
    }
        return Some(PrefixResult::Fixed(v2));
    }
    let mut k3: Vec<u8> = Vec::new();
    k3.push(109);
    k3.push(105);
    k3.push(112);
    k3.push(115);
    k3.push(105);
    k3.push(115);
    k3.push(97);
    k3.push(54);
    k3.push(52);
    k3.push(114);
    k3.push(54);
    k3.push(45);
    k3.push(117);
    k3.push(110);
    k3.push(107);
    k3.push(110);
    k3.push(111);
    k3.push(119);
    k3.push(110);
    k3.push(45);
    k3.push(108);
    k3.push(105);
    k3.push(110);
    k3.push(117);
    k3.push(120);
    k3.push(45);
    k3.push(103);
    k3.push(110);
    k3.push(117);
    k3.push(97);
    k3.push(98);
    k3.push(105);
    k3.push(54);
    k3.push(52);
    proof {
        assert(k3@ =~= seq![109u8, 105u8, 112u8, 115u8, 105u8, 115u8, 97u8, 54u8, 52u8, 114u8, 54u8, 45u8, 117u8, 110u8, 107u8, 110u8, 111u8, 119u8, 110u8, 45u8, 108u8, 105u8, 110u8, 117u8, 120u8, 45u8, 103u8, 110u8, 117u8, 97u8, 98u8, 105u8, 54u8, 52u8]);
    }
    if crate::bytes::bytes_eq(t, k3.as_slice()) {
    let mut v3: Vec<u8> = Vec::new();
    v3.push(109);
    v3.push(105);
    v3.push(112);
    v3.push(115);
    v3.push(105);
    v3.push(115);
    v3.push(97);
    v3.push(54);
    v3.push(52);
    v3.push(114);
    v3.push(54);
    v3.push(45);
    v3.push(108);
    v3.push(105);
    v3.push(110);
    v3.push(117);
    v3.push(120);
    v3.push(45);
    v3.push(103);
    v3.push(110);
    v3.push(117);
    v3.push(97);
    v3.push(98);
    v3.push(105);
    v3.push(54);
    v3.push(52);
    proof {
        assert(v3@ =~= seq![109u8, 105u8, 112u8, 115u8, 105u8, 115u8, 97u8, 54u8, 52u8, 114u8, 54u8, 45u8, 108u8, 105u8, 110u8, 117u8, 120u8, 45u8, 103u8, 110u8, 117u8, 97u8, 98u8, 105u8, 54u8, 52u8]);
    }
        return Some(PrefixResult::Fixed(v3));
    }
    let mut k4: Vec<u8> = Vec::new();
    k4.push(109);
    k4.push(105);
    k4.push(112);
    k4.push(115);
    k4.push(105);
    k4.push(115);
    k4.push(97);
    k4.push(54);
    k4.push(52);
    k4.push(114);
    k4.push(54);
    k4.push(101);
    k4.push(108);
    k4.push(45);
    k4.push(117);
    k4.push(110);
    k4.push(107);
    k4.push(110);
    k4.push(111);
    k4.push(119);
    k4.push(110);
    k4.push(45);
    k4.push(108);
    k4.push(105);
    k4.push(110);
    k4.push(117);
    k4.push(120);
    k4.push(45);
    k4.push(103);
    k4.push(110);
    k4.push(117);
    k4.push(97);
    k4.push(98);
    k4.push(105);
    k4.push(54);
    k4.push(52);
    proof {
        assert(k4@ =~= seq![109u8, 105u8, 112u8, 115u8, 105u8, 115u8, 97u8, 54u8, 52u8, 114u8, 54u8, 101u8, 108u8, 45u8, 117u8, 110u8, 107u8, 110u8, 111u8, 119u8, 110u8, 45u8, 108u8, 105u8, 110u8, 117u8, 120u8, 45u8, 103u8, 110u8, 117u8, 97u8, 98u8, 105u8, 54u8, 52u8]);
    }
    if crate::bytes::bytes_eq(t, k4.as_slice()) {
    let mut v4: Vec<u8> = Vec::new();
    v4.push(109);
    v4.push(105);
    v4.push(112);
    v4.push(115);
    v4.push(105);
    v4.push(115);
    v4.push(97);
    v4.push(54);
    v4.push(52);
    v4.push(114);
    v4.push(54);
    v4.push(101);
    v4.push(108);
    v4.push(45);
    v4.push(108);
    v4.push(105);
    v4.push(110);
    v4.push(117);
    v4.push(120);
    v4.push(45);
    v4.push(103);
    v4.push(110);
    v4.push(117);
    v4.push(97);
    v4.push(98);
    v4.push(105);
    v4.push(54);
    v4.push(52);
    proof {
        assert(v4@ =~= seq![109u8, 105u8, 112u8, 115u8, 105u8, 115u8, 97u8, 54u8, 52u8, 114u8, 54u8, 101u8, 108u8, 45u8, 108u8, 105u8, 110u8, 117u8, 120u8, 45u8, 103u8, 110u8, 117u8, 97u8, 98u8, 105u8, 54u8, 52u8]);
    }
        return Some(PrefixResult::Fixed(v4));
    }
    let mut k5: Vec<u8> = Vec::new();
    k5.push(112);
    k5.push(111);
    k5.push(119);
    k5.push(101);
    k5.push(114);
    k5.push(112);
    k5.push(99);
    k5.push(45);
    k5.push(117);
    k5.push(110);
    k5.push(107);
    k5.push(110);
    k5.push(111);
    k5.push(119);
    k5.push(110);
    k5.push(45);
    k5.push(108);
    k5.push(105);
    k5.push(110);
    k5.push(117);
    k5.push(120);
    k5.push(45);
    k5.push(103);
    k5.push(110);
    k5.push(117);
    proof {
        assert(k5@ =~= seq![112u8, 111u8, 119u8, 101u8, 114u8, 112u8, 99u8, 45u8, 117u8, 110u8, 107u8, 110u8, 111u8, 119u8, 110u8, 45u8, 108u8, 105u8, 110u8, 117u8, 120u8, 45u8, 103u8, 110u8, 117u8]);
    }
    if crate::bytes::bytes_eq(t, k5.as_slice()) {
    let mut v5: Vec<u8> = Vec::new();
    v5.push(112);
    v5.push(111);
    v5.push(119);
    v5.push(101);
    v5.push(114);
    v5.push(112);
    v5.push(99);
    v5.push(45);
    v5.push(108);
    v5.push(105);
    v5.push(110);
    v5.push(117);
    v5.push(120);
    v5.push(45);
    v5.push(103);
    v5.push(110);
    v5.push(117);
    proof {
        assert(v5@ =~= seq![112u8, 111u8, 119u8, 101u8, 114u8, 112u8, 99u8, 45u8, 108u8, 105u8, 110u8, 117u8, 120u8, 45u8, 103u8, 110u8, 117u8]);
    }
        return Some(PrefixResult::Fixed(v5));
    }
    let mut k6: Vec<u8> = Vec::new();
    k6.push(112);
    k6.push(111);
    k6.push(119);
    k6.push(101);
    k6.push(114);
    k6.push(112);
    k6.push(99);
    k6.push(45);
    k6.push(117);
    k6.push(110);
    k6.push(107);
    k6.push(110);
    k6.push(111);
    k6.push(119);
    k6.push(110);
    k6.push(45);
    k6.push(108);
    k6.push(105);
    k6.push(110);
    k6.push(117);
    k6.push(120);
    k6.push(45);
    k6.push(103);
    k6.push(110);
    k6.push(117);
    k6.push(115);
    k6.push(112);
    k6.push(101);
    proof {
        assert(k6@ =~= seq![112u8, 111u8, 119u8, 101u8, 114u8, 112u8, 99u8, 45u8, 117u8, 110u8, 107u8, 110u8, 111u8, 119u8, 110u8, 45u8, 108u8, 105u8, 110u8, 117u8, 120u8, 45u8, 103u8, 110u8, 117u8, 115u8, 112u8, 101u8]);
    }
    if crate::bytes::bytes_eq(t, k6.as_slice()) {
    let mut v6: Vec<u8> = Vec::new();
    v6.push(112);
    v6.push(111);
    v6.push(119);
    v6.push(101);
    v6.push(114);
    v6.push(112);
    v6.push(99);
    v6.push(45);
    v6.push(108);
    v6.push(105);
    v6.push(110);
    v6.push(117);
    v6.push(120);
    v6.push(45);
    v6.push(103);
    v6.push(110);
    v6.push(117);
    v6.push(115);
    v6.push(112);
    v6.push(101);
    proof {
        assert(v6@ =~= seq![112u8, 111u8, 119u8, 101u8, 114u8, 112u8, 99u8, 45u8, 108u8, 105u8, 110u8, 117u8, 120u8, 45u8, 103u8, 110u8, 117u8, 115u8, 112u8, 101u8]);
    }
        return Some(PrefixResult::Fixed(v6));
    }
    let mut k7: Vec<u8> = Vec::new();
    k7.push(112);
    k7.push(111);
    k7.push(119);
    k7.push(101);
    k7.push(114);
    k7.push(112);
    k7.push(99);
    k7.push(45);
    k7.push(117);
    k7.push(110);
    k7.push(107);
    k7.push(110);
    k7.push(111);
    k7.push(119);
    k7.push(110);
    k7.push(45);
    k7.push(110);
    k7.push(101);
    k7.push(116);
    k7.push(98);
    k7.push(115);
    k7.push(100);
    proof {
        assert(k7@ =~= seq![112u8, 111u8, 119u8, 101u8, 114u8, 112u8, 99u8, 45u8, 117u8, 110u8, 107u8, 110u8, 111u8, 119u8, 110u8, 45u8, 110u8, 101u8, 116u8, 98u8, 115u8, 100u8]);
    }
    if crate::bytes::bytes_eq(t, k7.as_slice()) {
    let mut v7: Vec<u8> = Vec::new();
    v7.push(112);
    v7.push(111);
    v7.push(119);
    v7.push(101);
    v7.push(114);
    v7.push(112);
    v7.push(99);
    v7.push(45);
    v7.push(45);
    v7.push(110);
    v7.push(101);
    v7.push(116);
    v7.push(98);
    v7.push(115);
    v7.push(100);
    proof {
        assert(v7@ =~= seq![112u8, 111u8, 119u8, 101u8, 114u8, 112u8, 99u8, 45u8, 45u8, 110u8, 101u8, 116u8, 98u8, 115u8, 100u8]);
    }
        return Some(PrefixResult::Fixed(v7));
    }
    let mut k8: Vec<u8> = Vec::new();
    k8.push(112);
    k8.push(111);
    k8.push(119);
    k8.push(101);
    k8.push(114);
    k8.push(112);
    k8.push(99);
    k8.push(54);
    k8.push(52);
    k8.push(45);
    k8.push(117);
    k8.push(110);
    k8.push(107);
    k8.push(110);
    k8.push(111);
    k8.push(119);
    k8.push(110);
    k8.push(45);
    k8.push(108);
    k8.push(105);
    k8.push(110);
    k8.push(117);
    k8.push(120);
    k8.push(45);
    k8.push(103);
    k8.push(110);
    k8.push(117);
    proof {
        assert(k8@ =~= seq![112u8, 111u8, 119u8, 101u8, 114u8, 112u8, 99u8, 54u8, 52u8, 45u8, 117u8, 110u8, 107u8, 110u8, 111u8, 119u8, 110u8, 45u8, 108u8, 105u8, 110u8, 117u8, 120u8, 45u8, 103u8, 110u8, 117u8]);
    }
    if crate::bytes::bytes_eq(t, k8.as_slice()) {
    let mut v8: Vec<u8> = Vec::new();
    v8.push(112);
    v8.push(111);
    v8.push(119);
    v8.push(101);
    v8.push(114);
    v8.push(112);
    v8.push(99);
    v8.push(45);
    v8.push(108);
    v8.push(105);
    v8.push(110);
    v8.push(117);
    v8.push(120);
    v8.push(45);
    v8.push(103);
    v8.push(110);
    v8.push(117);
    proof {
        assert(v8@ =~= seq![112u8, 111u8, 119u8, 101u8, 114u8, 112u8, 99u8, 45u8, 108u8, 105u8, 110u8, 117u8, 120u8, 45u8, 103u8, 110u8, 117u8]);
    }
        return Some(PrefixResult::Fixed(v8));
    }
    let mut k9: Vec<u8> = Vec::new();
    k9.push(112);
    k9.push(111);
    k9.push(119);
    k9.push(101);
    k9.push(114);
    k9.push(112);
    k9.push(99);
    k9.push(54);
    k9.push(52);
    k9.push(108);
    k9.push(101);
    k9.push(45);
    k9.push(117);
    k9.push(110);
    k9.push(107);
    k9.push(110);
    k9.push(111);
    k9.push(119);
    k9.push(110);
    k9.push(45);
    k9.push(108);
    k9.push(105);
    k9.push(110);
    k9.push(117);
    k9.push(120);
    k9.push(45);
    k9.push(103);
    k9.push(110);
    k9.push(117);
    proof {
        assert(k9@ =~= seq![112u8, 111u8, 119u8, 101u8, 114u8, 112u8, 99u8, 54u8, 52u8, 108u8, 101u8, 45u8, 117u8, 110u8, 107u8, 110u8, 111u8, 119u8, 110u8, 45u8, 108u8, 105u8, 110u8, 117u8, 120u8, 45u8, 103u8, 110u8, 117u8]);
    }
    if crate::bytes::bytes_eq(t, k9.as_slice()) {
    let mut v9: Vec<u8> = Vec::new();
    v9.push(112);
    v9.push(111);
    v9.push(119);
    v9.push(101);
    v9.push(114);
    v9.push(112);
    v9.push(99);
    v9.push(54);
    v9.push(52);
    v9.push(108);
    v9.push(101);
    v9.push(45);
    v9.push(108);
    v9.push(105);
    v9.push(110);
    v9.push(117);
    v9.push(120);
    v9.push(45);
    v9.push(103);
    v9.push(110);
    v9.push(117);
    proof {
        assert(v9@ =~= seq![112u8, 111u8, 119u8, 101u8, 114u8, 112u8, 99u8, 54u8, 52u8, 108u8, 101u8, 45u8, 108u8, 105u8, 110u8, 117u8, 120u8, 45u8, 103u8, 110u8, 117u8]);
    }
        return Some(PrefixResult::Fixed(v9));
    }
    let mut k10: Vec<u8> = Vec::new();
    k10.push(114);
    k10.push(105);
    k10.push(115);
    k10.push(99);
    k10.push(118);
    k10.push(54);
    k10.push(52);
    k10.push(103);
    k10.push(99);
    k10.push(45);
    k10.push(117);
    k10.push(110);
    k10.push(107);
    k10.push(110);
    k10.push(111);
    k10.push(119);
    k10.push(110);
    k10.push(45);
    k10.push(108);
    k10.push(105);
    k10.push(110);
    k10.push(117);
    k10.push(120);
    k10.push(45);
    k10.push(103);
    k10.push(110);
    k10.push(117);
    proof {
        assert(k10@ =~= seq![114u8, 105u8, 115u8, 99u8, 118u8, 54u8, 52u8, 103u8, 99u8, 45u8, 117u8, 110u8, 107u8, 110u8, 111u8, 119u8, 110u8, 45u8, 108u8, 105u8, 110u8, 117u8, 120u8, 45u8, 103u8, 110u8, 117u8]);
    }
    if crate::bytes::bytes_eq(t, k10.as_slice()) {
    let mut v10: Vec<u8> = Vec::new();
    v10.push(114);
    v10.push(105);
    v10.push(115);
    v10.push(99);
    v10.push(118);
    v10.push(54);
    v10.push(52);
    v10.push(45);
    v10.push(108);
    v10.push(105);
    v10.push(110);
    v10.push(117);
    v10.push(120);
    v10.push(45);
    v10.push(103);
    v10.push(110);
    v10.push(117);
    proof {
        assert(v10@ =~= seq![114u8, 105u8, 115u8, 99u8, 118u8, 54u8, 52u8, 45u8, 108u8, 105u8, 110u8, 117u8, 120u8, 45u8, 103u8, 110u8, 117u8]);
    }
        return Some(PrefixResult::Fixed(v10));
    }
    let mut k11: Vec<u8> = Vec::new();
    k11.push(114);
    k11.push(105);
    k11.push(115);
    k11.push(99);
    k11.push(118);
    k11.push(51);
    k11.push(50);
    k11.push(103);
    k11.push(99);
    k11.push(45);
    k11.push(117);
    k11.push(110);
    k11.push(107);
    k11.push(110);
    k11.push(111);
    k11.push(119);
    k11.push(110);
    k11.push(45);
    k11.push(108);
    k11.push(105);
    k11.push(110);
    k11.push(117);
    k11.push(120);
    k11.push(45);
    k11.push(103);
    k11.push(110);
    k11.push(117);
    proof {
        assert(k11@ =~= seq![114u8, 105u8, 115u8, 99u8, 118u8, 51u8, 50u8, 103u8, 99u8, 45u8, 117u8, 110u8, 107u8, 110u8, 111u8, 119u8, 110u8, 45u8, 108u8, 105u8, 110u8, 117u8, 120u8, 45u8, 103u8, 110u8, 117u8]);
    }
    if crate::bytes::bytes_eq(t, k11.as_slice()) {
    let mut v11: Vec<u8> = Vec::new();
    v11.push(114);
    v11.push(105);
    v11.push(115);
    v11.push(99);
    v11.push(118);
    v11.push(51);
    v11.push(50);
    v11.push(45);
    v11.push(108);
    v11.push(105);
    v11.push(110);
    v11.push(117);
    v11.push(120);
    v11.push(45);
    v11.push(103);
    v11.push(110);
    v11.push(117);
    proof {
        assert(v11@ =~= seq![114u8, 105u8, 115u8, 99u8, 118u8, 51u8, 50u8, 45u8, 108u8, 105u8, 110u8, 117u8, 120u8, 45u8, 103u8, 110u8, 117u8]);
    }
        return Some(PrefixResult::Fixed(v11));
    }
    None
}

/// One slice of the prefix table.
pub open spec fn spec_prefix_group4(t: Seq<u8>) -> PrefixV {
    if t == seq![114u8, 105u8, 115u8, 99u8, 118u8, 54u8, 52u8, 103u8, 99u8, 45u8, 117u8, 110u8, 107u8, 110u8, 111u8, 119u8, 110u8, 45u8, 108u8, 105u8, 110u8, 117u8, 120u8, 45u8, 109u8, 117u8, 115u8, 108u8] {
        PrefixV::Fixed(seq![114u8, 105u8, 115u8, 99u8, 118u8, 54u8, 52u8, 45u8, 108u8, 105u8, 110u8, 117u8, 120u8, 45u8, 109u8, 117u8, 115u8, 108u8])
    } else if t == seq![114u8, 105u8, 115u8, 99u8, 118u8, 51u8, 50u8, 103u8, 99u8, 45u8, 117u8, 110u8, 107u8, 110u8, 111u8, 119u8, 110u8, 45u8, 108u8, 105u8, 110u8, 117u8, 120u8, 45u8, 109u8, 117u8, 115u8, 108u8] {
        PrefixV::Fixed(seq![114u8, 105u8, 115u8, 99u8, 118u8, 51u8, 50u8, 45u8, 108u8, 105u8, 110u8, 117u8, 120u8, 45u8, 109u8, 117u8, 115u8, 108u8])
    } else if t == seq![115u8, 51u8, 57u8, 48u8, 120u8, 45u8, 117u8, 110u8, 107u8, 110u8, 111u8, 119u8, 110u8, 45u8, 108u8, 105u8, 110u8, 117u8, 120u8, 45u8, 103u8, 110u8, 117u8] {
        PrefixV::Fixed(seq![115u8, 51u8, 57u8, 48u8, 120u8, 45u8, 108u8, 105u8, 110u8, 117u8, 120u8, 45u8, 103u8, 110u8, 117u8])
    } else if t == seq![115u8, 112u8, 97u8, 114u8, 99u8, 45u8, 117u8, 110u8, 107u8, 110u8, 111u8, 119u8, 110u8, 45u8, 108u8, 105u8, 110u8, 117u8, 120u8, 45u8, 103u8, 110u8, 117u8] {
        PrefixV::Fixed(seq![115u8, 112u8, 97u8, 114u8, 99u8, 45u8, 108u8, 105u8, 110u8, 117u8, 120u8, 45u8, 103u8, 110u8, 117u8])
    } else if t == seq![115u8, 112u8, 97u8, 114u8, 99u8, 54u8, 52u8, 45u8, 117u8, 110u8, 107u8, 110u8, 111u8, 119u8, 110u8, 45u8, 108u8, 105u8, 110u8, 117u8, 120u8, 45u8, 103u8, 110u8, 117u8] {
        PrefixV::Fixed(seq![115u8, 112u8, 97u8, 114u8, 99u8, 54u8, 52u8, 45u8, 108u8, 105u8, 110u8, 117u8, 120u8, 45u8, 103u8, 110u8, 117u8])
    } else if t == seq![115u8, 112u8, 97u8, 114u8, 99u8, 54u8, 52u8, 45u8, 117u8, 110u8, 107u8, 110u8, 111u8, 119u8, 110u8, 45u8, 110u8, 101u8, 116u8, 98u8, 115u8, 100u8] {
        PrefixV::Fixed(seq![115u8, 112u8, 97u8, 114u8, 99u8, 54u8, 52u8, 45u8, 45u8, 110u8, 101u8, 116u8, 98u8, 115u8, 100u8])
    } else if t == seq![115u8, 112u8, 97u8, 114u8, 99u8, 118u8, 57u8, 45u8, 115u8, 117u8, 110u8, 45u8, 115u8, 111u8, 108u8, 97u8, 114u8, 105u8, 115u8] {
        PrefixV::Fixed(seq![115u8, 112u8, 97u8, 114u8, 99u8, 118u8, 57u8, 45u8, 115u8, 117u8, 110u8, 45u8, 115u8, 111u8, 108u8, 97u8, 114u8, 105u8, 115u8])
    } else if t == seq![97u8, 114u8, 109u8, 118u8, 55u8, 97u8, 45u8, 110u8, 111u8, 110u8, 101u8, 45u8, 101u8, 97u8, 98u8, 105u8] {
        PrefixV::Fixed(seq![97u8, 114u8, 109u8, 45u8, 110u8, 111u8, 110u8, 101u8, 45u8, 101u8, 97u8, 98u8, 105u8])
    } else if t == seq![97u8, 114u8, 109u8, 118u8, 55u8, 97u8, 45u8, 110u8, 111u8, 110u8, 101u8, 45u8, 101u8, 97u8, 98u8, 105u8, 104u8, 102u8] {
        PrefixV::Fixed(seq![97u8, 114u8, 109u8, 45u8, 110u8, 111u8, 110u8, 101u8, 45u8, 101u8, 97u8, 98u8, 105u8])
    } else if t == seq![97u8, 114u8, 109u8, 101u8, 98u8, 118u8, 55u8, 114u8, 45u8, 110u8, 111u8, 110u8, 101u8, 45u8, 101u8, 97u8, 98u8, 105u8] {
        PrefixV::Fixed(seq![97u8, 114u8, 109u8, 45u8, 110u8, 111u8, 110u8, 101u8, 45u8, 101u8, 97u8, 98u8, 105u8])
    } else if t == seq![97u8, 114u8, 109u8, 101u8, 98u8, 118u8, 55u8, 114u8, 45u8, 110u8, 111u8, 110u8, 101u8, 45u8, 101u8, 97u8, 98u8, 105u8, 104u8, 102u8] {
        PrefixV::Fixed(seq![97u8, 114u8, 109u8, 45u8, 110u8, 111u8, 110u8, 101u8, 45u8, 101u8, 97u8, 98u8, 105u8])
    } else if t == seq![97u8, 114u8, 109u8, 118u8, 55u8, 114u8, 45u8, 110u8, 111u8, 110u8, 101u8, 45u8, 101u8, 97u8, 98u8, 105u8] {
        PrefixV::Fixed(seq![97u8, 114u8, 109u8, 45u8, 110u8, 111u8, 110u8, 101u8, 45u8, 101u8, 97u8, 98u8, 105u8])
    } else {
        PrefixV::Unknown
    }
}

#[verifier::spinoff_prover]
#[verifier::rlimit(100)]
fn prefix_group4(t: &[u8]) -> (r: Option<PrefixResult>)
    ensures
        match r {
            Some(p) => p@ =~~= spec_prefix_group4(t@) && !(spec_prefix_group4(t@) is Unknown),
            None => spec_prefix_group4(t@) is Unknown,
        },
{
    let mut k0: Vec<u8> = Vec::new();
    k0.push(114);
    k0.push(105);
    k0.push(115);
    k0.push(99);
    k0.push(118);
    k0.push(54);
    k0.push(52);
    k0.push(103);
    k0.push(99);
    k0.push(45);
    k0.push(117);
    k0.push(110);
    k0.push(107);
    k0.push(110);
    k0.push(111);
    k0.push(119);
    k0.push(110);
    k0.push(45);
    k0.push(108);
    k0.push(105);
    k0.push(110);
    k0.push(117);
    k0.push(120);
    k0.push(45);
    k0.push(109);
    k0.push(117);
    k0.push(115);
    k0.push(108);
    proof {
        assert(k0@ =~= seq![114u8, 105u8, 115u8, 99u8, 118u8, 54u8, 52u8, 103u8, 99u8, 45u8, 117u8, 110u8, 107u8, 110u8, 111u8, 119u8, 110u8, 45u8, 108u8, 105u8, 110u8, 117u8, 120u8, 45u8, 109u8, 117u8, 115u8, 108u8]);
    }
    if crate::bytes::bytes_eq(t, k0.as_slice()) {
    let mut v0: Vec<u8> = Vec::new();
    v0.push(114);
    v0.push(105);
    v0.push(115);
    v0.push(99);
    v0.push(118);
    v0.push(54);
    v0.push(52);
    v0.push(45);
    v0.push(108);
    v0.push(105);
    v0.push(110);
    v0.push(117);
    v0.push(120);
    v0.push(45);
    v0.push(109);
    v0.push(117);
    v0.push(115);
    v0.push(108);
    proof {
        assert(v0@ =~= seq![114u8, 105u8, 115u8, 99u8, 118u8, 54u8, 52u8, 45u8, 108u8, 105u8, 110u8, 117u8, 120u8, 45u8, 109u8, 117u8, 115u8, 108u8]);
    }
        return Some(PrefixResult::Fixed(v0));
    }
    let mut k1: Vec<u8> = Vec::new();
    k1.push(114);
    k1.push(105);
    k1.push(115);
    k1.push(99);
    k1.push(118);
    k1.push(51);
    k1.push(50);
    k1.push(103);
    k1.push(99);
    k1.push(45);
    k1.push(117);
    k1.push(110);
    k1.push(107);
    k1.push(110);
    k1.push(111);
    k1.push(119);
    k1.push(110);
    k1.push(45);
    k1.push(108);
    k1.push(105);
    k1.push(110);
    k1.push(117);
    k1.push(120);
    k1.push(45);
    k1.push(109);
    k1.push(117);
    k1.push(115);
    k1.push(108);
    proof {
        assert(k1@ =~= seq![114u8, 105u8, 115u8, 99u8, 118u8, 51u8, 50u8, 103u8, 99u8, 45u8, 117u8, 110u8, 107u8, 110u8, 111u8, 119u8, 110u8, 45u8, 108u8, 105u8, 110u8, 117u8, 120u8, 45u8, 109u8, 117u8, 115u8, 108u8]);
    }
    if crate::bytes::bytes_eq(t, k1.as_slice()) {
    let mut v1: Vec<u8> = Vec::new();
    v1.push(114);
    v1.push(105);
    v1.push(115);
    v1.push(99);
    v1.push(118);
    v1.push(51);
    v1.push(50);
    v1.push(45);
    v1.push(108);
    v1.push(105);
    v1.push(110);
    v1.push(117);
    v1.push(120);
    v1.push(45);
    v1.push(109);
    v1.push(117);
    v1.push(115);
    v1.push(108);
    proof {
        assert(v1@ =~= seq![114u8, 105u8, 115u8, 99u8, 118u8, 51u8, 50u8, 45u8, 108u8, 105u8, 110u8, 117u8, 120u8, 45u8, 109u8, 117u8, 115u8, 108u8]);
    }
        return Some(PrefixResult::Fixed(v1));
    }
    let mut k2: Vec<u8> = Vec::new();
    k2.push(115);
    k2.push(51);
    k2.push(57);
    k2.push(48);
    k2.push(120);
    k2.push(45);
    k2.push(117);
    k2.push(110);
    k2.push(107);
    k2.push(110);
    k2.push(111);
    k2.push(119);
    k2.push(110);
    k2.push(45);
    k2.push(108);
    k2.push(105);
    k2.push(110);
    k2.push(117);
    k2.push(120);
    k2.push(45);
    k2.push(103);
    k2.push(110);
    k2.push(117);
    proof {
        assert(k2@ =~= seq![115u8, 51u8, 57u8, 48u8, 120u8, 45u8, 117u8, 110u8, 107u8, 110u8, 111u8, 119u8, 110u8, 45u8, 108u8, 105u8, 110u8, 117u8, 120u8, 45u8, 103u8, 110u8, 117u8]);
    }
    if crate::bytes::bytes_eq(t, k2.as_slice()) {
    let mut v2: Vec<u8> = Vec::new();
    v2.push(115);
    v2.push(51);
    v2.push(57);
    v2.push(48);
    v2.push(120);
    v2.push(45);
    v2.push(108);
    v2.push(105);
    v2.push(110);
    v2.push(117);
    v2.push(120);
    v2.push(45);
    v2.push(103);
    v2.push(110);
    v2.push(117);
    proof {
        assert(v2@ =~= seq![115u8, 51u8, 57u8, 48u8, 120u8, 45u8, 108u8, 105u8, 110u8, 117u8, 120u8, 45u8, 103u8, 110u8, 117u8]);
    }
        return Some(PrefixResult::Fixed(v2));
    }
    let mut k3: Vec<u8> = Vec::new();
    k3.push(115);
    k3.push(112);
    k3.push(97);
    k3.push(114);
    k3.push(99);
    k3.push(45);
    k3.push(117);
    k3.push(110);
    k3.push(107);
    k3.push(110);
    k3.push(111);
    k3.push(119);
    k3.push(110);
    k3.push(45);
    k3.push(108);
    k3.push(105);
    k3.push(110);
    k3.push(117);
    k3.push(120);
    k3.push(45);
    k3.push(103);
    k3.push(110);
    k3.push(117);
    proof {
        assert(k3@ =~= seq![115u8, 112u8, 97u8, 114u8, 99u8, 45u8, 117u8, 110u8, 107u8, 110u8, 111u8, 119u8, 110u8, 45u8, 108u8, 105u8, 110u8, 117u8, 120u8, 45u8, 103u8, 110u8, 117u8]);
    }
    if crate::bytes::bytes_eq(t, k3.as_slice()) {
    let mut v3: Vec<u8> = Vec::new();
    v3.push(115);
    v3.push(112);
    v3.push(97);
    v3.push(114);
    v3.push(99);
    v3.push(45);
    v3.push(108);
    v3.push(105);
    v3.push(110);
    v3.push(117);
    v3.push(120);
    v3.push(45);
    v3.push(103);
    v3.push(110);
    v3.push(117);
    proof {
        assert(v3@ =~= seq![115u8, 112u8, 97u8, 114u8, 99u8, 45u8, 108u8, 105u8, 110u8, 117u8, 120u8, 45u8, 103u8, 110u8, 117u8]);
    }
        return Some(PrefixResult::Fixed(v3));
    }
    let mut k4: Vec<u8> = Vec::new();
    k4.push(115);
    k4.push(112);
    k4.push(97);
    k4.push(114);
    k4.push(99);
    k4.push(54);
    k4.push(52);
    k4.push(45);
    k4.push(117);
    k4.push(110);
    k4.push(107);
    k4.push(110);
    k4.push(111);
    k4.push(119);
    k4.push(110);
    k4.push(45);
    k4.push(108);
    k4.push(105);
    k4.push(110);
    k4.push(117);
    k4.push(120);
    k4.push(45);
    k4.push(103);
    k4.push(110);
    k4.push(117);
    proof {
        assert(k4@ =~= seq![115u8, 112u8, 97u8, 114u8, 99u8, 54u8, 52u8, 45u8, 117u8, 110u8, 107u8, 110u8, 111u8, 119u8, 110u8, 45u8, 108u8, 105u8, 110u8, 117u8, 120u8, 45u8, 103u8, 110u8, 117u8]);
    }
    if crate::bytes::bytes_eq(t, k4.as_slice()) {
    let mut v4: Vec<u8> = Vec::new();
    v4.push(115);
    v4.push(112);
    v4.push(97);
    v4.push(114);
    v4.push(99);
    v4.push(54);
    v4.push(52);
    v4.push(45);
    v4.push(108);
    v4.push(105);
    v4.push(110);
    v4.push(117);
    v4.push(120);
    v4.push(45);
    v4.push(103);
    v4.push(110);
    v4.push(117);
    proof {
        assert(v4@ =~= seq![115u8, 112u8, 97u8, 114u8, 99u8, 54u8, 52u8, 45u8, 108u8, 105u8, 110u8, 117u8, 120u8, 45u8, 103u8, 110u8, 117u8]);
    }
        return Some(PrefixResult::Fixed(v4));
    }
    let mut k5: Vec<u8> = Vec::new();
    k5.push(115);
    k5.push(112);
    k5.push(97);
    k5.push(114);
    k5.push(99);
    k5.push(54);
    k5.push(52);
    k5.push(45);
    k5.push(117);
    k5.push(110);
    k5.push(107);
    k5.push(110);
    k5.push(111);
    k5.push(119);
    k5.push(110);
    k5.push(45);
    k5.push(110);
    k5.push(101);
    k5.push(116);
    k5.push(98);
    k5.push(115);
    k5.push(100);
    proof {
        assert(k5@ =~= seq![115u8, 112u8, 97u8, 114u8, 99u8, 54u8, 52u8, 45u8, 117u8, 110u8, 107u8, 110u8, 111u8, 119u8, 110u8, 45u8, 110u8, 101u8, 116u8, 98u8, 115u8, 100u8]);
    }
    if crate::bytes::bytes_eq(t, k5.as_slice()) {
    let mut v5: Vec<u8> = Vec::new();
    v5.push(115);
    v5.push(112);
    v5.push(97);
    v5.push(114);
    v5.push(99);
    v5.push(54);
    v5.push(52);
    v5.push(45);
    v5.push(45);
    v5.push(110);
    v5.push(101);
    v5.push(116);
    v5.push(98);
    v5.push(115);
    v5.push(100);
    proof {
        assert(v5@ =~= seq![115u8, 112u8, 97u8, 114u8, 99u8, 54u8, 52u8, 45u8, 45u8, 110u8, 101u8, 116u8, 98u8, 115u8, 100u8]);
    }
        return Some(PrefixResult::Fixed(v5));
    }
    let mut k6: Vec<u8> = Vec::new();
    k6.push(115);
    k6.push(112);
    k6.push(97);
    k6.push(114);
    k6.push(99);
    k6.push(118);
    k6.push(57);
    k6.push(45);
    k6.push(115);
    k6.push(117);
    k6.push(110);
    k6.push(45);
    k6.push(115);
    k6.push(111);
    k6.push(108);
    k6.push(97);
    k6.push(114);
    k6.push(105);
    k6.push(115);
    proof {
        assert(k6@ =~= seq![115u8, 112u8, 97u8, 114u8, 99u8, 118u8, 57u8, 45u8, 115u8, 117u8, 110u8, 45u8, 115u8, 111u8, 108u8, 97u8, 114u8, 105u8, 115u8]);
    }
    if crate::bytes::bytes_eq(t, k6.as_slice()) {
    let mut v6: Vec<u8> = Vec::new();
    v6.push(115);
    v6.push(112);
    v6.push(97);
    v6.push(114);
    v6.push(99);
    v6.push(118);
    v6.push(57);
    v6.push(45);
    v6.push(115);
    v6.push(117);
    v6.push(110);
    v6.push(45);
    v6.push(115);
    v6.push(111);
    v6.push(108);
    v6.push(97);
    v6.push(114);
    v6.push(105);
    v6.push(115);
    proof {
        assert(v6@ =~= seq![115u8, 112u8, 97u8, 114u8, 99u8, 118u8, 57u8, 45u8, 115u8, 117u8, 110u8, 45u8, 115u8, 111u8, 108u8, 97u8, 114u8, 105u8, 115u8]);
    }
        return Some(PrefixResult::Fixed(v6));
    }
    let mut k7: Vec<u8> = Vec::new();
    k7.push(97);
    k7.push(114);
    k7.push(109);
    k7.push(118);
    k7.push(55);
    k7.push(97);
    k7.push(45);
    k7.push(110);
    k7.push(111);
    k7.push(110);
    k7.push(101);
    k7.push(45);
    k7.push(101);
    k7.push(97);
    k7.push(98);
    k7.push(105);
    proof {
        assert(k7@ =~= seq![97u8, 114u8, 109u8, 118u8, 55u8, 97u8, 45u8, 110u8, 111u8, 110u8, 101u8, 45u8, 101u8, 97u8, 98u8, 105u8]);
    }
    if crate::bytes::bytes_eq(t, k7.as_slice()) {
    let mut v7: Vec<u8> = Vec::new();
    v7.push(97);
    v7.push(114);
    v7.push(109);
    v7.push(45);
    v7.push(110);
    v7.push(111);
    v7.push(110);
    v7.push(101);
    v7.push(45);
    v7.push(101);
    v7.push(97);
    v7.push(98);
    v7.push(105);
    proof {
        assert(v7@ =~= seq![97u8, 114u8, 109u8, 45u8, 110u8, 111u8, 110u8, 101u8, 45u8, 101u8, 97u8, 98u8, 105u8]);
    }
        return Some(PrefixResult::Fixed(v7));
    }
    let mut k8: Vec<u8> = Vec::new();
    k8.push(97);
    k8.push(114);
    k8.push(109);
    k8.push(118);
    k8.push(55);
    k8.push(97);
    k8.push(45);
    k8.push(110);
    k8.push(111);
    k8.push(110);
    k8.push(101);
    k8.push(45);
    k8.push(101);
    k8.push(97);
    k8.push(98);
    k8.push(105);
    k8.push(104);
    k8.push(102);
    proof {
        assert(k8@ =~= seq![97u8, 114u8, 109u8, 118u8, 55u8, 97u8, 45u8, 110u8, 111u8, 110u8, 101u8, 45u8, 101u8, 97u8, 98u8, 105u8, 104u8, 102u8]);
    }
    if crate::bytes::bytes_eq(t, k8.as_slice()) {
    let mut v8: Vec<u8> = Vec::new();
    v8.push(97);
    v8.push(114);
    v8.push(109);
    v8.push(45);
    v8.push(110);
    v8.push(111);
    v8.push(110);
    v8.push(101);
    v8.push(45);
    v8.push(101);
    v8.push(97);
    v8.push(98);
    v8.push(105);
    proof {
        assert(v8@ =~= seq![97u8, 114u8, 109u8, 45u8, 110u8, 111u8, 110u8, 101u8, 45u8, 101u8, 97u8, 98u8, 105u8]);
    }
        return Some(PrefixResult::Fixed(v8));
    }
    let mut k9: Vec<u8> = Vec::new();
    k9.push(97);
    k9.push(114);
    k9.push(109);
    k9.push(101);
    k9.push(98);
    k9.push(118);
    k9.push(55);
    k9.push(114);
    k9.push(45);
    k9.push(110);
    k9.push(111);
    k9.push(110);
    k9.push(101);
    k9.push(45);
    k9.push(101);
    k9.push(97);
    k9.push(98);
    k9.push(105);
    proof {
        assert(k9@ =~= seq![97u8, 114u8, 109u8, 101u8, 98u8, 118u8, 55u8, 114u8, 45u8, 110u8, 111u8, 110u8, 101u8, 45u8, 101u8, 97u8, 98u8, 105u8]);
    }
    if crate::bytes::bytes_eq(t, k9.as_slice()) {
    let mut v9: Vec<u8> = Vec::new();
    v9.push(97);
    v9.push(114);
    v9.push(109);
    v9.push(45);
    v9.push(110);
    v9.push(111);
    v9.push(110);
    v9.push(101);
    v9.push(45);
    v9.push(101);
    v9.push(97);
    v9.push(98);
    v9.push(105);
    proof {
        assert(v9@ =~= seq![97u8, 114u8, 109u8, 45u8, 110u8, 111u8, 110u8, 101u8, 45u8, 101u8, 97u8, 98u8, 105u8]);
    }
        return Some(PrefixResult::Fixed(v9));
    }
    let mut k10: Vec<u8> = Vec::new();
    k10.push(97);
    k10.push(114);
    k10.push(109);
    k10.push(101);
    k10.push(98);
    k10.push(118);
    k10.push(55);
    k10.push(114);
    k10.push(45);
    k10.push(110);
    k10.push(111);
    k10.push(110);
    k10.push(101);
    k10.push(45);
    k10.push(101);
    k10.push(97);
    k10.push(98);
    k10.push(105);
    k10.push(104);
    k10.push(102);
    proof {
        assert(k10@ =~= seq![97u8, 114u8, 109u8, 101u8, 98u8, 118u8, 55u8, 114u8, 45u8, 110u8, 111u8, 110u8, 101u8, 45u8, 101u8, 97u8, 98u8, 105u8, 104u8, 102u8]);
    }
    if crate::bytes::bytes_eq(t, k10.as_slice()) {
    let mut v10: Vec<u8> = Vec::new();
    v10.push(97);
    v10.push(114);
    v10.push(109);
    v10.push(45);
    v10.push(110);
    v10.push(111);
    v10.push(110);
    v10.push(101);
    v10.push(45);
    v10.push(101);
    v10.push(97);
    v10.push(98);
    v10.push(105);
    proof {
        assert(v10@ =~= seq![97u8, 114u8, 109u8, 45u8, 110u8, 111u8, 110u8, 101u8, 45u8, 101u8, 97u8, 98u8, 105u8]);
    }
        return Some(PrefixResult::Fixed(v10));
    }
    let mut k11: Vec<u8> = Vec::new();
    k11.push(97);
    k11.push(114);
    k11.push(109);
    k11.push(118);
    k11.push(55);
    k11.push(114);
    k11.push(45);
    k11.push(110);
    k11.push(111);
    k11.push(110);
    k11.push(101);
    k11.push(45);
    k11.push(101);
    k11.push(97);
    k11.push(98);
    k11.push(105);
    proof {
        assert(k11@ =~= seq![97u8, 114u8, 109u8, 118u8, 55u8, 114u8, 45u8, 110u8, 111u8, 110u8, 101u8, 45u8, 101u8, 97u8, 98u8, 105u8]);
    }
    if crate::bytes::bytes_eq(t, k11.as_slice()) {
    let mut v11: Vec<u8> = Vec::new();
    v11.push(97);
    v11.push(114);
    v11.push(109);
    v11.push(45);
    v11.push(110);
    v11.push(111);
    v11.push(110);
    v11.push(101);
    v11.push(45);
    v11.push(101);
    v11.push(97);
    v11.push(98);
    v11.push(105);
    proof {
        assert(v11@ =~= seq![97u8, 114u8, 109u8, 45u8, 110u8, 111u8, 110u8, 101u8, 45u8, 101u8, 97u8, 98u8, 105u8]);
    }
        return Some(PrefixResult::Fixed(v11));
    }
    None
}

/// One slice of the prefix table.
pub open spec fn spec_prefix_group5(t: Seq<u8>) -> PrefixV {
    if t == seq![97u8, 114u8, 109u8, 118u8, 55u8, 114u8, 45u8, 110u8, 111u8, 110u8, 101u8, 45u8, 101u8, 97u8, 98u8, 105u8, 104u8, 102u8] {
        PrefixV::Fixed(seq![97u8, 114u8, 109u8, 45u8, 110u8, 111u8, 110u8, 101u8, 45u8, 101u8, 97u8, 98u8, 105u8])
    } else if t == seq![116u8, 104u8, 117u8, 109u8, 98u8, 118u8, 54u8, 109u8, 45u8, 110u8, 111u8, 110u8, 101u8, 45u8, 101u8, 97u8, 98u8, 105u8] {
        PrefixV::Fixed(seq![97u8, 114u8, 109u8, 45u8, 110u8, 111u8, 110u8, 101u8, 45u8, 101u8, 97u8, 98u8, 105u8])
    } else if t == seq![116u8, 104u8, 117u8, 109u8, 98u8, 118u8, 55u8, 101u8, 109u8, 45u8, 110u8, 111u8, 110u8, 101u8, 45u8, 101u8, 97u8, 98u8, 105u8] {
        PrefixV::Fixed(seq![97u8, 114u8, 109u8, 45u8, 110u8, 111u8, 110u8, 101u8, 45u8, 101u8, 97u8, 98u8, 105u8])
    } else if t == seq![116u8, 104u8, 117u8, 109u8, 98u8, 118u8, 55u8, 101u8, 109u8, 45u8, 110u8, 111u8, 110u8, 101u8, 45u8, 101u8, 97u8, 98u8, 105u8, 104u8, 102u8] {
        PrefixV::Fixed(seq![97u8, 114u8, 109u8, 45u8, 110u8, 111u8, 110u8, 101u8, 45u8, 101u8, 97u8, 98u8, 105u8])
    } else if t == seq![116u8, 104u8, 117u8, 109u8, 98u8, 118u8, 55u8, 109u8, 45u8, 110u8, 111u8, 110u8, 101u8, 45u8, 101u8, 97u8, 98u8, 105u8] {
        PrefixV::Fixed(seq![97u8, 114u8, 109u8, 45u8, 110u8, 111u8, 110u8, 101u8, 45u8, 101u8, 97u8, 98u8, 105u8])
    } else if t == seq![116u8, 104u8, 117u8, 109u8, 98u8, 118u8, 56u8, 109u8, 46u8, 98u8, 97u8, 115u8, 101u8, 45u8, 110u8, 111u8, 110u8, 101u8, 45u8, 101u8, 97u8, 98u8, 105u8] {
        PrefixV::Fixed(seq![97u8, 114u8, 109u8, 45u8, 110u8, 111u8, 110u8, 101u8, 45u8, 101u8, 97u8, 98u8, 105u8])
    } else if t == seq![116u8, 104u8, 117u8, 109u8, 98u8, 118u8, 56u8, 109u8, 46u8, 109u8, 97u8, 105u8, 110u8, 45u8, 110u8, 111u8, 110u8, 101u8, 45u8, 101u8, 97u8, 98u8, 105u8] {
        PrefixV::Fixed(seq![97u8, 114u8, 109u8, 45u8, 110u8, 111u8, 110u8, 101u8, 45u8, 101u8, 97u8, 98u8, 105u8])
    } else if t == seq![116u8, 104u8, 117u8, 109u8, 98u8, 118u8, 56u8, 109u8, 46u8, 109u8, 97u8, 105u8, 110u8, 45u8, 110u8, 111u8, 110u8, 101u8, 45u8, 101u8, 97u8, 98u8, 105u8, 104u8, 102u8] {
        PrefixV::Fixed(seq![97u8, 114u8, 109u8, 45u8, 110u8, 111u8, 110u8, 101u8, 45u8, 101u8, 97u8, 98u8, 105u8])
    } else if t == seq![120u8, 56u8, 54u8, 95u8, 54u8, 52u8, 45u8, 112u8, 99u8, 45u8, 119u8, 105u8, 110u8, 100u8, 111u8, 119u8, 115u8, 45u8, 103u8, 110u8, 117u8] {
        PrefixV::Fixed(seq![120u8, 56u8, 54u8, 95u8, 54u8, 52u8, 45u8, 119u8, 54u8, 52u8, 45u8, 109u8, 105u8, 110u8, 103u8, 119u8, 51u8, 50u8])
    } else if t == seq![120u8, 56u8, 54u8, 95u8, 54u8, 52u8, 45u8, 112u8, 99u8, 45u8, 119u8, 105u8, 110u8, 100u8, 111u8, 119u8, 115u8, 45u8, 103u8, 110u8, 117u8, 108u8, 108u8, 118u8, 109u8] {
        PrefixV::Fixed(seq![120u8, 56u8, 54u8, 95u8, 54u8, 52u8, 45u8, 119u8, 54u8, 52u8, 45u8, 109u8, 105u8, 110u8, 103u8, 119u8, 51u8, 50u8])
    } else if t == seq![120u8, 56u8, 54u8, 95u8, 54u8, 52u8, 45u8, 117u8, 119u8, 112u8, 45u8, 119u8, 105u8, 110u8, 100u8, 111u8, 119u8, 115u8, 45u8, 103u8, 110u8, 117u8] {
        PrefixV::Fixed(seq![120u8, 56u8, 54u8, 95u8, 54u8, 52u8, 45u8, 119u8, 54u8, 52u8, 45u8, 109u8, 105u8, 110u8, 103u8, 119u8, 51u8, 50u8])
    } else if t == seq![120u8, 56u8, 54u8, 95u8, 54u8, 52u8, 45u8, 114u8, 117u8, 109u8, 112u8, 114u8, 117u8, 110u8, 45u8, 110u8, 101u8, 116u8, 98u8, 115u8, 100u8] {
        PrefixV::Fixed(seq![120u8, 56u8, 54u8, 95u8, 54u8, 52u8, 45u8, 114u8, 117u8, 109u8, 112u8, 114u8, 117u8, 110u8, 45u8, 110u8, 101u8, 116u8, 98u8, 115u8, 100u8])
    } else {
        PrefixV::Unknown
    }
}

#[verifier::spinoff_prover]
#[verifier::rlimit(100)]
fn prefix_group5(t: &[u8]) -> (r: Option<PrefixResult>)
    ensures
        match r {
            Some(p) => p@ =~~= spec_prefix_group5(t@) && !(spec_prefix_group5(t@) is Unknown),
            None => spec_prefix_group5(t@) is Unknown,
        },
{
    let mut k0: Vec<u8> = Vec::new();
    k0.push(97);
    k0.push(114);
    k0.push(109);
    k0.push(118);
    k0.push(55);
    k0.push(114);
    k0.push(45);
    k0.push(110);
    k0.push(111);
    k0.push(110);
    k0.push(101);
    k0.push(45);
    k0.push(101);
    k0.push(97);
    k0.push(98);
    k0.push(105);
    k0.push(104);
    k0.push(102);
    proof {
        assert(k0@ =~= seq![97u8, 114u8, 109u8, 118u8, 55u8, 114u8, 45u8, 110u8, 111u8, 110u8, 101u8, 45u8, 101u8, 97u8, 98u8, 105u8, 104u8, 102u8]);
    }
    if crate::bytes::bytes_eq(t, k0.as_slice()) {
    let mut v0: Vec<u8> = Vec::new();
    v0.push(97);
    v0.push(114);
    v0.push(109);
    v0.push(45);
    v0.push(110);
    v0.push(111);
    v0.push(110);
    v0.push(101);
    v0.push(45);
    v0.push(101);
    v0.push(97);
    v0.push(98);
    v0.push(105);
    proof {
        assert(v0@ =~= seq![97u8, 114u8, 109u8, 45u8, 110u8, 111u8, 110u8, 101u8, 45u8, 101u8, 97u8, 98u8, 105u8]);
    }
        return Some(PrefixResult::Fixed(v0));
    }
    let mut k1: Vec<u8> = Vec::new();
    k1.push(116);
    k1.push(104);
    k1.push(117);
    k1.push(109);
    k1.push(98);
    k1.push(118);
    k1.push(54);
    k1.push(109);
    k1.push(45);
    k1.push(110);
    k1.push(111);
    k1.push(110);
    k1.push(101);
    k1.push(45);
    k1.push(101);
    k1.push(97);
    k1.push(98);
    k1.push(105);
    proof {
        assert(k1@ =~= seq![116u8, 104u8, 117u8, 109u8, 98u8, 118u8, 54u8, 109u8, 45u8, 110u8, 111u8, 110u8, 101u8, 45u8, 101u8, 97u8, 98u8, 105u8]);
    }
    if crate::bytes::bytes_eq(t, k1.as_slice()) {
    let mut v1: Vec<u8> = Vec::new();
    v1.push(97);
    v1.push(114);
    v1.push(109);
    v1.push(45);
    v1.push(110);
    v1.push(111);
    v1.push(110);
    v1.push(101);
    v1.push(45);
    v1.push(101);
    v1.push(97);
    v1.push(98);
    v1.push(105);
    proof {
        assert(v1@ =~= seq![97u8, 114u8, 109u8, 45u8, 110u8, 111u8, 110u8, 101u8, 45u8, 101u8, 97u8, 98u8, 105u8]);
    }
        return Some(PrefixResult::Fixed(v1));
    }
    let mut k2: Vec<u8> = Vec::new();
    k2.push(116);
    k2.push(104);
    k2.push(117);
    k2.push(109);
    k2.push(98);
    k2.push(118);
    k2.push(55);
    k2.push(101);
    k2.push(109);
    k2.push(45);
    k2.push(110);
    k2.push(111);
    k2.push(110);
    k2.push(101);
    k2.push(45);
    k2.push(101);
    k2.push(97);
    k2.push(98);
    k2.push(105);
    proof {
        assert(k2@ =~= seq![116u8, 104u8, 117u8, 109u8, 98u8, 118u8, 55u8, 101u8, 109u8, 45u8, 110u8, 111u8, 110u8, 101u8, 45u8, 101u8, 97u8, 98u8, 105u8]);
    }
    if crate::bytes::bytes_eq(t, k2.as_slice()) {
    let mut v2: Vec<u8> = Vec::new();
    v2.push(97);
    v2.push(114);
    v2.push(109);
    v2.push(45);
    v2.push(110);
    v2.push(111);
    v2.push(110);
    v2.push(101);
    v2.push(45);
    v2.push(101);
    v2.push(97);
    v2.push(98);
    v2.push(105);
    proof {
        assert(v2@ =~= seq![97u8, 114u8, 109u8, 45u8, 110u8, 111u8, 110u8, 101u8, 45u8, 101u8, 97u8, 98u8, 105u8]);
    }
        return Some(PrefixResult::Fixed(v2));
    }
    let mut k3: Vec<u8> = Vec::new();
    k3.push(116);
    k3.push(104);
    k3.push(117);
    k3.push(109);
    k3.push(98);
    k3.push(118);
    k3.push(55);
    k3.push(101);
    k3.push(109);
    k3.push(45);
    k3.push(110);
    k3.push(111);
    k3.push(110);
    k3.push(101);
    k3.push(45);
    k3.push(101);
    k3.push(97);
    k3.push(98);
    k3.push(105);
    k3.push(104);
    k3.push(102);
    proof {
        assert(k3@ =~= seq![116u8, 104u8, 117u8, 109u8, 98u8, 118u8, 55u8, 101u8, 109u8, 45u8, 110u8, 111u8, 110u8, 101u8, 45u8, 101u8, 97u8, 98u8, 105u8, 104u8, 102u8]);
    }
    if crate::bytes::bytes_eq(t, k3.as_slice()) {
    let mut v3: Vec<u8> = Vec::new();
    v3.push(97);
    v3.push(114);
    v3.push(109);
    v3.push(45);
    v3.push(110);
    v3.push(111);
    v3.push(110);
    v3.push(101);
    v3.push(45);
    v3.push(101);
    v3.push(97);
    v3.push(98);
    v3.push(105);
    proof {
        assert(v3@ =~= seq![97u8, 114u8, 109u8, 45u8, 110u8, 111u8, 110u8, 101u8, 45u8, 101u8, 97u8, 98u8, 105u8]);
    }
        return Some(PrefixResult::Fixed(v3));
    }
    let mut k4: Vec<u8> = Vec::new();
    k4.push(116);
    k4.push(104);
    k4.push(117);
    k4.push(109);
    k4.push(98);
    k4.push(118);
    k4.push(55);
    k4.push(109);
    k4.push(45);
    k4.push(110);
    k4.push(111);
    k4.push(110);
    k4.push(101);
    k4.push(45);
    k4.push(101);
    k4.push(97);
    k4.push(98);
    k4.push(105);
    proof {
        assert(k4@ =~= seq![116u8, 104u8, 117u8, 109u8, 98u8, 118u8, 55u8, 109u8, 45u8, 110u8, 111u8, 110u8, 101u8, 45u8, 101u8, 97u8, 98u8, 105u8]);
    }
    if crate::bytes::bytes_eq(t, k4.as_slice()) {
    let mut v4: Vec<u8> = Vec::new();
    v4.push(97);
    v4.push(114);
    v4.push(109);
    v4.push(45);
    v4.push(110);
    v4.push(111);
    v4.push(110);
    v4.push(101);
    v4.push(45);
    v4.push(101);
    v4.push(97);
    v4.push(98);
    v4.push(105);
    proof {
        assert(v4@ =~= seq![97u8, 114u8, 109u8, 45u8, 110u8, 111u8, 110u8, 101u8, 45u8, 101u8, 97u8, 98u8, 105u8]);
    }
        return Some(PrefixResult::Fixed(v4));
    }
    let mut k5: Vec<u8> = Vec::new();
    k5.push(116);
    k5.push(104);
    k5.push(117);
    k5.push(109);
    k5.push(98);
    k5.push(118);
    k5.push(56);
    k5.push(109);
    k5.push(46);
    k5.push(98);
    k5.push(97);
    k5.push(115);
    k5.push(101);
    k5.push(45);
    k5.push(110);
    k5.push(111);
    k5.push(110);
    k5.push(101);
    k5.push(45);
    k5.push(101);
    k5.push(97);
    k5.push(98);
    k5.push(105);
    proof {
        assert(k5@ =~= seq![116u8, 104u8, 117u8, 109u8, 98u8, 118u8, 56u8, 109u8, 46u8, 98u8, 97u8, 115u8, 101u8, 45u8, 110u8, 111u8, 110u8, 101u8, 45u8, 101u8, 97u8, 98u8, 105u8]);
    }
    if crate::bytes::bytes_eq(t, k5.as_slice()) {
    let mut v5: Vec<u8> = Vec::new();
    v5.push(97);
    v5.push(114);
    v5.push(109);
    v5.push(45);
    v5.push(110);
    v5.push(111);
    v5.push(110);
    v5.push(101);
    v5.push(45);
    v5.push(101);
    v5.push(97);
    v5.push(98);
    v5.push(105);
    proof {
        assert(v5@ =~= seq![97u8, 114u8, 109u8, 45u8, 110u8, 111u8, 110u8, 101u8, 45u8, 101u8, 97u8, 98u8, 105u8]);
    }
        return Some(PrefixResult::Fixed(v5));
    }
    let mut k6: Vec<u8> = Vec::new();
    k6.push(116);
    k6.push(104);
    k6.push(117);
    k6.push(109);
    k6.push(98);
    k6.push(118);
    k6.push(56);
    k6.push(109);
    k6.push(46);
    k6.push(109);
    k6.push(97);
    k6.push(105);
    k6.push(110);
    k6.push(45);
    k6.push(110);
    k6.push(111);
    k6.push(110);
    k6.push(101);
    k6.push(45);
    k6.push(101);
    k6.push(97);
    k6.push(98);
    k6.push(105);
    proof {
        assert(k6@ =~= seq![116u8, 104u8, 117u8, 109u8, 98u8, 118u8, 56u8, 109u8, 46u8, 109u8, 97u8, 105u8, 110u8, 45u8, 110u8, 111u8, 110u8, 101u8, 45u8, 101u8, 97u8, 98u8, 105u8]);
    }
    if crate::bytes::bytes_eq(t, k6.as_slice()) {
    let mut v6: Vec<u8> = Vec::new();
    v6.push(97);
    v6.push(114);
    v6.push(109);
    v6.push(45);
    v6.push(110);
    v6.push(111);
    v6.push(110);
    v6.push(101);
    v6.push(45);
    v6.push(101);
    v6.push(97);
    v6.push(98);
    v6.push(105);
    proof {
        assert(v6@ =~= seq![97u8, 114u8, 109u8, 45u8, 110u8, 111u8, 110u8, 101u8, 45u8, 101u8, 97u8, 98u8, 105u8]);
    }
        return Some(PrefixResult::Fixed(v6));
    }
    let mut k7: Vec<u8> = Vec::new();
    k7.push(116);
    k7.push(104);
    k7.push(117);
    k7.push(109);
    k7.push(98);
    k7.push(118);
    k7.push(56);
    k7.push(109);
    k7.push(46);
    k7.push(109);
    k7.push(97);
    k7.push(105);
    k7.push(110);
    k7.push(45);
    k7.push(110);
    k7.push(111);
    k7.push(110);
    k7.push(101);
    k7.push(45);
    k7.push(101);
    k7.push(97);
    k7.push(98);
    k7.push(105);
    k7.push(104);
    k7.push(102);
    proof {
        assert(k7@ =~= seq![116u8, 104u8, 117u8, 109u8, 98u8, 118u8, 56u8, 109u8, 46u8, 109u8, 97u8, 105u8, 110u8, 45u8, 110u8, 111u8, 110u8, 101u8, 45u8, 101u8, 97u8, 98u8, 105u8, 104u8, 102u8]);
    }
    if crate::bytes::bytes_eq(t, k7.as_slice()) {
    let mut v7: Vec<u8> = Vec::new();
    v7.push(97);
    v7.push(114);
    v7.push(109);
    v7.push(45);
    v7.push(110);
    v7.push(111);
    v7.push(110);
    v7.push(101);
    v7.push(45);
    v7.push(101);
    v7.push(97);
    v7.push(98);
    v7.push(105);
    proof {
        assert(v7@ =~= seq![97u8, 114u8, 109u8, 45u8, 110u8, 111u8, 110u8, 101u8, 45u8, 101u8, 97u8, 98u8, 105u8]);
    }
        return Some(PrefixResult::Fixed(v7));
    }
    let mut k8: Vec<u8> = Vec::new();
    k8.push(120);
    k8.push(56);
    k8.push(54);
    k8.push(95);
    k8.push(54);
    k8.push(52);
    k8.push(45);
    k8.push(112);
    k8.push(99);
    k8.push(45);
    k8.push(119);
    k8.push(105);
    k8.push(110);
    k8.push(100);
    k8.push(111);
    k8.push(119);
    k8.push(115);
    k8.push(45);
    k8.push(103);
    k8.push(110);
    k8.push(117);
    proof {
        assert(k8@ =~= seq![120u8, 56u8, 54u8, 95u8, 54u8, 52u8, 45u8, 112u8, 99u8, 45u8, 119u8, 105u8, 110u8, 100u8, 111u8, 119u8, 115u8, 45u8, 103u8, 110u8, 117u8]);
    }
    if crate::bytes::bytes_eq(t, k8.as_slice()) {
    let mut v8: Vec<u8> = Vec::new();
    v8.push(120);
    v8.push(56);
    v8.push(54);
    v8.push(95);
    v8.push(54);
    v8.push(52);
    v8.push(45);
    v8.push(119);
    v8.push(54);
    v8.push(52);
    v8.push(45);
    v8.push(109);
    v8.push(105);
    v8.push(110);
    v8.push(103);
    v8.push(119);
    v8.push(51);
    v8.push(50);
    proof {
        assert(v8@ =~= seq![120u8, 56u8, 54u8, 95u8, 54u8, 52u8, 45u8, 119u8, 54u8, 52u8, 45u8, 109u8, 105u8, 110u8, 103u8, 119u8, 51u8, 50u8]);
    }
        return Some(PrefixResult::Fixed(v8));
    }
    let mut k9: Vec<u8> = Vec::new();
    k9.push(120);
    k9.push(56);
    k9.push(54);
    k9.push(95);
    k9.push(54);
    k9.push(52);
    k9.push(45);
    k9.push(112);
    k9.push(99);
    k9.push(45);
    k9.push(119);
    k9.push(105);
    k9.push(110);
    k9.push(100);
    k9.push(111);
    k9.push(119);
    k9.push(115);
    k9.push(45);
    k9.push(103);
    k9.push(110);
    k9.push(117);
    k9.push(108);
    k9.push(108);
    k9.push(118);
    k9.push(109);
    proof {
        assert(k9@ =~= seq![120u8, 56u8, 54u8, 95u8, 54u8, 52u8, 45u8, 112u8, 99u8, 45u8, 119u8, 105u8, 110u8, 100u8, 111u8, 119u8, 115u8, 45u8, 103u8, 110u8, 117u8, 108u8, 108u8, 118u8, 109u8]);
    }
    if crate::bytes::bytes_eq(t, k9.as_slice()) {
    let mut v9: Vec<u8> = Vec::new();
    v9.push(120);
    v9.push(56);
    v9.push(54);
    v9.push(95);
    v9.push(54);
    v9.push(52);
    v9.push(45);
    v9.push(119);
    v9.push(54);
    v9.push(52);
    v9.push(45);
    v9.push(109);
    v9.push(105);
    v9.push(110);
    v9.push(103);
    v9.push(119);
    v9.push(51);
    v9.push(50);
    proof {
        assert(v9@ =~= seq![120u8, 56u8, 54u8, 95u8, 54u8, 52u8, 45u8, 119u8, 54u8, 52u8, 45u8, 109u8, 105u8, 110u8, 103u8, 119u8, 51u8, 50u8]);
    }
        return Some(PrefixResult::Fixed(v9));
    }
    let mut k10: Vec<u8> = Vec::new();
    k10.push(120);
    k10.push(56);
    k10.push(54);
    k10.push(95);
    k10.push(54);
    k10.push(52);
    k10.push(45);
    k10.push(117);
    k10.push(119);
    k10.push(112);
    k10.push(45);
    k10.push(119);
    k10.push(105);
    k10.push(110);
    k10.push(100);
    k10.push(111);
    k10.push(119);
    k10.push(115);
    k10.push(45);
    k10.push(103);
    k10.push(110);
    k10.push(117);
    proof {
        assert(k10@ =~= seq![120u8, 56u8, 54u8, 95u8, 54u8, 52u8, 45u8, 117u8, 119u8, 112u8, 45u8, 119u8, 105u8, 110u8, 100u8, 111u8, 119u8, 115u8, 45u8, 103u8, 110u8, 117u8]);
    }
    if crate::bytes::bytes_eq(t, k10.as_slice()) {
    let mut v10: Vec<u8> = Vec::new();
    v10.push(120);
    v10.push(56);
    v10.push(54);
    v10.push(95);
    v10.push(54);
    v10.push(52);
    v10.push(45);
    v10.push(119);
    v10.push(54);
    v10.push(52);
    v10.push(45);
    v10.push(109);
    v10.push(105);
    v10.push(110);
    v10.push(103);
    v10.push(119);
    v10.push(51);
    v10.push(50);
    proof {
        assert(v10@ =~= seq![120u8, 56u8, 54u8, 95u8, 54u8, 52u8, 45u8, 119u8, 54u8, 52u8, 45u8, 109u8, 105u8, 110u8, 103u8, 119u8, 51u8, 50u8]);
    }
        return Some(PrefixResult::Fixed(v10));
    }
    let mut k11: Vec<u8> = Vec::new();
    k11.push(120);
    k11.push(56);
    k11.push(54);
    k11.push(95);
    k11.push(54);
    k11.push(52);
    k11.push(45);
    k11.push(114);
    k11.push(117);
    k11.push(109);
    k11.push(112);
    k11.push(114);
    k11.push(117);
    k11.push(110);
    k11.push(45);
    k11.push(110);
    k11.push(101);
    k11.push(116);
    k11.push(98);
    k11.push(115);
    k11.push(100);
    proof {
        assert(k11@ =~= seq![120u8, 56u8, 54u8, 95u8, 54u8, 52u8, 45u8, 114u8, 117u8, 109u8, 112u8, 114u8, 117u8, 110u8, 45u8, 110u8, 101u8, 116u8, 98u8, 115u8, 100u8]);
    }
    if crate::bytes::bytes_eq(t, k11.as_slice()) {
    let mut v11: Vec<u8> = Vec::new();
    v11.push(120);
    v11.push(56);
    v11.push(54);
    v11.push(95);
    v11.push(54);
    v11.push(52);
    v11.push(45);
    v11.push(114);
    v11.push(117);
    v11.push(109);
    v11.push(112);
    v11.push(114);
    v11.push(117);
    v11.push(110);
    v11.push(45);
    v11.push(110);
    v11.push(101);
    v11.push(116);
    v11.push(98);
    v11.push(115);
    v11.push(100);
    proof {
        assert(v11@ =~= seq![120u8, 56u8, 54u8, 95u8, 54u8, 52u8, 45u8, 114u8, 117u8, 109u8, 112u8, 114u8, 117u8, 110u8, 45u8, 110u8, 101u8, 116u8, 98u8, 115u8, 100u8]);
    }
        return Some(PrefixResult::Fixed(v11));
    }
    None
}

/// One slice of the prefix table.
pub open spec fn spec_prefix_group6(t: Seq<u8>) -> PrefixV {
    if t == seq![120u8, 56u8, 54u8, 95u8, 54u8, 52u8, 45u8, 117u8, 110u8, 107u8, 110u8, 111u8, 119u8, 110u8, 45u8, 108u8, 105u8, 110u8, 117u8, 120u8, 45u8, 109u8, 117u8, 115u8, 108u8] {
        PrefixV::Fixed(seq![109u8, 117u8, 115u8, 108u8])
    } else if t == seq![120u8, 56u8, 54u8, 95u8, 54u8, 52u8, 45u8, 117u8, 110u8, 107u8, 110u8, 111u8, 119u8, 110u8, 45u8, 110u8, 101u8, 116u8, 98u8, 115u8, 100u8] {
        PrefixV::Fixed(seq![120u8, 56u8, 54u8, 95u8, 54u8, 52u8, 45u8, 45u8, 110u8, 101u8, 116u8, 98u8, 115u8, 100u8])
    } else if t == seq![105u8, 54u8, 56u8, 54u8, 45u8, 117u8, 110u8, 107u8, 110u8, 111u8, 119u8, 110u8, 45u8, 108u8, 105u8, 110u8, 117u8, 120u8, 45u8, 103u8, 110u8, 117u8] {
        PrefixV::Probe(seq![seq![105u8, 54u8, 56u8, 54u8, 45u8, 108u8, 105u8, 110u8, 117u8, 120u8, 45u8, 103u8, 110u8, 117u8], seq![120u8, 56u8, 54u8, 95u8, 54u8, 52u8, 45u8, 108u8, 105u8, 110u8, 117u8, 120u8, 45u8, 103u8, 110u8, 117u8]])
    } else if t == seq![114u8, 105u8, 115u8, 99u8, 118u8, 51u8, 50u8, 105u8, 45u8, 117u8, 110u8, 107u8, 110u8, 111u8, 119u8, 110u8, 45u8, 110u8, 111u8, 110u8, 101u8, 45u8, 101u8, 108u8, 102u8] {
        PrefixV::Probe(seq![seq![114u8, 105u8, 115u8, 99u8, 118u8, 51u8, 50u8, 45u8, 117u8, 110u8, 107u8, 110u8, 111u8, 119u8, 110u8, 45u8, 101u8, 108u8, 102u8], seq![114u8, 105u8, 115u8, 99u8, 118u8, 54u8, 52u8, 45u8, 117u8, 110u8, 107u8, 110u8, 111u8, 119u8, 110u8, 45u8, 101u8, 108u8, 102u8], seq![114u8, 105u8, 115u8, 99u8, 118u8, 45u8, 110u8, 111u8, 110u8, 101u8, 45u8, 101u8, 109u8, 98u8, 101u8, 100u8]])
    } else if t == seq![114u8, 105u8, 115u8, 99u8, 118u8, 51u8, 50u8, 105u8, 109u8, 97u8, 99u8, 45u8, 117u8, 110u8, 107u8, 110u8, 111u8, 119u8, 110u8, 45u8, 110u8, 111u8, 110u8, 101u8, 45u8, 101u8, 108u8, 102u8] {
        PrefixV::Probe(seq![seq![114u8, 105u8, 115u8, 99u8, 118u8, 51u8, 50u8, 45u8, 117u8, 110u8, 107u8, 110u8, 111u8, 119u8, 110u8, 45u8, 101u8, 108u8, 102u8], seq![114u8, 105u8, 115u8, 99u8, 118u8, 54u8, 52u8, 45u8, 117u8, 110u8, 107u8, 110u8, 111u8, 119u8, 110u8, 45u8, 101u8, 108u8, 102u8], seq![114u8, 105u8, 115u8, 99u8, 118u8, 45u8, 110u8, 111u8, 110u8, 101u8, 45u8, 101u8, 109u8, 98u8, 101u8, 100u8]])
    } else if t == seq![114u8, 105u8, 115u8, 99u8, 118u8, 51u8, 50u8, 105u8, 109u8, 97u8, 99u8, 45u8, 117u8, 110u8, 107u8, 110u8, 111u8, 119u8, 110u8, 45u8, 120u8, 111u8, 117u8, 115u8, 45u8, 101u8, 108u8, 102u8] {
        PrefixV::Probe(seq![seq![114u8, 105u8, 115u8, 99u8, 118u8, 51u8, 50u8, 45u8, 117u8, 110u8, 107u8, 110u8, 111u8, 119u8, 110u8, 45u8, 101u8, 108u8, 102u8], seq![114u8, 105u8, 115u8, 99u8, 118u8, 54u8, 52u8, 45u8, 117u8, 110u8, 107u8, 110u8, 111u8, 119u8, 110u8, 45u8, 101u8, 108u8, 102u8], seq![114u8, 105u8, 115u8, 99u8, 118u8, 45u8, 110u8, 111u8, 110u8, 101u8, 45u8, 101u8, 109u8, 98u8, 101u8, 100u8]])
    } else if t == seq![114u8, 105u8, 115u8, 99u8, 118u8, 51u8, 50u8, 105u8, 109u8, 99u8, 45u8, 117u8, 110u8, 107u8, 110u8, 111u8, 119u8, 110u8, 45u8, 110u8, 111u8, 110u8, 101u8, 45u8, 101u8, 108u8, 102u8] {
        PrefixV::Probe(seq![seq![114u8, 105u8, 115u8, 99u8, 118u8, 51u8, 50u8, 45u8, 117u8, 110u8, 107u8, 110u8, 111u8, 119u8, 110u8, 45u8, 101u8, 108u8, 102u8], seq![114u8, 105u8, 115u8, 99u8, 118u8, 54u8, 52u8, 45u8, 117u8, 110u8, 107u8, 110u8, 111u8, 119u8, 110u8, 45u8, 101u8, 108u8, 102u8], seq![114u8, 105u8, 115u8, 99u8, 118u8, 45u8, 110u8, 111u8, 110u8, 101u8, 45u8, 101u8, 109u8, 98u8, 101u8, 100u8]])
    } else if t == seq![114u8, 105u8, 115u8, 99u8, 118u8, 54u8, 52u8, 103u8, 99u8, 45u8, 117u8, 110u8, 107u8, 110u8, 111u8, 119u8, 110u8, 45u8, 110u8, 111u8, 110u8, 101u8, 45u8, 101u8, 108u8, 102u8] {
        PrefixV::Probe(seq![seq![114u8, 105u8, 115u8, 99u8, 118u8, 54u8, 52u8, 45u8, 117u8, 110u8, 107u8, 110u8, 111u8, 119u8, 110u8, 45u8, 101u8, 108u8, 102u8], seq![114u8, 105u8, 115u8, 99u8, 118u8, 51u8, 50u8, 45u8, 117u8, 110u8, 107u8, 110u8, 111u8, 119u8, 110u8, 45u8, 101u8, 108u8, 102u8], seq![114u8, 105u8, 115u8, 99u8, 118u8, 45u8, 110u8, 111u8, 110u8, 101u8, 45u8, 101u8, 109u8, 98u8, 101u8, 100u8]])
    } else if t == seq![114u8, 105u8, 115u8, 99u8, 118u8, 54u8, 52u8, 105u8, 109u8, 97u8, 99u8, 45u8, 117u8, 110u8, 107u8, 110u8, 111u8, 119u8, 110u8, 45u8, 110u8, 111u8, 110u8, 101u8, 45u8, 101u8, 108u8, 102u8] {
        PrefixV::Probe(seq![seq![114u8, 105u8, 115u8, 99u8, 118u8, 54u8, 52u8, 45u8, 117u8, 110u8, 107u8, 110u8, 111u8, 119u8, 110u8, 45u8, 101u8, 108u8, 102u8], seq![114u8, 105u8, 115u8, 99u8, 118u8, 51u8, 50u8, 45u8, 117u8, 110u8, 107u8, 110u8, 111u8, 119u8, 110u8, 45u8, 101u8, 108u8, 102u8], seq![114u8, 105u8, 115u8, 99u8, 118u8, 45u8, 110u8, 111u8, 110u8, 101u8, 45u8, 101u8, 109u8, 98u8, 101u8, 100u8]])
    } else if t == seq![120u8, 56u8, 54u8, 95u8, 54u8, 52u8, 45u8, 117u8, 110u8, 107u8, 110u8, 111u8, 119u8, 110u8, 45u8, 108u8, 105u8, 110u8, 117u8, 120u8, 45u8, 103u8, 110u8, 117u8] {
        PrefixV::Probe(seq![seq![120u8, 56u8, 54u8, 95u8, 54u8, 52u8, 45u8, 108u8, 105u8, 110u8, 117u8, 120u8, 45u8, 103u8, 110u8, 117u8]])
    } else {
        PrefixV::Unknown
    }
}

#[verifier::spinoff_prover]
#[verifier::rlimit(100)]
fn prefix_group6(t: &[u8]) -> (r: Option<PrefixResult>)
    ensures
        match r {
            Some(p) => p@ =~~= spec_prefix_group6(t@) && !(spec_prefix_group6(t@) is Unknown),
            None => spec_prefix_group6(t@) is Unknown,
        },
{
    let mut k0: Vec<u8> = Vec::new();
    k0.push(120);
    k0.push(56);
    k0.push(54);
    k0.push(95);
    k0.push(54);
    k0.push(52);
    k0.push(45);
    k0.push(117);
    k0.push(110);
    k0.push(107);
    k0.push(110);
    k0.push(111);
    k0.push(119);
    k0.push(110);
    k0.push(45);
    k0.push(108);
    k0.push(105);
    k0.push(110);
    k0.push(117);
    k0.push(120);
    k0.push(45);
    k0.push(109);
    k0.push(117);
    k0.push(115);
    k0.push(108);
    proof {
        assert(k0@ =~= seq![120u8, 56u8, 54u8, 95u8, 54u8, 52u8, 45u8, 117u8, 110u8, 107u8, 110u8, 111u8, 119u8, 110u8, 45u8, 108u8, 105u8, 110u8, 117u8, 120u8, 45u8, 109u8, 117u8, 115u8, 108u8]);
    }
    if crate::bytes::bytes_eq(t, k0.as_slice()) {
    let mut v0: Vec<u8> = Vec::new();
    v0.push(109);
    v0.push(117);
    v0.push(115);
    v0.push(108);
    proof {
        assert(v0@ =~= seq![109u8, 117u8, 115u8, 108u8]);
    }
        return Some(PrefixResult::Fixed(v0));
    }
    let mut k1: Vec<u8> = Vec::new();
    k1.push(120);
    k1.push(56);
    k1.push(54);
    k1.push(95);
    k1.push(54);
    k1.push(52);
    k1.push(45);
    k1.push(117);
    k1.push(110);
    k1.push(107);
    k1.push(110);
    k1.push(111);
    k1.push(119);
    k1.push(110);
    k1.push(45);
    k1.push(110);
    k1.push(101);
    k1.push(116);
    k1.push(98);
    k1.push(115);
    k1.push(100);
    proof {
        assert(k1@ =~= seq![120u8, 56u8, 54u8, 95u8, 54u8, 52u8, 45u8, 117u8, 110u8, 107u8, 110u8, 111u8, 119u8, 110u8, 45u8, 110u8, 101u8, 116u8, 98u8, 115u8, 100u8]);
    }
    if crate::bytes::bytes_eq(t, k1.as_slice()) {
    let mut v1: Vec<u8> = Vec::new();
    v1.push(120);
    v1.push(56);
    v1.push(54);
    v1.push(95);
    v1.push(54);
    v1.push(52);
    v1.push(45);
    v1.push(45);
    v1.push(110);
    v1.push(101);
    v1.push(116);
    v1.push(98);
    v1.push(115);
    v1.push(100);
    proof {
        assert(v1@ =~= seq![120u8, 56u8, 54u8, 95u8, 54u8, 52u8, 45u8, 45u8, 110u8, 101u8, 116u8, 98u8, 115u8, 100u8]);
    }
        return Some(PrefixResult::Fixed(v1));
    }
    let mut k2: Vec<u8> = Vec::new();
    k2.push(105);
    k2.push(54);
    k2.push(56);
    k2.push(54);
    k2.push(45);
    k2.push(117);
    k2.push(110);
    k2.push(107);
    k2.push(110);
    k2.push(111);
    k2.push(119);
    k2.push(110);
    k2.push(45);
    k2.push(108);
    k2.push(105);
    k2.push(110);
    k2.push(117);
    k2.push(120);
    k2.push(45);
    k2.push(103);
    k2.push(110);
    k2.push(117);
    proof {
        assert(k2@ =~= seq![105u8, 54u8, 56u8, 54u8, 45u8, 117u8, 110u8, 107u8, 110u8, 111u8, 119u8, 110u8, 45u8, 108u8, 105u8, 110u8, 117u8, 120u8, 45u8, 103u8, 110u8, 117u8]);
    }
    if crate::bytes::bytes_eq(t, k2.as_slice()) {
    let mut v2_0: Vec<u8> = Vec::new();
    v2_0.push(105);
    v2_0.push(54);
    v2_0.push(56);
    v2_0.push(54);
    v2_0.push(45);
    v2_0.push(108);
    v2_0.push(105);
    v2_0.push(110);
    v2_0.push(117);
    v2_0.push(120);
    v2_0.push(45);
    v2_0.push(103);
    v2_0.push(110);
    v2_0.push(117);
    proof {
        assert(v2_0@ =~= seq![105u8, 54u8, 56u8, 54u8, 45u8, 108u8, 105u8, 110u8, 117u8, 120u8, 45u8, 103u8, 110u8, 117u8]);
    }
    let mut v2_1: Vec<u8> = Vec::new();
    v2_1.push(120);
    v2_1.push(56);
    v2_1.push(54);
    v2_1.push(95);
    v2_1.push(54);
    v2_1.push(52);
    v2_1.push(45);
    v2_1.push(108);
    v2_1.push(105);
    v2_1.push(110);
    v2_1.push(117);
    v2_1.push(120);
    v2_1.push(45);
    v2_1.push(103);
    v2_1.push(110);
    v2_1.push(117);
    proof {
        assert(v2_1@ =~= seq![120u8, 56u8, 54u8, 95u8, 54u8, 52u8, 45u8, 108u8, 105u8, 110u8, 117u8, 120u8, 45u8, 103u8, 110u8, 117u8]);
    }
        let mut ps: Vec<Vec<u8>> = Vec::new();
        ps.push(v2_0);
        ps.push(v2_1);
        proof {
            assert(ps@.map_values(|p: Vec<u8>| p@) =~~= seq![seq![105u8, 54u8, 56u8, 54u8, 45u8, 108u8, 105u8, 110u8, 117u8, 120u8, 45u8, 103u8, 110u8, 117u8], seq![120u8, 56u8, 54u8, 95u8, 54u8, 52u8, 45u8, 108u8, 105u8, 110u8, 117u8, 120u8, 45u8, 103u8, 110u8, 117u8]]);
        }
        return Some(PrefixResult::Probe(ps));
    }
    let mut k3: Vec<u8> = Vec::new();
    k3.push(114);
    k3.push(105);
    k3.push(115);
    k3.push(99);
    k3.push(118);
    k3.push(51);
    k3.push(50);
    k3.push(105);
    k3.push(45);
    k3.push(117);
    k3.push(110);
    k3.push(107);
    k3.push(110);
    k3.push(111);
    k3.push(119);
    k3.push(110);
    k3.push(45);
    k3.push(110);
    k3.push(111);
    k3.push(110);
    k3.push(101);
    k3.push(45);
    k3.push(101);
    k3.push(108);
    k3.push(102);
    proof {
        assert(k3@ =~= seq![114u8, 105u8, 115u8, 99u8, 118u8, 51u8, 50u8, 105u8, 45u8, 117u8, 110u8, 107u8, 110u8, 111u8, 119u8, 110u8, 45u8, 110u8, 111u8, 110u8, 101u8, 45u8, 101u8, 108u8, 102u8]);
    }
    if crate::bytes::bytes_eq(t, k3.as_slice()) {
    let mut v3_0: Vec<u8> = Vec::new();
    v3_0.push(114);
    v3_0.push(105);
    v3_0.push(115);
    v3_0.push(99);
    v3_0.push(118);
    v3_0.push(51);
    v3_0.push(50);
    v3_0.push(45);
    v3_0.push(117);
    v3_0.push(110);
    v3_0.push(107);
    v3_0.push(110);
    v3_0.push(111);
    v3_0.push(119);
    v3_0.push(110);
    v3_0.push(45);
    v3_0.push(101);
    v3_0.push(108);
    v3_0.push(102);
    proof {
        assert(v3_0@ =~= seq![114u8, 105u8, 115u8, 99u8, 118u8, 51u8, 50u8, 45u8, 117u8, 110u8, 107u8, 110u8, 111u8, 119u8, 110u8, 45u8, 101u8, 108u8, 102u8]);
    }
    let mut v3_1: Vec<u8> = Vec::new();
    v3_1.push(114);
    v3_1.push(105);
    v3_1.push(115);
    v3_1.push(99);
    v3_1.push(118);
    v3_1.push(54);
    v3_1.push(52);
    v3_1.push(45);
    v3_1.push(117);
    v3_1.push(110);
    v3_1.push(107);
    v3_1.push(110);
    v3_1.push(111);
    v3_1.push(119);
    v3_1.push(110);
    v3_1.push(45);
    v3_1.push(101);
    v3_1.push(108);
    v3_1.push(102);
    proof {
        assert(v3_1@ =~= seq![114u8, 105u8, 115u8, 99u8, 118u8, 54u8, 52u8, 45u8, 117u8, 110u8, 107u8, 110u8, 111u8, 119u8, 110u8, 45u8, 101u8, 108u8, 102u8]);
    }
    let mut v3_2: Vec<u8> = Vec::new();
    v3_2.push(114);
    v3_2.push(105);
    v3_2.push(115);
    v3_2.push(99);
    v3_2.push(118);
    v3_2.push(45);
    v3_2.push(110);
    v3_2.push(111);
    v3_2.push(110);
    v3_2.push(101);
    v3_2.push(45);
    v3_2.push(101);
    v3_2.push(109);
    v3_2.push(98);
    v3_2.push(101);
    v3_2.push(100);
    proof {
        assert(v3_2@ =~= seq![114u8, 105u8, 115u8, 99u8, 118u8, 45u8, 110u8, 111u8, 110u8, 101u8, 45u8, 101u8, 109u8, 98u8, 101u8, 100u8]);
    }
        let mut ps: Vec<Vec<u8>> = Vec::new();
        ps.push(v3_0);
        ps.push(v3_1);
        ps.push(v3_2);
        proof {
            assert(ps@.map_values(|p: Vec<u8>| p@) =~~= seq![seq![114u8, 105u8, 115u8, 99u8, 118u8, 51u8, 50u8, 45u8, 117u8, 110u8, 107u8, 110u8, 111u8, 119u8, 110u8, 45u8, 101u8, 108u8, 102u8], seq![114u8, 105u8, 115u8, 99u8, 118u8, 54u8, 52u8, 45u8, 117u8, 110u8, 107u8, 110u8, 111u8, 119u8, 110u8, 45u8, 101u8, 108u8, 102u8], seq![114u8, 105u8, 115u8, 99u8, 118u8, 45u8, 110u8, 111u8, 110u8, 101u8, 45u8, 101u8, 109u8, 98u8, 101u8, 100u8]]);
        }
        return Some(PrefixResult::Probe(ps));
    }
    let mut k4: Vec<u8> = Vec::new();
    k4.push(114);
    k4.push(105);
    k4.push(115);
    k4.push(99);
    k4.push(118);
    k4.push(51);
    k4.push(50);
    k4.push(105);
    k4.push(109);
    k4.push(97);
    k4.push(99);
    k4.push(45);
    k4.push(117);
    k4.push(110);
    k4.push(107);
    k4.push(110);
    k4.push(111);
    k4.push(119);
    k4.push(110);
    k4.push(45);
    k4.push(110);
    k4.push(111);
    k4.push(110);
    k4.push(101);
    k4.push(45);
    k4.push(101);
    k4.push(108);
    k4.push(102);
    proof {
        assert(k4@ =~= seq![114u8, 105u8, 115u8, 99u8, 118u8, 51u8, 50u8, 105u8, 109u8, 97u8, 99u8, 45u8, 117u8, 110u8, 107u8, 110u8, 111u8, 119u8, 110u8, 45u8, 110u8, 111u8, 110u8, 101u8, 45u8, 101u8, 108u8, 102u8]);
    }
    if crate::bytes::bytes_eq(t, k4.as_slice()) {
    let mut v4_0: Vec<u8> = Vec::new();
    v4_0.push(114);
    v4_0.push(105);
    v4_0.push(115);
    v4_0.push(99);
    v4_0.push(118);
    v4_0.push(51);
    v4_0.push(50);
    v4_0.push(45);
    v4_0.push(117);
    v4_0.push(110);
    v4_0.push(107);
    v4_0.push(110);
    v4_0.push(111);
    v4_0.push(119);
    v4_0.push(110);
    v4_0.push(45);
    v4_0.push(101);
    v4_0.push(108);
    v4_0.push(102);
    proof {
        assert(v4_0@ =~= seq![114u8, 105u8, 115u8, 99u8, 118u8, 51u8, 50u8, 45u8, 117u8, 110u8, 107u8, 110u8, 111u8, 119u8, 110u8, 45u8, 101u8, 108u8, 102u8]);
    }
    let mut v4_1: Vec<u8> = Vec::new();
    v4_1.push(114);
    v4_1.push(105);
    v4_1.push(115);
    v4_1.push(99);
    v4_1.push(118);
    v4_1.push(54);
    v4_1.push(52);
    v4_1.push(45);
    v4_1.push(117);
    v4_1.push(110);
    v4_1.push(107);
    v4_1.push(110);
    v4_1.push(111);
    v4_1.push(119);
    v4_1.push(110);
    v4_1.push(45);
    v4_1.push(101);
    v4_1.push(108);
    v4_1.push(102);
    proof {
        assert(v4_1@ =~= seq![114u8, 105u8, 115u8, 99u8, 118u8, 54u8, 52u8, 45u8, 117u8, 110u8, 107u8, 110u8, 111u8, 119u8, 110u8, 45u8, 101u8, 108u8, 102u8]);
    }
    let mut v4_2: Vec<u8> = Vec::new();
    v4_2.push(114);
    v4_2.push(105);
    v4_2.push(115);
    v4_2.push(99);
    v4_2.push(118);
    v4_2.push(45);
    v4_2.push(110);
    v4_2.push(111);
    v4_2.push(110);
    v4_2.push(101);
    v4_2.push(45);
    v4_2.push(101);
    v4_2.push(109);
    v4_2.push(98);
    v4_2.push(101);
    v4_2.push(100);
    proof {
        assert(v4_2@ =~= seq![114u8, 105u8, 115u8, 99u8, 118u8, 45u8, 110u8, 111u8, 110u8, 101u8, 45u8, 101u8, 109u8, 98u8, 101u8, 100u8]);
    }
        let mut ps: Vec<Vec<u8>> = Vec::new();
        ps.push(v4_0);
        ps.push(v4_1);
        ps.push(v4_2);
        proof {
            assert(ps@.map_values(|p: Vec<u8>| p@) =~~= seq![seq![114u8, 105u8, 115u8, 99u8, 118u8, 51u8, 50u8, 45u8, 117u8, 110u8, 107u8, 110u8, 111u8, 119u8, 110u8, 45u8, 101u8, 108u8, 102u8], seq![114u8, 105u8, 115u8, 99u8, 118u8, 54u8, 52u8, 45u8, 117u8, 110u8, 107u8, 110u8, 111u8, 119u8, 110u8, 45u8, 101u8, 108u8, 102u8], seq![114u8, 105u8, 115u8, 99u8, 118u8, 45u8, 110u8, 111u8, 110u8, 101u8, 45u8, 101u8, 109u8, 98u8, 101u8, 100u8]]);
        }
        return Some(PrefixResult::Probe(ps));
    }
    let mut k5: Vec<u8> = Vec::new();
    k5.push(114);
    k5.push(105);
    k5.push(115);
    k5.push(99);
    k5.push(118);
    k5.push(51);
    k5.push(50);
    k5.push(105);
    k5.push(109);
    k5.push(97);
    k5.push(99);
    k5.push(45);
    k5.push(117);
    k5.push(110);
    k5.push(107);
    k5.push(110);
    k5.push(111);
    k5.push(119);
    k5.push(110);
    k5.push(45);
    k5.push(120);
    k5.push(111);
    k5.push(117);
    k5.push(115);
    k5.push(45);
    k5.push(101);
    k5.push(108);
    k5.push(102);
    proof {
        assert(k5@ =~= seq![114u8, 105u8, 115u8, 99u8, 118u8, 51u8, 50u8, 105u8, 109u8, 97u8, 99u8, 45u8, 117u8, 110u8, 107u8, 110u8, 111u8, 119u8, 110u8, 45u8, 120u8, 111u8, 117u8, 115u8, 45u8, 101u8, 108u8, 102u8]);
    }
    if crate::bytes::bytes_eq(t, k5.as_slice()) {
    let mut v5_0: Vec<u8> = Vec::new();
    v5_0.push(114);
    v5_0.push(105);
    v5_0.push(115);
    v5_0.push(99);
    v5_0.push(118);
    v5_0.push(51);
    v5_0.push(50);
    v5_0.push(45);
    v5_0.push(117);
    v5_0.push(110);
    v5_0.push(107);
    v5_0.push(110);
    v5_0.push(111);
    v5_0.push(119);
    v5_0.push(110);
    v5_0.push(45);
    v5_0.push(101);
    v5_0.push(108);
    v5_0.push(102);
    proof {
        assert(v5_0@ =~= seq![114u8, 105u8, 115u8, 99u8, 118u8, 51u8, 50u8, 45u8, 117u8, 110u8, 107u8, 110u8, 111u8, 119u8, 110u8, 45u8, 101u8, 108u8, 102u8]);
    }
    let mut v5_1: Vec<u8> = Vec::new();
    v5_1.push(114);
    v5_1.push(105);
    v5_1.push(115);
    v5_1.push(99);
    v5_1.push(118);
    v5_1.push(54);
    v5_1.push(52);
    v5_1.push(45);
    v5_1.push(117);
    v5_1.push(110);
    v5_1.push(107);
    v5_1.push(110);
    v5_1.push(111);
    v5_1.push(119);
    v5_1.push(110);
    v5_1.push(45);
    v5_1.push(101);
    v5_1.push(108);
    v5_1.push(102);
    proof {
        assert(v5_1@ =~= seq![114u8, 105u8, 115u8, 99u8, 118u8, 54u8, 52u8, 45u8, 117u8, 110u8, 107u8, 110u8, 111u8, 119u8, 110u8, 45u8, 101u8, 108u8, 102u8]);
    }
    let mut v5_2: Vec<u8> = Vec::new();
    v5_2.push(114);
    v5_2.push(105);
    v5_2.push(115);
    v5_2.push(99);
    v5_2.push(118);
    v5_2.push(45);
    v5_2.push(110);
    v5_2.push(111);
    v5_2.push(110);
    v5_2.push(101);
    v5_2.push(45);
    v5_2.push(101);
    v5_2.push(109);
    v5_2.push(98);
    v5_2.push(101);
    v5_2.push(100);
    proof {
        assert(v5_2@ =~= seq![114u8, 105u8, 115u8, 99u8, 118u8, 45u8, 110u8, 111u8, 110u8, 101u8, 45u8, 101u8, 109u8, 98u8, 101u8, 100u8]);
    }
        let mut ps: Vec<Vec<u8>> = Vec::new();
        ps.push(v5_0);
        ps.push(v5_1);
        ps.push(v5_2);
        proof {
            assert(ps@.map_values(|p: Vec<u8>| p@) =~~= seq![seq![114u8, 105u8, 115u8, 99u8, 118u8, 51u8, 50u8, 45u8, 117u8, 110u8, 107u8, 110u8, 111u8, 119u8, 110u8, 45u8, 101u8, 108u8, 102u8], seq![114u8, 105u8, 115u8, 99u8, 118u8, 54u8, 52u8, 45u8, 117u8, 110u8, 107u8, 110u8, 111u8, 119u8, 110u8, 45u8, 101u8, 108u8, 102u8], seq![114u8, 105u8, 115u8, 99u8, 118u8, 45u8, 110u8, 111u8, 110u8, 101u8, 45u8, 101u8, 109u8, 98u8, 101u8, 100u8]]);
        }
        return Some(PrefixResult::Probe(ps));
    }
    let mut k6: Vec<u8> = Vec::new();
    k6.push(114);
    k6.push(105);
    k6.push(115);
    k6.push(99);
    k6.push(118);
    k6.push(51);
    k6.push(50);
    k6.push(105);
    k6.push(109);
    k6.push(99);
    k6.push(45);
    k6.push(117);
    k6.push(110);
    k6.push(107);
    k6.push(110);
    k6.push(111);
    k6.push(119);
    k6.push(110);
    k6.push(45);
    k6.push(110);
    k6.push(111);
    k6.push(110);
    k6.push(101);
    k6.push(45);
    k6.push(101);
    k6.push(108);
    k6.push(102);
    proof {
        assert(k6@ =~= seq![114u8, 105u8, 115u8, 99u8, 118u8, 51u8, 50u8, 105u8, 109u8, 99u8, 45u8, 117u8, 110u8, 107u8, 110u8, 111u8, 119u8, 110u8, 45u8, 110u8, 111u8, 110u8, 101u8, 45u8, 101u8, 108u8, 102u8]);
    }
    if crate::bytes::bytes_eq(t, k6.as_slice()) {
    let mut v6_0: Vec<u8> = Vec::new();
    v6_0.push(114);
    v6_0.push(105);
    v6_0.push(115);
    v6_0.push(99);
    v6_0.push(118);
    v6_0.push(51);
    v6_0.push(50);
    v6_0.push(45);
    v6_0.push(117);
    v6_0.push(110);
    v6_0.push(107);
    v6_0.push(110);
    v6_0.push(111);
    v6_0.push(119);
    v6_0.push(110);
    v6_0.push(45);
    v6_0.push(101);
    v6_0.push(108);
    v6_0.push(102);
    proof {
        assert(v6_0@ =~= seq![114u8, 105u8, 115u8, 99u8, 118u8, 51u8, 50u8, 45u8, 117u8, 110u8, 107u8, 110u8, 111u8, 119u8, 110u8, 45u8, 101u8, 108u8, 102u8]);
    }
    let mut v6_1: Vec<u8> = Vec::new();
    v6_1.push(114);
    v6_1.push(105);
    v6_1.push(115);
    v6_1.push(99);
    v6_1.push(118);
    v6_1.push(54);
    v6_1.push(52);
    v6_1.push(45);
    v6_1.push(117);
    v6_1.push(110);
    v6_1.push(107);
    v6_1.push(110);
    v6_1.push(111);
    v6_1.push(119);
    v6_1.push(110);
    v6_1.push(45);
    v6_1.push(101);
    v6_1.push(108);
    v6_1.push(102);
    proof {
        assert(v6_1@ =~= seq![114u8, 105u8, 115u8, 99u8, 118u8, 54u8, 52u8, 45u8, 117u8, 110u8, 107u8, 110u8, 111u8, 119u8, 110u8, 45u8, 101u8, 108u8, 102u8]);
    }
    let mut v6_2: Vec<u8> = Vec::new();
    v6_2.push(114);
    v6_2.push(105);
    v6_2.push(115);
    v6_2.push(99);
    v6_2.push(118);
    v6_2.push(45);
    v6_2.push(110);
    v6_2.push(111);
    v6_2.push(110);
    v6_2.push(101);
    v6_2.push(45);
    v6_2.push(101);
    v6_2.push(109);
    v6_2.push(98);
    v6_2.push(101);
    v6_2.push(100);
    proof {
        assert(v6_2@ =~= seq![114u8, 105u8, 115u8, 99u8, 118u8, 45u8, 110u8, 111u8, 110u8, 101u8, 45u8, 101u8, 109u8, 98u8, 101u8, 100u8]);
    }
        let mut ps: Vec<Vec<u8>> = Vec::new();
        ps.push(v6_0);
        ps.push(v6_1);
        ps.push(v6_2);
        proof {
            assert(ps@.map_values(|p: Vec<u8>| p@) =~~= seq![seq![114u8, 105u8, 115u8, 99u8, 118u8, 51u8, 50u8, 45u8, 117u8, 110u8, 107u8, 110u8, 111u8, 119u8, 110u8, 45u8, 101u8, 108u8, 102u8], seq![114u8, 105u8, 115u8, 99u8, 118u8, 54u8, 52u8, 45u8, 117u8, 110u8, 107u8, 110u8, 111u8, 119u8, 110u8, 45u8, 101u8, 108u8, 102u8], seq![114u8, 105u8, 115u8, 99u8, 118u8, 45u8, 110u8, 111u8, 110u8, 101u8, 45u8, 101u8, 109u8, 98u8, 101u8, 100u8]]);
        }
        return Some(PrefixResult::Probe(ps));
    }
    let mut k7: Vec<u8> = Vec::new();
    k7.push(114);
    k7.push(105);
    k7.push(115);
    k7.push(99);
    k7.push(118);
    k7.push(54);
    k7.push(52);
    k7.push(103);
    k7.push(99);
    k7.push(45);
    k7.push(117);
    k7.push(110);
    k7.push(107);
    k7.push(110);
    k7.push(111);
    k7.push(119);
    k7.push(110);
    k7.push(45);
    k7.push(110);
    k7.push(111);
    k7.push(110);
    k7.push(101);
    k7.push(45);
    k7.push(101);
    k7.push(108);
    k7.push(102);
    proof {
        assert(k7@ =~= seq![114u8, 105u8, 115u8, 99u8, 118u8, 54u8, 52u8, 103u8, 99u8, 45u8, 117u8, 110u8, 107u8, 110u8, 111u8, 119u8, 110u8, 45u8, 110u8, 111u8, 110u8, 101u8, 45u8, 101u8, 108u8, 102u8]);
    }
    if crate::bytes::bytes_eq(t, k7.as_slice()) {
    let mut v7_0: Vec<u8> = Vec::new();
    v7_0.push(114);
    v7_0.push(105);
    v7_0.push(115);
    v7_0.push(99);
    v7_0.push(118);
    v7_0.push(54);
    v7_0.push(52);
    v7_0.push(45);
    v7_0.push(117);
    v7_0.push(110);
    v7_0.push(107);
    v7_0.push(110);
    v7_0.push(111);
    v7_0.push(119);
    v7_0.push(110);
    v7_0.push(45);
    v7_0.push(101);
    v7_0.push(108);
    v7_0.push(102);
    proof {
        assert(v7_0@ =~= seq![114u8, 105u8, 115u8, 99u8, 118u8, 54u8, 52u8, 45u8, 117u8, 110u8, 107u8, 110u8, 111u8, 119u8, 110u8, 45u8, 101u8, 108u8, 102u8]);
    }
    let mut v7_1: Vec<u8> = Vec::new();
    v7_1.push(114);
    v7_1.push(105);
    v7_1.push(115);
    v7_1.push(99);
    v7_1.push(118);
    v7_1.push(51);
    v7_1.push(50);
    v7_1.push(45);
    v7_1.push(117);
    v7_1.push(110);
    v7_1.push(107);
    v7_1.push(110);
    v7_1.push(111);
    v7_1.push(119);
    v7_1.push(110);
    v7_1.push(45);
    v7_1.push(101);
    v7_1.push(108);
    v7_1.push(102);
    proof {
        assert(v7_1@ =~= seq![114u8, 105u8, 115u8, 99u8, 118u8, 51u8, 50u8, 45u8, 117u8, 110u8, 107u8, 110u8, 111u8, 119u8, 110u8, 45u8, 101u8, 108u8, 102u8]);
    }
    let mut v7_2: Vec<u8> = Vec::new();
    v7_2.push(114);
    v7_2.push(105);
    v7_2.push(115);
    v7_2.push(99);
    v7_2.push(118);
    v7_2.push(45);
    v7_2.push(110);
    v7_2.push(111);
    v7_2.push(110);
    v7_2.push(101);
    v7_2.push(45);
    v7_2.push(101);
    v7_2.push(109);
    v7_2.push(98);
    v7_2.push(101);
    v7_2.push(100);
    proof {
        assert(v7_2@ =~= seq![114u8, 105u8, 115u8, 99u8, 118u8, 45u8, 110u8, 111u8, 110u8, 101u8, 45u8, 101u8, 109u8, 98u8, 101u8, 100u8]);
    }
        let mut ps: Vec<Vec<u8>> = Vec::new();
        ps.push(v7_0);
        ps.push(v7_1);
        ps.push(v7_2);
        proof {
            assert(ps@.map_values(|p: Vec<u8>| p@) =~~= seq![seq![114u8, 105u8, 115u8, 99u8, 118u8, 54u8, 52u8, 45u8, 117u8, 110u8, 107u8, 110u8, 111u8, 119u8, 110u8, 45u8, 101u8, 108u8, 102u8], seq![114u8, 105u8, 115u8, 99u8, 118u8, 51u8, 50u8, 45u8, 117u8, 110u8, 107u8, 110u8, 111u8, 119u8, 110u8, 45u8, 101u8, 108u8, 102u8], seq![114u8, 105u8, 115u8, 99u8, 118u8, 45u8, 110u8, 111u8, 110u8, 101u8, 45u8, 101u8, 109u8, 98u8, 101u8, 100u8]]);
        }
        return Some(PrefixResult::Probe(ps));
    }
    let mut k8: Vec<u8> = Vec::new();
    k8.push(114);
    k8.push(105);
    k8.push(115);
    k8.push(99);
    k8.push(118);
    k8.push(54);
    k8.push(52);
    k8.push(105);
    k8.push(109);
    k8.push(97);
    k8.push(99);
    k8.push(45);
    k8.push(117);
    k8.push(110);
    k8.push(107);
    k8.push(110);
    k8.push(111);
    k8.push(119);
    k8.push(110);
    k8.push(45);
    k8.push(110);
    k8.push(111);
    k8.push(110);
    k8.push(101);
    k8.push(45);
    k8.push(101);
    k8.push(108);
    k8.push(102);
    proof {
        assert(k8@ =~= seq![114u8, 105u8, 115u8, 99u8, 118u8, 54u8, 52u8, 105u8, 109u8, 97u8, 99u8, 45u8, 117u8, 110u8, 107u8, 110u8, 111u8, 119u8, 110u8, 45u8, 110u8, 111u8, 110u8, 101u8, 45u8, 101u8, 108u8, 102u8]);
    }
    if crate::bytes::bytes_eq(t, k8.as_slice()) {
    let mut v8_0: Vec<u8> = Vec::new();
    v8_0.push(114);
    v8_0.push(105);
    v8_0.push(115);
    v8_0.push(99);
    v8_0.push(118);
    v8_0.push(54);
    v8_0.push(52);
    v8_0.push(45);
    v8_0.push(117);
    v8_0.push(110);
    v8_0.push(107);
    v8_0.push(110);
    v8_0.push(111);
    v8_0.push(119);
    v8_0.push(110);
    v8_0.push(45);
    v8_0.push(101);
    v8_0.push(108);
    v8_0.push(102);
    proof {
        assert(v8_0@ =~= seq![114u8, 105u8, 115u8, 99u8, 118u8, 54u8, 52u8, 45u8, 117u8, 110u8, 107u8, 110u8, 111u8, 119u8, 110u8, 45u8, 101u8, 108u8, 102u8]);
    }
    let mut v8_1: Vec<u8> = Vec::new();
    v8_1.push(114);
    v8_1.push(105);
    v8_1.push(115);
    v8_1.push(99);
    v8_1.push(118);
    v8_1.push(51);
    v8_1.push(50);
    v8_1.push(45);
    v8_1.push(117);
    v8_1.push(110);
    v8_1.push(107);
    v8_1.push(110);
    v8_1.push(111);
    v8_1.push(119);
    v8_1.push(110);
    v8_1.push(45);
    v8_1.push(101);
    v8_1.push(108);
    v8_1.push(102);
    proof {
        assert(v8_1@ =~= seq![114u8, 105u8, 115u8, 99u8, 118u8, 51u8, 50u8, 45u8, 117u8, 110u8, 107u8, 110u8, 111u8, 119u8, 110u8, 45u8, 101u8, 108u8, 102u8]);
    }
    let mut v8_2: Vec<u8> = Vec::new();
    v8_2.push(114);
    v8_2.push(105);
    v8_2.push(115);
    v8_2.push(99);
    v8_2.push(118);
    v8_2.push(45);
    v8_2.push(110);
    v8_2.push(111);
    v8_2.push(110);
    v8_2.push(101);
    v8_2.push(45);
    v8_2.push(101);
    v8_2.push(109);
    v8_2.push(98);
    v8_2.push(101);
    v8_2.push(100);
    proof {
        assert(v8_2@ =~= seq![114u8, 105u8, 115u8, 99u8, 118u8, 45u8, 110u8, 111u8, 110u8, 101u8, 45u8, 101u8, 109u8, 98u8, 101u8, 100u8]);
    }
        let mut ps: Vec<Vec<u8>> = Vec::new();
        ps.push(v8_0);
        ps.push(v8_1);
        ps.push(v8_2);
        proof {
            assert(ps@.map_values(|p: Vec<u8>| p@) =~~= seq![seq![114u8, 105u8, 115u8, 99u8, 118u8, 54u8, 52u8, 45u8, 117u8, 110u8, 107u8, 110u8, 111u8, 119u8, 110u8, 45u8, 101u8, 108u8, 102u8], seq![114u8, 105u8, 115u8, 99u8, 118u8, 51u8, 50u8, 45u8, 117u8, 110u8, 107u8, 110u8, 111u8, 119u8, 110u8, 45u8, 101u8, 108u8, 102u8], seq![114u8, 105u8, 115u8, 99u8, 118u8, 45u8, 110u8, 111u8, 110u8, 101u8, 45u8, 101u8, 109u8, 98u8, 101u8, 100u8]]);
        }
        return Some(PrefixResult::Probe(ps));
    }
    let mut k9: Vec<u8> = Vec::new();
    k9.push(120);
    k9.push(56);
    k9.push(54);
    k9.push(95);
    k9.push(54);
    k9.push(52);
    k9.push(45);
    k9.push(117);
    k9.push(110);
    k9.push(107);
    k9.push(110);
    k9.push(111);
    k9.push(119);
    k9.push(110);
    k9.push(45);
    k9.push(108);
    k9.push(105);
    k9.push(110);
    k9.push(117);
    k9.push(120);
    k9.push(45);
    k9.push(103);
    k9.push(110);
    k9.push(117);
    proof {
        assert(k9@ =~= seq![120u8, 56u8, 54u8, 95u8, 54u8, 52u8, 45u8, 117u8, 110u8, 107u8, 110u8, 111u8, 119u8, 110u8, 45u8, 108u8, 105u8, 110u8, 117u8, 120u8, 45u8, 103u8, 110u8, 117u8]);
    }
    if crate::bytes::bytes_eq(t, k9.as_slice()) {
    let mut v9_0: Vec<u8> = Vec::new();
    v9_0.push(120);
    v9_0.push(56);
    v9_0.push(54);
    v9_0.push(95);
    v9_0.push(54);
    v9_0.push(52);
    v9_0.push(45);
    v9_0.push(108);
    v9_0.push(105);
    v9_0.push(110);
    v9_0.push(117);
    v9_0.push(120);
    v9_0.push(45);
    v9_0.push(103);
    v9_0.push(110);
    v9_0.push(117);
    proof {
        assert(v9_0@ =~= seq![120u8, 56u8, 54u8, 95u8, 54u8, 52u8, 45u8, 108u8, 105u8, 110u8, 117u8, 120u8, 45u8, 103u8, 110u8, 117u8]);
    }
        let mut ps: Vec<Vec<u8>> = Vec::new();
        ps.push(v9_0);
        proof {
            assert(ps@.map_values(|p: Vec<u8>| p@) =~~= seq![seq![120u8, 56u8, 54u8, 95u8, 54u8, 52u8, 45u8, 108u8, 105u8, 110u8, 117u8, 120u8, 45u8, 103u8, 110u8, 117u8]]);
        }
        return Some(PrefixResult::Probe(ps));
    }
    None
}

/// The whole prefix table: the first group that knows the triple
/// answers.
pub open spec fn spec_prefix_for_target(t: Seq<u8>) -> PrefixV {
    if !(spec_prefix_group0(t) is Unknown) {
        spec_prefix_group0(t)
    } else { if !(spec_prefix_group1(t) is Unknown) {
        spec_prefix_group1(t)
    } else { if !(spec_prefix_group2(t) is Unknown) {
        spec_prefix_group2(t)
    } else { if !(spec_prefix_group3(t) is Unknown) {
        spec_prefix_group3(t)
    } else { if !(spec_prefix_group4(t) is Unknown) {
        spec_prefix_group4(t)
    } else { if !(spec_prefix_group5(t) is Unknown) {
        spec_prefix_group5(t)
    } else { if !(spec_prefix_group6(t) is Unknown) {
        spec_prefix_group6(t)
    } else { PrefixV::Unknown } } } } } } }
}

/// The GNU prefix rule for a triple: fixed, probed, or unknown.
pub fn prefix_for_target(t: &[u8]) -> (r: PrefixResult)
    ensures
        r@ =~~= spec_prefix_for_target(t@),
{
    match prefix_group0(t) {
        Some(p) => {
            return p;
        }
        None => {}
    }
    match prefix_group1(t) {
        Some(p) => {
            return p;
        }
        None => {}
    }
    match prefix_group2(t) {
        Some(p) => {
            return p;
        }
        None => {}
    }
    match prefix_group3(t) {
        Some(p) => {
            return p;
        }
        None => {}
    }
    match prefix_group4(t) {
        Some(p) => {
            return p;
        }
        None => {}
    }
    match prefix_group5(t) {
        Some(p) => {
            return p;
        }
        None => {}
    }
    match prefix_group6(t) {
        Some(p) => {
            return p;
        }
        None => {}
    }
    PrefixResult::Unknown
}

} // verus!
