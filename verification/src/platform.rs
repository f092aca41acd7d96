//! Host and target platform identities.

use vstd::prelude::*;

verus! {

/// Operating-system family the build host runs.
#[derive(Debug, Clone, Copy, PartialEq, Eq, Structural)]
pub enum HostOs {
    Windows,
    Apple,
    Linux,
}

/// Processor family the build host runs on.
#[derive(Debug, Clone, Copy, PartialEq, Eq, Structural)]
pub enum HostArch {
    X86,
    X8664,
    Aarch64,
}

/// The default target triple for a host platform: Windows and
/// Apple hosts map to their MSVC and Darwin triples, Linux hosts
/// to the GNU triple of their processor.
pub open spec fn spec_host_triple(os: HostOs, arch: HostArch) -> Seq<u8> {
    if os == HostOs::Windows && arch == HostArch::X8664 {
        seq![120u8, 56u8, 54u8, 95u8, 54u8, 52u8, 45u8, 112u8, 99u8, 45u8, 119u8, 105u8, 110u8, 100u8, 111u8, 119u8, 115u8, 45u8, 109u8, 115u8, 118u8, 99u8]
    } else if os == HostOs::Windows && arch == HostArch::X86 {
        seq![105u8, 54u8, 56u8, 54u8, 45u8, 112u8, 99u8, 45u8, 119u8, 105u8, 110u8, 100u8, 111u8, 119u8, 115u8, 45u8, 109u8, 115u8, 118u8, 99u8]
    } else if os == HostOs::Windows && arch == HostArch::Aarch64 {
        seq![105u8, 54u8, 56u8, 54u8, 45u8, 112u8, 99u8, 45u8, 119u8, 105u8, 110u8, 100u8, 111u8, 119u8, 115u8, 45u8, 109u8, 115u8, 118u8, 99u8]
    } else if os == HostOs::Apple && arch == HostArch::X8664 {
        seq![120u8, 56u8, 54u8, 95u8, 54u8, 52u8, 45u8, 97u8, 112u8, 112u8, 108u8, 101u8, 45u8, 100u8, 97u8, 114u8, 119u8, 105u8, 110u8]
    } else if os == HostOs::Apple && arch == HostArch::X86 {
        seq![120u8, 56u8, 54u8, 95u8, 54u8, 52u8, 45u8, 97u8, 112u8, 112u8, 108u8, 101u8, 45u8, 100u8, 97u8, 114u8, 119u8, 105u8, 110u8]
    } else if os == HostOs::Apple && arch == HostArch::Aarch64 {
        seq![120u8, 56u8, 54u8, 95u8, 54u8, 52u8, 45u8, 97u8, 112u8, 112u8, 108u8, 101u8, 45u8, 100u8, 97u8, 114u8, 119u8, 105u8, 110u8]
    } else if os == HostOs::Linux && arch == HostArch::Aarch64 {
        seq![97u8, 97u8, 114u8, 99u8, 104u8, 54u8, 52u8, 45u8, 117u8, 110u8, 107u8, 110u8, 111u8, 119u8, 110u8, 45u8, 108u8, 105u8, 110u8, 117u8, 120u8, 45u8, 103u8, 110u8, 117u8]
    } else if os == HostOs::Linux && arch == HostArch::X8664 {
        seq![120u8, 56u8, 54u8, 95u8, 54u8, 52u8, 45u8, 117u8, 110u8, 107u8, 110u8, 111u8, 119u8, 110u8, 45u8, 108u8, 105u8, 110u8, 117u8, 120u8, 45u8, 103u8, 110u8, 117u8]
    } else if os == HostOs::Linux && arch == HostArch::X86 {
        seq![105u8, 54u8, 56u8, 54u8, 45u8, 117u8, 110u8, 107u8, 110u8, 111u8, 119u8, 110u8, 45u8, 108u8, 105u8, 110u8, 117u8, 120u8, 45u8, 103u8, 110u8, 117u8]
    } else {
        seq![120u8, 56u8, 54u8, 95u8, 54u8, 52u8, 45u8, 117u8, 110u8, 107u8, 110u8, 111u8, 119u8, 110u8, 45u8, 108u8, 105u8, 110u8, 117u8, 120u8, 45u8, 103u8, 110u8, 117u8]
    }
}

/// The host's default target triple.
pub fn host_triple(os: HostOs, arch: HostArch) -> (r: Vec<u8>)
    ensures
        r@ == spec_host_triple(os, arch),
{
    if matches!(os, HostOs::Windows) && matches!(arch, HostArch::X8664) {
        let mut v: Vec<u8> = Vec::new();
        v.push(120);
        v.push(56);
        v.push(54);
        v.push(95);
        v.push(54);
        v.push(52);
        v.push(45);
        v.push(112);
        v.push(99);
        v.push(45);
        v.push(119);
        v.push(105);
        v.push(110);
        v.push(100);
        v.push(111);
        v.push(119);
        v.push(115);
        v.push(45);
        v.push(109);
        v.push(115);
        v.push(118);
        v.push(99);
        proof {
            assert(v@ =~= seq![120u8, 56u8, 54u8, 95u8, 54u8, 52u8, 45u8, 112u8, 99u8, 45u8, 119u8, 105u8, 110u8, 100u8, 111u8, 119u8, 115u8, 45u8, 109u8, 115u8, 118u8, 99u8]);
        }
        return v;
    }
    if matches!(os, HostOs::Windows) && matches!(arch, HostArch::X86) {
        let mut v: Vec<u8> = Vec::new();
        v.push(105);
        v.push(54);
        v.push(56);
        v.push(54);
        v.push(45);
        v.push(112);
        v.push(99);
        v.push(45);
        v.push(119);
        v.push(105);
        v.push(110);
        v.push(100);
        v.push(111);
        v.push(119);
        v.push(115);
        v.push(45);
        v.push(109);
        v.push(115);
        v.push(118);
        v.push(99);
        proof {
            assert(v@ =~= seq![105u8, 54u8, 56u8, 54u8, 45u8, 112u8, 99u8, 45u8, 119u8, 105u8, 110u8, 100u8, 111u8, 119u8, 115u8, 45u8, 109u8, 115u8, 118u8, 99u8]);
        }
        return v;
    }
    if matches!(os, HostOs::Windows) && matches!(arch, HostArch::Aarch64) {
        let mut v: Vec<u8> = Vec::new();
        v.push(105);
        v.push(54);
        v.push(56);
        v.push(54);
        v.push(45);
        v.push(112);
        v.push(99);
        v.push(45);
        v.push(119);
        v.push(105);
        v.push(110);
        v.push(100);
        v.push(111);
        v.push(119);
        v.push(115);
        v.push(45);
        v.push(109);
        v.push(115);
        v.push(118);
        v.push(99);
        proof {
            assert(v@ =~= seq![105u8, 54u8, 56u8, 54u8, 45u8, 112u8, 99u8, 45u8, 119u8, 105u8, 110u8, 100u8, 111u8, 119u8, 115u8, 45u8, 109u8, 115u8, 118u8, 99u8]);
        }
        return v;
    }
    if matches!(os, HostOs::Apple) && matches!(arch, HostArch::X8664) {
        let mut v: Vec<u8> = Vec::new();
        v.push(120);
        v.push(56);
        v.push(54);
        v.push(95);
        v.push(54);
        v.push(52);
        v.push(45);
        v.push(97);
        v.push(112);
        v.push(112);
        v.push(108);
        v.push(101);
        v.push(45);
        v.push(100);
        v.push(97);
        v.push(114);
        v.push(119);
        v.push(105);
        v.push(110);
        proof {
            assert(v@ =~= seq![120u8, 56u8, 54u8, 95u8, 54u8, 52u8, 45u8, 97u8, 112u8, 112u8, 108u8, 101u8, 45u8, 100u8, 97u8, 114u8, 119u8, 105u8, 110u8]);
        }
        return v;
    }
    if matches!(os, HostOs::Apple) && matches!(arch, HostArch::X86) {
        let mut v: Vec<u8> = Vec::new();
        v.push(120);
        v.push(56);
        v.push(54);
        v.push(95);
        v.push(54);
        v.push(52);
        v.push(45);
        v.push(97);
        v.push(112);
        v.push(112);
        v.push(108);
        v.push(101);
        v.push(45);
        v.push(100);
        v.push(97);
        v.push(114);
        v.push(119);
        v.push(105);
        v.push(110);
        proof {
            assert(v@ =~= seq![120u8, 56u8, 54u8, 95u8, 54u8, 52u8, 45u8, 97u8, 112u8, 112u8, 108u8, 101u8, 45u8, 100u8, 97u8, 114u8, 119u8, 105u8, 110u8]);
        }
        return v;
    }
    if matches!(os, HostOs::Apple) && matches!(arch, HostArch::Aarch64) {
        let mut v: Vec<u8> = Vec::new();
        v.push(120);
        v.push(56);
        v.push(54);
        v.push(95);
        v.push(54);
        v.push(52);
        v.push(45);
        v.push(97);
        v.push(112);
        v.push(112);
        v.push(108);
        v.push(101);
        v.push(45);
        v.push(100);
        v.push(97);
        v.push(114);
        v.push(119);
        v.push(105);
        v.push(110);
        proof {
            assert(v@ =~= seq![120u8, 56u8, 54u8, 95u8, 54u8, 52u8, 45u8, 97u8, 112u8, 112u8, 108u8, 101u8, 45u8, 100u8, 97u8, 114u8, 119u8, 105u8, 110u8]);
        }
        return v;
    }
    if matches!(os, HostOs::Linux) && matches!(arch, HostArch::Aarch64) {
        let mut v: Vec<u8> = Vec::new();
        v.push(97);
        v.push(97);
        v.push(114);
        v.push(99);
        v.push(104);
        v.push(54);
        v.push(52);
        v.push(45);
        v.push(117);
        v.push(110);
        v.push(107);
        v.push(110);
        v.push(111);
        v.push(119);
        v.push(110);
        v.push(45);
        v.push(108);
        v.push(105);
        v.push(110);
        v.push(117);
        v.push(120);
        v.push(45);
        v.push(103);
        v.push(110);
        v.push(117);
        proof {
            assert(v@ =~= seq![97u8, 97u8, 114u8, 99u8, 104u8, 54u8, 52u8, 45u8, 117u8, 110u8, 107u8, 110u8, 111u8, 119u8, 110u8, 45u8, 108u8, 105u8, 110u8, 117u8, 120u8, 45u8, 103u8, 110u8, 117u8]);
        }
        return v;
    }
    if matches!(os, HostOs::Linux) && matches!(arch, HostArch::X8664) {
        let mut v: Vec<u8> = Vec::new();
        v.push(120);
        v.push(56);
        v.push(54);
        v.push(95);
        v.push(54);
        v.push(52);
        v.push(45);
        v.push(117);
        v.push(110);
        v.push(107);
        v.push(110);
        v.push(111);
        v.push(119);
        v.push(110);
        v.push(45);
        v.push(108);
        v.push(105);
        v.push(110);
        v.push(117);
        v.push(120);
        v.push(45);
        v.push(103);
        v.push(110);
        v.push(117);
        proof {
            assert(v@ =~= seq![120u8, 56u8, 54u8, 95u8, 54u8, 52u8, 45u8, 117u8, 110u8, 107u8, 110u8, 111u8, 119u8, 110u8, 45u8, 108u8, 105u8, 110u8, 117u8, 120u8, 45u8, 103u8, 110u8, 117u8]);
        }
        return v;
    }
    if matches!(os, HostOs::Linux) && matches!(arch, HostArch::X86) {
        let mut v: Vec<u8> = Vec::new();
        v.push(105);
        v.push(54);
        v.push(56);
        v.push(54);
        v.push(45);
        v.push(117);
        v.push(110);
        v.push(107);
        v.push(110);
        v.push(111);
        v.push(119);
        v.push(110);
        v.push(45);
        v.push(108);
        v.push(105);
        v.push(110);
        v.push(117);
        v.push(120);
        v.push(45);
        v.push(103);
        v.push(110);
        v.push(117);
        proof {
            assert(v@ =~= seq![105u8, 54u8, 56u8, 54u8, 45u8, 117u8, 110u8, 107u8, 110u8, 111u8, 119u8, 110u8, 45u8, 108u8, 105u8, 110u8, 117u8, 120u8, 45u8, 103u8, 110u8, 117u8]);
        }
        return v;
    }
    let mut v: Vec<u8> = Vec::new();
    v.push(120);
    v.push(56);
    v.push(54);
    v.push(95);
    v.push(54);
    v.push(52);
    v.push(45);
    v.push(117);
    v.push(110);
    v.push(107);
    v.push(110);
    v.push(111);
    v.push(119);
    v.push(110);
    v.push(45);
    v.push(108);
    v.push(105);
    v.push(110);
    v.push(117);
    v.push(120);
    v.push(45);
    v.push(103);
    v.push(110);
    v.push(117);
    proof {
        assert(v@ =~= seq![120u8, 56u8, 54u8, 95u8, 54u8, 52u8, 45u8, 117u8, 110u8, 107u8, 110u8, 111u8, 119u8, 110u8, 45u8, 108u8, 105u8, 110u8, 117u8, 120u8, 45u8, 103u8, 110u8, 117u8]);
    }
    v
}

/// One slice of the supported-target list.
pub open spec fn spec_targets_group0(t: Seq<u8>) -> bool {
    t == seq![97u8, 97u8, 114u8, 99u8, 104u8, 54u8, 52u8, 45u8, 117u8, 110u8, 107u8, 110u8, 111u8, 119u8, 110u8, 45u8, 108u8, 105u8, 110u8, 117u8, 120u8, 45u8, 103u8, 110u8, 117u8]
    || t == seq![105u8, 54u8, 56u8, 54u8, 45u8, 112u8, 99u8, 45u8, 119u8, 105u8, 110u8, 100u8, 111u8, 119u8, 115u8, 45u8, 109u8, 115u8, 118u8, 99u8]
    || t == seq![105u8, 54u8, 56u8, 54u8, 45u8, 112u8, 99u8, 45u8, 119u8, 105u8, 110u8, 100u8, 111u8, 119u8, 115u8, 45u8, 103u8, 110u8, 117u8]
    || t == seq![105u8, 54u8, 56u8, 54u8, 45u8, 112u8, 99u8, 45u8, 119u8, 105u8, 110u8, 100u8, 111u8, 119u8, 115u8, 45u8, 103u8, 110u8, 117u8, 108u8, 108u8, 118u8, 109u8]
    || t == seq![105u8, 54u8, 56u8, 54u8, 45u8, 117u8, 110u8, 107u8, 110u8, 111u8, 119u8, 110u8, 45u8, 108u8, 105u8, 110u8, 117u8, 120u8, 45u8, 103u8, 110u8, 117u8]
    || t == seq![120u8, 56u8, 54u8, 95u8, 54u8, 52u8, 45u8, 97u8, 112u8, 112u8, 108u8, 101u8, 45u8, 100u8, 97u8, 114u8, 119u8, 105u8, 110u8]
}

#[verifier::spinoff_prover]
#[verifier::rlimit(100)]
fn targets_group0(t: &[u8]) -> (r: bool)
    ensures
        r == spec_targets_group0(t@),
{
    {
        let mut v: Vec<u8> = Vec::new();
        v.push(97);
        v.push(97);
        v.push(114);
        v.push(99);
        v.push(104);
        v.push(54);
        v.push(52);
        v.push(45);
        v.push(117);
        v.push(110);
        v.push(107);
        v.push(110);
        v.push(111);
        v.push(119);
        v.push(110);
        v.push(45);
        v.push(108);
        v.push(105);
        v.push(110);
        v.push(117);
        v.push(120);
        v.push(45);
        v.push(103);
        v.push(110);
        v.push(117);
        proof {
            assert(v@ =~= seq![97u8, 97u8, 114u8, 99u8, 104u8, 54u8, 52u8, 45u8, 117u8, 110u8, 107u8, 110u8, 111u8, 119u8, 110u8, 45u8, 108u8, 105u8, 110u8, 117u8, 120u8, 45u8, 103u8, 110u8, 117u8]);
        }
        if crate::bytes::bytes_eq(t, v.as_slice()) {
            return true;
        }
    }
    {
        let mut v: Vec<u8> = Vec::new();
        v.push(105);
        v.push(54);
        v.push(56);
        v.push(54);
        v.push(45);
        v.push(112);
        v.push(99);
        v.push(45);
        v.push(119);
        v.push(105);
        v.push(110);
        v.push(100);
        v.push(111);
        v.push(119);
        v.push(115);
        v.push(45);
        v.push(109);
        v.push(115);
        v.push(118);
        v.push(99);
        proof {
            assert(v@ =~= seq![105u8, 54u8, 56u8, 54u8, 45u8, 112u8, 99u8, 45u8, 119u8, 105u8, 110u8, 100u8, 111u8, 119u8, 115u8, 45u8, 109u8, 115u8, 118u8, 99u8]);
        }
        if crate::bytes::bytes_eq(t, v.as_slice()) {
            return true;
        }
    }
    {
        let mut v: Vec<u8> = Vec::new();
        v.push(105);
        v.push(54);
        v.push(56);
        v.push(54);
        v.push(45);
        v.push(112);
        v.push(99);
        v.push(45);
        v.push(119);
        v.push(105);
        v.push(110);
        v.push(100);
        v.push(111);
        v.push(119);
        v.push(115);
        v.push(45);
        v.push(103);
        v.push(110);
        v.push(117);
        proof {
            assert(v@ =~= seq![105u8, 54u8, 56u8, 54u8, 45u8, 112u8, 99u8, 45u8, 119u8, 105u8, 110u8, 100u8, 111u8, 119u8, 115u8, 45u8, 103u8, 110u8, 117u8]);
        }
        if crate::bytes::bytes_eq(t, v.as_slice()) {
            return true;
        }
    }
    {
        let mut v: Vec<u8> = Vec::new();
        v.push(105);
        v.push(54);
        v.push(56);
        v.push(54);
        v.push(45);
        v.push(112);
        v.push(99);
        v.push(45);
        v.push(119);
        v.push(105);
        v.push(110);
        v.push(100);
        v.push(111);
        v.push(119);
        v.push(115);
        v.push(45);
        v.push(103);
        v.push(110);
        v.push(117);
        v.push(108);
        v.push(108);
        v.push(118);
        v.push(109);
        proof {
            assert(v@ =~= seq![105u8, 54u8, 56u8, 54u8, 45u8, 112u8, 99u8, 45u8, 119u8, 105u8, 110u8, 100u8, 111u8, 119u8, 115u8, 45u8, 103u8, 110u8, 117u8, 108u8, 108u8, 118u8, 109u8]);
        }
        if crate::bytes::bytes_eq(t, v.as_slice()) {
            return true;
        }
    }
    {
        let mut v: Vec<u8> = Vec::new();
        v.push(105);
        v.push(54);
        v.push(56);
        v.push(54);
        v.push(45);
        v.push(117);
        v.push(110);
        v.push(107);
        v.push(110);
        v.push(111);
        v.push(119);
        v.push(110);
        v.push(45);
        v.push(108);
        v.push(105);
        v.push(110);
        v.push(117);
        v.push(120);
        v.push(45);
        v.push(103);
        v.push(110);
        v.push(117);
        proof {
            assert(v@ =~= seq![105u8, 54u8, 56u8, 54u8, 45u8, 117u8, 110u8, 107u8, 110u8, 111u8, 119u8, 110u8, 45u8, 108u8, 105u8, 110u8, 117u8, 120u8, 45u8, 103u8, 110u8, 117u8]);
        }
        if crate::bytes::bytes_eq(t, v.as_slice()) {
            return true;
        }
    }
    {
        let mut v: Vec<u8> = Vec::new();
        v.push(120);
        v.push(56);
        v.push(54);
        v.push(95);
        v.push(54);
        v.push(52);
        v.push(45);
        v.push(97);
        v.push(112);
        v.push(112);
        v.push(108);
        v.push(101);
        v.push(45);
        v.push(100);
        v.push(97);
        v.push(114);
        v.push(119);
        v.push(105);
        v.push(110);
        proof {
            assert(v@ =~= seq![120u8, 56u8, 54u8, 95u8, 54u8, 52u8, 45u8, 97u8, 112u8, 112u8, 108u8, 101u8, 45u8, 100u8, 97u8, 114u8, 119u8, 105u8, 110u8]);
        }
        if crate::bytes::bytes_eq(t, v.as_slice()) {
            return true;
        }
    }
    false
}

/// One slice of the supported-target list.
pub open spec fn spec_targets_group1(t: Seq<u8>) -> bool {
    t == seq![120u8, 56u8, 54u8, 95u8, 54u8, 52u8, 45u8, 112u8, 99u8, 45u8, 119u8, 105u8, 110u8, 100u8, 111u8, 119u8, 115u8, 45u8, 109u8, 115u8, 118u8, 99u8]
    || t == seq![120u8, 56u8, 54u8, 95u8, 54u8, 52u8, 45u8, 112u8, 99u8, 45u8, 119u8, 105u8, 110u8, 100u8, 111u8, 119u8, 115u8, 45u8, 103u8, 110u8, 117u8]
    || t == seq![120u8, 56u8, 54u8, 95u8, 54u8, 52u8, 45u8, 112u8, 99u8, 45u8, 119u8, 105u8, 110u8, 100u8, 111u8, 119u8, 115u8, 45u8, 103u8, 110u8, 117u8, 108u8, 108u8, 118u8, 109u8]
    || t == seq![120u8, 56u8, 54u8, 95u8, 54u8, 52u8, 45u8, 117u8, 110u8, 107u8, 110u8, 111u8, 119u8, 110u8, 45u8, 108u8, 105u8, 110u8, 117u8, 120u8, 45u8, 103u8, 110u8, 117u8]
    || t == seq![97u8, 97u8, 114u8, 99u8, 104u8, 54u8, 52u8, 45u8, 97u8, 112u8, 112u8, 108u8, 101u8, 45u8, 100u8, 97u8, 114u8, 119u8, 105u8, 110u8]
    || t == seq![97u8, 97u8, 114u8, 99u8, 104u8, 54u8, 52u8, 45u8, 112u8, 99u8, 45u8, 119u8, 105u8, 110u8, 100u8, 111u8, 119u8, 115u8, 45u8, 109u8, 115u8, 118u8, 99u8]
}

#[verifier::spinoff_prover]
#[verifier::rlimit(100)]
fn targets_group1(t: &[u8]) -> (r: bool)
    ensures
        r == spec_targets_group1(t@),
{
    {
        let mut v: Vec<u8> = Vec::new();
        v.push(120);
        v.push(56);
        v.push(54);
        v.push(95);
        v.push(54);
        v.push(52);
        v.push(45);
        v.push(112);
        v.push(99);
        v.push(45);
        v.push(119);
        v.push(105);
        v.push(110);
        v.push(100);
        v.push(111);
        v.push(119);
        v.push(115);
        v.push(45);
        v.push(109);
        v.push(115);
        v.push(118);
        v.push(99);
        proof {
            assert(v@ =~= seq![120u8, 56u8, 54u8, 95u8, 54u8, 52u8, 45u8, 112u8, 99u8, 45u8, 119u8, 105u8, 110u8, 100u8, 111u8, 119u8, 115u8, 45u8, 109u8, 115u8, 118u8, 99u8]);
        }
        if crate::bytes::bytes_eq(t, v.as_slice()) {
            return true;
        }
    }
    {
        let mut v: Vec<u8> = Vec::new();
        v.push(120);
        v.push(56);
        v.push(54);
        v.push(95);
        v.push(54);
        v.push(52);
        v.push(45);
        v.push(112);
        v.push(99);
        v.push(45);
        v.push(119);
        v.push(105);
        v.push(110);
        v.push(100);
        v.push(111);
        v.push(119);
        v.push(115);
        v.push(45);
        v.push(103);
        v.push(110);
        v.push(117);
        proof {
            assert(v@ =~= seq![120u8, 56u8, 54u8, 95u8, 54u8, 52u8, 45u8, 112u8, 99u8, 45u8, 119u8, 105u8, 110u8, 100u8, 111u8, 119u8, 115u8, 45u8, 103u8, 110u8, 117u8]);
        }
        if crate::bytes::bytes_eq(t, v.as_slice()) {
            return true;
        }
    }
    {
        let mut v: Vec<u8> = Vec::new();
        v.push(120);
        v.push(56);
        v.push(54);
        v.push(95);
        v.push(54);
        v.push(52);
        v.push(45);
        v.push(112);
        v.push(99);
        v.push(45);
        v.push(119);
        v.push(105);
        v.push(110);
        v.push(100);
        v.push(111);
        v.push(119);
        v.push(115);
        v.push(45);
        v.push(103);
        v.push(110);
        v.push(117);
        v.push(108);
        v.push(108);
        v.push(118);
        v.push(109);
        proof {
            assert(v@ =~= seq![120u8, 56u8, 54u8, 95u8, 54u8, 52u8, 45u8, 112u8, 99u8, 45u8, 119u8, 105u8, 110u8, 100u8, 111u8, 119u8, 115u8, 45u8, 103u8, 110u8, 117u8, 108u8, 108u8, 118u8, 109u8]);
        }
        if crate::bytes::bytes_eq(t, v.as_slice()) {
            return true;
        }
    }
    {
        let mut v: Vec<u8> = Vec::new();
        v.push(120);
        v.push(56);
        v.push(54);
        v.push(95);
        v.push(54);
        v.push(52);
        v.push(45);
        v.push(117);
        v.push(110);
        v.push(107);
        v.push(110);
        v.push(111);
        v.push(119);
        v.push(110);
        v.push(45);
        v.push(108);
        v.push(105);
        v.push(110);
        v.push(117);
        v.push(120);
        v.push(45);
        v.push(103);
        v.push(110);
        v.push(117);
        proof {
            assert(v@ =~= seq![120u8, 56u8, 54u8, 95u8, 54u8, 52u8, 45u8, 117u8, 110u8, 107u8, 110u8, 111u8, 119u8, 110u8, 45u8, 108u8, 105u8, 110u8, 117u8, 120u8, 45u8, 103u8, 110u8, 117u8]);
        }
        if crate::bytes::bytes_eq(t, v.as_slice()) {
            return true;
        }
    }
    {
        let mut v: Vec<u8> = Vec::new();
        v.push(97);
        v.push(97);
        v.push(114);
        v.push(99);
        v.push(104);
        v.push(54);
        v.push(52);
        v.push(45);
        v.push(97);
        v.push(112);
        v.push(112);
        v.push(108);
        v.push(101);
        v.push(45);
        v.push(100);
        v.push(97);
        v.push(114);
        v.push(119);
        v.push(105);
        v.push(110);
        proof {
            assert(v@ =~= seq![97u8, 97u8, 114u8, 99u8, 104u8, 54u8, 52u8, 45u8, 97u8, 112u8, 112u8, 108u8, 101u8, 45u8, 100u8, 97u8, 114u8, 119u8, 105u8, 110u8]);
        }
        if crate::bytes::bytes_eq(t, v.as_slice()) {
            return true;
        }
    }
    {
        let mut v: Vec<u8> = Vec::new();
        v.push(97);
        v.push(97);
        v.push(114);
        v.push(99);
        v.push(104);
        v.push(54);
        v.push(52);
        v.push(45);
        v.push(112);
        v.push(99);
        v.push(45);
        v.push(119);
        v.push(105);
        v.push(110);
        v.push(100);
        v.push(111);
        v.push(119);
        v.push(115);
        v.push(45);
        v.push(109);
        v.push(115);
        v.push(118);
        v.push(99);
        proof {
            assert(v@ =~= seq![97u8, 97u8, 114u8, 99u8, 104u8, 54u8, 52u8, 45u8, 112u8, 99u8, 45u8, 119u8, 105u8, 110u8, 100u8, 111u8, 119u8, 115u8, 45u8, 109u8, 115u8, 118u8, 99u8]);
        }
        if crate::bytes::bytes_eq(t, v.as_slice()) {
            return true;
        }
    }
    false
}

/// One slice of the supported-target list.
pub open spec fn spec_targets_group2(t: Seq<u8>) -> bool {
    t == seq![97u8, 97u8, 114u8, 99u8, 104u8, 54u8, 52u8, 45u8, 117u8, 110u8, 107u8, 110u8, 111u8, 119u8, 110u8, 45u8, 108u8, 105u8, 110u8, 117u8, 120u8, 45u8, 109u8, 117u8, 115u8, 108u8]
    || t == seq![97u8, 114u8, 109u8, 45u8, 117u8, 110u8, 107u8, 110u8, 111u8, 119u8, 110u8, 45u8, 108u8, 105u8, 110u8, 117u8, 120u8, 45u8, 103u8, 110u8, 117u8, 101u8, 97u8, 98u8, 105u8]
    || t == seq![97u8, 114u8, 109u8, 45u8, 117u8, 110u8, 107u8, 110u8, 111u8, 119u8, 110u8, 45u8, 108u8, 105u8, 110u8, 117u8, 120u8, 45u8, 103u8, 110u8, 117u8, 101u8, 97u8, 98u8, 105u8, 104u8, 102u8]
    || t == seq![97u8, 114u8, 109u8, 118u8, 55u8, 45u8, 117u8, 110u8, 107u8, 110u8, 111u8, 119u8, 110u8, 45u8, 108u8, 105u8, 110u8, 117u8, 120u8, 45u8, 103u8, 110u8, 117u8, 101u8, 97u8, 98u8, 105u8, 104u8, 102u8]
    || t == seq![109u8, 105u8, 112u8, 115u8, 45u8, 117u8, 110u8, 107u8, 110u8, 111u8, 119u8, 110u8, 45u8, 108u8, 105u8, 110u8, 117u8, 120u8, 45u8, 103u8, 110u8, 117u8]
    || t == seq![109u8, 105u8, 112u8, 115u8, 54u8, 52u8, 45u8, 117u8, 110u8, 107u8, 110u8, 111u8, 119u8, 110u8, 45u8, 108u8, 105u8, 110u8, 117u8, 120u8, 45u8, 103u8, 110u8, 117u8, 97u8, 98u8, 105u8, 54u8, 52u8]
}

#[verifier::spinoff_prover]
#[verifier::rlimit(100)]
fn targets_group2(t: &[u8]) -> (r: bool)
    ensures
        r == spec_targets_group2(t@),
{
    {
        let mut v: Vec<u8> = Vec::new();
        v.push(97);
        v.push(97);
        v.push(114);
        v.push(99);
        v.push(104);
        v.push(54);
        v.push(52);
        v.push(45);
        v.push(117);
        v.push(110);
        v.push(107);
        v.push(110);
        v.push(111);
        v.push(119);
        v.push(110);
        v.push(45);
        v.push(108);
        v.push(105);
        v.push(110);
        v.push(117);
        v.push(120);
        v.push(45);
        v.push(109);
        v.push(117);
        v.push(115);
        v.push(108);
        proof {
            assert(v@ =~= seq![97u8, 97u8, 114u8, 99u8, 104u8, 54u8, 52u8, 45u8, 117u8, 110u8, 107u8, 110u8, 111u8, 119u8, 110u8, 45u8, 108u8, 105u8, 110u8, 117u8, 120u8, 45u8, 109u8, 117u8, 115u8, 108u8]);
        }
        if crate::bytes::bytes_eq(t, v.as_slice()) {
            return true;
        }
    }
    {
        let mut v: Vec<u8> = Vec::new();
        v.push(97);
        v.push(114);
        v.push(109);
        v.push(45);
        v.push(117);
        v.push(110);
        v.push(107);
        v.push(110);
        v.push(111);
        v.push(119);
        v.push(110);
        v.push(45);
        v.push(108);
        v.push(105);
        v.push(110);
        v.push(117);
        v.push(120);
        v.push(45);
        v.push(103);
        v.push(110);
        v.push(117);
        v.push(101);
        v.push(97);
        v.push(98);
        v.push(105);
        proof {
            assert(v@ =~= seq![97u8, 114u8, 109u8, 45u8, 117u8, 110u8, 107u8, 110u8, 111u8, 119u8, 110u8, 45u8, 108u8, 105u8, 110u8, 117u8, 120u8, 45u8, 103u8, 110u8, 117u8, 101u8, 97u8, 98u8, 105u8]);
        }
        if crate::bytes::bytes_eq(t, v.as_slice()) {
            return true;
        }
    }
    {
        let mut v: Vec<u8> = Vec::new();
        v.push(97);
        v.push(114);
        v.push(109);
        v.push(45);
        v.push(117);
        v.push(110);
        v.push(107);
        v.push(110);
        v.push(111);
        v.push(119);
        v.push(110);
        v.push(45);
        v.push(108);
        v.push(105);
        v.push(110);
        v.push(117);
        v.push(120);
        v.push(45);
        v.push(103);
        v.push(110);
        v.push(117);
        v.push(101);
        v.push(97);
        v.push(98);
        v.push(105);
        v.push(104);
        v.push(102);
        proof {
            assert(v@ =~= seq![97u8, 114u8, 109u8, 45u8, 117u8, 110u8, 107u8, 110u8, 111u8, 119u8, 110u8, 45u8, 108u8, 105u8, 110u8, 117u8, 120u8, 45u8, 103u8, 110u8, 117u8, 101u8, 97u8, 98u8, 105u8, 104u8, 102u8]);
        }
        if crate::bytes::bytes_eq(t, v.as_slice()) {
            return true;
        }
    }
    {
        let mut v: Vec<u8> = Vec::new();
        v.push(97);
        v.push(114);
        v.push(109);
        v.push(118);
        v.push(55);
        v.push(45);
        v.push(117);
        v.push(110);
        v.push(107);
        v.push(110);
        v.push(111);
        v.push(119);
        v.push(110);
        v.push(45);
        v.push(108);
        v.push(105);
        v.push(110);
        v.push(117);
        v.push(120);
        v.push(45);
        v.push(103);
        v.push(110);
        v.push(117);
        v.push(101);
        v.push(97);
        v.push(98);
        v.push(105);
        v.push(104);
        v.push(102);
        proof {
            assert(v@ =~= seq![97u8, 114u8, 109u8, 118u8, 55u8, 45u8, 117u8, 110u8, 107u8, 110u8, 111u8, 119u8, 110u8, 45u8, 108u8, 105u8, 110u8, 117u8, 120u8, 45u8, 103u8, 110u8, 117u8, 101u8, 97u8, 98u8, 105u8, 104u8, 102u8]);
        }
        if crate::bytes::bytes_eq(t, v.as_slice()) {
            return true;
        }
    }
    {
        let mut v: Vec<u8> = Vec::new();
        v.push(109);
        v.push(105);
        v.push(112);
        v.push(115);
        v.push(45);
        v.push(117);
        v.push(110);
        v.push(107);
        v.push(110);
        v.push(111);
        v.push(119);
        v.push(110);
        v.push(45);
        v.push(108);
        v.push(105);
        v.push(110);
        v.push(117);
        v.push(120);
        v.push(45);
        v.push(103);
        v.push(110);
        v.push(117);
        proof {
            assert(v@ =~= seq![109u8, 105u8, 112u8, 115u8, 45u8, 117u8, 110u8, 107u8, 110u8, 111u8, 119u8, 110u8, 45u8, 108u8, 105u8, 110u8, 117u8, 120u8, 45u8, 103u8, 110u8, 117u8]);
        }
        if crate::bytes::bytes_eq(t, v.as_slice()) {
            return true;
        }
    }
    {
        let mut v: Vec<u8> = Vec::new();
        v.push(109);
        v.push(105);
        v.push(112);
        v.push(115);
        v.push(54);
        v.push(52);
        v.push(45);
        v.push(117);
        v.push(110);
        v.push(107);
        v.push(110);
        v.push(111);
        v.push(119);
        v.push(110);
        v.push(45);
        v.push(108);
        v.push(105);
        v.push(110);
        v.push(117);
        v.push(120);
        v.push(45);
        v.push(103);
        v.push(110);
        v.push(117);
        v.push(97);
        v.push(98);
        v.push(105);
        v.push(54);
        v.push(52);
        proof {
            assert(v@ =~= seq![109u8, 105u8, 112u8, 115u8, 54u8, 52u8, 45u8, 117u8, 110u8, 107u8, 110u8, 111u8, 119u8, 110u8, 45u8, 108u8, 105u8, 110u8, 117u8, 120u8, 45u8, 103u8, 110u8, 117u8, 97u8, 98u8, 105u8, 54u8, 52u8]);
        }
        if crate::bytes::bytes_eq(t, v.as_slice()) {
            return true;
        }
    }
    false
}

/// One slice of the supported-target list.
pub open spec fn spec_targets_group3(t: Seq<u8>) -> bool {
    t == seq![109u8, 105u8, 112u8, 115u8, 54u8, 52u8, 101u8, 108u8, 45u8, 117u8, 110u8, 107u8, 110u8, 111u8, 119u8, 110u8, 45u8, 108u8, 105u8, 110u8, 117u8, 120u8, 45u8, 103u8, 110u8, 117u8, 97u8, 98u8, 105u8, 54u8, 52u8]
    || t == seq![109u8, 105u8, 112u8, 115u8, 101u8, 108u8, 45u8, 117u8, 110u8, 107u8, 110u8, 111u8, 119u8, 110u8, 45u8, 108u8, 105u8, 110u8, 117u8, 120u8, 45u8, 103u8, 110u8, 117u8]
    || t == seq![112u8, 111u8, 119u8, 101u8, 114u8, 112u8, 99u8, 45u8, 117u8, 110u8, 107u8, 110u8, 111u8, 119u8, 110u8, 45u8, 108u8, 105u8, 110u8, 117u8, 120u8, 45u8, 103u8, 110u8, 117u8]
    || t == seq![112u8, 111u8, 119u8, 101u8, 114u8, 112u8, 99u8, 54u8, 52u8, 45u8, 117u8, 110u8, 107u8, 110u8, 111u8, 119u8, 110u8, 45u8, 108u8, 105u8, 110u8, 117u8, 120u8, 45u8, 103u8, 110u8, 117u8]
    || t == seq![112u8, 111u8, 119u8, 101u8, 114u8, 112u8, 99u8, 54u8, 52u8, 108u8, 101u8, 45u8, 117u8, 110u8, 107u8, 110u8, 111u8, 119u8, 110u8, 45u8, 108u8, 105u8, 110u8, 117u8, 120u8, 45u8, 103u8, 110u8, 117u8]
    || t == seq![114u8, 105u8, 115u8, 99u8, 118u8, 54u8, 52u8, 103u8, 99u8, 45u8, 117u8, 110u8, 107u8, 110u8, 111u8, 119u8, 110u8, 45u8, 108u8, 105u8, 110u8, 117u8, 120u8, 45u8, 103u8, 110u8, 117u8]
}

#[verifier::spinoff_prover]
#[verifier::rlimit(100)]
fn targets_group3(t: &[u8]) -> (r: bool)
    ensures
        r == spec_targets_group3(t@),
{
    {
        let mut v: Vec<u8> = Vec::new();
        v.push(109);
        v.push(105);
        v.push(112);
        v.push(115);
        v.push(54);
        v.push(52);
        v.push(101);
        v.push(108);
        v.push(45);
        v.push(117);
        v.push(110);
        v.push(107);
        v.push(110);
        v.push(111);
        v.push(119);
        v.push(110);
        v.push(45);
        v.push(108);
        v.push(105);
        v.push(110);
        v.push(117);
        v.push(120);
        v.push(45);
        v.push(103);
        v.push(110);
        v.push(117);
        v.push(97);
        v.push(98);
        v.push(105);
        v.push(54);
        v.push(52);
        proof {
            assert(v@ =~= seq![109u8, 105u8, 112u8, 115u8, 54u8, 52u8, 101u8, 108u8, 45u8, 117u8, 110u8, 107u8, 110u8, 111u8, 119u8, 110u8, 45u8, 108u8, 105u8, 110u8, 117u8, 120u8, 45u8, 103u8, 110u8, 117u8, 97u8, 98u8, 105u8, 54u8, 52u8]);
        }
        if crate::bytes::bytes_eq(t, v.as_slice()) {
            return true;
        }
    }
    {
        let mut v: Vec<u8> = Vec::new();
        v.push(109);
        v.push(105);
        v.push(112);
        v.push(115);
        v.push(101);
        v.push(108);
        v.push(45);
        v.push(117);
        v.push(110);
        v.push(107);
        v.push(110);
        v.push(111);
        v.push(119);
        v.push(110);
        v.push(45);
        v.push(108);
        v.push(105);
        v.push(110);
        v.push(117);
        v.push(120);
        v.push(45);
        v.push(103);
        v.push(110);
        v.push(117);
        proof {
            assert(v@ =~= seq![109u8, 105u8, 112u8, 115u8, 101u8, 108u8, 45u8, 117u8, 110u8, 107u8, 110u8, 111u8, 119u8, 110u8, 45u8, 108u8, 105u8, 110u8, 117u8, 120u8, 45u8, 103u8, 110u8, 117u8]);
        }
        if crate::bytes::bytes_eq(t, v.as_slice()) {
            return true;
        }
    }
    {
        let mut v: Vec<u8> = Vec::new();
        v.push(112);
        v.push(111);
        v.push(119);
        v.push(101);
        v.push(114);
        v.push(112);
        v.push(99);
        v.push(45);
        v.push(117);
        v.push(110);
        v.push(107);
        v.push(110);
        v.push(111);
        v.push(119);
        v.push(110);
        v.push(45);
        v.push(108);
        v.push(105);
        v.push(110);
        v.push(117);
        v.push(120);
        v.push(45);
        v.push(103);
        v.push(110);
        v.push(117);
        proof {
            assert(v@ =~= seq![112u8, 111u8, 119u8, 101u8, 114u8, 112u8, 99u8, 45u8, 117u8, 110u8, 107u8, 110u8, 111u8, 119u8, 110u8, 45u8, 108u8, 105u8, 110u8, 117u8, 120u8, 45u8, 103u8, 110u8, 117u8]);
        }
        if crate::bytes::bytes_eq(t, v.as_slice()) {
            return true;
        }
    }
    {
        let mut v: Vec<u8> = Vec::new();
        v.push(112);
        v.push(111);
        v.push(119);
        v.push(101);
        v.push(114);
        v.push(112);
        v.push(99);
        v.push(54);
        v.push(52);
        v.push(45);
        v.push(117);
        v.push(110);
        v.push(107);
        v.push(110);
        v.push(111);
        v.push(119);
        v.push(110);
        v.push(45);
        v.push(108);
        v.push(105);
        v.push(110);
        v.push(117);
        v.push(120);
        v.push(45);
        v.push(103);
        v.push(110);
        v.push(117);
        proof {
            assert(v@ =~= seq![112u8, 111u8, 119u8, 101u8, 114u8, 112u8, 99u8, 54u8, 52u8, 45u8, 117u8, 110u8, 107u8, 110u8, 111u8, 119u8, 110u8, 45u8, 108u8, 105u8, 110u8, 117u8, 120u8, 45u8, 103u8, 110u8, 117u8]);
        }
        if crate::bytes::bytes_eq(t, v.as_slice()) {
            return true;
        }
    }
    {
        let mut v: Vec<u8> = Vec::new();
        v.push(112);
        v.push(111);
        v.push(119);
        v.push(101);
        v.push(114);
        v.push(112);
        v.push(99);
        v.push(54);
        v.push(52);
        v.push(108);
        v.push(101);
        v.push(45);
        v.push(117);
        v.push(110);
        v.push(107);
        v.push(110);
        v.push(111);
        v.push(119);
        v.push(110);
        v.push(45);
        v.push(108);
        v.push(105);
        v.push(110);
        v.push(117);
        v.push(120);
        v.push(45);
        v.push(103);
        v.push(110);
        v.push(117);
        proof {
            assert(v@ =~= seq![112u8, 111u8, 119u8, 101u8, 114u8, 112u8, 99u8, 54u8, 52u8, 108u8, 101u8, 45u8, 117u8, 110u8, 107u8, 110u8, 111u8, 119u8, 110u8, 45u8, 108u8, 105u8, 110u8, 117u8, 120u8, 45u8, 103u8, 110u8, 117u8]);
        }
        if crate::bytes::bytes_eq(t, v.as_slice()) {
            return true;
        }
    }
    {
        let mut v: Vec<u8> = Vec::new();
        v.push(114);
        v.push(105);
        v.push(115);
        v.push(99);
        v.push(118);
        v.push(54);
        v.push(52);
        v.push(103);
        v.push(99);
        v.push(45);
        v.push(117);
        v.push(110);
        v.push(107);
        v.push(110);
        v.push(111);
        v.push(119);
        v.push(110);
        v.push(45);
        v.push(108);
        v.push(105);
        v.push(110);
        v.push(117);
        v.push(120);
        v.push(45);
        v.push(103);
        v.push(110);
        v.push(117);
        proof {
            assert(v@ =~= seq![114u8, 105u8, 115u8, 99u8, 118u8, 54u8, 52u8, 103u8, 99u8, 45u8, 117u8, 110u8, 107u8, 110u8, 111u8, 119u8, 110u8, 45u8, 108u8, 105u8, 110u8, 117u8, 120u8, 45u8, 103u8, 110u8, 117u8]);
        }
        if crate::bytes::bytes_eq(t, v.as_slice()) {
            return true;
        }
    }
    false
}

/// One slice of the supported-target list.
pub open spec fn spec_targets_group4(t: Seq<u8>) -> bool {
    t == seq![115u8, 51u8, 57u8, 48u8, 120u8, 45u8, 117u8, 110u8, 107u8, 110u8, 111u8, 119u8, 110u8, 45u8, 108u8, 105u8, 110u8, 117u8, 120u8, 45u8, 103u8, 110u8, 117u8]
    || t == seq![120u8, 56u8, 54u8, 95u8, 54u8, 52u8, 45u8, 117u8, 110u8, 107u8, 110u8, 111u8, 119u8, 110u8, 45u8, 102u8, 114u8, 101u8, 101u8, 98u8, 115u8, 100u8]
    || t == seq![120u8, 56u8, 54u8, 95u8, 54u8, 52u8, 45u8, 117u8, 110u8, 107u8, 110u8, 111u8, 119u8, 110u8, 45u8, 105u8, 108u8, 108u8, 117u8, 109u8, 111u8, 115u8]
    || t == seq![120u8, 56u8, 54u8, 95u8, 54u8, 52u8, 45u8, 117u8, 110u8, 107u8, 110u8, 111u8, 119u8, 110u8, 45u8, 108u8, 105u8, 110u8, 117u8, 120u8, 45u8, 109u8, 117u8, 115u8, 108u8]
    || t == seq![120u8, 56u8, 54u8, 95u8, 54u8, 52u8, 45u8, 117u8, 110u8, 107u8, 110u8, 111u8, 119u8, 110u8, 45u8, 110u8, 101u8, 116u8, 98u8, 115u8, 100u8]
    || t == seq![97u8, 97u8, 114u8, 99u8, 104u8, 54u8, 52u8, 45u8, 97u8, 112u8, 112u8, 108u8, 101u8, 45u8, 105u8, 111u8, 115u8]
}

#[verifier::spinoff_prover]
#[verifier::rlimit(100)]
fn targets_group4(t: &[u8]) -> (r: bool)
    ensures
        r == spec_targets_group4(t@),
{
    {
        let mut v: Vec<u8> = Vec::new();
        v.push(115);
        v.push(51);
        v.push(57);
        v.push(48);
        v.push(120);
        v.push(45);
        v.push(117);
        v.push(110);
        v.push(107);
        v.push(110);
        v.push(111);
        v.push(119);
        v.push(110);
        v.push(45);
        v.push(108);
        v.push(105);
        v.push(110);
        v.push(117);
        v.push(120);
        v.push(45);
        v.push(103);
        v.push(110);
        v.push(117);
        proof {
            assert(v@ =~= seq![115u8, 51u8, 57u8, 48u8, 120u8, 45u8, 117u8, 110u8, 107u8, 110u8, 111u8, 119u8, 110u8, 45u8, 108u8, 105u8, 110u8, 117u8, 120u8, 45u8, 103u8, 110u8, 117u8]);
        }
        if crate::bytes::bytes_eq(t, v.as_slice()) {
            return true;
        }
    }
    {
        let mut v: Vec<u8> = Vec::new();
        v.push(120);
        v.push(56);
        v.push(54);
        v.push(95);
        v.push(54);
        v.push(52);
        v.push(45);
        v.push(117);
        v.push(110);
        v.push(107);
        v.push(110);
        v.push(111);
        v.push(119);
        v.push(110);
        v.push(45);
        v.push(102);
        v.push(114);
        v.push(101);
        v.push(101);
        v.push(98);
        v.push(115);
        v.push(100);
        proof {
            assert(v@ =~= seq![120u8, 56u8, 54u8, 95u8, 54u8, 52u8, 45u8, 117u8, 110u8, 107u8, 110u8, 111u8, 119u8, 110u8, 45u8, 102u8, 114u8, 101u8, 101u8, 98u8, 115u8, 100u8]);
        }
        if crate::bytes::bytes_eq(t, v.as_slice()) {
            return true;
        }
    }
    {
        let mut v: Vec<u8> = Vec::new();
        v.push(120);
        v.push(56);
        v.push(54);
        v.push(95);
        v.push(54);
        v.push(52);
        v.push(45);
        v.push(117);
        v.push(110);
        v.push(107);
        v.push(110);
        v.push(111);
        v.push(119);
        v.push(110);
        v.push(45);
        v.push(105);
        v.push(108);
        v.push(108);
        v.push(117);
        v.push(109);
        v.push(111);
        v.push(115);
        proof {
            assert(v@ =~= seq![120u8, 56u8, 54u8, 95u8, 54u8, 52u8, 45u8, 117u8, 110u8, 107u8, 110u8, 111u8, 119u8, 110u8, 45u8, 105u8, 108u8, 108u8, 117u8, 109u8, 111u8, 115u8]);
        }
        if crate::bytes::bytes_eq(t, v.as_slice()) {
            return true;
        }
    }
    {
        let mut v: Vec<u8> = Vec::new();
        v.push(120);
        v.push(56);
        v.push(54);
        v.push(95);
        v.push(54);
        v.push(52);
        v.push(45);
        v.push(117);
        v.push(110);
        v.push(107);
        v.push(110);
        v.push(111);
        v.push(119);
        v.push(110);
        v.push(45);
        v.push(108);
        v.push(105);
        v.push(110);
        v.push(117);
        v.push(120);
        v.push(45);
        v.push(109);
        v.push(117);
        v.push(115);
        v.push(108);
        proof {
            assert(v@ =~= seq![120u8, 56u8, 54u8, 95u8, 54u8, 52u8, 45u8, 117u8, 110u8, 107u8, 110u8, 111u8, 119u8, 110u8, 45u8, 108u8, 105u8, 110u8, 117u8, 120u8, 45u8, 109u8, 117u8, 115u8, 108u8]);
        }
        if crate::bytes::bytes_eq(t, v.as_slice()) {
            return true;
        }
    }
    {
        let mut v: Vec<u8> = Vec::new();
        v.push(120);
        v.push(56);
        v.push(54);
        v.push(95);
        v.push(54);
        v.push(52);
        v.push(45);
        v.push(117);
        v.push(110);
        v.push(107);
        v.push(110);
        v.push(111);
        v.push(119);
        v.push(110);
        v.push(45);
        v.push(110);
        v.push(101);
        v.push(116);
        v.push(98);
        v.push(115);
        v.push(100);
        proof {
            assert(v@ =~= seq![120u8, 56u8, 54u8, 95u8, 54u8, 52u8, 45u8, 117u8, 110u8, 107u8, 110u8, 111u8, 119u8, 110u8, 45u8, 110u8, 101u8, 116u8, 98u8, 115u8, 100u8]);
        }
        if crate::bytes::bytes_eq(t, v.as_slice()) {
            return true;
        }
    }
    {
        let mut v: Vec<u8> = Vec::new();
        v.push(97);
        v.push(97);
        v.push(114);
        v.push(99);
        v.push(104);
        v.push(54);
        v.push(52);
        v.push(45);
        v.push(97);
        v.push(112);
        v.push(112);
        v.push(108);
        v.push(101);
        v.push(45);
        v.push(105);
        v.push(111);
        v.push(115);
        proof {
            assert(v@ =~= seq![97u8, 97u8, 114u8, 99u8, 104u8, 54u8, 52u8, 45u8, 97u8, 112u8, 112u8, 108u8, 101u8, 45u8, 105u8, 111u8, 115u8]);
        }
        if crate::bytes::bytes_eq(t, v.as_slice()) {
            return true;
        }
    }
    false
}

/// One slice of the supported-target list.
pub open spec fn spec_targets_group5(t: Seq<u8>) -> bool {
    t == seq![97u8, 97u8, 114u8, 99u8, 104u8, 54u8, 52u8, 45u8, 97u8, 112u8, 112u8, 108u8, 101u8, 45u8, 105u8, 111u8, 115u8, 45u8, 115u8, 105u8, 109u8]
    || t == seq![97u8, 97u8, 114u8, 99u8, 104u8, 54u8, 52u8, 45u8, 102u8, 117u8, 99u8, 104u8, 115u8, 105u8, 97u8]
    || t == seq![97u8, 97u8, 114u8, 99u8, 104u8, 54u8, 52u8, 45u8, 117u8, 110u8, 107u8, 110u8, 111u8, 119u8, 110u8, 45u8, 102u8, 117u8, 99u8, 104u8, 115u8, 105u8, 97u8]
    || t == seq![97u8, 97u8, 114u8, 99u8, 104u8, 54u8, 52u8, 45u8, 108u8, 105u8, 110u8, 117u8, 120u8, 45u8, 97u8, 110u8, 100u8, 114u8, 111u8, 105u8, 100u8]
    || t == seq![97u8, 97u8, 114u8, 99u8, 104u8, 54u8, 52u8, 45u8, 117u8, 110u8, 107u8, 110u8, 111u8, 119u8, 110u8, 45u8, 110u8, 111u8, 110u8, 101u8, 45u8, 115u8, 111u8, 102u8, 116u8, 102u8, 108u8, 111u8, 97u8, 116u8]
    || t == seq![97u8, 97u8, 114u8, 99u8, 104u8, 54u8, 52u8, 45u8, 117u8, 110u8, 107u8, 110u8, 111u8, 119u8, 110u8, 45u8, 110u8, 111u8, 110u8, 101u8]
}

#[verifier::spinoff_prover]
#[verifier::rlimit(100)]
fn targets_group5(t: &[u8]) -> (r: bool)
    ensures
        r == spec_targets_group5(t@),
{
    {
        let mut v: Vec<u8> = Vec::new();
        v.push(97);
        v.push(97);
        v.push(114);
        v.push(99);
        v.push(104);
        v.push(54);
        v.push(52);
        v.push(45);
        v.push(97);
        v.push(112);
        v.push(112);
        v.push(108);
        v.push(101);
        v.push(45);
        v.push(105);
        v.push(111);
        v.push(115);
        v.push(45);
        v.push(115);
        v.push(105);
        v.push(109);
        proof {
            assert(v@ =~= seq![97u8, 97u8, 114u8, 99u8, 104u8, 54u8, 52u8, 45u8, 97u8, 112u8, 112u8, 108u8, 101u8, 45u8, 105u8, 111u8, 115u8, 45u8, 115u8, 105u8, 109u8]);
        }
        if crate::bytes::bytes_eq(t, v.as_slice()) {
            return true;
        }
    }
    {
        let mut v: Vec<u8> = Vec::new();
        v.push(97);
        v.push(97);
        v.push(114);
        v.push(99);
        v.push(104);
        v.push(54);
        v.push(52);
        v.push(45);
        v.push(102);
        v.push(117);
        v.push(99);
        v.push(104);
        v.push(115);
        v.push(105);
        v.push(97);
        proof {
            assert(v@ =~= seq![97u8, 97u8, 114u8, 99u8, 104u8, 54u8, 52u8, 45u8, 102u8, 117u8, 99u8, 104u8, 115u8, 105u8, 97u8]);
        }
        if crate::bytes::bytes_eq(t, v.as_slice()) {
            return true;
        }
    }
    {
        let mut v: Vec<u8> = Vec::new();
        v.push(97);
        v.push(97);
        v.push(114);
        v.push(99);
        v.push(104);
        v.push(54);
        v.push(52);
        v.push(45);
        v.push(117);
        v.push(110);
        v.push(107);
        v.push(110);
        v.push(111);
        v.push(119);
        v.push(110);
        v.push(45);
        v.push(102);
        v.push(117);
        v.push(99);
        v.push(104);
        v.push(115);
        v.push(105);
        v.push(97);
        proof {
            assert(v@ =~= seq![97u8, 97u8, 114u8, 99u8, 104u8, 54u8, 52u8, 45u8, 117u8, 110u8, 107u8, 110u8, 111u8, 119u8, 110u8, 45u8, 102u8, 117u8, 99u8, 104u8, 115u8, 105u8, 97u8]);
        }
        if crate::bytes::bytes_eq(t, v.as_slice()) {
            return true;
        }
    }
    {
        let mut v: Vec<u8> = Vec::new();
        v.push(97);
        v.push(97);
        v.push(114);
        v.push(99);
        v.push(104);
        v.push(54);
        v.push(52);
        v.push(45);
        v.push(108);
        v.push(105);
        v.push(110);
        v.push(117);
        v.push(120);
        v.push(45);
        v.push(97);
        v.push(110);
        v.push(100);
        v.push(114);
        v.push(111);
        v.push(105);
        v.push(100);
        proof {
            assert(v@ =~= seq![97u8, 97u8, 114u8, 99u8, 104u8, 54u8, 52u8, 45u8, 108u8, 105u8, 110u8, 117u8, 120u8, 45u8, 97u8, 110u8, 100u8, 114u8, 111u8, 105u8, 100u8]);
        }
        if crate::bytes::bytes_eq(t, v.as_slice()) {
            return true;
        }
    }
    {
        let mut v: Vec<u8> = Vec::new();
        v.push(97);
        v.push(97);
        v.push(114);
        v.push(99);
        v.push(104);
        v.push(54);
        v.push(52);
        v.push(45);
        v.push(117);
        v.push(110);
        v.push(107);
        v.push(110);
        v.push(111);
        v.push(119);
        v.push(110);
        v.push(45);
        v.push(110);
        v.push(111);
        v.push(110);
        v.push(101);
        v.push(45);
        v.push(115);
        v.push(111);
        v.push(102);
        v.push(116);
        v.push(102);
        v.push(108);
        v.push(111);
        v.push(97);
        v.push(116);
        proof {
            assert(v@ =~= seq![97u8, 97u8, 114u8, 99u8, 104u8, 54u8, 52u8, 45u8, 117u8, 110u8, 107u8, 110u8, 111u8, 119u8, 110u8, 45u8, 110u8, 111u8, 110u8, 101u8, 45u8, 115u8, 111u8, 102u8, 116u8, 102u8, 108u8, 111u8, 97u8, 116u8]);
        }
        if crate::bytes::bytes_eq(t, v.as_slice()) {
            return true;
        }
    }
    {
        let mut v: Vec<u8> = Vec::new();
        v.push(97);
        v.push(97);
        v.push(114);
        v.push(99);
        v.push(104);
        v.push(54);
        v.push(52);
        v.push(45);
        v.push(117);
        v.push(110);
        v.push(107);
        v.push(110);
        v.push(111);
        v.push(119);
        v.push(110);
        v.push(45);
        v.push(110);
        v.push(111);
        v.push(110);
        v.push(101);
        proof {
            assert(v@ =~= seq![97u8, 97u8, 114u8, 99u8, 104u8, 54u8, 52u8, 45u8, 117u8, 110u8, 107u8, 110u8, 111u8, 119u8, 110u8, 45u8, 110u8, 111u8, 110u8, 101u8]);
        }
        if crate::bytes::bytes_eq(t, v.as_slice()) {
            return true;
        }
    }
    false
}

/// One slice of the supported-target list.
pub open spec fn spec_targets_group6(t: Seq<u8>) -> bool {
    t == seq![97u8, 97u8, 114u8, 99u8, 104u8, 54u8, 52u8, 45u8, 117u8, 110u8, 107u8, 110u8, 111u8, 119u8, 110u8, 45u8, 117u8, 101u8, 102u8, 105u8]
    || t == seq![97u8, 114u8, 109u8, 45u8, 108u8, 105u8, 110u8, 117u8, 120u8, 45u8, 97u8, 110u8, 100u8, 114u8, 111u8, 105u8, 100u8, 101u8, 97u8, 98u8, 105u8]
    || t == seq![97u8, 114u8, 109u8, 45u8, 117u8, 110u8, 107u8, 110u8, 111u8, 119u8, 110u8, 45u8, 108u8, 105u8, 110u8, 117u8, 120u8, 45u8, 109u8, 117u8, 115u8, 108u8, 101u8, 97u8, 98u8, 105u8]
    || t == seq![97u8, 114u8, 109u8, 45u8, 117u8, 110u8, 107u8, 110u8, 111u8, 119u8, 110u8, 45u8, 108u8, 105u8, 110u8, 117u8, 120u8, 45u8, 109u8, 117u8, 115u8, 108u8, 101u8, 97u8, 98u8, 105u8, 104u8, 102u8]
    || t == seq![97u8, 114u8, 109u8, 101u8, 98u8, 118u8, 55u8, 114u8, 45u8, 110u8, 111u8, 110u8, 101u8, 45u8, 101u8, 97u8, 98u8, 105u8]
    || t == seq![97u8, 114u8, 109u8, 101u8, 98u8, 118u8, 55u8, 114u8, 45u8, 110u8, 111u8, 110u8, 101u8, 45u8, 101u8, 97u8, 98u8, 105u8, 104u8, 102u8]
}

#[verifier::spinoff_prover]
#[verifier::rlimit(100)]
fn targets_group6(t: &[u8]) -> (r: bool)
    ensures
        r == spec_targets_group6(t@),
{
    {
        let mut v: Vec<u8> = Vec::new();
        v.push(97);
        v.push(97);
        v.push(114);
        v.push(99);
        v.push(104);
        v.push(54);
        v.push(52);
        v.push(45);
        v.push(117);
        v.push(110);
        v.push(107);
        v.push(110);
        v.push(111);
        v.push(119);
        v.push(110);
        v.push(45);
        v.push(117);
        v.push(101);
        v.push(102);
        v.push(105);
        proof {
            assert(v@ =~= seq![97u8, 97u8, 114u8, 99u8, 104u8, 54u8, 52u8, 45u8, 117u8, 110u8, 107u8, 110u8, 111u8, 119u8, 110u8, 45u8, 117u8, 101u8, 102u8, 105u8]);
        }
        if crate::bytes::bytes_eq(t, v.as_slice()) {
            return true;
        }
    }
    {
        let mut v: Vec<u8> = Vec::new();
        v.push(97);
        v.push(114);
        v.push(109);
        v.push(45);
        v.push(108);
        v.push(105);
        v.push(110);
        v.push(117);
        v.push(120);
        v.push(45);
        v.push(97);
        v.push(110);
        v.push(100);
        v.push(114);
        v.push(111);
        v.push(105);
        v.push(100);
        v.push(101);
        v.push(97);
        v.push(98);
        v.push(105);
        proof {
            assert(v@ =~= seq![97u8, 114u8, 109u8, 45u8, 108u8, 105u8, 110u8, 117u8, 120u8, 45u8, 97u8, 110u8, 100u8, 114u8, 111u8, 105u8, 100u8, 101u8, 97u8, 98u8, 105u8]);
        }
        if crate::bytes::bytes_eq(t, v.as_slice()) {
            return true;
        }
    }
    {
        let mut v: Vec<u8> = Vec::new();
        v.push(97);
        v.push(114);
        v.push(109);
        v.push(45);
        v.push(117);
        v.push(110);
        v.push(107);
        v.push(110);
        v.push(111);
        v.push(119);
        v.push(110);
        v.push(45);
        v.push(108);
        v.push(105);
        v.push(110);
        v.push(117);
        v.push(120);
        v.push(45);
        v.push(109);
        v.push(117);
        v.push(115);
        v.push(108);
        v.push(101);
        v.push(97);
        v.push(98);
        v.push(105);
        proof {
            assert(v@ =~= seq![97u8, 114u8, 109u8, 45u8, 117u8, 110u8, 107u8, 110u8, 111u8, 119u8, 110u8, 45u8, 108u8, 105u8, 110u8, 117u8, 120u8, 45u8, 109u8, 117u8, 115u8, 108u8, 101u8, 97u8, 98u8, 105u8]);
        }
        if crate::bytes::bytes_eq(t, v.as_slice()) {
            return true;
        }
    }
    {
        let mut v: Vec<u8> = Vec::new();
        v.push(97);
        v.push(114);
        v.push(109);
        v.push(45);
        v.push(117);
        v.push(110);
        v.push(107);
        v.push(110);
        v.push(111);
        v.push(119);
        v.push(110);
        v.push(45);
        v.push(108);
        v.push(105);
        v.push(110);
        v.push(117);
        v.push(120);
        v.push(45);
        v.push(109);
        v.push(117);
        v.push(115);
        v.push(108);
        v.push(101);
        v.push(97);
        v.push(98);
        v.push(105);
        v.push(104);
        v.push(102);
        proof {
            assert(v@ =~= seq![97u8, 114u8, 109u8, 45u8, 117u8, 110u8, 107u8, 110u8, 111u8, 119u8, 110u8, 45u8, 108u8, 105u8, 110u8, 117u8, 120u8, 45u8, 109u8, 117u8, 115u8, 108u8, 101u8, 97u8, 98u8, 105u8, 104u8, 102u8]);
        }
        if crate::bytes::bytes_eq(t, v.as_slice()) {
            return true;
        }
    }
    {
        let mut v: Vec<u8> = Vec::new();
        v.push(97);
        v.push(114);
        v.push(109);
        v.push(101);
        v.push(98);
        v.push(118);
        v.push(55);
        v.push(114);
        v.push(45);
        v.push(110);
        v.push(111);
        v.push(110);
        v.push(101);
        v.push(45);
        v.push(101);
        v.push(97);
        v.push(98);
        v.push(105);
        proof {
            assert(v@ =~= seq![97u8, 114u8, 109u8, 101u8, 98u8, 118u8, 55u8, 114u8, 45u8, 110u8, 111u8, 110u8, 101u8, 45u8, 101u8, 97u8, 98u8, 105u8]);
        }
        if crate::bytes::bytes_eq(t, v.as_slice()) {
            return true;
        }
    }
    {
        let mut v: Vec<u8> = Vec::new();
        v.push(97);
        v.push(114);
        v.push(109);
        v.push(101);
        v.push(98);
        v.push(118);
        v.push(55);
        v.push(114);
        v.push(45);
        v.push(110);
        v.push(111);
        v.push(110);
        v.push(101);
        v.push(45);
        v.push(101);
        v.push(97);
        v.push(98);
        v.push(105);
        v.push(104);
        v.push(102);
        proof {
            assert(v@ =~= seq![97u8, 114u8, 109u8, 101u8, 98u8, 118u8, 55u8, 114u8, 45u8, 110u8, 111u8, 110u8, 101u8, 45u8, 101u8, 97u8, 98u8, 105u8, 104u8, 102u8]);
        }
        if crate::bytes::bytes_eq(t, v.as_slice()) {
            return true;
        }
    }
    false
}

/// One slice of the supported-target list.
pub open spec fn spec_targets_group7(t: Seq<u8>) -> bool {
    t == seq![97u8, 114u8, 109u8, 118u8, 53u8, 116u8, 101u8, 45u8, 117u8, 110u8, 107u8, 110u8, 111u8, 119u8, 110u8, 45u8, 108u8, 105u8, 110u8, 117u8, 120u8, 45u8, 103u8, 110u8, 117u8, 101u8, 97u8, 98u8, 105u8]
    || t == seq![97u8, 114u8, 109u8, 118u8, 53u8, 116u8, 101u8, 45u8, 117u8, 110u8, 107u8, 110u8, 111u8, 119u8, 110u8, 45u8, 108u8, 105u8, 110u8, 117u8, 120u8, 45u8, 109u8, 117u8, 115u8, 108u8, 101u8, 97u8, 98u8, 105u8]
    || t == seq![97u8, 114u8, 109u8, 118u8, 55u8, 45u8, 108u8, 105u8, 110u8, 117u8, 120u8, 45u8, 97u8, 110u8, 100u8, 114u8, 111u8, 105u8, 100u8, 101u8, 97u8, 98u8, 105u8]
    || t == seq![97u8, 114u8, 109u8, 118u8, 55u8, 45u8, 117u8, 110u8, 107u8, 110u8, 111u8, 119u8, 110u8, 45u8, 108u8, 105u8, 110u8, 117u8, 120u8, 45u8, 103u8, 110u8, 117u8, 101u8, 97u8, 98u8, 105u8]
    || t == seq![97u8, 114u8, 109u8, 118u8, 55u8, 45u8, 117u8, 110u8, 107u8, 110u8, 111u8, 119u8, 110u8, 45u8, 108u8, 105u8, 110u8, 117u8, 120u8, 45u8, 109u8, 117u8, 115u8, 108u8, 101u8, 97u8, 98u8, 105u8]
    || t == seq![97u8, 114u8, 109u8, 118u8, 55u8, 45u8, 117u8, 110u8, 107u8, 110u8, 111u8, 119u8, 110u8, 45u8, 108u8, 105u8, 110u8, 117u8, 120u8, 45u8, 109u8, 117u8, 115u8, 108u8, 101u8, 97u8, 98u8, 105u8, 104u8, 102u8]
}

#[verifier::spinoff_prover]
#[verifier::rlimit(100)]
fn targets_group7(t: &[u8]) -> (r: bool)
    ensures
        r == spec_targets_group7(t@),
{
    {
        let mut v: Vec<u8> = Vec::new();
        v.push(97);
        v.push(114);
        v.push(109);
        v.push(118);
        v.push(53);
        v.push(116);
        v.push(101);
        v.push(45);
        v.push(117);
        v.push(110);
        v.push(107);
        v.push(110);
        v.push(111);
        v.push(119);
        v.push(110);
        v.push(45);
        v.push(108);
        v.push(105);
        v.push(110);
        v.push(117);
        v.push(120);
        v.push(45);
        v.push(103);
        v.push(110);
        v.push(117);
        v.push(101);
        v.push(97);
        v.push(98);
        v.push(105);
        proof {
            assert(v@ =~= seq![97u8, 114u8, 109u8, 118u8, 53u8, 116u8, 101u8, 45u8, 117u8, 110u8, 107u8, 110u8, 111u8, 119u8, 110u8, 45u8, 108u8, 105u8, 110u8, 117u8, 120u8, 45u8, 103u8, 110u8, 117u8, 101u8, 97u8, 98u8, 105u8]);
        }
        if crate::bytes::bytes_eq(t, v.as_slice()) {
            return true;
        }
    }
    {
        let mut v: Vec<u8> = Vec::new();
        v.push(97);
        v.push(114);
        v.push(109);
        v.push(118);
        v.push(53);
        v.push(116);
        v.push(101);
        v.push(45);
        v.push(117);
        v.push(110);
        v.push(107);
        v.push(110);
        v.push(111);
        v.push(119);
        v.push(110);
        v.push(45);
        v.push(108);
        v.push(105);
        v.push(110);
        v.push(117);
        v.push(120);
        v.push(45);
        v.push(109);
        v.push(117);
        v.push(115);
        v.push(108);
        v.push(101);
        v.push(97);
        v.push(98);
        v.push(105);
        proof {
            assert(v@ =~= seq![97u8, 114u8, 109u8, 118u8, 53u8, 116u8, 101u8, 45u8, 117u8, 110u8, 107u8, 110u8, 111u8, 119u8, 110u8, 45u8, 108u8, 105u8, 110u8, 117u8, 120u8, 45u8, 109u8, 117u8, 115u8, 108u8, 101u8, 97u8, 98u8, 105u8]);
        }
        if crate::bytes::bytes_eq(t, v.as_slice()) {
            return true;
        }
    }
    {
        let mut v: Vec<u8> = Vec::new();
        v.push(97);
        v.push(114);
        v.push(109);
        v.push(118);
        v.push(55);
        v.push(45);
        v.push(108);
        v.push(105);
        v.push(110);
        v.push(117);
        v.push(120);
        v.push(45);
        v.push(97);
        v.push(110);
        v.push(100);
        v.push(114);
        v.push(111);
        v.push(105);
        v.push(100);
        v.push(101);
        v.push(97);
        v.push(98);
        v.push(105);
        proof {
            assert(v@ =~= seq![97u8, 114u8, 109u8, 118u8, 55u8, 45u8, 108u8, 105u8, 110u8, 117u8, 120u8, 45u8, 97u8, 110u8, 100u8, 114u8, 111u8, 105u8, 100u8, 101u8, 97u8, 98u8, 105u8]);
        }
        if crate::bytes::bytes_eq(t, v.as_slice()) {
            return true;
        }
    }
    {
        let mut v: Vec<u8> = Vec::new();
        v.push(97);
        v.push(114);
        v.push(109);
        v.push(118);
        v.push(55);
        v.push(45);
        v.push(117);
        v.push(110);
        v.push(107);
        v.push(110);
        v.push(111);
        v.push(119);
        v.push(110);
        v.push(45);
        v.push(108);
        v.push(105);
        v.push(110);
        v.push(117);
        v.push(120);
        v.push(45);
        v.push(103);
        v.push(110);
        v.push(117);
        v.push(101);
        v.push(97);
        v.push(98);
        v.push(105);
        proof {
            assert(v@ =~= seq![97u8, 114u8, 109u8, 118u8, 55u8, 45u8, 117u8, 110u8, 107u8, 110u8, 111u8, 119u8, 110u8, 45u8, 108u8, 105u8, 110u8, 117u8, 120u8, 45u8, 103u8, 110u8, 117u8, 101u8, 97u8, 98u8, 105u8]);
        }
        if crate::bytes::bytes_eq(t, v.as_slice()) {
            return true;
        }
    }
    {
        let mut v: Vec<u8> = Vec::new();
        v.push(97);
        v.push(114);
        v.push(109);
        v.push(118);
        v.push(55);
        v.push(45);
        v.push(117);
        v.push(110);
        v.push(107);
        v.push(110);
        v.push(111);
        v.push(119);
        v.push(110);
        v.push(45);
        v.push(108);
        v.push(105);
        v.push(110);
        v.push(117);
        v.push(120);
        v.push(45);
        v.push(109);
        v.push(117);
        v.push(115);
        v.push(108);
        v.push(101);
        v.push(97);
        v.push(98);
        v.push(105);
        proof {
            assert(v@ =~= seq![97u8, 114u8, 109u8, 118u8, 55u8, 45u8, 117u8, 110u8, 107u8, 110u8, 111u8, 119u8, 110u8, 45u8, 108u8, 105u8, 110u8, 117u8, 120u8, 45u8, 109u8, 117u8, 115u8, 108u8, 101u8, 97u8, 98u8, 105u8]);
        }
        if crate::bytes::bytes_eq(t, v.as_slice()) {
            return true;
        }
    }
    {
        let mut v: Vec<u8> = Vec::new();
        v.push(97);
        v.push(114);
        v.push(109);
        v.push(118);
        v.push(55);
        v.push(45);
        v.push(117);
        v.push(110);
        v.push(107);
        v.push(110);
        v.push(111);
        v.push(119);
        v.push(110);
        v.push(45);
        v.push(108);
        v.push(105);
        v.push(110);
        v.push(117);
        v.push(120);
        v.push(45);
        v.push(109);
        v.push(117);
        v.push(115);
        v.push(108);
        v.push(101);
        v.push(97);
        v.push(98);
        v.push(105);
        v.push(104);
        v.push(102);
        proof {
            assert(v@ =~= seq![97u8, 114u8, 109u8, 118u8, 55u8, 45u8, 117u8, 110u8, 107u8, 110u8, 111u8, 119u8, 110u8, 45u8, 108u8, 105u8, 110u8, 117u8, 120u8, 45u8, 109u8, 117u8, 115u8, 108u8, 101u8, 97u8, 98u8, 105u8, 104u8, 102u8]);
        }
        if crate::bytes::bytes_eq(t, v.as_slice()) {
            return true;
        }
    }
    false
}

/// One slice of the supported-target list.
pub open spec fn spec_targets_group8(t: Seq<u8>) -> bool {
    t == seq![97u8, 114u8, 109u8, 118u8, 55u8, 97u8, 45u8, 110u8, 111u8, 110u8, 101u8, 45u8, 101u8, 97u8, 98u8, 105u8]
    || t == seq![97u8, 114u8, 109u8, 118u8, 55u8, 114u8, 45u8, 110u8, 111u8, 110u8, 101u8, 45u8, 101u8, 97u8, 98u8, 105u8]
    || t == seq![97u8, 114u8, 109u8, 118u8, 55u8, 114u8, 45u8, 110u8, 111u8, 110u8, 101u8, 45u8, 101u8, 97u8, 98u8, 105u8, 104u8, 102u8]
    || t == seq![97u8, 115u8, 109u8, 106u8, 115u8, 45u8, 117u8, 110u8, 107u8, 110u8, 111u8, 119u8, 110u8, 45u8, 101u8, 109u8, 115u8, 99u8, 114u8, 105u8, 112u8, 116u8, 101u8, 110u8]
    || t == seq![105u8, 53u8, 56u8, 54u8, 45u8, 112u8, 99u8, 45u8, 119u8, 105u8, 110u8, 100u8, 111u8, 119u8, 115u8, 45u8, 109u8, 115u8, 118u8, 99u8]
    || t == seq![105u8, 53u8, 56u8, 54u8, 45u8, 117u8, 110u8, 107u8, 110u8, 111u8, 119u8, 110u8, 45u8, 108u8, 105u8, 110u8, 117u8, 120u8, 45u8, 103u8, 110u8, 117u8]
}

#[verifier::spinoff_prover]
#[verifier::rlimit(100)]
fn targets_group8(t: &[u8]) -> (r: bool)
    ensures
        r == spec_targets_group8(t@),
{
    {
        let mut v: Vec<u8> = Vec::new();
        v.push(97);
        v.push(114);
        v.push(109);
        v.push(118);
        v.push(55);
        v.push(97);
        v.push(45);
        v.push(110);
        v.push(111);
        v.push(110);
        v.push(101);
        v.push(45);
        v.push(101);
        v.push(97);
        v.push(98);
        v.push(105);
        proof {
            assert(v@ =~= seq![97u8, 114u8, 109u8, 118u8, 55u8, 97u8, 45u8, 110u8, 111u8, 110u8, 101u8, 45u8, 101u8, 97u8, 98u8, 105u8]);
        }
        if crate::bytes::bytes_eq(t, v.as_slice()) {
            return true;
        }
    }
    {
        let mut v: Vec<u8> = Vec::new();
        v.push(97);
        v.push(114);
        v.push(109);
        v.push(118);
        v.push(55);
        v.push(114);
        v.push(45);
        v.push(110);
        v.push(111);
        v.push(110);
        v.push(101);
        v.push(45);
        v.push(101);
        v.push(97);
        v.push(98);
        v.push(105);
        proof {
            assert(v@ =~= seq![97u8, 114u8, 109u8, 118u8, 55u8, 114u8, 45u8, 110u8, 111u8, 110u8, 101u8, 45u8, 101u8, 97u8, 98u8, 105u8]);
        }
        if crate::bytes::bytes_eq(t, v.as_slice()) {
            return true;
        }
    }
    {
        let mut v: Vec<u8> = Vec::new();
        v.push(97);
        v.push(114);
        v.push(109);
        v.push(118);
        v.push(55);
        v.push(114);
        v.push(45);
        v.push(110);
        v.push(111);
        v.push(110);
        v.push(101);
        v.push(45);
        v.push(101);
        v.push(97);
        v.push(98);
        v.push(105);
        v.push(104);
        v.push(102);
        proof {
            assert(v@ =~= seq![97u8, 114u8, 109u8, 118u8, 55u8, 114u8, 45u8, 110u8, 111u8, 110u8, 101u8, 45u8, 101u8, 97u8, 98u8, 105u8, 104u8, 102u8]);
        }
        if crate::bytes::bytes_eq(t, v.as_slice()) {
            return true;
        }
    }
    {
        let mut v: Vec<u8> = Vec::new();
        v.push(97);
        v.push(115);
        v.push(109);
        v.push(106);
        v.push(115);
        v.push(45);
        v.push(117);
        v.push(110);
        v.push(107);
        v.push(110);
        v.push(111);
        v.push(119);
        v.push(110);
        v.push(45);
        v.push(101);
        v.push(109);
        v.push(115);
        v.push(99);
        v.push(114);
        v.push(105);
        v.push(112);
        v.push(116);
        v.push(101);
        v.push(110);
        proof {
            assert(v@ =~= seq![97u8, 115u8, 109u8, 106u8, 115u8, 45u8, 117u8, 110u8, 107u8, 110u8, 111u8, 119u8, 110u8, 45u8, 101u8, 109u8, 115u8, 99u8, 114u8, 105u8, 112u8, 116u8, 101u8, 110u8]);
        }
        if crate::bytes::bytes_eq(t, v.as_slice()) {
            return true;
        }
    }
    {
        let mut v: Vec<u8> = Vec::new();
        v.push(105);
        v.push(53);
        v.push(56);
        v.push(54);
        v.push(45);
        v.push(112);
        v.push(99);
        v.push(45);
        v.push(119);
        v.push(105);
        v.push(110);
        v.push(100);
        v.push(111);
        v.push(119);
        v.push(115);
        v.push(45);
        v.push(109);
        v.push(115);
        v.push(118);
        v.push(99);
        proof {
            assert(v@ =~= seq![105u8, 53u8, 56u8, 54u8, 45u8, 112u8, 99u8, 45u8, 119u8, 105u8, 110u8, 100u8, 111u8, 119u8, 115u8, 45u8, 109u8, 115u8, 118u8, 99u8]);
        }
        if crate::bytes::bytes_eq(t, v.as_slice()) {
            return true;
        }
    }
    {
        let mut v: Vec<u8> = Vec::new();
        v.push(105);
        v.push(53);
        v.push(56);
        v.push(54);
        v.push(45);
        v.push(117);
        v.push(110);
        v.push(107);
        v.push(110);
        v.push(111);
        v.push(119);
        v.push(110);
        v.push(45);
        v.push(108);
        v.push(105);
        v.push(110);
        v.push(117);
        v.push(120);
        v.push(45);
        v.push(103);
        v.push(110);
        v.push(117);
        proof {
            assert(v@ =~= seq![105u8, 53u8, 56u8, 54u8, 45u8, 117u8, 110u8, 107u8, 110u8, 111u8, 119u8, 110u8, 45u8, 108u8, 105u8, 110u8, 117u8, 120u8, 45u8, 103u8, 110u8, 117u8]);
        }
        if crate::bytes::bytes_eq(t, v.as_slice()) {
            return true;
        }
    }
    false
}

/// One slice of the supported-target list.
pub open spec fn spec_targets_group9(t: Seq<u8>) -> bool {
    t == seq![105u8, 53u8, 56u8, 54u8, 45u8, 117u8, 110u8, 107u8, 110u8, 111u8, 119u8, 110u8, 45u8, 108u8, 105u8, 110u8, 117u8, 120u8, 45u8, 109u8, 117u8, 115u8, 108u8]
    || t == seq![105u8, 54u8, 56u8, 54u8, 45u8, 108u8, 105u8, 110u8, 117u8, 120u8, 45u8, 97u8, 110u8, 100u8, 114u8, 111u8, 105u8, 100u8]
    || t == seq![105u8, 54u8, 56u8, 54u8, 45u8, 117u8, 110u8, 107u8, 110u8, 111u8, 119u8, 110u8, 45u8, 102u8, 114u8, 101u8, 101u8, 98u8, 115u8, 100u8]
    || t == seq![105u8, 54u8, 56u8, 54u8, 45u8, 117u8, 110u8, 107u8, 110u8, 111u8, 119u8, 110u8, 45u8, 108u8, 105u8, 110u8, 117u8, 120u8, 45u8, 109u8, 117u8, 115u8, 108u8]
    || t == seq![105u8, 54u8, 56u8, 54u8, 45u8, 117u8, 110u8, 107u8, 110u8, 111u8, 119u8, 110u8, 45u8, 117u8, 101u8, 102u8, 105u8]
    || t == seq![109u8, 105u8, 112u8, 115u8, 45u8, 117u8, 110u8, 107u8, 110u8, 111u8, 119u8, 110u8, 45u8, 108u8, 105u8, 110u8, 117u8, 120u8, 45u8, 109u8, 117u8, 115u8, 108u8]
}

#[verifier::spinoff_prover]
#[verifier::rlimit(100)]
fn targets_group9(t: &[u8]) -> (r: bool)
    ensures
        r == spec_targets_group9(t@),
{
    {
        let mut v: Vec<u8> = Vec::new();
        v.push(105);
        v.push(53);
        v.push(56);
        v.push(54);
        v.push(45);
        v.push(117);
        v.push(110);
        v.push(107);
        v.push(110);
        v.push(111);
        v.push(119);
        v.push(110);
        v.push(45);
        v.push(108);
        v.push(105);
        v.push(110);
        v.push(117);
        v.push(120);
        v.push(45);
        v.push(109);
        v.push(117);
        v.push(115);
        v.push(108);
        proof {
            assert(v@ =~= seq![105u8, 53u8, 56u8, 54u8, 45u8, 117u8, 110u8, 107u8, 110u8, 111u8, 119u8, 110u8, 45u8, 108u8, 105u8, 110u8, 117u8, 120u8, 45u8, 109u8, 117u8, 115u8, 108u8]);
        }
        if crate::bytes::bytes_eq(t, v.as_slice()) {
            return true;
        }
    }
    {
        let mut v: Vec<u8> = Vec::new();
        v.push(105);
        v.push(54);
        v.push(56);
        v.push(54);
        v.push(45);
        v.push(108);
        v.push(105);
        v.push(110);
        v.push(117);
        v.push(120);
        v.push(45);
        v.push(97);
        v.push(110);
        v.push(100);
        v.push(114);
        v.push(111);
        v.push(105);
        v.push(100);
        proof {
            assert(v@ =~= seq![105u8, 54u8, 56u8, 54u8, 45u8, 108u8, 105u8, 110u8, 117u8, 120u8, 45u8, 97u8, 110u8, 100u8, 114u8, 111u8, 105u8, 100u8]);
        }
        if crate::bytes::bytes_eq(t, v.as_slice()) {
            return true;
        }
    }
    {
        let mut v: Vec<u8> = Vec::new();
        v.push(105);
        v.push(54);
        v.push(56);
        v.push(54);
        v.push(45);
        v.push(117);
        v.push(110);
        v.push(107);
        v.push(110);
        v.push(111);
        v.push(119);
        v.push(110);
        v.push(45);
        v.push(102);
        v.push(114);
        v.push(101);
        v.push(101);
        v.push(98);
        v.push(115);
        v.push(100);
        proof {
            assert(v@ =~= seq![105u8, 54u8, 56u8, 54u8, 45u8, 117u8, 110u8, 107u8, 110u8, 111u8, 119u8, 110u8, 45u8, 102u8, 114u8, 101u8, 101u8, 98u8, 115u8, 100u8]);
        }
        if crate::bytes::bytes_eq(t, v.as_slice()) {
            return true;
        }
    }
    {
        let mut v: Vec<u8> = Vec::new();
        v.push(105);
        v.push(54);
        v.push(56);
        v.push(54);
        v.push(45);
        v.push(117);
        v.push(110);
        v.push(107);
        v.push(110);
        v.push(111);
        v.push(119);
        v.push(110);
        v.push(45);
        v.push(108);
        v.push(105);
        v.push(110);
        v.push(117);
        v.push(120);
        v.push(45);
        v.push(109);
        v.push(117);
        v.push(115);
        v.push(108);
        proof {
            assert(v@ =~= seq![105u8, 54u8, 56u8, 54u8, 45u8, 117u8, 110u8, 107u8, 110u8, 111u8, 119u8, 110u8, 45u8, 108u8, 105u8, 110u8, 117u8, 120u8, 45u8, 109u8, 117u8, 115u8, 108u8]);
        }
        if crate::bytes::bytes_eq(t, v.as_slice()) {
            return true;
        }
    }
    {
        let mut v: Vec<u8> = Vec::new();
        v.push(105);
        v.push(54);
        v.push(56);
        v.push(54);
        v.push(45);
        v.push(117);
        v.push(110);
        v.push(107);
        v.push(110);
        v.push(111);
        v.push(119);
        v.push(110);
        v.push(45);
        v.push(117);
        v.push(101);
        v.push(102);
        v.push(105);
        proof {
            assert(v@ =~= seq![105u8, 54u8, 56u8, 54u8, 45u8, 117u8, 110u8, 107u8, 110u8, 111u8, 119u8, 110u8, 45u8, 117u8, 101u8, 102u8, 105u8]);
        }
        if crate::bytes::bytes_eq(t, v.as_slice()) {
            return true;
        }
    }
    {
        let mut v: Vec<u8> = Vec::new();
        v.push(109);
        v.push(105);
        v.push(112);
        v.push(115);
        v.push(45);
        v.push(117);
        v.push(110);
        v.push(107);
        v.push(110);
        v.push(111);
        v.push(119);
        v.push(110);
        v.push(45);
        v.push(108);
        v.push(105);
        v.push(110);
        v.push(117);
        v.push(120);
        v.push(45);
        v.push(109);
        v.push(117);
        v.push(115);
        v.push(108);
        proof {
            assert(v@ =~= seq![109u8, 105u8, 112u8, 115u8, 45u8, 117u8, 110u8, 107u8, 110u8, 111u8, 119u8, 110u8, 45u8, 108u8, 105u8, 110u8, 117u8, 120u8, 45u8, 109u8, 117u8, 115u8, 108u8]);
        }
        if crate::bytes::bytes_eq(t, v.as_slice()) {
            return true;
        }
    }
    false
}

/// One slice of the supported-target list.
pub open spec fn spec_targets_group10(t: Seq<u8>) -> bool {
    t == seq![109u8, 105u8, 112u8, 115u8, 54u8, 52u8, 45u8, 117u8, 110u8, 107u8, 110u8, 111u8, 119u8, 110u8, 45u8, 108u8, 105u8, 110u8, 117u8, 120u8, 45u8, 109u8, 117u8, 115u8, 108u8, 97u8, 98u8, 105u8, 54u8, 52u8]
    || t == seq![109u8, 105u8, 112u8, 115u8, 54u8, 52u8, 101u8, 108u8, 45u8, 117u8, 110u8, 107u8, 110u8, 111u8, 119u8, 110u8, 45u8, 108u8, 105u8, 110u8, 117u8, 120u8, 45u8, 109u8, 117u8, 115u8, 108u8, 97u8, 98u8, 105u8, 54u8, 52u8]
    || t == seq![109u8, 105u8, 112u8, 115u8, 101u8, 108u8, 45u8, 117u8, 110u8, 107u8, 110u8, 111u8, 119u8, 110u8, 45u8, 108u8, 105u8, 110u8, 117u8, 120u8, 45u8, 109u8, 117u8, 115u8, 108u8]
    || t == seq![110u8, 118u8, 112u8, 116u8, 120u8, 54u8, 52u8, 45u8, 110u8, 118u8, 105u8, 100u8, 105u8, 97u8, 45u8, 99u8, 117u8, 100u8, 97u8]
    || t == seq![114u8, 105u8, 115u8, 99u8, 118u8, 51u8, 50u8, 105u8, 45u8, 117u8, 110u8, 107u8, 110u8, 111u8, 119u8, 110u8, 45u8, 110u8, 111u8, 110u8, 101u8, 45u8, 101u8, 108u8, 102u8]
    || t == seq![114u8, 105u8, 115u8, 99u8, 118u8, 51u8, 50u8, 105u8, 109u8, 97u8, 99u8, 45u8, 117u8, 110u8, 107u8, 110u8, 111u8, 119u8, 110u8, 45u8, 110u8, 111u8, 110u8, 101u8, 45u8, 101u8, 108u8, 102u8]
}

#[verifier::spinoff_prover]
#[verifier::rlimit(100)]
fn targets_group10(t: &[u8]) -> (r: bool)
    ensures
        r == spec_targets_group10(t@),
{
    {
        let mut v: Vec<u8> = Vec::new();
        v.push(109);
        v.push(105);
        v.push(112);
        v.push(115);
        v.push(54);
        v.push(52);
        v.push(45);
        v.push(117);
        v.push(110);
        v.push(107);
        v.push(110);
        v.push(111);
        v.push(119);
        v.push(110);
        v.push(45);
        v.push(108);
        v.push(105);
        v.push(110);
        v.push(117);
        v.push(120);
        v.push(45);
        v.push(109);
        v.push(117);
        v.push(115);
        v.push(108);
        v.push(97);
        v.push(98);
        v.push(105);
        v.push(54);
        v.push(52);
        proof {
            assert(v@ =~= seq![109u8, 105u8, 112u8, 115u8, 54u8, 52u8, 45u8, 117u8, 110u8, 107u8, 110u8, 111u8, 119u8, 110u8, 45u8, 108u8, 105u8, 110u8, 117u8, 120u8, 45u8, 109u8, 117u8, 115u8, 108u8, 97u8, 98u8, 105u8, 54u8, 52u8]);
        }
        if crate::bytes::bytes_eq(t, v.as_slice()) {
            return true;
        }
    }
    {
        let mut v: Vec<u8> = Vec::new();
        v.push(109);
        v.push(105);
        v.push(112);
        v.push(115);
        v.push(54);
        v.push(52);
        v.push(101);
        v.push(108);
        v.push(45);
        v.push(117);
        v.push(110);
        v.push(107);
        v.push(110);
        v.push(111);
        v.push(119);
        v.push(110);
        v.push(45);
        v.push(108);
        v.push(105);
        v.push(110);
        v.push(117);
        v.push(120);
        v.push(45);
        v.push(109);
        v.push(117);
        v.push(115);
        v.push(108);
        v.push(97);
        v.push(98);
        v.push(105);
        v.push(54);
        v.push(52);
        proof {
            assert(v@ =~= seq![109u8, 105u8, 112u8, 115u8, 54u8, 52u8, 101u8, 108u8, 45u8, 117u8, 110u8, 107u8, 110u8, 111u8, 119u8, 110u8, 45u8, 108u8, 105u8, 110u8, 117u8, 120u8, 45u8, 109u8, 117u8, 115u8, 108u8, 97u8, 98u8, 105u8, 54u8, 52u8]);
        }
        if crate::bytes::bytes_eq(t, v.as_slice()) {
            return true;
        }
    }
    {
        let mut v: Vec<u8> = Vec::new();
        v.push(109);
        v.push(105);
        v.push(112);
        v.push(115);
        v.push(101);
        v.push(108);
        v.push(45);
        v.push(117);
        v.push(110);
        v.push(107);
        v.push(110);
        v.push(111);
        v.push(119);
        v.push(110);
        v.push(45);
        v.push(108);
        v.push(105);
        v.push(110);
        v.push(117);
        v.push(120);
        v.push(45);
        v.push(109);
        v.push(117);
        v.push(115);
        v.push(108);
        proof {
            assert(v@ =~= seq![109u8, 105u8, 112u8, 115u8, 101u8, 108u8, 45u8, 117u8, 110u8, 107u8, 110u8, 111u8, 119u8, 110u8, 45u8, 108u8, 105u8, 110u8, 117u8, 120u8, 45u8, 109u8, 117u8, 115u8, 108u8]);
        }
        if crate::bytes::bytes_eq(t, v.as_slice()) {
            return true;
        }
    }
    {
        let mut v: Vec<u8> = Vec::new();
        v.push(110);
        v.push(118);
        v.push(112);
        v.push(116);
        v.push(120);
        v.push(54);
        v.push(52);
        v.push(45);
        v.push(110);
        v.push(118);
        v.push(105);
        v.push(100);
        v.push(105);
        v.push(97);
        v.push(45);
        v.push(99);
        v.push(117);
        v.push(100);
        v.push(97);
        proof {
            assert(v@ =~= seq![110u8, 118u8, 112u8, 116u8, 120u8, 54u8, 52u8, 45u8, 110u8, 118u8, 105u8, 100u8, 105u8, 97u8, 45u8, 99u8, 117u8, 100u8, 97u8]);
        }
        if crate::bytes::bytes_eq(t, v.as_slice()) {
            return true;
        }
    }
    {
        let mut v: Vec<u8> = Vec::new();
        v.push(114);
        v.push(105);
        v.push(115);
        v.push(99);
        v.push(118);
        v.push(51);
        v.push(50);
        v.push(105);
        v.push(45);
        v.push(117);
        v.push(110);
        v.push(107);
        v.push(110);
        v.push(111);
        v.push(119);
        v.push(110);
        v.push(45);
        v.push(110);
        v.push(111);
        v.push(110);
        v.push(101);
        v.push(45);
        v.push(101);
        v.push(108);
        v.push(102);
        proof {
            assert(v@ =~= seq![114u8, 105u8, 115u8, 99u8, 118u8, 51u8, 50u8, 105u8, 45u8, 117u8, 110u8, 107u8, 110u8, 111u8, 119u8, 110u8, 45u8, 110u8, 111u8, 110u8, 101u8, 45u8, 101u8, 108u8, 102u8]);
        }
        if crate::bytes::bytes_eq(t, v.as_slice()) {
            return true;
        }
    }
    {
        let mut v: Vec<u8> = Vec::new();
        v.push(114);
        v.push(105);
        v.push(115);
        v.push(99);
        v.push(118);
        v.push(51);
        v.push(50);
        v.push(105);
        v.push(109);
        v.push(97);
        v.push(99);
        v.push(45);
        v.push(117);
        v.push(110);
        v.push(107);
        v.push(110);
        v.push(111);
        v.push(119);
        v.push(110);
        v.push(45);
        v.push(110);
        v.push(111);
        v.push(110);
        v.push(101);
        v.push(45);
        v.push(101);
        v.push(108);
        v.push(102);
        proof {
            assert(v@ =~= seq![114u8, 105u8, 115u8, 99u8, 118u8, 51u8, 50u8, 105u8, 109u8, 97u8, 99u8, 45u8, 117u8, 110u8, 107u8, 110u8, 111u8, 119u8, 110u8, 45u8, 110u8, 111u8, 110u8, 101u8, 45u8, 101u8, 108u8, 102u8]);
        }
        if crate::bytes::bytes_eq(t, v.as_slice()) {
            return true;
        }
    }
    false
}

/// One slice of the supported-target list.
pub open spec fn spec_targets_group11(t: Seq<u8>) -> bool {
    t == seq![114u8, 105u8, 115u8, 99u8, 118u8, 51u8, 50u8, 105u8, 109u8, 99u8, 45u8, 117u8, 110u8, 107u8, 110u8, 111u8, 119u8, 110u8, 45u8, 110u8, 111u8, 110u8, 101u8, 45u8, 101u8, 108u8, 102u8]
    || t == seq![114u8, 105u8, 115u8, 99u8, 118u8, 54u8, 52u8, 103u8, 99u8, 45u8, 117u8, 110u8, 107u8, 110u8, 111u8, 119u8, 110u8, 45u8, 110u8, 111u8, 110u8, 101u8, 45u8, 101u8, 108u8, 102u8]
    || t == seq![114u8, 105u8, 115u8, 99u8, 118u8, 54u8, 52u8, 105u8, 109u8, 97u8, 99u8, 45u8, 117u8, 110u8, 107u8, 110u8, 111u8, 119u8, 110u8, 45u8, 110u8, 111u8, 110u8, 101u8, 45u8, 101u8, 108u8, 102u8]
    || t == seq![115u8, 112u8, 97u8, 114u8, 99u8, 54u8, 52u8, 45u8, 117u8, 110u8, 107u8, 110u8, 111u8, 119u8, 110u8, 45u8, 108u8, 105u8, 110u8, 117u8, 120u8, 45u8, 103u8, 110u8, 117u8]
    || t == seq![115u8, 112u8, 97u8, 114u8, 99u8, 118u8, 57u8, 45u8, 115u8, 117u8, 110u8, 45u8, 115u8, 111u8, 108u8, 97u8, 114u8, 105u8, 115u8]
    || t == seq![116u8, 104u8, 117u8, 109u8, 98u8, 118u8, 54u8, 109u8, 45u8, 110u8, 111u8, 110u8, 101u8, 45u8, 101u8, 97u8, 98u8, 105u8]
}

#[verifier::spinoff_prover]
#[verifier::rlimit(100)]
fn targets_group11(t: &[u8]) -> (r: bool)
    ensures
        r == spec_targets_group11(t@),
{
    {
        let mut v: Vec<u8> = Vec::new();
        v.push(114);
        v.push(105);
        v.push(115);
        v.push(99);
        v.push(118);
        v.push(51);
        v.push(50);
        v.push(105);
        v.push(109);
        v.push(99);
        v.push(45);
        v.push(117);
        v.push(110);
        v.push(107);
        v.push(110);
        v.push(111);
        v.push(119);
        v.push(110);
        v.push(45);
        v.push(110);
        v.push(111);
        v.push(110);
        v.push(101);
        v.push(45);
        v.push(101);
        v.push(108);
        v.push(102);
        proof {
            assert(v@ =~= seq![114u8, 105u8, 115u8, 99u8, 118u8, 51u8, 50u8, 105u8, 109u8, 99u8, 45u8, 117u8, 110u8, 107u8, 110u8, 111u8, 119u8, 110u8, 45u8, 110u8, 111u8, 110u8, 101u8, 45u8, 101u8, 108u8, 102u8]);
        }
        if crate::bytes::bytes_eq(t, v.as_slice()) {
            return true;
        }
    }
    {
        let mut v: Vec<u8> = Vec::new();
        v.push(114);
        v.push(105);
        v.push(115);
        v.push(99);
        v.push(118);
        v.push(54);
        v.push(52);
        v.push(103);
        v.push(99);
        v.push(45);
        v.push(117);
        v.push(110);
        v.push(107);
        v.push(110);
        v.push(111);
        v.push(119);
        v.push(110);
        v.push(45);
        v.push(110);
        v.push(111);
        v.push(110);
        v.push(101);
        v.push(45);
        v.push(101);
        v.push(108);
        v.push(102);
        proof {
            assert(v@ =~= seq![114u8, 105u8, 115u8, 99u8, 118u8, 54u8, 52u8, 103u8, 99u8, 45u8, 117u8, 110u8, 107u8, 110u8, 111u8, 119u8, 110u8, 45u8, 110u8, 111u8, 110u8, 101u8, 45u8, 101u8, 108u8, 102u8]);
        }
        if crate::bytes::bytes_eq(t, v.as_slice()) {
            return true;
        }
    }
    {
        let mut v: Vec<u8> = Vec::new();
        v.push(114);
        v.push(105);
        v.push(115);
        v.push(99);
        v.push(118);
        v.push(54);
        v.push(52);
        v.push(105);
        v.push(109);
        v.push(97);
        v.push(99);
        v.push(45);
        v.push(117);
        v.push(110);
        v.push(107);
        v.push(110);
        v.push(111);
        v.push(119);
        v.push(110);
        v.push(45);
        v.push(110);
        v.push(111);
        v.push(110);
        v.push(101);
        v.push(45);
        v.push(101);
        v.push(108);
        v.push(102);
        proof {
            assert(v@ =~= seq![114u8, 105u8, 115u8, 99u8, 118u8, 54u8, 52u8, 105u8, 109u8, 97u8, 99u8, 45u8, 117u8, 110u8, 107u8, 110u8, 111u8, 119u8, 110u8, 45u8, 110u8, 111u8, 110u8, 101u8, 45u8, 101u8, 108u8, 102u8]);
        }
        if crate::bytes::bytes_eq(t, v.as_slice()) {
            return true;
        }
    }
    {
        let mut v: Vec<u8> = Vec::new();
        v.push(115);
        v.push(112);
        v.push(97);
        v.push(114);
        v.push(99);
        v.push(54);
        v.push(52);
        v.push(45);
        v.push(117);
        v.push(110);
        v.push(107);
        v.push(110);
        v.push(111);
        v.push(119);
        v.push(110);
        v.push(45);
        v.push(108);
        v.push(105);
        v.push(110);
        v.push(117);
        v.push(120);
        v.push(45);
        v.push(103);
        v.push(110);
        v.push(117);
        proof {
            assert(v@ =~= seq![115u8, 112u8, 97u8, 114u8, 99u8, 54u8, 52u8, 45u8, 117u8, 110u8, 107u8, 110u8, 111u8, 119u8, 110u8, 45u8, 108u8, 105u8, 110u8, 117u8, 120u8, 45u8, 103u8, 110u8, 117u8]);
        }
        if crate::bytes::bytes_eq(t, v.as_slice()) {
            return true;
        }
    }
    {
        let mut v: Vec<u8> = Vec::new();
        v.push(115);
        v.push(112);
        v.push(97);
        v.push(114);
        v.push(99);
        v.push(118);
        v.push(57);
        v.push(45);
        v.push(115);
        v.push(117);
        v.push(110);
        v.push(45);
        v.push(115);
        v.push(111);
        v.push(108);
        v.push(97);
        v.push(114);
        v.push(105);
        v.push(115);
        proof {
            assert(v@ =~= seq![115u8, 112u8, 97u8, 114u8, 99u8, 118u8, 57u8, 45u8, 115u8, 117u8, 110u8, 45u8, 115u8, 111u8, 108u8, 97u8, 114u8, 105u8, 115u8]);
        }
        if crate::bytes::bytes_eq(t, v.as_slice()) {
            return true;
        }
    }
    {
        let mut v: Vec<u8> = Vec::new();
        v.push(116);
        v.push(104);
        v.push(117);
        v.push(109);
        v.push(98);
        v.push(118);
        v.push(54);
        v.push(109);
        v.push(45);
        v.push(110);
        v.push(111);
        v.push(110);
        v.push(101);
        v.push(45);
        v.push(101);
        v.push(97);
        v.push(98);
        v.push(105);
        proof {
            assert(v@ =~= seq![116u8, 104u8, 117u8, 109u8, 98u8, 118u8, 54u8, 109u8, 45u8, 110u8, 111u8, 110u8, 101u8, 45u8, 101u8, 97u8, 98u8, 105u8]);
        }
        if crate::bytes::bytes_eq(t, v.as_slice()) {
            return true;
        }
    }
    false
}

/// One slice of the supported-target list.
pub open spec fn spec_targets_group12(t: Seq<u8>) -> bool {
    t == seq![116u8, 104u8, 117u8, 109u8, 98u8, 118u8, 55u8, 101u8, 109u8, 45u8, 110u8, 111u8, 110u8, 101u8, 45u8, 101u8, 97u8, 98u8, 105u8]
    || t == seq![116u8, 104u8, 117u8, 109u8, 98u8, 118u8, 55u8, 101u8, 109u8, 45u8, 110u8, 111u8, 110u8, 101u8, 45u8, 101u8, 97u8, 98u8, 105u8, 104u8, 102u8]
    || t == seq![116u8, 104u8, 117u8, 109u8, 98u8, 118u8, 55u8, 109u8, 45u8, 110u8, 111u8, 110u8, 101u8, 45u8, 101u8, 97u8, 98u8, 105u8]
    || t == seq![116u8, 104u8, 117u8, 109u8, 98u8, 118u8, 55u8, 110u8, 101u8, 111u8, 110u8, 45u8, 108u8, 105u8, 110u8, 117u8, 120u8, 45u8, 97u8, 110u8, 100u8, 114u8, 111u8, 105u8, 100u8, 101u8, 97u8, 98u8, 105u8]
    || t == seq![116u8, 104u8, 117u8, 109u8, 98u8, 118u8, 55u8, 110u8, 101u8, 111u8, 110u8, 45u8, 117u8, 110u8, 107u8, 110u8, 111u8, 119u8, 110u8, 45u8, 108u8, 105u8, 110u8, 117u8, 120u8, 45u8, 103u8, 110u8, 117u8, 101u8, 97u8, 98u8, 105u8, 104u8, 102u8]
    || t == seq![116u8, 104u8, 117u8, 109u8, 98u8, 118u8, 56u8, 109u8, 46u8, 98u8, 97u8, 115u8, 101u8, 45u8, 110u8, 111u8, 110u8, 101u8, 45u8, 101u8, 97u8, 98u8, 105u8]
}

#[verifier::spinoff_prover]
#[verifier::rlimit(100)]
fn targets_group12(t: &[u8]) -> (r: bool)
    ensures
        r == spec_targets_group12(t@),
{
    {
        let mut v: Vec<u8> = Vec::new();
        v.push(116);
        v.push(104);
        v.push(117);
        v.push(109);
        v.push(98);
        v.push(118);
        v.push(55);
        v.push(101);
        v.push(109);
        v.push(45);
        v.push(110);
        v.push(111);
        v.push(110);
        v.push(101);
        v.push(45);
        v.push(101);
        v.push(97);
        v.push(98);
        v.push(105);
        proof {
            assert(v@ =~= seq![116u8, 104u8, 117u8, 109u8, 98u8, 118u8, 55u8, 101u8, 109u8, 45u8, 110u8, 111u8, 110u8, 101u8, 45u8, 101u8, 97u8, 98u8, 105u8]);
        }
        if crate::bytes::bytes_eq(t, v.as_slice()) {
            return true;
        }
    }
    {
        let mut v: Vec<u8> = Vec::new();
        v.push(116);
        v.push(104);
        v.push(117);
        v.push(109);
        v.push(98);
        v.push(118);
        v.push(55);
        v.push(101);
        v.push(109);
        v.push(45);
        v.push(110);
        v.push(111);
        v.push(110);
        v.push(101);
        v.push(45);
        v.push(101);
        v.push(97);
        v.push(98);
        v.push(105);
        v.push(104);
        v.push(102);
        proof {
            assert(v@ =~= seq![116u8, 104u8, 117u8, 109u8, 98u8, 118u8, 55u8, 101u8, 109u8, 45u8, 110u8, 111u8, 110u8, 101u8, 45u8, 101u8, 97u8, 98u8, 105u8, 104u8, 102u8]);
        }
        if crate::bytes::bytes_eq(t, v.as_slice()) {
            return true;
        }
    }
    {
        let mut v: Vec<u8> = Vec::new();
        v.push(116);
        v.push(104);
        v.push(117);
        v.push(109);
        v.push(98);
        v.push(118);
        v.push(55);
        v.push(109);
        v.push(45);
        v.push(110);
        v.push(111);
        v.push(110);
        v.push(101);
        v.push(45);
        v.push(101);
        v.push(97);
        v.push(98);
        v.push(105);
        proof {
            assert(v@ =~= seq![116u8, 104u8, 117u8, 109u8, 98u8, 118u8, 55u8, 109u8, 45u8, 110u8, 111u8, 110u8, 101u8, 45u8, 101u8, 97u8, 98u8, 105u8]);
        }
        if crate::bytes::bytes_eq(t, v.as_slice()) {
            return true;
        }
    }
    {
        let mut v: Vec<u8> = Vec::new();
        v.push(116);
        v.push(104);
        v.push(117);
        v.push(109);
        v.push(98);
        v.push(118);
        v.push(55);
        v.push(110);
        v.push(101);
        v.push(111);
        v.push(110);
        v.push(45);
        v.push(108);
        v.push(105);
        v.push(110);
        v.push(117);
        v.push(120);
        v.push(45);
        v.push(97);
        v.push(110);
        v.push(100);
        v.push(114);
        v.push(111);
        v.push(105);
        v.push(100);
        v.push(101);
        v.push(97);
        v.push(98);
        v.push(105);
        proof {
            assert(v@ =~= seq![116u8, 104u8, 117u8, 109u8, 98u8, 118u8, 55u8, 110u8, 101u8, 111u8, 110u8, 45u8, 108u8, 105u8, 110u8, 117u8, 120u8, 45u8, 97u8, 110u8, 100u8, 114u8, 111u8, 105u8, 100u8, 101u8, 97u8, 98u8, 105u8]);
        }
        if crate::bytes::bytes_eq(t, v.as_slice()) {
            return true;
        }
    }
    {
        let mut v: Vec<u8> = Vec::new();
        v.push(116);
        v.push(104);
        v.push(117);
        v.push(109);
        v.push(98);
        v.push(118);
        v.push(55);
        v.push(110);
        v.push(101);
        v.push(111);
        v.push(110);
        v.push(45);
        v.push(117);
        v.push(110);
        v.push(107);
        v.push(110);
        v.push(111);
        v.push(119);
        v.push(110);
        v.push(45);
        v.push(108);
        v.push(105);
        v.push(110);
        v.push(117);
        v.push(120);
        v.push(45);
        v.push(103);
        v.push(110);
        v.push(117);
        v.push(101);
        v.push(97);
        v.push(98);
        v.push(105);
        v.push(104);
        v.push(102);
        proof {
            assert(v@ =~= seq![116u8, 104u8, 117u8, 109u8, 98u8, 118u8, 55u8, 110u8, 101u8, 111u8, 110u8, 45u8, 117u8, 110u8, 107u8, 110u8, 111u8, 119u8, 110u8, 45u8, 108u8, 105u8, 110u8, 117u8, 120u8, 45u8, 103u8, 110u8, 117u8, 101u8, 97u8, 98u8, 105u8, 104u8, 102u8]);
        }
        if crate::bytes::bytes_eq(t, v.as_slice()) {
            return true;
        }
    }
    {
        let mut v: Vec<u8> = Vec::new();
        v.push(116);
        v.push(104);
        v.push(117);
        v.push(109);
        v.push(98);
        v.push(118);
        v.push(56);
        v.push(109);
        v.push(46);
        v.push(98);
        v.push(97);
        v.push(115);
        v.push(101);
        v.push(45);
        v.push(110);
        v.push(111);
        v.push(110);
        v.push(101);
        v.push(45);
        v.push(101);
        v.push(97);
        v.push(98);
        v.push(105);
        proof {
            assert(v@ =~= seq![116u8, 104u8, 117u8, 109u8, 98u8, 118u8, 56u8, 109u8, 46u8, 98u8, 97u8, 115u8, 101u8, 45u8, 110u8, 111u8, 110u8, 101u8, 45u8, 101u8, 97u8, 98u8, 105u8]);
        }
        if crate::bytes::bytes_eq(t, v.as_slice()) {
            return true;
        }
    }
    false
}

/// One slice of the supported-target list.
pub open spec fn spec_targets_group13(t: Seq<u8>) -> bool {
    t == seq![116u8, 104u8, 117u8, 109u8, 98u8, 118u8, 56u8, 109u8, 46u8, 109u8, 97u8, 105u8, 110u8, 45u8, 110u8, 111u8, 110u8, 101u8, 45u8, 101u8, 97u8, 98u8, 105u8]
    || t == seq![116u8, 104u8, 117u8, 109u8, 98u8, 118u8, 56u8, 109u8, 46u8, 109u8, 97u8, 105u8, 110u8, 45u8, 110u8, 111u8, 110u8, 101u8, 45u8, 101u8, 97u8, 98u8, 105u8, 104u8, 102u8]
    || t == seq![119u8, 97u8, 115u8, 109u8, 51u8, 50u8, 45u8, 117u8, 110u8, 107u8, 110u8, 111u8, 119u8, 110u8, 45u8, 101u8, 109u8, 115u8, 99u8, 114u8, 105u8, 112u8, 116u8, 101u8, 110u8]
    || t == seq![119u8, 97u8, 115u8, 109u8, 51u8, 50u8, 45u8, 117u8, 110u8, 107u8, 110u8, 111u8, 119u8, 110u8, 45u8, 117u8, 110u8, 107u8, 110u8, 111u8, 119u8, 110u8]
    || t == seq![119u8, 97u8, 115u8, 109u8, 51u8, 50u8, 45u8, 119u8, 97u8, 115u8, 105u8]
    || t == seq![120u8, 56u8, 54u8, 95u8, 54u8, 52u8, 45u8, 97u8, 112u8, 112u8, 108u8, 101u8, 45u8, 105u8, 111u8, 115u8]
}

#[verifier::spinoff_prover]
#[verifier::rlimit(100)]
fn targets_group13(t: &[u8]) -> (r: bool)
    ensures
        r == spec_targets_group13(t@),
{
    {
        let mut v: Vec<u8> = Vec::new();
        v.push(116);
        v.push(104);
        v.push(117);
        v.push(109);
        v.push(98);
        v.push(118);
        v.push(56);
        v.push(109);
        v.push(46);
        v.push(109);
        v.push(97);
        v.push(105);
        v.push(110);
        v.push(45);
        v.push(110);
        v.push(111);
        v.push(110);
        v.push(101);
        v.push(45);
        v.push(101);
        v.push(97);
        v.push(98);
        v.push(105);
        proof {
            assert(v@ =~= seq![116u8, 104u8, 117u8, 109u8, 98u8, 118u8, 56u8, 109u8, 46u8, 109u8, 97u8, 105u8, 110u8, 45u8, 110u8, 111u8, 110u8, 101u8, 45u8, 101u8, 97u8, 98u8, 105u8]);
        }
        if crate::bytes::bytes_eq(t, v.as_slice()) {
            return true;
        }
    }
    {
        let mut v: Vec<u8> = Vec::new();
        v.push(116);
        v.push(104);
        v.push(117);
        v.push(109);
        v.push(98);
        v.push(118);
        v.push(56);
        v.push(109);
        v.push(46);
        v.push(109);
        v.push(97);
        v.push(105);
        v.push(110);
        v.push(45);
        v.push(110);
        v.push(111);
        v.push(110);
        v.push(101);
        v.push(45);
        v.push(101);
        v.push(97);
        v.push(98);
        v.push(105);
        v.push(104);
        v.push(102);
        proof {
            assert(v@ =~= seq![116u8, 104u8, 117u8, 109u8, 98u8, 118u8, 56u8, 109u8, 46u8, 109u8, 97u8, 105u8, 110u8, 45u8, 110u8, 111u8, 110u8, 101u8, 45u8, 101u8, 97u8, 98u8, 105u8, 104u8, 102u8]);
        }
        if crate::bytes::bytes_eq(t, v.as_slice()) {
            return true;
        }
    }
    {
        let mut v: Vec<u8> = Vec::new();
        v.push(119);
        v.push(97);
        v.push(115);
        v.push(109);
        v.push(51);
        v.push(50);
        v.push(45);
        v.push(117);
        v.push(110);
        v.push(107);
        v.push(110);
        v.push(111);
        v.push(119);
        v.push(110);
        v.push(45);
        v.push(101);
        v.push(109);
        v.push(115);
        v.push(99);
        v.push(114);
        v.push(105);
        v.push(112);
        v.push(116);
        v.push(101);
        v.push(110);
        proof {
            assert(v@ =~= seq![119u8, 97u8, 115u8, 109u8, 51u8, 50u8, 45u8, 117u8, 110u8, 107u8, 110u8, 111u8, 119u8, 110u8, 45u8, 101u8, 109u8, 115u8, 99u8, 114u8, 105u8, 112u8, 116u8, 101u8, 110u8]);
        }
        if crate::bytes::bytes_eq(t, v.as_slice()) {
            return true;
        }
    }
    {
        let mut v: Vec<u8> = Vec::new();
        v.push(119);
        v.push(97);
        v.push(115);
        v.push(109);
        v.push(51);
        v.push(50);
        v.push(45);
        v.push(117);
        v.push(110);
        v.push(107);
        v.push(110);
        v.push(111);
        v.push(119);
        v.push(110);
        v.push(45);
        v.push(117);
        v.push(110);
        v.push(107);
        v.push(110);
        v.push(111);
        v.push(119);
        v.push(110);
        proof {
            assert(v@ =~= seq![119u8, 97u8, 115u8, 109u8, 51u8, 50u8, 45u8, 117u8, 110u8, 107u8, 110u8, 111u8, 119u8, 110u8, 45u8, 117u8, 110u8, 107u8, 110u8, 111u8, 119u8, 110u8]);
        }
        if crate::bytes::bytes_eq(t, v.as_slice()) {
            return true;
        }
    }
    {
        let mut v: Vec<u8> = Vec::new();
        v.push(119);
        v.push(97);
        v.push(115);
        v.push(109);
        v.push(51);
        v.push(50);
        v.push(45);
        v.push(119);
        v.push(97);
        v.push(115);
        v.push(105);
        proof {
            assert(v@ =~= seq![119u8, 97u8, 115u8, 109u8, 51u8, 50u8, 45u8, 119u8, 97u8, 115u8, 105u8]);
        }
        if crate::bytes::bytes_eq(t, v.as_slice()) {
            return true;
        }
    }
    {
        let mut v: Vec<u8> = Vec::new();
        v.push(120);
        v.push(56);
        v.push(54);
        v.push(95);
        v.push(54);
        v.push(52);
        v.push(45);
        v.push(97);
        v.push(112);
        v.push(112);
        v.push(108);
        v.push(101);
        v.push(45);
        v.push(105);
        v.push(111);
        v.push(115);
        proof {
            assert(v@ =~= seq![120u8, 56u8, 54u8, 95u8, 54u8, 52u8, 45u8, 97u8, 112u8, 112u8, 108u8, 101u8, 45u8, 105u8, 111u8, 115u8]);
        }
        if crate::bytes::bytes_eq(t, v.as_slice()) {
            return true;
        }
    }
    false
}

/// One slice of the supported-target list.
pub open spec fn spec_targets_group14(t: Seq<u8>) -> bool {
    t == seq![120u8, 56u8, 54u8, 95u8, 54u8, 52u8, 45u8, 102u8, 111u8, 114u8, 116u8, 97u8, 110u8, 105u8, 120u8, 45u8, 117u8, 110u8, 107u8, 110u8, 111u8, 119u8, 110u8, 45u8, 115u8, 103u8, 120u8]
    || t == seq![120u8, 56u8, 54u8, 95u8, 54u8, 52u8, 45u8, 102u8, 117u8, 99u8, 104u8, 115u8, 105u8, 97u8]
    || t == seq![120u8, 56u8, 54u8, 95u8, 54u8, 52u8, 45u8, 117u8, 110u8, 107u8, 110u8, 111u8, 119u8, 110u8, 45u8, 102u8, 117u8, 99u8, 104u8, 115u8, 105u8, 97u8]
    || t == seq![120u8, 56u8, 54u8, 95u8, 54u8, 52u8, 45u8, 108u8, 105u8, 110u8, 117u8, 120u8, 45u8, 97u8, 110u8, 100u8, 114u8, 111u8, 105u8, 100u8]
    || t == seq![120u8, 56u8, 54u8, 95u8, 54u8, 52u8, 45u8, 112u8, 99u8, 45u8, 115u8, 111u8, 108u8, 97u8, 114u8, 105u8, 115u8]
    || t == seq![120u8, 56u8, 54u8, 95u8, 54u8, 52u8, 45u8, 117u8, 110u8, 107u8, 110u8, 111u8, 119u8, 110u8, 45u8, 108u8, 105u8, 110u8, 117u8, 120u8, 45u8, 103u8, 110u8, 117u8, 120u8, 51u8, 50u8]
}

#[verifier::spinoff_prover]
#[verifier::rlimit(100)]
fn targets_group14(t: &[u8]) -> (r: bool)
    ensures
        r == spec_targets_group14(t@),
{
    {
        let mut v: Vec<u8> = Vec::new();
        v.push(120);
        v.push(56);
        v.push(54);
        v.push(95);
        v.push(54);
        v.push(52);
        v.push(45);
        v.push(102);
        v.push(111);
        v.push(114);
        v.push(116);
        v.push(97);
        v.push(110);
        v.push(105);
        v.push(120);
        v.push(45);
        v.push(117);
        v.push(110);
        v.push(107);
        v.push(110);
        v.push(111);
        v.push(119);
        v.push(110);
        v.push(45);
        v.push(115);
        v.push(103);
        v.push(120);
        proof {
            assert(v@ =~= seq![120u8, 56u8, 54u8, 95u8, 54u8, 52u8, 45u8, 102u8, 111u8, 114u8, 116u8, 97u8, 110u8, 105u8, 120u8, 45u8, 117u8, 110u8, 107u8, 110u8, 111u8, 119u8, 110u8, 45u8, 115u8, 103u8, 120u8]);
        }
        if crate::bytes::bytes_eq(t, v.as_slice()) {
            return true;
        }
    }
    {
        let mut v: Vec<u8> = Vec::new();
        v.push(120);
        v.push(56);
        v.push(54);
        v.push(95);
        v.push(54);
        v.push(52);
        v.push(45);
        v.push(102);
        v.push(117);
        v.push(99);
        v.push(104);
        v.push(115);
        v.push(105);
        v.push(97);
        proof {
            assert(v@ =~= seq![120u8, 56u8, 54u8, 95u8, 54u8, 52u8, 45u8, 102u8, 117u8, 99u8, 104u8, 115u8, 105u8, 97u8]);
        }
        if crate::bytes::bytes_eq(t, v.as_slice()) {
            return true;
        }
    }
    {
        let mut v: Vec<u8> = Vec::new();
        v.push(120);
        v.push(56);
        v.push(54);
        v.push(95);
        v.push(54);
        v.push(52);
        v.push(45);
        v.push(117);
        v.push(110);
        v.push(107);
        v.push(110);
        v.push(111);
        v.push(119);
        v.push(110);
        v.push(45);
        v.push(102);
        v.push(117);
        v.push(99);
        v.push(104);
        v.push(115);
        v.push(105);
        v.push(97);
        proof {
            assert(v@ =~= seq![120u8, 56u8, 54u8, 95u8, 54u8, 52u8, 45u8, 117u8, 110u8, 107u8, 110u8, 111u8, 119u8, 110u8, 45u8, 102u8, 117u8, 99u8, 104u8, 115u8, 105u8, 97u8]);
        }
        if crate::bytes::bytes_eq(t, v.as_slice()) {
            return true;
        }
    }
    {
        let mut v: Vec<u8> = Vec::new();
        v.push(120);
        v.push(56);
        v.push(54);
        v.push(95);
        v.push(54);
        v.push(52);
        v.push(45);
        v.push(108);
        v.push(105);
        v.push(110);
        v.push(117);
        v.push(120);
        v.push(45);
        v.push(97);
        v.push(110);
        v.push(100);
        v.push(114);
        v.push(111);
        v.push(105);
        v.push(100);
        proof {
            assert(v@ =~= seq![120u8, 56u8, 54u8, 95u8, 54u8, 52u8, 45u8, 108u8, 105u8, 110u8, 117u8, 120u8, 45u8, 97u8, 110u8, 100u8, 114u8, 111u8, 105u8, 100u8]);
        }
        if crate::bytes::bytes_eq(t, v.as_slice()) {
            return true;
        }
    }
    {
        let mut v: Vec<u8> = Vec::new();
        v.push(120);
        v.push(56);
        v.push(54);
        v.push(95);
        v.push(54);
        v.push(52);
        v.push(45);
        v.push(112);
        v.push(99);
        v.push(45);
        v.push(115);
        v.push(111);
        v.push(108);
        v.push(97);
        v.push(114);
        v.push(105);
        v.push(115);
        proof {
            assert(v@ =~= seq![120u8, 56u8, 54u8, 95u8, 54u8, 52u8, 45u8, 112u8, 99u8, 45u8, 115u8, 111u8, 108u8, 97u8, 114u8, 105u8, 115u8]);
        }
        if crate::bytes::bytes_eq(t, v.as_slice()) {
            return true;
        }
    }
    {
        let mut v: Vec<u8> = Vec::new();
        v.push(120);
        v.push(56);
        v.push(54);
        v.push(95);
        v.push(54);
        v.push(52);
        v.push(45);
        v.push(117);
        v.push(110);
        v.push(107);
        v.push(110);
        v.push(111);
        v.push(119);
        v.push(110);
        v.push(45);
        v.push(108);
        v.push(105);
        v.push(110);
        v.push(117);
        v.push(120);
        v.push(45);
        v.push(103);
        v.push(110);
        v.push(117);
        v.push(120);
        v.push(51);
        v.push(50);
        proof {
            assert(v@ =~= seq![120u8, 56u8, 54u8, 95u8, 54u8, 52u8, 45u8, 117u8, 110u8, 107u8, 110u8, 111u8, 119u8, 110u8, 45u8, 108u8, 105u8, 110u8, 117u8, 120u8, 45u8, 103u8, 110u8, 117u8, 120u8, 51u8, 50u8]);
        }
        if crate::bytes::bytes_eq(t, v.as_slice()) {
            return true;
        }
    }
    false
}

/// One slice of the supported-target list.
pub open spec fn spec_targets_group15(t: Seq<u8>) -> bool {
    t == seq![120u8, 56u8, 54u8, 95u8, 54u8, 52u8, 45u8, 117u8, 110u8, 107u8, 110u8, 111u8, 119u8, 110u8, 45u8, 110u8, 111u8, 110u8, 101u8]
    || t == seq![120u8, 56u8, 54u8, 95u8, 54u8, 52u8, 45u8, 117u8, 110u8, 107u8, 110u8, 111u8, 119u8, 110u8, 45u8, 114u8, 101u8, 100u8, 111u8, 120u8]
    || t == seq![120u8, 56u8, 54u8, 95u8, 54u8, 52u8, 45u8, 117u8, 110u8, 107u8, 110u8, 111u8, 119u8, 110u8, 45u8, 117u8, 101u8, 102u8, 105u8]
    || t == seq![97u8, 97u8, 114u8, 99u8, 104u8, 54u8, 52u8, 45u8, 97u8, 112u8, 112u8, 108u8, 101u8, 45u8, 105u8, 111u8, 115u8, 45u8, 109u8, 97u8, 99u8, 97u8, 98u8, 105u8]
    || t == seq![97u8, 97u8, 114u8, 99u8, 104u8, 54u8, 52u8, 45u8, 97u8, 112u8, 112u8, 108u8, 101u8, 45u8, 116u8, 118u8, 111u8, 115u8]
    || t == seq![97u8, 97u8, 114u8, 99u8, 104u8, 54u8, 52u8, 45u8, 97u8, 112u8, 112u8, 108u8, 101u8, 45u8, 119u8, 97u8, 116u8, 99u8, 104u8, 111u8, 115u8, 45u8, 115u8, 105u8, 109u8]
}

#[verifier::spinoff_prover]
#[verifier::rlimit(100)]
fn targets_group15(t: &[u8]) -> (r: bool)
    ensures
        r == spec_targets_group15(t@),
{
    {
        let mut v: Vec<u8> = Vec::new();
        v.push(120);
        v.push(56);
        v.push(54);
        v.push(95);
        v.push(54);
        v.push(52);
        v.push(45);
        v.push(117);
        v.push(110);
        v.push(107);
        v.push(110);
        v.push(111);
        v.push(119);
        v.push(110);
        v.push(45);
        v.push(110);
        v.push(111);
        v.push(110);
        v.push(101);
        proof {
            assert(v@ =~= seq![120u8, 56u8, 54u8, 95u8, 54u8, 52u8, 45u8, 117u8, 110u8, 107u8, 110u8, 111u8, 119u8, 110u8, 45u8, 110u8, 111u8, 110u8, 101u8]);
        }
        if crate::bytes::bytes_eq(t, v.as_slice()) {
            return true;
        }
    }
    {
        let mut v: Vec<u8> = Vec::new();
        v.push(120);
        v.push(56);
        v.push(54);
        v.push(95);
        v.push(54);
        v.push(52);
        v.push(45);
        v.push(117);
        v.push(110);
        v.push(107);
        v.push(110);
        v.push(111);
        v.push(119);
        v.push(110);
        v.push(45);
        v.push(114);
        v.push(101);
        v.push(100);
        v.push(111);
        v.push(120);
        proof {
            assert(v@ =~= seq![120u8, 56u8, 54u8, 95u8, 54u8, 52u8, 45u8, 117u8, 110u8, 107u8, 110u8, 111u8, 119u8, 110u8, 45u8, 114u8, 101u8, 100u8, 111u8, 120u8]);
        }
        if crate::bytes::bytes_eq(t, v.as_slice()) {
            return true;
        }
    }
    {
        let mut v: Vec<u8> = Vec::new();
        v.push(120);
        v.push(56);
        v.push(54);
        v.push(95);
        v.push(54);
        v.push(52);
        v.push(45);
        v.push(117);
        v.push(110);
        v.push(107);
        v.push(110);
        v.push(111);
        v.push(119);
        v.push(110);
        v.push(45);
        v.push(117);
        v.push(101);
        v.push(102);
        v.push(105);
        proof {
            assert(v@ =~= seq![120u8, 56u8, 54u8, 95u8, 54u8, 52u8, 45u8, 117u8, 110u8, 107u8, 110u8, 111u8, 119u8, 110u8, 45u8, 117u8, 101u8, 102u8, 105u8]);
        }
        if crate::bytes::bytes_eq(t, v.as_slice()) {
            return true;
        }
    }
    {
        let mut v: Vec<u8> = Vec::new();
        v.push(97);
        v.push(97);
        v.push(114);
        v.push(99);
        v.push(104);
        v.push(54);
        v.push(52);
        v.push(45);
        v.push(97);
        v.push(112);
        v.push(112);
        v.push(108);
        v.push(101);
        v.push(45);
        v.push(105);
        v.push(111);
        v.push(115);
        v.push(45);
        v.push(109);
        v.push(97);
        v.push(99);
        v.push(97);
        v.push(98);
        v.push(105);
        proof {
            assert(v@ =~= seq![97u8, 97u8, 114u8, 99u8, 104u8, 54u8, 52u8, 45u8, 97u8, 112u8, 112u8, 108u8, 101u8, 45u8, 105u8, 111u8, 115u8, 45u8, 109u8, 97u8, 99u8, 97u8, 98u8, 105u8]);
        }
        if crate::bytes::bytes_eq(t, v.as_slice()) {
            return true;
        }
    }
    {
        let mut v: Vec<u8> = Vec::new();
        v.push(97);
        v.push(97);
        v.push(114);
        v.push(99);
        v.push(104);
        v.push(54);
        v.push(52);
        v.push(45);
        v.push(97);
        v.push(112);
        v.push(112);
        v.push(108);
        v.push(101);
        v.push(45);
        v.push(116);
        v.push(118);
        v.push(111);
        v.push(115);
        proof {
            assert(v@ =~= seq![97u8, 97u8, 114u8, 99u8, 104u8, 54u8, 52u8, 45u8, 97u8, 112u8, 112u8, 108u8, 101u8, 45u8, 116u8, 118u8, 111u8, 115u8]);
        }
        if crate::bytes::bytes_eq(t, v.as_slice()) {
            return true;
        }
    }
    {
        let mut v: Vec<u8> = Vec::new();
        v.push(97);
        v.push(97);
        v.push(114);
        v.push(99);
        v.push(104);
        v.push(54);
        v.push(52);
        v.push(45);
        v.push(97);
        v.push(112);
        v.push(112);
        v.push(108);
        v.push(101);
        v.push(45);
        v.push(119);
        v.push(97);
        v.push(116);
        v.push(99);
        v.push(104);
        v.push(111);
        v.push(115);
        v.push(45);
        v.push(115);
        v.push(105);
        v.push(109);
        proof {
            assert(v@ =~= seq![97u8, 97u8, 114u8, 99u8, 104u8, 54u8, 52u8, 45u8, 97u8, 112u8, 112u8, 108u8, 101u8, 45u8, 119u8, 97u8, 116u8, 99u8, 104u8, 111u8, 115u8, 45u8, 115u8, 105u8, 109u8]);
        }
        if crate::bytes::bytes_eq(t, v.as_slice()) {
            return true;
        }
    }
    false
}

/// One slice of the supported-target list.
pub open spec fn spec_targets_group16(t: Seq<u8>) -> bool {
    t == seq![97u8, 97u8, 114u8, 99u8, 104u8, 54u8, 52u8, 45u8, 107u8, 109u8, 99u8, 45u8, 115u8, 111u8, 108u8, 105u8, 100u8, 95u8, 97u8, 115u8, 112u8, 51u8]
    || t == seq![97u8, 97u8, 114u8, 99u8, 104u8, 54u8, 52u8, 45u8, 110u8, 105u8, 110u8, 116u8, 101u8, 110u8, 100u8, 111u8, 45u8, 115u8, 119u8, 105u8, 116u8, 99u8, 104u8, 45u8, 102u8, 114u8, 101u8, 101u8, 115u8, 116u8, 97u8, 110u8, 100u8, 105u8, 110u8, 103u8]
    || t == seq![97u8, 97u8, 114u8, 99u8, 104u8, 54u8, 52u8, 45u8, 112u8, 99u8, 45u8, 119u8, 105u8, 110u8, 100u8, 111u8, 119u8, 115u8, 45u8, 103u8, 110u8, 117u8, 108u8, 108u8, 118u8, 109u8]
    || t == seq![97u8, 97u8, 114u8, 99u8, 104u8, 54u8, 52u8, 45u8, 117u8, 110u8, 107u8, 110u8, 111u8, 119u8, 110u8, 45u8, 110u8, 116u8, 111u8, 45u8, 113u8, 110u8, 120u8, 55u8, 49u8, 48u8]
    || t == seq![97u8, 97u8, 114u8, 99u8, 104u8, 54u8, 52u8, 45u8, 117u8, 110u8, 107u8, 110u8, 111u8, 119u8, 110u8, 45u8, 102u8, 114u8, 101u8, 101u8, 98u8, 115u8, 100u8]
    || t == seq![97u8, 97u8, 114u8, 99u8, 104u8, 54u8, 52u8, 45u8, 117u8, 110u8, 107u8, 110u8, 111u8, 119u8, 110u8, 45u8, 104u8, 101u8, 114u8, 109u8, 105u8, 116u8]
}

#[verifier::spinoff_prover]
#[verifier::rlimit(100)]
fn targets_group16(t: &[u8]) -> (r: bool)
    ensures
        r == spec_targets_group16(t@),
{
    {
        let mut v: Vec<u8> = Vec::new();
        v.push(97);
        v.push(97);
        v.push(114);
        v.push(99);
        v.push(104);
        v.push(54);
        v.push(52);
        v.push(45);
        v.push(107);
        v.push(109);
        v.push(99);
        v.push(45);
        v.push(115);
        v.push(111);
        v.push(108);
        v.push(105);
        v.push(100);
        v.push(95);
        v.push(97);
        v.push(115);
        v.push(112);
        v.push(51);
        proof {
            assert(v@ =~= seq![97u8, 97u8, 114u8, 99u8, 104u8, 54u8, 52u8, 45u8, 107u8, 109u8, 99u8, 45u8, 115u8, 111u8, 108u8, 105u8, 100u8, 95u8, 97u8, 115u8, 112u8, 51u8]);
        }
        if crate::bytes::bytes_eq(t, v.as_slice()) {
            return true;
        }
    }
    {
        let mut v: Vec<u8> = Vec::new();
        v.push(97);
        v.push(97);
        v.push(114);
        v.push(99);
        v.push(104);
        v.push(54);
        v.push(52);
        v.push(45);
        v.push(110);
        v.push(105);
        v.push(110);
        v.push(116);
        v.push(101);
        v.push(110);
        v.push(100);
        v.push(111);
        v.push(45);
        v.push(115);
        v.push(119);
        v.push(105);
        v.push(116);
        v.push(99);
        v.push(104);
        v.push(45);
        v.push(102);
        v.push(114);
        v.push(101);
        v.push(101);
        v.push(115);
        v.push(116);
        v.push(97);
        v.push(110);
        v.push(100);
        v.push(105);
        v.push(110);
        v.push(103);
        proof {
            assert(v@ =~= seq![97u8, 97u8, 114u8, 99u8, 104u8, 54u8, 52u8, 45u8, 110u8, 105u8, 110u8, 116u8, 101u8, 110u8, 100u8, 111u8, 45u8, 115u8, 119u8, 105u8, 116u8, 99u8, 104u8, 45u8, 102u8, 114u8, 101u8, 101u8, 115u8, 116u8, 97u8, 110u8, 100u8, 105u8, 110u8, 103u8]);
        }
        if crate::bytes::bytes_eq(t, v.as_slice()) {
            return true;
        }
    }
    {
        let mut v: Vec<u8> = Vec::new();
        v.push(97);
        v.push(97);
        v.push(114);
        v.push(99);
        v.push(104);
        v.push(54);
        v.push(52);
        v.push(45);
        v.push(112);
        v.push(99);
        v.push(45);
        v.push(119);
        v.push(105);
        v.push(110);
        v.push(100);
        v.push(111);
        v.push(119);
        v.push(115);
        v.push(45);
        v.push(103);
        v.push(110);
        v.push(117);
        v.push(108);
        v.push(108);
        v.push(118);
        v.push(109);
        proof {
            assert(v@ =~= seq![97u8, 97u8, 114u8, 99u8, 104u8, 54u8, 52u8, 45u8, 112u8, 99u8, 45u8, 119u8, 105u8, 110u8, 100u8, 111u8, 119u8, 115u8, 45u8, 103u8, 110u8, 117u8, 108u8, 108u8, 118u8, 109u8]);
        }
        if crate::bytes::bytes_eq(t, v.as_slice()) {
            return true;
        }
    }
    {
        let mut v: Vec<u8> = Vec::new();
        v.push(97);
        v.push(97);
        v.push(114);
        v.push(99);
        v.push(104);
        v.push(54);
        v.push(52);
        v.push(45);
        v.push(117);
        v.push(110);
        v.push(107);
        v.push(110);
        v.push(111);
        v.push(119);
        v.push(110);
        v.push(45);
        v.push(110);
        v.push(116);
        v.push(111);
        v.push(45);
        v.push(113);
        v.push(110);
        v.push(120);
        v.push(55);
        v.push(49);
        v.push(48);
        proof {
            assert(v@ =~= seq![97u8, 97u8, 114u8, 99u8, 104u8, 54u8, 52u8, 45u8, 117u8, 110u8, 107u8, 110u8, 111u8, 119u8, 110u8, 45u8, 110u8, 116u8, 111u8, 45u8, 113u8, 110u8, 120u8, 55u8, 49u8, 48u8]);
        }
        if crate::bytes::bytes_eq(t, v.as_slice()) {
            return true;
        }
    }
    {
        let mut v: Vec<u8> = Vec::new();
        v.push(97);
        v.push(97);
        v.push(114);
        v.push(99);
        v.push(104);
        v.push(54);
        v.push(52);
        v.push(45);
        v.push(117);
        v.push(110);
        v.push(107);
        v.push(110);
        v.push(111);
        v.push(119);
        v.push(110);
        v.push(45);
        v.push(102);
        v.push(114);
        v.push(101);
        v.push(101);
        v.push(98);
        v.push(115);
        v.push(100);
        proof {
            assert(v@ =~= seq![97u8, 97u8, 114u8, 99u8, 104u8, 54u8, 52u8, 45u8, 117u8, 110u8, 107u8, 110u8, 111u8, 119u8, 110u8, 45u8, 102u8, 114u8, 101u8, 101u8, 98u8, 115u8, 100u8]);
        }
        if crate::bytes::bytes_eq(t, v.as_slice()) {
            return true;
        }
    }
    {
        let mut v: Vec<u8> = Vec::new();
        v.push(97);
        v.push(97);
        v.push(114);
        v.push(99);
        v.push(104);
        v.push(54);
        v.push(52);
        v.push(45);
        v.push(117);
        v.push(110);
        v.push(107);
        v.push(110);
        v.push(111);
        v.push(119);
        v.push(110);
        v.push(45);
        v.push(104);
        v.push(101);
        v.push(114);
        v.push(109);
        v.push(105);
        v.push(116);
        proof {
            assert(v@ =~= seq![97u8, 97u8, 114u8, 99u8, 104u8, 54u8, 52u8, 45u8, 117u8, 110u8, 107u8, 110u8, 111u8, 119u8, 110u8, 45u8, 104u8, 101u8, 114u8, 109u8, 105u8, 116u8]);
        }
        if crate::bytes::bytes_eq(t, v.as_slice()) {
            return true;
        }
    }
    false
}

/// One slice of the supported-target list.
pub open spec fn spec_targets_group17(t: Seq<u8>) -> bool {
    t == seq![97u8, 97u8, 114u8, 99u8, 104u8, 54u8, 52u8, 45u8, 117u8, 110u8, 107u8, 110u8, 111u8, 119u8, 110u8, 45u8, 108u8, 105u8, 110u8, 117u8, 120u8, 45u8, 103u8, 110u8, 117u8, 95u8, 105u8, 108u8, 112u8, 51u8, 50u8]
    || t == seq![97u8, 97u8, 114u8, 99u8, 104u8, 54u8, 52u8, 45u8, 117u8, 110u8, 107u8, 110u8, 111u8, 119u8, 110u8, 45u8, 110u8, 101u8, 116u8, 98u8, 115u8, 100u8]
    || t == seq![97u8, 97u8, 114u8, 99u8, 104u8, 54u8, 52u8, 45u8, 117u8, 110u8, 107u8, 110u8, 111u8, 119u8, 110u8, 45u8, 111u8, 112u8, 101u8, 110u8, 98u8, 115u8, 100u8]
    || t == seq![97u8, 97u8, 114u8, 99u8, 104u8, 54u8, 52u8, 45u8, 117u8, 110u8, 107u8, 110u8, 111u8, 119u8, 110u8, 45u8, 114u8, 101u8, 100u8, 111u8, 120u8]
    || t == seq![97u8, 97u8, 114u8, 99u8, 104u8, 54u8, 52u8, 45u8, 117u8, 119u8, 112u8, 45u8, 119u8, 105u8, 110u8, 100u8, 111u8, 119u8, 115u8, 45u8, 109u8, 115u8, 118u8, 99u8]
    || t == seq![97u8, 97u8, 114u8, 99u8, 104u8, 54u8, 52u8, 45u8, 119u8, 114u8, 115u8, 45u8, 118u8, 120u8, 119u8, 111u8, 114u8, 107u8, 115u8]
}

#[verifier::spinoff_prover]
#[verifier::rlimit(100)]
fn targets_group17(t: &[u8]) -> (r: bool)
    ensures
        r == spec_targets_group17(t@),
{
    {
        let mut v: Vec<u8> = Vec::new();
        v.push(97);
        v.push(97);
        v.push(114);
        v.push(99);
        v.push(104);
        v.push(54);
        v.push(52);
        v.push(45);
        v.push(117);
        v.push(110);
        v.push(107);
        v.push(110);
        v.push(111);
        v.push(119);
        v.push(110);
        v.push(45);
        v.push(108);
        v.push(105);
        v.push(110);
        v.push(117);
        v.push(120);
        v.push(45);
        v.push(103);
        v.push(110);
        v.push(117);
        v.push(95);
        v.push(105);
        v.push(108);
        v.push(112);
        v.push(51);
        v.push(50);
        proof {
            assert(v@ =~= seq![97u8, 97u8, 114u8, 99u8, 104u8, 54u8, 52u8, 45u8, 117u8, 110u8, 107u8, 110u8, 111u8, 119u8, 110u8, 45u8, 108u8, 105u8, 110u8, 117u8, 120u8, 45u8, 103u8, 110u8, 117u8, 95u8, 105u8, 108u8, 112u8, 51u8, 50u8]);
        }
        if crate::bytes::bytes_eq(t, v.as_slice()) {
            return true;
        }
    }
    {
        let mut v: Vec<u8> = Vec::new();
        v.push(97);
        v.push(97);
        v.push(114);
        v.push(99);
        v.push(104);
        v.push(54);
        v.push(52);
        v.push(45);
        v.push(117);
        v.push(110);
        v.push(107);
        v.push(110);
        v.push(111);
        v.push(119);
        v.push(110);
        v.push(45);
        v.push(110);
        v.push(101);
        v.push(116);
        v.push(98);
        v.push(115);
        v.push(100);
        proof {
            assert(v@ =~= seq![97u8, 97u8, 114u8, 99u8, 104u8, 54u8, 52u8, 45u8, 117u8, 110u8, 107u8, 110u8, 111u8, 119u8, 110u8, 45u8, 110u8, 101u8, 116u8, 98u8, 115u8, 100u8]);
        }
        if crate::bytes::bytes_eq(t, v.as_slice()) {
            return true;
        }
    }
    {
        let mut v: Vec<u8> = Vec::new();
        v.push(97);
        v.push(97);
        v.push(114);
        v.push(99);
        v.push(104);
        v.push(54);
        v.push(52);
        v.push(45);
        v.push(117);
        v.push(110);
        v.push(107);
        v.push(110);
        v.push(111);
        v.push(119);
        v.push(110);
        v.push(45);
        v.push(111);
        v.push(112);
        v.push(101);
        v.push(110);
        v.push(98);
        v.push(115);
        v.push(100);
        proof {
            assert(v@ =~= seq![97u8, 97u8, 114u8, 99u8, 104u8, 54u8, 52u8, 45u8, 117u8, 110u8, 107u8, 110u8, 111u8, 119u8, 110u8, 45u8, 111u8, 112u8, 101u8, 110u8, 98u8, 115u8, 100u8]);
        }
        if crate::bytes::bytes_eq(t, v.as_slice()) {
            return true;
        }
    }
    {
        let mut v: Vec<u8> = Vec::new();
        v.push(97);
        v.push(97);
        v.push(114);
        v.push(99);
        v.push(104);
        v.push(54);
        v.push(52);
        v.push(45);
        v.push(117);
        v.push(110);
        v.push(107);
        v.push(110);
        v.push(111);
        v.push(119);
        v.push(110);
        v.push(45);
        v.push(114);
        v.push(101);
        v.push(100);
        v.push(111);
        v.push(120);
        proof {
            assert(v@ =~= seq![97u8, 97u8, 114u8, 99u8, 104u8, 54u8, 52u8, 45u8, 117u8, 110u8, 107u8, 110u8, 111u8, 119u8, 110u8, 45u8, 114u8, 101u8, 100u8, 111u8, 120u8]);
        }
        if crate::bytes::bytes_eq(t, v.as_slice()) {
            return true;
        }
    }
    {
        let mut v: Vec<u8> = Vec::new();
        v.push(97);
        v.push(97);
        v.push(114);
        v.push(99);
        v.push(104);
        v.push(54);
        v.push(52);
        v.push(45);
        v.push(117);
        v.push(119);
        v.push(112);
        v.push(45);
        v.push(119);
        v.push(105);
        v.push(110);
        v.push(100);
        v.push(111);
        v.push(119);
        v.push(115);
        v.push(45);
        v.push(109);
        v.push(115);
        v.push(118);
        v.push(99);
        proof {
            assert(v@ =~= seq![97u8, 97u8, 114u8, 99u8, 104u8, 54u8, 52u8, 45u8, 117u8, 119u8, 112u8, 45u8, 119u8, 105u8, 110u8, 100u8, 111u8, 119u8, 115u8, 45u8, 109u8, 115u8, 118u8, 99u8]);
        }
        if crate::bytes::bytes_eq(t, v.as_slice()) {
            return true;
        }
    }
    {
        let mut v: Vec<u8> = Vec::new();
        v.push(97);
        v.push(97);
        v.push(114);
        v.push(99);
        v.push(104);
        v.push(54);
        v.push(52);
        v.push(45);
        v.push(119);
        v.push(114);
        v.push(115);
        v.push(45);
        v.push(118);
        v.push(120);
        v.push(119);
        v.push(111);
        v.push(114);
        v.push(107);
        v.push(115);
        proof {
            assert(v@ =~= seq![97u8, 97u8, 114u8, 99u8, 104u8, 54u8, 52u8, 45u8, 119u8, 114u8, 115u8, 45u8, 118u8, 120u8, 119u8, 111u8, 114u8, 107u8, 115u8]);
        }
        if crate::bytes::bytes_eq(t, v.as_slice()) {
            return true;
        }
    }
    false
}

/// One slice of the supported-target list.
pub open spec fn spec_targets_group18(t: Seq<u8>) -> bool {
    t == seq![97u8, 97u8, 114u8, 99u8, 104u8, 54u8, 52u8, 95u8, 98u8, 101u8, 45u8, 117u8, 110u8, 107u8, 110u8, 111u8, 119u8, 110u8, 45u8, 108u8, 105u8, 110u8, 117u8, 120u8, 45u8, 103u8, 110u8, 117u8, 95u8, 105u8, 108u8, 112u8, 51u8, 50u8]
    || t == seq![97u8, 97u8, 114u8, 99u8, 104u8, 54u8, 52u8, 95u8, 98u8, 101u8, 45u8, 117u8, 110u8, 107u8, 110u8, 111u8, 119u8, 110u8, 45u8, 108u8, 105u8, 110u8, 117u8, 120u8, 45u8, 103u8, 110u8, 117u8]
    || t == seq![97u8, 114u8, 109u8, 54u8, 52u8, 95u8, 51u8, 50u8, 45u8, 97u8, 112u8, 112u8, 108u8, 101u8, 45u8, 119u8, 97u8, 116u8, 99u8, 104u8, 111u8, 115u8]
    || t == seq![97u8, 114u8, 109u8, 101u8, 98u8, 45u8, 117u8, 110u8, 107u8, 110u8, 111u8, 119u8, 110u8, 45u8, 108u8, 105u8, 110u8, 117u8, 120u8, 45u8, 103u8, 110u8, 117u8, 101u8, 97u8, 98u8, 105u8]
    || t == seq![97u8, 114u8, 109u8, 118u8, 52u8, 116u8, 45u8, 110u8, 111u8, 110u8, 101u8, 45u8, 101u8, 97u8, 98u8, 105u8]
    || t == seq![97u8, 114u8, 109u8, 118u8, 52u8, 116u8, 45u8, 117u8, 110u8, 107u8, 110u8, 111u8, 119u8, 110u8, 45u8, 108u8, 105u8, 110u8, 117u8, 120u8, 45u8, 103u8, 110u8, 117u8, 101u8, 97u8, 98u8, 105u8]
}

#[verifier::spinoff_prover]
#[verifier::rlimit(100)]
fn targets_group18(t: &[u8]) -> (r: bool)
    ensures
        r == spec_targets_group18(t@),
{
    {
        let mut v: Vec<u8> = Vec::new();
        v.push(97);
        v.push(97);
        v.push(114);
        v.push(99);
        v.push(104);
        v.push(54);
        v.push(52);
        v.push(95);
        v.push(98);
        v.push(101);
        v.push(45);
        v.push(117);
        v.push(110);
        v.push(107);
        v.push(110);
        v.push(111);
        v.push(119);
        v.push(110);
        v.push(45);
        v.push(108);
        v.push(105);
        v.push(110);
        v.push(117);
        v.push(120);
        v.push(45);
        v.push(103);
        v.push(110);
        v.push(117);
        v.push(95);
        v.push(105);
        v.push(108);
        v.push(112);
        v.push(51);
        v.push(50);
        proof {
            assert(v@ =~= seq![97u8, 97u8, 114u8, 99u8, 104u8, 54u8, 52u8, 95u8, 98u8, 101u8, 45u8, 117u8, 110u8, 107u8, 110u8, 111u8, 119u8, 110u8, 45u8, 108u8, 105u8, 110u8, 117u8, 120u8, 45u8, 103u8, 110u8, 117u8, 95u8, 105u8, 108u8, 112u8, 51u8, 50u8]);
        }
        if crate::bytes::bytes_eq(t, v.as_slice()) {
            return true;
        }
    }
    {
        let mut v: Vec<u8> = Vec::new();
        v.push(97);
        v.push(97);
        v.push(114);
        v.push(99);
        v.push(104);
        v.push(54);
        v.push(52);
        v.push(95);
        v.push(98);
        v.push(101);
        v.push(45);
        v.push(117);
        v.push(110);
        v.push(107);
        v.push(110);
        v.push(111);
        v.push(119);
        v.push(110);
        v.push(45);
        v.push(108);
        v.push(105);
        v.push(110);
        v.push(117);
        v.push(120);
        v.push(45);
        v.push(103);
        v.push(110);
        v.push(117);
        proof {
            assert(v@ =~= seq![97u8, 97u8, 114u8, 99u8, 104u8, 54u8, 52u8, 95u8, 98u8, 101u8, 45u8, 117u8, 110u8, 107u8, 110u8, 111u8, 119u8, 110u8, 45u8, 108u8, 105u8, 110u8, 117u8, 120u8, 45u8, 103u8, 110u8, 117u8]);
        }
        if crate::bytes::bytes_eq(t, v.as_slice()) {
            return true;
        }
    }
    {
        let mut v: Vec<u8> = Vec::new();
        v.push(97);
        v.push(114);
        v.push(109);
        v.push(54);
        v.push(52);
        v.push(95);
        v.push(51);
        v.push(50);
        v.push(45);
        v.push(97);
        v.push(112);
        v.push(112);
        v.push(108);
        v.push(101);
        v.push(45);
        v.push(119);
        v.push(97);
        v.push(116);
        v.push(99);
        v.push(104);
        v.push(111);
        v.push(115);
        proof {
            assert(v@ =~= seq![97u8, 114u8, 109u8, 54u8, 52u8, 95u8, 51u8, 50u8, 45u8, 97u8, 112u8, 112u8, 108u8, 101u8, 45u8, 119u8, 97u8, 116u8, 99u8, 104u8, 111u8, 115u8]);
        }
        if crate::bytes::bytes_eq(t, v.as_slice()) {
            return true;
        }
    }
    {
        let mut v: Vec<u8> = Vec::new();
        v.push(97);
        v.push(114);
        v.push(109);
        v.push(101);
        v.push(98);
        v.push(45);
        v.push(117);
        v.push(110);
        v.push(107);
        v.push(110);
        v.push(111);
        v.push(119);
        v.push(110);
        v.push(45);
        v.push(108);
        v.push(105);
        v.push(110);
        v.push(117);
        v.push(120);
        v.push(45);
        v.push(103);
        v.push(110);
        v.push(117);
        v.push(101);
        v.push(97);
        v.push(98);
        v.push(105);
        proof {
            assert(v@ =~= seq![97u8, 114u8, 109u8, 101u8, 98u8, 45u8, 117u8, 110u8, 107u8, 110u8, 111u8, 119u8, 110u8, 45u8, 108u8, 105u8, 110u8, 117u8, 120u8, 45u8, 103u8, 110u8, 117u8, 101u8, 97u8, 98u8, 105u8]);
        }
        if crate::bytes::bytes_eq(t, v.as_slice()) {
            return true;
        }
    }
    {
        let mut v: Vec<u8> = Vec::new();
        v.push(97);
        v.push(114);
        v.push(109);
        v.push(118);
        v.push(52);
        v.push(116);
        v.push(45);
        v.push(110);
        v.push(111);
        v.push(110);
        v.push(101);
        v.push(45);
        v.push(101);
        v.push(97);
        v.push(98);
        v.push(105);
        proof {
            assert(v@ =~= seq![97u8, 114u8, 109u8, 118u8, 52u8, 116u8, 45u8, 110u8, 111u8, 110u8, 101u8, 45u8, 101u8, 97u8, 98u8, 105u8]);
        }
        if crate::bytes::bytes_eq(t, v.as_slice()) {
            return true;
        }
    }
    {
        let mut v: Vec<u8> = Vec::new();
        v.push(97);
        v.push(114);
        v.push(109);
        v.push(118);
        v.push(52);
        v.push(116);
        v.push(45);
        v.push(117);
        v.push(110);
        v.push(107);
        v.push(110);
        v.push(111);
        v.push(119);
        v.push(110);
        v.push(45);
        v.push(108);
        v.push(105);
        v.push(110);
        v.push(117);
        v.push(120);
        v.push(45);
        v.push(103);
        v.push(110);
        v.push(117);
        v.push(101);
        v.push(97);
        v.push(98);
        v.push(105);
        proof {
            assert(v@ =~= seq![97u8, 114u8, 109u8, 118u8, 52u8, 116u8, 45u8, 117u8, 110u8, 107u8, 110u8, 111u8, 119u8, 110u8, 45u8, 108u8, 105u8, 110u8, 117u8, 120u8, 45u8, 103u8, 110u8, 117u8, 101u8, 97u8, 98u8, 105u8]);
        }
        if crate::bytes::bytes_eq(t, v.as_slice()) {
            return true;
        }
    }
    false
}

/// One slice of the supported-target list.
pub open spec fn spec_targets_group19(t: Seq<u8>) -> bool {
    t == seq![97u8, 114u8, 109u8, 118u8, 53u8, 116u8, 101u8, 45u8, 110u8, 111u8, 110u8, 101u8, 45u8, 101u8, 97u8, 98u8, 105u8]
    || t == seq![97u8, 114u8, 109u8, 118u8, 53u8, 116u8, 101u8, 45u8, 117u8, 110u8, 107u8, 110u8, 111u8, 119u8, 110u8, 45u8, 108u8, 105u8, 110u8, 117u8, 120u8, 45u8, 117u8, 99u8, 108u8, 105u8, 98u8, 99u8, 101u8, 97u8, 98u8, 105u8]
    || t == seq![97u8, 114u8, 109u8, 118u8, 54u8, 45u8, 117u8, 110u8, 107u8, 110u8, 111u8, 119u8, 110u8, 45u8, 102u8, 114u8, 101u8, 101u8, 98u8, 115u8, 100u8]
    || t == seq![97u8, 114u8, 109u8, 118u8, 54u8, 45u8, 117u8, 110u8, 107u8, 110u8, 111u8, 119u8, 110u8, 45u8, 110u8, 101u8, 116u8, 98u8, 115u8, 100u8, 45u8, 101u8, 97u8, 98u8, 105u8, 104u8, 102u8]
    || t == seq![97u8, 114u8, 109u8, 118u8, 54u8, 107u8, 45u8, 110u8, 105u8, 110u8, 116u8, 101u8, 110u8, 100u8, 111u8, 45u8, 51u8, 100u8, 115u8]
    || t == seq![97u8, 114u8, 109u8, 118u8, 55u8, 45u8, 97u8, 112u8, 112u8, 108u8, 101u8, 45u8, 105u8, 111u8, 115u8]
}

#[verifier::spinoff_prover]
#[verifier::rlimit(100)]
fn targets_group19(t: &[u8]) -> (r: bool)
    ensures
        r == spec_targets_group19(t@),
{
    {
        let mut v: Vec<u8> = Vec::new();
        v.push(97);
        v.push(114);
        v.push(109);
        v.push(118);
        v.push(53);
        v.push(116);
        v.push(101);
        v.push(45);
        v.push(110);
        v.push(111);
        v.push(110);
        v.push(101);
        v.push(45);
        v.push(101);
        v.push(97);
        v.push(98);
        v.push(105);
        proof {
            assert(v@ =~= seq![97u8, 114u8, 109u8, 118u8, 53u8, 116u8, 101u8, 45u8, 110u8, 111u8, 110u8, 101u8, 45u8, 101u8, 97u8, 98u8, 105u8]);
        }
        if crate::bytes::bytes_eq(t, v.as_slice()) {
            return true;
        }
    }
    {
        let mut v: Vec<u8> = Vec::new();
        v.push(97);
        v.push(114);
        v.push(109);
        v.push(118);
        v.push(53);
        v.push(116);
        v.push(101);
        v.push(45);
        v.push(117);
        v.push(110);
        v.push(107);
        v.push(110);
        v.push(111);
        v.push(119);
        v.push(110);
        v.push(45);
        v.push(108);
        v.push(105);
        v.push(110);
        v.push(117);
        v.push(120);
        v.push(45);
        v.push(117);
        v.push(99);
        v.push(108);
        v.push(105);
        v.push(98);
        v.push(99);
        v.push(101);
        v.push(97);
        v.push(98);
        v.push(105);
        proof {
            assert(v@ =~= seq![97u8, 114u8, 109u8, 118u8, 53u8, 116u8, 101u8, 45u8, 117u8, 110u8, 107u8, 110u8, 111u8, 119u8, 110u8, 45u8, 108u8, 105u8, 110u8, 117u8, 120u8, 45u8, 117u8, 99u8, 108u8, 105u8, 98u8, 99u8, 101u8, 97u8, 98u8, 105u8]);
        }
        if crate::bytes::bytes_eq(t, v.as_slice()) {
            return true;
        }
    }
    {
        let mut v: Vec<u8> = Vec::new();
        v.push(97);
        v.push(114);
        v.push(109);
        v.push(118);
        v.push(54);
        v.push(45);
        v.push(117);
        v.push(110);
        v.push(107);
        v.push(110);
        v.push(111);
        v.push(119);
        v.push(110);
        v.push(45);
        v.push(102);
        v.push(114);
        v.push(101);
        v.push(101);
        v.push(98);
        v.push(115);
        v.push(100);
        proof {
            assert(v@ =~= seq![97u8, 114u8, 109u8, 118u8, 54u8, 45u8, 117u8, 110u8, 107u8, 110u8, 111u8, 119u8, 110u8, 45u8, 102u8, 114u8, 101u8, 101u8, 98u8, 115u8, 100u8]);
        }
        if crate::bytes::bytes_eq(t, v.as_slice()) {
            return true;
        }
    }
    {
        let mut v: Vec<u8> = Vec::new();
        v.push(97);
        v.push(114);
        v.push(109);
        v.push(118);
        v.push(54);
        v.push(45);
        v.push(117);
        v.push(110);
        v.push(107);
        v.push(110);
        v.push(111);
        v.push(119);
        v.push(110);
        v.push(45);
        v.push(110);
        v.push(101);
        v.push(116);
        v.push(98);
        v.push(115);
        v.push(100);
        v.push(45);
        v.push(101);
        v.push(97);
        v.push(98);
        v.push(105);
        v.push(104);
        v.push(102);
        proof {
            assert(v@ =~= seq![97u8, 114u8, 109u8, 118u8, 54u8, 45u8, 117u8, 110u8, 107u8, 110u8, 111u8, 119u8, 110u8, 45u8, 110u8, 101u8, 116u8, 98u8, 115u8, 100u8, 45u8, 101u8, 97u8, 98u8, 105u8, 104u8, 102u8]);
        }
        if crate::bytes::bytes_eq(t, v.as_slice()) {
            return true;
        }
    }
    {
        let mut v: Vec<u8> = Vec::new();
        v.push(97);
        v.push(114);
        v.push(109);
        v.push(118);
        v.push(54);
        v.push(107);
        v.push(45);
        v.push(110);
        v.push(105);
        v.push(110);
        v.push(116);
        v.push(101);
        v.push(110);
        v.push(100);
        v.push(111);
        v.push(45);
        v.push(51);
        v.push(100);
        v.push(115);
        proof {
            assert(v@ =~= seq![97u8, 114u8, 109u8, 118u8, 54u8, 107u8, 45u8, 110u8, 105u8, 110u8, 116u8, 101u8, 110u8, 100u8, 111u8, 45u8, 51u8, 100u8, 115u8]);
        }
        if crate::bytes::bytes_eq(t, v.as_slice()) {
            return true;
        }
    }
    {
        let mut v: Vec<u8> = Vec::new();
        v.push(97);
        v.push(114);
        v.push(109);
        v.push(118);
        v.push(55);
        v.push(45);
        v.push(97);
        v.push(112);
        v.push(112);
        v.push(108);
        v.push(101);
        v.push(45);
        v.push(105);
        v.push(111);
        v.push(115);
        proof {
            assert(v@ =~= seq![97u8, 114u8, 109u8, 118u8, 55u8, 45u8, 97u8, 112u8, 112u8, 108u8, 101u8, 45u8, 105u8, 111u8, 115u8]);
        }
        if crate::bytes::bytes_eq(t, v.as_slice()) {
            return true;
        }
    }
    false
}

/// One slice of the supported-target list.
pub open spec fn spec_targets_group20(t: Seq<u8>) -> bool {
    t == seq![97u8, 114u8, 109u8, 118u8, 55u8, 45u8, 115u8, 111u8, 110u8, 121u8, 45u8, 118u8, 105u8, 116u8, 97u8, 45u8, 110u8, 101u8, 119u8, 108u8, 105u8, 98u8, 101u8, 97u8, 98u8, 105u8, 104u8, 102u8]
    || t == seq![97u8, 114u8, 109u8, 118u8, 55u8, 45u8, 117u8, 110u8, 107u8, 110u8, 111u8, 119u8, 110u8, 45u8, 108u8, 105u8, 110u8, 117u8, 120u8, 45u8, 117u8, 99u8, 108u8, 105u8, 98u8, 99u8, 101u8, 97u8, 98u8, 105u8]
    || t == seq![97u8, 114u8, 109u8, 118u8, 55u8, 45u8, 117u8, 110u8, 107u8, 110u8, 111u8, 119u8, 110u8, 45u8, 108u8, 105u8, 110u8, 117u8, 120u8, 45u8, 117u8, 99u8, 108u8, 105u8, 98u8, 99u8, 101u8, 97u8, 98u8, 105u8, 104u8, 102u8]
    || t == seq![97u8, 114u8, 109u8, 118u8, 55u8, 45u8, 117u8, 110u8, 107u8, 110u8, 111u8, 119u8, 110u8, 45u8, 102u8, 114u8, 101u8, 101u8, 98u8, 115u8, 100u8]
    || t == seq![97u8, 114u8, 109u8, 118u8, 55u8, 45u8, 117u8, 110u8, 107u8, 110u8, 111u8, 119u8, 110u8, 45u8, 110u8, 101u8, 116u8, 98u8, 115u8, 100u8, 45u8, 101u8, 97u8, 98u8, 105u8, 104u8, 102u8]
    || t == seq![97u8, 114u8, 109u8, 118u8, 55u8, 45u8, 119u8, 114u8, 115u8, 45u8, 118u8, 120u8, 119u8, 111u8, 114u8, 107u8, 115u8, 45u8, 101u8, 97u8, 98u8, 105u8, 104u8, 102u8]
}

#[verifier::spinoff_prover]
#[verifier::rlimit(100)]
fn targets_group20(t: &[u8]) -> (r: bool)
    ensures
        r == spec_targets_group20(t@),
{
    {
        let mut v: Vec<u8> = Vec::new();
        v.push(97);
        v.push(114);
        v.push(109);
        v.push(118);
        v.push(55);
        v.push(45);
        v.push(115);
        v.push(111);
        v.push(110);
        v.push(121);
        v.push(45);
        v.push(118);
        v.push(105);
        v.push(116);
        v.push(97);
        v.push(45);
        v.push(110);
        v.push(101);
        v.push(119);
        v.push(108);
        v.push(105);
        v.push(98);
        v.push(101);
        v.push(97);
        v.push(98);
        v.push(105);
        v.push(104);
        v.push(102);
        proof {
            assert(v@ =~= seq![97u8, 114u8, 109u8, 118u8, 55u8, 45u8, 115u8, 111u8, 110u8, 121u8, 45u8, 118u8, 105u8, 116u8, 97u8, 45u8, 110u8, 101u8, 119u8, 108u8, 105u8, 98u8, 101u8, 97u8, 98u8, 105u8, 104u8, 102u8]);
        }
        if crate::bytes::bytes_eq(t, v.as_slice()) {
            return true;
        }
    }
    {
        let mut v: Vec<u8> = Vec::new();
        v.push(97);
        v.push(114);
        v.push(109);
        v.push(118);
        v.push(55);
        v.push(45);
        v.push(117);
        v.push(110);
        v.push(107);
        v.push(110);
        v.push(111);
        v.push(119);
        v.push(110);
        v.push(45);
        v.push(108);
        v.push(105);
        v.push(110);
        v.push(117);
        v.push(120);
        v.push(45);
        v.push(117);
        v.push(99);
        v.push(108);
        v.push(105);
        v.push(98);
        v.push(99);
        v.push(101);
        v.push(97);
        v.push(98);
        v.push(105);
        proof {
            assert(v@ =~= seq![97u8, 114u8, 109u8, 118u8, 55u8, 45u8, 117u8, 110u8, 107u8, 110u8, 111u8, 119u8, 110u8, 45u8, 108u8, 105u8, 110u8, 117u8, 120u8, 45u8, 117u8, 99u8, 108u8, 105u8, 98u8, 99u8, 101u8, 97u8, 98u8, 105u8]);
        }
        if crate::bytes::bytes_eq(t, v.as_slice()) {
            return true;
        }
    }
    {
        let mut v: Vec<u8> = Vec::new();
        v.push(97);
        v.push(114);
        v.push(109);
        v.push(118);
        v.push(55);
        v.push(45);
        v.push(117);
        v.push(110);
        v.push(107);
        v.push(110);
        v.push(111);
        v.push(119);
        v.push(110);
        v.push(45);
        v.push(108);
        v.push(105);
        v.push(110);
        v.push(117);
        v.push(120);
        v.push(45);
        v.push(117);
        v.push(99);
        v.push(108);
        v.push(105);
        v.push(98);
        v.push(99);
        v.push(101);
        v.push(97);
        v.push(98);
        v.push(105);
        v.push(104);
        v.push(102);
        proof {
            assert(v@ =~= seq![97u8, 114u8, 109u8, 118u8, 55u8, 45u8, 117u8, 110u8, 107u8, 110u8, 111u8, 119u8, 110u8, 45u8, 108u8, 105u8, 110u8, 117u8, 120u8, 45u8, 117u8, 99u8, 108u8, 105u8, 98u8, 99u8, 101u8, 97u8, 98u8, 105u8, 104u8, 102u8]);
        }
        if crate::bytes::bytes_eq(t, v.as_slice()) {
            return true;
        }
    }
    {
        let mut v: Vec<u8> = Vec::new();
        v.push(97);
        v.push(114);
        v.push(109);
        v.push(118);
        v.push(55);
        v.push(45);
        v.push(117);
        v.push(110);
        v.push(107);
        v.push(110);
        v.push(111);
        v.push(119);
        v.push(110);
        v.push(45);
        v.push(102);
        v.push(114);
        v.push(101);
        v.push(101);
        v.push(98);
        v.push(115);
        v.push(100);
        proof {
            assert(v@ =~= seq![97u8, 114u8, 109u8, 118u8, 55u8, 45u8, 117u8, 110u8, 107u8, 110u8, 111u8, 119u8, 110u8, 45u8, 102u8, 114u8, 101u8, 101u8, 98u8, 115u8, 100u8]);
        }
        if crate::bytes::bytes_eq(t, v.as_slice()) {
            return true;
        }
    }
    {
        let mut v: Vec<u8> = Vec::new();
        v.push(97);
        v.push(114);
        v.push(109);
        v.push(118);
        v.push(55);
        v.push(45);
        v.push(117);
        v.push(110);
        v.push(107);
        v.push(110);
        v.push(111);
        v.push(119);
        v.push(110);
        v.push(45);
        v.push(110);
        v.push(101);
        v.push(116);
        v.push(98);
        v.push(115);
        v.push(100);
        v.push(45);
        v.push(101);
        v.push(97);
        v.push(98);
        v.push(105);
        v.push(104);
        v.push(102);
        proof {
            assert(v@ =~= seq![97u8, 114u8, 109u8, 118u8, 55u8, 45u8, 117u8, 110u8, 107u8, 110u8, 111u8, 119u8, 110u8, 45u8, 110u8, 101u8, 116u8, 98u8, 115u8, 100u8, 45u8, 101u8, 97u8, 98u8, 105u8, 104u8, 102u8]);
        }
        if crate::bytes::bytes_eq(t, v.as_slice()) {
            return true;
        }
    }
    {
        let mut v: Vec<u8> = Vec::new();
        v.push(97);
        v.push(114);
        v.push(109);
        v.push(118);
        v.push(55);
        v.push(45);
        v.push(119);
        v.push(114);
        v.push(115);
        v.push(45);
        v.push(118);
        v.push(120);
        v.push(119);
        v.push(111);
        v.push(114);
        v.push(107);
        v.push(115);
        v.push(45);
        v.push(101);
        v.push(97);
        v.push(98);
        v.push(105);
        v.push(104);
        v.push(102);
        proof {
            assert(v@ =~= seq![97u8, 114u8, 109u8, 118u8, 55u8, 45u8, 119u8, 114u8, 115u8, 45u8, 118u8, 120u8, 119u8, 111u8, 114u8, 107u8, 115u8, 45u8, 101u8, 97u8, 98u8, 105u8, 104u8, 102u8]);
        }
        if crate::bytes::bytes_eq(t, v.as_slice()) {
            return true;
        }
    }
    false
}

/// One slice of the supported-target list.
pub open spec fn spec_targets_group21(t: Seq<u8>) -> bool {
    t == seq![97u8, 114u8, 109u8, 118u8, 55u8, 97u8, 45u8, 107u8, 109u8, 99u8, 45u8, 115u8, 111u8, 108u8, 105u8, 100u8, 95u8, 97u8, 115u8, 112u8, 51u8, 45u8, 101u8, 97u8, 98u8, 105u8]
    || t == seq![97u8, 114u8, 109u8, 118u8, 55u8, 97u8, 45u8, 107u8, 109u8, 99u8, 45u8, 115u8, 111u8, 108u8, 105u8, 100u8, 95u8, 97u8, 115u8, 112u8, 51u8, 45u8, 101u8, 97u8, 98u8, 105u8, 104u8, 102u8]
    || t == seq![97u8, 114u8, 109u8, 118u8, 55u8, 97u8, 45u8, 110u8, 111u8, 110u8, 101u8, 45u8, 101u8, 97u8, 98u8, 105u8, 104u8, 102u8]
    || t == seq![97u8, 114u8, 109u8, 118u8, 55u8, 107u8, 45u8, 97u8, 112u8, 112u8, 108u8, 101u8, 45u8, 119u8, 97u8, 116u8, 99u8, 104u8, 111u8, 115u8]
    || t == seq![97u8, 114u8, 109u8, 118u8, 55u8, 115u8, 45u8, 97u8, 112u8, 112u8, 108u8, 101u8, 45u8, 105u8, 111u8, 115u8]
    || t == seq![97u8, 118u8, 114u8, 45u8, 117u8, 110u8, 107u8, 110u8, 111u8, 119u8, 110u8, 45u8, 103u8, 110u8, 117u8, 45u8, 97u8, 116u8, 109u8, 101u8, 103u8, 97u8, 51u8, 50u8, 56u8]
}

#[verifier::spinoff_prover]
#[verifier::rlimit(100)]
fn targets_group21(t: &[u8]) -> (r: bool)
    ensures
        r == spec_targets_group21(t@),
{
    {
        let mut v: Vec<u8> = Vec::new();
        v.push(97);
        v.push(114);
        v.push(109);
        v.push(118);
        v.push(55);
        v.push(97);
        v.push(45);
        v.push(107);
        v.push(109);
        v.push(99);
        v.push(45);
        v.push(115);
        v.push(111);
        v.push(108);
        v.push(105);
        v.push(100);
        v.push(95);
        v.push(97);
        v.push(115);
        v.push(112);
        v.push(51);
        v.push(45);
        v.push(101);
        v.push(97);
        v.push(98);
        v.push(105);
        proof {
            assert(v@ =~= seq![97u8, 114u8, 109u8, 118u8, 55u8, 97u8, 45u8, 107u8, 109u8, 99u8, 45u8, 115u8, 111u8, 108u8, 105u8, 100u8, 95u8, 97u8, 115u8, 112u8, 51u8, 45u8, 101u8, 97u8, 98u8, 105u8]);
        }
        if crate::bytes::bytes_eq(t, v.as_slice()) {
            return true;
        }
    }
    {
        let mut v: Vec<u8> = Vec::new();
        v.push(97);
        v.push(114);
        v.push(109);
        v.push(118);
        v.push(55);
        v.push(97);
        v.push(45);
        v.push(107);
        v.push(109);
        v.push(99);
        v.push(45);
        v.push(115);
        v.push(111);
        v.push(108);
        v.push(105);
        v.push(100);
        v.push(95);
        v.push(97);
        v.push(115);
        v.push(112);
        v.push(51);
        v.push(45);
        v.push(101);
        v.push(97);
        v.push(98);
        v.push(105);
        v.push(104);
        v.push(102);
        proof {
            assert(v@ =~= seq![97u8, 114u8, 109u8, 118u8, 55u8, 97u8, 45u8, 107u8, 109u8, 99u8, 45u8, 115u8, 111u8, 108u8, 105u8, 100u8, 95u8, 97u8, 115u8, 112u8, 51u8, 45u8, 101u8, 97u8, 98u8, 105u8, 104u8, 102u8]);
        }
        if crate::bytes::bytes_eq(t, v.as_slice()) {
            return true;
        }
    }
    {
        let mut v: Vec<u8> = Vec::new();
        v.push(97);
        v.push(114);
        v.push(109);
        v.push(118);
        v.push(55);
        v.push(97);
        v.push(45);
        v.push(110);
        v.push(111);
        v.push(110);
        v.push(101);
        v.push(45);
        v.push(101);
        v.push(97);
        v.push(98);
        v.push(105);
        v.push(104);
        v.push(102);
        proof {
            assert(v@ =~= seq![97u8, 114u8, 109u8, 118u8, 55u8, 97u8, 45u8, 110u8, 111u8, 110u8, 101u8, 45u8, 101u8, 97u8, 98u8, 105u8, 104u8, 102u8]);
        }
        if crate::bytes::bytes_eq(t, v.as_slice()) {
            return true;
        }
    }
    {
        let mut v: Vec<u8> = Vec::new();
        v.push(97);
        v.push(114);
        v.push(109);
        v.push(118);
        v.push(55);
        v.push(107);
        v.push(45);
        v.push(97);
        v.push(112);
        v.push(112);
        v.push(108);
        v.push(101);
        v.push(45);
        v.push(119);
        v.push(97);
        v.push(116);
        v.push(99);
        v.push(104);
        v.push(111);
        v.push(115);
        proof {
            assert(v@ =~= seq![97u8, 114u8, 109u8, 118u8, 55u8, 107u8, 45u8, 97u8, 112u8, 112u8, 108u8, 101u8, 45u8, 119u8, 97u8, 116u8, 99u8, 104u8, 111u8, 115u8]);
        }
        if crate::bytes::bytes_eq(t, v.as_slice()) {
            return true;
        }
    }
    {
        let mut v: Vec<u8> = Vec::new();
        v.push(97);
        v.push(114);
        v.push(109);
        v.push(118);
        v.push(55);
        v.push(115);
        v.push(45);
        v.push(97);
        v.push(112);
        v.push(112);
        v.push(108);
        v.push(101);
        v.push(45);
        v.push(105);
        v.push(111);
        v.push(115);
        proof {
            assert(v@ =~= seq![97u8, 114u8, 109u8, 118u8, 55u8, 115u8, 45u8, 97u8, 112u8, 112u8, 108u8, 101u8, 45u8, 105u8, 111u8, 115u8]);
        }
        if crate::bytes::bytes_eq(t, v.as_slice()) {
            return true;
        }
    }
    {
        let mut v: Vec<u8> = Vec::new();
        v.push(97);
        v.push(118);
        v.push(114);
        v.push(45);
        v.push(117);
        v.push(110);
        v.push(107);
        v.push(110);
        v.push(111);
        v.push(119);
        v.push(110);
        v.push(45);
        v.push(103);
        v.push(110);
        v.push(117);
        v.push(45);
        v.push(97);
        v.push(116);
        v.push(109);
        v.push(101);
        v.push(103);
        v.push(97);
        v.push(51);
        v.push(50);
        v.push(56);
        proof {
            assert(v@ =~= seq![97u8, 118u8, 114u8, 45u8, 117u8, 110u8, 107u8, 110u8, 111u8, 119u8, 110u8, 45u8, 103u8, 110u8, 117u8, 45u8, 97u8, 116u8, 109u8, 101u8, 103u8, 97u8, 51u8, 50u8, 56u8]);
        }
        if crate::bytes::bytes_eq(t, v.as_slice()) {
            return true;
        }
    }
    false
}

/// One slice of the supported-target list.
pub open spec fn spec_targets_group22(t: Seq<u8>) -> bool {
    t == seq![98u8, 112u8, 102u8, 101u8, 98u8, 45u8, 117u8, 110u8, 107u8, 110u8, 111u8, 119u8, 110u8, 45u8, 110u8, 111u8, 110u8, 101u8]
    || t == seq![98u8, 112u8, 102u8, 101u8, 108u8, 45u8, 117u8, 110u8, 107u8, 110u8, 111u8, 119u8, 110u8, 45u8, 110u8, 111u8, 110u8, 101u8]
    || t == seq![104u8, 101u8, 120u8, 97u8, 103u8, 111u8, 110u8, 45u8, 117u8, 110u8, 107u8, 110u8, 111u8, 119u8, 110u8, 45u8, 108u8, 105u8, 110u8, 117u8, 120u8, 45u8, 109u8, 117u8, 115u8, 108u8]
    || t == seq![105u8, 51u8, 56u8, 54u8, 45u8, 97u8, 112u8, 112u8, 108u8, 101u8, 45u8, 105u8, 111u8, 115u8]
    || t == seq![105u8, 54u8, 56u8, 54u8, 45u8, 97u8, 112u8, 112u8, 108u8, 101u8, 45u8, 100u8, 97u8, 114u8, 119u8, 105u8, 110u8]
    || t == seq![105u8, 54u8, 56u8, 54u8, 45u8, 117u8, 110u8, 107u8, 110u8, 111u8, 119u8, 110u8, 45u8, 104u8, 97u8, 105u8, 107u8, 117u8]
}

#[verifier::spinoff_prover]
#[verifier::rlimit(100)]
fn targets_group22(t: &[u8]) -> (r: bool)
    ensures
        r == spec_targets_group22(t@),
{
    {
        let mut v: Vec<u8> = Vec::new();
        v.push(98);
        v.push(112);
        v.push(102);
        v.push(101);
        v.push(98);
        v.push(45);
        v.push(117);
        v.push(110);
        v.push(107);
        v.push(110);
        v.push(111);
        v.push(119);
        v.push(110);
        v.push(45);
        v.push(110);
        v.push(111);
        v.push(110);
        v.push(101);
        proof {
            assert(v@ =~= seq![98u8, 112u8, 102u8, 101u8, 98u8, 45u8, 117u8, 110u8, 107u8, 110u8, 111u8, 119u8, 110u8, 45u8, 110u8, 111u8, 110u8, 101u8]);
        }
        if crate::bytes::bytes_eq(t, v.as_slice()) {
            return true;
        }
    }
    {
        let mut v: Vec<u8> = Vec::new();
        v.push(98);
        v.push(112);
        v.push(102);
        v.push(101);
        v.push(108);
        v.push(45);
        v.push(117);
        v.push(110);
        v.push(107);
        v.push(110);
        v.push(111);
        v.push(119);
        v.push(110);
        v.push(45);
        v.push(110);
        v.push(111);
        v.push(110);
        v.push(101);
        proof {
            assert(v@ =~= seq![98u8, 112u8, 102u8, 101u8, 108u8, 45u8, 117u8, 110u8, 107u8, 110u8, 111u8, 119u8, 110u8, 45u8, 110u8, 111u8, 110u8, 101u8]);
        }
        if crate::bytes::bytes_eq(t, v.as_slice()) {
            return true;
        }
    }
    {
        let mut v: Vec<u8> = Vec::new();
        v.push(104);
        v.push(101);
        v.push(120);
        v.push(97);
        v.push(103);
        v.push(111);
        v.push(110);
        v.push(45);
        v.push(117);
        v.push(110);
        v.push(107);
        v.push(110);
        v.push(111);
        v.push(119);
        v.push(110);
        v.push(45);
        v.push(108);
        v.push(105);
        v.push(110);
        v.push(117);
        v.push(120);
        v.push(45);
        v.push(109);
        v.push(117);
        v.push(115);
        v.push(108);
        proof {
            assert(v@ =~= seq![104u8, 101u8, 120u8, 97u8, 103u8, 111u8, 110u8, 45u8, 117u8, 110u8, 107u8, 110u8, 111u8, 119u8, 110u8, 45u8, 108u8, 105u8, 110u8, 117u8, 120u8, 45u8, 109u8, 117u8, 115u8, 108u8]);
        }
        if crate::bytes::bytes_eq(t, v.as_slice()) {
            return true;
        }
    }
    {
        let mut v: Vec<u8> = Vec::new();
        v.push(105);
        v.push(51);
        v.push(56);
        v.push(54);
        v.push(45);
        v.push(97);
        v.push(112);
        v.push(112);
        v.push(108);
        v.push(101);
        v.push(45);
        v.push(105);
        v.push(111);
        v.push(115);
        proof {
            assert(v@ =~= seq![105u8, 51u8, 56u8, 54u8, 45u8, 97u8, 112u8, 112u8, 108u8, 101u8, 45u8, 105u8, 111u8, 115u8]);
        }
        if crate::bytes::bytes_eq(t, v.as_slice()) {
            return true;
        }
    }
    {
        let mut v: Vec<u8> = Vec::new();
        v.push(105);
        v.push(54);
        v.push(56);
        v.push(54);
        v.push(45);
        v.push(97);
        v.push(112);
        v.push(112);
        v.push(108);
        v.push(101);
        v.push(45);
        v.push(100);
        v.push(97);
        v.push(114);
        v.push(119);
        v.push(105);
        v.push(110);
        proof {
            assert(v@ =~= seq![105u8, 54u8, 56u8, 54u8, 45u8, 97u8, 112u8, 112u8, 108u8, 101u8, 45u8, 100u8, 97u8, 114u8, 119u8, 105u8, 110u8]);
        }
        if crate::bytes::bytes_eq(t, v.as_slice()) {
            return true;
        }
    }
    {
        let mut v: Vec<u8> = Vec::new();
        v.push(105);
        v.push(54);
        v.push(56);
        v.push(54);
        v.push(45);
        v.push(117);
        v.push(110);
        v.push(107);
        v.push(110);
        v.push(111);
        v.push(119);
        v.push(110);
        v.push(45);
        v.push(104);
        v.push(97);
        v.push(105);
        v.push(107);
        v.push(117);
        proof {
            assert(v@ =~= seq![105u8, 54u8, 56u8, 54u8, 45u8, 117u8, 110u8, 107u8, 110u8, 111u8, 119u8, 110u8, 45u8, 104u8, 97u8, 105u8, 107u8, 117u8]);
        }
        if crate::bytes::bytes_eq(t, v.as_slice()) {
            return true;
        }
    }
    false
}

/// One slice of the supported-target list.
pub open spec fn spec_targets_group23(t: Seq<u8>) -> bool {
    t == seq![105u8, 54u8, 56u8, 54u8, 45u8, 117u8, 110u8, 107u8, 110u8, 111u8, 119u8, 110u8, 45u8, 110u8, 101u8, 116u8, 98u8, 115u8, 100u8]
    || t == seq![105u8, 54u8, 56u8, 54u8, 45u8, 117u8, 110u8, 107u8, 110u8, 111u8, 119u8, 110u8, 45u8, 111u8, 112u8, 101u8, 110u8, 98u8, 115u8, 100u8]
    || t == seq![105u8, 54u8, 56u8, 54u8, 45u8, 117u8, 119u8, 112u8, 45u8, 119u8, 105u8, 110u8, 100u8, 111u8, 119u8, 115u8, 45u8, 103u8, 110u8, 117u8]
    || t == seq![105u8, 54u8, 56u8, 54u8, 45u8, 117u8, 119u8, 112u8, 45u8, 119u8, 105u8, 110u8, 100u8, 111u8, 119u8, 115u8, 45u8, 109u8, 115u8, 118u8, 99u8]
    || t == seq![105u8, 54u8, 56u8, 54u8, 45u8, 119u8, 114u8, 115u8, 45u8, 118u8, 120u8, 119u8, 111u8, 114u8, 107u8, 115u8]
    || t == seq![109u8, 54u8, 56u8, 107u8, 45u8, 117u8, 110u8, 107u8, 110u8, 111u8, 119u8, 110u8, 45u8, 108u8, 105u8, 110u8, 117u8, 120u8, 45u8, 103u8, 110u8, 117u8]
}

#[verifier::spinoff_prover]
#[verifier::rlimit(100)]
fn targets_group23(t: &[u8]) -> (r: bool)
    ensures
        r == spec_targets_group23(t@),
{
    {
        let mut v: Vec<u8> = Vec::new();
        v.push(105);
        v.push(54);
        v.push(56);
        v.push(54);
        v.push(45);
        v.push(117);
        v.push(110);
        v.push(107);
        v.push(110);
        v.push(111);
        v.push(119);
        v.push(110);
        v.push(45);
        v.push(110);
        v.push(101);
        v.push(116);
        v.push(98);
        v.push(115);
        v.push(100);
        proof {
            assert(v@ =~= seq![105u8, 54u8, 56u8, 54u8, 45u8, 117u8, 110u8, 107u8, 110u8, 111u8, 119u8, 110u8, 45u8, 110u8, 101u8, 116u8, 98u8, 115u8, 100u8]);
        }
        if crate::bytes::bytes_eq(t, v.as_slice()) {
            return true;
        }
    }
    {
        let mut v: Vec<u8> = Vec::new();
        v.push(105);
        v.push(54);
        v.push(56);
        v.push(54);
        v.push(45);
        v.push(117);
        v.push(110);
        v.push(107);
        v.push(110);
        v.push(111);
        v.push(119);
        v.push(110);
        v.push(45);
        v.push(111);
        v.push(112);
        v.push(101);
        v.push(110);
        v.push(98);
        v.push(115);
        v.push(100);
        proof {
            assert(v@ =~= seq![105u8, 54u8, 56u8, 54u8, 45u8, 117u8, 110u8, 107u8, 110u8, 111u8, 119u8, 110u8, 45u8, 111u8, 112u8, 101u8, 110u8, 98u8, 115u8, 100u8]);
        }
        if crate::bytes::bytes_eq(t, v.as_slice()) {
            return true;
        }
    }
    {
        let mut v: Vec<u8> = Vec::new();
        v.push(105);
        v.push(54);
        v.push(56);
        v.push(54);
        v.push(45);
        v.push(117);
        v.push(119);
        v.push(112);
        v.push(45);
        v.push(119);
        v.push(105);
        v.push(110);
        v.push(100);
        v.push(111);
        v.push(119);
        v.push(115);
        v.push(45);
        v.push(103);
        v.push(110);
        v.push(117);
        proof {
            assert(v@ =~= seq![105u8, 54u8, 56u8, 54u8, 45u8, 117u8, 119u8, 112u8, 45u8, 119u8, 105u8, 110u8, 100u8, 111u8, 119u8, 115u8, 45u8, 103u8, 110u8, 117u8]);
        }
        if crate::bytes::bytes_eq(t, v.as_slice()) {
            return true;
        }
    }
    {
        let mut v: Vec<u8> = Vec::new();
        v.push(105);
        v.push(54);
        v.push(56);
        v.push(54);
        v.push(45);
        v.push(117);
        v.push(119);
        v.push(112);
        v.push(45);
        v.push(119);
        v.push(105);
        v.push(110);
        v.push(100);
        v.push(111);
        v.push(119);
        v.push(115);
        v.push(45);
        v.push(109);
        v.push(115);
        v.push(118);
        v.push(99);
        proof {
            assert(v@ =~= seq![105u8, 54u8, 56u8, 54u8, 45u8, 117u8, 119u8, 112u8, 45u8, 119u8, 105u8, 110u8, 100u8, 111u8, 119u8, 115u8, 45u8, 109u8, 115u8, 118u8, 99u8]);
        }
        if crate::bytes::bytes_eq(t, v.as_slice()) {
            return true;
        }
    }
    {
        let mut v: Vec<u8> = Vec::new();
        v.push(105);
        v.push(54);
        v.push(56);
        v.push(54);
        v.push(45);
        v.push(119);
        v.push(114);
        v.push(115);
        v.push(45);
        v.push(118);
        v.push(120);
        v.push(119);
        v.push(111);
        v.push(114);
        v.push(107);
        v.push(115);
        proof {
            assert(v@ =~= seq![105u8, 54u8, 56u8, 54u8, 45u8, 119u8, 114u8, 115u8, 45u8, 118u8, 120u8, 119u8, 111u8, 114u8, 107u8, 115u8]);
        }
        if crate::bytes::bytes_eq(t, v.as_slice()) {
            return true;
        }
    }
    {
        let mut v: Vec<u8> = Vec::new();
        v.push(109);
        v.push(54);
        v.push(56);
        v.push(107);
        v.push(45);
        v.push(117);
        v.push(110);
        v.push(107);
        v.push(110);
        v.push(111);
        v.push(119);
        v.push(110);
        v.push(45);
        v.push(108);
        v.push(105);
        v.push(110);
        v.push(117);
        v.push(120);
        v.push(45);
        v.push(103);
        v.push(110);
        v.push(117);
        proof {
            assert(v@ =~= seq![109u8, 54u8, 56u8, 107u8, 45u8, 117u8, 110u8, 107u8, 110u8, 111u8, 119u8, 110u8, 45u8, 108u8, 105u8, 110u8, 117u8, 120u8, 45u8, 103u8, 110u8, 117u8]);
        }
        if crate::bytes::bytes_eq(t, v.as_slice()) {
            return true;
        }
    }
    false
}

/// One slice of the supported-target list.
pub open spec fn spec_targets_group24(t: Seq<u8>) -> bool {
    t == seq![109u8, 105u8, 112u8, 115u8, 45u8, 117u8, 110u8, 107u8, 110u8, 111u8, 119u8, 110u8, 45u8, 108u8, 105u8, 110u8, 117u8, 120u8, 45u8, 117u8, 99u8, 108u8, 105u8, 98u8, 99u8]
    || t == seq![109u8, 105u8, 112u8, 115u8, 54u8, 52u8, 45u8, 111u8, 112u8, 101u8, 110u8, 119u8, 114u8, 116u8, 45u8, 108u8, 105u8, 110u8, 117u8, 120u8, 45u8, 109u8, 117u8, 115u8, 108u8]
    || t == seq![109u8, 105u8, 112u8, 115u8, 101u8, 108u8, 45u8, 115u8, 111u8, 110u8, 121u8, 45u8, 112u8, 115u8, 112u8]
    || t == seq![109u8, 105u8, 112u8, 115u8, 101u8, 108u8, 45u8, 115u8, 111u8, 110u8, 121u8, 45u8, 112u8, 115u8, 120u8]
    || t == seq![109u8, 105u8, 112u8, 115u8, 101u8, 108u8, 45u8, 117u8, 110u8, 107u8, 110u8, 111u8, 119u8, 110u8, 45u8, 108u8, 105u8, 110u8, 117u8, 120u8, 45u8, 117u8, 99u8, 108u8, 105u8, 98u8, 99u8]
    || t == seq![109u8, 105u8, 112u8, 115u8, 101u8, 108u8, 45u8, 117u8, 110u8, 107u8, 110u8, 111u8, 119u8, 110u8, 45u8, 110u8, 111u8, 110u8, 101u8]
}

#[verifier::spinoff_prover]
#[verifier::rlimit(100)]
fn targets_group24(t: &[u8]) -> (r: bool)
    ensures
        r == spec_targets_group24(t@),
{
    {
        let mut v: Vec<u8> = Vec::new();
        v.push(109);
        v.push(105);
        v.push(112);
        v.push(115);
        v.push(45);
        v.push(117);
        v.push(110);
        v.push(107);
        v.push(110);
        v.push(111);
        v.push(119);
        v.push(110);
        v.push(45);
        v.push(108);
        v.push(105);
        v.push(110);
        v.push(117);
        v.push(120);
        v.push(45);
        v.push(117);
        v.push(99);
        v.push(108);
        v.push(105);
        v.push(98);
        v.push(99);
        proof {
            assert(v@ =~= seq![109u8, 105u8, 112u8, 115u8, 45u8, 117u8, 110u8, 107u8, 110u8, 111u8, 119u8, 110u8, 45u8, 108u8, 105u8, 110u8, 117u8, 120u8, 45u8, 117u8, 99u8, 108u8, 105u8, 98u8, 99u8]);
        }
        if crate::bytes::bytes_eq(t, v.as_slice()) {
            return true;
        }
    }
    {
        let mut v: Vec<u8> = Vec::new();
        v.push(109);
        v.push(105);
        v.push(112);
        v.push(115);
        v.push(54);
        v.push(52);
        v.push(45);
        v.push(111);
        v.push(112);
        v.push(101);
        v.push(110);
        v.push(119);
        v.push(114);
        v.push(116);
        v.push(45);
        v.push(108);
        v.push(105);
        v.push(110);
        v.push(117);
        v.push(120);
        v.push(45);
        v.push(109);
        v.push(117);
        v.push(115);
        v.push(108);
        proof {
            assert(v@ =~= seq![109u8, 105u8, 112u8, 115u8, 54u8, 52u8, 45u8, 111u8, 112u8, 101u8, 110u8, 119u8, 114u8, 116u8, 45u8, 108u8, 105u8, 110u8, 117u8, 120u8, 45u8, 109u8, 117u8, 115u8, 108u8]);
        }
        if crate::bytes::bytes_eq(t, v.as_slice()) {
            return true;
        }
    }
    {
        let mut v: Vec<u8> = Vec::new();
        v.push(109);
        v.push(105);
        v.push(112);
        v.push(115);
        v.push(101);
        v.push(108);
        v.push(45);
        v.push(115);
        v.push(111);
        v.push(110);
        v.push(121);
        v.push(45);
        v.push(112);
        v.push(115);
        v.push(112);
        proof {
            assert(v@ =~= seq![109u8, 105u8, 112u8, 115u8, 101u8, 108u8, 45u8, 115u8, 111u8, 110u8, 121u8, 45u8, 112u8, 115u8, 112u8]);
        }
        if crate::bytes::bytes_eq(t, v.as_slice()) {
            return true;
        }
    }
    {
        let mut v: Vec<u8> = Vec::new();
        v.push(109);
        v.push(105);
        v.push(112);
        v.push(115);
        v.push(101);
        v.push(108);
        v.push(45);
        v.push(115);
        v.push(111);
        v.push(110);
        v.push(121);
        v.push(45);
        v.push(112);
        v.push(115);
        v.push(120);
        proof {
            assert(v@ =~= seq![109u8, 105u8, 112u8, 115u8, 101u8, 108u8, 45u8, 115u8, 111u8, 110u8, 121u8, 45u8, 112u8, 115u8, 120u8]);
        }
        if crate::bytes::bytes_eq(t, v.as_slice()) {
            return true;
        }
    }
    {
        let mut v: Vec<u8> = Vec::new();
        v.push(109);
        v.push(105);
        v.push(112);
        v.push(115);
        v.push(101);
        v.push(108);
        v.push(45);
        v.push(117);
        v.push(110);
        v.push(107);
        v.push(110);
        v.push(111);
        v.push(119);
        v.push(110);
        v.push(45);
        v.push(108);
        v.push(105);
        v.push(110);
        v.push(117);
        v.push(120);
        v.push(45);
        v.push(117);
        v.push(99);
        v.push(108);
        v.push(105);
        v.push(98);
        v.push(99);
        proof {
            assert(v@ =~= seq![109u8, 105u8, 112u8, 115u8, 101u8, 108u8, 45u8, 117u8, 110u8, 107u8, 110u8, 111u8, 119u8, 110u8, 45u8, 108u8, 105u8, 110u8, 117u8, 120u8, 45u8, 117u8, 99u8, 108u8, 105u8, 98u8, 99u8]);
        }
        if crate::bytes::bytes_eq(t, v.as_slice()) {
            return true;
        }
    }
    {
        let mut v: Vec<u8> = Vec::new();
        v.push(109);
        v.push(105);
        v.push(112);
        v.push(115);
        v.push(101);
        v.push(108);
        v.push(45);
        v.push(117);
        v.push(110);
        v.push(107);
        v.push(110);
        v.push(111);
        v.push(119);
        v.push(110);
        v.push(45);
        v.push(110);
        v.push(111);
        v.push(110);
        v.push(101);
        proof {
            assert(v@ =~= seq![109u8, 105u8, 112u8, 115u8, 101u8, 108u8, 45u8, 117u8, 110u8, 107u8, 110u8, 111u8, 119u8, 110u8, 45u8, 110u8, 111u8, 110u8, 101u8]);
        }
        if crate::bytes::bytes_eq(t, v.as_slice()) {
            return true;
        }
    }
    false
}

/// One slice of the supported-target list.
pub open spec fn spec_targets_group25(t: Seq<u8>) -> bool {
    t == seq![109u8, 105u8, 112u8, 115u8, 105u8, 115u8, 97u8, 51u8, 50u8, 114u8, 54u8, 45u8, 117u8, 110u8, 107u8, 110u8, 111u8, 119u8, 110u8, 45u8, 108u8, 105u8, 110u8, 117u8, 120u8, 45u8, 103u8, 110u8, 117u8]
    || t == seq![109u8, 105u8, 112u8, 115u8, 105u8, 115u8, 97u8, 51u8, 50u8, 114u8, 54u8, 101u8, 108u8, 45u8, 117u8, 110u8, 107u8, 110u8, 111u8, 119u8, 110u8, 45u8, 108u8, 105u8, 110u8, 117u8, 120u8, 45u8, 103u8, 110u8, 117u8]
    || t == seq![109u8, 105u8, 112u8, 115u8, 105u8, 115u8, 97u8, 54u8, 52u8, 114u8, 54u8, 45u8, 117u8, 110u8, 107u8, 110u8, 111u8, 119u8, 110u8, 45u8, 108u8, 105u8, 110u8, 117u8, 120u8, 45u8, 103u8, 110u8, 117u8, 97u8, 98u8, 105u8, 54u8, 52u8]
    || t == seq![109u8, 105u8, 112u8, 115u8, 105u8, 115u8, 97u8, 54u8, 52u8, 114u8, 54u8, 101u8, 108u8, 45u8, 117u8, 110u8, 107u8, 110u8, 111u8, 119u8, 110u8, 45u8, 108u8, 105u8, 110u8, 117u8, 120u8, 45u8, 103u8, 110u8, 117u8, 97u8, 98u8, 105u8, 54u8, 52u8]
    || t == seq![109u8, 115u8, 112u8, 52u8, 51u8, 48u8, 45u8, 110u8, 111u8, 110u8, 101u8, 45u8, 101u8, 108u8, 102u8]
    || t == seq![112u8, 111u8, 119u8, 101u8, 114u8, 112u8, 99u8, 45u8, 117u8, 110u8, 107u8, 110u8, 111u8, 119u8, 110u8, 45u8, 108u8, 105u8, 110u8, 117u8, 120u8, 45u8, 103u8, 110u8, 117u8, 115u8, 112u8, 101u8]
}

#[verifier::spinoff_prover]
#[verifier::rlimit(100)]
fn targets_group25(t: &[u8]) -> (r: bool)
    ensures
        r == spec_targets_group25(t@),
{
    {
        let mut v: Vec<u8> = Vec::new();
        v.push(109);
        v.push(105);
        v.push(112);
        v.push(115);
        v.push(105);
        v.push(115);
        v.push(97);
        v.push(51);
        v.push(50);
        v.push(114);
        v.push(54);
        v.push(45);
        v.push(117);
        v.push(110);
        v.push(107);
        v.push(110);
        v.push(111);
        v.push(119);
        v.push(110);
        v.push(45);
        v.push(108);
        v.push(105);
        v.push(110);
        v.push(117);
        v.push(120);
        v.push(45);
        v.push(103);
        v.push(110);
        v.push(117);
        proof {
            assert(v@ =~= seq![109u8, 105u8, 112u8, 115u8, 105u8, 115u8, 97u8, 51u8, 50u8, 114u8, 54u8, 45u8, 117u8, 110u8, 107u8, 110u8, 111u8, 119u8, 110u8, 45u8, 108u8, 105u8, 110u8, 117u8, 120u8, 45u8, 103u8, 110u8, 117u8]);
        }
        if crate::bytes::bytes_eq(t, v.as_slice()) {
            return true;
        }
    }
    {
        let mut v: Vec<u8> = Vec::new();
        v.push(109);
        v.push(105);
        v.push(112);
        v.push(115);
        v.push(105);
        v.push(115);
        v.push(97);
        v.push(51);
        v.push(50);
        v.push(114);
        v.push(54);
        v.push(101);
        v.push(108);
        v.push(45);
        v.push(117);
        v.push(110);
        v.push(107);
        v.push(110);
        v.push(111);
        v.push(119);
        v.push(110);
        v.push(45);
        v.push(108);
        v.push(105);
        v.push(110);
        v.push(117);
        v.push(120);
        v.push(45);
        v.push(103);
        v.push(110);
        v.push(117);
        proof {
            assert(v@ =~= seq![109u8, 105u8, 112u8, 115u8, 105u8, 115u8, 97u8, 51u8, 50u8, 114u8, 54u8, 101u8, 108u8, 45u8, 117u8, 110u8, 107u8, 110u8, 111u8, 119u8, 110u8, 45u8, 108u8, 105u8, 110u8, 117u8, 120u8, 45u8, 103u8, 110u8, 117u8]);
        }
        if crate::bytes::bytes_eq(t, v.as_slice()) {
            return true;
        }
    }
    {
        let mut v: Vec<u8> = Vec::new();
        v.push(109);
        v.push(105);
        v.push(112);
        v.push(115);
        v.push(105);
        v.push(115);
        v.push(97);
        v.push(54);
        v.push(52);
        v.push(114);
        v.push(54);
        v.push(45);
        v.push(117);
        v.push(110);
        v.push(107);
        v.push(110);
        v.push(111);
        v.push(119);
        v.push(110);
        v.push(45);
        v.push(108);
        v.push(105);
        v.push(110);
        v.push(117);
        v.push(120);
        v.push(45);
        v.push(103);
        v.push(110);
        v.push(117);
        v.push(97);
        v.push(98);
        v.push(105);
        v.push(54);
        v.push(52);
        proof {
            assert(v@ =~= seq![109u8, 105u8, 112u8, 115u8, 105u8, 115u8, 97u8, 54u8, 52u8, 114u8, 54u8, 45u8, 117u8, 110u8, 107u8, 110u8, 111u8, 119u8, 110u8, 45u8, 108u8, 105u8, 110u8, 117u8, 120u8, 45u8, 103u8, 110u8, 117u8, 97u8, 98u8, 105u8, 54u8, 52u8]);
        }
        if crate::bytes::bytes_eq(t, v.as_slice()) {
            return true;
        }
    }
    {
        let mut v: Vec<u8> = Vec::new();
        v.push(109);
        v.push(105);
        v.push(112);
        v.push(115);
        v.push(105);
        v.push(115);
        v.push(97);
        v.push(54);
        v.push(52);
        v.push(114);
        v.push(54);
        v.push(101);
        v.push(108);
        v.push(45);
        v.push(117);
        v.push(110);
        v.push(107);
        v.push(110);
        v.push(111);
        v.push(119);
        v.push(110);
        v.push(45);
        v.push(108);
        v.push(105);
        v.push(110);
        v.push(117);
        v.push(120);
        v.push(45);
        v.push(103);
        v.push(110);
        v.push(117);
        v.push(97);
        v.push(98);
        v.push(105);
        v.push(54);
        v.push(52);
        proof {
            assert(v@ =~= seq![109u8, 105u8, 112u8, 115u8, 105u8, 115u8, 97u8, 54u8, 52u8, 114u8, 54u8, 101u8, 108u8, 45u8, 117u8, 110u8, 107u8, 110u8, 111u8, 119u8, 110u8, 45u8, 108u8, 105u8, 110u8, 117u8, 120u8, 45u8, 103u8, 110u8, 117u8, 97u8, 98u8, 105u8, 54u8, 52u8]);
        }
        if crate::bytes::bytes_eq(t, v.as_slice()) {
            return true;
        }
    }
    {
        let mut v: Vec<u8> = Vec::new();
        v.push(109);
        v.push(115);
        v.push(112);
        v.push(52);
        v.push(51);
        v.push(48);
        v.push(45);
        v.push(110);
        v.push(111);
        v.push(110);
        v.push(101);
        v.push(45);
        v.push(101);
        v.push(108);
        v.push(102);
        proof {
            assert(v@ =~= seq![109u8, 115u8, 112u8, 52u8, 51u8, 48u8, 45u8, 110u8, 111u8, 110u8, 101u8, 45u8, 101u8, 108u8, 102u8]);
        }
        if crate::bytes::bytes_eq(t, v.as_slice()) {
            return true;
        }
    }
    {
        let mut v: Vec<u8> = Vec::new();
        v.push(112);
        v.push(111);
        v.push(119);
        v.push(101);
        v.push(114);
        v.push(112);
        v.push(99);
        v.push(45);
        v.push(117);
        v.push(110);
        v.push(107);
        v.push(110);
        v.push(111);
        v.push(119);
        v.push(110);
        v.push(45);
        v.push(108);
        v.push(105);
        v.push(110);
        v.push(117);
        v.push(120);
        v.push(45);
        v.push(103);
        v.push(110);
        v.push(117);
        v.push(115);
        v.push(112);
        v.push(101);
        proof {
            assert(v@ =~= seq![112u8, 111u8, 119u8, 101u8, 114u8, 112u8, 99u8, 45u8, 117u8, 110u8, 107u8, 110u8, 111u8, 119u8, 110u8, 45u8, 108u8, 105u8, 110u8, 117u8, 120u8, 45u8, 103u8, 110u8, 117u8, 115u8, 112u8, 101u8]);
        }
        if crate::bytes::bytes_eq(t, v.as_slice()) {
            return true;
        }
    }
    false
}

/// One slice of the supported-target list.
pub open spec fn spec_targets_group26(t: Seq<u8>) -> bool {
    t == seq![112u8, 111u8, 119u8, 101u8, 114u8, 112u8, 99u8, 45u8, 117u8, 110u8, 107u8, 110u8, 111u8, 119u8, 110u8, 45u8, 108u8, 105u8, 110u8, 117u8, 120u8, 45u8, 109u8, 117u8, 115u8, 108u8]
    || t == seq![112u8, 111u8, 119u8, 101u8, 114u8, 112u8, 99u8, 45u8, 117u8, 110u8, 107u8, 110u8, 111u8, 119u8, 110u8, 45u8, 110u8, 101u8, 116u8, 98u8, 115u8, 100u8]
    || t == seq![112u8, 111u8, 119u8, 101u8, 114u8, 112u8, 99u8, 45u8, 117u8, 110u8, 107u8, 110u8, 111u8, 119u8, 110u8, 45u8, 111u8, 112u8, 101u8, 110u8, 98u8, 115u8, 100u8]
    || t == seq![112u8, 111u8, 119u8, 101u8, 114u8, 112u8, 99u8, 45u8, 119u8, 114u8, 115u8, 45u8, 118u8, 120u8, 119u8, 111u8, 114u8, 107u8, 115u8, 45u8, 115u8, 112u8, 101u8]
    || t == seq![112u8, 111u8, 119u8, 101u8, 114u8, 112u8, 99u8, 45u8, 119u8, 114u8, 115u8, 45u8, 118u8, 120u8, 119u8, 111u8, 114u8, 107u8, 115u8]
    || t == seq![112u8, 111u8, 119u8, 101u8, 114u8, 112u8, 99u8, 54u8, 52u8, 45u8, 117u8, 110u8, 107u8, 110u8, 111u8, 119u8, 110u8, 45u8, 102u8, 114u8, 101u8, 101u8, 98u8, 115u8, 100u8]
}

#[verifier::spinoff_prover]
#[verifier::rlimit(100)]
fn targets_group26(t: &[u8]) -> (r: bool)
    ensures
        r == spec_targets_group26(t@),
{
    {
        let mut v: Vec<u8> = Vec::new();
        v.push(112);
        v.push(111);
        v.push(119);
        v.push(101);
        v.push(114);
        v.push(112);
        v.push(99);
        v.push(45);
        v.push(117);
        v.push(110);
        v.push(107);
        v.push(110);
        v.push(111);
        v.push(119);
        v.push(110);
        v.push(45);
        v.push(108);
        v.push(105);
        v.push(110);
        v.push(117);
        v.push(120);
        v.push(45);
        v.push(109);
        v.push(117);
        v.push(115);
        v.push(108);
        proof {
            assert(v@ =~= seq![112u8, 111u8, 119u8, 101u8, 114u8, 112u8, 99u8, 45u8, 117u8, 110u8, 107u8, 110u8, 111u8, 119u8, 110u8, 45u8, 108u8, 105u8, 110u8, 117u8, 120u8, 45u8, 109u8, 117u8, 115u8, 108u8]);
        }
        if crate::bytes::bytes_eq(t, v.as_slice()) {
            return true;
        }
    }
    {
        let mut v: Vec<u8> = Vec::new();
        v.push(112);
        v.push(111);
        v.push(119);
        v.push(101);
        v.push(114);
        v.push(112);
        v.push(99);
        v.push(45);
        v.push(117);
        v.push(110);
        v.push(107);
        v.push(110);
        v.push(111);
        v.push(119);
        v.push(110);
        v.push(45);
        v.push(110);
        v.push(101);
        v.push(116);
        v.push(98);
        v.push(115);
        v.push(100);
        proof {
            assert(v@ =~= seq![112u8, 111u8, 119u8, 101u8, 114u8, 112u8, 99u8, 45u8, 117u8, 110u8, 107u8, 110u8, 111u8, 119u8, 110u8, 45u8, 110u8, 101u8, 116u8, 98u8, 115u8, 100u8]);
        }
        if crate::bytes::bytes_eq(t, v.as_slice()) {
            return true;
        }
    }
    {
        let mut v: Vec<u8> = Vec::new();
        v.push(112);
        v.push(111);
        v.push(119);
        v.push(101);
        v.push(114);
        v.push(112);
        v.push(99);
        v.push(45);
        v.push(117);
        v.push(110);
        v.push(107);
        v.push(110);
        v.push(111);
        v.push(119);
        v.push(110);
        v.push(45);
        v.push(111);
        v.push(112);
        v.push(101);
        v.push(110);
        v.push(98);
        v.push(115);
        v.push(100);
        proof {
            assert(v@ =~= seq![112u8, 111u8, 119u8, 101u8, 114u8, 112u8, 99u8, 45u8, 117u8, 110u8, 107u8, 110u8, 111u8, 119u8, 110u8, 45u8, 111u8, 112u8, 101u8, 110u8, 98u8, 115u8, 100u8]);
        }
        if crate::bytes::bytes_eq(t, v.as_slice()) {
            return true;
        }
    }
    {
        let mut v: Vec<u8> = Vec::new();
        v.push(112);
        v.push(111);
        v.push(119);
        v.push(101);
        v.push(114);
        v.push(112);
        v.push(99);
        v.push(45);
        v.push(119);
        v.push(114);
        v.push(115);
        v.push(45);
        v.push(118);
        v.push(120);
        v.push(119);
        v.push(111);
        v.push(114);
        v.push(107);
        v.push(115);
        v.push(45);
        v.push(115);
        v.push(112);
        v.push(101);
        proof {
            assert(v@ =~= seq![112u8, 111u8, 119u8, 101u8, 114u8, 112u8, 99u8, 45u8, 119u8, 114u8, 115u8, 45u8, 118u8, 120u8, 119u8, 111u8, 114u8, 107u8, 115u8, 45u8, 115u8, 112u8, 101u8]);
        }
        if crate::bytes::bytes_eq(t, v.as_slice()) {
            return true;
        }
    }
    {
        let mut v: Vec<u8> = Vec::new();
        v.push(112);
        v.push(111);
        v.push(119);
        v.push(101);
        v.push(114);
        v.push(112);
        v.push(99);
        v.push(45);
        v.push(119);
        v.push(114);
        v.push(115);
        v.push(45);
        v.push(118);
        v.push(120);
        v.push(119);
        v.push(111);
        v.push(114);
        v.push(107);
        v.push(115);
        proof {
            assert(v@ =~= seq![112u8, 111u8, 119u8, 101u8, 114u8, 112u8, 99u8, 45u8, 119u8, 114u8, 115u8, 45u8, 118u8, 120u8, 119u8, 111u8, 114u8, 107u8, 115u8]);
        }
        if crate::bytes::bytes_eq(t, v.as_slice()) {
            return true;
        }
    }
    {
        let mut v: Vec<u8> = Vec::new();
        v.push(112);
        v.push(111);
        v.push(119);
        v.push(101);
        v.push(114);
        v.push(112);
        v.push(99);
        v.push(54);
        v.push(52);
        v.push(45);
        v.push(117);
        v.push(110);
        v.push(107);
        v.push(110);
        v.push(111);
        v.push(119);
        v.push(110);
        v.push(45);
        v.push(102);
        v.push(114);
        v.push(101);
        v.push(101);
        v.push(98);
        v.push(115);
        v.push(100);
        proof {
            assert(v@ =~= seq![112u8, 111u8, 119u8, 101u8, 114u8, 112u8, 99u8, 54u8, 52u8, 45u8, 117u8, 110u8, 107u8, 110u8, 111u8, 119u8, 110u8, 45u8, 102u8, 114u8, 101u8, 101u8, 98u8, 115u8, 100u8]);
        }
        if crate::bytes::bytes_eq(t, v.as_slice()) {
            return true;
        }
    }
    false
}

/// One slice of the supported-target list.
pub open spec fn spec_targets_group27(t: Seq<u8>) -> bool {
    t == seq![112u8, 111u8, 119u8, 101u8, 114u8, 112u8, 99u8, 54u8, 52u8, 108u8, 101u8, 45u8, 117u8, 110u8, 107u8, 110u8, 111u8, 119u8, 110u8, 45u8, 102u8, 114u8, 101u8, 101u8, 98u8, 115u8, 100u8]
    || t == seq![112u8, 111u8, 119u8, 101u8, 114u8, 112u8, 99u8, 45u8, 117u8, 110u8, 107u8, 110u8, 111u8, 119u8, 110u8, 45u8, 102u8, 114u8, 101u8, 101u8, 98u8, 115u8, 100u8]
    || t == seq![112u8, 111u8, 119u8, 101u8, 114u8, 112u8, 99u8, 54u8, 52u8, 45u8, 117u8, 110u8, 107u8, 110u8, 111u8, 119u8, 110u8, 45u8, 108u8, 105u8, 110u8, 117u8, 120u8, 45u8, 109u8, 117u8, 115u8, 108u8]
    || t == seq![112u8, 111u8, 119u8, 101u8, 114u8, 112u8, 99u8, 54u8, 52u8, 45u8, 119u8, 114u8, 115u8, 45u8, 118u8, 120u8, 119u8, 111u8, 114u8, 107u8, 115u8]
    || t == seq![112u8, 111u8, 119u8, 101u8, 114u8, 112u8, 99u8, 54u8, 52u8, 108u8, 101u8, 45u8, 117u8, 110u8, 107u8, 110u8, 111u8, 119u8, 110u8, 45u8, 108u8, 105u8, 110u8, 117u8, 120u8, 45u8, 109u8, 117u8, 115u8, 108u8]
    || t == seq![112u8, 111u8, 119u8, 101u8, 114u8, 112u8, 99u8, 54u8, 52u8, 45u8, 117u8, 110u8, 107u8, 110u8, 111u8, 119u8, 110u8, 45u8, 111u8, 112u8, 101u8, 110u8, 98u8, 115u8, 100u8]
}

#[verifier::spinoff_prover]
#[verifier::rlimit(100)]
fn targets_group27(t: &[u8]) -> (r: bool)
    ensures
        r == spec_targets_group27(t@),
{
    {
        let mut v: Vec<u8> = Vec::new();
        v.push(112);
        v.push(111);
        v.push(119);
        v.push(101);
        v.push(114);
        v.push(112);
        v.push(99);
        v.push(54);
        v.push(52);
        v.push(108);
        v.push(101);
        v.push(45);
        v.push(117);
        v.push(110);
        v.push(107);
        v.push(110);
        v.push(111);
        v.push(119);
        v.push(110);
        v.push(45);
        v.push(102);
        v.push(114);
        v.push(101);
        v.push(101);
        v.push(98);
        v.push(115);
        v.push(100);
        proof {
            assert(v@ =~= seq![112u8, 111u8, 119u8, 101u8, 114u8, 112u8, 99u8, 54u8, 52u8, 108u8, 101u8, 45u8, 117u8, 110u8, 107u8, 110u8, 111u8, 119u8, 110u8, 45u8, 102u8, 114u8, 101u8, 101u8, 98u8, 115u8, 100u8]);
        }
        if crate::bytes::bytes_eq(t, v.as_slice()) {
            return true;
        }
    }
    {
        let mut v: Vec<u8> = Vec::new();
        v.push(112);
        v.push(111);
        v.push(119);
        v.push(101);
        v.push(114);
        v.push(112);
        v.push(99);
        v.push(45);
        v.push(117);
        v.push(110);
        v.push(107);
        v.push(110);
        v.push(111);
        v.push(119);
        v.push(110);
        v.push(45);
        v.push(102);
        v.push(114);
        v.push(101);
        v.push(101);
        v.push(98);
        v.push(115);
        v.push(100);
        proof {
            assert(v@ =~= seq![112u8, 111u8, 119u8, 101u8, 114u8, 112u8, 99u8, 45u8, 117u8, 110u8, 107u8, 110u8, 111u8, 119u8, 110u8, 45u8, 102u8, 114u8, 101u8, 101u8, 98u8, 115u8, 100u8]);
        }
        if crate::bytes::bytes_eq(t, v.as_slice()) {
            return true;
        }
    }
    {
        let mut v: Vec<u8> = Vec::new();
        v.push(112);
        v.push(111);
        v.push(119);
        v.push(101);
        v.push(114);
        v.push(112);
        v.push(99);
        v.push(54);
        v.push(52);
        v.push(45);
        v.push(117);
        v.push(110);
        v.push(107);
        v.push(110);
        v.push(111);
        v.push(119);
        v.push(110);
        v.push(45);
        v.push(108);
        v.push(105);
        v.push(110);
        v.push(117);
        v.push(120);
        v.push(45);
        v.push(109);
        v.push(117);
        v.push(115);
        v.push(108);
        proof {
            assert(v@ =~= seq![112u8, 111u8, 119u8, 101u8, 114u8, 112u8, 99u8, 54u8, 52u8, 45u8, 117u8, 110u8, 107u8, 110u8, 111u8, 119u8, 110u8, 45u8, 108u8, 105u8, 110u8, 117u8, 120u8, 45u8, 109u8, 117u8, 115u8, 108u8]);
        }
        if crate::bytes::bytes_eq(t, v.as_slice()) {
            return true;
        }
    }
    {
        let mut v: Vec<u8> = Vec::new();
        v.push(112);
        v.push(111);
        v.push(119);
        v.push(101);
        v.push(114);
        v.push(112);
        v.push(99);
        v.push(54);
        v.push(52);
        v.push(45);
        v.push(119);
        v.push(114);
        v.push(115);
        v.push(45);
        v.push(118);
        v.push(120);
        v.push(119);
        v.push(111);
        v.push(114);
        v.push(107);
        v.push(115);
        proof {
            assert(v@ =~= seq![112u8, 111u8, 119u8, 101u8, 114u8, 112u8, 99u8, 54u8, 52u8, 45u8, 119u8, 114u8, 115u8, 45u8, 118u8, 120u8, 119u8, 111u8, 114u8, 107u8, 115u8]);
        }
        if crate::bytes::bytes_eq(t, v.as_slice()) {
            return true;
        }
    }
    {
        let mut v: Vec<u8> = Vec::new();
        v.push(112);
        v.push(111);
        v.push(119);
        v.push(101);
        v.push(114);
        v.push(112);
        v.push(99);
        v.push(54);
        v.push(52);
        v.push(108);
        v.push(101);
        v.push(45);
        v.push(117);
        v.push(110);
        v.push(107);
        v.push(110);
        v.push(111);
        v.push(119);
        v.push(110);
        v.push(45);
        v.push(108);
        v.push(105);
        v.push(110);
        v.push(117);
        v.push(120);
        v.push(45);
        v.push(109);
        v.push(117);
        v.push(115);
        v.push(108);
        proof {
            assert(v@ =~= seq![112u8, 111u8, 119u8, 101u8, 114u8, 112u8, 99u8, 54u8, 52u8, 108u8, 101u8, 45u8, 117u8, 110u8, 107u8, 110u8, 111u8, 119u8, 110u8, 45u8, 108u8, 105u8, 110u8, 117u8, 120u8, 45u8, 109u8, 117u8, 115u8, 108u8]);
        }
        if crate::bytes::bytes_eq(t, v.as_slice()) {
            return true;
        }
    }
    {
        let mut v: Vec<u8> = Vec::new();
        v.push(112);
        v.push(111);
        v.push(119);
        v.push(101);
        v.push(114);
        v.push(112);
        v.push(99);
        v.push(54);
        v.push(52);
        v.push(45);
        v.push(117);
        v.push(110);
        v.push(107);
        v.push(110);
        v.push(111);
        v.push(119);
        v.push(110);
        v.push(45);
        v.push(111);
        v.push(112);
        v.push(101);
        v.push(110);
        v.push(98);
        v.push(115);
        v.push(100);
        proof {
            assert(v@ =~= seq![112u8, 111u8, 119u8, 101u8, 114u8, 112u8, 99u8, 54u8, 52u8, 45u8, 117u8, 110u8, 107u8, 110u8, 111u8, 119u8, 110u8, 45u8, 111u8, 112u8, 101u8, 110u8, 98u8, 115u8, 100u8]);
        }
        if crate::bytes::bytes_eq(t, v.as_slice()) {
            return true;
        }
    }
    false
}

/// One slice of the supported-target list.
pub open spec fn spec_targets_group28(t: Seq<u8>) -> bool {
    t == seq![112u8, 111u8, 119u8, 101u8, 114u8, 112u8, 99u8, 54u8, 52u8, 45u8, 105u8, 98u8, 109u8, 45u8, 97u8, 105u8, 120u8]
    || t == seq![114u8, 105u8, 115u8, 99u8, 118u8, 51u8, 50u8, 103u8, 99u8, 45u8, 117u8, 110u8, 107u8, 110u8, 111u8, 119u8, 110u8, 45u8, 108u8, 105u8, 110u8, 117u8, 120u8, 45u8, 103u8, 110u8, 117u8]
    || t == seq![114u8, 105u8, 115u8, 99u8, 118u8, 51u8, 50u8, 103u8, 99u8, 45u8, 117u8, 110u8, 107u8, 110u8, 111u8, 119u8, 110u8, 45u8, 108u8, 105u8, 110u8, 117u8, 120u8, 45u8, 109u8, 117u8, 115u8, 108u8]
    || t == seq![114u8, 105u8, 115u8, 99u8, 118u8, 51u8, 50u8, 105u8, 109u8, 45u8, 117u8, 110u8, 107u8, 110u8, 111u8, 119u8, 110u8, 45u8, 110u8, 111u8, 110u8, 101u8, 45u8, 101u8, 108u8, 102u8]
    || t == seq![114u8, 105u8, 115u8, 99u8, 118u8, 51u8, 50u8, 105u8, 109u8, 97u8, 99u8, 45u8, 117u8, 110u8, 107u8, 110u8, 111u8, 119u8, 110u8, 45u8, 120u8, 111u8, 117u8, 115u8, 45u8, 101u8, 108u8, 102u8]
    || t == seq![114u8, 105u8, 115u8, 99u8, 118u8, 51u8, 50u8, 105u8, 109u8, 99u8, 45u8, 101u8, 115u8, 112u8, 45u8, 101u8, 115u8, 112u8, 105u8, 100u8, 102u8]
}

#[verifier::spinoff_prover]
#[verifier::rlimit(100)]
fn targets_group28(t: &[u8]) -> (r: bool)
    ensures
        r == spec_targets_group28(t@),
{
    {
        let mut v: Vec<u8> = Vec::new();
        v.push(112);
        v.push(111);
        v.push(119);
        v.push(101);
        v.push(114);
        v.push(112);
        v.push(99);
        v.push(54);
        v.push(52);
        v.push(45);
        v.push(105);
        v.push(98);
        v.push(109);
        v.push(45);
        v.push(97);
        v.push(105);
        v.push(120);
        proof {
            assert(v@ =~= seq![112u8, 111u8, 119u8, 101u8, 114u8, 112u8, 99u8, 54u8, 52u8, 45u8, 105u8, 98u8, 109u8, 45u8, 97u8, 105u8, 120u8]);
        }
        if crate::bytes::bytes_eq(t, v.as_slice()) {
            return true;
        }
    }
    {
        let mut v: Vec<u8> = Vec::new();
        v.push(114);
        v.push(105);
        v.push(115);
        v.push(99);
        v.push(118);
        v.push(51);
        v.push(50);
        v.push(103);
        v.push(99);
        v.push(45);
        v.push(117);
        v.push(110);
        v.push(107);
        v.push(110);
        v.push(111);
        v.push(119);
        v.push(110);
        v.push(45);
        v.push(108);
        v.push(105);
        v.push(110);
        v.push(117);
        v.push(120);
        v.push(45);
        v.push(103);
        v.push(110);
        v.push(117);
        proof {
            assert(v@ =~= seq![114u8, 105u8, 115u8, 99u8, 118u8, 51u8, 50u8, 103u8, 99u8, 45u8, 117u8, 110u8, 107u8, 110u8, 111u8, 119u8, 110u8, 45u8, 108u8, 105u8, 110u8, 117u8, 120u8, 45u8, 103u8, 110u8, 117u8]);
        }
        if crate::bytes::bytes_eq(t, v.as_slice()) {
            return true;
        }
    }
    {
        let mut v: Vec<u8> = Vec::new();
        v.push(114);
        v.push(105);
        v.push(115);
        v.push(99);
        v.push(118);
        v.push(51);
        v.push(50);
        v.push(103);
        v.push(99);
        v.push(45);
        v.push(117);
        v.push(110);
        v.push(107);
        v.push(110);
        v.push(111);
        v.push(119);
        v.push(110);
        v.push(45);
        v.push(108);
        v.push(105);
        v.push(110);
        v.push(117);
        v.push(120);
        v.push(45);
        v.push(109);
        v.push(117);
        v.push(115);
        v.push(108);
        proof {
            assert(v@ =~= seq![114u8, 105u8, 115u8, 99u8, 118u8, 51u8, 50u8, 103u8, 99u8, 45u8, 117u8, 110u8, 107u8, 110u8, 111u8, 119u8, 110u8, 45u8, 108u8, 105u8, 110u8, 117u8, 120u8, 45u8, 109u8, 117u8, 115u8, 108u8]);
        }
        if crate::bytes::bytes_eq(t, v.as_slice()) {
            return true;
        }
    }
    {
        let mut v: Vec<u8> = Vec::new();
        v.push(114);
        v.push(105);
        v.push(115);
        v.push(99);
        v.push(118);
        v.push(51);
        v.push(50);
        v.push(105);
        v.push(109);
        v.push(45);
        v.push(117);
        v.push(110);
        v.push(107);
        v.push(110);
        v.push(111);
        v.push(119);
        v.push(110);
        v.push(45);
        v.push(110);
        v.push(111);
        v.push(110);
        v.push(101);
        v.push(45);
        v.push(101);
        v.push(108);
        v.push(102);
        proof {
            assert(v@ =~= seq![114u8, 105u8, 115u8, 99u8, 118u8, 51u8, 50u8, 105u8, 109u8, 45u8, 117u8, 110u8, 107u8, 110u8, 111u8, 119u8, 110u8, 45u8, 110u8, 111u8, 110u8, 101u8, 45u8, 101u8, 108u8, 102u8]);
        }
        if crate::bytes::bytes_eq(t, v.as_slice()) {
            return true;
        }
    }
    {
        let mut v: Vec<u8> = Vec::new();
        v.push(114);
        v.push(105);
        v.push(115);
        v.push(99);
        v.push(118);
        v.push(51);
        v.push(50);
        v.push(105);
        v.push(109);
        v.push(97);
        v.push(99);
        v.push(45);
        v.push(117);
        v.push(110);
        v.push(107);
        v.push(110);
        v.push(111);
        v.push(119);
        v.push(110);
        v.push(45);
        v.push(120);
        v.push(111);
        v.push(117);
        v.push(115);
        v.push(45);
        v.push(101);
        v.push(108);
        v.push(102);
        proof {
            assert(v@ =~= seq![114u8, 105u8, 115u8, 99u8, 118u8, 51u8, 50u8, 105u8, 109u8, 97u8, 99u8, 45u8, 117u8, 110u8, 107u8, 110u8, 111u8, 119u8, 110u8, 45u8, 120u8, 111u8, 117u8, 115u8, 45u8, 101u8, 108u8, 102u8]);
        }
        if crate::bytes::bytes_eq(t, v.as_slice()) {
            return true;
        }
    }
    {
        let mut v: Vec<u8> = Vec::new();
        v.push(114);
        v.push(105);
        v.push(115);
        v.push(99);
        v.push(118);
        v.push(51);
        v.push(50);
        v.push(105);
        v.push(109);
        v.push(99);
        v.push(45);
        v.push(101);
        v.push(115);
        v.push(112);
        v.push(45);
        v.push(101);
        v.push(115);
        v.push(112);
        v.push(105);
        v.push(100);
        v.push(102);
        proof {
            assert(v@ =~= seq![114u8, 105u8, 115u8, 99u8, 118u8, 51u8, 50u8, 105u8, 109u8, 99u8, 45u8, 101u8, 115u8, 112u8, 45u8, 101u8, 115u8, 112u8, 105u8, 100u8, 102u8]);
        }
        if crate::bytes::bytes_eq(t, v.as_slice()) {
            return true;
        }
    }
    false
}

/// One slice of the supported-target list.
pub open spec fn spec_targets_group29(t: Seq<u8>) -> bool {
    t == seq![114u8, 105u8, 115u8, 99u8, 118u8, 54u8, 52u8, 103u8, 99u8, 45u8, 117u8, 110u8, 107u8, 110u8, 111u8, 119u8, 110u8, 45u8, 102u8, 114u8, 101u8, 101u8, 98u8, 115u8, 100u8]
    || t == seq![114u8, 105u8, 115u8, 99u8, 118u8, 54u8, 52u8, 103u8, 99u8, 45u8, 117u8, 110u8, 107u8, 110u8, 111u8, 119u8, 110u8, 45u8, 108u8, 105u8, 110u8, 117u8, 120u8, 45u8, 109u8, 117u8, 115u8, 108u8]
    || t == seq![114u8, 105u8, 115u8, 99u8, 118u8, 54u8, 52u8, 103u8, 99u8, 45u8, 117u8, 110u8, 107u8, 110u8, 111u8, 119u8, 110u8, 45u8, 111u8, 112u8, 101u8, 110u8, 98u8, 115u8, 100u8]
    || t == seq![115u8, 51u8, 57u8, 48u8, 120u8, 45u8, 117u8, 110u8, 107u8, 110u8, 111u8, 119u8, 110u8, 45u8, 108u8, 105u8, 110u8, 117u8, 120u8, 45u8, 109u8, 117u8, 115u8, 108u8]
    || t == seq![115u8, 112u8, 97u8, 114u8, 99u8, 45u8, 117u8, 110u8, 107u8, 110u8, 111u8, 119u8, 110u8, 45u8, 108u8, 105u8, 110u8, 117u8, 120u8, 45u8, 103u8, 110u8, 117u8]
    || t == seq![115u8, 112u8, 97u8, 114u8, 99u8, 54u8, 52u8, 45u8, 117u8, 110u8, 107u8, 110u8, 111u8, 119u8, 110u8, 45u8, 110u8, 101u8, 116u8, 98u8, 115u8, 100u8]
}

#[verifier::spinoff_prover]
#[verifier::rlimit(100)]
fn targets_group29(t: &[u8]) -> (r: bool)
    ensures
        r == spec_targets_group29(t@),
{
    {
        let mut v: Vec<u8> = Vec::new();
        v.push(114);
        v.push(105);
        v.push(115);
        v.push(99);
        v.push(118);
        v.push(54);
        v.push(52);
        v.push(103);
        v.push(99);
        v.push(45);
        v.push(117);
        v.push(110);
        v.push(107);
        v.push(110);
        v.push(111);
        v.push(119);
        v.push(110);
        v.push(45);
        v.push(102);
        v.push(114);
        v.push(101);
        v.push(101);
        v.push(98);
        v.push(115);
        v.push(100);
        proof {
            assert(v@ =~= seq![114u8, 105u8, 115u8, 99u8, 118u8, 54u8, 52u8, 103u8, 99u8, 45u8, 117u8, 110u8, 107u8, 110u8, 111u8, 119u8, 110u8, 45u8, 102u8, 114u8, 101u8, 101u8, 98u8, 115u8, 100u8]);
        }
        if crate::bytes::bytes_eq(t, v.as_slice()) {
            return true;
        }
    }
    {
        let mut v: Vec<u8> = Vec::new();
        v.push(114);
        v.push(105);
        v.push(115);
        v.push(99);
        v.push(118);
        v.push(54);
        v.push(52);
        v.push(103);
        v.push(99);
        v.push(45);
        v.push(117);
        v.push(110);
        v.push(107);
        v.push(110);
        v.push(111);
        v.push(119);
        v.push(110);
        v.push(45);
        v.push(108);
        v.push(105);
        v.push(110);
        v.push(117);
        v.push(120);
        v.push(45);
        v.push(109);
        v.push(117);
        v.push(115);
        v.push(108);
        proof {
            assert(v@ =~= seq![114u8, 105u8, 115u8, 99u8, 118u8, 54u8, 52u8, 103u8, 99u8, 45u8, 117u8, 110u8, 107u8, 110u8, 111u8, 119u8, 110u8, 45u8, 108u8, 105u8, 110u8, 117u8, 120u8, 45u8, 109u8, 117u8, 115u8, 108u8]);
        }
        if crate::bytes::bytes_eq(t, v.as_slice()) {
            return true;
        }
    }
    {
        let mut v: Vec<u8> = Vec::new();
        v.push(114);
        v.push(105);
        v.push(115);
        v.push(99);
        v.push(118);
        v.push(54);
        v.push(52);
        v.push(103);
        v.push(99);
        v.push(45);
        v.push(117);
        v.push(110);
        v.push(107);
        v.push(110);
        v.push(111);
        v.push(119);
        v.push(110);
        v.push(45);
        v.push(111);
        v.push(112);
        v.push(101);
        v.push(110);
        v.push(98);
        v.push(115);
        v.push(100);
        proof {
            assert(v@ =~= seq![114u8, 105u8, 115u8, 99u8, 118u8, 54u8, 52u8, 103u8, 99u8, 45u8, 117u8, 110u8, 107u8, 110u8, 111u8, 119u8, 110u8, 45u8, 111u8, 112u8, 101u8, 110u8, 98u8, 115u8, 100u8]);
        }
        if crate::bytes::bytes_eq(t, v.as_slice()) {
            return true;
        }
    }
    {
        let mut v: Vec<u8> = Vec::new();
        v.push(115);
        v.push(51);
        v.push(57);
        v.push(48);
        v.push(120);
        v.push(45);
        v.push(117);
        v.push(110);
        v.push(107);
        v.push(110);
        v.push(111);
        v.push(119);
        v.push(110);
        v.push(45);
        v.push(108);
        v.push(105);
        v.push(110);
        v.push(117);
        v.push(120);
        v.push(45);
        v.push(109);
        v.push(117);
        v.push(115);
        v.push(108);
        proof {
            assert(v@ =~= seq![115u8, 51u8, 57u8, 48u8, 120u8, 45u8, 117u8, 110u8, 107u8, 110u8, 111u8, 119u8, 110u8, 45u8, 108u8, 105u8, 110u8, 117u8, 120u8, 45u8, 109u8, 117u8, 115u8, 108u8]);
        }
        if crate::bytes::bytes_eq(t, v.as_slice()) {
            return true;
        }
    }
    {
        let mut v: Vec<u8> = Vec::new();
        v.push(115);
        v.push(112);
        v.push(97);
        v.push(114);
        v.push(99);
        v.push(45);
        v.push(117);
        v.push(110);
        v.push(107);
        v.push(110);
        v.push(111);
        v.push(119);
        v.push(110);
        v.push(45);
        v.push(108);
        v.push(105);
        v.push(110);
        v.push(117);
        v.push(120);
        v.push(45);
        v.push(103);
        v.push(110);
        v.push(117);
        proof {
            assert(v@ =~= seq![115u8, 112u8, 97u8, 114u8, 99u8, 45u8, 117u8, 110u8, 107u8, 110u8, 111u8, 119u8, 110u8, 45u8, 108u8, 105u8, 110u8, 117u8, 120u8, 45u8, 103u8, 110u8, 117u8]);
        }
        if crate::bytes::bytes_eq(t, v.as_slice()) {
            return true;
        }
    }
    {
        let mut v: Vec<u8> = Vec::new();
        v.push(115);
        v.push(112);
        v.push(97);
        v.push(114);
        v.push(99);
        v.push(54);
        v.push(52);
        v.push(45);
        v.push(117);
        v.push(110);
        v.push(107);
        v.push(110);
        v.push(111);
        v.push(119);
        v.push(110);
        v.push(45);
        v.push(110);
        v.push(101);
        v.push(116);
        v.push(98);
        v.push(115);
        v.push(100);
        proof {
            assert(v@ =~= seq![115u8, 112u8, 97u8, 114u8, 99u8, 54u8, 52u8, 45u8, 117u8, 110u8, 107u8, 110u8, 111u8, 119u8, 110u8, 45u8, 110u8, 101u8, 116u8, 98u8, 115u8, 100u8]);
        }
        if crate::bytes::bytes_eq(t, v.as_slice()) {
            return true;
        }
    }
    false
}

/// One slice of the supported-target list.
pub open spec fn spec_targets_group30(t: Seq<u8>) -> bool {
    t == seq![115u8, 112u8, 97u8, 114u8, 99u8, 54u8, 52u8, 45u8, 117u8, 110u8, 107u8, 110u8, 111u8, 119u8, 110u8, 45u8, 111u8, 112u8, 101u8, 110u8, 98u8, 115u8, 100u8]
    || t == seq![116u8, 104u8, 117u8, 109u8, 98u8, 118u8, 52u8, 116u8, 45u8, 110u8, 111u8, 110u8, 101u8, 45u8, 101u8, 97u8, 98u8, 105u8]
    || t == seq![116u8, 104u8, 117u8, 109u8, 98u8, 118u8, 53u8, 116u8, 101u8, 45u8, 110u8, 111u8, 110u8, 101u8, 45u8, 101u8, 97u8, 98u8, 105u8]
    || t == seq![116u8, 104u8, 117u8, 109u8, 98u8, 118u8, 55u8, 97u8, 45u8, 112u8, 99u8, 45u8, 119u8, 105u8, 110u8, 100u8, 111u8, 119u8, 115u8, 45u8, 109u8, 115u8, 118u8, 99u8]
    || t == seq![116u8, 104u8, 117u8, 109u8, 98u8, 118u8, 55u8, 97u8, 45u8, 117u8, 119u8, 112u8, 45u8, 119u8, 105u8, 110u8, 100u8, 111u8, 119u8, 115u8, 45u8, 109u8, 115u8, 118u8, 99u8]
    || t == seq![116u8, 104u8, 117u8, 109u8, 98u8, 118u8, 55u8, 110u8, 101u8, 111u8, 110u8, 45u8, 117u8, 110u8, 107u8, 110u8, 111u8, 119u8, 110u8, 45u8, 108u8, 105u8, 110u8, 117u8, 120u8, 45u8, 109u8, 117u8, 115u8, 108u8, 101u8, 97u8, 98u8, 105u8, 104u8, 102u8]
}

#[verifier::spinoff_prover]
#[verifier::rlimit(100)]
fn targets_group30(t: &[u8]) -> (r: bool)
    ensures
        r == spec_targets_group30(t@),
{
    {
        let mut v: Vec<u8> = Vec::new();
        v.push(115);
        v.push(112);
        v.push(97);
        v.push(114);
        v.push(99);
        v.push(54);
        v.push(52);
        v.push(45);
        v.push(117);
        v.push(110);
        v.push(107);
        v.push(110);
        v.push(111);
        v.push(119);
        v.push(110);
        v.push(45);
        v.push(111);
        v.push(112);
        v.push(101);
        v.push(110);
        v.push(98);
        v.push(115);
        v.push(100);
        proof {
            assert(v@ =~= seq![115u8, 112u8, 97u8, 114u8, 99u8, 54u8, 52u8, 45u8, 117u8, 110u8, 107u8, 110u8, 111u8, 119u8, 110u8, 45u8, 111u8, 112u8, 101u8, 110u8, 98u8, 115u8, 100u8]);
        }
        if crate::bytes::bytes_eq(t, v.as_slice()) {
            return true;
        }
    }
    {
        let mut v: Vec<u8> = Vec::new();
        v.push(116);
        v.push(104);
        v.push(117);
        v.push(109);
        v.push(98);
        v.push(118);
        v.push(52);
        v.push(116);
        v.push(45);
        v.push(110);
        v.push(111);
        v.push(110);
        v.push(101);
        v.push(45);
        v.push(101);
        v.push(97);
        v.push(98);
        v.push(105);
        proof {
            assert(v@ =~= seq![116u8, 104u8, 117u8, 109u8, 98u8, 118u8, 52u8, 116u8, 45u8, 110u8, 111u8, 110u8, 101u8, 45u8, 101u8, 97u8, 98u8, 105u8]);
        }
        if crate::bytes::bytes_eq(t, v.as_slice()) {
            return true;
        }
    }
    {
        let mut v: Vec<u8> = Vec::new();
        v.push(116);
        v.push(104);
        v.push(117);
        v.push(109);
        v.push(98);
        v.push(118);
        v.push(53);
        v.push(116);
        v.push(101);
        v.push(45);
        v.push(110);
        v.push(111);
        v.push(110);
        v.push(101);
        v.push(45);
        v.push(101);
        v.push(97);
        v.push(98);
        v.push(105);
        proof {
            assert(v@ =~= seq![116u8, 104u8, 117u8, 109u8, 98u8, 118u8, 53u8, 116u8, 101u8, 45u8, 110u8, 111u8, 110u8, 101u8, 45u8, 101u8, 97u8, 98u8, 105u8]);
        }
        if crate::bytes::bytes_eq(t, v.as_slice()) {
            return true;
        }
    }
    {
        let mut v: Vec<u8> = Vec::new();
        v.push(116);
        v.push(104);
        v.push(117);
        v.push(109);
        v.push(98);
        v.push(118);
        v.push(55);
        v.push(97);
        v.push(45);
        v.push(112);
        v.push(99);
        v.push(45);
        v.push(119);
        v.push(105);
        v.push(110);
        v.push(100);
        v.push(111);
        v.push(119);
        v.push(115);
        v.push(45);
        v.push(109);
        v.push(115);
        v.push(118);
        v.push(99);
        proof {
            assert(v@ =~= seq![116u8, 104u8, 117u8, 109u8, 98u8, 118u8, 55u8, 97u8, 45u8, 112u8, 99u8, 45u8, 119u8, 105u8, 110u8, 100u8, 111u8, 119u8, 115u8, 45u8, 109u8, 115u8, 118u8, 99u8]);
        }
        if crate::bytes::bytes_eq(t, v.as_slice()) {
            return true;
        }
    }
    {
        let mut v: Vec<u8> = Vec::new();
        v.push(116);
        v.push(104);
        v.push(117);
        v.push(109);
        v.push(98);
        v.push(118);
        v.push(55);
        v.push(97);
        v.push(45);
        v.push(117);
        v.push(119);
        v.push(112);
        v.push(45);
        v.push(119);
        v.push(105);
        v.push(110);
        v.push(100);
        v.push(111);
        v.push(119);
        v.push(115);
        v.push(45);
        v.push(109);
        v.push(115);
        v.push(118);
        v.push(99);
        proof {
            assert(v@ =~= seq![116u8, 104u8, 117u8, 109u8, 98u8, 118u8, 55u8, 97u8, 45u8, 117u8, 119u8, 112u8, 45u8, 119u8, 105u8, 110u8, 100u8, 111u8, 119u8, 115u8, 45u8, 109u8, 115u8, 118u8, 99u8]);
        }
        if crate::bytes::bytes_eq(t, v.as_slice()) {
            return true;
        }
    }
    {
        let mut v: Vec<u8> = Vec::new();
        v.push(116);
        v.push(104);
        v.push(117);
        v.push(109);
        v.push(98);
        v.push(118);
        v.push(55);
        v.push(110);
        v.push(101);
        v.push(111);
        v.push(110);
        v.push(45);
        v.push(117);
        v.push(110);
        v.push(107);
        v.push(110);
        v.push(111);
        v.push(119);
        v.push(110);
        v.push(45);
        v.push(108);
        v.push(105);
        v.push(110);
        v.push(117);
        v.push(120);
        v.push(45);
        v.push(109);
        v.push(117);
        v.push(115);
        v.push(108);
        v.push(101);
        v.push(97);
        v.push(98);
        v.push(105);
        v.push(104);
        v.push(102);
        proof {
            assert(v@ =~= seq![116u8, 104u8, 117u8, 109u8, 98u8, 118u8, 55u8, 110u8, 101u8, 111u8, 110u8, 45u8, 117u8, 110u8, 107u8, 110u8, 111u8, 119u8, 110u8, 45u8, 108u8, 105u8, 110u8, 117u8, 120u8, 45u8, 109u8, 117u8, 115u8, 108u8, 101u8, 97u8, 98u8, 105u8, 104u8, 102u8]);
        }
        if crate::bytes::bytes_eq(t, v.as_slice()) {
            return true;
        }
    }
    false
}

/// One slice of the supported-target list.
pub open spec fn spec_targets_group31(t: Seq<u8>) -> bool {
    t == seq![119u8, 97u8, 115u8, 109u8, 54u8, 52u8, 45u8, 117u8, 110u8, 107u8, 110u8, 111u8, 119u8, 110u8, 45u8, 117u8, 110u8, 107u8, 110u8, 111u8, 119u8, 110u8]
    || t == seq![120u8, 56u8, 54u8, 95u8, 54u8, 52u8, 45u8, 97u8, 112u8, 112u8, 108u8, 101u8, 45u8, 105u8, 111u8, 115u8, 45u8, 109u8, 97u8, 99u8, 97u8, 98u8, 105u8]
    || t == seq![120u8, 56u8, 54u8, 95u8, 54u8, 52u8, 45u8, 97u8, 112u8, 112u8, 108u8, 101u8, 45u8, 116u8, 118u8, 111u8, 115u8]
    || t == seq![120u8, 56u8, 54u8, 95u8, 54u8, 52u8, 45u8, 97u8, 112u8, 112u8, 108u8, 101u8, 45u8, 119u8, 97u8, 116u8, 99u8, 104u8, 111u8, 115u8, 45u8, 115u8, 105u8, 109u8]
    || t == seq![120u8, 56u8, 54u8, 95u8, 54u8, 52u8, 45u8, 112u8, 99u8, 45u8, 110u8, 116u8, 111u8, 45u8, 113u8, 110u8, 120u8, 55u8, 49u8, 48u8]
    || t == seq![120u8, 56u8, 54u8, 95u8, 54u8, 52u8, 45u8, 115u8, 117u8, 110u8, 45u8, 115u8, 111u8, 108u8, 97u8, 114u8, 105u8, 115u8]
}

#[verifier::spinoff_prover]
#[verifier::rlimit(100)]
fn targets_group31(t: &[u8]) -> (r: bool)
    ensures
        r == spec_targets_group31(t@),
{
    {
        let mut v: Vec<u8> = Vec::new();
        v.push(119);
        v.push(97);
        v.push(115);
        v.push(109);
        v.push(54);
        v.push(52);
        v.push(45);
        v.push(117);
        v.push(110);
        v.push(107);
        v.push(110);
        v.push(111);
        v.push(119);
        v.push(110);
        v.push(45);
        v.push(117);
        v.push(110);
        v.push(107);
        v.push(110);
        v.push(111);
        v.push(119);
        v.push(110);
        proof {
            assert(v@ =~= seq![119u8, 97u8, 115u8, 109u8, 54u8, 52u8, 45u8, 117u8, 110u8, 107u8, 110u8, 111u8, 119u8, 110u8, 45u8, 117u8, 110u8, 107u8, 110u8, 111u8, 119u8, 110u8]);
        }
        if crate::bytes::bytes_eq(t, v.as_slice()) {
            return true;
        }
    }
    {
        let mut v: Vec<u8> = Vec::new();
        v.push(120);
        v.push(56);
        v.push(54);
        v.push(95);
        v.push(54);
        v.push(52);
        v.push(45);
        v.push(97);
        v.push(112);
        v.push(112);
        v.push(108);
        v.push(101);
        v.push(45);
        v.push(105);
        v.push(111);
        v.push(115);
        v.push(45);
        v.push(109);
        v.push(97);
        v.push(99);
        v.push(97);
        v.push(98);
        v.push(105);
        proof {
            assert(v@ =~= seq![120u8, 56u8, 54u8, 95u8, 54u8, 52u8, 45u8, 97u8, 112u8, 112u8, 108u8, 101u8, 45u8, 105u8, 111u8, 115u8, 45u8, 109u8, 97u8, 99u8, 97u8, 98u8, 105u8]);
        }
        if crate::bytes::bytes_eq(t, v.as_slice()) {
            return true;
        }
    }
    {
        let mut v: Vec<u8> = Vec::new();
        v.push(120);
        v.push(56);
        v.push(54);
        v.push(95);
        v.push(54);
        v.push(52);
        v.push(45);
        v.push(97);
        v.push(112);
        v.push(112);
        v.push(108);
        v.push(101);
        v.push(45);
        v.push(116);
        v.push(118);
        v.push(111);
        v.push(115);
        proof {
            assert(v@ =~= seq![120u8, 56u8, 54u8, 95u8, 54u8, 52u8, 45u8, 97u8, 112u8, 112u8, 108u8, 101u8, 45u8, 116u8, 118u8, 111u8, 115u8]);
        }
        if crate::bytes::bytes_eq(t, v.as_slice()) {
            return true;
        }
    }
    {
        let mut v: Vec<u8> = Vec::new();
        v.push(120);
        v.push(56);
        v.push(54);
        v.push(95);
        v.push(54);
        v.push(52);
        v.push(45);
        v.push(97);
        v.push(112);
        v.push(112);
        v.push(108);
        v.push(101);
        v.push(45);
        v.push(119);
        v.push(97);
        v.push(116);
        v.push(99);
        v.push(104);
        v.push(111);
        v.push(115);
        v.push(45);
        v.push(115);
        v.push(105);
        v.push(109);
        proof {
            assert(v@ =~= seq![120u8, 56u8, 54u8, 95u8, 54u8, 52u8, 45u8, 97u8, 112u8, 112u8, 108u8, 101u8, 45u8, 119u8, 97u8, 116u8, 99u8, 104u8, 111u8, 115u8, 45u8, 115u8, 105u8, 109u8]);
        }
        if crate::bytes::bytes_eq(t, v.as_slice()) {
            return true;
        }
    }
    {
        let mut v: Vec<u8> = Vec::new();
        v.push(120);
        v.push(56);
        v.push(54);
        v.push(95);
        v.push(54);
        v.push(52);
        v.push(45);
        v.push(112);
        v.push(99);
        v.push(45);
        v.push(110);
        v.push(116);
        v.push(111);
        v.push(45);
        v.push(113);
        v.push(110);
        v.push(120);
        v.push(55);
        v.push(49);
        v.push(48);
        proof {
            assert(v@ =~= seq![120u8, 56u8, 54u8, 95u8, 54u8, 52u8, 45u8, 112u8, 99u8, 45u8, 110u8, 116u8, 111u8, 45u8, 113u8, 110u8, 120u8, 55u8, 49u8, 48u8]);
        }
        if crate::bytes::bytes_eq(t, v.as_slice()) {
            return true;
        }
    }
    {
        let mut v: Vec<u8> = Vec::new();
        v.push(120);
        v.push(56);
        v.push(54);
        v.push(95);
        v.push(54);
        v.push(52);
        v.push(45);
        v.push(115);
        v.push(117);
        v.push(110);
        v.push(45);
        v.push(115);
        v.push(111);
        v.push(108);
        v.push(97);
        v.push(114);
        v.push(105);
        v.push(115);
        proof {
            assert(v@ =~= seq![120u8, 56u8, 54u8, 95u8, 54u8, 52u8, 45u8, 115u8, 117u8, 110u8, 45u8, 115u8, 111u8, 108u8, 97u8, 114u8, 105u8, 115u8]);
        }
        if crate::bytes::bytes_eq(t, v.as_slice()) {
            return true;
        }
    }
    false
}

/// One slice of the supported-target list.
pub open spec fn spec_targets_group32(t: Seq<u8>) -> bool {
    t == seq![120u8, 56u8, 54u8, 95u8, 54u8, 52u8, 45u8, 117u8, 110u8, 107u8, 110u8, 111u8, 119u8, 110u8, 45u8, 100u8, 114u8, 97u8, 103u8, 111u8, 110u8, 102u8, 108u8, 121u8]
    || t == seq![120u8, 56u8, 54u8, 95u8, 54u8, 52u8, 45u8, 117u8, 110u8, 107u8, 110u8, 111u8, 119u8, 110u8, 45u8, 104u8, 97u8, 105u8, 107u8, 117u8]
    || t == seq![120u8, 56u8, 54u8, 95u8, 54u8, 52u8, 45u8, 117u8, 110u8, 107u8, 110u8, 111u8, 119u8, 110u8, 45u8, 104u8, 101u8, 114u8, 109u8, 105u8, 116u8]
    || t == seq![120u8, 56u8, 54u8, 95u8, 54u8, 52u8, 45u8, 117u8, 110u8, 107u8, 110u8, 111u8, 119u8, 110u8, 45u8, 108u8, 52u8, 114u8, 101u8, 45u8, 117u8, 99u8, 108u8, 105u8, 98u8, 99u8]
    || t == seq![120u8, 56u8, 54u8, 95u8, 54u8, 52u8, 45u8, 117u8, 110u8, 107u8, 110u8, 111u8, 119u8, 110u8, 45u8, 111u8, 112u8, 101u8, 110u8, 98u8, 115u8, 100u8]
    || t == seq![120u8, 56u8, 54u8, 95u8, 54u8, 52u8, 45u8, 117u8, 119u8, 112u8, 45u8, 119u8, 105u8, 110u8, 100u8, 111u8, 119u8, 115u8, 45u8, 103u8, 110u8, 117u8]
}

#[verifier::spinoff_prover]
#[verifier::rlimit(100)]
fn targets_group32(t: &[u8]) -> (r: bool)
    ensures
        r == spec_targets_group32(t@),
{
    {
        let mut v: Vec<u8> = Vec::new();
        v.push(120);
        v.push(56);
        v.push(54);
        v.push(95);
        v.push(54);
        v.push(52);
        v.push(45);
        v.push(117);
        v.push(110);
        v.push(107);
        v.push(110);
        v.push(111);
        v.push(119);
        v.push(110);
        v.push(45);
        v.push(100);
        v.push(114);
        v.push(97);
        v.push(103);
        v.push(111);
        v.push(110);
        v.push(102);
        v.push(108);
        v.push(121);
        proof {
            assert(v@ =~= seq![120u8, 56u8, 54u8, 95u8, 54u8, 52u8, 45u8, 117u8, 110u8, 107u8, 110u8, 111u8, 119u8, 110u8, 45u8, 100u8, 114u8, 97u8, 103u8, 111u8, 110u8, 102u8, 108u8, 121u8]);
        }
        if crate::bytes::bytes_eq(t, v.as_slice()) {
            return true;
        }
    }
    {
        let mut v: Vec<u8> = Vec::new();
        v.push(120);
        v.push(56);
        v.push(54);
        v.push(95);
        v.push(54);
        v.push(52);
        v.push(45);
        v.push(117);
        v.push(110);
        v.push(107);
        v.push(110);
        v.push(111);
        v.push(119);
        v.push(110);
        v.push(45);
        v.push(104);
        v.push(97);
        v.push(105);
        v.push(107);
        v.push(117);
        proof {
            assert(v@ =~= seq![120u8, 56u8, 54u8, 95u8, 54u8, 52u8, 45u8, 117u8, 110u8, 107u8, 110u8, 111u8, 119u8, 110u8, 45u8, 104u8, 97u8, 105u8, 107u8, 117u8]);
        }
        if crate::bytes::bytes_eq(t, v.as_slice()) {
            return true;
        }
    }
    {
        let mut v: Vec<u8> = Vec::new();
        v.push(120);
        v.push(56);
        v.push(54);
        v.push(95);
        v.push(54);
        v.push(52);
        v.push(45);
        v.push(117);
        v.push(110);
        v.push(107);
        v.push(110);
        v.push(111);
        v.push(119);
        v.push(110);
        v.push(45);
        v.push(104);
        v.push(101);
        v.push(114);
        v.push(109);
        v.push(105);
        v.push(116);
        proof {
            assert(v@ =~= seq![120u8, 56u8, 54u8, 95u8, 54u8, 52u8, 45u8, 117u8, 110u8, 107u8, 110u8, 111u8, 119u8, 110u8, 45u8, 104u8, 101u8, 114u8, 109u8, 105u8, 116u8]);
        }
        if crate::bytes::bytes_eq(t, v.as_slice()) {
            return true;
        }
    }
    {
        let mut v: Vec<u8> = Vec::new();
        v.push(120);
        v.push(56);
        v.push(54);
        v.push(95);
        v.push(54);
        v.push(52);
        v.push(45);
        v.push(117);
        v.push(110);
        v.push(107);
        v.push(110);
        v.push(111);
        v.push(119);
        v.push(110);
        v.push(45);
        v.push(108);
        v.push(52);
        v.push(114);
        v.push(101);
        v.push(45);
        v.push(117);
        v.push(99);
        v.push(108);
        v.push(105);
        v.push(98);
        v.push(99);
        proof {
            assert(v@ =~= seq![120u8, 56u8, 54u8, 95u8, 54u8, 52u8, 45u8, 117u8, 110u8, 107u8, 110u8, 111u8, 119u8, 110u8, 45u8, 108u8, 52u8, 114u8, 101u8, 45u8, 117u8, 99u8, 108u8, 105u8, 98u8, 99u8]);
        }
        if crate::bytes::bytes_eq(t, v.as_slice()) {
            return true;
        }
    }
    {
        let mut v: Vec<u8> = Vec::new();
        v.push(120);
        v.push(56);
        v.push(54);
        v.push(95);
        v.push(54);
        v.push(52);
        v.push(45);
        v.push(117);
        v.push(110);
        v.push(107);
        v.push(110);
        v.push(111);
        v.push(119);
        v.push(110);
        v.push(45);
        v.push(111);
        v.push(112);
        v.push(101);
        v.push(110);
        v.push(98);
        v.push(115);
        v.push(100);
        proof {
            assert(v@ =~= seq![120u8, 56u8, 54u8, 95u8, 54u8, 52u8, 45u8, 117u8, 110u8, 107u8, 110u8, 111u8, 119u8, 110u8, 45u8, 111u8, 112u8, 101u8, 110u8, 98u8, 115u8, 100u8]);
        }
        if crate::bytes::bytes_eq(t, v.as_slice()) {
            return true;
        }
    }
    {
        let mut v: Vec<u8> = Vec::new();
        v.push(120);
        v.push(56);
        v.push(54);
        v.push(95);
        v.push(54);
        v.push(52);
        v.push(45);
        v.push(117);
        v.push(119);
        v.push(112);
        v.push(45);
        v.push(119);
        v.push(105);
        v.push(110);
        v.push(100);
        v.push(111);
        v.push(119);
        v.push(115);
        v.push(45);
        v.push(103);
        v.push(110);
        v.push(117);
        proof {
            assert(v@ =~= seq![120u8, 56u8, 54u8, 95u8, 54u8, 52u8, 45u8, 117u8, 119u8, 112u8, 45u8, 119u8, 105u8, 110u8, 100u8, 111u8, 119u8, 115u8, 45u8, 103u8, 110u8, 117u8]);
        }
        if crate::bytes::bytes_eq(t, v.as_slice()) {
            return true;
        }
    }
    false
}

/// One slice of the supported-target list.
pub open spec fn spec_targets_group33(t: Seq<u8>) -> bool {
    t == seq![120u8, 56u8, 54u8, 95u8, 54u8, 52u8, 45u8, 117u8, 119u8, 112u8, 45u8, 119u8, 105u8, 110u8, 100u8, 111u8, 119u8, 115u8, 45u8, 109u8, 115u8, 118u8, 99u8]
    || t == seq![120u8, 56u8, 54u8, 95u8, 54u8, 52u8, 45u8, 119u8, 114u8, 115u8, 45u8, 118u8, 120u8, 119u8, 111u8, 114u8, 107u8, 115u8]
}

#[verifier::spinoff_prover]
#[verifier::rlimit(100)]
fn targets_group33(t: &[u8]) -> (r: bool)
    ensures
        r == spec_targets_group33(t@),
{
    {
        let mut v: Vec<u8> = Vec::new();
        v.push(120);
        v.push(56);
        v.push(54);
        v.push(95);
        v.push(54);
        v.push(52);
        v.push(45);
        v.push(117);
        v.push(119);
        v.push(112);
        v.push(45);
        v.push(119);
        v.push(105);
        v.push(110);
        v.push(100);
        v.push(111);
        v.push(119);
        v.push(115);
        v.push(45);
        v.push(109);
        v.push(115);
        v.push(118);
        v.push(99);
        proof {
            assert(v@ =~= seq![120u8, 56u8, 54u8, 95u8, 54u8, 52u8, 45u8, 117u8, 119u8, 112u8, 45u8, 119u8, 105u8, 110u8, 100u8, 111u8, 119u8, 115u8, 45u8, 109u8, 115u8, 118u8, 99u8]);
        }
        if crate::bytes::bytes_eq(t, v.as_slice()) {
            return true;
        }
    }
    {
        let mut v: Vec<u8> = Vec::new();
        v.push(120);
        v.push(56);
        v.push(54);
        v.push(95);
        v.push(54);
        v.push(52);
        v.push(45);
        v.push(119);
        v.push(114);
        v.push(115);
        v.push(45);
        v.push(118);
        v.push(120);
        v.push(119);
        v.push(111);
        v.push(114);
        v.push(107);
        v.push(115);
        proof {
            assert(v@ =~= seq![120u8, 56u8, 54u8, 95u8, 54u8, 52u8, 45u8, 119u8, 114u8, 115u8, 45u8, 118u8, 120u8, 119u8, 111u8, 114u8, 107u8, 115u8]);
        }
        if crate::bytes::bytes_eq(t, v.as_slice()) {
            return true;
        }
    }
    false
}

/// Is the triple one the build engine knows?
pub open spec fn spec_valid_target(t: Seq<u8>) -> bool {
    spec_targets_group0(t)
    || spec_targets_group1(t)
    || spec_targets_group2(t)
    || spec_targets_group3(t)
    || spec_targets_group4(t)
    || spec_targets_group5(t)
    || spec_targets_group6(t)
    || spec_targets_group7(t)
    || spec_targets_group8(t)
    || spec_targets_group9(t)
    || spec_targets_group10(t)
    || spec_targets_group11(t)
    || spec_targets_group12(t)
    || spec_targets_group13(t)
    || spec_targets_group14(t)
    || spec_targets_group15(t)
    || spec_targets_group16(t)
    || spec_targets_group17(t)
    || spec_targets_group18(t)
    || spec_targets_group19(t)
    || spec_targets_group20(t)
    || spec_targets_group21(t)
    || spec_targets_group22(t)
    || spec_targets_group23(t)
    || spec_targets_group24(t)
    || spec_targets_group25(t)
    || spec_targets_group26(t)
    || spec_targets_group27(t)
    || spec_targets_group28(t)
    || spec_targets_group29(t)
    || spec_targets_group30(t)
    || spec_targets_group31(t)
    || spec_targets_group32(t)
    || spec_targets_group33(t)
}

/// Validate a target triple against the supported list.
pub fn validate_target(t: &[u8]) -> (r: bool)
    ensures
        r == spec_valid_target(t@),
{
    if targets_group0(t) {
        return true;
    }
    if targets_group1(t) {
        return true;
    }
    if targets_group2(t) {
        return true;
    }
    if targets_group3(t) {
        return true;
    }
    if targets_group4(t) {
        return true;
    }
    if targets_group5(t) {
        return true;
    }
    if targets_group6(t) {
        return true;
    }
    if targets_group7(t) {
        return true;
    }
    if targets_group8(t) {
        return true;
    }
    if targets_group9(t) {
        return true;
    }
    if targets_group10(t) {
        return true;
    }
    if targets_group11(t) {
        return true;
    }
    if targets_group12(t) {
        return true;
    }
    if targets_group13(t) {
        return true;
    }
    if targets_group14(t) {
        return true;
    }
    if targets_group15(t) {
        return true;
    }
    if targets_group16(t) {
        return true;
    }
    if targets_group17(t) {
        return true;
    }
    if targets_group18(t) {
        return true;
    }
    if targets_group19(t) {
        return true;
    }
    if targets_group20(t) {
        return true;
    }
    if targets_group21(t) {
        return true;
    }
    if targets_group22(t) {
        return true;
    }
    if targets_group23(t) {
        return true;
    }
    if targets_group24(t) {
        return true;
    }
    if targets_group25(t) {
        return true;
    }
    if targets_group26(t) {
        return true;
    }
    if targets_group27(t) {
        return true;
    }
    if targets_group28(t) {
        return true;
    }
    if targets_group29(t) {
        return true;
    }
    if targets_group30(t) {
        return true;
    }
    if targets_group31(t) {
        return true;
    }
    if targets_group32(t) {
        return true;
    }
    if targets_group33(t) {
        return true;
    }
    false
}

/// What `rustc -Vv` reports about the host.
#[derive(Debug, Clone)]
pub struct RustcTarget {
    target: Vec<u8>,
    cfgs: Vec<Vec<u8>>,
}

impl RustcTarget {
    /// The reported triple, at spec level.
    pub closed spec fn spec_target(&self) -> Seq<u8> {
        self.target@
    }

    /// Wrap a detected triple and cfg list.
    pub fn new(target: Vec<u8>, cfgs: Vec<Vec<u8>>) -> (r: Self)
        ensures
            r.spec_target() == target@,
    {
        RustcTarget { target, cfgs }
    }

    /// The reported triple.
    pub fn target(&self) -> (r: &Vec<u8>)
        ensures
            r@ == self.spec_target(),
    {
        &self.target
    }

    /// The reported cfg lines.
    pub fn cfgs(&self) -> (r: &Vec<Vec<u8>>)
    {
        &self.cfgs
    }
}

/// `host: `
pub open spec fn spec_host_prefix() -> Seq<u8> {
    seq![104u8, 111u8, 115u8, 116u8, 58u8, 32u8]
}

/// Pick the host triple out of a compiler's verbose version
/// report: the remainder of the first line starting `host: `.
pub fn parse_host_line(output: &[u8]) -> (r: Option<Vec<u8>>)
    ensures
        match r {
            Some(t) => exists|j: int| #![auto] 0 <= j
                < crate::output::spec_stream_lines(output@).len()
                && crate::bytes::starts_with_spec(
                    crate::output::spec_stream_lines(output@)[j], spec_host_prefix())
                && t@ == crate::output::spec_stream_lines(output@)[j]
                    .skip(spec_host_prefix().len() as int),
            None => true,
        },
{
    let lines = crate::output::split_stream_lines(output);
    let mut prefix: Vec<u8> = Vec::new();
    prefix.push(104);
    prefix.push(111);
    prefix.push(115);
    prefix.push(116);
    prefix.push(58);
    prefix.push(32);
    proof {
        assert(prefix@ =~= spec_host_prefix());
    }
    let n = lines.len();
    let mut i: usize = 0;
    while i < n
        invariant
            0 <= i <= n,
            n == lines@.len(),
            prefix@ == spec_host_prefix(),
            lines@.map_values(|l: Vec<u8>| l@)
                == crate::output::spec_stream_lines(output@),
        decreases n - i,
    {
        if crate::bytes::starts_with(lines[i].as_slice(), prefix.as_slice()) {
            let t = crate::bytes::sub_vec(lines[i].as_slice(), prefix.len(), lines[i].len());
            proof {
                let lv = lines@.map_values(|l: Vec<u8>| l@);
                assert(lv[i as int] == lines@[i as int]@);
                assert(t@ =~= lv[i as int].skip(spec_host_prefix().len() as int));
            }
            return Some(t);
        }
        i = i + 1;
    }
    None
}

} // verus!
