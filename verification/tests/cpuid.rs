use rvm::feature::{load_cpuid, query_host, CpuIdResult};
use rvm::structs::ExitReason;
use rvm::vcpu::GuestState;
use rvm::vmcs::AutoVmcs;
use rvm::vmexit::cpuid::{
    can_answer, compute_xsave_size, handle_cpuid, restrict_cpuid, vendor_id, xsave_size,
    VENDOR_STRING,
};
use rvm::vmexit::info::ExitInfo;

const BLANK: CpuIdResult = CpuIdResult { eax: 0, ebx: 0, ecx: 0, edx: 0 };
const FULL: CpuIdResult = CpuIdResult { eax: !0, ebx: !0, ecx: !0, edx: !0 };

fn vmcs(id: u16) -> AutoVmcs {
    AutoVmcs {
        virtual_processor_id: id,
        vm_exit_reason: 10,
        vm_exit_instruction_len: 2,
        vm_exit_intr_info: 0,
        cpu_based_vm_exec_control: 0,
        secondary_vm_exec_control: 0,
        guest_cs_ar_bytes: 0,
        guest_ia32_efer: 0,
        guest_physical_address: 0,
        exit_qualification: 0,
        guest_rip: 0x1000,
        guest_cs_base: 0,
    }
}

fn guest() -> GuestState {
    GuestState {
        rax: 0xaaaa_0000_0000_0000,
        rcx: 0xcccc_0000_0000_0000,
        rdx: 0xdddd,
        rbx: 0xbbbb,
        rbp: 1,
        rsi: 2,
        rdi: 3,
        r8: 8,
        r9: 9,
        r10: 10,
        r11: 11,
        r12: 12,
        r13: 13,
        r14: 14,
        r15: 15,
        cr2: 16,
        xcr0: 3,
    }
}

fn abcd(g: &GuestState) -> (u64, u64, u64, u64) {
    (g.rax, g.rbx, g.rcx, g.rdx)
}

fn restricted(leaf: u32, subleaf: u32, host: CpuIdResult, vmcs: &AutoVmcs) -> (u64, u64, u64, u64) {
    let mut g = guest();
    load_cpuid(host, &mut g);
    restrict_cpuid(leaf, subleaf, 0x340, vmcs, &mut g);
    abcd(&g)
}

fn emulate(leaf: u32, subleaf: u32) -> GuestState {
    let mut vmcs = vmcs(1);
    let mut g = guest();
    g.rax |= leaf as u64;
    g.rcx |= subleaf as u64;
    let before = g;
    let info = ExitInfo::from(&vmcs);
    assert_eq!(info.exit_reason, ExitReason::CPUID);
    assert_eq!(handle_cpuid(&info, &mut vmcs, &mut g), Ok(None));
    assert_eq!(vmcs.guest_rip, 0x1002);
    assert_eq!(GuestState { rax: before.rax, rbx: before.rbx, rcx: before.rcx, rdx: before.rdx, ..g }, before);
    assert!(g.rax >> 32 == 0 && g.rbx >> 32 == 0 && g.rcx >> 32 == 0 && g.rdx >> 32 == 0);
    g
}

#[test]
fn model_features_of_a_host_that_has_everything() {
    assert_eq!(
        restricted(1, 0, FULL, &vmcs(3)),
        (0xffff_ffff, 0x02ff_ffff, 0xffff_7ed7, 0xdfbf_ffff)
    );
}

#[test]
fn model_features_of_a_host_that_has_nothing() {
    assert_eq!(restricted(1, 0, BLANK, &vmcs(256)), (0, 0xff00_0000, 0x8020_0000, 0x800));
}

#[test]
fn topology_reports_the_number_of_the_processor() {
    assert_eq!(
        restricted(0xb, 1, FULL, &vmcs(0x1234)),
        (0xffff_ffff, 0xffff_ffff, 0xffff_ffff, 0x1233)
    );
}

#[test]
fn xsave_leaf_is_overridden_on_two_subleaves() {
    assert_eq!(
        restricted(0xd, 0, FULL, &vmcs(1)),
        (0xffff_ffff, 0x340, 0xffff_ffff, 0xffff_ffff)
    );
    assert_eq!(
        restricted(0xd, 1, FULL, &vmcs(1)),
        (0xffff_fff7, 0xffff_ffff, 0xffff_ffff, 0xffff_ffff)
    );
    assert_eq!(
        restricted(0xd, 2, FULL, &vmcs(1)),
        (0xffff_ffff, 0xffff_ffff, 0xffff_ffff, 0xffff_ffff)
    );
}

#[test]
fn thermal_features_are_hidden() {
    assert_eq!(
        restricted(6, 0, FULL, &vmcs(1)),
        (0xffff_f83e, 0xffff_ffff, 0xffff_fff6, 0xffff_ffff)
    );
}

#[test]
fn performance_monitoring_has_no_events() {
    assert_eq!(restricted(0xa, 0, FULL, &vmcs(1)), (0, 0x7f, 0, 0));
}

#[test]
fn monitor_leaf_is_blank() {
    assert_eq!(restricted(5, 0, FULL, &vmcs(1)), (0, 0, 0, 0));
}

#[test]
fn extended_features_show_invpcid_where_it_is_allowed() {
    assert_eq!(
        restricted(7, 0, FULL, &vmcs(1)),
        (0xffff_ffff, 0xfdff_fbff, 0xffff_ffff, 0x53ff_ffff)
    );
    let allowed = AutoVmcs { secondary_vm_exec_control: 0x1000, ..vmcs(1) };
    assert_eq!(
        restricted(7, 0, FULL, &allowed),
        (0xffff_ffff, 0xfdff_ffff, 0xffff_ffff, 0x53ff_ffff)
    );
}

#[test]
fn hypervisor_leaf_spells_the_vendor() {
    let g = emulate(0x4000_0000, 0);
    assert_eq!(g.rax, 0x4000_0001);
    let mut text: Vec<u8> = Vec::new();
    for register in [g.rbx, g.rcx, g.rdx] {
        text.extend_from_slice(&(register as u32).to_le_bytes());
    }
    assert_eq!(text, VENDOR_STRING.as_bytes());
    assert_eq!(text, b"KVMKVMKVM\0\0\0");
    assert_eq!(vendor_id(), [0x4b4d_564b, 0x564b_4d56, 0x4d]);
}

#[test]
fn kvm_features_are_blank() {
    assert_eq!(abcd(&emulate(0x4000_0001, 5)), (0, 0, 0, 0));
}

#[test]
fn base_leaves_come_from_the_host() {
    let host = query_host(0, 0);
    assert_ne!(host.ebx, 0);
    let expected = (host.eax as u64, host.ebx as u64, host.ecx as u64, host.edx as u64);
    assert_eq!(abcd(&emulate(0, 7)), expected);
    assert_eq!(emulate(0x8000_0000, 0).rax, query_host(0x8000_0000, 0).eax as u64);
}

#[test]
fn unsupported_leaves_are_answered_as_the_highest_basic_leaf() {
    let host = query_host(0x17, 0);
    let expected = (host.eax as u64, host.ebx as u64, host.ecx as u64, host.edx as u64);
    assert_eq!(abcd(&emulate(0x18, 0)), expected);
    assert_eq!(abcd(&emulate(0x4000_0002, 0)), expected);
    assert_eq!(abcd(&emulate(0x8000_001f, 0)), expected);
    assert_eq!(abcd(&emulate(0xffff_ffff, 0)), expected);
}

#[test]
fn model_features_on_this_host() {
    let g = emulate(1, 0);
    assert_eq!(g.rax, query_host(1, 0).eax as u64);
    assert_eq!(g.rbx >> 24, 0);
    assert_eq!(g.rcx & 0x8020_8128, 0x8020_0000);
    assert_eq!(g.rdx & 0x2040_0800, 0x800);
}

#[test]
fn answered_leaves() {
    for leaf in [0, 1, 5, 6, 7, 0xa, 0xb, 0xd, 0x18, 0x3fff_ffff, 0x4000_0000, 0x4000_0001, 0x8000_0000, 0x8000_001f] {
        assert!(can_answer(leaf, 1));
    }
    for leaf in [2, 3, 4, 8, 9, 0xc, 0xe, 0x17, 0x8000_0001, 0x8000_001e] {
        assert!(!can_answer(leaf, 1));
    }
    assert!(!can_answer(1, 0) && can_answer(1, 256) && !can_answer(1, 257));
    assert!(!can_answer(0xb, 0) && can_answer(0xb, 257));
}

#[test]
fn xsave_area_without_extensions() {
    assert_eq!(xsave_size(3, &[FULL; 8]), 576);
    assert_eq!(xsave_size(!0, &[BLANK; 8]), 576);
    assert_eq!(xsave_size(0xffff_ffff_ffff_fc03, &[FULL; 8]), 576);
    assert_eq!(compute_xsave_size(3), 576);
}

#[test]
fn xsave_area_ends_with_the_highest_component() {
    let mut leaves = [BLANK; 8];
    leaves[0] = CpuIdResult { eax: 256, ebx: 576, ecx: 0, edx: 0 };
    leaves[5] = CpuIdResult { eax: 1024, ebx: 1664, ecx: 0, edx: 0 };
    leaves[7] = CpuIdResult { eax: 8, ebx: 960, ecx: 0, edx: 0 };
    assert_eq!(xsave_size(0x7, &leaves), 832);
    assert_eq!(xsave_size(0x87, &leaves), 2688);
    assert_eq!(xsave_size(0x287, &leaves), 968);
    assert_eq!(xsave_size(0x103, &leaves), 576);
}

#[test]
fn xsave_component_with_a_flag_only_ends_at_zero() {
    let mut leaves = [BLANK; 8];
    leaves[2] = CpuIdResult { eax: 0, ebx: 0, ecx: 1, edx: 0 };
    assert_eq!(xsave_size(0x10, &leaves), 0);
}

#[test]
fn xsave_area_is_added_up_in_32_bits() {
    let mut leaves = [BLANK; 8];
    leaves[0] = CpuIdResult { eax: 0xffff_ffff, ebx: 3, ecx: 0, edx: 0 };
    assert_eq!(xsave_size(4, &leaves), 2);
}

#[test]
fn xsave_area_on_this_host() {
    let leaf = query_host(0xd, 2);
    let expected = if leaf == BLANK { 576 } else { leaf.ebx + leaf.eax };
    assert_eq!(compute_xsave_size(7), expected);
    let g = emulate(0xd, 0);
    assert_eq!(g.rbx, 576);
}
