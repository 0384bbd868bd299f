use drbug::reg_catalog::{register_info_by_id, RegisterId, RegisterType};
use drbug::reg_value::RegisterValue;
use drbug::registers::{FpRegs, Registers};
use drbug::error::DrbugError;

/// The 27 general-purpose record words in kernel field order, all zero.
fn zero_gprs() -> Vec<u64> {
    vec![0; 27]
}

fn zero_fprs() -> FpRegs {
    FpRegs {
        cwd: 0,
        swd: 0,
        ftw: 0,
        fop: 0,
        rip: 0,
        rdp: 0,
        mxcsr: 0,
        mxcr_mask: 0,
        st_space: vec![0; 32],
        xmm_space: vec![0; 64],
    }
}

#[test]
fn read_gpr_and_subregister_from_installed_block() {
    let mut regs = Registers::new(0);
    let mut words = zero_gprs();
    words[2] = 0xcafecafe; // r13 is the third record word (r15, r14, r13, ...)
    regs.install_gprs(&words);

    let r13 = register_info_by_id(&RegisterId::r13);
    assert_eq!(regs.read(&r13).unwrap(), RegisterValue::U64(0xcafecafe));

    // the low-byte alias reads the same storage, narrowed
    let r13b = register_info_by_id(&RegisterId::r13b);
    assert_eq!(regs.read(&r13b).unwrap(), RegisterValue::U8(0xfe));

    let mut words = zero_gprs();
    words[2] = 42;
    regs.install_gprs(&words);
    assert_eq!(regs.read(&r13b).unwrap(), RegisterValue::U8(42));
}

#[test]
fn read_vector_registers_from_installed_block() {
    let mut regs = Registers::new(0);
    let mut f = zero_fprs();
    f.st_space[0] = 0xba5eba11;
    f.st_space[1] = 0xba5eba11;
    let bits = 64.125f64.to_bits();
    f.xmm_space[0] = (bits & 0xffff_ffff) as u32;
    f.xmm_space[1] = (bits >> 32) as u32;
    regs.install_fprs(&f);

    let mm0 = register_info_by_id(&RegisterId::mm0);
    assert_eq!(
        regs.read(&mm0).unwrap(),
        RegisterValue::B64([0x11, 0xba, 0x5e, 0xba, 0x11, 0xba, 0x5e, 0xba])
    );

    // a vector register compares equal to the double whose bits it holds
    let xmm0 = register_info_by_id(&RegisterId::xmm0);
    assert_eq!(regs.read(&xmm0).unwrap(), RegisterValue::F64(bits));
}

#[test]
fn read_long_double_slot_is_unsupported() {
    let regs = Registers::new(0);
    let st0 = register_info_by_id(&RegisterId::st0);
    assert!(matches!(
        regs.read(&st0),
        Err(DrbugError::LongDoubleUnsupported)
    ));
}

#[test]
fn patch_then_read_round_trips_a_gpr() {
    let mut regs = Registers::new(0);
    let rsi = register_info_by_id(&RegisterId::rsi);
    regs.patch_value(&rsi, &RegisterValue::U64(0xcafecafe)).unwrap();
    assert_eq!(regs.read(&rsi).unwrap(), RegisterValue::U64(0xcafecafe));
}

#[test]
fn patch_then_read_round_trips_vector_aliases() {
    let mut regs = Registers::new(0);
    let mm0 = register_info_by_id(&RegisterId::mm0);
    regs.patch_value(&mm0, &RegisterValue::U64(0xba5eba11)).unwrap();
    // equal under the 128-bit byte comparison
    assert_eq!(regs.read(&mm0).unwrap(), RegisterValue::U64(0xba5eba11));

    let xmm0 = register_info_by_id(&RegisterId::xmm0);
    let bits = 42.24f64.to_bits();
    regs.patch_value(&xmm0, &RegisterValue::F64(bits)).unwrap();
    assert_eq!(regs.read(&xmm0).unwrap(), RegisterValue::F64(bits));
}

#[test]
fn patch_subregister_keeps_the_narrow_width() {
    let mut regs = Registers::new(0);
    let mut words = zero_gprs();
    words[10] = 0x1122334455667788; // rax
    regs.install_gprs(&words);

    let al = register_info_by_id(&RegisterId::al);
    regs.patch_value(&al, &RegisterValue::U8(0xaa)).unwrap();

    let rax = register_info_by_id(&RegisterId::rax);
    assert_eq!(
        regs.read(&rax).unwrap(),
        RegisterValue::U64(0x11223344556677aa)
    );
}

#[test]
fn oversize_write_is_rejected_and_changes_nothing() {
    let mut regs = Registers::new(0);
    let al = register_info_by_id(&RegisterId::al);
    assert!(matches!(
        regs.patch_value(&al, &RegisterValue::U64(0x1234)),
        Err(DrbugError::InvalidRegisterValue(_))
    ));
    assert_eq!(regs.read(&al).unwrap(), RegisterValue::U8(0));
}

#[test]
fn grouped_read_of_general_includes_exactly_the_general_class() {
    let regs = Registers::new(0);
    let group = regs.read_group(Some(RegisterType::General)).unwrap();
    let names: Vec<&str> = group.iter().map(|e| e.0).collect();
    assert_eq!(
        names,
        vec![
            "rax", "rdx", "rcx", "rbx", "rsi", "rdi", "rbp", "rsp", "r8", "r9", "r10", "r11",
            "r12", "r13", "r14", "r15", "rip", "eflags", "cs", "fs", "gs", "ss", "ds", "es",
            "orig_rax"
        ]
    );
    assert!(group.iter().all(|e| e.1.is_some()));
}

#[test]
fn grouped_read_of_everything_skips_only_long_double_values() {
    let regs = Registers::new(0);
    let group = regs.read_group(None).unwrap();
    assert_eq!(group.len(), 125);
    for (name, value) in &group {
        if name.starts_with("st") {
            assert!(value.is_none(), "{name} should have no value");
        } else {
            assert!(value.is_some(), "{name} should have a value");
        }
    }
}

#[test]
fn committing_to_a_missing_tracee_fails_but_patches_the_cache() {
    // pid 0 is no tracee: the kernel rejects the commit, while the cache
    // keeps the widened image, exactly as the write path promises
    let mut regs = Registers::new(0);
    let rsi = register_info_by_id(&RegisterId::rsi);
    match regs.write(&rsi, &RegisterValue::U64(0xcafecafe)) {
        Err(DrbugError::SyscallFailed(name, _)) => assert_eq!(name, "write_user"),
        other => panic!("expected SyscallFailed, got {other:?}"),
    }
    assert_eq!(regs.read(&rsi).unwrap(), RegisterValue::U64(0xcafecafe));

    let xmm0 = register_info_by_id(&RegisterId::xmm0);
    let bits = 42.24f64.to_bits();
    match regs.write(&xmm0, &RegisterValue::F64(bits)) {
        Err(DrbugError::SyscallFailed(name, _)) => assert_eq!(name, "setregset"),
        other => panic!("expected SyscallFailed, got {other:?}"),
    }
    assert_eq!(regs.read(&xmm0).unwrap(), RegisterValue::F64(bits));
}
