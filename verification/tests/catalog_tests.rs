use drbug::reg_catalog::{
    catalog, register_info_by_id, register_info_by_name, RegisterFormat, RegisterId, RegisterType,
    USER_AREA_SIZE,
};
use drbug::error::DrbugError;

#[test]
fn catalog_offsets_match_the_kernel_record_layout() {
    // The catalog hardcodes the x86_64 kernel user-area layout; hold its
    // anchors against the real libc record sizes.
    assert_eq!(std::mem::size_of::<libc::user>(), USER_AREA_SIZE);
    assert_eq!(std::mem::size_of::<libc::user_regs_struct>(), 216);
    assert_eq!(std::mem::size_of::<libc::user_fpregs_struct>(), 512);
}

#[test]
fn catalog_has_every_register_once() {
    let infos = catalog();
    assert_eq!(infos.len(), 125);
    for w in infos.windows(2) {
        // declaration order is also returned order
        assert_ne!(w[0].name, w[1].name);
    }
}

#[test]
fn gpr_descriptors_carry_kernel_offsets() {
    let rax = register_info_by_id(&RegisterId::rax);
    assert_eq!(rax.offset, 80);
    assert_eq!(rax.size, 8);
    assert_eq!(rax.dwarf_id, Some(0));
    assert_eq!(rax.type_, RegisterType::General);
    assert_eq!(rax.format, RegisterFormat::Uint);

    let r13 = register_info_by_id(&RegisterId::r13);
    assert_eq!(r13.offset, 16);
    assert_eq!(r13.dwarf_id, Some(13));

    let rip = register_info_by_id(&RegisterId::rip);
    assert_eq!(rip.offset, 128);
    assert_eq!(rip.dwarf_id, Some(16));

    let orig_rax = register_info_by_id(&RegisterId::orig_rax);
    assert_eq!(orig_rax.offset, 120);
    assert_eq!(orig_rax.dwarf_id, None);
}

#[test]
fn subregister_aliases_share_the_covering_offset() {
    let r13b = register_info_by_id(&RegisterId::r13b);
    assert_eq!(r13b.offset, 16);
    assert_eq!(r13b.size, 1);
    assert_eq!(r13b.type_, RegisterType::SubGeneral);

    let eax = register_info_by_id(&RegisterId::eax);
    assert_eq!(eax.offset, 80);
    assert_eq!(eax.size, 4);

    let ah = register_info_by_id(&RegisterId::ah);
    assert_eq!(ah.offset, 80);
    assert_eq!(ah.size, 1);
}

#[test]
fn floating_point_descriptors_cover_the_i387_block() {
    let fcw = register_info_by_id(&RegisterId::fcw);
    assert_eq!((fcw.offset, fcw.size), (224, 2));
    assert_eq!(fcw.dwarf_id, Some(65));

    let frip = register_info_by_id(&RegisterId::frip);
    assert_eq!((frip.offset, frip.size), (232, 8));

    let mxcsr = register_info_by_id(&RegisterId::mxcsr);
    assert_eq!((mxcsr.offset, mxcsr.size), (248, 4));

    let st0 = register_info_by_id(&RegisterId::st0);
    assert_eq!((st0.offset, st0.size), (256, 16));
    assert_eq!(st0.format, RegisterFormat::LongDouble);
    assert_eq!(st0.dwarf_id, Some(33));

    let mm0 = register_info_by_id(&RegisterId::mm0);
    assert_eq!((mm0.offset, mm0.size), (256, 8));
    assert_eq!(mm0.format, RegisterFormat::Vector);
    assert_eq!(mm0.dwarf_id, Some(41));

    let xmm7 = register_info_by_id(&RegisterId::xmm7);
    assert_eq!((xmm7.offset, xmm7.size), (384 + 7 * 16, 16));
    assert_eq!(xmm7.dwarf_id, Some(24));

    let dr7 = register_info_by_id(&RegisterId::dr7);
    assert_eq!((dr7.offset, dr7.size), (848 + 7 * 8, 8));
    assert_eq!(dr7.type_, RegisterType::Debug);
}

#[test]
fn lookup_by_name_finds_each_register() {
    let rsi = register_info_by_name("rsi").unwrap();
    assert_eq!(rsi.offset, 104);
    assert_eq!(rsi.size, 8);
    let mm0 = register_info_by_name("mm0").unwrap();
    assert_eq!(mm0.size, 8);
    let xmm0 = register_info_by_name("xmm0").unwrap();
    assert_eq!(xmm0.offset, 384);
}

#[test]
fn lookup_by_unknown_name_reports_the_name() {
    match register_info_by_name("xyzzy") {
        Err(DrbugError::InvalidRegisterName(n)) => assert_eq!(n, "xyzzy"),
        other => panic!("expected InvalidRegisterName, got {other:?}"),
    }
}
