use genocide::hack::{Hack, AUTOMAP_HOOK_OFFSET, INTERFACE_HOOK_OFFSET};
use genocide::memory::patch::{encode, Patch, PatchType};

#[test]
fn new_patch_is_not_injected() {
    let p = Patch::new(PatchType::Jump, 0x10, 5, 0x1234);
    assert!(!p.is_injected());
    assert_eq!(p.length(), 5);
}

#[test]
fn address_is_base_plus_offset() {
    let p = Patch::new(PatchType::Jump, 0x5ADB3, 5, 0);
    assert_eq!(p.get_address(0x400000), 0x45ADB3);
    assert_eq!(p.get_address(0), 0);
}

#[test]
fn jump_encodes_displacement_little_endian() {
    // 0x10001000 - (0x45ADB3 + 5) = 0x0FBA6248
    let bytes = encode(PatchType::Jump, 0x10001000, 6, 0x45ADB3);
    assert_eq!(bytes, vec![0xE9, 0x48, 0x62, 0xBA, 0x0F, 0x00]);
}

#[test]
fn call_uses_call_opcode_and_negative_displacement() {
    // 0x1000 - (0x2000 + 5) = -0x1005 = 0xFFFFEFFB
    let bytes = encode(PatchType::Call, 0x1000, 5, 0x2000);
    assert_eq!(bytes, vec![0xE8, 0xFB, 0xEF, 0xFF, 0xFF]);
}

#[test]
fn branch_lands_on_function() {
    let address: usize = 0x0045_ADB3;
    let function: i32 = 0x1000_2340;
    let bytes = encode(PatchType::Jump, function, 5, address);
    let displacement = i32::from_le_bytes([bytes[1], bytes[2], bytes[3], bytes[4]]);
    assert_eq!((address as i32) + 5 + displacement, function);
}

#[test]
fn fill_repeats_low_byte() {
    assert_eq!(encode(PatchType::Fill, 0x90, 3, 0x1000), vec![0x90, 0x90, 0x90]);
    assert_eq!(encode(PatchType::Fill, -1, 2, 0x1000), vec![0xFF, 0xFF]);
    assert_eq!(encode(PatchType::Fill, 0x1234, 1, 0x1000), vec![0x34]);
    assert_eq!(encode(PatchType::Fill, 7, 0, 0x1000), Vec::<u8>::new());
}

#[test]
fn inject_writes_patch_and_saves_original() {
    let mut p = Patch::new(PatchType::Jump, 0x5ADB3, 5, 0x10001000);
    assert_eq!(p.injection_site(0x400000), Some(0x45ADB3));
    let w = p.inject(0x400000, Some(vec![1, 2, 3, 4, 5])).unwrap();
    assert_eq!(w.address, 0x45ADB3);
    assert_eq!(w.bytes, vec![0xE9, 0x48, 0x62, 0xBA, 0x0F]);
    assert!(p.is_injected());
    assert_eq!(p.injection_site(0x400000), None);
}

#[test]
fn inject_twice_does_nothing_the_second_time() {
    let mut p = Patch::new(PatchType::Jump, 0x10, 5, 0x2000);
    assert!(p.inject(0x1000, Some(vec![9; 5])).is_some());
    assert!(p.inject(0x1000, Some(vec![7; 5])).is_none());
    let w = p.eject(0x1000).unwrap();
    assert_eq!(w.bytes, vec![9; 5]);
}

#[test]
fn unknown_base_does_nothing() {
    let mut p = Patch::new(PatchType::Jump, 0x10, 5, 0x2000);
    assert_eq!(p.injection_site(0), None);
    assert!(p.inject(0, Some(vec![1; 5])).is_none());
    assert!(!p.is_injected());
    assert!(p.eject(0).is_none());
}

#[test]
fn eject_restores_original_bytes() {
    let mut p = Patch::new(PatchType::Call, 0x20, 6, 0x5000);
    let original = vec![0x55, 0x8B, 0xEC, 0x83, 0xEC, 0x10];
    let installed = p.inject(0x1000, Some(original.clone())).unwrap();
    let restored = p.eject(0x1000).unwrap();
    assert_eq!(restored.address, installed.address);
    assert_eq!(restored.bytes, original);
    // ejecting leaves the patch marked as in place
    assert!(p.is_injected());
}

#[test]
fn failed_read_keeps_zero_bytes() {
    let mut p = Patch::new(PatchType::Fill, 0x20, 3, 0x90);
    assert!(p.inject(0x1000, None).is_some());
    assert_eq!(p.eject(0x1000).unwrap().bytes, vec![0, 0, 0]);
}

#[test]
fn eject_without_inject_does_nothing() {
    let mut p = Patch::new(PatchType::Jump, 0x10, 5, 0x2000);
    assert!(p.eject(0x1000).is_none());
}

#[test]
fn hack_installs_and_ejects_both_hooks() {
    let mut hack = Hack::new(0x6000_0000, 0x1000_0000, 0x1000_0100);
    assert_eq!(hack.patch_count(), 2);
    let base = 0x0040_0000usize;
    let sites = hack.injection_sites(base);
    assert_eq!(sites, vec![Some(base + AUTOMAP_HOOK_OFFSET), Some(base + INTERFACE_HOOK_OFFSET)]);
    let originals = vec![Some(vec![1u8, 2, 3, 4, 5]), Some(vec![6u8, 7, 8, 9, 10, 11])];
    let writes = hack.install_patches(base, originals);
    assert_eq!(writes.len(), 2);
    assert_eq!(writes[0].address, base + AUTOMAP_HOOK_OFFSET);
    assert_eq!(writes[0].bytes.len(), 5);
    assert_eq!(writes[0].bytes[0], 0xE9);
    assert_eq!(writes[1].bytes.len(), 6);
    assert_eq!(writes[1].bytes[5], 0);
    assert_eq!(hack.injection_sites(base), vec![None, None]);
    let restores = hack.eject_patches(base);
    assert_eq!(restores.len(), 2);
    assert_eq!(restores[0].address, writes[0].address);
    assert_eq!(restores[0].bytes, vec![1, 2, 3, 4, 5]);
    assert_eq!(restores[1].address, writes[1].address);
    assert_eq!(restores[1].bytes, vec![6, 7, 8, 9, 10, 11]);
}

#[test]
fn hack_without_base_writes_nothing() {
    let mut hack = Hack::new(0x6000_0000, 0x1000_0000, 0x1000_0100);
    assert_eq!(hack.injection_sites(0), vec![None, None]);
    assert!(hack.install_patches(0, vec![None, None]).is_empty());
    assert!(hack.eject_patches(0).is_empty());
}

#[test]
fn can_inject_rejects_overflowing_displacement() {
    let near = Patch::new(PatchType::Jump, 0x10, 5, 0x2000);
    assert!(near.can_inject(0x1000));
    // i32::MAX - (0x1010 + 5) does not overflow, but i32::MIN - (0x7000_0000 + 5) does.
    let far = Patch::new(PatchType::Jump, 0x10, 5, i32::MIN);
    assert!(!far.can_inject(0x7000_0000));
    let short = Patch::new(PatchType::Call, 0x10, 4, 0x2000);
    assert!(!short.can_inject(0x1000));
    assert!(short.can_inject(0));
    let fill = Patch::new(PatchType::Fill, 0x10, 0, i32::MIN);
    assert!(fill.can_inject(0x7000_0000));
    let overflow = Patch::new(PatchType::Fill, usize::MAX, 1, 0);
    assert!(!overflow.can_inject(1));
    assert!(overflow.can_eject(1));
}

#[test]
fn hack_reports_lengths_and_permissions() {
    let hack = Hack::new(0x6000_0000, 0x1000_0000, 0x1000_0100);
    assert_eq!(hack.patch_length(0), 5);
    assert_eq!(hack.patch_length(1), 6);
    assert!(hack.can_install(0x0040_0000));
    assert!(hack.can_eject(0x0040_0000));
    assert!(!hack.can_install(usize::MAX));
}

#[test]
fn hack_keeps_its_module_handle() {
    let hack = Hack::new(0x6000_0000, 1, 2);
    assert_eq!(hack.hmodule(), 0x6000_0000);
}
