use kernel_core::gdt::gdt::{
    decode_gdt_entry, encode_gdt_entry, init_gdt, load_gdt, selector, GdtError, GDT, MAX_LIMIT,
};
use kernel_core::platform::Request;

fn descriptor(limit: u32, base: u32, access_byte: u8, flags: u8) -> GDT {
    GDT { limit, base, access_byte, flags }
}

#[test]
fn encode_kernel_code_descriptor() {
    let mut record = [0u8; 8];
    let result = encode_gdt_entry(&mut record, descriptor(0xFFFFF, 0, 0x9A, 0xC));
    assert_eq!(result, Ok(()));
    assert_eq!(record, [0xFF, 0xFF, 0x00, 0x00, 0x00, 0x9A, 0xCF, 0x00]);
}

#[test]
fn encode_splits_base_and_limit() {
    let mut record = [0u8; 8];
    let result = encode_gdt_entry(&mut record, descriptor(0xABCDE, 0x12345678, 0x92, 0x4));
    assert_eq!(result, Ok(()));
    assert_eq!(record, [0xDE, 0xBC, 0x78, 0x56, 0x34, 0x92, 0x4A, 0x12]);
}

#[test]
fn encode_leaves_the_rest_of_the_target_alone() {
    let mut target = [0x55u8; 12];
    let result = encode_gdt_entry(&mut target, descriptor(0, 0, 0, 0));
    assert_eq!(result, Ok(()));
    assert_eq!(target, [0, 0, 0, 0, 0, 0, 0, 0, 0x55, 0x55, 0x55, 0x55]);
}

#[test]
fn encode_refuses_large_limit() {
    let mut record = [0x11u8; 8];
    let result = encode_gdt_entry(&mut record, descriptor(0x100000, 0, 0x9A, 0xC));
    assert_eq!(result, Err(GdtError::LimitTooLarge));
    assert_eq!(record, [0x11u8; 8]);
    let result = encode_gdt_entry(&mut record, descriptor(u32::MAX, 0, 0x9A, 0xC));
    assert_eq!(result, Err(GdtError::LimitTooLarge));
    assert_eq!(record, [0x11u8; 8]);
}

#[test]
fn encode_accepts_largest_limit() {
    let mut record = [0u8; 8];
    assert_eq!(encode_gdt_entry(&mut record, descriptor(MAX_LIMIT, 0, 0, 0)), Ok(()));
    assert_eq!(record, [0xFF, 0xFF, 0, 0, 0, 0, 0x0F, 0]);
}

#[test]
fn encode_drops_high_flag_bits() {
    let mut record = [0u8; 8];
    assert_eq!(encode_gdt_entry(&mut record, descriptor(0, 0, 0, 0xFC)), Ok(()));
    assert_eq!(record[6], 0xC0);
}

#[test]
fn decode_gives_back_base_and_limit() {
    let cases: [(u32, u32, u8, u8); 6] = [
        (0, 0, 0, 0),
        (0xFFFFF, 0, 0x9A, 0xC),
        (0xFFFFF, 0xFFFFFFFF, 0xFF, 0xF),
        (0x12345, 0x89ABCDEF, 0xF2, 0x8),
        (1, 0x00010000, 0x92, 0x4),
        (0x80000, 0x80000000, 0x01, 0x1),
    ];
    for (limit, base, access_byte, flags) in cases {
        let mut record = [0u8; 8];
        let result = encode_gdt_entry(&mut record, descriptor(limit, base, access_byte, flags));
        assert_eq!(result, Ok(()));
        let decoded = decode_gdt_entry(&record);
        assert_eq!(decoded.limit, limit);
        assert_eq!(decoded.base, base);
        assert_eq!(decoded.access_byte, access_byte);
        assert_eq!(decoded.flags, flags);
    }
}

#[test]
fn decode_reads_fields_from_bytes() {
    let decoded = decode_gdt_entry(&[0xDE, 0xBC, 0x78, 0x56, 0x34, 0x92, 0x4A, 0x12]);
    assert_eq!(decoded.limit, 0xABCDE);
    assert_eq!(decoded.base, 0x12345678);
    assert_eq!(decoded.access_byte, 0x92);
    assert_eq!(decoded.flags, 0x4);
}

#[test]
fn table_holds_six_flat_descriptors() {
    let install = init_gdt(0x1000);
    let expected: [u8; 48] = [
        0x00, 0x00, 0x00, 0x00, 0x00, 0x00, 0x00, 0x00,
        0x00, 0x00, 0x00, 0x00, 0x00, 0x00, 0x00, 0x00,
        0xFF, 0xFF, 0x00, 0x00, 0x00, 0x9A, 0xCF, 0x00,
        0xFF, 0xFF, 0x00, 0x00, 0x00, 0x92, 0xCF, 0x00,
        0xFF, 0xFF, 0x00, 0x00, 0x00, 0xFA, 0xCF, 0x00,
        0xFF, 0xFF, 0x00, 0x00, 0x00, 0xF2, 0xCF, 0x00,
    ];
    assert_eq!(install.table, expected);
}

#[test]
fn table_starts_with_the_null_descriptor() {
    let install = init_gdt(0);
    assert_eq!(&install.table[0..8], &[0u8; 8]);
    let null = decode_gdt_entry(&install.table[0..8]);
    assert_eq!(null.limit, 0);
    assert_eq!(null.base, 0);
    assert_eq!(null.access_byte, 0);
    assert_eq!(null.flags, 0);
}

#[test]
fn table_segments_decode_flat() {
    let install = init_gdt(0);
    let access = [0x9Au8, 0x92, 0xFA, 0xF2];
    for (i, expected) in access.iter().enumerate() {
        let start = (i + 2) * 8;
        let segment = decode_gdt_entry(&install.table[start..start + 8]);
        assert_eq!(segment.base, 0);
        assert_eq!(segment.limit, 0xFFFFF);
        assert_eq!(segment.access_byte, *expected);
        assert_eq!(segment.flags, 0xC);
    }
}

#[test]
fn install_turns_interrupts_off_loads_then_reloads() {
    let install = init_gdt(0x0010_2000);
    assert_eq!(
        install.plan,
        vec![
            Request::DisableInterrupts,
            Request::LoadGdt { limit: 47, base: 0x0010_2000 },
            Request::ReloadSegments { code: 0x10, data: 0x18 },
        ]
    );
}

#[test]
fn load_gdt_limit_is_size_less_one() {
    assert_eq!(load_gdt(&[0u8; 48], 0x500), Request::LoadGdt { limit: 47, base: 0x500 });
    assert_eq!(load_gdt(&[0u8; 1], 7), Request::LoadGdt { limit: 0, base: 7 });
    let largest = vec![0u8; 0x10000];
    assert_eq!(load_gdt(&largest, 0), Request::LoadGdt { limit: 0xFFFF, base: 0 });
}

#[test]
fn selector_is_index_times_eight() {
    assert_eq!(selector(0), 0x00);
    assert_eq!(selector(1), 0x08);
    assert_eq!(selector(2), 0x10);
    assert_eq!(selector(3), 0x18);
    assert_eq!(selector(4), 0x20);
    assert_eq!(selector(5), 0x28);
}
