//! Segment descriptors and the segment table: six flat descriptors, packed
//! into the eight-byte records that the processor reads.

use vstd::prelude::*;
use crate::platform::Request;

verus! {

/// A segment descriptor before it is packed.
#[derive(Debug, Clone, Copy)]
pub struct GDT {
    /// Size of the segment less one, in bytes or in 4 KiB pages; 20 bits.
    pub limit: u32,
    /// Linear address where the segment starts.
    pub base: u32,
    /// Present bit, privilege level and type.
    pub access_byte: u8,
    /// Granularity and size; 4 bits.
    pub flags: u8,
}

/// Why a descriptor cannot be packed.
#[derive(Debug, Clone, Copy, PartialEq, Eq, Structural)]
pub enum GdtError {
    /// The limit does not fit in 20 bits.
    LimitTooLarge,
}

/// The largest limit a descriptor can hold.
pub const MAX_LIMIT: u32 = 0xFFFFF;

/// Bytes in a packed descriptor.
pub const ENTRY_SIZE: usize = 8;

/// Descriptors in the segment table.
pub const GDT_ENTRIES: usize = 6;

/// Bytes in the segment table.
pub const GDT_SIZE: usize = 48;

/// Access byte of the kernel code segment.
pub const KERNEL_CODE_ACCESS: u8 = 0x9A;

/// Access byte of the kernel data segment.
pub const KERNEL_DATA_ACCESS: u8 = 0x92;

/// Access byte of the user code segment.
pub const USER_CODE_ACCESS: u8 = 0xFA;

/// Access byte of the user data segment.
pub const USER_DATA_ACCESS: u8 = 0xF2;

/// Flags of a flat segment: limit counted in 4 KiB pages, 32-bit operands.
pub const FLAT_FLAGS: u8 = 0xC;

/// Place of the kernel code descriptor in the table.
pub const KERNEL_CODE_INDEX: usize = 2;

/// Place of the kernel data descriptor in the table.
pub const KERNEL_DATA_INDEX: usize = 3;

/// The eight bytes of a descriptor: limit bits 0..16 in bytes 0 and 1, base
/// bits 0..24 in bytes 2 to 4, the access byte in byte 5, limit bits 16..20 in
/// the low half of byte 6, the flags in its high half, base bits 24..32 in
/// byte 7.
pub open spec fn packed(source: GDT) -> Seq<u8> {
    seq![
        (source.limit % 256) as u8,
        (source.limit / 256 % 256) as u8,
        (source.base % 256) as u8,
        (source.base / 256 % 256) as u8,
        (source.base / 65536 % 256) as u8,
        source.access_byte,
        (source.limit / 65536 % 16 + source.flags % 16 * 16) as u8,
        (source.base / 16777216) as u8,
    ]
}

/// The descriptor that the first eight bytes of `bytes` hold.
pub open spec fn unpacked(bytes: Seq<u8>) -> GDT {
    GDT {
        limit: (bytes[0] + bytes[1] * 256 + bytes[6] % 16 * 65536) as u32,
        base: (bytes[2] + bytes[3] * 256 + bytes[4] * 65536 + bytes[7] * 16777216) as u32,
        access_byte: bytes[5],
        flags: bytes[6] / 16,
    }
}

/// Shifts and masks on a 32-bit field, as division and remainder.
proof fn lemma_fields(value: u32)
    by (bit_vector)
    ensures
        value & 0xFF == value % 256,
        (value >> 8) & 0xFF == value / 256 % 256,
        (value >> 16) & 0xFF == value / 65536 % 256,
        (value >> 16) & 0x0F == value / 65536 % 16,
        (value >> 24) & 0xFF == value / 16777216,
{
}

/// Byte 6 of a descriptor: four bits of the limit below the four flag bits.
proof fn lemma_halves(low: u8, flags: u8)
    by (bit_vector)
    requires
        low < 16,
    ensures
        low | (flags << 4) == low + flags % 16 * 16,
{
}

/// Packs `source` into the first eight bytes of `target`. A limit above
/// `MAX_LIMIT` is refused, and `target` is then left as it was. Flags above 15
/// lose their high bits.
pub fn encode_gdt_entry(target: &mut [u8], source: GDT) -> (result: Result<(), GdtError>)
    requires
        old(target)@.len() >= ENTRY_SIZE,
    ensures
        result.is_err() <==> source.limit > MAX_LIMIT,
        match result {
            Ok(_) => final(target)@ == packed(source) + old(target)@.skip(ENTRY_SIZE as int),
            Err(error) => error == GdtError::LimitTooLarge && final(target)@ == old(target)@,
        },
{
    if source.limit > MAX_LIMIT {
        return Err(GdtError::LimitTooLarge);
    }
    proof {
        lemma_fields(source.limit);
        lemma_fields(source.base);
        lemma_halves(((source.limit >> 16) & 0x0F) as u8, source.flags);
    }
    target[0] = (source.limit & 0xFF) as u8;
    target[1] = ((source.limit >> 8) & 0xFF) as u8;
    target[6] = ((source.limit >> 16) & 0x0F) as u8 | (source.flags << 4);

    target[2] = (source.base & 0xFF) as u8;
    target[3] = ((source.base >> 8) & 0xFF) as u8;
    target[4] = ((source.base >> 16) & 0xFF) as u8;
    target[7] = ((source.base >> 24) & 0xFF) as u8;

    target[5] = source.access_byte;

    assert(target@ =~= packed(source) + old(target)@.skip(ENTRY_SIZE as int));
    Ok(())
}

/// Reads the descriptor that the first eight bytes of `source` hold.
pub fn decode_gdt_entry(source: &[u8]) -> (result: GDT)
    requires
        source@.len() >= ENTRY_SIZE,
    ensures
        result == unpacked(source@),
{
    let low = source[6] % 16;
    GDT {
        limit: source[0] as u32 + source[1] as u32 * 256 + low as u32 * 65536,
        base: source[2] as u32 + source[3] as u32 * 256 + source[4] as u32 * 65536 + source[7] as u32
            * 16777216,
        access_byte: source[5],
        flags: source[6] / 16,
    }
}

/// Packing and unpacking gives the descriptor back: base, limit and access
/// byte for every limit that can be packed, and the low four bits of the flags.
pub proof fn lemma_unpacked_packed(source: GDT)
    requires
        source.limit <= MAX_LIMIT,
    ensures
        unpacked(packed(source)).base == source.base,
        unpacked(packed(source)).limit == source.limit,
        unpacked(packed(source)).access_byte == source.access_byte,
        unpacked(packed(source)).flags == source.flags % 16,
        source.flags < 16 ==> unpacked(packed(source)) == source,
{
}

/// The six descriptors of the table, in order: null, unused, kernel code,
/// kernel data, user code, user data. The four segments are flat: they start
/// at 0 and span the whole address space.
pub open spec fn descriptors() -> Seq<GDT> {
    seq![
        GDT { limit: 0, base: 0, access_byte: 0, flags: 0 },
        GDT { limit: 0, base: 0, access_byte: 0, flags: 0 },
        GDT { limit: MAX_LIMIT, base: 0, access_byte: KERNEL_CODE_ACCESS, flags: FLAT_FLAGS },
        GDT { limit: MAX_LIMIT, base: 0, access_byte: KERNEL_DATA_ACCESS, flags: FLAT_FLAGS },
        GDT { limit: MAX_LIMIT, base: 0, access_byte: USER_CODE_ACCESS, flags: FLAT_FLAGS },
        GDT { limit: MAX_LIMIT, base: 0, access_byte: USER_DATA_ACCESS, flags: FLAT_FLAGS },
    ]
}

/// The bytes of the table: the six descriptors packed one after the other.
pub open spec fn table_image() -> Seq<u8> {
    Seq::new(
        GDT_SIZE as nat,
        |i: int| packed(descriptors()[i / (ENTRY_SIZE as int)])[i % (ENTRY_SIZE as int)],
    )
}

/// The selector of the descriptor at `index`: the index shifted left by three.
pub open spec fn selector_of(index: int) -> int {
    index * 8
}

/// The selector that names the descriptor at `index` of the table, at
/// privilege level 0.
pub fn selector(index: usize) -> (result: u16)
    requires
        index < GDT_ENTRIES,
    ensures
        result == selector_of(index as int),
{
    let wide = index as u16;
    assert(wide << 3 == wide * 8) by (bit_vector)
        requires
            wide < 6,
    ;
    wide << 3
}

/// The request that loads the table register for a table of `gdt_table`'s
/// size that lies at linear address `base`: the limit is the size less one.
pub fn load_gdt(gdt_table: &[u8], base: u32) -> (request: Request)
    requires
        1 <= gdt_table@.len() <= 0x10000,
    ensures
        request == (Request::LoadGdt { limit: (gdt_table@.len() - 1) as u16, base }),
{
    let limit = (gdt_table.len() - 1) as u16;
    Request::LoadGdt { limit, base }
}

/// What it takes to install the segment table.
pub struct GdtInstall {
    /// The table. The platform keeps it at the address given to `init_gdt`
    /// for as long as the processor runs.
    pub table: [u8; GDT_SIZE],
    /// What the platform does once the table is in place, in this order.
    pub plan: Vec<Request>,
}

/// The plan that installs a table of `GDT_SIZE` bytes at `base`: with
/// interrupts off, load the table register, then reload the segment registers
/// with the kernel's selectors. Interrupts stay off: nothing may interrupt
/// between the load and the reload, and no interrupt table is installed yet.
pub open spec fn install_plan(base: u32) -> Seq<Request> {
    seq![
        Request::DisableInterrupts,
        Request::LoadGdt { limit: (GDT_SIZE - 1) as u16, base },
        Request::ReloadSegments {
            code: selector_of(KERNEL_CODE_INDEX as int) as u16,
            data: selector_of(KERNEL_DATA_INDEX as int) as u16,
        },
    ]
}

/// Copies a packed descriptor to its place in the table.
fn store_entry(table: &mut [u8; GDT_SIZE], index: usize, record: &[u8; ENTRY_SIZE])
    requires
        index < GDT_ENTRIES,
    ensures
        forall|i: int|
            0 <= i < GDT_SIZE ==> final(table)@[i] == if index * ENTRY_SIZE <= i < (index + 1)
                * ENTRY_SIZE {
                record@[i - index * ENTRY_SIZE]
            } else {
                old(table)@[i]
            },
{
    let mut offset: usize = 0;
    while offset < ENTRY_SIZE
        invariant
            offset <= ENTRY_SIZE,
            index < GDT_ENTRIES,
            forall|i: int|
                0 <= i < GDT_SIZE ==> table@[i] == if index * ENTRY_SIZE <= i < index * ENTRY_SIZE
                    + offset {
                    record@[i - index * ENTRY_SIZE]
                } else {
                    old(table)@[i]
                },
        decreases ENTRY_SIZE - offset,
    {
        table[index * ENTRY_SIZE + offset] = record[offset];
        offset += 1;
    }
}

/// Packs one of the table's descriptors and stores it at `index`.
fn install_entry(table: &mut [u8; GDT_SIZE], index: usize, source: GDT)
    requires
        index < GDT_ENTRIES,
        source.limit <= MAX_LIMIT,
    ensures
        forall|i: int|
            0 <= i < GDT_SIZE ==> final(table)@[i] == if index * ENTRY_SIZE <= i < (index + 1)
                * ENTRY_SIZE {
                packed(source)[i - index * ENTRY_SIZE]
            } else {
                old(table)@[i]
            },
{
    let mut record: [u8; ENTRY_SIZE] = [0; ENTRY_SIZE];
    let packed = encode_gdt_entry(&mut record, source);
    assert(packed.is_ok());
    assert(record@ =~= self::packed(source));
    store_entry(table, index, &record);
}

/// Builds the segment table and the plan that installs it at linear address
/// `base`.
pub fn init_gdt(base: u32) -> (install: GdtInstall)
    ensures
        install.table@ == table_image(),
        install.plan@ == install_plan(base),
{
    let mut table: [u8; GDT_SIZE] = [0; GDT_SIZE];

    let null_entry = GDT { limit: 0, base: 0x0, access_byte: 0, flags: 0 };
    install_entry(&mut table, 0, null_entry);

    let unused_entry = GDT { limit: 0, base: 0x0, access_byte: 0, flags: 0 };
    install_entry(&mut table, 1, unused_entry);

    let kernel_code_entry = GDT {
        limit: MAX_LIMIT,
        base: 0x0,
        access_byte: KERNEL_CODE_ACCESS,
        flags: FLAT_FLAGS,
    };
    install_entry(&mut table, KERNEL_CODE_INDEX, kernel_code_entry);

    let kernel_data_entry = GDT {
        limit: MAX_LIMIT,
        base: 0x0,
        access_byte: KERNEL_DATA_ACCESS,
        flags: FLAT_FLAGS,
    };
    install_entry(&mut table, KERNEL_DATA_INDEX, kernel_data_entry);

    let user_code_entry = GDT {
        limit: MAX_LIMIT,
        base: 0x0,
        access_byte: USER_CODE_ACCESS,
        flags: FLAT_FLAGS,
    };
    install_entry(&mut table, 4, user_code_entry);

    let user_data_entry = GDT {
        limit: MAX_LIMIT,
        base: 0x0,
        access_byte: USER_DATA_ACCESS,
        flags: FLAT_FLAGS,
    };
    install_entry(&mut table, 5, user_data_entry);

    assert(table@ =~= table_image());

    let load = load_gdt(&table, base);
    let reload = Request::ReloadSegments {
        code: selector(KERNEL_CODE_INDEX),
        data: selector(KERNEL_DATA_INDEX),
    };
    let plan = vec![Request::DisableInterrupts, load, reload];
    GdtInstall { table, plan }
}

/// The table byte by byte. The null and the unused descriptor are all zero;
/// each segment has limit 0xFFFFF, base 0, its access byte, and flags 0xC.
pub proof fn lemma_table_image()
    ensures
        table_image() =~= seq![
            0x00u8, 0x00, 0x00, 0x00, 0x00, 0x00, 0x00, 0x00,
            0x00, 0x00, 0x00, 0x00, 0x00, 0x00, 0x00, 0x00,
            0xFF, 0xFF, 0x00, 0x00, 0x00, 0x9A, 0xCF, 0x00,
            0xFF, 0xFF, 0x00, 0x00, 0x00, 0x92, 0xCF, 0x00,
            0xFF, 0xFF, 0x00, 0x00, 0x00, 0xFA, 0xCF, 0x00,
            0xFF, 0xFF, 0x00, 0x00, 0x00, 0xF2, 0xCF, 0x00,
        ],
{
}

} // verus!
