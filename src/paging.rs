//! Virtual-to-physical translation by walking the four page-table levels.
//!
//! The walk is a step machine: each step names the table entry to read next,
//! and the caller, who alone can reach physical memory, reads it and hands it
//! to the next step.
use vstd::prelude::*;
use x86_64::structures::paging::page_table::PageTableLevel;
use x86_64::VirtAddr;

verus! {

/// Entry flag: the entry maps a table or a frame.
pub const PRESENT: u64 = 0x1;

/// Entry flag: writes through the mapping are allowed.
pub const WRITABLE: u64 = 0x2;

/// Entry flag: above the last level, the entry maps a large page directly.
pub const HUGE_PAGE: u64 = 0x80;

/// The bits of an entry that hold the physical address of a table or frame.
pub const ADDRESS_MASK: u64 = 0x000f_ffff_ffff_f000;

/// Bits 48 to 63 repeat bit 47.
pub open spec fn is_canonical(addr: u64) -> bool {
    addr < 0x0000_8000_0000_0000 || addr >= 0xffff_8000_0000_0000
}

/// The index into a table of `level` (4 is the root, 1 the last level): nine bits
/// of the address, starting at bit 12 + 9 * (level - 1).
pub open spec fn table_index(addr: u64, level: u8) -> u64 {
    (addr >> (3 + 9 * level) as u64) & 0x1ff
}

/// The offset of the address inside its 4 KiB page.
pub open spec fn page_offset(addr: u64) -> u64 {
    addr & 0xfff
}

pub open spec fn is_present(entry: u64) -> bool {
    entry & PRESENT != 0
}

pub open spec fn is_huge(entry: u64) -> bool {
    entry & HUGE_PAGE != 0
}

/// The physical address of the table or frame an entry points to.
pub open spec fn entry_address(entry: u64) -> u64 {
    entry & ADDRESS_MASK
}

/// Where a page-table walk stands.
#[derive(Clone, Copy, Debug, PartialEq, Eq, Structural)]
pub enum Walk {
    /// Entry `index` of the level-`level` table at physical address `table` is
    /// to be read next.
    ReadEntry { level: u8, table: u64, index: u16 },
    /// The address is mapped to this physical address.
    Mapped(u64),
    /// Some entry on the way is not present.
    NotMapped,
    /// An entry above the last level maps a large page, which is not supported.
    HugePage,
}

/// The first step of a walk from the root table at `root`.
pub open spec fn walk_start(addr: u64, root: u64) -> Walk {
    Walk::ReadEntry { level: 4, table: root, index: table_index(addr, 4) as u16 }
}

/// What follows reading `entry` from the level-`level` table.
pub open spec fn walk_step(addr: u64, level: u8, entry: u64) -> Walk {
    if !is_present(entry) {
        Walk::NotMapped
    } else if level > 1 && is_huge(entry) {
        Walk::HugePage
    } else if level == 1 {
        Walk::Mapped((entry_address(entry) + page_offset(addr)) as u64)
    } else {
        Walk::ReadEntry {
            level: (level - 1) as u8,
            table: entry_address(entry),
            index: table_index(addr, (level - 1) as u8) as u16,
        }
    }
}

/// Runs a walk for at most `fuel` reads, `mem(table, index)` giving the entry read.
pub open spec fn walk_run(addr: u64, mem: spec_fn(u64, u64) -> u64, w: Walk, fuel: nat) -> Walk
    decreases fuel,
{
    match w {
        Walk::ReadEntry { level, table, index } => {
            if fuel == 0 {
                w
            } else {
                walk_run(addr, mem, walk_step(addr, level, mem(table, index as u64)), (fuel - 1) as nat)
            }
        },
        _ => w,
    }
}

/// The outcome of translating `addr` with the root table at `root`, over the
/// page tables whose entries `mem` gives.
pub open spec fn translate(addr: u64, root: u64, mem: spec_fn(u64, u64) -> u64) -> Walk {
    walk_run(addr, mem, walk_start(addr, root), 4)
}

/// The table of `level` on the chain that `addr` selects, following entry
/// addresses down from the root whatever their flags.
pub open spec fn chain_table(addr: u64, root: u64, mem: spec_fn(u64, u64) -> u64, level: u8) -> u64
    decreases 4 - level,
{
    if level >= 4 {
        root
    } else {
        entry_address(mem(chain_table(addr, root, mem, (level + 1) as u8), table_index(addr, (level + 1) as u8)))
    }
}

/// The entry of `level` on the chain that `addr` selects.
pub open spec fn chain_entry(addr: u64, root: u64, mem: spec_fn(u64, u64) -> u64, level: u8) -> u64 {
    mem(chain_table(addr, root, mem, level), table_index(addr, level))
}

/// Every entry of the chain is present, and none above the last level maps a
/// large page.
pub open spec fn chain_present(addr: u64, root: u64, mem: spec_fn(u64, u64) -> u64) -> bool {
    &&& is_present(chain_entry(addr, root, mem, 4)) && !is_huge(chain_entry(addr, root, mem, 4))
    &&& is_present(chain_entry(addr, root, mem, 3)) && !is_huge(chain_entry(addr, root, mem, 3))
    &&& is_present(chain_entry(addr, root, mem, 2)) && !is_huge(chain_entry(addr, root, mem, 2))
    &&& is_present(chain_entry(addr, root, mem, 1))
}

/// When every entry of the chain is present and none above the last level maps
/// a large page, translation finds the address: the frame of the last entry
/// plus the offset in the page. It depends on the four chain entries alone, so
/// repeating it over unchanged tables gives the same address.
pub proof fn lemma_translate_present_chain(addr: u64, root: u64, mem: spec_fn(u64, u64) -> u64)
    requires
        chain_present(addr, root, mem),
    ensures
        translate(addr, root, mem) == Walk::Mapped(
            (entry_address(chain_entry(addr, root, mem, 1)) + page_offset(addr)) as u64,
        ),
{
    reveal_with_fuel(walk_run, 5);
    reveal_with_fuel(chain_table, 4);
    lemma_index_fits(addr);
}

/// Translation over two sets of page tables that agree on the four entries of
/// the chain gives the same outcome.
pub proof fn lemma_translate_same_chain(
    addr: u64,
    root: u64,
    mem1: spec_fn(u64, u64) -> u64,
    mem2: spec_fn(u64, u64) -> u64,
)
    requires
        chain_entry(addr, root, mem1, 4) == chain_entry(addr, root, mem2, 4),
        chain_entry(addr, root, mem1, 3) == chain_entry(addr, root, mem2, 3),
        chain_entry(addr, root, mem1, 2) == chain_entry(addr, root, mem2, 2),
        chain_entry(addr, root, mem1, 1) == chain_entry(addr, root, mem2, 1),
    ensures
        translate(addr, root, mem1) == translate(addr, root, mem2),
{
    reveal_with_fuel(walk_run, 5);
    reveal_with_fuel(chain_table, 4);
    lemma_index_fits(addr);
}

/// When an entry of the chain is not present, translation never gives a
/// physical address; when the entries above it are present and map no large
/// page, it reports that the address is not mapped.
pub proof fn lemma_translate_not_present(
    addr: u64,
    root: u64,
    mem: spec_fn(u64, u64) -> u64,
    level: u8,
)
    requires
        1 <= level <= 4,
        !is_present(chain_entry(addr, root, mem, level)),
    ensures
        !(translate(addr, root, mem) is Mapped),
        (forall|l: u8|
            level < l <= 4 ==> is_present(#[trigger] chain_entry(addr, root, mem, l)) && !is_huge(
                chain_entry(addr, root, mem, l),
            )) ==> translate(addr, root, mem) == Walk::NotMapped,
{
    reveal_with_fuel(walk_run, 5);
    reveal_with_fuel(chain_table, 4);
    lemma_index_fits(addr);
    assert(level == 1 || level == 2 || level == 3 || level == 4);
    if (forall|l: u8|
        level < l <= 4 ==> is_present(#[trigger] chain_entry(addr, root, mem, l)) && !is_huge(
            chain_entry(addr, root, mem, l),
        )) {
        assert(level < 2 ==> is_present(chain_entry(addr, root, mem, 2)));
        assert(level < 3 ==> is_present(chain_entry(addr, root, mem, 3)));
        assert(level < 4 ==> is_present(chain_entry(addr, root, mem, 4)));
    }
}

proof fn lemma_index_fits(addr: u64)
    ensures
        table_index(addr, 1) < 512,
        table_index(addr, 2) < 512,
        table_index(addr, 3) < 512,
        table_index(addr, 4) < 512,
        table_index(addr, 1) as u16 as u64 == table_index(addr, 1),
        table_index(addr, 2) as u16 as u64 == table_index(addr, 2),
        table_index(addr, 3) as u16 as u64 == table_index(addr, 3),
        table_index(addr, 4) as u16 as u64 == table_index(addr, 4),
{
    assert((addr >> 12u64) & 0x1ff < 512) by (bit_vector);
    assert((addr >> 21u64) & 0x1ff < 512) by (bit_vector);
    assert((addr >> 30u64) & 0x1ff < 512) by (bit_vector);
    assert((addr >> 39u64) & 0x1ff < 512) by (bit_vector);
}

/// Relies on x86_64's `VirtAddr::page_table_index`: the nine address bits that
/// index a table of the given level.
#[verifier::external_body]
fn index_for_level(addr: u64, level: u8) -> (r: u16)
    requires
        1 <= level <= 4,
    ensures
        r as u64 == table_index(addr, level),
{
    let level = match level {
        1 => PageTableLevel::One,
        2 => PageTableLevel::Two,
        3 => PageTableLevel::Three,
        _ => PageTableLevel::Four,
    };
    u16::from(VirtAddr::new_truncate(addr).page_table_index(level))
}

/// Relies on x86_64's `VirtAddr::page_offset`: the low twelve address bits.
#[verifier::external_body]
fn offset_in_page(addr: u64) -> (r: u16)
    ensures
        r as u64 == page_offset(addr),
{
    u16::from(VirtAddr::new_truncate(addr).page_offset())
}

/// Starts the translation of the canonical address `addr` at the root table,
/// whose physical address is `root`.
pub fn translate_start(addr: u64, root: u64) -> (r: Walk)
    requires
        is_canonical(addr),
    ensures
        r == walk_start(addr, root),
{
    let index = index_for_level(addr, 4);
    Walk::ReadEntry { level: 4, table: root, index }
}

/// The next step of the translation of `addr`, given the entry just read from
/// the level-`level` table.
pub fn translate_step(addr: u64, level: u8, entry: u64) -> (r: Walk)
    requires
        1 <= level <= 4,
    ensures
        r == walk_step(addr, level, entry),
{
    if entry & PRESENT == 0 {
        Walk::NotMapped
    } else if level > 1 && entry & HUGE_PAGE != 0 {
        Walk::HugePage
    } else if level == 1 {
        let frame = entry & ADDRESS_MASK;
        let offset = offset_in_page(addr) as u64;
        assert(frame <= ADDRESS_MASK) by (bit_vector)
            requires
                frame == entry & 0x000f_ffff_ffff_f000u64,
        ;
        Walk::Mapped(frame + offset)
    } else {
        let index = index_for_level(addr, level - 1);
        Walk::ReadEntry { level: level - 1, table: entry & ADDRESS_MASK, index }
    }
}

} // verus!
