//! Identity-mapped boot page tables.
//!
//! Three levels: one PML4 entry points at one PDP table; the first 64
//! PDP entries each point at their own page directory; every directory
//! entry maps a 2 MiB huge page at the address it stands for, so the
//! whole structure maps the low 64 GiB one-to-one. Leaf entries carry
//! present + writable + huge (0x083), non-leaf entries present +
//! writable (0x003). The tables are built exactly once; pointing CR3
//! at them is the unverified shell's step.

use vstd::prelude::*;

verus! {

/// How many page directories (and used PDP slots) the map has.
pub const PAGE_DIRECTORY_COUNT: usize = 64;

pub const PAGE_SIZE_4K: u64 = 4096;

pub const PAGE_SIZE_2M: u64 = 512 * PAGE_SIZE_4K;

pub const PAGE_SIZE_1G: u64 = 512 * PAGE_SIZE_2M;

/// The address bits of a huge-page directory entry: everything below
/// the 2 MiB frame and above the implemented physical width is flags.
pub const PD_FRAME_MASK: u64 = 0x000f_ffff_ffe0_0000;

/// The directory entry that identity-maps slot `j` of directory `i`:
/// its own address with present + writable + huge set.
pub open spec fn identity_pd_entry(i: int, j: int) -> u64 {
    ((i * 0x4000_0000 + j * 0x20_0000) as u64) | 0x083u64
}

/// The three-level boot hierarchy, each table as the 512 (or 64 x 512)
/// raw 64-bit entries the processor would read.
pub struct PageTables {
    pub pml4: Vec<u64>,
    pub pdp: Vec<u64>,
    pub pd: Vec<Vec<u64>>,
}

impl PageTables {
    /// Table shapes: one PML4, one PDP, 64 directories of 512 entries.
    pub open spec fn wf(&self) -> bool {
        &&& self.pml4@.len() == 512
        &&& self.pdp@.len() == 512
        &&& self.pd@.len() == PAGE_DIRECTORY_COUNT
        &&& forall|i: int| 0 <= i < PAGE_DIRECTORY_COUNT ==> self.pd@[i]@.len() == 512
    }

    /// The directory entries all map their own address as a present,
    /// writable 2 MiB huge page: the identity-map invariant.
    pub open spec fn is_identity_map(&self) -> bool {
        &&& self.wf()
        &&& self.pml4@[0] & 1 == 1
        &&& forall|i: int| 0 <= i < PAGE_DIRECTORY_COUNT ==> #[trigger] self.pdp@[i] & 1 == 1
        &&& forall|i: int, j: int|
            0 <= i < PAGE_DIRECTORY_COUNT && 0 <= j < 512 ==> #[trigger] self.pd@[i]@[j]
                == identity_pd_entry(i, j)
    }
}

/// The 2 MiB frame the walk for virtual address `a` lands on under
/// these tables: `None` where the walk hits a non-present entry or the
/// leaf is not a huge page, otherwise the frame address of the leaf.
pub open spec fn walk_target(t: PageTables, a: u64) -> Option<u64>
    recommends t.wf(),
{
    let i4 = ((a >> 39) & 0x1ff) as int;
    let i3 = ((a >> 30) & 0x1ff) as int;
    let i2 = ((a >> 21) & 0x1ff) as int;
    if t.pml4@[i4] & 1 != 1 {
        Option::None
    } else if i3 >= PAGE_DIRECTORY_COUNT || t.pdp@[i3] & 1 != 1 {
        Option::None
    } else {
        let leaf = t.pd@[i3]@[i2];
        if leaf & 1 != 1 || leaf & 0x80 != 0x80 {
            Option::None
        } else {
            Option::Some(leaf & PD_FRAME_MASK)
        }
    }
}

/// Builds the identity map. `pdp_base` and the 64 `pd_bases` are the
/// physical addresses the shell placed the lower tables at; they are
/// stamped into the non-leaf entries with present + writable set.
pub fn setup_identity_page_table(pdp_base: u64, pd_bases: &Vec<u64>) -> (t: PageTables)
    requires pd_bases@.len() == PAGE_DIRECTORY_COUNT,
    ensures
        t.wf(),
        t.is_identity_map(),
        t.pml4@[0] == pdp_base | 0x003,
        forall|i: int| 1 <= i < 512 ==> t.pml4@[i] == 0,
        forall|i: int|
            0 <= i < PAGE_DIRECTORY_COUNT ==> t.pdp@[i] == (#[trigger] pd_bases@[i]) | 0x003,
        forall|i: int| PAGE_DIRECTORY_COUNT <= i < 512 ==> t.pdp@[i] == 0,
{
    let mut pml4: Vec<u64> = Vec::new();
    pml4.push(pdp_base | 0x003);
    let mut i: usize = 1;
    while i < 512
        invariant
            1 <= i <= 512,
            pml4@.len() == i,
            pml4@[0] == pdp_base | 0x003,
            forall|k: int| 1 <= k < i ==> pml4@[k] == 0,
        decreases 512 - i,
    {
        pml4.push(0);
        i = i + 1;
    }

    let mut pdp: Vec<u64> = Vec::new();
    let mut pd: Vec<Vec<u64>> = Vec::new();
    let mut i_pdpt: usize = 0;
    while i_pdpt < PAGE_DIRECTORY_COUNT
        invariant
            i_pdpt <= PAGE_DIRECTORY_COUNT,
            pd_bases@.len() == PAGE_DIRECTORY_COUNT,
            pdp@.len() == i_pdpt,
            pd@.len() == i_pdpt,
            forall|k: int| 0 <= k < i_pdpt ==> pdp@[k] == (#[trigger] pd_bases@[k]) | 0x003,
            forall|k: int| 0 <= k < i_pdpt ==> #[trigger] pd@[k]@.len() == 512,
            forall|k: int, j: int|
                0 <= k < i_pdpt && 0 <= j < 512 ==> #[trigger] pd@[k]@[j] == identity_pd_entry(
                    k,
                    j,
                ),
        decreases PAGE_DIRECTORY_COUNT - i_pdpt,
    {
        pdp.push(pd_bases[i_pdpt] | 0x003);

        let mut dir: Vec<u64> = Vec::new();
        let mut i_pd: usize = 0;
        while i_pd < 512
            invariant
                i_pdpt < PAGE_DIRECTORY_COUNT,
                i_pd <= 512,
                dir@.len() == i_pd,
                forall|j: int|
                    0 <= j < i_pd ==> #[trigger] dir@[j] == identity_pd_entry(i_pdpt as int, j),
            decreases 512 - i_pd,
        {
            let entry: u64 = ((i_pdpt as u64) * PAGE_SIZE_1G + (i_pd as u64) * PAGE_SIZE_2M)
                | 0x083u64;
            proof {
                assert(entry == identity_pd_entry(i_pdpt as int, i_pd as int));
            }
            dir.push(entry);
            i_pd = i_pd + 1;
        }
        pd.push(dir);
        i_pdpt = i_pdpt + 1;
    }

    let mut cursor: usize = PAGE_DIRECTORY_COUNT;
    while cursor < 512
        invariant
            PAGE_DIRECTORY_COUNT <= cursor <= 512,
            pdp@.len() == cursor,
            forall|k: int|
                0 <= k < PAGE_DIRECTORY_COUNT ==> pdp@[k] == (#[trigger] pd_bases@[k]) | 0x003,
            forall|k: int| PAGE_DIRECTORY_COUNT <= k < cursor ==> pdp@[k] == 0,
        decreases 512 - cursor,
    {
        pdp.push(0);
        cursor = cursor + 1;
    }

    let t = PageTables { pml4, pdp, pd };
    proof {
        assert forall|k: int| 0 <= k < PAGE_DIRECTORY_COUNT implies #[trigger] t.pdp@[k] & 1
            == 1 by {
            let b = pd_bases@[k];
            assert(b | 0x003u64 == 0 ==> false) by (bit_vector);
            assert((b | 0x003u64) & 1 == 1) by (bit_vector);
        }
        assert(t.pml4@[0] & 1 == 1) by {
            assert((pdp_base | 0x003u64) & 1 == 1) by (bit_vector);
        }
    }
    t
}

/// Identity-map coverage: every physical address below 64 GiB resolves
/// through PML4, PDP and directory to a present huge-page mapping whose
/// frame is the address itself rounded down to 2 MiB.
pub proof fn lemma_identity_map_covers(t: PageTables, a: u64)
    requires
        t.is_identity_map(),
        a < 64 * PAGE_SIZE_1G,
    ensures walk_target(t, a) == Option::Some(a & !0x1f_ffffu64),
{
    let i4 = ((a >> 39) & 0x1ff) as int;
    let i3 = ((a >> 30) & 0x1ff) as int;
    let i2 = ((a >> 21) & 0x1ff) as int;
    assert(a < 64 * (512 * (512 * 4096u64)) ==> (a >> 39) & 0x1ff == 0 && ((a >> 30) & 0x1ff) < 64
        && ((a >> 21) & 0x1ff) < 512) by (bit_vector);
    assert(64 * PAGE_SIZE_1G == 64 * (512 * (512 * 4096u64)));
    assert(i4 == 0);
    assert(0 <= i3 < PAGE_DIRECTORY_COUNT);
    assert(0 <= i2 < 512);
    let leaf = t.pd@[i3]@[i2];
    assert(leaf == identity_pd_entry(i3, i2));
    assert(a < 64 * (512 * (512 * 4096u64)) ==> {
        let l = ((((a >> 30) & 0x1ff) * 0x4000_0000 + ((a >> 21) & 0x1ff) * 0x20_0000) as u64)
            | 0x083u64;
        l & 1 == 1 && l & 0x80 == 0x80 && l & 0x000f_ffff_ffe0_0000u64 == a & !0x1f_ffffu64
    }) by (bit_vector);
    assert(leaf & PD_FRAME_MASK == a & !0x1f_ffffu64);
}

} // verus!
