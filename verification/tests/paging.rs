use kernel_core::paging::{
    PAGE_DIRECTORY_COUNT, PAGE_SIZE_1G, PAGE_SIZE_2M, setup_identity_page_table,
};

fn pd_bases() -> Vec<u64> {
    (0..PAGE_DIRECTORY_COUNT as u64).map(|i| 0x2000 + i * 0x1000).collect()
}

#[test]
fn non_leaf_entries_point_at_their_tables_with_present_writable() {
    let t = setup_identity_page_table(0x1000, &pd_bases());
    assert_eq!(t.pml4.len(), 512);
    assert_eq!(t.pml4[0], 0x1000 | 0x003);
    for i in 1..512 {
        assert_eq!(t.pml4[i], 0);
    }
    assert_eq!(t.pdp.len(), 512);
    for i in 0..PAGE_DIRECTORY_COUNT {
        assert_eq!(t.pdp[i], (0x2000 + i as u64 * 0x1000) | 0x003);
    }
    for i in PAGE_DIRECTORY_COUNT..512 {
        assert_eq!(t.pdp[i], 0);
    }
}

#[test]
fn directory_entries_identity_map_two_mebibyte_pages() {
    let t = setup_identity_page_table(0x1000, &pd_bases());
    assert_eq!(t.pd.len(), PAGE_DIRECTORY_COUNT);
    assert_eq!(t.pd[0].len(), 512);
    assert_eq!(t.pd[0][0], 0x083);
    assert_eq!(t.pd[0][1], PAGE_SIZE_2M | 0x083);
    assert_eq!(t.pd[1][0], PAGE_SIZE_1G | 0x083);
    assert_eq!(t.pd[63][511], (63 * PAGE_SIZE_1G + 511 * PAGE_SIZE_2M) | 0x083);
}

#[test]
fn a_sample_address_walks_to_its_two_mebibyte_frame() {
    let t = setup_identity_page_table(0x1000, &pd_bases());
    // 0x1_2345_6789 sits in PDP slot 4, directory entry 0x11a.
    let a: u64 = 0x1_2345_6789;
    let pdp_index = (a >> 30) as usize;
    let pd_index = ((a >> 21) & 0x1ff) as usize;
    assert_eq!(pdp_index, 4);
    let leaf = t.pd[pdp_index][pd_index];
    assert_eq!(leaf & 1, 1);
    assert_eq!(leaf & 0x80, 0x80);
    assert_eq!(leaf & 0x000f_ffff_ffe0_0000, a & !0x1f_ffff);
}
