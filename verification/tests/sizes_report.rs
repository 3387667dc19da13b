use mac_cleaner::report::{size_text, target_row, RowStyle};
use mac_cleaner::sizes::{
    block_bytes, freed_between, physical_size, removed_bytes, sum_sizes, FileStat, Removal,
};
use mac_cleaner::targets::{CleanTarget, RiskLevel};

fn file(nlink: u64, ino: u64, blocks: u64) -> FileStat {
    FileStat { is_file: true, nlink, ino, blocks }
}

#[test]
fn physical_size_counts_blocks_of_files() {
    let stats = vec![
        file(1, 10, 8),
        FileStat { is_file: false, nlink: 3, ino: 11, blocks: 100 },
        file(1, 12, 2),
    ];
    assert_eq!(physical_size(&stats), Some((8 + 2) * 512));
    assert_eq!(physical_size(&Vec::new()), Some(0));
}

#[test]
fn hard_links_are_counted_once() {
    let stats = vec![file(2, 7, 4), file(2, 7, 4), file(1, 8, 1), file(3, 9, 2), file(3, 9, 2), file(3, 9, 2)];
    assert_eq!(physical_size(&stats), Some((4 + 1 + 2) * 512));
    // single-link files with the same inode number are each counted
    let stats = vec![file(1, 5, 1), file(1, 5, 1)];
    assert_eq!(physical_size(&stats), Some(2 * 512));
    // a single-link file does not hide a later hard link of the same inode
    let stats = vec![file(1, 5, 1), file(2, 5, 3)];
    assert_eq!(physical_size(&stats), Some(4 * 512));
}

#[test]
fn physical_size_overflow_is_reported() {
    assert_eq!(physical_size(&vec![file(1, 1, u64::MAX / 512 + 1)]), None);
    assert_eq!(physical_size(&vec![file(1, 1, u64::MAX / 512), file(1, 2, u64::MAX / 512)]), None);
    assert_eq!(physical_size(&vec![file(1, 1, u64::MAX / 512)]), Some(u64::MAX / 512 * 512));
}

#[test]
fn sums_and_block_bytes() {
    assert_eq!(sum_sizes(&vec![1, 2, 3]), Some(6));
    assert_eq!(sum_sizes(&vec![]), Some(0));
    assert_eq!(sum_sizes(&vec![u64::MAX, 1]), None);
    assert_eq!(sum_sizes(&vec![u64::MAX, 0]), Some(u64::MAX));
    assert_eq!(block_bytes(3), Some(1536));
    assert_eq!(block_bytes(u64::MAX), None);
    assert_eq!(freed_between(100, 40), 60);
    assert_eq!(freed_between(40, 100), 0);
}

#[test]
fn removed_bytes_counts_only_removed_entries() {
    let r = vec![
        Removal { size: 10, removed: true },
        Removal { size: 20, removed: false },
        Removal { size: 5, removed: true },
    ];
    assert_eq!(removed_bytes(&r), Some(15));
    assert_eq!(removed_bytes(&vec![Removal { size: u64::MAX, removed: true }, Removal { size: 1, removed: true }]), None);
    assert_eq!(removed_bytes(&vec![Removal { size: u64::MAX, removed: true }, Removal { size: 1, removed: false }]), Some(u64::MAX));
}

#[test]
fn size_text_renders_bytes() {
    assert_eq!(size_text(0), "0 B");
    assert_eq!(size_text(512), "512 B");
    assert_eq!(size_text(1023), "1023 B");
    assert_eq!(size_text(1024), "1.0 KiB");
    assert_eq!(size_text(1536), "1.5 KiB");
    assert_eq!(size_text(10 * 1024 * 1024), "10.0 MiB");
}

#[test]
fn rows_carry_badges() {
    let t = CleanTarget::new("Docker", "Prune", "/p".to_string(), "All data")
        .with_risk(RiskLevel::High)
        .with_sudo();
    let r = target_row(&t, 2048, false, RowStyle::Table);
    assert_eq!(r.name, "Prune");
    assert_eq!(r.category, "Docker");
    assert_eq!(r.size_text, "2.0 KiB");
    assert_eq!(r.description, "All data");
    assert_eq!(r.path, "/p");
    assert_eq!(r.risk_badge, " [HIGH]");
    assert_eq!(r.sudo_badge, " [SUDO]");
    let r = target_row(&t, 2048, true, RowStyle::Picker);
    assert_eq!(r.risk_badge, " 🚨HIGH");
    assert_eq!(r.sudo_badge, "");
    let m = CleanTarget::new("c", "n", "/p".to_string(), "d").with_risk(RiskLevel::Medium);
    assert_eq!(target_row(&m, 0, false, RowStyle::Table).risk_badge, " [MED]");
    assert_eq!(target_row(&m, 0, false, RowStyle::Picker).risk_badge, " ⚠MED");
    let l = CleanTarget::new("c", "n", "/p".to_string(), "d");
    assert_eq!(target_row(&l, 0, false, RowStyle::Table).risk_badge, "");
    assert_eq!(target_row(&l, 0, false, RowStyle::Table).sudo_badge, "");
}

#[test]
fn scan_totals_add_over_concatenation_and_ignore_order() {
    let a = vec![3u64, 0, 7];
    let b = vec![5u64, 11];
    let mut ab = a.clone();
    ab.extend(&b);
    assert_eq!(sum_sizes(&ab), Some(sum_sizes(&a).unwrap() + sum_sizes(&b).unwrap()));
    assert_eq!(sum_sizes(&Vec::new()), Some(0));
    let permuted = vec![11u64, 0, 5, 7, 3];
    assert_eq!(sum_sizes(&permuted), sum_sizes(&ab));
}
