use lister::permissions::{parse_permissions, triplet};

#[test]
fn triplet_covers_all_combinations() {
    let table = [
        (0, "---"),
        (4, "r--"),
        (2, "-w-"),
        (1, "--x"),
        (6, "rw-"),
        (5, "r-x"),
        (3, "-wx"),
        (7, "rwx"),
    ];
    for (bits, text) in table {
        assert_eq!(triplet(bits, 4, 2, 1), text);
    }
}

#[test]
fn permissions_follow_fixed_table_per_principal() {
    let table = ["---", "--x", "-w-", "-wx", "r--", "r-x", "rw-", "rwx"];
    for owner in 0..8u32 {
        for group in 0..8u32 {
            for other in 0..8u32 {
                let mode = (owner << 6) | (group << 3) | other;
                let expected = format!(
                    "{}{}{}",
                    table[owner as usize], table[group as usize], table[other as usize]
                );
                assert_eq!(parse_permissions(mode), expected);
            }
        }
    }
}

#[test]
fn permissions_of_common_modes() {
    assert_eq!(parse_permissions(0o644), "rw-r--r--");
    assert_eq!(parse_permissions(0o755), "rwxr-xr-x");
    assert_eq!(parse_permissions(0o000), "---------");
    assert_eq!(parse_permissions(0o777), "rwxrwxrwx");
}

#[test]
fn permissions_ignore_file_type_bits() {
    assert_eq!(parse_permissions(0o100644), "rw-r--r--");
    assert_eq!(parse_permissions(0o040755), "rwxr-xr-x");
    assert_eq!(parse_permissions(0o4755), "rwxr-xr-x");
}

fn mode_of(text: &str) -> u32 {
    let mut mode = 0u32;
    for (i, c) in text.chars().enumerate() {
        if c != '-' {
            mode |= 1 << (8 - i);
        }
    }
    mode
}

#[test]
fn permissions_read_back_to_mode_bits() {
    for mode in [0o644u32, 0o755, 0o100600, 0o4711, 0o777, 0, 0o1234] {
        assert_eq!(mode_of(&parse_permissions(mode)), mode & 0o777);
    }
}
