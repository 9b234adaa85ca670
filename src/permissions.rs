//! Rendering of POSIX permission bits as `rwxrwxrwx` text.

use vstd::prelude::*;
use vstd::string::*;

verus! {

/// The three characters that stand for one principal's read, write and
/// execute permission: the letter where the permission is granted, `-` where not.
pub open spec fn triplet_text(read: bool, write: bool, execute: bool) -> Seq<char> {
    seq![
        if read { 'r' } else { '-' },
        if write { 'w' } else { '-' },
        if execute { 'x' } else { '-' },
    ]
}

/// The nine characters for a mode: owner, group and other, in that order.
pub open spec fn permission_text(mode: u32) -> Seq<char> {
    triplet_text(mode & 0o400 != 0, mode & 0o200 != 0, mode & 0o100 != 0)
        + triplet_text(mode & 0o040 != 0, mode & 0o020 != 0, mode & 0o010 != 0)
        + triplet_text(mode & 0o004 != 0, mode & 0o002 != 0, mode & 0o001 != 0)
}

/// The fixed table of the eight read/write/execute combinations, where `k`
/// holds read as 4, write as 2 and execute as 1.
pub open spec fn combination_text(k: u32) -> Seq<char> {
    if k == 0 {
        seq!['-', '-', '-']
    } else if k == 4 {
        seq!['r', '-', '-']
    } else if k == 2 {
        seq!['-', 'w', '-']
    } else if k == 1 {
        seq!['-', '-', 'x']
    } else if k == 6 {
        seq!['r', 'w', '-']
    } else if k == 5 {
        seq!['r', '-', 'x']
    } else if k == 3 {
        seq!['-', 'w', 'x']
    } else {
        seq!['r', 'w', 'x']
    }
}

/// Relies on libc's `S_IRUSR`, `S_IWUSR` and `S_IXUSR`: the owner's read,
/// write and execute bits.
#[verifier::external_body]
fn owner_bits() -> (r: (u32, u32, u32))
    ensures
        r == (0o400u32, 0o200u32, 0o100u32),
{
    (libc::S_IRUSR, libc::S_IWUSR, libc::S_IXUSR)
}

/// Relies on libc's `S_IRGRP`, `S_IWGRP` and `S_IXGRP`: the group's read,
/// write and execute bits.
#[verifier::external_body]
fn group_bits() -> (r: (u32, u32, u32))
    ensures
        r == (0o040u32, 0o020u32, 0o010u32),
{
    (libc::S_IRGRP, libc::S_IWGRP, libc::S_IXGRP)
}

/// Relies on libc's `S_IROTH`, `S_IWOTH` and `S_IXOTH`: the read, write and
/// execute bits of everyone else.
#[verifier::external_body]
fn other_bits() -> (r: (u32, u32, u32))
    ensures
        r == (0o004u32, 0o002u32, 0o001u32),
{
    (libc::S_IROTH, libc::S_IWOTH, libc::S_IXOTH)
}

/// Renders one principal's permissions: which of the `read`, `write` and
/// `execute` masks are set in `mode`.
pub fn triplet(mode: u32, read: u32, write: u32, execute: u32) -> (r: String)
    ensures
        r@ == triplet_text(mode & read != 0, mode & write != 0, mode & execute != 0),
{
    let text: &str = match (mode & read != 0, mode & write != 0, mode & execute != 0) {
        (false, false, false) => "---",
        (true, false, false) => "r--",
        (false, true, false) => "-w-",
        (false, false, true) => "--x",
        (true, false, true) => "r-x",
        (true, true, false) => "rw-",
        (false, true, true) => "-wx",
        (true, true, true) => "rwx",
    };
    proof {
        reveal_strlit("---");
        reveal_strlit("r--");
        reveal_strlit("-w-");
        reveal_strlit("--x");
        reveal_strlit("r-x");
        reveal_strlit("rw-");
        reveal_strlit("-wx");
        reveal_strlit("rwx");
    }
    let r = String::from_str(text);
    assert(r@ =~= triplet_text(mode & read != 0, mode & write != 0, mode & execute != 0));
    r
}

/// Renders the permission bits of `mode` as nine characters: owner, group, other.
pub fn parse_permissions(mode: u32) -> (r: String)
    ensures
        r@ == permission_text(mode),
        r@.len() == 9,
{
    let (ur, uw, ux) = owner_bits();
    let (gr, gw, gx) = group_bits();
    let (or, ow, ox) = other_bits();
    let user = triplet(mode, ur, uw, ux);
    let group = triplet(mode, gr, gw, gx);
    let other = triplet(mode, or, ow, ox);
    user.concat(group.as_str()).concat(other.as_str())
}

proof fn lemma_combination_bits(k: u32)
    by (bit_vector)
    requires
        k < 8,
    ensures
        (k & 4 != 0) == (k == 4 || k == 5 || k == 6 || k == 7),
        (k & 2 != 0) == (k == 2 || k == 3 || k == 6 || k == 7),
        (k & 1 != 0) == (k == 1 || k == 3 || k == 5 || k == 7),
{
}

proof fn lemma_combination(k: u32)
    requires
        k < 8,
    ensures
        triplet_text(k & 4 != 0, k & 2 != 0, k & 1 != 0) == combination_text(k),
{
    lemma_combination_bits(k);
    assert(triplet_text(k & 4 != 0, k & 2 != 0, k & 1 != 0) =~= combination_text(k));
}

/// For a mode made of one read/write/execute combination per principal, the
/// rendered permissions are the fixed table's entries for the owner's, the
/// group's and the others' combination, in that order.
pub proof fn lemma_permissions_follow_table(owner: u32, group: u32, other: u32)
    requires
        owner < 8,
        group < 8,
        other < 8,
    ensures
        permission_text((owner << 6) | (group << 3) | other) == combination_text(owner)
            + combination_text(group) + combination_text(other),
{
    let m = (owner << 6) | (group << 3) | other;
    assert(
        (m & 0o400 != 0) == (owner & 4 != 0)
        && (m & 0o200 != 0) == (owner & 2 != 0)
        && (m & 0o100 != 0) == (owner & 1 != 0)
        && (m & 0o040 != 0) == (group & 4 != 0)
        && (m & 0o020 != 0) == (group & 2 != 0)
        && (m & 0o010 != 0) == (group & 1 != 0)
        && (m & 0o004 != 0) == (other & 4 != 0)
        && (m & 0o002 != 0) == (other & 2 != 0)
        && (m & 0o001 != 0) == (other & 1 != 0)
    ) by (bit_vector)
        requires
            owner < 8,
            group < 8,
            other < 8,
            m == (owner << 6) | (group << 3) | other,
    ;
    lemma_combination(owner);
    lemma_combination(group);
    lemma_combination(other);
}

/// `bit` where `set` holds, else no bit.
pub open spec fn bit_if(set: bool, bit: u32) -> u32 {
    if set {
        bit
    } else {
        0
    }
}

/// The permission bits that a nine-character text grants: each position that
/// is not `-` grants its bit, from the owner's read bit down to the others'
/// execute bit.
pub open spec fn mode_of_text(text: Seq<char>) -> u32 {
    bit_if(text[0] != '-', 0o400) | bit_if(text[1] != '-', 0o200) | bit_if(text[2] != '-', 0o100)
        | bit_if(text[3] != '-', 0o040) | bit_if(text[4] != '-', 0o020) | bit_if(
        text[5] != '-',
        0o010,
    ) | bit_if(text[6] != '-', 0o004) | bit_if(text[7] != '-', 0o002) | bit_if(
        text[8] != '-',
        0o001,
    )
}

/// Reading the rendered permissions back gives the mode's nine permission
/// bits, and nothing else of the mode.
pub proof fn lemma_permissions_round_trip(mode: u32)
    ensures
        mode_of_text(permission_text(mode)) == mode & 0o777,
{
    let t = permission_text(mode);
    assert(t.len() == 9);
    assert((t[0] != '-') == (mode & 0o400 != 0));
    assert((t[1] != '-') == (mode & 0o200 != 0));
    assert((t[2] != '-') == (mode & 0o100 != 0));
    assert((t[3] != '-') == (mode & 0o040 != 0));
    assert((t[4] != '-') == (mode & 0o020 != 0));
    assert((t[5] != '-') == (mode & 0o010 != 0));
    assert((t[6] != '-') == (mode & 0o004 != 0));
    assert((t[7] != '-') == (mode & 0o002 != 0));
    assert((t[8] != '-') == (mode & 0o001 != 0));
    assert(bit_if(mode & 0o400 != 0, 0o400) | bit_if(mode & 0o200 != 0, 0o200) | bit_if(
        mode & 0o100 != 0,
        0o100,
    ) | bit_if(mode & 0o040 != 0, 0o040) | bit_if(mode & 0o020 != 0, 0o020) | bit_if(
        mode & 0o010 != 0,
        0o010,
    ) | bit_if(mode & 0o004 != 0, 0o004) | bit_if(mode & 0o002 != 0, 0o002) | bit_if(
        mode & 0o001 != 0,
        0o001,
    ) == mode & 0o777) by (bit_vector);
}

/// Two modes without bits beyond the nine permission bits render the same
/// only when they are the same mode.
pub proof fn lemma_permissions_distinguish_modes(first: u32, second: u32)
    requires
        first <= 0o777,
        second <= 0o777,
        permission_text(first) == permission_text(second),
    ensures
        first == second,
{
    lemma_permissions_round_trip(first);
    lemma_permissions_round_trip(second);
    assert(first <= 0o777 ==> first & 0o777 == first) by (bit_vector);
    assert(second <= 0o777 ==> second & 0o777 == second) by (bit_vector);
}

} // verus!
