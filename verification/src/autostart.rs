//! Start with the operating system: where the entry lives in the user's
//! registry and how its state is read.

use vstd::prelude::*;

verus! {

/// Registry key, under the current user, whose values start programs at
/// logon.
pub const REG_RUN_KEY: &'static str = "Software\\Microsoft\\Windows\\CurrentVersion\\Run";

/// Registry key, under the current user, where the task manager records
/// whether a logon entry is allowed.
pub const REG_APPROVED_KEY: &'static str =
    "Software\\Microsoft\\Windows\\CurrentVersion\\Explorer\\StartupApproved\\Run";

/// Name of the program's value under both keys.
pub const REG_VALUE_NAME: &'static str = "SyncRGB";

/// Length of an approval record.
pub const APPROVAL_RECORD_LEN: usize = 12;

/// An approval record says that the user switched the entry off: its first
/// byte has the low bit set and the second bit clear.
pub open spec fn disabled_by_user(record: Seq<u8>) -> bool {
    record.len() > 0 && record[0] & 1 != 0 && record[0] & 2 == 0
}

/// Whether the program starts at logon: its logon entry exists, and no
/// approval record switches it off. `approval` is the approval record when
/// it could be read.
pub fn autostart_enabled(has_run_entry: bool, approval: Option<&Vec<u8>>) -> (r: bool)
    ensures
        r == (has_run_entry && !(approval matches Some(rec) && disabled_by_user(rec@))),
{
    if !has_run_entry {
        return false;
    }
    match approval {
        Some(rec) => !(rec.len() > 0 && rec[0] & 1 != 0 && rec[0] & 2 == 0),
        None => true,
    }
}

/// The approval record that marks the entry as allowed: 0x02 followed by
/// eleven zero bytes.
pub open spec fn enabled_record() -> Seq<u8> {
    seq![2u8, 0u8, 0u8, 0u8, 0u8, 0u8, 0u8, 0u8, 0u8, 0u8, 0u8, 0u8]
}

/// Builds the approval record written when autostart is switched on.
pub fn approval_enabled_record() -> (r: Vec<u8>)
    ensures
        r@ == enabled_record(),
{
    let mut r: Vec<u8> = Vec::with_capacity(APPROVAL_RECORD_LEN);
    r.push(2);
    let mut i: usize = 1;
    while i < APPROVAL_RECORD_LEN
        invariant
            1 <= i <= APPROVAL_RECORD_LEN,
            r@ == enabled_record().take(i as int),
        decreases APPROVAL_RECORD_LEN - i,
    {
        r.push(0);
        i = i + 1;
        proof {
            assert(r@ == enabled_record().take(i as int));
        }
    }
    r
}

/// The approval record written when autostart is switched on does not
/// switch the entry off, so the entry written with it reads back as
/// enabled.
pub proof fn law_enabled_entry_reads_back()
    ensures
        !disabled_by_user(enabled_record()),
{
    assert((2u8 & 1u8) == 0u8) by (bit_vector);
}

/// An approval record switches the entry off exactly when its first byte is
/// 1 more than a multiple of 4 (low bit set, second bit clear); an empty
/// record never does.
pub proof fn law_disabled_record_in_numbers(record: Seq<u8>)
    ensures
        disabled_by_user(record) <==> record.len() > 0 && record[0] % 4 == 1,
{
    if record.len() > 0 {
        let b = record[0];
        assert((b & 1 != 0 && b & 2 == 0) <==> b % 4 == 1) by (bit_vector);
    }
}

} // verus!
