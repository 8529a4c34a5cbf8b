use dacledit::guid::Guid;
use dacledit::sids::{
    well_known_sid_name, well_known_sids, AccessMask, RightsGuid, SimplePermissions,
};

#[test]
fn rights_guid_parses_to_its_identifier() {
    assert_eq!(
        RightsGuid::WriteMembers.as_uuid().value,
        0xbf9679c0_0de6_11d0_a285_00aa003049e2
    );
    assert_eq!(
        RightsGuid::ResetPassword.as_uuid().value,
        0x00299570_246d_11d0_a768_00aa006e0529
    );
    assert_eq!(
        RightsGuid::DsReplicationGetChanges.as_uuid().value,
        0x1131f6aa_9c07_11d1_f79f_00c04fc2dcd2
    );
    assert_eq!(
        RightsGuid::DsReplicationGetChangesAll.as_uuid().value,
        0x1131f6ad_9c07_11d1_f79f_00c04fc2dcd2
    );
}

#[test]
fn rights_guid_agrees_with_the_uuid_parser() {
    let expected = uuid::Uuid::parse_str("00299570-246d-11d0-a768-00aa006e0529").unwrap();
    assert_eq!(RightsGuid::ResetPassword.as_uuid().value, expected.as_u128());
}

#[test]
fn guid_text_is_hyphenated_lower_case() {
    let mut out = String::from("<");
    Guid { value: 0xBF9679C0_0DE6_11D0_A285_00AA003049E2 }.push_text(&mut out);
    assert_eq!(out, "<bf9679c0-0de6-11d0-a285-00aa003049e2");
}

#[test]
fn guid_text_of_the_extremes() {
    let mut zero = String::new();
    Guid { value: 0 }.push_text(&mut zero);
    assert_eq!(zero, "00000000-0000-0000-0000-000000000000");
    let mut ones = String::new();
    Guid { value: u128::MAX }.push_text(&mut ones);
    assert_eq!(ones, "ffffffff-ffff-ffff-ffff-ffffffffffff");
}

#[test]
fn guid_text_round_trips_through_the_uuid_parser() {
    let values = [1u128, 0x0123_4567_89ab_cdef_0123_4567_89ab_cdef, u128::MAX - 1];
    for value in values {
        let mut text = String::new();
        Guid { value }.push_text(&mut text);
        assert_eq!(uuid::Uuid::parse_str(&text).unwrap().as_u128(), value);
        assert_eq!(uuid::Uuid::from_u128(value).hyphenated().to_string(), text);
    }
}

#[test]
fn rights_guid_names() {
    assert_eq!(RightsGuid::from_name("WriteMembers"), Some(RightsGuid::WriteMembers));
    assert_eq!(RightsGuid::from_name("ResetPassword"), Some(RightsGuid::ResetPassword));
    assert_eq!(
        RightsGuid::from_name("DS_Replication_Get_Changes"),
        Some(RightsGuid::DsReplicationGetChanges)
    );
    assert_eq!(
        RightsGuid::from_name("DS_Replication_Get_Changes_All"),
        Some(RightsGuid::DsReplicationGetChangesAll)
    );
    assert_eq!(RightsGuid::from_name("resetpassword"), None);
    assert_eq!(RightsGuid::from_name("Read"), None);
    assert_eq!(RightsGuid::from_name(""), None);
}

#[test]
fn simple_permission_masks() {
    assert_eq!(SimplePermissions::FullControl.mask(), 0xf01ff);
    assert_eq!(SimplePermissions::Modify.mask(), 0x0301bf);
    assert_eq!(SimplePermissions::ReadAndExecute.mask(), 0x0200a9);
    assert_eq!(SimplePermissions::ReadAndWrite.mask(), 0x02019f);
    assert_eq!(SimplePermissions::Read.mask(), 0x20094);
    assert_eq!(SimplePermissions::Write.mask(), 0x200bc);
}

#[test]
fn simple_permission_names() {
    assert_eq!(SimplePermissions::from_name("FullControl"), Some(SimplePermissions::FullControl));
    assert_eq!(SimplePermissions::from_name("Modify"), Some(SimplePermissions::Modify));
    assert_eq!(
        SimplePermissions::from_name("ReadAndExecute"),
        Some(SimplePermissions::ReadAndExecute)
    );
    assert_eq!(SimplePermissions::from_name("ReadAndWrite"), Some(SimplePermissions::ReadAndWrite));
    assert_eq!(SimplePermissions::from_name("Read"), Some(SimplePermissions::Read));
    assert_eq!(SimplePermissions::from_name("Write"), Some(SimplePermissions::Write));
    assert_eq!(SimplePermissions::from_name("read"), None);
    assert_eq!(SimplePermissions::from_name("GenericRead"), None);
    assert_eq!(SimplePermissions::from_name("Read "), None);
}

#[test]
fn access_mask_flag_names_and_values() {
    let table: [(&str, u32); 20] = [
        ("GenericRead", 0x8000_0000),
        ("GenericWrite", 0x4000_0000),
        ("GenericExecute", 0x2000_0000),
        ("GenericAll", 0x1000_0000),
        ("MaximumAllowed", 0x0200_0000),
        ("AccessSystemSecurity", 0x0100_0000),
        ("Synchronize", 0x0010_0000),
        ("WriteOwner", 0x0008_0000),
        ("WriteDacl", 0x0004_0000),
        ("ReadControl", 0x0002_0000),
        ("Delete", 0x0001_0000),
        ("AllExtendedRights", 0x0000_0100),
        ("ListObject", 0x0000_0080),
        ("DeleteTree", 0x0000_0040),
        ("WriteProperties", 0x0000_0020),
        ("ReadProperties", 0x0000_0010),
        ("Self", 0x0000_0008),
        ("ListChildObjects", 0x0000_0004),
        ("DeleteChild", 0x0000_0002),
        ("CreateChild", 0x0000_0001),
    ];
    for (name, bits) in table {
        assert_eq!(AccessMask::from_name(name), Some(AccessMask { bits }));
    }
    assert_eq!(AccessMask::from_name("GENERIC_READ"), None);
    assert_eq!(AccessMask::from_name("genericread"), None);
    assert_eq!(AccessMask::from_name("Read"), None);
    assert_eq!(AccessMask::from_name(""), None);
}

#[test]
fn access_mask_flags_never_overlap() {
    let flags = [
        AccessMask::GENERIC_READ,
        AccessMask::GENERIC_WRITE,
        AccessMask::GENERIC_EXECUTE,
        AccessMask::GENERIC_ALL,
        AccessMask::MAXIMUM_ALLOWED,
        AccessMask::ACCESS_SYSTEM_SECURITY,
        AccessMask::SYNCHRONIZE,
        AccessMask::WRITE_OWNER,
        AccessMask::WRITE_DACL,
        AccessMask::READ_CONTROL,
        AccessMask::DELETE,
        AccessMask::ALL_EXTENDED_RIGHTS,
        AccessMask::LIST_OBJECT,
        AccessMask::DELETE_TREE,
        AccessMask::WRITE_PROPERTIES,
        AccessMask::READ_PROPERTIES,
        AccessMask::SELF,
        AccessMask::LIST_CHILD_OBJECTS,
        AccessMask::DELETE_CHILD,
        AccessMask::CREATE_CHILD,
    ];
    for (i, a) in flags.iter().enumerate() {
        assert_eq!(a.count_ones(), 1);
        for b in flags.iter().skip(i + 1) {
            assert_eq!(a & b, 0);
        }
    }
}

#[test]
fn access_mask_operations() {
    let read = AccessMask { bits: AccessMask::GENERIC_READ };
    let write = AccessMask { bits: AccessMask::GENERIC_WRITE };
    let both = read.union(write);
    assert_eq!(both.bits(), 0xC000_0000);
    assert_eq!(both.intersection(read), read);
    assert_eq!(read.intersection(write), AccessMask::empty());
    assert!(both.contains(read));
    assert!(both.contains(AccessMask::empty()));
    assert!(!read.contains(both));
    assert_eq!(AccessMask::empty().bits(), 0);
    assert_eq!(read.union(read), read);
}

#[test]
fn well_known_sid_lookup() {
    assert_eq!(well_known_sid_name("S-1-5-32-544"), Some("Administrators"));
    assert_eq!(well_known_sid_name("S-1-0"), Some("Null Authority"));
    assert_eq!(well_known_sid_name("S-1-0-0"), Some("Nobody"));
    assert_eq!(well_known_sid_name("S-1-5-32-580"), Some("BUILTIN\\Remote Management Users"));
    assert_eq!(
        well_known_sid_name("S-1-5-83-0"),
        Some("NT VIRTUAL MACHINE\\Virtual Machines")
    );
    assert_eq!(well_known_sid_name("S-1-5-21-EXAMPLE-1234"), None);
    assert_eq!(well_known_sid_name("s-1-0"), None);
    assert_eq!(well_known_sid_name(""), None);
}

#[test]
fn well_known_sid_table_has_each_identifier_once() {
    let table = well_known_sids();
    assert_eq!(table.len(), 74);
    for (i, a) in table.iter().enumerate() {
        assert!(a.sid.starts_with("S-1-"));
        assert_eq!(well_known_sid_name(a.sid), Some(a.friendly_name));
        for b in table.iter().skip(i + 1) {
            assert_ne!(a.sid, b.sid);
        }
    }
}
