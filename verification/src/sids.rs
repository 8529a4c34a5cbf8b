//! The catalogs: extended rights and their identifiers, access-mask flags, permission
//! presets, and the well-known security identifiers.

use vstd::prelude::*;
use crate::guid::{hyphenated, is_canonical, is_lower_hex, parse_uuid, Guid};
use crate::text::str_eq;

verus! {

/// An extended (control) right, each bound to one fixed 128-bit identifier.
#[derive(Debug, Clone, Copy, PartialEq, Eq, Structural)]
pub enum RightsGuid {
    WriteMembers,
    ResetPassword,
    DsReplicationGetChanges,
    DsReplicationGetChangesAll,
}

impl RightsGuid {
    /// The right that `name` names in the catalog of extended rights, if any. Names match
    /// exactly, letter case included.
    pub open spec fn named(name: Seq<char>) -> Option<RightsGuid> {
        if name == "WriteMembers"@ {
            Some(RightsGuid::WriteMembers)
        } else if name == "ResetPassword"@ {
            Some(RightsGuid::ResetPassword)
        } else if name == "DS_Replication_Get_Changes"@ {
            Some(RightsGuid::DsReplicationGetChanges)
        } else if name == "DS_Replication_Get_Changes_All"@ {
            Some(RightsGuid::DsReplicationGetChangesAll)
        } else {
            None
        }
    }

    /// Looks `name` up in the catalog of extended rights.
    pub fn from_name(name: &str) -> (r: Option<RightsGuid>)
        ensures
            r == RightsGuid::named(name@),
    {
        if str_eq(name, "WriteMembers") {
            Some(RightsGuid::WriteMembers)
        } else if str_eq(name, "ResetPassword") {
            Some(RightsGuid::ResetPassword)
        } else if str_eq(name, "DS_Replication_Get_Changes") {
            Some(RightsGuid::DsReplicationGetChanges)
        } else if str_eq(name, "DS_Replication_Get_Changes_All") {
            Some(RightsGuid::DsReplicationGetChangesAll)
        } else {
            None
        }
    }

    /// The identifier bound to the right, in canonical text.
    pub open spec fn text(self) -> Seq<char> {
        match self {
            RightsGuid::WriteMembers => "bf9679c0-0de6-11d0-a285-00aa003049e2"@,
            RightsGuid::ResetPassword => "00299570-246d-11d0-a768-00aa006e0529"@,
            RightsGuid::DsReplicationGetChanges => "1131f6aa-9c07-11d1-f79f-00c04fc2dcd2"@,
            RightsGuid::DsReplicationGetChangesAll => "1131f6ad-9c07-11d1-f79f-00c04fc2dcd2"@,
        }
    }

    /// The text of each right has the canonical shape.
    pub proof fn lemma_text_is_canonical(self)
        ensures
            is_canonical(self.text()),
    {
        match self {
            RightsGuid::WriteMembers => {
                reveal_strlit("bf9679c0-0de6-11d0-a285-00aa003049e2");
            },
            RightsGuid::ResetPassword => {
                reveal_strlit("00299570-246d-11d0-a768-00aa006e0529");
            },
            RightsGuid::DsReplicationGetChanges => {
                reveal_strlit("1131f6aa-9c07-11d1-f79f-00c04fc2dcd2");
            },
            RightsGuid::DsReplicationGetChangesAll => {
                reveal_strlit("1131f6ad-9c07-11d1-f79f-00c04fc2dcd2");
            },
        }
        let s = self.text();
        assert forall|i: int|
            0 <= i < 36 && i != 8 && i != 13 && i != 18 && i != 23 implies is_lower_hex(
            #[trigger] s[i],
        ) by {}
    }

    /// The identifier bound to the right, parsed from its canonical text.
    pub fn as_uuid(&self) -> (id: Guid)
        ensures
            hyphenated(id.value) == self.text(),
    {
        let text = match self {
            RightsGuid::WriteMembers => "bf9679c0-0de6-11d0-a285-00aa003049e2",
            RightsGuid::ResetPassword => "00299570-246d-11d0-a768-00aa006e0529",
            RightsGuid::DsReplicationGetChanges => "1131f6aa-9c07-11d1-f79f-00c04fc2dcd2",
            RightsGuid::DsReplicationGetChangesAll => "1131f6ad-9c07-11d1-f79f-00c04fc2dcd2",
        };
        proof {
            self.lemma_text_is_canonical();
        }
        let parsed = parse_uuid(text);
        Guid { value: parsed.unwrap() }
    }
}

/// A set of access rights, held as the bits of a 32-bit access mask.
#[derive(Debug, Clone, Copy, PartialEq, Eq, Structural)]
pub struct AccessMask {
    pub bits: u32,
}

impl AccessMask {
    pub const GENERIC_READ: u32 = 0x8000_0000;

    pub const GENERIC_WRITE: u32 = 0x4000_0000;

    pub const GENERIC_EXECUTE: u32 = 0x2000_0000;

    pub const GENERIC_ALL: u32 = 0x1000_0000;

    pub const MAXIMUM_ALLOWED: u32 = 0x0200_0000;

    pub const ACCESS_SYSTEM_SECURITY: u32 = 0x0100_0000;

    pub const SYNCHRONIZE: u32 = 0x0010_0000;

    pub const WRITE_OWNER: u32 = 0x0008_0000;

    pub const WRITE_DACL: u32 = 0x0004_0000;

    pub const READ_CONTROL: u32 = 0x0002_0000;

    pub const DELETE: u32 = 0x0001_0000;

    pub const ALL_EXTENDED_RIGHTS: u32 = 0x0000_0100;

    pub const LIST_OBJECT: u32 = 0x0000_0080;

    pub const DELETE_TREE: u32 = 0x0000_0040;

    pub const WRITE_PROPERTIES: u32 = 0x0000_0020;

    pub const READ_PROPERTIES: u32 = 0x0000_0010;

    pub const SELF: u32 = 0x0000_0008;

    pub const LIST_CHILD_OBJECTS: u32 = 0x0000_0004;

    pub const DELETE_CHILD: u32 = 0x0000_0002;

    pub const CREATE_CHILD: u32 = 0x0000_0001;

    /// The bit that `name` names in the catalog of access-mask flags, if any. Names match
    /// exactly, letter case included.
    pub open spec fn named(name: Seq<char>) -> Option<u32> {
        if name == "GenericRead"@ {
            Some(AccessMask::GENERIC_READ)
        } else if name == "GenericWrite"@ {
            Some(AccessMask::GENERIC_WRITE)
        } else if name == "GenericExecute"@ {
            Some(AccessMask::GENERIC_EXECUTE)
        } else if name == "GenericAll"@ {
            Some(AccessMask::GENERIC_ALL)
        } else if name == "MaximumAllowed"@ {
            Some(AccessMask::MAXIMUM_ALLOWED)
        } else if name == "AccessSystemSecurity"@ {
            Some(AccessMask::ACCESS_SYSTEM_SECURITY)
        } else if name == "Synchronize"@ {
            Some(AccessMask::SYNCHRONIZE)
        } else if name == "WriteOwner"@ {
            Some(AccessMask::WRITE_OWNER)
        } else if name == "WriteDacl"@ {
            Some(AccessMask::WRITE_DACL)
        } else if name == "ReadControl"@ {
            Some(AccessMask::READ_CONTROL)
        } else if name == "Delete"@ {
            Some(AccessMask::DELETE)
        } else if name == "AllExtendedRights"@ {
            Some(AccessMask::ALL_EXTENDED_RIGHTS)
        } else if name == "ListObject"@ {
            Some(AccessMask::LIST_OBJECT)
        } else if name == "DeleteTree"@ {
            Some(AccessMask::DELETE_TREE)
        } else if name == "WriteProperties"@ {
            Some(AccessMask::WRITE_PROPERTIES)
        } else if name == "ReadProperties"@ {
            Some(AccessMask::READ_PROPERTIES)
        } else if name == "Self"@ {
            Some(AccessMask::SELF)
        } else if name == "ListChildObjects"@ {
            Some(AccessMask::LIST_CHILD_OBJECTS)
        } else if name == "DeleteChild"@ {
            Some(AccessMask::DELETE_CHILD)
        } else if name == "CreateChild"@ {
            Some(AccessMask::CREATE_CHILD)
        } else {
            None
        }
    }

    /// Looks `name` up in the catalog of access-mask flags.
    pub fn from_name(name: &str) -> (r: Option<AccessMask>)
        ensures
            r == match AccessMask::named(name@) {
                Some(bits) => Some(AccessMask { bits }),
                None => None,
            },
    {
        if str_eq(name, "GenericRead") {
            Some(AccessMask { bits: AccessMask::GENERIC_READ })
        } else if str_eq(name, "GenericWrite") {
            Some(AccessMask { bits: AccessMask::GENERIC_WRITE })
        } else if str_eq(name, "GenericExecute") {
            Some(AccessMask { bits: AccessMask::GENERIC_EXECUTE })
        } else if str_eq(name, "GenericAll") {
            Some(AccessMask { bits: AccessMask::GENERIC_ALL })
        } else if str_eq(name, "MaximumAllowed") {
            Some(AccessMask { bits: AccessMask::MAXIMUM_ALLOWED })
        } else if str_eq(name, "AccessSystemSecurity") {
            Some(AccessMask { bits: AccessMask::ACCESS_SYSTEM_SECURITY })
        } else if str_eq(name, "Synchronize") {
            Some(AccessMask { bits: AccessMask::SYNCHRONIZE })
        } else if str_eq(name, "WriteOwner") {
            Some(AccessMask { bits: AccessMask::WRITE_OWNER })
        } else if str_eq(name, "WriteDacl") {
            Some(AccessMask { bits: AccessMask::WRITE_DACL })
        } else if str_eq(name, "ReadControl") {
            Some(AccessMask { bits: AccessMask::READ_CONTROL })
        } else if str_eq(name, "Delete") {
            Some(AccessMask { bits: AccessMask::DELETE })
        } else if str_eq(name, "AllExtendedRights") {
            Some(AccessMask { bits: AccessMask::ALL_EXTENDED_RIGHTS })
        } else if str_eq(name, "ListObject") {
            Some(AccessMask { bits: AccessMask::LIST_OBJECT })
        } else if str_eq(name, "DeleteTree") {
            Some(AccessMask { bits: AccessMask::DELETE_TREE })
        } else if str_eq(name, "WriteProperties") {
            Some(AccessMask { bits: AccessMask::WRITE_PROPERTIES })
        } else if str_eq(name, "ReadProperties") {
            Some(AccessMask { bits: AccessMask::READ_PROPERTIES })
        } else if str_eq(name, "Self") {
            Some(AccessMask { bits: AccessMask::SELF })
        } else if str_eq(name, "ListChildObjects") {
            Some(AccessMask { bits: AccessMask::LIST_CHILD_OBJECTS })
        } else if str_eq(name, "DeleteChild") {
            Some(AccessMask { bits: AccessMask::DELETE_CHILD })
        } else if str_eq(name, "CreateChild") {
            Some(AccessMask { bits: AccessMask::CREATE_CHILD })
        } else {
            None
        }
    }

    /// The set without any right.
    pub fn empty() -> (r: AccessMask)
        ensures
            r.bits == 0,
    {
        AccessMask { bits: 0 }
    }

    /// The numeric access mask.
    pub fn bits(&self) -> (r: u32)
        ensures
            r == self.bits,
    {
        self.bits
    }

    /// The rights of either set.
    pub fn union(self, other: AccessMask) -> (r: AccessMask)
        ensures
            r.bits == self.bits | other.bits,
    {
        AccessMask { bits: self.bits | other.bits }
    }

    /// The rights of both sets.
    pub fn intersection(self, other: AccessMask) -> (r: AccessMask)
        ensures
            r.bits == self.bits & other.bits,
    {
        AccessMask { bits: self.bits & other.bits }
    }

    /// Whether every right of `other` is in this set.
    pub fn contains(&self, other: AccessMask) -> (r: bool)
        ensures
            r == (self.bits & other.bits == other.bits),
    {
        self.bits & other.bits == other.bits
    }
}

/// A preset of permissions, each bound to one fixed access mask.
#[derive(Debug, Clone, Copy, PartialEq, Eq, Structural)]
pub enum SimplePermissions {
    FullControl,
    Modify,
    ReadAndExecute,
    ReadAndWrite,
    Read,
    Write,
}

impl SimplePermissions {
    /// The access mask bound to the preset.
    pub open spec fn spec_mask(self) -> u32 {
        match self {
            SimplePermissions::FullControl => 0xf01ff,
            SimplePermissions::Modify => 0x0301bf,
            SimplePermissions::ReadAndExecute => 0x0200a9,
            SimplePermissions::ReadAndWrite => 0x02019f,
            SimplePermissions::Read => 0x20094,
            SimplePermissions::Write => 0x200bc,
        }
    }

    /// The access mask bound to the preset.
    #[verifier::when_used_as_spec(spec_mask)]
    pub fn mask(self) -> (r: u32)
        ensures
            r == self.spec_mask(),
    {
        match self {
            SimplePermissions::FullControl => 0xf01ff,
            SimplePermissions::Modify => 0x0301bf,
            SimplePermissions::ReadAndExecute => 0x0200a9,
            SimplePermissions::ReadAndWrite => 0x02019f,
            SimplePermissions::Read => 0x20094,
            SimplePermissions::Write => 0x200bc,
        }
    }

    /// The preset that `name` names in the catalog of presets, if any. Names match exactly,
    /// letter case included.
    pub open spec fn named(name: Seq<char>) -> Option<SimplePermissions> {
        if name == "FullControl"@ {
            Some(SimplePermissions::FullControl)
        } else if name == "Modify"@ {
            Some(SimplePermissions::Modify)
        } else if name == "ReadAndExecute"@ {
            Some(SimplePermissions::ReadAndExecute)
        } else if name == "ReadAndWrite"@ {
            Some(SimplePermissions::ReadAndWrite)
        } else if name == "Read"@ {
            Some(SimplePermissions::Read)
        } else if name == "Write"@ {
            Some(SimplePermissions::Write)
        } else {
            None
        }
    }

    /// Looks `name` up in the catalog of presets.
    pub fn from_name(name: &str) -> (r: Option<SimplePermissions>)
        ensures
            r == SimplePermissions::named(name@),
    {
        if str_eq(name, "FullControl") {
            Some(SimplePermissions::FullControl)
        } else if str_eq(name, "Modify") {
            Some(SimplePermissions::Modify)
        } else if str_eq(name, "ReadAndExecute") {
            Some(SimplePermissions::ReadAndExecute)
        } else if str_eq(name, "ReadAndWrite") {
            Some(SimplePermissions::ReadAndWrite)
        } else if str_eq(name, "Read") {
            Some(SimplePermissions::Read)
        } else if str_eq(name, "Write") {
            Some(SimplePermissions::Write)
        } else {
            None
        }
    }
}

/// Whether exactly one bit of `v` is set.
pub open spec fn is_single_bit(v: u32) -> bool {
    v != 0 && v & ((v - 1) as u32) == 0
}

/// The flags of the catalog never overlap: each is a single bit, and two different names
/// name different bits.
pub proof fn lemma_flags_do_not_overlap(a: Seq<char>, b: Seq<char>)
    requires
        AccessMask::named(a) is Some,
        AccessMask::named(b) is Some,
        a != b,
    ensures
        is_single_bit(AccessMask::named(a)->0),
        is_single_bit(AccessMask::named(b)->0),
        AccessMask::named(a)->0 & AccessMask::named(b)->0 == 0,
{
    let x = AccessMask::named(a)->0;
    let y = AccessMask::named(b)->0;
    assert(is_single_bit(AccessMask::GENERIC_READ)
        && is_single_bit(AccessMask::GENERIC_WRITE)
        && is_single_bit(AccessMask::GENERIC_EXECUTE)
        && is_single_bit(AccessMask::GENERIC_ALL)
        && is_single_bit(AccessMask::MAXIMUM_ALLOWED)
        && is_single_bit(AccessMask::ACCESS_SYSTEM_SECURITY)
        && is_single_bit(AccessMask::SYNCHRONIZE)
        && is_single_bit(AccessMask::WRITE_OWNER)
        && is_single_bit(AccessMask::WRITE_DACL)
        && is_single_bit(AccessMask::READ_CONTROL)
        && is_single_bit(AccessMask::DELETE)
        && is_single_bit(AccessMask::ALL_EXTENDED_RIGHTS)
        && is_single_bit(AccessMask::LIST_OBJECT)
        && is_single_bit(AccessMask::DELETE_TREE)
        && is_single_bit(AccessMask::WRITE_PROPERTIES)
        && is_single_bit(AccessMask::READ_PROPERTIES)
        && is_single_bit(AccessMask::SELF)
        && is_single_bit(AccessMask::LIST_CHILD_OBJECTS)
        && is_single_bit(AccessMask::DELETE_CHILD)
        && is_single_bit(AccessMask::CREATE_CHILD)) by (bit_vector);
    assert(x & y == 0) by (bit_vector)
        requires
            is_single_bit(x),
            is_single_bit(y),
            x != y,
    ;
}

/// A well-known security identifier and the name it is known by.
#[derive(Debug, Clone, Copy, PartialEq, Eq)]
pub struct WellKnownSidEntry {
    pub sid: &'static str,
    pub friendly_name: &'static str,
}

/// The well-known security identifiers, each with its name.
pub open spec fn well_known_table() -> Seq<(Seq<char>, Seq<char>)> {
    seq![
        ("S-1-0"@, "Null Authority"@),
        ("S-1-0-0"@, "Nobody"@),
        ("S-1-1"@, "World Authority"@),
        ("S-1-1-0"@, "Everyone"@),
        ("S-1-2"@, "Local Authority"@),
        ("S-1-2-0"@, "Local"@),
        ("S-1-2-1"@, "Console Logon"@),
        ("S-1-3"@, "Creator Authority"@),
        ("S-1-3-0"@, "Creator Owner"@),
        ("S-1-3-1"@, "Creator Group"@),
        ("S-1-3-2"@, "Creator Owner Server"@),
        ("S-1-3-3"@, "Creator Group Server"@),
        ("S-1-3-4"@, "Owner Rights"@),
        ("S-1-5-80-0"@, "All Services"@),
        ("S-1-4"@, "Non-unique Authority"@),
        ("S-1-5"@, "NT Authority"@),
        ("S-1-5-1"@, "Dialup"@),
        ("S-1-5-2"@, "Network"@),
        ("S-1-5-3"@, "Batch"@),
        ("S-1-5-4"@, "Interactive"@),
        ("S-1-5-6"@, "Service"@),
        ("S-1-5-7"@, "Anonymous"@),
        ("S-1-5-8"@, "Proxy"@),
        ("S-1-5-9"@, "Enterprise Domain Controllers"@),
        ("S-1-5-10"@, "Principal Self"@),
        ("S-1-5-11"@, "Authenticated Users"@),
        ("S-1-5-12"@, "Restricted Code"@),
        ("S-1-5-13"@, "Terminal Server Users"@),
        ("S-1-5-14"@, "Remote Interactive Logon"@),
        ("S-1-5-15"@, "This Organization"@),
        ("S-1-5-17"@, "This Organization"@),
        ("S-1-5-18"@, "Local System"@),
        ("S-1-5-19"@, "NT Authority"@),
        ("S-1-5-20"@, "NT Authority"@),
        ("S-1-5-32-544"@, "Administrators"@),
        ("S-1-5-32-545"@, "Users"@),
        ("S-1-5-32-546"@, "Guests"@),
        ("S-1-5-32-547"@, "Power Users"@),
        ("S-1-5-32-548"@, "Account Operators"@),
        ("S-1-5-32-549"@, "Server Operators"@),
        ("S-1-5-32-550"@, "Print Operators"@),
        ("S-1-5-32-551"@, "Backup Operators"@),
        ("S-1-5-32-552"@, "Replicators"@),
        ("S-1-5-64-10"@, "NTLM Authentication"@),
        ("S-1-5-64-14"@, "SChannel Authentication"@),
        ("S-1-5-64-21"@, "Digest Authority"@),
        ("S-1-5-80"@, "NT Service"@),
        ("S-1-5-83-0"@, "NT VIRTUAL MACHINE\\Virtual Machines"@),
        ("S-1-16-0"@, "Untrusted Mandatory Level"@),
        ("S-1-16-4096"@, "Low Mandatory Level"@),
        ("S-1-16-8192"@, "Medium Mandatory Level"@),
        ("S-1-16-8448"@, "Medium Plus Mandatory Level"@),
        ("S-1-16-12288"@, "High Mandatory Level"@),
        ("S-1-16-16384"@, "System Mandatory Level"@),
        ("S-1-16-20480"@, "Protected Process Mandatory Level"@),
        ("S-1-16-28672"@, "Secure Process Mandatory Level"@),
        ("S-1-5-32-554"@, "BUILTIN\\Pre-Windows 2000 Compatible Access"@),
        ("S-1-5-32-555"@, "BUILTIN\\Remote Desktop Users"@),
        ("S-1-5-32-557"@, "BUILTIN\\Incoming Forest Trust Builders"@),
        ("S-1-5-32-556"@, "BUILTIN\\Network Configuration Operators"@),
        ("S-1-5-32-558"@, "BUILTIN\\Performance Monitor Users"@),
        ("S-1-5-32-559"@, "BUILTIN\\Performance Log Users"@),
        ("S-1-5-32-560"@, "BUILTIN\\Windows Authorization Access Group"@),
        ("S-1-5-32-561"@, "BUILTIN\\Terminal Server License Servers"@),
        ("S-1-5-32-562"@, "BUILTIN\\Distributed COM Users"@),
        ("S-1-5-32-569"@, "BUILTIN\\Cryptographic Operators"@),
        ("S-1-5-32-573"@, "BUILTIN\\Event Log Readers"@),
        ("S-1-5-32-574"@, "BUILTIN\\Certificate Service DCOM Access"@),
        ("S-1-5-32-575"@, "BUILTIN\\RDS Remote Access Servers"@),
        ("S-1-5-32-576"@, "BUILTIN\\RDS Endpoint Servers"@),
        ("S-1-5-32-577"@, "BUILTIN\\RDS Management Servers"@),
        ("S-1-5-32-578"@, "BUILTIN\\Hyper-V Administrators"@),
        ("S-1-5-32-579"@, "BUILTIN\\Access Control Assistance Operators"@),
        ("S-1-5-32-580"@, "BUILTIN\\Remote Management Users"@),
    ]
}

/// The name that goes with `sid` in the first entry of `table` that holds it, if any does.
pub open spec fn friendly_name_in(table: Seq<(Seq<char>, Seq<char>)>, sid: Seq<char>) -> Option<
    Seq<char>,
>
    decreases table.len(),
{
    if table.len() == 0 {
        None
    } else if table.first().0 == sid {
        Some(table.first().1)
    } else {
        friendly_name_in(table.drop_first(), sid)
    }
}

/// The table of the well-known security identifiers.
pub fn well_known_sids() -> (table: Vec<WellKnownSidEntry>)
    ensures
        table@.len() == well_known_table().len(),
        forall|i: int|
            0 <= i < table@.len() ==> (#[trigger] table@[i]).sid@ == well_known_table()[i].0
                && table@[i].friendly_name@ == well_known_table()[i].1,
{
    vec![
        WellKnownSidEntry { sid: "S-1-0", friendly_name: "Null Authority" },
        WellKnownSidEntry { sid: "S-1-0-0", friendly_name: "Nobody" },
        WellKnownSidEntry { sid: "S-1-1", friendly_name: "World Authority" },
        WellKnownSidEntry { sid: "S-1-1-0", friendly_name: "Everyone" },
        WellKnownSidEntry { sid: "S-1-2", friendly_name: "Local Authority" },
        WellKnownSidEntry { sid: "S-1-2-0", friendly_name: "Local" },
        WellKnownSidEntry { sid: "S-1-2-1", friendly_name: "Console Logon" },
        WellKnownSidEntry { sid: "S-1-3", friendly_name: "Creator Authority" },
        WellKnownSidEntry { sid: "S-1-3-0", friendly_name: "Creator Owner" },
        WellKnownSidEntry { sid: "S-1-3-1", friendly_name: "Creator Group" },
        WellKnownSidEntry { sid: "S-1-3-2", friendly_name: "Creator Owner Server" },
        WellKnownSidEntry { sid: "S-1-3-3", friendly_name: "Creator Group Server" },
        WellKnownSidEntry { sid: "S-1-3-4", friendly_name: "Owner Rights" },
        WellKnownSidEntry { sid: "S-1-5-80-0", friendly_name: "All Services" },
        WellKnownSidEntry { sid: "S-1-4", friendly_name: "Non-unique Authority" },
        WellKnownSidEntry { sid: "S-1-5", friendly_name: "NT Authority" },
        WellKnownSidEntry { sid: "S-1-5-1", friendly_name: "Dialup" },
        WellKnownSidEntry { sid: "S-1-5-2", friendly_name: "Network" },
        WellKnownSidEntry { sid: "S-1-5-3", friendly_name: "Batch" },
        WellKnownSidEntry { sid: "S-1-5-4", friendly_name: "Interactive" },
        WellKnownSidEntry { sid: "S-1-5-6", friendly_name: "Service" },
        WellKnownSidEntry { sid: "S-1-5-7", friendly_name: "Anonymous" },
        WellKnownSidEntry { sid: "S-1-5-8", friendly_name: "Proxy" },
        WellKnownSidEntry { sid: "S-1-5-9", friendly_name: "Enterprise Domain Controllers" },
        WellKnownSidEntry { sid: "S-1-5-10", friendly_name: "Principal Self" },
        WellKnownSidEntry { sid: "S-1-5-11", friendly_name: "Authenticated Users" },
        WellKnownSidEntry { sid: "S-1-5-12", friendly_name: "Restricted Code" },
        WellKnownSidEntry { sid: "S-1-5-13", friendly_name: "Terminal Server Users" },
        WellKnownSidEntry { sid: "S-1-5-14", friendly_name: "Remote Interactive Logon" },
        WellKnownSidEntry { sid: "S-1-5-15", friendly_name: "This Organization" },
        WellKnownSidEntry { sid: "S-1-5-17", friendly_name: "This Organization" },
        WellKnownSidEntry { sid: "S-1-5-18", friendly_name: "Local System" },
        WellKnownSidEntry { sid: "S-1-5-19", friendly_name: "NT Authority" },
        WellKnownSidEntry { sid: "S-1-5-20", friendly_name: "NT Authority" },
        WellKnownSidEntry { sid: "S-1-5-32-544", friendly_name: "Administrators" },
        WellKnownSidEntry { sid: "S-1-5-32-545", friendly_name: "Users" },
        WellKnownSidEntry { sid: "S-1-5-32-546", friendly_name: "Guests" },
        WellKnownSidEntry { sid: "S-1-5-32-547", friendly_name: "Power Users" },
        WellKnownSidEntry { sid: "S-1-5-32-548", friendly_name: "Account Operators" },
        WellKnownSidEntry { sid: "S-1-5-32-549", friendly_name: "Server Operators" },
        WellKnownSidEntry { sid: "S-1-5-32-550", friendly_name: "Print Operators" },
        WellKnownSidEntry { sid: "S-1-5-32-551", friendly_name: "Backup Operators" },
        WellKnownSidEntry { sid: "S-1-5-32-552", friendly_name: "Replicators" },
        WellKnownSidEntry { sid: "S-1-5-64-10", friendly_name: "NTLM Authentication" },
        WellKnownSidEntry { sid: "S-1-5-64-14", friendly_name: "SChannel Authentication" },
        WellKnownSidEntry { sid: "S-1-5-64-21", friendly_name: "Digest Authority" },
        WellKnownSidEntry { sid: "S-1-5-80", friendly_name: "NT Service" },
        WellKnownSidEntry { sid: "S-1-5-83-0", friendly_name: "NT VIRTUAL MACHINE\\Virtual Machines" },
        WellKnownSidEntry { sid: "S-1-16-0", friendly_name: "Untrusted Mandatory Level" },
        WellKnownSidEntry { sid: "S-1-16-4096", friendly_name: "Low Mandatory Level" },
        WellKnownSidEntry { sid: "S-1-16-8192", friendly_name: "Medium Mandatory Level" },
        WellKnownSidEntry { sid: "S-1-16-8448", friendly_name: "Medium Plus Mandatory Level" },
        WellKnownSidEntry { sid: "S-1-16-12288", friendly_name: "High Mandatory Level" },
        WellKnownSidEntry { sid: "S-1-16-16384", friendly_name: "System Mandatory Level" },
        WellKnownSidEntry { sid: "S-1-16-20480", friendly_name: "Protected Process Mandatory Level" },
        WellKnownSidEntry { sid: "S-1-16-28672", friendly_name: "Secure Process Mandatory Level" },
        WellKnownSidEntry { sid: "S-1-5-32-554", friendly_name: "BUILTIN\\Pre-Windows 2000 Compatible Access" },
        WellKnownSidEntry { sid: "S-1-5-32-555", friendly_name: "BUILTIN\\Remote Desktop Users" },
        WellKnownSidEntry { sid: "S-1-5-32-557", friendly_name: "BUILTIN\\Incoming Forest Trust Builders" },
        WellKnownSidEntry { sid: "S-1-5-32-556", friendly_name: "BUILTIN\\Network Configuration Operators" },
        WellKnownSidEntry { sid: "S-1-5-32-558", friendly_name: "BUILTIN\\Performance Monitor Users" },
        WellKnownSidEntry { sid: "S-1-5-32-559", friendly_name: "BUILTIN\\Performance Log Users" },
        WellKnownSidEntry { sid: "S-1-5-32-560", friendly_name: "BUILTIN\\Windows Authorization Access Group" },
        WellKnownSidEntry { sid: "S-1-5-32-561", friendly_name: "BUILTIN\\Terminal Server License Servers" },
        WellKnownSidEntry { sid: "S-1-5-32-562", friendly_name: "BUILTIN\\Distributed COM Users" },
        WellKnownSidEntry { sid: "S-1-5-32-569", friendly_name: "BUILTIN\\Cryptographic Operators" },
        WellKnownSidEntry { sid: "S-1-5-32-573", friendly_name: "BUILTIN\\Event Log Readers" },
        WellKnownSidEntry { sid: "S-1-5-32-574", friendly_name: "BUILTIN\\Certificate Service DCOM Access" },
        WellKnownSidEntry { sid: "S-1-5-32-575", friendly_name: "BUILTIN\\RDS Remote Access Servers" },
        WellKnownSidEntry { sid: "S-1-5-32-576", friendly_name: "BUILTIN\\RDS Endpoint Servers" },
        WellKnownSidEntry { sid: "S-1-5-32-577", friendly_name: "BUILTIN\\RDS Management Servers" },
        WellKnownSidEntry { sid: "S-1-5-32-578", friendly_name: "BUILTIN\\Hyper-V Administrators" },
        WellKnownSidEntry { sid: "S-1-5-32-579", friendly_name: "BUILTIN\\Access Control Assistance Operators" },
        WellKnownSidEntry { sid: "S-1-5-32-580", friendly_name: "BUILTIN\\Remote Management Users" },
    ]
}

/// The name by which the security identifier `sid` is known, if it is a well-known one.
pub fn well_known_sid_name(sid: &str) -> (r: Option<&'static str>)
    ensures
        match r {
            Some(name) => friendly_name_in(well_known_table(), sid@) == Some(name@),
            None => friendly_name_in(well_known_table(), sid@) is None,
        },
{
    let table = well_known_sids();
    let ghost entries = well_known_table();
    let mut i: usize = 0;
    assert(entries.skip(0) =~= entries);
    while i < table.len()
        invariant
            i <= table.len(),
            entries == well_known_table(),
            table@.len() == entries.len(),
            forall|k: int|
                0 <= k < table@.len() ==> (#[trigger] table@[k]).sid@ == entries[k].0
                    && table@[k].friendly_name@ == entries[k].1,
            friendly_name_in(entries, sid@) == friendly_name_in(entries.skip(i as int), sid@),
        decreases table.len() - i,
    {
        proof {
            assert(entries.skip(i as int).drop_first() =~= entries.skip(i + 1));
            assert(entries.skip(i as int).first() == entries[i as int]);
        }
        let entry = table[i];
        if str_eq(entry.sid, sid) {
            return Some(entry.friendly_name);
        }
        i = i + 1;
    }
    None
}

} // verus!
