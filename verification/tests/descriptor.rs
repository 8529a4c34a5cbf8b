use dacledit::descriptor::{check_principal, SecurityDescriptorUpdate, CONTROL_ACCESS, DACL_PROTECTED};
use dacledit::resolver::{resolve, GrantError, PermissionRequest, ResolvedGrant};
use dacledit::sids::{AccessMask, RightsGuid, SimplePermissions};

fn preset(name: &str) -> ResolvedGrant {
    resolve(&PermissionRequest {
        extended_right: None,
        access_mask_list: None,
        simple_permission: Some(String::from(name)),
    })
    .unwrap()
}

#[test]
fn preset_read_without_inheritance() {
    let update =
        SecurityDescriptorUpdate::build(&preset("Read"), "S-1-5-21-EXAMPLE-1234", false).unwrap();
    assert_eq!(update.ace_string(), "(A;;131220;;;S-1-5-21-EXAMPLE-1234)");
    assert_eq!(update.sd_control_flags(), "2147483648");
    assert!(update.dac_protected());
}

#[test]
fn generic_read_write_with_inheritance() {
    let grant = resolve(&PermissionRequest {
        extended_right: None,
        access_mask_list: Some(String::from("GenericRead,GenericWrite")),
        simple_permission: None,
    })
    .unwrap();
    assert_eq!(grant, ResolvedGrant::AccessMask(AccessMask { bits: 0xC000_0000 }));
    let update = SecurityDescriptorUpdate::build(&grant, "S-1-5-11", true).unwrap();
    assert_eq!(update.ace_string(), "(A;CI;3221225472;;;S-1-5-11)");
    assert_eq!(update.sd_control_flags(), "0");
    assert!(!update.dac_protected());
}

#[test]
fn extended_right_embeds_its_guid() {
    let grant = ResolvedGrant::ExtendedRight(RightsGuid::ResetPassword.as_uuid());
    let update = SecurityDescriptorUpdate::build(&grant, "S-1-5-21-1-2-3-500", false).unwrap();
    assert_eq!(
        update.ace_string(),
        "(A;;256;00299570-246d-11d0-a768-00aa006e0529;;S-1-5-21-1-2-3-500)"
    );
    assert!(update.ace_string().contains("00299570-246d-11d0-a768-00aa006e0529"));
    let inherited = SecurityDescriptorUpdate::build(&grant, "S-1-5-21-1-2-3-500", true).unwrap();
    assert_eq!(
        inherited.ace_string(),
        "(A;CI;256;00299570-246d-11d0-a768-00aa006e0529;;S-1-5-21-1-2-3-500)"
    );
}

#[test]
fn every_extended_right_embeds_its_own_guid() {
    let rights = [
        (RightsGuid::WriteMembers, "bf9679c0-0de6-11d0-a285-00aa003049e2"),
        (RightsGuid::ResetPassword, "00299570-246d-11d0-a768-00aa006e0529"),
        (RightsGuid::DsReplicationGetChanges, "1131f6aa-9c07-11d1-f79f-00c04fc2dcd2"),
        (RightsGuid::DsReplicationGetChangesAll, "1131f6ad-9c07-11d1-f79f-00c04fc2dcd2"),
    ];
    for (right, text) in rights {
        let grant = ResolvedGrant::ExtendedRight(right.as_uuid());
        let update = SecurityDescriptorUpdate::build(&grant, "S-1-1-0", true).unwrap();
        assert_eq!(update.ace_string(), format!("(A;CI;256;{};;S-1-1-0)", text));
    }
}

#[test]
fn constants() {
    assert_eq!(DACL_PROTECTED, 0x8000_0000);
    assert_eq!(CONTROL_ACCESS, 0x100);
}

#[test]
fn every_preset_in_decimal() {
    let presets = [
        (SimplePermissions::FullControl, "983551"),
        (SimplePermissions::Modify, "197055"),
        (SimplePermissions::ReadAndExecute, "131241"),
        (SimplePermissions::ReadAndWrite, "131487"),
        (SimplePermissions::Read, "131220"),
        (SimplePermissions::Write, "131260"),
    ];
    for (p, decimal) in presets {
        let grant = ResolvedGrant::AccessMask(AccessMask { bits: p.mask() });
        let update = SecurityDescriptorUpdate::build(&grant, "S-1-1-0", false).unwrap();
        assert_eq!(update.ace_string(), format!("(A;;{};;;S-1-1-0)", decimal));
    }
}

#[test]
fn mask_extremes() {
    let zero = ResolvedGrant::AccessMask(AccessMask { bits: 0 });
    assert_eq!(
        SecurityDescriptorUpdate::build(&zero, "x", true).unwrap().ace_string(),
        "(A;CI;0;;;x)"
    );
    let all = ResolvedGrant::AccessMask(AccessMask { bits: u32::MAX });
    assert_eq!(
        SecurityDescriptorUpdate::build(&all, "x", false).unwrap().ace_string(),
        "(A;;4294967295;;;x)"
    );
}

#[test]
fn building_is_deterministic() {
    let grant = preset("Modify");
    let first = SecurityDescriptorUpdate::build(&grant, "DOMAIN\\user", true).unwrap();
    let second = SecurityDescriptorUpdate::build(&grant, "DOMAIN\\user", true).unwrap();
    assert_eq!(first, second);
    assert_eq!(first.ace_string().as_bytes(), second.ace_string().as_bytes());
    assert_eq!(first.clone(), first);
}

#[test]
fn dac_protected_negates_inheritance() {
    for inheritance in [false, true] {
        for grant in [preset("Read"), ResolvedGrant::ExtendedRight(RightsGuid::WriteMembers.as_uuid())]
        {
            let update = SecurityDescriptorUpdate::build(&grant, "S-1-5-18", inheritance).unwrap();
            assert_eq!(update.dac_protected(), !inheritance);
            assert_eq!(update.sd_control_flags(), if inheritance { "0" } else { "2147483648" });
            assert_eq!(update.ace_string().contains(";CI;"), inheritance);
        }
    }
}

#[test]
fn malformed_principals_are_refused() {
    let grant = preset("Read");
    for principal in ["", "a;b", "(a", "a)", "a\0b", "\0", ";", "S-1-5-21;)(A;;GA;;;WD"] {
        assert!(!check_principal(principal));
        assert_eq!(
            SecurityDescriptorUpdate::build(&grant, principal, false),
            Err(GrantError::MalformedPrincipal)
        );
    }
}

#[test]
fn other_principals_are_accepted() {
    let grant = preset("Read");
    for principal in ["S-1-5-21-EXAMPLE-1234", "DOMAIN\\user", "user@example.org", "Jürgen", " "]
    {
        assert!(check_principal(principal));
        let update = SecurityDescriptorUpdate::build(&grant, principal, false).unwrap();
        assert_eq!(update.ace_string(), format!("(A;;131220;;;{})", principal));
    }
}
