use dacledit::client::{
    dacledit, modify_dacl, modify_outcome, resolve_credential_cache, AttributeReplacement,
    ClientError, DirectoryModifyClient, ModifyRequest, SessionAction, SessionEvent, SessionState,
    RESULT_SUCCESS, SD_FLAGS_ATTRIBUTE, SECURITY_DESCRIPTOR_ATTRIBUTE,
};
use dacledit::descriptor::SecurityDescriptorUpdate;
use dacledit::resolver::{GrantError, PermissionRequest, ResolvedGrant};
use dacledit::sids::AccessMask;

fn read_request() -> PermissionRequest {
    PermissionRequest {
        extended_right: None,
        access_mask_list: None,
        simple_permission: Some(String::from("Read")),
    }
}

fn client() -> DirectoryModifyClient {
    dacledit(
        "ldap://dc01.example.org",
        "/tmp/krb5cc_0",
        "CN=Target,DC=example,DC=org",
        "S-1-5-21-EXAMPLE-1234",
        &read_request(),
        false,
    )
    .unwrap()
}

fn expected_request() -> ModifyRequest {
    ModifyRequest {
        target_dn: String::from("CN=Target,DC=example,DC=org"),
        replacements: vec![
            AttributeReplacement {
                attribute: String::from("nTSecurityDescriptor"),
                value: String::from("(A;;131220;;;S-1-5-21-EXAMPLE-1234)"),
            },
            AttributeReplacement {
                attribute: String::from("sdflags"),
                value: String::from("2147483648"),
            },
        ],
    }
}

#[test]
fn attribute_names() {
    assert_eq!(SECURITY_DESCRIPTOR_ATTRIBUTE, "nTSecurityDescriptor");
    assert_eq!(SD_FLAGS_ATTRIBUTE, "sdflags");
    assert_eq!(RESULT_SUCCESS, 0);
}

#[test]
fn successful_session() {
    let mut c = client();
    assert_eq!(c.state(), SessionState::Disconnected);
    assert_eq!(c.next_action(), SessionAction::Connect(String::from("ldap://dc01.example.org")));
    c.handle(SessionEvent::Completed);
    assert_eq!(c.state(), SessionState::Connected);
    assert_eq!(c.next_action(), SessionAction::Authenticate(String::from("/tmp/krb5cc_0")));
    c.handle(SessionEvent::Completed);
    assert_eq!(c.state(), SessionState::Authenticated);
    assert_eq!(c.next_action(), SessionAction::Modify(expected_request()));
    c.handle(SessionEvent::ModifyResult(0));
    assert_eq!(c.state(), SessionState::Modified);
    assert_eq!(c.next_action(), SessionAction::Close);
    c.handle(SessionEvent::Completed);
    assert_eq!(c.state(), SessionState::Closed);
    assert_eq!(c.next_action(), SessionAction::Finish(Ok(())));
    c.handle(SessionEvent::Completed);
    assert_eq!(c.state(), SessionState::Closed);
    assert_eq!(c.next_action(), SessionAction::Finish(Ok(())));
}

#[test]
fn rejected_modify_carries_the_code_and_the_session_is_closed() {
    let mut c = client();
    c.handle(SessionEvent::Completed);
    c.handle(SessionEvent::Completed);
    c.handle(SessionEvent::ModifyResult(50));
    assert_eq!(c.state(), SessionState::Error);
    assert_eq!(c.next_action(), SessionAction::Close);
    c.handle(SessionEvent::Completed);
    assert_eq!(c.state(), SessionState::Error);
    assert_eq!(
        c.next_action(),
        SessionAction::Finish(Err(ClientError::ModifyRejected {
            result_code: 50,
            target_dn: String::from("CN=Target,DC=example,DC=org"),
        }))
    );
}

#[test]
fn referral_is_not_success() {
    let mut c = client();
    c.handle(SessionEvent::Completed);
    c.handle(SessionEvent::Completed);
    c.handle(SessionEvent::ModifyResult(10));
    assert_eq!(c.state(), SessionState::Error);
    assert_eq!(
        modify_outcome(10, "CN=x"),
        Err(ClientError::ModifyRejected { result_code: 10, target_dn: String::from("CN=x") })
    );
    assert_eq!(modify_outcome(0, "CN=x"), Ok(()));
    assert_eq!(
        modify_outcome(u32::MAX, ""),
        Err(ClientError::ModifyRejected { result_code: u32::MAX, target_dn: String::new() })
    );
}

#[test]
fn failed_connection_ends_the_session_without_a_release() {
    let mut c = client();
    c.handle(SessionEvent::Failed(String::from("connection refused")));
    assert_eq!(c.state(), SessionState::Error);
    assert_eq!(
        c.next_action(),
        SessionAction::Finish(Err(ClientError::ConnectionError(String::from(
            "connection refused"
        ))))
    );
    c.handle(SessionEvent::Completed);
    assert_eq!(
        c.next_action(),
        SessionAction::Finish(Err(ClientError::ConnectionError(String::from(
            "connection refused"
        ))))
    );
}

#[test]
fn failed_bind_is_released_then_reported() {
    let mut c = client();
    c.handle(SessionEvent::Completed);
    c.handle(SessionEvent::Failed(String::from("ticket expired")));
    assert_eq!(c.state(), SessionState::Error);
    assert_eq!(c.next_action(), SessionAction::Close);
    c.handle(SessionEvent::Failed(String::from("unbind failed")));
    assert_eq!(
        c.next_action(),
        SessionAction::Finish(Err(ClientError::AuthenticationFailure(String::from(
            "ticket expired"
        ))))
    );
}

#[test]
fn broken_connection_during_the_modify() {
    let mut c = client();
    c.handle(SessionEvent::Completed);
    c.handle(SessionEvent::Completed);
    c.handle(SessionEvent::Failed(String::from("broken pipe")));
    assert_eq!(c.next_action(), SessionAction::Close);
    c.handle(SessionEvent::Completed);
    assert_eq!(
        c.next_action(),
        SessionAction::Finish(Err(ClientError::ConnectionError(String::from("broken pipe"))))
    );
}

#[test]
fn failed_release_after_success_is_not_escalated() {
    let mut c = client();
    c.handle(SessionEvent::Completed);
    c.handle(SessionEvent::Completed);
    c.handle(SessionEvent::ModifyResult(0));
    c.handle(SessionEvent::Failed(String::from("unbind failed")));
    assert_eq!(c.state(), SessionState::Closed);
    assert_eq!(c.next_action(), SessionAction::Finish(Ok(())));
}

#[test]
fn events_that_answer_nothing_are_ignored() {
    let mut c = client();
    c.handle(SessionEvent::ModifyResult(0));
    assert_eq!(c.state(), SessionState::Disconnected);
    c.handle(SessionEvent::Completed);
    c.handle(SessionEvent::ModifyResult(0));
    assert_eq!(c.state(), SessionState::Connected);
    c.handle(SessionEvent::Completed);
    c.handle(SessionEvent::Completed);
    assert_eq!(c.state(), SessionState::Authenticated);
    c.handle(SessionEvent::ModifyResult(0));
    c.handle(SessionEvent::ModifyResult(49));
    assert_eq!(c.state(), SessionState::Modified);
}

#[test]
fn the_modify_is_one_request_with_both_attributes() {
    let grant = ResolvedGrant::AccessMask(AccessMask { bits: 0xC000_0000 });
    let update = SecurityDescriptorUpdate::build(&grant, "S-1-5-11", true).unwrap();
    let request = modify_dacl("CN=x", &update);
    assert_eq!(request.target_dn, "CN=x");
    assert_eq!(request.replacements.len(), 2);
    assert_eq!(request.replacements[0].attribute, "nTSecurityDescriptor");
    assert_eq!(request.replacements[0].value, "(A;CI;3221225472;;;S-1-5-11)");
    assert_eq!(request.replacements[1].attribute, "sdflags");
    assert_eq!(request.replacements[1].value, "0");
}

#[test]
fn unknown_preset_plans_no_session() {
    let request = PermissionRequest {
        extended_right: None,
        access_mask_list: None,
        simple_permission: Some(String::from("SuperControl")),
    };
    match dacledit("ldap://dc", "/tmp/cc", "CN=x", "S-1-5-11", &request, false) {
        Err(error) => {
            assert_eq!(error, GrantError::UnknownSimplePermission(String::from("SuperControl")))
        }
        Ok(_) => panic!("a session was planned"),
    }
}

#[test]
fn requests_without_exactly_one_field_plan_no_session() {
    let none = PermissionRequest {
        extended_right: None,
        access_mask_list: None,
        simple_permission: None,
    };
    let two = PermissionRequest {
        extended_right: Some(String::from("ResetPassword")),
        access_mask_list: None,
        simple_permission: Some(String::from("Read")),
    };
    match dacledit("ldap://dc", "/tmp/cc", "CN=x", "S-1-5-11", &none, false) {
        Err(error) => assert_eq!(error, GrantError::NoPermissionSpecified),
        Ok(_) => panic!("a session was planned"),
    }
    match dacledit("ldap://dc", "/tmp/cc", "CN=x", "S-1-5-11", &two, false) {
        Err(error) => assert_eq!(error, GrantError::AmbiguousPermission),
        Ok(_) => panic!("a session was planned"),
    }
}

#[test]
fn malformed_principal_plans_no_session() {
    match dacledit("ldap://dc", "/tmp/cc", "CN=x", "a;b", &read_request(), false) {
        Err(error) => assert_eq!(error, GrantError::MalformedPrincipal),
        Ok(_) => panic!("a session was planned"),
    }
    let unknown = PermissionRequest {
        extended_right: Some(String::from("Nope")),
        access_mask_list: None,
        simple_permission: None,
    };
    match dacledit("ldap://dc", "/tmp/cc", "CN=x", "a;b", &unknown, false) {
        Err(error) => assert_eq!(error, GrantError::UnknownExtendedRight(String::from("Nope"))),
        Ok(_) => panic!("a session was planned"),
    }
}

#[test]
fn credential_cache_resolution() {
    assert_eq!(resolve_credential_cache(Some("/a"), Some("/b")), Ok(String::from("/a")));
    assert_eq!(resolve_credential_cache(Some("/a"), None), Ok(String::from("/a")));
    assert_eq!(resolve_credential_cache(None, Some("/b")), Ok(String::from("/b")));
    assert_eq!(resolve_credential_cache(None, None), Err(ClientError::MissingCredentialCache));
}

#[test]
fn errors_clone_equal() {
    let errors = [
        ClientError::MissingCredentialCache,
        ClientError::ConnectionError(String::from("a")),
        ClientError::AuthenticationFailure(String::from("b")),
        ClientError::ModifyRejected { result_code: 49, target_dn: String::from("CN=x") },
    ];
    for e in errors.iter() {
        assert_eq!(&e.clone(), e);
    }
}

#[test]
fn new_client_starts_disconnected() {
    let grant = ResolvedGrant::AccessMask(AccessMask { bits: 1 });
    let update = SecurityDescriptorUpdate::build(&grant, "S-1-1-0", true).unwrap();
    let c = DirectoryModifyClient::new("ldap://h", "cc", "CN=y", update);
    assert_eq!(c.state(), SessionState::Disconnected);
    assert_eq!(c.next_action(), SessionAction::Connect(String::from("ldap://h")));
}
