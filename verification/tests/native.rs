use dacledit::native::{native_outcome, nul_position, rust_modify_dacl, NativeCall, NativeError};

#[test]
fn prepares_a_call_with_the_given_cache() {
    assert_eq!(
        rust_modify_dacl("ldap://dc", Some("/tmp/cc"), Some("/env/cc"), "CN=x", "(A;;1;;;y)"),
        Ok(NativeCall {
            ldap_uri: String::from("ldap://dc"),
            ccache_path: String::from("/tmp/cc"),
            target_dn: String::from("CN=x"),
            new_sd: String::from("(A;;1;;;y)"),
        })
    );
}

#[test]
fn falls_back_to_the_cache_of_the_environment() {
    let call = rust_modify_dacl("ldap://dc", None, Some("/env/cc"), "CN=x", "sd").unwrap();
    assert_eq!(call.ccache_path, "/env/cc");
}

#[test]
fn missing_credential_cache() {
    assert_eq!(
        rust_modify_dacl("ldap://dc", None, None, "CN=x", "sd"),
        Err(NativeError::MissingCredentialCache)
    );
}

#[test]
fn interior_nul_is_refused_with_its_byte_position() {
    assert_eq!(
        rust_modify_dacl("ldap\0://dc", Some("cc"), None, "CN=x", "sd"),
        Err(NativeError::InteriorNul { position: 4 })
    );
    assert_eq!(
        rust_modify_dacl("ldap://dc", Some("cc"), None, "CN=é\0", "sd"),
        Err(NativeError::InteriorNul { position: 5 })
    );
    assert_eq!(
        rust_modify_dacl("ldap://dc", Some("cc"), None, "CN=x", "\0"),
        Err(NativeError::InteriorNul { position: 0 })
    );
    assert_eq!(
        rust_modify_dacl("ldap://dc", Some("c\0c"), Some("env"), "CN=x", "sd"),
        Err(NativeError::InteriorNul { position: 1 })
    );
    assert_eq!(
        rust_modify_dacl("ldap://dc", None, Some("en\0v"), "CN=x", "sd"),
        Err(NativeError::InteriorNul { position: 2 })
    );
}

#[test]
fn the_first_finding_is_reported() {
    assert_eq!(
        rust_modify_dacl("a\0", None, None, "bb\0", "ccc\0"),
        Err(NativeError::InteriorNul { position: 1 })
    );
    assert_eq!(
        rust_modify_dacl("a", None, None, "bb\0", "ccc\0"),
        Err(NativeError::InteriorNul { position: 2 })
    );
    assert_eq!(
        rust_modify_dacl("a", None, None, "bb", "ccc\0"),
        Err(NativeError::InteriorNul { position: 3 })
    );
    assert_eq!(
        rust_modify_dacl("a", None, None, "bb", "ccc"),
        Err(NativeError::MissingCredentialCache)
    );
}

#[test]
fn nul_positions_are_byte_positions() {
    assert_eq!(nul_position(""), None);
    assert_eq!(nul_position("abc"), None);
    assert_eq!(nul_position("\0"), Some(0));
    assert_eq!(nul_position("ab\0cd\0"), Some(2));
    assert_eq!(nul_position("日本\0語"), Some(6));
    for text in ["", "abc", "\0", "ab\0cd\0", "日本\0語"] {
        assert_eq!(nul_position(text), text.bytes().position(|b| b == 0));
    }
}

#[test]
fn status_of_the_helper() {
    assert_eq!(native_outcome(0), Ok(()));
    assert_eq!(native_outcome(1), Err(NativeError::Failed { status: 1 }));
    assert_eq!(native_outcome(-1), Err(NativeError::Failed { status: -1 }));
    assert_eq!(native_outcome(49), Err(NativeError::Failed { status: 49 }));
}
