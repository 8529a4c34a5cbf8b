//! The call of the native helper that performs the modify: what is checked before the call
//! and what its status means. The call itself is the caller's.

use vstd::prelude::*;
use vstd::utf8::encode_utf8;
use crate::client::{credential_cache_of, slice_text};

verus! {

/// Why the native helper was not called, or what it reported.
#[derive(Debug, Clone, Copy, PartialEq, Eq, Structural)]
pub enum NativeError {
    /// An argument holds a zero byte, at this position of its UTF-8 encoding, and so
    /// cannot be handed over as a C string.
    InteriorNul { position: usize },
    /// Neither the caller nor the environment names a credential cache.
    MissingCredentialCache,
    /// The helper returned this status, which is not zero.
    Failed { status: i32 },
}

/// The arguments of one call of the native helper, each free of zero bytes.
#[derive(Debug, Clone, PartialEq, Eq)]
pub struct NativeCall {
    pub ldap_uri: String,
    pub ccache_path: String,
    pub target_dn: String,
    pub new_sd: String,
}

/// A call as its contracts see it.
pub struct NativeCallView {
    pub ldap_uri: Seq<char>,
    pub ccache_path: Seq<char>,
    pub target_dn: Seq<char>,
    pub new_sd: Seq<char>,
}

impl View for NativeCall {
    type V = NativeCallView;

    open spec fn view(&self) -> NativeCallView {
        NativeCallView {
            ldap_uri: self.ldap_uri@,
            ccache_path: self.ccache_path@,
            target_dn: self.target_dn@,
            new_sd: self.new_sd@,
        }
    }
}

/// The position of the first zero byte in the UTF-8 encoding of `text`, if it has one.
pub open spec fn first_nul(text: Seq<char>) -> Option<int> {
    encode_utf8(text).index_of_first(0u8)
}

/// What preparing a call comes to. The arguments are checked for zero bytes in the order
/// endpoint, target, descriptor; then the credential cache is picked, the caller's before
/// the environment's, and checked in its turn. The first finding is the error.
pub open spec fn prepared(
    ldap_uri: Seq<char>,
    ccache_path: Option<Seq<char>>,
    environment: Option<Seq<char>>,
    target_dn: Seq<char>,
    new_sd: Seq<char>,
) -> Result<NativeCallView, NativeError> {
    if let Some(position) = first_nul(ldap_uri) {
        Err(NativeError::InteriorNul { position: position as usize })
    } else if let Some(position) = first_nul(target_dn) {
        Err(NativeError::InteriorNul { position: position as usize })
    } else if let Some(position) = first_nul(new_sd) {
        Err(NativeError::InteriorNul { position: position as usize })
    } else {
        match credential_cache_of(ccache_path, environment) {
            Err(_) => Err(NativeError::MissingCredentialCache),
            Ok(path) => if let Some(position) = first_nul(path) {
                Err(NativeError::InteriorNul { position: position as usize })
            } else {
                Ok(NativeCallView { ldap_uri, ccache_path: path, target_dn, new_sd })
            },
        }
    }
}

/// The position of the first zero byte of `text`, if it has one.
pub fn nul_position(text: &str) -> (r: Option<usize>)
    ensures
        match r {
            Some(position) => first_nul(text@) == Some(position as int),
            None => first_nul(text@) is None,
        },
{
    let bytes = text.as_bytes();
    let mut i: usize = 0;
    while i < bytes.len()
        invariant
            i <= bytes.len(),
            bytes@ == encode_utf8(text@),
            forall|k: int| 0 <= k < i ==> bytes@[k] != 0u8,
        decreases bytes.len() - i,
    {
        if bytes[i] == 0 {
            proof {
                bytes@.index_of_first_ensures(0u8);
                assert(bytes@[i as int] == 0u8);
            }
            return Some(i);
        }
        i = i + 1;
    }
    proof {
        bytes@.index_of_first_ensures(0u8);
    }
    None
}

/// Prepares the call of the native helper that replaces the security descriptor of
/// `target_dn` by `new_sd`: checks each argument for zero bytes and picks the credential
/// cache, `ccache_path` where the caller gave one, else `environment`, the value of the
/// environment's variable.
pub fn rust_modify_dacl(
    ldap_uri: &str,
    ccache_path: Option<&str>,
    environment: Option<&str>,
    target_dn: &str,
    new_sd: &str,
) -> (r: Result<NativeCall, NativeError>)
    ensures
        match r {
            Ok(call) => prepared(
                ldap_uri@,
                slice_text(ccache_path),
                slice_text(environment),
                target_dn@,
                new_sd@,
            ) == Ok::<NativeCallView, NativeError>(call@),
            Err(error) => prepared(
                ldap_uri@,
                slice_text(ccache_path),
                slice_text(environment),
                target_dn@,
                new_sd@,
            ) == Err::<NativeCallView, NativeError>(error),
        },
{
    if let Some(position) = nul_position(ldap_uri) {
        return Err(NativeError::InteriorNul { position });
    }
    if let Some(position) = nul_position(target_dn) {
        return Err(NativeError::InteriorNul { position });
    }
    if let Some(position) = nul_position(new_sd) {
        return Err(NativeError::InteriorNul { position });
    }
    let path = match ccache_path {
        Some(path) => path,
        None => match environment {
            Some(path) => path,
            None => {
                return Err(NativeError::MissingCredentialCache);
            },
        },
    };
    if let Some(position) = nul_position(path) {
        return Err(NativeError::InteriorNul { position });
    }
    Ok(
        NativeCall {
            ldap_uri: ldap_uri.to_owned(),
            ccache_path: path.to_owned(),
            target_dn: target_dn.to_owned(),
            new_sd: new_sd.to_owned(),
        },
    )
}

/// What the status of the native helper means: zero is success, anything else a failure
/// that carries the status.
pub fn native_outcome(status: i32) -> (r: Result<(), NativeError>)
    ensures
        status == 0 ==> r == Ok::<(), NativeError>(()),
        status != 0 ==> r == Err::<(), NativeError>(NativeError::Failed { status }),
{
    if status == 0 {
        Ok(())
    } else {
        Err(NativeError::Failed { status })
    }
}

} // verus!
