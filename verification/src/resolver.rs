//! Resolving a permission request into the grant it asks for.

use vstd::prelude::*;
use crate::guid::{hyphenated, Guid};
use crate::sids::{AccessMask, RightsGuid, SimplePermissions};
use crate::text::{split_trimmed, trimmed_fields};

verus! {

/// A permission request. Exactly one of the three fields is to be filled.
#[derive(Debug, Clone, PartialEq, Eq)]
pub struct PermissionRequest {
    /// The name of an extended right.
    pub extended_right: Option<String>,
    /// A list of access-mask flag names, separated by commas.
    pub access_mask_list: Option<String>,
    /// The name of a permission preset.
    pub simple_permission: Option<String>,
}

/// A request as its contracts see it.
pub struct PermissionRequestView {
    pub extended_right: Option<Seq<char>>,
    pub access_mask_list: Option<Seq<char>>,
    pub simple_permission: Option<Seq<char>>,
}

/// The characters of an optional string.
pub open spec fn text_of(s: Option<String>) -> Option<Seq<char>> {
    match s {
        Some(s) => Some(s@),
        None => None,
    }
}

impl View for PermissionRequest {
    type V = PermissionRequestView;

    open spec fn view(&self) -> PermissionRequestView {
        PermissionRequestView {
            extended_right: text_of(self.extended_right),
            access_mask_list: text_of(self.access_mask_list),
            simple_permission: text_of(self.simple_permission),
        }
    }
}

/// What a request resolves to: an access mask, or the identifier of an extended right.
#[derive(Debug, Clone, Copy, PartialEq, Eq, Structural)]
pub enum ResolvedGrant {
    AccessMask(AccessMask),
    ExtendedRight(Guid),
}

/// A grant as its contracts see it: the numeric mask, or the canonical text of the
/// identifier.
pub enum ResolvedGrantView {
    AccessMask(u32),
    ExtendedRight(Seq<char>),
}

impl View for ResolvedGrant {
    type V = ResolvedGrantView;

    open spec fn view(&self) -> ResolvedGrantView {
        match self {
            ResolvedGrant::AccessMask(mask) => ResolvedGrantView::AccessMask(mask.bits),
            ResolvedGrant::ExtendedRight(id) => ResolvedGrantView::ExtendedRight(
                hyphenated(id.value),
            ),
        }
    }
}

/// Why a request, or the principal of a grant, was refused.
#[derive(Debug, Clone, PartialEq, Eq)]
pub enum GrantError {
    /// None of the three fields of the request is filled.
    NoPermissionSpecified,
    /// More than one of the three fields of the request is filled.
    AmbiguousPermission,
    /// The catalog of extended rights does not hold the name.
    UnknownExtendedRight(String),
    /// The catalog of access-mask flags does not hold the name.
    UnknownAccessRight(String),
    /// The catalog of presets does not hold the name.
    UnknownSimplePermission(String),
    /// The principal is empty or holds a character that cannot stand in an entry.
    MalformedPrincipal,
}

/// An error as its contracts see it.
pub enum GrantErrorView {
    NoPermissionSpecified,
    AmbiguousPermission,
    UnknownExtendedRight(Seq<char>),
    UnknownAccessRight(Seq<char>),
    UnknownSimplePermission(Seq<char>),
    MalformedPrincipal,
}

impl View for GrantError {
    type V = GrantErrorView;

    open spec fn view(&self) -> GrantErrorView {
        match self {
            GrantError::NoPermissionSpecified => GrantErrorView::NoPermissionSpecified,
            GrantError::AmbiguousPermission => GrantErrorView::AmbiguousPermission,
            GrantError::UnknownExtendedRight(name) => GrantErrorView::UnknownExtendedRight(name@),
            GrantError::UnknownAccessRight(name) => GrantErrorView::UnknownAccessRight(name@),
            GrantError::UnknownSimplePermission(name) => GrantErrorView::UnknownSimplePermission(
                name@,
            ),
            GrantError::MalformedPrincipal => GrantErrorView::MalformedPrincipal,
        }
    }
}

/// The first of `names` that the catalog of access-mask flags does not hold, if any.
pub open spec fn first_unknown(names: Seq<Seq<char>>) -> Option<Seq<char>>
    decreases names.len(),
{
    if names.len() == 0 {
        None
    } else if AccessMask::named(names.first()) is None {
        Some(names.first())
    } else {
        first_unknown(names.drop_first())
    }
}

/// The bits of `name`, or no bit where the catalog does not hold it.
pub open spec fn bits_of(name: Seq<char>) -> u32 {
    match AccessMask::named(name) {
        Some(bits) => bits,
        None => 0,
    }
}

/// The bitwise OR of the flags that `names` name.
pub open spec fn combined(names: Seq<Seq<char>>) -> u32
    decreases names.len(),
{
    if names.len() == 0 {
        0
    } else {
        combined(names.drop_last()) | bits_of(names.last())
    }
}

/// What a list of flag names resolves to: the OR of its flags, or its first unknown name.
pub open spec fn resolve_list(list: Seq<char>) -> Result<u32, Seq<char>> {
    let names = trimmed_fields(list);
    match first_unknown(names) {
        Some(name) => Err(name),
        None => Ok(combined(names)),
    }
}

/// How many of the three fields of a request are filled.
pub open spec fn filled(request: PermissionRequestView) -> nat {
    (if request.extended_right is Some {
        1nat
    } else {
        0nat
    }) + (if request.access_mask_list is Some {
        1nat
    } else {
        0nat
    }) + (if request.simple_permission is Some {
        1nat
    } else {
        0nat
    })
}

/// What a request resolves to.
pub open spec fn resolution(request: PermissionRequestView) -> Result<
    ResolvedGrantView,
    GrantErrorView,
> {
    if filled(request) == 0 {
        Err(GrantErrorView::NoPermissionSpecified)
    } else if filled(request) >= 2 {
        Err(GrantErrorView::AmbiguousPermission)
    } else if let Some(name) = request.extended_right {
        match RightsGuid::named(name) {
            Some(right) => Ok(ResolvedGrantView::ExtendedRight(right.text())),
            None => Err(GrantErrorView::UnknownExtendedRight(name)),
        }
    } else if let Some(list) = request.access_mask_list {
        match resolve_list(list) {
            Ok(bits) => Ok(ResolvedGrantView::AccessMask(bits)),
            Err(name) => Err(GrantErrorView::UnknownAccessRight(name)),
        }
    } else {
        let name = request.simple_permission->0;
        match SimplePermissions::named(name) {
            Some(preset) => Ok(ResolvedGrantView::AccessMask(preset.mask())),
            None => Err(GrantErrorView::UnknownSimplePermission(name)),
        }
    }
}

/// Resolves a list of access-mask flag names, separated by commas, each taken without the
/// white space around it: the OR of the flags, or the first name that the catalog does not
/// hold.
pub fn resolve_access_mask_list(list: &str) -> (r: Result<AccessMask, String>)
    ensures
        match r {
            Ok(mask) => resolve_list(list@) == Ok::<u32, Seq<char>>(mask.bits),
            Err(name) => resolve_list(list@) == Err::<u32, Seq<char>>(name@),
        },
{
    let names = split_trimmed(list);
    let ghost fields = trimmed_fields(list@);
    let mut mask = AccessMask::empty();
    let mut i: usize = 0;
    assert(fields.skip(0) =~= fields);
    while i < names.len()
        invariant
            i <= names.len(),
            fields == trimmed_fields(list@),
            names@.len() == fields.len(),
            forall|k: int| 0 <= k < names@.len() ==> (#[trigger] names@[k])@ == fields[k],
            first_unknown(fields) == first_unknown(fields.skip(i as int)),
            mask.bits == combined(fields.take(i as int)),
        decreases names.len() - i,
    {
        proof {
            assert(fields.skip(i as int).drop_first() =~= fields.skip(i + 1));
            assert(fields.take(i + 1).drop_last() =~= fields.take(i as int));
            assert(fields.skip(i as int).first() == fields[i as int]);
            assert(names@[i as int]@ == fields[i as int]);
        }
        let name = &names[i];
        match AccessMask::from_name(name.as_str()) {
            Some(flag) => {
                mask = mask.union(flag);
            },
            None => {
                return Err(name.clone());
            },
        }
        i = i + 1;
    }
    proof {
        assert(fields.take(i as int) =~= fields);
    }
    Ok(mask)
}

/// Resolves a request into its grant. A request with none or with more than one of its
/// three fields filled is refused, and so is a name that its catalog does not hold.
pub fn resolve(request: &PermissionRequest) -> (r: Result<ResolvedGrant, GrantError>)
    ensures
        match r {
            Ok(grant) => resolution(request@) == Ok::<ResolvedGrantView, GrantErrorView>(grant@),
            Err(error) => resolution(request@) == Err::<ResolvedGrantView, GrantErrorView>(
                error@,
            ),
        },
{
    match (&request.extended_right, &request.access_mask_list, &request.simple_permission) {
        (None, None, None) => Err(GrantError::NoPermissionSpecified),
        (Some(name), None, None) => {
            match RightsGuid::from_name(name.as_str()) {
                Some(right) => Ok(ResolvedGrant::ExtendedRight(right.as_uuid())),
                None => Err(GrantError::UnknownExtendedRight(name.clone())),
            }
        },
        (None, Some(list), None) => {
            match resolve_access_mask_list(list.as_str()) {
                Ok(mask) => Ok(ResolvedGrant::AccessMask(mask)),
                Err(name) => Err(GrantError::UnknownAccessRight(name)),
            }
        },
        (None, None, Some(name)) => {
            match SimplePermissions::from_name(name.as_str()) {
                Some(preset) => Ok(
                    ResolvedGrant::AccessMask(AccessMask { bits: preset.mask() }),
                ),
                None => Err(GrantError::UnknownSimplePermission(name.clone())),
            }
        },
        _ => Err(GrantError::AmbiguousPermission),
    }
}

/// A list of names has a first unknown name exactly when one of its names is unknown, and
/// that name is then the unknown one that stands before all others.
pub proof fn lemma_first_unknown(names: Seq<Seq<char>>)
    ensures
        first_unknown(names) is None <==> forall|i: int|
            0 <= i < names.len() ==> AccessMask::named(#[trigger] names[i]) is Some,
        first_unknown(names) matches Some(name) ==> exists|i: int|
            0 <= i < names.len() && #[trigger] names[i] == name && AccessMask::named(name) is None
                && forall|j: int| 0 <= j < i ==> AccessMask::named(#[trigger] names[j]) is Some,
    decreases names.len(),
{
    if names.len() > 0 {
        let rest = names.drop_first();
        lemma_first_unknown(rest);
        assert(forall|i: int| 0 <= i < rest.len() ==> rest[i] == names[i + 1]);
        if AccessMask::named(names.first()) is None {
            assert(names[0] == names.first());
        } else {
            if first_unknown(rest) is None {
                assert forall|i: int| 0 <= i < names.len() implies AccessMask::named(
                    #[trigger] names[i],
                ) is Some by {
                    if i > 0 {
                        assert(rest[i - 1] == names[i]);
                    }
                }
            } else {
                let name = first_unknown(rest)->0;
                let k = choose|i: int|
                    0 <= i < rest.len() && #[trigger] rest[i] == name && AccessMask::named(name)
                        is None && forall|j: int|
                        0 <= j < i ==> AccessMask::named(#[trigger] rest[j]) is Some;
                assert(names[k + 1] == name);
                assert forall|j: int| 0 <= j < k + 1 implies AccessMask::named(
                    #[trigger] names[j],
                ) is Some by {
                    if j > 0 {
                        assert(rest[j - 1] == names[j]);
                    }
                }
            }
        }
    }
}

/// A list with a name that the catalog does not hold resolves to no mask at all, and a
/// list whose names the catalog all holds resolves to a mask.
pub proof fn lemma_unknown_name_fails(list: Seq<char>)
    ensures
        resolve_list(list) is Err <==> exists|i: int|
            0 <= i < trimmed_fields(list).len() && AccessMask::named(
                #[trigger] trimmed_fields(list)[i],
            ) is None,
        resolve_list(list) matches Err(name) ==> AccessMask::named(name) is None
            && trimmed_fields(list).contains(name),
{
    lemma_first_unknown(trimmed_fields(list));
}

/// Taking one name out of a list takes its flag out of the OR.
pub proof fn lemma_combined_remove(names: Seq<Seq<char>>, i: int)
    requires
        0 <= i < names.len(),
    ensures
        combined(names) == combined(names.remove(i)) | bits_of(names[i]),
    decreases names.len(),
{
    let last = names.len() - 1;
    if i == last {
        assert(names.remove(i) =~= names.drop_last());
    } else {
        let front = names.drop_last();
        lemma_combined_remove(front, i);
        assert(names.remove(i).drop_last() =~= front.remove(i));
        assert(names.remove(i).last() == names.last());
        let x = combined(front.remove(i));
        let a = bits_of(names[i]);
        let b = bits_of(names.last());
        assert((x | a) | b == (x | b) | a) by (bit_vector);
    }
}

/// The OR of the flags does not depend on the order of the names: two lists that hold the
/// same names, each as often as the other, combine to the same mask.
pub proof fn lemma_combined_permutation(a: Seq<Seq<char>>, b: Seq<Seq<char>>)
    requires
        a.to_multiset() == b.to_multiset(),
    ensures
        combined(a) == combined(b),
    decreases a.len(),
{
    a.to_multiset_ensures();
    b.to_multiset_ensures();
    if a.len() > 0 {
        let x = a.last();
        assert(a.contains(x)) by {
            assert(a[a.len() - 1] == x);
        }
        assert(a.to_multiset().count(x) > 0);
        assert(b.to_multiset().count(x) > 0);
        assert(b.contains(x));
        let j = choose|j: int| 0 <= j < b.len() && b[j] == x;
        assert(a.drop_last() =~= a.remove(a.len() - 1));
        assert(a.drop_last().to_multiset() == b.remove(j).to_multiset());
        lemma_combined_permutation(a.drop_last(), b.remove(j));
        lemma_combined_remove(b, j);
    }
}

/// Resolving a list of flag names does not depend on their order: two lists whose fields
/// are the same names, each as often as in the other, both fail or both give the same mask.
pub proof fn lemma_order_independent(a: Seq<char>, b: Seq<char>)
    requires
        trimmed_fields(a).to_multiset() == trimmed_fields(b).to_multiset(),
    ensures
        resolve_list(a) is Ok <==> resolve_list(b) is Ok,
        resolve_list(a) is Ok ==> resolve_list(a) == resolve_list(b),
{
    let fa = trimmed_fields(a);
    let fb = trimmed_fields(b);
    fa.to_multiset_ensures();
    fb.to_multiset_ensures();
    lemma_first_unknown(fa);
    lemma_first_unknown(fb);
    lemma_combined_permutation(fa, fb);
    assert forall|i: int| 0 <= i < fa.len() implies fb.contains(#[trigger] fa[i]) by {
        assert(fa.contains(fa[i]));
        assert(fa.to_multiset().count(fa[i]) > 0);
        assert(fb.to_multiset().count(fa[i]) > 0);
    }
    assert forall|i: int| 0 <= i < fb.len() implies fa.contains(#[trigger] fb[i]) by {
        assert(fb.contains(fb[i]));
        assert(fb.to_multiset().count(fb[i]) > 0);
        assert(fa.to_multiset().count(fb[i]) > 0);
    }
}

/// A request with none or with more than one of its fields filled is refused, whatever
/// the fields hold.
pub proof fn lemma_exactly_one_field(request: PermissionRequestView)
    ensures
        filled(request) == 0 ==> resolution(request) == Err::<
            ResolvedGrantView,
            GrantErrorView,
        >(GrantErrorView::NoPermissionSpecified),
        filled(request) >= 2 ==> resolution(request) == Err::<
            ResolvedGrantView,
            GrantErrorView,
        >(GrantErrorView::AmbiguousPermission),
        resolution(request) is Ok ==> filled(request) == 1,
{
}

} // verus!
