//! Assembling the access-control entry and the control flags of a grant.

use vstd::prelude::*;
use vstd::string::StringExecFns;
use vstd::utf8::encode_utf8;
use crate::guid::{hyphenated, is_lower_hex, lemma_hyphenated_is_canonical};
use crate::resolver::{GrantError, GrantErrorView, ResolvedGrant, ResolvedGrantView};
use crate::sids::AccessMask;
use crate::text::{chars_of, decimal, digit_char, push_decimal};

verus! {

/// The control-flags value that protects a DACL from inheritance.
pub const DACL_PROTECTED: u32 = 2147483648;

/// The access mask of an entry that grants an extended right: control access.
pub const CONTROL_ACCESS: u32 = AccessMask::ALL_EXTENDED_RIGHTS;

/// Whether `c` cannot stand in the trustee field of an entry: NUL, and the characters that
/// delimit an entry and its fields.
pub open spec fn breaks_entry(c: char) -> bool {
    c == '\0' || c == ';' || c == '(' || c == ')'
}

/// Whether `principal` can stand as the trustee of an entry: it is not empty and none of
/// its characters breaks the entry.
pub open spec fn valid_principal(principal: Seq<char>) -> bool {
    &&& principal.len() > 0
    &&& forall|i: int| 0 <= i < principal.len() ==> !breaks_entry(#[trigger] principal[i])
}

/// The flags field of an entry: container-inherit where inheritance is enabled, else empty.
pub open spec fn inherit_flags(inheritance_enabled: bool) -> Seq<char> {
    if inheritance_enabled {
        "CI"@
    } else {
        Seq::empty()
    }
}

/// The entry that allows `grant` to `principal`. Its fields are the type (allow), the flags,
/// the access mask in decimal, the object type, the inherited object type (always empty)
/// and the trustee. An extended right has the control-access mask and its identifier as
/// the object type; an access mask has no object type.
pub open spec fn ace_text(
    grant: ResolvedGrantView,
    principal: Seq<char>,
    inheritance_enabled: bool,
) -> Seq<char> {
    match grant {
        ResolvedGrantView::AccessMask(bits) => "(A;"@ + inherit_flags(inheritance_enabled) + ";"@
            + decimal(bits as nat) + ";;;"@ + principal + ")"@,
        ResolvedGrantView::ExtendedRight(id) => "(A;"@ + inherit_flags(inheritance_enabled)
            + ";"@ + decimal(CONTROL_ACCESS as nat) + ";"@ + id + ";;"@ + principal + ")"@,
    }
}

/// The control flags in decimal: zero where inheritance is enabled, else the value that
/// protects the DACL.
pub open spec fn sd_control_text(inheritance_enabled: bool) -> Seq<char> {
    if inheritance_enabled {
        decimal(0)
    } else {
        decimal(DACL_PROTECTED as nat)
    }
}

/// The update of a security descriptor that one grant asks for.
#[derive(Debug, PartialEq, Eq)]
pub struct SecurityDescriptorUpdate {
    ace_string: String,
    sd_control_flags: String,
    dac_protected: bool,
}

/// An update as its contracts see it.
pub struct SecurityDescriptorUpdateView {
    pub ace_string: Seq<char>,
    pub sd_control_flags: Seq<char>,
    pub dac_protected: bool,
}

/// The update that grants `grant` to `principal`.
pub open spec fn update_for(
    grant: ResolvedGrantView,
    principal: Seq<char>,
    inheritance_enabled: bool,
) -> SecurityDescriptorUpdateView {
    SecurityDescriptorUpdateView {
        ace_string: ace_text(grant, principal, inheritance_enabled),
        sd_control_flags: sd_control_text(inheritance_enabled),
        dac_protected: !inheritance_enabled,
    }
}

impl View for SecurityDescriptorUpdate {
    type V = SecurityDescriptorUpdateView;

    closed spec fn view(&self) -> SecurityDescriptorUpdateView {
        SecurityDescriptorUpdateView {
            ace_string: self.ace_string@,
            sd_control_flags: self.sd_control_flags@,
            dac_protected: self.dac_protected,
        }
    }
}

impl Clone for SecurityDescriptorUpdate {
    fn clone(&self) -> (r: Self)
        ensures
            r@ == self@,
    {
        proof {
            use_type_invariant(self);
        }
        SecurityDescriptorUpdate {
            ace_string: self.ace_string.clone(),
            sd_control_flags: self.sd_control_flags.clone(),
            dac_protected: self.dac_protected,
        }
    }
}

/// Whether `principal` can stand as the trustee of an entry.
pub fn check_principal(principal: &str) -> (r: bool)
    ensures
        r == valid_principal(principal@),
{
    let chars = chars_of(principal);
    if chars.len() == 0 {
        return false;
    }
    let mut i: usize = 0;
    while i < chars.len()
        invariant
            i <= chars.len(),
            chars@ == principal@,
            forall|k: int| 0 <= k < i ==> !breaks_entry(#[trigger] chars@[k]),
        decreases chars.len() - i,
    {
        let c = chars[i];
        if c == '\0' || c == ';' || c == '(' || c == ')' {
            return false;
        }
        i = i + 1;
    }
    true
}

impl SecurityDescriptorUpdate {
    /// The control flags say that the DACL is protected exactly when the update protects
    /// it.
    #[verifier::type_invariant]
    spec fn consistent(&self) -> bool {
        self.sd_control_flags@ == sd_control_text(!self.dac_protected)
    }

    /// Builds the update that grants `grant` to `principal`, with the DACL protected from
    /// inheritance unless `inheritance_enabled`. A principal that cannot stand in an entry
    /// is refused.
    pub fn build(grant: &ResolvedGrant, principal: &str, inheritance_enabled: bool) -> (r: Result<
        SecurityDescriptorUpdate,
        GrantError,
    >)
        ensures
            match r {
                Ok(update) => valid_principal(principal@) && update@ == update_for(
                    grant@,
                    principal@,
                    inheritance_enabled,
                ),
                Err(error) => !valid_principal(principal@) && error@
                    == GrantErrorView::MalformedPrincipal,
            },
    {
        if !check_principal(principal) {
            return Err(GrantError::MalformedPrincipal);
        }
        let mut ace = String::new();
        ace.append("(A;");
        if inheritance_enabled {
            ace.append("CI");
        }
        ace.append(";");
        match grant {
            ResolvedGrant::AccessMask(mask) => {
                push_decimal(&mut ace, mask.bits());
                ace.append(";;;");
            },
            ResolvedGrant::ExtendedRight(id) => {
                push_decimal(&mut ace, CONTROL_ACCESS);
                ace.append(";");
                id.push_text(&mut ace);
                ace.append(";;");
            },
        }
        ace.append(principal);
        ace.append(")");
        let mut flags = String::new();
        if inheritance_enabled {
            push_decimal(&mut flags, 0);
        } else {
            push_decimal(&mut flags, DACL_PROTECTED);
        }
        assert(ace@ =~= ace_text(grant@, principal@, inheritance_enabled));
        assert(flags@ =~= sd_control_text(inheritance_enabled));
        Ok(
            SecurityDescriptorUpdate {
                ace_string: ace,
                sd_control_flags: flags,
                dac_protected: !inheritance_enabled,
            },
        )
    }

    /// The access-control entry.
    pub fn ace_string(&self) -> (r: &str)
        ensures
            r@ == self@.ace_string,
    {
        self.ace_string.as_str()
    }

    /// The control flags, in decimal.
    pub fn sd_control_flags(&self) -> (r: &str)
        ensures
            r@ == self@.sd_control_flags,
            r@ == sd_control_text(!self@.dac_protected),
    {
        proof {
            use_type_invariant(self);
        }
        self.sd_control_flags.as_str()
    }

    /// Whether the update protects the DACL from inheritance.
    pub fn dac_protected(&self) -> (r: bool)
        ensures
            r == self@.dac_protected,
    {
        self.dac_protected
    }
}

/// Building an update is a function of its three inputs and of nothing else: the same
/// grant, principal and inheritance give the same update, byte for byte.
pub proof fn lemma_build_is_deterministic(
    first: ResolvedGrant,
    second: ResolvedGrant,
    first_principal: Seq<char>,
    second_principal: Seq<char>,
    first_inheritance: bool,
    second_inheritance: bool,
)
    requires
        first == second,
        first_principal == second_principal,
        first_inheritance == second_inheritance,
    ensures
        update_for(first@, first_principal, first_inheritance) == update_for(
            second@,
            second_principal,
            second_inheritance,
        ),
        encode_utf8(update_for(first@, first_principal, first_inheritance).ace_string)
            == encode_utf8(update_for(second@, second_principal, second_inheritance).ace_string),
{
}

/// An update protects the DACL exactly when inheritance is not enabled, and its control
/// flags say the same: zero with inheritance, the protecting value without.
pub proof fn lemma_dac_protected_negates_inheritance(
    grant: ResolvedGrantView,
    principal: Seq<char>,
    inheritance_enabled: bool,
)
    ensures
        update_for(grant, principal, inheritance_enabled).dac_protected == !inheritance_enabled,
        update_for(grant, principal, inheritance_enabled).sd_control_flags == if inheritance_enabled {
            "0"@
        } else {
            "2147483648"@
        },
        sd_control_text(true) != sd_control_text(false),
{
    reveal_with_fuel(decimal, 11);
    reveal_strlit("0");
    reveal_strlit("2147483648");
    assert(decimal(0) =~= "0"@);
    assert(decimal(2147483648) =~= "2147483648"@);
    assert("0"@.len() != "2147483648"@.len());
}

/// How often `c` stands in `s`.
pub open spec fn occurrences(s: Seq<char>, c: char) -> nat
    decreases s.len(),
{
    if s.len() == 0 {
        0
    } else {
        occurrences(s.drop_last(), c) + if s.last() == c {
            1nat
        } else {
            0nat
        }
    }
}

/// A character stands in two texts put together as often as in both.
pub proof fn lemma_occurrences_concat(a: Seq<char>, b: Seq<char>, c: char)
    ensures
        occurrences(a + b, c) == occurrences(a, c) + occurrences(b, c),
    decreases b.len(),
{
    if b.len() == 0 {
        assert(a + b =~= a);
    } else {
        lemma_occurrences_concat(a, b.drop_last(), c);
        assert((a + b).drop_last() =~= a + b.drop_last());
    }
}

/// A character that a text does not hold stands in it zero times.
pub proof fn lemma_occurrences_none(s: Seq<char>, c: char)
    requires
        forall|i: int| 0 <= i < s.len() ==> s[i] != c,
    ensures
        occurrences(s, c) == 0,
    decreases s.len(),
{
    if s.len() > 0 {
        lemma_occurrences_none(s.drop_last(), c);
    }
}

/// A decimal numeral holds decimal digits only.
pub proof fn lemma_decimal_digits(n: nat)
    ensures
        decimal(n).len() >= 1,
        forall|i: int|
            0 <= i < decimal(n).len() ==> exists|d: int|
                0 <= d < 10 && #[trigger] decimal(n)[i] == digit_char(d),
    decreases n,
{
    if n >= 10 {
        lemma_decimal_digits(n / 10);
        let d = (n % 10) as int;
        assert(decimal(n).last() == digit_char(d));
        assert forall|i: int| 0 <= i < decimal(n).len() implies exists|d: int|
            0 <= d < 10 && #[trigger] decimal(n)[i] == digit_char(d) by {
            if i < decimal(n / 10).len() {
                assert(decimal(n)[i] == decimal(n / 10)[i]);
            }
        }
    } else {
        assert(decimal(n)[0] == digit_char(n as int));
    }
}

/// An entry that is built is well delimited: it opens with its one opening bracket and
/// closes with its one closing bracket, exactly five semicolons part its six fields, and
/// it holds no NUL.
pub proof fn lemma_entry_is_well_delimited(
    grant: ResolvedGrant,
    principal: Seq<char>,
    inheritance_enabled: bool,
)
    requires
        valid_principal(principal),
    ensures
        ace_text(grant@, principal, inheritance_enabled).first() == '(',
        ace_text(grant@, principal, inheritance_enabled).last() == ')',
        occurrences(ace_text(grant@, principal, inheritance_enabled), '(') == 1,
        occurrences(ace_text(grant@, principal, inheritance_enabled), ')') == 1,
        occurrences(ace_text(grant@, principal, inheritance_enabled), ';') == 5,
        occurrences(ace_text(grant@, principal, inheritance_enabled), '\0') == 0,
{
    let flags = inherit_flags(inheritance_enabled);
    let open = "(A;"@;
    let close = ")"@;
    reveal_strlit("(A;");
    reveal_strlit("CI");
    reveal_strlit(";");
    reveal_strlit(";;");
    reveal_strlit(";;;");
    reveal_strlit(")");
    reveal_with_fuel(occurrences, 4);
    assert(open.len() == 3 && close.len() == 1 && ";"@.len() == 1 && ";;"@.len() == 2 && ";;;"@.len()
        == 3);
    assert(flags.len() == 0 || flags.len() == 2);
    let number = match grant {
        ResolvedGrant::AccessMask(mask) => decimal(mask.bits as nat),
        ResolvedGrant::ExtendedRight(_) => decimal(CONTROL_ACCESS as nat),
    };
    lemma_decimal_digits(
        match grant {
            ResolvedGrant::AccessMask(mask) => mask.bits as nat,
            ResolvedGrant::ExtendedRight(_) => CONTROL_ACCESS as nat,
        },
    );
    let tail = match grant {
        ResolvedGrant::AccessMask(_) => ";;;"@,
        ResolvedGrant::ExtendedRight(id) => ";"@ + hyphenated(id.value) + ";;"@,
    };
    let ace = ace_text(grant@, principal, inheritance_enabled);
    assert(ace =~= open + flags + ";"@ + number + tail + principal + close);
    assert(ace.first() == '(');
    assert(ace.last() == ')');
    assert forall|c: char| c == '(' || c == ')' || c == ';' || c == '\0' implies occurrences(
        ace,
        c,
    ) == occurrences(open, c) + occurrences(";"@, c) + occurrences(tail, c) + occurrences(
        close,
        c,
    ) by {
        lemma_occurrences_none(flags, c);
        lemma_occurrences_none(number, c);
        lemma_occurrences_none(principal, c);
        lemma_occurrences_concat(open, flags, c);
        lemma_occurrences_concat(open + flags, ";"@, c);
        lemma_occurrences_concat(open + flags + ";"@, number, c);
        lemma_occurrences_concat(open + flags + ";"@ + number, tail, c);
        lemma_occurrences_concat(open + flags + ";"@ + number + tail, principal, c);
        lemma_occurrences_concat(open + flags + ";"@ + number + tail + principal, close, c);
    }
    match grant {
        ResolvedGrant::AccessMask(_) => {},
        ResolvedGrant::ExtendedRight(id) => {
            let text = hyphenated(id.value);
            lemma_hyphenated_is_canonical(id.value);
            assert forall|c: char| c == '(' || c == ')' || c == ';' || c == '\0' implies occurrences(
                tail,
                c,
            ) == occurrences(";"@, c) + occurrences(";;"@, c) by {
                assert forall|i: int| 0 <= i < text.len() implies text[i] != c by {
                    if i != 8 && i != 13 && i != 18 && i != 23 {
                        assert(is_lower_hex(text[i]));
                    }
                }
                lemma_occurrences_none(text, c);
                lemma_occurrences_concat(";"@, text, c);
                lemma_occurrences_concat(";"@ + text, ";;"@, c);
            }
        },
    }
}

} // verus!
