//! Routing rules for UI-component identifiers ("custom ids").
use vstd::prelude::*;
use vstd::string::StringSliceAdditionalSpecFns;
use vstd::utf8::encode_utf8;
use crate::text::ToOwnedString;

verus! {

/// `p` is a prefix of `s`, compared byte by byte.
pub open spec fn is_prefix_of(p: Seq<u8>, s: Seq<u8>) -> bool {
    p.len() <= s.len() && s.subrange(0, p.len() as int) =~= p
}

/// The UTF-8 bytes of a string value.
pub open spec fn utf8_of(s: Seq<char>) -> Seq<u8> {
    encode_utf8(s)
}

/// Byte-exact prefix test on two slices.
pub fn bytes_start_with(s: &[u8], p: &[u8]) -> (r: bool)
    ensures
        r == is_prefix_of(p@, s@),
{
    if p.len() > s.len() {
        return false;
    }
    let mut i: usize = 0;
    while i < p.len()
        invariant
            p@.len() <= s@.len(),
            i <= p@.len(),
            forall|j: int| 0 <= j < i ==> s@[j] == p@[j],
        decreases p@.len() - i,
    {
        if s[i] != p[i] {
            proof {
                assert(s@.subrange(0, p@.len() as int)[i as int] != p@[i as int]);
            }
            return false;
        }
        i = i + 1;
    }
    assert(s@.subrange(0, p@.len() as int) =~= p@);
    true
}

/// Byte-exact equality of two slices.
pub fn bytes_equal(a: &[u8], b: &[u8]) -> (r: bool)
    ensures
        r == (a@ == b@),
{
    if a.len() != b.len() {
        return false;
    }
    let r = bytes_start_with(a, b);
    proof {
        if r {
            assert(a@ =~= a@.subrange(0, b@.len() as int));
        }
    }
    r
}

/// Whether a rule, given as (is a prefix rule, text), selects the identifier
/// with UTF-8 bytes `id`: a prefix rule selects identifiers that begin with
/// its text, an exact rule only the identifier equal to it.
pub open spec fn rule_matches(rule: (bool, Seq<char>), id: Seq<u8>) -> bool {
    if rule.0 {
        is_prefix_of(utf8_of(rule.1), id)
    } else {
        id == utf8_of(rule.1)
    }
}

/// A rule that selects component identifiers: by prefix or by exact value.
pub enum CustomIdPattern {
    StartsWith(String),
    Equals(String),
}

impl CustomIdPattern {
    /// Whether this rule selects the identifier with UTF-8 bytes `id`.
    pub open spec fn spec_matches(&self, id: Seq<u8>) -> bool {
        rule_matches(self.rule(), id)
    }

    /// The rule as a value: whether it is a prefix rule, and its text.
    pub open spec fn rule(&self) -> (bool, Seq<char>) {
        match self {
            CustomIdPattern::StartsWith(p) => (true, p@),
            CustomIdPattern::Equals(e) => (false, e@),
        }
    }

    /// A rule that selects every identifier that begins with `pattern`.
    pub fn starts_with<S: ToOwnedString>(pattern: S) -> (r: CustomIdPattern)
        ensures
            r.rule() == (true, pattern.text()),
    {
        CustomIdPattern::StartsWith(pattern.to_owned_string())
    }

    /// A rule that selects exactly the identifier `custom_id`.
    pub fn equals<S: ToOwnedString>(custom_id: S) -> (r: CustomIdPattern)
        ensures
            r.rule() == (false, custom_id.text()),
    {
        CustomIdPattern::Equals(custom_id.to_owned_string())
    }

    /// Decides whether `custom_id` is selected by this rule.
    pub fn matches(&self, custom_id: &str) -> (r: bool)
        ensures
            r == self.spec_matches(custom_id.spec_bytes()),
    {
        match self {
            CustomIdPattern::StartsWith(p) => bytes_start_with(custom_id.as_bytes(), p.as_str().as_bytes()),
            CustomIdPattern::Equals(e) => bytes_equal(custom_id.as_bytes(), e.as_str().as_bytes()),
        }
    }

    /// Whether two rules are the same rule (same kind, same text).
    pub fn same_rule(&self, other: &CustomIdPattern) -> (r: bool)
        ensures
            r == (self.rule() == other.rule()),
    {
        match (self, other) {
            (CustomIdPattern::StartsWith(a), CustomIdPattern::StartsWith(b)) => a.eq(b),
            (CustomIdPattern::Equals(a), CustomIdPattern::Equals(b)) => a.eq(b),
            _ => false,
        }
    }

    /// A copy of this rule.
    pub fn duplicate(&self) -> (r: CustomIdPattern)
        ensures
            r.rule() == self.rule(),
    {
        match self {
            CustomIdPattern::StartsWith(p) => CustomIdPattern::StartsWith(p.clone()),
            CustomIdPattern::Equals(e) => CustomIdPattern::Equals(e.clone()),
        }
    }
}

} // verus!
