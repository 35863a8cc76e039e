//! Validated deployment identifiers.
use vstd::prelude::*;
use vstd::string::StrSliceExecFns;

verus! {

/// Longest identifier accepted, in characters.
pub const MAX_DEPLOYMENT_HASH_LEN: usize = 46;

/// An ASCII letter, an ASCII digit or `_`.
pub open spec fn is_id_char(c: char) -> bool {
    ('a' <= c && c <= 'z') || ('A' <= c && c <= 'Z') || ('0' <= c && c <= '9') || c == '_'
}

/// A deployment identifier is non-empty, at most 46 characters long, and made
/// of ASCII letters, digits and `_`.
pub open spec fn is_valid_deployment_hash(s: Seq<char>) -> bool {
    &&& 0 < s.len() <= MAX_DEPLOYMENT_HASH_LEN
    &&& forall|i: int| 0 <= i < s.len() ==> is_id_char(#[trigger] s[i])
}

/// The identifier of a deployment, checked when it is made.
#[derive(Clone, Debug, PartialEq, Eq)]
pub struct DeploymentHash {
    id: String,
}

impl View for DeploymentHash {
    type V = Seq<char>;

    closed spec fn view(&self) -> Seq<char> {
        self.id@
    }
}

impl DeploymentHash {
    /// Checks `s` and wraps it; hands `s` back unchanged where it is not a
    /// valid identifier.
    pub fn new(s: String) -> (r: Result<DeploymentHash, String>)
        ensures
            is_valid_deployment_hash(s@) ==> (r matches Ok(h) && h@ == s@),
            !is_valid_deployment_hash(s@) ==> (r matches Err(e) && e@ == s@),
    {
        if check_deployment_hash(s.as_str()) {
            Ok(DeploymentHash { id: s })
        } else {
            Err(s)
        }
    }

    /// The identifier's text.
    pub fn as_str(&self) -> (r: &str)
        ensures
            r@ == self@,
    {
        self.id.as_str()
    }

    /// Whether the identifier's text is `s`.
    pub fn is(&self, s: &String) -> (r: bool)
        ensures
            r == (self@ == s@),
    {
        self.id == *s
    }

    /// The identifier as an owned string.
    pub fn to_string(&self) -> (r: String)
        ensures
            r@ == self@,
    {
        self.id.clone()
    }
}

/// Whether `s` is a valid deployment identifier.
pub fn check_deployment_hash(s: &str) -> (r: bool)
    ensures
        r == is_valid_deployment_hash(s@),
{
    let n = s.unicode_len();
    if n == 0 || n > MAX_DEPLOYMENT_HASH_LEN {
        return false;
    }
    let mut i: usize = 0;
    while i < n
        invariant
            n == s@.len(),
            i <= n,
            forall|j: int| 0 <= j < i ==> is_id_char(#[trigger] s@[j]),
        decreases n - i,
    {
        let c = s.get_char(i);
        if !(('a' <= c && c <= 'z') || ('A' <= c && c <= 'Z') || ('0' <= c && c <= '9') || c
            == '_') {
            assert(!is_id_char(s@[i as int]));
            return false;
        }
        i = i + 1;
    }
    true
}

} // verus!
