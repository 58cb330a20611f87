//! Deployment names and the policy that admits them.
use vstd::prelude::*;
use vstd::string::*;

verus! {

/// Longest name, in characters, that the policy admits.
pub const MAX_NAME_LEN: usize = 255;

/// A character allowed in a deployment name: ASCII letters and digits, `-` and `_`.
pub open spec fn is_name_char(c: char) -> bool {
    ('a' <= c && c <= 'z') || ('A' <= c && c <= 'Z') || ('0' <= c && c <= '9') || c == '-'
        || c == '_'
}

/// The naming policy: non-empty, at most `MAX_NAME_LEN` characters, all allowed.
pub open spec fn is_valid_name(s: Seq<char>) -> bool {
    0 < s.len() <= MAX_NAME_LEN && forall|i: int| 0 <= i < s.len() ==> is_name_char(#[trigger] s[i])
}

fn name_char(c: char) -> (r: bool)
    ensures
        r == is_name_char(c),
{
    ('a' <= c && c <= 'z') || ('A' <= c && c <= 'Z') || ('0' <= c && c <= '9') || c == '-'
        || c == '_'
}

/// Tests a candidate name against the naming policy.
pub fn valid_name(s: &str) -> (r: bool)
    ensures
        r == is_valid_name(s@),
{
    let n = s.unicode_len();
    if n == 0 || n > MAX_NAME_LEN {
        return false;
    }
    let mut i: usize = 0;
    while i < n
        invariant
            n == s@.len(),
            i <= n,
            forall|j: int| 0 <= j < i ==> is_name_char(#[trigger] s@[j]),
        decreases n - i,
    {
        if !name_char(s.get_char(i)) {
            return false;
        }
        i = i + 1;
    }
    true
}

/// A deployment name that satisfies the naming policy.
#[derive(Debug)]
pub struct SubgraphDeploymentName {
    name: String,
}

impl View for SubgraphDeploymentName {
    type V = Seq<char>;

    closed spec fn view(&self) -> Seq<char> {
        self.name@
    }
}

impl Clone for SubgraphDeploymentName {
    fn clone(&self) -> Self {
        proof {
            use_type_invariant(self);
        }
        SubgraphDeploymentName { name: self.name.clone() }
    }
}

impl SubgraphDeploymentName {
    #[verifier::type_invariant]
    spec fn inv(&self) -> bool {
        is_valid_name(self.name@)
    }

    /// Admits `s` as a name exactly when it satisfies the naming policy.
    pub fn new(s: String) -> (r: Result<SubgraphDeploymentName, ()>)
        ensures
            r is Ok <==> is_valid_name(s@),
            r matches Ok(n) ==> n@ == s@,
    {
        if valid_name(s.as_str()) {
            Ok(SubgraphDeploymentName { name: s })
        } else {
            Err(())
        }
    }

    /// The name as text.
    pub fn as_str(&self) -> (r: &str)
        ensures
            r@ == self@,
            is_valid_name(r@),
    {
        proof {
            use_type_invariant(self);
        }
        self.name.as_str()
    }

    /// The name as an owned string.
    pub fn to_string(&self) -> (r: String)
        ensures
            r@ == self@,
            is_valid_name(r@),
    {
        proof {
            use_type_invariant(self);
        }
        self.name.clone()
    }
}

} // verus!
