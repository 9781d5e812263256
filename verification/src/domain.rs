//! Validated email address values.
//!
//! An address is accepted when it has exactly one `@`, a non-empty local
//! part, and a domain that shows a dot-separated label structure: non-empty,
//! containing at least one `.`, not starting or ending with `.`, and with no
//! two adjacent dots.

use vstd::prelude::*;

verus! {

/// The domain part of an address: non-empty, holds at least one `.`,
/// does not start or end with `.`, and has no empty label inside.
pub open spec fn domain_ok(d: Seq<char>) -> bool {
    &&& d.len() > 0
    &&& d.first() != '.'
    &&& d.last() != '.'
    &&& exists|j: int| 0 <= j < d.len() && d[j] == '.'
    &&& forall|j: int| #![trigger d[j]] 0 <= j < d.len() - 1 ==> !(d[j] == '.' && d[j + 1] == '.')
}

/// The whole string splits at position `i`: a non-empty local part before
/// the only `@`, and a well-shaped domain after it.
pub open spec fn valid_split_at(s: Seq<char>, i: int) -> bool {
    &&& 1 <= i < s.len()
    &&& s[i] == '@'
    &&& forall|j: int| 0 <= j < s.len() && j != i ==> s[j] != '@'
    &&& domain_ok(s.subrange(i + 1, s.len() as int))
}

/// The address grammar: some position is a valid split point.
pub open spec fn is_valid_email(s: Seq<char>) -> bool {
    exists|i: int| valid_split_at(s, i)
}

/// Rejected input, kept for error reporting.
#[derive(Debug)]
pub struct ValidationError {
    pub rejected: String,
}

/// An email address that satisfied the grammar when it was constructed.
#[derive(Debug)]
pub struct SubscriberEmail {
    email: String,
}

impl View for SubscriberEmail {
    type V = Seq<char>;

    closed spec fn view(&self) -> Seq<char> {
        self.email@
    }
}

impl SubscriberEmail {
    #[verifier::type_invariant]
    spec fn type_inv(self) -> bool {
        is_valid_email(self.email@)
    }

    /// Validate `s` against the address grammar; an invalid string never
    /// produces an address.
    pub fn parse(s: String) -> (r: Result<SubscriberEmail, ValidationError>)
        ensures
            r is Ok <==> is_valid_email(s@),
            r matches Ok(e) ==> e@ == s@,
            r matches Err(v) ==> v.rejected@ == s@,
    {
        let len = s.as_str().unicode_len();
        let mut first_at: Option<usize> = None;
        let mut second_at: Option<usize> = None;
        let mut i: usize = 0;
        while i < len
            invariant
                len == s@.len(),
                i <= len,
                first_at is None ==> forall|j: int| 0 <= j < i ==> s@[j] != '@',
                first_at matches Some(a) ==> {
                    &&& a < i
                    &&& s@[a as int] == '@'
                    &&& second_at is None ==> forall|j: int|
                        0 <= j < i && j != a ==> s@[j] != '@'
                },
                second_at matches Some(b) ==> {
                    &&& first_at matches Some(a) && a != b
                    &&& b < i
                    &&& s@[b as int] == '@'
                },
            decreases len - i,
        {
            let c = s.as_str().get_char(i);
            if c == '@' {
                if first_at.is_none() {
                    first_at = Some(i);
                } else if second_at.is_none() {
                    second_at = Some(i);
                }
            }
            i += 1;
        }
        let a = match first_at {
            None => {
                proof {
                    assert forall|k: int| !valid_split_at(s@, k) by {
                        if 1 <= k < s@.len() {
                            assert(s@[k] != '@');
                        }
                    }
                }
                return Err(ValidationError { rejected: s });
            },
            Some(a) => a,
        };
        if let Some(b) = second_at {
            proof {
                assert forall|k: int| !valid_split_at(s@, k) by {
                    if valid_split_at(s@, k) {
                        if k != a {
                            assert(s@[a as int] != '@');
                        } else {
                            assert(s@[b as int] != '@');
                        }
                    }
                }
            }
            return Err(ValidationError { rejected: s });
        }
        if a == 0 {
            proof {
                assert forall|k: int| !valid_split_at(s@, k) by {
                    if valid_split_at(s@, k) && k != 0 {
                        assert(s@[k] != '@');
                    }
                }
            }
            return Err(ValidationError { rejected: s });
        }
        // The unique `@` stands at `a >= 1`; now check the domain.
        let ghost d = s@.subrange(a + 1, s@.len() as int);
        if a + 1 >= len {
            proof {
                assert(d.len() == 0);
                lemma_only_candidate(s@, a as int);
            }
            return Err(ValidationError { rejected: s });
        }
        let mut has_dot = false;
        let mut shape_bad = false;
        let mut k: usize = a + 1;
        while k < len
            invariant
                len == s@.len(),
                a + 1 <= k <= len,
                s@[a as int] == '@',
                forall|j: int| 0 <= j < s@.len() && j != a ==> s@[j] != '@',
                d == s@.subrange(a + 1, s@.len() as int),
                has_dot <==> exists|j: int| a + 1 <= j < k && s@[j] == '.',
                !shape_bad ==> (k > a + 1 ==> s@[a + 1] != '.'),
                !shape_bad ==> forall|j: int| #![trigger s@[j]]
                    a + 1 <= j < k - 1 ==> !(s@[j] == '.' && s@[j + 1] == '.'),
                shape_bad ==> !domain_ok(d),
            decreases len - k,
        {
            let c = s.as_str().get_char(k);
            if c == '.' {
                if k == a + 1 {
                    proof {
                        assert(d.first() == s@[a + 1]);
                    }
                    shape_bad = true;
                } else if !shape_bad && s.as_str().get_char(k - 1) == '.' {
                    proof {
                        assert(d[k - 1 - (a + 1) as int] == s@[k - 1]);
                        assert(d[k - (a + 1) as int] == s@[k as int]);
                    }
                    shape_bad = true;
                }
                if !has_dot {
                    has_dot = true;
                }
            }
            k += 1;
        }
        let last_is_dot = s.as_str().get_char(len - 1) == '.';
        if shape_bad || !has_dot || last_is_dot {
            proof {
                if !shape_bad {
                    if !has_dot {
                        assert forall|j: int| 0 <= j < d.len() implies d[j] != '.' by {
                            assert(d[j] == s@[a + 1 + j]);
                        }
                        assert(!domain_ok(d));
                    } else {
                        assert(d.last() == s@[s@.len() - 1]);
                        assert(!domain_ok(d));
                    }
                }
                lemma_only_candidate(s@, a as int);
            }
            return Err(ValidationError { rejected: s });
        }
        proof {
            assert(d.first() == s@[a + 1]);
            assert(d.last() == s@[s@.len() - 1]);
            let jw = choose|j: int| a + 1 <= j < len && s@[j] == '.';
            assert(d[jw - (a + 1)] == s@[jw]);
            assert forall|j: int| #![trigger d[j]] 0 <= j < d.len() - 1 implies !(d[j] == '.'
                && d[j + 1] == '.') by {
                assert(d[j] == s@[a + 1 + j]);
                assert(d[j + 1] == s@[a + 1 + j + 1]);
            }
            assert(domain_ok(d));
            assert(valid_split_at(s@, a as int));
        }
        Ok(SubscriberEmail { email: s })
    }

    /// The textual form of the address: exactly the string that was parsed,
    /// which the construction-time invariant keeps valid.
    pub fn as_ref(&self) -> (r: &str)
        ensures
            r@ == self@,
            is_valid_email(self@),
    {
        proof {
            use_type_invariant(self);
        }
        self.email.as_str()
    }
}

/// When every position other than `i` is free of `@`, position `i` is the
/// only candidate split point, so a flaw there refutes the whole grammar.
proof fn lemma_only_candidate(s: Seq<char>, i: int)
    requires
        0 <= i < s.len(),
        s[i] == '@',
        forall|j: int| 0 <= j < s.len() && j != i ==> s[j] != '@',
        !(1 <= i && domain_ok(s.subrange(i + 1, s.len() as int))),
    ensures
        !is_valid_email(s),
{
    assert forall|k: int| !valid_split_at(s, k) by {
        if valid_split_at(s, k) {
            if k != i {
                assert(s[k] != '@');
            }
        }
    }
}

/// A string with no `@` at all is never a valid address.
pub proof fn lemma_no_at_rejected(s: Seq<char>)
    requires
        forall|j: int| 0 <= j < s.len() ==> s[j] != '@',
    ensures
        !is_valid_email(s),
{
    assert forall|k: int| !valid_split_at(s, k) by {
        if 0 <= k < s.len() {
            assert(s[k] != '@');
        }
    }
}

/// A string whose first character is `@` has an empty local part and is
/// never a valid address.
pub proof fn lemma_empty_local_rejected(s: Seq<char>)
    requires
        s.len() > 0,
        s[0] == '@',
    ensures
        !is_valid_email(s),
{
    assert forall|k: int| !valid_split_at(s, k) by {
        if valid_split_at(s, k) && k != 0 {
            assert(s[0] != '@');
        }
    }
}

/// A string whose last character is `@` has an empty domain part and is
/// never a valid address.
pub proof fn lemma_empty_domain_rejected(s: Seq<char>)
    requires
        s.len() > 0,
        s[s.len() - 1] == '@',
    ensures
        !is_valid_email(s),
{
    assert forall|k: int| !valid_split_at(s, k) by {
        if valid_split_at(s, k) {
            if k != s.len() - 1 {
                assert(s[s.len() - 1] != '@');
            } else {
                assert(s.subrange(k + 1, s.len() as int).len() == 0);
            }
        }
    }
}

/// Every string of the plain shape `local@label.tld` — the three pieces
/// non-empty, no `@` anywhere, no `.` inside the two domain labels — is a
/// valid address.
pub proof fn lemma_simple_form_accepted(local: Seq<char>, label: Seq<char>, tld: Seq<char>)
    requires
        local.len() > 0,
        label.len() > 0,
        tld.len() > 0,
        forall|j: int| 0 <= j < local.len() ==> local[j] != '@',
        forall|j: int| 0 <= j < label.len() ==> label[j] != '@' && label[j] != '.',
        forall|j: int| 0 <= j < tld.len() ==> tld[j] != '@' && tld[j] != '.',
    ensures
        is_valid_email(local + seq!['@'] + label + seq!['.'] + tld),
{
    let s = local + seq!['@'] + label + seq!['.'] + tld;
    let i = local.len() as int;
    let d = s.subrange(i + 1, s.len() as int);
    assert(s[i] == '@');
    assert(d =~= label + seq!['.'] + tld);
    assert forall|j: int| 0 <= j < s.len() && j != i implies s[j] != '@' by {
        if j < i {
            assert(s[j] == local[j]);
        } else if j < i + 1 + label.len() {
            assert(s[j] == label[j - i - 1]);
        } else if j == i + 1 + label.len() {
            assert(s[j] == '.');
        } else {
            assert(s[j] == tld[j - i - 2 - label.len()]);
        }
    }
    assert(d.first() == label[0]);
    assert(d.last() == tld[tld.len() - 1]);
    assert(d[label.len() as int] == '.');
    assert forall|j: int| #![trigger d[j]] 0 <= j < d.len() - 1 implies !(d[j] == '.' && d[j + 1] == '.') by {
        if j < label.len() {
            assert(d[j] == label[j]);
        } else if j == label.len() {
            assert(d[j + 1] == tld[0]);
        } else {
            assert(d[j] == tld[j - 1 - label.len()]);
        }
    }
    assert(domain_ok(d));
    assert(valid_split_at(s, i));
}

} // verus!
