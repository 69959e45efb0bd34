use vstd::prelude::*;

verus! {

pub open spec fn is_ascii_alphanumeric(c: char) -> bool {
    ||| 'a' <= c <= 'z'
    ||| 'A' <= c <= 'Z'
    ||| '0' <= c <= '9'
}

/// A character allowed in the local part (before the `@`): letters, digits,
/// the dot and the printable specials of RFC 5322's `atext`.
pub open spec fn is_local_char(c: char) -> bool {
    ||| is_ascii_alphanumeric(c)
    ||| c == '.'
    ||| c == '!'
    ||| c == '#'
    ||| c == '$'
    ||| c == '%'
    ||| c == '&'
    ||| c == '\''
    ||| c == '*'
    ||| c == '+'
    ||| c == '-'
    ||| c == '/'
    ||| c == '='
    ||| c == '?'
    ||| c == '^'
    ||| c == '_'
    ||| c == '`'
    ||| c == '{'
    ||| c == '|'
    ||| c == '}'
    ||| c == '~'
}

/// A character allowed in the domain (after the `@`).
pub open spec fn is_domain_char(c: char) -> bool {
    is_ascii_alphanumeric(c) || c == '-' || c == '.'
}

/// `s` splits at its `@` at index `k` into a non-empty local part of allowed
/// characters, and a domain: one or more non-empty labels of letters, digits
/// and hyphens, separated by single dots.
pub open spec fn email_split_at(s: Seq<char>, k: int) -> bool {
    &&& 0 < k < s.len() - 1
    &&& s[k] == '@'
    &&& forall|i: int| 0 <= i < k ==> is_local_char(#[trigger] s[i])
    &&& forall|i: int| k < i < s.len() ==> is_domain_char(#[trigger] s[i])
    &&& s[k + 1] != '.'
    &&& s[s.len() - 1] != '.'
    &&& forall|i: int| k < i < s.len() - 1 ==> !(#[trigger] s[i] == '.' && s[i + 1] == '.')
}

/// `s` is an email address of the form `local@domain`.
pub open spec fn valid_email(s: Seq<char>) -> bool {
    exists|k: int| email_split_at(s, k)
}

/// The diagnostic returned for a rejected email: the offending value, then a
/// fixed sentence.
pub open spec fn invalid_email_message(s: Seq<char>) -> Seq<char> {
    s + " is not a valid subscriber email."@
}

fn is_ascii_alphanumeric_char(c: char) -> (r: bool)
    ensures
        r == is_ascii_alphanumeric(c),
{
    ('a' <= c && c <= 'z') || ('A' <= c && c <= 'Z') || ('0' <= c && c <= '9')
}

fn is_local_part_char(c: char) -> (r: bool)
    ensures
        r == is_local_char(c),
{
    is_ascii_alphanumeric_char(c) || c == '.' || c == '!' || c == '#' || c == '$' || c == '%' || c
        == '&' || c == '\'' || c == '*' || c == '+' || c == '-' || c == '/' || c == '=' || c == '?'
        || c == '^' || c == '_' || c == '`' || c == '{' || c == '|' || c == '}' || c == '~'
}

fn is_domain_part_char(c: char) -> (r: bool)
    ensures
        r == is_domain_char(c),
{
    is_ascii_alphanumeric_char(c) || c == '-' || c == '.'
}

/// Neither part of an address holds an `@`, so the only place it can split
/// is its first `@`.
proof fn lemma_split_at_first_at(s: Seq<char>, k: int)
    requires
        0 <= k <= s.len(),
        forall|i: int| 0 <= i < k ==> is_local_char(#[trigger] s[i]),
    ensures
        forall|m: int| #[trigger] email_split_at(s, m) ==> m >= k,
        k < s.len() && s[k] != '@' ==> forall|m: int| #[trigger] email_split_at(s, m) ==> m > k,
        k < s.len() && s[k] == '@' ==> (valid_email(s) <==> email_split_at(s, k)),
{
    assert forall|m: int| #[trigger] email_split_at(s, m) implies m >= k by {
        if m < k {
            assert(is_local_char(s[m]));
        }
    }
    if k < s.len() && s[k] == '@' {
        if valid_email(s) {
            let m = choose|m: int| email_split_at(s, m);
            if m > k {
                assert(is_local_char(s[k]));
            }
        }
    }
}

/// Whether `value` is an email address of the form `local@domain`.
pub fn email_is_valid(value: &str) -> (r: bool)
    ensures
        r == valid_email(value@),
{
    let ghost s = value@;
    let n = value.unicode_len();
    // The local part runs up to the first `@`.
    let mut k: usize = 0;
    while k < n && value.get_char(k) != '@'
        invariant
            s == value@,
            n == s.len(),
            k <= n,
            forall|j: int| 0 <= j < k ==> is_local_char(#[trigger] s[j]),
            forall|m: int| #[trigger] email_split_at(s, m) ==> m >= k,
        decreases n - k,
    {
        if !is_local_part_char(value.get_char(k)) {
            proof {
                assert forall|m: int| !#[trigger] email_split_at(s, m) by {
                    if email_split_at(s, m) && m > k {
                        assert(is_local_char(s[k as int]));
                    }
                }
            }
            return false;
        }
        proof {
            lemma_split_at_first_at(s, k as int);
        }
        k = k + 1;
    }
    proof {
        lemma_split_at_first_at(s, k as int);
    }
    if k == 0 || k >= n - 1 {
        return false;
    }
    // The domain is everything after it.
    if value.get_char(k + 1) == '.' || value.get_char(n - 1) == '.' {
        return false;
    }
    let mut i: usize = k + 1;
    while i < n
        invariant
            s == value@,
            n == s.len(),
            0 < k < n - 1,
            s[k as int] == '@',
            k + 1 <= i <= n,
            forall|j: int| k < j < i ==> is_domain_char(#[trigger] s[j]),
            forall|j: int| k < j < i - 1 ==> !(#[trigger] s[j] == '.' && s[j + 1] == '.'),
        decreases n - i,
    {
        let c = value.get_char(i);
        if !is_domain_part_char(c) {
            return false;
        }
        if i > k + 1 && c == '.' && value.get_char(i - 1) == '.' {
            assert(s[i - 1] == '.' && s[i - 1 + 1] == '.');
            assert(!email_split_at(s, k as int));
            return false;
        }
        i = i + 1;
    }
    assert(email_split_at(s, k as int));
    true
}

/// Text with no `@`, with nothing before its first `@`, or with nothing after
/// its last `@`, is never an email address.
pub proof fn lemma_malformed_email_rejected(s: Seq<char>)
    ensures
        (forall|i: int| 0 <= i < s.len() ==> #[trigger] s[i] != '@') ==> !valid_email(s),
        s.len() > 0 && s[0] == '@' ==> !valid_email(s),
        s.len() > 0 && s[s.len() - 1] == '@' ==> !valid_email(s),
{
    if valid_email(s) {
        let k = choose|k: int| email_split_at(s, k);
        assert(s[k] == '@');
        assert(is_domain_char(s[s.len() - 1]));
    }
}

/// A subscriber's email address that passed validation.
pub struct SubscriberEmail {
    inner: String,
}

impl View for SubscriberEmail {
    type V = Seq<char>;

    closed spec fn view(&self) -> Seq<char> {
        self.inner@
    }
}

impl SubscriberEmail {
    #[verifier::type_invariant]
    closed spec fn inv(self) -> bool {
        valid_email(self.inner@)
    }

    /// Validates `value` and keeps it unchanged when it passes.
    pub fn parse(value: String) -> (r: Result<SubscriberEmail, String>)
        ensures
            r is Ok <==> valid_email(value@),
            r matches Ok(e) ==> e@ == value@,
            r matches Err(e) ==> e@ == invalid_email_message(value@),
    {
        if !email_is_valid(value.as_str()) {
            return Err(value.concat(" is not a valid subscriber email."));
        }
        Ok(SubscriberEmail { inner: value })
    }

    /// The validated address, as it was given.
    pub fn as_ref(&self) -> (r: &str)
        ensures
            r@ == self@,
            valid_email(r@),
    {
        proof {
            use_type_invariant(self);
        }
        self.inner.as_str()
    }
}

} // verus!
