use unicode_segmentation::UnicodeSegmentation;
use vstd::prelude::*;

verus! {

/// The largest number of grapheme clusters a subscriber name may have.
pub const MAX_NAME_GRAPHEMES: usize = 256;

/// The number of extended grapheme clusters in `s`.
pub uninterp spec fn grapheme_count(s: Seq<char>) -> nat;

/// Relies on `UnicodeSegmentation::graphemes(s, true).count()` from
/// unicode-segmentation: the number of extended grapheme clusters, which
/// depends on the characters alone, and is zero for the empty string.
#[verifier::external_body]
fn count_graphemes(s: &str) -> (r: usize)
    ensures
        r as nat == grapheme_count(s@),
        s@.len() == 0 ==> r == 0,
{
    s.graphemes(true).count()
}

/// A character with the Unicode `White_Space` property.
pub open spec fn is_white_space(c: char) -> bool {
    let u = c as u32;
    ||| 0x9 <= u <= 0xd
    ||| u == 0x20
    ||| u == 0x85
    ||| u == 0xa0
    ||| u == 0x1680
    ||| 0x2000 <= u <= 0x200a
    ||| u == 0x2028
    ||| u == 0x2029
    ||| u == 0x202f
    ||| u == 0x205f
    ||| u == 0x3000
}

/// Empty, or made of whitespace only: nothing is left once it is trimmed.
pub open spec fn is_blank(s: Seq<char>) -> bool {
    forall|i: int| 0 <= i < s.len() ==> is_white_space(#[trigger] s[i])
}

/// The characters a subscriber name may not hold.
pub open spec fn is_forbidden_name_char(c: char) -> bool {
    ||| c == '/'
    ||| c == '('
    ||| c == ')'
    ||| c == '"'
    ||| c == '<'
    ||| c == '>'
    ||| c == '\\'
    ||| c == '{'
    ||| c == '}'
    ||| c == '%'
}

pub open spec fn has_forbidden_name_char(s: Seq<char>) -> bool {
    exists|i: int| 0 <= i < s.len() && is_forbidden_name_char(#[trigger] s[i])
}

/// The rules of a subscriber name, given its text and its number of
/// grapheme clusters.
pub open spec fn is_valid_name(s: Seq<char>, graphemes: nat) -> bool {
    &&& !is_blank(s)
    &&& graphemes <= MAX_NAME_GRAPHEMES
    &&& !has_forbidden_name_char(s)
}

/// The rules of a subscriber name, with the grapheme count that Unicode
/// segmentation gives.
pub open spec fn valid_name(s: Seq<char>) -> bool {
    is_valid_name(s, grapheme_count(s))
}

/// The diagnostic returned for a rejected name: the offending value, then a
/// fixed sentence.
pub open spec fn invalid_name_message(s: Seq<char>) -> Seq<char> {
    s + " is not a valid subscriber name."@
}

pub fn is_white_space_char(c: char) -> (r: bool)
    ensures
        r == is_white_space(c),
{
    let u = c as u32;
    (0x9 <= u && u <= 0xd) || u == 0x20 || u == 0x85 || u == 0xa0 || u == 0x1680 || (0x2000 <= u
        && u <= 0x200a) || u == 0x2028 || u == 0x2029 || u == 0x202f || u == 0x205f || u == 0x3000
}

pub fn is_forbidden_char(c: char) -> (r: bool)
    ensures
        r == is_forbidden_name_char(c),
{
    c == '/' || c == '(' || c == ')' || c == '"' || c == '<' || c == '>' || c == '\\' || c == '{'
        || c == '}' || c == '%'
}

/// Whether `value` is empty or whitespace only.
pub fn is_empty_or_whitespace(value: &str) -> (r: bool)
    ensures
        r == is_blank(value@),
{
    let n = value.unicode_len();
    let mut i: usize = 0;
    while i < n
        invariant
            n == value@.len(),
            i <= n,
            forall|j: int| 0 <= j < i ==> is_white_space(#[trigger] value@[j]),
        decreases n - i,
    {
        let c = value.get_char(i);
        if !is_white_space_char(c) {
            return false;
        }
        i = i + 1;
    }
    true
}

/// Whether `value` holds one of the characters a name may not hold.
pub fn contains_forbidden_chars(value: &str) -> (r: bool)
    ensures
        r == has_forbidden_name_char(value@),
{
    let n = value.unicode_len();
    let mut i: usize = 0;
    while i < n
        invariant
            n == value@.len(),
            i <= n,
            forall|j: int| 0 <= j < i ==> !is_forbidden_name_char(#[trigger] value@[j]),
        decreases n - i,
    {
        let c = value.get_char(i);
        if is_forbidden_char(c) {
            return true;
        }
        i = i + 1;
    }
    false
}

/// Whether `value`, whose number of grapheme clusters is `graphemes`, is a
/// valid subscriber name.
pub fn name_is_valid(value: &str, graphemes: usize) -> (r: bool)
    ensures
        r == is_valid_name(value@, graphemes as nat),
{
    let is_empty_or_whitespace = is_empty_or_whitespace(value);
    let is_too_long = graphemes > MAX_NAME_GRAPHEMES;
    let contains_forbidden_chars = contains_forbidden_chars(value);
    !(is_empty_or_whitespace || is_too_long || contains_forbidden_chars)
}

/// A name of exactly 256 grapheme clusters passes the length rule, so it is
/// accepted when it is neither blank nor holds a forbidden character; a name
/// of 257 grapheme clusters is rejected whatever it holds.
pub proof fn lemma_name_length_limit(s: Seq<char>)
    ensures
        grapheme_count(s) == 256 && !is_blank(s) && !has_forbidden_name_char(s) ==> valid_name(s),
        grapheme_count(s) == 257 ==> !valid_name(s),
{
}

/// Text made of whitespace only, the empty text included, is never a name.
pub proof fn lemma_blank_name_rejected(s: Seq<char>)
    requires
        forall|i: int| 0 <= i < s.len() ==> is_white_space(#[trigger] s[i]),
    ensures
        !valid_name(s),
{
}

/// Text holding any of `/ ( ) " < > \ { } %` is never a name, however well
/// formed the rest of it is.
pub proof fn lemma_forbidden_char_rejected(s: Seq<char>, i: int)
    requires
        0 <= i < s.len(),
        is_forbidden_name_char(s[i]),
    ensures
        !valid_name(s),
{
}

/// A subscriber's display name that passed validation: not blank, at most
/// 256 grapheme clusters, and free of forbidden characters.
pub struct SubscriberName {
    inner: String,
}

impl View for SubscriberName {
    type V = Seq<char>;

    closed spec fn view(&self) -> Seq<char> {
        self.inner@
    }
}

impl SubscriberName {
    #[verifier::type_invariant]
    closed spec fn inv(self) -> bool {
        valid_name(self.inner@)
    }

    /// Validates `value` and keeps it unchanged when it passes.
    pub fn parse(value: String) -> (r: Result<SubscriberName, String>)
        ensures
            r is Ok <==> valid_name(value@),
            r matches Ok(n) ==> n@ == value@,
            r matches Err(e) ==> e@ == invalid_name_message(value@),
    {
        let graphemes = count_graphemes(value.as_str());
        if !name_is_valid(value.as_str(), graphemes) {
            return Err(value.concat(" is not a valid subscriber name."));
        }
        Ok(SubscriberName { inner: value })
    }

    /// The validated text, as it was given.
    pub fn inner_ref(&self) -> (r: &str)
        ensures
            r@ == self@,
            valid_name(r@),
    {
        proof {
            use_type_invariant(self);
        }
        self.inner.as_str()
    }

    /// The validated text, as it was given.
    pub fn as_ref(&self) -> (r: &str)
        ensures
            r@ == self@,
            valid_name(r@),
    {
        proof {
            use_type_invariant(self);
        }
        self.inner.as_str()
    }
}

} // verus!
