//! Display names of subscribers.

use unicode_segmentation::UnicodeSegmentation;
use vstd::prelude::*;

verus! {

/// The largest number of grapheme clusters a name may have.
pub const MAX_NAME_GRAPHEMES: usize = 256;

/// Whether `c` has the Unicode property White_Space.
pub open spec fn is_white_space(c: char) -> bool {
    ||| '\u{9}' <= c <= '\u{d}'
    ||| c == ' '
    ||| c == '\u{85}'
    ||| c == '\u{a0}'
    ||| c == '\u{1680}'
    ||| '\u{2000}' <= c <= '\u{200a}'
    ||| c == '\u{2028}'
    ||| c == '\u{2029}'
    ||| c == '\u{202f}'
    ||| c == '\u{205f}'
    ||| c == '\u{3000}'
}

/// Whether `s` holds white space only, as the empty string does.
pub open spec fn is_blank(s: Seq<char>) -> bool {
    forall|i: int| 0 <= i < s.len() ==> is_white_space(#[trigger] s[i])
}

/// `s` without the white space that it starts with.
pub open spec fn trim_start(s: Seq<char>) -> Seq<char>
    decreases s.len(),
{
    if s.len() > 0 && is_white_space(s[0]) {
        trim_start(s.drop_first())
    } else {
        s
    }
}

/// `s` without the white space that it ends with.
pub open spec fn trim_end(s: Seq<char>) -> Seq<char>
    decreases s.len(),
{
    if s.len() > 0 && is_white_space(s.last()) {
        trim_end(s.drop_last())
    } else {
        s
    }
}

/// `s` without the white space around it.
pub open spec fn trimmed(s: Seq<char>) -> Seq<char> {
    trim_end(trim_start(s))
}

/// Whether `c` is one of the characters reserved from names:
/// `/ ( ) " < > \ { }`.
pub open spec fn is_forbidden(c: char) -> bool {
    ||| c == '/'
    ||| c == '('
    ||| c == ')'
    ||| c == '"'
    ||| c == '<'
    ||| c == '>'
    ||| c == '\\'
    ||| c == '{'
    ||| c == '}'
}

/// Whether some character of `s` is reserved.
pub open spec fn has_forbidden_char(s: Seq<char>) -> bool {
    exists|i: int| 0 <= i < s.len() && is_forbidden(#[trigger] s[i])
}

/// The number of extended grapheme clusters that `unicode_segmentation`
/// divides `s` into, drawing their boundaries as Unicode Standard Annex #29
/// has them.
pub uninterp spec fn grapheme_count(s: Seq<char>) -> nat;

/// The three independent conditions on a name of `graphemes` grapheme
/// clusters: it is not blank, not too long, and free of reserved characters.
pub open spec fn is_valid_name(s: Seq<char>, graphemes: nat) -> bool {
    &&& !is_blank(s)
    &&& graphemes <= MAX_NAME_GRAPHEMES
    &&& !has_forbidden_char(s)
}

/// Decides White_Space for one character.
pub fn is_whitespace(c: char) -> (b: bool)
    ensures
        b == is_white_space(c),
{
    ('\u{9}' <= c && c <= '\u{d}') || c == ' ' || c == '\u{85}' || c == '\u{a0}' || c == '\u{1680}'
        || ('\u{2000}' <= c && c <= '\u{200a}') || c == '\u{2028}' || c == '\u{2029}' || c
        == '\u{202f}' || c == '\u{205f}' || c == '\u{3000}'
}

/// Decides whether one character is reserved from names.
pub fn is_forbidden_char(c: char) -> (b: bool)
    ensures
        b == is_forbidden(c),
{
    c == '/' || c == '(' || c == ')' || c == '"' || c == '<' || c == '>' || c == '\\' || c == '{'
        || c == '}'
}

/// A string stays blank exactly when white space is appended to it.
proof fn lemma_blank_push(s: Seq<char>, c: char)
    ensures
        is_blank(s.push(c)) == (is_blank(s) && is_white_space(c)),
{
    let t = s.push(c);
    if is_blank(t) {
        assert forall|i: int| 0 <= i < s.len() implies is_white_space(#[trigger] s[i]) by {
            assert(t[i] == s[i]);
        }
        assert(t[s.len() as int] == c);
    }
    if is_blank(s) && is_white_space(c) {
        assert forall|i: int| 0 <= i < t.len() implies is_white_space(#[trigger] t[i]) by {
            if i < s.len() {
                assert(t[i] == s[i]);
            }
        }
    }
}

/// Decides whether `s` holds white space only.
pub fn is_blank_str(s: &str) -> (b: bool)
    ensures
        b == is_blank(s@),
{
    broadcast use vstd::string::group_string_axioms;

    let mut blank = true;
    for c in it: s.chars()
        invariant
            it.seq() == s@,
            blank == is_blank(s@.take(it.index())),
    {
        proof {
            assert(s@.take(it.index() + 1) =~= s@.take(it.index()).push(c));
            lemma_blank_push(s@.take(it.index()), c);
        }
        if !is_whitespace(c) {
            blank = false;
        }
    }
    assert(s@.take(s@.len() as int) =~= s@);
    blank
}

/// A string holds a reserved character exactly when it did before its last
/// character was appended, or that character is reserved.
proof fn lemma_forbidden_push(s: Seq<char>, c: char)
    ensures
        has_forbidden_char(s.push(c)) == (has_forbidden_char(s) || is_forbidden(c)),
{
    let t = s.push(c);
    if has_forbidden_char(t) {
        let i = choose|i: int| 0 <= i < t.len() && is_forbidden(#[trigger] t[i]);
        if i < s.len() {
            assert(is_forbidden(s[i]));
        }
    }
    if has_forbidden_char(s) {
        let i = choose|i: int| 0 <= i < s.len() && is_forbidden(#[trigger] s[i]);
        assert(is_forbidden(t[i]));
    }
    if is_forbidden(c) {
        assert(is_forbidden(t[s.len() as int]));
    }
}

/// Decides whether `s` holds a reserved character.
pub fn contains_forbidden_char(s: &str) -> (b: bool)
    ensures
        b == has_forbidden_char(s@),
{
    broadcast use vstd::string::group_string_axioms;

    let mut found = false;
    for c in it: s.chars()
        invariant
            it.seq() == s@,
            found == has_forbidden_char(s@.take(it.index())),
    {
        proof {
            assert(s@.take(it.index() + 1) =~= s@.take(it.index()).push(c));
            lemma_forbidden_push(s@.take(it.index()), c);
        }
        if is_forbidden_char(c) {
            found = true;
        }
    }
    assert(s@.take(s@.len() as int) =~= s@);
    found
}

/// Counts the extended grapheme clusters of `s` by walking the iterator that
/// `unicode_segmentation::UnicodeSegmentation::graphemes` returns for it.
///
/// Trusted: the count is a function of the characters of `s` alone, and it
/// is no more than their number, since the clusters are successive pieces of
/// `s` of at least one character each. What a cluster is stays with the
/// outside crate.
#[verifier::external_body]
fn count_graphemes(s: &str) -> (n: usize)
    ensures
        n == grapheme_count(s@),
        n <= s@.len(),
{
    s.graphemes(true).count()
}

/// Decides whether `name`, known to consist of `graphemes` grapheme clusters,
/// is acceptable as a subscriber's name.
pub fn check_name(name: &str, graphemes: usize) -> (ok: bool)
    ensures
        ok == is_valid_name(name@, graphemes as nat),
{
    let is_empty = is_blank_str(name);
    let is_too_long = graphemes > MAX_NAME_GRAPHEMES;
    let has_forbidden_chars = contains_forbidden_char(name);
    !(is_empty || is_too_long || has_forbidden_chars)
}

/// A subscriber's display name: not blank, at most 256 grapheme clusters, and
/// free of the characters `/ ( ) " < > \ { }`.
#[derive(Debug)]
pub struct SubscriberName(String);

impl View for SubscriberName {
    type V = Seq<char>;

    closed spec fn view(&self) -> Seq<char> {
        self.0@
    }
}

impl SubscriberName {
    #[verifier::type_invariant]
    spec fn well_formed(&self) -> bool {
        is_valid_name(self.0@, grapheme_count(self.0@))
    }

    /// Accepts `name` unchanged if it is a valid name and rejects it otherwise.
    /// A name of up to 256 characters is never too long.
    pub fn parse(name: String) -> (r: Result<SubscriberName, String>)
        ensures
            r is Ok <==> is_valid_name(name@, grapheme_count(name@)),
            name@.len() <= MAX_NAME_GRAPHEMES ==> (r is Ok <==> !is_blank(name@)
                && !has_forbidden_char(name@)),
            r matches Ok(n) ==> n@ == name@,
            r matches Err(e) ==> e@ == "Name is not valid"@,
    {
        broadcast use vstd::string::group_string_axioms;

        let graphemes = count_graphemes(name.as_str());
        if !check_name(name.as_str(), graphemes) {
            return Err("Name is not valid".to_string());
        }
        Ok(SubscriberName(name))
    }

    /// The name as text. It meets every condition that `parse` checks.
    pub fn as_ref(&self) -> (s: &str)
        ensures
            s@ == self@,
            is_valid_name(s@, grapheme_count(s@)),
    {
        proof {
            use_type_invariant(self);
        }
        self.0.as_str()
    }
}

/// Trimming the start leaves nothing exactly of a blank string, and what it
/// leaves otherwise starts with a character that is not white space.
proof fn lemma_trim_start(s: Seq<char>)
    ensures
        trim_start(s).len() == 0 <==> is_blank(s),
        trim_start(s).len() > 0 ==> !is_white_space(trim_start(s)[0]),
    decreases s.len(),
{
    if s.len() > 0 && is_white_space(s[0]) {
        let rest = s.drop_first();
        lemma_trim_start(rest);
        if is_blank(s) {
            assert forall|i: int| 0 <= i < rest.len() implies is_white_space(
                #[trigger] rest[i],
            ) by {
                assert(rest[i] == s[i + 1]);
            }
        }
        if is_blank(rest) {
            assert forall|i: int| 0 <= i < s.len() implies is_white_space(#[trigger] s[i]) by {
                if i > 0 {
                    assert(s[i] == rest[i - 1]);
                }
            }
        }
    } else if s.len() > 0 {
        assert(!is_white_space(s[0]));
    }
}

/// Trimming the end leaves something of a string that starts with a
/// character that is not white space.
proof fn lemma_trim_end(s: Seq<char>)
    requires
        s.len() > 0,
        !is_white_space(s[0]),
    ensures
        trim_end(s).len() > 0,
    decreases s.len(),
{
    if is_white_space(s.last()) {
        let rest = s.drop_last();
        assert(rest[0] == s[0]);
        lemma_trim_end(rest);
    }
}

/// A string is blank exactly when trimming the white space around it leaves
/// the empty string.
pub proof fn blank_is_empty_after_trimming(s: Seq<char>)
    ensures
        is_blank(s) <==> trimmed(s).len() == 0,
{
    lemma_trim_start(s);
    if trim_start(s).len() > 0 {
        lemma_trim_end(trim_start(s));
    }
}

/// A name that is empty after trimming, or that holds a reserved character,
/// is not valid, however many grapheme clusters it has.
pub proof fn blank_or_reserved_name_is_invalid(s: Seq<char>, graphemes: nat)
    requires
        trimmed(s).len() == 0 || has_forbidden_char(s),
    ensures
        !is_valid_name(s, graphemes),
{
    blank_is_empty_after_trimming(s);
}

/// A name that is neither blank nor holds a reserved character is valid with
/// up to 256 grapheme clusters, and not valid with 257 or more.
pub proof fn name_is_valid_up_to_the_limit(s: Seq<char>, graphemes: nat)
    requires
        !is_blank(s),
        !has_forbidden_char(s),
    ensures
        is_valid_name(s, graphemes) <==> graphemes <= 256,
        is_valid_name(s, 256),
        !is_valid_name(s, 257),
{
}

} // verus!
