//! Text: the few operations on strings that the library's rules are
//! stated in.

use vstd::prelude::*;
use vstd::string::StringExecFns;
use vstd::utf8::{decode_utf8, valid_utf8};

verus! {

/// `String::from_iter` over characters: the string that has exactly the
/// given characters, in order.
#[verifier::external_body]
pub(crate) fn string_from_chars(chars: &Vec<char>) -> (s: String)
    ensures
        s@ == chars@,
{
    String::from_iter(chars.iter())
}

/// `str::chars`, collected: the characters of a string, in order.
#[verifier::external_body]
pub(crate) fn str_to_chars(s: &str) -> (chars: Vec<char>)
    ensures
        chars@ == s@,
{
    s.chars().collect()
}

/// `std::str::from_utf8`: the text that the bytes encode, if they are
/// valid UTF-8.
#[verifier::external_body]
pub(crate) fn utf8_text(bytes: &[u8]) -> (r: Option<String>)
    ensures
        valid_utf8(bytes@) ==> r is Some && r->0@ == decode_utf8(bytes@),
        !valid_utf8(bytes@) ==> r is None,
{
    std::str::from_utf8(bytes).ok().map(str::to_string)
}

/// The text in lower case, as `str::to_lowercase` of the standard library
/// gives it.
pub uninterp spec fn lowercase_of(s: Seq<char>) -> Seq<char>;

/// `str::to_lowercase`.
#[verifier::external_body]
pub(crate) fn lowercase(s: &str) -> (r: String)
    ensures
        r@ == lowercase_of(s@),
{
    s.to_lowercase()
}

/// Whether `needle` stands in `hay` at place `i`.
pub open spec fn occurs_at(hay: Seq<char>, needle: Seq<char>, i: int) -> bool {
    &&& 0 <= i
    &&& i + needle.len() <= hay.len()
    &&& hay.subrange(i, i + needle.len()) == needle
}

/// Whether `needle` stands somewhere in `hay`. The empty text stands in
/// every text.
pub open spec fn contains_text(hay: Seq<char>, needle: Seq<char>) -> bool {
    exists|i: int| occurs_at(hay, needle, i)
}

fn stands_at(h: &Vec<char>, n: &Vec<char>, i: usize) -> (r: bool)
    requires
        i + n@.len() <= h@.len(),
    ensures
        r == occurs_at(h@, n@, i as int),
{
    let mut j: usize = 0;
    let total: usize = h.len();
    while j < n.len()
        invariant
            i + n@.len() <= h@.len(),
            total == h@.len(),
            j <= n@.len(),
            forall|k: int| 0 <= k < j ==> h@[i + k] == n@[k],
        decreases n@.len() - j,
    {
        if h[i + j] != n[j] {
            assert(h@.subrange(i as int, i + n@.len())[j as int] == h@[i + j]);
            return false;
        }
        j += 1;
    }
    assert(h@.subrange(i as int, i + n@.len()) =~= n@);
    true
}

/// Whether `needle` stands somewhere in `hay`, letter for letter.
pub fn text_contains(hay: &str, needle: &str) -> (r: bool)
    ensures
        r == contains_text(hay@, needle@),
{
    let h = str_to_chars(hay);
    let n = str_to_chars(needle);
    if n.len() > h.len() {
        assert forall|i: int| !occurs_at(hay@, needle@, i) by {}
        return false;
    }
    let last: usize = h.len() - n.len();
    let mut i: usize = 0;
    loop
        invariant
            h@ == hay@,
            n@ == needle@,
            n@.len() <= h@.len(),
            last == h@.len() - n@.len(),
            i <= last,
            forall|k: int| 0 <= k < i ==> !occurs_at(hay@, needle@, k),
        decreases last - i,
    {
        if stands_at(&h, &n, i) {
            return true;
        }
        if i == last {
            assert forall|k: int| !occurs_at(hay@, needle@, k) by {
                if 0 <= k && k + needle@.len() <= hay@.len() {
                    assert(k <= i);
                }
            }
            return false;
        }
        i += 1;
    }
}

/// Whether `needle` stands in `hay` when the case of letters is left out
/// of account: both are put into lower case first.
pub fn text_contains_ignoring_case(hay: &str, needle: &str) -> (r: bool)
    ensures
        r == contains_text(lowercase_of(hay@), lowercase_of(needle@)),
{
    let h = lowercase(hay);
    let n = lowercase(needle);
    text_contains(h.as_str(), n.as_str())
}

/// The character that stands for `c` in an id: a dash for a blank or an
/// underscore, the character itself otherwise.
pub open spec fn dash_for_separator(c: char) -> char {
    if c == ' ' || c == '_' {
        '-'
    } else {
        c
    }
}

/// The text with every blank and every underscore turned into a dash.
pub open spec fn dashed(s: Seq<char>) -> Seq<char> {
    s.map_values(|c: char| dash_for_separator(c))
}

/// Turns every blank and every underscore of a text into a dash.
pub fn replace_separators(text: &str) -> (r: String)
    ensures
        r@ == dashed(text@),
{
    let chars = str_to_chars(text);
    let mut out: Vec<char> = Vec::new();
    let mut i: usize = 0;
    while i < chars.len()
        invariant
            i <= chars@.len(),
            chars@ == text@,
            out@.len() == i,
            forall|k: int| 0 <= k < i ==> out@[k] == dash_for_separator(text@[k]),
        decreases chars@.len() - i,
    {
        let c = chars[i];
        if c == ' ' || c == '_' {
            out.push('-');
        } else {
            out.push(c);
        }
        i += 1;
    }
    assert(out@ =~= dashed(text@));
    string_from_chars(&out)
}

/// The id that a name stands for: the name in lower case, with a dash for
/// every blank and every underscore.
pub fn to_kebab_case(s: &str) -> (r: String)
    ensures
        r@ == dashed(lowercase_of(s@)),
{
    let lowered = lowercase(s);
    replace_separators(lowered.as_str())
}

/// Whether a character has a meaning of its own in a glob pattern.
pub open spec fn is_glob_special(c: char) -> bool {
    c == '*' || c == '[' || c == '?'
}

/// The text with a backslash in front of every character that has a
/// meaning of its own in a glob pattern.
pub open spec fn glob_escaped(s: Seq<char>) -> Seq<char>
    decreases s.len(),
{
    if s.len() == 0 {
        Seq::empty()
    } else if is_glob_special(s.last()) {
        glob_escaped(s.drop_last()).push('\\').push(s.last())
    } else {
        glob_escaped(s.drop_last()).push(s.last())
    }
}

/// The glob pattern that matches every name that holds the given text.
pub open spec fn safe_glob_of(s: Seq<char>) -> Seq<char> {
    seq!['*'] + glob_escaped(s) + seq!['*']
}

/// The glob pattern that matches every name in which `prefix` stands
/// somewhere: the text taken literally, between two stars.
pub fn to_safe_glob(prefix: &str) -> (r: String)
    ensures
        r@ == safe_glob_of(prefix@),
{
    let chars = str_to_chars(prefix);
    let mut out: Vec<char> = Vec::new();
    out.push('*');
    let mut i: usize = 0;
    assert(prefix@.take(0) =~= Seq::<char>::empty());
    assert(out@ =~= seq!['*'] + glob_escaped(prefix@.take(0)));
    while i < chars.len()
        invariant
            i <= chars@.len(),
            chars@ == prefix@,
            out@ == seq!['*'] + glob_escaped(prefix@.take(i as int)),
        decreases chars@.len() - i,
    {
        proof {
            assert(prefix@.take(i as int + 1).drop_last() =~= prefix@.take(i as int));
        }
        let ghost before = out@;
        let c = chars[i];
        if c == '*' || c == '[' || c == '?' {
            out.push('\\');
        }
        out.push(c);
        assert(out@ =~= seq!['*'] + glob_escaped(prefix@.take(i as int + 1)));
        i += 1;
    }
    assert(prefix@.take(i as int) =~= prefix@);
    out.push('*');
    assert(out@ =~= safe_glob_of(prefix@));
    string_from_chars(&out)
}

/// The text `inner` between `prefix` and `suffix`.
pub fn framed(prefix: &str, inner: &str, suffix: &str) -> (r: String)
    ensures
        r@ == prefix@ + inner@ + suffix@,
{
    let mut s = String::from_str(prefix);
    s.append(inner);
    s.append(suffix);
    s
}

/// Whether a text is a plain file name without an extension: not empty,
/// and made of ASCII letters, digits and dashes only.
pub open spec fn simple_name(s: Seq<char>) -> bool {
    &&& s.len() > 0
    &&& forall|i: int|
        0 <= i < s.len() ==> {
            let c = #[trigger] s[i] as u32;
            ||| 48 <= c <= 57
            ||| 65 <= c <= 90
            ||| 97 <= c <= 122
            ||| c == 45
        }
}

/// `std::path::PathBuf::set_extension` with `json`, on the path made of
/// `stem`: a plain file name without an extension gets the extension
/// added.
#[verifier::external_body]
pub(crate) fn json_file_name(stem: &str) -> (r: String)
    ensures
        simple_name(stem@) ==> r@ == stem@ + ".json"@,
{
    let mut path = std::path::PathBuf::from(stem);
    path.set_extension("json");
    path.to_string_lossy().into_owned()
}

/// Whether a text holds a NUL character, which no C string can hold.
pub fn holds_nul(text: &str) -> (r: bool)
    ensures
        r == text@.contains('\0'),
{
    let chars = str_to_chars(text);
    let mut i: usize = 0;
    while i < chars.len()
        invariant
            i <= chars@.len(),
            chars@ == text@,
            forall|k: int| 0 <= k < i ==> text@[k] != '\0',
        decreases chars@.len() - i,
    {
        if chars[i] == '\0' {
            assert(text@[i as int] == '\0');
            return true;
        }
        i += 1;
    }
    false
}

/// Whether two texts are the same text.
pub fn same_text(a: &str, b: &str) -> (r: bool)
    ensures
        r == (a@ == b@),
{
    let x = str_to_chars(a);
    let y = str_to_chars(b);
    if x.len() != y.len() {
        return false;
    }
    let mut i: usize = 0;
    while i < x.len()
        invariant
            i <= x@.len(),
            x@.len() == y@.len(),
            x@ == a@,
            y@ == b@,
            forall|k: int| 0 <= k < i ==> x@[k] == y@[k],
        decreases x@.len() - i,
    {
        if x[i] != y[i] {
            return false;
        }
        i += 1;
    }
    assert(x@ =~= y@);
    true
}

/// The number of line feeds in a text.
pub open spec fn newline_count(s: Seq<char>) -> nat
    decreases s.len(),
{
    if s.len() == 0 {
        0
    } else if s.last() == '\n' {
        newline_count(s.drop_last()) + 1
    } else {
        newline_count(s.drop_last())
    }
}

/// The number of lines of a text: every line feed ends a line, and what
/// follows the last line feed is a line if it is not empty.
pub open spec fn line_count(s: Seq<char>) -> nat {
    if s.len() > 0 && s.last() != '\n' {
        newline_count(s) + 1
    } else {
        newline_count(s)
    }
}

proof fn lemma_newline_count_bound(s: Seq<char>)
    ensures
        newline_count(s) <= s.len(),
        s.len() > 0 && s.last() != '\n' ==> newline_count(s) < s.len(),
    decreases s.len(),
{
    if s.len() > 0 {
        lemma_newline_count_bound(s.drop_last());
    }
}

/// Counts the lines of a text.
pub fn count_lines(text: &str) -> (n: usize)
    ensures
        n == line_count(text@),
{
    let chars = str_to_chars(text);
    let mut n: usize = 0;
    let mut i: usize = 0;
    while i < chars.len()
        invariant
            i <= chars@.len(),
            chars@ == text@,
            n == newline_count(text@.take(i as int)),
            n <= i,
        decreases chars@.len() - i,
    {
        proof {
            assert(text@.take(i as int + 1).drop_last() =~= text@.take(i as int));
        }
        if chars[i] == '\n' {
            n += 1;
        }
        i += 1;
    }
    proof {
        assert(text@.take(i as int) =~= text@);
        lemma_newline_count_bound(text@);
    }
    if chars.len() > 0 && chars[chars.len() - 1] != '\n' {
        n + 1
    } else {
        n
    }
}

} // verus!
