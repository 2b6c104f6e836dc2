//! Text helpers that rest on the standard library.

use vstd::prelude::*;

verus! {

/// The decimal digit character of `d`, for `d < 10`.
pub open spec fn digit_char(d: nat) -> char {
    (d + 48) as char
}

/// The decimal notation of `n`: its digits, most significant first, with
/// no sign and no leading zero.
pub open spec fn decimal(n: nat) -> Seq<char>
    decreases n,
{
    if n < 10 {
        seq![digit_char(n)]
    } else {
        decimal(n / 10).push(digit_char(n % 10))
    }
}

/// Whether every character of a text is a decimal digit, `0` to `9`
/// (character codes 48 to 57).
pub open spec fn is_digit_text(s: Seq<char>) -> bool {
    forall|i: int| 0 <= i < s.len() ==> 48 <= (#[trigger] s[i] as u32) <= 57
}

/// The number that a text of decimal digits denotes, most significant digit
/// first: each character stands for its code minus 48.
pub open spec fn decimal_value(s: Seq<char>) -> int
    decreases s.len(),
{
    if s.len() == 0 {
        0
    } else {
        decimal_value(s.drop_last()) * 10 + ((s.last() as u32) - 48)
    }
}

/// The decimal notation of a number is its standard base-10 numeral: it is
/// made of the digits `0` to `9`, it does not begin with `0` unless the
/// number is 0, and read back in base 10 it gives the number again.
pub proof fn law_decimal_reads_back(n: nat)
    ensures
        decimal(n).len() > 0,
        is_digit_text(decimal(n)),
        decimal_value(decimal(n)) == n,
        n > 0 ==> decimal(n)[0] != '0',
    decreases n,
{
    if n < 10 {
        assert(decimal(n) =~= seq![digit_char(n)]);
        assert((digit_char(n) as u32) == n + 48);
        assert(decimal(n).drop_last() =~= Seq::<char>::empty());
        assert(decimal_value(decimal(n)) == decimal_value(Seq::<char>::empty()) * 10 + n);
    } else {
        let m = n / 10;
        law_decimal_reads_back(m);
        let s = decimal(m);
        assert(decimal(n) == s.push(digit_char(n % 10)));
        assert(decimal(n).drop_last() =~= s);
        assert((digit_char(n % 10) as u32) == n % 10 + 48);
        assert(n == m * 10 + n % 10);
        assert(decimal(n).last() == digit_char(n % 10));
        assert(decimal_value(decimal(n)) == decimal_value(s) * 10 + ((digit_char(n % 10) as u32)
            - 48));
        assert(decimal(n)[0] == s[0]);
        assert forall|i: int| 0 <= i < decimal(n).len() implies 48 <= (#[trigger] decimal(n)[i] as u32)
            <= 57 by {
            if i < s.len() {
                assert(decimal(n)[i] == s[i]);
            }
        }
    }
}

/// The one-character text of the decimal digit `d`.
fn digit_text(d: u32) -> (t: &'static str)
    requires
        d < 10,
    ensures
        t@ == seq![digit_char(d as nat)],
{
    proof {
        reveal_strlit("0");
        reveal_strlit("1");
        reveal_strlit("2");
        reveal_strlit("3");
        reveal_strlit("4");
        reveal_strlit("5");
        reveal_strlit("6");
        reveal_strlit("7");
        reveal_strlit("8");
        reveal_strlit("9");
    }
    let t: &'static str = if d == 0 {
        "0"
    } else if d == 1 {
        "1"
    } else if d == 2 {
        "2"
    } else if d == 3 {
        "3"
    } else if d == 4 {
        "4"
    } else if d == 5 {
        "5"
    } else if d == 6 {
        "6"
    } else if d == 7 {
        "7"
    } else if d == 8 {
        "8"
    } else {
        "9"
    };
    assert(t@ =~= seq![digit_char(d as nat)]);
    t
}

/// The decimal notation of `n`, as `{}` formats an unsigned integer.
pub(crate) fn decimal_text(n: u32) -> (s: String)
    ensures
        s@ == decimal(n as nat),
    decreases n,
{
    if n < 10 {
        String::from_str(digit_text(n))
    } else {
        let mut s = decimal_text(n / 10);
        s.append(digit_text(n % 10));
        s
    }
}

/// Whether `needle` occurs in `hay` as a contiguous run.
pub open spec fn has_infix(hay: Seq<char>, needle: Seq<char>) -> bool {
    exists|i: int|
        0 <= i && i + needle.len() <= hay.len() && #[trigger] hay.subrange(i, i + needle.len())
            == needle
}

/// The characters of a text, in order.
fn chars_of(s: &str) -> (v: Vec<char>)
    ensures
        v@ == s@,
{
    let n: usize = s.unicode_len();
    let mut v: Vec<char> = Vec::new();
    let mut i: usize = 0;
    while i < n
        invariant
            n == s@.len(),
            i <= n,
            v@ == s@.subrange(0, i as int),
        decreases n - i,
    {
        v.push(s.get_char(i));
        i = i + 1;
        assert(v@ =~= s@.subrange(0, i as int));
    }
    assert(v@ =~= s@);
    v
}

/// Whether `needle` occurs in `hay` as a contiguous run of characters, as
/// `str::contains` with a text pattern answers.
pub(crate) fn text_contains(hay: &str, needle: &str) -> (b: bool)
    ensures
        b == has_infix(hay@, needle@),
{
    let h: Vec<char> = chars_of(hay);
    let w: Vec<char> = chars_of(needle);
    if w.len() > h.len() {
        return false;
    }
    let last: usize = h.len() - w.len();
    let mut i: usize = 0;
    while i <= last
        invariant
            h@ == hay@,
            w@ == needle@,
            last + w@.len() == h@.len(),
            h@.len() <= usize::MAX,
            i <= last,
            forall|k: int| 0 <= k < i ==> #[trigger] h@.subrange(k, k + w@.len()) != w@,
        decreases last - i,
    {
        let mut j: usize = 0;
        while j < w.len() && h[i + j] == w[j]
            invariant
                h@ == hay@,
                w@ == needle@,
                i <= last,
                last + w@.len() == h@.len(),
                h@.len() <= usize::MAX,
                j <= w@.len(),
                forall|t: int| 0 <= t < j ==> h@[i + t] == w@[t],
            decreases w@.len() - j,
        {
            j = j + 1;
        }
        if j == w.len() {
            assert(h@.subrange(i as int, i + w@.len()) =~= w@);
            return true;
        }
        assert(h@.subrange(i as int, i + w@.len())[j as int] != w@[j as int]);
        if i == last {
            return false;
        }
        i = i + 1;
    }
    false
}

/// The lowercase form of a text, as Unicode's lowercase mapping gives it.
pub uninterp spec fn lowercase(s: Seq<char>) -> Seq<char>;

/// The lowercase of an ASCII character: `A`–`Z` become `a`–`z`, any other
/// character stays.
pub open spec fn ascii_lower(c: char) -> char {
    if 65 <= (c as u32) && (c as u32) <= 90 {
        ((c as u32) + 32) as char
    } else {
        c
    }
}

/// Whether every character of a text is ASCII.
pub open spec fn is_ascii_text(s: Seq<char>) -> bool {
    forall|i: int| 0 <= i < s.len() ==> (#[trigger] s[i] as u32) < 128
}

/// The lowercase form of a text: of an ASCII text, each letter `A`–`Z`
/// made lowercase and every other character kept; of any other text, its
/// Unicode lowercase form.
pub open spec fn lower_text(s: Seq<char>) -> Seq<char> {
    if is_ascii_text(s) {
        s.map_values(|c: char| ascii_lower(c))
    } else {
        lowercase(s)
    }
}

/// `str::to_lowercase`. Trusted: the result is the text's lowercase form,
/// as Unicode's Lowercase property defines it (`lower_text`); of an ASCII
/// text that is each letter `A`–`Z` made lowercase and every other
/// character kept. What the form is for other texts follows Unicode's
/// tables and is not written out here.
#[verifier::external_body]
pub(crate) fn to_lowercase(s: &str) -> (r: String)
    ensures
        is_ascii_text(s@) ==> r@ == s@.map_values(|c: char| ascii_lower(c)),
        !is_ascii_text(s@) ==> r@ == lowercase(s@),
{
    s.to_lowercase()
}

/// The index of the last occurrence of `c` in `s`, or -1 when `c` does not
/// occur.
pub open spec fn last_index_of(s: Seq<char>, c: char) -> int
    decreases s.len(),
{
    if s.len() == 0 {
        -1
    } else if s.last() == c {
        s.len() - 1
    } else {
        last_index_of(s.drop_last(), c)
    }
}

/// The text after the last `/` of a path (the whole text when it has none).
pub open spec fn last_segment(path: Seq<char>) -> Seq<char> {
    path.subrange(last_index_of(path, '/') + 1, path.len() as int)
}

/// Whether a character separates path components on some platform.
pub open spec fn is_separator(c: char) -> bool {
    c == '/' || c == '\\'
}

/// The text after the last `/` or `\` of a path (the whole text when it has
/// neither).
pub open spec fn final_name(path: Seq<char>) -> Seq<char> {
    let k = if last_index_of(path, '/') >= last_index_of(path, '\\') {
        last_index_of(path, '/')
    } else {
        last_index_of(path, '\\')
    };
    path.subrange(k + 1, path.len() as int)
}

/// A path whose beginning every platform reads alike: a colon as second
/// character is that of a drive (`C:`) followed by a separator, and the
/// path does not begin with two separators (`//server` or `\\?\`).
pub open spec fn begins_alike(path: Seq<char>) -> bool {
    &&& (path.len() >= 2 && path[1] == ':') ==> (path.len() >= 3 && is_separator(path[2]))
    &&& !(path.len() >= 2 && is_separator(path[0]) && is_separator(path[1]))
}

/// A path without the `/` characters that end it.
pub open spec fn trim_end_slashes(path: Seq<char>) -> Seq<char>
    decreases path.len(),
{
    if path.len() > 0 && path.last() == '/' {
        trim_end_slashes(path.drop_last())
    } else {
        path
    }
}

/// A name that is a file name: not empty, `.` or `..`.
pub open spec fn is_proper_name(name: Seq<char>) -> bool {
    &&& name != Seq::<char>::empty()
    &&& name != "."@
    &&& name != ".."@
}

/// The extension of a file name: the text after its final dot, unless it
/// has no dot or its only dot is the first character.
pub open spec fn name_extension(name: Seq<char>) -> Option<Seq<char>> {
    let k = last_index_of(name, '.');
    if k <= 0 {
        None
    } else {
        Some(name.subrange(k + 1, name.len() as int))
    }
}

/// Whether `ext` occurs in `path` right after a dot.
pub open spec fn follows_dot(path: Seq<char>, ext: Seq<char>) -> bool {
    exists|i: int|
        0 <= i && i + 1 + ext.len() <= path.len() && path[i] == '.' && #[trigger] path.subrange(
            i + 1,
            i + 1 + ext.len(),
        ) == ext
}

/// `Path::extension` of a path given as text, with the extension as text.
/// Trusted for what its documentation gives on every platform, whether it
/// splits paths at `/` alone or at `/` and `\`, and whether it reads `C:`
/// as a drive. Trailing `/` characters are dropped from the path first (on
/// every platform they end no component); then, for a path whose beginning
/// every platform reads alike and whose text after the last `/` or `\` is
/// a proper file name:
/// - that text ends the final component everywhere, so when its final dot
///   is not its first character the extension is the text after that dot;
/// - when that text has no dot, or only a leading one, and no `\` follows
///   the last `/`, the final component is that text everywhere, and there
///   is no extension.
/// In any case an extension, when there is one, is a run of the path's
/// text that follows a dot. Of other paths (`C:name`, `\\server`,
/// `\\?\…`, a final `.` or `..`, a trailing `\`, or a dot before a `\`
/// in the last part) the answer depends on the platform and is not stated.
#[verifier::external_body]
pub(crate) fn path_extension(path: &str) -> (r: Option<String>)
    ensures
        r matches Some(e) ==> follows_dot(path@, e@),
        ({
            let q = trim_end_slashes(path@);
            begins_alike(q) && is_proper_name(final_name(q)) ==> match name_extension(
                final_name(q),
            ) {
                Some(x) => r matches Some(e) && e@ == x,
                None => !last_segment(q).contains('\\') ==> r is None,
            }
        }),
{
    match std::path::Path::new(path).extension() {
        Some(e) => match e.to_str() {
            Some(t) => Some(t.to_string()),
            None => None,
        },
        None => None,
    }
}

} // verus!
