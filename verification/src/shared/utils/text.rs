use vstd::prelude::*;
use vstd::string::StrSliceExecFns;
use vstd::string::StringExecFns;

verus! {

/// The characters of the Unicode `White_Space` property, the set that
/// `char::is_whitespace` and `str::trim` use.
pub open spec fn is_white_space(c: char) -> bool {
    let u = c as u32;
    ||| 0x09 <= u <= 0x0D
    ||| u == 0x20
    ||| u == 0x85
    ||| u == 0xA0
    ||| u == 0x1680
    ||| 0x2000 <= u <= 0x200A
    ||| u == 0x2028
    ||| u == 0x2029
    ||| u == 0x202F
    ||| u == 0x205F
    ||| u == 0x3000
}

/// `[a, b)` is the part of `s` left once leading and trailing white space is removed.
pub open spec fn trim_bounds(s: Seq<char>, a: int, b: int) -> bool {
    &&& 0 <= a <= b <= s.len()
    &&& forall|i: int| 0 <= i < a ==> is_white_space(#[trigger] s[i])
    &&& forall|i: int| b <= i < s.len() ==> is_white_space(#[trigger] s[i])
    &&& a < b ==> !is_white_space(s[a]) && !is_white_space(s[b - 1])
}

/// `t` is `s` with its leading and trailing white space removed.
pub open spec fn is_trim_of(t: Seq<char>, s: Seq<char>) -> bool {
    exists|a: int, b: int| trim_bounds(s, a, b) && t == s.subrange(a, b)
}

/// `s` without its leading and trailing white space.
pub open spec fn trimmed(s: Seq<char>) -> Seq<char> {
    choose|t: Seq<char>| is_trim_of(t, s)
}

/// A trimmed form is the trimmed form.
pub proof fn lemma_trimmed(t: Seq<char>, s: Seq<char>)
    requires
        is_trim_of(t, s),
    ensures
        trimmed(s) == t,
{
    let (a1, b1) = choose|a: int, b: int| trim_bounds(s, a, b) && t == s.subrange(a, b);
    let u = trimmed(s);
    assert(is_trim_of(u, s));
    let (a2, b2) = choose|a: int, b: int| trim_bounds(s, a, b) && u == s.subrange(a, b);
    lemma_trim_unique(s, a1, b1, a2, b2);
}

/// Trimming twice is trimming once.
pub proof fn law_trim_idempotent(s: Seq<char>)
    ensures
        trimmed(trimmed(s)) == trimmed(s),
{
    let t = trimmed(s);
    let (a, b) = lemma_trim_exists(s);
    lemma_trimmed(s.subrange(a, b), s);
    assert(trim_bounds(t, 0, t.len() as int)) by {
        if 0 < t.len() {
            assert(t[0] == s[a]);
            assert(t[t.len() - 1] == s[b - 1]);
        }
    }
    assert(t.subrange(0, t.len() as int) =~= t);
    lemma_trimmed(t, t);
}

/// Every string has a trimmed form.
pub proof fn lemma_trim_exists(s: Seq<char>) -> (r: (int, int))
    ensures
        trim_bounds(s, r.0, r.1),
        trimmed(s) == s.subrange(r.0, r.1),
    decreases s.len(),
{
    if s.len() == 0 {
        assert(trim_bounds(s, 0, 0));
        lemma_trimmed(s.subrange(0, 0), s);
        (0, 0)
    } else if is_white_space(s[0]) {
        let rest = s.subrange(1, s.len() as int);
        let (a, b) = lemma_trim_exists(rest);
        assert(trim_bounds(s, a + 1, b + 1)) by {
            assert forall|i: int| 0 <= i < a + 1 implies is_white_space(#[trigger] s[i]) by {
                if i > 0 {
                    assert(s[i] == rest[i - 1]);
                }
            }
            assert forall|i: int| b + 1 <= i < s.len() implies is_white_space(#[trigger] s[i]) by {
                assert(s[i] == rest[i - 1]);
            }
            if a < b {
                assert(s[a + 1] == rest[a]);
                assert(s[b] == rest[b - 1]);
            }
        }
        lemma_trimmed(s.subrange(a + 1, b + 1), s);
        (a + 1, b + 1)
    } else if is_white_space(s[s.len() - 1]) {
        let init = s.subrange(0, s.len() - 1);
        let (a, b) = lemma_trim_exists(init);
        assert(trim_bounds(s, a, b)) by {
            assert forall|i: int| 0 <= i < a implies is_white_space(#[trigger] s[i]) by {
                assert(s[i] == init[i]);
            }
            assert forall|i: int| b <= i < s.len() implies is_white_space(#[trigger] s[i]) by {
                if i < s.len() - 1 {
                    assert(s[i] == init[i]);
                }
            }
            if a < b {
                assert(s[a] == init[a]);
                assert(s[b - 1] == init[b - 1]);
            }
        }
        lemma_trimmed(s.subrange(a, b), s);
        (a, b)
    } else {
        assert(trim_bounds(s, 0, s.len() as int));
        lemma_trimmed(s.subrange(0, s.len() as int), s);
        (0, s.len() as int)
    }
}

/// Whether `c` is white space.
pub fn is_whitespace_char(c: char) -> (r: bool)
    ensures
        r == is_white_space(c),
{
    let u = c as u32;
    (0x09 <= u && u <= 0x0D) || u == 0x20 || u == 0x85 || u == 0xA0 || u == 0x1680 || (0x2000
        <= u && u <= 0x200A) || u == 0x2028 || u == 0x2029 || u == 0x202F || u == 0x205F || u
        == 0x3000
}

/// The trimmed form of a string is unique.
pub proof fn lemma_trim_unique(s: Seq<char>, a1: int, b1: int, a2: int, b2: int)
    requires
        trim_bounds(s, a1, b1),
        trim_bounds(s, a2, b2),
    ensures
        s.subrange(a1, b1) == s.subrange(a2, b2),
{
    if a1 < b1 && a2 < b2 {
        if a1 < a2 {
            assert(is_white_space(s[a1]));
        }
        if a2 < a1 {
            assert(is_white_space(s[a2]));
        }
        if b1 < b2 {
            assert(is_white_space(s[b2 - 1]));
        }
        if b2 < b1 {
            assert(is_white_space(s[b1 - 1]));
        }
    } else if a1 < b1 {
        // every character is white space by the second bounds
        if a2 < s.len() {
            assert(is_white_space(s[a1]));
        } else {
            assert(is_white_space(s[a1]));
        }
    } else if a2 < b2 {
        assert(is_white_space(s[a2]));
    } else {
        assert(s.subrange(a1, b1) =~= s.subrange(a2, b2));
    }
}

/// Removes leading and trailing white space, as `str::trim` does.
pub fn trim(s: &str) -> (r: String)
    ensures
        is_trim_of(r@, s@),
        r@ == trimmed(s@),
{
    let n = s.unicode_len();
    let mut a: usize = 0;
    while a < n && is_whitespace_char(s.get_char(a))
        invariant
            n == s@.len(),
            a <= n,
            forall|i: int| 0 <= i < a ==> is_white_space(#[trigger] s@[i]),
        decreases n - a,
    {
        a = a + 1;
    }
    let mut b: usize = n;
    while b > a && is_whitespace_char(s.get_char(b - 1))
        invariant
            n == s@.len(),
            a <= b <= n,
            forall|i: int| b <= i < n ==> is_white_space(#[trigger] s@[i]),
        decreases b - a,
    {
        b = b - 1;
    }
    let t = s.substring_char(a, b);
    let r = String::from_str(t);
    assert(trim_bounds(s@, a as int, b as int));
    proof {
        lemma_trimmed(r@, s@);
    }
    r
}

/// What `str::to_lowercase` returns for a string: its Unicode lowercase form (mostly
/// character by character, with context-dependent cases such as a final sigma).
pub uninterp spec fn lowercase(s: Seq<char>) -> Seq<char>;

/// Every character of `s` is ASCII.
pub open spec fn is_ascii_text(s: Seq<char>) -> bool {
    forall|i: int| 0 <= i < s.len() ==> (#[trigger] s[i] as u32) < 128
}

/// The ASCII lowercase of a character: `A`..`Z` become `a`..`z`, every other character
/// stays.
pub open spec fn ascii_lower_char(c: char) -> char {
    if 65 <= (c as u32) <= 90 {
        ((c as u32) + 32) as char
    } else {
        c
    }
}

/// `s` with each ASCII upper-case letter made lower-case.
pub open spec fn ascii_lowercase(s: Seq<char>) -> Seq<char> {
    s.map_values(|c: char| ascii_lower_char(c))
}

/// The lowercase form of `s`: for ASCII text, each letter `A`..`Z` made lower-case;
/// otherwise what `str::to_lowercase` gives.
pub open spec fn lowered(s: Seq<char>) -> Seq<char> {
    if is_ascii_text(s) {
        ascii_lowercase(s)
    } else {
        lowercase(s)
    }
}

/// Calls `str::to_lowercase`. The contract says that the result is `lowercase` of the
/// argument and, for ASCII text, what its documentation gives: each ASCII upper-case
/// letter replaced by its lower-case one, every other character kept. The Unicode case
/// tables for other text are not written out.
#[verifier::external_body]
pub(crate) fn to_lowercase(s: &str) -> (r: String)
    ensures
        r@ == lowercase(s@),
        is_ascii_text(s@) ==> r@ == ascii_lowercase(s@),
{
    s.to_lowercase()
}

/// The decimal digit character for `d < 10`.
pub open spec fn digit_char(d: nat) -> char {
    if d == 0 {
        '0'
    } else if d == 1 {
        '1'
    } else if d == 2 {
        '2'
    } else if d == 3 {
        '3'
    } else if d == 4 {
        '4'
    } else if d == 5 {
        '5'
    } else if d == 6 {
        '6'
    } else if d == 7 {
        '7'
    } else if d == 8 {
        '8'
    } else {
        '9'
    }
}

/// The decimal representation of `n`, without sign or leading zeros.
pub open spec fn decimal(n: nat) -> Seq<char>
    decreases n,
{
    if n < 10 {
        seq![digit_char(n)]
    } else {
        decimal(n / 10).push(digit_char(n % 10))
    }
}

fn digit_str(d: u64) -> (r: &'static str)
    requires
        d < 10,
    ensures
        r@ == seq![digit_char(d as nat)],
{
    proof {
        reveal_strlit("0");
        reveal_strlit("1");
        reveal_strlit("2");
        reveal_strlit("3");
        reveal_strlit("4");
        reveal_strlit("5");
        reveal_strlit("6");
        reveal_strlit("7");
        reveal_strlit("8");
        reveal_strlit("9");
    }
    if d == 0 {
        "0"
    } else if d == 1 {
        "1"
    } else if d == 2 {
        "2"
    } else if d == 3 {
        "3"
    } else if d == 4 {
        "4"
    } else if d == 5 {
        "5"
    } else if d == 6 {
        "6"
    } else if d == 7 {
        "7"
    } else if d == 8 {
        "8"
    } else {
        "9"
    }
}

/// Formats `n` in decimal, as `{}` does for an unsigned integer.
pub fn decimal_string(n: u64) -> (r: String)
    ensures
        r@ == decimal(n as nat),
    decreases n,
{
    if n < 10 {
        String::from_str(digit_str(n))
    } else {
        let mut s = decimal_string(n / 10);
        s.append(digit_str(n % 10));
        s
    }
}

} // verus!
