//! Small verified text helpers shared by the notification renderers:
//! character-exact string equality, decimal formatting, prefix extraction,
//! truncation with trailing-whitespace trimming, line splitting, and the
//! past-tense suffix rule for wiki actions.

use vstd::prelude::*;

verus! {

/// Character-by-character string equality, exact with respect to the views.
pub fn str_eq(a: &str, b: &str) -> (r: bool)
    ensures
        r == (a@ == b@),
{
    let n = a.unicode_len();
    let m = b.unicode_len();
    if n != m {
        return false;
    }
    let mut i: usize = 0;
    while i < n
        invariant
            n == a@.len(),
            n == b@.len(),
            i <= n,
            forall|j: int| 0 <= j < i ==> a@[j] == b@[j],
        decreases n - i,
    {
        if a.get_char(i) != b.get_char(i) {
            return false;
        }
        i += 1;
    }
    proof {
        assert(a@ =~= b@);
    }
    true
}

/// The decimal digit for a value below ten.
pub open spec fn digit_char(d: nat) -> char {
    if d == 0 {
        '0'
    } else if d == 1 {
        '1'
    } else if d == 2 {
        '2'
    } else if d == 3 {
        '3'
    } else if d == 4 {
        '4'
    } else if d == 5 {
        '5'
    } else if d == 6 {
        '6'
    } else if d == 7 {
        '7'
    } else if d == 8 {
        '8'
    } else {
        '9'
    }
}

/// The decimal rendering of a natural number, most significant digit first.
pub open spec fn dec_digits(n: nat) -> Seq<char>
    decreases n,
{
    if n < 10 {
        seq![digit_char(n)]
    } else {
        dec_digits(n / 10) + seq![digit_char(n % 10)]
    }
}

fn digit_str(d: u64) -> (r: &'static str)
    requires
        d < 10,
    ensures
        r@ == seq![digit_char(d as nat)],
{
    let s: &'static str = if d == 0 {
        "0"
    } else if d == 1 {
        "1"
    } else if d == 2 {
        "2"
    } else if d == 3 {
        "3"
    } else if d == 4 {
        "4"
    } else if d == 5 {
        "5"
    } else if d == 6 {
        "6"
    } else if d == 7 {
        "7"
    } else if d == 8 {
        "8"
    } else {
        "9"
    };
    proof {
        reveal_strlit("0");
        reveal_strlit("1");
        reveal_strlit("2");
        reveal_strlit("3");
        reveal_strlit("4");
        reveal_strlit("5");
        reveal_strlit("6");
        reveal_strlit("7");
        reveal_strlit("8");
        reveal_strlit("9");
        assert(s@ =~= seq![digit_char(d as nat)]);
    }
    s
}

/// Renders a number in decimal, matching `dec_digits`.
pub fn u64_to_string(n: u64) -> (r: String)
    ensures
        r@ == dec_digits(n as nat),
    decreases n,
{
    if n < 10 {
        String::from_str(digit_str(n))
    } else {
        let mut s = u64_to_string(n / 10);
        s.append(digit_str(n % 10));
        proof {
            assert(s@ =~= dec_digits(n as nat));
        }
        s
    }
}

/// The first `k` characters of `s`, or all of `s` when it is shorter.
pub open spec fn prefix_chars_spec(s: Seq<char>, k: nat) -> Seq<char> {
    if s.len() <= k {
        s
    } else {
        s.take(k as int)
    }
}

/// Takes the first `k` characters of a string.
pub fn prefix_chars<'a>(s: &'a str, k: usize) -> (r: &'a str)
    ensures
        r@ == prefix_chars_spec(s@, k as nat),
{
    let n = s.unicode_len();
    if n <= k {
        proof {
            assert(s@.subrange(0, n as int) =~= s@);
        }
        s.substring_char(0, n)
    } else {
        s.substring_char(0, k)
    }
}

/// Whether a character is whitespace, by its Unicode code point.
pub open spec fn is_space(c: char) -> bool {
    let u = c as u32;
    ||| (9 <= u && u <= 13)
    ||| u == 32
    ||| u == 0x85
    ||| u == 0xa0
    ||| u == 0x1680
    ||| (0x2000 <= u && u <= 0x200a)
    ||| u == 0x2028
    ||| u == 0x2029
    ||| u == 0x202f
    ||| u == 0x205f
    ||| u == 0x3000
}

/// Tests a character for whitespace.
#[verifier::when_used_as_spec(is_space)]
pub fn char_is_space(c: char) -> (r: bool)
    ensures
        r == is_space(c),
{
    let u = c as u32;
    (9 <= u && u <= 13) || u == 32 || u == 0x85 || u == 0xa0 || u == 0x1680 || (0x2000 <= u && u
        <= 0x200a) || u == 0x2028 || u == 0x2029 || u == 0x202f || u == 0x205f || u == 0x3000
}

/// `s` without its trailing whitespace.
pub open spec fn trim_end_spec(s: Seq<char>) -> Seq<char>
    decreases s.len(),
{
    if s.len() > 0 && is_space(s.last()) {
        trim_end_spec(s.drop_last())
    } else {
        s
    }
}

/// Trimming never leaves trailing whitespace, so trimming twice changes
/// nothing.
pub proof fn lemma_trim_end_fixed(s: Seq<char>)
    ensures
        trim_end_spec(s).len() <= s.len(),
        trim_end_spec(s).len() > 0 ==> !is_space(trim_end_spec(s).last()),
        trim_end_spec(trim_end_spec(s)) == trim_end_spec(s),
    decreases s.len(),
{
    if s.len() > 0 && is_space(s.last()) {
        lemma_trim_end_fixed(s.drop_last());
    }
}

proof fn lemma_trim_end_take(s: Seq<char>, k: int)
    requires
        0 <= k <= s.len(),
        forall|j: int| k <= j < s.len() ==> is_space(s[j]),
        k > 0 ==> !is_space(s[k - 1]),
    ensures
        trim_end_spec(s) == s.take(k),
    decreases s.len(),
{
    if s.len() > k {
        assert(is_space(s.last()));
        assert(s.drop_last() =~= s.take(s.len() - 1));
        lemma_trim_end_take(s.take(s.len() - 1), k);
        assert(s.take(s.len() - 1).take(k) =~= s.take(k));
    } else {
        if s.len() > 0 && is_space(s.last()) {
            assert(!is_space(s[k - 1]));
            assert(false);
        }
        assert(s.take(k) =~= s);
    }
}

/// Removes trailing whitespace, matching `trim_end_spec`.
pub fn trim_end_str<'a>(s: &'a str) -> (r: &'a str)
    ensures
        r@ == trim_end_spec(s@),
{
    let n = s.unicode_len();
    let mut k: usize = n;
    while k > 0 && char_is_space(s.get_char(k - 1))
        invariant
            k <= n,
            n == s@.len(),
            forall|j: int| k <= j < n ==> is_space(s@[j]),
        decreases k,
    {
        k -= 1;
    }
    proof {
        lemma_trim_end_take(s@, k as int);
    }
    s.substring_char(0, k)
}

/// The preview of a comment's text: a note of at most forty characters is
/// kept verbatim; a longer one is cut to its first forty characters, trailing
/// whitespace is trimmed, and `"..."` marks the cut.
pub open spec fn note_preview_spec(note: Seq<char>) -> Seq<char> {
    if note.len() <= 40 {
        note
    } else {
        trim_end_spec(note.take(40)) + "..."@
    }
}

/// Shortens a comment's text for display, matching `note_preview_spec`.
pub fn note_preview(note: &str) -> (r: String)
    ensures
        r@ == note_preview_spec(note@),
{
    let n = note.unicode_len();
    if n <= 40 {
        note.to_owned()
    } else {
        let head = note.substring_char(0, 40);
        let mut t = trim_end_str(head).to_owned();
        t.append("...");
        t
    }
}

/// Applying the preview rule to its own output changes nothing, except when
/// the trimmed head of a long note keeps thirty-eight or thirty-nine
/// characters: then the appended marker straddles the forty-character cut and
/// is itself cut on the second pass.
pub proof fn lemma_note_preview_idempotent(s: Seq<char>)
    requires
        s.len() > 40 ==> {
            let k = trim_end_spec(s.take(40)).len();
            k <= 37 || k == 40
        },
    ensures
        note_preview_spec(note_preview_spec(s)) == note_preview_spec(s),
{
    reveal_strlit("...");
    if s.len() > 40 {
        let h = trim_end_spec(s.take(40));
        let t = h + "..."@;
        lemma_trim_end_fixed(s.take(40));
        if h.len() == 40 {
            assert(t.len() > 40);
            assert(t.take(40) =~= h);
            assert(note_preview_spec(t) == trim_end_spec(h) + "..."@);
            assert(trim_end_spec(h) == h);
        } else {
            assert(t.len() <= 40);
        }
    }
}

/// The position of the first occurrence of `c` in `s`, or the length of `s`
/// when it does not occur.
pub open spec fn first_index_of(s: Seq<char>, c: char) -> int
    decreases s.len(),
{
    if s.len() == 0 {
        0
    } else if s[0] == c {
        0
    } else {
        1 + first_index_of(s.drop_first(), c)
    }
}

proof fn lemma_first_index_of(s: Seq<char>, c: char, k: int)
    requires
        0 <= k <= s.len(),
        forall|j: int| 0 <= j < k ==> s[j] != c,
        k < s.len() ==> s[k] == c,
    ensures
        first_index_of(s, c) == k,
    decreases s.len(),
{
    if s.len() > 0 && s[0] != c {
        lemma_first_index_of(s.drop_first(), c, k - 1);
    }
}

/// Finds the first occurrence of a character, matching `first_index_of`.
pub fn find_char(s: &str, c: char) -> (r: usize)
    ensures
        r == first_index_of(s@, c),
        r <= s@.len(),
        r < s@.len() ==> s@[r as int] == c,
        forall|j: int| 0 <= j < r ==> s@[j] != c,
{
    let n = s.unicode_len();
    let mut i: usize = 0;
    while i < n && s.get_char(i) != c
        invariant
            i <= n,
            n == s@.len(),
            forall|j: int| 0 <= j < i ==> s@[j] != c,
        decreases n - i,
    {
        i += 1;
    }
    proof {
        lemma_first_index_of(s@, c, i as int);
    }
    i
}

/// The first line of a message: everything before the first line feed.
pub open spec fn first_line_spec(s: Seq<char>) -> Seq<char> {
    s.take(first_index_of(s, '\n'))
}

/// Extracts the first line of a message, matching `first_line_spec`.
pub fn first_line<'a>(s: &'a str) -> (r: &'a str)
    ensures
        r@ == first_line_spec(s@),
{
    let i = find_char(s, '\n');
    s.substring_char(0, i)
}

/// The position of the last slash in `s`, or `-1` when it has none.
pub open spec fn last_slash_at(s: Seq<char>) -> int
    decreases s.len(),
{
    if s.len() == 0 {
        -1
    } else if s.last() == '/' {
        s.len() - 1
    } else {
        last_slash_at(s.drop_last())
    }
}

proof fn lemma_last_slash_at(s: Seq<char>, k: int)
    requires
        -1 <= k < s.len(),
        forall|j: int| k < j < s.len() ==> s[j] != '/',
        k >= 0 ==> s[k] == '/',
    ensures
        last_slash_at(s) == k,
    decreases s.len(),
{
    if s.len() > 0 && s.last() != '/' {
        assert(s.drop_last() =~= s.take(s.len() - 1));
        lemma_last_slash_at(s.drop_last(), k);
    }
}

/// The name of a pushed tag: the part of the ref after its last slash, or the
/// literal `"<invalid>"` for a ref with no slash at all.
pub open spec fn tag_name_spec(tag_ref: Seq<char>) -> Seq<char> {
    if last_slash_at(tag_ref) < 0 {
        "<invalid>"@
    } else {
        tag_ref.skip(last_slash_at(tag_ref) + 1)
    }
}

/// Extracts a tag name from a ref string, matching `tag_name_spec`.
pub fn tag_name<'a>(tag_ref: &'a str) -> (r: &'a str)
    ensures
        r@ == tag_name_spec(tag_ref@),
{
    let n = tag_ref.unicode_len();
    let mut k: usize = n;
    while k > 0 && tag_ref.get_char(k - 1) != '/'
        invariant
            k <= n,
            n == tag_ref@.len(),
            forall|j: int| k <= j < n ==> tag_ref@[j] != '/',
        decreases k,
    {
        k -= 1;
    }
    if k == 0 {
        proof {
            lemma_last_slash_at(tag_ref@, -1);
        }
        "<invalid>"
    } else {
        proof {
            lemma_last_slash_at(tag_ref@, k - 1);
            assert(tag_ref@.subrange(k as int, n as int) =~= tag_ref@.skip(k as int));
        }
        tag_ref.substring_char(k, n)
    }
}

/// What `str::to_lowercase` returns: a pure function of the input characters.
pub uninterp spec fn lower_of(s: Seq<char>) -> Seq<char>;

/// Relies on `str::to_lowercase` from std: the lowercased text depends on the
/// input characters alone.
#[verifier::external_body]
pub fn lowercase(s: &str) -> (r: String)
    ensures
        r@ == lower_of(s@),
{
    s.to_lowercase()
}

/// The suffix that turns a wiki action word into its past tense: `"d"` when
/// the word already ends in `'e'`, `"ed"` otherwise.
pub open spec fn past_tense_suffix(action: Seq<char>) -> Seq<char> {
    if action.len() > 0 && action.last() == 'e' {
        "d"@
    } else {
        "ed"@
    }
}

/// Picks the past-tense suffix for a wiki action word.
pub fn wiki_suffix(action: &str) -> (r: &'static str)
    ensures
        r@ == past_tense_suffix(action@),
{
    let n = action.unicode_len();
    if n > 0 && action.get_char(n - 1) == 'e' {
        "d"
    } else {
        "ed"
    }
}

} // verus!
