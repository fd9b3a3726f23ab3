//! Verified utilities over character sequences: the substring, join,
//! split, and character-replacement operations that the builders use to
//! cross-check their sections, plus decimal rendering for numeric fields.
//!
//! Every executable function is specified against a spec-level function on
//! `Seq<char>`, so the builders' contracts can speak purely about views.

use vstd::prelude::*;

verus! {

/// Whether `s` begins with the character `c`.
pub open spec fn starts_with(s: Seq<char>, c: char) -> bool {
    s.len() > 0 && s[0] == c
}

/// Whether `needle` occurs in `hay` starting at position `i`.
pub open spec fn matches_at(hay: Seq<char>, needle: Seq<char>, i: int) -> bool {
    0 <= i && i + needle.len() <= hay.len() && forall|k: int|
        0 <= k < needle.len() ==> hay[i + k] == needle[k]
}

/// Whether `needle` occurs somewhere in `hay`, as `str::contains` reports.
pub open spec fn has_substring(hay: Seq<char>, needle: Seq<char>) -> bool {
    exists|i: int| matches_at(hay, needle, i)
}

/// Whether `s` begins with the character `c`.
pub fn starts_with_char(s: &str, c: char) -> (r: bool)
    ensures
        r == starts_with(s@, c),
{
    let n = s.unicode_len();
    if n == 0 {
        false
    } else {
        s.get_char(0) == c
    }
}

fn chars_match_at(hay: &Vec<char>, needle: &Vec<char>, i: usize) -> (r: bool)
    requires
        i + needle@.len() <= hay@.len(),
    ensures
        r == matches_at(hay@, needle@, i as int),
{
    let n = needle.len();
    let hl = hay.len();
    let mut k: usize = 0;
    while k < n
        invariant
            n == needle@.len(),
            hl == hay@.len(),
            i + n <= hl,
            0 <= k <= n,
            forall|j: int| 0 <= j < k ==> hay@[i + j] == needle@[j],
        decreases n - k,
    {
        if hay[i + k] != needle[k] {
            return false;
        }
        k += 1;
    }
    true
}

/// The characters of `s`, in order, as a vector.
pub fn str_chars(s: &str) -> (r: Vec<char>)
    ensures
        r@ == s@,
{
    let n = s.unicode_len();
    let mut r: Vec<char> = Vec::new();
    let mut i: usize = 0;
    while i < n
        invariant
            n == s@.len(),
            0 <= i <= n,
            r@ == s@.subrange(0, i as int),
        decreases n - i,
    {
        r.push(s.get_char(i));
        assert(r@ =~= s@.subrange(0, i + 1 as int));
        i += 1;
    }
    assert(r@ =~= s@);
    r
}

/// Whether `needle` occurs in `hay`, as `str::contains` reports.
pub fn contains_chars(hay: &Vec<char>, needle: &Vec<char>) -> (r: bool)
    ensures
        r == has_substring(hay@, needle@),
{
    if needle.len() > hay.len() {
        return false;
    }
    if needle.len() == 0 {
        assert(matches_at(hay@, needle@, 0));
        return true;
    }
    let count = hay.len() - needle.len() + 1;
    let mut i: usize = 0;
    while i < count
        invariant
            1 <= needle@.len() <= hay@.len(),
            count == hay@.len() - needle@.len() + 1,
            0 <= i <= count,
            forall|j: int| 0 <= j < i ==> !matches_at(hay@, needle@, j),
        decreases count - i,
    {
        if chars_match_at(hay, needle, i) {
            return true;
        }
        i += 1;
    }
    false
}

/// Whether `needle` occurs in `hay`, as `str::contains` reports.
pub fn contains_str(hay: &str, needle: &str) -> (r: bool)
    ensures
        r == has_substring(hay@, needle@),
{
    let h = str_chars(hay);
    let n = str_chars(needle);
    contains_chars(&h, &n)
}

/// `s` with every occurrence of the character `c` removed.
pub open spec fn remove_char(s: Seq<char>, c: char) -> Seq<char>
    decreases s.len(),
{
    if s.len() == 0 {
        Seq::empty()
    } else if s.last() == c {
        remove_char(s.drop_last(), c)
    } else {
        remove_char(s.drop_last(), c).push(s.last())
    }
}

/// `s` with every occurrence of `from` replaced by `to`.
pub open spec fn replace_char(s: Seq<char>, from: char, to: char) -> Seq<char> {
    Seq::new(s.len(), |i: int| if s[i] == from { to } else { s[i] })
}

/// Removing a character distributes over concatenation.
pub proof fn lemma_remove_char_distributes(a: Seq<char>, b: Seq<char>, c: char)
    ensures
        remove_char(a + b, c) == remove_char(a, c) + remove_char(b, c),
    decreases b.len(),
{
    if b.len() == 0 {
        assert(a + b =~= a);
        assert(remove_char(a, c) + remove_char(b, c) =~= remove_char(a, c));
    } else {
        lemma_remove_char_distributes(a, b.drop_last(), c);
        assert((a + b).drop_last() =~= a + b.drop_last());
        assert((a + b).last() == b.last());
        if b.last() == c {
        } else {
            assert(remove_char(a, c) + remove_char(b.drop_last(), c).push(b.last()) =~= (
            remove_char(a, c) + remove_char(b.drop_last(), c)).push(b.last()));
        }
    }
}

/// Removing a character that does not occur leaves the sequence as it
/// is.
pub proof fn lemma_remove_char_absent(s: Seq<char>, c: char)
    requires
        forall|i: int| 0 <= i < s.len() ==> s[i] != c,
    ensures
        remove_char(s, c) == s,
    decreases s.len(),
{
    if s.len() > 0 {
        lemma_remove_char_absent(s.drop_last(), c);
        assert(remove_char(s.drop_last(), c).push(s.last()) =~= s);
    }
}

/// The removed character does not occur in the result.
pub proof fn lemma_remove_char_free(s: Seq<char>, c: char)
    ensures
        forall|i: int| 0 <= i < remove_char(s, c).len() ==> remove_char(s, c)[i] != c,
    decreases s.len(),
{
    if s.len() > 0 {
        lemma_remove_char_free(s.drop_last(), c);
        let r0 = remove_char(s.drop_last(), c);
        let r = remove_char(s, c);
        if s.last() == c {
            assert forall|i: int| 0 <= i < r.len() implies r[i] != c by {
                assert(r[i] == r0[i]);
            }
        } else {
            assert forall|i: int| 0 <= i < r.len() implies r[i] != c by {
                if i < r0.len() {
                    assert(r[i] == r0[i]);
                } else {
                    assert(r[i] == s.last());
                }
            }
        }
    }
}

/// `s` with every occurrence of the character `c` removed, as
/// `str::replace(c, "")` produces.
pub fn remove_char_str(s: &str, c: char) -> (r: String)
    ensures
        r@ == remove_char(s@, c),
{
    let n = s.unicode_len();
    let mut r = String::new();
    let mut i: usize = 0;
    while i < n
        invariant
            n == s@.len(),
            0 <= i <= n,
            r@ == remove_char(s@.subrange(0, i as int), c),
        decreases n - i,
    {
        assert(s@.subrange(0, i + 1).drop_last() =~= s@.subrange(0, i as int));
        assert(s@.subrange(0, i + 1).last() == s@[i as int]);
        if s.get_char(i) != c {
            let piece = s.substring_char(i, i + 1);
            r.append(piece);
            assert(piece@ =~= seq![s@[i as int]]);
            assert(r@ =~= remove_char(s@.subrange(0, i as int), c).push(s@[i as int]));
        }
        i += 1;
    }
    assert(s@.subrange(0, n as int) =~= s@);
    r
}

/// `s` with every space replaced by a dash, as `str::replace(" ", "-")`
/// produces.
pub fn dash_spaces(s: &str) -> (r: String)
    ensures
        r@ == replace_char(s@, ' ', '-'),
{
    let n = s.unicode_len();
    let mut r = String::new();
    let mut i: usize = 0;
    while i < n
        invariant
            n == s@.len(),
            0 <= i <= n,
            r@ == replace_char(s@, ' ', '-').subrange(0, i as int),
        decreases n - i,
    {
        if s.get_char(i) == ' ' {
            r.append("-");
            proof {
                reveal_strlit("-");
                assert("-"@ =~= seq!['-']);
            }
        } else {
            let piece = s.substring_char(i, i + 1);
            r.append(piece);
            assert(piece@ =~= seq![s@[i as int]]);
        }
        assert(r@ =~= replace_char(s@, ' ', '-').subrange(0, i + 1));
        i += 1;
    }
    assert(replace_char(s@, ' ', '-').subrange(0, n as int) =~= replace_char(s@, ' ', '-'));
    r
}

/// The elements of `parts` concatenated with `sep` between neighbours, as
/// `[T]::join` produces.
pub open spec fn join_with(parts: Seq<Seq<char>>, sep: Seq<char>) -> Seq<char>
    decreases parts.len(),
{
    if parts.len() == 0 {
        Seq::empty()
    } else if parts.len() == 1 {
        parts[0]
    } else {
        join_with(parts.drop_last(), sep) + sep + parts.last()
    }
}

/// Joins owned strings with `sep`, as `[String]::join` does.
pub fn join_strings(v: &Vec<String>, sep: &str) -> (r: String)
    ensures
        r@ == join_with(v.deep_view(), sep@),
{
    let n = v.len();
    let mut r = String::new();
    let mut i: usize = 0;
    while i < n
        invariant
            n == v@.len(),
            v.deep_view().len() == n,
            0 <= i <= n,
            r@ == join_with(v.deep_view().subrange(0, i as int), sep@),
        decreases n - i,
    {
        if i > 0 {
            r.append(sep);
        }
        r.append(v[i].as_str());
        proof {
            let parts = v.deep_view();
            assert(parts.subrange(0, i + 1).drop_last() =~= parts.subrange(0, i as int));
            assert(parts.subrange(0, i + 1).last() == v[i as int].deep_view());
            assert(r@ =~= join_with(parts.subrange(0, i + 1), sep@));
        }
        i += 1;
    }
    assert(v.deep_view().subrange(0, n as int) =~= v.deep_view());
    r
}

/// Joins borrowed string slices with `sep`, as `[&str]::join` does.
pub fn join_strs(v: &Vec<&str>, sep: &str) -> (r: String)
    ensures
        r@ == join_with(v.deep_view(), sep@),
{
    let n = v.len();
    let mut r = String::new();
    let mut i: usize = 0;
    while i < n
        invariant
            n == v@.len(),
            v.deep_view().len() == n,
            0 <= i <= n,
            r@ == join_with(v.deep_view().subrange(0, i as int), sep@),
        decreases n - i,
    {
        if i > 0 {
            r.append(sep);
        }
        r.append(v[i]);
        proof {
            let parts = v.deep_view();
            assert(parts.subrange(0, i + 1).drop_last() =~= parts.subrange(0, i as int));
            assert(parts.subrange(0, i + 1).last() == v[i as int].deep_view());
            assert(r@ =~= join_with(parts.subrange(0, i + 1), sep@));
        }
        i += 1;
    }
    assert(v.deep_view().subrange(0, n as int) =~= v.deep_view());
    r
}

/// The tag whose occurrences the argument tokenizer deletes before it
/// splits keys from values.
pub open spec fn inst_tag() -> Seq<char> {
    seq!['#', 'i', 'n', 's', 't']
}

/// `s` with every occurrence of the tag `#inst` removed left to right,
/// as `str::replace("#inst", "")` produces.
pub open spec fn strip_inst(s: Seq<char>) -> Seq<char>
    decreases s.len(),
{
    if s.len() >= 5 && matches_at(s, inst_tag(), 0) {
        strip_inst(s.skip(5))
    } else if s.len() == 0 {
        Seq::empty()
    } else {
        seq![s[0]] + strip_inst(s.skip(1))
    }
}

/// `s` with every occurrence of `#inst` removed.
pub fn strip_inst_str(s: &str) -> (r: String)
    ensures
        r@ == strip_inst(s@),
{
    let n = s.unicode_len();
    let mut r = String::new();
    let mut i: usize = 0;
    proof {
        assert(s@.skip(0) =~= s@);
        assert(Seq::<char>::empty() + strip_inst(s@) =~= strip_inst(s@));
    }
    while i < n
        invariant
            n == s@.len(),
            0 <= i <= n,
            r@ + strip_inst(s@.skip(i as int)) == strip_inst(s@),
        decreases n - i,
    {
        let tail_len = n - i;
        let tag_here = tail_len >= 5 && s.get_char(i) == '#' && s.get_char(i + 1) == 'i'
            && s.get_char(i + 2) == 'n' && s.get_char(i + 3) == 's' && s.get_char(i + 4) == 't';
        proof {
            assert(s@.skip(i as int).len() == tail_len);
            if tail_len >= 5 {
                assert forall|k: int| 0 <= k < 5 implies s@.skip(i as int)[k] == s@[i + k] by {}
                assert(tag_here == matches_at(s@.skip(i as int), inst_tag(), 0));
            }
        }
        if tag_here {
            proof {
                assert(s@.skip(i as int).skip(5) =~= s@.skip(i + 5));
            }
            i += 5;
        } else {
            let piece = s.substring_char(i, i + 1);
            r.append(piece);
            proof {
                assert(piece@ =~= seq![s@[i as int]]);
                assert(s@.skip(i as int)[0] == s@[i as int]);
                assert(s@.skip(i as int).skip(1) =~= s@.skip(i + 1));
                assert(strip_inst(s@.skip(i as int)) == seq![s@[i as int]] + strip_inst(
                    s@.skip(i + 1),
                ));
                assert(r@ + strip_inst(s@.skip(i + 1)) =~= strip_inst(s@));
            }
            i += 1;
        }
    }
    proof {
        assert(s@.skip(n as int) =~= Seq::<char>::empty());
        assert(r@ + Seq::<char>::empty() =~= r@);
    }
    r
}

/// The maximal space-free words of `s`, given that the characters of
/// `cur` have already been read as the beginning of the current word:
/// what splitting on single spaces and dropping empty pieces yields.
pub open spec fn split_spaces_acc(s: Seq<char>, cur: Seq<char>) -> Seq<Seq<char>>
    decreases s.len(),
{
    if s.len() == 0 {
        if cur.len() == 0 {
            Seq::empty()
        } else {
            seq![cur]
        }
    } else if s[0] == ' ' {
        (if cur.len() == 0 {
            Seq::<Seq<char>>::empty()
        } else {
            seq![cur]
        }) + split_spaces_acc(s.skip(1), Seq::empty())
    } else {
        split_spaces_acc(s.skip(1), cur.push(s[0]))
    }
}

/// The maximal space-free words of `s`, in order.
pub open spec fn space_tokens(s: Seq<char>) -> Seq<Seq<char>> {
    split_spaces_acc(s, Seq::empty())
}

/// The maximal space-free words of `s`, in order.
pub fn split_space_tokens(s: &str) -> (r: Vec<String>)
    ensures
        r.deep_view() == space_tokens(s@),
{
    let n = s.unicode_len();
    let mut r: Vec<String> = Vec::new();
    let mut cur = String::new();
    let mut i: usize = 0;
    proof {
        assert(s@.skip(0) =~= s@);
        assert(r.deep_view() =~= Seq::<Seq<char>>::empty());
        assert(Seq::<Seq<char>>::empty() + space_tokens(s@) =~= space_tokens(s@));
    }
    while i < n
        invariant
            n == s@.len(),
            0 <= i <= n,
            r.deep_view() + split_spaces_acc(s@.skip(i as int), cur@) == space_tokens(s@),
        decreases n - i,
    {
        proof {
            assert(s@.skip(i as int)[0] == s@[i as int]);
            assert(s@.skip(i as int).skip(1) =~= s@.skip(i + 1));
        }
        if s.get_char(i) == ' ' {
            if cur.unicode_len() > 0 {
                let ghost old_r = r.deep_view();
                let ghost word = cur@;
                r.push(cur);
                cur = String::new();
                proof {
                    assert(r.deep_view() =~= old_r.push(word));
                    assert(old_r.push(word) =~= old_r + seq![word]);
                    assert(old_r + (seq![word] + split_spaces_acc(s@.skip(i + 1), Seq::empty()))
                        =~= (old_r + seq![word]) + split_spaces_acc(s@.skip(i + 1), Seq::empty()));
                }
            } else {
                proof {
                    assert(cur@ =~= Seq::<char>::empty());
                    assert(Seq::<Seq<char>>::empty() + split_spaces_acc(
                        s@.skip(i + 1),
                        Seq::empty(),
                    ) =~= split_spaces_acc(s@.skip(i + 1), Seq::empty()));
                }
            }
        } else {
            let piece = s.substring_char(i, i + 1);
            let ghost old_cur = cur@;
            cur.append(piece);
            proof {
                assert(piece@ =~= seq![s@[i as int]]);
                assert(cur@ =~= old_cur.push(s@[i as int]));
            }
        }
        i += 1;
    }
    proof {
        assert(s@.skip(n as int) =~= Seq::<char>::empty());
    }
    if cur.unicode_len() > 0 {
        let ghost old_r = r.deep_view();
        let ghost word = cur@;
        r.push(cur);
        proof {
            assert(r.deep_view() =~= old_r.push(word));
            assert(old_r.push(word) =~= old_r + seq![word]);
        }
    } else {
        proof {
            assert(r.deep_view() + Seq::<Seq<char>>::empty() =~= r.deep_view());
        }
    }
    r
}

/// The elements of `s` at even positions, in order: the keys of an
/// alternating key/value token list.
pub open spec fn evens(s: Seq<Seq<char>>) -> Seq<Seq<char>> {
    Seq::new((s.len() + 1) / 2, |i: int| s[2 * i])
}

/// The elements of `v` at even positions, in order.
pub fn even_elements(v: &Vec<String>) -> (r: Vec<String>)
    ensures
        r.deep_view() == evens(v.deep_view()),
{
    let n = v.len();
    let mut r: Vec<String> = Vec::new();
    let mut i: usize = 0;
    while i < n
        invariant
            n == v@.len(),
            v.deep_view().len() == n,
            0 <= i <= n + 1,
            i % 2 == 0,
            r.deep_view() =~= evens(v.deep_view()).subrange(0, ((i + 1) / 2) as int),
        decreases n - i,
    {
        let ghost old_r = r.deep_view();
        r.push(v[i].clone());
        proof {
            assert(v[i as int].deep_view() == v.deep_view()[i as int]);
            assert(evens(v.deep_view())[(i / 2) as int] == v.deep_view()[i as int]);
            assert(r.deep_view() =~= old_r.push(v.deep_view()[i as int]));
            assert(r.deep_view() =~= evens(v.deep_view()).subrange(0, ((i + 2) / 2) as int));
        }
        if i >= n - 1 {
            proof {
                assert(((i + 2) / 2) as int == evens(v.deep_view()).len());
                assert(evens(v.deep_view()).subrange(0, evens(v.deep_view()).len() as int) =~= evens(
                    v.deep_view(),
                ));
            }
            return r;
        }
        i += 2;
    }
    proof {
        assert(((i + 1) / 2) as int == evens(v.deep_view()).len() as int);
        assert(r.deep_view() =~= evens(v.deep_view()));
    }
    r
}

/// The position of the first space in `s`, or `s.len()` when there is
/// none.
pub open spec fn first_space_idx(s: Seq<char>) -> int
    decreases s.len(),
{
    if s.len() == 0 {
        0
    } else if s[0] == ' ' {
        0
    } else {
        1 + first_space_idx(s.skip(1))
    }
}

pub proof fn lemma_first_space_idx_bounds(s: Seq<char>)
    ensures
        0 <= first_space_idx(s) <= s.len(),
        forall|k: int| 0 <= k < first_space_idx(s) ==> s[k] != ' ',
        first_space_idx(s) < s.len() ==> s[first_space_idx(s)] == ' ',
    decreases s.len(),
{
    if s.len() == 0 {
    } else if s[0] == ' ' {
    } else {
        lemma_first_space_idx_bounds(s.skip(1));
        assert forall|k: int| 0 <= k < first_space_idx(s) implies s[k] != ' ' by {
            if k > 0 {
                assert(s.skip(1)[k - 1] == s[k]);
            }
        }
        if first_space_idx(s) < s.len() {
            assert(s.skip(1)[first_space_idx(s.skip(1))] == s[first_space_idx(s)]);
        }
    }
}

/// What the element before the first space of `s` is: the first field of
/// a space-separated pair.
pub open spec fn field_before_space(s: Seq<char>) -> Seq<char> {
    s.subrange(0, first_space_idx(s))
}

/// What stands between the first space of `s` and the following space or
/// the end: the second field of a space-separated pair.
pub open spec fn field_after_space(s: Seq<char>) -> Seq<char> {
    let rest = s.skip(first_space_idx(s) + 1);
    rest.subrange(0, first_space_idx(rest))
}

/// The position of the first space in `s`, or its length when there is
/// none.
pub fn find_first_space(s: &str) -> (r: usize)
    ensures
        r == first_space_idx(s@),
{
    let n = s.unicode_len();
    let mut i: usize = 0;
    proof {
        lemma_first_space_idx_bounds(s@);
    }
    while i < n
        invariant
            n == s@.len(),
            0 <= i <= n,
            forall|k: int| 0 <= k < i ==> s@[k] != ' ',
            first_space_idx(s@) >= i,
        decreases n - i,
    {
        proof {
            lemma_first_space_idx_bounds(s@);
        }
        if s.get_char(i) == ' ' {
            proof {
                lemma_first_space_idx_bounds(s@);
                if first_space_idx(s@) > i {
                    assert(s@[i as int] != ' ');
                }
            }
            return i;
        }
        proof {
            lemma_first_space_idx_bounds(s@);
            if first_space_idx(s@) == i {
                assert(s@[i as int] == ' ');
            }
        }
        i += 1;
    }
    proof {
        lemma_first_space_idx_bounds(s@);
    }
    i
}

/// The first field of the space-separated pair `s`.
pub fn split_first_field(s: &str) -> (r: String)
    ensures
        r@ == field_before_space(s@),
{
    let idx = find_first_space(s);
    proof {
        lemma_first_space_idx_bounds(s@);
    }
    let f = s.substring_char(0, idx);
    f.to_owned()
}

/// The second field of the space-separated pair `s`; `s` must contain a
/// space, as the builder that splits a pair has checked.
pub fn split_second_field(s: &str) -> (r: String)
    requires
        first_space_idx(s@) < s@.len(),
    ensures
        r@ == field_after_space(s@),
{
    let n = s.unicode_len();
    let idx = find_first_space(s);
    proof {
        lemma_first_space_idx_bounds(s@);
    }
    let rest = s.substring_char(idx + 1, n);
    proof {
        assert(rest@ =~= s@.skip(idx + 1));
    }
    let idx2 = find_first_space(rest);
    proof {
        lemma_first_space_idx_bounds(rest@);
    }
    let f = rest.substring_char(0, idx2);
    f.to_owned()
}

/// Whether `c` reads as the lower-case pattern character `p` when ASCII
/// letters are compared without regard to case.
pub open spec fn char_lower_eq(c: char, p: char) -> bool {
    c == p || ('A' as u32 <= c as u32 && c as u32 <= 'Z' as u32 && c as u32 + 32 == p as u32)
}

/// Whether `s` equals the lower-case pattern `pat` when ASCII letters are
/// compared without regard to case: what lower-casing `s` and testing
/// equality against `pat` yields for the recognized direction tokens.
pub open spec fn lower_eq(s: Seq<char>, pat: Seq<char>) -> bool {
    s.len() == pat.len() && forall|i: int| 0 <= i < s.len() ==> char_lower_eq(s[i], pat[i])
}

/// Whether `s` equals the lower-case pattern `pat`, comparing ASCII
/// letters without regard to case.
pub fn eq_ignore_ascii(s: &str, pat: &str) -> (r: bool)
    ensures
        r == lower_eq(s@, pat@),
{
    let n = s.unicode_len();
    if n != pat.unicode_len() {
        return false;
    }
    let mut i: usize = 0;
    while i < n
        invariant
            n == s@.len(),
            n == pat@.len(),
            0 <= i <= n,
            forall|k: int| 0 <= k < i ==> char_lower_eq(s@[k], pat@[k]),
        decreases n - i,
    {
        let c = s.get_char(i) as u32;
        let p = pat.get_char(i) as u32;
        if !(c == p || (65 <= c && c <= 90 && c + 32 == p)) {
            assert(!char_lower_eq(s@[i as int], pat@[i as int]));
            return false;
        }
        i += 1;
    }
    true
}

/// The character that writes the decimal digit `d`.
pub open spec fn digit_char(d: int) -> char {
    if d == 0 {
        '0'
    } else if d == 1 {
        '1'
    } else if d == 2 {
        '2'
    } else if d == 3 {
        '3'
    } else if d == 4 {
        '4'
    } else if d == 5 {
        '5'
    } else if d == 6 {
        '6'
    } else if d == 7 {
        '7'
    } else if d == 8 {
        '8'
    } else {
        '9'
    }
}

/// The decimal digits of `n`, most significant first, without leading
/// zeros (a single `0` for zero).
pub open spec fn dec_digits(n: nat) -> Seq<char>
    decreases n,
{
    if n < 10 {
        seq![digit_char(n as int)]
    } else {
        dec_digits(n / 10) + seq![digit_char((n % 10) as int)]
    }
}

/// The decimal digits of `n`, padded with zeros on the left to at least
/// two places.
pub open spec fn dec_pad2(n: nat) -> Seq<char> {
    if n < 10 {
        seq!['0'] + dec_digits(n)
    } else {
        dec_digits(n)
    }
}

/// The decimal digits of `n`, padded with zeros on the left to at least
/// four places.
pub open spec fn dec_pad4(n: nat) -> Seq<char> {
    if n < 10 {
        seq!['0', '0', '0'] + dec_digits(n)
    } else if n < 100 {
        seq!['0', '0'] + dec_digits(n)
    } else if n < 1000 {
        seq!['0'] + dec_digits(n)
    } else {
        dec_digits(n)
    }
}

/// Appends the character of the decimal digit `d` to `s`.
fn push_digit(s: &mut String, d: u64)
    requires
        d < 10,
    ensures
        final(s)@ == old(s)@ + seq![digit_char(d as int)],
{
    let ghost orig = s@;
    if d == 0 {
        s.append("0");
        proof {
            reveal_strlit("0");
            assert(s@ =~= orig + seq!['0']);
        }
    } else if d == 1 {
        s.append("1");
        proof {
            reveal_strlit("1");
            assert(s@ =~= orig + seq!['1']);
        }
    } else if d == 2 {
        s.append("2");
        proof {
            reveal_strlit("2");
            assert(s@ =~= orig + seq!['2']);
        }
    } else if d == 3 {
        s.append("3");
        proof {
            reveal_strlit("3");
            assert(s@ =~= orig + seq!['3']);
        }
    } else if d == 4 {
        s.append("4");
        proof {
            reveal_strlit("4");
            assert(s@ =~= orig + seq!['4']);
        }
    } else if d == 5 {
        s.append("5");
        proof {
            reveal_strlit("5");
            assert(s@ =~= orig + seq!['5']);
        }
    } else if d == 6 {
        s.append("6");
        proof {
            reveal_strlit("6");
            assert(s@ =~= orig + seq!['6']);
        }
    } else if d == 7 {
        s.append("7");
        proof {
            reveal_strlit("7");
            assert(s@ =~= orig + seq!['7']);
        }
    } else if d == 8 {
        s.append("8");
        proof {
            reveal_strlit("8");
            assert(s@ =~= orig + seq!['8']);
        }
    } else {
        s.append("9");
        proof {
            reveal_strlit("9");
            assert(s@ =~= orig + seq!['9']);
        }
    }
}

/// Appends the decimal digits of `n` to `s`.
pub fn push_dec(s: &mut String, n: u64)
    ensures
        final(s)@ == old(s)@ + dec_digits(n as nat),
    decreases n,
{
    if n >= 10 {
        push_dec(s, n / 10);
        push_digit(s, n % 10);
        assert(s@ =~= old(s)@ + dec_digits(n as nat));
    } else {
        push_digit(s, n);
    }
}

/// Appends the decimal digits of `n`, zero-padded to at least two
/// places, to `s`.
pub fn push_dec_pad2(s: &mut String, n: u64)
    ensures
        final(s)@ == old(s)@ + dec_pad2(n as nat),
{
    if n < 10 {
        s.append("0");
        proof {
            reveal_strlit("0");
        }
    }
    push_dec(s, n);
    assert(s@ =~= old(s)@ + dec_pad2(n as nat));
}

/// Appends the decimal digits of `n`, zero-padded to at least four
/// places, to `s`.
pub fn push_dec_pad4(s: &mut String, n: u64)
    ensures
        final(s)@ == old(s)@ + dec_pad4(n as nat),
{
    proof {
        reveal_strlit("0");
        reveal_strlit("00");
        reveal_strlit("000");
    }
    if n < 10 {
        s.append("000");
    } else if n < 100 {
        s.append("00");
    } else if n < 1000 {
        s.append("0");
    }
    push_dec(s, n);
    assert(s@ =~= old(s)@ + dec_pad4(n as nat));
}

} // verus!
