//! Text helpers shared by the commands.

use vstd::prelude::*;
use vstd::string::*;

verus! {

/// The character sequences that the strings of `items` hold.
pub open spec fn texts(items: Seq<String>) -> Seq<Seq<char>> {
    Seq::new(items.len(), |i: int| items[i]@)
}

/// The sequences of `parts` in order, with `sep` between neighbours.
pub open spec fn joined(parts: Seq<Seq<char>>, sep: Seq<char>) -> Seq<char>
    decreases parts.len(),
{
    if parts.len() == 0 {
        Seq::empty()
    } else if parts.len() == 1 {
        parts[0]
    } else {
        joined(parts.drop_last(), sep) + sep + parts.last()
    }
}

/// Whether `c` is white space: a character with the Unicode property
/// White_Space, which is what `str::trim` removes.
pub uninterp spec fn white_space(c: char) -> bool;

/// The lower-case form of `s`, as `str::to_lowercase` computes it.
pub uninterp spec fn lowercase(s: Seq<char>) -> Seq<char>;

/// `s` without its leading and trailing white space.
pub open spec fn trimmed(s: Seq<char>) -> Seq<char>
    decreases s.len(),
{
    if s.len() > 0 && white_space(s.first()) {
        trimmed(s.drop_first())
    } else if s.len() > 0 && white_space(s.last()) {
        trimmed(s.drop_last())
    } else {
        s
    }
}

/// What is left after trimming neither begins nor ends with white space.
pub proof fn lemma_trimmed_ends(s: Seq<char>)
    ensures
        trimmed(s).len() <= s.len(),
        trimmed(s).len() > 0 ==> !white_space(trimmed(s).first()) && !white_space(
            trimmed(s).last(),
        ),
    decreases s.len(),
{
    if s.len() > 0 && white_space(s.first()) {
        lemma_trimmed_ends(s.drop_first());
    } else if s.len() > 0 && white_space(s.last()) {
        lemma_trimmed_ends(s.drop_last());
    }
}

/// Trimming twice is trimming once.
pub proof fn lemma_trimmed_idempotent(s: Seq<char>)
    ensures
        trimmed(trimmed(s)) == trimmed(s),
{
    lemma_trimmed_ends(s);
}

/// `str::trim` drops the white space at both ends: it returns the slice from
/// the first to the last character that is not white space, or an empty slice
/// where there is none. Nothing is proved of it.
pub assume_specification[ str::trim ](s: &str) -> (r: &str)
    ensures
        r@ == trimmed(s@),
        r@.len() > 0 ==> !white_space(r@.first()) && !white_space(r@.last()),
;

/// `str::to_lowercase` returns a new string that depends on the characters
/// of `s` alone. Which string it is, is not stated here, only named.
pub assume_specification[ str::to_lowercase ](s: &str) -> (r: String)
    ensures
        r@ == lowercase(s@),
;

/// Whether `a` and `b` hold the same characters.
pub fn same_text(a: &str, b: &str) -> (same: bool)
    ensures
        same == (a@ == b@),
{
    let left = String::from_str(a);
    let right = String::from_str(b);
    left == right
}

/// Whether `s` begins with the characters of `prefix`.
pub fn starts_with(s: &str, prefix: &str) -> (found: bool)
    ensures
        found == prefix@.is_prefix_of(s@),
{
    let n = prefix.unicode_len();
    if s.unicode_len() < n {
        return false;
    }
    let mut i: usize = 0;
    while i < n
        invariant
            i <= n,
            n == prefix@.len(),
            n <= s@.len(),
            forall|j: int| 0 <= j < i ==> s@[j] == prefix@[j],
        decreases n - i,
    {
        if s.get_char(i) != prefix.get_char(i) {
            assert(s@.subrange(0, n as int)[i as int] != prefix@[i as int]);
            return false;
        }
        i = i + 1;
    }
    assert(prefix@ =~= s@.subrange(0, n as int));
    true
}

/// Whether `s` holds nothing but white space.
pub fn is_blank(s: &str) -> (b: bool)
    ensures
        b == (trimmed(s@).len() == 0),
{
    s.trim().is_empty()
}

/// Joins the strings of `items` from index `from` on, with `sep` between
/// neighbours.
pub fn join_from(items: &[String], from: usize, sep: &str) -> (out: String)
    ensures
        from <= items.len() ==> out@ == joined(texts(items@).skip(from as int), sep@),
        from > items.len() ==> out@.len() == 0,
{
    let mut out = String::new();
    if from >= items.len() {
        return out;
    }
    let ghost parts = texts(items@).skip(from as int);
    out.append(items[from].as_str());
    assert(parts.take(1) =~= seq![items[from as int]@]);
    let mut i: usize = from + 1;
    while i < items.len()
        invariant
            from < i <= items.len(),
            parts == texts(items@).skip(from as int),
            out@ == joined(parts.take(i - from), sep@),
        decreases items.len() - i,
    {
        out.append(sep);
        out.append(items[i].as_str());
        proof {
            let next = parts.take(i + 1 - from);
            assert(next.drop_last() =~= parts.take(i - from));
            assert(next.last() == items[i as int]@);
        }
        i = i + 1;
    }
    assert(parts.take(i - from) =~= parts);
    out
}

} // verus!
