//! The issue that a branch name refers to: `issue/<KEY>-<NUMBER>`, with
//! anything or nothing after the number.

use vstd::prelude::*;
use vstd::string::*;
use crate::text::starts_with;

verus! {

/// An issue that a branch name refers to.
#[derive(Clone, Debug, PartialEq, Eq)]
pub struct IssueTag {
    /// What stands before the first `-`: the project's key.
    pub key: String,
    /// The digits that follow the `-`; there may be none.
    pub number: String,
}

/// What an [`IssueTag`] holds, as sequences of characters.
pub struct IssueTagView {
    pub key: Seq<char>,
    pub number: Seq<char>,
}

impl View for IssueTag {
    type V = IssueTagView;

    open spec fn view(&self) -> IssueTagView {
        IssueTagView { key: self.key@, number: self.number@ }
    }
}

/// The view of a tag that may be absent.
pub open spec fn tag_view(tag: Option<IssueTag>) -> Option<IssueTagView> {
    match tag {
        Some(t) => Some(t@),
        None => None,
    }
}

/// Whether `c` is one of the ten ASCII digits.
pub open spec fn is_digit(c: char) -> bool {
    '0' <= c <= '9'
}

/// How many characters of `s` stand before its first `-`: all of them where
/// there is none.
pub open spec fn key_len(s: Seq<char>) -> nat
    decreases s.len(),
{
    if s.len() > 0 && s.first() != '-' {
        1 + key_len(s.drop_first())
    } else {
        0
    }
}

/// How many ASCII digits `s` begins with.
pub open spec fn digits_len(s: Seq<char>) -> nat
    decreases s.len(),
{
    if s.len() > 0 && is_digit(s.first()) {
        1 + digits_len(s.drop_first())
    } else {
        0
    }
}

/// Whether a branch of this name is an issue branch.
pub open spec fn has_issue_prefix(branch: Seq<char>) -> bool {
    "issue/"@.is_prefix_of(branch)
}

/// The issue that a branch name refers to.
///
/// The name has to begin with `issue/` and hold a `-` after that. The key is
/// what stands between the two, of any length; the number is the longest run of
/// digits right after the `-`, which may be empty. Whatever follows the digits
/// is ignored.
pub open spec fn issue_tag_of(branch: Seq<char>) -> Option<IssueTagView> {
    let rest = branch.skip("issue/"@.len() as int);
    let after = rest.skip(key_len(rest) as int + 1);
    if has_issue_prefix(branch) && key_len(rest) < rest.len() {
        Some(
            IssueTagView {
                key: rest.take(key_len(rest) as int),
                number: after.take(digits_len(after) as int),
            },
        )
    } else {
        None
    }
}

/// What follows the number in the name of an issue branch.
pub open spec fn remainder_of(branch: Seq<char>) -> Seq<char> {
    let rest = branch.skip("issue/"@.len() as int);
    let after = rest.skip(key_len(rest) as int + 1);
    after.skip(digits_len(after) as int)
}

/// The run before the first `-` holds no `-` and ends at one or at the end.
proof fn lemma_key_len_bounds(s: Seq<char>)
    ensures
        key_len(s) <= s.len(),
        forall|i: int| 0 <= i < key_len(s) ==> s[i] != '-',
        key_len(s) < s.len() ==> s[key_len(s) as int] == '-',
    decreases s.len(),
{
    if s.len() > 0 && s.first() != '-' {
        let tail = s.drop_first();
        lemma_key_len_bounds(tail);
        assert forall|i: int| 0 <= i < key_len(s) implies s[i] != '-' by {
            if i > 0 {
                assert(s[i] == tail[i - 1]);
            }
        }
        assert(key_len(s) < s.len() ==> s[key_len(s) as int] == tail[key_len(tail) as int]);
    }
}

/// The leading digits are digits, and what follows them is none.
proof fn lemma_digits_len_bounds(s: Seq<char>)
    ensures
        digits_len(s) <= s.len(),
        forall|i: int| 0 <= i < digits_len(s) ==> is_digit(s[i]),
        digits_len(s) < s.len() ==> !is_digit(s[digits_len(s) as int]),
    decreases s.len(),
{
    if s.len() > 0 && is_digit(s.first()) {
        let tail = s.drop_first();
        lemma_digits_len_bounds(tail);
        assert forall|i: int| 0 <= i < digits_len(s) implies is_digit(s[i]) by {
            if i > 0 {
                assert(s[i] == tail[i - 1]);
            }
        }
        assert(digits_len(s) < s.len() ==> s[digits_len(s) as int] == tail[digits_len(
            tail,
        ) as int]);
    }
}

/// The length `n` of the run before the first `-` is known by what it
/// separates: no `-` before it, and a `-` or the end at it.
proof fn lemma_key_len_is(s: Seq<char>, n: int)
    requires
        0 <= n <= s.len(),
        forall|i: int| 0 <= i < n ==> s[i] != '-',
        n < s.len() ==> s[n] == '-',
    ensures
        key_len(s) == n,
    decreases s.len(),
{
    if n > 0 {
        let tail = s.drop_first();
        assert forall|i: int| 0 <= i < n - 1 implies tail[i] != '-' by {
            assert(tail[i] == s[i + 1]);
        }
        lemma_key_len_is(tail, n - 1);
    }
}

/// The number `n` of leading digits is known by what it separates: digits
/// before it, and no digit or the end at it.
proof fn lemma_digits_len_is(s: Seq<char>, n: int)
    requires
        0 <= n <= s.len(),
        forall|i: int| 0 <= i < n ==> is_digit(s[i]),
        n < s.len() ==> !is_digit(s[n]),
    ensures
        digits_len(s) == n,
    decreases s.len(),
{
    if n > 0 {
        let tail = s.drop_first();
        assert forall|i: int| 0 <= i < n - 1 implies is_digit(tail[i]) by {
            assert(tail[i] == s[i + 1]);
        }
        lemma_digits_len_is(tail, n - 1);
    }
}

/// A branch that is not named `issue/...` refers to no issue.
pub proof fn lemma_no_prefix_no_tag(branch: Seq<char>)
    requires
        !has_issue_prefix(branch),
    ensures
        issue_tag_of(branch) is None,
{
}

/// The branch `issue/<key>-<digits><rest>` refers to the issue of that key and
/// number, for every key without a `-` and every rest that does not go on
/// with a digit.
pub proof fn lemma_tag_of_issue_branch(key: Seq<char>, digits: Seq<char>, rest: Seq<char>)
    requires
        forall|i: int| 0 <= i < key.len() ==> key[i] != '-',
        forall|i: int| 0 <= i < digits.len() ==> is_digit(digits[i]),
        rest.len() > 0 ==> !is_digit(rest.first()),
    ensures
        issue_tag_of("issue/"@ + key + "-"@ + digits + rest) == Some(
            IssueTagView { key, number: digits },
        ),
{
    reveal_strlit("issue/");
    reveal_strlit("-");
    let branch = "issue/"@ + key + "-"@ + digits + rest;
    let tail = branch.skip(6);
    assert(tail =~= key + "-"@ + digits + rest);
    assert("issue/"@ =~= branch.subrange(0, 6));
    lemma_key_len_is(tail, key.len() as int);
    let after = tail.skip(key.len() as int + 1);
    assert(after =~= digits + rest);
    lemma_digits_len_is(after, digits.len() as int);
    assert(tail.take(key.len() as int) =~= key);
    assert(after.take(digits.len() as int) =~= digits);
}

/// Reads the issue that a branch name refers to.
pub fn extract_issue_tag(branch: &str) -> (tag: Option<IssueTag>)
    ensures
        tag_view(tag) == issue_tag_of(branch@),
        !has_issue_prefix(branch@) ==> tag is None,
{
    if !starts_with(branch, "issue/") {
        return None;
    }
    proof {
        reveal_strlit("issue/");
    }
    let n = branch.unicode_len();
    let ghost rest = branch@.skip(6);
    let mut dash: usize = 6;
    while dash < n && branch.get_char(dash) != '-'
        invariant
            6 <= dash <= n,
            n == branch@.len(),
            rest == branch@.skip(6),
            forall|i: int| 0 <= i < dash - 6 ==> rest[i] != '-',
        decreases n - dash,
    {
        dash = dash + 1;
    }
    proof {
        lemma_key_len_is(rest, dash - 6);
    }
    if dash == n {
        return None;
    }
    let ghost after = rest.skip(dash - 6 + 1);
    let mut end: usize = dash + 1;
    while end < n && is_ascii_digit(branch.get_char(end))
        invariant
            dash < end <= n,
            n == branch@.len(),
            after == branch@.skip(dash + 1),
            forall|i: int| 0 <= i < end - (dash + 1) ==> is_digit(after[i]),
        decreases n - end,
    {
        end = end + 1;
    }
    proof {
        assert(after =~= branch@.skip(dash + 1));
        lemma_digits_len_is(after, end - (dash + 1));
        assert(rest.take(dash - 6) =~= branch@.subrange(6, dash as int));
        assert(after.take(end - (dash + 1)) =~= branch@.subrange(dash + 1, end as int));
    }
    let key = String::from_str(branch.substring_char(6, dash));
    let number = String::from_str(branch.substring_char(dash + 1, end));
    Some(IssueTag { key, number })
}

/// A branch that refers to an issue is spelled `issue/<key>-<number><rest>`,
/// where the key holds no `-`, the number nothing but digits, and the rest
/// does not go on with a digit.
pub proof fn lemma_tagged_branch_form(branch: Seq<char>)
    ensures
        issue_tag_of(branch) matches Some(tag) ==> {
            &&& branch == "issue/"@ + tag.key + "-"@ + tag.number + remainder_of(branch)
            &&& forall|i: int| 0 <= i < tag.key.len() ==> tag.key[i] != '-'
            &&& forall|i: int| 0 <= i < tag.number.len() ==> is_digit(tag.number[i])
            &&& remainder_of(branch).len() > 0 ==> !is_digit(remainder_of(branch).first())
        },
{
    reveal_strlit("-");
    let rest = branch.skip("issue/"@.len() as int);
    let after = rest.skip(key_len(rest) as int + 1);
    lemma_key_len_bounds(rest);
    lemma_digits_len_bounds(after);
    if let Some(tag) = issue_tag_of(branch) {
        assert(branch =~= "issue/"@ + tag.key + "-"@ + tag.number + remainder_of(branch));
    }
}

/// Whether `c` is one of the ten ASCII digits.
pub fn is_ascii_digit(c: char) -> (digit: bool)
    ensures
        digit == is_digit(c),
{
    '0' <= c && c <= '9'
}

} // verus!
