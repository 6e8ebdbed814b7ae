//! Reading a yes/no answer typed by the user.

use vstd::prelude::*;

verus! {

/// What the user meant by a typed answer.
#[derive(Clone, Copy, Debug, PartialEq, Eq, Structural)]
pub enum Answer {
    Yes,
    No,
    Invalid,
}

/// The spellings that count as consent.
pub open spec fn says_yes(text: Seq<char>) -> bool {
    ||| text == "y"@
    ||| text == "Y"@
    ||| text == "yes"@
    ||| text == "Yes"@
    ||| text == "YES"@
}

/// The spellings that count as refusal.
pub open spec fn says_no(text: Seq<char>) -> bool {
    ||| text == "n"@
    ||| text == "N"@
    ||| text == "no"@
    ||| text == "No"@
    ||| text == "NO"@
}

/// The meaning of a typed answer. Nothing is trimmed and no other spelling is
/// accepted.
pub open spec fn answer_of(text: Seq<char>) -> Answer {
    if says_yes(text) {
        Answer::Yes
    } else if says_no(text) {
        Answer::No
    } else {
        Answer::Invalid
    }
}

/// Whether two strings hold the same characters.
fn same_text(left: &str, right: &str) -> (same: bool)
    ensures
        same == (left@ == right@),
{
    let n: usize = left.unicode_len();
    if right.unicode_len() != n {
        return false;
    }
    let mut i: usize = 0;
    while i < n
        invariant
            i <= n,
            n == left@.len(),
            n == right@.len(),
            forall|j: int| 0 <= j < i ==> left@[j] == right@[j],
        decreases n - i,
    {
        if left.get_char(i) != right.get_char(i) {
            return false;
        }
        i += 1;
    }
    assert(left@ =~= right@);
    true
}

fn is_yes(text: &str) -> (yes: bool)
    ensures
        yes == says_yes(text@),
{
    same_text(text, "y") || same_text(text, "Y") || same_text(text, "yes") || same_text(text, "Yes")
        || same_text(text, "YES")
}

fn is_no(text: &str) -> (no: bool)
    ensures
        no == says_no(text@),
{
    same_text(text, "n") || same_text(text, "N") || same_text(text, "no") || same_text(text, "No")
        || same_text(text, "NO")
}

impl Answer {
    /// Reads a typed answer.
    pub fn parse(text: &str) -> (answer: Answer)
        ensures
            answer == answer_of(text@),
    {
        if is_yes(text) {
            Answer::Yes
        } else if is_no(text) {
            Answer::No
        } else {
            Answer::Invalid
        }
    }
}

/// An answer is a yes exactly when it is spelled as one, and a no exactly
/// when it is spelled as one: no spelling is both.
pub proof fn lemma_answer_by_spelling(text: Seq<char>)
    ensures
        says_yes(text) <==> answer_of(text) == Answer::Yes,
        says_no(text) <==> answer_of(text) == Answer::No,
        !says_yes(text) && !says_no(text) <==> answer_of(text) == Answer::Invalid,
{
    reveal_strlit("y");
    reveal_strlit("Y");
    reveal_strlit("yes");
    reveal_strlit("Yes");
    reveal_strlit("YES");
    reveal_strlit("n");
    reveal_strlit("N");
    reveal_strlit("no");
    reveal_strlit("No");
    reveal_strlit("NO");
    if says_yes(text) && says_no(text) {
        assert(text[0] == 'y' || text[0] == 'Y');
        assert(text[0] == 'n' || text[0] == 'N');
    }
}

} // verus!
