//! Dotted paths and decimal numerals as character sequences.

use vstd::prelude::*;

verus! {

/// Position of the last `.` of `s`, if it has one.
pub open spec fn last_dot(s: Seq<char>) -> Option<int>
    decreases s.len(),
{
    if s.len() == 0 {
        None
    } else if s.last() == '.' {
        Some(s.len() - 1)
    } else {
        last_dot(s.drop_last())
    }
}

/// Whether `s` holds no `.` at all, so that it is a single segment.
pub open spec fn dotless(s: Seq<char>) -> bool {
    forall|i: int| 0 <= i < s.len() ==> #[trigger] s[i] != '.'
}

/// `last_dot` finds a `.` after which no other follows, and finds none only
/// in a sequence without one.
pub proof fn lemma_last_dot(s: Seq<char>)
    ensures
        match last_dot(s) {
            Some(i) => 0 <= i < s.len() && s[i] == '.' && dotless(s.skip(i + 1)),
            None => dotless(s),
        },
    decreases s.len(),
{
    if s.len() == 0 {
    } else if s.last() == '.' {
        assert(s.skip(s.len() as int).len() == 0);
    } else {
        let front = s.drop_last();
        lemma_last_dot(front);
        match last_dot(front) {
            Some(i) => {
                let tail = s.skip(i + 1);
                assert forall|j: int| 0 <= j < tail.len() implies #[trigger] tail[j] != '.' by {
                    if i + 1 + j < front.len() {
                        assert(front.skip(i + 1)[j] == s[i + 1 + j]);
                    }
                }
            },
            None => {
                assert forall|j: int| 0 <= j < s.len() implies #[trigger] s[j] != '.' by {
                    if j < front.len() {
                        assert(front[j] == s[j]);
                    }
                }
            },
        }
    }
}

/// Finds the last `.` of `path`.
pub fn find_last_dot(path: &str) -> (at: Option<usize>)
    ensures
        match at {
            Some(i) => last_dot(path@) == Some(i as int),
            None => last_dot(path@).is_none(),
        },
{
    let mut end: usize = path.unicode_len();
    assert(path@.take(end as int) =~= path@);
    while end > 0
        invariant
            end <= path@.len(),
            last_dot(path@) == last_dot(path@.take(end as int)),
        decreases end,
    {
        let here: char = path.get_char(end - 1);
        proof {
            let front = path@.take(end as int);
            assert(front.last() == path@[end - 1]);
            assert(front.drop_last() =~= path@.take(end - 1));
        }
        if here == '.' {
            return Some(end - 1);
        }
        end = end - 1;
    }
    proof {
        assert(path@.take(0).len() == 0);
    }
    None
}

/// The character of one decimal digit.
pub open spec fn digit_char(d: nat) -> char {
    if d == 0 {
        '0'
    } else if d == 1 {
        '1'
    } else if d == 2 {
        '2'
    } else if d == 3 {
        '3'
    } else if d == 4 {
        '4'
    } else if d == 5 {
        '5'
    } else if d == 6 {
        '6'
    } else if d == 7 {
        '7'
    } else if d == 8 {
        '8'
    } else {
        '9'
    }
}

/// The decimal numeral of `n`, without sign or leading zeros.
pub open spec fn decimal(n: nat) -> Seq<char>
    decreases n,
{
    if n < 10 {
        seq![digit_char(n)]
    } else {
        decimal(n / 10).push(digit_char(n % 10))
    }
}

fn digit_text(d: u32) -> (text: &'static str)
    requires
        d < 10,
    ensures
        text@ == seq![digit_char(d as nat)],
{
    proof {
        reveal_strlit("0");
        reveal_strlit("1");
        reveal_strlit("2");
        reveal_strlit("3");
        reveal_strlit("4");
        reveal_strlit("5");
        reveal_strlit("6");
        reveal_strlit("7");
        reveal_strlit("8");
        reveal_strlit("9");
    }
    let text: &'static str = if d == 0 {
        "0"
    } else if d == 1 {
        "1"
    } else if d == 2 {
        "2"
    } else if d == 3 {
        "3"
    } else if d == 4 {
        "4"
    } else if d == 5 {
        "5"
    } else if d == 6 {
        "6"
    } else if d == 7 {
        "7"
    } else if d == 8 {
        "8"
    } else {
        "9"
    };
    assert(text@ =~= seq![digit_char(d as nat)]);
    text
}

/// Writes `n` as a decimal numeral.
pub fn decimal_text(n: u32) -> (text: String)
    ensures
        text@ == decimal(n as nat),
    decreases n,
{
    if n < 10 {
        String::from_str(digit_text(n))
    } else {
        let mut text = decimal_text(n / 10);
        text.append(digit_text(n % 10));
        assert(text@ =~= decimal(n as nat));
        text
    }
}

} // verus!
