//! Small pieces of text handling.
use vstd::prelude::*;

verus! {

/// `middle` between `before` and `after`.
pub fn enclose(before: &str, middle: &str, after: &str) -> (text: String)
    ensures
        text@ == before@ + middle@ + after@,
{
    let mut text: String = before.to_owned();
    text.append(middle);
    text.append(after);
    text
}

/// Whether some string of `list` spells `wanted`.
pub open spec fn spells(list: Seq<String>, wanted: Seq<char>) -> bool {
    exists|i: int| 0 <= i < list.len() && #[trigger] list[i]@ == wanted
}

/// Looks for a string in a list.
pub fn contains_text(list: &Vec<String>, wanted: &str) -> (found: bool)
    ensures
        found == spells(list@, wanted@),
{
    let target: String = wanted.to_owned();
    let mut i: usize = 0;
    while i < list.len()
        invariant
            i <= list@.len(),
            target@ == wanted@,
            forall|j: int| 0 <= j < i ==> #[trigger] list@[j]@ != wanted@,
        decreases list@.len() - i,
    {
        if list[i] == target {
            assert(list@[i as int]@ == wanted@);
            return true;
        }
        i += 1;
    }
    false
}

/// The decimal digits of a number, most significant first.
pub open spec fn decimal(number: nat) -> Seq<char>
    decreases number,
{
    let last = seq![('0' as nat + number % 10) as char];
    if number < 10 {
        last
    } else {
        decimal(number / 10) + last
    }
}

/// The text of one decimal digit.
fn digit_text(digit: usize) -> (text: &'static str)
    requires
        digit < 10,
    ensures
        text@ == seq![('0' as nat + digit) as char],
{
    proof {
        reveal_strlit("0");
        reveal_strlit("1");
        reveal_strlit("2");
        reveal_strlit("3");
        reveal_strlit("4");
        reveal_strlit("5");
        reveal_strlit("6");
        reveal_strlit("7");
        reveal_strlit("8");
        reveal_strlit("9");
    }
    if digit == 0 {
        "0"
    } else if digit == 1 {
        "1"
    } else if digit == 2 {
        "2"
    } else if digit == 3 {
        "3"
    } else if digit == 4 {
        "4"
    } else if digit == 5 {
        "5"
    } else if digit == 6 {
        "6"
    } else if digit == 7 {
        "7"
    } else if digit == 8 {
        "8"
    } else {
        "9"
    }
}

/// Writes a number out in decimal.
pub fn decimal_text(number: usize) -> (text: String)
    ensures
        text@ == decimal(number as nat),
    decreases number,
{
    if number < 10 {
        digit_text(number).to_owned()
    } else {
        let mut text: String = decimal_text(number / 10);
        text.append(digit_text(number % 10));
        text
    }
}

} // verus!
