//! Building text: the specifications of the pieces of text this crate
//! produces, and the functions that build them.

use vstd::prelude::*;
use vstd::string::StringExecFns;

verus! {

/// Taken on trust of `String::push` of the standard library: it appends the
/// character to the end of the string.
pub assume_specification[ String::push ](text: &mut String, ch: char)
    ensures
        final(text)@ == old(text)@.push(ch),
;

/// Taken on trust of `String::pop` of the standard library: it removes the
/// last character and returns it, or returns `None` and changes nothing where
/// the string is empty.
pub assume_specification[ String::pop ](text: &mut String) -> (last: Option<char>)
    ensures
        match last {
            Some(ch) => {
                &&& old(text)@.len() > 0
                &&& ch == old(text)@.last()
                &&& final(text)@ == old(text)@.drop_last()
            },
            None => old(text)@.len() == 0 && final(text)@ == old(text)@,
        },
;

/// Taken on trust of `String::clear` of the standard library: it removes all
/// the characters.
pub assume_specification[ String::clear ](text: &mut String)
    ensures
        final(text)@ == Seq::<char>::empty(),
;

/// Compares two string slices with the `==` of the standard library. Taken on
/// trust: the two are equal exactly when they hold the same characters.
#[verifier::external_body]
pub(crate) fn str_eq(a: &str, b: &str) -> (same: bool)
    ensures
        same == (a@ == b@),
{
    a == b
}

/// A value with a name that it is displayed as.
pub trait Label {
    /// The text the value is displayed as.
    spec fn label(&self) -> Seq<char>;

    fn to_label(&self) -> (text: String)
        ensures
            text@ == self.label(),
    ;
}

/// The character of a decimal digit.
pub open spec fn digit_char(digit: nat) -> char {
    if digit == 0 {
        '0'
    } else if digit == 1 {
        '1'
    } else if digit == 2 {
        '2'
    } else if digit == 3 {
        '3'
    } else if digit == 4 {
        '4'
    } else if digit == 5 {
        '5'
    } else if digit == 6 {
        '6'
    } else if digit == 7 {
        '7'
    } else if digit == 8 {
        '8'
    } else {
        '9'
    }
}

/// The decimal numeral of a number, without sign or leading zeros.
pub open spec fn decimal(n: nat) -> Seq<char>
    decreases n,
{
    if n < 10 {
        seq![digit_char(n)]
    } else {
        decimal(n / 10).push(digit_char(n % 10))
    }
}

/// A number below one hundred as two decimal digits, with a leading zero
/// where it is below ten.
pub open spec fn two_digits(n: nat) -> Seq<char> {
    seq![digit_char(n / 10), digit_char(n % 10)]
}

/// The parts one after the other, with the separator between each two.
pub open spec fn joined(parts: Seq<Seq<char>>, separator: Seq<char>) -> Seq<char>
    decreases parts.len(),
{
    if parts.len() == 0 {
        Seq::empty()
    } else if parts.len() == 1 {
        parts[0]
    } else {
        joined(parts.drop_last(), separator) + separator + parts.last()
    }
}

/// `count` copies of the character.
pub open spec fn repeated(ch: char, count: nat) -> Seq<char> {
    Seq::new(count, |i: int| ch)
}

fn digit(d: u64) -> (ch: char)
    requires
        d < 10,
    ensures
        ch == digit_char(d as nat),
{
    if d == 0 {
        '0'
    } else if d == 1 {
        '1'
    } else if d == 2 {
        '2'
    } else if d == 3 {
        '3'
    } else if d == 4 {
        '4'
    } else if d == 5 {
        '5'
    } else if d == 6 {
        '6'
    } else if d == 7 {
        '7'
    } else if d == 8 {
        '8'
    } else {
        '9'
    }
}

/// The decimal numeral of `n`.
pub fn decimal_string(n: u64) -> (text: String)
    ensures
        text@ == decimal(n as nat),
{
    // the digits from the least significant one up
    let mut digits: Vec<char> = Vec::new();
    let mut rest: u64 = n;
    while rest >= 10
        invariant
            forall|tail: Seq<char>|
                decimal(n as nat) + tail == #[trigger] (decimal(rest as nat) + digits@.reverse()
                    + tail),
        decreases rest,
    {
        let ghost before = digits@;
        let ghost lead = decimal((rest / 10) as nat);
        let d = digit(rest % 10);
        digits.push(d);
        proof {
            assert forall|tail: Seq<char>|
                decimal(n as nat) + tail == #[trigger] (lead + digits@.reverse() + tail) by {
                assert(digits@.reverse() =~= seq![d] + before.reverse());
                assert(lead + digits@.reverse() + tail =~= decimal(rest as nat) + before.reverse()
                    + tail);
            }
        }
        rest = rest / 10;
    }
    let mut text = String::new();
    text.push(digit(rest));
    let mut i: usize = digits.len();
    proof {
        assert(decimal(n as nat) + Seq::<char>::empty() == decimal(rest as nat) + digits@.reverse()
            + Seq::<char>::empty());
        assert(digits@.reverse().take(0) =~= Seq::<char>::empty());
        assert(text@ =~= decimal(rest as nat) + digits@.reverse().take(0));
    }
    while i > 0
        invariant
            i <= digits.len(),
            text@ == decimal(rest as nat) + digits@.reverse().take(digits.len() - i),
        decreases i,
    {
        i -= 1;
        text.push(digits[i]);
        proof {
            let reversed = digits@.reverse();
            let done = digits.len() - i - 1;
            assert(reversed.take(done + 1) =~= reversed.take(done).push(reversed[done]));
            assert(text@ =~= decimal(rest as nat) + reversed.take(done + 1));
        }
    }
    proof {
        let reversed = digits@.reverse();
        assert(reversed.take(digits.len() as int) =~= reversed);
        assert(decimal(rest as nat) + reversed =~= decimal(rest as nat) + reversed + Seq::<
            char,
        >::empty());
        assert(decimal(n as nat) =~= decimal(n as nat) + Seq::<char>::empty());
    }
    text
}

/// Appends `count` copies of the character.
pub fn push_repeated(text: &mut String, ch: char, count: usize)
    ensures
        final(text)@ == old(text)@ + repeated(ch, count as nat),
{
    let mut i: usize = 0;
    proof {
        assert(text@ =~= old(text)@ + repeated(ch, 0));
    }
    while i < count
        invariant
            i <= count,
            text@ == old(text)@ + repeated(ch, i as nat),
        decreases count - i,
    {
        text.push(ch);
        i += 1;
        proof {
            assert(text@ =~= old(text)@ + repeated(ch, i as nat));
        }
    }
}

/// The strings one after the other, with the separator between each two.
pub fn join(parts: &Vec<String>, separator: &str) -> (text: String)
    ensures
        text@ == joined(parts@.map_values(|part: String| part@), separator@),
{
    let ghost views = parts@.map_values(|part: String| part@);
    let mut text = String::new();
    let mut i: usize = 0;
    proof {
        assert(views.take(0) =~= Seq::<Seq<char>>::empty());
    }
    while i < parts.len()
        invariant
            i <= parts.len(),
            views == parts@.map_values(|part: String| part@),
            text@ == joined(views.take(i as int), separator@),
        decreases parts.len() - i,
    {
        proof {
            assert(views.take(i + 1).drop_last() =~= views.take(i as int));
            assert(views.take(i + 1).last() == parts@[i as int]@);
        }
        if i > 0 {
            text.append(separator);
        }
        text.append(parts[i].as_str());
        proof {
            if i == 0 {
                assert(text@ =~= parts@[i as int]@);
                assert(views.take(1)[0] == parts@[0]@);
            }
        }
        i += 1;
    }
    proof {
        assert(views.take(parts.len() as int) =~= views);
    }
    text
}

} // verus!
