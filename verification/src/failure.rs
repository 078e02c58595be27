//! What is wrong with an index, and how it is said.

use vstd::prelude::*;
use vstd::string::StringExecFns;

verus! {

/// Why an index is refused for a target of a given length.
#[derive(Clone, Copy, Debug, PartialEq, Eq, Structural)]
pub enum SliceIndexFailure {
    /// A position that is not before the end of the target.
    Index { index: usize, len: usize },
    /// A range that starts after the end of the target.
    StartIndexLen { index: usize, len: usize },
    /// A range that ends after the end of the target.
    EndIndexLen { index: usize, len: usize },
    /// A range that starts after it ends.
    IndexOrder { start: usize, end: usize },
    /// An inclusive range whose last position is the largest `usize`: its end
    /// cannot be written as a position.
    EndIndexOverflow,
}

/// The character that stands for the digit `d`.
pub open spec fn digit(d: int) -> char {
    if d == 0 {
        '0'
    } else if d == 1 {
        '1'
    } else if d == 2 {
        '2'
    } else if d == 3 {
        '3'
    } else if d == 4 {
        '4'
    } else if d == 5 {
        '5'
    } else if d == 6 {
        '6'
    } else if d == 7 {
        '7'
    } else if d == 8 {
        '8'
    } else {
        '9'
    }
}

/// The number `n` written in decimal, without leading zeros.
pub open spec fn decimal(n: nat) -> Seq<char>
    decreases n,
{
    if n < 10 {
        seq![digit(n as int)]
    } else {
        decimal(n / 10).push(digit((n % 10) as int))
    }
}

/// What `slice_start_index_len_fail` says.
pub open spec fn start_index_len_message(index: usize, len: usize) -> Seq<char> {
    "range start index "@ + decimal(index as nat) + " out of range for slice pointer of length "@
        + decimal(len as nat)
}

/// What `slice_end_index_len_fail` says.
pub open spec fn end_index_len_message(index: usize, len: usize) -> Seq<char> {
    "range end index "@ + decimal(index as nat) + " out of range for slice pointer of length "@
        + decimal(len as nat)
}

/// What `slice_index_order_fail` says.
pub open spec fn index_order_message(index: usize, end: usize) -> Seq<char> {
    "slice pointer index starts at "@ + decimal(index as nat) + " but ends at "@ + decimal(
        end as nat,
    )
}

/// What `slice_end_index_overflow_fail` says.
pub open spec fn end_index_overflow_message() -> Seq<char> {
    "attempted to index slice pointer up to maximum usize"@
}

/// What `slice_index_overflow_fail` says.
pub open spec fn index_overflow_message(index: usize, len: usize) -> Seq<char> {
    "index "@ + decimal(index as nat) + " out of range for slice pointer of length "@ + decimal(
        len as nat,
    )
}

/// The digit `d` as a string.
fn digit_str(d: usize) -> (s: &'static str)
    requires
        d < 10,
    ensures
        s@ == seq![digit(d as int)],
{
    proof {
        reveal_strlit("0");
        reveal_strlit("1");
        reveal_strlit("2");
        reveal_strlit("3");
        reveal_strlit("4");
        reveal_strlit("5");
        reveal_strlit("6");
        reveal_strlit("7");
        reveal_strlit("8");
        reveal_strlit("9");
    }
    let s = if d == 0 {
        "0"
    } else if d == 1 {
        "1"
    } else if d == 2 {
        "2"
    } else if d == 3 {
        "3"
    } else if d == 4 {
        "4"
    } else if d == 5 {
        "5"
    } else if d == 6 {
        "6"
    } else if d == 7 {
        "7"
    } else if d == 8 {
        "8"
    } else {
        "9"
    };
    assert(s@ =~= seq![digit(d as int)]);
    s
}

/// Appends `n`, written in decimal, to `text`.
fn push_decimal(text: &mut String, n: usize)
    ensures
        final(text)@ == old(text)@ + decimal(n as nat),
    decreases n,
{
    if n >= 10 {
        push_decimal(text, n / 10);
    }
    text.append(digit_str(n % 10));
    proof {
        if n >= 10 {
            assert(old(text)@ + decimal((n / 10) as nat) + seq![digit((n % 10) as int)] =~= old(
                text,
            )@ + decimal(n as nat));
        }
    }
}

/// The words for a range that starts at `index`, after the end of a target of
/// `len` elements.
pub fn slice_start_index_len_fail(index: usize, len: usize) -> (message: String)
    ensures
        message@ == start_index_len_message(index, len),
{
    let mut message = String::from_str("range start index ");
    push_decimal(&mut message, index);
    message.append(" out of range for slice pointer of length ");
    push_decimal(&mut message, len);
    message
}

/// The words for a range that ends at `index`, after the end of a target of
/// `len` elements.
pub fn slice_end_index_len_fail(index: usize, len: usize) -> (message: String)
    ensures
        message@ == end_index_len_message(index, len),
{
    let mut message = String::from_str("range end index ");
    push_decimal(&mut message, index);
    message.append(" out of range for slice pointer of length ");
    push_decimal(&mut message, len);
    message
}

/// The words for a range that starts at `index` but ends at `end`, before
/// its start.
pub fn slice_index_order_fail(index: usize, end: usize) -> (message: String)
    ensures
        message@ == index_order_message(index, end),
{
    let mut message = String::from_str("slice pointer index starts at ");
    push_decimal(&mut message, index);
    message.append(" but ends at ");
    push_decimal(&mut message, end);
    message
}

/// The words for an inclusive range whose last position is the largest
/// `usize`.
pub fn slice_end_index_overflow_fail() -> (message: String)
    ensures
        message@ == end_index_overflow_message(),
{
    String::from_str("attempted to index slice pointer up to maximum usize")
}

/// The words for the position `index`, not before the end of a target of
/// `len` elements.
pub fn slice_index_overflow_fail(index: usize, len: usize) -> (message: String)
    ensures
        message@ == index_overflow_message(index, len),
{
    let mut message = String::from_str("index ");
    push_decimal(&mut message, index);
    message.append(" out of range for slice pointer of length ");
    push_decimal(&mut message, len);
    message
}

impl SliceIndexFailure {
    /// What the failure says, for use in contracts: the words name the
    /// offending index and the length it was held against.
    pub open spec fn spec_message(self) -> Seq<char> {
        match self {
            SliceIndexFailure::Index { index, len } => index_overflow_message(index, len),
            SliceIndexFailure::StartIndexLen { index, len } => start_index_len_message(
                index,
                len,
            ),
            SliceIndexFailure::EndIndexLen { index, len } => end_index_len_message(index, len),
            SliceIndexFailure::IndexOrder { start, end } => index_order_message(start, end),
            SliceIndexFailure::EndIndexOverflow => end_index_overflow_message(),
        }
    }

    /// What the failure says.
    pub fn message(&self) -> (message: String)
        ensures
            message@ == self.spec_message(),
    {
        match *self {
            SliceIndexFailure::Index { index, len } => slice_index_overflow_fail(index, len),
            SliceIndexFailure::StartIndexLen { index, len } => slice_start_index_len_fail(
                index,
                len,
            ),
            SliceIndexFailure::EndIndexLen { index, len } => slice_end_index_len_fail(index, len),
            SliceIndexFailure::IndexOrder { start, end } => slice_index_order_fail(start, end),
            SliceIndexFailure::EndIndexOverflow => slice_end_index_overflow_fail(),
        }
    }
}

} // verus!
