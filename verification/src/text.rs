//! Text helpers: comparing, joining and padding strings by their characters.

use vstd::prelude::*;
use vstd::string::*;

verus! {

/// `count` space characters.
pub open spec fn spaces(count: nat) -> Seq<char> {
    Seq::new(count, |i: int| ' ')
}

/// `text` followed by as many spaces as it lacks to be `width` characters long.
pub open spec fn padded(text: Seq<char>, width: nat) -> Seq<char> {
    text + spaces(if text.len() < width { (width - text.len()) as nat } else { 0 })
}

/// The strings as character sequences.
pub open spec fn texts(list: Seq<String>) -> Seq<Seq<char>> {
    list.map_values(|s: String| s@)
}

/// Whether both strings consist of the same characters.
pub fn same_text(a: &str, b: &str) -> (same: bool)
    ensures
        same == (a@ == b@),
{
    a.to_owned() == b.to_owned()
}

/// `head` followed by `tail`.
pub fn joined(head: &str, tail: &str) -> (whole: String)
    ensures
        whole@ == head@ + tail@,
{
    let mut whole = head.to_owned();
    whole.append(tail);
    whole
}

/// Left-aligns `text` in a column of `width` characters. Longer text is kept
/// whole.
pub fn pad_right(text: &str, width: usize) -> (column: String)
    ensures
        column@ == padded(text@, width as nat),
{
    let mut column = text.to_owned();
    let mut length: usize = text.unicode_len();
    while length < width
        invariant
            length >= text@.len(),
            length > text@.len() ==> length <= width,
            column@ == text@ + spaces((length - text@.len()) as nat),
        decreases width - length,
    {
        proof {
            reveal_strlit(" ");
        }
        column.append(" ");
        length = length + 1;
        assert(column@ =~= text@ + spaces((length - text@.len()) as nat));
    }
    column
}

} // verus!
