use crate::matrix::Matrix;
use core::fmt::Display;
use vstd::prelude::*;
use vstd::string::{to_string_from_display_ensures, StringExecFns};

verus! {

/// What follows the element at index `i` of a matrix of `cols` columns: a
/// line feed after the last element of a row, a space after any other.
pub open spec fn separator(i: int, cols: nat) -> Seq<char> {
    if i % (cols as int) == cols - 1 {
        seq!['\n']
    } else {
        seq![' ']
    }
}

/// The text of a matrix of `cols` columns whose elements read as `texts`, in
/// row-major order: each element's text, followed by its separator.
pub open spec fn layout(texts: Seq<Seq<char>>, cols: nat) -> Seq<char>
    decreases texts.len(),
{
    if texts.len() == 0 {
        Seq::empty()
    } else {
        layout(texts.drop_last(), cols) + texts.last() + separator(texts.len() - 1, cols)
    }
}

/// The characters of each of `texts`.
pub open spec fn characters(texts: Seq<String>) -> Seq<Seq<char>> {
    texts.map_values(|s: String| s@)
}

/// `texts` holds, for each of `cells` in turn, a text that the element's own
/// `Display` form can give.
pub open spec fn renders<T: Display>(cells: Seq<T>, texts: Seq<String>) -> bool {
    &&& texts.len() == cells.len()
    &&& forall|i: int|
        0 <= i < cells.len() ==> #[trigger] to_string_from_display_ensures::<T>(
            &cells[i],
            texts[i],
        )
}

/// Lays out the texts of the elements of a matrix of `cols` columns: one
/// line for each row, a single space between the elements of a row, and a
/// line feed at the end of each row.
pub fn lay_out(texts: &Vec<String>, cols: usize) -> (out: String)
    requires
        cols > 0 || texts@.len() == 0,
    ensures
        out@ == layout(characters(texts@), cols as nat),
{
    let mut out = String::new();
    let mut i: usize = 0;
    while i < texts.len()
        invariant
            i <= texts.len(),
            cols > 0 || texts@.len() == 0,
            out@ == layout(characters(texts@.take(i as int)), cols as nat),
        decreases texts.len() - i,
    {
        proof {
            reveal_strlit("\n");
            reveal_strlit(" ");
            let before = characters(texts@.take(i as int));
            let now = characters(texts@.take(i + 1));
            assert(now.drop_last() =~= before);
            assert(now.last() == texts@[i as int]@);
        }
        out.append(texts[i].as_str());
        if i % cols == cols - 1 {
            out.append("\n");
        } else {
            out.append(" ");
        }
        i += 1;
    }
    assert(texts@.take(i as int) =~= texts@);
    out
}

impl<T: Display> Matrix<T> {
    /// The matrix as text: each element in its own `Display` form, laid out
    /// by `lay_out`.
    pub fn to_string(&self) -> (out: String)
        requires
            self@.cols > 0 || self@.cells.len() == 0,
        ensures
            exists|texts: Seq<String>|
                renders(self@.cells, texts) && out@ == layout(characters(texts), self@.cols),
    {
        let (_, cols) = self.size();
        let cells = self.data();
        let mut texts: Vec<String> = Vec::new();
        let mut i: usize = 0;
        while i < cells.len()
            invariant
                i <= cells.len(),
                renders(cells@.take(i as int), texts@),
            decreases cells.len() - i,
        {
            let text = cells[i].to_string();
            texts.push(text);
            i += 1;
        }
        assert(cells@.take(i as int) =~= cells@);
        lay_out(&texts, cols)
    }
}

} // verus!
