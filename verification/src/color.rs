use vstd::prelude::*;

verus! {

/// Number of colors in the fixed lane palette.
pub const PALETTE_LEN: usize = 7;

/// The color that a lane index receives: the palette entry at the index
/// modulo the palette size, so lanes beyond the palette cycle.
pub open spec fn color_spec(index: int) -> Seq<char> {
    let i = index % (PALETTE_LEN as int);
    if i == 0 {
        "#4A9EFF"@
    } else if i == 1 {
        "#E535AB"@
    } else if i == 2 {
        "#FF9800"@
    } else if i == 3 {
        "#2196F3"@
    } else if i == 4 {
        "#9C27B0"@
    } else if i == 5 {
        "#4CAF50"@
    } else {
        "#FF5722"@
    }
}

/// Maps a lane index to its palette color. Pure: the result depends on the
/// lane index alone, so two commits on the same lane always share a color.
pub fn get_commit_color(index: usize) -> (color: String)
    ensures
        color@ == color_spec(index as int),
{
    let i = index % PALETTE_LEN;
    let lit = if i == 0 {
        "#4A9EFF"
    } else if i == 1 {
        "#E535AB"
    } else if i == 2 {
        "#FF9800"
    } else if i == 3 {
        "#2196F3"
    } else if i == 4 {
        "#9C27B0"
    } else if i == 5 {
        "#4CAF50"
    } else {
        "#FF5722"
    };
    lit.to_owned()
}

/// Colors repeat cyclically: lane indices that differ by the palette size
/// receive the same color.
pub proof fn lemma_color_period(index: int)
    requires
        index >= 0,
    ensures
        color_spec(index + PALETTE_LEN as int) == color_spec(index),
{
    assert((index + PALETTE_LEN as int) % (PALETTE_LEN as int) == index % (PALETTE_LEN as int));
}

} // verus!
