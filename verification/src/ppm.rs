//! Assembly of the plain-text RGB image document: a header naming the format,
//! the pixel dimensions and the maximum channel value, followed by one line of
//! text per pixel in raster order.
use vstd::prelude::*;

use crate::color::decimal;

verus! {

/// The document header: "P3", then the width and height, then the maximum
/// channel value, with the dimensions sharing a line.
pub open spec fn header_text(width: nat, height: nat) -> Seq<char> {
    "P3\n"@ + decimal(width) + " "@ + decimal(height) + "\n255\n"@
}

/// The given lines joined by single newlines, without a trailing newline.
pub open spec fn joined_lines(lines: Seq<Seq<char>>) -> Seq<char>
    decreases lines.len(),
{
    if lines.len() == 0 {
        Seq::empty()
    } else if lines.len() == 1 {
        lines[0]
    } else {
        joined_lines(lines.drop_last()) + "\n"@ + lines.last()
    }
}

/// The whole document: the header followed by the pixel lines.
pub open spec fn document_text(width: nat, height: nat, lines: Seq<Seq<char>>) -> Seq<char> {
    header_text(width, height) + joined_lines(lines)
}

/// The document header as a string.
pub fn format_header(width: u32, height: u32) -> (s: String)
    ensures
        s@ == header_text(width as nat, height as nat),
{
    proof {
        reveal_strlit(" ");
    }
    let mut s = "P3\n".to_owned();
    s.append(crate::color::u32_decimal(width).as_str());
    s.append(" ");
    s.append(crate::color::u32_decimal(height).as_str());
    s.append("\n255\n");
    s
}

/// The whole document as a string: header, then the pixel lines joined by
/// newlines.
pub fn format_document(width: u32, height: u32, lines: &Vec<String>) -> (s: String)
    ensures
        s@ == document_text(width as nat, height as nat, lines.deep_view()),
{
    let ghost all: Seq<Seq<char>> = lines.deep_view();
    let mut s = format_header(width, height);
    let mut i: usize = 0;
    while i < lines.len()
        invariant
            i <= lines.len(),
            all == lines.deep_view(),
            all.len() == lines.len(),
            forall|k: int| 0 <= k < all.len() ==> all[k] == #[trigger] lines@[k]@,
            s@ == header_text(width as nat, height as nat) + joined_lines(all.take(i as int)),
        decreases lines.len() - i,
    {
        if i > 0 {
            s.append("\n");
        }
        s.append(lines[i].as_str());
        proof {
            let t = all.take(i + 1);
            assert(t.drop_last() =~= all.take(i as int));
            assert(t.last() == all[i as int]);
            if i == 0 {
                assert(joined_lines(t) == all[0]);
                assert(Seq::<char>::empty() + all[0] =~= all[0]);
            }
        }
        i = i + 1;
    }
    proof {
        assert(all.take(lines.len() as int) =~= all);
        if lines.len() == 0 {
            assert(s@ =~= header_text(width as nat, height as nat) + joined_lines(all));
        }
    }
    s
}

} // verus!
