use vstd::prelude::*;
use vstd::string::StrSliceExecFns;
use crate::text::count_newlines;
use crate::text::count_newlines_exec;
use crate::utils::ListItem;

verus! {

/// Extra screen rows one painted text consumes beyond its first row, as the
/// row accounting counts them: none while the length is at most the
/// viewport width (a text exactly as wide as the viewport stays on one
/// counted row); once it is longer, `length / width` rounded down — so at
/// an exact multiple of the width above one, the count is one higher than
/// the rows the text strictly needs — plus one row per embedded line break.
pub open spec fn spec_row_extra(s: Seq<char>, width: int) -> int {
    (if width > 0 && s.len() > width {
        s.len() as int / width
    } else {
        0
    }) + count_newlines(s)
}

/// The visible slice as painted: each drawn item's screen row and text, and
/// the row the highlighted item actually landed on.
pub struct PaintedList {
    pub rows: Vec<(u16, String)>,
    pub highlighted_position: u128,
}

/// The painted rows as mathematical values.
pub open spec fn rows_model(rows: Seq<(u16, String)>) -> Seq<(int, Seq<char>)> {
    rows.map_values(|p: (u16, String)| (p.0 as int, p.1@))
}

/// The painting loop, one item per step: starting at item index
/// `offset + num` with `ioff` extra rows already consumed above, it paints
/// top-down until the accumulated row count reaches `max_cursor`, skipping
/// (as blank) positions past the end of the list, and remembers the last row
/// of the item at `cursor`.
pub open spec fn spec_render_from(
    items: Seq<ListItem>,
    offset: int,
    cursor: int,
    max_cursor: int,
    width: int,
    num: int,
    ioff: int,
    rows: Seq<(int, Seq<char>)>,
    high: int,
) -> (Seq<(int, Seq<char>)>, int)
    decreases max_cursor - num,
{
    if !(0 <= num && 0 <= ioff && num + ioff < max_cursor) {
        (rows, high)
    } else if offset + num < items.len() {
        let s = items[offset + num].spec_output(num == cursor);
        let ioff2 = ioff + spec_row_extra(s, width);
        spec_render_from(
            items,
            offset,
            cursor,
            max_cursor,
            width,
            num + 1,
            ioff2,
            rows.push((num + ioff, s)),
            if num == cursor {
                num + ioff2
            } else {
                high
            },
        )
    } else {
        spec_render_from(
            items,
            offset,
            cursor,
            max_cursor,
            width,
            num + 1,
            ioff,
            rows,
            if num == cursor {
                num + ioff
            } else {
                high
            },
        )
    }
}

/// The rows `print_list` paints for the given list, scroll offset, cursor
/// and geometry.
pub open spec fn spec_render_rows(
    items: Seq<ListItem>,
    offset: int,
    cursor: int,
    max_cursor: int,
    width: int,
) -> Seq<(int, Seq<char>)> {
    spec_render_from(items, offset, cursor, max_cursor, width, 0, 0, Seq::empty(), 0).0
}

/// The row `print_list` reports the highlighted item on (0 when the item at
/// `cursor` was not drawn).
pub open spec fn spec_render_high(
    items: Seq<ListItem>,
    offset: int,
    cursor: int,
    max_cursor: int,
    width: int,
) -> int {
    spec_render_from(items, offset, cursor, max_cursor, width, 0, 0, Seq::empty(), 0).1
}

/// Paints the currently visible slice of the list: items are laid out
/// top-down from the top of the screen, each consuming one row plus
/// `spec_row_extra` for wraps and line breaks, until the accumulated rows
/// would reach `max_cursor`. Returns the painted rows and the screen row the
/// item matching `cursor_position` landed on. Identical inputs yield
/// identical output.
pub fn print_list(
    max_cursor: u16,
    max_width: u16,
    out_vec: &Vec<ListItem>,
    cursor_offset: usize,
    cursor_position: i32,
) -> (r: PaintedList)
    requires
        max_width >= 1,
    ensures
        rows_model(r.rows@) == spec_render_rows(
            out_vec@,
            cursor_offset as int,
            cursor_position as int,
            max_cursor as int,
            max_width as int,
        ),
        r.highlighted_position as int == spec_render_high(
            out_vec@,
            cursor_offset as int,
            cursor_position as int,
            max_cursor as int,
            max_width as int,
        ),
{
    let ghost gitems = out_vec@;
    let ghost goffset = cursor_offset as int;
    let ghost gcursor = cursor_position as int;
    let ghost gmax = max_cursor as int;
    let ghost gwidth = max_width as int;
    let mut rows: Vec<(u16, String)> = Vec::new();
    let mut num: u16 = 0;
    let mut internal_offset: u128 = 0;
    let mut highlighted_position: u128 = 0;
    proof {
        assert(rows_model(rows@) =~= Seq::<(int, Seq<char>)>::empty());
    }
    while (num as u128) + internal_offset < (max_cursor as u128)
        invariant
            max_width >= 1,
            num <= max_cursor,
            internal_offset < 0x1_0000_0000_0000_0000_0000,
            gitems == out_vec@,
            goffset == cursor_offset as int,
            gcursor == cursor_position as int,
            gmax == max_cursor as int,
            gwidth == max_width as int,
            spec_render_from(gitems, goffset, gcursor, gmax, gwidth, 0, 0, Seq::empty(), 0)
                == spec_render_from(
                gitems,
                goffset,
                gcursor,
                gmax,
                gwidth,
                num as int,
                internal_offset as int,
                rows_model(rows@),
                highlighted_position as int,
            ),
        decreases max_cursor - num,
    {
        let ghost prev_rows = rows_model(rows@);
        let ghost prev_ioff = internal_offset as int;
        let ghost prev_high = highlighted_position as int;
        proof {
            assert(internal_offset < 0x1_0000);
        }
        let row: u16 = num + (internal_offset as u16);
        let num_is_cursor_position = (num as i32) == cursor_position;
        if (num as usize) < out_vec.len() && cursor_offset < out_vec.len() - (num as usize) {
            let idx = cursor_offset + (num as usize);
            let item_output = out_vec[idx].get_output(num_is_cursor_position);
            let out_str_len = item_output.unicode_len();
            let num_newlines = count_newlines_exec(item_output);
            let out_str = item_output.to_owned();
            let ghost s = out_str@;
            rows.push((row, out_str));
            let wrap: usize = if out_str_len > (max_width as usize) {
                out_str_len / (max_width as usize)
            } else {
                0
            };
            internal_offset = internal_offset + (wrap as u128) + (num_newlines as u128);
            if num_is_cursor_position {
                highlighted_position = (num as u128) + internal_offset;
            }
            proof {
                crate::text::lemma_count_newlines_bounds(s);
                assert(wrap + count_newlines(s) == spec_row_extra(s, gwidth));
                assert(rows_model(rows@) =~= prev_rows.push((row as int, s)));
                assert(s == gitems[goffset + num].spec_output(num as int == gcursor));
                assert(row as int == num + prev_ioff);
                assert(internal_offset as int == prev_ioff + spec_row_extra(s, gwidth));
                assert(spec_render_from(
                    gitems,
                    goffset,
                    gcursor,
                    gmax,
                    gwidth,
                    num as int,
                    prev_ioff,
                    prev_rows,
                    prev_high,
                ) == spec_render_from(
                    gitems,
                    goffset,
                    gcursor,
                    gmax,
                    gwidth,
                    num as int + 1,
                    internal_offset as int,
                    rows_model(rows@),
                    highlighted_position as int,
                ));
            }
        } else {
            if num_is_cursor_position {
                highlighted_position = (num as u128) + internal_offset;
            }
            proof {
                assert(!(goffset + num < gitems.len()));
                assert(spec_render_from(
                    gitems,
                    goffset,
                    gcursor,
                    gmax,
                    gwidth,
                    num as int,
                    prev_ioff,
                    prev_rows,
                    prev_high,
                ) == spec_render_from(
                    gitems,
                    goffset,
                    gcursor,
                    gmax,
                    gwidth,
                    num as int + 1,
                    internal_offset as int,
                    rows_model(rows@),
                    highlighted_position as int,
                ));
            }
        }
        num = num + 1;
    }
    PaintedList { rows, highlighted_position }
}

/// Painting is deterministic: the same list, offset, cursor and geometry
/// painted twice yield the same rows and the same highlighted row.
pub proof fn lemma_render_deterministic(
    a: PaintedList,
    b: PaintedList,
    items: Seq<ListItem>,
    offset: int,
    cursor: int,
    max_cursor: int,
    width: int,
)
    requires
        rows_model(a.rows@) == spec_render_rows(items, offset, cursor, max_cursor, width),
        a.highlighted_position as int == spec_render_high(items, offset, cursor, max_cursor, width),
        rows_model(b.rows@) == spec_render_rows(items, offset, cursor, max_cursor, width),
        b.highlighted_position as int == spec_render_high(items, offset, cursor, max_cursor, width),
    ensures
        rows_model(a.rows@) == rows_model(b.rows@),
        a.highlighted_position == b.highlighted_position,
{
}

} // verus!
