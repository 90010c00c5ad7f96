use vstd::prelude::*;
use vstd::string::StrSliceExecFns;
use crate::history::entry_view;
use crate::timefmt::{dec_digits, dec_string};

verus! {

/// `n` copies of `c`.
pub open spec fn char_repeat(c: char, n: int) -> Seq<char> {
    Seq::new(if n < 0 { 0 } else { n as nat }, |i: int| c)
}

/// `s` padded with spaces on the right to at least `w` characters.
pub open spec fn pad_right_spec(s: Seq<char>, w: int) -> Seq<char> {
    if s.len() >= w {
        s
    } else {
        s + char_repeat(' ', w - s.len())
    }
}

/// `s` padded with spaces on the left to at least `w` characters.
pub open spec fn pad_left_spec(s: Seq<char>, w: int) -> Seq<char> {
    if s.len() >= w {
        s
    } else {
        char_repeat(' ', w - s.len()) + s
    }
}

/// One table line: the key left-aligned in eleven columns, the minutes
/// right-aligned in six.
pub open spec fn spec_row(key: Seq<char>, minutes: u64) -> Seq<char> {
    pad_right_spec(key, 11) + " | "@ + pad_left_spec(dec_digits(minutes as nat), 6) + "\n"@
}

/// The column headings and the rule under them.
pub open spec fn spec_table_header() -> Seq<char> {
    pad_right_spec("Date"@, 11) + " | "@ + pad_left_spec("Minutes"@, 6) + "\n"@ + char_repeat(
        '-',
        21,
    ) + "\n"@
}

/// The lines for a run of entries, in order.
pub open spec fn spec_rows(rows: Seq<(Seq<char>, u64)>) -> Seq<char>
    decreases rows.len(),
{
    if rows.len() == 0 {
        Seq::<char>::empty()
    } else {
        spec_rows(rows.drop_last()) + spec_row(rows.last().0, rows.last().1)
    }
}

/// The window of rows the scroll position exposes.
pub open spec fn visible_slice(rows: Seq<(Seq<char>, u64)>, offset: int, avail: int) -> Seq<
    (Seq<char>, u64),
> {
    let len = rows.len() as int;
    let start = if offset >= len {
        len
    } else {
        offset
    };
    let take = if avail <= len - start {
        avail
    } else {
        len - start
    };
    let take = if take < 0 {
        0
    } else {
        take
    };
    rows.subrange(start, start + take)
}

/// The whole history table: header, rule, then the visible rows.
pub open spec fn spec_table(rows: Seq<(Seq<char>, u64)>, offset: int, avail: int) -> Seq<char> {
    spec_table_header() + spec_rows(visible_slice(rows, offset, avail))
}

fn spaces(n: usize) -> (r: String)
    ensures
        r@ == char_repeat(' ', n as int),
{
    proof {
        reveal_strlit(" ");
    }
    let mut r = String::new();
    let mut i: usize = 0;
    proof {
        assert(r@ =~= char_repeat(' ', 0));
    }
    #[verifier::loop_isolation(false)]
    while i < n
        invariant
            i <= n,
            r@ == char_repeat(' ', i as int),
        decreases n - i,
    {
        r.append(" ");
        i = i + 1;
        proof {
            assert(r@ =~= char_repeat(' ', i as int));
        }
    }
    r
}

fn pad_right_str(s: &str, w: usize) -> (r: String)
    ensures
        r@ == pad_right_spec(s@, w as int),
{
    let n = s.unicode_len();
    if n >= w {
        s.to_owned()
    } else {
        let mut r = s.to_owned();
        let fill = spaces(w - n);
        r.append(fill.as_str());
        r
    }
}

fn pad_left_str(s: &str, w: usize) -> (r: String)
    ensures
        r@ == pad_left_spec(s@, w as int),
{
    let n = s.unicode_len();
    if n >= w {
        s.to_owned()
    } else {
        let mut r = spaces(w - n);
        r.append(s);
        r
    }
}

/// The history page's table as one string: headings, a rule, and the rows the
/// scroll window exposes, each key over its minutes column.
#[verifier::loop_isolation(false)]
pub fn build_history_table(rows: &Vec<(String, u64)>, offset: usize, avail: usize) -> (r: String)
    ensures
        r@ == spec_table(
            rows@.map_values(|p: (String, u64)| entry_view(p)),
            offset as int,
            avail as int,
        ),
{
    let ghost ev = |p: (String, u64)| entry_view(p);
    let ghost rv = rows@.map_values(ev);
    let ghost vis = visible_slice(rv, offset as int, avail as int);

    proof {
        reveal_strlit(" | ");
        reveal_strlit("\n");
        reveal_strlit("Date");
        reveal_strlit("Minutes");
        reveal_strlit("---------------------");
    }
    let mut out = pad_right_str("Date", 11);
    out.append(" | ");
    let heading = pad_left_str("Minutes", 6);
    out.append(heading.as_str());
    out.append("\n");
    out.append("---------------------");
    out.append("\n");
    proof {
        assert("---------------------"@ =~= char_repeat('-', 21));
        assert(out@ =~= spec_table_header());
    }

    let len = rows.len();
    let start = if offset >= len {
        len
    } else {
        offset
    };
    let take = if avail <= len - start {
        avail
    } else {
        len - start
    };
    let end = start + take;
    proof {
        assert(vis =~= rv.subrange(start as int, end as int));
    }
    let mut k = start;
    proof {
        assert(vis.take(0) =~= Seq::<(Seq<char>, u64)>::empty());
        assert(out@ =~= spec_table_header() + spec_rows(vis.take(0)));
    }
    while k < end
        invariant
            start <= k <= end,
            out@ == spec_table_header() + spec_rows(vis.take(k - start)),
        decreases end - k,
    {
        let mut row = pad_right_str(rows[k].0.as_str(), 11);
        row.append(" | ");
        let minutes = dec_string(rows[k].1);
        let minutes_padded = pad_left_str(minutes.as_str(), 6);
        row.append(minutes_padded.as_str());
        row.append("\n");
        proof {
            assert(rv[k as int] == ev(rows@[k as int]));
            assert(vis[k - start] == rv[k as int]);
            assert(row@ =~= spec_row(vis[k - start].0, vis[k - start].1));
            assert(vis.take(k - start + 1).drop_last() =~= vis.take(k - start));
            assert(vis.take(k - start + 1).last() == vis[k - start]);
            assert(spec_rows(vis.take(k - start + 1)) == spec_rows(vis.take(k - start)) + spec_row(
                vis[k - start].0,
                vis[k - start].1,
            ));
        }
        out.append(row.as_str());
        k = k + 1;
        proof {
            assert(out@ =~= spec_table_header() + spec_rows(vis.take(k - start)));
        }
    }
    proof {
        assert(vis.take(end - start) =~= vis);
    }
    out
}

/// The vertical padding that centers the three-row content block and its
/// one-row footnote in a body of `body_height` rows: the leftover split in
/// two, the odd row going below.
pub fn centered_padding(body_height: u16) -> (r: (u16, u16))
    ensures
        ({
            let rem = if body_height >= 4 {
                body_height - 4
            } else {
                0
            };
            r.0 == rem / 2 && r.1 == rem - rem / 2
        }),
{
    let rem: u16 = if body_height >= 4 {
        body_height - 4
    } else {
        0
    };
    (rem / 2, rem - rem / 2)
}

/// The row budget the history page asks of the screen: half the terminal
/// height, less the table's two heading rows.
pub fn history_min_rows(term_height: u16) -> (r: u16)
    ensures
        r == if term_height / 2 >= 2 {
            term_height / 2 - 2
        } else {
            0
        },
{
    let half = term_height / 2;
    if half >= 2 {
        half - 2
    } else {
        0
    }
}

/// How many entry rows fit in a table widget of `widget_height` rows, after
/// its two heading rows.
pub fn table_rows_available(widget_height: u16) -> (r: u16)
    ensures
        r == if widget_height >= 2 {
            widget_height - 2
        } else {
            0
        },
{
    if widget_height >= 2 {
        widget_height - 2
    } else {
        0
    }
}

/// Whether the "minutes focused today" footnote is shown: only under the
/// stopwatch or timer page, and only while that page's machine is idle.
pub fn show_focus_line(page: u8, stopwatch_running: bool, timer_running: bool) -> (r: bool)
    ensures
        r == (page != 2 && !(page == 0 && stopwatch_running) && !(page == 1 && timer_running)),
{
    page != 2 && !(page == 0 && stopwatch_running) && !(page == 1 && timer_running)
}

/// The header's page indicator.
pub fn header_label(page: u8) -> (r: &'static str)
    ensures
        page == 0 ==> r@ == "< Page 1 of 3 >"@,
        page == 1 ==> r@ == "< Page 2 of 3 >"@,
        page >= 2 ==> r@ == "< Page 3 of 3 >"@,
{
    if page == 0 {
        "< Page 1 of 3 >"
    } else if page == 1 {
        "< Page 2 of 3 >"
    } else {
        "< Page 3 of 3 >"
    }
}

/// The border title of the centered widget.
pub fn page_title(page: u8) -> (r: &'static str)
    ensures
        page == 0 ==> r@ == " Stopwatch "@,
        page == 1 ==> r@ == " Timer "@,
        page >= 2 ==> r@ == " History "@,
{
    if page == 0 {
        " Stopwatch "
    } else if page == 1 {
        " Timer "
    } else {
        " History "
    }
}

} // verus!
