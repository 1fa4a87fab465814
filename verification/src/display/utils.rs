//! Text helpers of the renderers: colours, table rows and shortening.

use crate::display::colors;
use crate::display::DisplayOptions;
use crate::text::{
    chars_of, join, push_all, push_str, split, split_by, str_eq, string_of, to_lowercase,
    lowercase,
};
use vstd::prelude::*;
use vstd::string::StringSliceAdditionalSpecFns;
use vstd::utf8::*;

verus! {

broadcast use vstd::string::group_string_axioms;

/// The text wrapped in a colour and a reset sequence when colour is on.
pub open spec fn colorized(text: Seq<char>, color: Seq<char>, on: bool) -> Seq<char> {
    if on {
        color + text + colors::RESET@
    } else {
        text
    }
}

/// Wraps text in a colour when the options ask for colour.
pub fn colorize(text: &str, color: &str, options: &DisplayOptions) -> (r: String)
    ensures
        r@ == colorized(text@, color@, options.color),
{
    if options.color {
        let mut v = chars_of(color);
        push_str(&mut v, text);
        push_str(&mut v, colors::RESET);
        string_of(v.as_slice())
    } else {
        string_of(chars_of(text).as_slice())
    }
}

/// The colour of a service state, given the lower-cased state name.
pub open spec fn state_color(l: Seq<char>) -> Seq<char> {
    if l == "running"@ {
        colors::BRIGHT_GREEN@
    } else if l == "starting"@ || l == "stopping"@ {
        colors::YELLOW@
    } else if l == "stopped"@ {
        colors::DIM@
    } else if l == "failed"@ {
        colors::BRIGHT_RED@
    } else {
        colors::WHITE@
    }
}

/// The colour of a service state, given its lower-cased name.
pub fn lowercase_status_color(l: &str) -> (r: &'static str)
    ensures
        r@ == state_color(l@),
{
    if str_eq(l, "running") {
        colors::BRIGHT_GREEN
    } else if str_eq(l, "starting") || str_eq(l, "stopping") {
        colors::YELLOW
    } else if str_eq(l, "stopped") {
        colors::DIM
    } else if str_eq(l, "failed") {
        colors::BRIGHT_RED
    } else {
        colors::WHITE
    }
}

/// The colour of a service state name, compared without regard to case.
pub fn status_color(status: &str) -> (r: &'static str)
    ensures
        r@ == state_color(lowercase(status@)),
{
    let l = to_lowercase(status);
    lowercase_status_color(l.as_str())
}

/// `n` spaces.
pub open spec fn spaces(n: int) -> Seq<char> {
    Seq::new(n as nat, |i: int| ' ')
}

/// Text padded with spaces on the right to at least `width` characters.
pub open spec fn pad_right(s: Seq<char>, width: int) -> Seq<char> {
    if s.len() < width {
        s + spaces(width - s.len())
    } else {
        s
    }
}

/// The padded cells of a row: one per column that has a width.
pub open spec fn row_cells(columns: Seq<Seq<char>>, widths: Seq<usize>) -> Seq<Seq<char>> {
    let n = if columns.len() < widths.len() {
        columns.len()
    } else {
        widths.len()
    };
    Seq::new(n, |i: int| pad_right(columns[i], widths[i] as int))
}

/// The text of a table row: padded cells separated by two spaces, then a newline.
pub open spec fn row_text(columns: Seq<Seq<char>>, widths: Seq<usize>) -> Seq<char> {
    join(row_cells(columns, widths), "  "@) + "\n"@
}

fn push_padded(v: &mut Vec<char>, s: &[char], width: usize)
    ensures
        final(v)@ == old(v)@ + pad_right(s@, width as int),
{
    push_all(v, s);
    let mut k: usize = s.len();
    while k < width
        invariant
            s@.len() <= k || k == s@.len(),
            k <= width || k == s@.len(),
            v@ == old(v)@ + s@ + spaces(k - s@.len()),
        decreases width - k,
    {
        v.push(' ');
        k = k + 1;
        assert(v@ =~= old(v)@ + s@ + spaces(k - s@.len()));
    }
    proof {
        if s@.len() < width {
            assert(v@ =~= old(v)@ + pad_right(s@, width as int));
        } else {
            assert(spaces(0) =~= Seq::<char>::empty());
            assert(v@ =~= old(v)@ + s@);
        }
    }
}

/// The text of a table row: each column padded to its width, separated by
/// two spaces, ended by a newline.
pub fn write_table_row(columns: &Vec<String>, widths: &Vec<usize>, options: &DisplayOptions) -> (r:
    String)
    ensures
        r@ == row_text(crate::git::types::strings_view(columns@), widths@),
{
    let ghost cols = crate::git::types::strings_view(columns@);
    let n: usize = if columns.len() < widths.len() {
        columns.len()
    } else {
        widths.len()
    };
    let ghost cells = row_cells(cols, widths@);
    let mut v: Vec<char> = Vec::new();
    let mut i: usize = 0;
    while i < n
        invariant
            n == cells.len(),
            n <= columns@.len(),
            n <= widths@.len(),
            i <= n,
            cols == crate::git::types::strings_view(columns@),
            cells == row_cells(cols, widths@),
            v@ == join(cells.take(i as int), "  "@),
        decreases n - i,
    {
        let ghost before = v@;
        if i > 0 {
            push_str(&mut v, "  ");
        }
        let c = chars_of(columns[i].as_str());
        push_padded(&mut v, c.as_slice(), widths[i]);
        proof {
            let t = cells.take(i + 1);
            assert(t.drop_last() =~= cells.take(i as int));
            assert(t.last() == pad_right(cols[i as int], widths@[i as int] as int));
            if i == 0 {
                assert(v@ =~= t[0]);
            } else {
                assert(v@ =~= before + "  "@ + t.last());
            }
        }
        i = i + 1;
    }
    assert(cells.take(n as int) =~= cells);
    push_str(&mut v, "\n");
    string_of(v.as_slice())
}

/// The separator under a table header: a line of `'─'` per column, separated
/// by two spaces; nothing when colour is off.
pub open spec fn separator_text(widths: Seq<usize>, color: bool) -> Seq<char> {
    if !color {
        Seq::empty()
    } else {
        join(Seq::new(widths.len(), |i: int| Seq::new(widths[i] as nat, |j: int| '─')), "  "@)
            + "\n"@
    }
}

/// The text of the separator line under a table header.
pub fn write_table_separator(widths: &Vec<usize>, options: &DisplayOptions) -> (r: String)
    ensures
        r@ == separator_text(widths@, options.color),
{
    if !options.color {
        return String::new();
    }
    let ghost cells = Seq::new(widths@.len(), |i: int| Seq::new(widths@[i] as nat, |j: int| '─'));
    let mut v: Vec<char> = Vec::new();
    let mut i: usize = 0;
    while i < widths.len()
        invariant
            i <= widths@.len(),
            cells == Seq::new(widths@.len(), |i: int| Seq::new(widths@[i] as nat, |j: int| '─')),
            v@ == join(cells.take(i as int), "  "@),
        decreases widths@.len() - i,
    {
        let ghost before = v@;
        if i > 0 {
            push_str(&mut v, "  ");
        }
        let ghost mid = v@;
        let w = widths[i];
        let mut k: usize = 0;
        while k < w
            invariant
                k <= w,
                v@ == mid + Seq::new(k as nat, |j: int| '─'),
            decreases w - k,
        {
            v.push('─');
            k = k + 1;
            assert(v@ =~= mid + Seq::new(k as nat, |j: int| '─'));
        }
        proof {
            let t = cells.take(i + 1);
            assert(t.drop_last() =~= cells.take(i as int));
            assert(t.last() =~= Seq::new(w as nat, |j: int| '─'));
            if i == 0 {
                assert(v@ =~= t[0]);
            } else {
                assert(v@ =~= before + "  "@ + t.last());
            }
        }
        i = i + 1;
    }
    assert(cells.take(widths@.len() as int) =~= cells);
    push_str(&mut v, "\n");
    string_of(v.as_slice())
}

/// Whether a string can be cut after its first `n` bytes: byte `n` starts a character.
pub open spec fn cut_ok(s: Seq<char>, n: int) -> bool {
    is_char_boundary(encode_utf8(s), n)
}

/// The first `n` bytes of a string.
pub open spec fn byte_prefix(s: Seq<char>, n: int) -> Seq<char> {
    decode_utf8(encode_utf8(s).subrange(0, n))
}

fn prefix_bytes(s: &str, n: usize) -> (r: &str)
    requires
        n <= encode_utf8(s@).len(),
        cut_ok(s@, n as int),
    ensures
        r@ == byte_prefix(s@, n as int),
{
    let (head, _tail) = s.split_at(n);
    proof {
        encode_utf8_decode_utf8(head@);
    }
    head
}

/// A string shortened to at most `max_len` bytes: kept when it fits, else
/// `"..."` when `max_len` leaves no room, else its first `max_len - 3` bytes
/// followed by `"..."`.
pub open spec fn truncated(s: Seq<char>, max_len: int) -> Seq<char> {
    if encode_utf8(s).len() <= max_len {
        s
    } else if max_len <= 3 {
        "..."@
    } else {
        byte_prefix(s, max_len - 3) + "..."@
    }
}

/// Shortens a string to at most `max_len` bytes, marking the cut with `"..."`.
pub fn truncate_string(s: &str, max_len: usize) -> (r: String)
    requires
        encode_utf8(s@).len() > max_len > 3 ==> cut_ok(s@, max_len - 3),
    ensures
        r@ == truncated(s@, max_len as int),
{
    let n = s.as_bytes().len();
    if n <= max_len {
        string_of(chars_of(s).as_slice())
    } else if max_len <= 3 {
        string_of(chars_of("...").as_slice())
    } else {
        let head = prefix_bytes(s, max_len - 3);
        let mut v = chars_of(head);
        push_str(&mut v, "...");
        string_of(v.as_slice())
    }
}

/// The date part of an RFC 3339 timestamp: the text before the first `'T'`.
pub fn format_timestamp(timestamp: &str) -> (r: String)
    ensures
        r@ == split(timestamp@, "T"@)[0],
{
    proof {
        reveal_strlit("T");
    }
    let c = chars_of(timestamp);
    let t = chars_of("T");
    let parts = split_by(c.as_slice(), t.as_slice());
    proof {
        crate::text::lemma_split_nonempty(timestamp@, "T"@);
    }
    string_of(parts[0].as_slice())
}

/// A commit hash cut to its first 7 bytes when `short` and it is longer.
pub fn format_commit_hash(hash: &str, short: bool) -> (r: &str)
    requires
        short && encode_utf8(hash@).len() > 7 ==> cut_ok(hash@, 7),
    ensures
        r@ == (if short && encode_utf8(hash@).len() > 7 {
            byte_prefix(hash@, 7)
        } else {
            hash@
        }),
{
    if short && hash.as_bytes().len() > 7 {
        prefix_bytes(hash, 7)
    } else {
        hash
    }
}

proof fn lemma_encode_concat(a: Seq<char>, b: Seq<char>)
    ensures
        encode_utf8(a + b) == encode_utf8(a) + encode_utf8(b),
    decreases a.len(),
{
    if a.len() == 0 {
        assert(a + b =~= b);
        assert(encode_utf8(a) =~= Seq::<u8>::empty());
        assert(encode_utf8(a) + encode_utf8(b) =~= encode_utf8(b));
    } else {
        lemma_encode_concat(a.drop_first(), b);
        assert((a + b).drop_first() =~= a.drop_first() + b);
        assert((a + b)[0] == a[0]);
        assert(encode_utf8(a + b) =~= encode_utf8(a) + encode_utf8(b));
    }
}

/// A truncated string takes at most `max_len` bytes when `max_len` leaves
/// room for the `"..."` mark: what `truncate_string` returns always fits.
pub proof fn law_truncated_fits(s: Seq<char>, max_len: int)
    requires
        max_len >= 3,
        encode_utf8(s).len() > max_len ==> cut_ok(s, max_len - 3),
    ensures
        encode_utf8(truncated(s, max_len)).len() <= max_len,
{
    let dots = "..."@;
    assert(dots.len() == 3 && dots[0] == '.' && dots[1] == '.' && dots[2] == '.') by {
        reveal_strlit("...");
    }
    assert(is_ascii_chars(dots));
    is_ascii_chars_encode_utf8(dots);
    if encode_utf8(s).len() > max_len && max_len > 3 {
        let bytes = encode_utf8(s);
        let k = max_len - 3;
        encode_utf8_valid_utf8(s);
        valid_utf8_split(bytes, k);
        decode_utf8_encode_utf8(bytes.subrange(0, k));
        lemma_encode_concat(byte_prefix(s, k), dots);
    }
}

} // verus!
