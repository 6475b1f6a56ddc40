//! Human-readable renderings of the ISO-8601 timestamps that the API sends,
//! such as `2026-06-12T20:40:00.000Z`.

use vstd::prelude::*;
use vstd::utf8::{decode_utf8, encode_utf8, is_char_boundary};
use vstd::string::StringSliceAdditionalSpecFns;
use crate::text::{chars_of, owned, push_char, push_chars_from, push_str};

verus! {

/// The pieces of `s` between occurrences of `sep`, as `str::split` gives
/// them: one more piece than there are separators, empty pieces included.
pub open spec fn split_on(s: Seq<char>, sep: char) -> Seq<Seq<char>>
    decreases s.len(),
{
    if s.len() == 0 {
        seq![Seq::empty()]
    } else {
        let parts = split_on(s.drop_last(), sep);
        if s.last() == sep {
            parts.push(Seq::empty())
        } else {
            parts.update(parts.len() - 1, parts.last().push(s.last()))
        }
    }
}

/// `s` without the occurrences of `c` that it starts with.
pub open spec fn strip_leading(s: Seq<char>, c: char) -> Seq<char>
    decreases s.len(),
{
    if s.len() > 0 && s[0] == c {
        strip_leading(s.drop_first(), c)
    } else {
        s
    }
}

/// The characters whose UTF-8 encoding is the bytes `lo..hi` of that of `s`.
pub open spec fn byte_slice(s: Seq<char>, lo: int, hi: int) -> Seq<char> {
    decode_utf8(encode_utf8(s).subrange(lo, hi))
}

/// The month that a two-digit field `01` to `12` names, or 0.
pub open spec fn month_number(m: Seq<char>) -> int {
    if m.len() == 2 && m[0] == '0' && '1' <= m[1] && m[1] <= '9' {
        m[1] as int - '0' as int
    } else if m.len() == 2 && m[0] == '1' && '0' <= m[1] && m[1] <= '2' {
        10 + (m[1] as int - '0' as int)
    } else {
        0
    }
}

/// The three-letter name of month `n` (1 to 12).
pub open spec fn short_month_name(n: int) -> Seq<char> {
    if n == 1 {
        "Jan"@
    } else if n == 2 {
        "Feb"@
    } else if n == 3 {
        "Mar"@
    } else if n == 4 {
        "Apr"@
    } else if n == 5 {
        "May"@
    } else if n == 6 {
        "Jun"@
    } else if n == 7 {
        "Jul"@
    } else if n == 8 {
        "Aug"@
    } else if n == 9 {
        "Sep"@
    } else if n == 10 {
        "Oct"@
    } else if n == 11 {
        "Nov"@
    } else {
        "Dec"@
    }
}

/// The full name of month `n` (1 to 12).
pub open spec fn long_month_name(n: int) -> Seq<char> {
    if n == 1 {
        "January"@
    } else if n == 2 {
        "February"@
    } else if n == 3 {
        "March"@
    } else if n == 4 {
        "April"@
    } else if n == 5 {
        "May"@
    } else if n == 6 {
        "June"@
    } else if n == 7 {
        "July"@
    } else if n == 8 {
        "August"@
    } else if n == 9 {
        "September"@
    } else if n == 10 {
        "October"@
    } else if n == 11 {
        "November"@
    } else {
        "December"@
    }
}

/// The month field rendered by name, or as it stands when it names no month.
pub open spec fn month_text(m: Seq<char>, long: bool) -> Seq<char> {
    let n = month_number(m);
    if n == 0 {
        m
    } else if long {
        long_month_name(n)
    } else {
        short_month_name(n)
    }
}

/// `2026-06-12...` as `Jun 12, 2026`; a text whose first ten bytes are not
/// three pieces joined by `-` stays as it is.
pub open spec fn spec_format_date(s: Seq<char>) -> Seq<char> {
    if encode_utf8(s).len() >= 10 {
        let parts = split_on(byte_slice(s, 0, 10), '-');
        if parts.len() == 3 {
            month_text(parts[1], false) + seq![' '] + strip_leading(parts[2], '0') + seq![',', ' ']
                + parts[0]
        } else {
            s
        }
    } else {
        s
    }
}

/// `2026-06-12T20:40...` as `June 12, 2026 at 20:40 UTC`; a text whose first
/// ten bytes are not three pieces joined by `-` stays as it is.
pub open spec fn spec_format_datetime(s: Seq<char>) -> Seq<char> {
    if encode_utf8(s).len() >= 16 {
        let parts = split_on(byte_slice(s, 0, 10), '-');
        if parts.len() == 3 {
            month_text(parts[1], true) + seq![' '] + strip_leading(parts[2], '0') + seq![',', ' ']
                + parts[0] + " at "@ + byte_slice(s, 11, 16) + " UTC"@
        } else {
            s
        }
    } else {
        s
    }
}

/// `s` fits in memory, and the byte offsets at which `format_date` cuts it
/// are character boundaries.
pub open spec fn date_cut_ok(s: Seq<char>) -> bool {
    &&& encode_utf8(s).len() <= usize::MAX
    &&& encode_utf8(s).len() >= 10 ==> is_char_boundary(encode_utf8(s), 10)
}

/// `s` fits in memory, and the byte offsets at which `format_datetime` cuts
/// it are character boundaries.
pub open spec fn datetime_cut_ok(s: Seq<char>) -> bool {
    &&& encode_utf8(s).len() <= usize::MAX
    &&& encode_utf8(s).len() >= 16 ==> {
        &&& is_char_boundary(encode_utf8(s), 10)
        &&& is_char_boundary(encode_utf8(s), 11)
        &&& is_char_boundary(encode_utf8(s), 16)
    }
}

/// Of a timestamp whose first ten bytes are three pieces joined by `-`, the
/// date text reads those ten bytes alone, and the date-and-time text reads
/// bytes 0..10 and 11..16 alone: two such texts that agree there render
/// alike, whatever else they hold.
pub proof fn law_only_the_date_and_time_bytes_count(s: Seq<char>, t: Seq<char>)
    requires
        encode_utf8(s).len() >= 10,
        encode_utf8(t).len() >= 10,
        encode_utf8(s).subrange(0, 10) == encode_utf8(t).subrange(0, 10),
        split_on(byte_slice(s, 0, 10), '-').len() == 3,
    ensures
        spec_format_date(s) == spec_format_date(t),
        encode_utf8(s).len() >= 16 && encode_utf8(t).len() >= 16
            && encode_utf8(s).subrange(11, 16) == encode_utf8(t).subrange(11, 16)
            ==> spec_format_datetime(s) == spec_format_datetime(t),
{
    assert(byte_slice(s, 0, 10) == byte_slice(t, 0, 10));
}

/// The pieces `parts` put back together with `sep` between them.
pub open spec fn join_on(parts: Seq<Seq<char>>, sep: char) -> Seq<char>
    decreases parts.len(),
{
    if parts.len() == 0 {
        Seq::empty()
    } else if parts.len() == 1 {
        parts[0]
    } else {
        join_on(parts.drop_last(), sep).push(sep) + parts.last()
    }
}

/// Splitting on `sep` cuts `s` only at its separators: there is at least one
/// piece, no piece holds `sep`, and putting the pieces back together with
/// `sep` between them gives `s` again.
pub proof fn law_split_then_join(s: Seq<char>, sep: char)
    ensures
        split_on(s, sep).len() >= 1,
        join_on(split_on(s, sep), sep) == s,
        forall|i: int, j: int|
            0 <= i < split_on(s, sep).len() && 0 <= j < split_on(s, sep)[i].len()
                ==> #[trigger] split_on(s, sep)[i][j] != sep,
    decreases s.len(),
{
    if s.len() > 0 {
        let t = s.drop_last();
        let c = s.last();
        law_split_then_join(t, sep);
        let p = split_on(t, sep);
        let parts = split_on(s, sep);
        if c == sep {
            assert(parts.drop_last() =~= p);
            assert(join_on(parts, sep) =~= join_on(p, sep).push(sep));
            assert(t.push(sep) =~= s);
            assert forall|i: int, j: int| 0 <= i < parts.len() && 0 <= j < parts[i].len()
                implies #[trigger] parts[i][j] != sep by {
                if i < p.len() {
                    assert(parts[i] == p[i]);
                }
            }
        } else {
            let x = p.last();
            if p.len() == 1 {
                assert(join_on(parts, sep) == x.push(c));
            } else {
                assert(parts.drop_last() =~= p.drop_last());
                assert(join_on(parts, sep) =~= join_on(p, sep).push(c));
            }
            assert(t.push(c) =~= s);
            assert forall|i: int, j: int| 0 <= i < parts.len() && 0 <= j < parts[i].len()
                implies #[trigger] parts[i][j] != sep by {
                if i < p.len() - 1 {
                    assert(parts[i] == p[i]);
                } else if j < x.len() {
                    assert(parts[i][j] == x[j]);
                }
            }
        }
    }
}

/// Stripping `c` from the front removes a run of `c` at the start and
/// nothing else: what is left is the end of `s`, does not start with `c`,
/// and everything removed was `c`.
pub proof fn law_strip_leading_removes_only_the_leading_run(s: Seq<char>, c: char)
    ensures
        strip_leading(s, c).len() <= s.len(),
        strip_leading(s, c) == s.skip(s.len() - strip_leading(s, c).len()),
        forall|j: int| 0 <= j < s.len() - strip_leading(s, c).len() ==> s[j] == c,
        strip_leading(s, c).len() > 0 ==> strip_leading(s, c)[0] != c,
        s.len() > 0 && s[0] != c ==> strip_leading(s, c) == s,
    decreases s.len(),
{
    if s.len() > 0 && s[0] == c {
        let t = s.drop_first();
        law_strip_leading_removes_only_the_leading_run(t, c);
        let r = strip_leading(s, c);
        assert(r == strip_leading(t, c));
        assert(t.skip(t.len() - r.len()) =~= s.skip(s.len() - r.len()));
        assert forall|j: int| 0 <= j < s.len() - r.len() implies s[j] == c by {
            if j > 0 {
                assert(s[j] == t[j - 1]);
            }
        }
    } else {
        assert(s.skip(0) =~= s);
    }
}

/// A two-digit month field names the month that its digits read as, when
/// that is 1 to 12, and no month otherwise.
pub proof fn law_month_field_reads_as_its_number(m: Seq<char>)
    requires
        m.len() == 2,
        '0' <= m[0] <= '9',
        '0' <= m[1] <= '9',
    ensures
        1 <= crate::endpoints::digits_value(m) <= 12 ==> month_number(m) == crate::endpoints::digits_value(m),
        !(1 <= crate::endpoints::digits_value(m) <= 12) ==> month_number(m) == 0,
{
    assert(m.drop_last().drop_last() =~= Seq::<char>::empty());
    let h = m.drop_last();
    assert(h.last() == m[0]);
    assert(crate::endpoints::digits_value(h.drop_last()) == 0);
    assert(crate::endpoints::digits_value(h) == crate::endpoints::digits_value(h.drop_last()) * 10 + (h.last() as int
        - '0' as int));
    assert(crate::endpoints::digits_value(m) == crate::endpoints::digits_value(h) * 10 + (m.last() as int
        - '0' as int));
}

/// The three-letter month is the start of the full month name.
pub proof fn law_short_month_starts_long_month(n: int)
    requires
        1 <= n <= 12,
    ensures
        short_month_name(n) == long_month_name(n).take(3),
{
    reveal_strlit("Jan");
    reveal_strlit("January");
    reveal_strlit("Feb");
    reveal_strlit("February");
    reveal_strlit("Mar");
    reveal_strlit("March");
    reveal_strlit("Apr");
    reveal_strlit("April");
    reveal_strlit("May");
    reveal_strlit("Jun");
    reveal_strlit("June");
    reveal_strlit("Jul");
    reveal_strlit("July");
    reveal_strlit("Aug");
    reveal_strlit("August");
    reveal_strlit("Sep");
    reveal_strlit("September");
    reveal_strlit("Oct");
    reveal_strlit("October");
    reveal_strlit("Nov");
    reveal_strlit("November");
    reveal_strlit("Dec");
    reveal_strlit("December");
    assert(short_month_name(n) =~= long_month_name(n).take(3));
}

/// A day field without a leading zero, such as `10`, `20` or `30`, appears in
/// the short date exactly as it stands, between the month and the year.
pub proof fn law_day_without_leading_zero_is_kept(s: Seq<char>)
    requires
        encode_utf8(s).len() >= 10,
        split_on(byte_slice(s, 0, 10), '-').len() == 3,
        split_on(byte_slice(s, 0, 10), '-')[2].len() > 0,
        split_on(byte_slice(s, 0, 10), '-')[2][0] != '0',
    ensures
        ({
            let parts = split_on(byte_slice(s, 0, 10), '-');
            spec_format_date(s) == month_text(parts[1], false) + seq![' '] + parts[2] + seq![',', ' ']
                + parts[0]
        }),
{
    let parts = split_on(byte_slice(s, 0, 10), '-');
    law_strip_leading_removes_only_the_leading_run(parts[2], '0');
}

/// The short date and the date-and-time text of one timestamp show the same
/// day and year: after the month name they agree, and the latter goes on with
/// the time.
pub proof fn law_short_and_long_dates_agree(s: Seq<char>)
    requires
        encode_utf8(s).len() >= 16,
        split_on(byte_slice(s, 0, 10), '-').len() == 3,
    ensures
        ({
            let parts = split_on(byte_slice(s, 0, 10), '-');
            let short = month_text(parts[1], false);
            &&& spec_format_date(s).len() >= short.len()
            &&& spec_format_date(s).take(short.len() as int) == short
            &&& spec_format_datetime(s) == month_text(parts[1], true) + spec_format_date(s).skip(
                short.len() as int,
            ) + " at "@ + byte_slice(s, 11, 16) + " UTC"@
        }),
{
    let parts = split_on(byte_slice(s, 0, 10), '-');
    let short = month_text(parts[1], false);
    let rest = seq![' '] + strip_leading(parts[2], '0') + seq![',', ' '] + parts[0];
    assert(spec_format_date(s) =~= short + rest);
    assert((short + rest).skip(short.len() as int) =~= rest);
    assert((short + rest).take(short.len() as int) =~= short);
    assert(spec_format_datetime(s) =~= month_text(parts[1], true) + rest + " at "@ + byte_slice(s, 11, 16)
        + " UTC"@);
}

/// The pieces of `v` between occurrences of `sep`.
pub fn split_chars(v: &Vec<char>, sep: char) -> (parts: Vec<Vec<char>>)
    ensures
        parts.deep_view() == split_on(v@, sep),
{
    let mut done: Vec<Vec<char>> = Vec::new();
    let mut cur: Vec<char> = Vec::new();
    let mut i: usize = 0;
    assert(v@.take(0) =~= Seq::<char>::empty());
    assert(done.deep_view().push(cur@) =~= split_on(v@.take(0), sep));
    while i < v.len()
        invariant
            i <= v.len(),
            done.deep_view().push(cur@) =~= split_on(v@.take(i as int), sep),
        decreases v.len() - i,
    {
        let c = v[i];
        let ghost before = done.deep_view().push(cur@);
        assert(v@.take(i + 1).drop_last() =~= v@.take(i as int));
        assert(v@.take(i + 1).last() == c);
        let ghost done0 = done.deep_view();
        if c == sep {
            assert(cur.deep_view() =~= cur@);
            done.push(cur);
            assert(done.deep_view() =~= done0.push(before.last()));
            cur = Vec::new();
            assert(done.deep_view().push(cur@) =~= before.push(Seq::empty()));
        } else {
            cur.push(c);
            assert(done.deep_view().push(cur@) =~= before.update(
                before.len() - 1,
                before.last().push(c),
            ));
        }
        i = i + 1;
    }
    assert(v@.take(v.len() as int) =~= v@);
    let ghost done0 = done.deep_view();
    let ghost last = cur@;
    assert(cur.deep_view() =~= cur@);
    done.push(cur);
    assert(done.deep_view() =~= done0.push(last));
    done
}

proof fn lemma_strip_leading_skip(s: Seq<char>, c: char, k: int)
    requires
        0 <= k <= s.len(),
        forall|j: int| 0 <= j < k ==> s[j] == c,
    ensures
        strip_leading(s, c) == strip_leading(s.skip(k), c),
    decreases k,
{
    if k > 0 {
        lemma_strip_leading_skip(s, c, k - 1);
        let t = s.skip(k - 1);
        assert(t.len() > 0 && t[0] == s[k - 1]);
        assert(t.drop_first() =~= s.skip(k));
        assert(strip_leading(t, c) == strip_leading(t.drop_first(), c));
    } else {
        assert(s.skip(0) =~= s);
    }
}

/// Appends `v` without the occurrences of `c` that it starts with.
fn push_stripped(out: &mut String, v: &Vec<char>, c: char)
    ensures
        final(out)@ == old(out)@ + strip_leading(v@, c),
{
    let mut k: usize = 0;
    while k < v.len() && v[k] == c
        invariant
            k <= v.len(),
            forall|j: int| 0 <= j < k ==> v@[j] == c,
        decreases v.len() - k,
    {
        k = k + 1;
    }
    proof {
        lemma_strip_leading_skip(v@, c, k as int);
    }
    push_chars_from(out, v, k);
}

/// The number of the month that `m` names (1 to 12), or 0.
fn month_of(m: &Vec<char>) -> (n: u8)
    ensures
        n == month_number(m@),
{
    if m.len() == 2 && m[0] == '0' && '1' <= m[1] && m[1] <= '9' {
        (m[1] as u32 - '0' as u32) as u8
    } else if m.len() == 2 && m[0] == '1' && '0' <= m[1] && m[1] <= '2' {
        (10 + (m[1] as u32 - '0' as u32)) as u8
    } else {
        0
    }
}

/// Appends the name of the month that `m` names, or `m` itself.
fn push_month(out: &mut String, m: &Vec<char>, long: bool)
    ensures
        final(out)@ == old(out)@ + month_text(m@, long),
{
    let n = month_of(m);
    if n == 0 {
        push_chars_from(out, m, 0);
        assert(m@.skip(0) =~= m@);
    } else if long {
        let name = match n {
            1 => "January",
            2 => "February",
            3 => "March",
            4 => "April",
            5 => "May",
            6 => "June",
            7 => "July",
            8 => "August",
            9 => "September",
            10 => "October",
            11 => "November",
            _ => "December",
        };
        push_str(out, name);
    } else {
        let name = match n {
            1 => "Jan",
            2 => "Feb",
            3 => "Mar",
            4 => "Apr",
            5 => "May",
            6 => "Jun",
            7 => "Jul",
            8 => "Aug",
            9 => "Sep",
            10 => "Oct",
            11 => "Nov",
            _ => "Dec",
        };
        push_str(out, name);
    }
}


/// The first `n` bytes of `s`, as a string slice.
fn byte_prefix(s: &str, n: usize) -> (r: &str)
    requires
        is_char_boundary(s.spec_bytes(), n as int),
    ensures
        r@ == byte_slice(s@, 0, n as int),
{
    broadcast use vstd::utf8::encode_utf8_decode_utf8;
    let (head, _) = s.split_at(n);
    assert(decode_utf8(encode_utf8(head@)) == head@);
    head
}

/// The bytes `lo..lo + n` of `s`, as a string slice.
fn byte_window(s: &str, lo: usize, n: usize) -> (r: &str)
    requires
        lo + n <= s.spec_bytes().len(),
        is_char_boundary(s.spec_bytes(), lo as int),
        is_char_boundary(s.spec_bytes(), lo + n),
    ensures
        r@ == byte_slice(s@, lo as int, lo + n),
{
    broadcast use vstd::utf8::encode_utf8_decode_utf8, vstd::utf8::encode_utf8_valid_utf8;
    let ghost bytes = s.spec_bytes();
    let (_, rest) = s.split_at(lo);
    let ghost rb = rest.spec_bytes();
    assert(rb =~= bytes.subrange(lo as int, bytes.len() as int));
    proof {
        assert(vstd::utf8::valid_utf8(encode_utf8(rest@)));
        assert(vstd::utf8::valid_utf8(encode_utf8(s@)));
        if lo + n == bytes.len() {
            vstd::utf8::is_char_boundary_start_end_of_seq(rb);
        } else {
            vstd::utf8::is_char_boundary_iff_not_is_continuation_byte(bytes, lo + n);
            vstd::utf8::is_char_boundary_iff_not_is_continuation_byte(rb, n as int);
            assert(rb[n as int] == bytes[lo + n]);
        }
    }
    let (w, _) = rest.split_at(n);
    assert(w.spec_bytes() =~= bytes.subrange(lo as int, lo + n));
    assert(decode_utf8(encode_utf8(w@)) == w@);
    w
}

/// Appends `month day, year` for the pieces `year`, `month`, `day`.
fn push_date(out: &mut String, parts: &Vec<Vec<char>>, long: bool)
    requires
        parts.len() == 3,
    ensures
        final(out)@ == old(out)@ + month_text(parts.deep_view()[1], long) + seq![' ']
            + strip_leading(parts.deep_view()[2], '0') + seq![',', ' '] + parts.deep_view()[0],
{
    assert(parts.deep_view()[0] =~= parts[0]@);
    assert(parts.deep_view()[1] =~= parts[1]@);
    assert(parts.deep_view()[2] =~= parts[2]@);
    push_month(out, &parts[1], long);
    push_char(out, ' ');
    push_stripped(out, &parts[2], '0');
    push_char(out, ',');
    push_char(out, ' ');
    push_chars_from(out, &parts[0], 0);
    assert(parts[0]@.skip(0) =~= parts[0]@);
    assert(final(out)@ =~= old(out)@ + month_text(parts.deep_view()[1], long) + seq![' ']
            + strip_leading(parts.deep_view()[2], '0') + seq![',', ' '] + parts.deep_view()[0]);
}

/// Renders a timestamp such as `2026-06-12T20:40:00.000Z` as `Jun 12, 2026`;
/// other text comes back as it is.
pub fn format_date(s: &str) -> (r: String)
    requires
        date_cut_ok(s@),
    ensures
        r@ == spec_format_date(s@),
{
    if s.len() >= 10 {
        let date = byte_prefix(s, 10);
        let parts = split_chars(&chars_of(date), '-');
        assert(parts.deep_view().len() == parts.len());
        if parts.len() == 3 {
            let mut out = String::new();
            push_date(&mut out, &parts, false);
            return out;
        }
    }
    owned(s)
}

/// Renders a timestamp such as `2026-06-12T20:40:00.000Z` as
/// `June 12, 2026 at 20:40 UTC`; other text comes back as it is.
pub fn format_datetime(s: &str) -> (r: String)
    requires
        datetime_cut_ok(s@),
    ensures
        r@ == spec_format_datetime(s@),
{
    if s.len() >= 16 {
        let date = byte_prefix(s, 10);
        let time = byte_window(s, 11, 5);
        let parts = split_chars(&chars_of(date), '-');
        assert(parts.deep_view().len() == parts.len());
        if parts.len() == 3 {
            let mut out = String::new();
            push_date(&mut out, &parts, true);
            push_str(&mut out, " at ");
            push_str(&mut out, time);
            push_str(&mut out, " UTC");
            return out;
        }
    }
    owned(s)
}

} // verus!
