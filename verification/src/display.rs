//! What the screens show, decided apart from drawing it: the text of the
//! form's input boxes, the status line, the list's title and selection, and
//! where the form's popup stands.

use vstd::prelude::*;
use crate::endpoints::{decimal, push_decimal};
use crate::text::{owned, push_str};

verus! {

/// A rectangle of terminal cells.
#[derive(Debug, Clone, Copy, PartialEq, Eq, Structural)]
pub struct Area {
    pub x: u16,
    pub y: u16,
    pub width: u16,
    pub height: u16,
}

/// Whether `a` lies inside `b`.
pub open spec fn inside(a: Area, b: Area) -> bool {
    &&& b.x <= a.x
    &&& a.x + a.width <= b.x + b.width
    &&& b.y <= a.y
    &&& a.y + a.height <= b.y + b.height
}

/// Whether `a` is a band of `b` cut along `axis`: it spans the whole of `b`
/// across the cut and lies inside it along the cut.
pub open spec fn band_of(a: Area, b: Area, axis: Axis) -> bool {
    &&& inside(a, b)
    &&& axis == Axis::Vertical ==> a.x == b.x && a.width == b.width
    &&& axis == Axis::Horizontal ==> a.y == b.y && a.height == b.height
}

/// The direction in which an area is cut into bands.
#[derive(Debug, Clone, Copy, PartialEq, Eq, Structural)]
pub enum Axis {
    /// Bands stacked top to bottom.
    Vertical,
    /// Bands side by side, left to right.
    Horizontal,
}

/// The areas into which `ratatui::layout::Layout::split` cuts `area` along
/// `axis`, one per percentage.
pub uninterp spec fn layout_split(axis: Axis, percents: Seq<u16>, area: Area) -> Seq<Area>;

/// `ratatui::layout::Layout::split` with one `Constraint::Percentage` per
/// entry of `percents`. The areas come from ratatui's constraint solver; the
/// contract names them and states what the source shows of them: there is
/// one per constraint, and each is a band of `area` (the solver's required
/// constraints keep every cut point between the two ends of `area`, and the
/// other coordinates are copied from it). The percentages must add up to at
/// most 100: then every one of them is met exactly and the solver has one
/// answer, so the areas depend on the arguments alone. Which cut points that
/// answer has is left to the name.
#[verifier::external_body]
fn split_by_percentages(axis: Axis, percents: &Vec<u16>, area: Area) -> (r: Vec<Area>)
    requires
        percent_total(percents@) <= 100,
    ensures
        r@ == layout_split(axis, percents@, area),
        r.len() == percents.len(),
        forall|i: int| 0 <= i < r.len() ==> band_of(#[trigger] r@[i], area, axis),
{
    let direction = match axis {
        Axis::Vertical => ratatui::layout::Direction::Vertical,
        Axis::Horizontal => ratatui::layout::Direction::Horizontal,
    };
    let rect = ratatui::layout::Rect { x: area.x, y: area.y, width: area.width, height: area.height };
    ratatui::layout::Layout::default()
        .direction(direction)
        .constraints(percents.iter().map(|p| ratatui::layout::Constraint::Percentage(*p)))
        .split(rect)
        .iter()
        .map(|r| Area { x: r.x, y: r.y, width: r.width, height: r.height })
        .collect()
}

/// The sum of `percents`.
pub open spec fn percent_total(percents: Seq<u16>) -> int
    decreases percents.len(),
{
    if percents.len() == 0 {
        0
    } else {
        percent_total(percents.drop_last()) + percents.last()
    }
}

/// The percentages that centre a band of `percent` percent.
pub open spec fn centring(percent: u16) -> Seq<u16> {
    seq![((100 - percent) / 2) as u16, percent, ((100 - percent) / 2) as u16]
}

/// The middle of three bands, the middle one of `percent_y` percent of the
/// height, cut again into three, the middle one of `percent_x` percent of the
/// width.
pub open spec fn spec_centered_rect(percent_x: u16, percent_y: u16, r: Area) -> Area {
    layout_split(Axis::Horizontal, centring(percent_x), layout_split(Axis::Vertical, centring(percent_y), r)[1])[1]
}

/// The centring bands take up at most the whole area.
proof fn lemma_centring_total(percent: u16)
    requires
        percent <= 100,
    ensures
        percent_total(centring(percent)) <= 100,
{
    let side = ((100 - percent) / 2) as u16;
    let c = centring(percent);
    assert(c =~= seq![side, percent, side]);
    assert(c.drop_last() =~= seq![side, percent]);
    assert(c.drop_last().drop_last() =~= seq![side]);
    assert(c.drop_last().drop_last().drop_last() =~= Seq::<u16>::empty());
    reveal_with_fuel(percent_total, 4);
    assert(percent_total(c) == side + percent + side);
}

fn centring_bands(percent: u16) -> (v: Vec<u16>)
    requires
        percent <= 100,
    ensures
        v@ == centring(percent),
        percent_total(v@) <= 100,
{
    let side: u16 = (100 - percent) / 2;
    let mut v: Vec<u16> = Vec::new();
    v.push(side);
    v.push(percent);
    v.push(side);
    assert(v@ =~= centring(percent));
    proof {
        lemma_centring_total(percent);
    }
    v
}

/// The area `percent_x` percent wide and `percent_y` percent tall in the
/// middle of `r`.
pub fn centered_rect(percent_x: u16, percent_y: u16, r: Area) -> (c: Area)
    requires
        percent_x <= 100,
        percent_y <= 100,
    ensures
        c == spec_centered_rect(percent_x, percent_y, r),
        inside(c, r),
{
    let rows = split_by_percentages(Axis::Vertical, &centring_bands(percent_y), r);
    let cols = split_by_percentages(Axis::Horizontal, &centring_bands(percent_x), rows[1]);
    cols[1]
}

/// The part of the popup `popup` that holds the form: two cells in from the
/// sides, one from the top, two from the bottom.
pub fn form_inner_area(popup: Area) -> (r: Area)
    requires
        popup.x + 2 <= u16::MAX,
        popup.y + 1 <= u16::MAX,
    ensures
        r.x == popup.x + 2,
        r.y == popup.y + 1,
        r.width == (if popup.width >= 4 { popup.width - 4 } else { 0 }),
        r.height == (if popup.height >= 3 { popup.height - 3 } else { 0 }),
{
    Area {
        x: popup.x + 2,
        y: popup.y + 1,
        width: popup.width.saturating_sub(4),
        height: popup.height.saturating_sub(3),
    }
}

/// The text of a form input box, and whether it is the dim placeholder: an
/// empty inactive field shows `(empty)`, the active field shows its text
/// followed by a block cursor.
pub open spec fn spec_input_display(value: Seq<char>, is_active: bool) -> (Seq<char>, bool) {
    if value.len() == 0 && !is_active {
        ("(empty)"@, true)
    } else if is_active {
        (value.push('█'), false)
    } else {
        (value, false)
    }
}

pub fn input_display(value: &str, is_active: bool) -> (r: (String, bool))
    ensures
        (r.0@, r.1) == spec_input_display(value@, is_active),
{
    if value.is_empty() && !is_active {
        (owned("(empty)"), true)
    } else if is_active {
        let mut t = owned(value);
        push_str(&mut t, "█");
        proof {
            reveal_strlit("█");
        }
        assert(t@ =~= value@.push('█'));
        (t, false)
    } else {
        (owned(value), false)
    }
}

/// The status line to show, `lead` before the message, and whether it
/// reports an error; `None` when the screen shows its key hints instead.
pub fn status_display(status: &Option<(String, bool)>, lead: &str) -> (r: Option<(String, bool)>)
    ensures
        status is None ==> r is None,
        status matches Some((m, e)) ==> r matches Some((t, f)) && t@ == lead@ + m@ && f == e,
{
    match status {
        Some((msg, is_error)) => {
            let mut t = owned(lead);
            push_str(&mut t, msg.as_str());
            Some((t, *is_error))
        },
        None => None,
    }
}

/// An inbox's summary, or `fallback` when it has none.
pub fn summary_display(summary: &Option<String>, fallback: &str) -> (r: String)
    ensures
        summary matches Some(s) ==> r@ == s@,
        summary is None ==> r@ == fallback@,
{
    match summary {
        Some(s) => s.clone(),
        None => owned(fallback),
    }
}

/// The title of the inbox table: ` 3 inboxes `.
pub fn inbox_count_title(count: usize) -> (r: String)
    ensures
        r@ == seq![' '] + decimal(count as nat) + " inboxes "@,
{
    let mut r = owned(" ");
    proof {
        reveal_strlit(" ");
    }
    push_decimal(&mut r, count as u64);
    push_str(&mut r, " inboxes ");
    assert(r@ =~= seq![' '] + decimal(count as nat) + " inboxes "@);
    r
}

/// The row that the table highlights: the selection, unless the list is
/// empty.
pub fn table_selection(count: usize, selected: usize) -> (r: Option<usize>)
    ensures
        count == 0 ==> r is None,
        count > 0 ==> r == Some(selected),
{
    if count == 0 {
        None
    } else {
        Some(selected)
    }
}

} // verus!
