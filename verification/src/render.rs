//! Composing the widget's content rows.
//!
//! The track row is painted in a fixed overlay order: background
//! activity glyphs, the now marker, the scrub marker (unless it shares
//! the now marker's column), the daylight-saving markers, and the date
//! labels; a second row carries the time caption.  Each pass is a pure
//! function of the row before it, so the final rows are pinned down by
//! composing the passes.

use crate::clock::{
    local_day_number, local_hour_of_day, local_minute_of_hour, local_weekday, spec_day_number,
    spec_hour_of_day, spec_minute_of_hour, spec_weekday,
};
use crate::config::ThemeColor;
use crate::text::{
    append_chars, caption, caption_chars, date_label, date_label_chars, offset_chars, offset_label,
    push_char,
};
use crate::timeline::{
    spec_scan, spec_time_to_position, DstTransition, TimelineWidget, TimezoneDisplayMode,
};
use crate::zone::{civil_date_of, civil_from_day_number, local_unique_of, resolve_local,
    utc_offset_at, zone_offset_of};
use vstd::prelude::*;

verus! {

/// One character cell of the content grid: a glyph and optional
/// foreground and background color overrides.
#[derive(Debug, Clone, Copy, PartialEq)]
pub struct Cell {
    pub ch: char,
    pub fg: Option<ThemeColor>,
    pub bg: Option<ThemeColor>,
}

/// A cell value, named so that every spec builds cells the same way.
pub open spec fn spec_cell(ch: char, fg: Option<ThemeColor>, bg: Option<ThemeColor>) -> Cell {
    Cell { ch, fg, bg }
}

/// A row of blank cells.
pub open spec fn spec_blank_row(width: int) -> Seq<Cell> {
    Seq::new(width as nat, |i: int| spec_cell(' ', None, None))
}

/// The row with a marker glyph and foreground color written over column
/// `i`, the cell's background kept; the row unchanged where `i` is off
/// the track.
pub open spec fn spec_mark(row: Seq<Cell>, i: int, ch: char, color: ThemeColor) -> Seq<Cell> {
    if 0 <= i < row.len() {
        row.update(i, spec_cell(ch, Some(color), row[i].bg))
    } else {
        row
    }
}

/// The row with label text written from column `start` on, white on
/// dark gray, truncated at the row's end.
pub open spec fn spec_paint_label(row: Seq<Cell>, start: int, text: Seq<char>) -> Seq<Cell> {
    Seq::new(
        row.len(),
        |i: int|
            if start <= i < start + text.len() {
                spec_cell(text[i - start], Some(ThemeColor::White), Some(ThemeColor::DarkGray))
            } else {
                row[i]
            },
    )
}

/// The row with plain text written from column `start` on, each cell's
/// colors kept, truncated at the row's end.
pub open spec fn spec_paint_plain(row: Seq<Cell>, start: int, text: Seq<char>) -> Seq<Cell> {
    Seq::new(
        row.len(),
        |i: int|
            if start <= i < start + text.len() {
                spec_cell(text[i - start], row[i].fg, row[i].bg)
            } else {
                row[i]
            },
    )
}

/// Start column of a label of length `l` centered on column `c` in a
/// track of `width` columns: centered by half the length, floored at
/// zero, then pulled left so the label ends on the track whenever it
/// fits.
pub open spec fn spec_label_start(c: int, l: int, width: int) -> int {
    let half = l / 2;
    let s = if c >= half {
        c - half
    } else {
        0
    };
    let cap = if l >= width {
        0
    } else {
        width - l
    };
    if s > cap {
        cap
    } else {
        s
    }
}

/// Computes the start column of a centered, clamped label.
pub fn label_start(c: u16, l: u16, width: u16) -> (r: u16)
    ensures
        r as int == spec_label_start(c as int, l as int, width as int),
{
    let half: u16 = l / 2;
    let s: u16 = if c >= half {
        c - half
    } else {
        0
    };
    let cap: u16 = if l >= width {
        0
    } else {
        width - l
    };
    if s > cap {
        cap
    } else {
        s
    }
}

/// A label that fits on the track never starts before column 0 and
/// never extends past column `width - 1`.
pub proof fn lemma_label_fits(c: int, l: int, width: int)
    requires
        0 <= c,
        1 <= l <= width,
    ensures
        0 <= spec_label_start(c, l, width),
        spec_label_start(c, l, width) + l <= width,
{
}

/// Marker glyph and color of a daylight-saving transition kind.
pub open spec fn spec_dst_glyph(tr: DstTransition) -> (char, ThemeColor) {
    match tr {
        DstTransition::SpringForward => ('\u{21c8}', ThemeColor::Green),
        DstTransition::FallBack => ('\u{21ca}', ThemeColor::Yellow),
    }
}

/// The row after the markers of all transitions in `ts` are written, in
/// order, each at the column its instant maps to.
pub open spec fn spec_paint_dst(
    row: Seq<Cell>,
    ts: Seq<(int, DstTransition)>,
    pos: int,
    width: int,
) -> Seq<Cell>
    decreases ts.len(),
{
    if ts.len() == 0 {
        row
    } else {
        let col = spec_time_to_position(pos, ts[0].0, width);
        let glyph = spec_dst_glyph(ts[0].1);
        spec_paint_dst(spec_mark(row, col, glyph.0, glyph.1), ts.drop_first(), pos, width)
    }
}

/// Builds one cell value.
fn make_cell(ch: char, fg: Option<ThemeColor>, bg: Option<ThemeColor>) -> (c: Cell)
    ensures
        c == spec_cell(ch, fg, bg),
{
    Cell { ch, fg, bg }
}

/// Reads one cell of a row.
fn cell_at(v: &Vec<Cell>, i: usize) -> (c: Cell)
    requires
        i < v@.len(),
    ensures
        c == v@[i as int],
{
    v[i]
}

/// Writes a marker cell over one column, keeping its background.
fn mark_cell(row: &mut Vec<Cell>, i: u16, ch: char, color: ThemeColor)
    ensures
        final(row)@ == spec_mark(old(row)@, i as int, ch, color),
{
    if (i as usize) < row.len() {
        let bg = row[i as usize].bg;
        let cell = make_cell(ch, Some(color), bg);
        row.set(i as usize, cell);
    }
}

/// Writes label text over the row, white on dark gray.
fn paint_label_cells(row: Vec<Cell>, start: u16, text: &Vec<char>) -> (r: Vec<Cell>)
    requires
        text@.len() <= 65536,
    ensures
        r@ == spec_paint_label(row@, start as int, text@),
{
    let n = row.len();
    let tn = text.len();
    let mut out: Vec<Cell> = Vec::new();
    let mut i: usize = 0;
    while i < n
        invariant
            n == row@.len(),
            tn == text@.len(),
            tn <= 65536,
            0 <= i <= n,
            out@.len() == i as int,
            forall|j: int|
                0 <= j < i as int ==> out@[j] == spec_paint_label(row@, start as int, text@)[j],
        decreases n - i,
    {
        if start as usize <= i && i < start as usize + tn {
            let c: char = text[i - start as usize];
            out.push(make_cell(c, Some(ThemeColor::White), Some(ThemeColor::DarkGray)));
        } else {
            out.push(cell_at(&row, i));
        }
        i = i + 1;
    }
    proof {
        assert(out@ =~= spec_paint_label(row@, start as int, text@));
    }
    out
}

/// Writes plain text over the row, keeping each cell's colors.
fn paint_plain_cells(row: Vec<Cell>, start: u16, text: &Vec<char>) -> (r: Vec<Cell>)
    requires
        text@.len() <= 65536,
    ensures
        r@ == spec_paint_plain(row@, start as int, text@),
{
    let n = row.len();
    let tn = text.len();
    let mut out: Vec<Cell> = Vec::new();
    let mut i: usize = 0;
    while i < n
        invariant
            n == row@.len(),
            tn == text@.len(),
            tn <= 65536,
            0 <= i <= n,
            out@.len() == i as int,
            forall|j: int|
                0 <= j < i as int ==> out@[j] == spec_paint_plain(row@, start as int, text@)[j],
        decreases n - i,
    {
        if start as usize <= i && i < start as usize + tn {
            let c: char = text[i - start as usize];
            let prev = cell_at(&row, i);
            out.push(make_cell(c, prev.fg, prev.bg));
        } else {
            out.push(cell_at(&row, i));
        }
        i = i + 1;
    }
    proof {
        assert(out@ =~= spec_paint_plain(row@, start as int, text@));
    }
    out
}

impl<'a> TimelineWidget<'a> {
    /// Hour at the middle of the configured work hours, where each date
    /// label is anchored.
    pub open spec fn spec_mid_hour(self) -> int {
        (self.time_config.work_hours_start + self.time_config.work_hours_end) / 2
    }

    /// The background of the track: each column's activity glyph and
    /// color over no background color.
    pub open spec fn spec_background(self, width: int) -> Seq<Cell> {
        Seq::new(
            width as nat,
            |i: int|
                {
                    let g = self.spec_display_at(width, i);
                    spec_cell(g.0, Some(g.1), None)
                },
        )
    }

    /// Column of the now marker.
    pub open spec fn spec_now_col(self, width: int) -> int {
        spec_time_to_position(self.timeline_position as int, self.current_time as int, width)
    }

    /// Column of the scrub marker.
    pub open spec fn spec_scrub_col(self, width: int) -> int {
        spec_time_to_position(self.timeline_position as int, self.timeline_position as int, width)
    }

    /// The track after both markers: the now marker always, the scrub
    /// marker only where its column differs from the now marker's.
    pub open spec fn spec_marked_row(self, width: int) -> Seq<Cell> {
        let with_now = spec_mark(
            self.spec_background(width),
            self.spec_now_col(width),
            '\u{2502}',
            self.color_theme.now_marker,
        );
        if self.spec_scrub_col(width) != self.spec_now_col(width) {
            spec_mark(
                with_now,
                self.spec_scrub_col(width),
                '\u{2503}',
                self.color_theme.scrub_marker,
            )
        } else {
            with_now
        }
    }

    /// First calendar day of the window in the zone's local time.
    pub open spec fn spec_day_start(self) -> int {
        let t = self.timeline_position - 86400;
        spec_day_number(t + zone_offset_of(self.timezone.tz, t))
    }

    /// Last calendar day of the window in the zone's local time.
    pub open spec fn spec_day_end(self) -> int {
        let t = self.timeline_position + 86400;
        spec_day_number(t + zone_offset_of(self.timezone.tz, t))
    }

    /// The row after one day's date label: the label of the day's
    /// calendar date, anchored at the column of the middle of that day's
    /// work hours, or the row unchanged where that wall-clock reading
    /// does not resolve to a unique instant.
    pub open spec fn spec_paint_one_date(self, row: Seq<Cell>, width: int, day: int) -> Seq<Cell> {
        let date = civil_date_of(day);
        match local_unique_of(self.timezone.tz, date.0, date.1, date.2, self.spec_mid_hour()) {
            None => row,
            Some(t) => {
                let col = spec_time_to_position(self.timeline_position as int, t, width);
                let text = date_label(date.2, date.1);
                spec_paint_label(row, spec_label_start(col, 6, width), text)
            },
        }
    }

    /// The row after the date labels of all days from `day` through
    /// `day_end`, painted in calendar order.
    pub open spec fn spec_paint_dates(self, row: Seq<Cell>, width: int, day: int, day_end: int) -> Seq<
        Cell,
    >
        decreases day_end + 1 - day,
    {
        if day > day_end {
            row
        } else {
            self.spec_paint_dates(
                self.spec_paint_one_date(row, width, day),
                width,
                day + 1,
                day_end,
            )
        }
    }

    /// The finished track row: background, markers, then the
    /// daylight-saving markers where enabled, then the date labels where
    /// enabled.
    pub open spec fn spec_timeline_row(self, width: int) -> Seq<Cell> {
        let marked = self.spec_marked_row(width);
        let with_dst = if self.show_dst {
            spec_paint_dst(
                marked,
                spec_scan(self.timezone.tz, self.timeline_position as int),
                self.timeline_position as int,
                width,
            )
        } else {
            marked
        };
        if self.show_date {
            self.spec_paint_dates(with_dst, width, self.spec_day_start(), self.spec_day_end())
        } else {
            with_dst
        }
    }

    /// The caption row: the scrub instant's local time, centered under
    /// the scrub column on a blank row.
    pub open spec fn spec_caption_row(self, width: int) -> Seq<Cell> {
        let u = self.timeline_position + zone_offset_of(
            self.timezone.tz,
            self.timeline_position as int,
        );
        let text = caption(
            self.display_format,
            spec_hour_of_day(u),
            spec_minute_of_hour(u),
            spec_weekday(u),
        );
        spec_paint_plain(
            spec_blank_row(width),
            spec_label_start(self.spec_scrub_col(width), text.len() as int, width),
            text,
        )
    }

    /// The widget's title: the zone's short name and its UTC offset at
    /// the scrub instant, or the zone's full display name.
    pub open spec fn spec_title(self) -> Seq<char> {
        match self.timezone_display_mode {
            TimezoneDisplayMode::Short => self.timezone.display_name@ + seq![' '] + offset_label(
                zone_offset_of(self.timezone.tz, self.timeline_position as int),
            ),
            TimezoneDisplayMode::Full => self.timezone.full_display_name@,
        }
    }

    /// Builds the widget's title text.
    pub fn title(&self) -> (r: String)
        requires
            self.wf(),
        ensures
            r@ == self.spec_title(),
    {
        match self.timezone_display_mode {
            TimezoneDisplayMode::Short => {
                let mut s = self.timezone.display_name.clone();
                push_char(&mut s, ' ');
                let off = utc_offset_at(&self.timezone.tz, self.timeline_position);
                let oc = offset_chars(off);
                append_chars(&mut s, &oc);
                proof {
                    assert(s@ =~= self.spec_title());
                }
                s
            },
            TimezoneDisplayMode::Full => self.timezone.full_display_name.clone(),
        }
    }

    /// Renders the widget's content rows for an inner area of the given
    /// width and height: nothing for a track of fewer than two columns,
    /// else the track row, and below it the caption row where a second
    /// row fits.
    pub fn render_content(&self, width: u16, height: u16) -> (rows: Vec<Vec<Cell>>)
        requires
            self.wf(),
            height >= 1,
        ensures
            width < 2 ==> rows@.len() == 0,
            width >= 2 ==> rows@.len() == (if height > 1 {
                2int
            } else {
                1int
            }),
            width >= 2 ==> rows@[0]@ == self.spec_timeline_row(width as int),
            width >= 2 && height > 1 ==> rows@[1]@ == self.spec_caption_row(width as int),
    {
        if width < 2 {
            return Vec::new();
        }
        let ghost tz = self.timezone.tz;
        let ghost posi = self.timeline_position as int;

        // Background pass.
        let display = self.get_timeline_display(width);
        let mut row: Vec<Cell> = Vec::new();
        let mut i: usize = 0;
        while i < display.len()
            invariant
                self.wf(),
                display@.len() == width as int,
                forall|j: int|
                    0 <= j < width as int ==> display@[j] == self.spec_display_at(
                        width as int,
                        j,
                    ),
                0 <= i <= width as int,
                row@.len() == i as int,
                forall|j: int|
                    0 <= j < i as int ==> row@[j] == self.spec_background(width as int)[j],
            decreases display@.len() - i,
        {
            let g = display[i];
            row.push(make_cell(g.0, Some(g.1), None));
            i = i + 1;
        }
        proof {
            assert(row@ =~= self.spec_background(width as int));
        }

        // Now marker, then scrub marker unless it lands on the same column.
        let now_pos = self.time_to_position(self.current_time, width);
        mark_cell(&mut row, now_pos, '\u{2502}', self.color_theme.get_current_time_color());
        let timeline_pos = self.time_to_position(self.timeline_position, width);
        if timeline_pos != now_pos {
            mark_cell(
                &mut row,
                timeline_pos,
                '\u{2503}',
                self.color_theme.get_timeline_position_color(),
            );
        }
        proof {
            assert(row@ == self.spec_marked_row(width as int));
        }

        // Daylight-saving markers.
        if self.show_dst {
            let transitions = self.get_dst_transitions_in_range();
            let ghost full = spec_scan(tz, posi);
            let ghost marked = row@;
            proof {
                crate::timeline::lemma_scan_transitions_in_window(tz, posi);
                assert(transitions@.map_values(|p: (i64, DstTransition)| (p.0 as int, p.1))
                    == full);
            }
            let mut k: usize = 0;
            proof {
                assert(full.skip(0) =~= full);
            }
            while k < transitions.len()
                invariant
                    self.wf(),
                    tz == self.timezone.tz,
                    posi == self.timeline_position as int,
                    full == spec_scan(tz, posi),
                    transitions@.map_values(|p: (i64, DstTransition)| (p.0 as int, p.1)) == full,
                    0 <= k <= transitions@.len(),
                    spec_paint_dst(marked, full, posi, width as int) == spec_paint_dst(
                        row@,
                        full.skip(k as int),
                        posi,
                        width as int,
                    ),
                decreases transitions@.len() - k,
            {
                proof {
                    crate::timeline::lemma_scan_transitions_in_window(tz, posi);
                    assert(transitions@.map_values(
                        |p: (i64, DstTransition)| (p.0 as int, p.1),
                    )[k as int] == (transitions@[k as int].0 as int, transitions@[k as int].1));
                    assert(full[k as int] == spec_scan(tz, posi)[k as int]);
                }
                let entry = transitions[k];
                let glyph = match entry.1 {
                    DstTransition::SpringForward => ('\u{21c8}', ThemeColor::Green),
                    DstTransition::FallBack => ('\u{21ca}', ThemeColor::Yellow),
                };
                let col = self.time_to_position(entry.0, width);
                let ghost before = row@;
                mark_cell(&mut row, col, glyph.0, glyph.1);
                proof {
                    assert(full.skip(k as int)[0] == full[k as int]);
                    assert(full.skip(k as int).drop_first() =~= full.skip(k as int + 1));
                    assert(spec_paint_dst(before, full.skip(k as int), posi, width as int)
                        == spec_paint_dst(row@, full.skip(k as int + 1), posi, width as int));
                }
                k = k + 1;
            }
            proof {
                assert(full.skip(transitions@.len() as int) =~= Seq::<(int,
                    DstTransition,
                )>::empty());
                assert(row@ == spec_paint_dst(marked, full, posi, width as int));
            }
        }

        // Date labels.
        if self.show_date {
            let start_time = self.get_timeline_start();
            let end_time = self.get_timeline_end();
            let work_middle_hour: u32 = (self.time_config.work_hours_start
                + self.time_config.work_hours_end) / 2;
            let off_start = utc_offset_at(&self.timezone.tz, start_time);
            let off_end = utc_offset_at(&self.timezone.tz, end_time);
            let mut day: i64 = local_day_number(start_time + off_start as i64);
            let day_end: i64 = local_day_number(end_time + off_end as i64);
            let ghost base = row@;
            let ghost day0 = day as int;
            while day <= day_end
                invariant
                    self.wf(),
                    tz == self.timezone.tz,
                    posi == self.timeline_position as int,
                    work_middle_hour as int == self.spec_mid_hour(),
                    day0 == self.spec_day_start(),
                    day_end as int == self.spec_day_end(),
                    -47_000_000 <= day0 <= day as int,
                    day as int <= day_end as int + 1,
                    -47_000_000 <= day_end <= 47_000_000,
                    self.spec_paint_dates(base, width as int, day0, day_end as int)
                        == self.spec_paint_dates(row@, width as int, day as int, day_end as int),
                decreases day_end + 1 - day,
            {
                let ghost before = row@;
                let date = civil_from_day_number(day);
                match resolve_local(&self.timezone.tz, date.0, date.1, date.2, work_middle_hour) {
                    Some(t) => {
                        let col = self.time_to_position(t, width);
                        let text = date_label_chars(date.2, date.1);
                        let ls = label_start(col, 6, width);
                        row = paint_label_cells(row, ls, &text);
                    },
                    None => {},
                }
                proof {
                    assert(row@ == self.spec_paint_one_date(before, width as int, day as int));
                }
                day = day + 1;
            }
            proof {
                assert(row@ == self.spec_paint_dates(base, width as int, day0, day_end as int));
            }
        }

        let mut rows: Vec<Vec<Cell>> = Vec::new();
        proof {
            assert(row@ == self.spec_timeline_row(width as int));
        }
        rows.push(row);

        // Caption row.
        if height > 1 {
            let off = utc_offset_at(&self.timezone.tz, self.timeline_position);
            let u: i64 = self.timeline_position + off as i64;
            let h = local_hour_of_day(u);
            let mi = local_minute_of_hour(u);
            let wd = local_weekday(u);
            let text = caption_chars(self.display_format, h, mi, wd);
            let tlen: u16 = text.len() as u16;
            let ls = label_start(timeline_pos, tlen, width);
            let mut caption_row: Vec<Cell> = Vec::new();
            let mut j: usize = 0;
            while j < width as usize
                invariant
                    0 <= j <= width as int,
                    caption_row@.len() == j as int,
                    forall|q: int|
                        0 <= q < j as int ==> caption_row@[q] == spec_cell(' ', None, None),
                decreases width as int - j,
            {
                caption_row.push(make_cell(' ', None, None));
                j = j + 1;
            }
            proof {
                assert(caption_row@ =~= spec_blank_row(width as int));
            }
            caption_row = paint_plain_cells(caption_row, ls, &text);
            proof {
                assert(caption_row@ == self.spec_caption_row(width as int));
            }
            rows.push(caption_row);
        }
        rows
    }
}

} // verus!
