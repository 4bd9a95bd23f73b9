use pixel_calendar::calendar::{
    calendar_anchor, commit_timestamp, painting_window, timestamp_from_date_text, window_for,
    Window, DAY_LIMIT,
};
use pixel_calendar::glyph::{get_font_map, FontMap, Glyph, GLYPH_A, GLYPH_B, GLYPH_SPACE};
use pixel_calendar::layout::{layout, PAINTED_COMMITS};
use pixel_calendar::plan::{commit_plan, FILL_COMMITS};
use pixel_calendar::text::{is_yes, is_yes_folded, normalize_text, preview_lines};
use std::collections::HashMap;

// 2025-11-02, a Sunday, as a day number from the common era.
const SUNDAY: i64 = 739_557;
// 2026-10-19, a Monday.
const MONDAY: i64 = 739_908;

fn cells_of_a(base: i64) -> Vec<(i64, u32)> {
    let mut v = Vec::new();
    let columns: [&[i64]; 5] = [&[1, 2, 3, 4, 5, 6], &[0, 3], &[0, 3], &[0, 3], &[1, 2, 3, 4, 5, 6]];
    for (col, rows) in columns.iter().enumerate() {
        for row in rows.iter() {
            v.push((base + 7 * col as i64 + row, PAINTED_COMMITS));
        }
    }
    v
}

fn totals(plan: &[(i64, u32)]) -> HashMap<i64, u32> {
    let mut m = HashMap::new();
    for (d, n) in plan {
        *m.entry(*d).or_insert(0) += n;
    }
    m
}

#[test]
fn every_glyph_is_seven_by_five() {
    let font = get_font_map();
    let mut letters: Vec<char> = ('A'..='Z').collect();
    letters.push(' ');
    for c in letters {
        let g = font.get(c).expect("supported character");
        assert!(g.bits < 1u64 << 35);
        for row in 0..7 {
            for col in 0..5 {
                let _ = g.is_on(row, col);
            }
        }
    }
    assert_eq!(font.get('a'), None);
    assert_eq!(font.get('1'), None);
    assert_eq!(font.get('A'), Some(Glyph { bits: GLYPH_A }));
    assert_eq!(font.get(' '), Some(Glyph { bits: GLYPH_SPACE }));
}

#[test]
fn glyph_cells_follow_the_bitmap() {
    let a = Glyph { bits: GLYPH_A };
    let top: Vec<bool> = (0..5).map(|c| a.is_on(0, c)).collect();
    assert_eq!(top, vec![false, true, true, true, false]);
    let middle: Vec<bool> = (0..5).map(|c| a.is_on(3, c)).collect();
    assert_eq!(middle, vec![true; 5]);
}

#[test]
fn font_map_insert_replaces() {
    let mut f = FontMap::new();
    assert_eq!(f.get('A'), None);
    f.insert('A', Glyph { bits: GLYPH_A });
    f.insert('A', Glyph { bits: GLYPH_B });
    assert_eq!(f.get('A'), Some(Glyph { bits: GLYPH_B }));
}

#[test]
fn anchor_is_a_sunday_fifty_weeks_back() {
    assert_eq!(calendar_anchor(MONDAY), SUNDAY);
    // A Sunday fifty weeks back is its own anchor.
    assert_eq!(calendar_anchor(SUNDAY + 350), SUNDAY);
    assert_eq!(calendar_anchor(SUNDAY + 356), SUNDAY);
    assert_eq!(calendar_anchor(SUNDAY + 357), SUNDAY + 7);
    for today in MONDAY..MONDAY + 30 {
        let a = calendar_anchor(today);
        assert_eq!(a % 7, 0);
        assert!(today - 356 <= a && a <= today - 350);
    }
}

#[test]
fn window_needs_days_in_range() {
    assert_eq!(window_for(MONDAY), Some(Window { anchor: SUNDAY, today: MONDAY }));
    assert_eq!(window_for(DAY_LIMIT + 1), None);
    assert_eq!(window_for(-DAY_LIMIT + 355), None);
    assert!(window_for(-DAY_LIMIT + 356).is_some());
    assert!(window_for(DAY_LIMIT).is_some());
}

#[test]
fn window_of_today_is_anchored_on_a_sunday() {
    let w = painting_window().expect("today is in range");
    assert_eq!(w.anchor % 7, 0);
    assert_eq!(w.anchor, calendar_anchor(w.today));
    // Later than 2024-01-01.
    assert!(w.today > 738_886);
}

#[test]
fn timestamps_are_noon_of_the_day() {
    assert_eq!(commit_timestamp(738_950), Some("2024-03-05T12:00:00".to_string()));
    assert_eq!(commit_timestamp(719_163), Some("1970-01-01T12:00:00".to_string()));
    assert_eq!(commit_timestamp(SUNDAY), Some("2025-11-02T12:00:00".to_string()));
    assert_eq!(commit_timestamp(DAY_LIMIT + 1), None);
    assert_eq!(commit_timestamp(-DAY_LIMIT - 1), None);
    assert_eq!(timestamp_from_date_text("2001-02-03"), "2001-02-03T12:00:00");
}

#[test]
fn layout_of_a_single_letter() {
    let font = get_font_map();
    let r = layout(&font, "A", SUNDAY);
    assert_eq!(r, cells_of_a(SUNDAY));
    assert_eq!(r.len(), 18);
    // Row 0 of 'A' is on in columns 1, 2 and 3 only.
    let top: Vec<i64> = r.iter().map(|p| p.0).filter(|d| (d - SUNDAY) % 7 == 0).collect();
    assert_eq!(top, vec![SUNDAY + 7, SUNDAY + 14, SUNDAY + 21]);
}

#[test]
fn second_letter_starts_six_weeks_on() {
    let font = get_font_map();
    let r = layout(&font, "AB", SUNDAY);
    assert_eq!(&r[..18], &cells_of_a(SUNDAY)[..]);
    // The first column of 'B' is on in every row.
    let b_first: Vec<i64> = (0..7).map(|row| SUNDAY + 42 + row).collect();
    let got: Vec<i64> = r[18..25].iter().map(|p| p.0).collect();
    assert_eq!(got, b_first);
    assert!(r[18..].iter().all(|p| p.0 >= SUNDAY + 42));
}

#[test]
fn unsupported_characters_take_no_room() {
    let font = get_font_map();
    assert_eq!(layout(&font, "A1b!B", SUNDAY), layout(&font, "AB", SUNDAY));
    assert_eq!(layout(&font, "?", SUNDAY), vec![]);
    assert_eq!(layout(&font, "", SUNDAY), vec![]);
    assert_eq!(layout(&font, "   ", SUNDAY), vec![]);
    // A space still moves the next letter along.
    let spaced = layout(&font, " A", SUNDAY);
    assert_eq!(spaced, cells_of_a(SUNDAY + 42));
}

#[test]
fn pair_count_is_the_on_cell_count() {
    let font = get_font_map();
    for word in ["HELLO", "WORLD", "AZ BY", "QUICK"] {
        let mut on = 0;
        for c in word.chars() {
            let g = font.get(c).unwrap();
            for row in 0..7 {
                for col in 0..5 {
                    if g.is_on(row, col) {
                        on += 1;
                    }
                }
            }
        }
        let r = layout(&font, word, SUNDAY);
        assert_eq!(r.len(), on);
        assert!(r.iter().all(|p| p.1 == PAINTED_COMMITS));
    }
}

#[test]
fn layout_twice_gives_the_same_pairs() {
    let font = get_font_map();
    assert_eq!(layout(&font, "PIXEL ART", SUNDAY), layout(&font, "PIXEL ART", SUNDAY));
}

#[test]
fn plan_without_fill_paints_only() {
    let font = get_font_map();
    let w = Window { anchor: SUNDAY, today: MONDAY };
    let plan = commit_plan(&font, "HI", w, false, true);
    assert_eq!(plan, layout(&font, "HI", SUNDAY));
    let t = totals(&plan);
    for (d, n) in &t {
        assert_eq!(*n, 15, "date {}", d);
    }
    for d in SUNDAY..=MONDAY {
        if !t.contains_key(&d) {
            assert_eq!(t.get(&d), None);
        }
    }
}

#[test]
fn plan_with_fill_covers_the_window_once() {
    let font = get_font_map();
    let w = Window { anchor: SUNDAY, today: MONDAY };
    let paint = layout(&font, "HI", SUNDAY);
    let plan = commit_plan(&font, "HI", w, true, true);
    assert_eq!(&plan[..paint.len()], &paint[..]);
    let painted: Vec<i64> = paint.iter().map(|p| p.0).collect();
    let t = totals(&plan);
    for d in SUNDAY..=MONDAY {
        let expected = if painted.contains(&d) { PAINTED_COMMITS } else { FILL_COMMITS };
        assert_eq!(t.get(&d), Some(&expected), "date {}", d);
    }
    assert_eq!(t.len(), (MONDAY - SUNDAY + 1) as usize);
    // The background pass goes in order of the days.
    let fill: Vec<i64> = plan[paint.len()..].iter().map(|p| p.0).collect();
    assert!(fill.windows(2).all(|p| p[0] < p[1]));
}

#[test]
fn plan_with_empty_window_adds_no_fill() {
    let font = get_font_map();
    let w = Window { anchor: SUNDAY, today: SUNDAY - 1 };
    assert_eq!(commit_plan(&font, "I", w, true, true), layout(&font, "I", SUNDAY));
}

#[test]
fn declining_makes_no_commits() {
    let font = get_font_map();
    let w = Window { anchor: SUNDAY, today: MONDAY };
    assert!(commit_plan(&font, "HELLO", w, true, false).is_empty());
    assert!(commit_plan(&font, "HELLO", w, false, false).is_empty());
}

#[test]
fn input_is_trimmed_and_upper_cased() {
    assert_eq!(normalize_text("  hello world \n"), "HELLO WORLD");
    assert_eq!(normalize_text("Abc"), "ABC");
    assert_eq!(normalize_text(""), "");
}

#[test]
fn only_y_is_yes() {
    assert!(is_yes("y"));
    assert!(is_yes(" Y\n"));
    assert!(!is_yes("yes"));
    assert!(!is_yes("n"));
    assert!(!is_yes(""));
    assert!(is_yes_folded("y"));
    assert!(!is_yes_folded("Y"));
    assert!(!is_yes_folded(" y"));
}

#[test]
fn preview_shows_each_row() {
    let font = get_font_map();
    let lines = preview_lines(&font, "A1I");
    assert_eq!(lines.len(), 7);
    assert_eq!(lines[0], "░███░ ░███░ ");
    assert_eq!(lines[3], "█████ ░░█░░ ");
    assert_eq!(lines[6], "█░░░█ ░███░ ");
    let empty = preview_lines(&font, "");
    assert!(empty.iter().all(|l| l.is_empty()));
}
