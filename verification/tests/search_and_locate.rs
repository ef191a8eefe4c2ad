use bingrep::correlate::MatchReport;
use bingrep::error::InputError;
use bingrep::locate::{Layout, Located};
use bingrep::range::{Range, RangeKind};
use bingrep::search::{find_all, occurs_at};

fn range(kind: RangeKind, name: &str, offset: u64, size: u64, address: Option<u64>) -> Range {
    Range::new(kind, name.to_string(), offset, size, address)
}

#[test]
fn overlapping_matches_are_both_reported() {
    assert_eq!(find_all(b"aaa", b"aa"), Ok(vec![0, 1]));
}

#[test]
fn empty_pattern_is_an_input_error() {
    assert_eq!(find_all(b"abc", b""), Err(InputError::EmptyPattern));
    assert_eq!(find_all(b"", b""), Err(InputError::EmptyPattern));
}

#[test]
fn no_match_is_an_empty_result() {
    assert_eq!(find_all(b"abc", b"x"), Ok(vec![]));
    assert_eq!(find_all(b"", b"x"), Ok(vec![]));
    assert_eq!(find_all(b"ab", b"abc"), Ok(vec![]));
}

#[test]
fn matches_ascend_and_each_is_the_pattern() {
    let haystack = b"abracadabra abracadabra";
    let needle = b"abra";
    let found = find_all(haystack, needle).unwrap();
    assert_eq!(found, vec![0, 7, 12, 19]);
    for pair in found.windows(2) {
        assert!(pair[0] < pair[1]);
    }
    for o in 0..haystack.len() {
        let here = o + needle.len() <= haystack.len() && &haystack[o..o + needle.len()] == needle;
        assert_eq!(found.contains(&(o as u64)), here);
        assert_eq!(occurs_at(haystack, needle, o), here);
    }
}

#[test]
fn search_is_case_sensitive_and_bytewise() {
    assert_eq!(find_all(b"Hello hello", b"hello"), Ok(vec![6]));
    assert_eq!(find_all(&[0xff, 0x00, 0xff, 0x00], &[0xff, 0x00]), Ok(vec![0, 2]));
    assert_eq!(find_all("caf\u{e9} caf\u{e9}".as_bytes(), "\u{e9}".as_bytes()), Ok(vec![3, 9]));
}

#[test]
fn match_at_the_last_possible_offset() {
    assert_eq!(find_all(b"xxab", b"ab"), Ok(vec![2]));
    assert!(!occurs_at(b"xxab", b"ab", 3));
    assert!(!occurs_at(b"xxab", b"ab", 100));
}

#[test]
fn containment_is_half_open() {
    let r = range(RangeKind::Section, ".text", 0x10, 0x10, Some(0x1010));
    assert!(!r.contains(0x0f));
    assert!(r.contains(0x10));
    assert!(r.contains(0x1f));
    assert!(!r.contains(0x20));
}

#[test]
fn empty_range_contains_nothing() {
    let r = range(RangeKind::Section, ".bss", 0x10, 0, Some(0x2000));
    assert!(!r.contains(0x10));
    assert!(!r.contains(0x0f));
    let layout = Layout::new(vec![r]);
    assert_eq!(layout.ranges_containing(0x10), vec![]);
}

#[test]
fn range_at_the_top_of_the_file_space() {
    let r = range(RangeKind::Segment, "top", u64::MAX - 1, 5, None);
    assert!(r.contains(u64::MAX - 1));
    assert!(r.contains(u64::MAX));
    assert!(!r.contains(0));
}

#[test]
fn address_is_base_plus_displacement() {
    let r = range(RangeKind::Segment, "seg", 0x100, 0x100, Some(0x40_0000));
    assert_eq!(r.address_of(0x100), Some(0x40_0000));
    assert_eq!(r.address_of(0x1ff), Some(0x40_00ff));
}

#[test]
fn address_wraps_in_the_address_space() {
    let r = range(RangeKind::Segment, "seg", 0, 0x100, Some(u64::MAX));
    assert_eq!(r.address_of(1), Some(0));
    assert_eq!(r.address_of(2), Some(1));
}

#[test]
fn unmapped_range_has_no_address() {
    let r = range(RangeKind::LoadCommand, "LC_UUID", 0x20, 0x18, None);
    assert!(r.contains(0x20));
    assert_eq!(r.address_of(0x20), None);
}

#[test]
fn all_containing_ranges_are_reported_in_layout_order() {
    let layout = Layout::new(vec![
        range(RangeKind::ProgramHeader, "PT_LOAD", 0, 0x100, Some(0x1000)),
        range(RangeKind::ProgramHeader, "PT_NOTE", 0x200, 0x20, Some(0x3000)),
        range(RangeKind::Section, ".text", 0x10, 0x10, Some(0x1010)),
        range(RangeKind::Section, ".empty", 0x15, 0, Some(0x1015)),
        range(RangeKind::Section, ".data", 0x14, 0x4, None),
    ]);
    let found = layout.ranges_containing(0x15);
    assert_eq!(
        found,
        vec![
            Located {
                range: range(RangeKind::ProgramHeader, "PT_LOAD", 0, 0x100, Some(0x1000)),
                position: 0,
                address: Some(0x1015),
            },
            Located {
                range: range(RangeKind::Section, ".text", 0x10, 0x10, Some(0x1010)),
                position: 2,
                address: Some(0x1015),
            },
            Located {
                range: range(RangeKind::Section, ".data", 0x14, 0x4, None),
                position: 4,
                address: None,
            },
        ]
    );
    for (i, r) in layout.ranges.iter().enumerate() {
        let inside = r.file_offset <= 0x15 && 0x15 < r.file_offset + r.file_size;
        assert_eq!(found.iter().any(|l| l.position == i), inside);
    }
}

#[test]
fn correlate_one_match_in_segment_and_section() {
    let layout = Layout::new(vec![
        range(RangeKind::Segment, "seg", 0x0, 0x100, Some(0x1000)),
        range(RangeKind::Section, "sec", 0x10, 0x10, Some(0x1010)),
    ]);
    let mut haystack = vec![0u8; 0x100];
    haystack[0x15] = b'X';
    let reports = layout.correlate(&haystack, b"X").unwrap();
    assert_eq!(
        reports,
        vec![MatchReport {
            offset: 0x15,
            containing: vec![
                Located {
                    range: range(RangeKind::Segment, "seg", 0x0, 0x100, Some(0x1000)),
                    position: 0,
                    address: Some(0x1015),
                },
                Located {
                    range: range(RangeKind::Section, "sec", 0x10, 0x10, Some(0x1010)),
                    position: 1,
                    address: Some(0x1015),
                },
            ],
        }]
    );
}

#[test]
fn correlate_rejects_an_empty_pattern() {
    let layout = Layout::new(vec![range(RangeKind::Segment, "seg", 0, 4, Some(0))]);
    assert_eq!(layout.correlate(b"abcd", b""), Err(InputError::EmptyPattern));
}

#[test]
fn correlate_without_ranges_lists_no_range() {
    let layout = Layout::empty();
    assert_eq!(layout.len(), 0);
    assert_eq!(
        layout.correlate(b"abab", b"ab"),
        Ok(vec![
            MatchReport { offset: 0, containing: vec![] },
            MatchReport { offset: 2, containing: vec![] },
        ])
    );
    assert_eq!(layout.correlate(b"abab", b"x"), Ok(vec![]));
}

#[test]
fn reports_follow_the_offsets_given() {
    let layout = Layout::new(vec![range(RangeKind::Section, "s", 2, 2, Some(0x10))]);
    let reports = layout.report(&[3, 0, 2]);
    assert_eq!(reports.len(), 3);
    assert_eq!(reports[0].offset, 3);
    assert_eq!(reports[0].containing[0].address, Some(0x11));
    assert_eq!(reports[1].containing.len(), 0);
    assert_eq!(reports[2].containing[0].address, Some(0x10));
}

#[test]
fn duplicate_keeps_the_range() {
    let r = range(RangeKind::Section, ".text", 1, 2, Some(3));
    assert_eq!(r.duplicate(), r);
}
