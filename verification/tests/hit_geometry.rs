use tinydfr::fb::{clip_copy_ranges, CopyRange};
use tinydfr::geometry::{hit_test, touch_candidate, ClipRect};

// Geometry of a 12-button strip, 2170 x 60: each cell is 2170/13 = 166.92 px
// wide and consecutive cell origins are 2170*12/143 = 182.10 px apart.

#[test]
fn hit_inside_first_cell() {
    // x = 100 is strictly inside cell 0 (right edge 166.92), y = 30 is mid-band.
    assert!(hit_test(12, 0, 2170, 60, 100, 30));
}

#[test]
fn hit_on_gap_misses_every_cell() {
    // x = 170 lies between cell 0 (ends at 166.92) and cell 1 (starts at 182.10).
    for idx in 0..12 {
        assert!(!hit_test(12, idx, 2170, 60, 170, 30));
    }
}

#[test]
fn hit_outside_vertical_band() {
    // The activation band of a 60 px strip is 5.4 < y < 54.6.
    assert!(!hit_test(12, 0, 2170, 60, 100, 5));
    assert!(!hit_test(12, 0, 2170, 60, 100, 55));
    assert!(hit_test(12, 0, 2170, 60, 100, 6));
    assert!(hit_test(12, 0, 2170, 60, 100, 54));
}

#[test]
fn vertical_band_bounds_are_strict() {
    // With height 100 the band is exactly 9 < y < 91.
    assert!(!hit_test(2, 0, 1000, 100, 100, 9));
    assert!(hit_test(2, 0, 1000, 100, 100, 10));
    assert!(hit_test(2, 0, 1000, 100, 100, 90));
    assert!(!hit_test(2, 0, 1000, 100, 100, 91));
}

#[test]
fn hit_works_for_small_button_counts() {
    // Two buttons on a 300 px strip: cells are 100 px, origins 200 px apart.
    assert!(hit_test(2, 0, 300, 60, 50, 30));
    assert!(!hit_test(2, 0, 300, 60, 150, 30));
    assert!(hit_test(2, 1, 300, 60, 250, 30));
    assert!(!hit_test(2, 1, 300, 60, 150, 30));
}

#[test]
fn candidate_cell_by_average_pitch() {
    // 13 buttons over 2170 px: the average pitch divides x evenly.
    assert_eq!(touch_candidate(13, 2170, 0), 0);
    assert_eq!(touch_candidate(13, 2170, 581), 3);
    assert_eq!(touch_candidate(13, 2170, 2169), 12);
    // x == width maps past the last cell.
    assert_eq!(touch_candidate(13, 2170, 2170), 13);
}

#[test]
fn copy_ranges_iterate_rows() {
    let clip = ClipRect { x1: 2, y1: 3, x2: 5, y2: 6 };
    let ranges = clip_copy_ranges(&clip, 100, 4);
    assert_eq!(
        ranges,
        vec![
            CopyRange { offset: 308, len: 12 },
            CopyRange { offset: 408, len: 12 },
            CopyRange { offset: 508, len: 12 },
        ]
    );
}

#[test]
fn copy_ranges_empty_clip() {
    let clip = ClipRect { x1: 2, y1: 3, x2: 5, y2: 3 };
    assert_eq!(clip_copy_ranges(&clip, 100, 4).len(), 0);
}
