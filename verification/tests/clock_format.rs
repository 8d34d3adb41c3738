use tinydfr::clock::{format_clock_text, ClockTime};

fn at(hour: u8, minute: u8, weekday: u8, day: u8, month: u8) -> ClockTime {
    ClockTime { hour, minute, weekday, day, month }
}

#[test]
fn twelve_hour_midnight() {
    assert_eq!(format_clock_text(0, at(0, 0, 3, 1, 1)), "12:00 AM    Wed 1 Jan");
}

#[test]
fn twelve_hour_noon() {
    assert_eq!(format_clock_text(0, at(12, 0, 0, 15, 6)), "12:00 PM    Sun 15 Jun");
}

#[test]
fn twelve_hour_morning_and_afternoon() {
    assert_eq!(format_clock_text(0, at(9, 5, 1, 2, 3)), "9:05 AM    Mon 2 Mar");
    assert_eq!(format_clock_text(0, at(13, 59, 5, 28, 2)), "1:59 PM    Fri 28 Feb");
    assert_eq!(format_clock_text(0, at(11, 59, 4, 30, 4)), "11:59 AM    Thu 30 Apr");
}

#[test]
fn twenty_four_hour_midnight() {
    assert_eq!(format_clock_text(1, at(0, 0, 3, 1, 1)), "00:00    Wed 1 Jan");
}

#[test]
fn twenty_four_hour_noon_and_evening() {
    assert_eq!(format_clock_text(1, at(12, 0, 0, 15, 6)), "12:00    Sun 15 Jun");
    assert_eq!(format_clock_text(1, at(23, 59, 6, 31, 12)), "23:59    Sat 31 Dec");
}

#[test]
fn month_boundaries_both_styles() {
    assert_eq!(format_clock_text(0, at(23, 59, 2, 31, 1)), "11:59 PM    Tue 31 Jan");
    assert_eq!(format_clock_text(1, at(0, 1, 3, 1, 2)), "00:01    Wed 1 Feb");
    assert_eq!(format_clock_text(1, at(6, 30, 0, 31, 8)), "06:30    Sun 31 Aug");
}

#[test]
fn every_month_and_weekday_abbreviation() {
    let months = [
        "Jan", "Feb", "Mar", "Apr", "May", "Jun", "Jul", "Aug", "Sep", "Oct", "Nov", "Dec",
    ];
    for (i, name) in months.iter().enumerate() {
        let text = format_clock_text(1, at(10, 0, 0, 5, (i + 1) as u8));
        assert!(text.ends_with(name), "month {}: {}", i + 1, text);
    }
    let days = ["Sun", "Mon", "Tue", "Wed", "Thu", "Fri", "Sat"];
    for (w, name) in days.iter().enumerate() {
        let text = format_clock_text(1, at(10, 0, w as u8, 5, 1));
        assert!(text.contains(name), "weekday {}: {}", w, text);
    }
}

#[test]
fn unknown_style_renders_empty() {
    assert_eq!(format_clock_text(2, at(10, 0, 0, 5, 1)), "");
    assert_eq!(format_clock_text(7, at(23, 59, 6, 31, 12)), "");
}

#[test]
fn all_wall_clock_times_format_without_panic() {
    // Every valid component combination, in both styles (and one junk style).
    for hour in 0..24u8 {
        for minute in [0u8, 1, 9, 10, 30, 59] {
            for weekday in 0..7u8 {
                for day in [1u8, 9, 10, 28, 29, 30, 31] {
                    for month in 1..13u8 {
                        let t = at(hour, minute, weekday, day, month);
                        let a = format_clock_text(0, t);
                        let b = format_clock_text(1, t);
                        assert!(!a.is_empty() && !b.is_empty());
                        let _ = format_clock_text(9, t);
                    }
                }
            }
        }
    }
}
