use epp_client::consolidate::{GMonthDay, UtcOffset};
use epp_client::error::ValidationError;

#[test]
fn valid_pairs_construct_and_roundtrip() {
    let table: [u8; 12] = [31, 29, 31, 30, 31, 30, 31, 31, 30, 31, 30, 31];
    for month in 1u8..=12 {
        for day in 1u8..=table[month as usize - 1] {
            let g = GMonthDay::new(month, day, None).unwrap();
            assert_eq!(g.month, month);
            assert_eq!(g.day, day);
            let text = g.render();
            let back = GMonthDay::parse(&text).unwrap();
            assert_eq!(back, g);
        }
    }
}

#[test]
fn february_bound_is_year_independent() {
    assert_eq!(
        GMonthDay::new(2, 30, None),
        Err(ValidationError::DayTooLongForMonth)
    );
    let g = GMonthDay::new(2, 29, None).unwrap();
    assert_eq!(g.render(), "--02-29");
}

#[test]
fn month_thirteen_is_rejected() {
    assert_eq!(
        GMonthDay::new(13, 1, None),
        Err(ValidationError::MonthOutOfRange)
    );
}

#[test]
fn day_bounds_are_rejected() {
    assert_eq!(
        GMonthDay::new(4, 31, None),
        Err(ValidationError::DayTooLongForMonth)
    );
    assert_eq!(GMonthDay::new(4, 0, None), Err(ValidationError::DayOutOfRange));
    assert_eq!(GMonthDay::new(4, 32, None), Err(ValidationError::DayOutOfRange));
    assert_eq!(GMonthDay::new(0, 5, None), Err(ValidationError::MonthOutOfRange));
}

#[test]
fn offset_renders_and_roundtrips() {
    let tz = UtcOffset::new(false, 5, 30).unwrap();
    let g = GMonthDay::new(5, 31, Some(tz)).unwrap();
    assert_eq!(g.render(), "--05-31+05:30");
    assert_eq!(GMonthDay::parse("--05-31+05:30").unwrap(), g);

    let tz_west = UtcOffset::new(true, 8, 0).unwrap();
    let h = GMonthDay::new(12, 1, Some(tz_west)).unwrap();
    assert_eq!(h.render(), "--12-01-08:00");
    assert_eq!(GMonthDay::parse("--12-01-08:00").unwrap(), h);
}

#[test]
fn offset_out_of_range_is_rejected() {
    assert_eq!(
        UtcOffset::new(false, 24, 0),
        Err(ValidationError::OffsetOutOfRange)
    );
    assert_eq!(
        UtcOffset::new(true, 5, 60),
        Err(ValidationError::OffsetOutOfRange)
    );
}

#[test]
fn malformed_text_is_rejected() {
    assert!(GMonthDay::parse("").is_err());
    assert!(GMonthDay::parse("--5-31").is_err());
    assert!(GMonthDay::parse("05-31").is_err());
    assert!(GMonthDay::parse("--02-30").is_err());
    assert!(GMonthDay::parse("--13-01").is_err());
    assert!(GMonthDay::parse("--05-31+25:00").is_err());
    assert!(GMonthDay::parse("--05-31+05-30").is_err());
    assert!(GMonthDay::parse("--05-31x").is_err());
}
