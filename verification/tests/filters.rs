use bigquery_edge::filter::{
    build_filter, build_filter_at, build_filter_on, clause_for_days, clause_on_day, read_bound,
    sunday_before, week_start, RangeError,
};
use bigquery_edge::decimal::{render_integer, render_natural};
use bigquery_edge::statement::{insert_statement, select_statement, TopRisingTerm};

#[test]
fn to_before_from_is_refused() {
    assert_eq!(
        build_filter(Some("2024-01-01"), Some("2023-12-31")),
        Err(RangeError::ToBeforeFrom)
    );
    assert_eq!(
        build_filter_at(Some("2024-01-01"), Some("2023-12-31"), 0),
        Err(RangeError::ToBeforeFrom)
    );
}

#[test]
fn no_bounds_mean_the_current_week_onward() {
    assert_eq!(
        build_filter(None, None),
        Ok("week >= DATE_TRUNC(CURRENT_DATE(), week)".to_string())
    );
}

#[test]
fn upper_bound_before_this_week_is_refused() {
    assert_eq!(build_filter(None, Some("2000-01-01")), Err(RangeError::ToBeforeCurrentWeek));
    assert_eq!(
        build_filter_at(None, Some("1970-01-01"), 719_164),
        Err(RangeError::ToBeforeCurrentWeek)
    );
}

#[test]
fn upper_bound_in_this_week_is_accepted() {
    assert_eq!(
        build_filter_at(None, Some("1970-01-01"), 719_163),
        Ok("week >= DATE_TRUNC(CURRENT_DATE(), week) and week <= '1970-01-01'".to_string())
    );
    assert_eq!(
        build_filter(None, Some("9999-12-31")),
        Ok("week >= DATE_TRUNC(CURRENT_DATE(), week) and week <= '9999-12-31'".to_string())
    );
}

#[test]
fn lower_bound_alone_has_no_upper_end() {
    assert_eq!(build_filter(Some("2024-02-03"), None), Ok("week >= '2024-02-03'".to_string()));
}

#[test]
fn both_bounds_filter_by_date() {
    assert_eq!(
        build_filter(Some("2024-01-01"), Some("2024-01-31")),
        Ok("date >= '2024-01-01' and date <= '2024-01-31'".to_string())
    );
    assert_eq!(
        build_filter(Some("2024-01-01"), Some("2024-01-01")),
        Ok("date >= '2024-01-01' and date <= '2024-01-01'".to_string())
    );
}

#[test]
fn unparsable_dates_are_refused() {
    assert_eq!(build_filter(Some("yesterday"), None), Err(RangeError::UnparsableFrom));
    assert_eq!(build_filter(None, Some("2024-13-01")), Err(RangeError::UnparsableTo));
    assert_eq!(build_filter(Some("2024-02-30"), Some("2024-03-01")), Err(RangeError::UnparsableFrom));
    assert_eq!(build_filter(Some("2024-02-01"), Some("01/03/2024")), Err(RangeError::UnparsableTo));
}

#[test]
fn dates_are_read_as_day_numbers() {
    assert_eq!(read_bound(Some("1970-01-01")), Some(719_163));
    assert_eq!(read_bound(Some("0001-01-01")), Some(1));
    assert_eq!(read_bound(Some("2024-01-01")), Some(738_886));
    assert_eq!(read_bound(Some("nothing")), None);
    assert_eq!(read_bound(None), None);
}

#[test]
fn week_starts_on_the_most_recent_sunday() {
    assert_eq!(week_start(719_163), Some(719_159));
    assert_eq!(week_start(719_159), Some(719_159));
    assert_eq!(week_start(719_165), Some(719_159));
    assert_eq!(week_start(719_166), Some(719_166));
    assert_eq!(week_start(1), Some(0));
    assert_eq!(sunday_before(719_163, 4), 719_159);
    assert_eq!(sunday_before(i32::MIN, 6), -2_147_483_654);
}

#[test]
fn day_outside_the_calendar_has_no_week() {
    assert_eq!(week_start(i32::MAX), None);
    assert_eq!(week_start(i32::MIN), None);
    assert_eq!(
        build_filter_on(None, Some("2024-01-01"), i32::MAX),
        Err(RangeError::ClockOutOfRange)
    );
    assert_eq!(
        build_filter_on(None, None, i32::MAX),
        Ok("week >= DATE_TRUNC(CURRENT_DATE(), week)".to_string())
    );
    assert_eq!(build_filter_on(None, Some("never"), i32::MAX), Err(RangeError::UnparsableTo));
    assert_eq!(
        build_filter_on(Some("2024-01-01"), Some("2024-01-02"), i32::MAX),
        Ok("date >= '2024-01-01' and date <= '2024-01-02'".to_string())
    );
}

#[test]
fn upper_bound_is_held_against_the_sunday_of_the_day() {
    // 1970-01-01 was a Thursday; its week began on 1969-12-28.
    assert_eq!(
        build_filter_on(None, Some("1969-12-27"), 719_163),
        Err(RangeError::ToBeforeCurrentWeek)
    );
    assert_eq!(
        build_filter_on(None, Some("1969-12-28"), 719_163),
        Ok("week >= DATE_TRUNC(CURRENT_DATE(), week) and week <= '1969-12-28'".to_string())
    );
    assert_eq!(
        build_filter_on(None, Some("1970-01-03"), 719_163),
        Ok("week >= DATE_TRUNC(CURRENT_DATE(), week) and week <= '1970-01-03'".to_string())
    );
    assert_eq!(
        clause_on_day(None, Some("1969-12-27"), None, Some(719_158), 719_163),
        Err(RangeError::ToBeforeCurrentWeek)
    );
}

#[test]
fn clause_follows_the_days_handed_in() {
    assert_eq!(
        clause_for_days(Some("2024-01-02"), Some("2024-01-01"), Some(738_887), Some(738_886), 0),
        Err(RangeError::ToBeforeFrom)
    );
    assert_eq!(
        clause_for_days(None, Some("2024-01-01"), None, Some(738_886), 738_887),
        Err(RangeError::ToBeforeCurrentWeek)
    );
}

#[test]
fn select_statement_names_the_table_and_the_clause() {
    assert_eq!(
        select_statement("proj", "trends.top_terms", "week >= '2024-01-07'"),
        "SELECT * FROM proj.trends.top_terms where week >= '2024-01-07'"
    );
}

#[test]
fn insert_statement_lists_the_values_in_order() {
    let row = TopRisingTerm {
        refresh_date: "2024-01-08".to_string(),
        dma_name: "Portland OR".to_string(),
        dma_id: 820,
        term: "verus".to_string(),
        week: "2024-01-07".to_string(),
        score: 97,
        rank: 1,
        percent_gain: -350,
    };
    assert_eq!(
        insert_statement("proj", "trends.top_terms", &row),
        "INSERT INTO proj.trends.top_terms (refresh_date, dma_name, dma_id, term, week, score, rank, percent_gain) VALUES ('2024-01-08', 'Portland OR', 820, 'verus', '2024-01-07', 97, 1, -350)"
    );
}

#[test]
fn integers_are_written_in_decimal() {
    assert_eq!(render_integer(0), "0");
    assert_eq!(render_integer(7), "7");
    assert_eq!(render_integer(10), "10");
    assert_eq!(render_integer(-1), "-1");
    assert_eq!(render_integer(1234567890), "1234567890");
    assert_eq!(render_integer(i64::MAX), "9223372036854775807");
    assert_eq!(render_integer(i64::MIN), "-9223372036854775808");
    assert_eq!(render_natural(u64::MAX), "18446744073709551615");
    for n in [0i64, 9, 10, 99, 100, -100, 4096, -65535] {
        assert_eq!(render_integer(n), n.to_string());
    }
}
