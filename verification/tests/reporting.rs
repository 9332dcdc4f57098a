use bkeeper::errors::ConfigError;
use bkeeper::record::MintRow;
use bkeeper::report::{
    apply_lookback, chart_points, chart_title, first_token_name, progress_report, render_progress,
    sum_counts, to_date, MAX_LOOKBACK_DAYS, MAX_SUPPLY,
};

fn mk_mint(day: u64, token_name: &str, count: u64) -> MintRow {
    MintRow { date_day: day, token_name: token_name.to_string(), mint_count: count }
}

fn five_days() -> Vec<MintRow> {
    vec![
        mk_mint(1, "T", 10),
        mk_mint(2, "T", 20),
        mk_mint(3, "T", 30),
        mk_mint(4, "T", 40),
        mk_mint(5, "T", 50),
    ]
}

#[test]
fn lookback_zero_keeps_the_whole_history() {
    let kept = apply_lookback(five_days(), 0).unwrap();
    assert_eq!(kept.len(), 5);
    assert_eq!(kept[0].date_day, 1);
    assert_eq!(kept[4].date_day, 5);
}

#[test]
fn lookback_one_keeps_the_single_most_recent_bucket() {
    let kept = apply_lookback(five_days(), 1).unwrap();
    assert_eq!(kept.len(), 1);
    assert_eq!(kept[0].date_day, 5);
    assert_eq!(kept[0].mint_count, 50);
}

#[test]
fn lookback_at_the_limit_keeps_at_most_that_many() {
    let kept = apply_lookback(five_days(), MAX_LOOKBACK_DAYS).unwrap();
    assert_eq!(kept.len(), 5);
    let three = apply_lookback(five_days(), 3).unwrap();
    assert_eq!(three.len(), 3);
    assert_eq!(three[0].date_day, 3);
    assert_eq!(three[2].date_day, 5);
}

#[test]
fn lookback_above_the_limit_is_rejected_not_clamped() {
    let err = apply_lookback(five_days(), 181).unwrap_err();
    assert!(matches!(err, ConfigError::LookbackOutOfRange(181)));
    let err = apply_lookback(five_days(), -1).unwrap_err();
    assert!(matches!(err, ConfigError::LookbackOutOfRange(-1)));
}

#[test]
fn progress_at_half_supply() {
    let mints = vec![mk_mint(1, "Bears Deluxe", 1000), mk_mint(2, "Bears Deluxe", 2450)];
    let r = progress_report(&mints, MAX_SUPPLY);
    assert_eq!(r.total_minted, 3450);
    assert_eq!(r.minted_today, 2450);
    assert_eq!(r.remaining, 3450);
    assert_eq!(r.percent_bp, 5000);
}

#[test]
fn progress_with_nothing_minted() {
    let mints: Vec<MintRow> = vec![];
    let r = progress_report(&mints, MAX_SUPPLY);
    assert_eq!(r.total_minted, 0);
    assert_eq!(r.minted_today, 0);
    assert_eq!(r.remaining, 6900);
    assert_eq!(r.percent_bp, 0);
}

#[test]
fn progress_status_text_is_fixed_format() {
    let mints = vec![mk_mint(1, "Bears Deluxe", 1000), mk_mint(2, "Bears Deluxe", 2450)];
    let r = progress_report(&mints, MAX_SUPPLY);
    let text = render_progress(&r, MAX_SUPPLY);
    assert_eq!(
        text,
        "- Bears Deluxe Migration -\nProgress: 50.00%\nMigrated Today: 2450\nSupply: 3450/6900\n\nRemaining: 3450"
    );
}

#[test]
fn progress_rounds_to_the_nearest_hundredth() {
    // 31 of 6900 is 0.4492...%: the displayed figure rounds up to 0.45.
    let mints = vec![mk_mint(1, "Bears Deluxe", 31)];
    let r = progress_report(&mints, MAX_SUPPLY);
    assert_eq!(r.percent_bp, 45);
    let text = render_progress(&r, MAX_SUPPLY);
    assert!(text.contains("Progress: 0.45%"));
    // 30 of 6900 is 0.4347...%: it rounds down to 0.43.
    let mints = vec![mk_mint(1, "Bears Deluxe", 30)];
    let r = progress_report(&mints, MAX_SUPPLY);
    assert_eq!(r.percent_bp, 43);
}

#[test]
fn progress_beyond_supply_goes_negative() {
    let mints = vec![mk_mint(1, "T", 7000)];
    let r = progress_report(&mints, MAX_SUPPLY);
    assert_eq!(r.remaining, -100);
    let text = render_progress(&r, MAX_SUPPLY);
    assert!(text.ends_with("Remaining: -100"));
}

#[test]
fn summing_counts() {
    assert_eq!(sum_counts(&five_days()), 150);
    assert_eq!(sum_counts(&vec![]), 0);
}

#[test]
fn titles_name_the_project_and_the_window() {
    assert_eq!(chart_title("Bees Deluxe", 0), "Bees Deluxe Historical Mint Activity");
    assert_eq!(chart_title("Honey Hives Deluxe", 30), "Honey Hives Deluxe 30D Mint Activity");
    assert_eq!(chart_title("Bears Deluxe", 7), "Bears Deluxe 7D Mint Activity");
}

#[test]
fn project_name_comes_from_the_first_bucket() {
    assert_eq!(first_token_name(&five_days()).unwrap(), "T");
    assert!(first_token_name(&vec![]).is_none());
}

#[test]
fn chart_points_render_calendar_dates() {
    let mints = vec![mk_mint(0, "T", 3), mk_mint(18993, "T", 4)];
    let points = chart_points(&mints);
    assert_eq!(points.len(), 2);
    assert_eq!(points[0], ("1970-01-01".to_string(), 3));
    assert_eq!(points[1], ("2022-01-01".to_string(), 4));
}

#[test]
fn unix_seconds_render_as_utc_dates() {
    assert_eq!(to_date("0").unwrap(), "1970-01-01");
    assert_eq!(to_date("1640995200").unwrap(), "2022-01-01");
    assert_eq!(to_date("1641081599").unwrap(), "2022-01-01");
    assert_eq!(to_date("1641081600").unwrap(), "2022-01-02");
    assert!(to_date("not-a-number").is_none());
}

#[test]
fn instants_before_the_epoch_render_as_the_day_they_sit_in() {
    assert_eq!(to_date("-1").unwrap(), "1969-12-31");
    assert_eq!(to_date("-86400").unwrap(), "1969-12-31");
    assert_eq!(to_date("-86401").unwrap(), "1969-12-30");
    assert_eq!(to_date("-12219292800").unwrap(), "1582-10-15");
}
