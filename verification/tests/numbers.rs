use lbxd::binary::{hold_scaled, hold_whole, round_div};
use lbxd::numbers::{convert_duration, format_number, try_format_number};
use lbxd::rating::starrize;

#[test]
fn counts_below_a_thousand_are_written_out() {
    assert_eq!(format_number("0"), "0");
    assert_eq!(format_number("7"), "7");
    assert_eq!(format_number("999"), "999");
}

#[test]
fn thousands_take_one_decimal() {
    assert_eq!(format_number("1000"), "1.0k");
    assert_eq!(format_number("1,234"), "1.2k");
    assert_eq!(format_number("12,345"), "12.3k");
    assert_eq!(format_number("100000"), "100.0k");
    assert_eq!(format_number("999999"), "1000.0k");
}

#[test]
fn millions_take_two_decimals() {
    assert_eq!(format_number("1000000"), "1.00m");
    assert_eq!(format_number("1500000"), "1.50m");
    assert_eq!(format_number("1,234,567"), "1.23m");
    assert_eq!(format_number("123456789"), "123.46m");
}

#[test]
fn counts_are_rounded_as_binary_quotients_are() {
    let cases = [
        ("1050", "1.1k"),
        ("1150", "1.1k"),
        ("1250", "1.2k"),
        ("1350", "1.4k"),
        ("1450", "1.4k"),
        ("1550", "1.6k"),
        ("1650", "1.6k"),
        ("1750", "1.8k"),
        ("1850", "1.9k"),
        ("1950", "1.9k"),
        ("2050", "2.0k"),
        ("4350", "4.3k"),
        ("99950", "100.0k"),
        ("999949", "999.9k"),
        ("999950", "1000.0k"),
        ("999951", "1000.0k"),
        ("999999", "1000.0k"),
        ("1005000", "1.00m"),
        ("1015000", "1.01m"),
        ("1025000", "1.02m"),
        ("1035000", "1.03m"),
        ("1045000", "1.04m"),
        ("1125000", "1.12m"),
        ("1135000", "1.14m"),
        ("1995000", "2.00m"),
        ("1004999", "1.00m"),
        ("1005001", "1.01m"),
        ("123456789", "123.46m"),
        ("9007199254740992", "9007199254.74m"),
        ("9007199254740993", "9007199254.74m"),
        ("9007199254740995", "9007199254.74m"),
        ("18014398509481985", "18014398509.48m"),
        ("9223372036854775807", "9223372036854.78m"),
        ("18446744073709551615", "18446744073709.55m"),
        ("999994999999", "999995.00m"),
        ("999995000000", "999995.00m"),
        ("1000000", "1.00m"),
        ("1000", "1.0k"),
    ];
    for (count, shown) in cases {
        assert_eq!(format_number(count), shown, "{}", count);
    }
}

#[test]
fn a_quotient_held_exactly_halfway_goes_to_the_even_digit() {
    assert_eq!(format_number("1250"), "1.2k");
    assert_eq!(format_number("1750"), "1.8k");
    assert_eq!(format_number("2500"), "2.5k");
    assert_eq!(format_number("1125000"), "1.12m");
    assert_eq!(format_number("1375000"), "1.38m");
}

#[test]
fn a_quotient_held_off_the_half_goes_to_the_nearer_digit() {
    assert_eq!(format_number("1050"), "1.1k");
    assert_eq!(format_number("1150"), "1.1k");
    assert_eq!(format_number("1850"), "1.9k");
    assert_eq!(format_number("1950"), "1.9k");
    assert_eq!(format_number("1015000"), "1.01m");
}

#[test]
fn what_is_no_count_is_refused() {
    assert_eq!(try_format_number(""), None);
    assert_eq!(try_format_number(","), None);
    assert_eq!(try_format_number("12a"), None);
    assert_eq!(try_format_number("-5"), None);
    assert_eq!(try_format_number("99999999999999999999"), None);
    assert_eq!(try_format_number("18446744073709551615"), Some("18446744073709.55m".to_string()));
    assert_eq!(try_format_number("4,321"), Some("4.3k".to_string()));
}

#[test]
fn durations() {
    assert_eq!(convert_duration(0), "0m");
    assert_eq!(convert_duration(59), "59m");
    assert_eq!(convert_duration(60), "1h");
    assert_eq!(convert_duration(90), "1h 30m");
    assert_eq!(convert_duration(125), "2h 5m");
    assert_eq!(convert_duration(u32::MAX), "71582788h 15m");
}

#[test]
fn stars() {
    let whole = "<:lbstar:1061604009783341117>";
    let half = "<:lbhstar:1061603475949096991>";
    assert_eq!(starrize(0), "");
    assert_eq!(starrize(300), whole.repeat(3));
    assert_eq!(starrize(330), whole.repeat(3) + half);
    assert_eq!(starrize(50), half);
    assert_eq!(starrize(24), "");
    assert_eq!(starrize(25), half);
    assert_eq!(starrize(375), whole.repeat(4));
    assert_eq!(starrize(500), whole.repeat(5));
}

#[test]
fn division_rounds_to_the_nearest_and_halves_to_even() {
    assert_eq!(round_div(7, 1), 7);
    assert_eq!(round_div(0, 5), 0);
    assert_eq!(round_div(7, 2), 4);
    assert_eq!(round_div(5, 2), 2);
    assert_eq!(round_div(14, 10), 1);
    assert_eq!(round_div(16, 10), 2);
    assert_eq!(round_div(15, 10), 2);
    assert_eq!(round_div(25, 10), 2);
    assert_eq!(round_div(u128::MAX, 1), u128::MAX);
    assert_eq!(round_div(u128::MAX, u128::MAX), 1);
}

#[test]
fn whole_numbers_are_held_in_53_bits() {
    assert_eq!(hold_whole(0), 0);
    assert_eq!(hold_whole(1_000_000), 1_000_000);
    assert_eq!(hold_whole(9007199254740991), 9007199254740991);
    assert_eq!(hold_whole(9007199254740992), 9007199254740992);
    assert_eq!(hold_whole(9007199254740993), 9007199254740992);
    assert_eq!(hold_whole(9007199254740994), 9007199254740994);
    assert_eq!(hold_whole(9007199254740995), 9007199254740996);
    assert_eq!(hold_whole(u64::MAX), 18446744073709551616);
    for n in [0u64, 1, 999, 123456789, 9007199254740993, 1 << 60, (1 << 63) + 1025, u64::MAX] {
        assert_eq!(hold_whole(n), (n as f64) as u128, "{}", n);
    }
}

#[test]
fn quotients_are_held_and_written_out_in_decimal() {
    assert_eq!(hold_scaled(0, 1000, 10), 0);
    assert_eq!(hold_scaled(1000, 1000, 10), 10);
    assert_eq!(hold_scaled(1050, 1000, 10), 11);
    assert_eq!(hold_scaled(1250, 1000, 10), 12);
    assert_eq!(hold_scaled(1, 3, 100), 33);
    assert_eq!(hold_scaled(2, 3, 100), 67);
    assert_eq!(hold_scaled(1, 8, 100), 12);
    assert_eq!(hold_scaled(3, 8, 100), 38);
    assert_eq!(hold_scaled(9007199254740991, 1, 10), 90071992547409910);
    for p in [1u64, 7, 999, 1050, 14999, 15001, 999_999, 1_004_999, 1_005_000, 123_456_789] {
        for q in [1u64, 3, 7, 1000, 1_000_000] {
            let shown = format!("{:.2}", p as f64 / q as f64).replace('.', "");
            assert_eq!(Ok(hold_scaled(p as u128, q, 100)), shown.parse::<u128>(), "{} / {}", p, q);
        }
    }
}

fn formatted_in_floating_point(n: u64) -> String {
    let number = n as f64;
    if number >= 1_000_000.0 {
        format!("{:.2}m", number / 1_000_000.0)
    } else if number >= 1_000.0 {
        format!("{:.1}k", number / 1_000.0)
    } else {
        format!("{:.0}", number)
    }
}

#[test]
fn counts_are_shown_as_floating_point_shows_them() {
    let mut n: u64 = 0;
    while n < 3_000_000 {
        assert_eq!(format_number(&n.to_string()), formatted_in_floating_point(n), "{}", n);
        n += 50;
    }
    let mut n: u64 = 999_000;
    while n < 1_001_000 {
        assert_eq!(format_number(&n.to_string()), formatted_in_floating_point(n), "{}", n);
        n += 1;
    }
    let mut n: u64 = 1_000_000;
    while n < u64::MAX / 3 {
        for k in [n - 1, n, n + 1, n + 5_000, n + n / 3] {
            assert_eq!(format_number(&k.to_string()), formatted_in_floating_point(k), "{}", k);
        }
        n = n * 2 + 5_000;
    }
    assert_eq!(format_number(&u64::MAX.to_string()), formatted_in_floating_point(u64::MAX));
}
