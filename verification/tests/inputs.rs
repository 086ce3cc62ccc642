use cosmo::color::{parse_hex_color, rgb2hex, CosmoColor};
use cosmo::form::{
    decimal_step, dropdown, dropdown_selection, id_or_generated, is_same_choice, number_box,
    radio_group, slider, use_id, CosmoInputWidth, CosmoTextBoxType,
};
use cosmo::number::{number_input, parse_i64};
use cosmo::picker::{
    date_picker, date_picker_input, date_time_picker, date_time_picker_input, read_date,
    read_date_time, read_time, time_picker, time_picker_input, value_or_previous, write_date,
    write_date_time, write_time, CosmoDate, CosmoDatePickerProps, CosmoDateTime,
    CosmoDateTimePickerProps, CosmoTime, CosmoTimePickerProps,
};
use cosmo::text::str_eq;

fn color(red: u8, green: u8, blue: u8) -> CosmoColor {
    CosmoColor { red, green, blue }
}

fn date(year: i32, month: u32, day: u32) -> CosmoDate {
    CosmoDate { year, month, day }
}

fn time(hour: u32, minute: u32) -> CosmoTime {
    CosmoTime { hour, minute, second: 0, nanosecond: 0 }
}

#[test]
fn text_helpers() {
    assert!(str_eq("abc", "abc"));
    assert!(!str_eq("abc", "abd"));
    assert!(!str_eq("abc", "ab"));
    assert!(str_eq("", ""));
}

#[test]
fn colour_is_written_in_six_lower_case_digits() {
    assert_eq!(rgb2hex(color(0x51, 0x4b, 0x57)), "#514b57");
    assert_eq!(rgb2hex(color(0, 0, 0)), "#000000");
    assert_eq!(rgb2hex(color(255, 255, 255)), "#ffffff");
    assert_eq!(rgb2hex(color(1, 10, 171)), "#010aab");
    assert_eq!(rgb2hex(color(0xff, 0x33, 0x99)), "#ff3399");
}

#[test]
fn colour_is_read_from_six_digits() {
    assert_eq!(parse_hex_color("#514B57"), Some(color(0x51, 0x4b, 0x57)));
    assert_eq!(parse_hex_color("#514b57"), Some(color(0x51, 0x4b, 0x57)));
    assert_eq!(parse_hex_color("#000000"), Some(color(0, 0, 0)));
    assert_eq!(parse_hex_color("#ffffff"), Some(color(255, 255, 255)));
    assert_eq!(parse_hex_color("#0A0b0C"), Some(color(10, 11, 12)));
}

#[test]
fn colour_is_read_from_short_and_opaque_forms() {
    assert_eq!(parse_hex_color("#f39"), Some(color(0xff, 0x33, 0x99)));
    assert_eq!(parse_hex_color("#F39"), Some(color(0xff, 0x33, 0x99)));
    assert_eq!(parse_hex_color("#f390"), Some(color(0xff, 0x33, 0x99)));
    assert_eq!(parse_hex_color("#ff339933"), Some(color(0xff, 0x33, 0x99)));
    assert_eq!(parse_hex_color("#012"), Some(color(0x00, 0x11, 0x22)));
}

#[test]
fn text_that_is_no_colour_gives_nothing() {
    for text in [
        "", "#", "#1", "#12", "#12345", "#1234567", "#123456789", "#ggg", "#12345g", "red",
        "#12 456", " #123456", "#123456 ", "#-12345", "#+12",
    ] {
        assert_eq!(parse_hex_color(text), None, "{text:?}");
    }
}

#[test]
fn text_outside_ascii_is_no_colour() {
    for text in ["é12", "é123", "#12345é", "ü12345", "€1", "#é1", "١٢٣٤", "€123456"] {
        assert_eq!(parse_hex_color(text), None, "{text:?}");
    }
}

#[test]
fn first_character_of_a_colour_is_not_looked_at() {
    assert_eq!(parse_hex_color("0123456"), Some(color(0x12, 0x34, 0x56)));
    assert_eq!(parse_hex_color("xabc"), Some(color(0xaa, 0xbb, 0xcc)));
}

#[test]
fn every_colour_is_read_back_as_written() {
    for red in [0u8, 1, 9, 10, 15, 16, 17, 99, 127, 128, 200, 254, 255] {
        for green in [0u8, 7, 16, 31, 160, 255] {
            for blue in 0..=255u8 {
                let written = rgb2hex(color(red, green, blue));
                assert_eq!(written.len(), 7);
                assert_eq!(parse_hex_color(&written), Some(color(red, green, blue)));
            }
        }
    }
}

#[test]
fn numbers_are_read_as_std_reads_them() {
    for text in [
        "", "0", "7", "25", "-25", "+25", "-0", "+0", "007", "-007", "+", "-", "--1", "+-1",
        "-+1", "1-", "1+", " 1", "1 ", "1 2", "1_000", "1.5", "1e3", "0x10", "a", "12a", "a12",
        "٣", "1٣", "９", "9223372036854775807", "9223372036854775808", "-9223372036854775808",
        "-9223372036854775809", "+9223372036854775807", "+9223372036854775808",
        "92233720368547758070", "-92233720368547758080", "18446744073709551616",
        "000000000000000000000000000001", "-000000000000000000009223372036854775808",
        "99999999999999999999999999", "922337203685477580", "9223372036854775799",
        "-922337203685477581", "\n1", "1\n", "\u{0}", "١",
    ] {
        assert_eq!(parse_i64(text), text.parse::<i64>().ok(), "{text:?}");
    }
}

#[test]
fn numbers_near_the_bounds() {
    assert_eq!(parse_i64("9223372036854775807"), Some(i64::MAX));
    assert_eq!(parse_i64("-9223372036854775808"), Some(i64::MIN));
    assert_eq!(parse_i64("9223372036854775808"), None);
    assert_eq!(parse_i64("-9223372036854775809"), None);
    for number in [i64::MIN, i64::MIN + 1, -10, -1, 0, 1, 9, 10, 11, 99, 100, i64::MAX - 1, i64::MAX]
    {
        assert_eq!(parse_i64(&number.to_string()), Some(number));
    }
}

#[test]
fn number_box_keeps_previous_value_on_bad_input() {
    assert_eq!(number_box("26", 25), 26);
    assert_eq!(number_box("-3", 25), -3);
    assert_eq!(number_box("", 25), 25);
    assert_eq!(number_box("2.5", 25), 25);
    assert_eq!(number_box("abc", 25), 25);
    assert_eq!(slider("46", 45), 46);
    assert_eq!(slider("x", 45), 45);
    assert_eq!(number_input("1", 2), 1);
    assert_eq!(number_input("one", 2), 2);
}

#[test]
fn input_widths() {
    assert_eq!(CosmoInputWidth::Auto.to_string(), "auto");
    assert_eq!(CosmoInputWidth::Small.to_string(), "var(--input-width-small)");
    assert_eq!(CosmoInputWidth::Medium.to_string(), "var(--input-width-medium)");
    assert_eq!(CosmoInputWidth::Large.to_string(), "var(--input-width-large)");
    assert_eq!(CosmoInputWidth::Full.to_string(), "100%");
    assert_eq!(CosmoInputWidth::default(), CosmoInputWidth::Full);
}

#[test]
fn text_box_types() {
    assert_eq!(CosmoTextBoxType::Email.to_string(), "email");
    assert_eq!(CosmoTextBoxType::Password.to_string(), "password");
    assert_eq!(CosmoTextBoxType::Search.to_string(), "search");
    assert_eq!(CosmoTextBoxType::Tel.to_string(), "tel");
    assert_eq!(CosmoTextBoxType::Text.to_string(), "text");
    assert_eq!(CosmoTextBoxType::Url.to_string(), "url");
    assert_eq!(CosmoTextBoxType::default(), CosmoTextBoxType::Text);
}

#[test]
fn given_id_is_kept() {
    assert_eq!(use_id(Some(String::from("name"))), "name");
    assert_eq!(use_id(Some(String::new())), "");
    assert_eq!(id_or_generated(Some(String::from("a")), String::from("b")), "a");
    assert_eq!(id_or_generated(None, String::from("b")), "b");
}

#[test]
fn generated_id_is_a_hyphenated_identifier() {
    let first = use_id(None);
    let second = use_id(None);
    assert_eq!(first.len(), 36);
    assert_eq!(second.len(), 36);
    assert_ne!(first, second);
    for (at, c) in first.chars().enumerate() {
        if at == 8 || at == 13 || at == 18 || at == 23 {
            assert_eq!(c, '-');
        } else {
            assert!(c.is_ascii_hexdigit() && !c.is_ascii_uppercase());
        }
    }
}

#[test]
fn decimal_steps() {
    assert_eq!(decimal_step(1), "0.1");
    assert_eq!(decimal_step(2), "0.01");
    assert_eq!(decimal_step(3), "0.001");
    assert_eq!(decimal_step(5), "0.00001");
    assert_eq!(decimal_step(255).len(), 257);
}

#[test]
fn dropdown_reports_no_choice_for_the_word_none() {
    assert_eq!(dropdown_selection("None"), None);
    assert_eq!(dropdown_selection("none"), Some(String::from("none")));
    assert_eq!(dropdown_selection(""), Some(String::new()));
    assert_eq!(dropdown_selection("1"), Some(String::from("1")));
}

#[test]
fn dropdown_marks_the_options_with_its_value() {
    let ids = vec![None, Some(String::from("light")), Some(String::from("dark"))];
    assert_eq!(dropdown(&None, &ids), vec![true, false, false]);
    assert_eq!(dropdown(&Some(String::from("dark")), &ids), vec![false, false, true]);
    assert_eq!(dropdown(&Some(String::from("blue")), &ids), vec![false, false, false]);
    assert!(is_same_choice(&None, &None));
    assert!(!is_same_choice(&None, &Some(String::new())));
    assert!(!is_same_choice(&Some(String::new()), &None));
}

#[test]
fn radio_group_checks_the_options_with_its_value() {
    let options = vec![String::from("0"), String::from("1"), String::from("2")];
    assert_eq!(radio_group("1", &options), vec![false, true, false]);
    assert_eq!(radio_group("3", &options), vec![false, false, false]);
    let twice = vec![String::from("1"), String::from("1")];
    assert_eq!(radio_group("1", &twice), vec![true, true]);
}

#[test]
fn dates_are_read() {
    assert_eq!(read_date("2001-07-08"), Some(date(2001, 7, 8)));
    assert_eq!(read_date("2024-02-29"), Some(date(2024, 2, 29)));
    assert_eq!(read_date("2023-02-29"), None);
    assert_eq!(read_date("2023-13-01"), None);
    assert_eq!(read_date(""), None);
    assert_eq!(read_date("yesterday"), None);
    assert_eq!(read_date("2001-07-08T00:34"), None);
}

#[test]
fn times_are_read() {
    assert_eq!(read_time("00:34"), Some(time(0, 34)));
    assert_eq!(read_time("23:59"), Some(time(23, 59)));
    assert_eq!(read_time("24:00"), None);
    assert_eq!(read_time("12:60"), None);
    assert_eq!(read_time(""), None);
    assert_eq!(read_time("noon"), None);
}

#[test]
fn dates_with_times_are_read() {
    assert_eq!(
        read_date_time("2001-07-08T00:34"),
        Some(CosmoDateTime { date: date(2001, 7, 8), time: time(0, 34) })
    );
    assert_eq!(read_date_time("2001-07-08 00:34"), None);
    assert_eq!(read_date_time("2001-07-08"), None);
    assert_eq!(read_date_time("2001-02-30T00:34"), None);
    assert_eq!(read_date_time(""), None);
}

#[test]
fn dates_and_times_are_written() {
    assert_eq!(write_date(date(2001, 7, 8)), Some(String::from("2001-07-08")));
    assert_eq!(write_date(date(1, 1, 1)), Some(String::from("0001-01-01")));
    assert_eq!(write_date(date(2023, 2, 29)), None);
    assert_eq!(write_date(date(2023, 0, 1)), None);
    assert_eq!(write_time(time(0, 34)), Some(String::from("00:34")));
    assert_eq!(
        write_time(CosmoTime { hour: 9, minute: 5, second: 59, nanosecond: 999 }),
        Some(String::from("09:05"))
    );
    assert_eq!(write_time(time(24, 0)), None);
    assert_eq!(
        write_date_time(CosmoDateTime { date: date(2001, 7, 8), time: time(0, 34) }),
        Some(String::from("2001-07-08T00:34"))
    );
    assert_eq!(write_date_time(CosmoDateTime { date: date(2001, 7, 8), time: time(0, 60) }), None);
    assert_eq!(write_date_time(CosmoDateTime { date: date(2001, 7, 32), time: time(0, 0) }), None);
}

#[test]
fn written_dates_are_read_back() {
    for (year, month, day) in [(1970, 1, 1), (1999, 12, 31), (2000, 2, 29), (2024, 10, 27)] {
        let written = write_date(date(year, month, day)).unwrap();
        assert_eq!(read_date(&written), Some(date(year, month, day)));
    }
    for (hour, minute) in [(0, 0), (9, 5), (12, 30), (23, 59)] {
        let written = write_time(time(hour, minute)).unwrap();
        assert_eq!(read_time(&written), Some(time(hour, minute)));
    }
}

#[test]
fn date_picker_keeps_previous_value_on_bad_input() {
    let previous = date(2020, 1, 2);
    assert_eq!(date_picker_input("2021-03-04", previous), date(2021, 3, 4));
    assert_eq!(date_picker_input("", previous), previous);
    assert_eq!(date_picker_input("2021-02-30", previous), previous);
    assert_eq!(value_or_previous(Some(1), 2), 1);
    assert_eq!(value_or_previous(None, 2), 2);
}

#[test]
fn time_picker_keeps_previous_value_on_bad_input() {
    let previous = CosmoTime { hour: 1, minute: 2, second: 3, nanosecond: 4 };
    assert_eq!(time_picker_input("05:06", previous), time(5, 6));
    assert_eq!(time_picker_input("", previous), previous);
    assert_eq!(time_picker_input("25:00", previous), previous);
}

#[test]
fn date_time_picker_reports_nothing_on_bad_input() {
    assert_eq!(
        date_time_picker_input("2021-03-04T05:06"),
        Some(CosmoDateTime { date: date(2021, 3, 4), time: time(5, 6) })
    );
    assert_eq!(date_time_picker_input(""), None);
    assert_eq!(date_time_picker_input("2021-03-04"), None);
}

#[test]
fn pickers_write_value_and_given_bounds() {
    let dates = date_picker(&CosmoDatePickerProps {
        value: date(2021, 3, 4),
        min: Some(date(2021, 1, 1)),
        max: None,
    });
    assert_eq!(dates.value, Some(String::from("2021-03-04")));
    assert_eq!(dates.min, Some(String::from("2021-01-01")));
    assert_eq!(dates.max, None);
    let times = time_picker(&CosmoTimePickerProps {
        value: time(5, 6),
        min: None,
        max: Some(time(23, 0)),
    });
    assert_eq!(times.value, Some(String::from("05:06")));
    assert_eq!(times.min, None);
    assert_eq!(times.max, Some(String::from("23:00")));
    let at = CosmoDateTime { date: date(2021, 3, 4), time: time(5, 6) };
    let both = date_time_picker(&CosmoDateTimePickerProps { value: at, min: Some(at), max: Some(at) });
    assert_eq!(both.value, Some(String::from("2021-03-04T05:06")));
    assert_eq!(both.min, Some(String::from("2021-03-04T05:06")));
    assert_eq!(both.max, Some(String::from("2021-03-04T05:06")));
}

#[test]
fn colour_box_writes_the_shortest_form() {
    assert_eq!(cosmo::color::colorbox(color(0xff, 0x33, 0x99)), "#f39");
    assert_eq!(cosmo::color::colorbox(color(0, 0, 0)), "#000");
    assert_eq!(cosmo::color::colorbox(color(255, 255, 255)), "#fff");
    assert_eq!(cosmo::color::colorbox(color(0x51, 0x4b, 0x57)), "#514b57");
    assert_eq!(cosmo::color::colorbox(color(0xff, 0x33, 0x98)), "#ff3398");
    assert_eq!(cosmo::color::colorbox(color(0x10, 0x22, 0x33)), "#102233");
    assert_eq!(cosmo::color::colorbox(color(0xaa, 0xbb, 0xcd)), "#aabbcd");
}

#[test]
fn every_colour_is_read_back_from_its_shortest_form() {
    for red in [0u8, 1, 0x11, 0x12, 0x21, 0x22, 0x7f, 0x88, 0xee, 0xef, 0xfe, 0xff] {
        for green in [0u8, 0x11, 0x12, 0xaa, 0xab, 0xff] {
            for blue in 0..=255u8 {
                let written = cosmo::color::colorbox(color(red, green, blue));
                let doubled = red / 16 == red % 16 && green / 16 == green % 16 && blue / 16 == blue % 16;
                assert_eq!(written.len(), if doubled { 4 } else { 7 });
                assert_eq!(parse_hex_color(&written), Some(color(red, green, blue)));
            }
        }
    }
}

#[test]
fn numbers_are_written_as_std_writes_them() {
    for number in [
        i64::MIN,
        i64::MIN + 1,
        -9223372036854775807,
        -1000000000000000000,
        -4294967296,
        -1001,
        -1000,
        -100,
        -99,
        -11,
        -10,
        -9,
        -1,
        0,
        1,
        9,
        10,
        11,
        25,
        99,
        100,
        101,
        1000,
        65535,
        4294967295,
        1000000000000000000,
        i64::MAX - 1,
        i64::MAX,
    ] {
        assert_eq!(cosmo::number::write_i64(number), number.to_string());
    }
    for number in [0u64, 7, 10, 19, 100, 18446744073709551615] {
        assert_eq!(cosmo::number::write_u64(number), number.to_string());
    }
}

#[test]
fn every_written_number_is_read_back() {
    let mut number: i64 = 1;
    for _ in 0..62 {
        for probe in [number - 1, number, number + 1, -number, -number - 1, 1 - number] {
            assert_eq!(parse_i64(&cosmo::number::write_i64(probe)), Some(probe));
        }
        number *= 2;
    }
    assert_eq!(parse_i64(&cosmo::number::write_i64(i64::MIN)), Some(i64::MIN));
    assert_eq!(parse_i64(&cosmo::number::write_i64(i64::MAX)), Some(i64::MAX));
    assert_eq!(number_box(&cosmo::number::write_i64(-25), 0), -25);
}
