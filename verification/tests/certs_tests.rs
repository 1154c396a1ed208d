use chrono::Datelike;
use czn_core::certs::{
    filetime_ticks_to_unix_ns, format_dmy, format_hex_colon, prepare_signature_message,
    CertificateInfo,
};
use czn_core::dates::{current_round_anchor, preceding_week, round_anchor_of};
use czn_core::search::{contains_chars, filter_certificates};

fn cert(subject: &str) -> CertificateInfo {
    CertificateInfo {
        subject_name: subject.to_string(),
        issuer_name: "CN=УЦ Тест".to_string(),
        serial_number: "01:AB".to_string(),
        thumbprint: "AA:BB".to_string(),
        valid_from: "01.01.2024".to_string(),
        valid_to: "01.01.2026".to_string(),
    }
}

#[test]
fn hex_rendering_pairs_bytes_with_colons() {
    assert_eq!(format_hex_colon(&vec![0xAB, 0x01, 0xFF]), "AB:01:FF");
    assert_eq!(format_hex_colon(&vec![0x00]), "00");
    assert_eq!(format_hex_colon(&vec![]), "");
}

#[test]
fn file_times_convert_to_unix_nanoseconds() {
    // The tick count of the Unix epoch itself.
    assert_eq!(filetime_ticks_to_unix_ns(116_444_736_000_000_000), Some(0));
    // One second later.
    assert_eq!(
        filetime_ticks_to_unix_ns(116_444_736_010_000_000),
        Some(1_000_000_000)
    );
    // Before the Unix epoch there is no rendering.
    assert_eq!(filetime_ticks_to_unix_ns(0), None);
}

#[test]
fn validity_dates_render_zero_padded() {
    assert_eq!(format_dmy(1, 2, 2024), "01.02.2024");
    assert_eq!(format_dmy(15, 12, 987), "15.12.0987");
    assert_eq!(format_dmy(31, 10, 2025), "31.10.2025");
}

#[test]
fn certificate_details_list_the_fields() {
    let c = cert("CN=Иванов Пётр");
    assert_eq!(
        c.details(),
        "CN=Иванов Пётр\nВыдан: CN=УЦ Тест\nСерийный номер: 01:AB\nДействителен с: 01.01.2024 по: 01.01.2026"
    );
}

#[test]
fn the_signing_message_names_the_subject() {
    assert_eq!(
        prepare_signature_message(&cert("CN=Иванов")),
        "Подпись файла с помощью: CN=Иванов"
    );
}

#[test]
fn substring_search_finds_and_misses() {
    assert!(contains_chars("hello world", "o w"));
    assert!(contains_chars("hello", ""));
    assert!(!contains_chars("hello", "worlds"));
    assert!(!contains_chars("ab", "abc"));
}

#[test]
fn the_search_is_blind_to_case_and_keeps_the_order() {
    let certs = vec![
        cert("CN=ИВАНОВ Пётр"),
        cert("CN=Сидоров Павел"),
        cert("CN=иванова Анна"),
    ];
    let hits = filter_certificates(&certs, "иванов");
    assert_eq!(hits.len(), 2);
    assert_eq!(hits[0].subject_name, "CN=ИВАНОВ Пётр");
    assert_eq!(hits[1].subject_name, "CN=иванова Анна");
    let all = filter_certificates(&certs, "");
    assert_eq!(all.len(), 3);
}

#[test]
fn the_round_anchor_agrees_with_the_calendar() {
    let before = chrono::Local::now().date_naive().num_days_from_ce();
    let (today, weekday) = current_round_anchor().expect("the clock is in range");
    let after = chrono::Local::now().date_naive().num_days_from_ce();
    assert!(today == before || today == after);
    let date = chrono::NaiveDate::from_num_days_from_ce_opt(today).unwrap();
    assert_eq!(weekday as u32, date.weekday().num_days_from_monday());
}

#[test]
fn the_anchor_holds_the_day_and_its_weekday_exactly_in_range() {
    // 2024-01-10, a Wednesday.
    let today = chrono::NaiveDate::from_ymd_opt(2024, 1, 10).unwrap().num_days_from_ce();
    let (day, weekday) = round_anchor_of(today).expect("an ordinary day anchors a round");
    assert_eq!(day, today);
    assert_eq!(weekday, 2);
    assert!(round_anchor_of(0).is_none());
    assert!(round_anchor_of(10_000_000).is_none());
}

#[test]
fn the_preceding_week_is_seven_days_ending_last_sunday() {
    // 2024-01-10, a Wednesday, with weekday index 2.
    let today = chrono::NaiveDate::from_ymd_opt(2024, 1, 10).unwrap().num_days_from_ce();
    let monday = chrono::NaiveDate::from_ymd_opt(2024, 1, 1).unwrap().num_days_from_ce();
    let sunday = chrono::NaiveDate::from_ymd_opt(2024, 1, 7).unwrap().num_days_from_ce();
    assert_eq!(preceding_week(today, 2), (monday, sunday));
}
