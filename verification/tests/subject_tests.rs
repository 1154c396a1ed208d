use czn_core::subject::{attr_value, extract_attr, extract_surname_or_cn};

#[test]
fn extract_attr_finds_a_value_after_its_key() {
    let dn = "CN=Иванов Пётр, SN=Иванов, INN=771234567890";
    assert_eq!(extract_attr(dn, "CN=").unwrap(), "Иванов Пётр");
    assert_eq!(extract_attr(dn, "SN=").unwrap(), "Иванов");
    assert_eq!(extract_attr(dn, "INN=").unwrap(), "771234567890");
}

#[test]
fn extract_attr_returns_none_for_an_absent_key() {
    assert!(extract_attr("CN=Имя, SN=Фамилия", "OU=").is_none());
    assert!(extract_attr("", "CN=").is_none());
}

#[test]
fn extract_attr_takes_the_first_matching_part() {
    let dn = "O=Росток, CN=первый, CN=второй";
    assert_eq!(extract_attr(dn, "CN=").unwrap(), "первый");
}

#[test]
fn extract_attr_strips_blanks_around_parts_only() {
    assert_eq!(extract_attr("  CN=значение  , O=х", "CN=").unwrap(), "значение");
}

#[test]
fn attr_value_falls_back_to_the_empty_string() {
    assert_eq!(attr_value("CN=Имя", "CN="), "Имя");
    assert_eq!(attr_value("CN=Имя", "SN="), "");
}

#[test]
fn surname_is_preferred_then_common_name_then_first_part() {
    assert_eq!(
        extract_surname_or_cn("CN=Пётр, SN=Иванов").unwrap(),
        "Иванов"
    );
    assert_eq!(extract_surname_or_cn("O=Фирма, CN=Пётр").unwrap(), "Пётр");
    assert_eq!(extract_surname_or_cn(" G=Пётр , L=Москва").unwrap(), "G=Пётр");
}
