use rsspls::dates::normalize_date;

#[test]
fn iso_date_is_reemitted_per_the_rss_convention() {
    assert_eq!(normalize_date("2024-05-01"), "01 May 2024 00:00:00 GMT");
    assert_eq!(normalize_date("1999-12-31"), "31 Dec 1999 00:00:00 GMT");
    assert_eq!(normalize_date("2024-01-09"), "09 Jan 2024 00:00:00 GMT");
}

#[test]
fn implausible_iso_dates_pass_through_verbatim() {
    assert_eq!(normalize_date("2024-13-01"), "2024-13-01");
    assert_eq!(normalize_date("2024-00-10"), "2024-00-10");
    assert_eq!(normalize_date("2024-05-32"), "2024-05-32");
}

#[test]
fn other_date_texts_pass_through_verbatim() {
    assert_eq!(normalize_date("Mon, 01 Jan 2024 10:00:00 GMT"), "Mon, 01 Jan 2024 10:00:00 GMT");
    assert_eq!(normalize_date("yesterday"), "yesterday");
    assert_eq!(normalize_date(""), "");
    assert_eq!(normalize_date("2024-05-01T10:00:00Z"), "2024-05-01T10:00:00Z");
}
