use contact::contact::Contact;
use contact::database::Record;
use contact::render::{
    decimal_text, header_text, line_text, listing_lines, listing_text, pad, search_lines,
    search_text,
};
use contact::search::like_pattern;

#[test]
fn decimal_of_small_numbers() {
    assert_eq!(decimal_text(0), "0");
    assert_eq!(decimal_text(7), "7");
    assert_eq!(decimal_text(10), "10");
    assert_eq!(decimal_text(1234567890), "1234567890");
}

#[test]
fn decimal_of_negative_numbers() {
    assert_eq!(decimal_text(-1), "-1");
    assert_eq!(decimal_text(-120), "-120");
}

#[test]
fn decimal_of_the_extremes() {
    assert_eq!(decimal_text(i64::MAX), "9223372036854775807");
    assert_eq!(decimal_text(i64::MIN), "-9223372036854775808");
}

#[test]
fn decimal_agrees_with_the_standard_rendering() {
    let numbers: [i64; 8] = [0, 9, 10, 99, 100, 101, -9, -1000];
    for n in numbers {
        assert_eq!(decimal_text(n), format!("{}", n));
    }
}

#[test]
fn pad_fills_short_texts_on_the_right() {
    assert_eq!(pad("ab", 5), "ab   ");
    assert_eq!(pad("", 3), "   ");
}

#[test]
fn pad_leaves_long_texts_alone() {
    assert_eq!(pad("abcde", 5), "abcde");
    assert_eq!(pad("abcdef", 5), "abcdef");
    assert_eq!(pad("abc", 0), "abc");
}

#[test]
fn pad_counts_characters_not_bytes() {
    assert_eq!(pad("Zoë", 5), "Zoë  ");
    assert_eq!(pad("Zoë", 5), format!("{:<5}", "Zoë"));
}

#[test]
fn header_has_the_six_columns() {
    assert_eq!(
        header_text(),
        format!(
            "{:<5}{:<10}{:<10}{:<35}{:<15}{:<10}",
            "Id", "Forename", "Surname", "Email", "Organisation", "Telephone"
        )
    );
    assert_eq!(
        header_text(),
        "Id   Forename  Surname   Email                              Organisation   Telephone "
    );
}

#[test]
fn line_shows_a_record_in_columns() {
    let mut contact = Contact::new("Ada", "Lovelace", "ada@example.com").unwrap();
    contact.set_organisation("Engines").unwrap();
    let record = Record::new(7, contact);
    assert_eq!(
        line_text(&record),
        "7    Ada       Lovelace  ada@example.com                    Engines        None      "
    );
}

#[test]
fn line_does_not_cut_long_texts() {
    let mut contact = Contact::new("Maximiliana", "Lovelace", "m@example.com").unwrap();
    contact.set_telephone("00441234567890").unwrap();
    let record = Record::new(123456, contact);
    assert_eq!(
        line_text(&record),
        format!(
            "{:<5}{:<10}{:<10}{:<35}{:<15}{:<10}",
            123456, "Maximiliana", "Lovelace", "m@example.com", "None", "00441234567890"
        )
    );
}

#[test]
fn listing_is_the_header_and_a_line_for_each_record() {
    let records = vec![
        Record::new(2, Contact::new("Ada", "Lovelace", "ada@example.com").unwrap()),
        Record::new(1, Contact::new("Alan", "Turing", "alan@example.com").unwrap()),
    ];
    let lines = listing_text(&records);
    assert_eq!(lines.len(), 3);
    assert_eq!(lines[0], header_text());
    assert_eq!(lines[1], line_text(&records[0]));
    assert_eq!(lines[2], line_text(&records[1]));
}

#[test]
fn search_text_counts_and_lists_the_contacts() {
    let contacts = vec![
        Contact::new("Ada", "Lovelace", "ada@example.com").unwrap(),
        Contact::new("Alan", "Turing", "alan@example.com").unwrap(),
    ];
    let lines = search_text(&contacts);
    assert_eq!(
        lines,
        vec![
            String::from("2 result(s):"),
            String::from("ada@example.com\tAda Lovelace"),
            String::from("alan@example.com\tAlan Turing"),
        ]
    );
}

#[test]
fn search_text_of_one_contact() {
    let contacts = vec![Contact::new("Ada", "Lovelace", "ada@example.com").unwrap()];
    assert_eq!(search_text(&contacts)[0], "1 result(s):");
}

#[test]
fn pattern_wraps_the_needle() {
    assert_eq!(like_pattern("love"), "%love%");
    assert_eq!(like_pattern(""), "%%");
    assert_eq!(like_pattern("Zoë"), "%Zoë%");
}

#[test]
fn pattern_escapes_the_wildcards() {
    assert_eq!(like_pattern("100%"), "%100\\%%");
    assert_eq!(like_pattern("a_b"), "%a\\_b%");
    assert_eq!(like_pattern("a\\b"), "%a\\\\b%");
    assert_eq!(like_pattern("%_\\"), "%\\%\\_\\\\%");
}

#[test]
fn record_pairs_an_identifier_with_a_value() {
    let record = Record::new(42, String::from("value"));
    assert_eq!(record.id(), 42);
    assert_eq!(record.record(), "value");
    let negative = Record::new(-1, 5u8);
    assert_eq!(negative.id(), -1);
    assert_eq!(*negative.record(), 5u8);
}

#[test]
fn nothing_stored_shows_nothing() {
    assert!(listing_lines(&None).is_empty());
    assert!(search_lines(&None).is_empty());
}

#[test]
fn records_found_are_shown_as_their_listing() {
    let records = vec![
        Record::new(2, Contact::new("Ada", "Lovelace", "ada@example.com").unwrap()),
        Record::new(1, Contact::new("Alan", "Turing", "alan@example.com").unwrap()),
    ];
    let expected = listing_text(&records);
    assert_eq!(expected.len(), 3);
    assert_eq!(listing_lines(&Some(records)), expected);
}

#[test]
fn contacts_found_are_shown_as_their_search_result() {
    let contacts = vec![Contact::new("Ada", "Lovelace", "ada@example.com").unwrap()];
    assert_eq!(
        search_lines(&Some(contacts)),
        vec![String::from("1 result(s):"), String::from("ada@example.com\tAda Lovelace")]
    );
}
