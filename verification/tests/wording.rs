use file_manager::config::OperationType;
use file_manager::messages::{
    completed, copy_failed, copying_file, hundredths_of_megabytes_per_minute, kind_word,
    rate_note, two_decimals, type_line,
};
use file_manager::text::{concat2, concat3, concat4, concat5, concat7, push_decimal, push_line};

#[test]
fn hundredths_round_to_the_nearest_and_ties_to_even() {
    assert_eq!(hundredths_of_megabytes_per_minute(0), 0);
    assert_eq!(hundredths_of_megabytes_per_minute(1048576), 6000);
    // 87 bytes per second are 0.4978 hundredths, 88 are 0.5035
    assert_eq!(hundredths_of_megabytes_per_minute(87), 0);
    assert_eq!(hundredths_of_megabytes_per_minute(88), 1);
    // 187.5, 562.5 and 937.5 hundredths
    assert_eq!(hundredths_of_megabytes_per_minute(32768), 188);
    assert_eq!(hundredths_of_megabytes_per_minute(98304), 562);
    assert_eq!(hundredths_of_megabytes_per_minute(163840), 938);
    assert_eq!(hundredths_of_megabytes_per_minute(u64::MAX), 105553116266496000);
}

#[test]
fn two_decimals_always_shows_two_digits() {
    assert_eq!(two_decimals(0), "0.00");
    assert_eq!(two_decimals(5), "0.05");
    assert_eq!(two_decimals(50), "0.50");
    assert_eq!(two_decimals(188), "1.88");
    assert_eq!(two_decimals(6000), "60.00");
    assert_eq!(two_decimals(123456), "1234.56");
}

#[test]
fn rate_note_for_a_file_and_for_a_directory() {
    assert_eq!(rate_note(false, 1048576), "  Rate limiting: 1048576 bytes/second (60.00 MB/min)");
    assert_eq!(
        rate_note(true, 32768),
        "  Directory rate limiting: 32768 bytes/second (1.88 MB/min)"
    );
}

#[test]
fn wording_of_some_lines() {
    assert_eq!(kind_word(OperationType::Copy), "Copy");
    assert_eq!(kind_word(OperationType::Move), "Move");
    assert_eq!(type_line(OperationType::Move), "  Type: Move");
    assert_eq!(completed("Nightly backup"), "Completed: Nightly backup");
    assert_eq!(copying_file(12, "src/a b"), "  Copying file 12/?: src/a b");
    assert_eq!(
        copy_failed("disk full", "a", "b"),
        "Copy failed: disk full (from a to b)"
    );
}

#[test]
fn pieces_are_joined_in_order() {
    assert_eq!(concat2("a", "b"), "ab");
    assert_eq!(concat3("a", "", "c"), "ac");
    assert_eq!(concat4("1", "2", "3", "4"), "1234");
    assert_eq!(concat5("1", "2", "3", "4", "5"), "12345");
    assert_eq!(concat7("1", "2", "3", "4", "5", "6", "7"), "1234567");
    let mut text = String::from("n=");
    push_decimal(&mut text, 4096);
    push_decimal(&mut text, 0);
    assert_eq!(text, "n=40960");
    let mut log: Vec<String> = vec!["first".to_string()];
    push_line(&mut log, "second".to_string());
    assert_eq!(log, vec!["first", "second"]);
}
