use circuit_keyset::location::{
    location_from_string, location_unknown, parse_number, Location,
};

fn shown(location: &Location) -> String {
    match location {
        Location::Unknown => "?".to_string(),
        Location::File(file) => format!("[{file}]"),
        Location::Line(file, line) => format!("[{file}]@{line}"),
        Location::LineColumn(file, line, column) => format!("[{file}]@{line}@{column}"),
    }
}

fn read(text: &str) -> String {
    match Location::try_from_string(text) {
        Some(location) => shown(&location),
        None => "none".to_string(),
    }
}

#[test]
fn unknown_location() {
    assert!(matches!(*location_unknown(), Location::Unknown));
}

#[test]
fn file_only() {
    let location = location_from_string("a.rs");
    assert!(matches!(&*location, Location::File(file) if file == "a.rs"));
}

#[test]
fn file_and_line() {
    let location = location_from_string("a.rs:10");
    assert!(matches!(&*location, Location::Line(file, 10) if file == "a.rs"));
}

#[test]
fn file_line_and_column() {
    let location = location_from_string("a.rs:10:4");
    assert!(matches!(&*location, Location::LineColumn(file, 10, 4) if file == "a.rs"));
}

#[test]
fn any_other_count_of_pieces_is_unknown() {
    assert!(matches!(*location_from_string("a.rs:10:4:1"), Location::Unknown));
    assert!(matches!(*location_from_string(":::"), Location::Unknown));
    assert!(matches!(*location_from_string("a:b:c:d:e"), Location::Unknown));
    assert!(matches!(*location_from_string("x:y:z:"), Location::Unknown));
}

#[test]
fn pieces_may_be_empty() {
    assert_eq!(read(""), "[]");
    assert_eq!(read(":7"), "[]@7");
    assert_eq!(read(":7:8"), "[]@7@8");
    assert_eq!(read("a.rs:"), "none");
    assert_eq!(read("a.rs::"), "none");
    assert_eq!(read("a.rs:1:"), "none");
    assert_eq!(read("a.rs::1"), "none");
    assert_eq!(read(":"), "none");
}

#[test]
fn lines_and_columns_must_be_numbers() {
    assert_eq!(read("a.rs:x"), "none");
    assert_eq!(read("a.rs:10:y"), "none");
    assert_eq!(read("a.rs:z:4"), "none");
    assert_eq!(read("a.rs: 10"), "none");
    assert_eq!(read("a.rs:10 "), "none");
    assert_eq!(read("a.rs:-1"), "none");
    assert_eq!(read("a.rs:1_0"), "none");
    assert_eq!(read("a.rs:+"), "none");
    assert_eq!(read("a.rs:+12"), "[a.rs]@12");
    assert_eq!(read("a.rs:007:0"), "[a.rs]@7@0");
    assert_eq!(read("a.rs:99999999999999999999999999"), "none");
    assert_eq!(read(&format!("a.rs:{}", usize::MAX)), format!("[a.rs]@{}", usize::MAX));
}

#[test]
fn file_names_are_kept_as_they_are() {
    assert_eq!(read("dir/büro.rs"), "[dir/büro.rs]");
    assert_eq!(read("dir/büro.rs:3"), "[dir/büro.rs]@3");
    assert_eq!(read("日本語:3:44"), "[日本語]@3@44");
    assert_eq!(read("a b"), "[a b]");
    assert_eq!(read("12"), "[12]");
}

#[test]
fn location_clone_is_equal() {
    for text in ["a.rs", "a.rs:1", "a.rs:1:2", "a:b:c:d"] {
        let location = location_from_string(text);
        assert_eq!(shown(&location.clone()), shown(&location));
    }
}

#[test]
fn parse_number_agrees_with_std() {
    let max = usize::MAX.to_string();
    let over = format!("{}0", usize::MAX);
    let next = {
        // usize::MAX + 1, written out.
        let mut digits: Vec<u8> = max.bytes().collect();
        let mut i = digits.len();
        loop {
            i -= 1;
            if digits[i] == b'9' {
                digits[i] = b'0';
            } else {
                digits[i] += 1;
                break;
            }
        }
        String::from_utf8(digits).unwrap()
    };
    let zeros = format!("{}{}", "0".repeat(40), 5);
    let cases: Vec<&str> = vec![
        "", "0", "1", "9", "10", "42", "007", "+", "-", "+0", "+7", "++7", "+-7", "-7", "-0", "7+",
        " 7", "7 ", "1_000", "12a", "a12", "1.5", "0x10", "١٢", "１２", "٣", "4294967295",
        "4294967296", "18446744073709551615", "18446744073709551616", "99999999999999999999",
        &max, &over, &next, &zeros, "+000", ":", "1:2",
    ];
    for text in cases {
        assert_eq!(parse_number(text), text.parse::<usize>().ok(), "{text:?}");
    }
}
