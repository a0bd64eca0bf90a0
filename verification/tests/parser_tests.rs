use journai::date::Date;
use journai::entry::JournalEntry;
use journai::entry::Rate;
use journai::error::EntryFault;
use journai::error::EntryField;
use journai::parser::check_shape;
use journai::parser::entry_with_date;
use journai::parser::parse_entry;
use journai::parser::read_entry;
use journai::parser::Field;
use journai::parser::RawEntry;

fn rate(value: f64) -> Rate {
    Rate { bits: value.to_bits() }
}

fn entry(year: i32, month: u32, day: u32, score: f64, summary: &str) -> JournalEntry {
    JournalEntry {
        date: Date::from_ymd(year, month, day).expect("the day exists"),
        rate: rate(score),
        short_summary: summary.to_string(),
    }
}

#[test]
fn a_well_formed_completion_is_read_as_its_entry() {
    let text = r#"{"date":"2024-03-01","rate":0.8,"short_summary":"Productive day"}"#;
    assert_eq!(parse_entry(text), Ok(entry(2024, 3, 1, 0.8, "Productive day")));
}

#[test]
fn the_score_is_the_number_that_was_written() {
    let read = parse_entry(r#"{"date":"2024-03-01","rate":0.3,"short_summary":"Tired"}"#)
        .expect("the text is an entry");
    assert_eq!(f64::from_bits(read.rate.bits), 0.3);
    assert_eq!(f64::from_bits(read.rate.bits) as f32, 0.3f32);
}

#[test]
fn a_whole_number_is_a_score_too() {
    let text = r#"{"date":"2024-03-01","rate":7,"short_summary":"Fine"}"#;
    assert_eq!(parse_entry(text), Ok(entry(2024, 3, 1, 7.0, "Fine")));
    let negative = r#"{"date":"2024-03-01","rate":-2,"short_summary":"Bad"}"#;
    assert_eq!(parse_entry(negative), Ok(entry(2024, 3, 1, -2.0, "Bad")));
}

#[test]
fn the_score_has_no_range() {
    let text = r#"{"date":"2024-03-01","rate":1e9,"short_summary":"Huge"}"#;
    assert_eq!(parse_entry(text), Ok(entry(2024, 3, 1, 1e9, "Huge")));
}

#[test]
fn the_order_of_the_members_and_the_spacing_do_not_matter() {
    let text = "  {\n \"short_summary\" : \"Calm\",\n \"rate\" : 0.5 ,\n \"date\" : \"2023-12-31\" }\n";
    assert_eq!(parse_entry(text), Ok(entry(2023, 12, 31, 0.5, "Calm")));
}

#[test]
fn members_under_other_keys_are_ignored() {
    let text = r#"{"date":"2024-03-01","mood":"ok","rate":0.8,"short_summary":"x","tags":[1,2]}"#;
    assert_eq!(parse_entry(text), Ok(entry(2024, 3, 1, 0.8, "x")));
}

#[test]
fn escapes_in_the_summary_are_resolved() {
    let text = r#"{"date":"2024-03-01","rate":0.8,"short_summary":"\"Quiet\"\nété"}"#;
    assert_eq!(parse_entry(text), Ok(entry(2024, 3, 1, 0.8, "\"Quiet\"\nété")));
}

#[test]
fn a_text_that_is_no_json_is_a_syntax_fault() {
    for text in ["Sure! Here is your entry.", "", "{", "{\"date\":}", "{} trailing"] {
        match parse_entry(text) {
            Err(EntryFault::Syntax(message)) => assert!(!message.is_empty()),
            other => panic!("expected a syntax fault for {:?}, got {:?}", text, other),
        }
    }
}

#[test]
fn the_syntax_fault_carries_the_parser_s_message() {
    assert_eq!(
        parse_entry("not json"),
        Err(EntryFault::Syntax("expected ident at line 1 column 2".to_string()))
    );
    assert_eq!(
        parse_entry(""),
        Err(EntryFault::Syntax("EOF while parsing a value at line 1 column 0".to_string()))
    );
}

#[test]
fn each_missing_field_is_named() {
    assert_eq!(
        parse_entry(r#"{"rate":0.8,"short_summary":"x"}"#),
        Err(EntryFault::MissingField(EntryField::Date))
    );
    assert_eq!(
        parse_entry(r#"{"date":"2024-03-01","short_summary":"x"}"#),
        Err(EntryFault::MissingField(EntryField::Rate))
    );
    assert_eq!(
        parse_entry(r#"{"date":"2024-03-01","rate":0.8}"#),
        Err(EntryFault::MissingField(EntryField::ShortSummary))
    );
}

#[test]
fn each_field_of_the_wrong_type_is_named() {
    assert_eq!(
        parse_entry(r#"{"date":20240301,"rate":0.8,"short_summary":"x"}"#),
        Err(EntryFault::WrongType(EntryField::Date))
    );
    assert_eq!(
        parse_entry(r#"{"date":"2024-03-01","rate":"0.8","short_summary":"x"}"#),
        Err(EntryFault::WrongType(EntryField::Rate))
    );
    assert_eq!(
        parse_entry(r#"{"date":"2024-03-01","rate":0.8,"short_summary":null}"#),
        Err(EntryFault::WrongType(EntryField::ShortSummary))
    );
    assert_eq!(
        parse_entry(r#"{"date":"2024-03-01","rate":true,"short_summary":"x"}"#),
        Err(EntryFault::WrongType(EntryField::Rate))
    );
}

#[test]
fn the_first_faulty_field_in_the_order_date_score_summary_is_the_fault() {
    assert_eq!(parse_entry("{}"), Err(EntryFault::MissingField(EntryField::Date)));
    assert_eq!(
        parse_entry(r#"{"short_summary":5,"rate":"x","date":"2024-03-01"}"#),
        Err(EntryFault::WrongType(EntryField::Rate))
    );
    assert_eq!(
        parse_entry(r#"{"date":null,"short_summary":5}"#),
        Err(EntryFault::WrongType(EntryField::Date))
    );
}

#[test]
fn the_shape_is_checked_before_the_date_is_read() {
    assert_eq!(
        parse_entry(r#"{"date":"yesterday","rate":0.8}"#),
        Err(EntryFault::MissingField(EntryField::ShortSummary))
    );
}

#[test]
fn a_document_that_is_no_object_has_no_fields() {
    for text in [r#"["2024-03-01",0.8,"x"]"#, "42", "\"2024-03-01\"", "null", "true"] {
        assert_eq!(parse_entry(text), Err(EntryFault::MissingField(EntryField::Date)));
    }
}

#[test]
fn a_date_that_is_not_read_is_given_back() {
    assert_eq!(
        parse_entry(r#"{"date":"yesterday","rate":0.8,"short_summary":"x"}"#),
        Err(EntryFault::InvalidDate("yesterday".to_string()))
    );
    assert_eq!(
        parse_entry(r#"{"date":"2023-02-29","rate":0.8,"short_summary":"x"}"#),
        Err(EntryFault::InvalidDate("2023-02-29".to_string()))
    );
    assert_eq!(
        parse_entry(r#"{"date":"","rate":0.8,"short_summary":"x"}"#),
        Err(EntryFault::InvalidDate(String::new()))
    );
}

#[test]
fn of_a_key_that_is_given_twice_the_last_member_counts() {
    let text = r#"{"date":"2024-03-01","rate":0.1,"rate":0.9,"short_summary":"x"}"#;
    assert_eq!(parse_entry(text), Ok(entry(2024, 3, 1, 0.9, "x")));
}

#[test]
fn a_parsed_document_is_read_like_its_text() {
    let mut members = serde_json::Map::new();
    members.insert("date".to_string(), serde_json::Value::String("2024-03-01".to_string()));
    members.insert(
        "rate".to_string(),
        serde_json::Value::Number(serde_json::Number::from_f64(0.8).expect("0.8 is finite")),
    );
    members.insert(
        "short_summary".to_string(),
        serde_json::Value::String("Productive day".to_string()),
    );
    let document = serde_json::Value::Object(members.clone());
    assert_eq!(read_entry(&document), Ok(entry(2024, 3, 1, 0.8, "Productive day")));

    members.remove("rate");
    let without_rate = serde_json::Value::Object(members);
    assert_eq!(read_entry(&without_rate), Err(EntryFault::MissingField(EntryField::Rate)));
    assert_eq!(
        read_entry(&serde_json::Value::Null),
        Err(EntryFault::MissingField(EntryField::Date))
    );
}

#[test]
fn the_shape_check_passes_three_found_fields_on() {
    let raw = check_shape(
        Field::Found("2024-03-01".to_string()),
        Field::Found(rate(0.8)),
        Field::Found("x".to_string()),
    );
    assert_eq!(
        raw,
        Ok(RawEntry {
            date_text: "2024-03-01".to_string(),
            rate: rate(0.8),
            short_summary: "x".to_string()
        })
    );
}

#[test]
fn the_shape_check_names_the_first_fault() {
    let found_text = || Field::Found("x".to_string());
    let found_rate = || Field::Found(rate(1.0));
    assert_eq!(
        check_shape(Field::Missing, Field::WrongType, Field::Missing),
        Err(EntryFault::MissingField(EntryField::Date))
    );
    assert_eq!(
        check_shape(Field::WrongType, found_rate(), found_text()),
        Err(EntryFault::WrongType(EntryField::Date))
    );
    assert_eq!(
        check_shape(found_text(), Field::Missing, Field::WrongType),
        Err(EntryFault::MissingField(EntryField::Rate))
    );
    assert_eq!(
        check_shape(found_text(), Field::WrongType, found_text()),
        Err(EntryFault::WrongType(EntryField::Rate))
    );
    assert_eq!(
        check_shape(found_text(), found_rate(), Field::Missing),
        Err(EntryFault::MissingField(EntryField::ShortSummary))
    );
    assert_eq!(
        check_shape(found_text(), found_rate(), Field::WrongType),
        Err(EntryFault::WrongType(EntryField::ShortSummary))
    );
}

#[test]
fn a_raw_entry_is_completed_with_its_date() {
    let raw = RawEntry {
        date_text: "2024-03-01".to_string(),
        rate: rate(0.8),
        short_summary: "x".to_string(),
    };
    assert_eq!(
        entry_with_date(raw.clone(), Date::from_ymd(2024, 3, 1)),
        Ok(entry(2024, 3, 1, 0.8, "x"))
    );
    assert_eq!(
        entry_with_date(raw, None),
        Err(EntryFault::InvalidDate("2024-03-01".to_string()))
    );
}

#[test]
fn every_fault_has_its_message() {
    assert_eq!(EntryFault::Syntax("expected value".to_string()).message(), "expected value");
    assert_eq!(EntryFault::MissingField(EntryField::Date).message(), "missing field `date`");
    assert_eq!(EntryFault::MissingField(EntryField::Rate).message(), "missing field `rate`");
    assert_eq!(
        EntryFault::WrongType(EntryField::ShortSummary).message(),
        "invalid type for field `short_summary`"
    );
    assert_eq!(
        EntryFault::InvalidDate("yesterday".to_string()).message(),
        "invalid date `yesterday`"
    );
}

#[test]
fn the_fields_have_the_keys_of_the_document() {
    assert_eq!(EntryField::Date.name(), "date");
    assert_eq!(EntryField::Rate.name(), "rate");
    assert_eq!(EntryField::ShortSummary.name(), "short_summary");
}
