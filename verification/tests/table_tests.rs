use normalizer::table::ModelNameTable;

#[test]
fn test_lookup_by_header_name_not_position() {
    let table = ModelNameTable::from_csv("Marketing Name,Model\nOnePlus 10 Pro 5G,NE2211\n");
    assert_eq!(table.lookup("NE2211").unwrap(), "OnePlus 10 Pro 5G");
    assert!(table.lookup("XQ-AT51").is_none());
}

#[test]
fn test_values_and_keys_are_trimmed() {
    let table = ModelNameTable::from_csv(" Model , Marketing Name \n NE2211 , OnePlus 10 Pro 5G \n");
    assert_eq!(table.lookup("NE2211").unwrap(), "OnePlus 10 Pro 5G");
}

#[test]
fn test_missing_header_degrades_to_empty_table() {
    let table = ModelNameTable::from_csv("Model,Name\nNE2211,OnePlus 10 Pro 5G\n");
    assert!(table.lookup("NE2211").is_none());
    let empty = ModelNameTable::from_csv("");
    assert!(empty.lookup("NE2211").is_none());
}

#[test]
fn test_short_rows_are_skipped() {
    let table = ModelNameTable::from_csv("Model,Extra,Marketing Name\nNE2211\nSM-S901U,x,Galaxy S22\n");
    assert!(table.lookup("NE2211").is_none());
    assert_eq!(table.lookup("SM-S901U").unwrap(), "Galaxy S22");
}

#[test]
fn test_later_rows_override_earlier_ones() {
    let table = ModelNameTable::from_csv("Model,Marketing Name\nA1,First\nA1,Second\n");
    assert_eq!(table.lookup("A1").unwrap(), "Second");
}

#[test]
fn test_unicode_whitespace_is_trimmed_in_rows() {
    let table = ModelNameTable::from_csv("Model,Marketing Name\nA1\u{a0},\u{a0}One\n");
    assert_eq!(table.lookup("A1").unwrap(), "One");
}

#[test]
fn test_carriage_returns_are_handled() {
    let table = ModelNameTable::from_csv("Model,Marketing Name\r\nA1,One\r\n");
    assert_eq!(table.lookup("A1").unwrap(), "One");
}
