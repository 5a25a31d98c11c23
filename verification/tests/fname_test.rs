use rust_uasset::fname::FName;
use rust_uasset::uasset_parser::UassetParser;

#[test]
fn test_fname_parsing() {
    let mut data = vec![];
    data.extend_from_slice(&1233u32.to_le_bytes());
    data.extend_from_slice(&1025u32.to_le_bytes());

    let mut parser = UassetParser::new(data);
    let test_name: FName = parser.read().expect("managed to read FName");
    assert_eq!(test_name.index, 1233);
    assert_eq!(test_name.number, 1025);
}

#[test]
fn test_fname_resolves_in_range_index() {
    let mut data = vec![];
    data.extend_from_slice(&1u32.to_le_bytes());
    data.extend_from_slice(&7u32.to_le_bytes());

    let mut parser = UassetParser::new(data);
    parser.names = vec!["Alpha".to_string(), "Beta".to_string()];
    let name: FName = parser.read().expect("managed to read FName");
    assert_eq!(name.as_string(), "Beta");
    assert_eq!(name.number, 7);
    assert!(!name.is_none());
}

#[test]
fn test_fname_out_of_range_resolves_to_none_sentinel() {
    let mut data = vec![];
    data.extend_from_slice(&5u32.to_le_bytes());
    data.extend_from_slice(&0u32.to_le_bytes());
    data.extend_from_slice(&(-3i32).to_le_bytes());
    data.extend_from_slice(&0u32.to_le_bytes());

    let mut parser = UassetParser::new(data);
    parser.names = vec!["Alpha".to_string(), "Beta".to_string()];
    let high: FName = parser.read().expect("managed to read FName");
    assert_eq!(high.as_string(), "None");
    assert!(high.is_none());
    let negative: FName = parser.read().expect("managed to read FName");
    assert_eq!(negative.as_string(), "None");
    assert!(negative.is_none());
}
