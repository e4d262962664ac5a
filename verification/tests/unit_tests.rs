use chrono::{DateTime, Utc};
use research_jobs::clock::Timestamp;
use research_jobs::utils::format_indian_date;

#[test]
fn test_basic_functionality() {
    // Test basic date parsing
    let date_str = "2023-05-15T10:30:00Z";
    let date: DateTime<Utc> = date_str.parse().unwrap();
    assert_eq!(date.format("%Y-%m-%d").to_string(), "2023-05-15");
    let stamp = Timestamp::new(date.timestamp(), date.timestamp_subsec_nanos()).unwrap();
    assert_eq!(format_indian_date(stamp), "15-May-2023");
}

#[test]
fn test_json_serialization() {
    let mut map = serde_json::Map::new();
    map.insert("topic".to_string(), serde_json::Value::from("Test Topic"));
    map.insert("depth".to_string(), serde_json::Value::from(3));
    let test_data = serde_json::Value::Object(map);

    assert_eq!(test_data["topic"], "Test Topic");
    assert_eq!(test_data["depth"], 3);
}

#[test]
fn test_string_operations() {
    let test_string = "Cybersecurity Research";
    assert_eq!(test_string.len(), 22);
    assert!(test_string.contains("security"));
    assert!(research_jobs::text::contains(test_string, "security"));
    assert_eq!(research_jobs::text::to_chars(test_string).len(), 22);
}
