use bookshelf::status::ReadingStatus;

#[test]
fn encode_gives_the_three_tokens() {
    assert_eq!(ReadingStatus::ToRead.encode(), "to-read");
    assert_eq!(ReadingStatus::Reading.encode(), "reading");
    assert_eq!(ReadingStatus::Completed.encode(), "completed");
}

#[test]
fn decode_reads_the_three_tokens() {
    assert_eq!(ReadingStatus::decode("to-read"), Some(ReadingStatus::ToRead));
    assert_eq!(ReadingStatus::decode("reading"), Some(ReadingStatus::Reading));
    assert_eq!(ReadingStatus::decode("completed"), Some(ReadingStatus::Completed));
}

#[test]
fn encode_of_decode_is_the_identity_on_tokens() {
    for token in ["to-read", "reading", "completed"] {
        let status = ReadingStatus::decode(token).unwrap();
        assert_eq!(status.encode(), token);
    }
}

#[test]
fn decode_of_encode_is_the_identity_on_statuses() {
    for status in [ReadingStatus::ToRead, ReadingStatus::Reading, ReadingStatus::Completed] {
        assert_eq!(ReadingStatus::decode(status.encode()), Some(status));
    }
}

#[test]
fn decode_refuses_every_other_token() {
    for token in ["", "done", "To-Read", "to_read", "reading ", " completed", "READING", "toread"] {
        assert_eq!(ReadingStatus::decode(token), None);
    }
}

#[test]
fn from_reads_a_stored_token() {
    assert_eq!(ReadingStatus::from("reading".to_string()), ReadingStatus::Reading);
    assert_eq!(ReadingStatus::from("to-read".to_string()), ReadingStatus::ToRead);
    assert_eq!(ReadingStatus::from("completed".to_string()), ReadingStatus::Completed);
}

#[test]
fn from_draw_maps_zero_one_and_the_rest() {
    assert_eq!(ReadingStatus::from_draw(0), ReadingStatus::ToRead);
    assert_eq!(ReadingStatus::from_draw(1), ReadingStatus::Reading);
    assert_eq!(ReadingStatus::from_draw(2), ReadingStatus::Completed);
    assert_eq!(ReadingStatus::from_draw(200), ReadingStatus::Completed);
}
