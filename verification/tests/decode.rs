use markdown_test_report::duration::Duration;
use markdown_test_report::event::{decode, suite, DecodeError, Record};
use markdown_test_report::event::test as test_event;

#[test]
fn decodes_suite_started() {
    let r = decode(r#"{"type":"suite","event":"started","test_count":2}"#).unwrap();
    match r {
        Record::Suite(suite::Event::Started { test_count }) => assert_eq!(test_count, 2),
        other => panic!("wrong record: {:?}", other),
    }
}

#[test]
fn decodes_suite_finished_with_counters() {
    let line = r#"{"type":"suite","event":"failed","passed":1,"failed":1,"allowed_fail":0,"ignored":0,"filtered_out":0,"exec_time":1.7}"#;
    match decode(line).unwrap() {
        Record::Suite(suite::Event::Failed {
            passed,
            failed,
            allowed_fail,
            ignored,
            filtered_out,
            exec_time,
        }) => {
            assert_eq!(passed, 1);
            assert_eq!(failed, 1);
            assert_eq!(allowed_fail, 0);
            assert_eq!(ignored, 0);
            assert_eq!(filtered_out, 0);
            assert_eq!(exec_time, Duration { secs: 1, nanos: 700_000_000 });
        }
        other => panic!("wrong record: {:?}", other),
    }
}

#[test]
fn decodes_suite_ok() {
    let line = r#"{"type":"suite","event":"ok","passed":3,"failed":0,"allowed_fail":0,"ignored":1,"filtered_out":2,"exec_time":0.25}"#;
    match decode(line).unwrap() {
        Record::Suite(suite::Event::Passed { passed, ignored, filtered_out, exec_time, .. }) => {
            assert_eq!(passed, 3);
            assert_eq!(ignored, 1);
            assert_eq!(filtered_out, 2);
            assert_eq!(exec_time, Duration { secs: 0, nanos: 250_000_000 });
        }
        other => panic!("wrong record: {:?}", other),
    }
}

#[test]
fn decodes_test_events() {
    match decode(r#"{"type":"test","event":"started","name":"a"}"#).unwrap() {
        Record::Test(test_event::Event::Started { name }) => assert_eq!(name, "a"),
        other => panic!("wrong record: {:?}", other),
    }
    match decode(r#"{"type":"test","event":"ok","name":"a","exec_time":1.5}"#).unwrap() {
        Record::Test(test_event::Event::Passed { name, exec_time }) => {
            assert_eq!(name, "a");
            assert_eq!(exec_time, Duration { secs: 1, nanos: 500_000_000 });
        }
        other => panic!("wrong record: {:?}", other),
    }
}

#[test]
fn failed_test_stdout_defaults_to_empty() {
    match decode(r#"{"type":"test","event":"failed","name":"b","exec_time":0.2}"#).unwrap() {
        Record::Test(test_event::Event::Failed { stdout, .. }) => assert_eq!(stdout, ""),
        other => panic!("wrong record: {:?}", other),
    }
    match decode(r#"{"type":"test","event":"failed","name":"b","exec_time":0.2,"stdout":"boom"}"#)
        .unwrap()
    {
        Record::Test(test_event::Event::Failed { stdout, .. }) => assert_eq!(stdout, "boom"),
        other => panic!("wrong record: {:?}", other),
    }
}

#[test]
fn whole_number_durations_are_accepted() {
    match decode(r#"{"type":"test","event":"ok","name":"a","exec_time":2}"#).unwrap() {
        Record::Test(test_event::Event::Passed { exec_time, .. }) => {
            assert_eq!(exec_time, Duration { secs: 2, nanos: 0 })
        }
        other => panic!("wrong record: {:?}", other),
    }
}

#[test]
fn invalid_lines_are_not_objects() {
    assert_eq!(decode("this is not json").unwrap_err(), DecodeError::NotObject);
    assert_eq!(decode("").unwrap_err(), DecodeError::NotObject);
    assert_eq!(decode("[1,2]").unwrap_err(), DecodeError::NotObject);
    assert_eq!(decode("42").unwrap_err(), DecodeError::NotObject);
}

#[test]
fn unknown_kinds_fail_decode() {
    assert_eq!(
        decode(r#"{"type":"bogus","event":"ok","name":"a"}"#).unwrap_err(),
        DecodeError::UnknownKind
    );
    assert_eq!(
        decode(r#"{"type":"suite","event":"paused"}"#).unwrap_err(),
        DecodeError::UnknownKind
    );
    assert_eq!(decode(r#"{"type":"suite"}"#).unwrap_err(), DecodeError::UnknownKind);
    // Tags are case-sensitive, lowercase exact matches.
    assert_eq!(
        decode(r#"{"type":"Suite","event":"started","test_count":1}"#).unwrap_err(),
        DecodeError::UnknownKind
    );
}

#[test]
fn missing_or_mistyped_members_fail_decode() {
    assert_eq!(
        decode(r#"{"type":"test","event":"ok","exec_time":1.5}"#).unwrap_err(),
        DecodeError::BadField
    );
    assert_eq!(
        decode(r#"{"type":"test","event":"ok","name":"a","exec_time":"fast"}"#).unwrap_err(),
        DecodeError::BadField
    );
    assert_eq!(
        decode(r#"{"type":"suite","event":"started","test_count":2.5}"#).unwrap_err(),
        DecodeError::BadField
    );
    assert_eq!(
        decode(r#"{"type":"suite","event":"ok","passed":1}"#).unwrap_err(),
        DecodeError::BadField
    );
    // stdout present but not a string.
    assert_eq!(
        decode(r#"{"type":"test","event":"failed","name":"b","exec_time":0.2,"stdout":7}"#)
            .unwrap_err(),
        DecodeError::BadField
    );
}
