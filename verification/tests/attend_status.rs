use julie_vic_wedding::attend_status::{get_attend_status, AttendStatus, RsvpRequest, SqlDecodeError};
use julie_vic_wedding::language::AvailableLanguage;

#[test]
fn parse_splits_each_status() {
    assert_eq!(AttendStatus::No.parse(), (false, false));
    assert_eq!(AttendStatus::Yes.parse(), (true, false));
    assert_eq!(AttendStatus::YesPlusOne.parse(), (true, true));
}

#[test]
fn request_answers_pick_status() {
    let req = |w: bool, p: bool| RsvpRequest::new(w, p, String::from("ABCDE"));
    assert_eq!(get_attend_status(&req(false, false)), AttendStatus::No);
    assert_eq!(get_attend_status(&req(false, true)), AttendStatus::No);
    assert_eq!(get_attend_status(&req(true, false)), AttendStatus::Yes);
    assert_eq!(get_attend_status(&req(true, true)), AttendStatus::YesPlusOne);
    assert_eq!(req(true, true).token(), "ABCDE");
}

#[test]
fn answers_roundtrip_through_status() {
    for w in [false, true] {
        for p in [false, true] {
            let s = get_attend_status(&RsvpRequest::new(w, p, String::new()));
            assert_eq!(s.parse(), (w, w && p));
        }
    }
    for s in [AttendStatus::No, AttendStatus::Yes, AttendStatus::YesPlusOne] {
        let (w, p) = s.parse();
        assert_eq!(get_attend_status(&RsvpRequest::new(w, p, String::new())), s);
    }
}

#[test]
fn attend_status_sql_bytes() {
    assert_eq!(AttendStatus::No.to_sql(), b"no".to_vec());
    assert_eq!(AttendStatus::Yes.to_sql(), b"yes".to_vec());
    assert_eq!(AttendStatus::YesPlusOne.to_sql(), b"yes+one".to_vec());
}

#[test]
fn attend_status_sql_roundtrip() {
    for s in [AttendStatus::No, AttendStatus::Yes, AttendStatus::YesPlusOne] {
        let bytes = s.to_sql();
        assert_eq!(AttendStatus::from_sql(Some(&bytes)), Ok(s));
    }
}

#[test]
fn attend_status_sql_errors() {
    assert_eq!(AttendStatus::from_sql(None), Err(SqlDecodeError::UnexpectedNull));
    assert_eq!(AttendStatus::from_sql(Some(b"maybe")), Err(SqlDecodeError::UnrecognizedVariant));
    assert_eq!(AttendStatus::from_sql(Some(b"yes+two")), Err(SqlDecodeError::UnrecognizedVariant));
    assert_eq!(AttendStatus::from_sql(Some(b"")), Err(SqlDecodeError::UnrecognizedVariant));
    assert_eq!(AttendStatus::from_sql(Some(b"No")), Err(SqlDecodeError::UnrecognizedVariant));
    assert_eq!(SqlDecodeError::UnexpectedNull.message(), "Unexpected null for non-null column");
    assert_eq!(SqlDecodeError::UnrecognizedVariant.message(), "Unrecognized enum variant");
}

#[test]
fn language_sql_roundtrip_and_errors() {
    assert_eq!(AvailableLanguage::En.to_sql(), b"en".to_vec());
    assert_eq!(AvailableLanguage::Es.to_sql(), b"es".to_vec());
    for l in [AvailableLanguage::En, AvailableLanguage::Es] {
        let bytes = l.to_sql();
        assert_eq!(AvailableLanguage::from_sql(Some(&bytes)), Ok(l));
    }
    assert_eq!(AvailableLanguage::from_sql(None), Err(SqlDecodeError::UnexpectedNull));
    assert_eq!(AvailableLanguage::from_sql(Some(b"fr")), Err(SqlDecodeError::UnrecognizedVariant));
}
