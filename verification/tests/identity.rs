use fairsquares::identity::{ten0, ten1, Data, Judgement};

fn text(data: &Data) -> Option<&str> {
    match data {
        Data::Raw(bytes) => std::str::from_utf8(bytes).ok(),
        _ => None,
    }
}

#[test]
fn sample_tenants_state_who_they_are() {
    let first = ten0();
    assert_eq!(text(&first.display), Some("ten0"));
    assert_eq!(text(&first.legal), Some("Legal infos about tenant_0"));
    assert_eq!(text(&first.web), Some("www.mystery0.com"));
    assert_eq!(first.additional.len(), 2);
    assert_eq!(text(&first.additional[0].0), Some("Present Address"));
    assert_eq!(text(&first.additional[0].1), Some("Japan/Yokohama"));
    assert_eq!(text(&first.additional[1].0), Some("Monthly Salary"));
    assert_eq!(text(&first.additional[1].1), Some("250,000 yen"));
    assert_eq!(text(&first.riot), None);
    assert!(matches!(first.riot, Data::Absent));
    assert_eq!(first.pgp_fingerprint, None);
    assert!(matches!(&first.display, Data::Raw(bytes) if bytes == b"ten0"));
    assert!(first.is_valid());

    let second = ten1();
    assert_eq!(text(&second.display), Some("ten1"));
    assert_eq!(text(&second.legal), Some("Legal info about tenant_1"));
    assert_eq!(text(&second.web), Some("www.mystery1.com"));
    assert_eq!(text(&second.additional[0].1), Some("England/Liverpool"));
    assert_eq!(text(&second.additional[1].1), Some("1550 pounds"));
    assert!(second.is_valid());
}

#[test]
fn a_field_holds_thirty_two_bytes_at_most() {
    assert!(Data::Absent.fits());
    assert!(Data::Raw(vec![0xff; 32]).fits());
    assert!(!Data::Raw(vec![0xff; 33]).fits());
    assert!(Data::raw("exactly thirty-two bytes of text").fits());
    assert!(!Data::raw("thirty-three bytes of text, or so").fits());
    // sixteen letters of two bytes each
    assert!(Data::raw("éééééééééééééééé").fits());
    assert!(!Data::raw("ééééééééééééééééé").fits());
    assert!(Data::Sha256([7; 32]).fits());
    assert!(Data::BlakeTwo256([7; 32]).fits());
    assert!(Data::Keccak256([7; 32]).fits());
    assert!(Data::ShaThree256([7; 32]).fits());
    let mut info = ten0();
    info.additional.push((Data::raw("Note"), Data::Raw(vec![1; 40])));
    assert!(!info.is_valid());
    info.additional.pop();
    info.pgp_fingerprint = Some([9; 20]);
    assert!(info.is_valid());
}

#[test]
fn a_judgement_is_favourable_or_not() {
    assert!(Judgement::Reasonable.is_favourable());
    assert!(Judgement::KnownGood.is_favourable());
    for judgement in [
        Judgement::Unknown,
        Judgement::FeePaid(1),
        Judgement::OutOfDate,
        Judgement::LowQuality,
        Judgement::Erroneous,
    ] {
        assert!(!judgement.is_favourable());
    }
}
