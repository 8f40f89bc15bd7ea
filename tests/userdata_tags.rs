use gmod::userdata::{CoercibleUserData, TaggedUserData, UserData};

struct Position;

impl CoercibleUserData for Position {
    fn spec_user_data_type() -> UserData {
        UserData::Vector
    }

    fn user_data_type() -> UserData {
        UserData::Vector
    }
}

#[test]
fn tags_match_their_bytes() {
    assert_eq!(UserData::Nil.tag(), 0);
    assert_eq!(UserData::Thread.tag(), 8);
    assert_eq!(UserData::Entity.tag(), 9);
    assert_eq!(UserData::Vector.tag(), 10);
    assert_eq!(UserData::Angle.tag(), 11);
    assert_eq!(UserData::SurfaceInfo.tag(), 43);
    assert_eq!(UserData::MAX.tag(), 44);
    assert_eq!(UserData::NoValue.tag(), 255);
}

#[test]
fn bytes_map_back_to_tags() {
    for b in 0u8..=255 {
        match UserData::from_tag(b) {
            Some(t) => assert_eq!(t.tag(), b),
            None => assert!(b > 44 && b != 255),
        }
    }
    assert_eq!(UserData::from_tag(10), Some(UserData::Vector));
    assert_eq!(UserData::from_tag(200), None);
}

#[test]
fn coerce_with_the_wrong_tag_returns_the_actual_tag() {
    let value = TaggedUserData { data: 0x1000, tag: UserData::Angle };
    assert_eq!(value.coerce_to(UserData::Vector), Err(UserData::Angle));
    assert_eq!(value.coerce::<Position>(), Err(UserData::Angle));
}

#[test]
fn coerce_with_the_right_tag_hands_out_the_address() {
    let value = TaggedUserData { data: 0x2040, tag: UserData::Vector };
    assert_eq!(value.coerce_to(UserData::Vector), Ok(0x2040));
    assert_eq!(value.coerce::<Position>(), Ok(0x2040));
}

use gmod::userdata::check_userdata;

#[test]
fn userdata_checks_in_order() {
    assert_eq!(check_userdata(false, true, None, 0x1000, 8), Err("expected a userdata".to_string()));
    assert_eq!(
        check_userdata(false, true, Some("Entity"), 0x1000, 8),
        Err("expected a userdata of type: Entity".to_string())
    );
    assert_eq!(
        check_userdata(true, false, Some("Entity"), 0x1000, 8),
        Err("expected a userdata of type: Entity".to_string())
    );
    assert_eq!(check_userdata(true, false, None, 0x1000, 8), Ok(0x1000));
    assert_eq!(check_userdata(true, true, Some("Entity"), 0, 8), Err("invalid userdata pointer".to_string()));
    assert_eq!(
        check_userdata(true, true, Some("Entity"), 0x1004, 8),
        Err("invalid userdata pointer alignment".to_string())
    );
    assert_eq!(check_userdata(true, true, Some("Entity"), 0x1008, 8), Ok(0x1008));
}
