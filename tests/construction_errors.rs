use rtb_extension::builder::{activate_deals, activate_segments, bid_shade, InvalidMutation};

#[test]
fn segments_without_ids_are_rejected() {
    assert_eq!(activate_segments(&[]).unwrap_err(), InvalidMutation::EmptyIds);
}

#[test]
fn deals_without_ids_are_rejected() {
    assert_eq!(activate_deals("/imp/imp-1", &[]).unwrap_err(), InvalidMutation::EmptyIds);
}

#[test]
fn deals_with_empty_path_are_rejected() {
    assert_eq!(activate_deals("", &["d"]).unwrap_err(), InvalidMutation::EmptyPath);
    assert_eq!(activate_deals("", &[]).unwrap_err(), InvalidMutation::EmptyPath);
}

#[test]
fn deals_with_relative_path_are_rejected() {
    assert_eq!(activate_deals("imp/imp-1", &["d"]).unwrap_err(), InvalidMutation::PathWithoutRoot);
}

#[test]
fn shade_path_is_checked() {
    assert_eq!(bid_shade("", 1).unwrap_err(), InvalidMutation::EmptyPath);
    assert_eq!(bid_shade("seatbid", 1).unwrap_err(), InvalidMutation::PathWithoutRoot);
    assert!(bid_shade("/", 0).is_ok());
}
