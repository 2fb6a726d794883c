use privchat_protocol::presence::{OnlineStatus, PresencePrivacySettings, PrivacyRule, TypingActionType};

#[test]
fn test_online_status_calculation() {
    assert_eq!(OnlineStatus::from_elapsed_seconds(0), OnlineStatus::Online);
    assert_eq!(OnlineStatus::from_elapsed_seconds(180), OnlineStatus::Online);
    assert_eq!(OnlineStatus::from_elapsed_seconds(181), OnlineStatus::Recently);
    assert_eq!(OnlineStatus::from_elapsed_seconds(3600), OnlineStatus::Recently);
    assert_eq!(OnlineStatus::from_elapsed_seconds(3601), OnlineStatus::LastWeek);
}

#[test]
fn test_privacy_rule_default() {
    let settings = PresencePrivacySettings::default();
    assert!(matches!(settings.show_online_to, PrivacyRule::Everyone));
    assert!(matches!(settings.show_last_seen_to, PrivacyRule::Everyone));
}

#[test]
fn online_status_far_and_negative() {
    assert_eq!(OnlineStatus::from_elapsed_seconds(2592000), OnlineStatus::LastMonth);
    assert_eq!(OnlineStatus::from_elapsed_seconds(2592001), OnlineStatus::LongTimeAgo);
    assert_eq!(OnlineStatus::from_elapsed_seconds(-1), OnlineStatus::LongTimeAgo);
    assert_eq!(OnlineStatus::LastWeek.as_str(), "last_week");
    assert_eq!(TypingActionType::UploadingPhoto.as_str(), "uploading_photo");
}
