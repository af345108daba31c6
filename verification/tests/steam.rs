use scrimbot::steam::{convert_steamid_to_64, is_steam_id, steam_id_to_64};

#[test]
fn converts_a_steam_id() {
    assert_eq!(convert_steamid_to_64(&"STEAM_0:1:12345678".to_string()), 76561197984957085);
    assert_eq!(convert_steamid_to_64(&"STEAM_1:0:0".to_string()), 76561197960265728);
}

#[test]
fn recognises_the_shape() {
    assert!(is_steam_id("STEAM_0:1:12345678"));
    assert!(is_steam_id("STEAM_5:0:7"));
    assert!(!is_steam_id("STEAM_6:0:7"));
    assert!(!is_steam_id("STEAM_0:2:7"));
    assert!(!is_steam_id("STEAM_0:1:"));
    assert!(!is_steam_id("STEAM_0:1:12a"));
    assert!(!is_steam_id("steam_0:1:12"));
    assert!(!is_steam_id(" STEAM_0:1:12"));
    assert!(!is_steam_id(""));
}

#[test]
fn refuses_what_does_not_fit() {
    assert_eq!(steam_id_to_64(&"STEAM_0:1:99999999999999999999999".to_string()), None);
    assert_eq!(steam_id_to_64(&"nonsense".to_string()), None);
    assert_eq!(steam_id_to_64(&"STEAM_0:0:1".to_string()), Some(76561197960265730));
}
