use allegro::keycodes::KeyCode;

#[test]
fn codes_of_the_first_and_last_keys() {
    assert_eq!(KeyCode::from_allegro_key(1), Some(KeyCode::A));
    assert_eq!(KeyCode::from_allegro_key(26), Some(KeyCode::Z));
    assert_eq!(KeyCode::from_allegro_key(27), Some(KeyCode::_0));
    assert_eq!(KeyCode::from_allegro_key(107), Some(KeyCode::Unknown));
    assert_eq!(KeyCode::from_allegro_key(215), Some(KeyCode::LShift));
    assert_eq!(KeyCode::from_allegro_key(226), Some(KeyCode::CapsLock));
    assert_eq!(KeyCode::A.to_allegro_key(), 1);
    assert_eq!(KeyCode::Pad0.to_allegro_key(), 37);
    assert_eq!(KeyCode::Command.to_allegro_key(), 106);
    assert_eq!(KeyCode::Menu.to_allegro_key(), 223);
}

#[test]
fn integers_outside_the_ranges_are_no_key() {
    assert_eq!(KeyCode::from_allegro_key(0), None);
    assert_eq!(KeyCode::from_allegro_key(-1), None);
    assert_eq!(KeyCode::from_allegro_key(108), None);
    assert_eq!(KeyCode::from_allegro_key(214), None);
    assert_eq!(KeyCode::from_allegro_key(227), None);
    assert_eq!(KeyCode::from_allegro_key(i32::MAX), None);
    assert_eq!(KeyCode::from_allegro_key(i32::MIN), None);
}

#[test]
fn every_code_maps_to_a_key_and_back() {
    let mut seen = 0;
    for k in -10..300 {
        let valid = (1..=107).contains(&k) || (215..=226).contains(&k);
        match KeyCode::from_allegro_key(k) {
            Some(key) => {
                assert!(valid);
                assert_eq!(key.to_allegro_key(), k);
                seen += 1;
            }
            None => assert!(!valid),
        }
    }
    assert_eq!(seen, 119);
}
