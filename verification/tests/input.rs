use kiwi::input::{Axis, Button, Coordinate, Direction, Engine, Key, SystemKey, Token};
use kiwi::record::engine::{EventType, RecordedButton};
use kiwi::types::Point;
use kiwi::Error;
use kiwi::Platform;

#[test]
fn key_from_str_knows_the_names() {
    assert_eq!(Key::from_str("Alt"), Ok(Key::Alt));
    assert_eq!(Key::from_str("F12"), Ok(Key::F12));
    assert_eq!(Key::from_str("Num0"), Ok(Key::Num0));
    assert_eq!(Key::from_str("KpDelete"), Ok(Key::KpDelete));
    assert_eq!(Key::from_str("NumLock"), Ok(Key::NumLock));
    assert_eq!(Key::from_str("N"), Ok(Key::N));
}

#[test]
fn key_from_str_is_case_sensitive() {
    assert_eq!(Key::from_str("alt"), Err(Error::UnsupportedKey(String::from("alt"))));
    assert_eq!(Key::from_str(""), Err(Error::UnsupportedKey(String::new())));
    assert_eq!(Key::from_str("Alt "), Err(Error::UnsupportedKey(String::from("Alt "))));
}

#[test]
fn key_m_has_no_name() {
    assert_eq!(Key::from_str("M"), Err(Error::UnsupportedKey(String::from("M"))));
}

#[test]
fn engine_keeps_submission_order() {
    let mut engine = Engine::new();
    engine.click_left();
    engine.move_absolute(&Point::new(3, 4));
    engine.press_key("Shift").unwrap();
    engine.input_text("hi");
    engine.scroll_vertical(-2);
    assert_eq!(engine.next(), Some(Token::Button(Button::Left, Direction::Click)));
    assert_eq!(engine.next(), Some(Token::MoveMouse(3, 4, Coordinate::Abs)));
    assert_eq!(engine.next(), Some(Token::Key(Key::Shift, Direction::Press)));
    assert_eq!(engine.next(), Some(Token::Text(String::from("hi"))));
    assert_eq!(engine.next(), Some(Token::Scroll(-2, Axis::Vertical)));
    assert_eq!(engine.next(), None);
}

#[test]
fn engine_makes_the_token_of_each_method() {
    let mut engine = Engine::default();
    engine.click_right();
    engine.press_left();
    engine.press_right();
    engine.release_left();
    engine.release_right();
    engine.move_relative(&Point::new(-1, 2));
    engine.scroll_horizontal(9);
    engine.release_key("A").unwrap();
    engine.click_key("Return").unwrap();
    let expected = vec![
        Token::Button(Button::Right, Direction::Click),
        Token::Button(Button::Left, Direction::Press),
        Token::Button(Button::Right, Direction::Press),
        Token::Button(Button::Left, Direction::Release),
        Token::Button(Button::Right, Direction::Release),
        Token::MoveMouse(-1, 2, Coordinate::Rel),
        Token::Scroll(9, Axis::Horizontal),
        Token::Key(Key::A, Direction::Release),
        Token::Key(Key::Return, Direction::Click),
    ];
    for token in expected {
        assert_eq!(engine.next(), Some(token));
    }
    assert_eq!(engine.next(), None);
}

#[test]
fn engine_unknown_key_changes_nothing() {
    let mut engine = Engine::new();
    assert_eq!(engine.press_key("Hyper"), Err(Error::UnsupportedKey(String::from("Hyper"))));
    assert_eq!(engine.next(), None);
}

#[test]
fn engine_execute_token_appends_in_order() {
    let mut engine = Engine::new();
    engine.click_left();
    engine.execute_token(vec![Token::Scroll(1, Axis::Vertical), Token::Text(String::from("x"))]);
    assert_eq!(engine.next(), Some(Token::Button(Button::Left, Direction::Click)));
    assert_eq!(engine.next(), Some(Token::Scroll(1, Axis::Vertical)));
    assert_eq!(engine.next(), Some(Token::Text(String::from("x"))));
}

#[test]
fn recorded_events_become_tokens() {
    assert_eq!(
        EventType::KeyPress(Key::Tab).to_token(),
        vec![Token::Key(Key::Tab, Direction::Press)]
    );
    assert_eq!(
        EventType::KeyRelease(Key::Tab).to_token(),
        vec![Token::Key(Key::Tab, Direction::Release)]
    );
    assert_eq!(
        EventType::MouseMove { x: 5, y: 6 }.to_token(),
        vec![Token::MoveMouse(5, 6, Coordinate::Abs)]
    );
    assert_eq!(
        EventType::Wheel { delta_x: 2, delta_y: -3 }.to_token(),
        vec![Token::Scroll(2, Axis::Horizontal), Token::Scroll(-3, Axis::Vertical)]
    );
    assert_eq!(
        EventType::Wheel { delta_x: 0, delta_y: 1 }.to_token(),
        vec![Token::Scroll(1, Axis::Vertical)]
    );
    assert_eq!(EventType::Wheel { delta_x: 0, delta_y: 0 }.to_token(), Vec::new());
    assert_eq!(
        EventType::ButtonPress(RecordedButton::Middle).to_token(),
        vec![Token::Button(Button::Middle, Direction::Press)]
    );
    assert_eq!(
        EventType::ButtonRelease(RecordedButton::Left).to_token(),
        vec![Token::Button(Button::Left, Direction::Release)]
    );
    assert_eq!(EventType::ButtonPress(RecordedButton::Unknown(7)).to_token(), Vec::new());
}

#[test]
fn recorder_flag() {
    let mut recorder = kiwi::record::Engine::new();
    assert!(!recorder.is_running());
    recorder.start();
    assert!(recorder.is_running());
    recorder.stop();
    recorder.stop();
    assert!(!recorder.is_running());
}

#[test]
fn system_keys_by_platform() {
    assert_eq!(SystemKey::from(Key::Alt, Platform::MacOs), SystemKey::Alt);
    assert_eq!(SystemKey::from(Key::Alt, Platform::Windows), SystemKey::Alt);
    assert_eq!(SystemKey::from(Key::Q, Platform::MacOs), SystemKey::Other(12));
    assert_eq!(SystemKey::from(Key::Q, Platform::Windows), SystemKey::Q);
    assert_eq!(SystemKey::from(Key::LeftBracket, Platform::MacOs), SystemKey::Other(33));
    assert_eq!(SystemKey::from(Key::LeftBracket, Platform::Windows), SystemKey::OEM4);
    assert_eq!(SystemKey::from(Key::NumLock, Platform::MacOs), SystemKey::Other(71));
    assert_eq!(SystemKey::from(Key::NumLock, Platform::Windows), SystemKey::Numlock);
    assert_eq!(Key::try_from(SystemKey::Other(12), Platform::MacOs), Ok(Key::Q));
    assert_eq!(Key::try_from(SystemKey::Q, Platform::Windows), Ok(Key::Q));
    assert_eq!(Key::try_from(SystemKey::Q, Platform::MacOs), Err(Error::UnsupportedSystemKey));
    assert_eq!(
        Key::try_from(SystemKey::Other(12), Platform::Windows),
        Err(Error::UnsupportedSystemKey)
    );
    assert_eq!(
        Key::try_from(SystemKey::Other(9999), Platform::MacOs),
        Err(Error::UnsupportedSystemKey)
    );
}

#[test]
fn system_keys_come_back() {
    let keys = [
        Key::Alt, Key::F1, Key::F20, Key::Num0, Key::Num9, Key::A, Key::Z, Key::N, Key::M, Key::Kp0,
        Key::KpPlus, Key::Slash, Key::BackQuote, Key::Insert, Key::PrintScreen, Key::Pause,
    ];
    for platform in [Platform::MacOs, Platform::Windows] {
        for key in keys {
            assert_eq!(Key::try_from(SystemKey::from(key, platform), platform), Ok(key));
        }
        assert_eq!(Key::try_from(SystemKey::from(Key::M, platform), platform), Ok(Key::M));
        assert_eq!(
            Key::try_from(SystemKey::from(Key::KpDelete, platform), platform),
            Ok(Key::Delete)
        );
    }
}
