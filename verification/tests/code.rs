use kiwi::input::{Axis, Button, Coordinate, Direction, Key, Token};
use kiwi::interpreter::{Code, Interpreter, PythonCode, PythonEngine, TokenExt};
use kiwi::project::Project;
use kiwi::text::decimal_text;
use kiwi::types::{ColoredPoint, Point, RgbOffset};
use kiwi::Error;

#[test]
fn decimal_text_of_whole_numbers() {
    assert_eq!(decimal_text(0), "0");
    assert_eq!(decimal_text(7), "7");
    assert_eq!(decimal_text(10), "10");
    assert_eq!(decimal_text(-1), "-1");
    assert_eq!(decimal_text(-120), "-120");
    assert_eq!(decimal_text(1002003), "1002003");
    assert_eq!(decimal_text(i64::MAX), "9223372036854775807");
    assert_eq!(decimal_text(i64::MIN), "-9223372036854775808");
    for value in [-99i64, -10, -9, 9, 99, 100, 101, 65535] {
        assert_eq!(decimal_text(value), value.to_string());
    }
}

#[test]
fn python_predefined() {
    assert_eq!(
        PythonCode::default().predefined(),
        "from kiwi import ScreenClient, Point, ColoredPoint, RgbOffset, System, Key\nclient = ScreenClient()\n"
    );
}

#[test]
fn python_find_image_statements() {
    let code = PythonCode::default();
    assert_eq!(
        code.find_image("icons/ok", &Point::new(1, -2), &Point::new(30, 40), "0.99"),
        "client.find_image(\n    subpath=\"icons/ok\",\n    start_point=Point(x=1,y=-2),\n    end_point=Point(x=30,y=40),\n    threshold=0.99,\n)"
    );
    assert_eq!(
        code.find_images("a", &Point::new(0, 0), &Point::new(5, 5), "1"),
        "client.find_images(\n    subpath=\"a\",\n    start_point=Point(x=0,y=0),\n    end_point=Point(x=5,y=5),\n    threshold=1,\n)"
    );
}

#[test]
fn python_find_colors_statement() {
    let code = PythonCode::default();
    let colors = vec![String::from("#ff0000"), String::from("#00ff00")];
    assert_eq!(
        code.find_colors(&colors, &Point::new(0, 0), &Point::new(100, 50), &RgbOffset::new(1, 2, 255)),
        "client.find_colors(\n    hex_colors=[\n        \"#ff0000\",\n        \"#00ff00\",\n    ],\n    start_point=Point(x=0,y=0),\n    end_point=Point(x=100,y=50),\n    rgb_offset=RgbOffset(r=1, g=2, b=255),\n)"
    );
    assert_eq!(
        code.find_colors(&[], &Point::new(0, 0), &Point::new(1, 1), &RgbOffset::new(0, 0, 0)),
        "client.find_colors(\n    hex_colors=[\n\n    ],\n    start_point=Point(x=0,y=0),\n    end_point=Point(x=1,y=1),\n    rgb_offset=RgbOffset(r=0, g=0, b=0),\n)"
    );
}

#[test]
fn python_find_relative_colors_statement() {
    let code = PythonCode::default();
    let stars = vec![
        ColoredPoint::new(Point::new(3, -4), String::from("#010203")),
        ColoredPoint::new(Point::new(0, 9), String::from("#ffffff")),
    ];
    assert_eq!(
        code.find_relative_colors(
            "#c80000",
            &stars,
            &Point::new(10, 20),
            &Point::new(30, 40),
            &RgbOffset::new(5, 5, 5)
        ),
        "client.find_relative_colors(\n    vertex_color=\"#c80000\",\n    relative_points=[\n        ColoredPoint(point=Point(x=3, y=-4)), hex=\"#010203\"\n        ColoredPoint(point=Point(x=0, y=9)), hex=\"#ffffff\"\n    ],\n    start_point=Point(x=10,y=20),\n    end_point=Point(x=30,y=40),\n    rgb_offset=RgbOffset(r=5, g=5, b=5),\n)"
    );
}

#[test]
fn python_recognize_text_statement() {
    assert_eq!(
        PythonCode::default().recognize_text(&Point::new(1, 2), &Point::new(3, 4)),
        "client.recognize_text(\n    start_point=Point(x=1,y=2),\n    end_point=Point(x=3,y=4),\n)"
    );
}

#[test]
fn interpreter_gives_its_code() {
    let python = PythonEngine::new(String::new(), String::new(), String::new());
    assert_eq!(Interpreter::Python(python).get_code(), PythonCode::default());
}

#[test]
fn replace_vars_fills_in_both_folders() {
    assert_eq!(
        Project::replace_vars(
            "\"${resourceFolder}/editor/vscode/Code.exe\" \"${projectFolder}\"",
            r"\\?\C:\res",
            r"\\?\D:\work\demo"
        ),
        "\"C:\\res/editor/vscode/Code.exe\" \"D:\\work\\demo\""
    );
    assert_eq!(
        Project::replace_vars("open \"${projectFolder}\" ${projectFolder}", "/res", "/p"),
        "open \"/p\" /p"
    );
    assert_eq!(Project::replace_vars("code .", "/res", "/p"), "code .");
}

#[test]
fn tokens_as_python_statements() {
    let cases = vec![
        (Token::Text(String::from("hello")), "input_text(\"text=hello\")"),
        (Token::Key(Key::Alt, Direction::Press), "press_key(key=Key.Alt)"),
        (Token::Key(Key::F5, Direction::Release), "release_key(key=Key.F5)"),
        (Token::Key(Key::Num0, Direction::Click), "click_key(key=Key.Num0)"),
        (Token::Button(Button::Left, Direction::Press), "press_left()"),
        (Token::Button(Button::Left, Direction::Release), "release_left()"),
        (Token::Button(Button::Left, Direction::Click), "click_left()"),
        (Token::Button(Button::Right, Direction::Press), "press_right()"),
        (Token::Button(Button::Right, Direction::Release), "release_right()"),
        (Token::Button(Button::Right, Direction::Click), "click_right()"),
        (
            Token::MoveMouse(12, -3, Coordinate::Abs),
            "move_absolute(absolute_point=Point(x=12, y=-3))",
        ),
        (Token::MoveMouse(-1, 0, Coordinate::Rel), "move_relative(offset=Point(x=-1, y=0))"),
        (Token::Scroll(5, Axis::Horizontal), "scroll_horizontal(length=5)"),
        (Token::Scroll(-120, Axis::Vertical), "scroll_vertical(length=-120)"),
    ];
    for (token, statement) in cases {
        assert_eq!(token.to_python_statement(), Ok(String::from(statement)));
    }
}

#[test]
fn tokens_without_a_statement() {
    for direction in [Direction::Press, Direction::Release, Direction::Click] {
        assert_eq!(
            Token::Button(Button::Middle, direction).to_python_statement(),
            Err(Error::UnsupportedButton)
        );
        assert_eq!(Token::Key(Key::M, direction).to_python_statement(), Err(Error::UnnamedKey));
    }
}

#[test]
fn key_names_read_back() {
    for key in [Key::Alt, Key::F20, Key::Num9, Key::KpDelete, Key::NumLock, Key::N] {
        assert_eq!(Key::from_str(key.name().unwrap()), Ok(key));
    }
    assert_eq!(Key::Escape.name(), Some("Escape"));
    assert_eq!(Key::M.name(), None);
}

#[test]
fn replace_vars_replaces_from_the_left_without_overlap() {
    assert_eq!(
        Project::replace_vars("${projectFolder}${projectFolder}$", "", "a${projectFolder}b"),
        "a${projectFolder}ba${projectFolder}b$"
    );
    assert_eq!(Project::replace_vars("${resourceFolder", "/r", "/p"), "${resourceFolder");
    assert_eq!(Project::replace_vars("", "/r", "/p"), "");
    assert_eq!(
        Project::replace_vars("${resourceFolder}", "${projectFolder}", "/p"),
        "/p"
    );
}
