use kiwi::app::config::checked_port;
use kiwi::app::{App, Config, Level};
use kiwi::capture::text::{join_blocks, OcrState, OcrStep};
use kiwi::capture::Frame;
use kiwi::commands::frontend::CommandError;
use kiwi::interpreter::{Interpreter, PythonEngine};
use kiwi::Platform;
use kiwi::project::{Config as ProjectConfig, Project, ProjectInfo, VerifyStatus};
use kiwi::types::{Point, Size};
use kiwi::Error;

fn python() -> PythonEngine {
    PythonEngine::new(String::from("/res/python3"), String::from("/p/.venv/bin/python"), String::from("/p"))
}

fn project() -> Project {
    let config = ProjectConfig::new("demo", "Python", "code .", "1.2.3");
    Project::new_from_project_path(String::from("/p"), config, python()).unwrap()
}

#[test]
fn app_starts_at_rest() {
    let app = App::get(Config::new(8765));
    assert_eq!(app.config().app.websocket_port, 8765);
    assert!(app.project().is_none());
    assert!(!app.capturer().is_running());
    assert!(!app.recorder().is_running());
    assert_eq!(app.get_frame().unwrap_err(), Error::FrameUnavailable);
    assert_eq!(app.get_frame_arc().unwrap_err(), Error::FrameUnavailable);
    assert_eq!(App::get_version(), "0.1.0");
}

#[test]
fn app_frame_access() {
    let mut app = App::get(Config::new(1));
    app.store_frame(Frame::new(1, 1, vec![1, 2, 3, 4]));
    assert_eq!(app.get_frame().unwrap().buffer, vec![1, 2, 3, 4]);
    assert_eq!(app.get_frame_arc().unwrap().width, 1);
    assert_eq!(app.with_capturer(|capturer| capturer.get_frame().map(|f| f.height)), Some(1));
    assert!(!app.with_recorder(|recorder| recorder.is_running()));
    app.with_input(|_input| ());
}

#[test]
fn app_project_access() {
    let mut app = App::get(Config::new(1));
    assert_eq!(app.try_with_project(|p| p.name.clone()), Err(Error::ProjectNotFound));
    assert_eq!(
        app.try_with_project_mut(|p| (p, 0)),
        Err(Error::ProjectNotFound)
    );
    app.project_mut(Some(project()));
    assert_eq!(app.try_with_project(|p| p.name.clone()), Ok(String::from("demo")));
    let renamed = app.try_with_project_mut(|mut p| {
        p.name = String::from("other");
        (p, 7)
    });
    assert_eq!(renamed, Ok(7));
    assert_eq!(app.project().as_ref().unwrap().name, "other");
    app.project_mut(None);
    assert!(app.project().is_none());
}

#[test]
fn app_config_access() {
    let mut app = App::get(Config::new(1));
    assert_eq!(app.with_config(|c| c.app.websocket_port), 1);
    let old = app.with_config_mut(|c| (Config::new(2), c.app.websocket_port));
    assert_eq!(old, 1);
    assert_eq!(app.config().app.websocket_port, 2);
    app.config_mut(Config::new(3));
    assert_eq!(app.config(), &Config::new(3));
}

#[test]
fn app_resource_dir_is_set_once() {
    let mut app = App::get(Config::new(1));
    assert_eq!(app.init_resource_dir(String::from("/res")), Ok(()));
    assert_eq!(app.get_resource_dir(), "/res");
    assert_eq!(app.init_resource_dir(String::from("/other")), Err(Error::AlreadyInitialized));
    assert_eq!(app.get_resource_dir(), "/res");
}

#[test]
fn port_zero_is_refused() {
    assert_eq!(checked_port(0), Err(Error::InvalidPort));
    assert_eq!(checked_port(1), Ok(1));
    assert_eq!(checked_port(65535), Ok(65535));
    let mut config = Config::new(80);
    assert_eq!(config.update(&Config::new(0)), Err(Error::InvalidPort));
    assert_eq!(config, Config::new(80));
    assert_eq!(config.update(&Config::new(81)), Ok(()));
    assert_eq!(config, Config::new(81));
}

#[test]
fn levels_have_names_and_targets() {
    assert_eq!(Level::Info.as_str(), "INFO");
    assert_eq!(Level::Warn.as_str(), "WARN");
    assert_eq!(Level::Error.as_str(), "ERROR");
    assert_eq!(Level::Success.as_str(), "SUCCESS");
    assert_eq!(Level::Warn.log_target(), "log:warn");
    assert_eq!(Level::Success.log_target(), "log:success");
    assert_eq!(Level::Error.message_target(), "msg:error");
    assert_eq!(Level::Info.message_target(), "msg:info");
}

#[test]
fn interpreter_by_language() {
    for language in ["python", "Python", "PYTHON"] {
        assert_eq!(
            Interpreter::new_from_language_and_project_path(language, python()),
            Ok(Interpreter::Python(python()))
        );
    }
    assert_eq!(
        Interpreter::new_from_language_and_project_path("Ruby", python()),
        Err(Error::UnsupportedInterpreter(String::from("ruby")))
    );
    assert_eq!(
        Interpreter::new_from_language_and_project_path("", python()),
        Err(Error::UnsupportedInterpreter(String::new()))
    );
}

#[test]
fn interpreter_tracks_its_process() {
    let mut interpreter = Interpreter::Python(python());
    assert_eq!(interpreter.get_pid(), 0);
    assert_eq!(interpreter.stop(), None);
    interpreter.started(4242);
    assert_eq!(interpreter.get_pid(), 4242);
    assert_eq!(interpreter.stop(), Some(4242));
    assert_eq!(interpreter.get_pid(), 0);
    assert_eq!(interpreter.stop(), None);
}

#[test]
fn interpreter_texts() {
    let interpreter = Interpreter::Python(python());
    assert_eq!(interpreter.name(), "python");
    assert_eq!(interpreter.get_suffix(), "py");
    assert_eq!(interpreter.get_main_file(), "main.py");
    assert_eq!(
        interpreter.get_recorder_header_template(),
        "from kiwi import ScreenClient, System, Key, Point\nclient = ScreenClient()"
    );
}

#[test]
fn project_from_its_settings() {
    let project = project();
    assert_eq!(project.name, "demo");
    assert_eq!(project.main_file, "main.py");
    assert_eq!(project.path, "/p");
    assert_eq!(project.interpreter, Interpreter::Python(python()));
    assert_eq!(project.config.project.kiwi_version, "1.2.3");
    let config = ProjectConfig::new("demo", "cobol", "", "");
    assert_eq!(
        Project::new_from_project_path(String::from("/p"), config, python()),
        Err(Error::UnsupportedInterpreter(String::from("cobol")))
    );
    let info = ProjectInfo::from_project(&project, String::from("9.9"));
    assert_eq!(info.name, "demo");
    assert_eq!(info.language, "python");
    assert_eq!(info.main_file, "main.py");
    assert_eq!(info.path, "/p");
    assert_eq!(info.kiwi_version, "9.9");
    assert_eq!(ProjectConfig::default(), ProjectConfig::new("", "", "", ""));
}

#[test]
fn project_texts() {
    let interpreter = Interpreter::Python(python());
    assert_eq!(Project::get_kind(&interpreter), "desktop");
    assert_eq!(
        Project::get_edit_command(&interpreter, Platform::MacOs),
        "open -n -a \"/Applications/Visual Studio Code.app\" \"${projectFolder}\""
    );
    assert_eq!(
        Project::get_edit_command(&interpreter, Platform::Windows),
        "\"${resourceFolder}/editor/vscode/Code.exe\" \"${projectFolder}\""
    );
    assert_eq!(
        project().get_recorder_header_template(),
        "from kiwi import ScreenClient, System, Key, Point\nclient = ScreenClient()"
    );
    assert_eq!(VerifyStatus::Valid.as_str(), "valid");
    assert_eq!(VerifyStatus::Invalid.as_str(), "invalid");
    assert_eq!(VerifyStatus::Moved.as_str(), "moved");
}

#[test]
fn normalize_path_strips_the_extended_mark() {
    assert_eq!(Project::normalize_path(r"\\?\C:\Users\me"), r"C:\Users\me");
    assert_eq!(Project::normalize_path(r"C:\Users\me"), r"C:\Users\me");
    assert_eq!(Project::normalize_path(r"\\?"), r"\\?");
    assert_eq!(Project::normalize_path(""), "");
}

#[test]
fn command_errors_carry_the_message() {
    let error = CommandError::from(String::from("no"));
    assert_eq!(error.message(), "no");
    assert_eq!(CommandError::from_error(&Error::ProjectNotFound).message(), "Project not found");
    assert_eq!(
        CommandError::from_error(&Error::InvalidPort).message(),
        "WebSocket port must be greater than 0."
    );
}

#[test]
fn every_error_has_a_message() {
    let errors = vec![
        (Error::FrameUnavailable, "Frame is not found."),
        (Error::CaptureInitFailed, "Failed to open the capture surface."),
        (Error::InvalidFrame, "Failed to convert frame to buffer."),
        (Error::InvalidRegion, "The template size exceeds the cropped frame size."),
        (Error::InvalidImage, "Failed to convert the image."),
        (Error::InvalidColor, "The color is not supported."),
        (Error::InvalidScores, "The score surface does not fit the region."),
        (Error::InvalidThreshold, "The threshold must be greater than zero."),
        (Error::PortConflict, "Failed to bind and probe WebSocket service."),
        (Error::ProtocolParseError(String::from("Invalid JSON: x")), "Invalid JSON: x"),
        (Error::UnsupportedMethod(String::from("m")), "Unsupported method 'm'"),
        (Error::MissingArgument(String::from("k")), "WebSocket argument is missing: k"),
        (Error::InvalidArgument(String::from("k")), "Failed to deserialize argument: k"),
        (Error::UnsupportedInterpreter(String::from("ruby")), "The interpreter is not supported: ruby"),
        (Error::UnsupportedKey(String::from("Hyper")), "The key is not supported: Hyper"),
        (Error::HandlerFailure(String::from("why")), "why"),
        (Error::OcrInitFailure, "Failed to initialize OCR models from memory."),
        (Error::AlreadyInitialized, "Failed to init resource dir"),
        (Error::UnsupportedSystemKey, "The key is not supported."),
        (Error::UnnamedKey, "The key has no name."),
        (Error::UnsupportedButton, "Unsupported button action."),
        (Error::ProjectNotFound, "Project not found"),
        (Error::InvalidPort, "WebSocket port must be greater than 0."),
    ];
    for (error, message) in errors {
        assert_eq!(error.message(), message);
    }
}

#[test]
fn text_blocks_are_joined_in_order() {
    assert_eq!(
        join_blocks(&vec![String::from("Hello"), String::from(", "), String::from("world")]),
        Some(String::from("Hello, world"))
    );
    assert_eq!(join_blocks(&Vec::new()), None);
    assert_eq!(join_blocks(&vec![String::new(), String::new()]), None);
    assert_eq!(join_blocks(&vec![String::from(" ")]), Some(String::from(" ")));
}

#[test]
fn recognize_text_checks_the_region_then_joins() {
    let frame = Frame::new(4, 4, vec![7; 64]);
    let blocks = vec![String::from("a"), String::from("b")];
    assert_eq!(
        frame.recognize_text(Point::new(0, 0), Size::new(4, 4), &blocks),
        Ok(Some(String::from("ab")))
    );
    assert_eq!(frame.recognize_text(Point::new(0, 0), Size::new(4, 4), &Vec::new()), Ok(None));
    assert_eq!(
        frame.recognize_text(Point::new(0, 0), Size::new(5, 4), &blocks),
        Err(Error::InvalidRegion)
    );
    // Only the width is compared with the frame.
    assert_eq!(
        frame.recognize_text(Point::new(0, 0), Size::new(4, 9), &blocks),
        Ok(Some(String::from("ab")))
    );
    let short = Frame::new(4, 4, vec![7; 10]);
    assert_eq!(
        short.recognize_text(Point::new(0, 0), Size::new(4, 4), &blocks),
        Err(Error::InvalidFrame)
    );
}

#[test]
fn text_region_is_the_crop_without_opacity() {
    let frame = Frame::new(2, 2, (0..16).collect());
    let region = frame.text_region(Point::new(1, 0), Size::new(1, 2)).unwrap();
    assert_eq!((region.rows, region.cols, region.channels), (2, 1, 3));
    assert_eq!(region.data, vec![4, 5, 6, 12, 13, 14]);
    assert_eq!(
        frame.text_region(Point::new(0, 0), Size::new(3, 1)).unwrap_err(),
        Error::InvalidRegion
    );
}

#[test]
fn ocr_loads_once_and_a_failure_is_final() {
    let mut state = OcrState::Unloaded;
    assert_eq!(state.step(), OcrStep::Load);
    assert_eq!(state.loaded(true), Ok(()));
    assert_eq!(state.step(), OcrStep::Recognise);
    assert_eq!(state.loaded(false), Ok(()));
    assert_eq!(state, OcrState::Ready);
    let mut state = OcrState::Unloaded;
    assert_eq!(state.loaded(false), Err(Error::OcrInitFailure));
    assert_eq!(state.step(), OcrStep::Fail);
    assert_eq!(state.loaded(true), Err(Error::OcrInitFailure));
    assert_eq!(state, OcrState::Failed);
}

#[test]
fn interpreter_by_lower_case_language() {
    assert_eq!(
        Interpreter::new_from_lower_case(String::from("python"), python()),
        Ok(Interpreter::Python(python()))
    );
    assert_eq!(
        Interpreter::new_from_lower_case(String::from("Python"), python()),
        Err(Error::UnsupportedInterpreter(String::from("Python")))
    );
}
