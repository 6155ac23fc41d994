use vstd::prelude::*;
use vstd::string::StrSliceExecFns;
use vstd::string::StringExecFns;

use crate::error::Error;
use crate::interpreter::interpreter::{is_unsupported_interpreter, Interpreter, PythonEngine};
use crate::platform::Platform;
use crate::project::config::Config;
use crate::text::{lowercase, replace, replaced, starts_with};

verus! {

/// The project that is open.
#[derive(Debug, Clone, PartialEq, Eq)]
pub struct Project {
    pub name: String,
    pub main_file: String,
    pub path: String,
    pub interpreter: Interpreter,
    pub config: Config,
}

/// Whether a folder holds a project that can be opened.
#[derive(Debug, Clone, Copy, PartialEq, Eq, Structural)]
pub enum VerifyStatus {
    Valid,
    Invalid,
    Moved,
}

/// A project as the user interface shows it.
#[derive(Debug, Clone, PartialEq, Eq)]
pub struct ProjectInfo {
    pub name: String,
    pub language: String,
    pub main_file: String,
    pub path: String,
    pub kiwi_version: String,
}

/// The name of a status.
pub open spec fn status_name(status: VerifyStatus) -> Seq<char> {
    match status {
        VerifyStatus::Valid => "valid"@,
        VerifyStatus::Invalid => "invalid"@,
        VerifyStatus::Moved => "moved"@,
    }
}

/// The command that opens a project in the editor, with `${projectFolder}`
/// and `${resourceFolder}` standing for the two folders.
pub open spec fn edit_command(platform: Platform) -> Seq<char> {
    match platform {
        Platform::MacOs => "open -n -a \"/Applications/Visual Studio Code.app\" \"${projectFolder}\""@,
        Platform::Windows => "\"${resourceFolder}/editor/vscode/Code.exe\" \"${projectFolder}\""@,
    }
}

/// What marks a path as one in the extended form of Windows.
pub open spec fn extended_prefix() -> Seq<char> {
    "\\\\?\\"@
}

/// A path without the mark of the extended form, if it has it.
pub open spec fn normalized(path: Seq<char>) -> Seq<char> {
    if extended_prefix().is_prefix_of(path) {
        path.skip(extended_prefix().len() as int)
    } else {
        path
    }
}

/// A command with the two folders put in.
pub open spec fn filled_in(command: Seq<char>, resource_dir: Seq<char>, project_folder: Seq<char>)
    -> Seq<char> {
    replaced(
        replaced(command, "${resourceFolder}"@, normalized(resource_dir)),
        "${projectFolder}"@,
        normalized(project_folder),
    )
}

impl VerifyStatus {
    /// The name of the status.
    pub fn as_str(&self) -> (name: &'static str)
        ensures
            name@ == status_name(*self),
    {
        match self {
            VerifyStatus::Valid => "valid",
            VerifyStatus::Invalid => "invalid",
            VerifyStatus::Moved => "moved",
        }
    }
}

impl Project {
    /// The project in the folder `path`, given the settings found there and
    /// what is known of its Python. The settings name the project and its
    /// language; a language without interpreter is refused.
    pub fn new_from_project_path(path: String, config: Config, python: PythonEngine) -> (r: Result<
        Project,
        Error,
    >)
        ensures
            lowercase(config.project.language@) == "python"@ ==> (r matches Ok(project)
                && project.name@ == config.project.name@ && project.main_file@ == "main.py"@
                && project.path == path && project.interpreter == Interpreter::Python(python)
                && project.config == config),
            lowercase(config.project.language@) != "python"@ ==> (r matches Err(e)
                && is_unsupported_interpreter(e, lowercase(config.project.language@))),
    {
        let interpreter: Interpreter = match Interpreter::new_from_language_and_project_path(
            config.project.language.as_str(),
            python,
        ) {
            Ok(interpreter) => interpreter,
            Err(e) => { return Err(e); },
        };
        let name: String = config.project.name.clone();
        let main_file: String = interpreter.get_main_file();
        Ok(Project { name, main_file, path, interpreter, config })
    }

    /// The kind of project that an interpreter makes.
    pub fn get_kind(interpreter: &Interpreter) -> (kind: String)
        ensures
            kind@ == "desktop"@,
    {
        match interpreter {
            Interpreter::Python(_) => String::from_str("desktop"),
        }
    }

    /// The command that opens a project of this interpreter in the editor.
    pub fn get_edit_command(interpreter: &Interpreter, platform: Platform) -> (command: String)
        ensures
            command@ == edit_command(platform),
    {
        match interpreter {
            Interpreter::Python(_) => match platform {
                Platform::MacOs => String::from_str(
                    "open -n -a \"/Applications/Visual Studio Code.app\" \"${projectFolder}\"",
                ),
                Platform::Windows => String::from_str(
                    "\"${resourceFolder}/editor/vscode/Code.exe\" \"${projectFolder}\"",
                ),
            },
        }
    }

    /// What a recorded script of this project starts with.
    pub fn get_recorder_header_template(&self) -> (header: String)
        ensures
            header@
                == "from kiwi import ScreenClient, System, Key, Point\nclient = ScreenClient()"@,
    {
        self.interpreter.get_recorder_header_template()
    }

    /// The command with the two folders put in: `${resourceFolder}` first,
    /// then `${projectFolder}`, each without the mark of the extended form.
    pub fn replace_vars(command: &str, resource_dir: &str, project_folder: &str) -> (filled: String)
        ensures
            filled@ == filled_in(command@, resource_dir@, project_folder@),
    {
        proof {
            reveal_strlit("${resourceFolder}");
            reveal_strlit("${projectFolder}");
        }
        let resource: String = Project::normalize_path(resource_dir);
        let project: String = Project::normalize_path(project_folder);
        let first: String = replace(command, "${resourceFolder}", resource.as_str());
        replace(first.as_str(), "${projectFolder}", project.as_str())
    }

    /// The path without the mark of the extended form of Windows.
    pub fn normalize_path(path: &str) -> (plain: String)
        ensures
            plain@ == normalized(path@),
    {
        proof {
            reveal_strlit("\\\\?\\");
        }
        if starts_with(path, "\\\\?\\") {
            let n: usize = path.unicode_len();
            let rest: &str = path.substring_char(4, n);
            assert(rest@ =~= path@.skip(4));
            String::from_str(rest)
        } else {
            String::from_str(path)
        }
    }
}

impl ProjectInfo {
    /// What the user interface shows of a project.
    pub fn from_project(project: &Project, kiwi_version: String) -> (info: ProjectInfo)
        ensures
            info.name@ == project.name@,
            info.language@ == "python"@,
            info.main_file@ == project.main_file@,
            info.path@ == project.path@,
            info.kiwi_version == kiwi_version,
    {
        ProjectInfo {
            name: project.name.clone(),
            language: project.interpreter.name(),
            main_file: project.main_file.clone(),
            path: project.path.clone(),
            kiwi_version,
        }
    }
}

} // verus!
