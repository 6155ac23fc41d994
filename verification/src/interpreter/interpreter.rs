use vstd::prelude::*;
use vstd::string::StringExecFns;

use crate::error::Error;
use crate::interpreter::code::PythonCode;
use crate::text::{lowercase, text_eq, to_lowercase};

verus! {

/// What is known of a project's Python: where the interpreters are, and the
/// process that runs a script, if one runs.
#[derive(Debug, Clone, PartialEq, Eq)]
pub struct PythonEngine {
    pub default_interpreter: String,
    pub project_interpreter: String,
    pub project_path: String,
    /// The process that runs a script; zero when none runs.
    pub pid: u32,
}

impl PythonEngine {
    /// An engine for which no script runs.
    pub fn new(default_interpreter: String, project_interpreter: String, project_path: String) -> (engine:
        PythonEngine)
        ensures
            engine.default_interpreter == default_interpreter,
            engine.project_interpreter == project_interpreter,
            engine.project_path == project_path,
            engine.pid == 0,
    {
        PythonEngine { default_interpreter, project_interpreter, project_path, pid: 0 }
    }
}

/// An interpreter for a project's scripts.
#[derive(Debug, Clone, PartialEq, Eq)]
pub enum Interpreter {
    Python(PythonEngine),
}

/// The error is that of a language without interpreter.
pub open spec fn is_unsupported_interpreter(error: Error, language: Seq<char>) -> bool {
    error matches Error::UnsupportedInterpreter(told) && told@ == language
}

impl Interpreter {
    /// The interpreter for a language written in lower case. Only Python is
    /// known.
    pub fn new_from_lower_case(language: String, python: PythonEngine) -> (r: Result<
        Interpreter,
        Error,
    >)
        ensures
            language@ == "python"@ ==> r == Ok::<Interpreter, Error>(Interpreter::Python(python)),
            language@ != "python"@ ==> (r matches Err(e) && is_unsupported_interpreter(
                e,
                language@,
            )),
    {
        if text_eq(language.as_str(), "python") {
            Ok(Interpreter::Python(python))
        } else {
            Err(Error::UnsupportedInterpreter(language))
        }
    }

    /// The interpreter for a language, whatever the case it is written in.
    /// Only Python is known.
    pub fn new_from_language_and_project_path(language: &str, python: PythonEngine) -> (r: Result<
        Interpreter,
        Error,
    >)
        ensures
            lowercase(language@) == "python"@ ==> r == Ok::<Interpreter, Error>(
                Interpreter::Python(python),
            ),
            lowercase(language@) != "python"@ ==> (r matches Err(e) && is_unsupported_interpreter(
                e,
                lowercase(language@),
            )),
    {
        Interpreter::new_from_lower_case(to_lowercase(language), python)
    }

    /// The process that runs a script; zero when none runs.
    pub fn get_pid(&self) -> (pid: u32)
        ensures
            pid == match *self {
                Interpreter::Python(engine) => engine.pid,
            },
    {
        match self {
            Interpreter::Python(engine) => engine.pid,
        }
    }

    /// Takes note that a script runs as process `pid`.
    pub fn started(&mut self, pid: u32)
        ensures
            final(self).get_pid_spec() == pid,
    {
        match self {
            Interpreter::Python(engine) => {
                engine.pid = pid;
            },
        }
    }

    /// The process that runs a script; zero when none runs.
    pub open spec fn get_pid_spec(&self) -> u32 {
        match *self {
            Interpreter::Python(engine) => engine.pid,
        }
    }

    /// Takes note that the script is to stop, and tells which process to end:
    /// the one that ran, or none.
    pub fn stop(&mut self) -> (ended: Option<u32>)
        ensures
            final(self).get_pid_spec() == 0,
            ended == if old(self).get_pid_spec() == 0 {
                None::<u32>
            } else {
                Some(old(self).get_pid_spec())
            },
    {
        match self {
            Interpreter::Python(engine) => {
                let pid: u32 = engine.pid;
                engine.pid = 0;
                if pid == 0 {
                    None
                } else {
                    Some(pid)
                }
            },
        }
    }

    /// The statements of the interpreter's language.
    pub fn get_code(&self) -> (code: PythonCode)
        ensures
            code == (PythonCode {  }),
    {
        match self {
            Interpreter::Python(_) => PythonCode {  },
        }
    }

    /// The name of the language.
    pub fn name(&self) -> (name: String)
        ensures
            name@ == "python"@,
    {
        match self {
            Interpreter::Python(_) => String::from_str("python"),
        }
    }

    /// The ending of a script's file name.
    pub fn get_suffix(&self) -> (suffix: String)
        ensures
            suffix@ == "py"@,
    {
        match self {
            Interpreter::Python(_) => String::from_str("py"),
        }
    }

    /// The file that a project starts from.
    pub fn get_main_file(&self) -> (file: String)
        ensures
            file@ == "main.py"@,
    {
        match self {
            Interpreter::Python(_) => String::from_str("main.py"),
        }
    }

    /// What a recorded script starts with.
    pub fn get_recorder_header_template(&self) -> (header: String)
        ensures
            header@
                == "from kiwi import ScreenClient, System, Key, Point\nclient = ScreenClient()"@,
    {
        match self {
            Interpreter::Python(_) => String::from_str(
                "from kiwi import ScreenClient, System, Key, Point\nclient = ScreenClient()",
            ),
        }
    }
}

} // verus!
