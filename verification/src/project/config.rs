use vstd::prelude::*;
use vstd::string::StringExecFns;

verus! {

/// A project's settings.
#[derive(Debug, Clone, PartialEq, Eq)]
pub struct Config {
    pub project: ConfigProject,
}

/// What a project says of itself.
#[derive(Debug, Clone, PartialEq, Eq)]
pub struct ConfigProject {
    pub name: String,
    pub language: String,
    pub edit_command: String,
    pub kiwi_version: String,
}

impl Default for ConfigProject {
    fn default() -> (project: ConfigProject)
        ensures
            project.name@.len() == 0,
            project.language@.len() == 0,
            project.edit_command@.len() == 0,
            project.kiwi_version@.len() == 0,
    {
        ConfigProject {
            name: String::new(),
            language: String::new(),
            edit_command: String::new(),
            kiwi_version: String::new(),
        }
    }
}

impl Default for Config {
    fn default() -> (config: Config)
        ensures
            config.project.name@.len() == 0,
            config.project.language@.len() == 0,
            config.project.edit_command@.len() == 0,
            config.project.kiwi_version@.len() == 0,
    {
        Config { project: ConfigProject::default() }
    }
}

impl Config {
    pub fn new(name: &str, language: &str, edit_command: &str, kiwi_version: &str) -> (config: Config)
        ensures
            config.project.name@ == name@,
            config.project.language@ == language@,
            config.project.edit_command@ == edit_command@,
            config.project.kiwi_version@ == kiwi_version@,
    {
        Config {
            project: ConfigProject {
                name: String::from_str(name),
                language: String::from_str(language),
                edit_command: String::from_str(edit_command),
                kiwi_version: String::from_str(kiwi_version),
            },
        }
    }
}

} // verus!
