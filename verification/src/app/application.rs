use vstd::prelude::*;

use crate::app::config::Config;
use crate::capture::engine::{same_picture, Engine as CaptureEngine};
use crate::capture::frame::Frame;
use crate::error::Error;
use crate::input::engine::Engine as InputEngine;
use crate::input::token::Token;
use crate::project::project::Project;
use crate::record::engine::Engine as RecordEngine;

verus! {

/// The version of the application.
pub const APP_VERSION: &'static str = "0.1.0";

/// Everything that exists once in the application: the three engines, the
/// project that is open, if any, the settings, and the folder of resources
/// once it is known. One value of this type is made at startup and handed to
/// whoever needs one of them.
#[derive(Debug)]
pub struct App {
    capturer: CaptureEngine,
    recorder: RecordEngine,
    input: InputEngine,
    project: Option<Project>,
    config: Config,
    resource_dir: Option<String>,
}

impl App {
    /// The capture engine.
    pub closed spec fn capturer_spec(&self) -> CaptureEngine {
        self.capturer
    }

    /// The recorder.
    pub closed spec fn recorder_spec(&self) -> RecordEngine {
        self.recorder
    }

    /// The input engine.
    pub closed spec fn input_spec(&self) -> InputEngine {
        self.input
    }

    /// The project that is open, if any.
    pub closed spec fn project_spec(&self) -> Option<Project> {
        self.project
    }

    /// The settings.
    pub closed spec fn config_spec(&self) -> Config {
        self.config
    }

    /// The folder of resources, once it is known.
    pub closed spec fn resource_dir_spec(&self) -> Option<String> {
        self.resource_dir
    }

    /// The context at startup: engines at rest, no frame, no project, the
    /// folder of resources not yet known.
    pub fn get(config: Config) -> (app: App)
        ensures
            app.config_spec() == config,
            app.project_spec() is None,
            app.resource_dir_spec() is None,
            !app.capturer_spec().running(),
            app.capturer_spec().current() is None,
            !app.recorder_spec().running(),
            app.input_spec()@.len() == 0,
    {
        App {
            capturer: CaptureEngine::new(),
            recorder: RecordEngine::new(),
            input: InputEngine::new(),
            project: None,
            config,
            resource_dir: None,
        }
    }

    /// A copy of the current frame.
    pub fn get_frame(&self) -> (r: Result<Frame, Error>)
        ensures
            match r {
                Ok(frame) => self.capturer_spec().current() matches Some(held) && same_picture(
                    frame,
                    held,
                ),
                Err(e) => e == Error::FrameUnavailable && self.capturer_spec().current() is None,
            },
    {
        match self.capturer.get_frame() {
            Some(frame) => Ok(frame),
            None => Err(Error::FrameUnavailable),
        }
    }

    /// The current frame itself, to read without copying.
    pub fn get_frame_arc(&self) -> (r: Result<&Frame, Error>)
        ensures
            match r {
                Ok(frame) => self.capturer_spec().current() == Some(*frame),
                Err(e) => e == Error::FrameUnavailable && self.capturer_spec().current() is None,
            },
    {
        match self.capturer.get_frame_arc() {
            Some(frame) => Ok(frame),
            None => Err(Error::FrameUnavailable),
        }
    }

    pub fn capturer(&self) -> (engine: &CaptureEngine)
        ensures
            *engine == self.capturer_spec(),
    {
        &self.capturer
    }

    pub fn recorder(&self) -> (engine: &RecordEngine)
        ensures
            *engine == self.recorder_spec(),
    {
        &self.recorder
    }

    pub fn input(&self) -> (engine: &InputEngine)
        ensures
            *engine == self.input_spec(),
    {
        &self.input
    }

    /// The project that is open, if any.
    pub fn project(&self) -> (project: &Option<Project>)
        ensures
            *project == self.project_spec(),
    {
        &self.project
    }

    /// Opens `project` in place of whatever was open, or closes the project.
    pub fn project_mut(&mut self, project: Option<Project>)
        ensures
            final(self).project_spec() == project,
            final(self).config_spec() == old(self).config_spec(),
            final(self).capturer_spec() == old(self).capturer_spec(),
            final(self).recorder_spec() == old(self).recorder_spec(),
            final(self).input_spec() == old(self).input_spec(),
            final(self).resource_dir_spec() == old(self).resource_dir_spec(),
    {
        self.project = project;
    }

    /// The settings.
    pub fn config(&self) -> (config: &Config)
        ensures
            *config == self.config_spec(),
    {
        &self.config
    }

    /// Puts `config` in place of the settings.
    pub fn config_mut(&mut self, config: Config)
        ensures
            final(self).config_spec() == config,
            final(self).project_spec() == old(self).project_spec(),
            final(self).capturer_spec() == old(self).capturer_spec(),
            final(self).recorder_spec() == old(self).recorder_spec(),
            final(self).input_spec() == old(self).input_spec(),
            final(self).resource_dir_spec() == old(self).resource_dir_spec(),
    {
        self.config = config;
    }

    /// What `f` makes of the capture engine.
    pub fn with_capturer<R, F: FnOnce(&CaptureEngine) -> R>(&self, f: F) -> (r: R)
        requires
            f.requires((&self.capturer_spec(),)),
        ensures
            f.ensures((&self.capturer_spec(),), r),
    {
        f(&self.capturer)
    }

    /// What `f` makes of the recorder.
    pub fn with_recorder<R, F: FnOnce(&RecordEngine) -> R>(&self, f: F) -> (r: R)
        requires
            f.requires((&self.recorder_spec(),)),
        ensures
            f.ensures((&self.recorder_spec(),), r),
    {
        f(&self.recorder)
    }

    /// What `f` makes of the input engine.
    pub fn with_input<R, F: FnOnce(&InputEngine) -> R>(&self, f: F) -> (r: R)
        requires
            f.requires((&self.input_spec(),)),
        ensures
            f.ensures((&self.input_spec(),), r),
    {
        f(&self.input)
    }

    /// What `f` makes of the project that is open; fails where none is.
    pub fn try_with_project<R, F: FnOnce(&Project) -> R>(&self, f: F) -> (r: Result<R, Error>)
        requires
            self.project_spec() matches Some(project) ==> f.requires((&project,)),
        ensures
            match self.project_spec() {
                Some(project) => r matches Ok(made) && f.ensures((&project,), made),
                None => r matches Err(e) && e == Error::ProjectNotFound,
            },
    {
        match &self.project {
            Some(project) => Ok(f(project)),
            None => Err(Error::ProjectNotFound),
        }
    }

    /// What `f` makes of the settings.
    pub fn with_config<R, F: FnOnce(&Config) -> R>(&self, f: F) -> (r: R)
        requires
            f.requires((&self.config_spec(),)),
        ensures
            f.ensures((&self.config_spec(),), r),
    {
        f(&self.config)
    }

    /// What `f` makes of the settings, which it may change: it takes the
    /// settings and gives back the settings to keep, with its result.
    pub fn with_config_mut<R, F: FnOnce(Config) -> (Config, R)>(&mut self, f: F) -> (r: R)
        requires
            f.requires((old(self).config_spec(),)),
        ensures
            f.ensures((old(self).config_spec(),), (final(self).config_spec(), r)),
            final(self).project_spec() == old(self).project_spec(),
            final(self).capturer_spec() == old(self).capturer_spec(),
            final(self).recorder_spec() == old(self).recorder_spec(),
            final(self).input_spec() == old(self).input_spec(),
            final(self).resource_dir_spec() == old(self).resource_dir_spec(),
    {
        let (config, made) = f(self.config);
        self.config = config;
        made
    }

    /// What `f` makes of the project that is open, which it may change: it
    /// takes the project and gives back the project to keep, with its
    /// result. Fails where no project is open.
    pub fn try_with_project_mut<R, F: FnOnce(Project) -> (Project, R)>(&mut self, f: F) -> (r:
        Result<R, Error>)
        requires
            old(self).project_spec() matches Some(project) ==> f.requires((project,)),
        ensures
            match old(self).project_spec() {
                Some(project) => r matches Ok(made) && final(self).project_spec() matches Some(kept)
                    && f.ensures((project,), (kept, made)),
                None => r matches Err(e) && e == Error::ProjectNotFound
                    && final(self).project_spec() is None,
            },
            final(self).config_spec() == old(self).config_spec(),
            final(self).capturer_spec() == old(self).capturer_spec(),
            final(self).recorder_spec() == old(self).recorder_spec(),
            final(self).input_spec() == old(self).input_spec(),
            final(self).resource_dir_spec() == old(self).resource_dir_spec(),
    {
        match self.project.take() {
            Some(project) => {
                let (kept, made) = f(project);
                self.project = Some(kept);
                Ok(made)
            },
            None => Err(Error::ProjectNotFound),
        }
    }

    /// Submits an input token.
    pub fn send_input(&mut self, token: Token)
        ensures
            final(self).input_spec()@ == old(self).input_spec()@.push(token),
            final(self).config_spec() == old(self).config_spec(),
            final(self).project_spec() == old(self).project_spec(),
            final(self).capturer_spec() == old(self).capturer_spec(),
            final(self).recorder_spec() == old(self).recorder_spec(),
            final(self).resource_dir_spec() == old(self).resource_dir_spec(),
    {
        let mut tokens: Vec<Token> = Vec::new();
        tokens.push(token);
        self.input.execute_token(tokens);
        assert(self.input@ =~= old(self).input@.push(token));
    }

    /// Takes out the input token that has waited longest, if any waits.
    pub fn next_input(&mut self) -> (token: Option<Token>)
        ensures
            match token {
                Some(first) => old(self).input_spec()@.len() > 0 && first == old(
                    self,
                ).input_spec()@[0] && final(self).input_spec()@ == old(
                    self,
                ).input_spec()@.drop_first(),
                None => old(self).input_spec()@.len() == 0 && final(self).input_spec()@ == old(
                    self,
                ).input_spec()@,
            },
            final(self).config_spec() == old(self).config_spec(),
            final(self).project_spec() == old(self).project_spec(),
            final(self).capturer_spec() == old(self).capturer_spec(),
            final(self).recorder_spec() == old(self).recorder_spec(),
            final(self).resource_dir_spec() == old(self).resource_dir_spec(),
    {
        self.input.next()
    }

    /// Makes `frame` the current frame.
    pub fn store_frame(&mut self, frame: Frame)
        ensures
            final(self).capturer_spec().current() == Some(frame),
            final(self).capturer_spec().running() == old(self).capturer_spec().running(),
            final(self).config_spec() == old(self).config_spec(),
            final(self).project_spec() == old(self).project_spec(),
            final(self).input_spec() == old(self).input_spec(),
            final(self).recorder_spec() == old(self).recorder_spec(),
            final(self).resource_dir_spec() == old(self).resource_dir_spec(),
    {
        self.capturer.store_frame(frame);
    }

    /// Forgets the current frame.
    pub fn clear_frame(&mut self)
        ensures
            final(self).capturer_spec().current() is None,
            final(self).capturer_spec().running() == old(self).capturer_spec().running(),
            final(self).config_spec() == old(self).config_spec(),
            final(self).project_spec() == old(self).project_spec(),
            final(self).input_spec() == old(self).input_spec(),
            final(self).recorder_spec() == old(self).recorder_spec(),
            final(self).resource_dir_spec() == old(self).resource_dir_spec(),
    {
        self.capturer.clear_frame();
    }

    /// The folder of resources.
    pub fn get_resource_dir(&self) -> (dir: &String)
        requires
            self.resource_dir_spec() is Some,
        ensures
            self.resource_dir_spec() == Some(*dir),
    {
        self.resource_dir.as_ref().unwrap()
    }

    /// Makes the folder of resources known. This can be done once.
    pub fn init_resource_dir(&mut self, resource_dir: String) -> (r: Result<(), Error>)
        ensures
            old(self).resource_dir_spec() is None ==> r is Ok && final(self).resource_dir_spec()
                == Some(resource_dir),
            old(self).resource_dir_spec() is Some ==> r == Err::<(), Error>(
                Error::AlreadyInitialized,
            ) && final(self).resource_dir_spec() == old(self).resource_dir_spec(),
            final(self).config_spec() == old(self).config_spec(),
            final(self).project_spec() == old(self).project_spec(),
            final(self).capturer_spec() == old(self).capturer_spec(),
            final(self).recorder_spec() == old(self).recorder_spec(),
            final(self).input_spec() == old(self).input_spec(),
    {
        if self.resource_dir.is_some() {
            return Err(Error::AlreadyInitialized);
        }
        self.resource_dir = Some(resource_dir);
        Ok(())
    }

    /// The version of the application.
    pub fn get_version() -> (version: &'static str)
        ensures
            version@ == APP_VERSION@,
    {
        APP_VERSION
    }
}

} // verus!
