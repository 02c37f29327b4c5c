//! The invoker: it makes sure that the tool and its configuration are in
//! place, runs the tool and judges its output. It decides; the host acts.
//!
//! A run starts with [`Invoker::new`], which hands out the first action. The
//! host performs each action and passes the answer to [`Invoker::step`], until
//! a step finishes the run with its result.

use vstd::prelude::*;
use vstd::string::*;
use crate::command::{
    build_args, default_config, download_url, program_path, spec_args, spec_default_config,
    spec_download_url, spec_program_path, CONFIG_FILE,
};
use crate::error::{result_view, ErrorKind, ErrorView};
use crate::options::TailwindOptions;
use crate::output::{classify_stdout, spec_classify, utf8_lossy};
use crate::permissions::{executable_mode, spec_executable_mode};
use crate::platform::{binary_name, is_supported, spec_binary_name, Arch, Os};
use crate::protocol::{Action, ActionView, Event, EventView};

verus! {

/// The answer that the invoker is waiting for.
#[derive(Clone, Copy, Debug, PartialEq, Eq, Structural)]
pub enum Phase {
    /// Whether the binary exists.
    BinaryCheck,
    /// The fetched binary.
    Download,
    /// That the binary has been written.
    BinaryWrite,
    /// The permission bits of the binary.
    ModeRead,
    /// That the binary has been made executable.
    ModeSet,
    /// Whether the configuration file exists.
    ConfigCheck,
    /// That the default configuration has been written.
    ConfigWrite,
    /// That the tool has been started.
    Spawn,
    /// The output of the tool.
    Wait,
}

/// What is fixed for a run: the platform, the build mode and the two files.
pub struct Settings {
    pub os: Os,
    pub arch: Arch,
    /// Whether the build is a release build, whose output is minified.
    pub release: bool,
    pub in_file: Seq<char>,
    pub out_file: Seq<char>,
}

impl Settings {
    /// The name of the binary, which is also its path in the working directory.
    pub open spec fn binary(self) -> Seq<char>
        recommends
            is_supported(self.os, self.arch),
    {
        spec_binary_name(self.os, self.arch)->0
    }
}

/// What a step leads to.
pub enum StepView {
    /// The run goes on in the given phase, with an action for the host.
    Continue(Phase, ActionView),
    /// The run is over.
    Finished(Result<(), ErrorView>),
}

/// The action that opens every run: the invoker asks whether the binary is
/// there.
pub open spec fn opening(settings: Settings) -> ActionView {
    ActionView::PathExists { path: settings.binary() }
}

/// The step once the binary is in place: the invoker asks whether the
/// configuration file is there.
pub open spec fn ask_for_config() -> StepView {
    StepView::Continue(Phase::ConfigCheck, ActionView::PathExists { path: CONFIG_FILE@ })
}

/// The step once both files are in place: the invoker has the tool started.
pub open spec fn launch(settings: Settings) -> StepView {
    StepView::Continue(
        Phase::Spawn,
        ActionView::Spawn {
            program: spec_program_path(settings.binary()),
            args: spec_args(settings.in_file, settings.out_file, settings.release),
        },
    )
}

/// The rule of the invoker: what follows from `event` in `phase`.
///
/// A check that is not answered with `Exists(true)` counts as "not there". In
/// every other phase, any event but the expected answer counts as the failure
/// of the pending action and ends the run with the error of that phase.
pub open spec fn transition(settings: Settings, phase: Phase, event: EventView) -> StepView {
    match phase {
        Phase::BinaryCheck => if event == EventView::Exists(true) {
            ask_for_config()
        } else {
            StepView::Continue(
                Phase::Download,
                ActionView::Fetch { url: spec_download_url(settings.binary()) },
            )
        },
        Phase::Download => match event {
            EventView::Fetched(body) => StepView::Continue(
                Phase::BinaryWrite,
                ActionView::WriteFile { path: settings.binary(), contents: body },
            ),
            _ => StepView::Finished(Err(ErrorView::DownloadFailed)),
        },
        Phase::BinaryWrite => match event {
            EventView::Completed => if settings.os.is_unix() {
                StepView::Continue(
                    Phase::ModeRead,
                    ActionView::ReadMode { path: settings.binary() },
                )
            } else {
                ask_for_config()
            },
            _ => StepView::Finished(Err(ErrorView::WriteFailed)),
        },
        Phase::ModeRead => match event {
            EventView::Mode(mode) => StepView::Continue(
                Phase::ModeSet,
                ActionView::SetMode { path: settings.binary(), mode: spec_executable_mode(mode) },
            ),
            _ => StepView::Finished(Err(ErrorView::PermissionFailed)),
        },
        Phase::ModeSet => match event {
            EventView::Completed => ask_for_config(),
            _ => StepView::Finished(Err(ErrorView::PermissionFailed)),
        },
        Phase::ConfigCheck => if event == EventView::Exists(true) {
            launch(settings)
        } else {
            StepView::Continue(
                Phase::ConfigWrite,
                ActionView::WriteFile { path: CONFIG_FILE@, contents: spec_default_config() },
            )
        },
        Phase::ConfigWrite => match event {
            EventView::Completed => launch(settings),
            _ => StepView::Finished(Err(ErrorView::WriteFailed)),
        },
        Phase::Spawn => match event {
            EventView::Completed => StepView::Continue(Phase::Wait, ActionView::Wait),
            _ => StepView::Finished(Err(ErrorView::SpawnFailed)),
        },
        Phase::Wait => match event {
            EventView::Exited(stdout) => StepView::Finished(spec_classify(utf8_lossy(stdout))),
            _ => StepView::Finished(Err(ErrorView::WaitFailed)),
        },
    }
}

/// One run of the tool, at some point between its opening action and its
/// result.
#[derive(Debug)]
pub struct Invoker {
    os: Os,
    arch: Arch,
    release: bool,
    options: TailwindOptions,
    phase: Phase,
}

/// What [`Invoker::step`] hands back.
#[derive(Debug)]
pub enum Step {
    /// The run goes on: the invoker, and the next action for the host.
    Continue(Invoker, Action),
    /// The run is over, with this result.
    Finished(Result<(), ErrorKind>),
}

impl View for Step {
    type V = StepView;

    open spec fn view(&self) -> StepView {
        match self {
            Step::Continue(invoker, action) => StepView::Continue(invoker.phase(), action@),
            Step::Finished(result) => StepView::Finished(result_view(*result)),
        }
    }
}

impl Invoker {
    /// An invoker exists only for a platform that has a binary.
    #[verifier::type_invariant]
    spec fn supported(self) -> bool {
        is_supported(self.os, self.arch)
    }

    /// What is fixed for this run.
    pub closed spec fn settings(self) -> Settings {
        Settings {
            os: self.os,
            arch: self.arch,
            release: self.release,
            in_file: self.options.in_file@,
            out_file: self.options.out_file@,
        }
    }

    /// The answer that the invoker is waiting for.
    pub closed spec fn phase(self) -> Phase {
        self.phase
    }

    /// Starts a run for the given platform, build mode and files, and hands
    /// out the opening action with it. There is no run on a platform without
    /// a binary.
    pub fn new(os: Os, arch: Arch, release: bool, options: &TailwindOptions) -> (result: Option<
        (Invoker, Action),
    >)
        ensures
            result is Some <==> is_supported(os, arch),
            result matches Some((invoker, action)) ==> {
                &&& invoker.settings() == (Settings {
                    os,
                    arch,
                    release,
                    in_file: options.in_file@,
                    out_file: options.out_file@,
                })
                &&& invoker.phase() == Phase::BinaryCheck
                &&& action@ == opening(invoker.settings())
            },
    {
        match binary_name(os, arch) {
            Some(name) => {
                let options = TailwindOptions {
                    in_file: options.in_file.clone(),
                    out_file: options.out_file.clone(),
                };
                let invoker = Invoker { os, arch, release, options, phase: Phase::BinaryCheck };
                Some((invoker, Action::PathExists { path: String::from_str(name) }))
            },
            None => None,
        }
    }

    /// Takes the host's answer to the pending action and decides what comes
    /// next: another action, or the end of the run.
    pub fn step(self, event: Event) -> (result: Step)
        ensures
            result@ == transition(self.settings(), self.phase(), event@),
            result matches Step::Continue(next, _) ==> next.settings() == self.settings(),
    {
        proof {
            use_type_invariant(&self);
        }
        match self.phase {
            Phase::BinaryCheck => match event {
                Event::Exists(true) => self.ask_for_config(),
                _ => {
                    let url = download_url(self.binary());
                    self.proceed(Phase::Download, Action::Fetch { url })
                },
            },
            Phase::Download => match event {
                Event::Fetched(contents) => {
                    let path = String::from_str(self.binary());
                    self.proceed(Phase::BinaryWrite, Action::WriteFile { path, contents })
                },
                _ => Step::Finished(Err(ErrorKind::DownloadFailed)),
            },
            Phase::BinaryWrite => match event {
                Event::Completed => if self.os.is_unix() {
                    let path = String::from_str(self.binary());
                    self.proceed(Phase::ModeRead, Action::ReadMode { path })
                } else {
                    self.ask_for_config()
                },
                _ => Step::Finished(Err(ErrorKind::WriteFailed)),
            },
            Phase::ModeRead => match event {
                Event::Mode(mode) => {
                    let path = String::from_str(self.binary());
                    self.proceed(
                        Phase::ModeSet,
                        Action::SetMode { path, mode: executable_mode(mode) },
                    )
                },
                _ => Step::Finished(Err(ErrorKind::PermissionFailed)),
            },
            Phase::ModeSet => match event {
                Event::Completed => self.ask_for_config(),
                _ => Step::Finished(Err(ErrorKind::PermissionFailed)),
            },
            Phase::ConfigCheck => match event {
                Event::Exists(true) => self.launch(),
                _ => {
                    let path = String::from_str(CONFIG_FILE);
                    self.proceed(
                        Phase::ConfigWrite,
                        Action::WriteFile { path, contents: default_config() },
                    )
                },
            },
            Phase::ConfigWrite => match event {
                Event::Completed => self.launch(),
                _ => Step::Finished(Err(ErrorKind::WriteFailed)),
            },
            Phase::Spawn => match event {
                Event::Completed => self.proceed(Phase::Wait, Action::Wait),
                _ => Step::Finished(Err(ErrorKind::SpawnFailed)),
            },
            Phase::Wait => match event {
                Event::Exited(stdout) => Step::Finished(classify_stdout(stdout.as_slice())),
                _ => Step::Finished(Err(ErrorKind::WaitFailed)),
            },
        }
    }

    /// The name of this platform's binary.
    fn binary(&self) -> (name: &'static str)
        ensures
            name@ == self.settings().binary(),
    {
        proof {
            use_type_invariant(self);
        }
        binary_name(self.os, self.arch).unwrap()
    }

    /// Moves on to `phase` and hands `action` to the host.
    fn proceed(self, phase: Phase, action: Action) -> (result: Step)
        ensures
            result@ == StepView::Continue(phase, action@),
            result matches Step::Continue(next, _) && next.settings() == self.settings(),
    {
        proof {
            use_type_invariant(&self);
        }
        let next = Invoker {
            os: self.os,
            arch: self.arch,
            release: self.release,
            options: self.options,
            phase,
        };
        Step::Continue(next, action)
    }

    /// Asks the host whether the configuration file is there.
    fn ask_for_config(self) -> (result: Step)
        ensures
            result@ == ask_for_config(),
            result matches Step::Continue(next, _) && next.settings() == self.settings(),
    {
        let path = String::from_str(CONFIG_FILE);
        self.proceed(Phase::ConfigCheck, Action::PathExists { path })
    }

    /// Has the host start the tool.
    fn launch(self) -> (result: Step)
        ensures
            result@ == launch(self.settings()),
            result matches Step::Continue(next, _) && next.settings() == self.settings(),
    {
        let program = program_path(self.binary());
        let args = build_args(&self.options, self.release);
        self.proceed(Phase::Spawn, Action::Spawn { program, args })
    }
}

} // verus!
