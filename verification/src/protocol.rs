//! What passes between the invoker and its host: the actions that the invoker
//! asks for, and the events by which the host answers them.

use vstd::prelude::*;

verus! {

/// A piece of work for the host. The host performs it and answers with an
/// [`Event`].
#[derive(Debug, PartialEq, Eq)]
pub enum Action {
    /// Tell whether a file exists at `path`. Answer: [`Event::Exists`].
    PathExists { path: String },
    /// Fetch the whole body behind `url`. Answer: [`Event::Fetched`].
    Fetch { url: String },
    /// Create the file at `path` and write `contents` to it. Answer:
    /// [`Event::Completed`].
    WriteFile { path: String, contents: Vec<u8> },
    /// Read the permission bits of the file at `path`. Answer: [`Event::Mode`].
    ReadMode { path: String },
    /// Set the permission bits of the file at `path` to `mode`. Answer:
    /// [`Event::Completed`].
    SetMode { path: String, mode: u32 },
    /// Start `program` with `args` in the working directory. Answer:
    /// [`Event::Completed`].
    Spawn { program: String, args: Vec<String> },
    /// Wait for the started program to exit and capture its standard output.
    /// Answer: [`Event::Exited`].
    Wait,
}

/// The host's answer to an [`Action`].
#[derive(Debug, PartialEq, Eq)]
pub enum Event {
    /// Whether the file exists.
    Exists(bool),
    /// The body that was fetched.
    Fetched(Vec<u8>),
    /// The permission bits that were read.
    Mode(u32),
    /// The program has exited; these bytes are what it wrote to its standard
    /// output.
    Exited(Vec<u8>),
    /// The action was performed and has nothing to report.
    Completed,
    /// The action could not be performed.
    Failed,
}

/// An [`Action`] with its texts as sequences of characters and its contents
/// as a sequence of bytes.
pub enum ActionView {
    PathExists { path: Seq<char> },
    Fetch { url: Seq<char> },
    WriteFile { path: Seq<char>, contents: Seq<u8> },
    ReadMode { path: Seq<char> },
    SetMode { path: Seq<char>, mode: u32 },
    Spawn { program: Seq<char>, args: Seq<Seq<char>> },
    Wait,
}

/// An [`Event`] with its bytes as a sequence.
pub enum EventView {
    Exists(bool),
    Fetched(Seq<u8>),
    Mode(u32),
    Exited(Seq<u8>),
    Completed,
    Failed,
}

impl View for Action {
    type V = ActionView;

    open spec fn view(&self) -> ActionView {
        match self {
            Action::PathExists { path } => ActionView::PathExists { path: path@ },
            Action::Fetch { url } => ActionView::Fetch { url: url@ },
            Action::WriteFile { path, contents } => ActionView::WriteFile {
                path: path@,
                contents: contents@,
            },
            Action::ReadMode { path } => ActionView::ReadMode { path: path@ },
            Action::SetMode { path, mode } => ActionView::SetMode { path: path@, mode: *mode },
            Action::Spawn { program, args } => ActionView::Spawn {
                program: program@,
                args: args.deep_view(),
            },
            Action::Wait => ActionView::Wait,
        }
    }
}

impl View for Event {
    type V = EventView;

    open spec fn view(&self) -> EventView {
        match self {
            Event::Exists(present) => EventView::Exists(*present),
            Event::Fetched(body) => EventView::Fetched(body@),
            Event::Mode(mode) => EventView::Mode(*mode),
            Event::Exited(stdout) => EventView::Exited(stdout@),
            Event::Completed => EventView::Completed,
            Event::Failed => EventView::Failed,
        }
    }
}

} // verus!
