use vstd::prelude::*;

use crate::lesson::Lesson;
use crate::value::{deep_equal, Value};

verus! {

/// What one line of input asks for, read as an exact, case-sensitive match.
#[derive(PartialEq, Eq, Structural, Clone, Copy, Debug)]
pub enum Command {
    Blank,
    Exit,
    Help,
    Next,
    Prev,
    Docs,
    Cheat,
    Source,
}

/// Where the session stands.
///
/// `Browsing`: the learner works on the current lesson. `Gated`: the current
/// lesson was just solved and only `next`, `exit` and `quit` are accepted.
/// `Finished`: the session is over.
#[derive(PartialEq, Eq, Structural, Clone, Copy, Debug)]
pub enum Mode {
    Browsing,
    Gated,
    Finished,
}

/// What the surrounding shell does after a line of input.
#[derive(PartialEq, Eq, Structural, Clone, Copy, Debug)]
pub enum Action {
    /// Nothing to do.
    Nothing,
    /// The session ends.
    End,
    /// Print the list of commands.
    ShowHelp,
    /// Clear the screen and present the lesson at this index.
    Present(usize),
    /// Say that the first lesson is already reached, then present it.
    AtBeginning,
    /// Announce that the course is complete; the session ends.
    Complete,
    /// Open the current lesson's documentation page.
    OpenDocs,
    /// Print the current lesson's target value.
    ShowTarget,
    /// Evaluate the line as source against the current working value.
    Evaluate,
    /// Remind the learner that only `next`, `exit` or `quit` go on.
    Reprompt,
}

/// What one evaluation produced: the working value as it stands afterwards,
/// and the result or the diagnostic.
#[derive(Debug)]
pub enum Outcome {
    Success { working: Value, result: Value },
    Failure { working: Value, message: String },
}

/// How an evaluation was judged.
#[derive(Debug)]
pub enum Verdict {
    /// The evaluation failed; the diagnostic is shown.
    Error(String),
    /// The working value differs from the target; the result is shown.
    Result(Value),
    /// The lesson is solved and more follow: `completed` of `total` are done.
    Solved { completed: usize, total: usize },
    /// The last lesson is solved: the course is complete.
    Mastered,
}

/// The curriculum was empty.
#[derive(PartialEq, Eq, Structural, Clone, Copy, Debug)]
pub enum LoadError {
    NoLessons,
}

/// The command a line of input stands for.
pub open spec fn command_of(line: Seq<char>) -> Command {
    if line.len() == 0 {
        Command::Blank
    } else if line == "exit"@ || line == "quit"@ {
        Command::Exit
    } else if line == "help"@ {
        Command::Help
    } else if line == "next"@ {
        Command::Next
    } else if line == "prev"@ {
        Command::Prev
    } else if line == "docs"@ {
        Command::Docs
    } else if line == "cheat"@ {
        Command::Cheat
    } else {
        Command::Source
    }
}

/// One step of the session on a command: the next index, the next mode and
/// the action, for a curriculum of `len` lessons at `index` in `mode`.
pub open spec fn transition(len: nat, index: nat, mode: Mode, cmd: Command) -> (nat, Mode, Action) {
    match mode {
        Mode::Browsing => match cmd {
            Command::Blank => (index, Mode::Browsing, Action::Nothing),
            Command::Exit => (index, Mode::Finished, Action::End),
            Command::Help => (index, Mode::Browsing, Action::ShowHelp),
            Command::Next => if index + 1 == len {
                (index, Mode::Finished, Action::Complete)
            } else {
                ((index + 1) as nat, Mode::Browsing, Action::Present((index + 1) as usize))
            },
            Command::Prev => if index == 0 {
                (0, Mode::Browsing, Action::AtBeginning)
            } else {
                ((index - 1) as nat, Mode::Browsing, Action::Present((index - 1) as usize))
            },
            Command::Docs => (index, Mode::Browsing, Action::OpenDocs),
            Command::Cheat => (index, Mode::Browsing, Action::ShowTarget),
            Command::Source => (index, Mode::Browsing, Action::Evaluate),
        },
        Mode::Gated => match cmd {
            Command::Next => ((index + 1) as nat, Mode::Browsing, Action::Present((index + 1) as usize)),
            Command::Exit => (index, Mode::Finished, Action::End),
            _ => (index, Mode::Gated, Action::Reprompt),
        },
        Mode::Finished => (index, Mode::Finished, Action::End),
    }
}

/// The lesson with its working value replaced.
pub open spec fn with_working(l: Lesson, w: Value) -> Lesson {
    Lesson {
        section: l.section,
        id: l.id,
        title: l.title,
        help_text: l.help_text,
        docs: l.docs,
        target: l.target,
        working: w,
    }
}

/// The working value an outcome leaves.
pub open spec fn outcome_working(o: Outcome) -> Value {
    match o {
        Outcome::Success { working, .. } => working,
        Outcome::Failure { working, .. } => working,
    }
}

fn same_text(line: &str, word: &str) -> (r: bool)
    ensures
        r == (line@ == word@),
{
    let a = line.to_owned();
    let b = word.to_owned();
    a == b
}

/// Reads a line of input as a command.
pub fn classify(line: &str) -> (c: Command)
    ensures
        c == command_of(line@),
{
    proof {
        reveal_strlit("exit");
        reveal_strlit("quit");
        reveal_strlit("help");
        reveal_strlit("next");
        reveal_strlit("prev");
        reveal_strlit("docs");
        reveal_strlit("cheat");
    }
    if line.is_empty() {
        Command::Blank
    } else if same_text(line, "exit") || same_text(line, "quit") {
        Command::Exit
    } else if same_text(line, "help") {
        Command::Help
    } else if same_text(line, "next") {
        Command::Next
    } else if same_text(line, "prev") {
        Command::Prev
    } else if same_text(line, "docs") {
        Command::Docs
    } else if same_text(line, "cheat") {
        Command::Cheat
    } else {
        Command::Source
    }
}

/// A learner's pass through a curriculum.
pub struct Session {
    lessons: Vec<Lesson>,
    index: usize,
    mode: Mode,
}

/// The curriculum after an evaluation on lesson `i` left `w` as its working
/// value: only that lesson's working value changes.
pub open spec fn record(lessons: Seq<Lesson>, i: int, w: Value) -> Seq<Lesson> {
    lessons.update(i, with_working(lessons[i], w))
}

/// How an outcome on lesson `index` of `len` lessons, whose target is
/// `target`, is judged: the next mode and the verdict.
pub open spec fn judgement(len: nat, index: nat, target: Value, o: Outcome) -> (Mode, Verdict) {
    match o {
        Outcome::Failure { message, .. } => (Mode::Browsing, Verdict::Error(message)),
        Outcome::Success { working, result } => if deep_equal(working, target) {
            if index + 1 == len {
                (Mode::Finished, Verdict::Mastered)
            } else {
                (
                    Mode::Gated,
                    Verdict::Solved { completed: (index + 1) as usize, total: len as usize },
                )
            }
        } else {
            (Mode::Browsing, Verdict::Result(result))
        },
    }
}

impl Session {
    /// The lessons, in order.
    pub closed spec fn curriculum(&self) -> Seq<Lesson> {
        self.lessons@
    }

    /// The index of the current lesson.
    pub closed spec fn position(&self) -> nat {
        self.index as nat
    }

    /// Where the session stands.
    pub closed spec fn stage(&self) -> Mode {
        self.mode
    }

    /// The curriculum is non-empty, the index points into it, and a gated
    /// session has a lesson after the current one.
    pub open spec fn wf(&self) -> bool {
        &&& self.curriculum().len() > 0
        &&& self.position() < self.curriculum().len()
        &&& (self.stage() == Mode::Gated ==> self.position() + 1 < self.curriculum().len())
    }

    /// Starts a session at the first lesson of a curriculum, which must not
    /// be empty.
    pub fn new(lessons: Vec<Lesson>) -> (r: Result<Session, LoadError>)
        ensures
            match r {
                Ok(s) => {
                    &&& lessons@.len() > 0
                    &&& s.wf()
                    &&& s.curriculum() == lessons@
                    &&& s.position() == 0
                    &&& s.stage() == Mode::Browsing
                },
                Err(e) => lessons@.len() == 0 && e == LoadError::NoLessons,
            },
    {
        if lessons.len() == 0 {
            Err(LoadError::NoLessons)
        } else {
            Ok(Session { lessons, index: 0, mode: Mode::Browsing })
        }
    }

    /// Takes one line of input: moves through the curriculum, ends the
    /// session, or says what the shell has to do with the line.
    pub fn step(&mut self, line: &str) -> (r: Action)
        requires
            old(self).wf(),
        ensures
            final(self).wf(),
            final(self).curriculum() == old(self).curriculum(),
            (final(self).position(), final(self).stage(), r) == transition(
                old(self).curriculum().len(),
                old(self).position(),
                old(self).stage(),
                command_of(line@),
            ),
    {
        let cmd = classify(line);
        let len = self.lessons.len();
        match self.mode {
            Mode::Browsing => match cmd {
                Command::Blank => Action::Nothing,
                Command::Exit => {
                    self.mode = Mode::Finished;
                    Action::End
                },
                Command::Help => Action::ShowHelp,
                Command::Next => {
                    if self.index + 1 == len {
                        self.mode = Mode::Finished;
                        Action::Complete
                    } else {
                        self.index = self.index + 1;
                        Action::Present(self.index)
                    }
                },
                Command::Prev => {
                    if self.index == 0 {
                        Action::AtBeginning
                    } else {
                        self.index = self.index - 1;
                        Action::Present(self.index)
                    }
                },
                Command::Docs => Action::OpenDocs,
                Command::Cheat => Action::ShowTarget,
                Command::Source => Action::Evaluate,
            },
            Mode::Gated => match cmd {
                Command::Next => {
                    self.index = self.index + 1;
                    self.mode = Mode::Browsing;
                    Action::Present(self.index)
                },
                Command::Exit => {
                    self.mode = Mode::Finished;
                    Action::End
                },
                _ => Action::Reprompt,
            },
            Mode::Finished => Action::End,
        }
    }

    /// Records an evaluation of the current lesson and judges it: the
    /// working value it left stays, whether it failed or not, and the lesson
    /// is solved when that value deeply equals the target.
    pub fn conclude(&mut self, outcome: Outcome) -> (r: Verdict)
        requires
            old(self).wf(),
            old(self).stage() == Mode::Browsing,
        ensures
            final(self).wf(),
            final(self).position() == old(self).position(),
            final(self).curriculum() == record(
                old(self).curriculum(),
                old(self).position() as int,
                outcome_working(outcome),
            ),
            (final(self).stage(), r) == judgement(
                old(self).curriculum().len(),
                old(self).position(),
                old(self).curriculum()[old(self).position() as int].target,
                outcome,
            ),
    {
        let i = self.index;
        let len = self.lessons.len();
        let lesson = self.lessons.remove(i);
        let Lesson { section, id, title, help_text, docs, target, working: _ } = lesson;
        let (working, verdict) = match outcome {
            Outcome::Failure { working, message } => (working, Verdict::Error(message)),
            Outcome::Success { working, result } => {
                if working.deep_eq(&target) {
                    if i + 1 == len {
                        self.mode = Mode::Finished;
                        (working, Verdict::Mastered)
                    } else {
                        self.mode = Mode::Gated;
                        (working, Verdict::Solved { completed: i + 1, total: len })
                    }
                } else {
                    (working, Verdict::Result(result))
                }
            },
        };
        self.lessons.insert(i, Lesson { section, id, title, help_text, docs, target, working });
        proof {
            assert(self.lessons@ =~= record(old(self).lessons@, i as int, outcome_working(outcome)));
        }
        verdict
    }

    /// The number of lessons.
    pub fn len(&self) -> (r: usize)
        ensures
            r == self.curriculum().len(),
    {
        self.lessons.len()
    }

    /// The index of the current lesson.
    pub fn index(&self) -> (r: usize)
        ensures
            r == self.position(),
    {
        self.index
    }

    /// Where the session stands.
    pub fn mode(&self) -> (r: Mode)
        ensures
            r == self.stage(),
    {
        self.mode
    }

    /// The lesson at an index.
    pub fn lesson(&self, i: usize) -> (r: &Lesson)
        requires
            i < self.curriculum().len(),
        ensures
            *r == self.curriculum()[i as int],
    {
        &self.lessons[i]
    }

    /// The current lesson.
    pub fn current(&self) -> (r: &Lesson)
        requires
            self.wf(),
        ensures
            *r == self.curriculum()[self.position() as int],
    {
        &self.lessons[self.index]
    }

    /// The working value the next evaluation acts on: the one the last
    /// attempt on the current lesson left.
    pub fn working(&self) -> (r: &Value)
        requires
            self.wf(),
        ensures
            *r == self.curriculum()[self.position() as int].working,
    {
        &self.lessons[self.index].working
    }
}

} // verus!
