//! Command lines and pipelines of external tools.

use vstd::prelude::*;

use crate::tool::Tool;

verus! {

/// The texts of a sequence of strings.
pub open spec fn texts(v: Seq<String>) -> Seq<Seq<char>> {
    Seq::new(v.len(), |i: int| v[i]@)
}

/// One argument if `on` holds, none otherwise.
pub open spec fn flag_if(on: bool, flag: Seq<char>) -> Seq<Seq<char>> {
    if on {
        seq![flag]
    } else {
        Seq::empty()
    }
}

/// The argument vector of one process: the program, then its arguments.
#[derive(Debug)]
pub struct Command {
    pub argv: Vec<String>,
}

impl View for Command {
    type V = Seq<Seq<char>>;

    open spec fn view(&self) -> Seq<Seq<char>> {
        texts(self.argv@)
    }
}

impl Command {
    /// A command that runs `program` without arguments.
    pub fn new(program: &str) -> (c: Command)
        ensures
            c@ == seq![program@],
    {
        let mut argv: Vec<String> = Vec::new();
        argv.push(program.to_string());
        let c = Command { argv };
        c
    }

    /// Appends one argument.
    pub fn arg(&mut self, a: &str)
        ensures
            final(self)@ == old(self)@.push(a@),
    {
        self.argv.push(a.to_string());
    }

    /// Appends the argument made of `prefix` directly followed by `rest`.
    pub fn arg_joined(&mut self, prefix: &str, rest: &str)
        ensures
            final(self)@ == old(self)@.push(prefix@ + rest@),
    {
        let joined = prefix.to_string().concat(rest);
        self.argv.push(joined);
    }

    /// Appends `flag` if `on` holds.
    pub fn flag(&mut self, on: bool, flag: &str)
        ensures
            final(self)@ == old(self)@ + flag_if(on, flag@),
    {
        if on {
            self.arg(flag);
        }
    }

    /// Appends every argument of `more`, in order.
    pub fn args(&mut self, more: &Vec<String>)
        ensures
            final(self)@ == old(self)@ + texts(more@),
    {
        let mut i: usize = 0;
        while i < more.len()
            invariant
                i <= more@.len(),
                self@ == old(self)@ + texts(more@.take(i as int)),
            decreases more@.len() - i,
        {
            let ghost before = self@;
            let item = more[i].clone();
            self.argv.push(item);
            assert(self@ =~= before.push(more@[i as int]@));
            i += 1;
        }
    }
}

/// What is run for one attempt: one process, or two with the first one's
/// standard output fed to the second one's standard input.
#[derive(Debug)]
pub enum Pipeline {
    Single(Command),
    Piped(Command, Command),
}

/// A pipeline as argument vectors.
pub enum PipelineView {
    Single(Seq<Seq<char>>),
    Piped(Seq<Seq<char>>, Seq<Seq<char>>),
}

impl View for Pipeline {
    type V = PipelineView;

    open spec fn view(&self) -> PipelineView {
        match self {
            Pipeline::Single(c) => PipelineView::Single(c@),
            Pipeline::Piped(a, b) => PipelineView::Piped(a@, b@),
        }
    }
}

/// One way to carry out an operation: a tool, the check that tells whether
/// the tool can be used, and the pipeline to run if it can.
#[derive(Debug)]
pub struct ToolCandidate {
    pub tool: Tool,
    /// The command whose clean exit shows that the tool is usable; `None`
    /// for a tool that is used without being checked.
    pub probe: Option<Command>,
    pub pipeline: Pipeline,
}

/// A candidate as argument vectors.
pub struct CandidateView {
    pub tool: Tool,
    pub probe: Option<Seq<Seq<char>>>,
    pub pipeline: PipelineView,
}

impl View for ToolCandidate {
    type V = CandidateView;

    open spec fn view(&self) -> CandidateView {
        CandidateView {
            tool: self.tool,
            probe: match self.probe {
                Some(c) => Some(c@),
                None => None,
            },
            pipeline: self.pipeline@,
        }
    }
}

/// The views of a sequence of candidates.
pub open spec fn candidate_views(v: Seq<ToolCandidate>) -> Seq<CandidateView> {
    Seq::new(v.len(), |i: int| v[i]@)
}

} // verus!
