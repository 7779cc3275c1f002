use vstd::prelude::*;

verus! {

/// What the program does with its input.
#[derive(Debug, Clone, Copy, PartialEq, Eq, Structural)]
pub enum Mode {
    /// Transpile to Python.
    Python,
    /// Run the interpreter.
    Interpret,
    /// Run the interactive loop.
    Repl,
}

/// The name by which a mode is chosen on the command line.
pub open spec fn mode_name(m: Mode) -> Seq<char> {
    match m {
        Mode::Repl => seq!['r', 'e', 'p', 'l'],
        Mode::Python => seq!['p', 'y', 't', 'h', 'o', 'n'],
        Mode::Interpret => seq!['i', 'n', 't', 'e', 'r', 'p', 'r', 'e', 't'],
    }
}

impl Mode {
    /// The name by which this mode is chosen on the command line.
    pub fn name(&self) -> (r: &'static str)
        ensures
            r@ == mode_name(*self),
    {
        match self {
            Mode::Repl => {
                proof {
                    reveal_strlit("repl");
                }
                "repl"
            },
            Mode::Python => {
                proof {
                    reveal_strlit("python");
                }
                "python"
            },
            Mode::Interpret => {
                proof {
                    reveal_strlit("interpret");
                }
                "interpret"
            },
        }
    }
}

impl Default for Mode {
    fn default() -> (r: Mode)
        ensures
            r == Mode::Repl,
    {
        Mode::Repl
    }
}

/// The command-line settings: a mode, and the files it reads and writes.
#[derive(Debug)]
pub struct Config {
    mode: Mode,
    input_file: Option<String>,
    output_file: Option<String>,
}

impl Config {
    pub closed spec fn spec_mode(&self) -> Mode {
        self.mode
    }

    pub closed spec fn spec_input(&self) -> Option<Seq<char>> {
        match self.input_file {
            Some(s) => Some(s@),
            None => None,
        }
    }

    pub closed spec fn spec_output(&self) -> Option<Seq<char>> {
        match self.output_file {
            Some(s) => Some(s@),
            None => None,
        }
    }

    pub fn new(mode: Mode, input_file: Option<String>, output_file: Option<String>) -> (r: Config)
        ensures
            r.spec_mode() == mode,
            r.spec_input() == (match input_file {
                Some(s) => Some(s@),
                None => None,
            }),
            r.spec_output() == (match output_file {
                Some(s) => Some(s@),
                None => None,
            }),
    {
        Config { mode, input_file, output_file }
    }

    pub fn mode(&self) -> (r: &Mode)
        ensures
            *r == self.spec_mode(),
    {
        &self.mode
    }

    pub fn input(&self) -> (r: Option<&str>)
        ensures
            match r {
                Some(s) => self.spec_input() == Some(s@),
                None => self.spec_input() is None,
            },
    {
        match &self.input_file {
            Some(s) => Some(s.as_str()),
            None => None,
        }
    }

    pub fn output(&self) -> (r: Option<&str>)
        ensures
            match r {
                Some(s) => self.spec_output() == Some(s@),
                None => self.spec_output() is None,
            },
    {
        match &self.output_file {
            Some(s) => Some(s.as_str()),
            None => None,
        }
    }
}

} // verus!
