use vstd::prelude::*;

verus! {

/// The number of fetch workers when nothing else is said.
pub const DEFAULT_COUNT: u8 = 16;

/// The settings of a run. `verbose` is a log level, from 0 (off) to 5
/// (trace): the higher, the more is logged.
pub struct MainConfig {
    pub input: String,
    pub output: String,
    pub logfile: Option<String>,
    pub count: u8,
    pub verbose: u8,
}

/// What the command line said; `verbose` is the level its flags ask for.
pub struct FlagConfig {
    pub input: Option<String>,
    pub output: Option<String>,
    pub logfile: Option<String>,
    pub count: Option<u8>,
    pub verbose: u8,
}

/// What a configuration file said.
pub struct FileConfig {
    pub input: String,
    pub output: String,
    pub logfile: Option<String>,
    pub count: u8,
    pub verbose: u8,
}

/// A setting that neither the command line nor a file gave.
#[derive(PartialEq, Eq, Structural, Clone, Copy, Debug)]
pub enum ConfigError {
    InputNotSet,
    OutputNotSet,
}

impl FlagConfig {
    /// The settings from the command line alone: the input and output
    /// directories are required, and the worker count defaults to 16.
    pub fn into_config(self) -> (r: Result<MainConfig, ConfigError>)
        ensures
            self.input is None ==> r == Err::<MainConfig, ConfigError>(ConfigError::InputNotSet),
            self.input is Some && self.output is None ==> r == Err::<MainConfig, ConfigError>(ConfigError::OutputNotSet),
            self.input is Some && self.output is Some ==> r is Ok && ({
                let c = r.unwrap();
                &&& c.input == self.input.unwrap()
                &&& c.output == self.output.unwrap()
                &&& c.logfile == self.logfile
                &&& c.count == (if self.count is Some { self.count.unwrap() } else { DEFAULT_COUNT })
                &&& c.verbose == self.verbose
            }),
    {
        let input = match self.input {
            Some(i) => i,
            None => return Err(ConfigError::InputNotSet),
        };
        let output = match self.output {
            Some(o) => o,
            None => return Err(ConfigError::OutputNotSet),
        };
        let count = match self.count {
            Some(c) => c,
            None => DEFAULT_COUNT,
        };
        Ok(MainConfig { input, output, logfile: self.logfile, count, verbose: self.verbose })
    }
}

/// The settings from the command line and a configuration file: each flag
/// given wins over the file, and the more verbose of the two levels holds.
pub fn merge_configs(flags: FlagConfig, file: FileConfig) -> (r: MainConfig)
    ensures
        r.input == (if flags.input is Some { flags.input.unwrap() } else { file.input }),
        r.output == (if flags.output is Some { flags.output.unwrap() } else { file.output }),
        r.logfile == (if flags.logfile is Some { flags.logfile } else { file.logfile }),
        r.count == (if flags.count is Some { flags.count.unwrap() } else { file.count }),
        r.verbose == (if flags.verbose > file.verbose { flags.verbose } else { file.verbose }),
{
    let input = match flags.input {
        Some(i) => i,
        None => file.input,
    };
    let output = match flags.output {
        Some(o) => o,
        None => file.output,
    };
    let logfile = match flags.logfile {
        Some(l) => Some(l),
        None => file.logfile,
    };
    let count = match flags.count {
        Some(c) => c,
        None => file.count,
    };
    let verbose = if flags.verbose > file.verbose { flags.verbose } else { file.verbose };
    MainConfig { input, output, logfile, count, verbose }
}

} // verus!
