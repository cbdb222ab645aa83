use vstd::prelude::*;

verus! {

/// What the server is asked to do.
#[derive(Clone, Copy, Debug, PartialEq, Eq, Structural)]
pub enum BaseCommand {
    /// Run the server (websocket mode only).
    Run,
    /// Print the configuration.
    Configuration,
}

impl Default for BaseCommand {
    fn default() -> (command: Self)
        ensures
            command == BaseCommand::Run,
    {
        BaseCommand::Run
    }
}

/// The parsed command line of the server.
#[derive(Clone, Debug, PartialEq, Eq)]
pub struct Commandline {
    pub configuration_file_path: String,
    pub command: Option<BaseCommand>,
}

impl Commandline {
    /// The command to carry out: the one given, else running the server.
    pub fn base_command(&self) -> (command: BaseCommand)
        ensures
            command == (match self.command {
                Some(command) => command,
                None => BaseCommand::Run,
            }),
    {
        match self.command {
            Some(command) => command,
            None => BaseCommand::default(),
        }
    }
}

} // verus!
