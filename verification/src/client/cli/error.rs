use vstd::prelude::*;

verus! {

/// Why a command line does not fit the options; each case carries the name
/// of the option at fault.
#[derive(Debug, PartialEq, Eq)]
pub enum Fail {
    /// The option needs a value and has none.
    ArgumentMissing(String),
    /// No such option is known.
    UnrecognizedOption(String),
    /// A required option is absent.
    OptionMissing(String),
    /// The option is given more than once.
    OptionDuplicated(String),
    /// The option takes no value and has one.
    UnexpectedArgument(String),
}

/// What a `Fail` stands for.
pub enum FailView {
    ArgumentMissing(Seq<char>),
    UnrecognizedOption(Seq<char>),
    OptionMissing(Seq<char>),
    OptionDuplicated(Seq<char>),
    UnexpectedArgument(Seq<char>),
}

impl View for Fail {
    type V = FailView;

    open spec fn view(&self) -> FailView {
        match *self {
            Fail::ArgumentMissing(name) => FailView::ArgumentMissing(name@),
            Fail::UnrecognizedOption(name) => FailView::UnrecognizedOption(name@),
            Fail::OptionMissing(name) => FailView::OptionMissing(name@),
            Fail::OptionDuplicated(name) => FailView::OptionDuplicated(name@),
            Fail::UnexpectedArgument(name) => FailView::UnexpectedArgument(name@),
        }
    }
}

/// Why the client has no configuration.
#[derive(Debug, PartialEq, Eq)]
pub enum ConfigError {
    /// Help was asked for; the usage message is carried along.
    Help(String),
    /// The version was asked for; it is carried along.
    Version(&'static str),
    /// The configuration file could not be read; its path is carried
    /// along.
    Io(String),
    /// The configuration file is malformed.
    ParseConfigJson,
    /// The arguments do not fit the options.
    ParseArgument(Fail),
    /// Arguments are left over; they are carried along, joined by commas.
    UnexpectedArguments(String),
    /// Neither the command line nor the file sets what is named.
    MissingOption(&'static str),
    /// A number is malformed or out of range.
    ParseInt,
    /// The server's IP address is malformed.
    ParseAddr,
    /// The congestion controller is not known.
    InvalidCongestionController,
    /// The UDP relay mode is not known.
    InvalidUdpRelayMode,
    /// The idle timeout does not exceed the heartbeat interval.
    HeartbeatInterval,
    /// The certificate could not be loaded.
    Certificate,
    /// Only one of user name and password is set.
    LocalAuthentication,
    /// The log level is not known.
    ParseLogLevel,
}

/// What a `ConfigError` stands for.
pub enum ConfigErrorView {
    Help(Seq<char>),
    Version(Seq<char>),
    Io(Seq<char>),
    ParseConfigJson,
    ParseArgument(FailView),
    UnexpectedArguments(Seq<char>),
    MissingOption(Seq<char>),
    ParseInt,
    ParseAddr,
    InvalidCongestionController,
    InvalidUdpRelayMode,
    HeartbeatInterval,
    Certificate,
    LocalAuthentication,
    ParseLogLevel,
}

impl View for ConfigError {
    type V = ConfigErrorView;

    open spec fn view(&self) -> ConfigErrorView {
        match *self {
            ConfigError::Help(message) => ConfigErrorView::Help(message@),
            ConfigError::Version(version) => ConfigErrorView::Version(version@),
            ConfigError::Io(path) => ConfigErrorView::Io(path@),
            ConfigError::ParseConfigJson => ConfigErrorView::ParseConfigJson,
            ConfigError::ParseArgument(fail) => ConfigErrorView::ParseArgument(fail@),
            ConfigError::UnexpectedArguments(list) => ConfigErrorView::UnexpectedArguments(list@),
            ConfigError::MissingOption(what) => ConfigErrorView::MissingOption(what@),
            ConfigError::ParseInt => ConfigErrorView::ParseInt,
            ConfigError::ParseAddr => ConfigErrorView::ParseAddr,
            ConfigError::InvalidCongestionController => ConfigErrorView::InvalidCongestionController,
            ConfigError::InvalidUdpRelayMode => ConfigErrorView::InvalidUdpRelayMode,
            ConfigError::HeartbeatInterval => ConfigErrorView::HeartbeatInterval,
            ConfigError::Certificate => ConfigErrorView::Certificate,
            ConfigError::LocalAuthentication => ConfigErrorView::LocalAuthentication,
            ConfigError::ParseLogLevel => ConfigErrorView::ParseLogLevel,
        }
    }
}

impl ConfigError {
    /// Whether the error is an answer to a question, not a failure: the
    /// program prints it and ends well.
    pub fn is_answer(&self) -> (answer: bool)
        ensures
            answer == (self@ is Help || self@ is Version),
    {
        match self {
            ConfigError::Help(_) => true,
            ConfigError::Version(_) => true,
            _ => false,
        }
    }

    /// The status with which the program ends on this error: 0 after an
    /// answer, 1 after a failure.
    pub fn exit_code(&self) -> (code: i32)
        ensures
            code == if self@ is Help || self@ is Version {
                0i32
            } else {
                1i32
            },
    {
        if self.is_answer() {
            0
        } else {
            1
        }
    }
}

} // verus!
