//! The client's command line: where the configuration file is.

use vstd::prelude::*;
use crate::common::text::{str_eq, text, texts};

verus! {

/// What the client prints when asked for help.
pub const HELP_MSG: &'static str = "
Usage tuic-client [arguments]

Arguments:
    -c, --config <path>     Path to the config file (required)
    -v, --version           Print the version
    -h, --help              Print this help message
";

/// `lexopt::Parser`, of which nothing is known but what the functions
/// below say.
#[verifier::external_type_specification]
#[verifier::external_body]
pub struct ExParser(lexopt::Parser);

/// What the parser has to say against the command line.
#[derive(Debug, PartialEq, Eq)]
pub struct ArgumentError {
    /// The parser's own words.
    pub message: String,
}

/// One piece of the command line.
#[derive(Debug, PartialEq, Eq)]
pub enum Token {
    /// A short option, without its dash.
    Short(char),
    /// A long option, without its dashes.
    Long(String),
    /// An argument that is no option.
    Value(String),
}

/// What a token stands for.
pub enum TokenView {
    Short(char),
    Long(Seq<char>),
    Value(Seq<char>),
}

impl View for Token {
    type V = TokenView;

    open spec fn view(&self) -> TokenView {
        match *self {
            Token::Short(c) => TokenView::Short(c),
            Token::Long(name) => TokenView::Long(name@),
            Token::Value(text) => TokenView::Value(text@),
        }
    }
}

/// Why the command line gave no configuration.
pub enum ConfigError {
    /// The command line is malformed.
    Argument(ArgumentError),
    /// No configuration file is named.
    NoConfig,
    /// The version was asked for; it is carried along.
    Version(&'static str),
    /// Help was asked for; the text is carried along.
    Help(&'static str),
}

/// What a `ConfigError` stands for.
pub enum ConfigErrorView {
    Argument(Seq<char>),
    NoConfig,
    Version(Seq<char>),
    Help(Seq<char>),
}

impl View for ConfigError {
    type V = ConfigErrorView;

    open spec fn view(&self) -> ConfigErrorView {
        match *self {
            ConfigError::Argument(e) => ConfigErrorView::Argument(e.message@),
            ConfigError::NoConfig => ConfigErrorView::NoConfig,
            ConfigError::Version(text) => ConfigErrorView::Version(text@),
            ConfigError::Help(text) => ConfigErrorView::Help(text@),
        }
    }
}

/// What a token asks of the scan.
#[derive(Clone, Copy, Debug, PartialEq, Eq, Structural)]
pub enum Verdict {
    /// The path of the configuration file follows.
    TakePath,
    /// The version is asked for.
    Version,
    /// Help is asked for.
    Help,
    /// The token has no place on this command line.
    Unexpected,
}

/// What a token asks of the scan, given whether the path of the
/// configuration file is known already: `-c` or `--config` brings the
/// path, once; `-v` or `--version` and `-h` or `--help` ask for a text;
/// nothing else is known.
pub open spec fn verdict_on(token: TokenView, have_path: bool) -> Verdict {
    match token {
        TokenView::Short(c) => if c == 'c' {
            if have_path {
                Verdict::Unexpected
            } else {
                Verdict::TakePath
            }
        } else if c == 'v' {
            Verdict::Version
        } else if c == 'h' {
            Verdict::Help
        } else {
            Verdict::Unexpected
        },
        TokenView::Long(name) => if name == "config"@ {
            if have_path {
                Verdict::Unexpected
            } else {
                Verdict::TakePath
            }
        } else if name == "version"@ {
            Verdict::Version
        } else if name == "help"@ {
            Verdict::Help
        } else {
            Verdict::Unexpected
        },
        TokenView::Value(_) => Verdict::Unexpected,
    }
}

/// What a token asks of the scan.
pub fn judge(token: &Token, have_path: bool) -> (verdict: Verdict)
    ensures
        verdict == verdict_on(token@, have_path),
{
    match token {
        Token::Short(c) => {
            if *c == 'c' {
                if have_path {
                    Verdict::Unexpected
                } else {
                    Verdict::TakePath
                }
            } else if *c == 'v' {
                Verdict::Version
            } else if *c == 'h' {
                Verdict::Help
            } else {
                Verdict::Unexpected
            }
        },
        Token::Long(name) => {
            if str_eq(name.as_str(), "config") {
                if have_path {
                    Verdict::Unexpected
                } else {
                    Verdict::TakePath
                }
            } else if str_eq(name.as_str(), "version") {
                Verdict::Version
            } else if str_eq(name.as_str(), "help") {
                Verdict::Help
            } else {
                Verdict::Unexpected
            }
        },
        Token::Value(_) => Verdict::Unexpected,
    }
}

/// What a parser is in the middle of.
pub enum Reading {
    /// Nothing: the next token starts a new argument.
    Nothing,
    /// A long option that was written with `=`: its value is in hand, and
    /// nobody has taken it yet.
    Value,
    /// A run of short options, at its first option.
    Shorts,
    /// A run of short options, past its first option: an `=` here
    /// announces a value.
    LaterShorts,
    /// The arguments after `--`, none of which is an option.
    Positionals,
}

/// What a parser holds, as far as it bears on what it hands out.
pub struct Held {
    /// What the parser is in the middle of.
    pub reading: Reading,
    /// What is left in hand of the argument that the parser is reading: the
    /// rest of a run of short options, or the value of a long option.
    pub in_hand: Seq<char>,
    /// The option that the parser handed out last, as it was written.
    pub last: Option<Seq<char>>,
    /// The arguments that the parser has not begun to read.
    pub to_come: Seq<Seq<char>>,
}

impl Held {
    /// What a parser holds that has read nothing of the command line
    /// `args`: the arguments after the program's name are still to come.
    pub open spec fn fresh(args: Seq<Seq<char>>) -> Held {
        Held {
            reading: Reading::Nothing,
            in_hand: Seq::empty(),
            last: None,
            to_come: if args.len() == 0 {
                args
            } else {
                args.skip(1)
            },
        }
    }

    /// How much is left to read: the characters in hand, and the
    /// characters of the arguments to come, each argument counted once
    /// more for itself.
    pub open spec fn weight(self) -> nat {
        self.in_hand.len() + chars_to_come(self.to_come)
    }
}

/// The characters of the arguments `args`, each argument counted once more
/// for itself.
pub open spec fn chars_to_come(args: Seq<Seq<char>>) -> nat
    decreases args.len(),
{
    if args.len() == 0 {
        0
    } else {
        chars_to_come(args.drop_last()) + args.last().len() + 1
    }
}

/// What a parser holds.
pub uninterp spec fn held(parser: lexopt::Parser) -> Held;

/// What `Parser::next` hands out to a parser that holds `h`: the next
/// token, nothing at the end of the command line, or the parser's
/// complaint; and what the parser holds afterwards.
pub uninterp spec fn next_of(h: Held) -> (Result<Option<TokenView>, Seq<char>>, Held);

/// What `Parser::value` hands out to a parser that holds `h`: the value
/// of the option that was handed out last, or the parser's complaint; and
/// what the parser holds afterwards.
pub uninterp spec fn value_of(h: Held) -> (Result<Seq<char>, Seq<char>>, Held);

/// What the parser's answer to a call of `next_token` stands for.
pub open spec fn token_read(r: Result<Option<Token>, ArgumentError>) -> Result<
    Option<TokenView>,
    Seq<char>,
> {
    match r {
        Ok(Some(token)) => Ok(Some(token@)),
        Ok(None) => Ok(None),
        Err(e) => Err(e.message@),
    }
}

/// What the parser's answer to a call of `next_value` stands for.
pub open spec fn value_read(r: Result<String, ArgumentError>) -> Result<Seq<char>, Seq<char>> {
    match r {
        Ok(value) => Ok(value@),
        Err(e) => Err(e.message@),
    }
}

/// `Parser::from_iter`: a parser over the arguments that follow the
/// program's name, of which it has read nothing yet.
#[verifier::external_body]
fn parser_over(args: Vec<String>) -> (parser: lexopt::Parser)
    ensures
        held(parser) == Held::fresh(texts(args@)),
{
    lexopt::Parser::from_iter(args)
}

/// `Parser::next`: the next option or argument, nothing at the end of
/// the command line, or the error of an option's value that nobody took.
/// What comes back depends on nothing but what the parser holds, and each
/// token that is handed out leaves less to read.
#[verifier::external_body]
fn next_token(parser: &mut lexopt::Parser) -> (r: Result<Option<Token>, ArgumentError>)
    ensures
        token_read(r) == next_of(held(*old(parser))).0,
        held(*final(parser)) == next_of(held(*old(parser))).1,
        r matches Ok(Some(_)) ==> held(*final(parser)).weight() < held(*old(parser)).weight(),
{
    match parser.next() {
        Ok(Some(lexopt::Arg::Short(c))) => Ok(Some(Token::Short(c))),
        Ok(Some(lexopt::Arg::Long(name))) => Ok(Some(Token::Long(name.to_owned()))),
        Ok(Some(lexopt::Arg::Value(text))) => Ok(
            Some(Token::Value(text.to_string_lossy().into_owned())),
        ),
        Ok(None) => Ok(None),
        Err(e) => Err(ArgumentError { message: e.to_string() }),
    }
}

/// `Parser::value`: the value of the option that was handed out last, or
/// the error of a command line that ends before it. What comes back
/// depends on nothing but what the parser holds, and nothing that was
/// read is to be read again.
#[verifier::external_body]
fn next_value(parser: &mut lexopt::Parser) -> (r: Result<String, ArgumentError>)
    ensures
        value_read(r) == value_of(held(*old(parser))).0,
        held(*final(parser)) == value_of(held(*old(parser))).1,
        held(*final(parser)).weight() <= held(*old(parser)).weight(),
{
    match parser.value() {
        Ok(value) => Ok(value.to_string_lossy().into_owned()),
        Err(e) => Err(ArgumentError { message: e.to_string() }),
    }
}

/// The words in which the parser names a token as out of place.
pub uninterp spec fn unexpected_words(token: TokenView) -> Seq<char>;

/// `Arg::unexpected`: the error that names a token as out of place.
#[verifier::external_body]
fn unexpected(token: Token) -> (e: ArgumentError)
    ensures
        e.message@ == unexpected_words(token@),
{
    let error = match token {
        Token::Short(c) => lexopt::Arg::Short(c).unexpected(),
        Token::Long(name) => lexopt::Arg::Long(&name).unexpected(),
        Token::Value(text) => lexopt::Arg::Value(text.into()).unexpected(),
    };
    ArgumentError { message: error.to_string() }
}

/// Where the scan stands after one more token: `path` is the path that it
/// has found so far, and `value` is what the parser gave when the scan
/// asked for the token's value, the value or the parser's complaint. The
/// scan goes on with the path that it knows now, or ends on an error.
pub open spec fn after(
    path: Option<Seq<char>>,
    token: TokenView,
    value: Result<Seq<char>, Seq<char>>,
    version: Seq<char>,
) -> Result<Option<Seq<char>>, ConfigErrorView> {
    match verdict_on(token, path is Some) {
        Verdict::TakePath => match value {
            Ok(text) => Ok(Some(text)),
            Err(words) => Err(ConfigErrorView::Argument(words)),
        },
        Verdict::Version => Err(ConfigErrorView::Version(version)),
        Verdict::Help => Err(ConfigErrorView::Help(HELP_MSG@)),
        Verdict::Unexpected => Err(ConfigErrorView::Argument(unexpected_words(token))),
    }
}

/// What the scan makes of what a parser holds, given the path that it
/// has found so far. It asks for a token; at the end of the command line
/// it gives the path, or complains that there is none; a token is judged
/// as `after` tells, with the value that the parser has for it; and where
/// the scan goes on, it goes on with what the parser holds once the value
/// is taken. No more than `tokens` tokens are looked at.
pub open spec fn scan_from(h: Held, path: Option<Seq<char>>, version: Seq<char>, tokens: nat) -> Result<
    Seq<char>,
    ConfigErrorView,
>
    decreases tokens,
{
    if tokens == 0 {
        Err(ConfigErrorView::NoConfig)
    } else {
        match next_of(h).0 {
            Err(words) => Err(ConfigErrorView::Argument(words)),
            Ok(None) => match path {
                Some(path) => Ok(path),
                None => Err(ConfigErrorView::NoConfig),
            },
            Ok(Some(token)) => match after(path, token, value_of(next_of(h).1).0, version) {
                Err(e) => Err(e),
                Ok(found) => scan_from(
                    value_of(next_of(h).1).1,
                    found,
                    version,
                    (tokens - 1) as nat,
                ),
            },
        }
    }
}

/// What the scan makes of the command line `args`, whose first entry is
/// the program's name. Every token uses up some of the command line, so
/// there are fewer tokens than the command line weighs.
pub open spec fn scan(args: Seq<Seq<char>>, version: Seq<char>) -> Result<
    Seq<char>,
    ConfigErrorView,
> {
    scan_from(Held::fresh(args), None, version, Held::fresh(args).weight() + 1)
}

/// What the result of a scan stands for.
pub open spec fn scanned(r: Result<String, ConfigError>) -> Result<Seq<char>, ConfigErrorView> {
    match r {
        Ok(path) => Ok(path@),
        Err(e) => Err(e@),
    }
}

/// Finds the path of the configuration file on the command line `args`,
/// whose first entry is the program's name. `version` is what to answer
/// when the version is asked for.
///
/// The parser cuts the command line into tokens. They are judged one by
/// one, as `judge` tells: the value of `-c` or `--config` is asked for at
/// once and is the path; the first token that asks for a text or is out of
/// place ends the scan; and a command line that ends without a path is an
/// error.
pub fn locate(args: Vec<String>, version: &'static str) -> (r: Result<String, ConfigError>)
    ensures
        scanned(r) == scan(texts(args@), version@),
{
    let ghost whole = scan(texts(args@), version@);
    let mut parser = parser_over(args);
    let mut path: Option<String> = None;
    let ghost mut tokens: nat = held(parser).weight() + 1;
    loop
        invariant_except_break
            tokens > held(parser).weight(),
            scan_from(held(parser), text(path), version@, tokens) == whole,
        invariant
            whole == scan(texts(args@), version@),
        ensures
            whole == match path {
                Some(path) => Ok::<_, ConfigErrorView>(path@),
                None => Err(ConfigErrorView::NoConfig),
            },
        decreases held(parser).weight(),
    {
        let token = match next_token(&mut parser) {
            Ok(Some(token)) => token,
            Ok(None) => {
                break ;
            },
            Err(e) => {
                return Err(ConfigError::Argument(e));
            },
        };
        match judge(&token, path.is_some()) {
            Verdict::TakePath => {
                match next_value(&mut parser) {
                    Ok(value) => {
                        path = Some(value);
                        proof {
                            tokens = (tokens - 1) as nat;
                        }
                    },
                    Err(e) => {
                        return Err(ConfigError::Argument(e));
                    },
                }
            },
            Verdict::Version => {
                return Err(ConfigError::Version(version));
            },
            Verdict::Help => {
                return Err(ConfigError::Help(HELP_MSG));
            },
            Verdict::Unexpected => {
                return Err(ConfigError::Argument(unexpected(token)));
            },
        }
    }
    match path {
        Some(path) => Ok(path),
        None => Err(ConfigError::NoConfig),
    }
}

impl ConfigError {
    /// Whether the error is an answer to a question, not a failure: the
    /// program prints it and ends well.
    pub fn is_answer(&self) -> (answer: bool)
        ensures
            answer == (self@ is Help || self@ is Version),
    {
        match self {
            ConfigError::Help(_) => true,
            ConfigError::Version(_) => true,
            _ => false,
        }
    }

    /// The status with which the program ends on this error: 0 after an
    /// answer, 1 after a failure.
    pub fn exit_code(&self) -> (code: i32)
        ensures
            code == if self@ is Help || self@ is Version {
                0i32
            } else {
                1i32
            },
    {
        if self.is_answer() {
            0
        } else {
            1
        }
    }
}

} // verus!
