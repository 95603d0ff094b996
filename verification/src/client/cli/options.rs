//! The client's command line, read with `getopts`.

use vstd::prelude::*;
use vstd::string::StringSliceAdditionalSpecFns;
use vstd::utf8::is_ascii_chars;
use crate::client::cli::error::{ConfigError, Fail, FailView};
use crate::common::text::{join, joined, text, texts};

verus! {

/// `getopts::Options`, of which nothing is known but what the functions
/// below say.
#[verifier::external_type_specification]
#[verifier::external_body]
pub struct ExOptions(getopts::Options);

/// `getopts::Matches`, of which nothing is known but what the functions
/// below say.
#[verifier::external_type_specification]
#[verifier::external_body]
pub struct ExMatches(getopts::Matches);

/// The options that a set holds, in the order in which they were added:
/// of each its short name, its long name, its description, the hint for
/// its value, and whether it takes a value.
pub uninterp spec fn options(opts: getopts::Options) -> Seq<
    (Seq<char>, Seq<char>, Seq<char>, Seq<char>, bool),
>;

/// What was found on the command line for each name that an option can be
/// asked for by: its occurrences in order, each with its value if it has
/// one.
pub uninterp spec fn found(matches: getopts::Matches) -> Map<Seq<char>, Seq<Option<Seq<char>>>>;

/// The arguments on the command line that belong to no option.
pub uninterp spec fn free(matches: getopts::Matches) -> Seq<Seq<char>>;

/// What `getopts` makes of the arguments `args` under the options
/// `table`: what it found and what was left over, or why the arguments
/// do not fit.
pub uninterp spec fn parsed(
    table: Seq<(Seq<char>, Seq<char>, Seq<char>, Seq<char>, bool)>,
    args: Seq<Seq<char>>,
) -> Result<(Map<Seq<char>, Seq<Option<Seq<char>>>>, Seq<Seq<char>>), FailView>;

/// The usage message that `getopts` writes for the options `table` under
/// the heading `brief`.
pub uninterp spec fn usage_text(
    table: Seq<(Seq<char>, Seq<char>, Seq<char>, Seq<char>, bool)>,
    brief: Seq<char>,
) -> Seq<char>;

/// The names by which the options of `table` can be asked for: the short
/// and the long name of each, where it has one.
pub open spec fn names(table: Seq<(Seq<char>, Seq<char>, Seq<char>, Seq<char>, bool)>) -> Set<
    Seq<char>,
> {
    Set::new(
        |name: Seq<char>|
            name.len() > 0 && exists|i: int|
                0 <= i < table.len() && ((#[trigger] table[i]).0 == name || table[i].1 == name),
    )
}

/// `Options::new`: a set without options.
#[verifier::external_body]
fn new_options() -> (opts: getopts::Options)
    ensures
        options(opts) == Seq::<(Seq<char>, Seq<char>, Seq<char>, Seq<char>, bool)>::empty(),
{
    getopts::Options::new()
}

/// `Options::optopt`: adds an option that takes a value and may be given
/// once. The call panics on a short name of more than one byte and on a
/// long name of exactly one, and a later `parse` panics on an option
/// without any name, so all three are left out.
#[verifier::external_body]
fn optopt(opts: &mut getopts::Options, short: &str, long: &str, desc: &str, hint: &str)
    requires
        short.spec_bytes().len() <= 1,
        long.spec_bytes().len() != 1,
        short.spec_bytes().len() + long.spec_bytes().len() > 0,
    ensures
        options(*final(opts)) == options(*old(opts)).push((short@, long@, desc@, hint@, true)),
{
    opts.optopt(short, long, desc, hint);
}

/// `Options::optflag`: adds an option that takes no value and may be
/// given once. It panics as `optopt` does.
#[verifier::external_body]
fn optflag(opts: &mut getopts::Options, short: &str, long: &str, desc: &str)
    requires
        short.spec_bytes().len() <= 1,
        long.spec_bytes().len() != 1,
        short.spec_bytes().len() + long.spec_bytes().len() > 0,
    ensures
        options(*final(opts)) == options(*old(opts)).push((short@, long@, desc@, ""@, false)),
{
    opts.optflag(short, long, desc);
}

/// `Options::parse`: matches the arguments against the options. What
/// comes back can be asked about every name of every option.
#[verifier::external_body]
fn parse(opts: &getopts::Options, args: &Vec<String>) -> (r: Result<getopts::Matches, Fail>)
    ensures
        match r {
            Ok(m) => parsed(options(*opts), texts(args@)) == Ok::<_, FailView>((found(m), free(m)))
                && found(m).dom() == names(options(*opts)),
            Err(fail) => parsed(options(*opts), texts(args@)) == Err::<
                (Map<Seq<char>, Seq<Option<Seq<char>>>>, Seq<Seq<char>>),
                _,
            >(fail@),
        },
{
    match opts.parse(args) {
        Ok(m) => Ok(m),
        Err(getopts::Fail::ArgumentMissing(name)) => Err(Fail::ArgumentMissing(name)),
        Err(getopts::Fail::UnrecognizedOption(name)) => Err(Fail::UnrecognizedOption(name)),
        Err(getopts::Fail::OptionMissing(name)) => Err(Fail::OptionMissing(name)),
        Err(getopts::Fail::OptionDuplicated(name)) => Err(Fail::OptionDuplicated(name)),
        Err(getopts::Fail::UnexpectedArgument(name)) => Err(Fail::UnexpectedArgument(name)),
    }
}

/// `Matches::opt_present`: whether the option was given. The call panics
/// on a name that no option has, so such names are left out.
#[verifier::external_body]
fn opt_present(matches: &getopts::Matches, name: &str) -> (given: bool)
    requires
        found(*matches).dom().contains(name@),
    ensures
        given == (found(*matches)[name@].len() > 0),
{
    matches.opt_present(name)
}

/// `Matches::opt_str`: the value that the option's first occurrence
/// brought, if it was given and brought one. It panics as `opt_present`
/// does.
#[verifier::external_body]
fn opt_str(matches: &getopts::Matches, name: &str) -> (value: Option<String>)
    requires
        found(*matches).dom().contains(name@),
    ensures
        text(value) == first_value(found(*matches), name@),
{
    matches.opt_str(name)
}

/// The field `free` of `Matches`: the arguments that belong to no option.
#[verifier::external_body]
fn free_of(matches: &getopts::Matches) -> (list: Vec<String>)
    ensures
        texts(list@) == free(*matches),
{
    matches.free.clone()
}

/// `Options::usage`: the usage message under the heading `brief`.
#[verifier::external_body]
fn usage(opts: &getopts::Options, brief: &str) -> (message: String)
    ensures
        message@ == usage_text(options(*opts), brief@),
{
    opts.usage(brief)
}

/// The value that the first occurrence of an option brought, if the
/// option was given and brought one.
pub open spec fn first_value(
    found: Map<Seq<char>, Seq<Option<Seq<char>>>>,
    name: Seq<char>,
) -> Option<Seq<char>> {
    if found[name].len() > 0 {
        found[name][0]
    } else {
        None
    }
}

/// Whether an option was given.
pub open spec fn given(found: Map<Seq<char>, Seq<Option<Seq<char>>>>, name: Seq<char>) -> bool {
    found[name].len() > 0
}

/// The options of the client's command line.
pub open spec fn option_table() -> Seq<(Seq<char>, Seq<char>, Seq<char>, Seq<char>, bool)> {
    seq![
        (
            "c"@,
            "config"@,
            "Read configuration from a file. Note that command line arguments will override the configuration file"@,
            "CONFIG_FILE"@,
            true,
        ),
        (
            ""@,
            "server"@,
            "Set the server address. This address must be included in the certificate"@,
            "SERVER"@,
            true,
        ),
        (""@, "server-port"@, "Set the server port"@, "SERVER_PORT"@, true),
        (
            ""@,
            "server-ip"@,
            "Set the server IP, for overwriting the DNS lookup result of the server address set in option 'server'"@,
            "SERVER_IP"@,
            true,
        ),
        (""@, "token"@, "Set the token for TUIC authentication"@, "TOKEN"@, true),
        (
            ""@,
            "certificate"@,
            "Set the X.509 certificate for QUIC handshake. If not set, native CA roots will be trusted"@,
            "CERTIFICATE"@,
            true,
        ),
        (
            ""@,
            "udp-mode"@,
            "Set the UDP relay mode. Available: \"native\", \"quic\". Default: \"native\""@,
            "UDP_MODE"@,
            true,
        ),
        (
            ""@,
            "congestion-controller"@,
            "Set the congestion control algorithm. Available: \"cubic\", \"new_reno\", \"bbr\". Default: \"cubic\""@,
            "CONGESTION_CONTROLLER"@,
            true,
        ),
        (
            ""@,
            "max-idle-time"@,
            "Set the maximum idle time for connections, in milliseconds. The true idle timeout is the minimum of this and the client's one. Default: 15000"@,
            "MAX_IDLE_TIME"@,
            true,
        ),
        (
            ""@,
            "heartbeat-interval"@,
            "Set the heartbeat interval, in milliseconds. This ensures that the QUIC connection is not closed when there are relay tasks but no data transfer. Default: 10000"@,
            "HEARTBEAT_INTERVAL"@,
            true,
        ),
        (""@, "reduce-rtt"@, "Enable 0-RTT QUIC handshake"@, ""@, false),
        (
            ""@,
            "local-port"@,
            "Set the listening port for the local socks5 server"@,
            "LOCAL_PORT"@,
            true,
        ),
        (
            ""@,
            "local-username"@,
            "Set the username for the local socks5 server authentication"@,
            "LOCAL_USERNAME"@,
            true,
        ),
        (
            ""@,
            "local-password"@,
            "Set the password for the local socks5 server authentication"@,
            "LOCAL_PASSWORD"@,
            true,
        ),
        (
            ""@,
            "allow-external-connection"@,
            "Allow external connections for local socks5 server"@,
            ""@,
            false,
        ),
        (""@, "enable-ipv6"@, "Enable IPv6 support"@, ""@, false),
        (
            ""@,
            "max-udp-packet-size"@,
            "Set the maximum UDP packet size, in bytes. Excess bytes may be discarded. Default: 1536"@,
            "MAX_UDP_PACKET_SIZE"@,
            true,
        ),
        (
            ""@,
            "log-level"@,
            "Set the log level. Available: \"off\", \"error\", \"warn\", \"info\", \"debug\", \"trace\". Default: \"info\""@,
            "LOG_LEVEL"@,
            true,
        ),
        ("v"@, "version"@, "Print the version"@, ""@, false),
        ("h"@, "help"@, "Print this help menu"@, ""@, false),
    ]
}

/// What the command line asks for, option by option.
#[derive(Debug, PartialEq, Eq)]
pub struct Cli {
    pub config: Option<String>,
    pub server: Option<String>,
    pub server_port: Option<String>,
    pub server_ip: Option<String>,
    pub token: Option<String>,
    pub certificate: Option<String>,
    pub udp_mode: Option<String>,
    pub congestion_controller: Option<String>,
    pub max_idle_time: Option<String>,
    pub heartbeat_interval: Option<String>,
    pub reduce_rtt: bool,
    pub local_port: Option<String>,
    pub local_username: Option<String>,
    pub local_password: Option<String>,
    pub allow_external_connection: bool,
    pub enable_ipv6: bool,
    pub max_udp_packet_size: Option<String>,
    pub log_level: Option<String>,
}

/// The arguments proper: the command line without the program's name.
pub open spec fn arguments(args: Seq<Seq<char>>) -> Seq<Seq<char>> {
    if args.len() == 0 {
        args
    } else {
        args.skip(1)
    }
}

/// Whether `cli` holds, option by option, what was found on the command
/// line.
pub open spec fn holds(cli: Cli, found: Map<Seq<char>, Seq<Option<Seq<char>>>>) -> bool {
    &&& text(cli.config) == first_value(found, "config"@)
    &&& text(cli.server) == first_value(found, "server"@)
    &&& text(cli.server_port) == first_value(found, "server-port"@)
    &&& text(cli.server_ip) == first_value(found, "server-ip"@)
    &&& text(cli.token) == first_value(found, "token"@)
    &&& text(cli.certificate) == first_value(found, "certificate"@)
    &&& text(cli.udp_mode) == first_value(found, "udp-mode"@)
    &&& text(cli.congestion_controller) == first_value(found, "congestion-controller"@)
    &&& text(cli.max_idle_time) == first_value(found, "max-idle-time"@)
    &&& text(cli.heartbeat_interval) == first_value(found, "heartbeat-interval"@)
    &&& cli.reduce_rtt == given(found, "reduce-rtt"@)
    &&& text(cli.local_port) == first_value(found, "local-port"@)
    &&& text(cli.local_username) == first_value(found, "local-username"@)
    &&& text(cli.local_password) == first_value(found, "local-password"@)
    &&& cli.allow_external_connection == given(found, "allow-external-connection"@)
    &&& cli.enable_ipv6 == given(found, "enable-ipv6"@)
    &&& text(cli.max_udp_packet_size) == first_value(found, "max-udp-packet-size"@)
    &&& text(cli.log_level) == first_value(found, "log-level"@)
}

proof fn ascii_text_has_its_length(s: &str)
    requires
        is_ascii_chars(s@),
    ensures
        s.spec_bytes().len() == s@.len(),
{
    vstd::utf8::is_ascii_chars_encode_utf8(s@);
}

fn value_option(opts: &mut getopts::Options, short: &str, long: &str, desc: &str, hint: &str)
    requires
        is_ascii_chars(short@),
        is_ascii_chars(long@),
        short@.len() <= 1,
        long@.len() > 1,
    ensures
        options(*final(opts)) == options(*old(opts)).push((short@, long@, desc@, hint@, true)),
{
    proof {
        ascii_text_has_its_length(short);
        ascii_text_has_its_length(long);
    }
    optopt(opts, short, long, desc, hint);
}

fn flag_option(opts: &mut getopts::Options, short: &str, long: &str, desc: &str)
    requires
        is_ascii_chars(short@),
        is_ascii_chars(long@),
        short@.len() <= 1,
        long@.len() > 1,
    ensures
        options(*final(opts)) == options(*old(opts)).push((short@, long@, desc@, ""@, false)),
{
    proof {
        ascii_text_has_its_length(short);
        ascii_text_has_its_length(long);
    }
    optflag(opts, short, long, desc);
}

fn client_options() -> (opts: getopts::Options)
    ensures
        options(opts) == option_table(),
{
    proof {
        reveal_strlit("");
        reveal_strlit("c");
        reveal_strlit("v");
        reveal_strlit("h");
        reveal_strlit("config");
        reveal_strlit("server");
        reveal_strlit("server-port");
        reveal_strlit("server-ip");
        reveal_strlit("token");
        reveal_strlit("certificate");
        reveal_strlit("udp-mode");
        reveal_strlit("congestion-controller");
        reveal_strlit("max-idle-time");
        reveal_strlit("heartbeat-interval");
        reveal_strlit("reduce-rtt");
        reveal_strlit("local-port");
        reveal_strlit("local-username");
        reveal_strlit("local-password");
        reveal_strlit("allow-external-connection");
        reveal_strlit("enable-ipv6");
        reveal_strlit("max-udp-packet-size");
        reveal_strlit("log-level");
        reveal_strlit("version");
        reveal_strlit("help");
    }
    let mut opts = new_options();
    value_option(
        &mut opts,
        "c",
        "config",
        "Read configuration from a file. Note that command line arguments will override the configuration file",
        "CONFIG_FILE",
    );
    value_option(
        &mut opts,
        "",
        "server",
        "Set the server address. This address must be included in the certificate",
        "SERVER",
    );
    value_option(&mut opts, "", "server-port", "Set the server port", "SERVER_PORT");
    value_option(
        &mut opts,
        "",
        "server-ip",
        "Set the server IP, for overwriting the DNS lookup result of the server address set in option 'server'",
        "SERVER_IP",
    );
    value_option(&mut opts, "", "token", "Set the token for TUIC authentication", "TOKEN");
    value_option(
        &mut opts,
        "",
        "certificate",
        "Set the X.509 certificate for QUIC handshake. If not set, native CA roots will be trusted",
        "CERTIFICATE",
    );
    value_option(
        &mut opts,
        "",
        "udp-mode",
        "Set the UDP relay mode. Available: \"native\", \"quic\". Default: \"native\"",
        "UDP_MODE",
    );
    value_option(
        &mut opts,
        "",
        "congestion-controller",
        "Set the congestion control algorithm. Available: \"cubic\", \"new_reno\", \"bbr\". Default: \"cubic\"",
        "CONGESTION_CONTROLLER",
    );
    value_option(
        &mut opts,
        "",
        "max-idle-time",
        "Set the maximum idle time for connections, in milliseconds. The true idle timeout is the minimum of this and the client's one. Default: 15000",
        "MAX_IDLE_TIME",
    );
    value_option(
        &mut opts,
        "",
        "heartbeat-interval",
        "Set the heartbeat interval, in milliseconds. This ensures that the QUIC connection is not closed when there are relay tasks but no data transfer. Default: 10000",
        "HEARTBEAT_INTERVAL",
    );
    flag_option(&mut opts, "", "reduce-rtt", "Enable 0-RTT QUIC handshake");
    value_option(
        &mut opts,
        "",
        "local-port",
        "Set the listening port for the local socks5 server",
        "LOCAL_PORT",
    );
    value_option(
        &mut opts,
        "",
        "local-username",
        "Set the username for the local socks5 server authentication",
        "LOCAL_USERNAME",
    );
    value_option(
        &mut opts,
        "",
        "local-password",
        "Set the password for the local socks5 server authentication",
        "LOCAL_PASSWORD",
    );
    flag_option(
        &mut opts,
        "",
        "allow-external-connection",
        "Allow external connections for local socks5 server",
    );
    flag_option(&mut opts, "", "enable-ipv6", "Enable IPv6 support");
    value_option(
        &mut opts,
        "",
        "max-udp-packet-size",
        "Set the maximum UDP packet size, in bytes. Excess bytes may be discarded. Default: 1536",
        "MAX_UDP_PACKET_SIZE",
    );
    value_option(
        &mut opts,
        "",
        "log-level",
        "Set the log level. Available: \"off\", \"error\", \"warn\", \"info\", \"debug\", \"trace\". Default: \"info\"",
        "LOG_LEVEL",
    );
    flag_option(&mut opts, "v", "version", "Print the version");
    flag_option(&mut opts, "h", "help", "Print this help menu");
    opts
}

/// What a command line asks for in place of a run.
#[derive(Debug, PartialEq, Eq)]
pub enum Answer {
    /// The usage message.
    Help,
    /// The version.
    Version,
    /// A complaint about the arguments that are left over, which are
    /// carried along, joined by commas.
    UnexpectedArguments(String),
}

/// What an `Answer` stands for.
pub enum AnswerView {
    Help,
    Version,
    UnexpectedArguments(Seq<char>),
}

impl View for Answer {
    type V = AnswerView;

    open spec fn view(&self) -> AnswerView {
        match *self {
            Answer::Help => AnswerView::Help,
            Answer::Version => AnswerView::Version,
            Answer::UnexpectedArguments(list) => AnswerView::UnexpectedArguments(list@),
        }
    }
}

/// What a command line asks for in place of a run, if anything: a wish
/// for help comes before a wish for the version, and both before the
/// complaint about arguments that are left over.
pub open spec fn answer_to(help: bool, version: bool, free: Seq<Seq<char>>) -> Option<AnswerView> {
    if help {
        Some(AnswerView::Help)
    } else if version {
        Some(AnswerView::Version)
    } else if free.len() > 0 {
        Some(AnswerView::UnexpectedArguments(joined(free, ", "@)))
    } else {
        None
    }
}

/// What a command line asks for in place of a run, if anything, given
/// whether it asks for help, whether it asks for the version, and the
/// arguments that belong to no option.
pub fn answer(help: bool, version: bool, free: &Vec<String>) -> (r: Option<Answer>)
    ensures
        match r {
            Some(a) => answer_to(help, version, texts(free@)) == Some(a@),
            None => answer_to(help, version, texts(free@)) is None,
        },
{
    if help {
        Some(Answer::Help)
    } else if version {
        Some(Answer::Version)
    } else if free.len() > 0 {
        Some(Answer::UnexpectedArguments(join(free, ", ")))
    } else {
        None
    }
}

impl Cli {
    /// Reads the command line `args`, whose first entry is the program's
    /// name. `program` is the heading of the usage message, and `version`
    /// is what to answer when the version is asked for.
    ///
    /// A wish for help comes before a wish for the version, and both
    /// before any complaint about arguments that are left over.
    pub fn parse(args: &Vec<String>, program: &str, version: &'static str) -> (r: Result<
        Cli,
        ConfigError,
    >)
        ensures
            match parsed(option_table(), arguments(texts(args@))) {
                Err(fail) => r matches Err(ConfigError::ParseArgument(f)) && f@ == fail,
                Ok((found, free)) => match answer_to(
                    given(found, "help"@),
                    given(found, "version"@),
                    free,
                ) {
                    Some(AnswerView::Help) => r matches Err(ConfigError::Help(message)) && message@
                        == usage_text(option_table(), program@),
                    Some(AnswerView::Version) => r matches Err(ConfigError::Version(v)) && v
                        == version,
                    Some(AnswerView::UnexpectedArguments(words)) => r matches Err(
                        ConfigError::UnexpectedArguments(list),
                    ) && list@ == words,
                    None => r matches Ok(cli) && holds(cli, found),
                },
            },
    {
        let opts = client_options();
        let mut tail: Vec<String> = Vec::new();
        let mut i: usize = 1;
        while i < args.len()
            invariant
                1 <= i,
                args@.len() > 0 ==> i <= args@.len(),
                args@.len() > 0 ==> texts(tail@) == texts(args@).subrange(1, i as int),
                args@.len() == 0 ==> tail@.len() == 0,
            decreases args@.len() - i,
        {
            tail.push(args[i].clone());
            i += 1;
        }
        assert(texts(tail@) =~= arguments(texts(args@)));
        let matches = match parse(&opts, &tail) {
            Ok(matches) => matches,
            Err(fail) => {
                return Err(ConfigError::ParseArgument(fail));
            },
        };
        proof {
            reveal_strlit("config");
            reveal_strlit("server");
            reveal_strlit("server-port");
            reveal_strlit("server-ip");
            reveal_strlit("token");
            reveal_strlit("certificate");
            reveal_strlit("udp-mode");
            reveal_strlit("congestion-controller");
            reveal_strlit("max-idle-time");
            reveal_strlit("heartbeat-interval");
            reveal_strlit("reduce-rtt");
            reveal_strlit("local-port");
            reveal_strlit("local-username");
            reveal_strlit("local-password");
            reveal_strlit("allow-external-connection");
            reveal_strlit("enable-ipv6");
            reveal_strlit("max-udp-packet-size");
            reveal_strlit("log-level");
            reveal_strlit("version");
            reveal_strlit("help");
        }
        let help = opt_present(&matches, "help");
        let asked = opt_present(&matches, "version");
        match answer(help, asked, &free_of(&matches)) {
            Some(Answer::Help) => {
                return Err(ConfigError::Help(usage(&opts, program)));
            },
            Some(Answer::Version) => {
                return Err(ConfigError::Version(version));
            },
            Some(Answer::UnexpectedArguments(list)) => {
                return Err(ConfigError::UnexpectedArguments(list));
            },
            None => {},
        }
        Ok(
            Cli {
                config: opt_str(&matches, "config"),
                server: opt_str(&matches, "server"),
                server_port: opt_str(&matches, "server-port"),
                server_ip: opt_str(&matches, "server-ip"),
                token: opt_str(&matches, "token"),
                certificate: opt_str(&matches, "certificate"),
                udp_mode: opt_str(&matches, "udp-mode"),
                congestion_controller: opt_str(&matches, "congestion-controller"),
                max_idle_time: opt_str(&matches, "max-idle-time"),
                heartbeat_interval: opt_str(&matches, "heartbeat-interval"),
                reduce_rtt: opt_present(&matches, "reduce-rtt"),
                local_port: opt_str(&matches, "local-port"),
                local_username: opt_str(&matches, "local-username"),
                local_password: opt_str(&matches, "local-password"),
                allow_external_connection: opt_present(&matches, "allow-external-connection"),
                enable_ipv6: opt_present(&matches, "enable-ipv6"),
                max_udp_packet_size: opt_str(&matches, "max-udp-packet-size"),
                log_level: opt_str(&matches, "log-level"),
            },
        )
    }
}

} // verus!
