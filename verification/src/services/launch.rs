//! The command line with which a server is launched.

use vstd::prelude::*;
use vstd::string::*;
use crate::text::{decimal_digits, decimal_string, split_words, texts, words_of};
use crate::utils::memory::{
    calculate_smart_heap,
    heap_bytes,
    initial_heap_bytes,
    mebibyte_token,
    memory_bytes,
    parse_memory_to_bytes,
};

verus! {

/// The port a server listens on when its configuration names none.
pub const DEFAULT_PORT: u64 = 5520;

/// What a configuration holds under one key where a number is expected.
#[derive(Debug, Clone, PartialEq)]
pub enum PortField {
    /// The key is missing.
    Absent,
    /// The key is there, and its value is no unsigned 64-bit number.
    NotANumber,
    /// The key is there with this number.
    Number(u64),
}

/// What the launch reads from a server's configuration.
#[derive(Debug, Clone, PartialEq)]
pub struct BindConfig {
    /// The value under the key `port`.
    pub port: PortField,
    /// The value under the key `Port`.
    pub port_capitalized: PortField,
    /// The value under the key `bind_address`, where it is a text.
    pub bind_address: Option<String>,
}

/// A command to run: the program, the directory to run it in, and its
/// arguments in order.
#[derive(Debug, Clone, PartialEq)]
pub struct LaunchCommand {
    pub program: String,
    pub working_dir: String,
    pub args: Vec<String>,
}

/// The port that a configuration selects: the value under `port` if that
/// key is there, else the value under `Port`; the default where the selected
/// value is missing or no number.
pub open spec fn selected_port(port: PortField, port_capitalized: PortField) -> u64 {
    let chosen = if port is Absent {
        port_capitalized
    } else {
        port
    };
    match chosen {
        PortField::Number(n) => n,
        _ => DEFAULT_PORT,
    }
}

/// The address that a configuration selects, `0.0.0.0` by default.
pub open spec fn selected_address(bind_address: Option<Seq<char>>) -> Seq<char> {
    match bind_address {
        Some(address) => address,
        None => "0.0.0.0"@,
    }
}

/// The `address:port` that the server binds to.
pub open spec fn bind_target(address: Seq<char>, port: u64) -> Seq<char> {
    address + ":"@ + decimal_digits(port as nat)
}

impl BindConfig {
    /// The `address:port` that this configuration selects.
    pub open spec fn target(&self) -> Seq<char> {
        bind_target(
            selected_address(
                match self.bind_address {
                    Some(address) => Some(address@),
                    None => None,
                },
            ),
            selected_port(self.port, self.port_capitalized),
        )
    }
}

/// The `address:port` of an optional configuration; without one, the default
/// address and port.
pub open spec fn bind_target_of(config: Option<&BindConfig>) -> Seq<char> {
    match config {
        Some(config) => config.target(),
        None => "0.0.0.0:5520"@,
    }
}

/// The arguments of a launch: the heap options derived from `total` bytes,
/// the terminal and cache options, the operator's extra words, then the
/// program archive, its assets and its bind target.
pub open spec fn launch_args(total: nat, extra: Seq<Seq<char>>, executable: Seq<char>, target: Seq<char>) -> Seq<
    Seq<char>,
> {
    seq![
        "-Xms"@ + mebibyte_token(initial_heap_bytes(total)),
        "-Xmx"@ + mebibyte_token(heap_bytes(total)),
        "-Dterminal.jline=true"@,
        "-Dterminal.ansi=true"@,
        "-XX:AOTCache=HytaleServer.aot"@,
    ] + extra + seq!["-jar"@, executable, "--assets"@, "Assets.zip"@, "--bind"@, target]
}

/// The `address:port` that `config` selects.
pub fn bind_target_for(config: Option<&BindConfig>) -> (target: String)
    ensures
        target@ == bind_target_of(config),
{
    match config {
        Some(config) => {
            let chosen = match config.port {
                PortField::Absent => &config.port_capitalized,
                _ => &config.port,
            };
            let port: u64 = match chosen {
                PortField::Number(n) => *n,
                _ => DEFAULT_PORT,
            };
            let mut target = match &config.bind_address {
                Some(address) => address.clone(),
                None => String::from_str("0.0.0.0"),
            };
            target.append(":");
            let digits = decimal_string(port);
            target.append(digits.as_str());
            target
        },
        None => String::from_str("0.0.0.0:5520"),
    }
}

/// Puts a launch together from its parts: the memory the server may use in
/// bytes, the operator's extra words, and the bind target.
pub fn assemble_launch(
    program: &str,
    working_dir: &str,
    executable_path: &str,
    total_bytes: u64,
    extra: Vec<String>,
    target: String,
) -> (command: LaunchCommand)
    ensures
        command.program@ == program@,
        command.working_dir@ == working_dir@,
        texts(command.args@) == launch_args(total_bytes as nat, texts(extra@), executable_path@, target@),
{
    let (initial, maximum) = calculate_smart_heap(total_bytes);
    let mut args: Vec<String> = Vec::new();
    args.push(String::from_str("-Xms").concat(initial.as_str()));
    args.push(String::from_str("-Xmx").concat(maximum.as_str()));
    args.push(String::from_str("-Dterminal.jline=true"));
    args.push(String::from_str("-Dterminal.ansi=true"));
    args.push(String::from_str("-XX:AOTCache=HytaleServer.aot"));
    let ghost head = texts(args@);
    let mut i: usize = 0;
    while i < extra.len()
        invariant
            i <= extra@.len(),
            head.len() == 5,
            args@.len() == 5 + i,
            forall|j: int| 0 <= j < 5 ==> args@[j]@ == head[j],
            forall|j: int| 0 <= j < i ==> args@[5 + j]@ == extra@[j]@,
        decreases extra@.len() - i,
    {
        args.push(extra[i].clone());
        i += 1;
    }
    args.push(String::from_str("-jar"));
    args.push(executable_path.to_owned());
    args.push(String::from_str("--assets"));
    args.push(String::from_str("Assets.zip"));
    args.push(String::from_str("--bind"));
    args.push(target);
    proof {
        let n = extra@.len() as int;
        let tail = seq!["-jar"@, executable_path@, "--assets"@, "Assets.zip"@, "--bind"@, target@];
        let expected = launch_args(total_bytes as nat, texts(extra@), executable_path@, target@);
        assert(expected == head + texts(extra@) + tail);
        assert(expected.len() == 5 + n + 6);
        assert forall|k: int| 0 <= k < expected.len() implies texts(args@)[k] == expected[k] by {
            if k < 5 {
                assert(expected[k] == head[k]);
            } else if k < 5 + n {
                assert(expected[k] == texts(extra@)[k - 5]);
                assert(args@[5 + (k - 5)]@ == extra@[k - 5]@);
            } else {
                assert(expected[k] == tail[k - 5 - n]);
            }
        }
        assert(texts(args@) =~= expected);
    }
    LaunchCommand { program: program.to_owned(), working_dir: working_dir.to_owned(), args }
}

/// The program that runs a server when the operator names none.
pub open spec fn program_or_default(java_path: Option<&str>) -> Seq<char> {
    match java_path {
        Some(path) => path@,
        None => "java"@,
    }
}

/// The memory text that applies when the operator names none.
pub open spec fn memory_or_default(max_memory: Option<&str>) -> Seq<char> {
    match max_memory {
        Some(text) => text@,
        None => "8G"@,
    }
}

/// The extra words of a launch; none when the operator gave no text.
pub open spec fn extra_words(extra_args: Option<&str>) -> Seq<Seq<char>> {
    match extra_args {
        Some(text) => words_of(text@),
        None => Seq::empty(),
    }
}

/// Whether `command` is the launch of the server with these settings.
pub open spec fn launches(
    command: LaunchCommand,
    executable_path: Seq<char>,
    working_dir: Seq<char>,
    java_path: Option<&str>,
    max_memory: Option<&str>,
    extra_args: Option<&str>,
    config: Option<&BindConfig>,
) -> bool {
    &&& command.program@ == program_or_default(java_path)
    &&& command.working_dir@ == working_dir
    &&& texts(command.args@) == launch_args(
        memory_bytes(memory_or_default(max_memory)),
        extra_words(extra_args),
        executable_path,
        bind_target_of(config),
    )
}

/// The command that launches a server.
///
/// The program is `java_path`, or `java`. The memory text `max_memory`, or
/// `8G`, is the memory the server may use; the heap options follow from it.
/// The words of `extra_args` are further options.
pub fn build_launch_command(
    executable_path: &str,
    working_dir: &str,
    java_path: Option<&str>,
    max_memory: Option<&str>,
    extra_args: Option<&str>,
    config: Option<&BindConfig>,
) -> (command: LaunchCommand)
    ensures
        launches(command, executable_path@, working_dir@, java_path, max_memory, extra_args, config),
{
    let program = match java_path {
        Some(path) => path,
        None => "java",
    };
    let memory = match max_memory {
        Some(text) => text,
        None => "8G",
    };
    let total = parse_memory_to_bytes(memory);
    let extra = match extra_args {
        Some(text) => split_words(text),
        None => {
            let none: Vec<String> = Vec::new();
            none
        },
    };
    let target = bind_target_for(config);
    assemble_launch(program, working_dir, executable_path, total, extra, target)
}

} // verus!
