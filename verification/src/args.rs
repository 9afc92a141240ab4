//! Reading the settings from the command line.
//!
//! Every argument has the form `--key=value`. Three keys are known:
//! `interface`, `gateway` and `loop_times`. Any other argument is passed over.

use vstd::prelude::*;
use vstd::string::*;
use crate::number::{parse_i32, parse_i32_spec};
use crate::text::{find_nth, lemma_first_index_of, nth_index_of, same_text};

verus! {

/// One `key=value` pair of the command line.
pub struct KValue {
    pub key: String,
    pub value: String,
}

impl View for KValue {
    type V = (Seq<char>, Seq<char>);

    open spec fn view(&self) -> (Seq<char>, Seq<char>) {
        (self.key@, self.value@)
    }
}

/// The settings of the route keeper.
pub struct CommandLineArgs {
    /// The gateway to pin the default route to; empty where it is to be
    /// inferred from the interface's address.
    pub gateway: String,
    /// The name of the interface whose address decides the route.
    pub interface: String,
    /// The most repairing installs that one subscription to the changes of
    /// the routing table serves before it is renewed.
    pub loop_times: i32,
}

/// The settings as plain values.
pub struct Settings {
    pub gateway: Seq<char>,
    pub interface: Seq<char>,
    pub loop_times: int,
}

impl View for CommandLineArgs {
    type V = Settings;

    open spec fn view(&self) -> Settings {
        Settings {
            gateway: self.gateway@,
            interface: self.interface@,
            loop_times: self.loop_times as int,
        }
    }
}

/// Why the command line was refused.
#[derive(Clone, Copy, Debug, PartialEq, Eq, Structural)]
pub enum ArgsError {
    /// The value of `loop_times` is no 32-bit decimal number.
    InvalidLoopTimes,
}

/// The text `s` without its pairs of dashes: reading from the left, each
/// `--` is dropped, and every other character is kept.
pub open spec fn without_double_dashes(s: Seq<char>) -> Seq<char>
    decreases s.len(),
{
    if s.len() >= 2 && s[0] == '-' && s[1] == '-' {
        without_double_dashes(s.skip(2))
    } else if s.len() == 0 {
        s
    } else {
        seq![s[0]] + without_double_dashes(s.skip(1))
    }
}

/// The key and the value that `line` holds: it is split at its first `=`,
/// and the key is what stands before it, without its pairs of dashes. A line
/// without `=` holds none.
pub open spec fn key_value_of(line: Seq<char>) -> Option<(Seq<char>, Seq<char>)> {
    let at = nth_index_of(line, '=', 0);
    if at < line.len() {
        Some((without_double_dashes(line.take(at)), line.skip(at + 1)))
    } else {
        None
    }
}

/// The settings that hold where the command line names none.
pub open spec fn default_settings() -> Settings {
    Settings { gateway: Seq::empty(), interface: "en0"@, loop_times: 200 }
}

/// The settings after one more argument, or `None` where the argument sets
/// `loop_times` to what is no number.
pub open spec fn apply_arg(settings: Settings, line: Seq<char>) -> Option<Settings> {
    match key_value_of(line) {
        None => Some(settings),
        Some((key, value)) => {
            if key == "gateway"@ {
                Some(Settings { gateway: value, ..settings })
            } else if key == "interface"@ {
                Some(Settings { interface: value, ..settings })
            } else if key == "loop_times"@ {
                match parse_i32_spec(value) {
                    Some(n) => Some(Settings { loop_times: n, ..settings }),
                    None => None,
                }
            } else {
                Some(settings)
            }
        },
    }
}

/// The settings after the arguments `lines`, taken in order, so that a later
/// argument overrides an earlier one; `None` as soon as one is refused.
pub open spec fn apply_args(settings: Settings, lines: Seq<Seq<char>>) -> Option<Settings>
    decreases lines.len(),
{
    if lines.len() == 0 {
        Some(settings)
    } else {
        match apply_arg(settings, lines[0]) {
            None => None,
            Some(next) => apply_args(next, lines.skip(1)),
        }
    }
}

/// Drops each pair of dashes from `s`, reading from the left.
pub fn remove_double_dashes(s: &str) -> (out: String)
    ensures
        out@ == without_double_dashes(s@),
{
    let len: usize = s.unicode_len();
    let mut out = String::new();
    let mut i: usize = 0;
    proof {
        assert(s@.skip(0) =~= s@);
    }
    while i < len
        invariant
            len == s@.len(),
            i <= len,
            without_double_dashes(s@) == out@ + without_double_dashes(s@.skip(i as int)),
        decreases len - i,
    {
        let ghost rest = s@.skip(i as int);
        proof {
            assert(rest[0] == s@[i as int]);
            assert(rest.skip(1) =~= s@.skip(i + 1));
        }
        if i + 1 < len && s.get_char(i) == '-' && s.get_char(i + 1) == '-' {
            proof {
                assert(rest[1] == s@[i + 1]);
                assert(rest.skip(2) =~= s@.skip(i + 2));
            }
            i = i + 2;
        } else {
            let ghost before = out@;
            out.append(s.substring_char(i, i + 1));
            proof {
                assert(s@.subrange(i as int, i + 1) =~= seq![s@[i as int]]);
                assert(i + 1 < len ==> rest[1] == s@[i + 1]);
                assert(out@ + without_double_dashes(s@.skip(i + 1)) =~= before
                    + without_double_dashes(rest));
            }
            i = i + 1;
        }
    }
    proof {
        assert(out@ + Seq::<char>::empty() =~= out@);
    }
    out
}

/// Reads one argument of the form `--key=value`. The line is split at its
/// first `=`; the key loses its pairs of dashes, the value is taken as it
/// stands. A line without `=` is no setting and gives `None`.
pub fn read_args_from_str(line: &str) -> (pair: Option<KValue>)
    ensures
        pair is Some <==> line@.contains('='),
        match key_value_of(line@) {
            Some(kv) => pair is Some && pair->0@ == kv,
            None => pair is None,
        },
{
    let len: usize = line.unicode_len();
    let at: usize = find_nth(line, '=', 0);
    proof {
        lemma_first_index_of(line@, '=');
    }
    if at < len {
        let key = remove_double_dashes(line.substring_char(0, at));
        let value = String::from_str(line.substring_char(at + 1, len));
        Some(KValue { key, value })
    } else {
        None
    }
}

/// Reads the settings from the arguments of the command line, in order.
/// Without arguments the interface is `en0`, the gateway is left to be
/// inferred, and `loop_times` is 200. An argument that is no `key=value`
/// pair, or whose key is not known, changes nothing. The first `loop_times`
/// whose value is no 32-bit decimal number ends the reading with an error.
pub fn read_args(args: &Vec<String>) -> (parsed: Result<CommandLineArgs, ArgsError>)
    ensures
        match apply_args(default_settings(), args.deep_view()) {
            Some(settings) => parsed is Ok && parsed->Ok_0@ == settings,
            None => parsed == Err::<CommandLineArgs, ArgsError>(ArgsError::InvalidLoopTimes),
        },
{
    let mut settings = CommandLineArgs {
        gateway: String::new(),
        interface: String::from_str("en0"),
        loop_times: 200,
    };
    let ghost lines = args.deep_view();
    let mut i: usize = 0;
    proof {
        assert(lines.skip(0) =~= lines);
    }
    while i < args.len()
        invariant
            i <= args.len(),
            lines == args.deep_view(),
            apply_args(default_settings(), lines) == apply_args(settings@, lines.skip(i as int)),
        decreases args.len() - i,
    {
        proof {
            assert(lines.skip(i as int)[0] == args[i as int]@);
            assert(lines.skip(i as int).skip(1) =~= lines.skip(i + 1));
        }
        match read_args_from_str(args[i].as_str()) {
            None => {},
            Some(pair) => {
                if same_text(pair.key.as_str(), "gateway") {
                    settings.gateway = pair.value;
                } else if same_text(pair.key.as_str(), "interface") {
                    settings.interface = pair.value;
                } else if same_text(pair.key.as_str(), "loop_times") {
                    match parse_i32(pair.value.as_str()) {
                        Some(n) => {
                            settings.loop_times = n;
                        },
                        None => {
                            return Err(ArgsError::InvalidLoopTimes);
                        },
                    }
                }
            },
        }
        i = i + 1;
    }
    Ok(settings)
}

} // verus!
