//! The command line: which flags there are, and what they ask for.
use vstd::prelude::*;
use vstd::utf8::encode_utf8;
use vstd::string::StringSliceAdditionalSpecFns;
use crate::conf::MEMORY_SIZE;
use crate::util::{dec_to_usize, dec_to_usize_spec, hex_to_usize, hex_to_usize_spec};

verus! {

/// The ways in which the value of a flag is refused.
#[derive(Debug, Clone, Copy, PartialEq, Eq, Structural)]
pub enum ArgError {
    /// The memory size is no decimal number.
    NotDecimal,
    /// The breakpoint is no hex address.
    NotHex,
}

/// What the command line asks for.
#[derive(Debug)]
pub struct Command {
    /// `-f`: path of a hex-text memory image.
    pub in_f: Option<String>,
    /// `-m`: DRAM size in bytes.
    pub mem_size: Option<usize>,
    /// `--elf`: path of an ELF executable.
    pub elf: Option<String>,
    /// `--drive`: path of the file behind the VirtIO block device.
    pub drive: Option<String>,
    /// `--debug`: the debugger, with its breakpoint.
    pub dbg: crate::dbg::Debug,
}

/// The argument at position `i`, if there is one.
pub open spec fn arg_at(args: Seq<String>, i: int) -> Option<String> {
    if 0 <= i < args.len() {
        Some(args[i])
    } else {
        None
    }
}

/// The memory size that the value of `-m` gives.
pub open spec fn size_arg(value: Option<String>) -> Result<Option<usize>, ArgError> {
    match value {
        None => Ok(None),
        Some(v) => match dec_to_usize_spec(encode_utf8(v@)) {
            Some(n) => Ok(Some(n)),
            None => Err(ArgError::NotDecimal),
        },
    }
}

/// The debugger that the value of `--debug` gives: on, and with the
/// breakpoint 0, which makes it step, where there is no value.
pub open spec fn debug_arg(value: Option<String>) -> Result<crate::dbg::Debug, ArgError> {
    match value {
        None => Ok(crate::dbg::Debug { enable: true, bp: 0 }),
        Some(v) => match hex_to_usize_spec(encode_utf8(v@)) {
            Some(addr) => Ok(crate::dbg::Debug { enable: true, bp: addr as u64 }),
            None => Err(ArgError::NotHex),
        },
    }
}

/// What the arguments from position `i` on make of `cmd`. A flag takes the
/// argument after it as its value, whatever that is; an argument that is no
/// flag is passed over.
pub open spec fn parse_from(args: Seq<String>, i: int, cmd: Command) -> Result<Command, ArgError>
    decreases args.len() - i,
{
    if i < 0 || i >= args.len() {
        Ok(cmd)
    } else {
        let value = arg_at(args, i + 1);
        let next = if value is Some {
            i + 2
        } else {
            i + 1
        };
        if args[i]@ == "-f"@ {
            parse_from(args, next, Command { in_f: value, ..cmd })
        } else if args[i]@ == "-m"@ {
            match size_arg(value) {
                Ok(mem_size) => parse_from(args, next, Command { mem_size, ..cmd }),
                Err(e) => Err(e),
            }
        } else if args[i]@ == "--elf"@ {
            parse_from(args, next, Command { elf: value, ..cmd })
        } else if args[i]@ == "--drive"@ {
            parse_from(args, next, Command { drive: value, ..cmd })
        } else if args[i]@ == "--debug"@ {
            match debug_arg(value) {
                Ok(dbg) => parse_from(args, next, Command { dbg, ..cmd }),
                Err(e) => Err(e),
            }
        } else {
            parse_from(args, i + 1, cmd)
        }
    }
}

impl Command {
    /// What holds where no flag is given: the default memory size, no file,
    /// the debugger off.
    pub open spec fn default_spec() -> Command {
        Command {
            in_f: None,
            mem_size: Some(MEMORY_SIZE),
            elf: None,
            drive: None,
            dbg: crate::dbg::Debug { enable: false, bp: 0 },
        }
    }

    /// The command that holds where no flag is given.
    pub fn init() -> (r: Command)
        ensures
            r == Command::default_spec(),
    {
        Command {
            in_f: None,
            mem_size: Some(MEMORY_SIZE),
            elf: None,
            drive: None,
            dbg: crate::dbg::Debug::new(false, 0),
        }
    }

    /// Reads the command line; the first argument is the path of the
    /// executable and is not looked at.
    pub fn from_args(args: &Vec<String>) -> (r: Result<Command, ArgError>)
        ensures
            r == parse_from(args@, 1, Command::default_spec()),
    {
        let n = args.len();
        let mut cmd = Command::init();
        let mut i: usize = 1;
        let f = "-f".to_owned();
        let m = "-m".to_owned();
        let elf = "--elf".to_owned();
        let drive = "--drive".to_owned();
        let debug = "--debug".to_owned();
        while i < n
            invariant
                n == args@.len(),
                1 <= i,
                f@ == "-f"@,
                m@ == "-m"@,
                elf@ == "--elf"@,
                drive@ == "--drive"@,
                debug@ == "--debug"@,
                parse_from(args@, i as int, cmd) == parse_from(args@, 1, Command::default_spec()),
            decreases n - i,
        {
            let arg = &args[i];
            let step: usize = if n - i >= 2 {
                2
            } else {
                1
            };
            if *arg == f {
                cmd.in_f = Command::get_arg_string(args, i + 1);
                i += step;
            } else if *arg == m {
                cmd.mem_size = match Command::get_arg_usize(args, i + 1) {
                    Ok(v) => v,
                    Err(e) => {
                        return Err(e);
                    },
                };
                i += step;
            } else if *arg == elf {
                cmd.elf = Command::get_arg_string(args, i + 1);
                i += step;
            } else if *arg == drive {
                cmd.drive = Command::get_arg_string(args, i + 1);
                i += step;
            } else if *arg == debug {
                cmd.dbg = match Command::get_arg_debug(args, i + 1) {
                    Ok(v) => v,
                    Err(e) => {
                        return Err(e);
                    },
                };
                i += step;
            } else {
                i += 1;
            }
        }
        Ok(cmd)
    }

    /// The argument at position `i` as a text.
    fn get_arg_string(args: &Vec<String>, i: usize) -> (r: Option<String>)
        ensures
            r == arg_at(args@, i as int),
    {
        if i < args.len() {
            Some(args[i].clone())
        } else {
            None
        }
    }

    /// The argument at position `i` as a decimal number.
    fn get_arg_usize(args: &Vec<String>, i: usize) -> (r: Result<Option<usize>, ArgError>)
        ensures
            r == size_arg(arg_at(args@, i as int)),
    {
        if i < args.len() {
            match dec_to_usize(args[i].as_str()) {
                Some(n) => Ok(Some(n)),
                None => Err(ArgError::NotDecimal),
            }
        } else {
            Ok(None)
        }
    }

    /// The debugger that the argument at position `i` asks for.
    fn get_arg_debug(args: &Vec<String>, i: usize) -> (r: Result<crate::dbg::Debug, ArgError>)
        ensures
            r == debug_arg(arg_at(args@, i as int)),
    {
        if i < args.len() {
            match hex_to_usize(args[i].as_str()) {
                Some(addr) => Ok(crate::dbg::Debug::new(true, addr as u64)),
                None => Err(ArgError::NotHex),
            }
        } else {
            Ok(crate::dbg::Debug::new(true, 0))
        }
    }
}

} // verus!
