//! The mirroring options record: settable and retrievable as a unit,
//! with a documented default for every field. The engine only decides
//! which options a mirroring session gets; running the tool is the
//! host process's work.

use vstd::prelude::*;

verus! {

/// The default video bit rate, in bits per second.
pub const DEFAULT_BIT_RATE: u32 = 8000000;

/// Mirroring options. A zero `max_size` or `max_fps` means unlimited.
pub struct ScrcpyArgs {
    /// Longest dimension of the mirrored video; 0 leaves it unlimited.
    pub max_size: u16,
    /// Video bit rate in bits per second.
    pub bit_rate: u32,
    /// Frame-rate cap; 0 leaves it unlimited.
    pub max_fps: u8,
    /// Start the window full screen.
    pub fullscreen: bool,
    /// Mirror only: forward no input to the device.
    pub no_control: bool,
    /// Record the session to this file, if set.
    pub record_file: Option<String>,
}

impl ScrcpyArgs {
    /// The documented defaults: unlimited size and frame rate, the
    /// default bit rate, a windowed, controllable, unrecorded session.
    pub fn defaults() -> (a: ScrcpyArgs)
        ensures
            a.max_size == 0,
            a.bit_rate == DEFAULT_BIT_RATE,
            a.max_fps == 0,
            !a.fullscreen,
            !a.no_control,
            a.record_file is None,
    {
        ScrcpyArgs {
            max_size: 0,
            bit_rate: DEFAULT_BIT_RATE,
            max_fps: 0,
            fullscreen: false,
            no_control: false,
            record_file: None,
        }
    }

    /// A field-for-field copy.
    pub fn duplicate(&self) -> (a: ScrcpyArgs)
        ensures
            a.max_size == self.max_size,
            a.bit_rate == self.bit_rate,
            a.max_fps == self.max_fps,
            a.fullscreen == self.fullscreen,
            a.no_control == self.no_control,
            match (self.record_file, a.record_file) {
                (Some(x), Some(y)) => x@ == y@,
                (None, None) => true,
                _ => false,
            },
    {
        ScrcpyArgs {
            max_size: self.max_size,
            bit_rate: self.bit_rate,
            max_fps: self.max_fps,
            fullscreen: self.fullscreen,
            no_control: self.no_control,
            record_file: match &self.record_file {
                Some(f) => Some(f.clone()),
                None => None,
            },
        }
    }
}

/// Mirroring options as given on a command line: every field optional,
/// falling back to the base record where absent.
pub struct ScrcpyCliArgs {
    pub max_size: Option<u16>,
    pub bit_rate: Option<u32>,
    pub max_fps: Option<u8>,
    pub fullscreen: bool,
    pub no_control: bool,
    pub record_file: Option<String>,
}

/// Resolve command-line options against a base record: a given field
/// wins, an absent one keeps the base's value; the flags are or-ed.
pub fn get_scrcpy_args(cli: ScrcpyCliArgs, base: &ScrcpyArgs) -> (a: ScrcpyArgs)
    ensures
        a.max_size == (match cli.max_size {
            Some(v) => v,
            None => base.max_size,
        }),
        a.bit_rate == (match cli.bit_rate {
            Some(v) => v,
            None => base.bit_rate,
        }),
        a.max_fps == (match cli.max_fps {
            Some(v) => v,
            None => base.max_fps,
        }),
        a.fullscreen == (cli.fullscreen || base.fullscreen),
        a.no_control == (cli.no_control || base.no_control),
        match (cli.record_file, a.record_file, base.record_file) {
            (Some(x), Some(y), _) => x@ == y@,
            (None, Some(y), Some(b)) => y@ == b@,
            (None, None, None) => true,
            _ => false,
        },
{
    ScrcpyArgs {
        max_size: match cli.max_size {
            Some(v) => v,
            None => base.max_size,
        },
        bit_rate: match cli.bit_rate {
            Some(v) => v,
            None => base.bit_rate,
        },
        max_fps: match cli.max_fps {
            Some(v) => v,
            None => base.max_fps,
        },
        fullscreen: cli.fullscreen || base.fullscreen,
        no_control: cli.no_control || base.no_control,
        record_file: match cli.record_file {
            Some(f) => Some(f),
            None => match &base.record_file {
                Some(f) => Some(f.clone()),
                None => None,
            },
        },
    }
}

} // verus!
