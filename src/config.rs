//! The run's configuration, fixed once before any item is processed.

use crate::merge::OverwriteMode;
use crate::text::same_text;
use vstd::prelude::*;

verus! {

/// How existing outputs and intermediate files are treated in this run.
#[derive(Clone, Copy, Debug, PartialEq, Eq, Structural)]
pub struct RunConfig {
    /// What to do when an item's output file exists.
    pub overwrite: OverwriteMode,
    /// Whether intermediate files on disk are resumed (and kept after a
    /// failure) rather than restarted.
    pub resume: bool,
}

/// Why the requested configuration was refused.
#[derive(Clone, Copy, Debug, PartialEq, Eq, Structural)]
pub enum ConfigError {
    /// Overwriting and asking were both requested.
    ConflictingOverwriteFlags,
    /// The resume setting was neither `true` nor `false`.
    InvalidResumeValue,
}

/// The configuration for the given switches: `overwrite` and `interactive`
/// choose the overwrite mode (skip when neither is set); the resume setting
/// is `true` or `false` when given, and otherwise on unless outputs are
/// overwritten.
pub fn run_config(overwrite: bool, interactive: bool, resume: Option<&str>) -> (r: Result<
    RunConfig,
    ConfigError,
>)
    ensures
        overwrite && interactive ==> r == Err::<RunConfig, ConfigError>(
            ConfigError::ConflictingOverwriteFlags,
        ),
        !(overwrite && interactive) ==> match resume {
            Some(v) => if v@ == "true"@ || v@ == "false"@ {
                r matches Ok(c) && c.resume == (v@ == "true"@)
            } else {
                r == Err::<RunConfig, ConfigError>(ConfigError::InvalidResumeValue)
            },
            None => r matches Ok(c) && c.resume == !overwrite,
        },
        r matches Ok(c) ==> c.overwrite == (if overwrite {
            OverwriteMode::Overwrite
        } else if interactive {
            OverwriteMode::Ask
        } else {
            OverwriteMode::Skip
        }),
{
    if overwrite && interactive {
        return Err(ConfigError::ConflictingOverwriteFlags);
    }
    let mode = if overwrite {
        OverwriteMode::Overwrite
    } else if interactive {
        OverwriteMode::Ask
    } else {
        OverwriteMode::Skip
    };
    let keep = match resume {
        Some(v) => {
            let yes = same_text(v, "true");
            let no = same_text(v, "false");
            if !yes && !no {
                return Err(ConfigError::InvalidResumeValue);
            }
            yes
        },
        None => !overwrite,
    };
    Ok(RunConfig { overwrite: mode, resume: keep })
}

} // verus!
