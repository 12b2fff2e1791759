//! The settings read once at startup.

use vstd::prelude::*;
use crate::blacklist::{
    Blacklist, ConfigError, all_segments_valid, config_ids, first_invalid_segment, parse_unsigned,
    split_commas, unsigned_value,
};

verus! {

/// Why the logger cannot start.
#[derive(Clone, Copy, Debug, PartialEq, Eq)]
pub enum StartupError {
    /// No gateway token was given.
    MissingToken,
    /// No log channel was given.
    MissingLogChannel,
    /// The log channel is not an unsigned 64-bit integer.
    InvalidLogChannel,
    /// The blacklist was given but is malformed.
    Blacklist(ConfigError),
}

/// The settings the logger runs with.
#[derive(Clone, Debug)]
pub struct Settings {
    pub token: String,
    /// The channel that records are sent to.
    pub log_channel: u64,
    pub blacklist: Blacklist,
}

impl Settings {
    /// Reads the settings from the configured values: the token and the log
    /// channel are required, in that order, and the log channel must be a
    /// number; the blacklist is optional, but refused whole if malformed.
    pub fn from_values(
        token: Option<String>,
        log_channel: Option<String>,
        blacklist: Option<String>,
    ) -> (r: Result<Settings, StartupError>)
        ensures
            match token {
                None => r == Err::<Settings, StartupError>(StartupError::MissingToken),
                Some(t) => match log_channel {
                    None => r == Err::<Settings, StartupError>(StartupError::MissingLogChannel),
                    Some(l) => match unsigned_value(l@) {
                        None => r == Err::<Settings, StartupError>(
                            StartupError::InvalidLogChannel,
                        ),
                        Some(id) => match blacklist {
                            None => (r matches Ok(s) && s.token == t && s.log_channel == id
                                && s.blacklist@ == Seq::<u64>::empty()),
                            Some(b) => if all_segments_valid(split_commas(b@)) {
                                (r matches Ok(s) && s.token == t && s.log_channel == id
                                    && s.blacklist@ == config_ids(b@))
                            } else {
                                (r matches Err(
                                    StartupError::Blacklist(ConfigError::InvalidId { segment }),
                                ) && first_invalid_segment(split_commas(b@), segment as int))
                            },
                        },
                    },
                },
            },
    {
        let token = match token {
            Some(t) => t,
            None => {
                return Err(StartupError::MissingToken);
            },
        };
        let log_channel = match log_channel {
            Some(l) => match parse_unsigned(l.as_str()) {
                Some(id) => id,
                None => {
                    return Err(StartupError::InvalidLogChannel);
                },
            },
            None => {
                return Err(StartupError::MissingLogChannel);
            },
        };
        let blacklist = match blacklist {
            Some(b) => match Blacklist::parse(b.as_str()) {
                Ok(list) => list,
                Err(e) => {
                    return Err(StartupError::Blacklist(e));
                },
            },
            None => Blacklist::empty(),
        };
        Ok(Settings { token, log_channel, blacklist })
    }
}

} // verus!
