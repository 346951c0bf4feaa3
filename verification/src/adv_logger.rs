//! The Advanced Logger protocol interface.

use vstd::prelude::*;

verus! {

/// The Advanced Logger protocol interface: its signature, version, the
/// address of its write function and the address of the log information.
#[derive(Debug, Clone, Copy, PartialEq, Eq, Structural)]
pub struct AdvancedLoggerProtocol {
    /// Protocol signature.
    pub signature: u32,
    /// Protocol version.
    pub version: u32,
    /// Address of the function that writes to the log.
    pub write_log: usize,
    /// Physical address of the log information.
    pub log_info: u64,
}

/// Registration of the Advanced Logger protocol.
#[derive(Debug, Clone, Copy, PartialEq, Eq, Structural)]
pub struct AdvancedLoggerProtocolRegister {}

impl AdvancedLoggerProtocol {
    /// Signature of the protocol ("LOGP").
    pub const SIGNATURE: u32 = 0x5047_4F4C;

    /// Current version of the protocol.
    pub const VERSION: u32 = 2;

    /// The protocol interface for a write function and a log.
    pub fn new(write_log: usize, log_info: u64) -> (r: Self)
        ensures
            r == (AdvancedLoggerProtocol {
                signature: Self::SIGNATURE,
                version: Self::VERSION,
                write_log,
                log_info,
            }),
    {
        AdvancedLoggerProtocol { signature: Self::SIGNATURE, version: Self::VERSION, write_log, log_info }
    }
}

/// Why the Advanced Logger component's entry point fails.
#[derive(Debug, Clone, Copy, PartialEq, Eq, Structural)]
pub enum AdvLoggerError {
    /// The advanced logger has no log yet.
    NotStarted,
    /// The protocol could not be installed.
    ProtocolError,
}

/// What the Advanced Logger component's entry point does next.
#[derive(Debug, Clone, Copy, PartialEq, Eq, Structural)]
pub enum AdvLoggerStep {
    /// Install the protocol for the log whose information is at `log_info`.
    Install { log_info: u64 },
    /// Create the events that write and lock the locator variable once the
    /// variable services are there.
    RegisterEvents,
    /// End with success.
    Succeed,
    /// End with this error.
    Fail(AdvLoggerError),
}

/// The entry point's next step, from the address of the log information
/// (`None` while the logger has none), the outcome of installing the
/// protocol (`None` before it was tried) and whether the events were
/// registered: no log fails with `NotStarted`, a failed installation with
/// `ProtocolError`; after installation the events are registered, and the
/// entry point then succeeds whatever creating or registering them gave.
pub fn adv_logger_entry_step(log_info: Option<u64>, install: Option<Result<(), usize>>, events_registered: bool) -> (r:
    AdvLoggerStep)
    ensures
        r == match (log_info, install) {
            (None, _) => AdvLoggerStep::Fail(AdvLoggerError::NotStarted),
            (Some(a), None) => AdvLoggerStep::Install { log_info: a },
            (Some(_), Some(Err(_))) => AdvLoggerStep::Fail(AdvLoggerError::ProtocolError),
            (Some(_), Some(Ok(_))) => if events_registered {
                AdvLoggerStep::Succeed
            } else {
                AdvLoggerStep::RegisterEvents
            },
        },
{
    match (log_info, install) {
        (None, _) => AdvLoggerStep::Fail(AdvLoggerError::NotStarted),
        (Some(a), None) => AdvLoggerStep::Install { log_info: a },
        (Some(_), Some(Err(_))) => AdvLoggerStep::Fail(AdvLoggerError::ProtocolError),
        (Some(_), Some(Ok(_))) => if events_registered {
            AdvLoggerStep::Succeed
        } else {
            AdvLoggerStep::RegisterEvents
        },
    }
}

} // verus!
