//! How the network thread is set up.

use vstd::prelude::*;

verus! {

/// The longest idle timeout, in seconds: just under four hours.
pub const MAX_IDLE_TIMEOUT_SECONDS: u64 = 14340;

/// The idle timeout where none is configured, in seconds.
pub const DEFAULT_IDLE_TIMEOUT_SECONDS: u64 = 300;

/// Up to here, in seconds, idle timeouts are exact; longer ones are in full minutes.
pub const EXACT_IDLE_TIMEOUT_SECONDS: u64 = 240;

/// Why the TLS context of the thread could not be set up.
#[derive(Copy, Clone, Debug, PartialEq, Eq, Structural)]
pub enum InitError {
    LoadCAFile,
    InvalidCAFile,
    InvalidCA,
    FailedToOpenSocket,
}

/// How the TLS context of the thread is to be set up.
pub struct InitOpts {
    /// Certificates to trust, by their handles.
    pub ca: Vec<u64>,
    /// A file of certificates to trust; empty for none.
    pub abs_ca_file_name: Vec<u8>,
    pub for_install: bool,
    /// Who hears of an error, by a handle, and then ends the process; none for the
    /// usual handler, which says what [`init_error_message`] gives.
    pub on_init_error: Option<u64>,
}

impl Default for InitOpts {
    fn default() -> (r: Self)
        ensures
            r.ca@ == Seq::<u64>::empty(),
            r.abs_ca_file_name@ == Seq::<u8>::empty(),
            !r.for_install,
            r.on_init_error is None,
    {
        InitOpts {
            ca: Vec::new(),
            abs_ca_file_name: Vec::new(),
            for_install: false,
            on_init_error: None,
        }
    }
}

impl Clone for InitOpts {
    fn clone(&self) -> (r: Self)
        ensures
            r.ca@ == self.ca@,
            r.abs_ca_file_name@ == self.abs_ca_file_name@,
            r.for_install == self.for_install,
            r.on_init_error == self.on_init_error,
    {
        let r = InitOpts {
            ca: self.ca.clone(),
            abs_ca_file_name: self.abs_ca_file_name.clone(),
            for_install: self.for_install,
            on_init_error: self.on_init_error,
        };
        assert(r.ca@ =~= self.ca@);
        assert(r.abs_ca_file_name@ =~= self.abs_ca_file_name@);
        r
    }
}

impl InitOpts {
    /// There are certificates to trust, which have to be read before anything else.
    pub open spec fn names_certificates(&self) -> bool {
        self.abs_ca_file_name@.len() > 0 || self.ca@.len() > 0
    }

    pub fn has_certificates(&self) -> (r: bool)
        ensures
            r == self.names_certificates(),
    {
        self.abs_ca_file_name.len() > 0 || self.ca.len() > 0
    }
}

/// What is said before the process is given up.
#[derive(Copy, Clone, Debug, PartialEq, Eq, Structural)]
pub enum InitErrorMessage {
    FailedToFindCAFile,
    FailedToLoadCAFile,
    InvalidCAFile,
    InvalidCA,
    FailedToStartThread,
}

/// What is said of an error; `ca_file_exists` tells a file that is missing from one
/// that cannot be read.
pub fn init_error_message(err: InitError, ca_file_exists: bool) -> (r: InitErrorMessage)
    ensures
        r == match err {
            InitError::LoadCAFile => if ca_file_exists {
                InitErrorMessage::FailedToLoadCAFile
            } else {
                InitErrorMessage::FailedToFindCAFile
            },
            InitError::InvalidCAFile => InitErrorMessage::InvalidCAFile,
            InitError::InvalidCA => InitErrorMessage::InvalidCA,
            InitError::FailedToOpenSocket => InitErrorMessage::FailedToStartThread,
        },
{
    match err {
        InitError::LoadCAFile => {
            if !ca_file_exists {
                InitErrorMessage::FailedToFindCAFile
            } else {
                InitErrorMessage::FailedToLoadCAFile
            }
        },
        InitError::InvalidCAFile => InitErrorMessage::InvalidCAFile,
        InitError::InvalidCA => InitErrorMessage::InvalidCA,
        InitError::FailedToOpenSocket => InitErrorMessage::FailedToStartThread,
    }
}

impl InitErrorMessage {
    /// The message with its tag in front, and whether the name of the file follows it.
    pub open spec fn says(self, tag: Seq<char>, text: Seq<char>, names_file: bool) -> bool {
        match self {
            InitErrorMessage::FailedToFindCAFile => {
                tag == "HTTPThread"@ && text == "failed to find CA file"@ && names_file
            },
            InitErrorMessage::FailedToLoadCAFile => {
                tag == "HTTPThread"@ && text == "failed to load CA file"@ && names_file
            },
            InitErrorMessage::InvalidCAFile => {
                tag == "HTTPThread"@ && text == "the CA file is invalid"@ && names_file
            },
            InitErrorMessage::InvalidCA => {
                tag == "HTTPThread"@ && text == "the provided CA is invalid"@ && !names_file
            },
            InitErrorMessage::FailedToStartThread => {
                tag == "error"@ && text == "failed to start HTTP client thread"@ && !names_file
            },
        }
    }

    /// The tag, the message, and whether the name of the file follows it.
    pub fn text(self) -> (r: (&'static str, &'static str, bool))
        ensures
            self.says(r.0@, r.1@, r.2),
    {
        match self {
            InitErrorMessage::FailedToFindCAFile => ("HTTPThread", "failed to find CA file", true),
            InitErrorMessage::FailedToLoadCAFile => ("HTTPThread", "failed to load CA file", true),
            InitErrorMessage::InvalidCAFile => ("HTTPThread", "the CA file is invalid", true),
            InitErrorMessage::InvalidCA => ("HTTPThread", "the provided CA is invalid", false),
            InitErrorMessage::FailedToStartThread => {
                ("error", "failed to start HTTP client thread", false)
            },
        }
    }
}

/// The idle timeout that was asked for, within bounds.
pub open spec fn wanted_idle_timeout(configured: Option<u64>) -> u64 {
    let wanted = match configured {
        Some(seconds) => seconds,
        None => DEFAULT_IDLE_TIMEOUT_SECONDS,
    };
    if wanted <= MAX_IDLE_TIMEOUT_SECONDS {
        wanted
    } else {
        MAX_IDLE_TIMEOUT_SECONDS
    }
}

/// `r` is the idle timeout for a configured number of seconds: bounded, and beyond
/// four minutes rounded up to full minutes.
pub open spec fn is_idle_timeout(configured: Option<u64>, r: u32) -> bool {
    let wanted = wanted_idle_timeout(configured);
    if wanted > EXACT_IDLE_TIMEOUT_SECONDS {
        r % 60 == 0 && wanted <= r < wanted + 60
    } else {
        r == wanted
    }
}

/// The idle timeout for a configured number of seconds.
pub fn idle_timeout_seconds(configured: Option<u64>) -> (r: u32)
    ensures
        is_idle_timeout(configured, r),
{
    let wanted: u64 = match configured {
        Some(seconds) => seconds,
        None => DEFAULT_IDLE_TIMEOUT_SECONDS,
    };
    let raw: u64 = if wanted <= MAX_IDLE_TIMEOUT_SECONDS {
        wanted
    } else {
        MAX_IDLE_TIMEOUT_SECONDS
    };
    if raw > EXACT_IDLE_TIMEOUT_SECONDS {
        (((raw + 59) / 60) * 60) as u32
    } else {
        raw as u32
    }
}

/// No idle timeout is longer than the longest, none that was asked for within bounds
/// is cut short, and to ask for more never gives less.
pub proof fn idle_timeouts_are_monotonic(a: Option<u64>, b: Option<u64>, ra: u32, rb: u32)
    requires
        wanted_idle_timeout(a) <= wanted_idle_timeout(b),
        is_idle_timeout(a, ra),
        is_idle_timeout(b, rb),
    ensures
        ra <= rb,
        wanted_idle_timeout(a) <= ra,
        rb <= MAX_IDLE_TIMEOUT_SECONDS,
{
}

} // verus!
