//! Command-line flags of the tray application.
//!
//! The application shell hands the normalized argument strings in; which
//! flags they set is decided here.  Unknown arguments are ignored for
//! forward compatibility.

use vstd::prelude::*;

use crate::text::eq_str;

verus! {

/// Recognized forms of the backend-only flag.
pub open spec fn spec_backend_flag(s: Seq<char>) -> bool {
    s == "/backend"@ || s == "--backend"@
}

/// Recognized forms of the no-tray flag.
pub open spec fn spec_no_tray_flag(s: Seq<char>) -> bool {
    s == "/no-tray"@ || s == "--no-tray"@
}

/// Recognized forms of the verbose flag.
pub open spec fn spec_verbose_flag(s: Seq<char>) -> bool {
    s == "/v"@ || s == "-v"@ || s == "--verbose"@
}

/// Recognized forms of the help flag.
pub open spec fn spec_help_flag(s: Seq<char>) -> bool {
    s == "/h"@ || s == "/?"@ || s == "-h"@ || s == "--help"@
}

/// Tray application flags.
#[derive(Debug, Clone)]
pub struct Args {
    /// Run the backend only: no tray, no embedded web server.
    pub backend_only: bool,
    /// Disable the tray icon.
    pub no_tray: bool,
    /// Verbose logging.
    pub verbose: bool,
}

impl Default for Args {
    fn default() -> (r: Self)
        ensures
            !r.backend_only,
            !r.no_tray,
            !r.verbose,
    {
        Args { backend_only: false, no_tray: false, verbose: false }
    }
}

impl Args {
    /// Parse flags from normalized argument strings: a flag is set exactly
    /// when one of its forms occurs; everything else is ignored.
    pub fn parse(args: &Vec<String>) -> (r: Args)
        ensures
            r.backend_only == exists|i: int|
                0 <= i < args@.len() && spec_backend_flag(#[trigger] args@[i]@),
            r.no_tray == exists|i: int|
                0 <= i < args@.len() && spec_no_tray_flag(#[trigger] args@[i]@),
            r.verbose == exists|i: int|
                0 <= i < args@.len() && spec_verbose_flag(#[trigger] args@[i]@),
    {
        let mut out = Args { backend_only: false, no_tray: false, verbose: false };
        let mut i: usize = 0;
        while i < args.len()
            invariant
                0 <= i <= args@.len(),
                out.backend_only == exists|j: int|
                    0 <= j < i && spec_backend_flag(#[trigger] args@[j]@),
                out.no_tray == exists|j: int|
                    0 <= j < i && spec_no_tray_flag(#[trigger] args@[j]@),
                out.verbose == exists|j: int|
                    0 <= j < i && spec_verbose_flag(#[trigger] args@[j]@),
            decreases args@.len() - i,
        {
            let s = args[i].as_str();
            if eq_str(s, "/backend") || eq_str(s, "--backend") {
                out.backend_only = true;
            }
            if eq_str(s, "/no-tray") || eq_str(s, "--no-tray") {
                out.no_tray = true;
            }
            if eq_str(s, "/v") || eq_str(s, "-v") || eq_str(s, "--verbose") {
                out.verbose = true;
            }
            i += 1;
        }
        out
    }

    /// Does any argument ask for the help text?
    pub fn wants_help(args: &Vec<String>) -> (r: bool)
        ensures
            r == exists|i: int| 0 <= i < args@.len() && spec_help_flag(#[trigger] args@[i]@),
    {
        let mut i: usize = 0;
        while i < args.len()
            invariant
                0 <= i <= args@.len(),
                forall|j: int| 0 <= j < i ==> !spec_help_flag(#[trigger] args@[j]@),
            decreases args@.len() - i,
        {
            let s = args[i].as_str();
            if eq_str(s, "/h") || eq_str(s, "/?") || eq_str(s, "-h") || eq_str(s, "--help") {
                return true;
            }
            i += 1;
        }
        false
    }
}

} // verus!
