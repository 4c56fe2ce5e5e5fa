//! Parsing of configuration values: the boolean spellings the environment
//! accepts, and the trimming of optional settings.

use vstd::prelude::*;
use vstd::string::*;

use crate::text::{lower_of, lowercase, trim, trim_substring};

verus! {

/// The spellings that enable a boolean flag, compared case-insensitively.
pub open spec fn spec_truthy(s: Seq<char>) -> bool {
    lower_of(s) == "1"@ || lower_of(s) == "true"@ || lower_of(s) == "yes"@ || lower_of(s) == "on"@
}

/// The spellings that disable a boolean flag, compared case-insensitively.
pub open spec fn spec_falsy(s: Seq<char>) -> bool {
    lower_of(s) == "0"@ || lower_of(s) == "false"@ || lower_of(s) == "no"@ || lower_of(s)
        == "off"@
}

/// Read a boolean flag the way the environment spells it:
/// `1`/`true`/`yes`/`on` enable, `0`/`false`/`no`/`off` disable, case
/// folded; anything else is no answer.
pub fn parse_bool_flag(s: &str) -> (r: Option<bool>)
    ensures
        spec_truthy(s@) ==> r == Some(true),
        !spec_truthy(s@) && spec_falsy(s@) ==> r == Some(false),
        !spec_truthy(s@) && !spec_falsy(s@) ==> r is None,
{
    let lowered = lowercase(s);
    if lowered == "1".to_owned() || lowered == "true".to_owned() || lowered == "yes".to_owned()
        || lowered == "on".to_owned() {
        Some(true)
    } else if lowered == "0".to_owned() || lowered == "false".to_owned() || lowered
        == "no".to_owned() || lowered == "off".to_owned() {
        Some(false)
    } else {
        None
    }
}

/// An optional setting's value: trimmed, and present exactly when something
/// non-blank remains.
pub fn clean_optional(s: &str) -> (r: Option<String>)
    ensures
        trim(s@).len() > 0 ==> (r matches Some(t) && t@ == trim(s@)),
        trim(s@).len() == 0 ==> r is None,
{
    let n = s.unicode_len();
    let t = trim_substring(s, 0, n);
    proof {
        assert(s@.subrange(0, n as int) =~= s@);
    }
    if t.is_empty() {
        None
    } else {
        Some(t.to_owned())
    }
}

} // verus!
