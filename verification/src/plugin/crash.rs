//! Crash forensics: where a crash report is written and under which name.

use vstd::prelude::*;
use vstd::string::StrSliceExecFns;
use crate::text::string_push;

verus! {

/// `s` with every space replaced by an underscore.
pub open spec fn underscored(s: Seq<char>) -> Seq<char> {
    s.map_values(|c: char| if c == ' ' { '_' } else { c })
}

/// The file name of a crash report: `LIME_CRASH_<plugin name, spaces as underscores>_<timestamp>.txt`.
pub open spec fn spec_crash_log_filename(plugin_name: Seq<char>, timestamp: Seq<char>) -> Seq<char> {
    "LIME_CRASH_"@ + underscored(plugin_name) + "_"@ + timestamp + ".txt"@
}

/// The file name under which a crash report of `plugin_name` at `timestamp` is saved.
pub fn crash_log_filename(plugin_name: &str, timestamp: &str) -> (name: String)
    ensures
        name@ == spec_crash_log_filename(plugin_name@, timestamp@),
{
    let mut name = String::from_str("LIME_CRASH_");
    let ghost prefix = name@;
    let n = plugin_name.unicode_len();
    let mut i: usize = 0;
    while i < n
        invariant
            n == plugin_name@.len(),
            i <= n,
            name@ == prefix + underscored(plugin_name@.take(i as int)),
        decreases n - i,
    {
        let c = plugin_name.get_char(i);
        string_push(&mut name, if c == ' ' { '_' } else { c });
        proof {
            assert(underscored(plugin_name@.take(i + 1)) =~= underscored(plugin_name@.take(i as int)).push(
                if c == ' ' { '_' } else { c },
            ));
        }
        i = i + 1;
    }
    proof {
        assert(plugin_name@.take(n as int) =~= plugin_name@);
    }
    name.append("_");
    name.append(timestamp);
    name.append(".txt");
    proof {
        assert(name@ =~= spec_crash_log_filename(plugin_name@, timestamp@));
    }
    name
}

} // verus!
