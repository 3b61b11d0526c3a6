//! Convenience accessors on a decoded bug.

use vstd::prelude::*;

use crate::bug_model::{Bug, Flag};
use crate::json::{jlookup, obj_get, str_eq, JsonValue};

verus! {

/// The first flag carrying the given name, if any.
pub open spec fn spec_find_flag(fs: Seq<Flag>, name: Seq<char>) -> Option<Flag>
    decreases fs.len(),
{
    if fs.len() == 0 {
        None
    } else if fs[0].name@ == name {
        Some(fs[0])
    } else {
        spec_find_flag(fs.drop_first(), name)
    }
}

impl Bug {
    /// Returns the value of the flag corresponding to the flag name.
    /// If no flag by that name is set in the bug, the function returns
    /// `None`.
    ///
    /// Flags are only available when the field selection asked for them;
    /// callers look them up only on a bug that carries them.
    #[verifier::loop_isolation(false)]
    pub fn get_flag<'a>(&'a self, name: &str) -> (r: Option<&'a str>)
        requires
            self.flags is Some,
        ensures
            match r {
                Some(status) => spec_find_flag(self.flags.unwrap()@, name@) matches Some(f)
                    && status@ == f.status@,
                None => spec_find_flag(self.flags.unwrap()@, name@) is None,
            },
    {
        let flags = self.flags.as_ref().unwrap();
        let ghost fs = flags@;
        let mut i: usize = 0;
        proof {
            assert(fs.skip(0) =~= fs);
        }
        while i < flags.len()
            invariant
                i <= flags.len(),
                fs == flags@,
                spec_find_flag(fs, name@) == spec_find_flag(fs.skip(i as int), name@),
            decreases flags.len() - i,
        {
            proof {
                assert(fs.skip(i as int)[0] == fs[i as int]);
            }
            if str_eq(flags[i].name.as_str(), name) {
                return Some(flags[i].status.as_str());
            }
            proof {
                assert(fs.skip(i as int).drop_first() =~= fs.skip(i as int + 1));
            }
            i = i + 1;
        }
        proof {
            assert(fs.skip(fs.len() as int) =~= Seq::<Flag>::empty());
        }
        None
    }

    /// Looks a field that no typed attribute consumed up by its key:
    /// the lossless passthrough for server-specific fields.
    pub fn extra_get<'a>(&'a self, key: &str) -> (r: Option<&'a JsonValue>)
        ensures
            match r {
                Some(v) => jlookup(self.extra@, key@) == Some(*v),
                None => jlookup(self.extra@, key@) is None,
            },
    {
        obj_get(&self.extra, key)
    }
}

} // verus!
