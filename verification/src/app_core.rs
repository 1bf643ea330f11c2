//! How much the application logs.
use std::str::FromStr;
use vstd::prelude::*;
use vstd::string::*;

verus! {

/// The least severe messages that are printed.
#[derive(Debug, Copy, Clone, PartialEq, Eq, Structural)]
pub enum AppCoreLogLevel {
    /// Print debug-level messages and above
    Debug,
    /// Print info-level messages and above
    Info,
}

/// The level that a name stands for.
pub open spec fn level_named(name: Seq<char>) -> Result<AppCoreLogLevel, ()> {
    if name == "debug"@ {
        Ok(AppCoreLogLevel::Debug)
    } else if name == "info"@ {
        Ok(AppCoreLogLevel::Info)
    } else {
        Err(())
    }
}

impl FromStr for AppCoreLogLevel {
    type Err = ();

    /// The level with this name.
    fn from_str(s: &str) -> (level: Result<Self, Self::Err>)
        ensures
            level == level_named(s@),
            level is Ok <==> s@ == "debug"@ || s@ == "info"@,
            level matches Ok(l) ==> (l is Debug <==> s@ == "debug"@),
    {
        proof {
            law_levels_by_name(s@);
        }
        let name: String = s.to_owned();
        if name == "debug".to_owned() {
            Ok(AppCoreLogLevel::Debug)
        } else if name == "info".to_owned() {
            Ok(AppCoreLogLevel::Info)
        } else {
            Err(())
        }
    }
}

/// Each level has one name and no other text is a level.
pub proof fn law_levels_by_name(name: Seq<char>)
    ensures
        level_named(name) == Ok::<AppCoreLogLevel, ()>(AppCoreLogLevel::Debug) <==> name
            == "debug"@,
        level_named(name) == Ok::<AppCoreLogLevel, ()>(AppCoreLogLevel::Info) <==> name == "info"@,
        level_named(name) is Err <==> name != "debug"@ && name != "info"@,
{
    reveal_strlit("debug");
    reveal_strlit("info");
    assert("debug"@.len() != "info"@.len());
}

} // verus!
