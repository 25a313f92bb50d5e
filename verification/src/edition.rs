//! Language editions and their canonical tokens.

use vstd::prelude::*;
use vstd::string::StringExecFns;

verus! {

/// A language edition that the toolchain can be asked to compile for.
#[derive(Clone, Copy, Debug, PartialEq, Eq, Structural)]
pub enum RustEdition {
    R2024,
    R2021,
    R2018,
}

impl RustEdition {
    /// The canonical token of the edition, as it is handed to the compiler
    /// and written into the project descriptor.
    pub open spec fn token(self) -> Seq<char> {
        match self {
            RustEdition::R2024 => "2024"@,
            RustEdition::R2021 => "2021"@,
            RustEdition::R2018 => "2018"@,
        }
    }

    /// The newest edition that is supported.
    pub open spec fn newest() -> RustEdition {
        RustEdition::R2024
    }

    /// The canonical token as a string slice.
    pub fn as_str(&self) -> (s: &'static str)
        ensures
            s@ == self.token(),
    {
        match self {
            RustEdition::R2024 => "2024",
            RustEdition::R2021 => "2021",
            RustEdition::R2018 => "2018",
        }
    }

    /// The canonical token as an owned string.
    pub fn to_string(&self) -> (s: String)
        ensures
            s@ == self.token(),
    {
        String::from_str(self.as_str())
    }
}

/// The token tells the editions apart.
pub proof fn token_identifies_edition(a: RustEdition, b: RustEdition)
    ensures
        a.token() == b.token() <==> a == b,
{
    reveal_strlit("2024");
    reveal_strlit("2021");
    reveal_strlit("2018");
    if a != b {
        assert(a.token()[2] != b.token()[2] || a.token()[3] != b.token()[3]);
    }
}

} // verus!
