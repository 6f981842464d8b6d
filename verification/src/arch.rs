//! The closed set of supported architectures and its textual selectors.

use crate::text::str_eq;
use std::str::FromStr;
use vstd::prelude::*;
use vstd::string::StringExecFns;

verus! {

/// The architecture to load the normal model as.
#[derive(Clone, Copy, Debug, PartialEq, Eq, Structural)]
pub enum NormalLoaderType {
    Mistral,
    Gemma,
    Mixtral,
    Llama,
    Phi2,
}

/// The message that reports `s` as a selector of no known architecture. It
/// holds `s` verbatim between two backticks.
pub open spec fn unknown_architecture(s: Seq<char>) -> Seq<char> {
    "Unknown architecture `"@ + s + "`"@
}

impl NormalLoaderType {
    /// The selector of this architecture: its lowercase identifier.
    pub open spec fn selector(self) -> Seq<char> {
        match self {
            NormalLoaderType::Mistral => "mistral"@,
            NormalLoaderType::Gemma => "gemma"@,
            NormalLoaderType::Mixtral => "mixtral"@,
            NormalLoaderType::Llama => "llama"@,
            NormalLoaderType::Phi2 => "phi2"@,
        }
    }

    /// The architecture that `s` selects, if any: the one whose selector is
    /// exactly `s`.
    pub open spec fn resolve(s: Seq<char>) -> Option<NormalLoaderType> {
        if s == "mistral"@ {
            Some(NormalLoaderType::Mistral)
        } else if s == "gemma"@ {
            Some(NormalLoaderType::Gemma)
        } else if s == "mixtral"@ {
            Some(NormalLoaderType::Mixtral)
        } else if s == "llama"@ {
            Some(NormalLoaderType::Llama)
        } else if s == "phi2"@ {
            Some(NormalLoaderType::Phi2)
        } else {
            None
        }
    }

    /// Resolves a selector. The match is exact and case-sensitive; any other
    /// string is rejected with a message that names it verbatim.
    pub fn from_str(s: &str) -> (r: Result<NormalLoaderType, String>)
        ensures
            match Self::resolve(s@) {
                Some(arch) => r == Ok::<NormalLoaderType, String>(arch),
                None => r is Err && r->Err_0@ == unknown_architecture(s@),
            },
    {
        if str_eq(s, "mistral") {
            Ok(NormalLoaderType::Mistral)
        } else if str_eq(s, "gemma") {
            Ok(NormalLoaderType::Gemma)
        } else if str_eq(s, "mixtral") {
            Ok(NormalLoaderType::Mixtral)
        } else if str_eq(s, "llama") {
            Ok(NormalLoaderType::Llama)
        } else if str_eq(s, "phi2") {
            Ok(NormalLoaderType::Phi2)
        } else {
            let mut msg = String::new();
            msg.append("Unknown architecture `");
            msg.append(s);
            msg.append("`");
            Err(msg)
        }
    }
}

/// A string selects an architecture exactly when it is that architecture's
/// selector: the five selectors are distinct, each resolves to its own
/// architecture, and nothing else resolves at all.
pub proof fn lemma_resolve_is_exact(s: Seq<char>, arch: NormalLoaderType)
    ensures
        NormalLoaderType::resolve(s) == Some(arch) <==> s == arch.selector(),
        NormalLoaderType::resolve(arch.selector()) == Some(arch),
{
    reveal_strlit("mistral");
    reveal_strlit("gemma");
    reveal_strlit("mixtral");
    reveal_strlit("llama");
    reveal_strlit("phi2");
    assert("mistral"@.len() == 7 && "mixtral"@.len() == 7);
    assert("gemma"@.len() == 5 && "llama"@.len() == 5);
    assert("phi2"@.len() == 4);
    assert("mistral"@[2] == 's' && "mixtral"@[2] == 'x');
    assert("gemma"@[0] == 'g' && "llama"@[0] == 'l');
}

impl FromStr for NormalLoaderType {
    type Err = String;

    /// Resolves a selector as the inherent `from_str` does: the architecture
    /// whose selector is exactly `s`, or the message that names `s` verbatim.
    fn from_str(s: &str) -> (r: Result<Self, Self::Err>)
        ensures
            match NormalLoaderType::resolve(s@) {
                Some(arch) => r == Ok::<NormalLoaderType, String>(arch),
                None => r is Err && r->Err_0@ == unknown_architecture(s@),
            },
    {
        NormalLoaderType::from_str(s)
    }
}

} // verus!
