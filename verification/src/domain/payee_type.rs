//! `PayeeType`: its wire names (the text it is stored and displayed as), parsing and default.
use vstd::prelude::*;

use crate::text::ascii_lower;
use crate::text::str_eq;
use crate::text::to_lowercase;
use crate::text::unicode_lowercase;

verus! {

broadcast use vstd::string::group_string_axioms;

#[derive(Debug, Clone, Copy, PartialEq, Eq, Hash, Structural)]
pub enum PayeeType {
    Provider,
    Platform,
}

impl PayeeType {
    /// The variant's wire name.
    pub open spec fn spec_name(self) -> Seq<char> {
        match self {
            PayeeType::Provider => seq!['p', 'r', 'o', 'v', 'i', 'd', 'e', 'r'],
            PayeeType::Platform => seq!['p', 'l', 'a', 't', 'f', 'o', 'r', 'm'],
        }
    }

    /// The variant a (lowercase) wire name names.
    pub open spec fn spec_from_name(s: Seq<char>) -> Option<PayeeType> {
        if s == seq!['p', 'r', 'o', 'v', 'i', 'd', 'e', 'r'] {
            Some(PayeeType::Provider)
        } else if s == seq!['p', 'l', 'a', 't', 'f', 'o', 'r', 'm'] {
            Some(PayeeType::Platform)
        } else {
            None
        }
    }

    /// The wire name (what `Display` writes).
    pub fn as_str(&self) -> (r: &'static str)
        ensures
            r@ == self.spec_name(),
    {
        match self {
            PayeeType::Provider => {
                proof {
                    reveal_strlit("provider");
                    assert("provider"@ =~= seq!['p', 'r', 'o', 'v', 'i', 'd', 'e', 'r']);
                }
                "provider"
            },
            PayeeType::Platform => {
                proof {
                    reveal_strlit("platform");
                    assert("platform"@ =~= seq!['p', 'l', 'a', 't', 'f', 'o', 'r', 'm']);
                }
                "platform"
            },
        }
    }

    /// The wire name as an owned string.
    pub fn to_string(&self) -> (r: String)
        ensures
            r@ == self.spec_name(),
    {
        self.as_str().to_string()
    }

    /// Parse a wire name, case-insensitively (the text is lowercased first).
    pub fn parse(s: &str) -> (r: Result<PayeeType, String>)
        ensures
            match Self::spec_from_name(unicode_lowercase(s@)) {
                Some(v) => r == Ok::<PayeeType, String>(v),
                None => r matches Err(m) && m@ == "Unknown PayeeType variant: "@ + s@,
            },
            vstd::utf8::is_ascii_chars(s@) ==> unicode_lowercase(s@) == ascii_lower(s@),
    {
        let lower = to_lowercase(s);
        if str_eq(lower.as_str(), "provider") {
            proof {
                reveal_strlit("provider");
                assert("provider"@ =~= seq!['p', 'r', 'o', 'v', 'i', 'd', 'e', 'r']);
            }
            return Ok(PayeeType::Provider);
        }
        if str_eq(lower.as_str(), "platform") {
            proof {
                reveal_strlit("platform");
                assert("platform"@ =~= seq!['p', 'l', 'a', 't', 'f', 'o', 'r', 'm']);
            }
            return Ok(PayeeType::Platform);
        }
        proof {
            reveal_strlit("provider");
            assert("provider"@ =~= seq!['p', 'r', 'o', 'v', 'i', 'd', 'e', 'r']);
        }
        proof {
            reveal_strlit("platform");
            assert("platform"@ =~= seq!['p', 'l', 'a', 't', 'f', 'o', 'r', 'm']);
        }
        Err("Unknown PayeeType variant: ".to_string().concat(s))
    }

    /// Every wire name is lowercase ASCII and names its own variant, so parsing what a variant
    /// displays as gives the variant back.
    pub proof fn lemma_name_round_trip(v: PayeeType)
        ensures
            vstd::utf8::is_ascii_chars(v.spec_name()),
            ascii_lower(v.spec_name()) == v.spec_name(),
            Self::spec_from_name(v.spec_name()) == Some(v),
    {
        match v {
            PayeeType::Provider => {
                assert(ascii_lower(seq!['p', 'r', 'o', 'v', 'i', 'd', 'e', 'r']) =~= seq!['p', 'r', 'o', 'v', 'i', 'd', 'e', 'r']);
            },
            PayeeType::Platform => {
                assert(ascii_lower(seq!['p', 'l', 'a', 't', 'f', 'o', 'r', 'm']) =~= seq!['p', 'l', 'a', 't', 'f', 'o', 'r', 'm']);
            },
        }
    }
}

impl Default for PayeeType {
    fn default() -> (r: Self)
        ensures
            r == PayeeType::Provider,
    {
        PayeeType::Provider
    }
}

impl std::str::FromStr for PayeeType {
    type Err = String;

    fn from_str(s: &str) -> Result<Self, Self::Err> {
        Self::parse(s)
    }
}

} // verus!
