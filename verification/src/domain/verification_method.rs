//! `VerificationMethod`: its wire names (the text it is stored and displayed as), parsing and default.
use vstd::prelude::*;

use crate::text::ascii_lower;
use crate::text::str_eq;
use crate::text::to_lowercase;
use crate::text::unicode_lowercase;

verus! {

broadcast use vstd::string::group_string_axioms;

#[derive(Debug, Clone, Copy, PartialEq, Eq, Hash, Structural)]
pub enum VerificationMethod {
    MicroDeposit,
    Document,
    Instant,
    Manual,
}

impl VerificationMethod {
    /// The variant's wire name.
    pub open spec fn spec_name(self) -> Seq<char> {
        match self {
            VerificationMethod::MicroDeposit => seq!['m', 'i', 'c', 'r', 'o', '_', 'd', 'e', 'p', 'o', 's', 'i', 't'],
            VerificationMethod::Document => seq!['d', 'o', 'c', 'u', 'm', 'e', 'n', 't'],
            VerificationMethod::Instant => seq!['i', 'n', 's', 't', 'a', 'n', 't'],
            VerificationMethod::Manual => seq!['m', 'a', 'n', 'u', 'a', 'l'],
        }
    }

    /// The variant a (lowercase) wire name names.
    pub open spec fn spec_from_name(s: Seq<char>) -> Option<VerificationMethod> {
        if s == seq!['m', 'i', 'c', 'r', 'o', '_', 'd', 'e', 'p', 'o', 's', 'i', 't'] {
            Some(VerificationMethod::MicroDeposit)
        } else if s == seq!['d', 'o', 'c', 'u', 'm', 'e', 'n', 't'] {
            Some(VerificationMethod::Document)
        } else if s == seq!['i', 'n', 's', 't', 'a', 'n', 't'] {
            Some(VerificationMethod::Instant)
        } else if s == seq!['m', 'a', 'n', 'u', 'a', 'l'] {
            Some(VerificationMethod::Manual)
        } else {
            None
        }
    }

    /// The wire name (what `Display` writes).
    pub fn as_str(&self) -> (r: &'static str)
        ensures
            r@ == self.spec_name(),
    {
        match self {
            VerificationMethod::MicroDeposit => {
                proof {
                    reveal_strlit("micro_deposit");
                    assert("micro_deposit"@ =~= seq!['m', 'i', 'c', 'r', 'o', '_', 'd', 'e', 'p', 'o', 's', 'i', 't']);
                }
                "micro_deposit"
            },
            VerificationMethod::Document => {
                proof {
                    reveal_strlit("document");
                    assert("document"@ =~= seq!['d', 'o', 'c', 'u', 'm', 'e', 'n', 't']);
                }
                "document"
            },
            VerificationMethod::Instant => {
                proof {
                    reveal_strlit("instant");
                    assert("instant"@ =~= seq!['i', 'n', 's', 't', 'a', 'n', 't']);
                }
                "instant"
            },
            VerificationMethod::Manual => {
                proof {
                    reveal_strlit("manual");
                    assert("manual"@ =~= seq!['m', 'a', 'n', 'u', 'a', 'l']);
                }
                "manual"
            },
        }
    }

    /// The wire name as an owned string.
    pub fn to_string(&self) -> (r: String)
        ensures
            r@ == self.spec_name(),
    {
        self.as_str().to_string()
    }

    /// Parse a wire name, case-insensitively (the text is lowercased first).
    pub fn parse(s: &str) -> (r: Result<VerificationMethod, String>)
        ensures
            match Self::spec_from_name(unicode_lowercase(s@)) {
                Some(v) => r == Ok::<VerificationMethod, String>(v),
                None => r matches Err(m) && m@ == "Unknown VerificationMethod variant: "@ + s@,
            },
            vstd::utf8::is_ascii_chars(s@) ==> unicode_lowercase(s@) == ascii_lower(s@),
    {
        let lower = to_lowercase(s);
        if str_eq(lower.as_str(), "micro_deposit") {
            proof {
                reveal_strlit("micro_deposit");
                assert("micro_deposit"@ =~= seq!['m', 'i', 'c', 'r', 'o', '_', 'd', 'e', 'p', 'o', 's', 'i', 't']);
            }
            return Ok(VerificationMethod::MicroDeposit);
        }
        if str_eq(lower.as_str(), "document") {
            proof {
                reveal_strlit("document");
                assert("document"@ =~= seq!['d', 'o', 'c', 'u', 'm', 'e', 'n', 't']);
            }
            return Ok(VerificationMethod::Document);
        }
        if str_eq(lower.as_str(), "instant") {
            proof {
                reveal_strlit("instant");
                assert("instant"@ =~= seq!['i', 'n', 's', 't', 'a', 'n', 't']);
            }
            return Ok(VerificationMethod::Instant);
        }
        if str_eq(lower.as_str(), "manual") {
            proof {
                reveal_strlit("manual");
                assert("manual"@ =~= seq!['m', 'a', 'n', 'u', 'a', 'l']);
            }
            return Ok(VerificationMethod::Manual);
        }
        proof {
            reveal_strlit("micro_deposit");
            assert("micro_deposit"@ =~= seq!['m', 'i', 'c', 'r', 'o', '_', 'd', 'e', 'p', 'o', 's', 'i', 't']);
        }
        proof {
            reveal_strlit("document");
            assert("document"@ =~= seq!['d', 'o', 'c', 'u', 'm', 'e', 'n', 't']);
        }
        proof {
            reveal_strlit("instant");
            assert("instant"@ =~= seq!['i', 'n', 's', 't', 'a', 'n', 't']);
        }
        proof {
            reveal_strlit("manual");
            assert("manual"@ =~= seq!['m', 'a', 'n', 'u', 'a', 'l']);
        }
        Err("Unknown VerificationMethod variant: ".to_string().concat(s))
    }

    /// Every wire name is lowercase ASCII and names its own variant, so parsing what a variant
    /// displays as gives the variant back.
    pub proof fn lemma_name_round_trip(v: VerificationMethod)
        ensures
            vstd::utf8::is_ascii_chars(v.spec_name()),
            ascii_lower(v.spec_name()) == v.spec_name(),
            Self::spec_from_name(v.spec_name()) == Some(v),
    {
        match v {
            VerificationMethod::MicroDeposit => {
                assert(ascii_lower(seq!['m', 'i', 'c', 'r', 'o', '_', 'd', 'e', 'p', 'o', 's', 'i', 't']) =~= seq!['m', 'i', 'c', 'r', 'o', '_', 'd', 'e', 'p', 'o', 's', 'i', 't']);
            },
            VerificationMethod::Document => {
                assert(ascii_lower(seq!['d', 'o', 'c', 'u', 'm', 'e', 'n', 't']) =~= seq!['d', 'o', 'c', 'u', 'm', 'e', 'n', 't']);
            },
            VerificationMethod::Instant => {
                assert(ascii_lower(seq!['i', 'n', 's', 't', 'a', 'n', 't']) =~= seq!['i', 'n', 's', 't', 'a', 'n', 't']);
            },
            VerificationMethod::Manual => {
                assert(ascii_lower(seq!['m', 'a', 'n', 'u', 'a', 'l']) =~= seq!['m', 'a', 'n', 'u', 'a', 'l']);
            },
        }
    }
}

impl Default for VerificationMethod {
    fn default() -> (r: Self)
        ensures
            r == VerificationMethod::MicroDeposit,
    {
        VerificationMethod::MicroDeposit
    }
}

impl std::str::FromStr for VerificationMethod {
    type Err = String;

    fn from_str(s: &str) -> Result<Self, Self::Err> {
        Self::parse(s)
    }
}

} // verus!
