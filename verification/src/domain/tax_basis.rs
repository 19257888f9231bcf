//! `TaxBasis`: its wire names (the text it is stored and displayed as), parsing and default.
use vstd::prelude::*;

use crate::text::ascii_lower;
use crate::text::str_eq;
use crate::text::to_lowercase;
use crate::text::unicode_lowercase;

verus! {

broadcast use vstd::string::group_string_axioms;

#[derive(Debug, Clone, Copy, PartialEq, Eq, Hash, Structural)]
pub enum TaxBasis {
    Output,
    Input,
    Withholding,
}

impl TaxBasis {
    /// The variant's wire name.
    pub open spec fn spec_name(self) -> Seq<char> {
        match self {
            TaxBasis::Output => seq!['o', 'u', 't', 'p', 'u', 't'],
            TaxBasis::Input => seq!['i', 'n', 'p', 'u', 't'],
            TaxBasis::Withholding => seq!['w', 'i', 't', 'h', 'h', 'o', 'l', 'd', 'i', 'n', 'g'],
        }
    }

    /// The variant a (lowercase) wire name names.
    pub open spec fn spec_from_name(s: Seq<char>) -> Option<TaxBasis> {
        if s == seq!['o', 'u', 't', 'p', 'u', 't'] {
            Some(TaxBasis::Output)
        } else if s == seq!['i', 'n', 'p', 'u', 't'] {
            Some(TaxBasis::Input)
        } else if s == seq!['w', 'i', 't', 'h', 'h', 'o', 'l', 'd', 'i', 'n', 'g'] {
            Some(TaxBasis::Withholding)
        } else {
            None
        }
    }

    /// The wire name (what `Display` writes).
    pub fn as_str(&self) -> (r: &'static str)
        ensures
            r@ == self.spec_name(),
    {
        match self {
            TaxBasis::Output => {
                proof {
                    reveal_strlit("output");
                    assert("output"@ =~= seq!['o', 'u', 't', 'p', 'u', 't']);
                }
                "output"
            },
            TaxBasis::Input => {
                proof {
                    reveal_strlit("input");
                    assert("input"@ =~= seq!['i', 'n', 'p', 'u', 't']);
                }
                "input"
            },
            TaxBasis::Withholding => {
                proof {
                    reveal_strlit("withholding");
                    assert("withholding"@ =~= seq!['w', 'i', 't', 'h', 'h', 'o', 'l', 'd', 'i', 'n', 'g']);
                }
                "withholding"
            },
        }
    }

    /// The wire name as an owned string.
    pub fn to_string(&self) -> (r: String)
        ensures
            r@ == self.spec_name(),
    {
        self.as_str().to_string()
    }

    /// Parse a wire name, case-insensitively (the text is lowercased first).
    pub fn parse(s: &str) -> (r: Result<TaxBasis, String>)
        ensures
            match Self::spec_from_name(unicode_lowercase(s@)) {
                Some(v) => r == Ok::<TaxBasis, String>(v),
                None => r matches Err(m) && m@ == "Unknown TaxBasis variant: "@ + s@,
            },
            vstd::utf8::is_ascii_chars(s@) ==> unicode_lowercase(s@) == ascii_lower(s@),
    {
        let lower = to_lowercase(s);
        if str_eq(lower.as_str(), "output") {
            proof {
                reveal_strlit("output");
                assert("output"@ =~= seq!['o', 'u', 't', 'p', 'u', 't']);
            }
            return Ok(TaxBasis::Output);
        }
        if str_eq(lower.as_str(), "input") {
            proof {
                reveal_strlit("input");
                assert("input"@ =~= seq!['i', 'n', 'p', 'u', 't']);
            }
            return Ok(TaxBasis::Input);
        }
        if str_eq(lower.as_str(), "withholding") {
            proof {
                reveal_strlit("withholding");
                assert("withholding"@ =~= seq!['w', 'i', 't', 'h', 'h', 'o', 'l', 'd', 'i', 'n', 'g']);
            }
            return Ok(TaxBasis::Withholding);
        }
        proof {
            reveal_strlit("output");
            assert("output"@ =~= seq!['o', 'u', 't', 'p', 'u', 't']);
        }
        proof {
            reveal_strlit("input");
            assert("input"@ =~= seq!['i', 'n', 'p', 'u', 't']);
        }
        proof {
            reveal_strlit("withholding");
            assert("withholding"@ =~= seq!['w', 'i', 't', 'h', 'h', 'o', 'l', 'd', 'i', 'n', 'g']);
        }
        Err("Unknown TaxBasis variant: ".to_string().concat(s))
    }

    /// Every wire name is lowercase ASCII and names its own variant, so parsing what a variant
    /// displays as gives the variant back.
    pub proof fn lemma_name_round_trip(v: TaxBasis)
        ensures
            vstd::utf8::is_ascii_chars(v.spec_name()),
            ascii_lower(v.spec_name()) == v.spec_name(),
            Self::spec_from_name(v.spec_name()) == Some(v),
    {
        match v {
            TaxBasis::Output => {
                assert(ascii_lower(seq!['o', 'u', 't', 'p', 'u', 't']) =~= seq!['o', 'u', 't', 'p', 'u', 't']);
            },
            TaxBasis::Input => {
                assert(ascii_lower(seq!['i', 'n', 'p', 'u', 't']) =~= seq!['i', 'n', 'p', 'u', 't']);
            },
            TaxBasis::Withholding => {
                assert(ascii_lower(seq!['w', 'i', 't', 'h', 'h', 'o', 'l', 'd', 'i', 'n', 'g']) =~= seq!['w', 'i', 't', 'h', 'h', 'o', 'l', 'd', 'i', 'n', 'g']);
            },
        }
    }
}

impl Default for TaxBasis {
    fn default() -> (r: Self)
        ensures
            r == TaxBasis::Output,
    {
        TaxBasis::Output
    }
}

impl std::str::FromStr for TaxBasis {
    type Err = String;

    fn from_str(s: &str) -> Result<Self, Self::Err> {
        Self::parse(s)
    }
}

} // verus!
