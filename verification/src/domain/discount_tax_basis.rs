//! `DiscountTaxBasis`: its wire names (the text it is stored and displayed as), parsing and default.
use vstd::prelude::*;

use crate::text::ascii_lower;
use crate::text::str_eq;
use crate::text::to_lowercase;
use crate::text::unicode_lowercase;

verus! {

broadcast use vstd::string::group_string_axioms;

#[derive(Debug, Clone, Copy, PartialEq, Eq, Hash, Structural)]
pub enum DiscountTaxBasis {
    Included,
    ReducedPrice,
}

impl DiscountTaxBasis {
    /// The variant's wire name.
    pub open spec fn spec_name(self) -> Seq<char> {
        match self {
            DiscountTaxBasis::Included => seq!['i', 'n', 'c', 'l', 'u', 'd', 'e', 'd'],
            DiscountTaxBasis::ReducedPrice => seq!['r', 'e', 'd', 'u', 'c', 'e', 'd', '_', 'p', 'r', 'i', 'c', 'e'],
        }
    }

    /// The variant a (lowercase) wire name names.
    pub open spec fn spec_from_name(s: Seq<char>) -> Option<DiscountTaxBasis> {
        if s == seq!['i', 'n', 'c', 'l', 'u', 'd', 'e', 'd'] {
            Some(DiscountTaxBasis::Included)
        } else if s == seq!['r', 'e', 'd', 'u', 'c', 'e', 'd', '_', 'p', 'r', 'i', 'c', 'e'] {
            Some(DiscountTaxBasis::ReducedPrice)
        } else {
            None
        }
    }

    /// The wire name (what `Display` writes).
    pub fn as_str(&self) -> (r: &'static str)
        ensures
            r@ == self.spec_name(),
    {
        match self {
            DiscountTaxBasis::Included => {
                proof {
                    reveal_strlit("included");
                    assert("included"@ =~= seq!['i', 'n', 'c', 'l', 'u', 'd', 'e', 'd']);
                }
                "included"
            },
            DiscountTaxBasis::ReducedPrice => {
                proof {
                    reveal_strlit("reduced_price");
                    assert("reduced_price"@ =~= seq!['r', 'e', 'd', 'u', 'c', 'e', 'd', '_', 'p', 'r', 'i', 'c', 'e']);
                }
                "reduced_price"
            },
        }
    }

    /// The wire name as an owned string.
    pub fn to_string(&self) -> (r: String)
        ensures
            r@ == self.spec_name(),
    {
        self.as_str().to_string()
    }

    /// Parse a wire name, case-insensitively (the text is lowercased first).
    pub fn parse(s: &str) -> (r: Result<DiscountTaxBasis, String>)
        ensures
            match Self::spec_from_name(unicode_lowercase(s@)) {
                Some(v) => r == Ok::<DiscountTaxBasis, String>(v),
                None => r matches Err(m) && m@ == "Unknown DiscountTaxBasis variant: "@ + s@,
            },
            vstd::utf8::is_ascii_chars(s@) ==> unicode_lowercase(s@) == ascii_lower(s@),
    {
        let lower = to_lowercase(s);
        if str_eq(lower.as_str(), "included") {
            proof {
                reveal_strlit("included");
                assert("included"@ =~= seq!['i', 'n', 'c', 'l', 'u', 'd', 'e', 'd']);
            }
            return Ok(DiscountTaxBasis::Included);
        }
        if str_eq(lower.as_str(), "reduced_price") {
            proof {
                reveal_strlit("reduced_price");
                assert("reduced_price"@ =~= seq!['r', 'e', 'd', 'u', 'c', 'e', 'd', '_', 'p', 'r', 'i', 'c', 'e']);
            }
            return Ok(DiscountTaxBasis::ReducedPrice);
        }
        proof {
            reveal_strlit("included");
            assert("included"@ =~= seq!['i', 'n', 'c', 'l', 'u', 'd', 'e', 'd']);
        }
        proof {
            reveal_strlit("reduced_price");
            assert("reduced_price"@ =~= seq!['r', 'e', 'd', 'u', 'c', 'e', 'd', '_', 'p', 'r', 'i', 'c', 'e']);
        }
        Err("Unknown DiscountTaxBasis variant: ".to_string().concat(s))
    }

    /// Every wire name is lowercase ASCII and names its own variant, so parsing what a variant
    /// displays as gives the variant back.
    pub proof fn lemma_name_round_trip(v: DiscountTaxBasis)
        ensures
            vstd::utf8::is_ascii_chars(v.spec_name()),
            ascii_lower(v.spec_name()) == v.spec_name(),
            Self::spec_from_name(v.spec_name()) == Some(v),
    {
        match v {
            DiscountTaxBasis::Included => {
                assert(ascii_lower(seq!['i', 'n', 'c', 'l', 'u', 'd', 'e', 'd']) =~= seq!['i', 'n', 'c', 'l', 'u', 'd', 'e', 'd']);
            },
            DiscountTaxBasis::ReducedPrice => {
                assert(ascii_lower(seq!['r', 'e', 'd', 'u', 'c', 'e', 'd', '_', 'p', 'r', 'i', 'c', 'e']) =~= seq!['r', 'e', 'd', 'u', 'c', 'e', 'd', '_', 'p', 'r', 'i', 'c', 'e']);
            },
        }
    }
}

impl Default for DiscountTaxBasis {
    fn default() -> (r: Self)
        ensures
            r == DiscountTaxBasis::Included,
    {
        DiscountTaxBasis::Included
    }
}

impl std::str::FromStr for DiscountTaxBasis {
    type Err = String;

    fn from_str(s: &str) -> Result<Self, Self::Err> {
        Self::parse(s)
    }
}

} // verus!
