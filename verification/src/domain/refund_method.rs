//! `RefundMethod`: its wire names (the text it is stored and displayed as), parsing and default.
use vstd::prelude::*;

use crate::text::ascii_lower;
use crate::text::str_eq;
use crate::text::to_lowercase;
use crate::text::unicode_lowercase;

verus! {

broadcast use vstd::string::group_string_axioms;

#[derive(Debug, Clone, Copy, PartialEq, Eq, Hash, Structural)]
pub enum RefundMethod {
    Original,
    BankTransfer,
    Ewallet,
}

impl RefundMethod {
    /// The variant's wire name.
    pub open spec fn spec_name(self) -> Seq<char> {
        match self {
            RefundMethod::Original => seq!['o', 'r', 'i', 'g', 'i', 'n', 'a', 'l'],
            RefundMethod::BankTransfer => seq!['b', 'a', 'n', 'k', '_', 't', 'r', 'a', 'n', 's', 'f', 'e', 'r'],
            RefundMethod::Ewallet => seq!['e', 'w', 'a', 'l', 'l', 'e', 't'],
        }
    }

    /// The variant a (lowercase) wire name names.
    pub open spec fn spec_from_name(s: Seq<char>) -> Option<RefundMethod> {
        if s == seq!['o', 'r', 'i', 'g', 'i', 'n', 'a', 'l'] {
            Some(RefundMethod::Original)
        } else if s == seq!['b', 'a', 'n', 'k', '_', 't', 'r', 'a', 'n', 's', 'f', 'e', 'r'] {
            Some(RefundMethod::BankTransfer)
        } else if s == seq!['e', 'w', 'a', 'l', 'l', 'e', 't'] {
            Some(RefundMethod::Ewallet)
        } else {
            None
        }
    }

    /// The wire name (what `Display` writes).
    pub fn as_str(&self) -> (r: &'static str)
        ensures
            r@ == self.spec_name(),
    {
        match self {
            RefundMethod::Original => {
                proof {
                    reveal_strlit("original");
                    assert("original"@ =~= seq!['o', 'r', 'i', 'g', 'i', 'n', 'a', 'l']);
                }
                "original"
            },
            RefundMethod::BankTransfer => {
                proof {
                    reveal_strlit("bank_transfer");
                    assert("bank_transfer"@ =~= seq!['b', 'a', 'n', 'k', '_', 't', 'r', 'a', 'n', 's', 'f', 'e', 'r']);
                }
                "bank_transfer"
            },
            RefundMethod::Ewallet => {
                proof {
                    reveal_strlit("ewallet");
                    assert("ewallet"@ =~= seq!['e', 'w', 'a', 'l', 'l', 'e', 't']);
                }
                "ewallet"
            },
        }
    }

    /// The wire name as an owned string.
    pub fn to_string(&self) -> (r: String)
        ensures
            r@ == self.spec_name(),
    {
        self.as_str().to_string()
    }

    /// Parse a wire name, case-insensitively (the text is lowercased first).
    pub fn parse(s: &str) -> (r: Result<RefundMethod, String>)
        ensures
            match Self::spec_from_name(unicode_lowercase(s@)) {
                Some(v) => r == Ok::<RefundMethod, String>(v),
                None => r matches Err(m) && m@ == "Unknown RefundMethod variant: "@ + s@,
            },
            vstd::utf8::is_ascii_chars(s@) ==> unicode_lowercase(s@) == ascii_lower(s@),
    {
        let lower = to_lowercase(s);
        if str_eq(lower.as_str(), "original") {
            proof {
                reveal_strlit("original");
                assert("original"@ =~= seq!['o', 'r', 'i', 'g', 'i', 'n', 'a', 'l']);
            }
            return Ok(RefundMethod::Original);
        }
        if str_eq(lower.as_str(), "bank_transfer") {
            proof {
                reveal_strlit("bank_transfer");
                assert("bank_transfer"@ =~= seq!['b', 'a', 'n', 'k', '_', 't', 'r', 'a', 'n', 's', 'f', 'e', 'r']);
            }
            return Ok(RefundMethod::BankTransfer);
        }
        if str_eq(lower.as_str(), "ewallet") {
            proof {
                reveal_strlit("ewallet");
                assert("ewallet"@ =~= seq!['e', 'w', 'a', 'l', 'l', 'e', 't']);
            }
            return Ok(RefundMethod::Ewallet);
        }
        proof {
            reveal_strlit("original");
            assert("original"@ =~= seq!['o', 'r', 'i', 'g', 'i', 'n', 'a', 'l']);
        }
        proof {
            reveal_strlit("bank_transfer");
            assert("bank_transfer"@ =~= seq!['b', 'a', 'n', 'k', '_', 't', 'r', 'a', 'n', 's', 'f', 'e', 'r']);
        }
        proof {
            reveal_strlit("ewallet");
            assert("ewallet"@ =~= seq!['e', 'w', 'a', 'l', 'l', 'e', 't']);
        }
        Err("Unknown RefundMethod variant: ".to_string().concat(s))
    }

    /// Every wire name is lowercase ASCII and names its own variant, so parsing what a variant
    /// displays as gives the variant back.
    pub proof fn lemma_name_round_trip(v: RefundMethod)
        ensures
            vstd::utf8::is_ascii_chars(v.spec_name()),
            ascii_lower(v.spec_name()) == v.spec_name(),
            Self::spec_from_name(v.spec_name()) == Some(v),
    {
        match v {
            RefundMethod::Original => {
                assert(ascii_lower(seq!['o', 'r', 'i', 'g', 'i', 'n', 'a', 'l']) =~= seq!['o', 'r', 'i', 'g', 'i', 'n', 'a', 'l']);
            },
            RefundMethod::BankTransfer => {
                assert(ascii_lower(seq!['b', 'a', 'n', 'k', '_', 't', 'r', 'a', 'n', 's', 'f', 'e', 'r']) =~= seq!['b', 'a', 'n', 'k', '_', 't', 'r', 'a', 'n', 's', 'f', 'e', 'r']);
            },
            RefundMethod::Ewallet => {
                assert(ascii_lower(seq!['e', 'w', 'a', 'l', 'l', 'e', 't']) =~= seq!['e', 'w', 'a', 'l', 'l', 'e', 't']);
            },
        }
    }
}

impl Default for RefundMethod {
    fn default() -> (r: Self)
        ensures
            r == RefundMethod::Original,
    {
        RefundMethod::Original
    }
}

impl std::str::FromStr for RefundMethod {
    type Err = String;

    fn from_str(s: &str) -> Result<Self, Self::Err> {
        Self::parse(s)
    }
}

} // verus!
