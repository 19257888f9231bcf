//! `PaymentTermLineValue`: its wire names (the text it is stored and displayed as), parsing and default.
use vstd::prelude::*;

use crate::text::ascii_lower;
use crate::text::str_eq;
use crate::text::to_lowercase;
use crate::text::unicode_lowercase;

verus! {

broadcast use vstd::string::group_string_axioms;

#[derive(Debug, Clone, Copy, PartialEq, Eq, Hash, Structural)]
pub enum PaymentTermLineValue {
    Balance,
    Percent,
    Fixed,
}

impl PaymentTermLineValue {
    /// The variant's wire name.
    pub open spec fn spec_name(self) -> Seq<char> {
        match self {
            PaymentTermLineValue::Balance => seq!['b', 'a', 'l', 'a', 'n', 'c', 'e'],
            PaymentTermLineValue::Percent => seq!['p', 'e', 'r', 'c', 'e', 'n', 't'],
            PaymentTermLineValue::Fixed => seq!['f', 'i', 'x', 'e', 'd'],
        }
    }

    /// The variant a (lowercase) wire name names.
    pub open spec fn spec_from_name(s: Seq<char>) -> Option<PaymentTermLineValue> {
        if s == seq!['b', 'a', 'l', 'a', 'n', 'c', 'e'] {
            Some(PaymentTermLineValue::Balance)
        } else if s == seq!['p', 'e', 'r', 'c', 'e', 'n', 't'] {
            Some(PaymentTermLineValue::Percent)
        } else if s == seq!['f', 'i', 'x', 'e', 'd'] {
            Some(PaymentTermLineValue::Fixed)
        } else {
            None
        }
    }

    /// The wire name (what `Display` writes).
    pub fn as_str(&self) -> (r: &'static str)
        ensures
            r@ == self.spec_name(),
    {
        match self {
            PaymentTermLineValue::Balance => {
                proof {
                    reveal_strlit("balance");
                    assert("balance"@ =~= seq!['b', 'a', 'l', 'a', 'n', 'c', 'e']);
                }
                "balance"
            },
            PaymentTermLineValue::Percent => {
                proof {
                    reveal_strlit("percent");
                    assert("percent"@ =~= seq!['p', 'e', 'r', 'c', 'e', 'n', 't']);
                }
                "percent"
            },
            PaymentTermLineValue::Fixed => {
                proof {
                    reveal_strlit("fixed");
                    assert("fixed"@ =~= seq!['f', 'i', 'x', 'e', 'd']);
                }
                "fixed"
            },
        }
    }

    /// The wire name as an owned string.
    pub fn to_string(&self) -> (r: String)
        ensures
            r@ == self.spec_name(),
    {
        self.as_str().to_string()
    }

    /// Parse a wire name, case-insensitively (the text is lowercased first).
    pub fn parse(s: &str) -> (r: Result<PaymentTermLineValue, String>)
        ensures
            match Self::spec_from_name(unicode_lowercase(s@)) {
                Some(v) => r == Ok::<PaymentTermLineValue, String>(v),
                None => r matches Err(m) && m@ == "Unknown PaymentTermLineValue variant: "@ + s@,
            },
            vstd::utf8::is_ascii_chars(s@) ==> unicode_lowercase(s@) == ascii_lower(s@),
    {
        let lower = to_lowercase(s);
        if str_eq(lower.as_str(), "balance") {
            proof {
                reveal_strlit("balance");
                assert("balance"@ =~= seq!['b', 'a', 'l', 'a', 'n', 'c', 'e']);
            }
            return Ok(PaymentTermLineValue::Balance);
        }
        if str_eq(lower.as_str(), "percent") {
            proof {
                reveal_strlit("percent");
                assert("percent"@ =~= seq!['p', 'e', 'r', 'c', 'e', 'n', 't']);
            }
            return Ok(PaymentTermLineValue::Percent);
        }
        if str_eq(lower.as_str(), "fixed") {
            proof {
                reveal_strlit("fixed");
                assert("fixed"@ =~= seq!['f', 'i', 'x', 'e', 'd']);
            }
            return Ok(PaymentTermLineValue::Fixed);
        }
        proof {
            reveal_strlit("balance");
            assert("balance"@ =~= seq!['b', 'a', 'l', 'a', 'n', 'c', 'e']);
        }
        proof {
            reveal_strlit("percent");
            assert("percent"@ =~= seq!['p', 'e', 'r', 'c', 'e', 'n', 't']);
        }
        proof {
            reveal_strlit("fixed");
            assert("fixed"@ =~= seq!['f', 'i', 'x', 'e', 'd']);
        }
        Err("Unknown PaymentTermLineValue variant: ".to_string().concat(s))
    }

    /// Every wire name is lowercase ASCII and names its own variant, so parsing what a variant
    /// displays as gives the variant back.
    pub proof fn lemma_name_round_trip(v: PaymentTermLineValue)
        ensures
            vstd::utf8::is_ascii_chars(v.spec_name()),
            ascii_lower(v.spec_name()) == v.spec_name(),
            Self::spec_from_name(v.spec_name()) == Some(v),
    {
        match v {
            PaymentTermLineValue::Balance => {
                assert(ascii_lower(seq!['b', 'a', 'l', 'a', 'n', 'c', 'e']) =~= seq!['b', 'a', 'l', 'a', 'n', 'c', 'e']);
            },
            PaymentTermLineValue::Percent => {
                assert(ascii_lower(seq!['p', 'e', 'r', 'c', 'e', 'n', 't']) =~= seq!['p', 'e', 'r', 'c', 'e', 'n', 't']);
            },
            PaymentTermLineValue::Fixed => {
                assert(ascii_lower(seq!['f', 'i', 'x', 'e', 'd']) =~= seq!['f', 'i', 'x', 'e', 'd']);
            },
        }
    }
}

impl Default for PaymentTermLineValue {
    fn default() -> (r: Self)
        ensures
            r == PaymentTermLineValue::Balance,
    {
        PaymentTermLineValue::Balance
    }
}

impl std::str::FromStr for PaymentTermLineValue {
    type Err = String;

    fn from_str(s: &str) -> Result<Self, Self::Err> {
        Self::parse(s)
    }
}

} // verus!
