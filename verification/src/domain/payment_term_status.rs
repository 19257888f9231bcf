//! `PaymentTermStatus`: whether a payment term can be assigned (`active`) or is retired
//! (`inactive`); its wire names (the text it is stored and displayed as), parsing and default.
use vstd::prelude::*;

use crate::text::ascii_lower;
use crate::text::str_eq;
use crate::text::to_lowercase;
use crate::text::unicode_lowercase;

verus! {

broadcast use vstd::string::group_string_axioms;

#[derive(Debug, Clone, Copy, PartialEq, Eq, Hash, Structural)]
pub enum PaymentTermStatus {
    Active,
    Inactive,
}

impl PaymentTermStatus {
    /// The variant's wire name.
    pub open spec fn spec_name(self) -> Seq<char> {
        match self {
            PaymentTermStatus::Active => seq!['a', 'c', 't', 'i', 'v', 'e'],
            PaymentTermStatus::Inactive => seq!['i', 'n', 'a', 'c', 't', 'i', 'v', 'e'],
        }
    }

    /// The variant a (lowercase) wire name names.
    pub open spec fn spec_from_name(s: Seq<char>) -> Option<PaymentTermStatus> {
        if s == seq!['a', 'c', 't', 'i', 'v', 'e'] {
            Some(PaymentTermStatus::Active)
        } else if s == seq!['i', 'n', 'a', 'c', 't', 'i', 'v', 'e'] {
            Some(PaymentTermStatus::Inactive)
        } else {
            None
        }
    }

    /// The wire name (what `Display` writes).
    pub fn as_str(&self) -> (r: &'static str)
        ensures
            r@ == self.spec_name(),
    {
        match self {
            PaymentTermStatus::Active => {
                proof {
                    reveal_strlit("active");
                    assert("active"@ =~= seq!['a', 'c', 't', 'i', 'v', 'e']);
                }
                "active"
            },
            PaymentTermStatus::Inactive => {
                proof {
                    reveal_strlit("inactive");
                    assert("inactive"@ =~= seq!['i', 'n', 'a', 'c', 't', 'i', 'v', 'e']);
                }
                "inactive"
            },
        }
    }

    /// The wire name as an owned string.
    pub fn to_string(&self) -> (r: String)
        ensures
            r@ == self.spec_name(),
    {
        self.as_str().to_string()
    }

    /// Parse a wire name, case-insensitively (the text is lowercased first).
    pub fn parse(s: &str) -> (r: Result<PaymentTermStatus, String>)
        ensures
            match Self::spec_from_name(unicode_lowercase(s@)) {
                Some(v) => r == Ok::<PaymentTermStatus, String>(v),
                None => r matches Err(m) && m@ == "Unknown PaymentTermStatus variant: "@ + s@,
            },
            vstd::utf8::is_ascii_chars(s@) ==> unicode_lowercase(s@) == ascii_lower(s@),
    {
        let lower = to_lowercase(s);
        if str_eq(lower.as_str(), "active") {
            proof {
                reveal_strlit("active");
                assert("active"@ =~= seq!['a', 'c', 't', 'i', 'v', 'e']);
            }
            return Ok(PaymentTermStatus::Active);
        }
        if str_eq(lower.as_str(), "inactive") {
            proof {
                reveal_strlit("inactive");
                assert("inactive"@ =~= seq!['i', 'n', 'a', 'c', 't', 'i', 'v', 'e']);
            }
            return Ok(PaymentTermStatus::Inactive);
        }
        proof {
            reveal_strlit("active");
            assert("active"@ =~= seq!['a', 'c', 't', 'i', 'v', 'e']);
        }
        proof {
            reveal_strlit("inactive");
            assert("inactive"@ =~= seq!['i', 'n', 'a', 'c', 't', 'i', 'v', 'e']);
        }
        Err("Unknown PaymentTermStatus variant: ".to_string().concat(s))
    }

    /// Every wire name is lowercase ASCII and names its own variant, so parsing what a variant
    /// displays as gives the variant back.
    pub proof fn lemma_name_round_trip(v: PaymentTermStatus)
        ensures
            vstd::utf8::is_ascii_chars(v.spec_name()),
            ascii_lower(v.spec_name()) == v.spec_name(),
            Self::spec_from_name(v.spec_name()) == Some(v),
    {
        match v {
            PaymentTermStatus::Active => {
                assert(ascii_lower(seq!['a', 'c', 't', 'i', 'v', 'e']) =~= seq!['a', 'c', 't', 'i', 'v', 'e']);
            },
            PaymentTermStatus::Inactive => {
                assert(ascii_lower(seq!['i', 'n', 'a', 'c', 't', 'i', 'v', 'e']) =~= seq!['i', 'n', 'a', 'c', 't', 'i', 'v', 'e']);
            },
        }
    }
}

impl Default for PaymentTermStatus {
    fn default() -> (r: Self)
        ensures
            r == PaymentTermStatus::Active,
    {
        PaymentTermStatus::Active
    }
}

impl std::str::FromStr for PaymentTermStatus {
    type Err = String;

    fn from_str(s: &str) -> Result<Self, Self::Err> {
        Self::parse(s)
    }
}

} // verus!
