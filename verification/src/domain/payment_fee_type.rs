//! `PaymentFeeType`: its wire names (the text it is stored and displayed as), parsing and default.
use vstd::prelude::*;

use crate::text::ascii_lower;
use crate::text::str_eq;
use crate::text::to_lowercase;
use crate::text::unicode_lowercase;

verus! {

broadcast use vstd::string::group_string_axioms;

#[derive(Debug, Clone, Copy, PartialEq, Eq, Hash, Structural)]
pub enum PaymentFeeType {
    ServiceFee,
    GatewayFee,
    Tax,
}

impl PaymentFeeType {
    /// The variant's wire name.
    pub open spec fn spec_name(self) -> Seq<char> {
        match self {
            PaymentFeeType::ServiceFee => seq!['s', 'e', 'r', 'v', 'i', 'c', 'e', '_', 'f', 'e', 'e'],
            PaymentFeeType::GatewayFee => seq!['g', 'a', 't', 'e', 'w', 'a', 'y', '_', 'f', 'e', 'e'],
            PaymentFeeType::Tax => seq!['t', 'a', 'x'],
        }
    }

    /// The variant a (lowercase) wire name names.
    pub open spec fn spec_from_name(s: Seq<char>) -> Option<PaymentFeeType> {
        if s == seq!['s', 'e', 'r', 'v', 'i', 'c', 'e', '_', 'f', 'e', 'e'] {
            Some(PaymentFeeType::ServiceFee)
        } else if s == seq!['g', 'a', 't', 'e', 'w', 'a', 'y', '_', 'f', 'e', 'e'] {
            Some(PaymentFeeType::GatewayFee)
        } else if s == seq!['t', 'a', 'x'] {
            Some(PaymentFeeType::Tax)
        } else {
            None
        }
    }

    /// The wire name (what `Display` writes).
    pub fn as_str(&self) -> (r: &'static str)
        ensures
            r@ == self.spec_name(),
    {
        match self {
            PaymentFeeType::ServiceFee => {
                proof {
                    reveal_strlit("service_fee");
                    assert("service_fee"@ =~= seq!['s', 'e', 'r', 'v', 'i', 'c', 'e', '_', 'f', 'e', 'e']);
                }
                "service_fee"
            },
            PaymentFeeType::GatewayFee => {
                proof {
                    reveal_strlit("gateway_fee");
                    assert("gateway_fee"@ =~= seq!['g', 'a', 't', 'e', 'w', 'a', 'y', '_', 'f', 'e', 'e']);
                }
                "gateway_fee"
            },
            PaymentFeeType::Tax => {
                proof {
                    reveal_strlit("tax");
                    assert("tax"@ =~= seq!['t', 'a', 'x']);
                }
                "tax"
            },
        }
    }

    /// The wire name as an owned string.
    pub fn to_string(&self) -> (r: String)
        ensures
            r@ == self.spec_name(),
    {
        self.as_str().to_string()
    }

    /// Parse a wire name, case-insensitively (the text is lowercased first).
    pub fn parse(s: &str) -> (r: Result<PaymentFeeType, String>)
        ensures
            match Self::spec_from_name(unicode_lowercase(s@)) {
                Some(v) => r == Ok::<PaymentFeeType, String>(v),
                None => r matches Err(m) && m@ == "Unknown PaymentFeeType variant: "@ + s@,
            },
            vstd::utf8::is_ascii_chars(s@) ==> unicode_lowercase(s@) == ascii_lower(s@),
    {
        let lower = to_lowercase(s);
        if str_eq(lower.as_str(), "service_fee") {
            proof {
                reveal_strlit("service_fee");
                assert("service_fee"@ =~= seq!['s', 'e', 'r', 'v', 'i', 'c', 'e', '_', 'f', 'e', 'e']);
            }
            return Ok(PaymentFeeType::ServiceFee);
        }
        if str_eq(lower.as_str(), "gateway_fee") {
            proof {
                reveal_strlit("gateway_fee");
                assert("gateway_fee"@ =~= seq!['g', 'a', 't', 'e', 'w', 'a', 'y', '_', 'f', 'e', 'e']);
            }
            return Ok(PaymentFeeType::GatewayFee);
        }
        if str_eq(lower.as_str(), "tax") {
            proof {
                reveal_strlit("tax");
                assert("tax"@ =~= seq!['t', 'a', 'x']);
            }
            return Ok(PaymentFeeType::Tax);
        }
        proof {
            reveal_strlit("service_fee");
            assert("service_fee"@ =~= seq!['s', 'e', 'r', 'v', 'i', 'c', 'e', '_', 'f', 'e', 'e']);
        }
        proof {
            reveal_strlit("gateway_fee");
            assert("gateway_fee"@ =~= seq!['g', 'a', 't', 'e', 'w', 'a', 'y', '_', 'f', 'e', 'e']);
        }
        proof {
            reveal_strlit("tax");
            assert("tax"@ =~= seq!['t', 'a', 'x']);
        }
        Err("Unknown PaymentFeeType variant: ".to_string().concat(s))
    }

    /// Every wire name is lowercase ASCII and names its own variant, so parsing what a variant
    /// displays as gives the variant back.
    pub proof fn lemma_name_round_trip(v: PaymentFeeType)
        ensures
            vstd::utf8::is_ascii_chars(v.spec_name()),
            ascii_lower(v.spec_name()) == v.spec_name(),
            Self::spec_from_name(v.spec_name()) == Some(v),
    {
        match v {
            PaymentFeeType::ServiceFee => {
                assert(ascii_lower(seq!['s', 'e', 'r', 'v', 'i', 'c', 'e', '_', 'f', 'e', 'e']) =~= seq!['s', 'e', 'r', 'v', 'i', 'c', 'e', '_', 'f', 'e', 'e']);
            },
            PaymentFeeType::GatewayFee => {
                assert(ascii_lower(seq!['g', 'a', 't', 'e', 'w', 'a', 'y', '_', 'f', 'e', 'e']) =~= seq!['g', 'a', 't', 'e', 'w', 'a', 'y', '_', 'f', 'e', 'e']);
            },
            PaymentFeeType::Tax => {
                assert(ascii_lower(seq!['t', 'a', 'x']) =~= seq!['t', 'a', 'x']);
            },
        }
    }
}

impl Default for PaymentFeeType {
    fn default() -> (r: Self)
        ensures
            r == PaymentFeeType::ServiceFee,
    {
        PaymentFeeType::ServiceFee
    }
}

impl std::str::FromStr for PaymentFeeType {
    type Err = String;

    fn from_str(s: &str) -> Result<Self, Self::Err> {
        Self::parse(s)
    }
}

} // verus!
