//! `EarningType`: its wire names (the text it is stored and displayed as), parsing and default.
use vstd::prelude::*;

use crate::text::ascii_lower;
use crate::text::str_eq;
use crate::text::to_lowercase;
use crate::text::unicode_lowercase;

verus! {

broadcast use vstd::string::group_string_axioms;

#[derive(Debug, Clone, Copy, PartialEq, Eq, Hash, Structural)]
pub enum EarningType {
    Pickup,
    Delivery,
    PickupDelivery,
    Bonus,
    Tip,
    Incentive,
    Adjustment,
    Referral,
}

impl EarningType {
    /// The variant's wire name.
    pub open spec fn spec_name(self) -> Seq<char> {
        match self {
            EarningType::Pickup => seq!['p', 'i', 'c', 'k', 'u', 'p'],
            EarningType::Delivery => seq!['d', 'e', 'l', 'i', 'v', 'e', 'r', 'y'],
            EarningType::PickupDelivery => seq!['p', 'i', 'c', 'k', 'u', 'p', '_', 'd', 'e', 'l', 'i', 'v', 'e', 'r', 'y'],
            EarningType::Bonus => seq!['b', 'o', 'n', 'u', 's'],
            EarningType::Tip => seq!['t', 'i', 'p'],
            EarningType::Incentive => seq!['i', 'n', 'c', 'e', 'n', 't', 'i', 'v', 'e'],
            EarningType::Adjustment => seq!['a', 'd', 'j', 'u', 's', 't', 'm', 'e', 'n', 't'],
            EarningType::Referral => seq!['r', 'e', 'f', 'e', 'r', 'r', 'a', 'l'],
        }
    }

    /// The variant a (lowercase) wire name names.
    pub open spec fn spec_from_name(s: Seq<char>) -> Option<EarningType> {
        if s == seq!['p', 'i', 'c', 'k', 'u', 'p'] {
            Some(EarningType::Pickup)
        } else if s == seq!['d', 'e', 'l', 'i', 'v', 'e', 'r', 'y'] {
            Some(EarningType::Delivery)
        } else if s == seq!['p', 'i', 'c', 'k', 'u', 'p', '_', 'd', 'e', 'l', 'i', 'v', 'e', 'r', 'y'] {
            Some(EarningType::PickupDelivery)
        } else if s == seq!['b', 'o', 'n', 'u', 's'] {
            Some(EarningType::Bonus)
        } else if s == seq!['t', 'i', 'p'] {
            Some(EarningType::Tip)
        } else if s == seq!['i', 'n', 'c', 'e', 'n', 't', 'i', 'v', 'e'] {
            Some(EarningType::Incentive)
        } else if s == seq!['a', 'd', 'j', 'u', 's', 't', 'm', 'e', 'n', 't'] {
            Some(EarningType::Adjustment)
        } else if s == seq!['r', 'e', 'f', 'e', 'r', 'r', 'a', 'l'] {
            Some(EarningType::Referral)
        } else {
            None
        }
    }

    /// The wire name (what `Display` writes).
    pub fn as_str(&self) -> (r: &'static str)
        ensures
            r@ == self.spec_name(),
    {
        match self {
            EarningType::Pickup => {
                proof {
                    reveal_strlit("pickup");
                    assert("pickup"@ =~= seq!['p', 'i', 'c', 'k', 'u', 'p']);
                }
                "pickup"
            },
            EarningType::Delivery => {
                proof {
                    reveal_strlit("delivery");
                    assert("delivery"@ =~= seq!['d', 'e', 'l', 'i', 'v', 'e', 'r', 'y']);
                }
                "delivery"
            },
            EarningType::PickupDelivery => {
                proof {
                    reveal_strlit("pickup_delivery");
                    assert("pickup_delivery"@ =~= seq!['p', 'i', 'c', 'k', 'u', 'p', '_', 'd', 'e', 'l', 'i', 'v', 'e', 'r', 'y']);
                }
                "pickup_delivery"
            },
            EarningType::Bonus => {
                proof {
                    reveal_strlit("bonus");
                    assert("bonus"@ =~= seq!['b', 'o', 'n', 'u', 's']);
                }
                "bonus"
            },
            EarningType::Tip => {
                proof {
                    reveal_strlit("tip");
                    assert("tip"@ =~= seq!['t', 'i', 'p']);
                }
                "tip"
            },
            EarningType::Incentive => {
                proof {
                    reveal_strlit("incentive");
                    assert("incentive"@ =~= seq!['i', 'n', 'c', 'e', 'n', 't', 'i', 'v', 'e']);
                }
                "incentive"
            },
            EarningType::Adjustment => {
                proof {
                    reveal_strlit("adjustment");
                    assert("adjustment"@ =~= seq!['a', 'd', 'j', 'u', 's', 't', 'm', 'e', 'n', 't']);
                }
                "adjustment"
            },
            EarningType::Referral => {
                proof {
                    reveal_strlit("referral");
                    assert("referral"@ =~= seq!['r', 'e', 'f', 'e', 'r', 'r', 'a', 'l']);
                }
                "referral"
            },
        }
    }

    /// The wire name as an owned string.
    pub fn to_string(&self) -> (r: String)
        ensures
            r@ == self.spec_name(),
    {
        self.as_str().to_string()
    }

    /// Parse a wire name, case-insensitively (the text is lowercased first).
    pub fn parse(s: &str) -> (r: Result<EarningType, String>)
        ensures
            match Self::spec_from_name(unicode_lowercase(s@)) {
                Some(v) => r == Ok::<EarningType, String>(v),
                None => r matches Err(m) && m@ == "Unknown EarningType variant: "@ + s@,
            },
            vstd::utf8::is_ascii_chars(s@) ==> unicode_lowercase(s@) == ascii_lower(s@),
    {
        let lower = to_lowercase(s);
        if str_eq(lower.as_str(), "pickup") {
            proof {
                reveal_strlit("pickup");
                assert("pickup"@ =~= seq!['p', 'i', 'c', 'k', 'u', 'p']);
            }
            return Ok(EarningType::Pickup);
        }
        if str_eq(lower.as_str(), "delivery") {
            proof {
                reveal_strlit("delivery");
                assert("delivery"@ =~= seq!['d', 'e', 'l', 'i', 'v', 'e', 'r', 'y']);
            }
            return Ok(EarningType::Delivery);
        }
        if str_eq(lower.as_str(), "pickup_delivery") {
            proof {
                reveal_strlit("pickup_delivery");
                assert("pickup_delivery"@ =~= seq!['p', 'i', 'c', 'k', 'u', 'p', '_', 'd', 'e', 'l', 'i', 'v', 'e', 'r', 'y']);
            }
            return Ok(EarningType::PickupDelivery);
        }
        if str_eq(lower.as_str(), "bonus") {
            proof {
                reveal_strlit("bonus");
                assert("bonus"@ =~= seq!['b', 'o', 'n', 'u', 's']);
            }
            return Ok(EarningType::Bonus);
        }
        if str_eq(lower.as_str(), "tip") {
            proof {
                reveal_strlit("tip");
                assert("tip"@ =~= seq!['t', 'i', 'p']);
            }
            return Ok(EarningType::Tip);
        }
        if str_eq(lower.as_str(), "incentive") {
            proof {
                reveal_strlit("incentive");
                assert("incentive"@ =~= seq!['i', 'n', 'c', 'e', 'n', 't', 'i', 'v', 'e']);
            }
            return Ok(EarningType::Incentive);
        }
        if str_eq(lower.as_str(), "adjustment") {
            proof {
                reveal_strlit("adjustment");
                assert("adjustment"@ =~= seq!['a', 'd', 'j', 'u', 's', 't', 'm', 'e', 'n', 't']);
            }
            return Ok(EarningType::Adjustment);
        }
        if str_eq(lower.as_str(), "referral") {
            proof {
                reveal_strlit("referral");
                assert("referral"@ =~= seq!['r', 'e', 'f', 'e', 'r', 'r', 'a', 'l']);
            }
            return Ok(EarningType::Referral);
        }
        proof {
            reveal_strlit("pickup");
            assert("pickup"@ =~= seq!['p', 'i', 'c', 'k', 'u', 'p']);
        }
        proof {
            reveal_strlit("delivery");
            assert("delivery"@ =~= seq!['d', 'e', 'l', 'i', 'v', 'e', 'r', 'y']);
        }
        proof {
            reveal_strlit("pickup_delivery");
            assert("pickup_delivery"@ =~= seq!['p', 'i', 'c', 'k', 'u', 'p', '_', 'd', 'e', 'l', 'i', 'v', 'e', 'r', 'y']);
        }
        proof {
            reveal_strlit("bonus");
            assert("bonus"@ =~= seq!['b', 'o', 'n', 'u', 's']);
        }
        proof {
            reveal_strlit("tip");
            assert("tip"@ =~= seq!['t', 'i', 'p']);
        }
        proof {
            reveal_strlit("incentive");
            assert("incentive"@ =~= seq!['i', 'n', 'c', 'e', 'n', 't', 'i', 'v', 'e']);
        }
        proof {
            reveal_strlit("adjustment");
            assert("adjustment"@ =~= seq!['a', 'd', 'j', 'u', 's', 't', 'm', 'e', 'n', 't']);
        }
        proof {
            reveal_strlit("referral");
            assert("referral"@ =~= seq!['r', 'e', 'f', 'e', 'r', 'r', 'a', 'l']);
        }
        Err("Unknown EarningType variant: ".to_string().concat(s))
    }

    /// Every wire name is lowercase ASCII and names its own variant, so parsing what a variant
    /// displays as gives the variant back.
    pub proof fn lemma_name_round_trip(v: EarningType)
        ensures
            vstd::utf8::is_ascii_chars(v.spec_name()),
            ascii_lower(v.spec_name()) == v.spec_name(),
            Self::spec_from_name(v.spec_name()) == Some(v),
    {
        match v {
            EarningType::Pickup => {
                assert(ascii_lower(seq!['p', 'i', 'c', 'k', 'u', 'p']) =~= seq!['p', 'i', 'c', 'k', 'u', 'p']);
            },
            EarningType::Delivery => {
                assert(ascii_lower(seq!['d', 'e', 'l', 'i', 'v', 'e', 'r', 'y']) =~= seq!['d', 'e', 'l', 'i', 'v', 'e', 'r', 'y']);
            },
            EarningType::PickupDelivery => {
                assert(ascii_lower(seq!['p', 'i', 'c', 'k', 'u', 'p', '_', 'd', 'e', 'l', 'i', 'v', 'e', 'r', 'y']) =~= seq!['p', 'i', 'c', 'k', 'u', 'p', '_', 'd', 'e', 'l', 'i', 'v', 'e', 'r', 'y']);
            },
            EarningType::Bonus => {
                assert(ascii_lower(seq!['b', 'o', 'n', 'u', 's']) =~= seq!['b', 'o', 'n', 'u', 's']);
            },
            EarningType::Tip => {
                assert(ascii_lower(seq!['t', 'i', 'p']) =~= seq!['t', 'i', 'p']);
            },
            EarningType::Incentive => {
                assert(ascii_lower(seq!['i', 'n', 'c', 'e', 'n', 't', 'i', 'v', 'e']) =~= seq!['i', 'n', 'c', 'e', 'n', 't', 'i', 'v', 'e']);
            },
            EarningType::Adjustment => {
                assert(ascii_lower(seq!['a', 'd', 'j', 'u', 's', 't', 'm', 'e', 'n', 't']) =~= seq!['a', 'd', 'j', 'u', 's', 't', 'm', 'e', 'n', 't']);
            },
            EarningType::Referral => {
                assert(ascii_lower(seq!['r', 'e', 'f', 'e', 'r', 'r', 'a', 'l']) =~= seq!['r', 'e', 'f', 'e', 'r', 'r', 'a', 'l']);
            },
        }
    }
}

impl Default for EarningType {
    fn default() -> (r: Self)
        ensures
            r == EarningType::PickupDelivery,
    {
        EarningType::PickupDelivery
    }
}

impl std::str::FromStr for EarningType {
    type Err = String;

    fn from_str(s: &str) -> Result<Self, Self::Err> {
        Self::parse(s)
    }
}

} // verus!
