//! `PaymentTermDelayType`: its wire names (the text it is stored and displayed as), parsing and default.
use vstd::prelude::*;

use crate::text::ascii_lower;
use crate::text::str_eq;
use crate::text::to_lowercase;
use crate::text::unicode_lowercase;

verus! {

broadcast use vstd::string::group_string_axioms;

#[derive(Debug, Clone, Copy, PartialEq, Eq, Hash, Structural)]
pub enum PaymentTermDelayType {
    Days,
    DayFollowingMonth,
    DayCurrentMonth,
}

impl PaymentTermDelayType {
    /// The variant's wire name.
    pub open spec fn spec_name(self) -> Seq<char> {
        match self {
            PaymentTermDelayType::Days => seq!['d', 'a', 'y', 's'],
            PaymentTermDelayType::DayFollowingMonth => seq!['d', 'a', 'y', '_', 'f', 'o', 'l', 'l', 'o', 'w', 'i', 'n', 'g', '_', 'm', 'o', 'n', 't', 'h'],
            PaymentTermDelayType::DayCurrentMonth => seq!['d', 'a', 'y', '_', 'c', 'u', 'r', 'r', 'e', 'n', 't', '_', 'm', 'o', 'n', 't', 'h'],
        }
    }

    /// The variant a (lowercase) wire name names.
    pub open spec fn spec_from_name(s: Seq<char>) -> Option<PaymentTermDelayType> {
        if s == seq!['d', 'a', 'y', 's'] {
            Some(PaymentTermDelayType::Days)
        } else if s == seq!['d', 'a', 'y', '_', 'f', 'o', 'l', 'l', 'o', 'w', 'i', 'n', 'g', '_', 'm', 'o', 'n', 't', 'h'] {
            Some(PaymentTermDelayType::DayFollowingMonth)
        } else if s == seq!['d', 'a', 'y', '_', 'c', 'u', 'r', 'r', 'e', 'n', 't', '_', 'm', 'o', 'n', 't', 'h'] {
            Some(PaymentTermDelayType::DayCurrentMonth)
        } else {
            None
        }
    }

    /// The wire name (what `Display` writes).
    pub fn as_str(&self) -> (r: &'static str)
        ensures
            r@ == self.spec_name(),
    {
        match self {
            PaymentTermDelayType::Days => {
                proof {
                    reveal_strlit("days");
                    assert("days"@ =~= seq!['d', 'a', 'y', 's']);
                }
                "days"
            },
            PaymentTermDelayType::DayFollowingMonth => {
                proof {
                    reveal_strlit("day_following_month");
                    assert("day_following_month"@ =~= seq!['d', 'a', 'y', '_', 'f', 'o', 'l', 'l', 'o', 'w', 'i', 'n', 'g', '_', 'm', 'o', 'n', 't', 'h']);
                }
                "day_following_month"
            },
            PaymentTermDelayType::DayCurrentMonth => {
                proof {
                    reveal_strlit("day_current_month");
                    assert("day_current_month"@ =~= seq!['d', 'a', 'y', '_', 'c', 'u', 'r', 'r', 'e', 'n', 't', '_', 'm', 'o', 'n', 't', 'h']);
                }
                "day_current_month"
            },
        }
    }

    /// The wire name as an owned string.
    pub fn to_string(&self) -> (r: String)
        ensures
            r@ == self.spec_name(),
    {
        self.as_str().to_string()
    }

    /// Parse a wire name, case-insensitively (the text is lowercased first).
    pub fn parse(s: &str) -> (r: Result<PaymentTermDelayType, String>)
        ensures
            match Self::spec_from_name(unicode_lowercase(s@)) {
                Some(v) => r == Ok::<PaymentTermDelayType, String>(v),
                None => r matches Err(m) && m@ == "Unknown PaymentTermDelayType variant: "@ + s@,
            },
            vstd::utf8::is_ascii_chars(s@) ==> unicode_lowercase(s@) == ascii_lower(s@),
    {
        let lower = to_lowercase(s);
        if str_eq(lower.as_str(), "days") {
            proof {
                reveal_strlit("days");
                assert("days"@ =~= seq!['d', 'a', 'y', 's']);
            }
            return Ok(PaymentTermDelayType::Days);
        }
        if str_eq(lower.as_str(), "day_following_month") {
            proof {
                reveal_strlit("day_following_month");
                assert("day_following_month"@ =~= seq!['d', 'a', 'y', '_', 'f', 'o', 'l', 'l', 'o', 'w', 'i', 'n', 'g', '_', 'm', 'o', 'n', 't', 'h']);
            }
            return Ok(PaymentTermDelayType::DayFollowingMonth);
        }
        if str_eq(lower.as_str(), "day_current_month") {
            proof {
                reveal_strlit("day_current_month");
                assert("day_current_month"@ =~= seq!['d', 'a', 'y', '_', 'c', 'u', 'r', 'r', 'e', 'n', 't', '_', 'm', 'o', 'n', 't', 'h']);
            }
            return Ok(PaymentTermDelayType::DayCurrentMonth);
        }
        proof {
            reveal_strlit("days");
            assert("days"@ =~= seq!['d', 'a', 'y', 's']);
        }
        proof {
            reveal_strlit("day_following_month");
            assert("day_following_month"@ =~= seq!['d', 'a', 'y', '_', 'f', 'o', 'l', 'l', 'o', 'w', 'i', 'n', 'g', '_', 'm', 'o', 'n', 't', 'h']);
        }
        proof {
            reveal_strlit("day_current_month");
            assert("day_current_month"@ =~= seq!['d', 'a', 'y', '_', 'c', 'u', 'r', 'r', 'e', 'n', 't', '_', 'm', 'o', 'n', 't', 'h']);
        }
        Err("Unknown PaymentTermDelayType variant: ".to_string().concat(s))
    }

    /// Every wire name is lowercase ASCII and names its own variant, so parsing what a variant
    /// displays as gives the variant back.
    pub proof fn lemma_name_round_trip(v: PaymentTermDelayType)
        ensures
            vstd::utf8::is_ascii_chars(v.spec_name()),
            ascii_lower(v.spec_name()) == v.spec_name(),
            Self::spec_from_name(v.spec_name()) == Some(v),
    {
        match v {
            PaymentTermDelayType::Days => {
                assert(ascii_lower(seq!['d', 'a', 'y', 's']) =~= seq!['d', 'a', 'y', 's']);
            },
            PaymentTermDelayType::DayFollowingMonth => {
                assert(ascii_lower(seq!['d', 'a', 'y', '_', 'f', 'o', 'l', 'l', 'o', 'w', 'i', 'n', 'g', '_', 'm', 'o', 'n', 't', 'h']) =~= seq!['d', 'a', 'y', '_', 'f', 'o', 'l', 'l', 'o', 'w', 'i', 'n', 'g', '_', 'm', 'o', 'n', 't', 'h']);
            },
            PaymentTermDelayType::DayCurrentMonth => {
                assert(ascii_lower(seq!['d', 'a', 'y', '_', 'c', 'u', 'r', 'r', 'e', 'n', 't', '_', 'm', 'o', 'n', 't', 'h']) =~= seq!['d', 'a', 'y', '_', 'c', 'u', 'r', 'r', 'e', 'n', 't', '_', 'm', 'o', 'n', 't', 'h']);
            },
        }
    }
}

impl Default for PaymentTermDelayType {
    fn default() -> (r: Self)
        ensures
            r == PaymentTermDelayType::Days,
    {
        PaymentTermDelayType::Days
    }
}

impl std::str::FromStr for PaymentTermDelayType {
    type Err = String;

    fn from_str(s: &str) -> Result<Self, Self::Err> {
        Self::parse(s)
    }
}

} // verus!
