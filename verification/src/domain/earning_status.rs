//! `EarningStatus`: its wire names (the text it is stored and displayed as), parsing and default.
use vstd::prelude::*;

use crate::text::ascii_lower;
use crate::text::str_eq;
use crate::text::to_lowercase;
use crate::text::unicode_lowercase;

verus! {

broadcast use vstd::string::group_string_axioms;

#[derive(Debug, Clone, Copy, PartialEq, Eq, Hash, Structural)]
pub enum EarningStatus {
    Pending,
    Confirmed,
    Paid,
    Cancelled,
    Disputed,
}

impl EarningStatus {
    /// The variant's wire name.
    pub open spec fn spec_name(self) -> Seq<char> {
        match self {
            EarningStatus::Pending => seq!['p', 'e', 'n', 'd', 'i', 'n', 'g'],
            EarningStatus::Confirmed => seq!['c', 'o', 'n', 'f', 'i', 'r', 'm', 'e', 'd'],
            EarningStatus::Paid => seq!['p', 'a', 'i', 'd'],
            EarningStatus::Cancelled => seq!['c', 'a', 'n', 'c', 'e', 'l', 'l', 'e', 'd'],
            EarningStatus::Disputed => seq!['d', 'i', 's', 'p', 'u', 't', 'e', 'd'],
        }
    }

    /// The variant a (lowercase) wire name names.
    pub open spec fn spec_from_name(s: Seq<char>) -> Option<EarningStatus> {
        if s == seq!['p', 'e', 'n', 'd', 'i', 'n', 'g'] {
            Some(EarningStatus::Pending)
        } else if s == seq!['c', 'o', 'n', 'f', 'i', 'r', 'm', 'e', 'd'] {
            Some(EarningStatus::Confirmed)
        } else if s == seq!['p', 'a', 'i', 'd'] {
            Some(EarningStatus::Paid)
        } else if s == seq!['c', 'a', 'n', 'c', 'e', 'l', 'l', 'e', 'd'] {
            Some(EarningStatus::Cancelled)
        } else if s == seq!['d', 'i', 's', 'p', 'u', 't', 'e', 'd'] {
            Some(EarningStatus::Disputed)
        } else {
            None
        }
    }

    /// The wire name (what `Display` writes).
    pub fn as_str(&self) -> (r: &'static str)
        ensures
            r@ == self.spec_name(),
    {
        match self {
            EarningStatus::Pending => {
                proof {
                    reveal_strlit("pending");
                    assert("pending"@ =~= seq!['p', 'e', 'n', 'd', 'i', 'n', 'g']);
                }
                "pending"
            },
            EarningStatus::Confirmed => {
                proof {
                    reveal_strlit("confirmed");
                    assert("confirmed"@ =~= seq!['c', 'o', 'n', 'f', 'i', 'r', 'm', 'e', 'd']);
                }
                "confirmed"
            },
            EarningStatus::Paid => {
                proof {
                    reveal_strlit("paid");
                    assert("paid"@ =~= seq!['p', 'a', 'i', 'd']);
                }
                "paid"
            },
            EarningStatus::Cancelled => {
                proof {
                    reveal_strlit("cancelled");
                    assert("cancelled"@ =~= seq!['c', 'a', 'n', 'c', 'e', 'l', 'l', 'e', 'd']);
                }
                "cancelled"
            },
            EarningStatus::Disputed => {
                proof {
                    reveal_strlit("disputed");
                    assert("disputed"@ =~= seq!['d', 'i', 's', 'p', 'u', 't', 'e', 'd']);
                }
                "disputed"
            },
        }
    }

    /// The wire name as an owned string.
    pub fn to_string(&self) -> (r: String)
        ensures
            r@ == self.spec_name(),
    {
        self.as_str().to_string()
    }

    /// Parse a wire name, case-insensitively (the text is lowercased first).
    pub fn parse(s: &str) -> (r: Result<EarningStatus, String>)
        ensures
            match Self::spec_from_name(unicode_lowercase(s@)) {
                Some(v) => r == Ok::<EarningStatus, String>(v),
                None => r matches Err(m) && m@ == "Unknown EarningStatus variant: "@ + s@,
            },
            vstd::utf8::is_ascii_chars(s@) ==> unicode_lowercase(s@) == ascii_lower(s@),
    {
        let lower = to_lowercase(s);
        if str_eq(lower.as_str(), "pending") {
            proof {
                reveal_strlit("pending");
                assert("pending"@ =~= seq!['p', 'e', 'n', 'd', 'i', 'n', 'g']);
            }
            return Ok(EarningStatus::Pending);
        }
        if str_eq(lower.as_str(), "confirmed") {
            proof {
                reveal_strlit("confirmed");
                assert("confirmed"@ =~= seq!['c', 'o', 'n', 'f', 'i', 'r', 'm', 'e', 'd']);
            }
            return Ok(EarningStatus::Confirmed);
        }
        if str_eq(lower.as_str(), "paid") {
            proof {
                reveal_strlit("paid");
                assert("paid"@ =~= seq!['p', 'a', 'i', 'd']);
            }
            return Ok(EarningStatus::Paid);
        }
        if str_eq(lower.as_str(), "cancelled") {
            proof {
                reveal_strlit("cancelled");
                assert("cancelled"@ =~= seq!['c', 'a', 'n', 'c', 'e', 'l', 'l', 'e', 'd']);
            }
            return Ok(EarningStatus::Cancelled);
        }
        if str_eq(lower.as_str(), "disputed") {
            proof {
                reveal_strlit("disputed");
                assert("disputed"@ =~= seq!['d', 'i', 's', 'p', 'u', 't', 'e', 'd']);
            }
            return Ok(EarningStatus::Disputed);
        }
        proof {
            reveal_strlit("pending");
            assert("pending"@ =~= seq!['p', 'e', 'n', 'd', 'i', 'n', 'g']);
        }
        proof {
            reveal_strlit("confirmed");
            assert("confirmed"@ =~= seq!['c', 'o', 'n', 'f', 'i', 'r', 'm', 'e', 'd']);
        }
        proof {
            reveal_strlit("paid");
            assert("paid"@ =~= seq!['p', 'a', 'i', 'd']);
        }
        proof {
            reveal_strlit("cancelled");
            assert("cancelled"@ =~= seq!['c', 'a', 'n', 'c', 'e', 'l', 'l', 'e', 'd']);
        }
        proof {
            reveal_strlit("disputed");
            assert("disputed"@ =~= seq!['d', 'i', 's', 'p', 'u', 't', 'e', 'd']);
        }
        Err("Unknown EarningStatus variant: ".to_string().concat(s))
    }

    /// Every wire name is lowercase ASCII and names its own variant, so parsing what a variant
    /// displays as gives the variant back.
    pub proof fn lemma_name_round_trip(v: EarningStatus)
        ensures
            vstd::utf8::is_ascii_chars(v.spec_name()),
            ascii_lower(v.spec_name()) == v.spec_name(),
            Self::spec_from_name(v.spec_name()) == Some(v),
    {
        match v {
            EarningStatus::Pending => {
                assert(ascii_lower(seq!['p', 'e', 'n', 'd', 'i', 'n', 'g']) =~= seq!['p', 'e', 'n', 'd', 'i', 'n', 'g']);
            },
            EarningStatus::Confirmed => {
                assert(ascii_lower(seq!['c', 'o', 'n', 'f', 'i', 'r', 'm', 'e', 'd']) =~= seq!['c', 'o', 'n', 'f', 'i', 'r', 'm', 'e', 'd']);
            },
            EarningStatus::Paid => {
                assert(ascii_lower(seq!['p', 'a', 'i', 'd']) =~= seq!['p', 'a', 'i', 'd']);
            },
            EarningStatus::Cancelled => {
                assert(ascii_lower(seq!['c', 'a', 'n', 'c', 'e', 'l', 'l', 'e', 'd']) =~= seq!['c', 'a', 'n', 'c', 'e', 'l', 'l', 'e', 'd']);
            },
            EarningStatus::Disputed => {
                assert(ascii_lower(seq!['d', 'i', 's', 'p', 'u', 't', 'e', 'd']) =~= seq!['d', 'i', 's', 'p', 'u', 't', 'e', 'd']);
            },
        }
    }
}

impl Default for EarningStatus {
    fn default() -> (r: Self)
        ensures
            r == EarningStatus::Pending,
    {
        EarningStatus::Pending
    }
}

impl std::str::FromStr for EarningStatus {
    type Err = String;

    fn from_str(s: &str) -> Result<Self, Self::Err> {
        Self::parse(s)
    }
}

} // verus!
