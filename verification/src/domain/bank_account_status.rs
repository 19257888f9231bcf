//! `BankAccountStatus`: its wire names (the text it is stored and displayed as), parsing and default.
use vstd::prelude::*;

use crate::text::ascii_lower;
use crate::text::str_eq;
use crate::text::to_lowercase;
use crate::text::unicode_lowercase;

verus! {

broadcast use vstd::string::group_string_axioms;

#[derive(Debug, Clone, Copy, PartialEq, Eq, Hash, Structural)]
pub enum BankAccountStatus {
    Pending,
    Verified,
    Rejected,
    Suspended,
    Inactive,
}

impl BankAccountStatus {
    /// The variant's wire name.
    pub open spec fn spec_name(self) -> Seq<char> {
        match self {
            BankAccountStatus::Pending => seq!['p', 'e', 'n', 'd', 'i', 'n', 'g'],
            BankAccountStatus::Verified => seq!['v', 'e', 'r', 'i', 'f', 'i', 'e', 'd'],
            BankAccountStatus::Rejected => seq!['r', 'e', 'j', 'e', 'c', 't', 'e', 'd'],
            BankAccountStatus::Suspended => seq!['s', 'u', 's', 'p', 'e', 'n', 'd', 'e', 'd'],
            BankAccountStatus::Inactive => seq!['i', 'n', 'a', 'c', 't', 'i', 'v', 'e'],
        }
    }

    /// The variant a (lowercase) wire name names.
    pub open spec fn spec_from_name(s: Seq<char>) -> Option<BankAccountStatus> {
        if s == seq!['p', 'e', 'n', 'd', 'i', 'n', 'g'] {
            Some(BankAccountStatus::Pending)
        } else if s == seq!['v', 'e', 'r', 'i', 'f', 'i', 'e', 'd'] {
            Some(BankAccountStatus::Verified)
        } else if s == seq!['r', 'e', 'j', 'e', 'c', 't', 'e', 'd'] {
            Some(BankAccountStatus::Rejected)
        } else if s == seq!['s', 'u', 's', 'p', 'e', 'n', 'd', 'e', 'd'] {
            Some(BankAccountStatus::Suspended)
        } else if s == seq!['i', 'n', 'a', 'c', 't', 'i', 'v', 'e'] {
            Some(BankAccountStatus::Inactive)
        } else {
            None
        }
    }

    /// The wire name (what `Display` writes).
    pub fn as_str(&self) -> (r: &'static str)
        ensures
            r@ == self.spec_name(),
    {
        match self {
            BankAccountStatus::Pending => {
                proof {
                    reveal_strlit("pending");
                    assert("pending"@ =~= seq!['p', 'e', 'n', 'd', 'i', 'n', 'g']);
                }
                "pending"
            },
            BankAccountStatus::Verified => {
                proof {
                    reveal_strlit("verified");
                    assert("verified"@ =~= seq!['v', 'e', 'r', 'i', 'f', 'i', 'e', 'd']);
                }
                "verified"
            },
            BankAccountStatus::Rejected => {
                proof {
                    reveal_strlit("rejected");
                    assert("rejected"@ =~= seq!['r', 'e', 'j', 'e', 'c', 't', 'e', 'd']);
                }
                "rejected"
            },
            BankAccountStatus::Suspended => {
                proof {
                    reveal_strlit("suspended");
                    assert("suspended"@ =~= seq!['s', 'u', 's', 'p', 'e', 'n', 'd', 'e', 'd']);
                }
                "suspended"
            },
            BankAccountStatus::Inactive => {
                proof {
                    reveal_strlit("inactive");
                    assert("inactive"@ =~= seq!['i', 'n', 'a', 'c', 't', 'i', 'v', 'e']);
                }
                "inactive"
            },
        }
    }

    /// The wire name as an owned string.
    pub fn to_string(&self) -> (r: String)
        ensures
            r@ == self.spec_name(),
    {
        self.as_str().to_string()
    }

    /// Parse a wire name, case-insensitively (the text is lowercased first).
    pub fn parse(s: &str) -> (r: Result<BankAccountStatus, String>)
        ensures
            match Self::spec_from_name(unicode_lowercase(s@)) {
                Some(v) => r == Ok::<BankAccountStatus, String>(v),
                None => r matches Err(m) && m@ == "Unknown BankAccountStatus variant: "@ + s@,
            },
            vstd::utf8::is_ascii_chars(s@) ==> unicode_lowercase(s@) == ascii_lower(s@),
    {
        let lower = to_lowercase(s);
        if str_eq(lower.as_str(), "pending") {
            proof {
                reveal_strlit("pending");
                assert("pending"@ =~= seq!['p', 'e', 'n', 'd', 'i', 'n', 'g']);
            }
            return Ok(BankAccountStatus::Pending);
        }
        if str_eq(lower.as_str(), "verified") {
            proof {
                reveal_strlit("verified");
                assert("verified"@ =~= seq!['v', 'e', 'r', 'i', 'f', 'i', 'e', 'd']);
            }
            return Ok(BankAccountStatus::Verified);
        }
        if str_eq(lower.as_str(), "rejected") {
            proof {
                reveal_strlit("rejected");
                assert("rejected"@ =~= seq!['r', 'e', 'j', 'e', 'c', 't', 'e', 'd']);
            }
            return Ok(BankAccountStatus::Rejected);
        }
        if str_eq(lower.as_str(), "suspended") {
            proof {
                reveal_strlit("suspended");
                assert("suspended"@ =~= seq!['s', 'u', 's', 'p', 'e', 'n', 'd', 'e', 'd']);
            }
            return Ok(BankAccountStatus::Suspended);
        }
        if str_eq(lower.as_str(), "inactive") {
            proof {
                reveal_strlit("inactive");
                assert("inactive"@ =~= seq!['i', 'n', 'a', 'c', 't', 'i', 'v', 'e']);
            }
            return Ok(BankAccountStatus::Inactive);
        }
        proof {
            reveal_strlit("pending");
            assert("pending"@ =~= seq!['p', 'e', 'n', 'd', 'i', 'n', 'g']);
        }
        proof {
            reveal_strlit("verified");
            assert("verified"@ =~= seq!['v', 'e', 'r', 'i', 'f', 'i', 'e', 'd']);
        }
        proof {
            reveal_strlit("rejected");
            assert("rejected"@ =~= seq!['r', 'e', 'j', 'e', 'c', 't', 'e', 'd']);
        }
        proof {
            reveal_strlit("suspended");
            assert("suspended"@ =~= seq!['s', 'u', 's', 'p', 'e', 'n', 'd', 'e', 'd']);
        }
        proof {
            reveal_strlit("inactive");
            assert("inactive"@ =~= seq!['i', 'n', 'a', 'c', 't', 'i', 'v', 'e']);
        }
        Err("Unknown BankAccountStatus variant: ".to_string().concat(s))
    }

    /// Every wire name is lowercase ASCII and names its own variant, so parsing what a variant
    /// displays as gives the variant back.
    pub proof fn lemma_name_round_trip(v: BankAccountStatus)
        ensures
            vstd::utf8::is_ascii_chars(v.spec_name()),
            ascii_lower(v.spec_name()) == v.spec_name(),
            Self::spec_from_name(v.spec_name()) == Some(v),
    {
        match v {
            BankAccountStatus::Pending => {
                assert(ascii_lower(seq!['p', 'e', 'n', 'd', 'i', 'n', 'g']) =~= seq!['p', 'e', 'n', 'd', 'i', 'n', 'g']);
            },
            BankAccountStatus::Verified => {
                assert(ascii_lower(seq!['v', 'e', 'r', 'i', 'f', 'i', 'e', 'd']) =~= seq!['v', 'e', 'r', 'i', 'f', 'i', 'e', 'd']);
            },
            BankAccountStatus::Rejected => {
                assert(ascii_lower(seq!['r', 'e', 'j', 'e', 'c', 't', 'e', 'd']) =~= seq!['r', 'e', 'j', 'e', 'c', 't', 'e', 'd']);
            },
            BankAccountStatus::Suspended => {
                assert(ascii_lower(seq!['s', 'u', 's', 'p', 'e', 'n', 'd', 'e', 'd']) =~= seq!['s', 'u', 's', 'p', 'e', 'n', 'd', 'e', 'd']);
            },
            BankAccountStatus::Inactive => {
                assert(ascii_lower(seq!['i', 'n', 'a', 'c', 't', 'i', 'v', 'e']) =~= seq!['i', 'n', 'a', 'c', 't', 'i', 'v', 'e']);
            },
        }
    }
}

impl Default for BankAccountStatus {
    fn default() -> (r: Self)
        ensures
            r == BankAccountStatus::Pending,
    {
        BankAccountStatus::Pending
    }
}

impl std::str::FromStr for BankAccountStatus {
    type Err = String;

    fn from_str(s: &str) -> Result<Self, Self::Err> {
        Self::parse(s)
    }
}

} // verus!
