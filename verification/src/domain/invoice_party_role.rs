//! `InvoicePartyRole`: its wire names (the text it is stored and displayed as), parsing and default.
use vstd::prelude::*;

use crate::text::ascii_lower;
use crate::text::str_eq;
use crate::text::to_lowercase;
use crate::text::unicode_lowercase;

verus! {

broadcast use vstd::string::group_string_axioms;

#[derive(Debug, Clone, Copy, PartialEq, Eq, Hash, Structural)]
pub enum InvoicePartyRole {
    Issuer,
    Recipient,
}

impl InvoicePartyRole {
    /// The variant's wire name.
    pub open spec fn spec_name(self) -> Seq<char> {
        match self {
            InvoicePartyRole::Issuer => seq!['i', 's', 's', 'u', 'e', 'r'],
            InvoicePartyRole::Recipient => seq!['r', 'e', 'c', 'i', 'p', 'i', 'e', 'n', 't'],
        }
    }

    /// The variant a (lowercase) wire name names.
    pub open spec fn spec_from_name(s: Seq<char>) -> Option<InvoicePartyRole> {
        if s == seq!['i', 's', 's', 'u', 'e', 'r'] {
            Some(InvoicePartyRole::Issuer)
        } else if s == seq!['r', 'e', 'c', 'i', 'p', 'i', 'e', 'n', 't'] {
            Some(InvoicePartyRole::Recipient)
        } else {
            None
        }
    }

    /// The wire name (what `Display` writes).
    pub fn as_str(&self) -> (r: &'static str)
        ensures
            r@ == self.spec_name(),
    {
        match self {
            InvoicePartyRole::Issuer => {
                proof {
                    reveal_strlit("issuer");
                    assert("issuer"@ =~= seq!['i', 's', 's', 'u', 'e', 'r']);
                }
                "issuer"
            },
            InvoicePartyRole::Recipient => {
                proof {
                    reveal_strlit("recipient");
                    assert("recipient"@ =~= seq!['r', 'e', 'c', 'i', 'p', 'i', 'e', 'n', 't']);
                }
                "recipient"
            },
        }
    }

    /// The wire name as an owned string.
    pub fn to_string(&self) -> (r: String)
        ensures
            r@ == self.spec_name(),
    {
        self.as_str().to_string()
    }

    /// Parse a wire name, case-insensitively (the text is lowercased first).
    pub fn parse(s: &str) -> (r: Result<InvoicePartyRole, String>)
        ensures
            match Self::spec_from_name(unicode_lowercase(s@)) {
                Some(v) => r == Ok::<InvoicePartyRole, String>(v),
                None => r matches Err(m) && m@ == "Unknown InvoicePartyRole variant: "@ + s@,
            },
            vstd::utf8::is_ascii_chars(s@) ==> unicode_lowercase(s@) == ascii_lower(s@),
    {
        let lower = to_lowercase(s);
        if str_eq(lower.as_str(), "issuer") {
            proof {
                reveal_strlit("issuer");
                assert("issuer"@ =~= seq!['i', 's', 's', 'u', 'e', 'r']);
            }
            return Ok(InvoicePartyRole::Issuer);
        }
        if str_eq(lower.as_str(), "recipient") {
            proof {
                reveal_strlit("recipient");
                assert("recipient"@ =~= seq!['r', 'e', 'c', 'i', 'p', 'i', 'e', 'n', 't']);
            }
            return Ok(InvoicePartyRole::Recipient);
        }
        proof {
            reveal_strlit("issuer");
            assert("issuer"@ =~= seq!['i', 's', 's', 'u', 'e', 'r']);
        }
        proof {
            reveal_strlit("recipient");
            assert("recipient"@ =~= seq!['r', 'e', 'c', 'i', 'p', 'i', 'e', 'n', 't']);
        }
        Err("Unknown InvoicePartyRole variant: ".to_string().concat(s))
    }

    /// Every wire name is lowercase ASCII and names its own variant, so parsing what a variant
    /// displays as gives the variant back.
    pub proof fn lemma_name_round_trip(v: InvoicePartyRole)
        ensures
            vstd::utf8::is_ascii_chars(v.spec_name()),
            ascii_lower(v.spec_name()) == v.spec_name(),
            Self::spec_from_name(v.spec_name()) == Some(v),
    {
        match v {
            InvoicePartyRole::Issuer => {
                assert(ascii_lower(seq!['i', 's', 's', 'u', 'e', 'r']) =~= seq!['i', 's', 's', 'u', 'e', 'r']);
            },
            InvoicePartyRole::Recipient => {
                assert(ascii_lower(seq!['r', 'e', 'c', 'i', 'p', 'i', 'e', 'n', 't']) =~= seq!['r', 'e', 'c', 'i', 'p', 'i', 'e', 'n', 't']);
            },
        }
    }
}

impl Default for InvoicePartyRole {
    fn default() -> (r: Self)
        ensures
            r == InvoicePartyRole::Issuer,
    {
        InvoicePartyRole::Issuer
    }
}

impl std::str::FromStr for InvoicePartyRole {
    type Err = String;

    fn from_str(s: &str) -> Result<Self, Self::Err> {
        Self::parse(s)
    }
}

} // verus!
