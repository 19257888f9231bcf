//! `PaymentTermAnchor`: its wire names (the text it is stored and displayed as), parsing and default.
use vstd::prelude::*;

use crate::text::ascii_lower;
use crate::text::str_eq;
use crate::text::to_lowercase;
use crate::text::unicode_lowercase;

verus! {

broadcast use vstd::string::group_string_axioms;

#[derive(Debug, Clone, Copy, PartialEq, Eq, Hash, Structural)]
pub enum PaymentTermAnchor {
    InvoiceDate,
    EndOfInvoiceMonth,
}

impl PaymentTermAnchor {
    /// The variant's wire name.
    pub open spec fn spec_name(self) -> Seq<char> {
        match self {
            PaymentTermAnchor::InvoiceDate => seq!['i', 'n', 'v', 'o', 'i', 'c', 'e', '_', 'd', 'a', 't', 'e'],
            PaymentTermAnchor::EndOfInvoiceMonth => seq!['e', 'n', 'd', '_', 'o', 'f', '_', 'i', 'n', 'v', 'o', 'i', 'c', 'e', '_', 'm', 'o', 'n', 't', 'h'],
        }
    }

    /// The variant a (lowercase) wire name names.
    pub open spec fn spec_from_name(s: Seq<char>) -> Option<PaymentTermAnchor> {
        if s == seq!['i', 'n', 'v', 'o', 'i', 'c', 'e', '_', 'd', 'a', 't', 'e'] {
            Some(PaymentTermAnchor::InvoiceDate)
        } else if s == seq!['e', 'n', 'd', '_', 'o', 'f', '_', 'i', 'n', 'v', 'o', 'i', 'c', 'e', '_', 'm', 'o', 'n', 't', 'h'] {
            Some(PaymentTermAnchor::EndOfInvoiceMonth)
        } else {
            None
        }
    }

    /// The wire name (what `Display` writes).
    pub fn as_str(&self) -> (r: &'static str)
        ensures
            r@ == self.spec_name(),
    {
        match self {
            PaymentTermAnchor::InvoiceDate => {
                proof {
                    reveal_strlit("invoice_date");
                    assert("invoice_date"@ =~= seq!['i', 'n', 'v', 'o', 'i', 'c', 'e', '_', 'd', 'a', 't', 'e']);
                }
                "invoice_date"
            },
            PaymentTermAnchor::EndOfInvoiceMonth => {
                proof {
                    reveal_strlit("end_of_invoice_month");
                    assert("end_of_invoice_month"@ =~= seq!['e', 'n', 'd', '_', 'o', 'f', '_', 'i', 'n', 'v', 'o', 'i', 'c', 'e', '_', 'm', 'o', 'n', 't', 'h']);
                }
                "end_of_invoice_month"
            },
        }
    }

    /// The wire name as an owned string.
    pub fn to_string(&self) -> (r: String)
        ensures
            r@ == self.spec_name(),
    {
        self.as_str().to_string()
    }

    /// Parse a wire name, case-insensitively (the text is lowercased first).
    pub fn parse(s: &str) -> (r: Result<PaymentTermAnchor, String>)
        ensures
            match Self::spec_from_name(unicode_lowercase(s@)) {
                Some(v) => r == Ok::<PaymentTermAnchor, String>(v),
                None => r matches Err(m) && m@ == "Unknown PaymentTermAnchor variant: "@ + s@,
            },
            vstd::utf8::is_ascii_chars(s@) ==> unicode_lowercase(s@) == ascii_lower(s@),
    {
        let lower = to_lowercase(s);
        if str_eq(lower.as_str(), "invoice_date") {
            proof {
                reveal_strlit("invoice_date");
                assert("invoice_date"@ =~= seq!['i', 'n', 'v', 'o', 'i', 'c', 'e', '_', 'd', 'a', 't', 'e']);
            }
            return Ok(PaymentTermAnchor::InvoiceDate);
        }
        if str_eq(lower.as_str(), "end_of_invoice_month") {
            proof {
                reveal_strlit("end_of_invoice_month");
                assert("end_of_invoice_month"@ =~= seq!['e', 'n', 'd', '_', 'o', 'f', '_', 'i', 'n', 'v', 'o', 'i', 'c', 'e', '_', 'm', 'o', 'n', 't', 'h']);
            }
            return Ok(PaymentTermAnchor::EndOfInvoiceMonth);
        }
        proof {
            reveal_strlit("invoice_date");
            assert("invoice_date"@ =~= seq!['i', 'n', 'v', 'o', 'i', 'c', 'e', '_', 'd', 'a', 't', 'e']);
        }
        proof {
            reveal_strlit("end_of_invoice_month");
            assert("end_of_invoice_month"@ =~= seq!['e', 'n', 'd', '_', 'o', 'f', '_', 'i', 'n', 'v', 'o', 'i', 'c', 'e', '_', 'm', 'o', 'n', 't', 'h']);
        }
        Err("Unknown PaymentTermAnchor variant: ".to_string().concat(s))
    }

    /// Every wire name is lowercase ASCII and names its own variant, so parsing what a variant
    /// displays as gives the variant back.
    pub proof fn lemma_name_round_trip(v: PaymentTermAnchor)
        ensures
            vstd::utf8::is_ascii_chars(v.spec_name()),
            ascii_lower(v.spec_name()) == v.spec_name(),
            Self::spec_from_name(v.spec_name()) == Some(v),
    {
        match v {
            PaymentTermAnchor::InvoiceDate => {
                assert(ascii_lower(seq!['i', 'n', 'v', 'o', 'i', 'c', 'e', '_', 'd', 'a', 't', 'e']) =~= seq!['i', 'n', 'v', 'o', 'i', 'c', 'e', '_', 'd', 'a', 't', 'e']);
            },
            PaymentTermAnchor::EndOfInvoiceMonth => {
                assert(ascii_lower(seq!['e', 'n', 'd', '_', 'o', 'f', '_', 'i', 'n', 'v', 'o', 'i', 'c', 'e', '_', 'm', 'o', 'n', 't', 'h']) =~= seq!['e', 'n', 'd', '_', 'o', 'f', '_', 'i', 'n', 'v', 'o', 'i', 'c', 'e', '_', 'm', 'o', 'n', 't', 'h']);
            },
        }
    }
}

impl Default for PaymentTermAnchor {
    fn default() -> (r: Self)
        ensures
            r == PaymentTermAnchor::InvoiceDate,
    {
        PaymentTermAnchor::InvoiceDate
    }
}

impl std::str::FromStr for PaymentTermAnchor {
    type Err = String;

    fn from_str(s: &str) -> Result<Self, Self::Err> {
        Self::parse(s)
    }
}

} // verus!
