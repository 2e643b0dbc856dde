//! Chain addresses in their textual form.

use linera_base::identifiers::ChainId;
use vstd::prelude::*;

verus! {

/// Whether `c` is a hexadecimal digit, in either case.
pub open spec fn is_hex_digit(c: char) -> bool {
    ('0' <= c && c <= '9') || ('a' <= c && c <= 'f') || ('A' <= c && c <= 'F')
}

/// The lower-case form of a hexadecimal digit; any other character is left as it is.
pub open spec fn lower_hex_digit(c: char) -> char {
    if c == 'A' {
        'a'
    } else if c == 'B' {
        'b'
    } else if c == 'C' {
        'c'
    } else if c == 'D' {
        'd'
    } else if c == 'E' {
        'e'
    } else if c == 'F' {
        'f'
    } else {
        c
    }
}

/// Whether `text` names a chain: exactly 64 hexadecimal digits.
pub open spec fn is_chain_text(text: Seq<char>) -> bool {
    &&& text.len() == 64
    &&& forall|i: int| 0 <= i < text.len() ==> is_hex_digit(#[trigger] text[i])
}

/// The text under which a chain prints itself: the digits of `text` in lower case.
pub open spec fn canonical_text(text: Seq<char>) -> Seq<char> {
    text.map_values(|c: char| lower_hex_digit(c))
}

/// Whether `text` is the printed form of a chain: 64 lower-case hexadecimal digits.
pub open spec fn is_canonical_text(text: Seq<char>) -> bool {
    is_chain_text(text) && canonical_text(text) == text
}

/// Parses `text` with `<ChainId as FromStr>::from_str` and prints the chain found with
/// `ChainId`'s `Display`.
///
/// Trusted: the parser accepts exactly the texts of 64 hexadecimal digits, upper or lower
/// case, and the chain prints as the same digits in lower case.
#[verifier::external_body]
fn parse_and_print(text: &str) -> (printed: Option<String>)
    ensures
        printed is Some <==> is_chain_text(text@),
        printed is Some ==> printed->0@ == canonical_text(text@),
{
    match text.parse::<ChainId>() {
        Ok(chain) => Some(chain.to_string()),
        Err(_) => None,
    }
}

/// The canonical form of a text is canonical.
pub proof fn lemma_canonical_text_is_canonical(text: Seq<char>)
    requires
        is_chain_text(text),
    ensures
        is_canonical_text(canonical_text(text)),
{
    let lowered = canonical_text(text);
    assert forall|i: int| 0 <= i < lowered.len() implies is_hex_digit(#[trigger] lowered[i]) by {
        assert(is_hex_digit(text[i]));
    }
    assert(canonical_text(lowered) =~= lowered);
}

/// The address of a chain, held as the text under which the chain prints itself.
#[derive(Debug)]
pub struct ChainAddress {
    text: String,
}

impl View for ChainAddress {
    type V = Seq<char>;

    closed spec fn view(&self) -> Seq<char> {
        self.text@
    }
}

impl ChainAddress {
    #[verifier::type_invariant]
    spec fn well_formed(&self) -> bool {
        is_canonical_text(self.text@)
    }

    /// Reads a chain address. Succeeds exactly on 64 hexadecimal digits; the address found
    /// holds them in lower case.
    pub fn parse(text: &str) -> (address: Option<ChainAddress>)
        ensures
            address is Some <==> is_chain_text(text@),
            address is Some ==> address->0@ == canonical_text(text@),
    {
        match parse_and_print(text) {
            Some(printed) => {
                proof {
                    lemma_canonical_text_is_canonical(text@);
                }
                Some(ChainAddress { text: printed })
            },
            None => None,
        }
    }

    /// The address as text.
    pub fn to_string(&self) -> (text: String)
        ensures
            text@ == self@,
            is_canonical_text(text@),
    {
        proof {
            use_type_invariant(self);
        }
        self.text.clone()
    }

    /// The address as a borrowed text.
    pub fn as_str(&self) -> (text: &str)
        ensures
            text@ == self@,
            is_canonical_text(text@),
    {
        proof {
            use_type_invariant(self);
        }
        self.text.as_str()
    }
}

impl Clone for ChainAddress {
    fn clone(&self) -> (copy: Self)
        ensures
            copy@ == self@,
    {
        proof {
            use_type_invariant(self);
        }
        ChainAddress { text: self.text.clone() }
    }
}

} // verus!
