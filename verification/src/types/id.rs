use vstd::prelude::*;
use vstd::std_specs::cmp::PartialEqSpecImpl;
use vstd::string::StringExecFns;
use crate::primitives::{PubKey, Root};
use crate::text::{
    all_digits, decimal_of, decimal_string, decimal_value, has_hex_prefix, hex_encode,
    is_all_digits, joined, lower_hex, lowercase_of, parse_decimal, parse_root, spelled_bytes,
    spells_root, starts_with_hex_prefix, to_lowercase,
};
use crate::types::errors::ApiError;

verus! {

/// How a request names a block or a state.
#[derive(Debug, Clone, Copy, Eq)]
pub enum ID {
    Finalized,
    Genesis,
    Head,
    Justified,
    Slot(u64),
    /// Written as a 0x-prefixed hex string.
    Root(Root),
}

impl PartialEq for ID {
    fn eq(&self, other: &ID) -> (equal: bool) {
        match (self, other) {
            (ID::Finalized, ID::Finalized) => true,
            (ID::Genesis, ID::Genesis) => true,
            (ID::Head, ID::Head) => true,
            (ID::Justified, ID::Justified) => true,
            (ID::Slot(a), ID::Slot(b)) => *a == *b,
            (ID::Root(a), ID::Root(b)) => *a == *b,
            _ => false,
        }
    }
}

impl PartialEqSpecImpl for ID {
    open spec fn obeys_eq_spec() -> bool {
        true
    }

    open spec fn eq_spec(&self, other: &ID) -> bool {
        *self == *other
    }
}

/// Whether two strings hold the same characters.
pub fn same_text(a: &str, b: &str) -> (same: bool)
    ensures
        same == (a@ == b@),
{
    a.to_owned() == b.to_owned()
}

/// The root that a string spells.
pub open spec fn spelled_root(s: Seq<char>) -> Root {
    choose|root: Root| root@ == spelled_bytes(s)
}

impl ID {
    /// The identifier that `s` stands for, where `lowered` is `s` in lower
    /// case: one of the four names in any case, a root written with `0x`
    /// before 64 hexadecimal digits, or a slot written in decimal digits
    /// that fits 64 bits.
    pub open spec fn read(s: Seq<char>, lowered: Seq<char>) -> Option<ID> {
        if lowered == "finalized"@ {
            Some(ID::Finalized)
        } else if lowered == "genesis"@ {
            Some(ID::Genesis)
        } else if lowered == "head"@ {
            Some(ID::Head)
        } else if lowered == "justified"@ {
            Some(ID::Justified)
        } else if has_hex_prefix(s) {
            if spells_root(s) {
                Some(ID::Root(spelled_root(s)))
            } else {
                None
            }
        } else if all_digits(s) {
            if s.len() > 0 && decimal_value(s) <= u64::MAX {
                Some(ID::Slot(decimal_value(s) as u64))
            } else {
                None
            }
        } else {
            None
        }
    }

    /// What is said of a string that stands for no identifier.
    pub open spec fn complaint(s: Seq<char>) -> Seq<char> {
        if has_hex_prefix(s) {
            "Invalid hex root: "@ + s
        } else if all_digits(s) {
            "Invalid slot number: "@ + s
        } else {
            "Invalid state ID: "@ + s
        }
    }

    /// Reads an identifier from `s`, given `s` in lower case.
    pub fn from_lowered(s: &str, lowered: &str) -> (id: Result<ID, ApiError>)
        ensures
            match id {
                Ok(id) => ID::read(s@, lowered@) == Some(id),
                Err(e) => ID::read(s@, lowered@) is None && e is BadRequest && e->BadRequest_0@
                    == ID::complaint(s@),
            },
    {
        if same_text(lowered, "finalized") {
            Ok(ID::Finalized)
        } else if same_text(lowered, "genesis") {
            Ok(ID::Genesis)
        } else if same_text(lowered, "head") {
            Ok(ID::Head)
        } else if same_text(lowered, "justified") {
            Ok(ID::Justified)
        } else if starts_with_hex_prefix(s) {
            match parse_root(s) {
                Some(root) => {
                    proof {
                        Root::lemma_view_injective(root, spelled_root(s@));
                    }
                    Ok(ID::Root(root))
                },
                None => Err(ApiError::BadRequest(joined("Invalid hex root: ", s))),
            }
        } else if is_all_digits(s) {
            match parse_decimal(s) {
                Some(slot) => Ok(ID::Slot(slot)),
                None => Err(ApiError::BadRequest(joined("Invalid slot number: ", s))),
            }
        } else {
            Err(ApiError::BadRequest(joined("Invalid state ID: ", s)))
        }
    }

    /// Reads an identifier from `s`.
    pub fn from_str(s: &str) -> (id: Result<ID, ApiError>)
        ensures
            match id {
                Ok(id) => ID::read(s@, lowercase_of(s@)) == Some(id),
                Err(e) => ID::read(s@, lowercase_of(s@)) is None && e is BadRequest
                    && e->BadRequest_0@ == ID::complaint(s@),
            },
    {
        let lowered = to_lowercase(s);
        ID::from_lowered(s, lowered.as_str())
    }

    /// The identifier as requests write it.
    pub open spec fn text(self) -> Seq<char> {
        match self {
            ID::Finalized => "finalized"@,
            ID::Genesis => "genesis"@,
            ID::Head => "head"@,
            ID::Justified => "justified"@,
            ID::Slot(slot) => decimal_of(slot as nat),
            ID::Root(root) => "0x"@ + lower_hex(root@),
        }
    }

    pub fn to_string(&self) -> (line: String)
        ensures
            line@ == self.text(),
    {
        match self {
            ID::Finalized => String::from_str("finalized"),
            ID::Genesis => String::from_str("genesis"),
            ID::Head => String::from_str("head"),
            ID::Justified => String::from_str("justified"),
            ID::Slot(slot) => decimal_string(*slot),
            ID::Root(root) => joined("0x", hex_encode(root.bytes.as_slice()).as_str()),
        }
    }

    /// The identifier as messages about it show it: the name of its kind,
    /// with the slot or the root in brackets behind it.
    pub open spec fn shown(self) -> Seq<char> {
        match self {
            ID::Finalized => "Finalized"@,
            ID::Genesis => "Genesis"@,
            ID::Head => "Head"@,
            ID::Justified => "Justified"@,
            ID::Slot(slot) => "Slot("@ + decimal_of(slot as nat) + ")"@,
            ID::Root(root) => "Root("@ + root_shown(root) + ")"@,
        }
    }

    pub fn debug_string(&self) -> (line: String)
        ensures
            line@ == self.shown(),
    {
        match self {
            ID::Finalized => String::from_str("Finalized"),
            ID::Genesis => String::from_str("Genesis"),
            ID::Head => String::from_str("Head"),
            ID::Justified => String::from_str("Justified"),
            ID::Slot(slot) => joined("Slot(", decimal_string(*slot).as_str()).concat(")"),
            ID::Root(root) => joined("Root(", root_debug_string(root).as_str()).concat(")"),
        }
    }
}

/// A root as messages about it show it: `0x` and its 64 hexadecimal digits.
pub open spec fn root_shown(root: Root) -> Seq<char> {
    "0x"@ + lower_hex(root@)
}

pub fn root_debug_string(root: &Root) -> (line: String)
    ensures
        line@ == root_shown(*root),
{
    joined("0x", hex_encode(root.bytes.as_slice()).as_str())
}

/// How a request names a validator.
#[derive(Debug, Clone, Copy)]
pub enum ValidatorID {
    Index(u64),
    /// Written as a 0x-prefixed hex string.
    Address(PubKey),
}

/// The numbers of `bytes` in decimal, with a comma and a space between
/// each two.
pub open spec fn listed(bytes: Seq<u8>) -> Seq<char>
    decreases bytes.len(),
{
    if bytes.len() == 0 {
        Seq::<char>::empty()
    } else if bytes.len() == 1 {
        decimal_of(bytes[0] as nat)
    } else {
        listed(bytes.drop_last()) + ", "@ + decimal_of(bytes.last() as nat)
    }
}

/// Writes the key's bytes as a list of decimal numbers in square brackets.
pub fn byte_list(key: &PubKey) -> (line: String)
    ensures
        line@ == "["@ + listed(key@) + "]"@,
{
    let mut line = String::from_str("[");
    let mut i: usize = 0;
    while i < 48
        invariant
            i <= 48,
            line@ == "["@ + listed(key@.subrange(0, i as int)),
        decreases 48 - i,
    {
        proof {
            let upto = key@.subrange(0, i + 1);
            assert(upto.drop_last() =~= key@.subrange(0, i as int));
            assert(upto.last() == key@[i as int]);
            if i == 0 {
                assert(listed(key@.subrange(0, 0)) =~= Seq::<char>::empty());
            }
        }
        if i > 0 {
            line.append(", ");
        }
        line.append(decimal_string(key.bytes[i] as u64).as_str());
        i += 1;
        assert(line@ =~= "["@ + listed(key@.subrange(0, i as int)));
    }
    assert(key@.subrange(0, 48) =~= key@);
    line.append("]");
    line
}

impl ValidatorID {
    /// The identifier that `s` stands for, where `address` is what reading
    /// `s` as a public key gave: a key written with `0x` in front, or an
    /// index written in decimal digits that fits 64 bits.
    pub open spec fn read(s: Seq<char>, address: Option<PubKey>) -> Option<ValidatorID> {
        if has_hex_prefix(s) {
            match address {
                Some(key) => Some(ValidatorID::Address(key)),
                None => None,
            }
        } else if all_digits(s) {
            if s.len() > 0 && decimal_value(s) <= u64::MAX {
                Some(ValidatorID::Index(decimal_value(s) as u64))
            } else {
                None
            }
        } else {
            None
        }
    }

    /// What is said of a string that stands for no identifier.
    pub open spec fn complaint(s: Seq<char>) -> Seq<char> {
        if has_hex_prefix(s) {
            "Invalid hex address: "@ + s
        } else if all_digits(s) {
            "Invalid validator index: "@ + s
        } else {
            "Invalid validator ID: "@ + s
        }
    }

    /// Reads an identifier from `s`; `address` is what reading `s` as a
    /// public key gave.
    pub fn from_str(s: &str, address: Option<PubKey>) -> (id: Result<ValidatorID, ApiError>)
        ensures
            match id {
                Ok(id) => ValidatorID::read(s@, address) == Some(id),
                Err(e) => ValidatorID::read(s@, address) is None && e is BadRequest
                    && e->BadRequest_0@ == ValidatorID::complaint(s@),
            },
    {
        if starts_with_hex_prefix(s) {
            match address {
                Some(key) => Ok(ValidatorID::Address(key)),
                None => Err(ApiError::BadRequest(joined("Invalid hex address: ", s))),
            }
        } else if is_all_digits(s) {
            match parse_decimal(s) {
                Some(index) => Ok(ValidatorID::Index(index)),
                None => Err(ApiError::BadRequest(joined("Invalid validator index: ", s))),
            }
        } else {
            Err(ApiError::BadRequest(joined("Invalid validator ID: ", s)))
        }
    }

    /// The identifier as requests write it: the index in decimal, or `0x`
    /// and the list of the key's bytes.
    pub open spec fn text(self) -> Seq<char> {
        match self {
            ValidatorID::Index(index) => decimal_of(index as nat),
            ValidatorID::Address(key) => "0x"@ + ("["@ + listed(key@) + "]"@),
        }
    }

    pub fn to_string(&self) -> (line: String)
        ensures
            line@ == self.text(),
    {
        match self {
            ValidatorID::Index(index) => decimal_string(*index),
            ValidatorID::Address(key) => joined("0x", byte_list(key).as_str()),
        }
    }
}

} // verus!
