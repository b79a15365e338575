//! EVM calldata for the remote contract's entry points: a 4-byte selector
//! followed by one 32-byte word per argument.

use crate::address::EvmAddress;
use crate::uint256::Uint256;
use ethabi::{Address, Function, Param, ParamType, StateMutability, Token, Uint};
use vstd::prelude::*;

verus! {

/// The type of an argument, as the remote contract declares it.
#[derive(Clone, Copy, Debug, PartialEq, Eq, Structural)]
pub enum ParamKind {
    /// `uint256`
    Uint256,
    /// `address`
    Address,
}

impl ParamKind {
    /// The type's name as it stands in a function signature.
    pub open spec fn abi_name(self) -> Seq<char> {
        match self {
            ParamKind::Uint256 => "uint256"@,
            ParamKind::Address => "address"@,
        }
    }
}

/// The number of arguments that a call must stay below: the encoder counts
/// the bytes of the argument words, 32 for each, in 32 bits.
pub const MAX_ARGUMENTS: usize = 0x0800_0000;

/// The twelve zero bytes that stand before an address in its word.
pub open spec fn address_padding() -> Seq<u8> {
    Seq::new(12, |i: int| 0u8)
}

/// An argument of a call.
#[derive(Clone, Copy, Debug, PartialEq, Eq)]
pub enum AbiValue {
    /// A `uint256` argument.
    Uint(Uint256),
    /// An `address` argument.
    Address(EvmAddress),
}

impl AbiValue {
    /// The type that the argument is a value of.
    pub open spec fn spec_kind(&self) -> ParamKind {
        match self {
            AbiValue::Uint(_) => ParamKind::Uint256,
            AbiValue::Address(_) => ParamKind::Address,
        }
    }

    /// The 32-byte word that encodes the argument: a number as its
    /// big-endian bytes, an address left-padded with twelve zero bytes.
    pub open spec fn word(self) -> Seq<u8> {
        match self {
            AbiValue::Uint(n) => n.be_bytes(),
            AbiValue::Address(a) => address_padding() + a.bytes(),
        }
    }

    /// The type that the argument is a value of.
    #[verifier::when_used_as_spec(spec_kind)]
    pub fn kind(&self) -> (r: ParamKind)
        ensures
            r == self.spec_kind(),
    {
        match self {
            AbiValue::Uint(_) => ParamKind::Uint256,
            AbiValue::Address(_) => ParamKind::Address,
        }
    }

    /// Every word has 32 bytes.
    pub broadcast proof fn lemma_word_len(self)
        ensures
            #[trigger] self.word().len() == 32,
    {
        broadcast use Uint256::lemma_be_bytes_len, EvmAddress::lemma_bytes_len;
    }
}

/// The type names of a parameter list, separated by commas.
pub open spec fn joined_abi_names(kinds: Seq<ParamKind>) -> Seq<char>
    decreases kinds.len(),
{
    if kinds.len() == 0 {
        Seq::empty()
    } else if kinds.len() == 1 {
        kinds[0].abi_name()
    } else {
        joined_abi_names(kinds.drop_last()) + seq![','] + kinds.last().abi_name()
    }
}

/// The canonical signature of a function: its name, then its parameter
/// types in parentheses, separated by commas, without spaces.
pub open spec fn canonical_signature(name: Seq<char>, kinds: Seq<ParamKind>) -> Seq<char> {
    name + seq!['('] + joined_abi_names(kinds) + seq![')']
}

/// The selector of a canonical signature: the first four bytes of the
/// Keccak-256 digest of its UTF-8 text, as `ethabi::short_signature` takes
/// them.
pub uninterp spec fn selector(signature: Seq<char>) -> Seq<u8>;

/// Whether the arguments are, one by one, of the declared types.
pub open spec fn types_check(kinds: Seq<ParamKind>, values: Seq<AbiValue>) -> bool {
    &&& kinds.len() == values.len()
    &&& forall|i: int| 0 <= i < kinds.len() ==> (#[trigger] values[i]).spec_kind() == kinds[i]
}

/// The words of the arguments, one after the other.
pub open spec fn encode_words(values: Seq<AbiValue>) -> Seq<u8>
    decreases values.len(),
{
    if values.len() == 0 {
        Seq::empty()
    } else {
        encode_words(values.drop_last()) + values.last().word()
    }
}

/// The calldata of a call: the selector of the function's signature, then
/// the argument words.
pub open spec fn call_data(name: Seq<char>, kinds: Seq<ParamKind>, values: Seq<AbiValue>) -> Seq<u8> {
    selector(canonical_signature(name, kinds)) + encode_words(values)
}

/// The argument words take 32 bytes each.
pub proof fn lemma_encode_words_len(values: Seq<AbiValue>)
    ensures
        encode_words(values).len() == 32 * values.len(),
    decreases values.len(),
{
    broadcast use AbiValue::lemma_word_len;
    if values.len() > 0 {
        lemma_encode_words_len(values.drop_last());
    }
}

/// One more argument adds its word at the end.
pub proof fn lemma_encode_words_push(values: Seq<AbiValue>, value: AbiValue)
    ensures
        encode_words(values.push(value)) == encode_words(values) + value.word(),
{
    assert(values.push(value).drop_last() =~= values);
}

/// Each argument's word stands at its place, 32 bytes for each argument
/// before it.
pub proof fn lemma_word_at(values: Seq<AbiValue>, i: int)
    requires
        0 <= i < values.len(),
    ensures
        encode_words(values).subrange(32 * i, 32 * i + 32) == values[i].word(),
    decreases values.len(),
{
    broadcast use AbiValue::lemma_word_len;
    let front = values.drop_last();
    lemma_encode_words_len(front);
    lemma_encode_words_len(values);
    if i < front.len() {
        lemma_word_at(front, i);
        assert(encode_words(values).subrange(32 * i, 32 * i + 32) =~= encode_words(front).subrange(
            32 * i,
            32 * i + 32,
        ));
    } else {
        assert(encode_words(values).subrange(32 * i, 32 * i + 32) =~= values[i].word());
    }
}

/// An argument can be read back from its word, given its type.
pub proof fn lemma_word_injective(a: AbiValue, b: AbiValue)
    requires
        a.spec_kind() == b.spec_kind(),
        a.word() == b.word(),
    ensures
        a == b,
{
    broadcast use Uint256::lemma_be_bytes_len, EvmAddress::lemma_bytes_len;
    match (a, b) {
        (AbiValue::Uint(m), AbiValue::Uint(n)) => {
            m.lemma_be_bytes_injective(n);
        },
        (AbiValue::Address(x), AbiValue::Address(y)) => {
            assert(a.word().skip(12) =~= x.bytes());
            assert(b.word().skip(12) =~= y.bytes());
            x.lemma_bytes_injective(y);
        },
        _ => {},
    }
}

/// The arguments can be read back from their words: two argument lists of
/// the same types with the same words are the same list.
pub proof fn lemma_arguments_recoverable(kinds: Seq<ParamKind>, a: Seq<AbiValue>, b: Seq<AbiValue>)
    requires
        types_check(kinds, a),
        types_check(kinds, b),
        encode_words(a) == encode_words(b),
    ensures
        a == b,
{
    assert forall|i: int| 0 <= i < a.len() implies a[i] == b[i] by {
        lemma_word_at(a, i);
        lemma_word_at(b, i);
        lemma_word_injective(a[i], b[i]);
    }
    assert(a =~= b);
}

/// The same words, one by one, give the same bytes.
pub proof fn lemma_words_deterministic(a: Seq<AbiValue>, b: Seq<AbiValue>)
    requires
        a.len() == b.len(),
        forall|i: int| 0 <= i < a.len() ==> (#[trigger] a[i]).word() == b[i].word(),
    ensures
        encode_words(a) == encode_words(b),
    decreases a.len(),
{
    if a.len() > 0 {
        lemma_words_deterministic(a.drop_last(), b.drop_last());
        assert(a.last().word() == b.last().word());
    }
}

/// Calldata is determined by the function's name, its parameter types and
/// the arguments' words: the same of each gives the same bytes.
pub proof fn lemma_call_data_deterministic(
    name: Seq<char>,
    kinds: Seq<ParamKind>,
    a: Seq<AbiValue>,
    b: Seq<AbiValue>,
)
    requires
        a.len() == b.len(),
        forall|i: int| 0 <= i < a.len() ==> (#[trigger] a[i]).word() == b[i].word(),
    ensures
        call_data(name, kinds, a) == call_data(name, kinds, b),
{
    lemma_words_deterministic(a, b);
}

/// Decides whether the arguments are of the declared types.
pub fn check_types(kinds: &Vec<ParamKind>, values: &Vec<AbiValue>) -> (r: bool)
    ensures
        r == types_check(kinds@, values@),
{
    if kinds.len() != values.len() {
        return false;
    }
    let mut i: usize = 0;
    while i < kinds.len()
        invariant
            kinds.len() == values.len(),
            i <= kinds.len(),
            forall|j: int| 0 <= j < i ==> (#[trigger] values[j]).spec_kind() == kinds[j],
        decreases kinds.len() - i,
    {
        if values[i].kind() != kinds[i] {
            return false;
        }
        i += 1;
    }
    true
}

/// Encodes a call of the function `name` with the declared parameter
/// types, or returns `None` where the arguments are not of those types.
/// The function has fewer than [`MAX_ARGUMENTS`] parameters.
pub fn encode_call(name: &str, kinds: &Vec<ParamKind>, values: &Vec<AbiValue>) -> (r: Option<Vec<u8>>)
    requires
        kinds@.len() < MAX_ARGUMENTS,
    ensures
        r is Some <==> types_check(kinds@, values@),
        r matches Some(data) ==> data@ == call_data(name@, kinds@, values@) && data@.len() == 4 + 32
            * values@.len(),
{
    if check_types(kinds, values) {
        Some(encode_input(name, kinds, values))
    } else {
        None
    }
}

/// Calls `ethabi::Function::encode_input` on a function with the given
/// name and input types. The contract claims, for arguments of the declared
/// types (on others the call fails): the result is the 4-byte short
/// signature, which is named and not computed here, followed by one 32-byte
/// word per argument, a number as its big-endian bytes and an address after
/// twelve zero bytes; and the signature hashed is the name and the
/// comma-separated type names in parentheses. The encoder adds up 32 bytes
/// per argument in a `u32`, which overflows from [`MAX_ARGUMENTS`] on, so
/// such calls are left out.
#[verifier::external_body]
pub(crate) fn encode_input(name: &str, kinds: &Vec<ParamKind>, values: &Vec<AbiValue>) -> (r: Vec<u8>)
    requires
        types_check(kinds@, values@),
        values@.len() < MAX_ARGUMENTS,
    ensures
        r@ == selector(canonical_signature(name@, kinds@)) + encode_words(values@),
        r@.len() == 4 + 32 * values@.len(),
{
    let inputs = kinds.iter().map(|k| Param {
        name: String::new(),
        kind: match k { ParamKind::Uint256 => ParamType::Uint(256), ParamKind::Address => ParamType::Address },
        internal_type: None,
    }).collect();
    let tokens: Vec<Token> = values.iter().map(|v| match v {
        AbiValue::Uint(n) => Token::Uint(Uint::from_big_endian(&n.to_be_bytes())),
        AbiValue::Address(a) => Token::Address(Address::from(a.to_bytes())),
    }).collect();
    #[allow(deprecated)]
    let function = Function { name: name.to_owned(), inputs, outputs: Vec::new(), constant: None, state_mutability: StateMutability::NonPayable };
    function.encode_input(&tokens).unwrap()
}

} // verus!
