//! The entry points of the remote contract and the calldata of each.

use crate::abi::{
    address_padding, canonical_signature, encode_input, encode_words, lemma_encode_words_push, selector,
    types_check, AbiValue, ParamKind,
};
use crate::address::EvmAddress;
use crate::uint256::Uint256;
use vstd::prelude::*;

verus! {

/// An entry point of the remote contract.
#[derive(Clone, Copy, Debug, PartialEq, Eq, Structural)]
pub enum TargetFunction {
    /// `swap(uint256,uint256)`
    Swap,
    /// `set_paloma()`
    SetPaloma,
    /// `update_compass(address)`
    UpdateCompass,
    /// `update_refund_wallet(address)`
    UpdateRefundWallet,
    /// `update_fee(uint256)`
    UpdateFee,
}

impl TargetFunction {
    /// The function's name.
    pub open spec fn spec_name(&self) -> Seq<char> {
        match self {
            TargetFunction::Swap => "swap"@,
            TargetFunction::SetPaloma => "set_paloma"@,
            TargetFunction::UpdateCompass => "update_compass"@,
            TargetFunction::UpdateRefundWallet => "update_refund_wallet"@,
            TargetFunction::UpdateFee => "update_fee"@,
        }
    }

    /// The types of the function's parameters, in order.
    pub open spec fn spec_inputs(&self) -> Seq<ParamKind> {
        match self {
            TargetFunction::Swap => seq![ParamKind::Uint256, ParamKind::Uint256],
            TargetFunction::SetPaloma => seq![],
            TargetFunction::UpdateCompass => seq![ParamKind::Address],
            TargetFunction::UpdateRefundWallet => seq![ParamKind::Address],
            TargetFunction::UpdateFee => seq![ParamKind::Uint256],
        }
    }

    /// The function's canonical signature, which its selector is derived
    /// from.
    pub open spec fn signature(&self) -> Seq<char> {
        match self {
            TargetFunction::Swap => "swap(uint256,uint256)"@,
            TargetFunction::SetPaloma => "set_paloma()"@,
            TargetFunction::UpdateCompass => "update_compass(address)"@,
            TargetFunction::UpdateRefundWallet => "update_refund_wallet(address)"@,
            TargetFunction::UpdateFee => "update_fee(uint256)"@,
        }
    }

    /// The calldata of a call of the function with the given arguments.
    pub open spec fn call_data(&self, values: Seq<AbiValue>) -> Seq<u8> {
        selector(self.signature()) + encode_words(values)
    }

    /// The signature is the canonical one of the name and the parameter
    /// types.
    pub proof fn lemma_signature(&self)
        ensures
            canonical_signature(self.spec_name(), self.spec_inputs()) == self.signature(),
    {
        reveal_with_fuel(crate::abi::joined_abi_names, 3);
        reveal_strlit("uint256");
        reveal_strlit("address");
        match self {
            TargetFunction::Swap => {
                reveal_strlit("swap");
                reveal_strlit("swap(uint256,uint256)");
                let kinds = self.spec_inputs();
                assert(kinds.drop_last() =~= seq![ParamKind::Uint256]);
                assert(canonical_signature(self.spec_name(), kinds) =~= self.signature());
            },
            TargetFunction::SetPaloma => {
                reveal_strlit("set_paloma");
                reveal_strlit("set_paloma()");
                assert(canonical_signature(self.spec_name(), self.spec_inputs()) =~= self.signature());
            },
            TargetFunction::UpdateCompass => {
                reveal_strlit("update_compass");
                reveal_strlit("update_compass(address)");
                assert(canonical_signature(self.spec_name(), self.spec_inputs()) =~= self.signature());
            },
            TargetFunction::UpdateRefundWallet => {
                reveal_strlit("update_refund_wallet");
                reveal_strlit("update_refund_wallet(address)");
                assert(canonical_signature(self.spec_name(), self.spec_inputs()) =~= self.signature());
            },
            TargetFunction::UpdateFee => {
                reveal_strlit("update_fee");
                reveal_strlit("update_fee(uint256)");
                assert(canonical_signature(self.spec_name(), self.spec_inputs()) =~= self.signature());
            },
        }
    }

    /// The function's name.
    pub fn name(&self) -> (r: &'static str)
        ensures
            r@ == self.spec_name(),
    {
        match self {
            TargetFunction::Swap => "swap",
            TargetFunction::SetPaloma => "set_paloma",
            TargetFunction::UpdateCompass => "update_compass",
            TargetFunction::UpdateRefundWallet => "update_refund_wallet",
            TargetFunction::UpdateFee => "update_fee",
        }
    }

    /// The types of the function's parameters, in order.
    pub fn inputs(&self) -> (r: Vec<ParamKind>)
        ensures
            r@ == self.spec_inputs(),
    {
        let r = match self {
            TargetFunction::Swap => vec![ParamKind::Uint256, ParamKind::Uint256],
            TargetFunction::SetPaloma => Vec::new(),
            TargetFunction::UpdateCompass => vec![ParamKind::Address],
            TargetFunction::UpdateRefundWallet => vec![ParamKind::Address],
            TargetFunction::UpdateFee => vec![ParamKind::Uint256],
        };
        assert(r@ =~= self.spec_inputs());
        r
    }

    /// Encodes a call of the function, or returns `None` where the
    /// arguments are not of the types of its parameters.
    pub fn encode(&self, values: &Vec<AbiValue>) -> (r: Option<Vec<u8>>)
        ensures
            r is Some <==> types_check(self.spec_inputs(), values@),
            r matches Some(data) ==> data@ == self.call_data(values@) && data@.len() == 4 + 32
                * values@.len(),
    {
        let kinds = self.inputs();
        proof {
            self.lemma_signature();
        }
        crate::abi::encode_call(self.name(), &kinds, values)
    }
}

/// The calldata of `swap(swap_id, amount_out_min)`.
pub fn swap_payload(swap_id: Uint256, amount_out_min: Uint256) -> (r: Vec<u8>)
    ensures
        r@ == selector("swap(uint256,uint256)"@) + swap_id.be_bytes() + amount_out_min.be_bytes(),
        r@.len() == 68,
        r@ == TargetFunction::Swap.call_data(seq![AbiValue::Uint(swap_id), AbiValue::Uint(amount_out_min)]),
{
    let function = TargetFunction::Swap;
    let kinds = function.inputs();
    let values = vec![AbiValue::Uint(swap_id), AbiValue::Uint(amount_out_min)];
    proof {
        function.lemma_signature();
        let first = seq![AbiValue::Uint(swap_id)];
        lemma_encode_words_push(Seq::empty(), AbiValue::Uint(swap_id));
        lemma_encode_words_push(first, AbiValue::Uint(amount_out_min));
        assert(Seq::<AbiValue>::empty().push(AbiValue::Uint(swap_id)) =~= first);
        assert(first.push(AbiValue::Uint(amount_out_min)) =~= values@);
        assert(encode_words(values@) =~= swap_id.be_bytes() + amount_out_min.be_bytes());
    }
    encode_input(function.name(), &kinds, &values)
}

/// The calldata of `set_paloma()`.
pub fn set_paloma_payload() -> (r: Vec<u8>)
    ensures
        r@ == selector("set_paloma()"@),
        r@.len() == 4,
        r@ == TargetFunction::SetPaloma.call_data(seq![]),
{
    let function = TargetFunction::SetPaloma;
    let kinds = function.inputs();
    let values: Vec<AbiValue> = Vec::new();
    proof {
        function.lemma_signature();
        assert(selector(function.signature()) + encode_words(values@) =~= selector(function.signature()));
    }
    encode_input(function.name(), &kinds, &values)
}

/// The calldata of `update_compass(new_compass)`.
pub fn update_compass_payload(new_compass: EvmAddress) -> (r: Vec<u8>)
    ensures
        r@ == selector("update_compass(address)"@) + address_padding() + new_compass.bytes(),
        r@.len() == 36,
        r@ == TargetFunction::UpdateCompass.call_data(seq![AbiValue::Address(new_compass)]),
{
    let function = TargetFunction::UpdateCompass;
    let kinds = function.inputs();
    let values = vec![AbiValue::Address(new_compass)];
    proof {
        function.lemma_signature();
        lemma_encode_words_push(Seq::empty(), AbiValue::Address(new_compass));
        assert(Seq::<AbiValue>::empty().push(AbiValue::Address(new_compass)) =~= values@);
        assert(encode_words(values@) =~= address_padding() + new_compass.bytes());
    }
    encode_input(function.name(), &kinds, &values)
}

/// The calldata of `update_refund_wallet(new_refund_wallet)`.
pub fn update_refund_wallet_payload(new_refund_wallet: EvmAddress) -> (r: Vec<u8>)
    ensures
        r@ == selector("update_refund_wallet(address)"@) + address_padding()
            + new_refund_wallet.bytes(),
        r@.len() == 36,
        r@ == TargetFunction::UpdateRefundWallet.call_data(seq![AbiValue::Address(new_refund_wallet)]),
{
    let function = TargetFunction::UpdateRefundWallet;
    let kinds = function.inputs();
    let values = vec![AbiValue::Address(new_refund_wallet)];
    proof {
        function.lemma_signature();
        lemma_encode_words_push(Seq::empty(), AbiValue::Address(new_refund_wallet));
        assert(Seq::<AbiValue>::empty().push(AbiValue::Address(new_refund_wallet)) =~= values@);
        assert(encode_words(values@) =~= address_padding() + new_refund_wallet.bytes());
    }
    encode_input(function.name(), &kinds, &values)
}

/// The calldata of `update_fee(new_fee)`.
pub fn update_fee_payload(new_fee: Uint256) -> (r: Vec<u8>)
    ensures
        r@ == selector("update_fee(uint256)"@) + new_fee.be_bytes(),
        r@.len() == 36,
        r@ == TargetFunction::UpdateFee.call_data(seq![AbiValue::Uint(new_fee)]),
{
    let function = TargetFunction::UpdateFee;
    let kinds = function.inputs();
    let values = vec![AbiValue::Uint(new_fee)];
    proof {
        function.lemma_signature();
        lemma_encode_words_push(Seq::empty(), AbiValue::Uint(new_fee));
        assert(Seq::<AbiValue>::empty().push(AbiValue::Uint(new_fee)) =~= values@);
        assert(encode_words(values@) =~= new_fee.be_bytes());
    }
    encode_input(function.name(), &kinds, &values)
}

} // verus!
