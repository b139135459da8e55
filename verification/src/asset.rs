//! Kinds and amounts of assets, and the funds that come with a request.

use vstd::prelude::*;
use crate::error::MintError;

verus! {

/// The kind of an asset: a native currency, named by its denomination, or a
/// token, named by the address of its contract.
#[derive(Debug, PartialEq, Eq)]
pub enum AssetInfo {
    NativeToken { denom: String },
    Token { contract_addr: String },
}

/// An amount of one kind of asset.
#[derive(Debug, PartialEq, Eq)]
pub struct Asset {
    pub info: AssetInfo,
    pub amount: u128,
}

/// An amount of a native currency that came with a message.
#[derive(Clone, Debug, PartialEq, Eq)]
pub struct Coin {
    pub denom: String,
    pub amount: u128,
}

/// The amount of the first coin of the given denomination among
/// `funds[from..]`, or zero where there is none.
pub open spec fn sent_from(funds: Seq<Coin>, denom: Seq<char>, from: int) -> u128
    decreases funds.len() - from,
{
    if from < 0 || from >= funds.len() {
        0
    } else if funds[from].denom@ == denom {
        funds[from].amount
    } else {
        sent_from(funds, denom, from + 1)
    }
}

/// A native asset is covered by the funds where they hold exactly its
/// amount; a token is not paid in funds.
pub open spec fn funds_fit(asset: Asset, funds: Seq<Coin>) -> bool {
    match asset.info {
        AssetInfo::NativeToken { denom } => asset.amount == sent_from(funds, denom@, 0),
        AssetInfo::Token { .. } => true,
    }
}

impl AssetInfo {
    /// Two kinds are the same where both are native with the same
    /// denomination, or both are tokens of the same contract.
    pub open spec fn same(self, other: AssetInfo) -> bool {
        match (self, other) {
            (AssetInfo::NativeToken { denom: a }, AssetInfo::NativeToken { denom: b }) => a@ == b@,
            (AssetInfo::Token { contract_addr: a }, AssetInfo::Token { contract_addr: b }) => a@
                == b@,
            _ => false,
        }
    }

    /// Whether the two kinds are the same.
    pub fn equal(&self, other: &AssetInfo) -> (r: bool)
        ensures
            r == self.same(*other),
    {
        match self {
            AssetInfo::NativeToken { denom } => match other {
                AssetInfo::NativeToken { denom: other_denom } => *denom == *other_denom,
                AssetInfo::Token { .. } => false,
            },
            AssetInfo::Token { contract_addr } => match other {
                AssetInfo::Token { contract_addr: other_addr } => *contract_addr == *other_addr,
                AssetInfo::NativeToken { .. } => false,
            },
        }
    }

    /// Whether the kind is a native currency.
    pub fn is_native_token(&self) -> (r: bool)
        ensures
            r == (self is NativeToken),
    {
        match self {
            AssetInfo::NativeToken { .. } => true,
            AssetInfo::Token { .. } => false,
        }
    }
}

impl Clone for AssetInfo {
    fn clone(&self) -> (r: Self)
        ensures
            r == *self,
    {
        match self {
            AssetInfo::NativeToken { denom } => AssetInfo::NativeToken { denom: denom.clone() },
            AssetInfo::Token { contract_addr } => AssetInfo::Token {
                contract_addr: contract_addr.clone(),
            },
        }
    }
}

impl Asset {
    /// Whether the asset is of a native currency.
    pub fn is_native_token(&self) -> (r: bool)
        ensures
            r == (self.info is NativeToken),
    {
        self.info.is_native_token()
    }
}

impl Asset {
    /// Rejects a native asset whose amount is not the amount of its
    /// currency among the funds.
    pub fn assert_sent_native_token_balance(&self, funds: &Vec<Coin>) -> (r: Result<(), MintError>)
        ensures
            r == (if funds_fit(*self, funds@) {
                Ok::<(), MintError>(())
            } else {
                Err::<(), MintError>(MintError::FundsMismatch)
            }),
    {
        match &self.info {
            AssetInfo::NativeToken { denom } => {
                let mut i: usize = 0;
                while i < funds.len()
                    invariant
                        i <= funds@.len(),
                        self.info == (AssetInfo::NativeToken { denom: *denom }),
                        sent_from(funds@, denom@, 0) == sent_from(funds@, denom@, i as int),
                    decreases funds@.len() - i,
                {
                    if funds[i].denom == *denom {
                        assert(sent_from(funds@, denom@, i as int) == funds@[i as int].amount);
                        if funds[i].amount == self.amount {
                            return Ok(());
                        } else {
                            return Err(MintError::FundsMismatch);
                        }
                    }
                    i += 1;
                }
                if self.amount == 0 {
                    Ok(())
                } else {
                    Err(MintError::FundsMismatch)
                }
            },
            AssetInfo::Token { .. } => Ok(()),
        }
    }
}

impl Clone for Asset {
    fn clone(&self) -> (r: Self)
        ensures
            r == *self,
    {
        Asset { info: self.info.clone(), amount: self.amount }
    }
}

} // verus!
