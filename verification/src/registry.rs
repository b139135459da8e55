//! The registry of synthetic assets: the settings of each, under the
//! address of its token.

use vstd::prelude::*;
use crate::asset::AssetInfo;
use crate::error::MintError;
use crate::state::AssetConfig;

verus! {

/// Whether some settings of `s` are those of the token `k`.
pub open spec fn has_token(s: Seq<AssetConfig>, k: Seq<char>) -> bool {
    exists|i: int| 0 <= i < s.len() && (#[trigger] s[i]).token@ == k
}

/// The place in `s` of the settings of the token `k`.
pub open spec fn token_slot(s: Seq<AssetConfig>, k: Seq<char>) -> int {
    choose|i: int| 0 <= i < s.len() && (#[trigger] s[i]).token@ == k
}

/// No two settings are of the same token.
pub open spec fn distinct_tokens(s: Seq<AssetConfig>) -> bool {
    forall|i: int, j: int|
        0 <= i < j < s.len() ==> (#[trigger] s[i]).token@ != (#[trigger] s[j]).token@
}

/// The settings of `s`, each under its token.
pub open spec fn settings(s: Seq<AssetConfig>) -> Map<Seq<char>, AssetConfig> {
    Map::new(|k: Seq<char>| has_token(s, k), |k: Seq<char>| s[token_slot(s, k)])
}

/// Among settings of distinct tokens, the place of some settings is the
/// place of their token.
proof fn lemma_token_slot(s: Seq<AssetConfig>, i: int)
    requires
        distinct_tokens(s),
        0 <= i < s.len(),
    ensures
        has_token(s, s[i].token@),
        token_slot(s, s[i].token@) == i,
{
    let j = token_slot(s, s[i].token@);
    assert(0 <= j < s.len() && s[j].token@ == s[i].token@);
    if j < i {
        assert(s[j].token@ != s[i].token@);
    } else if i < j {
        assert(s[i].token@ != s[j].token@);
    }
}

/// The settings of the registered synthetic assets, each under the address
/// of its token.
#[derive(Debug)]
pub struct AssetRegistry {
    configs: Vec<AssetConfig>,
}

impl AssetRegistry {
    /// No token is registered twice.
    pub closed spec fn wf(&self) -> bool {
        distinct_tokens(self.configs@)
    }

    /// The settings by token address.
    pub closed spec fn view(&self) -> Map<Seq<char>, AssetConfig> {
        settings(self.configs@)
    }

    /// The settings of the synthetic asset of the given kind: a native
    /// currency is no synthetic asset, and a token has settings once it is
    /// registered.
    pub open spec fn lookup(&self, info: AssetInfo) -> Result<AssetConfig, MintError> {
        match info {
            AssetInfo::Token { contract_addr } => if self@.contains_key(contract_addr@) {
                Ok(self@[contract_addr@])
            } else {
                Err(MintError::NotFound)
            },
            AssetInfo::NativeToken { .. } => Err(MintError::UnsupportedAssetKind),
        }
    }

    /// All settings are kept under the address of their own token.
    pub proof fn lemma_keys(&self)
        ensures
            forall|k: Seq<char>| #[trigger] self@.contains_key(k) ==> self@[k].token@ == k,
    {
        let s = self.configs@;
        assert forall|k: Seq<char>| #[trigger] self@.contains_key(k) implies self@[k].token@
            == k by {
            let i = token_slot(s, k);
            assert(0 <= i < s.len() && s[i].token@ == k);
        }
    }

    /// A registry without assets.
    pub fn new() -> (r: AssetRegistry)
        ensures
            r.wf(),
            r@ == Map::<Seq<char>, AssetConfig>::empty(),
    {
        let r = AssetRegistry { configs: Vec::new() };
        assert(r@ =~= Map::<Seq<char>, AssetConfig>::empty());
        r
    }

    /// The place of the settings of `token`, where there are any.
    fn find(&self, token: &String) -> (r: Option<usize>)
        ensures
            match r {
                Some(i) => i < self.configs@.len() && self.configs@[i as int].token@ == token@,
                None => !has_token(self.configs@, token@),
            },
    {
        let mut i: usize = 0;
        while i < self.configs.len()
            invariant
                i <= self.configs@.len(),
                forall|j: int| 0 <= j < i ==> (#[trigger] self.configs@[j]).token@ != token@,
            decreases self.configs@.len() - i,
        {
            if self.configs[i].token == *token {
                return Some(i);
            }
            i += 1;
        }
        None
    }

    /// The settings of the token at the given address.
    pub fn read_asset_config(&self, token: &String) -> (r: Result<&AssetConfig, MintError>)
        requires
            self.wf(),
        ensures
            match r {
                Ok(c) => self@.contains_key(token@) && *c == self@[token@] && c.token@ == token@,
                Err(e) => e == MintError::NotFound && !self@.contains_key(token@),
            },
    {
        match self.find(token) {
            Some(i) => {
                proof {
                    lemma_token_slot(self.configs@, i as int);
                }
                Ok(&self.configs[i])
            },
            None => Err(MintError::NotFound),
        }
    }

    /// The settings of the synthetic asset of the given kind.
    pub fn read_for(&self, info: &AssetInfo) -> (r: Result<&AssetConfig, MintError>)
        requires
            self.wf(),
        ensures
            match r {
                Ok(c) => self.lookup(*info) == Ok::<AssetConfig, MintError>(*c),
                Err(e) => self.lookup(*info) == Err::<AssetConfig, MintError>(e),
            },
    {
        match info {
            AssetInfo::Token { contract_addr } => self.read_asset_config(contract_addr),
            AssetInfo::NativeToken { .. } => Err(MintError::UnsupportedAssetKind),
        }
    }

    /// Puts the settings under the address of their token, in place of any
    /// that were there.
    pub fn store_asset_config(&mut self, config: AssetConfig)
        requires
            old(self).wf(),
        ensures
            final(self).wf(),
            final(self)@ == old(self)@.insert(config.token@, config),
    {
        let ghost before = self.configs@;
        let ghost key = config.token@;
        match self.find(&config.token) {
            Some(at) => {
                self.configs.set(at, config);
                proof {
                    let after = self.configs@;
                    assert forall|i: int| 0 <= i < after.len() implies (#[trigger] after[i]).token@
                        == before[i].token@ by {}
                    assert(distinct_tokens(after)) by {
                        assert forall|i: int, j: int| 0 <= i < j < after.len() implies (
                        #[trigger] after[i]).token@ != (#[trigger] after[j]).token@ by {
                            assert(before[i].token@ != before[j].token@);
                        }
                    }
                    lemma_token_slot(before, at as int);
                    lemma_token_slot(after, at as int);
                    assert forall|k: Seq<char>| has_token(after, k) <==> has_token(before, k) by {
                        if has_token(before, k) {
                            let i = token_slot(before, k);
                            assert(after[i].token@ == k);
                        }
                        if has_token(after, k) {
                            let i = token_slot(after, k);
                            assert(before[i].token@ == k);
                        }
                    }
                    assert forall|k: Seq<char>| has_token(before, k) && k != key implies after[token_slot(
                        after,
                        k,
                    )] == before[token_slot(before, k)] by {
                        let i = token_slot(before, k);
                        assert(after[i].token@ == k);
                        lemma_token_slot(after, i);
                    }
                    assert(settings(after) =~= settings(before).insert(key, config));
                }
            },
            None => {
                self.configs.push(config);
                proof {
                    let after = self.configs@;
                    let last = before.len() as int;
                    assert(after == before.push(config));
                    assert(distinct_tokens(after)) by {
                        assert forall|i: int, j: int| 0 <= i < j < after.len() implies (
                        #[trigger] after[i]).token@ != (#[trigger] after[j]).token@ by {
                            if j == last {
                                assert(before[i].token@ != key);
                            } else {
                                assert(before[i].token@ != before[j].token@);
                            }
                        }
                    }
                    lemma_token_slot(after, last);
                    assert forall|k: Seq<char>| has_token(after, k) <==> (k == key || has_token(
                        before,
                        k,
                    )) by {
                        if has_token(before, k) {
                            let i = token_slot(before, k);
                            assert(after[i].token@ == k);
                        }
                        if has_token(after, k) && k != key {
                            let i = token_slot(after, k);
                            assert(before[i].token@ == k);
                        }
                    }
                    assert forall|k: Seq<char>| has_token(before, k) && k != key implies after[token_slot(
                        after,
                        k,
                    )] == before[token_slot(before, k)] by {
                        let i = token_slot(before, k);
                        assert(after[i].token@ == k);
                        lemma_token_slot(after, i);
                    }
                    assert(settings(after) =~= settings(before).insert(key, config));
                }
            },
        }
    }
}

impl AssetRegistry {
    /// The settings in the order in which their tokens were registered.
    pub closed spec fn listed(&self) -> Seq<AssetConfig> {
        self.configs@
    }

    /// The listing holds the registry's settings, each token once.
    pub proof fn lemma_listed(&self)
        requires
            self.wf(),
        ensures
            distinct_tokens(self.listed()),
            self@ == settings(self.listed()),
    {
    }

    /// All settings, in the order in which their tokens were registered.
    pub fn read_asset_configs(&self) -> (r: Vec<AssetConfig>)
        ensures
            r@ == self.listed(),
    {
        let mut out: Vec<AssetConfig> = Vec::new();
        let mut i: usize = 0;
        while i < self.configs.len()
            invariant
                i <= self.configs@.len(),
                out@ == self.configs@.take(i as int),
            decreases self.configs@.len() - i,
        {
            let c = &self.configs[i];
            out.push(
                AssetConfig {
                    token: c.token.clone(),
                    min_collateral_ratio: c.min_collateral_ratio,
                    end_price: c.end_price,
                },
            );
            assert(out@ =~= self.configs@.take(i + 1));
            i += 1;
        }
        assert(self.configs@.take(i as int) =~= self.configs@);
        out
    }
}

} // verus!
