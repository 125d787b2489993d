//! Provider configuration: which language-model providers are known, their
//! environment variables and models, and which one is selected.  Loading,
//! saving and applying environment variables belong to the surrounding
//! process; the rules over the data live here.

use vstd::prelude::*;
use crate::textutil::{spec_decimal, str_eq, usize_to_string};
use vstd::string::StringExecFns;

verus! {

/// How tool calls are issued against a provider.
#[derive(Clone, Copy, Debug, PartialEq, Eq, Structural)]
pub enum ToolCallMethod {
    FunctionCall,
    FunctionCallRequired,
    StructuredOutput,
}

/// One provider: its name, the environment variables it needs, the model to
/// use, and how tool calls are issued.
#[derive(Clone, Debug, PartialEq)]
pub struct ProviderConfig {
    pub provider: String,
    pub env_vars: Vec<(String, String)>,
    pub model: String,
    pub tool_method: ToolCallMethod,
}

/// The configuration: the known providers and which one is selected.
#[derive(Clone, Debug, PartialEq)]
pub struct WakeConfig {
    pub providers: Vec<ProviderConfig>,
    pub selected_provider: usize,
}

/// The environment variables as character pairs, for order-respecting
/// comparison.
pub open spec fn env_pairs(v: Seq<(String, String)>) -> Seq<(Seq<char>, Seq<char>)> {
    v.map(|i: int, p: (String, String)| (p.0@, p.1@))
}

/// Whether two environment-variable lists agree pair for pair.
fn env_vars_eq(a: &Vec<(String, String)>, b: &Vec<(String, String)>) -> (r: bool)
    ensures
        r == (env_pairs(a@) == env_pairs(b@)),
{
    let n = a.len();
    if n != b.len() {
        proof {
            assert(env_pairs(a@).len() != env_pairs(b@).len());
        }
        return false;
    }
    for i in 0..n
        invariant
            n == a@.len(),
            n == b@.len(),
            forall|k: int| 0 <= k < i ==> a@[k].0@ == b@[k].0@ && a@[k].1@ == b@[k].1@,
    {
        if !str_eq(a[i].0.as_str(), b[i].0.as_str()) || !str_eq(a[i].1.as_str(), b[i].1.as_str()) {
            proof {
                assert(env_pairs(a@)[i as int] != env_pairs(b@)[i as int]);
            }
            return false;
        }
    }
    proof {
        assert(env_pairs(a@) =~= env_pairs(b@));
    }
    true
}

/// Whether some provider equals the given name, variables and model.
pub open spec fn spec_has_duplicate(
    ps: Seq<ProviderConfig>,
    provider_name: Seq<char>,
    env_vars: Seq<(String, String)>,
    model: Seq<char>,
) -> bool {
    exists|i: int|
        0 <= i < ps.len() && (#[trigger] ps[i]).provider@ == provider_name && env_pairs(
            ps[i].env_vars@,
        ) == env_pairs(env_vars) && ps[i].model@ == model
}

/// The indices of the providers of the given type, in order.
pub open spec fn spec_indices_of_type(ps: Seq<ProviderConfig>, t: Seq<char>) -> Seq<usize>
    decreases ps.len(),
{
    if ps.len() == 0 {
        Seq::empty()
    } else {
        spec_indices_of_type(ps.drop_last(), t) + (if ps.last().provider@ == t {
            seq![(ps.len() - 1) as usize]
        } else {
            Seq::empty()
        })
    }
}

/// The out-of-bounds message for a provider index.
pub open spec fn spec_index_message(index: nat, count: nat) -> Seq<char> {
    "Provider index "@ + spec_decimal(index) + " out of bounds (have "@ + spec_decimal(count)
        + " providers)"@
}

fn index_message(index: usize, count: usize) -> (r: String)
    ensures
        r@ == spec_index_message(index as nat, count as nat),
{
    let mut s = "Provider index ".to_owned();
    let d = usize_to_string(index);
    s.append(d.as_str());
    s.append(" out of bounds (have ");
    let c = usize_to_string(count);
    s.append(c.as_str());
    s.append(" providers)");
    proof {
        assert(s@ =~= spec_index_message(index as nat, count as nat));
    }
    s
}

impl WakeConfig {
    /// Register a provider (tool calls default to function calling) and
    /// return its index.
    pub fn add_provider(
        &mut self,
        provider: String,
        env_vars: Vec<(String, String)>,
        model: String,
    ) -> (r: usize)
        ensures
            final(self).providers@ == old(self).providers@.push(
                ProviderConfig { provider, env_vars, model, tool_method: ToolCallMethod::FunctionCall },
            ),
            final(self).selected_provider == old(self).selected_provider,
            r == old(self).providers@.len(),
    {
        let provider_config = ProviderConfig {
            provider,
            env_vars,
            model,
            tool_method: ToolCallMethod::FunctionCall,
        };
        self.providers.push(provider_config);
        self.providers.len() - 1
    }

    /// Whether this exact provider entry is already registered.
    pub fn is_duplicate_config(
        &self,
        provider_name: &str,
        env_vars: &Vec<(String, String)>,
        model: &str,
    ) -> (r: bool)
        ensures
            r == spec_has_duplicate(self.providers@, provider_name@, env_vars@, model@),
    {
        let n = self.providers.len();
        for i in 0..n
            invariant
                n == self.providers@.len(),
                forall|k: int|
                    0 <= k < i ==> !((#[trigger] self.providers@[k]).provider@ == provider_name@
                        && env_pairs(self.providers@[k].env_vars@) == env_pairs(env_vars@)
                        && self.providers@[k].model@ == model@),
        {
            let p = &self.providers[i];
            if str_eq(p.provider.as_str(), provider_name) && env_vars_eq(&p.env_vars, env_vars)
                && str_eq(p.model.as_str(), model) {
                return true;
            }
        }
        false
    }

    /// The selected provider, if the selection is in range.
    pub fn get_selected_provider(&self) -> (r: Option<&ProviderConfig>)
        ensures
            match r {
                Some(p) => self.selected_provider < self.providers@.len() && *p
                    == self.providers@[self.selected_provider as int],
                None => self.selected_provider >= self.providers@.len(),
            },
    {
        if self.selected_provider < self.providers.len() {
            Some(&self.providers[self.selected_provider])
        } else {
            None
        }
    }

    /// The selected provider, mutably, if the selection is in range.
    pub fn get_selected_provider_mut(&mut self) -> (r: Option<&mut ProviderConfig>)
        ensures
            old(self).selected_provider < old(self).providers@.len() ==> ({
                &&& r.is_some()
                &&& *r.unwrap() == old(self).providers@[old(self).selected_provider as int]
                &&& final(self).providers@ == old(self).providers@.update(
                    old(self).selected_provider as int,
                    *final(r.unwrap()),
                )
                &&& final(self).selected_provider == old(self).selected_provider
            }),
            old(self).selected_provider >= old(self).providers@.len() ==> ({
                &&& r.is_none()
                &&& *final(self) == *old(self)
            }),
    {
        if self.selected_provider < self.providers.len() {
            let idx = self.selected_provider;
            Some(&mut self.providers[idx])
        } else {
            None
        }
    }

    /// Select a provider by index; an out-of-range index is rejected with a
    /// message naming it.
    pub fn set_selected_provider(&mut self, index: usize) -> (r: Result<(), String>)
        ensures
            if index < old(self).providers@.len() {
                &&& r is Ok
                &&& final(self).selected_provider == index
                &&& final(self).providers@ == old(self).providers@
            } else {
                &&& (r matches Err(m) && m@ == spec_index_message(
                    index as nat,
                    old(self).providers@.len(),
                ))
                &&& *final(self) == *old(self)
            },
    {
        if index < self.providers.len() {
            self.selected_provider = index;
            Ok(())
        } else {
            Err(index_message(index, self.providers.len()))
        }
    }

    /// Remove a provider by index.  The last provider cannot be removed; an
    /// out-of-range index is rejected; the selection is adjusted to keep
    /// naming the same provider where possible.
    pub fn remove_provider(&mut self, index: usize) -> (r: Result<ProviderConfig, String>)
        ensures
            if index >= old(self).providers@.len() {
                &&& (r matches Err(m) && m@ == spec_index_message(
                    index as nat,
                    old(self).providers@.len(),
                ))
                &&& *final(self) == *old(self)
            } else if old(self).providers@.len() == 1 {
                &&& (r matches Err(m) && m@ == "Cannot remove the last provider"@)
                &&& *final(self) == *old(self)
            } else {
                &&& (r matches Ok(removed) && removed
                    == old(self).providers@[index as int])
                &&& final(self).providers@ == old(self).providers@.remove(index as int)
                &&& final(self).selected_provider == (
                if old(self).selected_provider >= old(self).providers@.len() - 1 {
                    (old(self).providers@.len() - 2) as usize
                } else if old(self).selected_provider > index {
                    (old(self).selected_provider - 1) as usize
                } else {
                    old(self).selected_provider
                })
            },
    {
        if index >= self.providers.len() {
            return Err(index_message(index, self.providers.len()));
        }
        if self.providers.len() == 1 {
            return Err("Cannot remove the last provider".to_owned());
        }
        let removed = self.providers.remove(index);
        if self.selected_provider >= self.providers.len() {
            self.selected_provider = self.providers.len() - 1;
        } else if self.selected_provider > index {
            self.selected_provider = self.selected_provider - 1;
        }
        Ok(removed)
    }

    /// Each provider's index, name and model.
    pub fn list_providers(&self) -> (r: Vec<(usize, &str, &str)>)
        ensures
            r@.len() == self.providers@.len(),
            forall|i: int|
                0 <= i < r@.len() ==> (#[trigger] r@[i]).0 == i && r@[i].1@
                    == self.providers@[i].provider@ && r@[i].2@ == self.providers@[i].model@,
    {
        let mut out: Vec<(usize, &str, &str)> = Vec::new();
        let n = self.providers.len();
        for i in 0..n
            invariant
                n == self.providers@.len(),
                out@.len() == i,
                forall|k: int|
                    0 <= k < i ==> (#[trigger] out@[k]).0 == k && out@[k].1@
                        == self.providers@[k].provider@ && out@[k].2@
                        == self.providers@[k].model@,
        {
            let p = &self.providers[i];
            out.push((i, p.provider.as_str(), p.model.as_str()));
        }
        out
    }

    /// The indices of all providers of the given type, in order.
    pub fn find_providers_by_type(&self, provider_type: &str) -> (r: Vec<usize>)
        ensures
            r@ == spec_indices_of_type(self.providers@, provider_type@),
    {
        let mut out: Vec<usize> = Vec::new();
        let n = self.providers.len();
        for i in 0..n
            invariant
                n == self.providers@.len(),
                out@ == spec_indices_of_type(self.providers@.subrange(0, i as int), provider_type@),
        {
            proof {
                assert(self.providers@.subrange(0, i + 1).drop_last() =~= self.providers@.subrange(
                    0,
                    i as int,
                ));
                assert(self.providers@.subrange(0, i + 1).last() == self.providers@[i as int]);
            }
            if str_eq(self.providers[i].provider.as_str(), provider_type) {
                out.push(i);
            }
        }
        proof {
            assert(self.providers@.subrange(0, n as int) =~= self.providers@);
        }
        out
    }

    /// Clamp a selection that a stored file may have left out of range: an
    /// empty provider list or an out-of-range index resets it to the first
    /// entry, as loading does.
    pub fn clamp_selected(&mut self)
        ensures
            final(self).providers@ == old(self).providers@,
            final(self).selected_provider == (
            if old(self).selected_provider < old(self).providers@.len() {
                old(self).selected_provider
            } else {
                0
            }),
    {
        if self.providers.is_empty() {
            self.selected_provider = 0;
        } else if self.selected_provider >= self.providers.len() {
            self.selected_provider = 0;
        }
    }
}

impl Default for WakeConfig {
    /// The anonymous default: one hosted provider entry, selected.
    fn default() -> (r: WakeConfig)
        ensures
            r.providers@.len() == 1,
            r.providers@[0].provider@ == "ovhcloud"@,
            r.providers@[0].model@ == "Qwen3-32B"@,
            r.providers@[0].tool_method == ToolCallMethod::FunctionCall,
            r.providers@[0].env_vars@.len() == 1,
            r.providers@[0].env_vars@[0].0@ == "OVH_BASE_URL"@,
            r.providers@[0].env_vars@[0].1@
                == "https://qwen-3-32b.endpoints.kepler.ai.cloud.ovh.net/api/openai_compat/v1"@,
            r.selected_provider == 0,
    {
        let mut env_vars: Vec<(String, String)> = Vec::new();
        env_vars.push(
            (
                "OVH_BASE_URL".to_owned(),
                "https://qwen-3-32b.endpoints.kepler.ai.cloud.ovh.net/api/openai_compat/v1"
                    .to_owned(),
            ),
        );
        let mut providers: Vec<ProviderConfig> = Vec::new();
        providers.push(
            ProviderConfig {
                provider: "ovhcloud".to_owned(),
                env_vars,
                model: "Qwen3-32B".to_owned(),
                tool_method: ToolCallMethod::FunctionCall,
            },
        );
        WakeConfig { providers, selected_provider: 0 }
    }
}

} // verus!
