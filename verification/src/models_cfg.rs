//! Model-configuration helpers.

use vstd::prelude::*;
use crate::types::string_is;

verus! {

/// One configured model of a provider.
#[derive(Debug, Clone)]
pub struct ModelInfo {
    pub id: String,
    pub enabled: bool,
}

/// The simplified provider form handed to the shell.
#[derive(Debug, Clone)]
pub struct SimpleProviderConfig {
    pub label: String,
    pub models: Vec<String>,
}

/// The alias-configuration key of a provider: one provider family shares
/// another's alias configuration; every other provider uses its own name.
pub fn get_alias_config_key<'a>(provider: &'a str) -> (r: &'a str)
    ensures
        r@ == (if provider@ == "gemini_api_key"@ {
            "gemini"@
        } else {
            provider@
        }),
{
    let p = String::from_str(provider);
    if string_is(&p, "gemini_api_key") {
        "gemini"
    } else {
        provider
    }
}

/// The ids a provider configuration enables, in order.
pub open spec fn enabled_ids(models: Seq<ModelInfo>) -> Seq<Seq<char>>
    decreases models.len(),
{
    if models.len() == 0 {
        Seq::<Seq<char>>::empty()
    } else {
        enabled_ids(models.drop_last()) + (if models.last().enabled {
            seq![models.last().id@]
        } else {
            Seq::<Seq<char>>::empty()
        })
    }
}

/// The ids of the enabled models, in configuration order.
pub fn enabled_model_ids(models: &Vec<ModelInfo>) -> (r: Vec<String>)
    ensures
        r@.map_values(|s: String| s@) == enabled_ids(models@),
{
    let mut out: Vec<String> = Vec::new();
    let n = models.len();
    let mut k: usize = 0;
    proof {
        assert(out@.map_values(|s: String| s@) =~= enabled_ids(models@.take(0)));
    }
    while k < n
        invariant
            k <= n,
            n == models@.len(),
            out@.map_values(|s: String| s@) == enabled_ids(models@.take(k as int)),
        decreases n - k,
    {
        proof {
            assert(models@.take(k + 1).drop_last() =~= models@.take(k as int));
            assert(models@.take(k + 1).last() == models@[k as int]);
        }
        if models[k].enabled {
            let ghost ov0 = out@.map_values(|s: String| s@);
            out.push(models[k].id.clone());
            proof {
                let ov = out@.map_values(|s: String| s@);
                assert(ov.drop_last() =~= ov0);
                assert(ov[ov.len() - 1] == out@[out@.len() - 1]@);
                assert(ov =~= enabled_ids(models@.take(k + 1)));
            }
        } else {
            proof {
                assert(enabled_ids(models@.take(k as int)) + Seq::<Seq<char>>::empty()
                    =~= enabled_ids(models@.take(k as int)));
            }
        }
        k = k + 1;
    }
    proof {
        assert(models@.take(n as int) =~= models@);
    }
    out
}

} // verus!
