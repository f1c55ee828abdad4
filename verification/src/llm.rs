//! The settings of the content generator's client and its schedule of
//! retries.
//!
//! Temperatures are held in thousandths.

use vstd::prelude::*;
use std::time::Duration;
use crate::network::{doubled, power_of_two};
use crate::error::concat;
use crate::text::{
    append, append_str, contains_str, contains_text, from_chars, matches_at, occurs_at, same_str,
    starts_with_str, starts_with_text, to_chars,
};

verus! {

/// The settings of the YandexGPT client.
#[derive(Debug, Clone)]
pub struct YandexGPTConfig {
    pub api_key: String,
    pub folder_id: String,
    pub model: String,
    /// In thousandths.
    pub temperature: i32,
    pub max_tokens: u32,
    pub timeout: Duration,
}

/// Makes the settings of clients.
#[derive(Debug, Clone, Copy)]
pub struct YandexGPTClientFactory;

/// The address of the model: the model itself where it is an address
/// already, else the folder and the model.
pub open spec fn model_uri(folder_id: Seq<char>, model: Seq<char>) -> Seq<char> {
    if starts_with_text(model, "gpt://"@) {
        model
    } else {
        "gpt://"@ + folder_id + "/"@ + model
    }
}

/// The pause, in milliseconds, before the attempt that follows failed
/// attempt `attempt`, counted from zero: one second, doubled with every
/// attempt; `None` when no attempt is left.
pub open spec fn completion_pause(attempt: u32, max_retries: u32) -> Option<u64> {
    if attempt < max_retries {
        Some(
            if 1000 * doubled(attempt as nat) > u64::MAX {
                u64::MAX
            } else {
                (1000 * doubled(attempt as nat)) as u64
            },
        )
    } else {
        None
    }
}

impl YandexGPTConfig {
    /// The settings for the key `api_key` and the folder `folder_id`, with
    /// the latest model, a temperature of 0.3, 2000 tokens and 30 seconds
    /// of patience. `timeout` is that time.
    pub fn with_defaults(api_key: String, folder_id: String, timeout: Duration) -> (r: Self)
        ensures
            r.api_key == api_key,
            r.folder_id == folder_id,
            r.model@ == "yandexgpt/latest"@,
            r.temperature == 300,
            r.max_tokens == 2000,
            r.timeout == timeout,
    {
        YandexGPTConfig {
            api_key,
            folder_id,
            model: "yandexgpt/latest".to_owned(),
            temperature: 300,
            max_tokens: 2000,
            timeout,
        }
    }

    /// The address of the model.
    pub fn build_model_uri(&self) -> (r: String)
        ensures
            r@ == model_uri(self.folder_id@, self.model@),
    {
        if starts_with_str(&to_chars(self.model.as_str()), "gpt://") {
            self.model.clone()
        } else {
            let mut out = to_chars("gpt://");
            append_str(&mut out, self.folder_id.as_str());
            append_str(&mut out, "/");
            append_str(&mut out, self.model.as_str());
            from_chars(&out)
        }
    }

    /// The pause before the attempt that follows failed attempt `attempt`.
    pub fn retry_pause(attempt: u32, max_retries: u32) -> (r: Option<u64>)
        ensures
            r == completion_pause(attempt, max_retries),
    {
        if attempt < max_retries {
            let factor = power_of_two(attempt);
            if factor > u64::MAX / 1000 {
                Some(u64::MAX)
            } else {
                Some(1000 * factor)
            }
        } else {
            None
        }
    }
}

impl YandexGPTClientFactory {
    /// The settings taken from the environment, which has to define the
    /// key and the folder.
    pub fn from_env(api_key: Option<String>, folder_id: Option<String>, timeout: Duration) -> (r:
        Result<YandexGPTConfig, String>)
        ensures
            match (api_key, folder_id) {
                (Some(k), Some(f)) => r matches Ok(c) && c.api_key == k && c.folder_id == f
                    && c.model@ == "yandexgpt/latest"@ && c.temperature == 300 && c.max_tokens
                    == 2000 && c.timeout == timeout,
                (None, _) => r matches Err(e) && e@
                    == "Переменная окружения DEPLOY_PLUGIN_YANDEX_API_KEY не установлена"@,
                (Some(_), None) => r matches Err(e) && e@
                    == "Переменная окружения DEPLOY_PLUGIN_YANDEX_FOLDER_ID не установлена"@,
            },
    {
        match api_key {
            None => Err(
                "Переменная окружения DEPLOY_PLUGIN_YANDEX_API_KEY не установлена".to_owned(),
            ),
            Some(k) => match folder_id {
                None => Err(
                    "Переменная окружения DEPLOY_PLUGIN_YANDEX_FOLDER_ID не установлена".to_owned(),
                ),
                Some(f) => Ok(YandexGPTConfig::with_defaults(k, f, timeout)),
            },
        }
    }

    /// The settings `config`, as they are.
    pub fn with_config(config: YandexGPTConfig) -> (r: YandexGPTConfig)
        ensures
            r == config,
    {
        config
    }
}

/// `s` with every occurrence of `p` replaced by `r`, from the left,
/// occurrences that overlap an earlier one left alone. `p` is not empty.
pub open spec fn replaced_all(s: Seq<char>, p: Seq<char>, r: Seq<char>) -> Seq<char>
    decreases s.len(),
{
    if p.len() == 0 || s.len() < p.len() {
        s
    } else if occurs_at(s, p, 0) {
        r + replaced_all(s.subrange(p.len() as int, s.len() as int), p, r)
    } else {
        seq![s[0]] + replaced_all(s.subrange(1, s.len() as int), p, r)
    }
}

/// The model to fall back on when the service does not know the model:
/// the light variant of it.
pub open spec fn fallback_model(model: Seq<char>) -> Seq<char> {
    if contains_text(model, "yandexgpt-lite"@) {
        model
    } else {
        replaced_all(model, "yandexgpt"@, "yandexgpt-lite"@)
    }
}

/// A status with which an answer counts.
pub open spec fn is_final_status(status: Seq<char>) -> bool {
    status == "ALTERNATIVE_STATUS_FINAL"@ || status == "ALTERNATIVE_STATUS_SUCCESS"@
}

/// `s` with every occurrence of `p` replaced by `r`.
pub fn replace_all(s: &Vec<char>, p: &Vec<char>, r: &Vec<char>) -> (out: Vec<char>)
    ensures
        out@ == replaced_all(s@, p@, r@),
{
    let mut out: Vec<char> = Vec::new();
    if p.len() == 0 {
        append(&mut out, s);
        return out;
    }
    let mut i: usize = 0;
    assert(s@.subrange(0, s.len() as int) =~= s@);
    while i < s.len()
        invariant
            i <= s.len(),
            p.len() > 0,
            out@ + replaced_all(s@.subrange(i as int, s.len() as int), p@, r@) == replaced_all(
                s@,
                p@,
                r@,
            ),
        decreases s.len() - i,
    {
        let ghost rest = s@.subrange(i as int, s.len() as int);
        let ghost before = out@;
        let found = matches_at(s, p, i);
        proof {
            if s.len() - i >= p.len() {
                assert(rest.subrange(0, p.len() as int) =~= s@.subrange(i as int, i + p.len()));
                assert(rest.subrange(p.len() as int, rest.len() as int) =~= s@.subrange(
                    i + p.len(),
                    s.len() as int,
                ));
            }
            assert(occurs_at(rest, p@, 0) == found);
            assert(rest.subrange(1, rest.len() as int) =~= s@.subrange(i + 1, s.len() as int));
            assert(rest[0] == s@[i as int]);
        }
        if found {
            append(&mut out, r);
            proof {
                let tail = replaced_all(s@.subrange(i + p.len(), s.len() as int), p@, r@);
                assert(replaced_all(rest, p@, r@) == r@ + tail);
                assert((before + r@) + tail =~= before + (r@ + tail));
            }
            i = i + p.len();
        } else {
            out.push(s[i]);
            proof {
                let tail = replaced_all(s@.subrange(i + 1, s.len() as int), p@, r@);
                if rest.len() < p.len() {
                    lemma_short_text_stays(rest, p@, r@);
                    lemma_short_text_stays(s@.subrange(i + 1, s.len() as int), p@, r@);
                    assert(seq![rest[0]] + rest.subrange(1, rest.len() as int) =~= rest);
                }
                assert(replaced_all(rest, p@, r@) =~= seq![rest[0]] + tail);
                assert(before.push(s@[i as int]) + tail =~= before + (seq![rest[0]] + tail));
            }
            i = i + 1;
        }
    }
    assert(s@.subrange(s.len() as int, s.len() as int) =~= Seq::<char>::empty());
    assert(out@ + Seq::<char>::empty() =~= out@);
    out
}

/// A text that is shorter than the pattern holds no occurrence of it.
pub proof fn lemma_short_text_stays(s: Seq<char>, p: Seq<char>, r: Seq<char>)
    requires
        s.len() < p.len(),
    ensures
        replaced_all(s, p, r) == s,
{
}

impl YandexGPTConfig {
    /// The model to fall back on when the service does not know the
    /// model.
    pub fn fallback_model(&self) -> (r: String)
        ensures
            r@ == fallback_model(self.model@),
    {
        let model = to_chars(self.model.as_str());
        if contains_str(&model, "yandexgpt-lite") {
            self.model.clone()
        } else {
            from_chars(&replace_all(&model, &to_chars("yandexgpt"), &to_chars("yandexgpt-lite")))
        }
    }

    /// The text that the service answered with, taken from the statuses and
    /// texts of its alternatives: that of the first alternative, which has
    /// to be final.
    pub fn completion_text(alternatives: &Vec<(String, String)>) -> (r: Result<String, String>)
        ensures
            alternatives@.len() == 0 ==> (r matches Err(e) && e@
                == "YandexGPT не вернул альтернатив в ответе"@),
            alternatives@.len() > 0 && is_final_status(alternatives@[0].0@) ==> (r matches Ok(t)
                && t@ == alternatives@[0].1@),
            alternatives@.len() > 0 && !is_final_status(alternatives@[0].0@) ==> (r matches Err(e)
                && e@ == "YandexGPT вернул статус: "@ + alternatives@[0].0@),
    {
        if alternatives.len() == 0 {
            return Err("YandexGPT не вернул альтернатив в ответе".to_owned());
        }
        let status = alternatives[0].0.as_str();
        if same_str(status, "ALTERNATIVE_STATUS_FINAL") || same_str(
            status,
            "ALTERNATIVE_STATUS_SUCCESS",
        ) {
            Ok(alternatives[0].1.clone())
        } else {
            Err(concat("YandexGPT вернул статус: ", status))
        }
    }
}

} // verus!
