//! The variables that the environment has to define.

use vstd::prelude::*;
use crate::classifier::literals;
use crate::error::{concat, strings};
use crate::split::{join, join_text, texts};
use crate::text::{append, from_chars, same_str, to_chars};

verus! {

/// Looks after the variables of the environment.
#[derive(Debug, Clone, Copy)]
pub struct EnvLoader;

/// The variables that have to be defined.
pub open spec fn required_names() -> Seq<Seq<char>> {
    seq![
        "REPOSITORY_URL"@,
        "SSH_HOST"@,
        "SSH_USER"@,
        "DEPLOY_PATH"@,
        "XML_PATH"@,
        "DEPLOY_PLUGIN_YANDEX_API_KEY"@,
        "DEPLOY_PLUGIN_YANDEX_FOLDER_ID"@,
    ]
}

/// Those of `required` that are not among `defined`, in order.
pub open spec fn missing_names(required: Seq<Seq<char>>, defined: Seq<Seq<char>>) -> Seq<Seq<char>>
    decreases required.len(),
{
    if required.len() == 0 {
        Seq::empty()
    } else if defined.contains(required.last()) {
        missing_names(required.drop_last(), defined)
    } else {
        missing_names(required.drop_last(), defined).push(required.last())
    }
}

/// Whether `name` is among `defined`.
pub fn is_defined(defined: &Vec<String>, name: &str) -> (r: bool)
    ensures
        r == strings(defined@).contains(name@),
{
    let mut i: usize = 0;
    while i < defined.len()
        invariant
            i <= defined.len(),
            forall|j: int| 0 <= j < i ==> strings(defined@)[j] != name@,
        decreases defined.len() - i,
    {
        assert(strings(defined@)[i as int] == defined@[i as int]@);
        if same_str(defined[i].as_str(), name) {
            return true;
        }
        i = i + 1;
    }
    false
}

impl EnvLoader {
    /// The names of the variables that have to be defined.
    pub fn required_vars() -> (r: Vec<&'static str>)
        ensures
            literals(r@) == required_names(),
    {
        let r: Vec<&'static str> = vec![
            "REPOSITORY_URL",
            "SSH_HOST",
            "SSH_USER",
            "DEPLOY_PATH",
            "XML_PATH",
            "DEPLOY_PLUGIN_YANDEX_API_KEY",
            "DEPLOY_PLUGIN_YANDEX_FOLDER_ID",
        ];
        assert(literals(r@) =~= required_names());
        r
    }

    /// Accepts an environment that defines every required variable;
    /// `defined` names the variables that it defines. The error names the
    /// missing ones.
    pub fn validate_required_vars(defined: &Vec<String>) -> (r: Result<(), String>)
        ensures
            missing_names(required_names(), strings(defined@)).len() == 0 ==> r is Ok,
            missing_names(required_names(), strings(defined@)).len() > 0 ==> (r matches Err(e)
                && e@ == "Отсутствуют необходимые переменные окружения: "@ + join_text(
                missing_names(required_names(), strings(defined@)),
                ", "@,
            )),
    {
        let required = Self::required_vars();
        let mut missing: Vec<Vec<char>> = Vec::new();
        let mut i: usize = 0;
        assert(literals(required@).subrange(0, 0) =~= Seq::<Seq<char>>::empty());
        assert(texts(missing@) =~= Seq::<Seq<char>>::empty());
        while i < required.len()
            invariant
                i <= required.len(),
                texts(missing@) == missing_names(
                    literals(required@).subrange(0, i as int),
                    strings(defined@),
                ),
            decreases required.len() - i,
        {
            let ghost before = literals(required@).subrange(0, i as int);
            let ghost after = literals(required@).subrange(0, i + 1);
            assert(after.drop_last() =~= before);
            assert(after.last() == required@[i as int]@);
            if !is_defined(defined, required[i]) {
                let ghost old_missing = missing@;
                let name = to_chars(required[i]);
                missing.push(name);
                assert(texts(missing@) =~= texts(old_missing).push(name@));
            }
            i = i + 1;
        }
        assert(literals(required@).subrange(0, required.len() as int) =~= literals(required@));
        if missing.len() > 0 {
            let mut message = to_chars("Отсутствуют необходимые переменные окружения: ");
            append(&mut message, &join(&missing, &to_chars(", ")));
            Err(from_chars(&message))
        } else {
            Ok(())
        }
    }

    /// The value of the variable `key`, which has to be defined.
    pub fn get_required_var(key: &str, value: Option<String>) -> (r: Result<String, String>)
        ensures
            match value {
                Some(v) => r == Ok::<String, String>(v),
                None => r matches Err(e) && e@ == "Отсутствует переменная окружения: "@ + key@,
            },
    {
        match value {
            Some(v) => Ok(v),
            None => Err(concat("Отсутствует переменная окружения: ", key)),
        }
    }

    /// The value of a variable, or `default` when it is not defined.
    pub fn get_var_or_default(value: Option<String>, default: &str) -> (r: String)
        ensures
            r@ == match value {
                Some(v) => v@,
                None => default@,
            },
    {
        match value {
            Some(v) => v,
            None => default.to_owned(),
        }
    }
}

} // verus!
