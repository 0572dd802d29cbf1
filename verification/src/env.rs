//! Settings read from environment variables.
//!
//! The environment is handed in as a list of name and value pairs. A variable
//! counts as set when the list names it with a value that is not empty; where
//! a name occurs twice, its first occurrence counts.

use crate::decimal::parse_port;
use crate::decimal::port_of;
use crate::secret::SecretText;
use vstd::prelude::*;

verus! {

/// The environment as specifications see it: names and values as text.
pub type EnvModel = Seq<(Seq<char>, Seq<char>)>;

/// The value that `env` gives to `name`: that of the first pair with this
/// name, if there is one.
pub open spec fn lookup(env: EnvModel, name: Seq<char>) -> Option<Seq<char>>
    decreases env.len(),
{
    if env.len() == 0 {
        None
    } else if env[0].0 == name {
        Some(env[0].1)
    } else {
        lookup(env.drop_first(), name)
    }
}

/// The value of a variable that is set, `None` for one that is missing or
/// empty.
pub open spec fn set_value(env: EnvModel, name: Seq<char>) -> Option<Seq<char>> {
    match lookup(env, name) {
        Some(value) => if value.len() > 0 {
            Some(value)
        } else {
            None
        },
        None => None,
    }
}

/// A text setting: the variable's value where it is set, else `default`.
pub open spec fn text_setting(env: EnvModel, name: Seq<char>, default: Seq<char>) -> Seq<char> {
    match set_value(env, name) {
        Some(value) => value,
        None => default,
    }
}

/// A port setting: the port that the variable's value denotes where it is
/// set, `default` where it is not, and `None` where it is set to text that
/// is not a port number.
pub open spec fn port_setting(env: EnvModel, name: Seq<char>, default: u16) -> Option<u16> {
    match set_value(env, name) {
        Some(value) => port_of(value),
        None => Some(default),
    }
}

/// A switch: on exactly where the variable is set to `true`.
pub open spec fn switch_setting(env: EnvModel, name: Seq<char>) -> bool {
    set_value(env, name) == Some("true"@)
}

/// `lookup` finds the first pair that carries the name, and only that one.
pub proof fn lemma_lookup_first_match(env: EnvModel, name: Seq<char>, i: int)
    requires
        0 <= i < env.len(),
        env[i].0 == name,
        forall|j: int| 0 <= j < i ==> (#[trigger] env[j]).0 != name,
    ensures
        lookup(env, name) == Some(env[i].1),
    decreases i,
{
    if i > 0 {
        let rest = env.drop_first();
        assert forall|j: int| 0 <= j < i - 1 implies (#[trigger] rest[j]).0 != name by {
            assert(rest[j] == env[j + 1]);
        }
        lemma_lookup_first_match(rest, name, i - 1);
    }
}

/// `lookup` finds nothing where no pair carries the name.
pub proof fn lemma_lookup_no_match(env: EnvModel, name: Seq<char>)
    requires
        forall|j: int| 0 <= j < env.len() ==> (#[trigger] env[j]).0 != name,
    ensures
        lookup(env, name) is None,
    decreases env.len(),
{
    if env.len() > 0 {
        let rest = env.drop_first();
        assert forall|j: int| 0 <= j < rest.len() implies (#[trigger] rest[j]).0 != name by {
            assert(rest[j] == env[j + 1]);
        }
        lemma_lookup_no_match(rest, name);
    }
}

/// The value of the variable `name`, where it is set.
pub fn find<'a>(vars: &'a Vec<(String, String)>, name: &str) -> (found: Option<&'a String>)
    ensures
        match found {
            Some(value) => set_value(vars.deep_view(), name@) == Some(value@),
            None => set_value(vars.deep_view(), name@) is None,
        },
{
    let key = name.to_owned();
    let ghost env = vars.deep_view();
    let mut i: usize = 0;
    while i < vars.len()
        invariant
            i <= vars.len(),
            env == vars.deep_view(),
            key@ == name@,
            forall|j: int| 0 <= j < i ==> (#[trigger] env[j]).0 != name@,
        decreases vars.len() - i,
    {
        if vars[i].0 == key {
            proof {
                assert(env[i as int].0 == name@);
                lemma_lookup_first_match(env, name@, i as int);
                assert(env[i as int].1 == vars[i as int].1@);
            }
            if vars[i].1.as_str().is_empty() {
                return None;
            }
            return Some(&vars[i].1);
        }
        assert(env[i as int].0 == vars[i as int].0@);
        i = i + 1;
    }
    proof {
        lemma_lookup_no_match(env, name@);
    }
    None
}

/// Reads a text setting.
pub fn read_text(vars: &Vec<(String, String)>, name: &str, default: &str) -> (text: String)
    ensures
        text@ == text_setting(vars.deep_view(), name@, default@),
{
    match find(vars, name) {
        Some(value) => value.clone(),
        None => default.to_owned(),
    }
}

/// Reads a text setting that is to be kept secret.
pub fn read_secret(vars: &Vec<(String, String)>, name: &str, default: &str) -> (secret:
    SecretText)
    ensures
        secret@ == text_setting(vars.deep_view(), name@, default@),
{
    SecretText::new(read_text(vars, name, default))
}

/// Reads a port setting. `Err` carries the text that is not a port number.
pub fn read_port(vars: &Vec<(String, String)>, name: &str, default: u16) -> (port: Result<
    u16,
    String,
>)
    ensures
        match port {
            Ok(number) => port_setting(vars.deep_view(), name@, default) == Some(number),
            Err(text) => port_setting(vars.deep_view(), name@, default) is None && set_value(
                vars.deep_view(),
                name@,
            ) == Some(text@),
        },
{
    match find(vars, name) {
        Some(value) => match parse_port(value.as_str()) {
            Some(number) => Ok(number),
            None => Err(value.clone()),
        },
        None => Ok(default),
    }
}

/// Reads a switch.
pub fn read_switch(vars: &Vec<(String, String)>, name: &str) -> (on: bool)
    ensures
        on == switch_setting(vars.deep_view(), name@),
{
    match find(vars, name) {
        Some(value) => {
            let yes = "true".to_owned();
            *value == yes
        },
        None => {
            proof {
                reveal_strlit("true");
            }
            false
        },
    }
}

} // verus!
