//! Rules on the sources of the raw configuration: which configuration file
//! is read, and which environment variables are shown as configuration
//! input, under which names.

use vstd::prelude::*;

use crate::text::{has_prefix, strip_prefix};

verus! {

/// The configuration file read when none is chosen.
pub open spec fn default_config_file() -> Seq<char> {
    "config/config.toml"@
}

/// The configuration file to read: the chosen one, or `config/config.toml`.
pub fn config_file_or_default(chosen: &Option<String>) -> (r: String)
    ensures
        r@ == match chosen {
            Some(f) => f@,
            None => default_config_file(),
        },
{
    match chosen {
        Some(f) => f.clone(),
        None => {
            proof {
                reveal_strlit("config/config.toml");
            }
            String::from_str("config/config.toml")
        },
    }
}

/// Whether an environment variable belongs to the application's
/// configuration: its name starts with the base prefix `EAS_WEATHER_RS__`.
pub open spec fn is_config_env_key(k: Seq<char>) -> bool {
    has_prefix(k, "EAS_WEATHER_RS__"@)
}

/// `s` with each `__`, taken from the left without overlap, replaced by `.`,
/// as `str::replace("__", ".")` does.
pub open spec fn dunder_to_dots(s: Seq<char>) -> Seq<char>
    decreases s.len(),
{
    if s.len() >= 2 && s[0] == '_' && s[1] == '_' {
        seq!['.'] + dunder_to_dots(s.skip(2))
    } else if s.len() >= 1 {
        seq![s[0]] + dunder_to_dots(s.skip(1))
    } else {
        Seq::<char>::empty()
    }
}

proof fn lemma_dunder_to_dots_step(s: Seq<char>, i: int)
    requires
        0 <= i <= s.len(),
    ensures
        i + 2 <= s.len() && s[i] == '_' && s[i + 1] == '_' ==> dunder_to_dots(s.skip(i))
            == seq!['.'] + dunder_to_dots(s.skip(i + 2)),
        i + 1 <= s.len() && !(i + 2 <= s.len() && s[i] == '_' && s[i + 1] == '_')
            ==> dunder_to_dots(s.skip(i)) == seq![s[i]] + dunder_to_dots(s.skip(i + 1)),
{
    let t = s.skip(i);
    if t.len() >= 2 {
        assert(t[0] == s[i] && t[1] == s[i + 1]);
        assert(t.skip(2) =~= s.skip(i + 2));
    }
    if t.len() >= 1 {
        assert(t[0] == s[i]);
        assert(t.skip(1) =~= s.skip(i + 1));
    }
}

/// Replaces each `__` in `s` by `.`.
pub fn replace_dunders(s: &str) -> (r: String)
    ensures
        r@ == dunder_to_dots(s@),
{
    let n = s.unicode_len();
    let mut out = String::new();
    let mut i: usize = 0;
    proof {
        assert(s@.skip(0) =~= s@);
    }
    while i < n
        invariant
            n == s@.len(),
            0 <= i <= n,
            out@ + dunder_to_dots(s@.skip(i as int)) == dunder_to_dots(s@),
        decreases n - i,
    {
        let c = s.get_char(i);
        proof {
            lemma_dunder_to_dots_step(s@, i as int);
        }
        if c == '_' && i + 1 < n && s.get_char(i + 1) == '_' {
            let ghost before = out@;
            out.append(".");
            proof {
                reveal_strlit(".");
                assert(out@ + dunder_to_dots(s@.skip(i + 2)) =~= before + (seq!['.']
                    + dunder_to_dots(s@.skip(i + 2))));
            }
            i = i + 2;
        } else {
            let ghost before = out@;
            out.append(s.substring_char(i, i + 1));
            proof {
                assert(s@.subrange(i as int, i + 1) =~= seq![c]);
                assert(out@ + dunder_to_dots(s@.skip(i + 1)) =~= before + (seq![c]
                    + dunder_to_dots(s@.skip(i + 1))));
            }
            i = i + 1;
        }
    }
    proof {
        assert(s@.skip(n as int) =~= Seq::<char>::empty());
        assert(out@ + Seq::<char>::empty() =~= out@);
    }
    out
}

/// The name under which an environment variable is shown as configuration
/// input, and its value: only variables under the application prefix are
/// shown, with each `__` in the name turned into `.`.
pub open spec fn config_env_entry_of(k: Seq<char>, v: Seq<char>) -> Option<
    (Seq<char>, Seq<char>),
> {
    if is_config_env_key(k) {
        Some((dunder_to_dots(k), v))
    } else {
        None
    }
}

/// Selects and renames an environment variable for the configuration input
/// log.
pub fn config_env_entry(key: &str, value: &str) -> (r: Option<(String, String)>)
    ensures
        match r {
            Some((k, v)) => config_env_entry_of(key@, value@) == Some((k@, v@)),
            None => config_env_entry_of(key@, value@) is None,
        },
{
    let wanted = strip_prefix(key, "EAS_WEATHER_RS__").is_some();
    if wanted {
        Some((replace_dunders(key), String::from_str(value)))
    } else {
        None
    }
}

} // verus!
