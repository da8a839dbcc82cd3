//! The check that the environment-variable prefix spells the package name.
//!
//! The prefix `EAS_WEATHER_RS__` is written out by hand in the command-line
//! definitions; this check ties it to the package name by comparing the two
//! with the hyphens of the name and the underscores of the prefix left out.

use vstd::prelude::*;
use vstd::string::StringSliceAdditionalSpecFns;

verus! {

/// The bytes of a package name that count: all but `-`.
pub open spec fn keeps_name_byte() -> spec_fn(u8) -> bool {
    |b: u8| b != 45u8
}

/// The bytes of a prefix that count: all but `_`.
pub open spec fn keeps_prefix_byte() -> spec_fn(u8) -> bool {
    |b: u8| b != 95u8
}

/// Whether `name` without its `-` equals `prefix` without its `_`.
pub open spec fn names_match(name: Seq<u8>, prefix: Seq<u8>) -> bool {
    name.filter(keeps_name_byte()) == prefix.filter(keeps_prefix_byte())
}

proof fn lemma_filter_take_step(s: Seq<u8>, p: spec_fn(u8) -> bool, i: int)
    requires
        0 <= i < s.len(),
    ensures
        s.take(i + 1).filter(p) == if p(s[i]) {
            s.take(i).filter(p).push(s[i])
        } else {
            s.take(i).filter(p)
        },
{
    reveal(Seq::filter);
    assert(s.take(i + 1).drop_last() =~= s.take(i));
    assert(s.take(i + 1).last() == s[i]);
}

proof fn lemma_filter_split(s: Seq<u8>, p: spec_fn(u8) -> bool, i: int)
    requires
        0 <= i <= s.len(),
    ensures
        s.filter(p) == s.take(i).filter(p) + s.skip(i).filter(p),
{
    assert(s =~= s.take(i) + s.skip(i));
    Seq::filter_distributes_over_add(s.take(i), s.skip(i), p);
}

proof fn lemma_filter_grows(s: Seq<u8>, p: spec_fn(u8) -> bool, k: int)
    requires
        0 <= k < s.len(),
        p(s[k]),
    ensures
        s.filter(p).len() > s.take(k).filter(p).len(),
        s.filter(p)[s.take(k).filter(p).len() as int] == s[k],
{
    lemma_filter_take_step(s, p, k);
    lemma_filter_split(s, p, k + 1);
}

/// Whether the package name `name` and the prefix `prefix` spell the same
/// word once the `-` of the name and the `_` of the prefix are left out, so
/// that `eas-weather-rs` matches `eas_weather_rs`.
pub fn crate_name_matches(name: &str, prefix: &str) -> (r: bool)
    ensures
        r == names_match(name.spec_bytes(), prefix.spec_bytes()),
{
    let nb = name.as_bytes();
    let pb = prefix.as_bytes();
    let ghost ns = nb@;
    let ghost ps = pb@;
    let ghost np = keeps_name_byte();
    let ghost pp = keeps_prefix_byte();
    let mut i: usize = 0;
    let mut j: usize = 0;
    while i < nb.len() && j < pb.len()
        invariant
            ns == nb@,
            ps == pb@,
            ns == name.spec_bytes(),
            ps == prefix.spec_bytes(),
            np == keeps_name_byte(),
            pp == keeps_prefix_byte(),
            0 <= i <= ns.len(),
            0 <= j <= ps.len(),
            ns.take(i as int).filter(np) == ps.take(j as int).filter(pp),
        decreases (ns.len() - i) + (ps.len() - j),
    {
        if nb[i] == 45 {
            proof {
                lemma_filter_take_step(ns, np, i as int);
            }
            i = i + 1;
            continue ;
        }
        if pb[j] == 95 {
            proof {
                lemma_filter_take_step(ps, pp, j as int);
            }
            j = j + 1;
            continue ;
        }
        if nb[i] != pb[j] {
            proof {
                lemma_filter_grows(ns, np, i as int);
                lemma_filter_grows(ps, pp, j as int);
                let k = ns.take(i as int).filter(np).len() as int;
                assert(ns.filter(np)[k] != ps.filter(pp)[k]);
            }
            return false;
        }
        proof {
            lemma_filter_take_step(ns, np, i as int);
            lemma_filter_take_step(ps, pp, j as int);
        }
        i = i + 1;
        j = j + 1;
    }
    while i < nb.len()
        invariant
            ns == nb@,
            ps == pb@,
            ns == name.spec_bytes(),
            ps == prefix.spec_bytes(),
            np == keeps_name_byte(),
            pp == keeps_prefix_byte(),
            0 <= i <= ns.len(),
            0 <= j <= ps.len(),
            i < ns.len() ==> j == ps.len(),
            ns.take(i as int).filter(np) == ps.take(j as int).filter(pp),
        decreases ns.len() - i,
    {
        if nb[i] != 45 {
            proof {
                lemma_filter_grows(ns, np, i as int);
                assert(ps.take(j as int) =~= ps);
                assert(ns.filter(np).len() != ps.filter(pp).len());
            }
            return false;
        }
        proof {
            lemma_filter_take_step(ns, np, i as int);
        }
        i = i + 1;
    }
    while j < pb.len()
        invariant
            ns == nb@,
            ps == pb@,
            ns == name.spec_bytes(),
            ps == prefix.spec_bytes(),
            np == keeps_name_byte(),
            pp == keeps_prefix_byte(),
            i == ns.len(),
            0 <= j <= ps.len(),
            ns.take(i as int).filter(np) == ps.take(j as int).filter(pp),
        decreases ps.len() - j,
    {
        if pb[j] != 95 {
            proof {
                lemma_filter_grows(ps, pp, j as int);
                assert(ns.take(i as int) =~= ns);
                assert(ns.filter(np).len() != ps.filter(pp).len());
            }
            return false;
        }
        proof {
            lemma_filter_take_step(ps, pp, j as int);
        }
        j = j + 1;
    }
    proof {
        assert(ns.take(i as int) =~= ns);
        assert(ps.take(j as int) =~= ps);
    }
    true
}

} // verus!
