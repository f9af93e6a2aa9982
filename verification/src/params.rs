//! Request parameters: ordered name/value string pairs, and the rendering of
//! optional typed fields into them.

use vstd::prelude::*;

use crate::text::{dec_str_int, i64_to_dec};

verus! {

/// One request parameter.
pub fn param(name: &str, value: &str) -> (p: (String, String))
    ensures
        p.0@ == name@,
        p.1@ == value@,
{
    (name.to_owned(), value.to_owned())
}

/// The view of a parameter list: each pair as its character sequences.
pub open spec fn params_view(ps: Seq<(String, String)>) -> Seq<(Seq<char>, Seq<char>)> {
    ps.map_values(|p: (String, String)| (p.0@, p.1@))
}

/// The wire text of a boolean value.
pub open spec fn bool_str(b: bool) -> Seq<char> {
    if b {
        "true"@
    } else {
        "false"@
    }
}

/// What an optional string field contributes to a parameter list.
pub open spec fn opt_str_param(name: Seq<char>, v: Option<String>) -> Seq<(Seq<char>, Seq<char>)> {
    match v {
        Some(s) => seq![(name, s@)],
        None => Seq::empty(),
    }
}

/// What an optional integer field contributes to a parameter list.
pub open spec fn opt_i64_param(name: Seq<char>, v: Option<i64>) -> Seq<(Seq<char>, Seq<char>)> {
    match v {
        Some(n) => seq![(name, dec_str_int(n as int))],
        None => Seq::empty(),
    }
}

/// What an optional boolean field contributes to a parameter list.
pub open spec fn opt_bool_param(name: Seq<char>, v: Option<bool>) -> Seq<(Seq<char>, Seq<char>)> {
    match v {
        Some(b) => seq![(name, bool_str(b))],
        None => Seq::empty(),
    }
}

/// Appends an optional string field's parameter.
pub fn push_opt_str(ps: &mut Vec<(String, String)>, name: &str, v: &Option<String>)
    ensures
        params_view(final(ps)@) == params_view(old(ps)@) + opt_str_param(name@, *v),
{
    match v {
        Some(s) => {
            ps.push((name.to_owned(), s.clone()));
            proof {
                assert(params_view(ps@) =~= params_view(old(ps)@) + opt_str_param(name@, *v));
            }
        },
        None => {
            proof {
                assert(params_view(ps@) =~= params_view(old(ps)@) + opt_str_param(name@, *v));
            }
        },
    }
}

/// Appends an optional integer field's parameter, in decimal.
pub fn push_opt_i64(ps: &mut Vec<(String, String)>, name: &str, v: &Option<i64>)
    ensures
        params_view(final(ps)@) == params_view(old(ps)@) + opt_i64_param(name@, *v),
{
    match v {
        Some(n) => {
            ps.push((name.to_owned(), i64_to_dec(*n)));
            proof {
                assert(params_view(ps@) =~= params_view(old(ps)@) + opt_i64_param(name@, *v));
            }
        },
        None => {
            proof {
                assert(params_view(ps@) =~= params_view(old(ps)@) + opt_i64_param(name@, *v));
            }
        },
    }
}

/// Appends an optional boolean field's parameter.
pub fn push_opt_bool(ps: &mut Vec<(String, String)>, name: &str, v: &Option<bool>)
    ensures
        params_view(final(ps)@) == params_view(old(ps)@) + opt_bool_param(name@, *v),
{
    match v {
        Some(b) => {
            let text = if *b {
                "true".to_owned()
            } else {
                "false".to_owned()
            };
            ps.push((name.to_owned(), text));
            proof {
                assert(params_view(ps@) =~= params_view(old(ps)@) + opt_bool_param(name@, *v));
            }
        },
        None => {
            proof {
                assert(params_view(ps@) =~= params_view(old(ps)@) + opt_bool_param(name@, *v));
            }
        },
    }
}

/// Appends one fixed parameter.
pub fn push_param(ps: &mut Vec<(String, String)>, name: &str, value: &str)
    ensures
        params_view(final(ps)@) == params_view(old(ps)@).push((name@, value@)),
{
    ps.push((name.to_owned(), value.to_owned()));
    proof {
        assert(params_view(ps@) =~= params_view(old(ps)@).push((name@, value@)));
    }
}

/// Whether a rendered parameter list holds a given pair.
pub open spec fn has_param(ps: Seq<(Seq<char>, Seq<char>)>, name: Seq<char>, value: Seq<char>) -> bool {
    exists|i: int| 0 <= i < ps.len() && ps[i] == (name, value)
}

/// Whether the list holds a parameter with exactly this name and value.
pub fn contains_param(ps: &Vec<(String, String)>, name: &str, value: &str) -> (found: bool)
    ensures
        found == has_param(params_view(ps@), name@, value@),
{
    let n = ps.len();
    let mut i: usize = 0;
    while i < n
        invariant
            i <= n,
            n == ps@.len(),
            forall|j: int|
                0 <= j < i ==> #[trigger] params_view(ps@)[j] != (name@, value@),
        decreases n - i,
    {
        let name_matches = ps[i].0 == name.to_owned();
        let value_matches = ps[i].1 == value.to_owned();
        if name_matches && value_matches {
            proof {
                assert(params_view(ps@)[i as int] == (name@, value@));
            }
            return true;
        }
        proof {
            assert(params_view(ps@)[i as int] == (ps@[i as int].0@, ps@[i as int].1@));
        }
        i += 1;
    }
    false
}

} // verus!
