//! The engine's stated guarantees, proved once and for all inputs.

use vstd::prelude::*;
use crate::engine::{unit_for, units_of, lemma_units_from_characterize};
use crate::extension::{ext_lower_of, format_of_path};
use crate::model::{TargetFnV, TestUnitV, case_name};
use crate::text::{dec_digit, dec_str};

verus! {

proof fn lemma_dec_str_len(n: nat)
    ensures
        dec_str(n).len() >= 1,
        n >= 10 ==> dec_str(n).len() >= 2,
    decreases n,
{
    if n >= 10 {
        lemma_dec_str_len(n / 10);
    }
}

proof fn lemma_dec_str_injective(a: nat, b: nat)
    requires
        dec_str(a) == dec_str(b),
    ensures
        a == b,
    decreases a,
{
    if a < 10 && b < 10 {
        assert(dec_str(a)[0] == dec_digit(a as int));
        assert(dec_str(b)[0] == dec_digit(b as int));
    } else if a < 10 {
        lemma_dec_str_len(b);
        assert(dec_str(a).len() == 1);
    } else if b < 10 {
        lemma_dec_str_len(a);
        assert(dec_str(b).len() == 1);
    } else {
        let da = dec_str(a / 10);
        let db = dec_str(b / 10);
        let xa = dec_digit((a % 10) as int);
        let xb = dec_digit((b % 10) as int);
        assert(dec_str(a) == da + seq![xa]);
        assert(dec_str(b) == db + seq![xb]);
        assert((da + seq![xa]).len() == da.len() + 1);
        assert((da + seq![xa])[da.len() as int] == xa);
        assert((db + seq![xb])[db.len() as int] == xb);
        assert(da.len() == db.len());
        assert(xa == xb);
        assert(a % 10 == b % 10);
        assert(da =~= (da + seq![xa]).subrange(0, da.len() as int));
        assert(db =~= (db + seq![xb]).subrange(0, db.len() as int));
        lemma_dec_str_injective(a / 10, b / 10);
        assert(a == (a / 10) * 10 + a % 10);
        assert(b == (b / 10) * 10 + b % 10);
    }
}

/// Law: unit names are collision-free — distinct indices always give
/// distinct generated names, whatever the function's name.
pub proof fn lemma_case_names_unique(fn_name: Seq<char>, i: int, j: int)
    requires
        0 <= i,
        0 <= j,
        i != j,
    ensures
        case_name(fn_name, i) != case_name(fn_name, j),
{
    if case_name(fn_name, i) == case_name(fn_name, j) {
        let p = fn_name + "_case_"@;
        let di = dec_str(i as nat);
        let dj = dec_str(j as nat);
        assert((p + di).len() == p.len() + di.len());
        assert((p + dj).len() == p.len() + dj.len());
        assert(di =~= (p + di).subrange(p.len() as int, (p.len() + di.len()) as int));
        assert(dj =~= (p + dj).subrange(p.len() as int, (p.len() + dj.len()) as int));
        lemma_dec_str_injective(i as nat, j as nat);
    }
}

/// Law: naming is positional, never content-addressed — the name of unit `i`
/// is a function of the original function's name and `i` alone, so swapping
/// two entries in the data file changes which entry runs under which name,
/// not the names themselves.
pub proof fn lemma_names_positional(t1: TargetFnV, t2: TargetFnV, j1: Seq<char>, j2: Seq<char>, i: int)
    requires
        t1.name == t2.name,
    ensures
        unit_for(t1, j1, i).name == unit_for(t2, j2, i).name,
        unit_for(t1, j1, i).name == case_name(t1.name, i),
{
}

/// Law: a data file with no entries expands to no units, not to an error.
pub proof fn lemma_empty_entries(t: TargetFnV)
    ensures
        units_of(t, Seq::<serde_json::Value>::empty()) == Option::Some(Seq::<TestUnitV>::empty()),
{
}

/// Law: a successful expansion yields exactly one unit per entry, named
/// `<fn>_case_0` through `<fn>_case_{n-1}` in document order.
pub proof fn lemma_units_count_and_names(t: TargetFnV, vals: Seq<serde_json::Value>)
    ensures
        units_of(t, vals) matches Some(us) ==> us.len() == vals.len() && (forall|i: int|
            0 <= i < vals.len() ==> us[i].name == case_name(t.name, i)),
{
    lemma_units_from_characterize(t, vals, 0);
    if units_of(t, vals) is Some {
        let us = units_of(t, vals)->Some_0;
        assert forall|i: int| 0 <= i < vals.len() implies us[i].name == case_name(t.name, i) by {
            assert(us[i - 0] == unit_for(
                t,
                crate::outside::canonical_json_of(vals[i])->Some_0,
                i,
            ));
        }
    }
}

/// Law: unit `i` embeds exactly entry `i`'s canonical JSON text — the text
/// whose deserialization the generated unit binds, so the bound value
/// re-serializes to entry `i`'s canonical form whenever the declared type's
/// deserialize–serialize pair is lossless on it.
pub proof fn lemma_unit_carries_entry(t: TargetFnV, vals: Seq<serde_json::Value>, i: int)
    requires
        units_of(t, vals) is Some,
        0 <= i < vals.len(),
    ensures
        units_of(t, vals)->Some_0[i].case_json == crate::outside::canonical_json_of(
            vals[i],
        )->Some_0,
{
    lemma_units_from_characterize(t, vals, 0);
    let us = units_of(t, vals)->Some_0;
    assert(us[i - 0] == unit_for(t, crate::outside::canonical_json_of(vals[i])->Some_0, i));
}

/// Law: the decoder is chosen by the path's extension alone, never by the
/// file's content — two paths with the same lowercased extension select the
/// same format.
pub proof fn lemma_format_by_extension(p1: Seq<char>, p2: Seq<char>)
    requires
        ext_lower_of(p1) == ext_lower_of(p2),
    ensures
        format_of_path(p1) == format_of_path(p2),
{
}

} // verus!
