//! The expansion engine: from an annotation, a target function and the data
//! file's text to the generated test units, or to one generation-time
//! diagnostic.

use vstd::prelude::*;
use crate::extension::{DataFormat, data_format_of, ext_lower_of, format_of_path};
use crate::literal::{parse_string_literal, str_lit_value};
use crate::model::{
    FnParam, GenError, GenErrorV, TargetFn, TargetFnV, TestUnit, TestUnitV, case_name,
    build_case_name, build_expr_text, expr_text, runnable, the_param_name, the_param_ty,
    units_view,
};
use crate::outside::{
    canonical_json_of, check_rust_expr, decode_json_entries, decode_yaml_entries,
    encode_canonical_json, is_rust_expr, json_entries_of, yaml_entries_of,
};

verus! {

/// The entries the chosen decoder yields for a text, and nothing when the
/// text is malformed in that format or its top level is not a sequence.
pub open spec fn entries_of(fmt: DataFormat, text: Seq<char>) -> Option<Seq<serde_json::Value>> {
    match fmt {
        DataFormat::Json => json_entries_of(text),
        DataFormat::Yaml => yaml_entries_of(text),
    }
}

/// Whether one decoded entry passes generation: it re-serializes to canonical
/// JSON text, and its deserialization expression parses as an expression.
pub open spec fn entry_good(ty: Seq<char>, v: serde_json::Value) -> bool {
    match canonical_json_of(v) {
        Option::None => false,
        Option::Some(j) => is_rust_expr(expr_text(ty, j)),
    }
}

/// The unit generated for the entry at index `i` whose canonical JSON text is
/// `json`.
pub open spec fn unit_for(t: TargetFnV, json: Seq<char>, i: int) -> TestUnitV {
    TestUnitV {
        name: case_name(t.name, i),
        param_name: the_param_name(t),
        param_ty: the_param_ty(t),
        case_json: json,
        body: t.body,
    }
}

/// The units generated for the entries at `i` and onward, or nothing as soon
/// as one of them fails generation.
pub open spec fn units_from(t: TargetFnV, vals: Seq<serde_json::Value>, i: int) -> Option<
    Seq<TestUnitV>,
>
    decreases vals.len() - i,
{
    if i >= vals.len() {
        Option::Some(Seq::empty())
    } else if !entry_good(the_param_ty(t), vals[i]) {
        Option::None
    } else {
        match units_from(t, vals, i + 1) {
            Option::None => Option::None,
            Option::Some(rest) => Option::Some(
                seq![unit_for(t, canonical_json_of(vals[i])->Some_0, i)] + rest,
            ),
        }
    }
}

/// The units generated for a whole decoded sequence, or nothing when any
/// entry fails generation: a single bad entry aborts the whole file.
pub open spec fn units_of(t: TargetFnV, vals: Seq<serde_json::Value>) -> Option<Seq<TestUnitV>> {
    units_from(t, vals, 0)
}

/// The index of the first entry at `i` or later that fails generation, or
/// the sequence's length when every one passes.
pub open spec fn first_bad_from(ty: Seq<char>, vals: Seq<serde_json::Value>, i: int) -> int
    decreases vals.len() - i,
{
    if i >= vals.len() {
        vals.len() as int
    } else if !entry_good(ty, vals[i]) {
        i
    } else {
        first_bad_from(ty, vals, i + 1)
    }
}

/// Law: expansion succeeds exactly when every entry passes generation, and
/// then yields exactly one unit per entry, in document order, unit `k` being
/// the one generated from entry `k`'s canonical JSON text at index `k`.
pub proof fn lemma_units_from_characterize(t: TargetFnV, vals: Seq<serde_json::Value>, i: int)
    requires
        0 <= i <= vals.len(),
    ensures
        units_from(t, vals, i) is Some <==> (forall|k: int|
            i <= k < vals.len() ==> entry_good(the_param_ty(t), vals[k])),
        units_from(t, vals, i) matches Some(us) ==> us.len() == vals.len() - i && (forall|k: int|
            i <= k < vals.len() ==> us[k - i] == unit_for(
                t,
                canonical_json_of(vals[k])->Some_0,
                k,
            )),
    decreases vals.len() - i,
{
    if i < vals.len() {
        lemma_units_from_characterize(t, vals, i + 1);
    }
}

proof fn lemma_first_bad_pin_from(ty: Seq<char>, vals: Seq<serde_json::Value>, i: int, j: int)
    requires
        0 <= i <= j < vals.len(),
        forall|k: int| i <= k < j ==> entry_good(ty, vals[k]),
        !entry_good(ty, vals[j]),
    ensures
        first_bad_from(ty, vals, i) == j,
    decreases j - i,
{
    if i < j {
        lemma_first_bad_pin_from(ty, vals, i + 1, j);
    }
}

/// The first entry that fails generation is the one a per-entry diagnostic
/// names.
pub proof fn lemma_first_bad_pin(ty: Seq<char>, vals: Seq<serde_json::Value>, j: int)
    requires
        0 <= j < vals.len(),
        forall|k: int| 0 <= k < j ==> entry_good(ty, vals[k]),
        !entry_good(ty, vals[j]),
    ensures
        first_bad_from(ty, vals, 0) == j,
{
    lemma_first_bad_pin_from(ty, vals, 0, j);
}

/// The view of the data file's text as it was handed over: the text itself,
/// or the read failure's cause.
pub open spec fn content_view(c: Result<String, String>) -> Result<Seq<char>, Seq<char>> {
    match c {
        Result::Ok(s) => Result::Ok(s@),
        Result::Err(s) => Result::Err(s@),
    }
}

/// The view of an expansion's outcome.
pub open spec fn result_view(r: Result<Vec<TestUnit>, GenError>) -> Result<
    Seq<TestUnitV>,
    GenErrorV,
> {
    match r {
        Result::Ok(us) => Result::Ok(units_view(us@)),
        Result::Err(e) => Result::Err(e@),
    }
}

/// What an expansion over an already decoded sequence returns: the generated
/// units exactly when every entry passes, and otherwise the diagnostic for
/// the first entry that fails, naming its index — a re-serialization failure
/// when its canonical text does not exist, an expression-parse failure
/// otherwise.
pub open spec fn entries_post(
    t: TargetFnV,
    vals: Seq<serde_json::Value>,
    r: Result<Seq<TestUnitV>, GenErrorV>,
) -> bool {
    &&& (r is Ok <==> units_of(t, vals) is Some)
    &&& (r matches Ok(us) ==> units_of(t, vals) == Option::Some(us))
    &&& (r matches Err(e) ==> {
        let j = first_bad_from(the_param_ty(t), vals, 0);
        &&& 0 <= j < vals.len()
        &&& (canonical_json_of(vals[j]) is None ==> (e matches GenErrorV::ReserializeFailure {
            index,
            cause: _,
        } && index == j))
        &&& (canonical_json_of(vals[j]) is Some ==> (e matches GenErrorV::ExprParseFailure {
            index,
            cause: _,
        } && index == j))
    })
}

/// What `expand_data` returns, for every input: a read failure is reported
/// with the path and its cause; an unrecognized extension is reported with
/// the lowercased extension; a text that does not decode as a top-level
/// sequence in the extension's format is reported with that format and the
/// path; and a decoded sequence is expanded entry by entry.
pub open spec fn expand_post(
    t: TargetFnV,
    path: Seq<char>,
    content: Result<Seq<char>, Seq<char>>,
    r: Result<Seq<TestUnitV>, GenErrorV>,
) -> bool {
    match content {
        Result::Err(c) => r matches Err(e) && e matches GenErrorV::ReadFailure {
            path: p,
            cause,
        } && p == path && cause == c,
        Result::Ok(text) => match format_of_path(path) {
            Option::None => r matches Err(e) && e matches GenErrorV::UnsupportedExtension { ext }
                && ext == ext_lower_of(path),
            Option::Some(fmt) => match entries_of(fmt, text) {
                Option::None => r matches Err(e) && e matches GenErrorV::DecodeFailure {
                    format,
                    path: p,
                    cause: _,
                } && format == fmt && p == path,
                Option::Some(vals) => entries_post(t, vals, r),
            },
        },
    }
}

/// Checks the annotation and the target function's signature, and yields the
/// data file's path: the annotation must be a single string literal, the
/// function must have exactly one parameter, and that parameter must be a
/// plain typed binding. Each violation is the corresponding diagnostic, in
/// that order of checks.
pub fn plan_expansion(annotation: &str, target: &TargetFn) -> (r: Result<String, GenError>)
    ensures
        str_lit_value(annotation@) is None ==> (r matches Err(e) && e@ is MalformedAnnotation),
        str_lit_value(annotation@) is Some ==> {
            if target@.params.len() != 1 {
                r matches Err(e) && e@ matches GenErrorV::WrongArity { count } && count
                    == target@.params.len()
            } else if !(target@.params[0] is Typed) {
                r matches Err(e) && e@ is ParamNotTyped
            } else {
                r matches Ok(p) && Option::Some(p@) == str_lit_value(annotation@)
            }
        },
        r is Ok ==> runnable(target@) && str_lit_value(annotation@) is Some,
{
    let path = match parse_string_literal(annotation) {
        None => {
            return Err(GenError::MalformedAnnotation);
        },
        Some(p) => p,
    };
    if target.params.len() != 1 {
        return Err(GenError::WrongArity { count: target.params.len() });
    }
    proof {
        assert(target@.params[0] == target.params@.map_values(|p: FnParam| p@)[0]);
    }
    match &target.params[0] {
        FnParam::Typed { name: _, ty: _ } => Ok(path),
        FnParam::Other => Err(GenError::ParamNotTyped),
    }
}

/// Expands the target function against the data file's text (or against the
/// failure that reading it produced). One unit per decoded entry, in
/// document order; any failure is a whole-file diagnostic.
pub fn expand_data(target: &TargetFn, path: &str, content: Result<String, String>) -> (r: Result<
    Vec<TestUnit>,
    GenError,
>)
    requires
        runnable(target@),
    ensures
        expand_post(target@, path@, content_view(content), result_view(r)),
{
    let ghost t = target@;
    let text = match content {
        Ok(tx) => tx,
        Err(cause) => {
            return Err(GenError::ReadFailure { path: String::from_str(path), cause });
        },
    };
    let (ext_lower, fmt_opt) = data_format_of(path);
    let fmt = match fmt_opt {
        None => {
            return Err(GenError::UnsupportedExtension { ext: ext_lower });
        },
        Some(f) => f,
    };
    let decoded = match fmt {
        DataFormat::Json => decode_json_entries(text.as_str()),
        DataFormat::Yaml => decode_yaml_entries(text.as_str()),
    };
    let vals = match decoded {
        Err(cause) => {
            return Err(
                GenError::DecodeFailure { format: fmt, path: String::from_str(path), cause },
            );
        },
        Ok(v) => v,
    };
    proof {
        assert(t.params[0] == target.params@.map_values(|p: FnParam| p@)[0]);
    }
    let (pname, pty): (String, String) = match &target.params[0] {
        FnParam::Typed { name, ty } => (name.clone(), ty.clone()),
        FnParam::Other => {
            proof {
                assert(false);
            }
            return Err(GenError::ParamNotTyped);
        },
    };
    let ghost tys = the_param_ty(t);
    let mut out: Vec<TestUnit> = Vec::new();
    let mut i: usize = 0;
    while i < vals.len()
        invariant
            i <= vals@.len(),
            t == target@,
            runnable(t),
            pname@ == the_param_name(t),
            pty@ == the_param_ty(t),
            tys == the_param_ty(t),
            entries_of(fmt, text@) == Option::Some(vals@),
            format_of_path(path@) == Option::Some(fmt),
            content_view(content) == Result::<Seq<char>, Seq<char>>::Ok(text@),
            out@.len() == i,
            forall|k: int| 0 <= k < i ==> entry_good(tys, vals@[k]),
            forall|k: int|
                0 <= k < i ==> out@[k]@ == unit_for(t, canonical_json_of(vals@[k])->Some_0, k),
        decreases vals@.len() - i,
    {
        let cj: String = match encode_canonical_json(&vals[i]) {
            Err(cause) => {
                proof {
                    lemma_first_bad_pin(tys, vals@, i as int);
                    lemma_units_from_characterize(t, vals@, 0);
                }
                return Err(GenError::ReserializeFailure { index: i, cause });
            },
            Ok(s) => s,
        };
        let expr = build_expr_text(pty.as_str(), cj.as_str());
        match check_rust_expr(expr.as_str()) {
            Err(cause) => {
                proof {
                    lemma_first_bad_pin(tys, vals@, i as int);
                    lemma_units_from_characterize(t, vals@, 0);
                }
                return Err(GenError::ExprParseFailure { index: i, cause });
            },
            Ok(()) => (),
        }
        let name = build_case_name(target.name.as_str(), i);
        let unit = TestUnit {
            name,
            param_name: pname.clone(),
            param_ty: pty.clone(),
            case_json: cj,
            body: target.body.clone(),
        };
        out.push(unit);
        i += 1;
    }
    proof {
        lemma_units_from_characterize(t, vals@, 0);
        assert(units_view(out@) =~= units_of(t, vals@)->Some_0);
    }
    Ok(out)
}

} // verus!
