//! The engine's data: the target function, the generated test units, and the
//! generation-time diagnostics.

use vstd::prelude::*;
use crate::extension::DataFormat;
use crate::text::{dec_str, escape_str, escape_string, usize_to_string};

verus! {

/// One parameter of the target function: either a plain `name: Type` binding,
/// or some other shape (`self`, a pattern, a reference form), which the
/// engine rejects.
#[derive(Debug)]
pub enum FnParam {
    Typed { name: String, ty: String },
    Other,
}

pub enum FnParamV {
    Typed { name: Seq<char>, ty: Seq<char> },
    Other,
}

impl View for FnParam {
    type V = FnParamV;

    open spec fn view(&self) -> FnParamV {
        match self {
            FnParam::Typed { name, ty } => FnParamV::Typed { name: name@, ty: ty@ },
            FnParam::Other => FnParamV::Other,
        }
    }
}

/// The annotated function: its name, its parameters in order, and its body,
/// an opaque block of source text copied verbatim into every generated unit.
#[derive(Debug)]
pub struct TargetFn {
    pub name: String,
    pub params: Vec<FnParam>,
    pub body: String,
}

pub struct TargetFnV {
    pub name: Seq<char>,
    pub params: Seq<FnParamV>,
    pub body: Seq<char>,
}

impl View for TargetFn {
    type V = TargetFnV;

    open spec fn view(&self) -> TargetFnV {
        TargetFnV {
            name: self.name@,
            params: self.params@.map_values(|p: FnParam| p@),
            body: self.body@,
        }
    }
}

/// A target the engine can expand: exactly one parameter, and that parameter
/// a plain typed binding.
pub open spec fn runnable(t: TargetFnV) -> bool {
    &&& t.params.len() == 1
    &&& t.params[0] is Typed
}

/// The one parameter's name (empty for a target that is not runnable).
pub open spec fn the_param_name(t: TargetFnV) -> Seq<char> {
    match t.params[0] {
        FnParamV::Typed { name, ty } => name,
        FnParamV::Other => Seq::empty(),
    }
}

/// The one parameter's declared type text (empty for a target that is not
/// runnable).
pub open spec fn the_param_ty(t: TargetFnV) -> Seq<char> {
    match t.params[0] {
        FnParamV::Typed { name, ty } => ty,
        FnParamV::Other => Seq::empty(),
    }
}

/// One generated test unit: a uniquely named test function that deserializes
/// its own entry's canonical JSON text into the declared type, binds it to
/// the parameter's name, and runs the original body.
#[derive(Debug)]
pub struct TestUnit {
    pub name: String,
    pub param_name: String,
    pub param_ty: String,
    pub case_json: String,
    pub body: String,
}

pub struct TestUnitV {
    pub name: Seq<char>,
    pub param_name: Seq<char>,
    pub param_ty: Seq<char>,
    pub case_json: Seq<char>,
    pub body: Seq<char>,
}

impl View for TestUnit {
    type V = TestUnitV;

    open spec fn view(&self) -> TestUnitV {
        TestUnitV {
            name: self.name@,
            param_name: self.param_name@,
            param_ty: self.param_ty@,
            case_json: self.case_json@,
            body: self.body@,
        }
    }
}

/// The views of a vector of units, in order.
pub open spec fn units_view(s: Seq<TestUnit>) -> Seq<TestUnitV> {
    s.map_values(|u: TestUnit| u@)
}

/// A generation-time diagnostic. Every one of these blocks the whole
/// expansion; none is deferred to the generated units.
#[derive(Debug)]
pub enum GenError {
    /// The annotation's argument is not a single string literal.
    MalformedAnnotation,
    /// The target function has `count` parameters instead of exactly one.
    WrongArity { count: usize },
    /// The target function's one parameter is not a plain typed binding.
    ParamNotTyped,
    /// The data file could not be read.
    ReadFailure { path: String, cause: String },
    /// The data file's extension names no supported format.
    UnsupportedExtension { ext: String },
    /// The data file does not decode as a top-level sequence in its format.
    DecodeFailure { format: DataFormat, path: String, cause: String },
    /// Entry `index` could not be re-serialized to canonical JSON text.
    ReserializeFailure { index: usize, cause: String },
    /// Entry `index`'s deserialization expression is not valid expression
    /// syntax.
    ExprParseFailure { index: usize, cause: String },
}

pub enum GenErrorV {
    MalformedAnnotation,
    WrongArity { count: int },
    ParamNotTyped,
    ReadFailure { path: Seq<char>, cause: Seq<char> },
    UnsupportedExtension { ext: Seq<char> },
    DecodeFailure { format: DataFormat, path: Seq<char>, cause: Seq<char> },
    ReserializeFailure { index: int, cause: Seq<char> },
    ExprParseFailure { index: int, cause: Seq<char> },
}

impl View for GenError {
    type V = GenErrorV;

    open spec fn view(&self) -> GenErrorV {
        match self {
            GenError::MalformedAnnotation => GenErrorV::MalformedAnnotation,
            GenError::WrongArity { count } => GenErrorV::WrongArity { count: *count as int },
            GenError::ParamNotTyped => GenErrorV::ParamNotTyped,
            GenError::ReadFailure { path, cause } => GenErrorV::ReadFailure {
                path: path@,
                cause: cause@,
            },
            GenError::UnsupportedExtension { ext } => GenErrorV::UnsupportedExtension { ext: ext@ },
            GenError::DecodeFailure { format, path, cause } => GenErrorV::DecodeFailure {
                format: *format,
                path: path@,
                cause: cause@,
            },
            GenError::ReserializeFailure { index, cause } => GenErrorV::ReserializeFailure {
                index: *index as int,
                cause: cause@,
            },
            GenError::ExprParseFailure { index, cause } => GenErrorV::ExprParseFailure {
                index: *index as int,
                cause: cause@,
            },
        }
    }
}

/// The name of the format, as it stands in diagnostics.
pub open spec fn format_name(f: DataFormat) -> Seq<char> {
    match f {
        DataFormat::Json => "JSON"@,
        DataFormat::Yaml => "YAML"@,
    }
}

/// The diagnostic text of an error: it names the path, the entry index and
/// the underlying cause wherever one applies.
pub open spec fn message_of(e: GenErrorV) -> Seq<char> {
    match e {
        GenErrorV::MalformedAnnotation => {
            "datafile_test annotation must be a single string literal file path"@
        },
        GenErrorV::WrongArity { count } => {
            "datafile_test function must have exactly one argument"@
        },
        GenErrorV::ParamNotTyped => "datafile_test function must take a structured argument"@,
        GenErrorV::ReadFailure { path, cause } => {
            "Failed to read data file '"@ + path + "': "@ + cause
        },
        GenErrorV::UnsupportedExtension { ext } => "Unsupported file extension: '"@ + ext + "'"@,
        GenErrorV::DecodeFailure { format, path, cause } => {
            "Failed to parse "@ + format_name(format) + " file '"@ + path + "': "@ + cause
        },
        GenErrorV::ReserializeFailure { index, cause } => {
            "Failed to convert test case "@ + dec_str(index as nat) + " to JSON: "@ + cause
        },
        GenErrorV::ExprParseFailure { index, cause } => {
            "Failed to parse test case "@ + dec_str(index as nat) + " JSON as Rust expression: "@
                + cause
        },
    }
}

impl GenError {
    /// Renders the diagnostic text.
    pub fn message(&self) -> (r: String)
        ensures
            r@ == message_of(self@),
    {
        match self {
            GenError::MalformedAnnotation => String::from_str(
                "datafile_test annotation must be a single string literal file path",
            ),
            GenError::WrongArity { count } => String::from_str(
                "datafile_test function must have exactly one argument",
            ),
            GenError::ParamNotTyped => String::from_str(
                "datafile_test function must take a structured argument",
            ),
            GenError::ReadFailure { path, cause } => {
                let mut s = String::from_str("Failed to read data file '");
                s.append(path.as_str());
                s.append("': ");
                s.append(cause.as_str());
                s
            },
            GenError::UnsupportedExtension { ext } => {
                let mut s = String::from_str("Unsupported file extension: '");
                s.append(ext.as_str());
                s.append("'");
                s
            },
            GenError::DecodeFailure { format, path, cause } => {
                let mut s = String::from_str("Failed to parse ");
                match format {
                    DataFormat::Json => s.append("JSON"),
                    DataFormat::Yaml => s.append("YAML"),
                }
                s.append(" file '");
                s.append(path.as_str());
                s.append("': ");
                s.append(cause.as_str());
                s
            },
            GenError::ReserializeFailure { index, cause } => {
                let mut s = String::from_str("Failed to convert test case ");
                let d = usize_to_string(*index);
                s.append(d.as_str());
                s.append(" to JSON: ");
                s.append(cause.as_str());
                s
            },
            GenError::ExprParseFailure { index, cause } => {
                let mut s = String::from_str("Failed to parse test case ");
                let d = usize_to_string(*index);
                s.append(d.as_str());
                s.append(" JSON as Rust expression: ");
                s.append(cause.as_str());
                s
            },
        }
    }
}

/// The name of generated unit `i` for a target function named `fn_name`:
/// `<fn_name>_case_<i>`. It depends on nothing else — in particular, never on
/// the entry's content.
pub open spec fn case_name(fn_name: Seq<char>, i: int) -> Seq<char> {
    fn_name + "_case_"@ + dec_str(i as nat)
}

/// Renders the name of unit `i`.
pub fn build_case_name(fn_name: &str, i: usize) -> (r: String)
    ensures
        r@ == case_name(fn_name@, i as int),
{
    let mut s = String::from_str(fn_name);
    s.append("_case_");
    let d = usize_to_string(i);
    s.append(d.as_str());
    s
}

/// The deserialization expression of a unit: it constructs the declared type
/// from the entry's canonical JSON text, and aborts that one unit on a shape
/// mismatch.
pub open spec fn expr_text(ty: Seq<char>, json: Seq<char>) -> Seq<char> {
    "serde_json::from_str::<"@ + ty + ">(\""@ + escape_str(json) + "\").unwrap()"@
}

/// Renders the deserialization expression for the given type and canonical
/// JSON text.
pub fn build_expr_text(ty: &str, json: &str) -> (r: String)
    ensures
        r@ == expr_text(ty@, json@),
{
    let mut s = String::from_str("serde_json::from_str::<");
    s.append(ty);
    s.append(">(\"");
    let e = escape_string(json);
    s.append(e.as_str());
    s.append("\").unwrap()");
    s
}

/// The source text of one generated unit: an independent `#[test]` function
/// that binds the freshly deserialized value to the original parameter name
/// and then runs the original body.
pub open spec fn render_unit(u: TestUnitV) -> Seq<char> {
    "#[test]\nfn "@ + u.name + "() {\n    let "@ + u.param_name + ": "@ + u.param_ty + " = "@
        + expr_text(u.param_ty, u.case_json) + ";\n    "@ + u.body + "\n}\n"@
}

impl TestUnit {
    /// Renders this unit's source text.
    pub fn render(&self) -> (r: String)
        ensures
            r@ == render_unit(self@),
    {
        let mut s = String::from_str("#[test]\nfn ");
        s.append(self.name.as_str());
        s.append("() {\n    let ");
        s.append(self.param_name.as_str());
        s.append(": ");
        s.append(self.param_ty.as_str());
        s.append(" = ");
        let e = build_expr_text(self.param_ty.as_str(), self.case_json.as_str());
        s.append(e.as_str());
        s.append(";\n    ");
        s.append(self.body.as_str());
        s.append("\n}\n");
        s
    }
}

/// The concatenated source text of units `i` and onward, in order.
pub open spec fn render_units_from(us: Seq<TestUnitV>, i: int) -> Seq<char>
    decreases us.len() - i,
{
    if i >= us.len() {
        Seq::empty()
    } else {
        render_unit(us[i]) + render_units_from(us, i + 1)
    }
}

/// Renders the whole generated fragment: every unit's source text, in
/// document order.
pub fn render_all(units: &Vec<TestUnit>) -> (r: String)
    ensures
        r@ == render_units_from(units_view(units@), 0),
{
    let ghost v = units_view(units@);
    let mut s = String::new();
    let mut i: usize = 0;
    proof {
        assert(Seq::<char>::empty() + render_units_from(v, 0) =~= render_units_from(v, 0));
    }
    while i < units.len()
        invariant
            i <= units.len(),
            v == units_view(units@),
            v.len() == units@.len(),
            render_units_from(v, 0) == s@ + render_units_from(v, i as int),
        decreases units.len() - i,
    {
        let ghost s_old = s@;
        let piece = units[i].render();
        s.append(piece.as_str());
        proof {
            assert(v[i as int] == units@[i as int]@);
            assert(s_old + (render_unit(v[i as int]) + render_units_from(v, i + 1)) =~= s@
                + render_units_from(v, i + 1));
        }
        i += 1;
    }
    proof {
        assert(s@ + render_units_from(v, i as int) =~= s@);
    }
    s
}

} // verus!
