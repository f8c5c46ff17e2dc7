//! Auxiliary metadata carried by nodes: source positions, render hints, and
//! signature information for macro/environment definitions.

use vstd::prelude::*;
use vstd::string::StringExecFns;
use crate::dynvalue::{
    Dyn, DynV, fields_view, key_index, fld, conv_err, conv_error, get_usize_v, get_usize,
    get_bool_v, get_bool, get_opt_string_v, get_opt_string, find_field,
};
use crate::error::{UnlatexError, UnlatexErrorV, rv};

verus! {

/// A single point in the original source text. Zero-valued when absent.
#[derive(Debug, Clone, Copy, PartialEq, Eq, Structural)]
pub struct Position {
    pub line: usize,
    pub offset: usize,
    pub column: usize,
}

impl Default for Position {
    /// The zero-valued point.
    fn default() -> (r: Self)
        ensures
            r == (Position { line: 0, offset: 0, column: 0 }),
    {
        Position { line: 0, offset: 0, column: 0 }
    }
}

impl View for Position {
    type V = Position;

    open spec fn view(&self) -> Position {
        *self
    }
}

/// A half-open span between two points of the original source text.
#[derive(Debug, Clone, Copy, PartialEq, Eq, Structural)]
pub struct PositionInfo {
    pub start: Position,
    pub end: Position,
}

impl Default for PositionInfo {
    /// The zero-valued span.
    fn default() -> (r: Self)
        ensures
            r == (PositionInfo {
                start: Position { line: 0, offset: 0, column: 0 },
                end: Position { line: 0, offset: 0, column: 0 },
            }),
    {
        PositionInfo {
            start: Position { line: 0, offset: 0, column: 0 },
            end: Position { line: 0, offset: 0, column: 0 },
        }
    }
}

impl View for PositionInfo {
    type V = PositionInfo;

    open spec fn view(&self) -> PositionInfo {
        *self
    }
}

/// Advisory metadata attached by the engine to macro-like and
/// environment-like nodes, describing how to render them. This layer
/// transports it without interpreting it.
#[derive(Debug, PartialEq)]
pub struct RenderInfo {
    /// Whether to align the contents on `&` and `\\` delimiters.
    pub align_content: bool,
    /// Whether the contents wrap along with the current paragraph.
    pub in_par_mode: bool,
    /// Whether the arguments are pgfkeys-type arguments.
    pub pgfkeys_args: bool,
    /// Whether line breaks belong before and after the node.
    pub break_around: bool,
    /// Whether the contents are assumed to be in math mode.
    pub in_math_mode: bool,
    /// Whether wrapped arguments are rendered with a hanging indent.
    pub hanging_indent: bool,
    /// One name per declared argument; `None` marks an unnamed slot.
    pub named_arguments: Vec<Option<String>>,
}

/// The mathematical model of a [`RenderInfo`].
pub struct RenderInfoV {
    pub align_content: bool,
    pub in_par_mode: bool,
    pub pgfkeys_args: bool,
    pub break_around: bool,
    pub in_math_mode: bool,
    pub hanging_indent: bool,
    pub named_arguments: Seq<Option<Seq<char>>>,
}

impl View for RenderInfo {
    type V = RenderInfoV;

    open spec fn view(&self) -> RenderInfoV {
        RenderInfoV {
            align_content: self.align_content,
            in_par_mode: self.in_par_mode,
            pgfkeys_args: self.pgfkeys_args,
            break_around: self.break_around,
            in_math_mode: self.in_math_mode,
            hanging_indent: self.hanging_indent,
            named_arguments: Seq::new(
                self.named_arguments@.len(),
                |i: int| match self.named_arguments@[i] {
                    Some(s) => Some(s@),
                    None => None,
                },
            ),
        }
    }
}

/// The model of an optional render hint.
pub open spec fn opt_render_view(o: Option<RenderInfo>) -> Option<RenderInfoV> {
    match o {
        Some(r) => Some(r@),
        None => None,
    }
}

/// A point read from a dynamic value: an object whose `line`, `offset` and
/// `column` fields are unsigned integers, each zero when absent or null.
pub open spec fn position_of(d: DynV) -> Result<Position, UnlatexErrorV> {
    match d {
        DynV::Obj(fs) => match get_usize_v(fs, "line"@) {
            Err(e) => Err(e),
            Ok(line) => match get_usize_v(fs, "offset"@) {
                Err(e) => Err(e),
                Ok(offset) => match get_usize_v(fs, "column"@) {
                    Err(e) => Err(e),
                    Ok(column) => Ok(Position { line, offset, column }),
                },
            },
        },
        _ => Err(conv_err(d, "object"@)),
    }
}

/// A point field: absent or null is the zero-valued point.
pub open spec fn get_position_v(fs: Seq<(Seq<char>, DynV)>, k: Seq<char>) -> Result<
    Position,
    UnlatexErrorV,
> {
    match fld(fs, k) {
        None => Ok(Position { line: 0, offset: 0, column: 0 }),
        Some(DynV::Null) => Ok(Position { line: 0, offset: 0, column: 0 }),
        Some(d) => position_of(d),
    }
}

/// A span read from a dynamic value: an object with `start` and `end` points.
pub open spec fn posinfo_of(d: DynV) -> Result<PositionInfo, UnlatexErrorV> {
    match d {
        DynV::Obj(fs) => match get_position_v(fs, "start"@) {
            Err(e) => Err(e),
            Ok(start) => match get_position_v(fs, "end"@) {
                Err(e) => Err(e),
                Ok(end) => Ok(PositionInfo { start, end }),
            },
        },
        _ => Err(conv_err(d, "object"@)),
    }
}

/// A span field: absent or null is the zero-valued span.
pub open spec fn get_posinfo_v(fs: Seq<(Seq<char>, DynV)>, k: Seq<char>) -> Result<
    PositionInfo,
    UnlatexErrorV,
> {
    let zero = Position { line: 0, offset: 0, column: 0 };
    match fld(fs, k) {
        None => Ok(PositionInfo { start: zero, end: zero }),
        Some(DynV::Null) => Ok(PositionInfo { start: zero, end: zero }),
        Some(d) => posinfo_of(d),
    }
}

/// One slot of a named-argument list: null is an unnamed slot.
pub open spec fn named_args_seq(xs: Seq<DynV>, i: int) -> Result<
    Seq<Option<Seq<char>>>,
    UnlatexErrorV,
>
    decreases xs.len() - i,
{
    if i < 0 || i >= xs.len() {
        Ok(Seq::empty())
    } else {
        match xs[i] {
            DynV::Null => match named_args_seq(xs, i + 1) {
                Err(e) => Err(e),
                Ok(rest) => Ok(seq![Option::<Seq<char>>::None] + rest),
            },
            DynV::Str(s) => match named_args_seq(xs, i + 1) {
                Err(e) => Err(e),
                Ok(rest) => Ok(seq![Some(s)] + rest),
            },
            other => Err(conv_err(other, "string"@)),
        }
    }
}

/// A named-argument field: absent or null is the empty list.
pub open spec fn get_named_args_v(fs: Seq<(Seq<char>, DynV)>, k: Seq<char>) -> Result<
    Seq<Option<Seq<char>>>,
    UnlatexErrorV,
> {
    match fld(fs, k) {
        None => Ok(Seq::empty()),
        Some(DynV::Null) => Ok(Seq::empty()),
        Some(DynV::Arr(xs)) => named_args_seq(xs, 0),
        Some(d) => Err(conv_err(d, "array"@)),
    }
}

/// A render hint read from a dynamic object, field by field.
pub open spec fn render_info_of(d: DynV) -> Result<RenderInfoV, UnlatexErrorV> {
    match d {
        DynV::Obj(fs) => match get_bool_v(fs, "alignContent"@) {
            Err(e) => Err(e),
            Ok(align_content) => match get_bool_v(fs, "inParMode"@) {
                Err(e) => Err(e),
                Ok(in_par_mode) => match get_bool_v(fs, "pgfkeysArgs"@) {
                    Err(e) => Err(e),
                    Ok(pgfkeys_args) => match get_bool_v(fs, "breakAround"@) {
                        Err(e) => Err(e),
                        Ok(break_around) => match get_bool_v(fs, "inMathMode"@) {
                            Err(e) => Err(e),
                            Ok(in_math_mode) => match get_bool_v(fs, "hangingIndent"@) {
                                Err(e) => Err(e),
                                Ok(hanging_indent) => match get_named_args_v(
                                    fs,
                                    "namedArguments"@,
                                ) {
                                    Err(e) => Err(e),
                                    Ok(named_arguments) => Ok(
                                        RenderInfoV {
                                            align_content,
                                            in_par_mode,
                                            pgfkeys_args,
                                            break_around,
                                            in_math_mode,
                                            hanging_indent,
                                            named_arguments,
                                        },
                                    ),
                                },
                            },
                        },
                    },
                },
            },
        },
        _ => Err(conv_err(d, "object"@)),
    }
}

/// A render-hint field: absent or null is `None`.
pub open spec fn get_render_v(fs: Seq<(Seq<char>, DynV)>, k: Seq<char>) -> Result<
    Option<RenderInfoV>,
    UnlatexErrorV,
> {
    match fld(fs, k) {
        None => Ok(None),
        Some(DynV::Null) => Ok(None),
        Some(d) => match render_info_of(d) {
            Err(e) => Err(e),
            Ok(r) => Ok(Some(r)),
        },
    }
}

/// Read a point from a dynamic value.
pub fn position_from_dyn(d: &Dyn) -> (r: Result<Position, UnlatexError>)
    ensures
        rv(r) == position_of(d@),
{
    match d {
        Dyn::Obj(fs) => {
            let line = match get_usize(fs, &String::from_str("line")) {
                Ok(v) => v,
                Err(e) => return Err(e),
            };
            let offset = match get_usize(fs, &String::from_str("offset")) {
                Ok(v) => v,
                Err(e) => return Err(e),
            };
            let column = match get_usize(fs, &String::from_str("column")) {
                Ok(v) => v,
                Err(e) => return Err(e),
            };
            Ok(Position { line, offset, column })
        },
        _ => Err(conv_error(d, "object")),
    }
}

/// Read a point field of an object.
pub fn get_position(fs: &Vec<(String, Dyn)>, key: &String) -> (r: Result<Position, UnlatexError>)
    ensures
        rv(r) == get_position_v(fields_view(fs@), key@),
{
    match find_field(fs, key) {
        None => Ok(Position::default()),
        Some(d) => match d {
            Dyn::Null => Ok(Position::default()),
            _ => position_from_dyn(d),
        },
    }
}

/// Read a span from a dynamic value.
pub fn posinfo_from_dyn(d: &Dyn) -> (r: Result<PositionInfo, UnlatexError>)
    ensures
        rv(r) == posinfo_of(d@),
{
    match d {
        Dyn::Obj(fs) => {
            let start = match get_position(fs, &String::from_str("start")) {
                Ok(v) => v,
                Err(e) => return Err(e),
            };
            let end = match get_position(fs, &String::from_str("end")) {
                Ok(v) => v,
                Err(e) => return Err(e),
            };
            Ok(PositionInfo { start, end })
        },
        _ => Err(conv_error(d, "object")),
    }
}

/// Read a span field of an object.
pub fn get_posinfo(fs: &Vec<(String, Dyn)>, key: &String) -> (r: Result<PositionInfo, UnlatexError>)
    ensures
        rv(r) == get_posinfo_v(fields_view(fs@), key@),
{
    match find_field(fs, key) {
        None => Ok(PositionInfo::default()),
        Some(d) => match d {
            Dyn::Null => Ok(PositionInfo::default()),
            _ => posinfo_from_dyn(d),
        },
    }
}

/// Read the tail of a named-argument list, from slot `i` on.
fn named_args_from(xs: &Vec<Dyn>, i: usize, acc: Vec<Option<String>>) -> (r: Result<
    Vec<Option<String>>,
    UnlatexError,
>)
    requires
        i <= xs@.len(),
    ensures
        ({
            let s = named_args_seq(crate::dynvalue::seq_view(xs@), i as int);
            match r {
                Ok(out) => s matches Ok(rest) && opt_strings_view(out@) == opt_strings_view(acc@)
                    + rest,
                Err(e) => s == Err::<Seq<Option<Seq<char>>>, UnlatexErrorV>(e@),
            }
        }),
    decreases xs@.len() - i,
{
    let ghost sv = crate::dynvalue::seq_view(xs@);
    if i == xs.len() {
        assert(opt_strings_view(acc@) =~= opt_strings_view(acc@) + Seq::empty());
        Ok(acc)
    } else {
        let slot: Option<String> = match &xs[i] {
            Dyn::Null => None,
            Dyn::Str(s) => Some(s.clone()),
            other => {
                return Err(conv_error(other, "string"));
            },
        };
        let ghost slot_v: Option<Seq<char>> = match slot {
            Some(ref s) => Some(s@),
            None => None,
        };
        let mut acc2 = acc;
        acc2.push(slot);
        proof {
            assert(opt_strings_view(acc2@) =~= opt_strings_view(acc@) + seq![slot_v]);
        }
        let r = named_args_from(xs, i + 1, acc2);
        proof {
            if let Ok(rest) = named_args_seq(sv, i + 1) {
                assert(opt_strings_view(acc@) + (seq![slot_v] + rest) =~= (opt_strings_view(acc@)
                    + seq![slot_v]) + rest);
            }
        }
        r
    }
}

/// The models of the slots of a named-argument list.
pub open spec fn opt_strings_view(xs: Seq<Option<String>>) -> Seq<Option<Seq<char>>> {
    Seq::new(
        xs.len(),
        |i: int| match xs[i] {
            Some(s) => Some(s@),
            None => None,
        },
    )
}

/// Read a named-argument field of an object.
pub fn get_named_args(fs: &Vec<(String, Dyn)>, key: &String) -> (r: Result<
    Vec<Option<String>>,
    UnlatexError,
>)
    ensures
        ({
            let s = get_named_args_v(fields_view(fs@), key@);
            match r {
                Ok(out) => s == Ok::<Seq<Option<Seq<char>>>, UnlatexErrorV>(opt_strings_view(out@)),
                Err(e) => s == Err::<Seq<Option<Seq<char>>>, UnlatexErrorV>(e@),
            }
        }),
{
    match find_field(fs, key) {
        None => {
            let out: Vec<Option<String>> = Vec::new();
            proof {
                assert(opt_strings_view(out@) =~= Seq::<Option<Seq<char>>>::empty());
            }
            Ok(out)
        },
        Some(d) => match d {
            Dyn::Null => {
                let out: Vec<Option<String>> = Vec::new();
                proof {
                    assert(opt_strings_view(out@) =~= Seq::<Option<Seq<char>>>::empty());
                }
                Ok(out)
            },
            Dyn::Arr(xs) => {
                proof {
                    assert(d@ == DynV::Arr(crate::dynvalue::seq_view(xs@)));
                }
                let acc0: Vec<Option<String>> = Vec::new();
                let ghost acc0v = acc0@;
                match named_args_from(xs, 0, acc0) {
                    Ok(out) => {
                        proof {
                            if let Ok(rest) = named_args_seq(crate::dynvalue::seq_view(xs@), 0) {
                                assert(opt_strings_view(acc0v) + rest =~= rest);
                            }
                        }
                        Ok(out)
                    },
                    Err(e) => Err(e),
                }
            },
            _ => Err(conv_error(d, "array")),
        },
    }
}

/// Read a render hint from a dynamic value.
pub fn render_info_from_dyn(d: &Dyn) -> (r: Result<RenderInfo, UnlatexError>)
    ensures
        rv(r) == render_info_of(d@),
{
    match d {
        Dyn::Obj(fs) => {
            let align_content = match get_bool(fs, &String::from_str("alignContent")) {
                Ok(v) => v,
                Err(e) => return Err(e),
            };
            let in_par_mode = match get_bool(fs, &String::from_str("inParMode")) {
                Ok(v) => v,
                Err(e) => return Err(e),
            };
            let pgfkeys_args = match get_bool(fs, &String::from_str("pgfkeysArgs")) {
                Ok(v) => v,
                Err(e) => return Err(e),
            };
            let break_around = match get_bool(fs, &String::from_str("breakAround")) {
                Ok(v) => v,
                Err(e) => return Err(e),
            };
            let in_math_mode = match get_bool(fs, &String::from_str("inMathMode")) {
                Ok(v) => v,
                Err(e) => return Err(e),
            };
            let hanging_indent = match get_bool(fs, &String::from_str("hangingIndent")) {
                Ok(v) => v,
                Err(e) => return Err(e),
            };
            let named_arguments = match get_named_args(fs, &String::from_str("namedArguments")) {
                Ok(v) => v,
                Err(e) => return Err(e),
            };
            let out = RenderInfo {
                align_content,
                in_par_mode,
                pgfkeys_args,
                break_around,
                in_math_mode,
                hanging_indent,
                named_arguments,
            };
            proof {
                assert(out@.named_arguments =~= opt_strings_view(named_arguments@));
            }
            Ok(out)
        },
        _ => Err(conv_error(d, "object")),
    }
}

/// Read a render-hint field of an object.
pub fn get_render(fs: &Vec<(String, Dyn)>, key: &String) -> (r: Result<Option<RenderInfo>, UnlatexError>)
    ensures
        ({
            let s = get_render_v(fields_view(fs@), key@);
            match r {
                Ok(o) => s == Ok::<Option<RenderInfoV>, UnlatexErrorV>(opt_render_view(o)),
                Err(e) => s == Err::<Option<RenderInfoV>, UnlatexErrorV>(e@),
            }
        }),
{
    match find_field(fs, key) {
        None => Ok(None),
        Some(d) => match d {
            Dyn::Null => Ok(None),
            _ => match render_info_from_dyn(d) {
                Ok(r) => Ok(Some(r)),
                Err(e) => Err(e),
            },
        },
    }
}


/// Signature metadata for a macro or environment definition.
#[derive(Debug)]
pub struct Info {
    /// How to render the macro or environment, if the engine says.
    pub render_info: Option<RenderInfo>,
    /// A pre-processed override of a body, treated as the new body.
    pub process_content: Option<Vec<crate::ast::Node>>,
    /// The signature as an argument-specification string, opaque here.
    pub signature: Option<String>,
    /// A non-standard triggering token, for macros without an escape token.
    pub escape_token: Option<String>,
}

/// The mathematical model of an [`Info`].
pub struct InfoV {
    pub render_info: Option<RenderInfoV>,
    pub process_content: Option<Seq<crate::ast::NodeV>>,
    pub signature: Option<Seq<char>>,
    pub escape_token: Option<Seq<char>>,
}

impl View for Info {
    type V = InfoV;

    open spec fn view(&self) -> InfoV {
        InfoV {
            render_info: opt_render_view(self.render_info),
            process_content: match self.process_content {
                Some(ns) => Some(crate::ast::nodes_view(ns@)),
                None => None,
            },
            signature: match self.signature {
                Some(s) => Some(s@),
                None => None,
            },
            escape_token: match self.escape_token {
                Some(s) => Some(s@),
                None => None,
            },
        }
    }
}

/// An optional node-list field of the object `d`: absent or null is `None`.
pub open spec fn get_opt_nodes_obj(d: DynV, k: Seq<char>) -> Result<
    Option<Seq<crate::ast::NodeV>>,
    UnlatexErrorV,
> {
    match d {
        DynV::Obj(fs) => {
            let i = key_index(fs, k);
            if i < fs.len() {
                match fs[i as int].1 {
                    DynV::Null => Ok(None),
                    sub => match crate::ast::nodes_of(sub) {
                        Err(e) => Err(e),
                        Ok(ns) => Ok(Some(ns)),
                    },
                }
            } else {
                Ok(None)
            }
        },
        _ => Ok(None),
    }
}

/// Signature metadata read from a dynamic value, field by field.
pub open spec fn info_of(d: DynV) -> Result<InfoV, UnlatexErrorV> {
    match d {
        DynV::Obj(fs) => match get_render_v(fs, "renderInfo"@) {
            Err(e) => Err(e),
            Ok(render_info) => match get_opt_nodes_obj(d, "processContent"@) {
                Err(e) => Err(e),
                Ok(process_content) => match get_opt_string_v(fs, "signature"@) {
                    Err(e) => Err(e),
                    Ok(signature) => match get_opt_string_v(fs, "escapeToken"@) {
                        Err(e) => Err(e),
                        Ok(escape_token) => Ok(
                            InfoV { render_info, process_content, signature, escape_token },
                        ),
                    },
                },
            },
        },
        _ => Err(conv_err(d, "object"@)),
    }
}

/// Read an optional node-list field of the object `d`.
pub fn get_opt_nodes(d: &Dyn, key: &String) -> (r: Result<Option<Vec<crate::ast::Node>>, UnlatexError>)
    ensures
        ({
            let s = get_opt_nodes_obj(d@, key@);
            match r {
                Ok(None) => s == Ok::<Option<Seq<crate::ast::NodeV>>, UnlatexErrorV>(None),
                Ok(Some(out)) => s == Ok::<Option<Seq<crate::ast::NodeV>>, UnlatexErrorV>(
                    Some(crate::ast::nodes_view(out@)),
                ),
                Err(e) => s == Err::<Option<Seq<crate::ast::NodeV>>, UnlatexErrorV>(e@),
            }
        }),
{
    match d {
        Dyn::Obj(fs) => {
            match find_field(fs, key) {
                None => Ok(None),
                Some(sub) => match sub {
                    Dyn::Null => Ok(None),
                    _ => match crate::ast::nodes_from_val(sub) {
                        Ok(ns) => Ok(Some(ns)),
                        Err(e) => Err(e),
                    },
                },
            }
        },
        _ => Ok(None),
    }
}

/// Read signature metadata from a dynamic value.
pub fn info_from_dyn(d: &Dyn) -> (r: Result<Info, UnlatexError>)
    ensures
        rv(r) == info_of(d@),
{
    match d {
        Dyn::Obj(fs) => {
            let render_info = match get_render(fs, &String::from_str("renderInfo")) {
                Ok(v) => v,
                Err(e) => return Err(e),
            };
            let process_content = match get_opt_nodes(d, &String::from_str("processContent")) {
                Ok(v) => v,
                Err(e) => return Err(e),
            };
            let signature = match get_opt_string(fs, &String::from_str("signature")) {
                Ok(v) => v,
                Err(e) => return Err(e),
            };
            let escape_token = match get_opt_string(fs, &String::from_str("escapeToken")) {
                Ok(v) => v,
                Err(e) => return Err(e),
            };
            Ok(Info { render_info, process_content, signature, escape_token })
        },
        _ => Err(conv_error(d, "object")),
    }
}


/// Law: absence and explicit null agree for the structured field types too.
/// A point and a span default to zero-valued, a render hint to `None`, and a
/// named-argument list to the empty list — never an error.
pub proof fn lemma_structured_default_on_absence(fs: Seq<(Seq<char>, DynV)>, k: Seq<char>)
    requires
        fld(fs, k) == Option::<DynV>::None || fld(fs, k) == Some(DynV::Null),
    ensures
        get_position_v(fs, k) == Ok::<Position, UnlatexErrorV>(
            Position { line: 0, offset: 0, column: 0 },
        ),
        get_posinfo_v(fs, k) == Ok::<PositionInfo, UnlatexErrorV>(
            PositionInfo {
                start: Position { line: 0, offset: 0, column: 0 },
                end: Position { line: 0, offset: 0, column: 0 },
            },
        ),
        get_render_v(fs, k) == Ok::<Option<RenderInfoV>, UnlatexErrorV>(None),
        get_named_args_v(fs, k) == Ok::<Seq<Option<Seq<char>>>, UnlatexErrorV>(Seq::empty()),
{
}


impl Clone for RenderInfo {
    /// A clone carries the same model.
    fn clone(&self) -> (r: Self)
        ensures
            r@ == self@,
    {
        let mut named_arguments: Vec<Option<String>> = Vec::new();
        let mut i: usize = 0;
        while i < self.named_arguments.len()
            invariant
                i <= self.named_arguments@.len(),
                named_arguments@.len() == i,
                forall|j: int|
                    0 <= j < i ==> crate::ast::opt_string_view(#[trigger] named_arguments@[j])
                        == crate::ast::opt_string_view(self.named_arguments@[j]),
            decreases self.named_arguments@.len() - i,
        {
            let slot: Option<String> = match &self.named_arguments[i] {
                Some(s) => Some(s.clone()),
                None => None,
            };
            named_arguments.push(slot);
            i += 1;
        }
        let r = RenderInfo {
            align_content: self.align_content,
            in_par_mode: self.in_par_mode,
            pgfkeys_args: self.pgfkeys_args,
            break_around: self.break_around,
            in_math_mode: self.in_math_mode,
            hanging_indent: self.hanging_indent,
            named_arguments,
        };
        proof {
            assert(r@.named_arguments =~= self@.named_arguments);
        }
        r
    }
}

impl Clone for Info {
    /// A clone carries the same model.
    fn clone(&self) -> (r: Self)
        ensures
            r@ == self@,
    {
        Info {
            render_info: match &self.render_info {
                Some(ri) => Some(ri.clone()),
                None => None,
            },
            process_content: match &self.process_content {
                Some(ns) => Some(crate::ast::clone_nodes(ns)),
                None => None,
            },
            signature: match &self.signature {
                Some(s) => Some(s.clone()),
                None => None,
            },
            escape_token: match &self.escape_token {
                Some(s) => Some(s.clone()),
                None => None,
            },
        }
    }
}

} // verus!
