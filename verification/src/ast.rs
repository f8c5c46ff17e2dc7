//! The typed document tree: a closed set of tagged node variants, and the
//! recursive, tag-dispatched reconstruction of that tree from a dynamic
//! value graph.
//!
//! Any unrecognized tag produces the `Error` variant — a terminal,
//! non-propagating fallback: the surrounding tree continues to build
//! normally around it.

use vstd::prelude::*;
use vstd::string::StringExecFns;
use crate::dynvalue::{
    Dyn, DynV, fields_view, seq_view, key_index, fld, conv_err, conv_error, get_bool_v, get_bool,
    get_string_v, get_string, get_opt_string_v, get_opt_string, find_field,
};
use crate::error::{UnlatexError, UnlatexErrorV, rv};
use crate::info::{
    PositionInfo, RenderInfo, RenderInfoV, opt_render_view, get_posinfo_v, get_posinfo,
    get_render_v, get_render,
};

verus! {

/// One element of the reconstructed typed document tree.
///
/// Fields not present in the engine's output default to their type's zero
/// value rather than causing failure. Every variant except `Error` carries a
/// source span and an optional render hint.
#[derive(Debug)]
pub enum Node {
    Root { content: Vec<Node>, position: PositionInfo, render_info: Option<RenderInfo> },
    String { content: std::string::String, position: PositionInfo, render_info: Option<
        RenderInfo,
    > },
    WhiteSpace { position: PositionInfo, render_info: Option<RenderInfo> },
    Parbreak { position: PositionInfo, render_info: Option<RenderInfo> },
    Comment {
        content: std::string::String,
        sameline: bool,
        suffix_parbreak: bool,
        leading_whitespace: bool,
        position: PositionInfo,
        render_info: Option<RenderInfo>,
    },
    Macro {
        content: std::string::String,
        args: Vec<Node>,
        escape_token: Option<std::string::String>,
        position: PositionInfo,
        render_info: Option<RenderInfo>,
    },
    Environment {
        env: std::string::String,
        args: Vec<Node>,
        content: Vec<Node>,
        position: PositionInfo,
        render_info: Option<RenderInfo>,
    },
    MathEnv {
        env: std::string::String,
        args: Vec<Node>,
        content: Vec<Node>,
        position: PositionInfo,
        render_info: Option<RenderInfo>,
    },
    VerbatimEnvironment {
        env: std::string::String,
        content: std::string::String,
        position: PositionInfo,
        render_info: Option<RenderInfo>,
    },
    DisplayMath { content: Vec<Node>, position: PositionInfo, render_info: Option<RenderInfo> },
    Group { content: Vec<Node>, position: PositionInfo, render_info: Option<RenderInfo> },
    InlineMath { content: Vec<Node>, position: PositionInfo, render_info: Option<RenderInfo> },
    Verb {
        env: std::string::String,
        escape: std::string::String,
        content: std::string::String,
        position: PositionInfo,
        render_info: Option<RenderInfo>,
    },
    Argument {
        open_mark: std::string::String,
        close_mark: std::string::String,
        content: Vec<Node>,
        position: PositionInfo,
        render_info: Option<RenderInfo>,
    },
    Error,
}

/// The mathematical model of a [`Node`].
pub enum NodeV {
    Root { content: Seq<NodeV>, position: PositionInfo, render_info: Option<RenderInfoV> },
    String { content: Seq<char>, position: PositionInfo, render_info: Option<RenderInfoV> },
    WhiteSpace { position: PositionInfo, render_info: Option<RenderInfoV> },
    Parbreak { position: PositionInfo, render_info: Option<RenderInfoV> },
    Comment {
        content: Seq<char>,
        sameline: bool,
        suffix_parbreak: bool,
        leading_whitespace: bool,
        position: PositionInfo,
        render_info: Option<RenderInfoV>,
    },
    Macro {
        content: Seq<char>,
        args: Seq<NodeV>,
        escape_token: Option<Seq<char>>,
        position: PositionInfo,
        render_info: Option<RenderInfoV>,
    },
    Environment {
        env: Seq<char>,
        args: Seq<NodeV>,
        content: Seq<NodeV>,
        position: PositionInfo,
        render_info: Option<RenderInfoV>,
    },
    MathEnv {
        env: Seq<char>,
        args: Seq<NodeV>,
        content: Seq<NodeV>,
        position: PositionInfo,
        render_info: Option<RenderInfoV>,
    },
    VerbatimEnvironment {
        env: Seq<char>,
        content: Seq<char>,
        position: PositionInfo,
        render_info: Option<RenderInfoV>,
    },
    DisplayMath { content: Seq<NodeV>, position: PositionInfo, render_info: Option<RenderInfoV> },
    Group { content: Seq<NodeV>, position: PositionInfo, render_info: Option<RenderInfoV> },
    InlineMath { content: Seq<NodeV>, position: PositionInfo, render_info: Option<RenderInfoV> },
    Verb {
        env: Seq<char>,
        escape: Seq<char>,
        content: Seq<char>,
        position: PositionInfo,
        render_info: Option<RenderInfoV>,
    },
    Argument {
        open_mark: Seq<char>,
        close_mark: Seq<char>,
        content: Seq<NodeV>,
        position: PositionInfo,
        render_info: Option<RenderInfoV>,
    },
    Error,
}

/// The model of an optional escape token or other optional string.
pub open spec fn opt_string_view(o: Option<std::string::String>) -> Option<Seq<char>> {
    match o {
        Some(s) => Some(s@),
        None => None,
    }
}

impl View for Node {
    type V = NodeV;

    open spec fn view(&self) -> NodeV
        decreases self, 1int,
    {
        match self {
            Node::Root { content, position, render_info } => NodeV::Root {
                content: nodes_view(content@),
                position: *position,
                render_info: opt_render_view(*render_info),
            },
            Node::String { content, position, render_info } => NodeV::String {
                content: content@,
                position: *position,
                render_info: opt_render_view(*render_info),
            },
            Node::WhiteSpace { position, render_info } => NodeV::WhiteSpace {
                position: *position,
                render_info: opt_render_view(*render_info),
            },
            Node::Parbreak { position, render_info } => NodeV::Parbreak {
                position: *position,
                render_info: opt_render_view(*render_info),
            },
            Node::Comment {
                content,
                sameline,
                suffix_parbreak,
                leading_whitespace,
                position,
                render_info,
            } => NodeV::Comment {
                content: content@,
                sameline: *sameline,
                suffix_parbreak: *suffix_parbreak,
                leading_whitespace: *leading_whitespace,
                position: *position,
                render_info: opt_render_view(*render_info),
            },
            Node::Macro { content, args, escape_token, position, render_info } => NodeV::Macro {
                content: content@,
                args: nodes_view(args@),
                escape_token: opt_string_view(*escape_token),
                position: *position,
                render_info: opt_render_view(*render_info),
            },
            Node::Environment { env, args, content, position, render_info } => NodeV::Environment {
                env: env@,
                args: nodes_view(args@),
                content: nodes_view(content@),
                position: *position,
                render_info: opt_render_view(*render_info),
            },
            Node::MathEnv { env, args, content, position, render_info } => NodeV::MathEnv {
                env: env@,
                args: nodes_view(args@),
                content: nodes_view(content@),
                position: *position,
                render_info: opt_render_view(*render_info),
            },
            Node::VerbatimEnvironment { env, content, position, render_info } => NodeV::VerbatimEnvironment {
                env: env@,
                content: content@,
                position: *position,
                render_info: opt_render_view(*render_info),
            },
            Node::DisplayMath { content, position, render_info } => NodeV::DisplayMath {
                content: nodes_view(content@),
                position: *position,
                render_info: opt_render_view(*render_info),
            },
            Node::Group { content, position, render_info } => NodeV::Group {
                content: nodes_view(content@),
                position: *position,
                render_info: opt_render_view(*render_info),
            },
            Node::InlineMath { content, position, render_info } => NodeV::InlineMath {
                content: nodes_view(content@),
                position: *position,
                render_info: opt_render_view(*render_info),
            },
            Node::Verb { env, escape, content, position, render_info } => NodeV::Verb {
                env: env@,
                escape: escape@,
                content: content@,
                position: *position,
                render_info: opt_render_view(*render_info),
            },
            Node::Argument { open_mark, close_mark, content, position, render_info } => NodeV::Argument {
                open_mark: open_mark@,
                close_mark: close_mark@,
                content: nodes_view(content@),
                position: *position,
                render_info: opt_render_view(*render_info),
            },
            Node::Error => NodeV::Error,
        }
    }
}

/// The models of the elements of a node list.
pub open spec fn nodes_view(xs: Seq<Node>) -> Seq<NodeV>
    decreases xs, 0int,
{
    Seq::new(
        xs.len(),
        |i: int|
            if 0 <= i < xs.len() {
                xs[i]@
            } else {
                NodeV::Error
            },
    )
}

/// A node read from a dynamic value.
///
/// The value must be an object carrying a string `type` tag; the tag selects
/// the variant, and a tag outside the known set selects `UnlatexError`. Each
/// variant's fields are read through the scalar extraction layer, recursing
/// into nested node lists.
pub open spec fn node_of(d: DynV) -> Result<NodeV, UnlatexErrorV>
    decreases d, 3int, 0int,
{
    match d {
        DynV::Obj(fs) => {
            let ti = key_index(fs, "type"@);
            if ti < fs.len() {
                match fs[ti as int].1 {
                    DynV::Str(t) => {
                        if t == "root"@ {
                            match get_nodes_obj(d, "content"@) {
                                Err(e) => Err(e),
                                Ok(content) => match get_posinfo_v(fs, "position"@) {
                                    Err(e) => Err(e),
                                    Ok(position) => match get_render_v(fs, "_renderInfo"@) {
                                        Err(e) => Err(e),
                                        Ok(render_info) => Ok(
                                            NodeV::Root { content, position, render_info },
                                        ),
                                    },
                                },
                            }
                        } else if t == "string"@ {
                            match get_string_v(fs, "content"@) {
                                Err(e) => Err(e),
                                Ok(content) => match get_posinfo_v(fs, "position"@) {
                                    Err(e) => Err(e),
                                    Ok(position) => match get_render_v(fs, "_renderInfo"@) {
                                        Err(e) => Err(e),
                                        Ok(render_info) => Ok(
                                            NodeV::String { content, position, render_info },
                                        ),
                                    },
                                },
                            }
                        } else if t == "whitespace"@ {
                            match get_posinfo_v(fs, "position"@) {
                                Err(e) => Err(e),
                                Ok(position) => match get_render_v(fs, "_renderInfo"@) {
                                    Err(e) => Err(e),
                                    Ok(render_info) => Ok(
                                        NodeV::WhiteSpace { position, render_info },
                                    ),
                                },
                            }
                        } else if t == "parbreak"@ {
                            match get_posinfo_v(fs, "position"@) {
                                Err(e) => Err(e),
                                Ok(position) => match get_render_v(fs, "_renderInfo"@) {
                                    Err(e) => Err(e),
                                    Ok(render_info) => Ok(NodeV::Parbreak { position, render_info }),
                                },
                            }
                        } else if t == "comment"@ {
                            match get_string_v(fs, "content"@) {
                                Err(e) => Err(e),
                                Ok(content) => match get_bool_v(fs, "sameline"@) {
                                    Err(e) => Err(e),
                                    Ok(sameline) => match get_bool_v(fs, "suffixParbreak"@) {
                                        Err(e) => Err(e),
                                        Ok(suffix_parbreak) => match get_bool_v(
                                            fs,
                                            "leadingWhitespace"@,
                                        ) {
                                            Err(e) => Err(e),
                                            Ok(leading_whitespace) => match get_posinfo_v(
                                                fs,
                                                "position"@,
                                            ) {
                                                Err(e) => Err(e),
                                                Ok(position) => match get_render_v(
                                                    fs,
                                                    "_renderInfo"@,
                                                ) {
                                                    Err(e) => Err(e),
                                                    Ok(render_info) => Ok(
                                                        NodeV::Comment {
                                                            content,
                                                            sameline,
                                                            suffix_parbreak,
                                                            leading_whitespace,
                                                            position,
                                                            render_info,
                                                        },
                                                    ),
                                                },
                                            },
                                        },
                                    },
                                },
                            }
                        } else if t == "macro"@ {
                            match get_string_v(fs, "content"@) {
                                Err(e) => Err(e),
                                Ok(content) => match get_nodes_obj(d, "args"@) {
                                    Err(e) => Err(e),
                                    Ok(args) => match get_opt_string_v(fs, "escapeToken"@) {
                                        Err(e) => Err(e),
                                        Ok(escape_token) => match get_posinfo_v(fs, "position"@) {
                                            Err(e) => Err(e),
                                            Ok(position) => match get_render_v(fs, "_renderInfo"@) {
                                                Err(e) => Err(e),
                                                Ok(render_info) => Ok(
                                                    NodeV::Macro {
                                                        content,
                                                        args,
                                                        escape_token,
                                                        position,
                                                        render_info,
                                                    },
                                                ),
                                            },
                                        },
                                    },
                                },
                            }
                        } else if t == "environment"@ {
                            match env_like_of(d, fs) {
                                Err(e) => Err(e),
                                Ok((env, args, content, position, render_info)) => Ok(
                                    NodeV::Environment { env, args, content, position, render_info },
                                ),
                            }
                        } else if t == "mathenv"@ {
                            match env_like_of(d, fs) {
                                Err(e) => Err(e),
                                Ok((env, args, content, position, render_info)) => Ok(
                                    NodeV::MathEnv { env, args, content, position, render_info },
                                ),
                            }
                        } else if t == "verbatim"@ {
                            match get_string_v(fs, "env"@) {
                                Err(e) => Err(e),
                                Ok(env) => match get_string_v(fs, "content"@) {
                                    Err(e) => Err(e),
                                    Ok(content) => match get_posinfo_v(fs, "position"@) {
                                        Err(e) => Err(e),
                                        Ok(position) => match get_render_v(fs, "_renderInfo"@) {
                                            Err(e) => Err(e),
                                            Ok(render_info) => Ok(
                                                NodeV::VerbatimEnvironment {
                                                    env,
                                                    content,
                                                    position,
                                                    render_info,
                                                },
                                            ),
                                        },
                                    },
                                },
                            }
                        } else if t == "displaymath"@ {
                            match get_nodes_obj(d, "content"@) {
                                Err(e) => Err(e),
                                Ok(content) => match get_posinfo_v(fs, "position"@) {
                                    Err(e) => Err(e),
                                    Ok(position) => match get_render_v(fs, "_renderInfo"@) {
                                        Err(e) => Err(e),
                                        Ok(render_info) => Ok(
                                            NodeV::DisplayMath { content, position, render_info },
                                        ),
                                    },
                                },
                            }
                        } else if t == "group"@ {
                            match get_nodes_obj(d, "content"@) {
                                Err(e) => Err(e),
                                Ok(content) => match get_posinfo_v(fs, "position"@) {
                                    Err(e) => Err(e),
                                    Ok(position) => match get_render_v(fs, "_renderInfo"@) {
                                        Err(e) => Err(e),
                                        Ok(render_info) => Ok(
                                            NodeV::Group { content, position, render_info },
                                        ),
                                    },
                                },
                            }
                        } else if t == "inlinemath"@ {
                            match get_nodes_obj(d, "content"@) {
                                Err(e) => Err(e),
                                Ok(content) => match get_posinfo_v(fs, "position"@) {
                                    Err(e) => Err(e),
                                    Ok(position) => match get_render_v(fs, "_renderInfo"@) {
                                        Err(e) => Err(e),
                                        Ok(render_info) => Ok(
                                            NodeV::InlineMath { content, position, render_info },
                                        ),
                                    },
                                },
                            }
                        } else if t == "verb"@ {
                            match get_string_v(fs, "env"@) {
                                Err(e) => Err(e),
                                Ok(env) => match get_string_v(fs, "escape"@) {
                                    Err(e) => Err(e),
                                    Ok(escape) => match get_string_v(fs, "content"@) {
                                        Err(e) => Err(e),
                                        Ok(content) => match get_posinfo_v(fs, "position"@) {
                                            Err(e) => Err(e),
                                            Ok(position) => match get_render_v(fs, "_renderInfo"@) {
                                                Err(e) => Err(e),
                                                Ok(render_info) => Ok(
                                                    NodeV::Verb {
                                                        env,
                                                        escape,
                                                        content,
                                                        position,
                                                        render_info,
                                                    },
                                                ),
                                            },
                                        },
                                    },
                                },
                            }
                        } else if t == "argument"@ {
                            match get_string_v(fs, "openMark"@) {
                                Err(e) => Err(e),
                                Ok(open_mark) => match get_string_v(fs, "closeMark"@) {
                                    Err(e) => Err(e),
                                    Ok(close_mark) => match get_nodes_obj(d, "content"@) {
                                        Err(e) => Err(e),
                                        Ok(content) => match get_posinfo_v(fs, "position"@) {
                                            Err(e) => Err(e),
                                            Ok(position) => match get_render_v(fs, "_renderInfo"@) {
                                                Err(e) => Err(e),
                                                Ok(render_info) => Ok(
                                                    NodeV::Argument {
                                                        open_mark,
                                                        close_mark,
                                                        content,
                                                        position,
                                                        render_info,
                                                    },
                                                ),
                                            },
                                        },
                                    },
                                },
                            }
                        } else {
                            Ok(NodeV::Error)
                        }
                    },
                    other => Err(conv_err(other, "string"@)),
                }
            } else {
                Err(conv_err(DynV::Null, "string"@))
            }
        },
        _ => Err(conv_err(d, "object"@)),
    }
}

/// The shared field set of environment-like nodes.
pub open spec fn env_like_of(d: DynV, fs: Seq<(Seq<char>, DynV)>) -> Result<
    (Seq<char>, Seq<NodeV>, Seq<NodeV>, PositionInfo, Option<RenderInfoV>),
    UnlatexErrorV,
>
    decreases d, 2int, 1int,
{
    match get_string_v(fs, "env"@) {
        Err(e) => Err(e),
        Ok(env) => match get_nodes_obj(d, "args"@) {
            Err(e) => Err(e),
            Ok(args) => match get_nodes_obj(d, "content"@) {
                Err(e) => Err(e),
                Ok(content) => match get_posinfo_v(fs, "position"@) {
                    Err(e) => Err(e),
                    Ok(position) => match get_render_v(fs, "_renderInfo"@) {
                        Err(e) => Err(e),
                        Ok(render_info) => Ok((env, args, content, position, render_info)),
                    },
                },
            },
        },
    }
}

/// A node-list field of the object `d`: absent is the empty list.
pub open spec fn get_nodes_obj(d: DynV, k: Seq<char>) -> Result<Seq<NodeV>, UnlatexErrorV>
    decreases d, 2int, 0int,
{
    match d {
        DynV::Obj(fs) => {
            let i = key_index(fs, k);
            if i < fs.len() {
                nodes_of(fs[i as int].1)
            } else {
                Ok(Seq::empty())
            }
        },
        _ => Ok(Seq::empty()),
    }
}

/// A node list read from a field value: null is the empty list, an array is
/// read element-wise, and anything else does not convert.
pub open spec fn nodes_of(d: DynV) -> Result<Seq<NodeV>, UnlatexErrorV>
    decreases d, 3int, 0int,
{
    match d {
        DynV::Null => Ok(Seq::empty()),
        DynV::Arr(xs) => nodes_seq(xs, 0),
        _ => Err(conv_err(d, "array"@)),
    }
}

/// The nodes of the elements of `xs` from index `i` on, in input order; the
/// first element that does not convert aborts the whole list.
pub open spec fn nodes_seq(xs: Seq<DynV>, i: int) -> Result<Seq<NodeV>, UnlatexErrorV>
    decreases xs, 2int, xs.len() - i,
{
    if i < 0 || i >= xs.len() {
        Ok(Seq::empty())
    } else {
        match node_of(xs[i]) {
            Err(e) => Err(e),
            Ok(n) => match nodes_seq(xs, i + 1) {
                Err(e) => Err(e),
                Ok(rest) => Ok(seq![n] + rest),
            },
        }
    }
}


/// Read a node-list field of the object `d`.
pub fn get_nodes(d: &Dyn, key: &String) -> (r: Result<Vec<Node>, UnlatexError>)
    ensures
        ({
            let s = get_nodes_obj(d@, key@);
            match r {
                Ok(out) => s == Ok::<Seq<NodeV>, UnlatexErrorV>(nodes_view(out@)),
                Err(e) => s == Err::<Seq<NodeV>, UnlatexErrorV>(e@),
            }
        }),
    decreases d@, 2int, 0int,
{
    match d {
        Dyn::Obj(fs) => {
            match find_field(fs, key) {
                None => {
                    let out: Vec<Node> = Vec::new();
                    proof {
                        assert(nodes_view(out@) =~= Seq::<NodeV>::empty());
                    }
                    Ok(out)
                },
                Some(sub) => {
                    proof {
                        let dv = d@;
                        let fv = fields_view(fs@);
                        let i = key_index(fv, key@) as int;
                        assert(dv->Obj_0 == fv);
                        assert(decreases_to!(dv => dv->Obj_0));
                        assert(decreases_to!(dv->Obj_0 => dv->Obj_0[i]));
                        assert(decreases_to!(dv->Obj_0[i] => dv->Obj_0[i].1));
                        assert(decreases_to!(dv => sub@));
                    }
                    nodes_from_val(sub)
                },
            }
        },
        _ => {
            let out: Vec<Node> = Vec::new();
            proof {
                assert(nodes_view(out@) =~= Seq::<NodeV>::empty());
            }
            Ok(out)
        },
    }
}

/// Read a node list from a field value.
pub fn nodes_from_val(d: &Dyn) -> (r: Result<Vec<Node>, UnlatexError>)
    ensures
        ({
            let s = nodes_of(d@);
            match r {
                Ok(out) => s == Ok::<Seq<NodeV>, UnlatexErrorV>(nodes_view(out@)),
                Err(e) => s == Err::<Seq<NodeV>, UnlatexErrorV>(e@),
            }
        }),
    decreases d@, 3int, 0int,
{
    match d {
        Dyn::Null => {
            let out: Vec<Node> = Vec::new();
            proof {
                assert(nodes_view(out@) =~= Seq::<NodeV>::empty());
            }
            Ok(out)
        },
        Dyn::Arr(xs) => {
            proof {
                assert(d@ == DynV::Arr(seq_view(xs@)));
            }
            let acc0: Vec<Node> = Vec::new();
            let ghost acc0v = acc0@;
            let r = nodes_from(xs, 0, acc0);
            proof {
                if let Ok(rest) = nodes_seq(seq_view(xs@), 0) {
                    assert(nodes_view(acc0v) + rest =~= rest);
                }
            }
            r
        },
        _ => Err(conv_error(d, "array")),
    }
}

/// Read the elements of a node list from index `i` on, appending to `acc`.
fn nodes_from(xs: &Vec<Dyn>, i: usize, acc: Vec<Node>) -> (r: Result<Vec<Node>, UnlatexError>)
    requires
        i <= xs@.len(),
    ensures
        ({
            let s = nodes_seq(seq_view(xs@), i as int);
            match r {
                Ok(out) => s matches Ok(rest) && nodes_view(out@) == nodes_view(acc@) + rest,
                Err(e) => s == Err::<Seq<NodeV>, UnlatexErrorV>(e@),
            }
        }),
    decreases DynV::Arr(seq_view(xs@)), 2int, xs@.len() - i,
{
    let ghost sv = seq_view(xs@);
    if i == xs.len() {
        proof {
            assert(nodes_view(acc@) =~= nodes_view(acc@) + Seq::<NodeV>::empty());
        }
        Ok(acc)
    } else {
        proof {
            let av = DynV::Arr(sv);
            assert(decreases_to!(av => av->Arr_0));
            assert(av->Arr_0[i as int] == xs@[i as int]@);
            assert(decreases_to!(av->Arr_0 => av->Arr_0[i as int]));
        }
        match node_from_dyn(&xs[i]) {
            Err(e) => Err(e),
            Ok(n) => {
                let ghost nv = n@;
                let mut acc2 = acc;
                acc2.push(n);
                proof {
                    assert(nodes_view(acc2@) =~= nodes_view(acc@) + seq![nv]);
                }
                let r = nodes_from(xs, i + 1, acc2);
                proof {
                    if let Ok(rest) = nodes_seq(sv, i as int + 1) {
                        assert(nodes_view(acc@) + (seq![nv] + rest) =~= (nodes_view(acc@)
                            + seq![nv]) + rest);
                    }
                }
                r
            },
        }
    }
}

/// Read the shared field set of environment-like nodes.
fn env_like_from(d: &Dyn, fs: &Vec<(String, Dyn)>) -> (r: Result<
    (String, Vec<Node>, Vec<Node>, PositionInfo, Option<RenderInfo>),
    UnlatexError,
>)
    requires
        d@ == DynV::Obj(fields_view(fs@)),
    ensures
        ({
            let s = env_like_of(d@, fields_view(fs@));
            match r {
                Ok((env, args, content, position, render_info)) => s == Ok::<
                    (Seq<char>, Seq<NodeV>, Seq<NodeV>, PositionInfo, Option<RenderInfoV>),
                    UnlatexErrorV,
                >((env@, nodes_view(args@), nodes_view(content@), position, opt_render_view(
                    render_info,
                ))),
                Err(e) => s == Err::<
                    (Seq<char>, Seq<NodeV>, Seq<NodeV>, PositionInfo, Option<RenderInfoV>),
                    UnlatexErrorV,
                >(e@),
            }
        }),
    decreases d@, 2int, 1int,
{
    let env = match get_string(fs, &String::from_str("env")) {
        Ok(v) => v,
        Err(e) => return Err(e),
    };
    let args = match get_nodes(d, &String::from_str("args")) {
        Ok(v) => v,
        Err(e) => return Err(e),
    };
    let content = match get_nodes(d, &String::from_str("content")) {
        Ok(v) => v,
        Err(e) => return Err(e),
    };
    let position = match get_posinfo(fs, &String::from_str("position")) {
        Ok(v) => v,
        Err(e) => return Err(e),
    };
    let render_info = match get_render(fs, &String::from_str("_renderInfo")) {
        Ok(v) => v,
        Err(e) => return Err(e),
    };
    Ok((env, args, content, position, render_info))
}

/// Read a node from a dynamic value: coerce it to an object, read its string
/// `type` tag, and dispatch to the tagged variant; an unrecognized tag gives
/// the `Error` variant, never a failure of the whole conversion.
pub fn node_from_dyn(d: &Dyn) -> (r: Result<Node, UnlatexError>)
    ensures
        rv(r) == node_of(d@),
    decreases d@, 3int, 0int,
{
    let fs = match d {
        Dyn::Obj(fs) => fs,
        _ => {
            return Err(conv_error(d, "object"));
        },
    };
    proof {
        assert(d@ == DynV::Obj(fields_view(fs@)));
    }
    let tv = match find_field(fs, &String::from_str("type")) {
        Some(tv) => tv,
        None => {
            return Err(
                UnlatexError::FromJs {
                    from: String::from_str("null"),
                    to: String::from_str("string"),
                    message: None,
                },
            );
        },
    };
    let t = match tv {
        Dyn::Str(t) => t,
        _ => {
            return Err(conv_error(tv, "string"));
        },
    };
    if *t == String::from_str("root") {
        let content = match get_nodes(d, &String::from_str("content")) {
            Ok(v) => v,
            Err(e) => return Err(e),
        };
        let position = match get_posinfo(fs, &String::from_str("position")) {
            Ok(v) => v,
            Err(e) => return Err(e),
        };
        let render_info = match get_render(fs, &String::from_str("_renderInfo")) {
            Ok(v) => v,
            Err(e) => return Err(e),
        };
        Ok(Node::Root { content, position, render_info })
    } else if *t == String::from_str("string") {
        let content = match get_string(fs, &String::from_str("content")) {
            Ok(v) => v,
            Err(e) => return Err(e),
        };
        let position = match get_posinfo(fs, &String::from_str("position")) {
            Ok(v) => v,
            Err(e) => return Err(e),
        };
        let render_info = match get_render(fs, &String::from_str("_renderInfo")) {
            Ok(v) => v,
            Err(e) => return Err(e),
        };
        Ok(Node::String { content, position, render_info })
    } else if *t == String::from_str("whitespace") {
        let position = match get_posinfo(fs, &String::from_str("position")) {
            Ok(v) => v,
            Err(e) => return Err(e),
        };
        let render_info = match get_render(fs, &String::from_str("_renderInfo")) {
            Ok(v) => v,
            Err(e) => return Err(e),
        };
        Ok(Node::WhiteSpace { position, render_info })
    } else if *t == String::from_str("parbreak") {
        let position = match get_posinfo(fs, &String::from_str("position")) {
            Ok(v) => v,
            Err(e) => return Err(e),
        };
        let render_info = match get_render(fs, &String::from_str("_renderInfo")) {
            Ok(v) => v,
            Err(e) => return Err(e),
        };
        Ok(Node::Parbreak { position, render_info })
    } else if *t == String::from_str("comment") {
        let content = match get_string(fs, &String::from_str("content")) {
            Ok(v) => v,
            Err(e) => return Err(e),
        };
        let sameline = match get_bool(fs, &String::from_str("sameline")) {
            Ok(v) => v,
            Err(e) => return Err(e),
        };
        let suffix_parbreak = match get_bool(fs, &String::from_str("suffixParbreak")) {
            Ok(v) => v,
            Err(e) => return Err(e),
        };
        let leading_whitespace = match get_bool(fs, &String::from_str("leadingWhitespace")) {
            Ok(v) => v,
            Err(e) => return Err(e),
        };
        let position = match get_posinfo(fs, &String::from_str("position")) {
            Ok(v) => v,
            Err(e) => return Err(e),
        };
        let render_info = match get_render(fs, &String::from_str("_renderInfo")) {
            Ok(v) => v,
            Err(e) => return Err(e),
        };
        Ok(Node::Comment {
            content,
            sameline,
            suffix_parbreak,
            leading_whitespace,
            position,
            render_info,
        })
    } else if *t == String::from_str("macro") {
        let content = match get_string(fs, &String::from_str("content")) {
            Ok(v) => v,
            Err(e) => return Err(e),
        };
        let args = match get_nodes(d, &String::from_str("args")) {
            Ok(v) => v,
            Err(e) => return Err(e),
        };
        let escape_token = match get_opt_string(fs, &String::from_str("escapeToken")) {
            Ok(v) => v,
            Err(e) => return Err(e),
        };
        let position = match get_posinfo(fs, &String::from_str("position")) {
            Ok(v) => v,
            Err(e) => return Err(e),
        };
        let render_info = match get_render(fs, &String::from_str("_renderInfo")) {
            Ok(v) => v,
            Err(e) => return Err(e),
        };
        Ok(Node::Macro { content, args, escape_token, position, render_info })
    } else if *t == String::from_str("environment") {
        match env_like_from(d, fs) {
            Ok((env, args, content, position, render_info)) => Ok(
                Node::Environment { env, args, content, position, render_info },
            ),
            Err(e) => Err(e),
        }
    } else if *t == String::from_str("mathenv") {
        match env_like_from(d, fs) {
            Ok((env, args, content, position, render_info)) => Ok(
                Node::MathEnv { env, args, content, position, render_info },
            ),
            Err(e) => Err(e),
        }
    } else if *t == String::from_str("verbatim") {
        let env = match get_string(fs, &String::from_str("env")) {
            Ok(v) => v,
            Err(e) => return Err(e),
        };
        let content = match get_string(fs, &String::from_str("content")) {
            Ok(v) => v,
            Err(e) => return Err(e),
        };
        let position = match get_posinfo(fs, &String::from_str("position")) {
            Ok(v) => v,
            Err(e) => return Err(e),
        };
        let render_info = match get_render(fs, &String::from_str("_renderInfo")) {
            Ok(v) => v,
            Err(e) => return Err(e),
        };
        Ok(Node::VerbatimEnvironment { env, content, position, render_info })
    } else if *t == String::from_str("displaymath") {
        let content = match get_nodes(d, &String::from_str("content")) {
            Ok(v) => v,
            Err(e) => return Err(e),
        };
        let position = match get_posinfo(fs, &String::from_str("position")) {
            Ok(v) => v,
            Err(e) => return Err(e),
        };
        let render_info = match get_render(fs, &String::from_str("_renderInfo")) {
            Ok(v) => v,
            Err(e) => return Err(e),
        };
        Ok(Node::DisplayMath { content, position, render_info })
    } else if *t == String::from_str("group") {
        let content = match get_nodes(d, &String::from_str("content")) {
            Ok(v) => v,
            Err(e) => return Err(e),
        };
        let position = match get_posinfo(fs, &String::from_str("position")) {
            Ok(v) => v,
            Err(e) => return Err(e),
        };
        let render_info = match get_render(fs, &String::from_str("_renderInfo")) {
            Ok(v) => v,
            Err(e) => return Err(e),
        };
        Ok(Node::Group { content, position, render_info })
    } else if *t == String::from_str("inlinemath") {
        let content = match get_nodes(d, &String::from_str("content")) {
            Ok(v) => v,
            Err(e) => return Err(e),
        };
        let position = match get_posinfo(fs, &String::from_str("position")) {
            Ok(v) => v,
            Err(e) => return Err(e),
        };
        let render_info = match get_render(fs, &String::from_str("_renderInfo")) {
            Ok(v) => v,
            Err(e) => return Err(e),
        };
        Ok(Node::InlineMath { content, position, render_info })
    } else if *t == String::from_str("verb") {
        let env = match get_string(fs, &String::from_str("env")) {
            Ok(v) => v,
            Err(e) => return Err(e),
        };
        let escape = match get_string(fs, &String::from_str("escape")) {
            Ok(v) => v,
            Err(e) => return Err(e),
        };
        let content = match get_string(fs, &String::from_str("content")) {
            Ok(v) => v,
            Err(e) => return Err(e),
        };
        let position = match get_posinfo(fs, &String::from_str("position")) {
            Ok(v) => v,
            Err(e) => return Err(e),
        };
        let render_info = match get_render(fs, &String::from_str("_renderInfo")) {
            Ok(v) => v,
            Err(e) => return Err(e),
        };
        Ok(Node::Verb { env, escape, content, position, render_info })
    } else if *t == String::from_str("argument") {
        let open_mark = match get_string(fs, &String::from_str("openMark")) {
            Ok(v) => v,
            Err(e) => return Err(e),
        };
        let close_mark = match get_string(fs, &String::from_str("closeMark")) {
            Ok(v) => v,
            Err(e) => return Err(e),
        };
        let content = match get_nodes(d, &String::from_str("content")) {
            Ok(v) => v,
            Err(e) => return Err(e),
        };
        let position = match get_posinfo(fs, &String::from_str("position")) {
            Ok(v) => v,
            Err(e) => return Err(e),
        };
        let render_info = match get_render(fs, &String::from_str("_renderInfo")) {
            Ok(v) => v,
            Err(e) => return Err(e),
        };
        Ok(Node::Argument { open_mark, close_mark, content, position, render_info })
    } else {
        Ok(Node::Error)
    }
}


/// The closed set of tags that select a variant other than `Error`.
pub open spec fn is_known_tag(t: Seq<char>) -> bool {
    ||| t == "root"@
    ||| t == "string"@
    ||| t == "whitespace"@
    ||| t == "parbreak"@
    ||| t == "comment"@
    ||| t == "macro"@
    ||| t == "environment"@
    ||| t == "mathenv"@
    ||| t == "verbatim"@
    ||| t == "displaymath"@
    ||| t == "group"@
    ||| t == "inlinemath"@
    ||| t == "verb"@
    ||| t == "argument"@
}

/// Law: a tagged object whose tag is outside the known set converts
/// successfully to the `UnlatexError` node, never to a failure.
pub proof fn lemma_unknown_tag(fs: Seq<(Seq<char>, DynV)>)
    requires
        ({
            let ti = key_index(fs, "type"@);
            &&& ti < fs.len()
            &&& fs[ti as int].1 matches DynV::Str(t) && !is_known_tag(t)
        }),
    ensures
        node_of(DynV::Obj(fs)) == Ok::<NodeV, UnlatexErrorV>(NodeV::Error),
{
}

/// The node lists from index `i` on preserve input order: element `j` of the
/// output is the reconstruction of element `j + i` of the input.
proof fn lemma_nodes_seq_ok(xs: Seq<DynV>, i: int)
    requires
        0 <= i <= xs.len(),
        forall|j: int| i <= j < xs.len() ==> #[trigger] node_of(xs[j]) is Ok,
    ensures
        nodes_seq(xs, i) matches Ok(ns) && ns.len() == xs.len() - i && forall|j: int|
            i <= j < xs.len() ==> ns[j - i] == #[trigger] node_of(xs[j])->Ok_0,
    decreases xs.len() - i,
{
    if i == xs.len() {
    } else {
        lemma_nodes_seq_ok(xs, i + 1);
        let n = node_of(xs[i])->Ok_0;
        let rest = nodes_seq(xs, i + 1)->Ok_0;
        let ns = nodes_seq(xs, i)->Ok_0;
        assert(ns =~= seq![n] + rest);
        assert forall|j: int| i <= j < xs.len() implies ns[j - i] == #[trigger] node_of(
            xs[j],
        )->Ok_0 by {
            if j > i {
                assert(ns[j - i] == rest[j - (i + 1)]);
            }
        }
    }
}

/// Law: when every element of a sequence converts, the reconstructed
/// sequence's element order equals the input order exactly: it has the same
/// length, and element `i` of the output is the conversion of element `i` of
/// the input — never reordered or deduplicated.
pub proof fn lemma_order_preservation(xs: Seq<DynV>)
    requires
        forall|i: int| 0 <= i < xs.len() ==> #[trigger] node_of(xs[i]) is Ok,
    ensures
        nodes_of(DynV::Arr(xs)) matches Ok(ns) && ns.len() == xs.len() && forall|i: int|
            0 <= i < xs.len() ==> ns[i] == #[trigger] node_of(xs[i])->Ok_0,
{
    lemma_nodes_seq_ok(xs, 0);
}

/// Law: an element that fails to convert aborts the whole sequence with that
/// element's error — there are no partial sequences.
pub proof fn lemma_sequence_abort(xs: Seq<DynV>, k: int)
    requires
        0 <= k < xs.len(),
        forall|i: int| 0 <= i < k ==> #[trigger] node_of(xs[i]) is Ok,
        node_of(xs[k]) is Err,
    ensures
        nodes_of(DynV::Arr(xs)) == Err::<Seq<NodeV>, UnlatexErrorV>(node_of(xs[k])->Err_0),
{
    lemma_nodes_seq_abort(xs, 0, k);
}

proof fn lemma_nodes_seq_abort(xs: Seq<DynV>, i: int, k: int)
    requires
        0 <= i <= k < xs.len(),
        forall|j: int| i <= j < k ==> #[trigger] node_of(xs[j]) is Ok,
        node_of(xs[k]) is Err,
    ensures
        nodes_seq(xs, i) == Err::<Seq<NodeV>, UnlatexErrorV>(node_of(xs[k])->Err_0),
    decreases k - i,
{
    if i < k {
        assert(node_of(xs[i]) is Ok);
        lemma_nodes_seq_abort(xs, i + 1, k);
        assert(nodes_seq(xs, i) == Err::<Seq<NodeV>, UnlatexErrorV>(node_of(xs[k])->Err_0));
    } else {
        assert(node_of(xs[i]) is Err);
        assert(nodes_seq(xs, i) == Err::<Seq<NodeV>, UnlatexErrorV>(node_of(xs[i])->Err_0));
    }
}

/// Law: the tag fallback is local. A sequence holding one subtree with an
/// unrecognized tag converts successfully overall, with exactly that subtree
/// materialized as the `Error` node and its siblings converted normally.
pub proof fn lemma_tag_fallback_is_local(xs: Seq<DynV>, k: int)
    requires
        0 <= k < xs.len(),
        forall|i: int| 0 <= i < xs.len() && i != k ==> #[trigger] node_of(xs[i]) is Ok,
        xs[k] matches DynV::Obj(fs) && ({
            let ti = key_index(fs, "type"@);
            &&& ti < fs.len()
            &&& fs[ti as int].1 matches DynV::Str(t) && !is_known_tag(t)
        }),
    ensures
        nodes_of(DynV::Arr(xs)) matches Ok(ns) && ns.len() == xs.len() && ns[k] == NodeV::Error
            && forall|i: int|
            0 <= i < xs.len() && i != k ==> ns[i] == #[trigger] node_of(xs[i])->Ok_0,
{
    let fs = xs[k]->Obj_0;
    lemma_unknown_tag(fs);
    lemma_order_preservation(xs);
}


/// The character of a single decimal digit.
pub open spec fn digit_char(n: nat) -> char {
    if n == 0 {
        '0'
    } else if n == 1 {
        '1'
    } else if n == 2 {
        '2'
    } else if n == 3 {
        '3'
    } else if n == 4 {
        '4'
    } else if n == 5 {
        '5'
    } else if n == 6 {
        '6'
    } else if n == 7 {
        '7'
    } else if n == 8 {
        '8'
    } else {
        '9'
    }
}

/// The decimal rendering of a number, most significant digit first.
pub open spec fn dec_digits(n: nat) -> Seq<char>
    decreases n,
{
    if n < 10 {
        seq![digit_char(n)]
    } else {
        dec_digits(n / 10).push(digit_char(n % 10))
    }
}

/// The one-line account of a node: its variant, and its name or its number
/// of children.
pub open spec fn spec_describe(n: NodeV) -> Seq<char> {
    match n {
        NodeV::Root { content, .. } => "Root: ["@ + dec_digits(content.len()) + "]\n"@,
        NodeV::String { content, .. } => "String: ["@ + content + "]"@,
        NodeV::WhiteSpace { .. } => "WhiteSpace"@,
        NodeV::Parbreak { .. } => "Parbreak: [\\par]"@,
        NodeV::Comment { content, .. } => "Comment: ["@ + content + "]"@,
        NodeV::Macro { content, .. } => "Macro: [\\"@ + content + "]"@,
        NodeV::Environment { env, .. } => "Environment: ["@ + env + "]"@,
        NodeV::MathEnv { env, .. } => "MathEnv: ["@ + env + "]"@,
        NodeV::VerbatimEnvironment { env, .. } => "VerbatimEnvironment: ["@ + env + "]"@,
        NodeV::DisplayMath { content, .. } => "DisplayMath: ["@ + dec_digits(content.len())
            + "]"@,
        NodeV::Group { content, .. } => "Group: ["@ + dec_digits(content.len()) + "]"@,
        NodeV::InlineMath { content, .. } => "InlineMath: ["@ + dec_digits(content.len()) + "]"@,
        NodeV::Verb { env, .. } => "Verb: ["@ + env + "]"@,
        NodeV::Argument { open_mark, close_mark, content, .. } => "Argument: ["@ + open_mark
            + dec_digits(content.len()) + close_mark + "]"@,
        NodeV::Error => "[Error]"@,
    }
}

/// The character of a single decimal digit.
fn digit_of(n: usize) -> (c: char)
    requires
        n < 10,
    ensures
        c == digit_char(n as nat),
{
    if n == 0 {
        '0'
    } else if n == 1 {
        '1'
    } else if n == 2 {
        '2'
    } else if n == 3 {
        '3'
    } else if n == 4 {
        '4'
    } else if n == 5 {
        '5'
    } else if n == 6 {
        '6'
    } else if n == 7 {
        '7'
    } else if n == 8 {
        '8'
    } else {
        '9'
    }
}

/// Append the decimal rendering of `n`.
pub(crate) fn dec_into(n: usize, out: &mut String)
    ensures
        final(out)@ == old(out)@ + dec_digits(n as nat),
    decreases n,
{
    if n < 10 {
        let c = digit_of(n);
        crate::dynvalue::push_char(out, c);
        proof {
            assert(final(out)@ =~= old(out)@ + seq![digit_char(n as nat)]);
        }
    } else {
        let ghost mid = dec_digits(n as nat / 10);
        dec_into(n / 10, out);
        let c = digit_of(n % 10);
        crate::dynvalue::push_char(out, c);
        proof {
            assert((old(out)@ + mid).push(digit_char(n as nat % 10)) =~= old(out)@ + mid.push(
                digit_char(n as nat % 10),
            ));
        }
    }
}

impl Node {
    /// The one-line account of this node: its variant, and its name or its
    /// number of children.
    pub fn describe(&self) -> (r: String)
        ensures
            r@ == spec_describe(self@),
    {
        let mut out = String::new();
        proof {
            assert(out@ =~= Seq::<char>::empty());
        }
        match self {
            Node::Root { content, .. } => {
                out.append("Root: [");
                proof {
                    assert(nodes_view(content@).len() == content@.len());
                }
                dec_into(content.len(), &mut out);
                out.append("]\n");
                proof {
                    assert(out@ =~= spec_describe(self@));
                }
            },
            Node::String { content, .. } => {
                out.append("String: [");
                out.append(content.as_str());
                out.append("]");
                proof {
                    assert(out@ =~= spec_describe(self@));
                }
            },
            Node::WhiteSpace { .. } => {
                out.append("WhiteSpace");
                proof {
                    assert(out@ =~= spec_describe(self@));
                }
            },
            Node::Parbreak { .. } => {
                out.append("Parbreak: [\\par]");
                proof {
                    assert(out@ =~= spec_describe(self@));
                }
            },
            Node::Comment { content, .. } => {
                out.append("Comment: [");
                out.append(content.as_str());
                out.append("]");
                proof {
                    assert(out@ =~= spec_describe(self@));
                }
            },
            Node::Macro { content, .. } => {
                out.append("Macro: [\\");
                out.append(content.as_str());
                out.append("]");
                proof {
                    assert(out@ =~= spec_describe(self@));
                }
            },
            Node::Environment { env, .. } => {
                out.append("Environment: [");
                out.append(env.as_str());
                out.append("]");
                proof {
                    assert(out@ =~= spec_describe(self@));
                }
            },
            Node::MathEnv { env, .. } => {
                out.append("MathEnv: [");
                out.append(env.as_str());
                out.append("]");
                proof {
                    assert(out@ =~= spec_describe(self@));
                }
            },
            Node::VerbatimEnvironment { env, .. } => {
                out.append("VerbatimEnvironment: [");
                out.append(env.as_str());
                out.append("]");
                proof {
                    assert(out@ =~= spec_describe(self@));
                }
            },
            Node::DisplayMath { content, .. } => {
                out.append("DisplayMath: [");
                proof {
                    assert(nodes_view(content@).len() == content@.len());
                }
                dec_into(content.len(), &mut out);
                out.append("]");
                proof {
                    assert(out@ =~= spec_describe(self@));
                }
            },
            Node::Group { content, .. } => {
                out.append("Group: [");
                proof {
                    assert(nodes_view(content@).len() == content@.len());
                }
                dec_into(content.len(), &mut out);
                out.append("]");
                proof {
                    assert(out@ =~= spec_describe(self@));
                }
            },
            Node::InlineMath { content, .. } => {
                out.append("InlineMath: [");
                proof {
                    assert(nodes_view(content@).len() == content@.len());
                }
                dec_into(content.len(), &mut out);
                out.append("]");
                proof {
                    assert(out@ =~= spec_describe(self@));
                }
            },
            Node::Verb { env, .. } => {
                out.append("Verb: [");
                out.append(env.as_str());
                out.append("]");
                proof {
                    assert(out@ =~= spec_describe(self@));
                }
            },
            Node::Argument { open_mark, close_mark, content, .. } => {
                out.append("Argument: [");
                out.append(open_mark.as_str());
                proof {
                    assert(nodes_view(content@).len() == content@.len());
                }
                dec_into(content.len(), &mut out);
                out.append(close_mark.as_str());
                out.append("]");
                proof {
                    assert(out@ =~= spec_describe(self@));
                }
            },
            Node::Error => {
                out.append("[Error]");
                proof {
                    assert(out@ =~= spec_describe(self@));
                }
            },
        }
        out
    }
}


/// Law: a node-list field that is absent or explicitly null defaults to the
/// empty list, never an error.
pub proof fn lemma_nodes_default_on_absence(fs: Seq<(Seq<char>, DynV)>, k: Seq<char>)
    requires
        fld(fs, k) == Option::<DynV>::None || fld(fs, k) == Some(DynV::Null),
    ensures
        get_nodes_obj(DynV::Obj(fs), k) == Ok::<Seq<NodeV>, UnlatexErrorV>(Seq::empty()),
{
}


/// The node of a known tag with every field at its type's default: the
/// empty string, the empty list, `false`, `None`, and the zero-valued span.
pub open spec fn default_node_of(t: Seq<char>) -> NodeV {
    let position = PositionInfo {
        start: crate::info::Position { line: 0, offset: 0, column: 0 },
        end: crate::info::Position { line: 0, offset: 0, column: 0 },
    };
    if t == "root"@ {
        NodeV::Root { content: Seq::empty(), position, render_info: None }
    } else if t == "string"@ {
        NodeV::String { content: Seq::empty(), position, render_info: None }
    } else if t == "whitespace"@ {
        NodeV::WhiteSpace { position, render_info: None }
    } else if t == "parbreak"@ {
        NodeV::Parbreak { position, render_info: None }
    } else if t == "comment"@ {
        NodeV::Comment {
            content: Seq::empty(),
            sameline: false,
            suffix_parbreak: false,
            leading_whitespace: false,
            position,
            render_info: None,
        }
    } else if t == "macro"@ {
        NodeV::Macro {
            content: Seq::empty(),
            args: Seq::empty(),
            escape_token: None,
            position,
            render_info: None,
        }
    } else if t == "environment"@ {
        NodeV::Environment {
            env: Seq::empty(),
            args: Seq::empty(),
            content: Seq::empty(),
            position,
            render_info: None,
        }
    } else if t == "mathenv"@ {
        NodeV::MathEnv {
            env: Seq::empty(),
            args: Seq::empty(),
            content: Seq::empty(),
            position,
            render_info: None,
        }
    } else if t == "verbatim"@ {
        NodeV::VerbatimEnvironment {
            env: Seq::empty(),
            content: Seq::empty(),
            position,
            render_info: None,
        }
    } else if t == "displaymath"@ {
        NodeV::DisplayMath { content: Seq::empty(), position, render_info: None }
    } else if t == "group"@ {
        NodeV::Group { content: Seq::empty(), position, render_info: None }
    } else if t == "inlinemath"@ {
        NodeV::InlineMath { content: Seq::empty(), position, render_info: None }
    } else if t == "verb"@ {
        NodeV::Verb {
            env: Seq::empty(),
            escape: Seq::empty(),
            content: Seq::empty(),
            position,
            render_info: None,
        }
    } else if t == "argument"@ {
        NodeV::Argument {
            open_mark: Seq::empty(),
            close_mark: Seq::empty(),
            content: Seq::empty(),
            position,
            render_info: None,
        }
    } else {
        NodeV::Error
    }
}

/// Law: a node carrying a known tag and nothing else — every other declared
/// field absent or null — converts to that variant with every field at its
/// type's default, never an error: the empty string, the empty list,
/// `false`, no escape token, no render hint, the zero-valued span.
#[verifier::rlimit(60)]
pub proof fn lemma_known_tag_all_defaults(fs: Seq<(Seq<char>, DynV)>, t: Seq<char>)
    requires
        ({
            let ti = key_index(fs, "type"@);
            ti < fs.len() && fs[ti as int].1 == DynV::Str(t)
        }),
        is_known_tag(t),
        fld(fs, "content"@) == Option::<DynV>::None || fld(fs, "content"@) == Some(DynV::Null),
        fld(fs, "args"@) == Option::<DynV>::None || fld(fs, "args"@) == Some(DynV::Null),
        fld(fs, "escapeToken"@) == Option::<DynV>::None || fld(fs, "escapeToken"@) == Some(
            DynV::Null,
        ),
        fld(fs, "env"@) == Option::<DynV>::None || fld(fs, "env"@) == Some(DynV::Null),
        fld(fs, "escape"@) == Option::<DynV>::None || fld(fs, "escape"@) == Some(DynV::Null),
        fld(fs, "openMark"@) == Option::<DynV>::None || fld(fs, "openMark"@) == Some(DynV::Null),
        fld(fs, "closeMark"@) == Option::<DynV>::None || fld(fs, "closeMark"@) == Some(
            DynV::Null,
        ),
        fld(fs, "sameline"@) == Option::<DynV>::None || fld(fs, "sameline"@) == Some(DynV::Null),
        fld(fs, "suffixParbreak"@) == Option::<DynV>::None || fld(fs, "suffixParbreak"@) == Some(
            DynV::Null,
        ),
        fld(fs, "leadingWhitespace"@) == Option::<DynV>::None || fld(fs, "leadingWhitespace"@)
            == Some(DynV::Null),
        fld(fs, "position"@) == Option::<DynV>::None || fld(fs, "position"@) == Some(DynV::Null),
        fld(fs, "_renderInfo"@) == Option::<DynV>::None || fld(fs, "_renderInfo"@) == Some(
            DynV::Null,
        ),
    ensures
        node_of(DynV::Obj(fs)) == Ok::<NodeV, UnlatexErrorV>(default_node_of(t)),
{
    lemma_tag_texts();
    crate::dynvalue::lemma_default_on_absence(fs, "content"@);
    crate::dynvalue::lemma_default_on_absence(fs, "escapeToken"@);
    crate::dynvalue::lemma_default_on_absence(fs, "env"@);
    crate::dynvalue::lemma_default_on_absence(fs, "escape"@);
    crate::dynvalue::lemma_default_on_absence(fs, "openMark"@);
    crate::dynvalue::lemma_default_on_absence(fs, "closeMark"@);
    crate::dynvalue::lemma_default_on_absence(fs, "sameline"@);
    crate::dynvalue::lemma_default_on_absence(fs, "suffixParbreak"@);
    crate::dynvalue::lemma_default_on_absence(fs, "leadingWhitespace"@);
    lemma_nodes_default_on_absence(fs, "content"@);
    lemma_nodes_default_on_absence(fs, "args"@);
    crate::info::lemma_structured_default_on_absence(fs, "position"@);
    crate::info::lemma_structured_default_on_absence(fs, "_renderInfo"@);
}

/// The known tags are pairwise distinct texts; telling them apart needs
/// their literals revealed, and the same-length pairs a distinguishing
/// character.
proof fn lemma_tag_texts()
    ensures
        "root"@.len() == 4,
        "string"@.len() == 6,
        "whitespace"@.len() == 10,
        "parbreak"@.len() == 8,
        "comment"@.len() == 7,
        "macro"@.len() == 5,
        "environment"@.len() == 11,
        "mathenv"@.len() == 7,
        "verbatim"@.len() == 8,
        "displaymath"@.len() == 11,
        "group"@.len() == 5,
        "inlinemath"@.len() == 10,
        "verb"@.len() == 4,
        "argument"@.len() == 8,
        "verb"@ != "root"@,
        "group"@ != "macro"@,
        "mathenv"@ != "comment"@,
        "verbatim"@ != "parbreak"@,
        "argument"@ != "parbreak"@,
        "argument"@ != "verbatim"@,
        "inlinemath"@ != "whitespace"@,
        "displaymath"@ != "environment"@,
{
    reveal_strlit("root");
    reveal_strlit("string");
    reveal_strlit("whitespace");
    reveal_strlit("parbreak");
    reveal_strlit("comment");
    reveal_strlit("macro");
    reveal_strlit("environment");
    reveal_strlit("mathenv");
    reveal_strlit("verbatim");
    reveal_strlit("displaymath");
    reveal_strlit("group");
    reveal_strlit("inlinemath");
    reveal_strlit("verb");
    reveal_strlit("argument");
    assert("verb"@[0] == 'v' && "root"@[0] == 'r');
    assert("group"@[0] == 'g' && "macro"@[0] == 'm');
    assert("mathenv"@[0] == 'm' && "comment"@[0] == 'c');
    assert("verbatim"@[0] == 'v' && "parbreak"@[0] == 'p');
    assert("argument"@[0] == 'a');
    assert("inlinemath"@[0] == 'i' && "whitespace"@[0] == 'w');
    assert("displaymath"@[0] == 'd' && "environment"@[0] == 'e');
}

/// Law: the tag fallback stays local through an ancestor. A root node whose
/// content holds one unrecognized-tag subtree among otherwise convertible
/// children still converts to a root node: its content has exactly that
/// child as the `Error` node and every other child converted normally, and
/// the ancestor's own fields are read per its own tag.
pub proof fn lemma_tag_fallback_under_root(fs: Seq<(Seq<char>, DynV)>, xs: Seq<DynV>, k: int)
    requires
        ({
            let ti = key_index(fs, "type"@);
            ti < fs.len() && fs[ti as int].1 == DynV::Str("root"@)
        }),
        fld(fs, "content"@) == Some(DynV::Arr(xs)),
        get_posinfo_v(fs, "position"@) is Ok,
        get_render_v(fs, "_renderInfo"@) is Ok,
        0 <= k < xs.len(),
        forall|i: int| 0 <= i < xs.len() && i != k ==> #[trigger] node_of(xs[i]) is Ok,
        xs[k] matches DynV::Obj(cfs) && ({
            let ti = key_index(cfs, "type"@);
            &&& ti < cfs.len()
            &&& cfs[ti as int].1 matches DynV::Str(t) && !is_known_tag(t)
        }),
    ensures
        node_of(DynV::Obj(fs)) matches Ok(n) && n matches NodeV::Root { content, .. }
            && content.len() == xs.len() && content[k] == NodeV::Error && forall|i: int|
            0 <= i < xs.len() && i != k ==> content[i] == #[trigger] node_of(xs[i])->Ok_0,
{
    lemma_tag_fallback_is_local(xs, k);
}


/// A clone of an optional render hint carries the same model.
fn clone_opt_render(o: &Option<RenderInfo>) -> (r: Option<RenderInfo>)
    ensures
        opt_render_view(r) == opt_render_view(*o),
{
    match o {
        Some(ri) => Some(ri.clone()),
        None => None,
    }
}

/// A clone of an optional string carries the same model.
fn clone_opt_string(o: &Option<std::string::String>) -> (r: Option<std::string::String>)
    ensures
        opt_string_view(r) == opt_string_view(*o),
{
    match o {
        Some(s) => Some(s.clone()),
        None => None,
    }
}

/// A clone of a node list carries the same models, in the same order.
pub(crate) fn clone_nodes(xs: &Vec<Node>) -> (r: Vec<Node>)
    ensures
        nodes_view(r@) == nodes_view(xs@),
    decreases xs@, 0int, xs@.len() + 1,
{
    let acc: Vec<Node> = Vec::new();
    proof {
        assert(nodes_view(acc@) =~= Seq::<NodeV>::empty());
    }
    let r = clone_nodes_from(xs, 0, acc);
    proof {
        assert(nodes_view(xs@).subrange(0, xs@.len() as int) =~= nodes_view(xs@));
        assert(Seq::<NodeV>::empty() + nodes_view(xs@) =~= nodes_view(xs@));
    }
    r
}

/// Clone the elements of a node list from index `i` on, appending to `acc`.
fn clone_nodes_from(xs: &Vec<Node>, i: usize, acc: Vec<Node>) -> (r: Vec<Node>)
    requires
        i <= xs@.len(),
    ensures
        nodes_view(r@) == nodes_view(acc@) + nodes_view(xs@).subrange(
            i as int,
            xs@.len() as int,
        ),
    decreases xs@, 0int, xs@.len() - i,
{
    if i == xs.len() {
        proof {
            assert(nodes_view(acc@) =~= nodes_view(acc@) + nodes_view(xs@).subrange(
                i as int,
                xs@.len() as int,
            ));
        }
        acc
    } else {
        proof {
            let xsv = xs@;
            assert(decreases_to!(xsv => xsv[i as int]));
        }
        let n = xs[i].clone();
        let ghost nv = n@;
        let mut acc2 = acc;
        acc2.push(n);
        proof {
            assert(nodes_view(acc2@) =~= nodes_view(acc@) + seq![nv]);
        }
        let r = clone_nodes_from(xs, i + 1, acc2);
        proof {
            assert(nodes_view(xs@).subrange(i as int, xs@.len() as int) =~= seq![nv]
                + nodes_view(xs@).subrange(i as int + 1, xs@.len() as int));
            assert((nodes_view(acc@) + seq![nv]) + nodes_view(xs@).subrange(
                i as int + 1,
                xs@.len() as int,
            ) =~= nodes_view(acc@) + (seq![nv] + nodes_view(xs@).subrange(
                i as int + 1,
                xs@.len() as int,
            )));
        }
        r
    }
}

impl Clone for Node {
    /// A clone carries the same model.
    fn clone(&self) -> (r: Self)
        ensures
            r@ == self@,
        decreases self, 1int, 0int,
    {
        match self {
            Node::Root { content, position, render_info } => Node::Root {
                content: clone_nodes(content),
                position: *position,
                render_info: clone_opt_render(render_info),
            },
            Node::String { content, position, render_info } => Node::String {
                content: content.clone(),
                position: *position,
                render_info: clone_opt_render(render_info),
            },
            Node::WhiteSpace { position, render_info } => Node::WhiteSpace {
                position: *position,
                render_info: clone_opt_render(render_info),
            },
            Node::Parbreak { position, render_info } => Node::Parbreak {
                position: *position,
                render_info: clone_opt_render(render_info),
            },
            Node::Comment {
                content,
                sameline,
                suffix_parbreak,
                leading_whitespace,
                position,
                render_info,
            } => Node::Comment {
                content: content.clone(),
                sameline: *sameline,
                suffix_parbreak: *suffix_parbreak,
                leading_whitespace: *leading_whitespace,
                position: *position,
                render_info: clone_opt_render(render_info),
            },
            Node::Macro { content, args, escape_token, position, render_info } => Node::Macro {
                content: content.clone(),
                args: clone_nodes(args),
                escape_token: clone_opt_string(escape_token),
                position: *position,
                render_info: clone_opt_render(render_info),
            },
            Node::Environment { env, args, content, position, render_info } => Node::Environment {
                env: env.clone(),
                args: clone_nodes(args),
                content: clone_nodes(content),
                position: *position,
                render_info: clone_opt_render(render_info),
            },
            Node::MathEnv { env, args, content, position, render_info } => Node::MathEnv {
                env: env.clone(),
                args: clone_nodes(args),
                content: clone_nodes(content),
                position: *position,
                render_info: clone_opt_render(render_info),
            },
            Node::VerbatimEnvironment { env, content, position, render_info } => Node::VerbatimEnvironment {
                env: env.clone(),
                content: content.clone(),
                position: *position,
                render_info: clone_opt_render(render_info),
            },
            Node::DisplayMath { content, position, render_info } => Node::DisplayMath {
                content: clone_nodes(content),
                position: *position,
                render_info: clone_opt_render(render_info),
            },
            Node::Group { content, position, render_info } => Node::Group {
                content: clone_nodes(content),
                position: *position,
                render_info: clone_opt_render(render_info),
            },
            Node::InlineMath { content, position, render_info } => Node::InlineMath {
                content: clone_nodes(content),
                position: *position,
                render_info: clone_opt_render(render_info),
            },
            Node::Verb { env, escape, content, position, render_info } => Node::Verb {
                env: env.clone(),
                escape: escape.clone(),
                content: content.clone(),
                position: *position,
                render_info: clone_opt_render(render_info),
            },
            Node::Argument { open_mark, close_mark, content, position, render_info } => Node::Argument {
                open_mark: open_mark.clone(),
                close_mark: close_mark.clone(),
                content: clone_nodes(content),
                position: *position,
                render_info: clone_opt_render(render_info),
            },
            Node::Error => Node::Error,
        }
    }
}

} // verus!
