//! The engine lifecycle and the typed entry points over it.
//!
//! One opaque document engine instance serves one worker: it is booted once
//! from the bootstrap source handed in by the caller, and owned outright by
//! that worker thereafter. A boot failure is captured in the engine value
//! and re-surfaced verbatim on every subsequent call; the engine is not
//! retried.

use vstd::prelude::*;
use crate::ast::{Node, NodeV, node_of, node_from_dyn};
use crate::dynvalue::{Dyn, DynV, seq_view, conv_err, conv_error};
use crate::error::{UnlatexError, UnlatexErrorV};
use rquickjs::Error as JsError;
use crate::json;

verus! {

#[verifier::external_type_specification]
#[verifier::external_body]
pub struct ExRuntime(rquickjs::Runtime);

#[verifier::external_type_specification]
#[verifier::external_body]
pub struct ExContext(rquickjs::Context);

#[verifier::external_type_specification]
#[verifier::external_body]
pub struct ExJsError(rquickjs::Error);

/// Relies on rquickjs::Error: the value-conversion failure kinds are carried
/// over field by field; any other kind is left for `fault_of` to classify.
#[verifier::external_body]
fn conv_fault_of(e: JsError) -> Option<UnlatexError> {
    match e {
        JsError::FromJs { from, to, message } => Some(UnlatexError::FromJs { from: from.to_string(), to: to.to_string(), message }),
        JsError::IntoJs { from, to, message } => Some(UnlatexError::IntoJs { from: from.to_string(), to: to.to_string(), message }),
        JsError::NumArgs { expected, given } => Some(UnlatexError::NumArgs { expected_min: expected.start, expected_max: expected.end, given }),
        _ => None,
    }
}

/// Relies on rquickjs::Error: each engine failure is carried over into this
/// crate's error taxonomy arm by arm, field by field; a failure this crate
/// has no kind for maps to `Unknown`, never dropped.
#[verifier::external_body]
fn fault_of(e: JsError) -> UnlatexError {
    match e {
        JsError::Allocation => UnlatexError::Allocation,
        JsError::InvalidString(x) => UnlatexError::InvalidString(x.to_string()),
        JsError::Utf8(x) => UnlatexError::Utf8(x.to_string()),
        JsError::Io(x) => UnlatexError::Io(x.to_string()),
        JsError::Exception { message, file, line, stack } => UnlatexError::Exception { message, file, line, stack },
        JsError::UnrelatedRuntime => UnlatexError::UnrelatedRuntime,
        other => match conv_fault_of(other) {
            Some(x) => x,
            None => UnlatexError::Unknown,
        },
    }
}

/// Relies on rquickjs::Runtime::new: a fresh engine runtime; it fails only
/// when the runtime cannot be allocated.
#[verifier::external_body]
fn runtime_new() -> (r: Result<rquickjs::Runtime, UnlatexError>)
    ensures
        r matches Err(e) ==> e@ == UnlatexErrorV::Allocation,
{
    rquickjs::Runtime::new().map_err(fault_of)
}

/// Relies on rquickjs::Runtime::set_max_stack_size: bounds the engine's call
/// stack, to contain runaway recursion inside the opaque engine.
#[verifier::external_body]
fn runtime_set_max_stack_size(rt: &rquickjs::Runtime, limit: usize) {
    rt.set_max_stack_size(limit)
}

/// Relies on rquickjs::Context::custom: a context over the runtime holding
/// only the base objects, dates, eval, regular expressions, JSON, map/set
/// and promise intrinsics — no filesystem, network or process control.
#[verifier::external_body]
fn context_new(rt: &rquickjs::Runtime) -> (r: Result<rquickjs::Context, UnlatexError>) {
    rquickjs::Context::custom::<
        (
            rquickjs::intrinsic::Base,
            rquickjs::intrinsic::Date,
            rquickjs::intrinsic::Eval,
            rquickjs::intrinsic::RegExp,
            rquickjs::intrinsic::Json,
            rquickjs::intrinsic::MapSet,
            rquickjs::intrinsic::Promise,
        ),
    >(rt).map_err(fault_of)
}

/// The exception guard, evaluated before the caller's bootstrap. The engine
/// binding's exception path demands a thrown value carrying the
/// engine-internal Error brand (anything else makes it panic), and no test a
/// script can make (`instanceof` included) decides that brand. So the guard
/// never rethrows a caught value: it always throws a freshly constructed
/// `Error` made by the pinned real constructor — branded by construction —
/// and carries over the message, stack, file name and line number of the
/// caught value, each read inside its own try, so a genuine error loses
/// nothing the binding reads. The guards are installed non-writable and
/// non-configurable, so no bootstrap can replace them.
const GUARD_TEXT: &'static str = "(function () {
    var RealError = Error;
    var describe = function (e) {
        var m;
        try { m = '' + e; } catch (ignored) { m = 'exception'; }
        return m;
    };
    var field = function (e, name) {
        var v;
        try { v = (e === null || e === undefined) ? undefined : e[name]; }
        catch (ignored) { v = undefined; }
        return v;
    };
    var message = function (e) {
        var v = field(e, 'message');
        if (v === undefined || v === null) { return describe(e); }
        try { return '' + v; } catch (ignored) { return describe(e); }
    };
    var carry = function (e, err, name) {
        var v = field(e, name);
        if (v !== undefined && v !== null) {
            try { err[name] = v; } catch (ignored) { }
        }
    };
    var guarded = function (run) {
        return function () {
            try { return run.apply(null, arguments); }
            catch (e) {
                var err = new RealError(message(e));
                carry(e, err, 'stack');
                carry(e, err, 'fileName');
                carry(e, err, 'lineNumber');
                throw err;
            }
        };
    };
    var install = function (name, run) {
        Object.defineProperty(globalThis, name, {
            value: guarded(run), writable: false, configurable: false
        });
    };
    install('evalGuarded', function (src) { (0, eval)(src); });
    install('latexFormatGuarded', function (src, pw, tabs, tw, doc) {
        return latexFormat(src, pw, tabs, tw, doc);
    });
    install('latexJParseGuarded', function (src) { return latexJParse(src); });
    install('latexParseJsonGuarded', function (src) {
        return JSON.stringify(latexParse(src));
    });
})();";

/// Relies on rquickjs::Ctx::eval: evaluates this crate's fixed guard text in
/// the context's global scope. The guard text itself throws nothing, so the
/// engine's exception path is not reached here.
#[verifier::external_body]
fn install_guard(ctx: &rquickjs::Context) -> (r: Result<(), UnlatexError>) {
    ctx.with(|c| c.eval::<(), _>(GUARD_TEXT)).map_err(fault_of)
}

/// Relies on rquickjs::Function::call: hands the bootstrap source to the
/// guard's evaluator, which runs it once in the global scope; whatever it
/// throws reaches the engine binding as an `Error` object, as that binding's
/// exception path requires.
#[verifier::external_body]
fn eval_guarded(ctx: &rquickjs::Context, source: &str) -> (r: Result<(), UnlatexError>) {
    ctx.with(|c| -> rquickjs::Result<()> {
        let f: rquickjs::Function = c.globals().get("evalGuarded")?;
        f.call((source,))
    }).map_err(fault_of)
}

/// Relies on rquickjs::Ctx::globals, rquickjs::Object::get and
/// rquickjs::Function::call: invokes the engine's format callable (the fixed
/// global `latexFormat`, through this module's exception guard) with the
/// five positional arguments, in this order; the reply is the engine's
/// formatted text, and whatever the callable throws comes back as an error,
/// never a panic.
#[verifier::external_body]
fn call_format(
    ctx: &rquickjs::Context,
    input: &str,
    print_width: i32,
    use_tabs: bool,
    tab_width: i32,
    document_only: bool,
) -> (r: Result<String, UnlatexError>) {
    ctx.with(|c| -> rquickjs::Result<String> {
        let f: rquickjs::Function = c.globals().get("latexFormatGuarded")?;
        f.call((input, print_width, use_tabs, tab_width, document_only))
    }).map_err(fault_of)
}

/// Relies on rquickjs::Ctx::globals, rquickjs::Object::get and
/// rquickjs::Function::call: invokes the engine's intermediate-string parse
/// callable (the fixed global `latexJParse`, through this module's exception
/// guard) with the source text; the reply is an engine-internal string
/// passed through untouched, and a throw comes back as an error, never a
/// panic.
#[verifier::external_body]
fn call_jparse(ctx: &rquickjs::Context, input: &str) -> (r: Result<String, UnlatexError>) {
    ctx.with(|c| -> rquickjs::Result<String> {
        let f: rquickjs::Function = c.globals().get("latexJParseGuarded")?;
        f.call((input,))
    }).map_err(fault_of)
}

/// Relies on rquickjs::Ctx::globals, rquickjs::Object::get and
/// rquickjs::Function::call: invokes the engine's parse callable (the fixed
/// global `latexParse`, through this module's exception guard, which also
/// serializes the returned value graph to JSON text) with the source text;
/// a throw comes back as an error, never a panic.
#[verifier::external_body]
fn call_parse_json(ctx: &rquickjs::Context, input: &str) -> (r: Result<String, UnlatexError>) {
    ctx.with(|c| -> rquickjs::Result<String> {
        let f: rquickjs::Function = c.globals().get("latexParseJsonGuarded")?;
        f.call((input,))
    }).map_err(fault_of)
}

enum EngineState {
    Ready { rt: rquickjs::Runtime, ctx: rquickjs::Context },
    Failed { err: UnlatexError },
}

/// One worker's document engine instance, or its cached boot failure.
pub struct Engine {
    state: EngineState,
}

impl Engine {
    /// Whether booting this engine failed. Every call on a failed engine
    /// returns the cached boot failure, identically each time.
    pub closed spec fn spec_failed(&self) -> bool {
        self.state matches EngineState::Failed { .. }
    }

    /// The cached boot failure of a failed engine.
    pub closed spec fn spec_fault(&self) -> UnlatexErrorV {
        match self.state {
            EngineState::Failed { err } => err@,
            _ => UnlatexErrorV::Unknown,
        }
    }

    /// Whether booting this engine failed.
    pub fn failed(&self) -> (r: bool)
        ensures
            r == self.spec_failed(),
    {
        match &self.state {
            EngineState::Failed { .. } => true,
            EngineState::Ready { .. } => false,
        }
    }

    /// Boot a fresh engine: allocate a runtime, bound its call stack,
    /// restrict its intrinsics to a minimal safe subset, install the
    /// exception guard, and evaluate the engine's bootstrap source once. A
    /// failure of any of these steps is captured in the returned engine, to
    /// be re-surfaced on every call. Every step is a call into the engine,
    /// so nothing of the outcome can be promised here; the capture itself is
    /// contracted one call down, in `failed_engine` and `ready_engine`.
    pub fn boot(bootstrap: &str) -> (r: Engine) {
        let rt = match runtime_new() {
            Ok(rt) => rt,
            Err(e) => {
                return failed_engine(e);
            },
        };
        runtime_set_max_stack_size(&rt, 1024 * 1024);
        let ctx = match context_new(&rt) {
            Ok(c) => c,
            Err(e) => {
                return failed_engine(e);
            },
        };
        if let Err(e) = install_guard(&ctx) {
            return failed_engine(e);
        }
        match eval_guarded(&ctx, bootstrap) {
            Ok(_) => ready_engine(rt, ctx),
            Err(e) => failed_engine(e),
        }
    }
}

/// An engine whose boot failed: the failure is captured exactly as it
/// occurred, to be returned verbatim on every subsequent call.
fn failed_engine(e: UnlatexError) -> (r: Engine)
    ensures
        r.spec_failed(),
        r.spec_fault() == e@,
{
    Engine { state: EngineState::Failed { err: e } }
}

/// An engine whose boot succeeded, ready to be invoked.
fn ready_engine(rt: rquickjs::Runtime, ctx: rquickjs::Context) -> (r: Engine)
    ensures
        !r.spec_failed(),
{
    Engine { state: EngineState::Ready { rt, ctx } }
}

/// Format a document with explicit options: maximum line width, tabs or
/// spaces for indentation, spaces per indent step, and whether to format
/// only the document body. The engine's formatted text is returned verbatim.
pub fn format_with_opts(
    engine: &Engine,
    input: &str,
    print_width: i32,
    use_tabs: bool,
    tab_width: i32,
    document_only: bool,
) -> (r: Result<String, UnlatexError>)
    ensures
        engine.spec_failed() ==> (r matches Err(e) && e@ == engine.spec_fault()),
{
    match &engine.state {
        EngineState::Failed { err } => Err(err.clone()),
        EngineState::Ready { rt, ctx } => call_format(
            ctx,
            input,
            print_width,
            use_tabs,
            tab_width,
            document_only,
        ),
    }
}

/// Parse a document into its typed node tree: the engine's parse callable
/// produces a dynamic value graph, and tree reconstruction converts it. A
/// successful result is always the document's root variant, and it is the
/// reconstruction of some dynamic value; a reply whose reconstruction is any
/// other variant is a conversion error.
pub fn parse(engine: &Engine, input: &str) -> (r: Result<Node, UnlatexError>)
    ensures
        engine.spec_failed() ==> (r matches Err(e) && e@ == engine.spec_fault()),
        r matches Ok(n) ==> n@ matches NodeV::Root { .. },
        r matches Ok(n) ==> exists|d: DynV| #[trigger] node_of(d) == Ok::<NodeV, UnlatexErrorV>(n@),
{
    match &engine.state {
        EngineState::Failed { err } => Err(err.clone()),
        EngineState::Ready { rt, ctx } => {
            let text = match call_parse_json(ctx, input) {
                Ok(t) => t,
                Err(e) => {
                    return Err(e);
                },
            };
            let graph = match json::parse_dyn(text.as_str()) {
                Ok(g) => g,
                Err(e) => {
                    return Err(e);
                },
            };
            let node = match node_from_dyn(&graph) {
                Ok(n) => n,
                Err(e) => {
                    return Err(e);
                },
            };
            match &node {
                Node::Root { .. } => {},
                _ => {
                    return Err(conv_error(&graph, "root"));
                },
            }
            proof {
                assert(node_of(graph@) == Ok::<NodeV, UnlatexErrorV>(node@));
            }
            Ok(node)
        },
    }
}

/// Parse a document to the engine's intermediate string representation,
/// passed through untouched.
pub fn jparse(engine: &Engine, input: &str) -> (r: Result<String, UnlatexError>)
    ensures
        engine.spec_failed() ==> (r matches Err(e) && e@ == engine.spec_fault()),
{
    match &engine.state {
        EngineState::Failed { err } => Err(err.clone()),
        EngineState::Ready { rt, ctx } => call_jparse(ctx, input),
    }
}

/// The format entry point's argument contract: exactly five positional
/// arguments — source text, print width, use-tabs flag, tab width,
/// document-only flag. Any other count is an argument-count error; a
/// wrongly-typed slot is a conversion error.
pub open spec fn format_args_of(a: Seq<DynV>) -> Result<
    (Seq<char>, int, bool, int, bool),
    UnlatexErrorV,
> {
    if a.len() != 5 {
        Err(UnlatexErrorV::NumArgs { expected_min: 5, expected_max: 6, given: a.len() as usize })
    } else {
        match a[0] {
            DynV::Str(src) => match a[1] {
                DynV::Int(pw) => if i32::MIN <= pw <= i32::MAX {
                    match a[2] {
                        DynV::Bool(ut) => match a[3] {
                            DynV::Int(tw) => if i32::MIN <= tw <= i32::MAX {
                                match a[4] {
                                    DynV::Bool(doc) => Ok((src, pw, ut, tw, doc)),
                                    other => Err(conv_err(other, "bool"@)),
                                }
                            } else {
                                Err(conv_err(a[3], "int"@))
                            },
                            other => Err(conv_err(other, "int"@)),
                        },
                        other => Err(conv_err(other, "bool"@)),
                    }
                } else {
                    Err(conv_err(a[1], "int"@))
                },
                other => Err(conv_err(other, "int"@)),
            },
            other => Err(conv_err(other, "string"@)),
        }
    }
}

/// Invoke the format entry point with a dynamic argument list. A wrong
/// number of positional arguments fails with the argument-count error —
/// never silently truncated or padded — and a wrongly-typed slot fails with
/// a conversion error; five well-typed arguments invoke the engine.
pub fn format_with_args(engine: &Engine, args: &Vec<Dyn>) -> (r: Result<String, UnlatexError>)
    ensures
        format_args_of(seq_view(args@)) matches Err(e0) ==> (r matches Err(e) && e@ == e0),
        format_args_of(seq_view(args@)) is Ok && engine.spec_failed() ==> (r matches Err(e)
            && e@ == engine.spec_fault()),
{
    if args.len() != 5 {
        return Err(UnlatexError::NumArgs { expected_min: 5, expected_max: 6, given: args.len() });
    }
    let src = match &args[0] {
        Dyn::Str(s) => s,
        other => {
            return Err(conv_error(other, "string"));
        },
    };
    let pw = match &args[1] {
        Dyn::Int(v) => {
            if i32::MIN as i64 <= *v && *v <= i32::MAX as i64 {
                *v as i32
            } else {
                return Err(conv_error(&args[1], "int"));
            }
        },
        other => {
            return Err(conv_error(other, "int"));
        },
    };
    let ut = match &args[2] {
        Dyn::Bool(v) => *v,
        other => {
            return Err(conv_error(other, "bool"));
        },
    };
    let tw = match &args[3] {
        Dyn::Int(v) => {
            if i32::MIN as i64 <= *v && *v <= i32::MAX as i64 {
                *v as i32
            } else {
                return Err(conv_error(&args[3], "int"));
            }
        },
        other => {
            return Err(conv_error(other, "int"));
        },
    };
    let doc = match &args[4] {
        Dyn::Bool(v) => *v,
        other => {
            return Err(conv_error(other, "bool"));
        },
    };
    format_with_opts(engine, src.as_str(), pw, ut, tw, doc)
}

} // verus!
