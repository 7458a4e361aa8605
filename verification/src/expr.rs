//! The executable expression lowerer, proved against the lowering rules in
//! [`crate::lower`]. Lowering consumes its nodes; an unsupported node is
//! moved into the reported error unchanged.

use vstd::prelude::*;

use crate::ast::{Expr, FnLocation, FnRef, StmtKind, TextSplitMode, TranslateError, Value,
    ValueType, VariableDef, VariableRef, WrapKind};
use crate::lower::{arg_text, bin2, expr_wf, translate_var, exprs_texts, exprs_wf, fn_call_text,
    kwarg_pairs, kwargs_text, lview, lower_expr, lower_value, lower_value_exec, lowered_values,
    pairs_wf, param_names, params_text, rpc_text, starred_values, str_values, stmts_wf, sview,
    un1, value_ok, value_texts, wrap, wrapped, wrapped_values, ArgStyle, ValStyle};
use crate::text::{cat2, cat3, cat4, cat5, cat6, cat7, escape, escaped, is_py_ident, join_strs,
    joined, views_of};

verus! {

/// One lowered child placed into a fixed shape.
pub fn eun1(
    a: Result<(String, WrapKind), TranslateError>,
    pre: &str,
    awrap: bool,
    post: &str,
    k: WrapKind,
) -> (r: Result<(String, WrapKind), TranslateError>)
    ensures
        lview(r) == un1(lview(a), pre@, awrap, post@, k),
{
    match a {
        Result::Err(e) => Result::Err(e),
        Result::Ok(x) => {
            let t = if awrap {
                wrap(x)
            } else {
                x.0
            };
            Result::Ok((cat3(pre, t.as_str(), post), k))
        },
    }
}

/// Two lowered children placed into a fixed shape, first error kept.
pub fn ebin2(
    a: Result<(String, WrapKind), TranslateError>,
    b: Result<(String, WrapKind), TranslateError>,
    pre: &str,
    awrap: bool,
    mid: &str,
    bwrap: bool,
    post: &str,
    k: WrapKind,
) -> (r: Result<(String, WrapKind), TranslateError>)
    ensures
        lview(r) == bin2(lview(a), lview(b), pre@, awrap, mid@, bwrap, post@, k),
{
    match a {
        Result::Err(e) => Result::Err(e),
        Result::Ok(x) => match b {
            Result::Err(e) => Result::Err(e),
            Result::Ok(y) => {
                let tx = if awrap {
                    wrap(x)
                } else {
                    x.0
                };
                let ty = if bwrap {
                    wrap(y)
                } else {
                    y.0
                };
                Result::Ok((cat5(pre, tx.as_str(), mid, ty.as_str(), post), k))
            },
        },
    }
}

/// The texts of the values of a literal list, each in the given style.
#[verifier::loop_isolation(false)]
pub fn value_texts_exec(vals: &Vec<Value>, style: ValStyle) -> (out: Vec<String>)
    requires
        forall|j: int| 0 <= j < vals@.len() ==> value_ok(#[trigger] vals@[j]),
    ensures
        views_of(out@) == value_texts(vals@, 0, style),
{
    let n = vals.len();
    let mut out: Vec<String> = Vec::new();
    let mut i: usize = 0;
    while i < n
        invariant
            i <= n,
            value_texts(vals@, 0, style) == views_of(out@) + value_texts(vals@, i as int, style),
        decreases n - i,
    {
        let p = lower_value_exec(&vals[i]);
        let t: String = match style {
            ValStyle::Raw => p.0,
            ValStyle::Wrapped => wrap(p),
            ValStyle::Starred => {
                let w = wrap(p);
                cat2("*", w.as_str())
            },
            ValStyle::Stringified => {
                let w = wrap(p);
                cat3("str(", w.as_str(), ")")
            },
        };
        let ghost prev = out@;
        out.push(t);
        proof {
            assert(t@ == arg_of_value(vals@[i as int], style));
            assert(value_texts(vals@, i as int, style) =~= seq![arg_of_value(
                vals@[i as int],
                style,
            )] + value_texts(vals@, i + 1 as int, style));
            assert(views_of(out@) =~= views_of(prev).push(t@));
            assert(views_of(out@) + value_texts(vals@, i + 1 as int, style) =~= views_of(prev)
                + value_texts(vals@, i as int, style));
        }
        i = i + 1;
    }
    proof {
        assert(value_texts(vals@, n as int, style) =~= Seq::<Seq<char>>::empty());
        assert(views_of(out@) =~= views_of(out@) + value_texts(vals@, n as int, style));
    }
    out
}

/// The rendering of one literal value in the given style.
pub open spec fn arg_of_value(v: Value, style: ValStyle) -> Seq<char> {
    match style {
        ValStyle::Raw => lower_value(v).0,
        ValStyle::Wrapped => wrapped(lower_value(v)),
        ValStyle::Starred => "*"@ + wrapped(lower_value(v)),
        ValStyle::Stringified => "str("@ + wrapped(lower_value(v)) + ")"@,
    }
}

} // verus!
verus! {

/// View of a built list of texts, or the error that stopped it.
pub open spec fn vres_view(r: Result<Vec<String>, TranslateError>) -> Result<
    Seq<Seq<char>>,
    TranslateError,
> {
    match r {
        Result::Ok(v) => Result::Ok(views_of(v@)),
        Result::Err(e) => Result::Err(e),
    }
}

/// Lowers a list of expressions, rendering each in the given style.
#[verifier::loop_isolation(false)]
pub fn exprs_texts_exec(stage: &str, vs: Vec<Expr>, style: ArgStyle) -> (r: Result<
    Vec<String>,
    TranslateError,
>)
    requires
        exprs_wf(vs@),
    ensures
        vres_view(r) == exprs_texts(stage@, vs@, 0, style),
    decreases vs, 0int,
{
    let ghost gvec = vs;
    let ghost gvs = vs@;
    let mut vs = vs;
    let mut out: Vec<String> = Vec::new();
    let ghost mut i: int = 0;
    while vs.len() > 0
        invariant
            0 <= i,
            i + vs@.len() == gvs.len(),
            vs@ == gvs.skip(i),
            (match exprs_texts(stage@, gvs, i, style) {
                Result::Ok(rest) => exprs_texts(stage@, gvs, 0, style) == Result::<
                    Seq<Seq<char>>,
                    TranslateError,
                >::Ok(views_of(out@) + rest),
                Result::Err(e) => exprs_texts(stage@, gvs, 0, style) == Result::<
                    Seq<Seq<char>>,
                    TranslateError,
                >::Err(e),
            }),
        decreases vs@.len(),
    {
        let x = vs.remove(0);
        proof {
            assert(x == gvs[i]);
            assert(vs@ =~= gvs.skip(i + 1));
            assert(decreases_to!(gvec => gvec@));
            assert(gvec@ == gvs);
            assert(decreases_to!(gvs => gvs[i]));
        }
        match lower_expr_exec(stage, x) {
            Result::Err(e) => {
                proof {
                    assert(exprs_texts(stage@, gvs, i, style) == Result::<
                        Seq<Seq<char>>,
                        TranslateError,
                    >::Err(e));
                }
                return Result::Err(e);
            },
            Result::Ok(p) => {
                let t: String = match style {
                    ArgStyle::Raw => p.0,
                    ArgStyle::Wrapped => wrap(p),
                    ArgStyle::Starred => {
                        let w = wrap(p);
                        cat2("*", w.as_str())
                    },
                    ArgStyle::Stringified => {
                        let w = wrap(p);
                        cat3("str(", w.as_str(), ")")
                    },
                };
                let ghost prev = out@;
                out.push(t);
                proof {
                    assert(t@ == arg_text((p.0@, p.1), style));
                    assert(views_of(out@) =~= views_of(prev).push(t@));
                    match exprs_texts(stage@, gvs, i + 1, style) {
                        Result::Ok(rest2) => {
                            assert(exprs_texts(stage@, gvs, i, style) == Result::<
                                Seq<Seq<char>>,
                                TranslateError,
                            >::Ok(seq![t@] + rest2));
                            assert(views_of(out@) + rest2 =~= views_of(prev) + (seq![t@]
                                + rest2));
                        },
                        Result::Err(e2) => {
                            assert(exprs_texts(stage@, gvs, i, style) == Result::<
                                Seq<Seq<char>>,
                                TranslateError,
                            >::Err(e2));
                        },
                    }
                    i = i + 1;
                }
            },
        }
    }
    proof {
        assert(i == gvs.len());
        assert(exprs_texts(stage@, gvs, i, style) == Result::<
            Seq<Seq<char>>,
            TranslateError,
        >::Ok(Seq::empty()));
        assert(views_of(out@) =~= views_of(out@) + Seq::<Seq<char>>::empty());
    }
    Result::Ok(out)
}

/// Lowers the keyword arguments and partitions them by whether the name is
/// a valid target identifier.
#[verifier::loop_isolation(false)]
pub fn kwarg_pairs_exec(stage: &str, args: Vec<(String, Expr)>, wrap_vals: bool) -> (r: Result<
    (Vec<String>, Vec<String>),
    TranslateError,
>)
    requires
        pairs_wf(args@),
    ensures
        (match r {
            Result::Ok(p) => kwarg_pairs(stage@, args@, 0, wrap_vals) == Result::<
                (Seq<Seq<char>>, Seq<Seq<char>>),
                TranslateError,
            >::Ok((views_of(p.0@), views_of(p.1@))),
            Result::Err(e) => kwarg_pairs(stage@, args@, 0, wrap_vals) == Result::<
                (Seq<Seq<char>>, Seq<Seq<char>>),
                TranslateError,
            >::Err(e),
        }),
    decreases args, 0int,
{
    let ghost gvec = args;
    let ghost gargs = args@;
    let mut args = args;
    let mut ia: Vec<String> = Vec::new();
    let mut na: Vec<String> = Vec::new();
    let ghost mut i: int = 0;
    while args.len() > 0
        invariant
            0 <= i,
            i + args@.len() == gargs.len(),
            args@ == gargs.skip(i),
            (match kwarg_pairs(stage@, gargs, i, wrap_vals) {
                Result::Ok(rest) => kwarg_pairs(stage@, gargs, 0, wrap_vals) == Result::<
                    (Seq<Seq<char>>, Seq<Seq<char>>),
                    TranslateError,
                >::Ok((views_of(ia@) + rest.0, views_of(na@) + rest.1)),
                Result::Err(e) => kwarg_pairs(stage@, gargs, 0, wrap_vals) == Result::<
                    (Seq<Seq<char>>, Seq<Seq<char>>),
                    TranslateError,
                >::Err(e),
            }),
        decreases args@.len(),
    {
        let pair = args.remove(0);
        let (name, ex) = pair;
        proof {
            assert((name, ex) == gargs[i]);
            assert(args@ =~= gargs.skip(i + 1));
            assert(decreases_to!(gvec => gvec@));
            assert(gvec@ == gargs);
            assert(decreases_to!(gargs => gargs[i]));
            assert(decreases_to!(gargs[i] => gargs[i].1));
            assert(ex == gargs[i].1);
        }
        match lower_expr_exec(stage, ex) {
            Result::Err(e) => {
                proof {
                    assert(kwarg_pairs(stage@, gargs, i, wrap_vals) == Result::<
                        (Seq<Seq<char>>, Seq<Seq<char>>),
                        TranslateError,
                    >::Err(e));
                }
                return Result::Err(e);
            },
            Result::Ok(p) => {
                let val: String = if wrap_vals {
                    wrap(p)
                } else {
                    p.0
                };
                let ghost prev_ia = ia@;
                let ghost prev_na = na@;
                let is_id = is_py_ident(name.as_str());
                if is_id {
                    let line = cat3(name.as_str(), " = ", val.as_str());
                    ia.push(line);
                    proof {
                        assert(views_of(ia@) =~= views_of(prev_ia).push(line@));
                    }
                } else {
                    let esc = escape(name.as_str());
                    let line = cat4("'", esc.as_str(), "': ", val.as_str());
                    na.push(line);
                    proof {
                        assert(views_of(na@) =~= views_of(prev_na).push(line@));
                    }
                }
                proof {
                    match kwarg_pairs(stage@, gargs, i + 1, wrap_vals) {
                        Result::Ok(rest2) => {
                            if is_id {
                                assert(kwarg_pairs(stage@, gargs, i, wrap_vals) == Result::<
                                    (Seq<Seq<char>>, Seq<Seq<char>>),
                                    TranslateError,
                                >::Ok(
                                    (
                                        seq![gargs[i].0@ + " = "@ + (if wrap_vals {
                                            wrapped((p.0@, p.1))
                                        } else {
                                            p.0@
                                        })] + rest2.0,
                                        rest2.1,
                                    ),
                                ));
                                assert(views_of(ia@) + rest2.0 =~= views_of(prev_ia) + (seq![
                                    gargs[i].0@ + " = "@ + (if wrap_vals {
                                        wrapped((p.0@, p.1))
                                    } else {
                                        p.0@
                                    })] + rest2.0));
                            } else {
                                assert(kwarg_pairs(stage@, gargs, i, wrap_vals) == Result::<
                                    (Seq<Seq<char>>, Seq<Seq<char>>),
                                    TranslateError,
                                >::Ok(
                                    (
                                        rest2.0,
                                        seq!["'"@ + escaped(gargs[i].0@) + "': "@ + (if wrap_vals {
                                            wrapped((p.0@, p.1))
                                        } else {
                                            p.0@
                                        })] + rest2.1,
                                    ),
                                ));
                                assert(views_of(na@) + rest2.1 =~= views_of(prev_na) + (seq![
                                    "'"@ + escaped(gargs[i].0@) + "': "@ + (if wrap_vals {
                                        wrapped((p.0@, p.1))
                                    } else {
                                        p.0@
                                    })] + rest2.1));
                            }
                        },
                        Result::Err(e2) => {
                            assert(kwarg_pairs(stage@, gargs, i, wrap_vals) == Result::<
                                (Seq<Seq<char>>, Seq<Seq<char>>),
                                TranslateError,
                            >::Err(e2));
                        },
                    }
                    i = i + 1;
                }
            },
        }
    }
    proof {
        assert(i == gargs.len());
        assert(kwarg_pairs(stage@, gargs, i, wrap_vals) == Result::<
            (Seq<Seq<char>>, Seq<Seq<char>>),
            TranslateError,
        >::Ok((Seq::empty(), Seq::empty())));
        assert(views_of(ia@) =~= views_of(ia@) + Seq::<Seq<char>>::empty());
        assert(views_of(na@) =~= views_of(na@) + Seq::<Seq<char>>::empty());
    }
    Result::Ok((ia, na))
}

/// The emitted keyword-argument text, by the four partition shapes.
pub fn kwargs_text_exec(stage: &str, args: Vec<(String, Expr)>, prefix: &str, wrap_vals: bool)
    -> (r: Result<String, TranslateError>)
    requires
        pairs_wf(args@),
    ensures
        sview(r) == kwargs_text(stage@, args@, prefix@, wrap_vals),
    decreases args, 1int,
{
    match kwarg_pairs_exec(stage, args, wrap_vals) {
        Result::Err(e) => Result::Err(e),
        Result::Ok((ia, na)) => {
            if ia.len() > 0 && na.len() > 0 {
                let ij = join_strs(&ia, ", ");
                let nj = join_strs(&na, ", ");
                Result::Ok(cat5(prefix, ij.as_str(), ", **{ ", nj.as_str(), " }"))
            } else if ia.len() > 0 {
                let ij = join_strs(&ia, ", ");
                Result::Ok(cat2(prefix, ij.as_str()))
            } else if na.len() > 0 {
                let nj = join_strs(&na, ", ");
                Result::Ok(cat4(prefix, "**{ ", nj.as_str(), " }"))
            } else {
                let res = String::new();
                proof {
                    assert(res@ =~= Seq::<char>::empty());
                }
                Result::Ok(res)
            }
        },
    }
}

/// The lowering of a service call.
pub fn rpc_text_exec(stage: &str, service: &str, rpc: &str, args: Vec<(String, Expr)>) -> (r:
    Result<String, TranslateError>)
    requires
        pairs_wf(args@),
    ensures
        sview(r) == rpc_text(stage@, service@, rpc@, args@),
    decreases args, 2int,
{
    let esc_service = escape(service);
    let esc_rpc = escape(rpc);
    match kwargs_text_exec(stage, args, ", ", false) {
        Result::Err(e) => Result::Err(e),
        Result::Ok(a) => Result::Ok(
            cat7(
                "nothrow(nb.call)('",
                esc_service.as_str(),
                "', '",
                esc_rpc.as_str(),
                "'",
                a.as_str(),
                ")",
            ),
        ),
    }
}

/// The lowering of a call of a user function.
pub fn fn_call_text_exec(
    stage: &str,
    function: &FnRef,
    args: Vec<Expr>,
    upvars: &Vec<VariableRef>,
) -> (r: Result<String, TranslateError>)
    requires
        exprs_wf(args@),
    ensures
        sview(r) == fn_call_text(stage@, *function, args@, upvars@),
    decreases args, 1int,
{
    if upvars.len() > 0 {
        return Result::Err(TranslateError::Upvars);
    }
    match exprs_texts_exec(stage, args, ArgStyle::Wrapped) {
        Result::Err(e) => Result::Err(e),
        Result::Ok(parts) => {
            let pj = join_strs(&parts, ", ");
            match function.location {
                FnLocation::Global => Result::Ok(
                    cat4(function.trans_name.as_str(), "(", pj.as_str(), ")"),
                ),
                FnLocation::Method => Result::Ok(
                    cat5("self.", function.trans_name.as_str(), "(", pj.as_str(), ")"),
                ),
            }
        },
    }
}

/// The parameter list of an emitted lambda.
#[verifier::loop_isolation(false)]
pub fn params_text_exec(params: &Vec<VariableDef>) -> (res: String)
    ensures
        res@ == params_text(params@),
{
    let n = params.len();
    if n == 0 {
        let res = String::new();
        proof {
            assert(res@ =~= params_text(params@));
        }
        return res;
    }
    let mut names: Vec<String> = Vec::new();
    let mut i: usize = 0;
    while i < n
        invariant
            i <= n,
            param_names(params@, 0) == views_of(names@) + param_names(params@, i as int),
        decreases n - i,
    {
        let name = String::from_str(params[i].trans_name.as_str());
        let ghost prev = names@;
        names.push(name);
        proof {
            assert(views_of(names@) =~= views_of(prev).push(params@[i as int].trans_name@));
            assert(views_of(names@) + param_names(params@, i + 1 as int) =~= views_of(prev)
                + param_names(params@, i as int));
        }
        i = i + 1;
    }
    proof {
        assert(param_names(params@, n as int) =~= Seq::<Seq<char>>::empty());
        assert(views_of(names@) =~= views_of(names@) + param_names(params@, n as int));
    }
    let nj = join_strs(&names, ", ");
    cat2(" ", nj.as_str())
}

} // verus!
verus! {

/// Lowers one expression to its `(text, wrap kind)` pair, or the error its
/// variant calls for. The reported node of an unsupported variant is the
/// node itself, moved into the error.
pub fn lower_expr_exec(stage: &str, e: Expr) -> (r: Result<(String, WrapKind), TranslateError>)
    requires
        crate::lower::expr_wf(e),
    ensures
        lview(r) == lower_expr(stage@, e),
    decreases e, 1int,
{
    match e {
        Expr::Value(_) | Expr::Variable { .. } | Expr::Closure { .. } | Expr::This | Expr::Entity { .. } | Expr::ImageOfEntity { .. } | Expr::ImageOfDrawings | Expr::IsTouchingEntity { .. } | Expr::MakeList { .. } | Expr::CopyList { .. } | Expr::ListCons { .. } | Expr::ListCdr { .. } | Expr::ListGet { .. } | Expr::ListGetRandom { .. } | Expr::ListGetLast { .. } | Expr::ListFind { .. } | Expr::ListContains { .. } => lower_expr_g1(stage, e),
        Expr::ListLen { .. } | Expr::StrLen { .. } | Expr::ListIsEmpty { .. } | Expr::ListRank { .. } | Expr::ListDims { .. } | Expr::ListFlatten { .. } | Expr::ListColumns { .. } | Expr::ListRev { .. } | Expr::ListLines { .. } | Expr::ListCsv { .. } | Expr::ListJson { .. } | Expr::ListReshape { .. } | Expr::ListCombinations { .. } | Expr::MapOver { .. } | Expr::Keep { .. } | Expr::FindFirst { .. } | Expr::Combine { .. } | Expr::StrGet { .. } | Expr::StrGetLast { .. } | Expr::StrGetRandom { .. } => lower_expr_g2(stage, e),
        Expr::Neg { .. } | Expr::Not { .. } | Expr::Abs { .. } | Expr::Sign { .. } | Expr::Atan2 { .. } | Expr::Add { .. } | Expr::Mul { .. } | Expr::Min { .. } | Expr::Max { .. } | Expr::Sub { .. } | Expr::Div { .. } | Expr::Mod { .. } | Expr::Pow { .. } | Expr::Log { .. } | Expr::Sqrt { .. } | Expr::Round { .. } | Expr::Floor { .. } | Expr::Ceil { .. } => lower_expr_g3(stage, e),
        Expr::Sin { .. } | Expr::Cos { .. } | Expr::Tan { .. } | Expr::Asin { .. } | Expr::Acos { .. } | Expr::Atan { .. } | Expr::And { .. } | Expr::Or { .. } | Expr::Conditional { .. } | Expr::Identical { .. } | Expr::Less { .. } | Expr::LessEq { .. } | Expr::Eq { .. } | Expr::Neq { .. } | Expr::Greater { .. } | Expr::GreaterEq { .. } | Expr::Random { .. } | Expr::Range { .. } | Expr::CostumeNumber => lower_expr_g4(stage, e),
        Expr::TextSplit { .. } | Expr::TypeQuery { .. } | Expr::ListCat { .. } | Expr::StrCat { .. } | Expr::UnicodeToChar { .. } | Expr::CharToUnicode { .. } | Expr::CallRpc { .. } | Expr::CallFn { .. } | Expr::CallClosure { .. } => lower_expr_g5(stage, e),
        Expr::XPos | Expr::YPos | Expr::Heading | Expr::Answer | Expr::MouseX | Expr::MouseY | Expr::StageWidth | Expr::StageHeight | Expr::Latitude | Expr::Longitude | Expr::KeyDown { .. } | Expr::PenDown | Expr::Size | Expr::IsVisible | Expr::RpcError | Expr::Clone { .. } | Expr::Timer | Expr::Message | Expr::IsTouchingMouse | Expr::IsTouchingEdge | Expr::IsTouchingDrawings | Expr::CostumeList | Expr::SoundList | Expr::SoundDuration { .. } => lower_expr_g6(stage, e),
    }
}

/// One group of the expression lowering rules.
#[verifier::loop_isolation(false)]
#[verifier::rlimit(100)]
#[verifier::spinoff_prover]
fn lower_expr_g1(stage: &str, e: Expr) -> (r: Result<(String, WrapKind), TranslateError>)
    requires
        crate::lower::expr_wf(e),
        e matches Expr::Value(_) || e matches Expr::Variable { .. } || e matches Expr::Closure { .. } || e matches Expr::This || e matches Expr::Entity { .. } || e matches Expr::ImageOfEntity { .. } || e matches Expr::ImageOfDrawings || e matches Expr::IsTouchingEntity { .. } || e matches Expr::MakeList { .. } || e matches Expr::CopyList { .. } || e matches Expr::ListCons { .. } || e matches Expr::ListCdr { .. } || e matches Expr::ListGet { .. } || e matches Expr::ListGetRandom { .. } || e matches Expr::ListGetLast { .. } || e matches Expr::ListFind { .. } || e matches Expr::ListContains { .. },
    ensures
        lview(r) == lower_expr(stage@, e),
    decreases e, 0int,
{
    let ghost ge = e;
    match e {
        Expr::Value(v) => {
            let p = lower_value_exec(&v);
            Result::Ok(p)
        },
        Expr::Variable { var } => {
            let t = translate_var(&var);
            Result::Ok((t, WrapKind::Wrapped))
        },
        Expr::Closure { kind: _, params, stmts } => {
            if stmts.len() == 1 {
                let ghost gstmts = stmts@;
                let mut stmts = stmts;
                let s0 = stmts.remove(0);
                let ghost gs0 = s0;
                proof {
                    assert(s0 == gstmts[0]);
                    assert(decreases_to!(ge => ge->Closure_stmts));
                    assert(decreases_to!(ge->Closure_stmts => ge->Closure_stmts@));
                    assert(ge->Closure_stmts@ == gstmts);
                    assert(decreases_to!(gstmts => gstmts[0]));
                    assert(decreases_to!(gs0 => gs0.kind));
                }
                match s0.kind {
                    StmtKind::Return { value } => {
                        proof {
                            assert(decreases_to!(gs0.kind => gs0.kind->Return_value));
                            assert(value == gs0.kind->Return_value);
                            assert(crate::lower::stmts_wf(gstmts));
                            assert(crate::lower::stmt_wf(gstmts[0]));
                            assert(crate::lower::expr_wf(*value));
                        }
                        let pt = params_text_exec(&params);
                        match lower_expr_exec(stage, *value) {
                            Result::Err(err) => Result::Err(err),
                            Result::Ok(p) => {
                                let w = wrap(p);
                                Result::Ok(
                                    (
                                        cat5("(lambda", pt.as_str(), ": ", w.as_str(), ")"),
                                        WrapKind::Wrapped,
                                    ),
                                )
                            },
                        }
                    },
                    _ => Result::Err(TranslateError::CommandRing),
                }
            } else {
                Result::Err(TranslateError::CommandRing)
            }
        },
        Expr::This => Result::Ok((String::from_str("self"), WrapKind::Wrapped)),
        Expr::Entity { trans_name } => Result::Ok((trans_name, WrapKind::Wrapped)),
        Expr::ImageOfEntity { entity } => eun1(
            lower_expr_exec(stage, *entity),
            "",
            false,
            ".get_image()",
            WrapKind::Wrapped,
        ),
        Expr::ImageOfDrawings => Result::Ok(
            (cat2(stage, ".get_drawings()"), WrapKind::Wrapped),
        ),
        Expr::IsTouchingEntity { entity } => eun1(
            lower_expr_exec(stage, *entity),
            "self.is_touching(",
            false,
            ")",
            WrapKind::Wrapped,
        ),
        Expr::MakeList { values } => {
            proof {
                assert(decreases_to!(ge => ge->MakeList_values));
            }
            match exprs_texts_exec(stage, values, ArgStyle::Raw) {
                Result::Err(err) => Result::Err(err),
                Result::Ok(parts) => {
                    let pj = join_strs(&parts, ", ");
                    Result::Ok((cat3("[", pj.as_str(), "]"), WrapKind::Unknown))
                },
            }
        },
        Expr::CopyList { list } => eun1(
            lower_expr_exec(stage, *list),
            "[*",
            true,
            "]",
            WrapKind::Unknown,
        ),
        Expr::ListCons { item, list } => {
            let a = lower_expr_exec(stage, *item);
            let b = lower_expr_exec(stage, *list);
            ebin2(a, b, "[", false, ", *", true, "]", WrapKind::Unknown)
        },
        Expr::ListCdr { value } => eun1(
            lower_expr_exec(stage, *value),
            "",
            true,
            "[1:]",
            WrapKind::Wrapped,
        ),
        Expr::ListGet { list, index } => {
            let a = lower_expr_exec(stage, *list);
            let b = lower_expr_exec(stage, *index);
            ebin2(a, b, "", true, "[", true, " - snap.wrap(1)]", WrapKind::Wrapped)
        },
        Expr::ListGetRandom { list } => eun1(
            lower_expr_exec(stage, *list),
            "",
            true,
            ".rand",
            WrapKind::Wrapped,
        ),
        Expr::ListGetLast { list } => eun1(
            lower_expr_exec(stage, *list),
            "",
            true,
            ".last",
            WrapKind::Wrapped,
        ),
        Expr::ListFind { list, value } => {
            let a = lower_expr_exec(stage, *list);
            let b = lower_expr_exec(stage, *value);
            ebin2(a, b, "(", true, ".index(", false, ") + snap.wrap(1))", WrapKind::Wrapped)
        },
        Expr::ListContains { list, value } => {
            let a = lower_expr_exec(stage, *value);
            let b = lower_expr_exec(stage, *list);
            ebin2(a, b, "(", true, " in ", true, ")", WrapKind::Wrapped)
        },
        _ => {
            proof {
                assert(false);
            }
            vstd::pervasive::unreached()
        },
    }
}

/// One group of the expression lowering rules.
#[verifier::loop_isolation(false)]
#[verifier::rlimit(100)]
#[verifier::spinoff_prover]
fn lower_expr_g2(stage: &str, e: Expr) -> (r: Result<(String, WrapKind), TranslateError>)
    requires
        crate::lower::expr_wf(e),
        e matches Expr::ListLen { .. } || e matches Expr::StrLen { .. } || e matches Expr::ListIsEmpty { .. } || e matches Expr::ListRank { .. } || e matches Expr::ListDims { .. } || e matches Expr::ListFlatten { .. } || e matches Expr::ListColumns { .. } || e matches Expr::ListRev { .. } || e matches Expr::ListLines { .. } || e matches Expr::ListCsv { .. } || e matches Expr::ListJson { .. } || e matches Expr::ListReshape { .. } || e matches Expr::ListCombinations { .. } || e matches Expr::MapOver { .. } || e matches Expr::Keep { .. } || e matches Expr::FindFirst { .. } || e matches Expr::Combine { .. } || e matches Expr::StrGet { .. } || e matches Expr::StrGetLast { .. } || e matches Expr::StrGetRandom { .. },
    ensures
        lview(r) == lower_expr(stage@, e),
    decreases e, 0int,
{
    let ghost ge = e;
    match e {
        Expr::ListLen { value } => eun1(
            lower_expr_exec(stage, *value),
            "len(",
            false,
            ")",
            WrapKind::Unknown,
        ),
        Expr::StrLen { value } => eun1(
            lower_expr_exec(stage, *value),
            "len(",
            false,
            ")",
            WrapKind::Unknown,
        ),
        Expr::ListIsEmpty { value } => eun1(
            lower_expr_exec(stage, *value),
            "(len(",
            false,
            ") == 0)",
            WrapKind::Wrapped,
        ),
        Expr::ListRank { value } => eun1(
            lower_expr_exec(stage, *value),
            "len(",
            true,
            ".shape)",
            WrapKind::Unknown,
        ),
        Expr::ListDims { value } => eun1(
            lower_expr_exec(stage, *value),
            "",
            true,
            ".shape",
            WrapKind::Wrapped,
        ),
        Expr::ListFlatten { value } => eun1(
            lower_expr_exec(stage, *value),
            "",
            true,
            ".flat",
            WrapKind::Wrapped,
        ),
        Expr::ListColumns { value } => eun1(
            lower_expr_exec(stage, *value),
            "",
            true,
            ".T",
            WrapKind::Wrapped,
        ),
        Expr::ListRev { value } => eun1(
            lower_expr_exec(stage, *value),
            "",
            true,
            "[::-1]",
            WrapKind::Wrapped,
        ),
        Expr::ListLines { value } => eun1(
            lower_expr_exec(stage, *value),
            "'\\n'.join(str(x) for x in ",
            true,
            ")",
            WrapKind::Wrapped,
        ),
        Expr::ListCsv { value } => eun1(
            lower_expr_exec(stage, *value),
            "",
            true,
            ".csv",
            WrapKind::Wrapped,
        ),
        Expr::ListJson { value } => eun1(
            lower_expr_exec(stage, *value),
            "",
            true,
            ".json",
            WrapKind::Wrapped,
        ),
        Expr::ListReshape { value, dims } => {
            let a = lower_expr_exec(stage, *value);
            let b = lower_expr_exec(stage, *dims);
            ebin2(a, b, "", true, ".reshaped(", false, ")", WrapKind::Wrapped)
        },
        Expr::ListCombinations { sources } => {
            let ghost gsrc = *sources;
            proof {
                assert(crate::lower::expr_wf(gsrc));
            }
            match *sources {
                Expr::Value(Value::List(vals)) => {
                    proof {
                        assert(value_ok(Value::List(vals)));
                    }
                    let parts = value_texts_exec(&vals, ValStyle::Raw);
                    let pj = join_strs(&parts, ", ");
                    Result::Ok(
                        (cat3("snap.combinations(", pj.as_str(), ")"), WrapKind::Wrapped),
                    )
                },
                Expr::MakeList { values } => {
                    proof {
                        assert(crate::lower::exprs_wf(values@));
                        assert(decreases_to!(ge => ge->ListCombinations_sources));
                        assert(decreases_to!(*ge->ListCombinations_sources => (
                        *ge->ListCombinations_sources)->MakeList_values));
                    }
                    match exprs_texts_exec(stage, values, ArgStyle::Raw) {
                        Result::Err(err) => Result::Err(err),
                        Result::Ok(parts) => {
                            let pj = join_strs(&parts, ", ");
                            Result::Ok(
                                (
                                    cat3("snap.combinations(", pj.as_str(), ")"),
                                    WrapKind::Wrapped,
                                ),
                            )
                        },
                    }
                },
                other => eun1(
                    lower_expr_exec(stage, other),
                    "snap.combinations(*",
                    true,
                    ")",
                    WrapKind::Wrapped,
                ),
            }
        },
        Expr::MapOver { f, list } => {
            let a = lower_expr_exec(stage, *f);
            let b = lower_expr_exec(stage, *list);
            ebin2(a, b, "[", false, "(x) for x in ", true, "]", WrapKind::Unknown)
        },
        Expr::Keep { f, list } => {
            let a = lower_expr_exec(stage, *list);
            let b = lower_expr_exec(stage, *f);
            ebin2(a, b, "[x for x in ", true, " if ", false, "(x)]", WrapKind::Unknown)
        },
        Expr::FindFirst { f, list } => {
            let a = lower_expr_exec(stage, *list);
            let b = lower_expr_exec(stage, *f);
            ebin2(a, b, "", true, ".index_where(", false, ")", WrapKind::Wrapped)
        },
        Expr::Combine { f, list } => {
            let a = lower_expr_exec(stage, *list);
            let b = lower_expr_exec(stage, *f);
            ebin2(a, b, "", true, ".fold(", false, ")", WrapKind::Wrapped)
        },
        Expr::StrGet { string, index } => {
            let a = lower_expr_exec(stage, *string);
            let b = lower_expr_exec(stage, *index);
            ebin2(a, b, "", true, "[", true, " - snap.wrap(1)]", WrapKind::Wrapped)
        },
        Expr::StrGetLast { string } => eun1(
            lower_expr_exec(stage, *string),
            "",
            true,
            ".last",
            WrapKind::Wrapped,
        ),
        Expr::StrGetRandom { string } => eun1(
            lower_expr_exec(stage, *string),
            "",
            true,
            ".rand",
            WrapKind::Wrapped,
        ),
        _ => {
            proof {
                assert(false);
            }
            vstd::pervasive::unreached()
        },
    }
}

/// One group of the expression lowering rules.
#[verifier::loop_isolation(false)]
#[verifier::rlimit(100)]
#[verifier::spinoff_prover]
fn lower_expr_g3(stage: &str, e: Expr) -> (r: Result<(String, WrapKind), TranslateError>)
    requires
        crate::lower::expr_wf(e),
        e matches Expr::Neg { .. } || e matches Expr::Not { .. } || e matches Expr::Abs { .. } || e matches Expr::Sign { .. } || e matches Expr::Atan2 { .. } || e matches Expr::Add { .. } || e matches Expr::Mul { .. } || e matches Expr::Min { .. } || e matches Expr::Max { .. } || e matches Expr::Sub { .. } || e matches Expr::Div { .. } || e matches Expr::Mod { .. } || e matches Expr::Pow { .. } || e matches Expr::Log { .. } || e matches Expr::Sqrt { .. } || e matches Expr::Round { .. } || e matches Expr::Floor { .. } || e matches Expr::Ceil { .. },
    ensures
        lview(r) == lower_expr(stage@, e),
    decreases e, 0int,
{
    let ghost ge = e;
    match e {
        Expr::Neg { value } => eun1(
            lower_expr_exec(stage, *value),
            "-",
            true,
            "",
            WrapKind::Wrapped,
        ),
        Expr::Not { value } => eun1(
            lower_expr_exec(stage, *value),
            "snap.lnot(",
            false,
            ")",
            WrapKind::Wrapped,
        ),
        Expr::Abs { value } => eun1(
            lower_expr_exec(stage, *value),
            "abs(",
            true,
            ")",
            WrapKind::Wrapped,
        ),
        Expr::Sign { value } => eun1(
            lower_expr_exec(stage, *value),
            "snap.sign(",
            false,
            ")",
            WrapKind::Wrapped,
        ),
        Expr::Atan2 { y, x } => {
            let a = lower_expr_exec(stage, *y);
            let b = lower_expr_exec(stage, *x);
            ebin2(a, b, "snap.atan2(", false, ", ", false, ")", WrapKind::Wrapped)
        },
        Expr::Add { values } => {
            let ghost gsrc = *values;
            proof {
                assert(crate::lower::expr_wf(gsrc));
            }
            match *values {
                Expr::Value(Value::List(vals)) => {
                    if vals.len() == 0 {
                        Result::Ok((String::from_str("0"), WrapKind::Unknown))
                    } else {
                        proof {
                        assert(value_ok(Value::List(vals)));
                    }
                    let parts = value_texts_exec(&vals, ValStyle::Wrapped);
                        let pj = join_strs(&parts, " + ");
                        Result::Ok((cat3("(", pj.as_str(), ")"), WrapKind::Wrapped))
                    }
                },
                Expr::MakeList { values: vs } => {
                    if vs.len() == 0 {
                        Result::Ok((String::from_str("0"), WrapKind::Unknown))
                    } else {
                        proof {
                            assert(crate::lower::exprs_wf(vs@));
                            assert(decreases_to!(ge => ge->Add_values));
                            assert(decreases_to!(*ge->Add_values => (
                            *ge->Add_values)->MakeList_values));
                        }
                        match exprs_texts_exec(stage, vs, ArgStyle::Wrapped) {
                            Result::Err(err) => Result::Err(err),
                            Result::Ok(parts) => {
                                let pj = join_strs(&parts, " + ");
                                Result::Ok((cat3("(", pj.as_str(), ")"), WrapKind::Wrapped))
                            },
                        }
                    }
                },
                other => eun1(lower_expr_exec(stage, other), "sum(", true, ")", WrapKind::Unknown),
            }
        },
        Expr::Mul { values } => {
            let ghost gsrc = *values;
            proof {
                assert(crate::lower::expr_wf(gsrc));
            }
            match *values {
                Expr::Value(Value::List(vals)) => {
                    if vals.len() == 0 {
                        Result::Ok((String::from_str("1"), WrapKind::Unknown))
                    } else {
                        proof {
                        assert(value_ok(Value::List(vals)));
                    }
                    let parts = value_texts_exec(&vals, ValStyle::Wrapped);
                        let pj = join_strs(&parts, " * ");
                        Result::Ok((cat3("(", pj.as_str(), ")"), WrapKind::Wrapped))
                    }
                },
                Expr::MakeList { values: vs } => {
                    if vs.len() == 0 {
                        Result::Ok((String::from_str("1"), WrapKind::Unknown))
                    } else {
                        proof {
                            assert(crate::lower::exprs_wf(vs@));
                            assert(decreases_to!(ge => ge->Mul_values));
                            assert(decreases_to!(*ge->Mul_values => (
                            *ge->Mul_values)->MakeList_values));
                        }
                        match exprs_texts_exec(stage, vs, ArgStyle::Wrapped) {
                            Result::Err(err) => Result::Err(err),
                            Result::Ok(parts) => {
                                let pj = join_strs(&parts, " * ");
                                Result::Ok((cat3("(", pj.as_str(), ")"), WrapKind::Wrapped))
                            },
                        }
                    }
                },
                other => eun1(
                    lower_expr_exec(stage, other),
                    "snap.prod(",
                    false,
                    ")",
                    WrapKind::Wrapped,
                ),
            }
        },
        Expr::Min { values } => eun1(
            lower_expr_exec(stage, *values),
            "min(",
            true,
            ")",
            WrapKind::Wrapped,
        ),
        Expr::Max { values } => eun1(
            lower_expr_exec(stage, *values),
            "max(",
            true,
            ")",
            WrapKind::Wrapped,
        ),
        Expr::Sub { left, right } => {
            let a = lower_expr_exec(stage, *left);
            let b = lower_expr_exec(stage, *right);
            ebin2(a, b, "(", true, " - ", true, ")", WrapKind::Wrapped)
        },
        Expr::Div { left, right } => {
            let a = lower_expr_exec(stage, *left);
            let b = lower_expr_exec(stage, *right);
            ebin2(a, b, "(", true, " / ", true, ")", WrapKind::Wrapped)
        },
        Expr::Mod { left, right } => {
            let a = lower_expr_exec(stage, *left);
            let b = lower_expr_exec(stage, *right);
            ebin2(a, b, "(", true, " % ", true, ")", WrapKind::Wrapped)
        },
        Expr::Pow { base, power } => {
            let a = lower_expr_exec(stage, *base);
            let b = lower_expr_exec(stage, *power);
            ebin2(a, b, "(", true, " ** ", true, ")", WrapKind::Wrapped)
        },
        Expr::Log { value, base } => {
            let a = lower_expr_exec(stage, *value);
            let b = lower_expr_exec(stage, *base);
            ebin2(a, b, "snap.log(", false, ", ", false, ")", WrapKind::Wrapped)
        },
        Expr::Sqrt { value } => eun1(
            lower_expr_exec(stage, *value),
            "snap.sqrt(",
            false,
            ")",
            WrapKind::Wrapped,
        ),
        Expr::Round { value } => eun1(
            lower_expr_exec(stage, *value),
            "round(",
            true,
            ")",
            WrapKind::Wrapped,
        ),
        Expr::Floor { value } => eun1(
            lower_expr_exec(stage, *value),
            "math.floor(",
            true,
            ")",
            WrapKind::Wrapped,
        ),
        Expr::Ceil { value } => eun1(
            lower_expr_exec(stage, *value),
            "math.ceil(",
            true,
            ")",
            WrapKind::Wrapped,
        ),
        _ => {
            proof {
                assert(false);
            }
            vstd::pervasive::unreached()
        },
    }
}

/// One group of the expression lowering rules.
#[verifier::loop_isolation(false)]
#[verifier::rlimit(100)]
#[verifier::spinoff_prover]
fn lower_expr_g4(stage: &str, e: Expr) -> (r: Result<(String, WrapKind), TranslateError>)
    requires
        crate::lower::expr_wf(e),
        e matches Expr::Sin { .. } || e matches Expr::Cos { .. } || e matches Expr::Tan { .. } || e matches Expr::Asin { .. } || e matches Expr::Acos { .. } || e matches Expr::Atan { .. } || e matches Expr::And { .. } || e matches Expr::Or { .. } || e matches Expr::Conditional { .. } || e matches Expr::Identical { .. } || e matches Expr::Less { .. } || e matches Expr::LessEq { .. } || e matches Expr::Eq { .. } || e matches Expr::Neq { .. } || e matches Expr::Greater { .. } || e matches Expr::GreaterEq { .. } || e matches Expr::Random { .. } || e matches Expr::Range { .. } || e matches Expr::CostumeNumber,
    ensures
        lview(r) == lower_expr(stage@, e),
    decreases e, 0int,
{
    let ghost ge = e;
    match e {
        Expr::Sin { value } => eun1(
            lower_expr_exec(stage, *value),
            "snap.sin(",
            false,
            ")",
            WrapKind::Wrapped,
        ),
        Expr::Cos { value } => eun1(
            lower_expr_exec(stage, *value),
            "snap.cos(",
            false,
            ")",
            WrapKind::Wrapped,
        ),
        Expr::Tan { value } => eun1(
            lower_expr_exec(stage, *value),
            "snap.tan(",
            false,
            ")",
            WrapKind::Wrapped,
        ),
        Expr::Asin { value } => eun1(
            lower_expr_exec(stage, *value),
            "snap.asin(",
            false,
            ")",
            WrapKind::Wrapped,
        ),
        Expr::Acos { value } => eun1(
            lower_expr_exec(stage, *value),
            "snap.acos(",
            false,
            ")",
            WrapKind::Wrapped,
        ),
        Expr::Atan { value } => eun1(
            lower_expr_exec(stage, *value),
            "snap.atan(",
            false,
            ")",
            WrapKind::Wrapped,
        ),
        Expr::And { left, right } => {
            let a = lower_expr_exec(stage, *left);
            let b = lower_expr_exec(stage, *right);
            ebin2(a, b, "(", true, " and ", true, ")", WrapKind::Wrapped)
        },
        Expr::Or { left, right } => {
            let a = lower_expr_exec(stage, *left);
            let b = lower_expr_exec(stage, *right);
            ebin2(a, b, "(", true, " or ", true, ")", WrapKind::Wrapped)
        },
        Expr::Conditional { condition, then, otherwise } => {
            match lower_expr_exec(stage, *then) {
                Result::Err(err) => Result::Err(err),
                Result::Ok(t) => match lower_expr_exec(stage, *otherwise) {
                    Result::Err(err) => Result::Err(err),
                    Result::Ok(o) => match lower_expr_exec(stage, *condition) {
                        Result::Err(err) => Result::Err(err),
                        Result::Ok(c) => {
                            let k = if t.1 == o.1 {
                                t.1
                            } else {
                                WrapKind::Unknown
                            };
                            let w = wrap(c);
                            Result::Ok(
                                (
                                    cat7(
                                        "(",
                                        t.0.as_str(),
                                        " if ",
                                        w.as_str(),
                                        " else ",
                                        o.0.as_str(),
                                        ")",
                                    ),
                                    k,
                                ),
                            )
                        },
                    },
                },
            }
        },
        Expr::Identical { left, right } => {
            let a = lower_expr_exec(stage, *left);
            let b = lower_expr_exec(stage, *right);
            ebin2(a, b, "snap.identical(", false, ", ", false, ")", WrapKind::Wrapped)
        },
        Expr::Less { left, right } => {
            let a = lower_expr_exec(stage, *left);
            let b = lower_expr_exec(stage, *right);
            ebin2(a, b, "(", true, " < ", true, ")", WrapKind::Wrapped)
        },
        Expr::LessEq { left, right } => {
            let a = lower_expr_exec(stage, *left);
            let b = lower_expr_exec(stage, *right);
            ebin2(a, b, "(", true, " <= ", true, ")", WrapKind::Wrapped)
        },
        Expr::Eq { left, right } => {
            let a = lower_expr_exec(stage, *left);
            let b = lower_expr_exec(stage, *right);
            ebin2(a, b, "(", true, " == ", true, ")", WrapKind::Wrapped)
        },
        Expr::Neq { left, right } => {
            let a = lower_expr_exec(stage, *left);
            let b = lower_expr_exec(stage, *right);
            ebin2(a, b, "(", true, " != ", true, ")", WrapKind::Wrapped)
        },
        Expr::Greater { left, right } => {
            let a = lower_expr_exec(stage, *left);
            let b = lower_expr_exec(stage, *right);
            ebin2(a, b, "(", true, " > ", true, ")", WrapKind::Wrapped)
        },
        Expr::GreaterEq { left, right } => {
            let a = lower_expr_exec(stage, *left);
            let b = lower_expr_exec(stage, *right);
            ebin2(a, b, "(", true, " >= ", true, ")", WrapKind::Wrapped)
        },
        Expr::Random { a, b } => {
            let x = lower_expr_exec(stage, *a);
            let y = lower_expr_exec(stage, *b);
            ebin2(x, y, "snap.rand(", false, ", ", false, ")", WrapKind::Wrapped)
        },
        Expr::Range { start, stop } => {
            let x = lower_expr_exec(stage, *start);
            let y = lower_expr_exec(stage, *stop);
            ebin2(x, y, "snap.srange(", false, ", ", false, ")", WrapKind::Wrapped)
        },
        Expr::CostumeNumber => Result::Ok(
            (
                String::from_str("(self.costumes.index(self.costume, -1) + 1)"),
                WrapKind::Unknown,
            ),
        ),
        _ => {
            proof {
                assert(false);
            }
            vstd::pervasive::unreached()
        },
    }
}

/// One group of the expression lowering rules.
#[verifier::loop_isolation(false)]
#[verifier::rlimit(100)]
#[verifier::spinoff_prover]
fn lower_expr_g5(stage: &str, e: Expr) -> (r: Result<(String, WrapKind), TranslateError>)
    requires
        crate::lower::expr_wf(e),
        e matches Expr::TextSplit { .. } || e matches Expr::TypeQuery { .. } || e matches Expr::ListCat { .. } || e matches Expr::StrCat { .. } || e matches Expr::UnicodeToChar { .. } || e matches Expr::CharToUnicode { .. } || e matches Expr::CallRpc { .. } || e matches Expr::CallFn { .. } || e matches Expr::CallClosure { .. },
    ensures
        lview(r) == lower_expr(stage@, e),
    decreases e, 0int,
{
    let ghost ge = e;
    match e {
        Expr::TextSplit { text, mode } => {
            match mode {
                TextSplitMode::Custom(x) => {
                    let a = lower_expr_exec(stage, *text);
                    proof {
                        assert(decreases_to!(ge => ge->TextSplit_mode));
                        assert(decreases_to!(ge->TextSplit_mode =>
                        ge->TextSplit_mode->Custom_0));
                    }
                    let b = lower_expr_exec(stage, *x);
                    ebin2(a, b, "snap.split(", false, ", ", false, ")", WrapKind::Wrapped)
                },
                TextSplitMode::LF => eun1(
                    lower_expr_exec(stage, *text),
                    "snap.split(",
                    false,
                    ", '\\n')",
                    WrapKind::Wrapped,
                ),
                TextSplitMode::CR => eun1(
                    lower_expr_exec(stage, *text),
                    "snap.split(",
                    false,
                    ", '\\r')",
                    WrapKind::Wrapped,
                ),
                TextSplitMode::Tab => eun1(
                    lower_expr_exec(stage, *text),
                    "snap.split(",
                    false,
                    ", '\\t')",
                    WrapKind::Wrapped,
                ),
                TextSplitMode::Letter => eun1(
                    lower_expr_exec(stage, *text),
                    "snap.split(",
                    false,
                    ", '')",
                    WrapKind::Wrapped,
                ),
                TextSplitMode::Word => eun1(
                    lower_expr_exec(stage, *text),
                    "snap.split_words(",
                    false,
                    ")",
                    WrapKind::Wrapped,
                ),
                TextSplitMode::Csv => eun1(
                    lower_expr_exec(stage, *text),
                    "snap.split_csv(",
                    false,
                    ")",
                    WrapKind::Wrapped,
                ),
                TextSplitMode::Json => eun1(
                    lower_expr_exec(stage, *text),
                    "snap.split_json(",
                    false,
                    ")",
                    WrapKind::Wrapped,
                ),
            }
        },
        Expr::TypeQuery { value, ty } => {
            match ty {
                ValueType::Bool => eun1(
                    lower_expr_exec(stage, *value),
                    "snap.is_bool(",
                    false,
                    ")",
                    WrapKind::Wrapped,
                ),
                ValueType::Text => eun1(
                    lower_expr_exec(stage, *value),
                    "snap.is_text(",
                    false,
                    ")",
                    WrapKind::Wrapped,
                ),
                ValueType::Number => eun1(
                    lower_expr_exec(stage, *value),
                    "snap.is_number(",
                    false,
                    ")",
                    WrapKind::Wrapped,
                ),
                ValueType::List => eun1(
                    lower_expr_exec(stage, *value),
                    "snap.is_list(",
                    false,
                    ")",
                    WrapKind::Wrapped,
                ),
                ValueType::Sprite => eun1(
                    lower_expr_exec(stage, *value),
                    "snap.is_sprite(",
                    false,
                    ")",
                    WrapKind::Wrapped,
                ),
                ValueType::Costume => eun1(
                    lower_expr_exec(stage, *value),
                    "snap.is_costume(",
                    false,
                    ")",
                    WrapKind::Wrapped,
                ),
                ValueType::Sound => eun1(
                    lower_expr_exec(stage, *value),
                    "snap.is_sound(",
                    false,
                    ")",
                    WrapKind::Wrapped,
                ),
                ValueType::Command => Result::Err(TranslateError::RingTypeQuery),
                ValueType::Reporter => Result::Err(TranslateError::RingTypeQuery),
                ValueType::Predicate => Result::Err(TranslateError::RingTypeQuery),
            }
        },
        Expr::ListCat { lists } => {
            let ghost gsrc = *lists;
            proof {
                assert(crate::lower::expr_wf(gsrc));
            }
            match *lists {
                Expr::Value(Value::List(vals)) => {
                    proof {
                        assert(value_ok(Value::List(vals)));
                    }
                    let parts = value_texts_exec(&vals, ValStyle::Starred);
                    let pj = join_strs(&parts, ", ");
                    Result::Ok((cat3("[", pj.as_str(), "]"), WrapKind::Unknown))
                },
                Expr::MakeList { values } => {
                    proof {
                        assert(crate::lower::exprs_wf(values@));
                        assert(decreases_to!(ge => ge->ListCat_lists));
                        assert(decreases_to!(*ge->ListCat_lists => (
                        *ge->ListCat_lists)->MakeList_values));
                    }
                    match exprs_texts_exec(stage, values, ArgStyle::Starred) {
                        Result::Err(err) => Result::Err(err),
                        Result::Ok(parts) => {
                            let pj = join_strs(&parts, ", ");
                            Result::Ok((cat3("[", pj.as_str(), "]"), WrapKind::Unknown))
                        },
                    }
                },
                other => eun1(
                    lower_expr_exec(stage, other),
                    "[y for x in ",
                    true,
                    " for y in x]",
                    WrapKind::Unknown,
                ),
            }
        },
        Expr::StrCat { values } => {
            let ghost gsrc = *values;
            proof {
                assert(crate::lower::expr_wf(gsrc));
            }
            match *values {
                Expr::Value(Value::List(vals)) => {
                    if vals.len() == 0 {
                        Result::Ok((String::from_str("''"), WrapKind::Unknown))
                    } else {
                        proof {
                        assert(value_ok(Value::List(vals)));
                    }
                    let parts = value_texts_exec(&vals, ValStyle::Stringified);
                        let pj = join_strs(&parts, " + ");
                        Result::Ok((cat3("(", pj.as_str(), ")"), WrapKind::Unknown))
                    }
                },
                Expr::MakeList { values: vs } => {
                    if vs.len() == 0 {
                        Result::Ok((String::from_str("''"), WrapKind::Unknown))
                    } else {
                        proof {
                            assert(crate::lower::exprs_wf(vs@));
                            assert(decreases_to!(ge => ge->StrCat_values));
                            assert(decreases_to!(*ge->StrCat_values => (
                            *ge->StrCat_values)->MakeList_values));
                        }
                        match exprs_texts_exec(stage, vs, ArgStyle::Stringified) {
                            Result::Err(err) => Result::Err(err),
                            Result::Ok(parts) => {
                                let pj = join_strs(&parts, " + ");
                                Result::Ok((cat3("(", pj.as_str(), ")"), WrapKind::Unknown))
                            },
                        }
                    }
                },
                other => eun1(
                    lower_expr_exec(stage, other),
                    "''.join(str(x) for x in ",
                    true,
                    ")",
                    WrapKind::Unknown,
                ),
            }
        },
        Expr::UnicodeToChar { value } => eun1(
            lower_expr_exec(stage, *value),
            "snap.get_chr(",
            false,
            ")",
            WrapKind::Wrapped,
        ),
        Expr::CharToUnicode { value } => eun1(
            lower_expr_exec(stage, *value),
            "snap.get_ord(",
            false,
            ")",
            WrapKind::Wrapped,
        ),
        Expr::CallRpc { service, rpc, args } => {
            proof {
                assert(decreases_to!(ge => ge->CallRpc_args));
            }
            match rpc_text_exec(stage, service.as_str(), rpc.as_str(), args) {
                Result::Err(err) => Result::Err(err),
                Result::Ok(t) => Result::Ok((t, WrapKind::Unknown)),
            }
        },
        Expr::CallFn { function, args, upvars } => {
            proof {
                assert(decreases_to!(ge => ge->CallFn_args));
            }
            match fn_call_text_exec(stage, &function, args, &upvars) {
                Result::Err(err) => Result::Err(err),
                Result::Ok(t) => Result::Ok((t, WrapKind::Wrapped)),
            }
        },
        Expr::CallClosure { new_entity, closure, args } => {
            if new_entity.is_some() {
                return Result::Err(TranslateError::TellAskClosure);
            }
            proof {
                assert(decreases_to!(ge => ge->CallClosure_args));
            }
            match exprs_texts_exec(stage, args, ArgStyle::Wrapped) {
                Result::Err(err) => Result::Err(err),
                Result::Ok(parts) => match lower_expr_exec(stage, *closure) {
                    Result::Err(err) => Result::Err(err),
                    Result::Ok(c) => {
                        let pj = join_strs(&parts, ", ");
                        Result::Ok(
                            (cat4(c.0.as_str(), "(", pj.as_str(), ")"), WrapKind::Wrapped),
                        )
                    },
                },
            }
        },
        _ => {
            proof {
                assert(false);
            }
            vstd::pervasive::unreached()
        },
    }
}

/// One group of the expression lowering rules.
#[verifier::loop_isolation(false)]
#[verifier::rlimit(100)]
#[verifier::spinoff_prover]
fn lower_expr_g6(stage: &str, e: Expr) -> (r: Result<(String, WrapKind), TranslateError>)
    requires
        crate::lower::expr_wf(e),
        e matches Expr::XPos || e matches Expr::YPos || e matches Expr::Heading || e matches Expr::Answer || e matches Expr::MouseX || e matches Expr::MouseY || e matches Expr::StageWidth || e matches Expr::StageHeight || e matches Expr::Latitude || e matches Expr::Longitude || e matches Expr::KeyDown { .. } || e matches Expr::PenDown || e matches Expr::Size || e matches Expr::IsVisible || e matches Expr::RpcError || e matches Expr::Clone { .. } || e matches Expr::Timer || e matches Expr::Message || e matches Expr::IsTouchingMouse || e matches Expr::IsTouchingEdge || e matches Expr::IsTouchingDrawings || e matches Expr::CostumeList || e matches Expr::SoundList || e matches Expr::SoundDuration { .. },
    ensures
        lview(r) == lower_expr(stage@, e),
    decreases e, 0int,
{
    let ghost ge = e;
    match e {
        Expr::XPos => Result::Ok((String::from_str("self.x_pos"), WrapKind::Unknown)),
        Expr::YPos => Result::Ok((String::from_str("self.y_pos"), WrapKind::Unknown)),
        Expr::Heading => Result::Ok((String::from_str("self.heading"), WrapKind::Unknown)),
        Expr::Answer => Result::Ok((cat2(stage, ".last_answer"), WrapKind::Wrapped)),
        Expr::MouseX => Result::Ok((cat2(stage, ".mouse_pos[0]"), WrapKind::Unknown)),
        Expr::MouseY => Result::Ok((cat2(stage, ".mouse_pos[1]"), WrapKind::Unknown)),
        Expr::StageWidth => Result::Ok((cat2(stage, ".width"), WrapKind::Unknown)),
        Expr::StageHeight => Result::Ok((cat2(stage, ".height"), WrapKind::Unknown)),
        Expr::Latitude => Result::Ok((cat2(stage, ".gps_location[0]"), WrapKind::Unknown)),
        Expr::Longitude => Result::Ok((cat2(stage, ".gps_location[1]"), WrapKind::Unknown)),
        Expr::KeyDown { key } => {
            let pre = cat2(stage, ".is_key_down(");
            eun1(lower_expr_exec(stage, *key), pre.as_str(), false, ")", WrapKind::Wrapped)
        },
        Expr::PenDown => Result::Ok((String::from_str("self.drawing"), WrapKind::Wrapped)),
        Expr::Size => Result::Ok((String::from_str("(self.scale * 100)"), WrapKind::Wrapped)),
        Expr::IsVisible => Result::Ok((String::from_str("self.visible"), WrapKind::Wrapped)),
        Expr::RpcError => Result::Ok(
            (String::from_str("(get_error() or '')"), WrapKind::Unknown),
        ),
        Expr::Clone { target } => eun1(
            lower_expr_exec(stage, *target),
            "",
            false,
            ".clone()",
            WrapKind::Wrapped,
        ),
        Expr::Timer => Result::Err(TranslateError::UnsupportedExpr(Box::new(Expr::Timer))),
        Expr::Message => Result::Err(TranslateError::UnsupportedExpr(Box::new(Expr::Message))),
        Expr::IsTouchingMouse => Result::Err(
            TranslateError::UnsupportedExpr(Box::new(Expr::IsTouchingMouse)),
        ),
        Expr::IsTouchingEdge => Result::Err(
            TranslateError::UnsupportedExpr(Box::new(Expr::IsTouchingEdge)),
        ),
        Expr::IsTouchingDrawings => Result::Err(
            TranslateError::UnsupportedExpr(Box::new(Expr::IsTouchingDrawings)),
        ),
        Expr::CostumeList => Result::Err(
            TranslateError::UnsupportedExpr(Box::new(Expr::CostumeList)),
        ),
        Expr::SoundList => Result::Err(
            TranslateError::UnsupportedExpr(Box::new(Expr::SoundList)),
        ),
        Expr::SoundDuration { sound } => Result::Err(
            TranslateError::UnsupportedExpr(Box::new(Expr::SoundDuration { sound })),
        ),
        _ => {
            proof {
                assert(false);
            }
            vstd::pervasive::unreached()
        },
    }
}

} // verus!
