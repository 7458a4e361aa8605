//! The value and expression lowerers: every literal value and every
//! expression variant becomes a `(text, wrap kind)` pair. The spec functions
//! are the reference lowering; the executable functions are proved to return
//! exactly what they say.

use vstd::prelude::*;

use crate::ast::{Constant, Expr, FnLocation, FnRef, Hat, HatKind, Stmt, StmtKind, TextSplitMode,
    TranslateError, Value, ValueType, VarLocation, VariableDef, VariableRef, WrapKind};
use crate::text::{cat2, cat3, cat4, cat5, cat6, cat7, cat8, escape, escaped, is_ident,
    is_py_ident, join_strs, joined, views_of};

verus! {

/// The wrapping helper: a `Wrapped` text stands as it is, an `Unknown` text
/// is passed through the runtime wrapper.
pub open spec fn wrapped(p: (Seq<char>, WrapKind)) -> Seq<char> {
    if p.1 == WrapKind::Wrapped {
        p.0
    } else {
        "snap.wrap("@ + p.0 + ")"@
    }
}

/// View of an executable lowering result.
pub open spec fn lview(r: Result<(String, WrapKind), TranslateError>) -> Result<
    (Seq<char>, WrapKind),
    TranslateError,
> {
    match r {
        Result::Ok(p) => Result::Ok((p.0@, p.1)),
        Result::Err(e) => Result::Err(e),
    }
}

/// View of an executable text result.
pub open spec fn sview(r: Result<String, TranslateError>) -> Result<Seq<char>, TranslateError> {
    match r {
        Result::Ok(s) => Result::Ok(s@),
        Result::Err(e) => Result::Err(e),
    }
}

pub fn wrap(p: (String, WrapKind)) -> (res: String)
    ensures
        res@ == wrapped((p.0@, p.1)),
{
    match p.1 {
        WrapKind::Wrapped => p.0,
        WrapKind::Unknown => cat3("snap.wrap(", p.0.as_str(), ")"),
    }
}

/// The lowering of a variable reference, by its resolved scope.
pub open spec fn var_text(v: VariableRef) -> Seq<char> {
    match v.location {
        VarLocation::Local => v.trans_name@,
        VarLocation::Field => "self."@ + v.trans_name@,
        VarLocation::Global => "globals()['"@ + v.trans_name@ + "']"@,
    }
}

pub fn translate_var(var: &VariableRef) -> (res: String)
    ensures
        res@ == var_text(*var),
{
    match var.location {
        VarLocation::Local => {
            let mut res = String::new();
            res.append(var.trans_name.as_str());
            proof {
                assert(res@ =~= var.trans_name@);
            }
            res
        },
        VarLocation::Field => cat2("self.", var.trans_name.as_str()),
        VarLocation::Global => cat3("globals()['", var.trans_name.as_str(), "']"),
    }
}

/// The parser hands media values (images, audio, back-references) to the
/// lowering engine only as costume assets, never inside an initializer or
/// an expression; a literal value is lowerable when it contains none.
pub open spec fn value_ok(v: Value) -> bool
    decreases v,
{
    match v {
        Value::String(_) => true,
        Value::Number(_) => true,
        Value::Bool(_) => true,
        Value::Constant(_) => true,
        Value::List(vals) => forall|i: int|
            0 <= i < vals.len() ==> value_ok(#[trigger] vals[i]),
        Value::Image(_) => false,
        Value::Audio(_) => false,
        Value::Ref(_) => false,
    }
}

/// The lowering of a literal value: quoted-escaped strings, verbatim number
/// text, the target's booleans, the named constants, and bracketed lists.
/// Only booleans are born wrapped. Media values never reach this function.
pub open spec fn lower_value(v: Value) -> (Seq<char>, WrapKind)
    decreases v, 1int,
{
    match v {
        Value::String(s) => ("'"@ + escaped(s@) + "'"@, WrapKind::Unknown),
        Value::Number(t) => (t@, WrapKind::Unknown),
        Value::Bool(b) => (
            if b {
                "True"@
            } else {
                "False"@
            },
            WrapKind::Wrapped,
        ),
        Value::Constant(c) => (
            match c {
                Constant::Pi => "math.pi"@,
                Constant::E => "math.e"@,
            },
            WrapKind::Unknown,
        ),
        Value::List(vals) => (
            "["@ + joined(lowered_values(vals@, 0), ", "@) + "]"@,
            WrapKind::Unknown,
        ),
        Value::Image(_) => (Seq::empty(), WrapKind::Unknown),
        Value::Audio(_) => (Seq::empty(), WrapKind::Unknown),
        Value::Ref(_) => (Seq::empty(), WrapKind::Unknown),
    }
}

/// The texts of the values of a literal list, from index `i` on.
pub open spec fn lowered_values(vals: Seq<Value>, i: int) -> Seq<Seq<char>>
    decreases vals, vals.len() - i,
{
    if i < 0 || i >= vals.len() {
        Seq::empty()
    } else {
        seq![lower_value(vals[i]).0] + lowered_values(vals, i + 1)
    }
}

/// The wrapped texts of the values of a literal list, from index `i` on.
pub open spec fn wrapped_values(vals: Seq<Value>, i: int) -> Seq<Seq<char>>
    decreases vals.len() - i,
{
    if i < 0 || i >= vals.len() {
        Seq::empty()
    } else {
        seq![wrapped(lower_value(vals[i]))] + wrapped_values(vals, i + 1)
    }
}

/// The splatted (`*`-prefixed) wrapped texts of a literal list's values.
pub open spec fn starred_values(vals: Seq<Value>, i: int) -> Seq<Seq<char>>
    decreases vals.len() - i,
{
    if i < 0 || i >= vals.len() {
        Seq::empty()
    } else {
        seq!["*"@ + wrapped(lower_value(vals[i]))] + starred_values(vals, i + 1)
    }
}

/// The stringified wrapped texts of a literal list's values.
pub open spec fn str_values(vals: Seq<Value>, i: int) -> Seq<Seq<char>>
    decreases vals.len() - i,
{
    if i < 0 || i >= vals.len() {
        Seq::empty()
    } else {
        seq!["str("@ + wrapped(lower_value(vals[i])) + ")"@] + str_values(vals, i + 1)
    }
}

#[verifier::loop_isolation(false)]
pub fn lower_value_exec(v: &Value) -> (res: (String, WrapKind))
    requires
        value_ok(*v),
    ensures
        (res.0@, res.1) == lower_value(*v),
    decreases *v,
{
    match v {
        Value::String(s) => {
            let e = escape(s.as_str());
            (cat3("'", e.as_str(), "'"), WrapKind::Unknown)
        },
        Value::Number(t) => {
            let mut res = String::new();
            res.append(t.as_str());
            proof {
                assert(res@ =~= t@);
            }
            (res, WrapKind::Unknown)
        },
        Value::Bool(b) => {
            if *b {
                (String::from_str("True"), WrapKind::Wrapped)
            } else {
                (String::from_str("False"), WrapKind::Wrapped)
            }
        },
        Value::Constant(c) => {
            match c {
                Constant::Pi => (String::from_str("math.pi"), WrapKind::Unknown),
                Constant::E => (String::from_str("math.e"), WrapKind::Unknown),
            }
        },
        Value::List(vals) => {
            let n = vals.len();
            let mut parts: Vec<String> = Vec::new();
            let mut i: usize = 0;
            while i < n
                invariant
                    i <= n,
                    lowered_values(vals@, 0) == views_of(parts@) + lowered_values(
                        vals@,
                        i as int,
                    ),
                decreases n - i,
            {
                proof {
                    assert(decreases_to!(*v => v->List_0));
                    assert(decreases_to!(*vals => vals@));
                    assert(decreases_to!(vals@ => vals@[i as int]));
                }
                let p = lower_value_exec(&vals[i]);
                let ghost prev = parts@;
                parts.push(p.0);
                proof {
                    assert(views_of(parts@) =~= views_of(prev).push(lower_value(
                        vals@[i as int],
                    ).0));
                    assert(views_of(parts@) + lowered_values(vals@, i + 1 as int) =~= views_of(
                        prev,
                    ) + lowered_values(vals@, i as int));
                }
                i = i + 1;
            }
            proof {
                assert(lowered_values(vals@, n as int) =~= Seq::<Seq<char>>::empty());
                assert(views_of(parts@) =~= views_of(parts@) + lowered_values(vals@, n as int));
            }
            let inner = join_strs(&parts, ", ");
            (cat3("[", inner.as_str(), "]"), WrapKind::Unknown)
        },
        Value::Image(_) => {
            proof {
                assert(false);
            }
            (String::new(), WrapKind::Unknown)
        },
        Value::Audio(_) => {
            proof {
                assert(false);
            }
            (String::new(), WrapKind::Unknown)
        },
        Value::Ref(_) => {
            proof {
                assert(false);
            }
            (String::new(), WrapKind::Unknown)
        },
    }
}

} // verus!
verus! {

// ------------------------------------------------------------------
// Well-formedness: the invariant the parser guarantees of every tree it
// hands over. Media values stand only in costume assets; a local-message
// send is an unconditional broadcast (no wait flag, no target).
// ------------------------------------------------------------------

pub open spec fn exprs_wf(vs: Seq<Expr>) -> bool
    decreases vs,
{
    forall|i: int| 0 <= i < vs.len() ==> expr_wf(#[trigger] vs[i])
}

pub open spec fn pairs_wf(vs: Seq<(String, Expr)>) -> bool
    decreases vs,
{
    forall|i: int| 0 <= i < vs.len() ==> expr_wf(#[trigger] vs[i].1)
}

pub open spec fn stmts_wf(vs: Seq<Stmt>) -> bool
    decreases vs,
{
    forall|i: int| 0 <= i < vs.len() ==> stmt_wf(#[trigger] vs[i])
}

pub open spec fn opt_expr_wf(e: Option<Box<Expr>>) -> bool
    decreases e,
{
    match e {
        Option::None => true,
        Option::Some(b) => expr_wf(*b),
    }
}

/// The parser invariant on an expression tree.
pub open spec fn expr_wf(e: Expr) -> bool
    decreases e,
{
    match e {
        Expr::Value(v) => value_ok(v),
        Expr::Variable { .. } => true,
        Expr::Closure { kind: _, params: _, stmts } => stmts_wf(stmts@),
        Expr::This => true,
        Expr::Entity { .. } => true,
        Expr::ImageOfEntity { entity } => expr_wf(*entity),
        Expr::ImageOfDrawings => true,
        Expr::IsTouchingEntity { entity } => expr_wf(*entity),
        Expr::MakeList { values } => exprs_wf(values@),
        Expr::CopyList { list } => expr_wf(*list),
        Expr::ListCons { item, list } => expr_wf(*item) && expr_wf(*list),
        Expr::ListCdr { value } => expr_wf(*value),
        Expr::ListGet { list, index } => expr_wf(*list) && expr_wf(*index),
        Expr::ListGetRandom { list } => expr_wf(*list),
        Expr::ListGetLast { list } => expr_wf(*list),
        Expr::ListFind { list, value } => expr_wf(*list) && expr_wf(*value),
        Expr::ListContains { list, value } => expr_wf(*list) && expr_wf(*value),
        Expr::ListLen { value } => expr_wf(*value),
        Expr::StrLen { value } => expr_wf(*value),
        Expr::ListIsEmpty { value } => expr_wf(*value),
        Expr::ListRank { value } => expr_wf(*value),
        Expr::ListDims { value } => expr_wf(*value),
        Expr::ListFlatten { value } => expr_wf(*value),
        Expr::ListColumns { value } => expr_wf(*value),
        Expr::ListRev { value } => expr_wf(*value),
        Expr::ListLines { value } => expr_wf(*value),
        Expr::ListCsv { value } => expr_wf(*value),
        Expr::ListJson { value } => expr_wf(*value),
        Expr::ListReshape { value, dims } => expr_wf(*value) && expr_wf(*dims),
        Expr::ListCombinations { sources } => expr_wf(*sources),
        Expr::MapOver { f, list } => expr_wf(*f) && expr_wf(*list),
        Expr::Keep { f, list } => expr_wf(*f) && expr_wf(*list),
        Expr::FindFirst { f, list } => expr_wf(*f) && expr_wf(*list),
        Expr::Combine { f, list } => expr_wf(*f) && expr_wf(*list),
        Expr::StrGet { string, index } => expr_wf(*string) && expr_wf(*index),
        Expr::StrGetLast { string } => expr_wf(*string),
        Expr::StrGetRandom { string } => expr_wf(*string),
        Expr::Neg { value } => expr_wf(*value),
        Expr::Not { value } => expr_wf(*value),
        Expr::Abs { value } => expr_wf(*value),
        Expr::Sign { value } => expr_wf(*value),
        Expr::Atan2 { y, x } => expr_wf(*y) && expr_wf(*x),
        Expr::Add { values } => expr_wf(*values),
        Expr::Mul { values } => expr_wf(*values),
        Expr::Min { values } => expr_wf(*values),
        Expr::Max { values } => expr_wf(*values),
        Expr::Sub { left, right } => expr_wf(*left) && expr_wf(*right),
        Expr::Div { left, right } => expr_wf(*left) && expr_wf(*right),
        Expr::Mod { left, right } => expr_wf(*left) && expr_wf(*right),
        Expr::Pow { base, power } => expr_wf(*base) && expr_wf(*power),
        Expr::Log { value, base } => expr_wf(*value) && expr_wf(*base),
        Expr::Sqrt { value } => expr_wf(*value),
        Expr::Round { value } => expr_wf(*value),
        Expr::Floor { value } => expr_wf(*value),
        Expr::Ceil { value } => expr_wf(*value),
        Expr::Sin { value } => expr_wf(*value),
        Expr::Cos { value } => expr_wf(*value),
        Expr::Tan { value } => expr_wf(*value),
        Expr::Asin { value } => expr_wf(*value),
        Expr::Acos { value } => expr_wf(*value),
        Expr::Atan { value } => expr_wf(*value),
        Expr::And { left, right } => expr_wf(*left) && expr_wf(*right),
        Expr::Or { left, right } => expr_wf(*left) && expr_wf(*right),
        Expr::Conditional { condition, then, otherwise } => expr_wf(*condition) && expr_wf(*then)
            && expr_wf(*otherwise),
        Expr::Identical { left, right } => expr_wf(*left) && expr_wf(*right),
        Expr::Less { left, right } => expr_wf(*left) && expr_wf(*right),
        Expr::LessEq { left, right } => expr_wf(*left) && expr_wf(*right),
        Expr::Eq { left, right } => expr_wf(*left) && expr_wf(*right),
        Expr::Neq { left, right } => expr_wf(*left) && expr_wf(*right),
        Expr::Greater { left, right } => expr_wf(*left) && expr_wf(*right),
        Expr::GreaterEq { left, right } => expr_wf(*left) && expr_wf(*right),
        Expr::Random { a, b } => expr_wf(*a) && expr_wf(*b),
        Expr::Range { start, stop } => expr_wf(*start) && expr_wf(*stop),
        Expr::CostumeNumber => true,
        Expr::TextSplit { text, mode } => expr_wf(*text) && (match mode {
            TextSplitMode::Custom(x) => expr_wf(*x),
            _ => true,
        }),
        Expr::TypeQuery { value, ty: _ } => expr_wf(*value),
        Expr::ListCat { lists } => expr_wf(*lists),
        Expr::StrCat { values } => expr_wf(*values),
        Expr::UnicodeToChar { value } => expr_wf(*value),
        Expr::CharToUnicode { value } => expr_wf(*value),
        Expr::CallRpc { service: _, rpc: _, args } => pairs_wf(args@),
        Expr::CallFn { function: _, args, upvars: _ } => exprs_wf(args@),
        Expr::CallClosure { new_entity, closure, args } => opt_expr_wf(new_entity) && expr_wf(
            *closure,
        ) && exprs_wf(args@),
        Expr::XPos => true,
        Expr::YPos => true,
        Expr::Heading => true,
        Expr::Answer => true,
        Expr::MouseX => true,
        Expr::MouseY => true,
        Expr::StageWidth => true,
        Expr::StageHeight => true,
        Expr::Latitude => true,
        Expr::Longitude => true,
        Expr::KeyDown { key } => expr_wf(*key),
        Expr::PenDown => true,
        Expr::Size => true,
        Expr::IsVisible => true,
        Expr::RpcError => true,
        Expr::Clone { target } => expr_wf(*target),
        Expr::Timer => true,
        Expr::Message => true,
        Expr::IsTouchingMouse => true,
        Expr::IsTouchingEdge => true,
        Expr::IsTouchingDrawings => true,
        Expr::CostumeList => true,
        Expr::SoundList => true,
        Expr::SoundDuration { sound } => expr_wf(*sound),
    }
}

/// The parser invariant on a statement, and the two conditions of a
/// local-message send that the engine requires: no wait flag, no target.
pub open spec fn stmt_wf(s: Stmt) -> bool
    decreases s,
{
    match s.kind {
        StmtKind::DeclareLocals { .. } => true,
        StmtKind::Assign { var: _, value } => expr_wf(*value),
        StmtKind::AddAssign { var: _, value } => expr_wf(*value),
        StmtKind::ListAssign { list, index, value } => expr_wf(*list) && expr_wf(*index)
            && expr_wf(*value),
        StmtKind::ListAssignLast { list, value } => expr_wf(*list) && expr_wf(*value),
        StmtKind::ListAssignRandom { list, value } => expr_wf(*list) && expr_wf(*value),
        StmtKind::ListInsert { list, index, value } => expr_wf(*list) && expr_wf(*index)
            && expr_wf(*value),
        StmtKind::ListInsertLast { list, value } => expr_wf(*list) && expr_wf(*value),
        StmtKind::ListInsertRandom { list, value } => expr_wf(*list) && expr_wf(*value),
        StmtKind::ListRemove { list, index } => expr_wf(*list) && expr_wf(*index),
        StmtKind::ListRemoveLast { list } => expr_wf(*list),
        StmtKind::ListRemoveAll { list } => expr_wf(*list),
        StmtKind::Throw { error } => expr_wf(*error),
        StmtKind::Warp { stmts } => stmts_wf(stmts@),
        StmtKind::If { condition, then } => expr_wf(*condition) && stmts_wf(then@),
        StmtKind::IfElse { condition, then, otherwise } => expr_wf(*condition) && stmts_wf(then@)
            && stmts_wf(otherwise@),
        StmtKind::TryCatch { code, var: _, handler } => stmts_wf(code@) && stmts_wf(handler@),
        StmtKind::InfLoop { stmts } => stmts_wf(stmts@),
        StmtKind::ForLoop { var: _, start, stop, stmts } => expr_wf(*start) && expr_wf(*stop)
            && stmts_wf(stmts@),
        StmtKind::ForeachLoop { var: _, items, stmts } => expr_wf(*items) && stmts_wf(stmts@),
        StmtKind::Repeat { times, stmts } => expr_wf(*times) && stmts_wf(stmts@),
        StmtKind::UntilLoop { condition, stmts } => expr_wf(*condition) && stmts_wf(stmts@),
        StmtKind::SetCostume { costume } => expr_wf(*costume),
        StmtKind::NextCostume => true,
        StmtKind::SetX { value } => expr_wf(*value),
        StmtKind::SetY { value } => expr_wf(*value),
        StmtKind::ChangeX { delta } => expr_wf(*delta),
        StmtKind::ChangeY { delta } => expr_wf(*delta),
        StmtKind::Goto { target } => expr_wf(*target),
        StmtKind::GotoXY { x, y } => expr_wf(*x) && expr_wf(*y),
        StmtKind::SendLocalMessage { target, msg_type, wait } => !wait && target is None
            && expr_wf(*msg_type),
        StmtKind::SendNetworkMessage { target, msg_type: _, values } => expr_wf(*target)
            && pairs_wf(values@),
        StmtKind::Say { content, duration } => expr_wf(*content) && (match duration {
            Option::Some(d) => expr_wf(*d),
            Option::None => true,
        }),
        StmtKind::Think { content, duration } => expr_wf(*content) && (match duration {
            Option::Some(d) => expr_wf(*d),
            Option::None => true,
        }),
        StmtKind::CallRpc { service: _, rpc: _, args } => pairs_wf(args@),
        StmtKind::CallFn { function: _, args, upvars: _ } => exprs_wf(args@),
        StmtKind::CallClosure { new_entity, closure, args } => opt_expr_wf(new_entity) && expr_wf(
            *closure,
        ) && exprs_wf(args@),
        StmtKind::ChangePenSize { delta } => expr_wf(*delta),
        StmtKind::SetPenSize { value } => expr_wf(*value),
        StmtKind::SetVisible { .. } => true,
        StmtKind::WaitUntil { condition } => expr_wf(*condition),
        StmtKind::BounceOffEdge => true,
        StmtKind::Sleep { seconds } => expr_wf(*seconds),
        StmtKind::Forward { distance } => expr_wf(*distance),
        StmtKind::TurnRight { angle } => expr_wf(*angle),
        StmtKind::TurnLeft { angle } => expr_wf(*angle),
        StmtKind::SetHeading { value } => expr_wf(*value),
        StmtKind::Return { value } => expr_wf(*value),
        StmtKind::Stamp => true,
        StmtKind::Write { content, font_size } => expr_wf(*content) && expr_wf(*font_size),
        StmtKind::SetPenDown { .. } => true,
        StmtKind::PenClear => true,
        StmtKind::SetPenColor { .. } => true,
        StmtKind::ChangeSize { delta } => expr_wf(*delta),
        StmtKind::SetSize { value } => expr_wf(*value),
        StmtKind::Clone { target } => expr_wf(*target),
        StmtKind::Ask { prompt } => expr_wf(*prompt),
        StmtKind::ShowVar { .. } => true,
        StmtKind::HideVar { .. } => true,
        StmtKind::PlaySound { sound, blocking: _ } => expr_wf(*sound),
        StmtKind::StopSounds => true,
        StmtKind::ResetTimer => true,
        StmtKind::DeleteClone => true,
        StmtKind::UnknownBlock { name: _, args } => exprs_wf(args@),
    }
}

/// The parser invariant on an event binding.
pub open spec fn hat_wf(h: Hat) -> bool {
    match h.kind {
        HatKind::When { condition } => expr_wf(*condition),
        _ => true,
    }
}

} // verus!
verus! {

// ------------------------------------------------------------------
// Result combinators shared by the lowering rules: one or two lowered
// children placed into a fixed surrounding shape, first error kept.
// ------------------------------------------------------------------

/// One lowered child in a fixed shape: `pre` + child (wrapped when `awrap`)
/// + `post`, tagged `k`; a failed child keeps its error.
pub open spec fn un1(
    a: Result<(Seq<char>, WrapKind), TranslateError>,
    pre: Seq<char>,
    awrap: bool,
    post: Seq<char>,
    k: WrapKind,
) -> Result<(Seq<char>, WrapKind), TranslateError> {
    match a {
        Result::Err(e) => Result::Err(e),
        Result::Ok(x) => Result::Ok(
            (
                pre + (if awrap {
                    wrapped(x)
                } else {
                    x.0
                }) + post,
                k,
            ),
        ),
    }
}

/// Two lowered children in a fixed shape, in order; the first error wins.
pub open spec fn bin2(
    a: Result<(Seq<char>, WrapKind), TranslateError>,
    b: Result<(Seq<char>, WrapKind), TranslateError>,
    pre: Seq<char>,
    awrap: bool,
    mid: Seq<char>,
    bwrap: bool,
    post: Seq<char>,
    k: WrapKind,
) -> Result<(Seq<char>, WrapKind), TranslateError> {
    match a {
        Result::Err(e) => Result::Err(e),
        Result::Ok(x) => match b {
            Result::Err(e) => Result::Err(e),
            Result::Ok(y) => Result::Ok(
                (
                    pre + (if awrap {
                        wrapped(x)
                    } else {
                        x.0
                    }) + mid + (if bwrap {
                        wrapped(y)
                    } else {
                        y.0
                    }) + post,
                    k,
                ),
            ),
        },
    }
}

/// The names of a closure's parameters, from index `i` on.
pub open spec fn param_names(params: Seq<VariableDef>, i: int) -> Seq<Seq<char>>
    decreases params.len() - i,
{
    if i < 0 || i >= params.len() {
        Seq::empty()
    } else {
        seq![params[i].trans_name@] + param_names(params, i + 1)
    }
}

/// The parameter list of an emitted lambda: empty, or a space and the
/// comma-joined names.
pub open spec fn params_text(params: Seq<VariableDef>) -> Seq<char> {
    if params.len() == 0 {
        Seq::empty()
    } else {
        " "@ + joined(param_names(params, 0), ", "@)
    }
}

// ------------------------------------------------------------------
// The expression lowering rules.
// ------------------------------------------------------------------

/// How an expression in a lowered argument list is rendered: verbatim,
/// wrapped, splatted, or wrapped and passed through the target's `str`.
#[derive(Clone, Copy, Debug, PartialEq, Eq, Structural)]
pub enum ArgStyle {
    Raw,
    Wrapped,
    Starred,
    Stringified,
}

/// One lowered argument rendered in the given style.
pub open spec fn arg_text(p: (Seq<char>, WrapKind), style: ArgStyle) -> Seq<char> {
    match style {
        ArgStyle::Raw => p.0,
        ArgStyle::Wrapped => wrapped(p),
        ArgStyle::Starred => "*"@ + wrapped(p),
        ArgStyle::Stringified => "str("@ + wrapped(p) + ")"@,
    }
}

/// The texts of lowered expressions from index `i` on, each rendered in the
/// given style; the first failed element keeps its error.
pub open spec fn exprs_texts(stage: Seq<char>, vs: Seq<Expr>, i: int, style: ArgStyle) -> Result<
    Seq<Seq<char>>,
    TranslateError,
>
    decreases vs, vs.len() - i,
{
    if i < 0 || i >= vs.len() {
        Result::Ok(Seq::empty())
    } else {
        match lower_expr(stage, vs[i]) {
            Result::Err(e) => Result::Err(e),
            Result::Ok(p) => match exprs_texts(stage, vs, i + 1, style) {
                Result::Err(e) => Result::Err(e),
                Result::Ok(rest) => Result::Ok(seq![arg_text(p, style)] + rest),
            },
        }
    }
}

/// How a literal value in a lowered list is rendered: verbatim, wrapped,
/// splatted, or wrapped and passed through the target's `str`.
#[derive(Clone, Copy, Debug, PartialEq, Eq, Structural)]
pub enum ValStyle {
    Raw,
    Wrapped,
    Starred,
    Stringified,
}

/// The texts of a literal list's values from index `i` on, in the given
/// style.
pub open spec fn value_texts(vals: Seq<Value>, i: int, style: ValStyle) -> Seq<Seq<char>> {
    match style {
        ValStyle::Raw => lowered_values(vals, i),
        ValStyle::Wrapped => wrapped_values(vals, i),
        ValStyle::Starred => starred_values(vals, i),
        ValStyle::Stringified => str_values(vals, i),
    }
}

/// The keyword arguments partitioned by whether the name is a valid target
/// identifier: identifier-named entries become `name = value`, the rest
/// become quoted `'name': value` entries, both in argument order.
pub open spec fn kwarg_pairs(
    stage: Seq<char>,
    args: Seq<(String, Expr)>,
    i: int,
    wrap_vals: bool,
) -> Result<(Seq<Seq<char>>, Seq<Seq<char>>), TranslateError>
    decreases args, args.len() - i,
{
    if i < 0 || i >= args.len() {
        Result::Ok((Seq::empty(), Seq::empty()))
    } else {
        match lower_expr(stage, args[i].1) {
            Result::Err(e) => Result::Err(e),
            Result::Ok(p) => {
                let val = if wrap_vals {
                    wrapped(p)
                } else {
                    p.0
                };
                match kwarg_pairs(stage, args, i + 1, wrap_vals) {
                    Result::Err(e) => Result::Err(e),
                    Result::Ok(rest) => if is_ident(args[i].0@) {
                        Result::Ok((seq![args[i].0@ + " = "@ + val] + rest.0, rest.1))
                    } else {
                        Result::Ok(
                            (rest.0, seq!["'"@ + escaped(args[i].0@) + "': "@ + val] + rest.1),
                        )
                    },
                }
            },
        }
    }
}

/// The emitted keyword-argument text: the four combinations of present and
/// absent identifier and non-identifier entries each have a fixed shape;
/// with no arguments at all nothing is emitted, not even the prefix.
pub open spec fn kwargs_text(
    stage: Seq<char>,
    args: Seq<(String, Expr)>,
    prefix: Seq<char>,
    wrap_vals: bool,
) -> Result<Seq<char>, TranslateError>
    decreases args, args.len() + 1,
{
    match kwarg_pairs(stage, args, 0, wrap_vals) {
        Result::Err(e) => Result::Err(e),
        Result::Ok(pair) => {
            let ia = pair.0;
            let na = pair.1;
            if ia.len() > 0 && na.len() > 0 {
                Result::Ok(
                    prefix + joined(ia, ", "@) + ", **{ "@ + joined(na, ", "@) + " }"@,
                )
            } else if ia.len() > 0 {
                Result::Ok(prefix + joined(ia, ", "@))
            } else if na.len() > 0 {
                Result::Ok(prefix + "**{ "@ + joined(na, ", "@) + " }"@)
            } else {
                Result::Ok(Seq::empty())
            }
        },
    }
}

/// The lowering of a service call: a guarded call of the messaging runtime
/// with the service and operation names quoted and the keyword arguments
/// appended.
pub open spec fn rpc_text(
    stage: Seq<char>,
    service: Seq<char>,
    rpc: Seq<char>,
    args: Seq<(String, Expr)>,
) -> Result<Seq<char>, TranslateError>
    decreases args, args.len() + 2,
{
    match kwargs_text(stage, args, ", "@, false) {
        Result::Err(e) => Result::Err(e),
        Result::Ok(a) => Result::Ok(
            "nothrow(nb.call)('"@ + escaped(service) + "', '"@ + escaped(rpc) + "'"@ + a + ")"@,
        ),
    }
}

/// The lowering of a call of a user function: wrapped arguments, and the
/// callee addressed bare or through `self` by its resolved scope. Captured
/// upvars cannot be written back in the target and are reported.
pub open spec fn fn_call_text(
    stage: Seq<char>,
    function: FnRef,
    args: Seq<Expr>,
    upvars: Seq<VariableRef>,
) -> Result<Seq<char>, TranslateError>
    decreases args, args.len() + 1,
{
    if upvars.len() > 0 {
        Result::Err(TranslateError::Upvars)
    } else {
        match exprs_texts(stage, args, 0, ArgStyle::Wrapped) {
            Result::Err(e) => Result::Err(e),
            Result::Ok(parts) => Result::Ok(
                match function.location {
                    FnLocation::Global => function.trans_name@ + "("@ + joined(parts, ", "@)
                        + ")"@,
                    FnLocation::Method => "self."@ + function.trans_name@ + "("@ + joined(
                        parts,
                        ", "@,
                    ) + ")"@,
                },
            ),
        }
    }
}

/// The lowering of every expression variant to its `(text, wrap kind)`
/// pair, or the error the variant calls for. `stage` is the translated
/// name of the role's stage, which stage-level readings address.
pub open spec fn lower_expr(stage: Seq<char>, e: Expr) -> Result<
    (Seq<char>, WrapKind),
    TranslateError,
>
    decreases e, 0int,
{
    match e {
        Expr::Value(v) => Result::Ok(lower_value(v)),
        Expr::Variable { var } => Result::Ok((var_text(var), WrapKind::Wrapped)),
        Expr::Closure { kind: _, params, stmts } => if stmts.len() == 1 {
            match stmts[0].kind {
                StmtKind::Return { value } => match lower_expr(stage, *value) {
                    Result::Err(e) => Result::Err(e),
                    Result::Ok(p) => Result::Ok(
                        (
                            "(lambda"@ + params_text(params@) + ": "@ + wrapped(p) + ")"@,
                            WrapKind::Wrapped,
                        ),
                    ),
                },
                _ => Result::Err(TranslateError::CommandRing),
            }
        } else {
            Result::Err(TranslateError::CommandRing)
        },
        Expr::This => Result::Ok(("self"@, WrapKind::Wrapped)),
        Expr::Entity { trans_name } => Result::Ok((trans_name@, WrapKind::Wrapped)),
        Expr::ImageOfEntity { entity } => un1(
            lower_expr(stage, *entity),
            ""@,
            false,
            ".get_image()"@,
            WrapKind::Wrapped,
        ),
        Expr::ImageOfDrawings => Result::Ok((stage + ".get_drawings()"@, WrapKind::Wrapped)),
        Expr::IsTouchingEntity { entity } => un1(
            lower_expr(stage, *entity),
            "self.is_touching("@,
            false,
            ")"@,
            WrapKind::Wrapped,
        ),
        Expr::MakeList { values } => match exprs_texts(stage, values@, 0, ArgStyle::Raw) {
            Result::Err(e) => Result::Err(e),
            Result::Ok(parts) => Result::Ok(
                ("["@ + joined(parts, ", "@) + "]"@, WrapKind::Unknown),
            ),
        },
        Expr::CopyList { list } => un1(
            lower_expr(stage, *list),
            "[*"@,
            true,
            "]"@,
            WrapKind::Unknown,
        ),
        Expr::ListCons { item, list } => bin2(
            lower_expr(stage, *item),
            lower_expr(stage, *list),
            "["@,
            false,
            ", *"@,
            true,
            "]"@,
            WrapKind::Unknown,
        ),
        Expr::ListCdr { value } => un1(
            lower_expr(stage, *value),
            ""@,
            true,
            "[1:]"@,
            WrapKind::Wrapped,
        ),
        Expr::ListGet { list, index } => bin2(
            lower_expr(stage, *list),
            lower_expr(stage, *index),
            ""@,
            true,
            "["@,
            true,
            " - snap.wrap(1)]"@,
            WrapKind::Wrapped,
        ),
        Expr::ListGetRandom { list } => un1(
            lower_expr(stage, *list),
            ""@,
            true,
            ".rand"@,
            WrapKind::Wrapped,
        ),
        Expr::ListGetLast { list } => un1(
            lower_expr(stage, *list),
            ""@,
            true,
            ".last"@,
            WrapKind::Wrapped,
        ),
        Expr::ListFind { list, value } => bin2(
            lower_expr(stage, *list),
            lower_expr(stage, *value),
            "("@,
            true,
            ".index("@,
            false,
            ") + snap.wrap(1))"@,
            WrapKind::Wrapped,
        ),
        Expr::ListContains { list, value } => bin2(
            lower_expr(stage, *value),
            lower_expr(stage, *list),
            "("@,
            true,
            " in "@,
            true,
            ")"@,
            WrapKind::Wrapped,
        ),
        Expr::ListLen { value } => un1(
            lower_expr(stage, *value),
            "len("@,
            false,
            ")"@,
            WrapKind::Unknown,
        ),
        Expr::StrLen { value } => un1(
            lower_expr(stage, *value),
            "len("@,
            false,
            ")"@,
            WrapKind::Unknown,
        ),
        Expr::ListIsEmpty { value } => un1(
            lower_expr(stage, *value),
            "(len("@,
            false,
            ") == 0)"@,
            WrapKind::Wrapped,
        ),
        Expr::ListRank { value } => un1(
            lower_expr(stage, *value),
            "len("@,
            true,
            ".shape)"@,
            WrapKind::Unknown,
        ),
        Expr::ListDims { value } => un1(
            lower_expr(stage, *value),
            ""@,
            true,
            ".shape"@,
            WrapKind::Wrapped,
        ),
        Expr::ListFlatten { value } => un1(
            lower_expr(stage, *value),
            ""@,
            true,
            ".flat"@,
            WrapKind::Wrapped,
        ),
        Expr::ListColumns { value } => un1(
            lower_expr(stage, *value),
            ""@,
            true,
            ".T"@,
            WrapKind::Wrapped,
        ),
        Expr::ListRev { value } => un1(
            lower_expr(stage, *value),
            ""@,
            true,
            "[::-1]"@,
            WrapKind::Wrapped,
        ),
        Expr::ListLines { value } => un1(
            lower_expr(stage, *value),
            "'\\n'.join(str(x) for x in "@,
            true,
            ")"@,
            WrapKind::Wrapped,
        ),
        Expr::ListCsv { value } => un1(
            lower_expr(stage, *value),
            ""@,
            true,
            ".csv"@,
            WrapKind::Wrapped,
        ),
        Expr::ListJson { value } => un1(
            lower_expr(stage, *value),
            ""@,
            true,
            ".json"@,
            WrapKind::Wrapped,
        ),
        Expr::ListReshape { value, dims } => bin2(
            lower_expr(stage, *value),
            lower_expr(stage, *dims),
            ""@,
            true,
            ".reshaped("@,
            false,
            ")"@,
            WrapKind::Wrapped,
        ),
        Expr::ListCombinations { sources } => match *sources {
            Expr::Value(Value::List(vals)) => Result::Ok(
                (
                    "snap.combinations("@ + joined(lowered_values(vals@, 0), ", "@) + ")"@,
                    WrapKind::Wrapped,
                ),
            ),
            Expr::MakeList { values } => match exprs_texts(stage, values@, 0, ArgStyle::Raw) {
                Result::Err(e) => Result::Err(e),
                Result::Ok(parts) => Result::Ok(
                    (
                        "snap.combinations("@ + joined(parts, ", "@) + ")"@,
                        WrapKind::Wrapped,
                    ),
                ),
            },
            other => un1(
                lower_expr(stage, other),
                "snap.combinations(*"@,
                true,
                ")"@,
                WrapKind::Wrapped,
            ),
        },
        Expr::MapOver { f, list } => bin2(
            lower_expr(stage, *f),
            lower_expr(stage, *list),
            "["@,
            false,
            "(x) for x in "@,
            true,
            "]"@,
            WrapKind::Unknown,
        ),
        Expr::Keep { f, list } => bin2(
            lower_expr(stage, *list),
            lower_expr(stage, *f),
            "[x for x in "@,
            true,
            " if "@,
            false,
            "(x)]"@,
            WrapKind::Unknown,
        ),
        Expr::FindFirst { f, list } => bin2(
            lower_expr(stage, *list),
            lower_expr(stage, *f),
            ""@,
            true,
            ".index_where("@,
            false,
            ")"@,
            WrapKind::Wrapped,
        ),
        Expr::Combine { f, list } => bin2(
            lower_expr(stage, *list),
            lower_expr(stage, *f),
            ""@,
            true,
            ".fold("@,
            false,
            ")"@,
            WrapKind::Wrapped,
        ),
        Expr::StrGet { string, index } => bin2(
            lower_expr(stage, *string),
            lower_expr(stage, *index),
            ""@,
            true,
            "["@,
            true,
            " - snap.wrap(1)]"@,
            WrapKind::Wrapped,
        ),
        Expr::StrGetLast { string } => un1(
            lower_expr(stage, *string),
            ""@,
            true,
            ".last"@,
            WrapKind::Wrapped,
        ),
        Expr::StrGetRandom { string } => un1(
            lower_expr(stage, *string),
            ""@,
            true,
            ".rand"@,
            WrapKind::Wrapped,
        ),
        Expr::Neg { value } => un1(
            lower_expr(stage, *value),
            "-"@,
            true,
            ""@,
            WrapKind::Wrapped,
        ),
        Expr::Not { value } => un1(
            lower_expr(stage, *value),
            "snap.lnot("@,
            false,
            ")"@,
            WrapKind::Wrapped,
        ),
        Expr::Abs { value } => un1(
            lower_expr(stage, *value),
            "abs("@,
            true,
            ")"@,
            WrapKind::Wrapped,
        ),
        Expr::Sign { value } => un1(
            lower_expr(stage, *value),
            "snap.sign("@,
            false,
            ")"@,
            WrapKind::Wrapped,
        ),
        Expr::Atan2 { y, x } => bin2(
            lower_expr(stage, *y),
            lower_expr(stage, *x),
            "snap.atan2("@,
            false,
            ", "@,
            false,
            ")"@,
            WrapKind::Wrapped,
        ),
        Expr::Add { values } => match *values {
            Expr::Value(Value::List(vals)) => if vals.len() == 0 {
                Result::Ok(("0"@, WrapKind::Unknown))
            } else {
                Result::Ok(
                    (
                        "("@ + joined(wrapped_values(vals@, 0), " + "@) + ")"@,
                        WrapKind::Wrapped,
                    ),
                )
            },
            Expr::MakeList { values: vs } => if vs.len() == 0 {
                Result::Ok(("0"@, WrapKind::Unknown))
            } else {
                match exprs_texts(stage, vs@, 0, ArgStyle::Wrapped) {
                    Result::Err(e) => Result::Err(e),
                    Result::Ok(parts) => Result::Ok(
                        ("("@ + joined(parts, " + "@) + ")"@, WrapKind::Wrapped),
                    ),
                }
            },
            other => un1(lower_expr(stage, other), "sum("@, true, ")"@, WrapKind::Unknown),
        },
        Expr::Mul { values } => match *values {
            Expr::Value(Value::List(vals)) => if vals.len() == 0 {
                Result::Ok(("1"@, WrapKind::Unknown))
            } else {
                Result::Ok(
                    (
                        "("@ + joined(wrapped_values(vals@, 0), " * "@) + ")"@,
                        WrapKind::Wrapped,
                    ),
                )
            },
            Expr::MakeList { values: vs } => if vs.len() == 0 {
                Result::Ok(("1"@, WrapKind::Unknown))
            } else {
                match exprs_texts(stage, vs@, 0, ArgStyle::Wrapped) {
                    Result::Err(e) => Result::Err(e),
                    Result::Ok(parts) => Result::Ok(
                        ("("@ + joined(parts, " * "@) + ")"@, WrapKind::Wrapped),
                    ),
                }
            },
            other => un1(
                lower_expr(stage, other),
                "snap.prod("@,
                false,
                ")"@,
                WrapKind::Wrapped,
            ),
        },
        Expr::Min { values } => un1(
            lower_expr(stage, *values),
            "min("@,
            true,
            ")"@,
            WrapKind::Wrapped,
        ),
        Expr::Max { values } => un1(
            lower_expr(stage, *values),
            "max("@,
            true,
            ")"@,
            WrapKind::Wrapped,
        ),
        Expr::Sub { left, right } => bin2(
            lower_expr(stage, *left),
            lower_expr(stage, *right),
            "("@,
            true,
            " - "@,
            true,
            ")"@,
            WrapKind::Wrapped,
        ),
        Expr::Div { left, right } => bin2(
            lower_expr(stage, *left),
            lower_expr(stage, *right),
            "("@,
            true,
            " / "@,
            true,
            ")"@,
            WrapKind::Wrapped,
        ),
        Expr::Mod { left, right } => bin2(
            lower_expr(stage, *left),
            lower_expr(stage, *right),
            "("@,
            true,
            " % "@,
            true,
            ")"@,
            WrapKind::Wrapped,
        ),
        Expr::Pow { base, power } => bin2(
            lower_expr(stage, *base),
            lower_expr(stage, *power),
            "("@,
            true,
            " ** "@,
            true,
            ")"@,
            WrapKind::Wrapped,
        ),
        Expr::Log { value, base } => bin2(
            lower_expr(stage, *value),
            lower_expr(stage, *base),
            "snap.log("@,
            false,
            ", "@,
            false,
            ")"@,
            WrapKind::Wrapped,
        ),
        Expr::Sqrt { value } => un1(
            lower_expr(stage, *value),
            "snap.sqrt("@,
            false,
            ")"@,
            WrapKind::Wrapped,
        ),
        Expr::Round { value } => un1(
            lower_expr(stage, *value),
            "round("@,
            true,
            ")"@,
            WrapKind::Wrapped,
        ),
        Expr::Floor { value } => un1(
            lower_expr(stage, *value),
            "math.floor("@,
            true,
            ")"@,
            WrapKind::Wrapped,
        ),
        Expr::Ceil { value } => un1(
            lower_expr(stage, *value),
            "math.ceil("@,
            true,
            ")"@,
            WrapKind::Wrapped,
        ),
        Expr::Sin { value } => un1(
            lower_expr(stage, *value),
            "snap.sin("@,
            false,
            ")"@,
            WrapKind::Wrapped,
        ),
        Expr::Cos { value } => un1(
            lower_expr(stage, *value),
            "snap.cos("@,
            false,
            ")"@,
            WrapKind::Wrapped,
        ),
        Expr::Tan { value } => un1(
            lower_expr(stage, *value),
            "snap.tan("@,
            false,
            ")"@,
            WrapKind::Wrapped,
        ),
        Expr::Asin { value } => un1(
            lower_expr(stage, *value),
            "snap.asin("@,
            false,
            ")"@,
            WrapKind::Wrapped,
        ),
        Expr::Acos { value } => un1(
            lower_expr(stage, *value),
            "snap.acos("@,
            false,
            ")"@,
            WrapKind::Wrapped,
        ),
        Expr::Atan { value } => un1(
            lower_expr(stage, *value),
            "snap.atan("@,
            false,
            ")"@,
            WrapKind::Wrapped,
        ),
        Expr::And { left, right } => bin2(
            lower_expr(stage, *left),
            lower_expr(stage, *right),
            "("@,
            true,
            " and "@,
            true,
            ")"@,
            WrapKind::Wrapped,
        ),
        Expr::Or { left, right } => bin2(
            lower_expr(stage, *left),
            lower_expr(stage, *right),
            "("@,
            true,
            " or "@,
            true,
            ")"@,
            WrapKind::Wrapped,
        ),
        Expr::Conditional { condition, then, otherwise } => match lower_expr(stage, *then) {
            Result::Err(e) => Result::Err(e),
            Result::Ok(t) => match lower_expr(stage, *otherwise) {
                Result::Err(e) => Result::Err(e),
                Result::Ok(o) => match lower_expr(stage, *condition) {
                    Result::Err(e) => Result::Err(e),
                    Result::Ok(c) => Result::Ok(
                        (
                            "("@ + t.0 + " if "@ + wrapped(c) + " else "@ + o.0 + ")"@,
                            if t.1 == o.1 {
                                t.1
                            } else {
                                WrapKind::Unknown
                            },
                        ),
                    ),
                },
            },
        },
        Expr::Identical { left, right } => bin2(
            lower_expr(stage, *left),
            lower_expr(stage, *right),
            "snap.identical("@,
            false,
            ", "@,
            false,
            ")"@,
            WrapKind::Wrapped,
        ),
        Expr::Less { left, right } => bin2(
            lower_expr(stage, *left),
            lower_expr(stage, *right),
            "("@,
            true,
            " < "@,
            true,
            ")"@,
            WrapKind::Wrapped,
        ),
        Expr::LessEq { left, right } => bin2(
            lower_expr(stage, *left),
            lower_expr(stage, *right),
            "("@,
            true,
            " <= "@,
            true,
            ")"@,
            WrapKind::Wrapped,
        ),
        Expr::Eq { left, right } => bin2(
            lower_expr(stage, *left),
            lower_expr(stage, *right),
            "("@,
            true,
            " == "@,
            true,
            ")"@,
            WrapKind::Wrapped,
        ),
        Expr::Neq { left, right } => bin2(
            lower_expr(stage, *left),
            lower_expr(stage, *right),
            "("@,
            true,
            " != "@,
            true,
            ")"@,
            WrapKind::Wrapped,
        ),
        Expr::Greater { left, right } => bin2(
            lower_expr(stage, *left),
            lower_expr(stage, *right),
            "("@,
            true,
            " > "@,
            true,
            ")"@,
            WrapKind::Wrapped,
        ),
        Expr::GreaterEq { left, right } => bin2(
            lower_expr(stage, *left),
            lower_expr(stage, *right),
            "("@,
            true,
            " >= "@,
            true,
            ")"@,
            WrapKind::Wrapped,
        ),
        Expr::Random { a, b } => bin2(
            lower_expr(stage, *a),
            lower_expr(stage, *b),
            "snap.rand("@,
            false,
            ", "@,
            false,
            ")"@,
            WrapKind::Wrapped,
        ),
        Expr::Range { start, stop } => bin2(
            lower_expr(stage, *start),
            lower_expr(stage, *stop),
            "snap.srange("@,
            false,
            ", "@,
            false,
            ")"@,
            WrapKind::Wrapped,
        ),
        Expr::CostumeNumber => Result::Ok(
            ("(self.costumes.index(self.costume, -1) + 1)"@, WrapKind::Unknown),
        ),
        Expr::TextSplit { text, mode } => match mode {
            TextSplitMode::Custom(x) => bin2(
                lower_expr(stage, *text),
                lower_expr(stage, *x),
                "snap.split("@,
                false,
                ", "@,
                false,
                ")"@,
                WrapKind::Wrapped,
            ),
            TextSplitMode::LF => un1(
                lower_expr(stage, *text),
                "snap.split("@,
                false,
                ", '\\n')"@,
                WrapKind::Wrapped,
            ),
            TextSplitMode::CR => un1(
                lower_expr(stage, *text),
                "snap.split("@,
                false,
                ", '\\r')"@,
                WrapKind::Wrapped,
            ),
            TextSplitMode::Tab => un1(
                lower_expr(stage, *text),
                "snap.split("@,
                false,
                ", '\\t')"@,
                WrapKind::Wrapped,
            ),
            TextSplitMode::Letter => un1(
                lower_expr(stage, *text),
                "snap.split("@,
                false,
                ", '')"@,
                WrapKind::Wrapped,
            ),
            TextSplitMode::Word => un1(
                lower_expr(stage, *text),
                "snap.split_words("@,
                false,
                ")"@,
                WrapKind::Wrapped,
            ),
            TextSplitMode::Csv => un1(
                lower_expr(stage, *text),
                "snap.split_csv("@,
                false,
                ")"@,
                WrapKind::Wrapped,
            ),
            TextSplitMode::Json => un1(
                lower_expr(stage, *text),
                "snap.split_json("@,
                false,
                ")"@,
                WrapKind::Wrapped,
            ),
        },
        Expr::TypeQuery { value, ty } => match ty {
            ValueType::Bool => un1(
                lower_expr(stage, *value),
                "snap.is_bool("@,
                false,
                ")"@,
                WrapKind::Wrapped,
            ),
            ValueType::Text => un1(
                lower_expr(stage, *value),
                "snap.is_text("@,
                false,
                ")"@,
                WrapKind::Wrapped,
            ),
            ValueType::Number => un1(
                lower_expr(stage, *value),
                "snap.is_number("@,
                false,
                ")"@,
                WrapKind::Wrapped,
            ),
            ValueType::List => un1(
                lower_expr(stage, *value),
                "snap.is_list("@,
                false,
                ")"@,
                WrapKind::Wrapped,
            ),
            ValueType::Sprite => un1(
                lower_expr(stage, *value),
                "snap.is_sprite("@,
                false,
                ")"@,
                WrapKind::Wrapped,
            ),
            ValueType::Costume => un1(
                lower_expr(stage, *value),
                "snap.is_costume("@,
                false,
                ")"@,
                WrapKind::Wrapped,
            ),
            ValueType::Sound => un1(
                lower_expr(stage, *value),
                "snap.is_sound("@,
                false,
                ")"@,
                WrapKind::Wrapped,
            ),
            ValueType::Command => Result::Err(TranslateError::RingTypeQuery),
            ValueType::Reporter => Result::Err(TranslateError::RingTypeQuery),
            ValueType::Predicate => Result::Err(TranslateError::RingTypeQuery),
        },
        Expr::ListCat { lists } => match *lists {
            Expr::Value(Value::List(vals)) => Result::Ok(
                ("["@ + joined(starred_values(vals@, 0), ", "@) + "]"@, WrapKind::Unknown),
            ),
            Expr::MakeList { values } => match exprs_texts(
                stage,
                values@,
                0,
                ArgStyle::Starred,
            ) {
                Result::Err(e) => Result::Err(e),
                Result::Ok(parts) => Result::Ok(
                    ("["@ + joined(parts, ", "@) + "]"@, WrapKind::Unknown),
                ),
            },
            other => un1(
                lower_expr(stage, other),
                "[y for x in "@,
                true,
                " for y in x]"@,
                WrapKind::Unknown,
            ),
        },
        Expr::StrCat { values } => match *values {
            Expr::Value(Value::List(vals)) => if vals.len() == 0 {
                Result::Ok(("''"@, WrapKind::Unknown))
            } else {
                Result::Ok(
                    (
                        "("@ + joined(str_values(vals@, 0), " + "@) + ")"@,
                        WrapKind::Unknown,
                    ),
                )
            },
            Expr::MakeList { values: vs } => if vs.len() == 0 {
                Result::Ok(("''"@, WrapKind::Unknown))
            } else {
                match exprs_texts(stage, vs@, 0, ArgStyle::Stringified) {
                    Result::Err(e) => Result::Err(e),
                    Result::Ok(parts) => Result::Ok(
                        ("("@ + joined(parts, " + "@) + ")"@, WrapKind::Unknown),
                    ),
                }
            },
            other => un1(
                lower_expr(stage, other),
                "''.join(str(x) for x in "@,
                true,
                ")"@,
                WrapKind::Unknown,
            ),
        },
        Expr::UnicodeToChar { value } => un1(
            lower_expr(stage, *value),
            "snap.get_chr("@,
            false,
            ")"@,
            WrapKind::Wrapped,
        ),
        Expr::CharToUnicode { value } => un1(
            lower_expr(stage, *value),
            "snap.get_ord("@,
            false,
            ")"@,
            WrapKind::Wrapped,
        ),
        Expr::CallRpc { service, rpc, args } => match rpc_text(stage, service@, rpc@, args@) {
            Result::Err(e) => Result::Err(e),
            Result::Ok(t) => Result::Ok((t, WrapKind::Unknown)),
        },
        Expr::CallFn { function, args, upvars } => match fn_call_text(
            stage,
            function,
            args@,
            upvars@,
        ) {
            Result::Err(e) => Result::Err(e),
            Result::Ok(t) => Result::Ok((t, WrapKind::Wrapped)),
        },
        Expr::CallClosure { new_entity, closure, args } => if new_entity is Some {
            Result::Err(TranslateError::TellAskClosure)
        } else {
            match exprs_texts(stage, args@, 0, ArgStyle::Wrapped) {
                Result::Err(e) => Result::Err(e),
                Result::Ok(parts) => match lower_expr(stage, *closure) {
                    Result::Err(e) => Result::Err(e),
                    Result::Ok(c) => Result::Ok(
                        (c.0 + "("@ + joined(parts, ", "@) + ")"@, WrapKind::Wrapped),
                    ),
                },
            }
        },
        Expr::XPos => Result::Ok(("self.x_pos"@, WrapKind::Unknown)),
        Expr::YPos => Result::Ok(("self.y_pos"@, WrapKind::Unknown)),
        Expr::Heading => Result::Ok(("self.heading"@, WrapKind::Unknown)),
        Expr::Answer => Result::Ok((stage + ".last_answer"@, WrapKind::Wrapped)),
        Expr::MouseX => Result::Ok((stage + ".mouse_pos[0]"@, WrapKind::Unknown)),
        Expr::MouseY => Result::Ok((stage + ".mouse_pos[1]"@, WrapKind::Unknown)),
        Expr::StageWidth => Result::Ok((stage + ".width"@, WrapKind::Unknown)),
        Expr::StageHeight => Result::Ok((stage + ".height"@, WrapKind::Unknown)),
        Expr::Latitude => Result::Ok((stage + ".gps_location[0]"@, WrapKind::Unknown)),
        Expr::Longitude => Result::Ok((stage + ".gps_location[1]"@, WrapKind::Unknown)),
        Expr::KeyDown { key } => un1(
            lower_expr(stage, *key),
            stage + ".is_key_down("@,
            false,
            ")"@,
            WrapKind::Wrapped,
        ),
        Expr::PenDown => Result::Ok(("self.drawing"@, WrapKind::Wrapped)),
        Expr::Size => Result::Ok(("(self.scale * 100)"@, WrapKind::Wrapped)),
        Expr::IsVisible => Result::Ok(("self.visible"@, WrapKind::Wrapped)),
        Expr::RpcError => Result::Ok(("(get_error() or '')"@, WrapKind::Unknown)),
        Expr::Clone { target } => un1(
            lower_expr(stage, *target),
            ""@,
            false,
            ".clone()"@,
            WrapKind::Wrapped,
        ),
        Expr::Timer => Result::Err(TranslateError::UnsupportedExpr(Box::new(Expr::Timer))),
        Expr::Message => Result::Err(TranslateError::UnsupportedExpr(Box::new(Expr::Message))),
        Expr::IsTouchingMouse => Result::Err(
            TranslateError::UnsupportedExpr(Box::new(Expr::IsTouchingMouse)),
        ),
        Expr::IsTouchingEdge => Result::Err(
            TranslateError::UnsupportedExpr(Box::new(Expr::IsTouchingEdge)),
        ),
        Expr::IsTouchingDrawings => Result::Err(
            TranslateError::UnsupportedExpr(Box::new(Expr::IsTouchingDrawings)),
        ),
        Expr::CostumeList => Result::Err(
            TranslateError::UnsupportedExpr(Box::new(Expr::CostumeList)),
        ),
        Expr::SoundList => Result::Err(
            TranslateError::UnsupportedExpr(Box::new(Expr::SoundList)),
        ),
        Expr::SoundDuration { sound } => Result::Err(
            TranslateError::UnsupportedExpr(Box::new(Expr::SoundDuration { sound })),
        ),
    }
}

} // verus!
