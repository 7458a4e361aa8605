//! The statement lowerer: statement sequences become indented blocks of
//! target text, one or more emitted lines per statement, each line carrying
//! the statement's comment where the original block had one.

use vstd::prelude::*;

use crate::ast::{Expr, Hat, HatKind, Stmt, StmtKind, TranslateError, Value, VariableDef,
    VariableRef, WrapKind};
use crate::lower::{bin2, expr_wf, exprs_texts, exprs_wf, fn_call_text, kwargs_text, lower_expr,
    lower_value, lview, pairs_wf, rpc_text, stmt_wf, stmts_wf, sview, un1, value_ok, var_text,
    wrapped};
use crate::text::{comment_text, dec_of, escaped, hex2_of, indented, joined, opt_view};

verus! {

/// One emitted line from a lowered piece of text and a rendered comment.
pub open spec fn as_line(
    r: Result<(Seq<char>, WrapKind), TranslateError>,
    cm: Seq<char>,
) -> Result<Seq<Seq<char>>, TranslateError> {
    match r {
        Result::Err(e) => Result::Err(e),
        Result::Ok(p) => Result::Ok(seq![p.0 + cm]),
    }
}

/// The `name = snap.wrap(0)` lines of a local-variable declaration.
pub open spec fn decl_lines(vars: Seq<VariableDef>, i: int) -> Seq<Seq<char>>
    decreases vars.len() - i,
{
    if i < 0 || i >= vars.len() {
        Seq::empty()
    } else {
        seq![vars[i].trans_name@ + " = snap.wrap(0)"@] + decl_lines(vars, i + 1)
    }
}

/// The lowering of one statement to its emitted lines, or the error its
/// variant calls for. Compound statements indent their bodies four spaces
/// under the header line, which carries the comment.
pub open spec fn lower_stmt(stage: Seq<char>, s: Stmt) -> Result<Seq<Seq<char>>, TranslateError>
    decreases s, 1int,
{
    match s.kind {
        StmtKind::DeclareLocals { .. } | StmtKind::Assign { .. } | StmtKind::AddAssign { .. } | StmtKind::ListAssign { .. } | StmtKind::ListAssignLast { .. } | StmtKind::ListAssignRandom { .. } | StmtKind::ListInsert { .. } | StmtKind::ListInsertLast { .. } | StmtKind::ListInsertRandom { .. } | StmtKind::ListRemoveLast { .. } | StmtKind::ListRemove { .. } | StmtKind::ListRemoveAll { .. } | StmtKind::Throw { .. } => lower_stmt_s1(stage, s),
        StmtKind::Warp { .. } | StmtKind::If { .. } | StmtKind::IfElse { .. } | StmtKind::TryCatch { .. } => lower_stmt_s2(stage, s),
        StmtKind::InfLoop { .. } | StmtKind::ForLoop { .. } | StmtKind::ForeachLoop { .. } | StmtKind::Repeat { .. } | StmtKind::UntilLoop { .. } => lower_stmt_s5(stage, s),
        StmtKind::SetCostume { .. } | StmtKind::NextCostume | StmtKind::SetX { .. } | StmtKind::SetY { .. } | StmtKind::ChangeX { .. } | StmtKind::ChangeY { .. } | StmtKind::Goto { .. } | StmtKind::GotoXY { .. } | StmtKind::SendLocalMessage { .. } | StmtKind::SendNetworkMessage { .. } | StmtKind::Say { .. } | StmtKind::Think { .. } | StmtKind::CallRpc { .. } | StmtKind::CallFn { .. } | StmtKind::CallClosure { .. } => lower_stmt_s3(stage, s),
        StmtKind::ChangePenSize { .. } | StmtKind::SetPenSize { .. } | StmtKind::SetVisible { .. } | StmtKind::WaitUntil { .. } | StmtKind::BounceOffEdge | StmtKind::Sleep { .. } | StmtKind::Forward { .. } | StmtKind::TurnRight { .. } | StmtKind::TurnLeft { .. } | StmtKind::SetHeading { .. } | StmtKind::Return { .. } | StmtKind::Stamp | StmtKind::Write { .. } | StmtKind::SetPenDown { .. } | StmtKind::PenClear | StmtKind::SetPenColor { .. } | StmtKind::ChangeSize { .. } | StmtKind::SetSize { .. } | StmtKind::Clone { .. } | StmtKind::Ask { .. } | StmtKind::ShowVar { .. } | StmtKind::HideVar { .. } | StmtKind::PlaySound { .. } | StmtKind::StopSounds | StmtKind::ResetTimer | StmtKind::DeleteClone | StmtKind::UnknownBlock { .. } => lower_stmt_s4(stage, s),
    }
}

/// One group of the statement lowering rules.
#[verifier::rlimit(100)]
pub open spec fn lower_stmt_s1(stage: Seq<char>, s: Stmt) -> Result<
    Seq<Seq<char>>,
    TranslateError,
>
    decreases s, 0int,
{
    let cm = comment_text(opt_view(s.comment));
    match s.kind {
        StmtKind::DeclareLocals { vars } => Result::Ok(
            if vars.len() == 0 {
                Seq::empty()
            } else {
                seq![vars[0].trans_name@ + " = snap.wrap(0)"@ + cm] + decl_lines(vars@, 1)
            },
        ),
        StmtKind::Assign { var, value } => as_line(
            un1(
                lower_expr(stage, *value),
                var_text(var) + " = "@,
                true,
                ""@,
                WrapKind::Unknown,
            ),
            cm,
        ),
        StmtKind::AddAssign { var, value } => as_line(
            un1(
                lower_expr(stage, *value),
                var_text(var) + " += "@,
                true,
                ""@,
                WrapKind::Unknown,
            ),
            cm,
        ),
        StmtKind::ListAssign { list, index, value } => match bin2(
            lower_expr(stage, *list),
            lower_expr(stage, *index),
            ""@,
            true,
            "["@,
            true,
            " - snap.wrap(1)] = "@,
            WrapKind::Unknown,
        ) {
            Result::Err(e) => Result::Err(e),
            Result::Ok(x) => as_line(
                un1(lower_expr(stage, *value), x.0, false, ""@, WrapKind::Unknown),
                cm,
            ),
        },
        StmtKind::ListAssignLast { list, value } => as_line(
            bin2(
                lower_expr(stage, *list),
                lower_expr(stage, *value),
                ""@,
                true,
                ".last = "@,
                false,
                ""@,
                WrapKind::Unknown,
            ),
            cm,
        ),
        StmtKind::ListAssignRandom { list, value } => as_line(
            bin2(
                lower_expr(stage, *list),
                lower_expr(stage, *value),
                ""@,
                true,
                ".rand = "@,
                false,
                ""@,
                WrapKind::Unknown,
            ),
            cm,
        ),
        StmtKind::ListInsert { list, index, value } => match bin2(
            lower_expr(stage, *list),
            lower_expr(stage, *index),
            ""@,
            true,
            ".insert("@,
            false,
            ", "@,
            WrapKind::Unknown,
        ) {
            Result::Err(e) => Result::Err(e),
            Result::Ok(x) => as_line(
                un1(lower_expr(stage, *value), x.0, false, ")"@, WrapKind::Unknown),
                cm,
            ),
        },
        StmtKind::ListInsertLast { list, value } => as_line(
            bin2(
                lower_expr(stage, *list),
                lower_expr(stage, *value),
                ""@,
                true,
                ".append("@,
                false,
                ")"@,
                WrapKind::Unknown,
            ),
            cm,
        ),
        StmtKind::ListInsertRandom { list, value } => as_line(
            bin2(
                lower_expr(stage, *list),
                lower_expr(stage, *value),
                ""@,
                true,
                ".insert_rand("@,
                false,
                ")"@,
                WrapKind::Unknown,
            ),
            cm,
        ),
        StmtKind::ListRemoveLast { list } => as_line(
            un1(lower_expr(stage, *list), ""@, true, ".pop()"@, WrapKind::Unknown),
            cm,
        ),
        StmtKind::ListRemove { list, index } => as_line(
            bin2(
                lower_expr(stage, *list),
                lower_expr(stage, *index),
                "del "@,
                true,
                "["@,
                true,
                " - snap.wrap(1)]"@,
                WrapKind::Unknown,
            ),
            cm,
        ),
        StmtKind::ListRemoveAll { list } => as_line(
            un1(lower_expr(stage, *list), ""@, true, ".clear()"@, WrapKind::Unknown),
            cm,
        ),
        StmtKind::Throw { error } => as_line(
            un1(
                lower_expr(stage, *error),
                "raise RuntimeError(str("@,
                true,
                "))"@,
                WrapKind::Unknown,
            ),
            cm,
        ),
        _ => Result::Err(TranslateError::NoRoles),
    }
}

/// One group of the statement lowering rules.
#[verifier::rlimit(100)]
pub open spec fn lower_stmt_s2(stage: Seq<char>, s: Stmt) -> Result<
    Seq<Seq<char>>,
    TranslateError,
>
    decreases s, 0int,
{
    let cm = comment_text(opt_view(s.comment));
    match s.kind {
        StmtKind::Warp { stmts } => match stmts_code(stage, stmts@) {
            Result::Err(e) => Result::Err(e),
            Result::Ok(code) => Result::Ok(
                seq!["with NoYield():"@ + cm + "\n"@ + indented(code)],
            ),
        },
        StmtKind::If { condition, then } => match lower_expr(stage, *condition) {
            Result::Err(e) => Result::Err(e),
            Result::Ok(c) => match stmts_code(stage, then@) {
                Result::Err(e) => Result::Err(e),
                Result::Ok(code) => Result::Ok(
                    seq!["if "@ + wrapped(c) + ":"@ + cm + "\n"@ + indented(code)],
                ),
            },
        },
        StmtKind::IfElse { condition, then, otherwise } => match lower_expr(stage, *condition) {
            Result::Err(e) => Result::Err(e),
            Result::Ok(c) => match stmts_code(stage, then@) {
                Result::Err(e) => Result::Err(e),
                Result::Ok(then_code) => match stmts_code(stage, otherwise@) {
                    Result::Err(e) => Result::Err(e),
                    Result::Ok(otherwise_code) => if otherwise.len() == 1 && (
                    otherwise[0].kind matches StmtKind::If { .. } || otherwise[0].kind
                        matches StmtKind::IfElse { .. }) {
                        Result::Ok(
                            seq!["if "@ + wrapped(c) + ":"@ + cm + "\n"@ + indented(then_code)
                                + "\nel"@ + otherwise_code],
                        )
                    } else {
                        Result::Ok(
                            seq!["if "@ + wrapped(c) + ":"@ + cm + "\n"@ + indented(then_code)
                                + "\nelse:\n"@ + indented(otherwise_code)],
                        )
                    },
                },
            },
        },
        StmtKind::TryCatch { code, var, handler } => match stmts_code(stage, code@) {
            Result::Err(e) => Result::Err(e),
            Result::Ok(code_text) => match stmts_code(stage, handler@) {
                Result::Err(e) => Result::Err(e),
                Result::Ok(handler_text) => Result::Ok(
                    seq!["try:"@ + cm + "\n"@ + indented(code_text) + "\nexcept Exception as "@
                        + var.trans_name@ + ":\n"@ + indented(handler_text)],
                ),
            },
        },
        _ => Result::Err(TranslateError::NoRoles),
    }
}

/// One group of the statement lowering rules.
#[verifier::rlimit(100)]
pub open spec fn lower_stmt_s5(stage: Seq<char>, s: Stmt) -> Result<
    Seq<Seq<char>>,
    TranslateError,
>
    decreases s, 0int,
{
    let cm = comment_text(opt_view(s.comment));
    match s.kind {
        StmtKind::InfLoop { stmts } => match stmts_code(stage, stmts@) {
            Result::Err(e) => Result::Err(e),
            Result::Ok(code) => Result::Ok(
                seq!["while True:"@ + cm + "\n"@ + indented(code)],
            ),
        },
        StmtKind::ForLoop { var, start, stop, stmts } => match lower_expr(stage, *start) {
            Result::Err(e) => Result::Err(e),
            Result::Ok(a) => match lower_expr(stage, *stop) {
                Result::Err(e) => Result::Err(e),
                Result::Ok(b) => match stmts_code(stage, stmts@) {
                    Result::Err(e) => Result::Err(e),
                    Result::Ok(code) => Result::Ok(
                        seq!["for "@ + var.trans_name@ + " in snap.sxrange("@ + a.0 + ", "@ + b.0
                            + "):"@ + cm + "\n"@ + indented(code)],
                    ),
                },
            },
        },
        StmtKind::ForeachLoop { var, items, stmts } => match lower_expr(stage, *items) {
            Result::Err(e) => Result::Err(e),
            Result::Ok(it) => match stmts_code(stage, stmts@) {
                Result::Err(e) => Result::Err(e),
                Result::Ok(code) => Result::Ok(
                    seq!["for "@ + var.trans_name@ + " in "@ + wrapped(it) + ":"@ + cm + "\n"@
                        + indented(code)],
                ),
            },
        },
        StmtKind::Repeat { times, stmts } => match lower_expr(stage, *times) {
            Result::Err(e) => Result::Err(e),
            Result::Ok(t) => match stmts_code(stage, stmts@) {
                Result::Err(e) => Result::Err(e),
                Result::Ok(code) => Result::Ok(
                    seq!["for _ in range(+"@ + wrapped(t) + "):"@ + cm + "\n"@ + indented(code)],
                ),
            },
        },
        StmtKind::UntilLoop { condition, stmts } => match lower_expr(stage, *condition) {
            Result::Err(e) => Result::Err(e),
            Result::Ok(c) => match stmts_code(stage, stmts@) {
                Result::Err(e) => Result::Err(e),
                Result::Ok(code) => Result::Ok(
                    seq!["while not "@ + wrapped(c) + ":"@ + cm + "\n"@ + indented(code)],
                ),
            },
        },
        _ => Result::Err(TranslateError::NoRoles),
    }
}

/// One group of the statement lowering rules.
#[verifier::rlimit(100)]
pub open spec fn lower_stmt_s3(stage: Seq<char>, s: Stmt) -> Result<
    Seq<Seq<char>>,
    TranslateError,
>
    decreases s, 0int,
{
    let cm = comment_text(opt_view(s.comment));
    match s.kind {
        StmtKind::SetCostume { costume } => as_line(
            un1(
                lower_expr(stage, *costume),
                "self.costume = "@,
                false,
                ""@,
                WrapKind::Unknown,
            ),
            cm,
        ),
        StmtKind::NextCostume => Result::Ok(
            seq![
                "self.costume = (self.costumes.index(self.costume, -1) + 1) % len(self.costumes)"@
                    + cm
            ],
        ),
        StmtKind::SetX { value } => as_line(
            un1(lower_expr(stage, *value), "self.x_pos = "@, true, ""@, WrapKind::Unknown),
            cm,
        ),
        StmtKind::SetY { value } => as_line(
            un1(lower_expr(stage, *value), "self.y_pos = "@, true, ""@, WrapKind::Unknown),
            cm,
        ),
        StmtKind::ChangeX { delta } => as_line(
            un1(lower_expr(stage, *delta), "self.x_pos += "@, true, ""@, WrapKind::Unknown),
            cm,
        ),
        StmtKind::ChangeY { delta } => as_line(
            un1(lower_expr(stage, *delta), "self.y_pos += "@, true, ""@, WrapKind::Unknown),
            cm,
        ),
        StmtKind::Goto { target } => match *target {
            Expr::Value(Value::List(vals)) => if vals.len() == 2 {
                Result::Ok(
                    seq!["self.pos = ("@ + lower_value(vals[0]).0 + ", "@ + lower_value(
                        vals[1],
                    ).0 + ")"@ + cm],
                )
            } else {
                as_line(
                    un1(
                        lower_expr(stage, Expr::Value(Value::List(vals))),
                        "self.pos = "@,
                        false,
                        ""@,
                        WrapKind::Unknown,
                    ),
                    cm,
                )
            },
            other => as_line(
                un1(lower_expr(stage, other), "self.pos = "@, false, ""@, WrapKind::Unknown),
                cm,
            ),
        },
        StmtKind::GotoXY { x, y } => as_line(
            bin2(
                lower_expr(stage, *x),
                lower_expr(stage, *y),
                "self.pos = ("@,
                true,
                ", "@,
                true,
                ")"@,
                WrapKind::Unknown,
            ),
            cm,
        ),
        StmtKind::SendLocalMessage { target: _, msg_type, wait: _ } => match *msg_type {
            Expr::Value(Value::String(mt)) => Result::Ok(
                seq!["nb.send_message('local::"@ + escaped(mt@) + "')"@ + cm],
            ),
            other => as_line(
                un1(
                    lower_expr(stage, other),
                    "nb.send_message('local::' + str("@,
                    false,
                    "))"@,
                    WrapKind::Unknown,
                ),
                cm,
            ),
        },
        StmtKind::SendNetworkMessage { target, msg_type, values } => match kwargs_text(
            stage,
            values@,
            ", "@,
            false,
        ) {
            Result::Err(e) => Result::Err(e),
            Result::Ok(kw) => match lower_expr(stage, *target) {
                Result::Err(e) => Result::Err(e),
                Result::Ok(t) => Result::Ok(
                    seq!["nb.send_message('"@ + escaped(msg_type@) + "', "@ + t.0 + kw + ")"@
                        + cm],
                ),
            },
        },
        StmtKind::Say { content, duration } => match duration {
            Option::Some(d) => as_line(
                bin2(
                    lower_expr(stage, *content),
                    lower_expr(stage, *d),
                    "self.say("@,
                    false,
                    ", duration = "@,
                    false,
                    ")"@,
                    WrapKind::Unknown,
                ),
                cm,
            ),
            Option::None => as_line(
                un1(lower_expr(stage, *content), "self.say("@, false, ")"@, WrapKind::Unknown),
                cm,
            ),
        },
        StmtKind::Think { content, duration } => match duration {
            Option::Some(d) => as_line(
                bin2(
                    lower_expr(stage, *content),
                    lower_expr(stage, *d),
                    "self.say("@,
                    false,
                    ", duration = "@,
                    false,
                    ")"@,
                    WrapKind::Unknown,
                ),
                cm,
            ),
            Option::None => as_line(
                un1(lower_expr(stage, *content), "self.say("@, false, ")"@, WrapKind::Unknown),
                cm,
            ),
        },
        StmtKind::CallRpc { service, rpc, args } => match rpc_text(stage, service@, rpc@, args@) {
            Result::Err(e) => Result::Err(e),
            Result::Ok(t) => Result::Ok(seq![t + cm]),
        },
        StmtKind::CallFn { function, args, upvars } => match fn_call_text(
            stage,
            function,
            args@,
            upvars@,
        ) {
            Result::Err(e) => Result::Err(e),
            Result::Ok(t) => Result::Ok(seq![t + cm]),
        },
        StmtKind::CallClosure { new_entity, closure, args } => if new_entity is Some {
            Result::Err(TranslateError::TellAskClosure)
        } else {
            match exprs_texts(stage, args@, 0, crate::lower::ArgStyle::Wrapped) {
                Result::Err(e) => Result::Err(e),
                Result::Ok(parts) => match lower_expr(stage, *closure) {
                    Result::Err(e) => Result::Err(e),
                    Result::Ok(c) => Result::Ok(
                        seq![c.0 + "("@ + joined(parts, ", "@) + ")"@ + cm],
                    ),
                },
            }
        },
        _ => Result::Err(TranslateError::NoRoles),
    }
}

/// One group of the statement lowering rules.
#[verifier::rlimit(100)]
pub open spec fn lower_stmt_s4(stage: Seq<char>, s: Stmt) -> Result<
    Seq<Seq<char>>,
    TranslateError,
>
    decreases s, 0int,
{
    let cm = comment_text(opt_view(s.comment));
    match s.kind {
        StmtKind::ChangePenSize { delta } => as_line(
            un1(
                lower_expr(stage, *delta),
                "self.pen_size += "@,
                true,
                ""@,
                WrapKind::Unknown,
            ),
            cm,
        ),
        StmtKind::SetPenSize { value } => as_line(
            un1(
                lower_expr(stage, *value),
                "self.pen_size = "@,
                true,
                ""@,
                WrapKind::Unknown,
            ),
            cm,
        ),
        StmtKind::SetVisible { value } => Result::Ok(
            seq!["self.visible = "@ + (if value {
                "True"@
            } else {
                "False"@
            }) + cm],
        ),
        StmtKind::WaitUntil { condition } => as_line(
            un1(
                lower_expr(stage, *condition),
                "while not "@,
                true,
                ":"@,
                WrapKind::Unknown,
            ),
            cm + "\n    time.sleep(0.05)"@,
        ),
        StmtKind::BounceOffEdge => Result::Ok(
            seq!["self.keep_on_stage(bounce = True)"@ + cm],
        ),
        StmtKind::Sleep { seconds } => as_line(
            un1(lower_expr(stage, *seconds), "time.sleep(+"@, true, ")"@, WrapKind::Unknown),
            cm,
        ),
        StmtKind::Forward { distance } => as_line(
            un1(lower_expr(stage, *distance), "self.forward("@, true, ")"@, WrapKind::Unknown),
            cm,
        ),
        StmtKind::TurnRight { angle } => as_line(
            un1(lower_expr(stage, *angle), "self.turn_right("@, true, ")"@, WrapKind::Unknown),
            cm,
        ),
        StmtKind::TurnLeft { angle } => as_line(
            un1(lower_expr(stage, *angle), "self.turn_left("@, true, ")"@, WrapKind::Unknown),
            cm,
        ),
        StmtKind::SetHeading { value } => as_line(
            un1(lower_expr(stage, *value), "self.heading = "@, true, ""@, WrapKind::Unknown),
            cm,
        ),
        StmtKind::Return { value } => as_line(
            un1(lower_expr(stage, *value), "return "@, true, ""@, WrapKind::Unknown),
            cm,
        ),
        StmtKind::Stamp => Result::Ok(seq!["self.stamp()"@ + cm]),
        StmtKind::Write { content, font_size } => as_line(
            bin2(
                lower_expr(stage, *content),
                lower_expr(stage, *font_size),
                "self.write("@,
                true,
                ", size = "@,
                true,
                ")"@,
                WrapKind::Unknown,
            ),
            cm,
        ),
        StmtKind::SetPenDown { value } => Result::Ok(
            seq!["self.drawing = "@ + (if value {
                "True"@
            } else {
                "False"@
            }) + cm],
        ),
        StmtKind::PenClear => Result::Ok(seq![stage + ".clear_drawings()"@ + cm]),
        StmtKind::SetPenColor { color } => Result::Ok(
            seq!["self.pen_color = '#"@ + hex2_of(color.0) + hex2_of(color.1) + hex2_of(color.2)
                + "'"@ + cm],
        ),
        StmtKind::ChangeSize { delta } => as_line(
            un1(
                lower_expr(stage, *delta),
                "self.scale += "@,
                true,
                " / 100"@,
                WrapKind::Unknown,
            ),
            cm,
        ),
        StmtKind::SetSize { value } => as_line(
            un1(
                lower_expr(stage, *value),
                "self.scale = "@,
                true,
                " / 100"@,
                WrapKind::Unknown,
            ),
            cm,
        ),
        StmtKind::Clone { target } => as_line(
            un1(lower_expr(stage, *target), ""@, false, ".clone()"@, WrapKind::Unknown),
            cm,
        ),
        StmtKind::Ask { prompt } => as_line(
            un1(
                lower_expr(stage, *prompt),
                stage + ".last_answer = snap.wrap(input("@,
                false,
                "))"@,
                WrapKind::Unknown,
            ),
            cm,
        ),
        StmtKind::ShowVar { var } => Result::Err(
            TranslateError::UnsupportedStmt(
                Box::new(Stmt { kind: StmtKind::ShowVar { var }, comment: s.comment }),
            ),
        ),
        StmtKind::HideVar { var } => Result::Err(
            TranslateError::UnsupportedStmt(
                Box::new(Stmt { kind: StmtKind::HideVar { var }, comment: s.comment }),
            ),
        ),
        StmtKind::PlaySound { sound, blocking } => Result::Err(
            TranslateError::UnsupportedStmt(
                Box::new(
                    Stmt { kind: StmtKind::PlaySound { sound, blocking }, comment: s.comment },
                ),
            ),
        ),
        StmtKind::StopSounds => Result::Err(
            TranslateError::UnsupportedStmt(
                Box::new(Stmt { kind: StmtKind::StopSounds, comment: s.comment }),
            ),
        ),
        StmtKind::ResetTimer => Result::Err(
            TranslateError::UnsupportedStmt(
                Box::new(Stmt { kind: StmtKind::ResetTimer, comment: s.comment }),
            ),
        ),
        StmtKind::DeleteClone => Result::Err(
            TranslateError::UnsupportedStmt(
                Box::new(Stmt { kind: StmtKind::DeleteClone, comment: s.comment }),
            ),
        ),
        StmtKind::UnknownBlock { name, args } => Result::Err(
            TranslateError::UnsupportedStmt(
                Box::new(
                    Stmt { kind: StmtKind::UnknownBlock { name, args }, comment: s.comment },
                ),
            ),
        ),
        _ => Result::Err(TranslateError::NoRoles),
    }
}

/// The emitted lines of the statements from index `i` on, concatenated.
pub open spec fn lower_stmts(stage: Seq<char>, stmts: Seq<Stmt>, i: int) -> Result<
    Seq<Seq<char>>,
    TranslateError,
>
    decreases stmts, stmts.len() - i,
{
    if i < 0 || i >= stmts.len() {
        Result::Ok(Seq::empty())
    } else {
        match lower_stmt(stage, stmts[i]) {
            Result::Err(e) => Result::Err(e),
            Result::Ok(ls) => match lower_stmts(stage, stmts, i + 1) {
                Result::Err(e) => Result::Err(e),
                Result::Ok(rest) => Result::Ok(ls + rest),
            },
        }
    }
}

/// The code block of a statement sequence: its lines joined with line
/// breaks, or the single line `pass` for an empty sequence.
pub open spec fn stmts_code(stage: Seq<char>, stmts: Seq<Stmt>) -> Result<
    Seq<char>,
    TranslateError,
>
    decreases stmts, stmts.len() + 1,
{
    if stmts.len() == 0 {
        Result::Ok("pass"@)
    } else {
        match lower_stmts(stage, stmts, 0) {
            Result::Err(e) => Result::Err(e),
            Result::Ok(lines) => Result::Ok(joined(lines, "\n"@)),
        }
    }
}

/// The field bindings prepended to a network-message handler's body, one
/// `name = snap.wrap(kwargs['name'])` line per declared field.
pub open spec fn hat_field_lines(fields: Seq<VariableRef>, i: int) -> Seq<char>
    decreases fields.len() - i,
{
    if i < 0 || i >= fields.len() {
        Seq::empty()
    } else {
        "    "@ + fields[i].trans_name@ + " = snap.wrap(kwargs['"@ + escaped(fields[i].name@)
            + "'])\n"@ + hat_field_lines(fields, i + 1)
    }
}

/// The lowering of an event binding to the decorated handler stub the
/// script body attaches to. `idx` is one more than the number of scripts
/// already emitted for the entity.
pub open spec fn lower_hat(stage: Seq<char>, h: Hat, idx: nat) -> Result<
    Seq<char>,
    TranslateError,
> {
    let cm = comment_text(opt_view(h.comment));
    let n = dec_of(idx);
    match h.kind {
        HatKind::OnFlag => Result::Ok(
            "@onstart()"@ + cm + "\ndef my_onstart_"@ + n + "(self):\n"@,
        ),
        HatKind::OnClone => Result::Ok(
            "@onstart(when = 'clone')"@ + cm + "\ndef my_onstart_"@ + n + "(self):\n"@,
        ),
        HatKind::OnKey { key } => Result::Ok(
            "@onkey('"@ + key@ + "')"@ + cm + "\ndef my_onkey_"@ + n + "(self):\n"@,
        ),
        HatKind::MouseDown => Result::Ok(
            "@onmouse('down')"@ + cm + "\ndef my_onmouse_"@ + n + "(self, x, y):\n"@,
        ),
        HatKind::MouseUp => Result::Ok(
            "@onmouse('up')"@ + cm + "\ndef my_onmouse_"@ + n + "(self, x, y):\n"@,
        ),
        HatKind::ScrollDown => Result::Ok(
            "@onmouse('scroll-down')"@ + cm + "\ndef my_onmouse_"@ + n + "(self, x, y):\n"@,
        ),
        HatKind::ScrollUp => Result::Ok(
            "@onmouse('scroll-up')"@ + cm + "\ndef my_onmouse_"@ + n + "(self, x, y):\n"@,
        ),
        HatKind::When { condition } => match lower_expr(stage, *condition) {
            Result::Err(e) => Result::Err(e),
            Result::Ok(c) => Result::Ok(
                "@onstart()"@ + cm + "\ndef my_onstart"@ + n
                    + "(self):\n    while True:\n        try:\n            time.sleep(0.05)\n            if "@
                    + wrapped(c)
                    + ":\n                self.my_oncondition"@ + n
                    + "()\n        except Exception as e:\n            import traceback, sys\n            print(traceback.format_exc(), file = sys.stderr)\ndef my_oncondition"@
                    + n + "(self):\n"@,
            ),
        },
        HatKind::LocalMessage { msg_type } => match msg_type {
            Option::Some(mt) => Result::Ok(
                "@nb.on_message('local::"@ + escaped(mt@) + "')"@ + cm + "\ndef my_on_message_"@
                    + n + "(self):\n"@,
            ),
            Option::None => Result::Err(TranslateError::AnyMessage),
        },
        HatKind::NetworkMessage { msg_type, fields } => Result::Ok(
            "@nb.on_message('"@ + escaped(msg_type@) + "')"@ + cm + "\ndef my_on_message_"@ + n
                + "(self, **kwargs):\n"@ + hat_field_lines(fields@, 0) + (if fields.len() > 0 {
                "\n"@
            } else {
                Seq::<char>::empty()
            }),
        ),
        HatKind::MouseEnter => Result::Err(
            TranslateError::UnsupportedHat(
                Box::new(Hat { kind: HatKind::MouseEnter, comment: h.comment }),
            ),
        ),
        HatKind::MouseLeave => Result::Err(
            TranslateError::UnsupportedHat(
                Box::new(Hat { kind: HatKind::MouseLeave, comment: h.comment }),
            ),
        ),
        HatKind::Dropped => Result::Err(
            TranslateError::UnsupportedHat(
                Box::new(Hat { kind: HatKind::Dropped, comment: h.comment }),
            ),
        ),
        HatKind::Stopped => Result::Err(
            TranslateError::UnsupportedHat(
                Box::new(Hat { kind: HatKind::Stopped, comment: h.comment }),
            ),
        ),
    }
}

} // verus!
verus! {

/// One emitted line built from a lowered piece and a comment.
fn eas_line(r: Result<(String, WrapKind), TranslateError>, cm: &str) -> (out: Result<
    Vec<String>,
    TranslateError,
>)
    ensures
        crate::expr::vres_view(out) == as_line(lview(r), cm@),
{
    match r {
        Result::Err(e) => Result::Err(e),
        Result::Ok(p) => {
            let line = crate::text::cat2(p.0.as_str(), cm);
            let v = vec![line];
            proof {
                assert(crate::text::views_of(v@) =~= seq![p.0@ + cm@]);
            }
            Result::Ok(v)
        },
    }
}

/// The code block of a statement sequence.
#[verifier::loop_isolation(false)]
pub fn stmts_code_exec(stage: &str, stmts: Vec<Stmt>) -> (r: Result<String, TranslateError>)
    requires
        stmts_wf(stmts@),
    ensures
        sview(r) == stmts_code(stage@, stmts@),
    decreases stmts, 3int,
{
    if stmts.len() == 0 {
        let res = String::from_str("pass");
        return Result::Ok(res);
    }
    let ghost gvec = stmts;
    let ghost gstmts = stmts@;
    let mut stmts = stmts;
    let mut lines: Vec<String> = Vec::new();
    let ghost mut i: int = 0;
    while stmts.len() > 0
        invariant
            0 <= i,
            i + stmts@.len() == gstmts.len(),
            stmts@ == gstmts.skip(i),
            (match lower_stmts(stage@, gstmts, i) {
                Result::Ok(rest) => lower_stmts(stage@, gstmts, 0) == Result::<
                    Seq<Seq<char>>,
                    TranslateError,
                >::Ok(crate::text::views_of(lines@) + rest),
                Result::Err(e) => lower_stmts(stage@, gstmts, 0) == Result::<
                    Seq<Seq<char>>,
                    TranslateError,
                >::Err(e),
            }),
        decreases stmts@.len(),
    {
        let x = stmts.remove(0);
        proof {
            assert(x == gstmts[i]);
            assert(stmts@ =~= gstmts.skip(i + 1));
            assert(decreases_to!(gvec => gvec@));
            assert(gvec@ == gstmts);
            assert(decreases_to!(gstmts => gstmts[i]));
        }
        match lower_stmt_exec(stage, x) {
            Result::Err(e) => {
                proof {
                    assert(lower_stmts(stage@, gstmts, i) == Result::<
                        Seq<Seq<char>>,
                        TranslateError,
                    >::Err(e));
                }
                return Result::Err(e);
            },
            Result::Ok(mut ls) => {
                let ghost gls = ls@;
                let ghost prev = lines@;
                lines.append(&mut ls);
                proof {
                    assert(crate::text::views_of(lines@) =~= crate::text::views_of(prev)
                        + crate::text::views_of(gls));
                    match lower_stmts(stage@, gstmts, i + 1) {
                        Result::Ok(rest2) => {
                            assert(lower_stmts(stage@, gstmts, i) == Result::<
                                Seq<Seq<char>>,
                                TranslateError,
                            >::Ok(crate::text::views_of(gls) + rest2));
                            assert(crate::text::views_of(lines@) + rest2 =~= crate::text::views_of(
                                prev,
                            ) + (crate::text::views_of(gls) + rest2));
                        },
                        Result::Err(e2) => {
                            assert(lower_stmts(stage@, gstmts, i) == Result::<
                                Seq<Seq<char>>,
                                TranslateError,
                            >::Err(e2));
                        },
                    }
                    i = i + 1;
                }
            },
        }
    }
    proof {
        assert(i == gstmts.len());
        assert(lower_stmts(stage@, gstmts, i) == Result::<Seq<Seq<char>>, TranslateError>::Ok(
            Seq::empty(),
        ));
        assert(crate::text::views_of(lines@) =~= crate::text::views_of(lines@) + Seq::<
            Seq<char>,
        >::empty());
    }
    let code = crate::text::join_strs(&lines, "\n");
    Result::Ok(code)
}

/// Lowers one statement to its emitted lines.
pub fn lower_stmt_exec(stage: &str, s: Stmt) -> (r: Result<Vec<String>, TranslateError>)
    requires
        stmt_wf(s),
    ensures
        crate::expr::vres_view(r) == lower_stmt(stage@, s),
    decreases s, 2int,
{
    match s.kind {
        StmtKind::DeclareLocals { .. } | StmtKind::Assign { .. } | StmtKind::AddAssign { .. }
            | StmtKind::ListAssign { .. } | StmtKind::ListAssignLast { .. }
            | StmtKind::ListAssignRandom { .. } | StmtKind::ListInsert { .. }
            | StmtKind::ListInsertLast { .. } | StmtKind::ListInsertRandom { .. }
            | StmtKind::ListRemoveLast { .. } | StmtKind::ListRemove { .. }
            | StmtKind::ListRemoveAll { .. } | StmtKind::Throw { .. } => lower_stmt_g1(stage, s),
        StmtKind::Warp { .. } | StmtKind::If { .. } | StmtKind::IfElse { .. }
            | StmtKind::TryCatch { .. } => lower_stmt_g2(stage, s),
        StmtKind::InfLoop { .. } | StmtKind::ForLoop { .. } | StmtKind::ForeachLoop { .. }
            | StmtKind::Repeat { .. } | StmtKind::UntilLoop { .. } => lower_stmt_g5(stage, s),
        StmtKind::SetCostume { .. } | StmtKind::NextCostume | StmtKind::SetX { .. }
            | StmtKind::SetY { .. } | StmtKind::ChangeX { .. } | StmtKind::ChangeY { .. }
            | StmtKind::Goto { .. } | StmtKind::GotoXY { .. } | StmtKind::SendLocalMessage { .. }
            | StmtKind::SendNetworkMessage { .. } | StmtKind::Say { .. } | StmtKind::Think { .. }
            | StmtKind::CallRpc { .. } | StmtKind::CallFn { .. } | StmtKind::CallClosure {
            ..
        } => lower_stmt_g3(stage, s),
        _ => lower_stmt_g4(stage, s),
    }
}

} // verus!
verus! {

/// A single emitted line as a line list.
fn one_line(line: String) -> (v: Vec<String>)
    ensures
        crate::text::views_of(v@) == seq![line@],
{
    let ghost l = line@;
    let v = vec![line];
    proof {
        assert(crate::text::views_of(v@) =~= seq![l]);
    }
    v
}

/// Assignment-shaped and list-mutation statements.
#[verifier::loop_isolation(false)]
#[verifier::rlimit(100)]
#[verifier::spinoff_prover]
fn lower_stmt_g1(stage: &str, s: Stmt) -> (r: Result<Vec<String>, TranslateError>)
    requires
        stmt_wf(s),
        s.kind matches StmtKind::DeclareLocals { .. } || s.kind matches StmtKind::Assign { .. }
            || s.kind matches StmtKind::AddAssign { .. } || s.kind matches StmtKind::ListAssign {
            ..
        } || s.kind matches StmtKind::ListAssignLast { .. } || s.kind
            matches StmtKind::ListAssignRandom { .. } || s.kind matches StmtKind::ListInsert { .. }
            || s.kind matches StmtKind::ListInsertLast { .. } || s.kind
            matches StmtKind::ListInsertRandom { .. } || s.kind matches StmtKind::ListRemoveLast {
            ..
        } || s.kind matches StmtKind::ListRemove { .. } || s.kind
            matches StmtKind::ListRemoveAll { .. } || s.kind matches StmtKind::Throw { .. },
    ensures
        crate::expr::vres_view(r) == lower_stmt_s1(stage@, s),
    decreases s, 1int,
{
    let ghost gs = s;
    let cm = crate::text::fmt_comment(&s.comment);
    match s.kind {
        StmtKind::DeclareLocals { vars } => {
            let n = vars.len();
            let mut lines: Vec<String> = Vec::new();
            if n == 0 {
                proof {
                    assert(crate::text::views_of(lines@) =~= Seq::<Seq<char>>::empty());
                }
                return Result::Ok(lines);
            }
            let first = crate::text::cat3(
                vars[0].trans_name.as_str(),
                " = snap.wrap(0)",
                cm.as_str(),
            );
            let ghost head = seq![vars@[0].trans_name@ + " = snap.wrap(0)"@ + cm@];
            lines.push(first);
            proof {
                assert(crate::text::views_of(lines@) =~= head);
            }
            let mut i: usize = 1;
            while i < n
                invariant
                    1 <= i <= n,
                    head + decl_lines(vars@, 1) == crate::text::views_of(lines@) + decl_lines(
                        vars@,
                        i as int,
                    ),
                decreases n - i,
            {
                let line = crate::text::cat2(vars[i].trans_name.as_str(), " = snap.wrap(0)");
                let ghost prev = lines@;
                lines.push(line);
                proof {
                    assert(crate::text::views_of(lines@) =~= crate::text::views_of(prev).push(
                        line@,
                    ));
                    assert(crate::text::views_of(lines@) + decl_lines(vars@, i + 1 as int)
                        =~= crate::text::views_of(prev) + decl_lines(vars@, i as int));
                }
                i = i + 1;
            }
            proof {
                assert(decl_lines(vars@, n as int) =~= Seq::<Seq<char>>::empty());
                assert(crate::text::views_of(lines@) =~= crate::text::views_of(lines@)
                    + decl_lines(vars@, n as int));
            }
            Result::Ok(lines)
        },
        StmtKind::Assign { var, value } => {
            let vt = crate::lower::translate_var(&var);
            let pre = crate::text::cat2(vt.as_str(), " = ");
            eas_line(
                crate::expr::eun1(
                    crate::expr::lower_expr_exec(stage, *value),
                    pre.as_str(),
                    true,
                    "",
                    WrapKind::Unknown,
                ),
                cm.as_str(),
            )
        },
        StmtKind::AddAssign { var, value } => {
            let vt = crate::lower::translate_var(&var);
            let pre = crate::text::cat2(vt.as_str(), " += ");
            eas_line(
                crate::expr::eun1(
                    crate::expr::lower_expr_exec(stage, *value),
                    pre.as_str(),
                    true,
                    "",
                    WrapKind::Unknown,
                ),
                cm.as_str(),
            )
        },
        StmtKind::ListAssign { list, index, value } => {
            let a = crate::expr::lower_expr_exec(stage, *list);
            let b = crate::expr::lower_expr_exec(stage, *index);
            match crate::expr::ebin2(
                a,
                b,
                "",
                true,
                "[",
                true,
                " - snap.wrap(1)] = ",
                WrapKind::Unknown,
            ) {
                Result::Err(e) => Result::Err(e),
                Result::Ok(x) => eas_line(
                    crate::expr::eun1(
                        crate::expr::lower_expr_exec(stage, *value),
                        x.0.as_str(),
                        false,
                        "",
                        WrapKind::Unknown,
                    ),
                    cm.as_str(),
                ),
            }
        },
        StmtKind::ListAssignLast { list, value } => {
            let a = crate::expr::lower_expr_exec(stage, *list);
            let b = crate::expr::lower_expr_exec(stage, *value);
            eas_line(
                crate::expr::ebin2(a, b, "", true, ".last = ", false, "", WrapKind::Unknown),
                cm.as_str(),
            )
        },
        StmtKind::ListAssignRandom { list, value } => {
            let a = crate::expr::lower_expr_exec(stage, *list);
            let b = crate::expr::lower_expr_exec(stage, *value);
            eas_line(
                crate::expr::ebin2(a, b, "", true, ".rand = ", false, "", WrapKind::Unknown),
                cm.as_str(),
            )
        },
        StmtKind::ListInsert { list, index, value } => {
            let a = crate::expr::lower_expr_exec(stage, *list);
            let b = crate::expr::lower_expr_exec(stage, *index);
            match crate::expr::ebin2(a, b, "", true, ".insert(", false, ", ", WrapKind::Unknown) {
                Result::Err(e) => Result::Err(e),
                Result::Ok(x) => eas_line(
                    crate::expr::eun1(
                        crate::expr::lower_expr_exec(stage, *value),
                        x.0.as_str(),
                        false,
                        ")",
                        WrapKind::Unknown,
                    ),
                    cm.as_str(),
                ),
            }
        },
        StmtKind::ListInsertLast { list, value } => {
            let a = crate::expr::lower_expr_exec(stage, *list);
            let b = crate::expr::lower_expr_exec(stage, *value);
            eas_line(
                crate::expr::ebin2(a, b, "", true, ".append(", false, ")", WrapKind::Unknown),
                cm.as_str(),
            )
        },
        StmtKind::ListInsertRandom { list, value } => {
            let a = crate::expr::lower_expr_exec(stage, *list);
            let b = crate::expr::lower_expr_exec(stage, *value);
            eas_line(
                crate::expr::ebin2(a, b, "", true, ".insert_rand(", false, ")", WrapKind::Unknown),
                cm.as_str(),
            )
        },
        StmtKind::ListRemoveLast { list } => eas_line(
            crate::expr::eun1(
                crate::expr::lower_expr_exec(stage, *list),
                "",
                true,
                ".pop()",
                WrapKind::Unknown,
            ),
            cm.as_str(),
        ),
        StmtKind::ListRemove { list, index } => {
            let a = crate::expr::lower_expr_exec(stage, *list);
            let b = crate::expr::lower_expr_exec(stage, *index);
            eas_line(
                crate::expr::ebin2(
                    a,
                    b,
                    "del ",
                    true,
                    "[",
                    true,
                    " - snap.wrap(1)]",
                    WrapKind::Unknown,
                ),
                cm.as_str(),
            )
        },
        StmtKind::ListRemoveAll { list } => eas_line(
            crate::expr::eun1(
                crate::expr::lower_expr_exec(stage, *list),
                "",
                true,
                ".clear()",
                WrapKind::Unknown,
            ),
            cm.as_str(),
        ),
        StmtKind::Throw { error } => eas_line(
            crate::expr::eun1(
                crate::expr::lower_expr_exec(stage, *error),
                "raise RuntimeError(str(",
                true,
                "))",
                WrapKind::Unknown,
            ),
            cm.as_str(),
        ),
        _ => {
            proof {
                assert(false);
            }
            vstd::pervasive::unreached()
        },
    }
}

/// Guarded regions, conditionals and the try block.
#[verifier::loop_isolation(false)]
#[verifier::rlimit(100)]
#[verifier::spinoff_prover]
fn lower_stmt_g2(stage: &str, s: Stmt) -> (r: Result<Vec<String>, TranslateError>)
    requires
        stmt_wf(s),
        s.kind matches StmtKind::Warp { .. } || s.kind matches StmtKind::If { .. } || s.kind matches StmtKind::IfElse { .. } || s.kind matches StmtKind::TryCatch { .. },
    ensures
        crate::expr::vres_view(r) == lower_stmt_s2(stage@, s),
    decreases s, 1int,
{
    let ghost gs = s;
    let cm = crate::text::fmt_comment(&s.comment);
    match s.kind {
        StmtKind::Warp { stmts } => {
            proof {
                assert(decreases_to!(gs => gs.kind));
                assert(decreases_to!(gs.kind => gs.kind->Warp_stmts));
            }
            match stmts_code_exec(stage, stmts) {
                Result::Err(e) => Result::Err(e),
                Result::Ok(code) => {
                    let ind = crate::text::indent(code.as_str());
                    Result::Ok(
                        one_line(
                            crate::text::cat4("with NoYield():", cm.as_str(), "\n", ind.as_str()),
                        ),
                    )
                },
            }
        },
        StmtKind::If { condition, then } => {
            proof {
                assert(decreases_to!(gs => gs.kind));
                assert(decreases_to!(gs.kind => gs.kind->If_then));
            }
            match crate::expr::lower_expr_exec(stage, *condition) {
                Result::Err(e) => Result::Err(e),
                Result::Ok(c) => match stmts_code_exec(stage, then) {
                    Result::Err(e) => Result::Err(e),
                    Result::Ok(code) => {
                        let w = crate::lower::wrap(c);
                        let ind = crate::text::indent(code.as_str());
                        Result::Ok(
                            one_line(
                                crate::text::cat6(
                                    "if ",
                                    w.as_str(),
                                    ":",
                                    cm.as_str(),
                                    "\n",
                                    ind.as_str(),
                                ),
                            ),
                        )
                    },
                },
            }
        },
        StmtKind::IfElse { condition, then, otherwise } => {
            proof {
                assert(decreases_to!(gs => gs.kind));
                assert(decreases_to!(gs.kind => gs.kind->IfElse_then));
                assert(decreases_to!(gs.kind => gs.kind->IfElse_otherwise));
            }
            let is_chain = otherwise.len() == 1 && (matches!(
                otherwise[0].kind,
                StmtKind::If { .. },
            ) || matches!(otherwise[0].kind, StmtKind::IfElse { .. }));
            match crate::expr::lower_expr_exec(stage, *condition) {
                Result::Err(e) => Result::Err(e),
                Result::Ok(c) => match stmts_code_exec(stage, then) {
                    Result::Err(e) => Result::Err(e),
                    Result::Ok(then_code) => match stmts_code_exec(stage, otherwise) {
                        Result::Err(e) => Result::Err(e),
                        Result::Ok(otherwise_code) => {
                            let w = crate::lower::wrap(c);
                            let ind = crate::text::indent(then_code.as_str());
                            if is_chain {
                                Result::Ok(
                                    one_line(
                                        crate::text::cat8(
                                            "if ",
                                            w.as_str(),
                                            ":",
                                            cm.as_str(),
                                            "\n",
                                            ind.as_str(),
                                            "\nel",
                                            otherwise_code.as_str(),
                                        ),
                                    ),
                                )
                            } else {
                                let ind_o = crate::text::indent(otherwise_code.as_str());
                                Result::Ok(
                                    one_line(
                                        crate::text::cat8(
                                            "if ",
                                            w.as_str(),
                                            ":",
                                            cm.as_str(),
                                            "\n",
                                            ind.as_str(),
                                            "\nelse:\n",
                                            ind_o.as_str(),
                                        ),
                                    ),
                                )
                            }
                        },
                    },
                },
            }
        },
        StmtKind::TryCatch { code, var, handler } => {
            proof {
                assert(decreases_to!(gs => gs.kind));
                assert(decreases_to!(gs.kind => gs.kind->TryCatch_code));
                assert(decreases_to!(gs.kind => gs.kind->TryCatch_handler));
            }
            match stmts_code_exec(stage, code) {
                Result::Err(e) => Result::Err(e),
                Result::Ok(code_text) => match stmts_code_exec(stage, handler) {
                    Result::Err(e) => Result::Err(e),
                    Result::Ok(handler_text) => {
                        let ind_c = crate::text::indent(code_text.as_str());
                        let ind_h = crate::text::indent(handler_text.as_str());
                        Result::Ok(
                            one_line(
                                crate::text::cat8(
                                    "try:",
                                    cm.as_str(),
                                    "\n",
                                    ind_c.as_str(),
                                    "\nexcept Exception as ",
                                    var.trans_name.as_str(),
                                    ":\n",
                                    ind_h.as_str(),
                                ),
                            ),
                        )
                    },
                },
            }
        },
        _ => {
            proof {
                assert(false);
            }
            vstd::pervasive::unreached()
        },
    }
}

/// The loop statements.
#[verifier::loop_isolation(false)]
#[verifier::rlimit(100)]
#[verifier::spinoff_prover]
fn lower_stmt_g5(stage: &str, s: Stmt) -> (r: Result<Vec<String>, TranslateError>)
    requires
        stmt_wf(s),
        s.kind matches StmtKind::InfLoop { .. } || s.kind matches StmtKind::ForLoop { .. } || s.kind matches StmtKind::ForeachLoop { .. } || s.kind matches StmtKind::Repeat { .. } || s.kind matches StmtKind::UntilLoop { .. },
    ensures
        crate::expr::vres_view(r) == lower_stmt_s5(stage@, s),
    decreases s, 1int,
{
    let ghost gs = s;
    let cm = crate::text::fmt_comment(&s.comment);
    match s.kind {
        StmtKind::InfLoop { stmts } => {
            proof {
                assert(decreases_to!(gs => gs.kind));
                assert(decreases_to!(gs.kind => gs.kind->InfLoop_stmts));
            }
            match stmts_code_exec(stage, stmts) {
                Result::Err(e) => Result::Err(e),
                Result::Ok(code) => {
                    let ind = crate::text::indent(code.as_str());
                    Result::Ok(
                        one_line(
                            crate::text::cat4("while True:", cm.as_str(), "\n", ind.as_str()),
                        ),
                    )
                },
            }
        },
        StmtKind::ForLoop { var, start, stop, stmts } => {
            proof {
                assert(decreases_to!(gs => gs.kind));
                assert(decreases_to!(gs.kind => gs.kind->ForLoop_stmts));
            }
            match crate::expr::lower_expr_exec(stage, *start) {
                Result::Err(e) => Result::Err(e),
                Result::Ok(a) => match crate::expr::lower_expr_exec(stage, *stop) {
                    Result::Err(e) => Result::Err(e),
                    Result::Ok(b) => match stmts_code_exec(stage, stmts) {
                        Result::Err(e) => Result::Err(e),
                        Result::Ok(code) => {
                            let head = crate::text::cat6(
                                "for ",
                                var.trans_name.as_str(),
                                " in snap.sxrange(",
                                a.0.as_str(),
                                ", ",
                                b.0.as_str(),
                            );
                            let ind = crate::text::indent(code.as_str());
                            Result::Ok(
                                one_line(
                                    crate::text::cat5(
                                        head.as_str(),
                                        "):",
                                        cm.as_str(),
                                        "\n",
                                        ind.as_str(),
                                    ),
                                ),
                            )
                        },
                    },
                },
            }
        },
        StmtKind::ForeachLoop { var, items, stmts } => {
            proof {
                assert(decreases_to!(gs => gs.kind));
                assert(decreases_to!(gs.kind => gs.kind->ForeachLoop_stmts));
            }
            match crate::expr::lower_expr_exec(stage, *items) {
                Result::Err(e) => Result::Err(e),
                Result::Ok(it) => match stmts_code_exec(stage, stmts) {
                    Result::Err(e) => Result::Err(e),
                    Result::Ok(code) => {
                        let w = crate::lower::wrap(it);
                        let ind = crate::text::indent(code.as_str());
                        Result::Ok(
                            one_line(
                                crate::text::cat8(
                                    "for ",
                                    var.trans_name.as_str(),
                                    " in ",
                                    w.as_str(),
                                    ":",
                                    cm.as_str(),
                                    "\n",
                                    ind.as_str(),
                                ),
                            ),
                        )
                    },
                },
            }
        },
        StmtKind::Repeat { times, stmts } => {
            proof {
                assert(decreases_to!(gs => gs.kind));
                assert(decreases_to!(gs.kind => gs.kind->Repeat_stmts));
            }
            match crate::expr::lower_expr_exec(stage, *times) {
                Result::Err(e) => Result::Err(e),
                Result::Ok(t) => match stmts_code_exec(stage, stmts) {
                    Result::Err(e) => Result::Err(e),
                    Result::Ok(code) => {
                        let w = crate::lower::wrap(t);
                        let ind = crate::text::indent(code.as_str());
                        Result::Ok(
                            one_line(
                                crate::text::cat6(
                                    "for _ in range(+",
                                    w.as_str(),
                                    "):",
                                    cm.as_str(),
                                    "\n",
                                    ind.as_str(),
                                ),
                            ),
                        )
                    },
                },
            }
        },
        StmtKind::UntilLoop { condition, stmts } => {
            proof {
                assert(decreases_to!(gs => gs.kind));
                assert(decreases_to!(gs.kind => gs.kind->UntilLoop_stmts));
            }
            match crate::expr::lower_expr_exec(stage, *condition) {
                Result::Err(e) => Result::Err(e),
                Result::Ok(c) => match stmts_code_exec(stage, stmts) {
                    Result::Err(e) => Result::Err(e),
                    Result::Ok(code) => {
                        let w = crate::lower::wrap(c);
                        let ind = crate::text::indent(code.as_str());
                        Result::Ok(
                            one_line(
                                crate::text::cat6(
                                    "while not ",
                                    w.as_str(),
                                    ":",
                                    cm.as_str(),
                                    "\n",
                                    ind.as_str(),
                                ),
                            ),
                        )
                    },
                },
            }
        },

        _ => {
            proof {
                assert(false);
            }
            vstd::pervasive::unreached()
        },
    }
}

} // verus!
verus! {

/// Looks, motion targets, message sends and calls.
#[verifier::loop_isolation(false)]
#[verifier::rlimit(100)]
#[verifier::spinoff_prover]
fn lower_stmt_g3(stage: &str, s: Stmt) -> (r: Result<Vec<String>, TranslateError>)
    requires
        stmt_wf(s),
        s.kind matches StmtKind::SetCostume { .. } || s.kind matches StmtKind::NextCostume
            || s.kind matches StmtKind::SetX { .. } || s.kind matches StmtKind::SetY { .. }
            || s.kind matches StmtKind::ChangeX { .. } || s.kind matches StmtKind::ChangeY { .. }
            || s.kind matches StmtKind::Goto { .. } || s.kind matches StmtKind::GotoXY { .. }
            || s.kind matches StmtKind::SendLocalMessage { .. } || s.kind
            matches StmtKind::SendNetworkMessage { .. } || s.kind matches StmtKind::Say { .. }
            || s.kind matches StmtKind::Think { .. } || s.kind matches StmtKind::CallRpc { .. }
            || s.kind matches StmtKind::CallFn { .. } || s.kind matches StmtKind::CallClosure {
            ..
        },
    ensures
        crate::expr::vres_view(r) == lower_stmt_s3(stage@, s),
    decreases s, 1int,
{
    let ghost gs = s;
    let cm = crate::text::fmt_comment(&s.comment);
    match s.kind {
        StmtKind::SetCostume { costume } => eas_line(
            crate::expr::eun1(
                crate::expr::lower_expr_exec(stage, *costume),
                "self.costume = ",
                false,
                "",
                WrapKind::Unknown,
            ),
            cm.as_str(),
        ),
        StmtKind::NextCostume => Result::Ok(
            one_line(
                crate::text::cat2(
                    "self.costume = (self.costumes.index(self.costume, -1) + 1) % len(self.costumes)",
                    cm.as_str(),
                ),
            ),
        ),
        StmtKind::SetX { value } => eas_line(
            crate::expr::eun1(
                crate::expr::lower_expr_exec(stage, *value),
                "self.x_pos = ",
                true,
                "",
                WrapKind::Unknown,
            ),
            cm.as_str(),
        ),
        StmtKind::SetY { value } => eas_line(
            crate::expr::eun1(
                crate::expr::lower_expr_exec(stage, *value),
                "self.y_pos = ",
                true,
                "",
                WrapKind::Unknown,
            ),
            cm.as_str(),
        ),
        StmtKind::ChangeX { delta } => eas_line(
            crate::expr::eun1(
                crate::expr::lower_expr_exec(stage, *delta),
                "self.x_pos += ",
                true,
                "",
                WrapKind::Unknown,
            ),
            cm.as_str(),
        ),
        StmtKind::ChangeY { delta } => eas_line(
            crate::expr::eun1(
                crate::expr::lower_expr_exec(stage, *delta),
                "self.y_pos += ",
                true,
                "",
                WrapKind::Unknown,
            ),
            cm.as_str(),
        ),
        StmtKind::Goto { target } => {
            let ghost gsrc = *target;
            proof {
                assert(crate::lower::expr_wf(gsrc));
                assert(decreases_to!(gs => gs.kind));
                assert(decreases_to!(gs.kind => gs.kind->Goto_target));
            }
            match *target {
                Expr::Value(Value::List(vals)) => {
                    if vals.len() == 2 {
                        proof {
                            assert(value_ok(Value::List(vals)));
                        }
                        let p0 = crate::lower::lower_value_exec(&vals[0]);
                        let p1 = crate::lower::lower_value_exec(&vals[1]);
                        Result::Ok(
                            one_line(
                                crate::text::cat6(
                                    "self.pos = (",
                                    p0.0.as_str(),
                                    ", ",
                                    p1.0.as_str(),
                                    ")",
                                    cm.as_str(),
                                ),
                            ),
                        )
                    } else {
                        eas_line(
                            crate::expr::eun1(
                                crate::expr::lower_expr_exec(
                                    stage,
                                    Expr::Value(Value::List(vals)),
                                ),
                                "self.pos = ",
                                false,
                                "",
                                WrapKind::Unknown,
                            ),
                            cm.as_str(),
                        )
                    }
                },
                other => eas_line(
                    crate::expr::eun1(
                        crate::expr::lower_expr_exec(stage, other),
                        "self.pos = ",
                        false,
                        "",
                        WrapKind::Unknown,
                    ),
                    cm.as_str(),
                ),
            }
        },
        StmtKind::GotoXY { x, y } => {
            let a = crate::expr::lower_expr_exec(stage, *x);
            let b = crate::expr::lower_expr_exec(stage, *y);
            eas_line(
                crate::expr::ebin2(
                    a,
                    b,
                    "self.pos = (",
                    true,
                    ", ",
                    true,
                    ")",
                    WrapKind::Unknown,
                ),
                cm.as_str(),
            )
        },
        StmtKind::SendLocalMessage { target: _, msg_type, wait: _ } => {
            let ghost gsrc = *msg_type;
            proof {
                assert(crate::lower::expr_wf(gsrc));
                assert(decreases_to!(gs => gs.kind));
                assert(decreases_to!(gs.kind => gs.kind->SendLocalMessage_msg_type));
            }
            match *msg_type {
                Expr::Value(Value::String(mt)) => {
                    let esc = crate::text::escape(mt.as_str());
                    Result::Ok(
                        one_line(
                            crate::text::cat4(
                                "nb.send_message('local::",
                                esc.as_str(),
                                "')",
                                cm.as_str(),
                            ),
                        ),
                    )
                },
                other => eas_line(
                    crate::expr::eun1(
                        crate::expr::lower_expr_exec(stage, other),
                        "nb.send_message('local::' + str(",
                        false,
                        "))",
                        WrapKind::Unknown,
                    ),
                    cm.as_str(),
                ),
            }
        },
        StmtKind::SendNetworkMessage { target, msg_type, values } => {
            proof {
                assert(decreases_to!(gs => gs.kind));
                assert(decreases_to!(gs.kind => gs.kind->SendNetworkMessage_values));
            }
            match crate::expr::kwargs_text_exec(stage, values, ", ", false) {
                Result::Err(e) => Result::Err(e),
                Result::Ok(kw) => match crate::expr::lower_expr_exec(stage, *target) {
                    Result::Err(e) => Result::Err(e),
                    Result::Ok(t) => {
                        let esc = crate::text::escape(msg_type.as_str());
                        Result::Ok(
                            one_line(
                                crate::text::cat7(
                                    "nb.send_message('",
                                    esc.as_str(),
                                    "', ",
                                    t.0.as_str(),
                                    kw.as_str(),
                                    ")",
                                    cm.as_str(),
                                ),
                            ),
                        )
                    },
                },
            }
        },
        StmtKind::Say { content, duration } => {
            match duration {
                Option::Some(d) => {
                    let a = crate::expr::lower_expr_exec(stage, *content);
                    let b = crate::expr::lower_expr_exec(stage, *d);
                    eas_line(
                        crate::expr::ebin2(
                            a,
                            b,
                            "self.say(",
                            false,
                            ", duration = ",
                            false,
                            ")",
                            WrapKind::Unknown,
                        ),
                        cm.as_str(),
                    )
                },
                Option::None => eas_line(
                    crate::expr::eun1(
                        crate::expr::lower_expr_exec(stage, *content),
                        "self.say(",
                        false,
                        ")",
                        WrapKind::Unknown,
                    ),
                    cm.as_str(),
                ),
            }
        },
        StmtKind::Think { content, duration } => {
            match duration {
                Option::Some(d) => {
                    let a = crate::expr::lower_expr_exec(stage, *content);
                    let b = crate::expr::lower_expr_exec(stage, *d);
                    eas_line(
                        crate::expr::ebin2(
                            a,
                            b,
                            "self.say(",
                            false,
                            ", duration = ",
                            false,
                            ")",
                            WrapKind::Unknown,
                        ),
                        cm.as_str(),
                    )
                },
                Option::None => eas_line(
                    crate::expr::eun1(
                        crate::expr::lower_expr_exec(stage, *content),
                        "self.say(",
                        false,
                        ")",
                        WrapKind::Unknown,
                    ),
                    cm.as_str(),
                ),
            }
        },
        StmtKind::CallRpc { service, rpc, args } => {
            proof {
                assert(decreases_to!(gs => gs.kind));
                assert(decreases_to!(gs.kind => gs.kind->CallRpc_args));
            }
            match crate::expr::rpc_text_exec(stage, service.as_str(), rpc.as_str(), args) {
                Result::Err(e) => Result::Err(e),
                Result::Ok(t) => Result::Ok(
                    one_line(crate::text::cat2(t.as_str(), cm.as_str())),
                ),
            }
        },
        StmtKind::CallFn { function, args, upvars } => {
            proof {
                assert(decreases_to!(gs => gs.kind));
                assert(decreases_to!(gs.kind => gs.kind->CallFn_args));
            }
            match crate::expr::fn_call_text_exec(stage, &function, args, &upvars) {
                Result::Err(e) => Result::Err(e),
                Result::Ok(t) => Result::Ok(
                    one_line(crate::text::cat2(t.as_str(), cm.as_str())),
                ),
            }
        },
        StmtKind::CallClosure { new_entity, closure, args } => {
            if new_entity.is_some() {
                return Result::Err(TranslateError::TellAskClosure);
            }
            proof {
                assert(decreases_to!(gs => gs.kind));
                assert(decreases_to!(gs.kind => gs.kind->CallClosure_args));
            }
            match crate::expr::exprs_texts_exec(stage, args, crate::lower::ArgStyle::Wrapped) {
                Result::Err(e) => Result::Err(e),
                Result::Ok(parts) => match crate::expr::lower_expr_exec(stage, *closure) {
                    Result::Err(e) => Result::Err(e),
                    Result::Ok(c) => {
                        let pj = crate::text::join_strs(&parts, ", ");
                        Result::Ok(
                            one_line(
                                crate::text::cat5(
                                    c.0.as_str(),
                                    "(",
                                    pj.as_str(),
                                    ")",
                                    cm.as_str(),
                                ),
                            ),
                        )
                    },
                },
            }
        },
        _ => {
            proof {
                assert(false);
            }
            vstd::pervasive::unreached()
        },
    }
}

/// Pen, motion, timing and the statements with no lowering.
#[verifier::loop_isolation(false)]
#[verifier::rlimit(100)]
#[verifier::spinoff_prover]
fn lower_stmt_g4(stage: &str, s: Stmt) -> (r: Result<Vec<String>, TranslateError>)
    requires
        stmt_wf(s),
        !(s.kind matches StmtKind::DeclareLocals { .. } || s.kind matches StmtKind::Assign { .. }
            || s.kind matches StmtKind::AddAssign { .. } || s.kind matches StmtKind::ListAssign {
            ..
        } || s.kind matches StmtKind::ListAssignLast { .. } || s.kind
            matches StmtKind::ListAssignRandom { .. } || s.kind matches StmtKind::ListInsert { .. }
            || s.kind matches StmtKind::ListInsertLast { .. } || s.kind
            matches StmtKind::ListInsertRandom { .. } || s.kind matches StmtKind::ListRemoveLast {
            ..
        } || s.kind matches StmtKind::ListRemove { .. } || s.kind
            matches StmtKind::ListRemoveAll { .. } || s.kind matches StmtKind::Throw { .. }
            || s.kind matches StmtKind::Warp { .. } || s.kind matches StmtKind::If { .. } || s.kind
            matches StmtKind::IfElse { .. } || s.kind matches StmtKind::TryCatch { .. } || s.kind
            matches StmtKind::InfLoop { .. } || s.kind matches StmtKind::ForLoop { .. } || s.kind
            matches StmtKind::ForeachLoop { .. } || s.kind matches StmtKind::Repeat { .. }
            || s.kind matches StmtKind::UntilLoop { .. } || s.kind matches StmtKind::SetCostume {
            ..
        } || s.kind matches StmtKind::NextCostume || s.kind matches StmtKind::SetX { .. } || s.kind
            matches StmtKind::SetY { .. } || s.kind matches StmtKind::ChangeX { .. } || s.kind
            matches StmtKind::ChangeY { .. } || s.kind matches StmtKind::Goto { .. } || s.kind
            matches StmtKind::GotoXY { .. } || s.kind matches StmtKind::SendLocalMessage { .. }
            || s.kind matches StmtKind::SendNetworkMessage { .. } || s.kind matches StmtKind::Say {
            ..
        } || s.kind matches StmtKind::Think { .. } || s.kind matches StmtKind::CallRpc { .. }
            || s.kind matches StmtKind::CallFn { .. } || s.kind matches StmtKind::CallClosure {
            ..
        }),
    ensures
        crate::expr::vres_view(r) == lower_stmt_s4(stage@, s),
    decreases s, 1int,
{
    let ghost gs = s;
    let cm = crate::text::fmt_comment(&s.comment);
    match s.kind {
        StmtKind::ChangePenSize { delta } => eas_line(
            crate::expr::eun1(
                crate::expr::lower_expr_exec(stage, *delta),
                "self.pen_size += ",
                true,
                "",
                WrapKind::Unknown,
            ),
            cm.as_str(),
        ),
        StmtKind::SetPenSize { value } => eas_line(
            crate::expr::eun1(
                crate::expr::lower_expr_exec(stage, *value),
                "self.pen_size = ",
                true,
                "",
                WrapKind::Unknown,
            ),
            cm.as_str(),
        ),
        StmtKind::SetVisible { value } => Result::Ok(
            one_line(
                crate::text::cat3(
                    "self.visible = ",
                    if value {
                        "True"
                    } else {
                        "False"
                    },
                    cm.as_str(),
                ),
            ),
        ),
        StmtKind::WaitUntil { condition } => {
            let cmx = crate::text::cat2(cm.as_str(), "\n    time.sleep(0.05)");
            eas_line(
                crate::expr::eun1(
                    crate::expr::lower_expr_exec(stage, *condition),
                    "while not ",
                    true,
                    ":",
                    WrapKind::Unknown,
                ),
                cmx.as_str(),
            )
        },
        StmtKind::BounceOffEdge => Result::Ok(
            one_line(crate::text::cat2("self.keep_on_stage(bounce = True)", cm.as_str())),
        ),
        StmtKind::Sleep { seconds } => eas_line(
            crate::expr::eun1(
                crate::expr::lower_expr_exec(stage, *seconds),
                "time.sleep(+",
                true,
                ")",
                WrapKind::Unknown,
            ),
            cm.as_str(),
        ),
        StmtKind::Forward { distance } => eas_line(
            crate::expr::eun1(
                crate::expr::lower_expr_exec(stage, *distance),
                "self.forward(",
                true,
                ")",
                WrapKind::Unknown,
            ),
            cm.as_str(),
        ),
        StmtKind::TurnRight { angle } => eas_line(
            crate::expr::eun1(
                crate::expr::lower_expr_exec(stage, *angle),
                "self.turn_right(",
                true,
                ")",
                WrapKind::Unknown,
            ),
            cm.as_str(),
        ),
        StmtKind::TurnLeft { angle } => eas_line(
            crate::expr::eun1(
                crate::expr::lower_expr_exec(stage, *angle),
                "self.turn_left(",
                true,
                ")",
                WrapKind::Unknown,
            ),
            cm.as_str(),
        ),
        StmtKind::SetHeading { value } => eas_line(
            crate::expr::eun1(
                crate::expr::lower_expr_exec(stage, *value),
                "self.heading = ",
                true,
                "",
                WrapKind::Unknown,
            ),
            cm.as_str(),
        ),
        StmtKind::Return { value } => eas_line(
            crate::expr::eun1(
                crate::expr::lower_expr_exec(stage, *value),
                "return ",
                true,
                "",
                WrapKind::Unknown,
            ),
            cm.as_str(),
        ),
        StmtKind::Stamp => Result::Ok(
            one_line(crate::text::cat2("self.stamp()", cm.as_str())),
        ),
        StmtKind::Write { content, font_size } => {
            let a = crate::expr::lower_expr_exec(stage, *content);
            let b = crate::expr::lower_expr_exec(stage, *font_size);
            eas_line(
                crate::expr::ebin2(
                    a,
                    b,
                    "self.write(",
                    true,
                    ", size = ",
                    true,
                    ")",
                    WrapKind::Unknown,
                ),
                cm.as_str(),
            )
        },
        StmtKind::SetPenDown { value } => Result::Ok(
            one_line(
                crate::text::cat3(
                    "self.drawing = ",
                    if value {
                        "True"
                    } else {
                        "False"
                    },
                    cm.as_str(),
                ),
            ),
        ),
        StmtKind::PenClear => Result::Ok(
            one_line(crate::text::cat3(stage, ".clear_drawings()", cm.as_str())),
        ),
        StmtKind::SetPenColor { color } => {
            let h0 = crate::text::hex2(color.0);
            let h1 = crate::text::hex2(color.1);
            let h2 = crate::text::hex2(color.2);
            Result::Ok(
                one_line(
                    crate::text::cat6(
                        "self.pen_color = '#",
                        h0.as_str(),
                        h1.as_str(),
                        h2.as_str(),
                        "'",
                        cm.as_str(),
                    ),
                ),
            )
        },
        StmtKind::ChangeSize { delta } => eas_line(
            crate::expr::eun1(
                crate::expr::lower_expr_exec(stage, *delta),
                "self.scale += ",
                true,
                " / 100",
                WrapKind::Unknown,
            ),
            cm.as_str(),
        ),
        StmtKind::SetSize { value } => eas_line(
            crate::expr::eun1(
                crate::expr::lower_expr_exec(stage, *value),
                "self.scale = ",
                true,
                " / 100",
                WrapKind::Unknown,
            ),
            cm.as_str(),
        ),
        StmtKind::Clone { target } => eas_line(
            crate::expr::eun1(
                crate::expr::lower_expr_exec(stage, *target),
                "",
                false,
                ".clone()",
                WrapKind::Unknown,
            ),
            cm.as_str(),
        ),
        StmtKind::Ask { prompt } => {
            let pre = crate::text::cat2(stage, ".last_answer = snap.wrap(input(");
            eas_line(
                crate::expr::eun1(
                    crate::expr::lower_expr_exec(stage, *prompt),
                    pre.as_str(),
                    false,
                    "))",
                    WrapKind::Unknown,
                ),
                cm.as_str(),
            )
        },
        StmtKind::ShowVar { var } => Result::Err(
            TranslateError::UnsupportedStmt(
                Box::new(Stmt { kind: StmtKind::ShowVar { var }, comment: s.comment }),
            ),
        ),
        StmtKind::HideVar { var } => Result::Err(
            TranslateError::UnsupportedStmt(
                Box::new(Stmt { kind: StmtKind::HideVar { var }, comment: s.comment }),
            ),
        ),
        StmtKind::PlaySound { sound, blocking } => Result::Err(
            TranslateError::UnsupportedStmt(
                Box::new(
                    Stmt { kind: StmtKind::PlaySound { sound, blocking }, comment: s.comment },
                ),
            ),
        ),
        StmtKind::StopSounds => Result::Err(
            TranslateError::UnsupportedStmt(
                Box::new(Stmt { kind: StmtKind::StopSounds, comment: s.comment }),
            ),
        ),
        StmtKind::ResetTimer => Result::Err(
            TranslateError::UnsupportedStmt(
                Box::new(Stmt { kind: StmtKind::ResetTimer, comment: s.comment }),
            ),
        ),
        StmtKind::DeleteClone => Result::Err(
            TranslateError::UnsupportedStmt(
                Box::new(Stmt { kind: StmtKind::DeleteClone, comment: s.comment }),
            ),
        ),
        StmtKind::UnknownBlock { name, args } => Result::Err(
            TranslateError::UnsupportedStmt(
                Box::new(
                    Stmt { kind: StmtKind::UnknownBlock { name, args }, comment: s.comment },
                ),
            ),
        ),
        _ => {
            proof {
                assert(false);
            }
            vstd::pervasive::unreached()
        },
    }
}

/// Lowers an event binding to its decorated handler stub.
pub fn lower_hat_exec(stage: &str, h: Hat, idx: u64) -> (r: Result<String, TranslateError>)
    requires
        crate::lower::hat_wf(h),
    ensures
        sview(r) == lower_hat(stage@, h, idx as nat),
{
    let cm = crate::text::fmt_comment(&h.comment);
    let n = crate::text::fmt_u64(idx);
    match h.kind {
        HatKind::OnFlag => Result::Ok(
            crate::text::cat5("@onstart()", cm.as_str(), "\ndef my_onstart_", n.as_str(), "(self):\n"),
        ),
        HatKind::OnClone => Result::Ok(
            crate::text::cat5(
                "@onstart(when = 'clone')",
                cm.as_str(),
                "\ndef my_onstart_",
                n.as_str(),
                "(self):\n",
            ),
        ),
        HatKind::OnKey { key } => Result::Ok(
            crate::text::cat7(
                "@onkey('",
                key.as_str(),
                "')",
                cm.as_str(),
                "\ndef my_onkey_",
                n.as_str(),
                "(self):\n",
            ),
        ),
        HatKind::MouseDown => Result::Ok(
            crate::text::cat5(
                "@onmouse('down')",
                cm.as_str(),
                "\ndef my_onmouse_",
                n.as_str(),
                "(self, x, y):\n",
            ),
        ),
        HatKind::MouseUp => Result::Ok(
            crate::text::cat5(
                "@onmouse('up')",
                cm.as_str(),
                "\ndef my_onmouse_",
                n.as_str(),
                "(self, x, y):\n",
            ),
        ),
        HatKind::ScrollDown => Result::Ok(
            crate::text::cat5(
                "@onmouse('scroll-down')",
                cm.as_str(),
                "\ndef my_onmouse_",
                n.as_str(),
                "(self, x, y):\n",
            ),
        ),
        HatKind::ScrollUp => Result::Ok(
            crate::text::cat5(
                "@onmouse('scroll-up')",
                cm.as_str(),
                "\ndef my_onmouse_",
                n.as_str(),
                "(self, x, y):\n",
            ),
        ),
        HatKind::When { condition } => {
            match crate::expr::lower_expr_exec(stage, *condition) {
                Result::Err(e) => Result::Err(e),
                Result::Ok(c) => {
                    let w = crate::lower::wrap(c);
                    let mut res = String::from_str("@onstart()");
                    res.append(cm.as_str());
                    res.append("\ndef my_onstart");
                    res.append(n.as_str());
                    res.append(
                        "(self):\n    while True:\n        try:\n            time.sleep(0.05)\n            if ",
                    );
                    res.append(w.as_str());
                    res.append(":\n                self.my_oncondition");
                    res.append(n.as_str());
                    res.append(
                        "()\n        except Exception as e:\n            import traceback, sys\n            print(traceback.format_exc(), file = sys.stderr)\ndef my_oncondition",
                    );
                    res.append(n.as_str());
                    res.append("(self):\n");
                    Result::Ok(res)
                },
            }
        },
        HatKind::LocalMessage { msg_type } => {
            match msg_type {
                Option::Some(mt) => {
                    let esc = crate::text::escape(mt.as_str());
                    Result::Ok(
                        crate::text::cat7(
                            "@nb.on_message('local::",
                            esc.as_str(),
                            "')",
                            cm.as_str(),
                            "\ndef my_on_message_",
                            n.as_str(),
                            "(self):\n",
                        ),
                    )
                },
                Option::None => Result::Err(TranslateError::AnyMessage),
            }
        },
        HatKind::NetworkMessage { msg_type, fields } => {
            let esc = crate::text::escape(msg_type.as_str());
            let mut res = crate::text::cat7(
                "@nb.on_message('",
                esc.as_str(),
                "')",
                cm.as_str(),
                "\ndef my_on_message_",
                n.as_str(),
                "(self, **kwargs):\n",
            );
            let ghost base = res@;
            let m = fields.len();
            let mut j: usize = 0;
            while j < m
                invariant
                    j <= m,
                    m == fields@.len(),
                    res@ + hat_field_lines(fields@, j as int) == base + hat_field_lines(
                        fields@,
                        0,
                    ),
                decreases m - j,
            {
                let fe = crate::text::escape(fields[j].name.as_str());
                let ghost prev = res@;
                res.append("    ");
                res.append(fields[j].trans_name.as_str());
                res.append(" = snap.wrap(kwargs['");
                res.append(fe.as_str());
                res.append("'])\n");
                proof {
                    assert(res@ + hat_field_lines(fields@, j + 1 as int) =~= prev
                        + hat_field_lines(fields@, j as int));
                }
                j = j + 1;
            }
            proof {
                assert(hat_field_lines(fields@, m as int) =~= Seq::<char>::empty());
                assert(res@ =~= res@ + hat_field_lines(fields@, m as int));
            }
            if fields.len() > 0 {
                res.append("\n");
            }
            Result::Ok(res)
        },
        HatKind::MouseEnter => Result::Err(
            TranslateError::UnsupportedHat(
                Box::new(Hat { kind: HatKind::MouseEnter, comment: h.comment }),
            ),
        ),
        HatKind::MouseLeave => Result::Err(
            TranslateError::UnsupportedHat(
                Box::new(Hat { kind: HatKind::MouseLeave, comment: h.comment }),
            ),
        ),
        HatKind::Dropped => Result::Err(
            TranslateError::UnsupportedHat(
                Box::new(Hat { kind: HatKind::Dropped, comment: h.comment }),
            ),
        ),
        HatKind::Stopped => Result::Err(
            TranslateError::UnsupportedHat(
                Box::new(Hat { kind: HatKind::Stopped, comment: h.comment }),
            ),
        ),
    }
}

} // verus!
