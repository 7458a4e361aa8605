//! The library's general laws, stated over the same spec functions the
//! executable contracts use: determinism and envelope shape of the whole
//! translation, wrap discipline of assignments, the indentation discipline,
//! the keyword-argument emission shapes, the elif peephole, and the
//! faithfulness of unsupported-construct reporting.

use vstd::prelude::*;

use crate::assemble::{entity_blocks, editor_json, entity_value, roles_texts, translate_spec};
use crate::ast::{Entity, Expr, Hat, HatKind, Project, Stmt, StmtKind, TranslateError};
use crate::ast::WrapKind;
use crate::lower::{kwarg_pairs, kwargs_text, lower_expr, un1, var_text, wrapped};
use crate::stmt::{as_line, lower_stmt, stmts_code};
use crate::text::{comment_text, indent_rest, indented, joined, opt_view};

verus! {

/// Determinism: the translation is a pure function of the project tree;
/// any two results admitted by the contract of `translate_project` on the
/// same input are equal, so repeated calls return byte-identical output.
pub proof fn lemma_translate_deterministic(
    p: Project,
    r1: Result<(Seq<char>, Seq<char>), TranslateError>,
    r2: Result<(Seq<char>, Seq<char>), TranslateError>,
)
    requires
        r1 == translate_spec(p),
        r2 == translate_spec(p),
    ensures
        r1 == r2,
{
}

/// Envelope shape: a successful translation is the project name and a JSON
/// object with the single member `roles`, an array holding one object per
/// role in role order.
pub proof fn lemma_envelope_shape(p: Project)
    requires
        translate_spec(p) is Ok,
    ensures
        p.roles@.len() > 0,
        roles_texts(p.roles@) is Ok,
        roles_texts(p.roles@)->Ok_0.len() == p.roles@.len(),
        translate_spec(p)->Ok_0.0 == p.name@,
        translate_spec(p)->Ok_0.1 == "{\"roles\":["@ + joined(roles_texts(p.roles@)->Ok_0, ","@)
            + "]}"@,
{
    lemma_roles_texts_len(p.roles@);
}

proof fn lemma_roles_texts_len(roles: Seq<crate::ast::Role>)
    requires
        roles_texts(roles) is Ok,
    ensures
        roles_texts(roles)->Ok_0.len() == roles.len(),
    decreases roles.len(),
{
    if roles.len() > 0 {
        lemma_roles_texts_len(roles.skip(1));
    }
}

/// Editor ordering: a successful entity walk yields one editor per entity
/// in entity order, the first typed `stage` and all others `sprite`; the
/// role text places the single `global` editor before them.
#[verifier::rlimit(100)]
#[verifier::spinoff_prover]
pub proof fn lemma_editor_ordering(stage: Seq<char>, entities: Seq<Entity>, is_first: bool)
    requires
        entity_blocks(stage, entities, is_first) is Ok,
    ensures
        entity_blocks(stage, entities, is_first)->Ok_0.0.len() == entities.len(),
        forall|j: int|
            0 <= j < entities.len() ==> #[trigger] entity_blocks(
                stage,
                entities,
                is_first,
            )->Ok_0.0[j] == editor_json(
                if is_first && j == 0 {
                    "stage"@
                } else {
                    "sprite"@
                },
                entities[j].trans_name@,
                entity_value(stage, entities[j], is_first && j == 0)->Ok_0,
            ),
    decreases entities.len(),
{
    if entities.len() > 0 {
        lemma_editor_ordering(stage, entities.skip(1), false);
        let tail = entities.skip(1);
        let eds = entity_blocks(stage, entities, is_first)->Ok_0.0;
        let rest = entity_blocks(stage, tail, false)->Ok_0.0;
        assert(forall|j: int| 0 <= j < tail.len() ==> #[trigger] tail[j] == entities[j + 1]);
        assert forall|j: int| 0 <= j < entities.len() implies #[trigger] eds[j] == editor_json(
            if is_first && j == 0 {
                "stage"@
            } else {
                "sprite"@
            },
            entities[j].trans_name@,
            entity_value(stage, entities[j], is_first && j == 0)->Ok_0,
        ) by {
            if j > 0 {
                assert(eds[j] == rest[j - 1]);
                assert(rest[j - 1] == editor_json(
                    "sprite"@,
                    tail[j - 1].trans_name@,
                    entity_value(stage, tail[j - 1], false)->Ok_0,
                ));
            }
        }
    }
}

/// Wrap discipline for variable and field assignment: the emitted line is
/// the assignment target, ` = `, and the wrapped right-hand side.
pub proof fn lemma_assign_wraps(stage: Seq<char>, s: Stmt)
    requires
        s.kind matches StmtKind::Assign { .. },
    ensures
        lower_stmt(stage, s) == as_line(
            un1(
                lower_expr(stage, *s.kind->Assign_value),
                var_text(s.kind->Assign_var) + " = "@,
                true,
                ""@,
                WrapKind::Unknown,
            ),
            comment_text(opt_view(s.comment)),
        ),
        lower_expr(stage, *s.kind->Assign_value) is Ok ==> lower_stmt(stage, s)->Ok_0
            == seq![var_text(s.kind->Assign_var) + " = "@ + wrapped(
            lower_expr(stage, *s.kind->Assign_value)->Ok_0,
        ) + ""@ + comment_text(opt_view(s.comment))],
{
}

/// Wrap discipline for augmented assignment: the emitted line is the
/// target, ` += `, and the wrapped right-hand side.
pub proof fn lemma_add_assign_wraps(stage: Seq<char>, s: Stmt)
    requires
        s.kind matches StmtKind::AddAssign { .. },
    ensures
        lower_expr(stage, *s.kind->AddAssign_value) is Ok ==> lower_stmt(stage, s)->Ok_0
            == seq![var_text(s.kind->AddAssign_var) + " += "@ + wrapped(
            lower_expr(stage, *s.kind->AddAssign_value)->Ok_0,
        ) + ""@ + comment_text(opt_view(s.comment))],
{
}

/// Wrap discipline for local declarations: every line the declaration arm
/// emits binds a declared name to the wrapped zero; the statement's comment
/// rides on the first emitted line, as the arm for local declarations
/// states directly.
pub proof fn lemma_declare_locals_wrap(vars: Seq<crate::ast::VariableDef>, j: int)
    requires
        0 <= j <= vars.len(),
    ensures
        crate::stmt::decl_lines(vars, j).len() == vars.len() - j,
        forall|k: int|
            j <= k < vars.len() ==> #[trigger] crate::stmt::decl_lines(vars, j)[k - j]
                == vars[k].trans_name@ + " = snap.wrap(0)"@,
    decreases vars.len() - j,
{
    if j < vars.len() {
        lemma_declare_locals_wrap(vars, j + 1);
        assert forall|k: int|
            j <= k < vars.len() implies #[trigger] crate::stmt::decl_lines(vars, j)[k - j]
            == vars[k].trans_name@ + " = snap.wrap(0)"@ by {
            if k > j {
                assert(crate::stmt::decl_lines(vars, j)[k - j] == crate::stmt::decl_lines(
                    vars,
                    j + 1,
                )[k - (j + 1)]);
            }
        }
    }
}

/// Indentation discipline, head: a nonempty indented block starts with
/// exactly four added spaces.
pub proof fn lemma_indent_four_spaces(s: Seq<char>)
    requires
        s.len() > 0,
    ensures
        indented(s).len() >= 4,
        indented(s).subrange(0, 4) == "    "@,
{
    reveal_strlit("    ");
    assert(indented(s).subrange(0, 4) =~= "    "@);
}

/// Indentation discipline, line breaks: indenting distributes over a line
/// break, so every line of a block is indented by the same four spaces.
pub proof fn lemma_indent_splits(a: Seq<char>, b: Seq<char>)
    requires
        a.len() > 0,
        b.len() > 0,
        a[a.len() - 1] != '\r',
    ensures
        indented(a + "\n"@ + b) == indented(a) + "\n"@ + indented(b),
{
    reveal_strlit("\n");
    reveal_strlit("    ");
    reveal_strlit("\n    ");
    lemma_indent_rest_splits(a, b);
    assert("\n    "@ =~= "\n"@ + "    "@);
    assert((a + "\n"@ + b).len() > 0);
    assert(indented(a + "\n"@ + b) =~= indented(a) + "\n"@ + indented(b));
}

proof fn lemma_indent_rest_splits(a: Seq<char>, b: Seq<char>)
    requires
        a.len() > 0 ==> a[a.len() - 1] != '\r',
    ensures
        indent_rest(a + "\n"@ + b) == indent_rest(a) + "\n    "@ + indent_rest(b),
    decreases a.len(),
{
    reveal_strlit("\n");
    reveal_strlit("\n    ");
    let s = a + "\n"@ + b;
    if a.len() == 0 {
        assert(s =~= "\n"@ + b);
        assert(s[0] == '\n');
        assert(s.skip(1) =~= b);
        assert(indent_rest(a) =~= Seq::<char>::empty());
        assert(indent_rest(s) =~= indent_rest(a) + "\n    "@ + indent_rest(b));
    } else {
        let a1 = a.skip(1);
        if a.len() >= 2 {
            assert(a1[a1.len() - 1] == a[a.len() - 1]);
        }
        lemma_indent_rest_splits(a1, b);
        assert(s.skip(1) =~= a1 + "\n"@ + b);
        if a[0] == '\r' && a.len() >= 2 && a[1] == '\n' {
            assert(s[0] == '\r' && s.len() >= 2 && s[1] == '\n');
            assert(s.skip(2) =~= a.skip(2) + "\n"@ + b);
            let a2 = a.skip(2);
            if a2.len() > 0 {
                assert(a2[a2.len() - 1] == a[a.len() - 1]);
            }
            lemma_indent_rest_splits(a2, b);
            assert(a1.skip(1) =~= a2);
            assert(indent_rest(s) =~= indent_rest(a) + "\n    "@ + indent_rest(b));
        } else if a[0] == '\n' {
            assert(s[0] == '\n');
            assert(!(s[0] == '\r' && s.len() >= 2 && s[1] == '\n'));
            assert(indent_rest(s) =~= indent_rest(a) + "\n    "@ + indent_rest(b));
        } else {
            assert(s[0] == a[0]);
            if a[0] == '\r' {
                if a.len() == 1 {
                    assert(false);
                } else {
                    assert(s[1] == a[1] && a[1] != '\n');
                }
            }
            assert(!(s[0] == '\r' && s.len() >= 2 && s[1] == '\n'));
            assert(!(s[0] == '\n'));
            assert(indent_rest(s) =~= indent_rest(a) + "\n    "@ + indent_rest(b));
        }
    }
}

/// The empty statement sequence lowers to the single mandatory no-op line.
pub proof fn lemma_empty_body_pass(stage: Seq<char>)
    ensures
        stmts_code(stage, Seq::empty()) == Result::<Seq<char>, TranslateError>::Ok("pass"@),
{
}

/// Keyword-argument emission shapes: each of the four combinations of
/// present and absent identifier and non-identifier entries has its fixed
/// shape, and no arguments at all emit nothing, not even the prefix.
pub proof fn lemma_kwargs_shapes(
    stage: Seq<char>,
    args: Seq<(String, Expr)>,
    prefix: Seq<char>,
    wrap_vals: bool,
)
    requires
        kwarg_pairs(stage, args, 0, wrap_vals) is Ok,
    ensures
        ({
            let pair = kwarg_pairs(stage, args, 0, wrap_vals)->Ok_0;
            &&& (pair.0.len() > 0 && pair.1.len() > 0 ==> kwargs_text(stage, args, prefix, wrap_vals)
                == Result::<Seq<char>, TranslateError>::Ok(
                prefix + joined(pair.0, ", "@) + ", **{ "@ + joined(pair.1, ", "@) + " }"@,
            ))
            &&& (pair.0.len() > 0 && pair.1.len() == 0 ==> kwargs_text(
                stage,
                args,
                prefix,
                wrap_vals,
            ) == Result::<Seq<char>, TranslateError>::Ok(prefix + joined(pair.0, ", "@)))
            &&& (pair.0.len() == 0 && pair.1.len() > 0 ==> kwargs_text(
                stage,
                args,
                prefix,
                wrap_vals,
            ) == Result::<Seq<char>, TranslateError>::Ok(
                prefix + "**{ "@ + joined(pair.1, ", "@) + " }"@,
            ))
            &&& (pair.0.len() == 0 && pair.1.len() == 0 ==> kwargs_text(
                stage,
                args,
                prefix,
                wrap_vals,
            ) == Result::<Seq<char>, TranslateError>::Ok(Seq::<char>::empty()))
        }),
{
}

/// The elif peephole: an if/else whose else branch is exactly one if or
/// if/else emits the nested lowering prefixed with `el`, never a nested
/// `else:` block; with the nested block starting `if `, the junction reads
/// `elif `.
pub proof fn lemma_elif_peephole(stage: Seq<char>, s: Stmt)
    requires
        s.kind matches StmtKind::IfElse { .. },
        s.kind->IfElse_otherwise@.len() == 1,
        s.kind->IfElse_otherwise@[0].kind matches StmtKind::If { .. }
            || s.kind->IfElse_otherwise@[0].kind matches StmtKind::IfElse { .. },
        lower_expr(stage, *s.kind->IfElse_condition) is Ok,
        stmts_code(stage, s.kind->IfElse_then@) is Ok,
        stmts_code(stage, s.kind->IfElse_otherwise@) is Ok,
    ensures
        lower_stmt(stage, s) == Result::<Seq<Seq<char>>, TranslateError>::Ok(
            seq!["if "@ + wrapped(lower_expr(stage, *s.kind->IfElse_condition)->Ok_0) + ":"@
                + comment_text(opt_view(s.comment)) + "\n"@ + indented(
                stmts_code(stage, s.kind->IfElse_then@)->Ok_0,
            ) + "\nel"@ + stmts_code(stage, s.kind->IfElse_otherwise@)->Ok_0],
        ),
{
    assert(lower_stmt(stage, s) == crate::stmt::lower_stmt_s2(stage, s));
}

/// Unsupported-construct faithfulness for statements: a statement kind
/// with no lowering reports exactly the offending node, comment included.
pub proof fn lemma_unsupported_stmt(stage: Seq<char>, s: Stmt)
    requires
        s.kind matches StmtKind::ShowVar { .. } || s.kind matches StmtKind::HideVar { .. }
            || s.kind matches StmtKind::PlaySound { .. } || s.kind matches StmtKind::StopSounds
            || s.kind matches StmtKind::ResetTimer || s.kind matches StmtKind::DeleteClone
            || s.kind matches StmtKind::UnknownBlock { .. },
    ensures
        lower_stmt(stage, s) == Result::<Seq<Seq<char>>, TranslateError>::Err(
            TranslateError::UnsupportedStmt(Box::new(s)),
        ),
{
    assert(lower_stmt(stage, s) == crate::stmt::lower_stmt_s4(stage, s));
}

/// Unsupported-construct faithfulness for expressions.
pub proof fn lemma_unsupported_expr(stage: Seq<char>, e: Expr)
    requires
        e matches Expr::Timer || e matches Expr::Message || e matches Expr::IsTouchingMouse || e
            matches Expr::IsTouchingEdge || e matches Expr::IsTouchingDrawings || e
            matches Expr::CostumeList || e matches Expr::SoundList || e
            matches Expr::SoundDuration { .. },
    ensures
        lower_expr(stage, e) == Result::<(Seq<char>, WrapKind), TranslateError>::Err(
            TranslateError::UnsupportedExpr(Box::new(e)),
        ),
{
}

/// Unsupported-construct faithfulness for event bindings.
pub proof fn lemma_unsupported_hat(stage: Seq<char>, h: Hat, idx: nat)
    requires
        h.kind matches HatKind::MouseEnter || h.kind matches HatKind::MouseLeave || h.kind
            matches HatKind::Dropped || h.kind matches HatKind::Stopped,
    ensures
        crate::stmt::lower_hat(stage, h, idx) == Result::<Seq<char>, TranslateError>::Err(
            TranslateError::UnsupportedHat(Box::new(h)),
        ),
{
}

} // verus!
