//! The project assembler: walks a parsed project, drives the lowerers once
//! per script, field, function and global, composes each entity's source
//! text, and emits the compact JSON envelope.

use vstd::prelude::*;

use crate::ast::{Costume, Entity, Function, ImageCenter, Project, Role, Script, TranslateError,
    VariableDefInit};
use crate::json::{jesc, jstr, jstr_exec};
use crate::lower::{expr_wf, hat_wf, lower_value, lower_value_exec, param_names, stmts_wf,
    value_ok, wrap, wrapped};
use crate::stmt::{lower_hat, lower_hat_exec, stmts_code, stmts_code_exec};
use crate::text::{cat2, cat3, cat4, cat5, cat6, cat7, cat8, dec_of, escape, escaped, fmt_u64,
    indent, indented, join_strs, joined, views_of};

verus! {

/// What the base64 encoding of a byte string is; a pure function of the
/// bytes alone.
pub uninterp spec fn base64_of(b: Seq<u8>) -> Seq<char>;

/// Relies on the base64 crate's standard alphabet engine with padding: the
/// encoding depends on the input bytes alone.
#[verifier::external_body]
fn b64_encode(b: &Vec<u8>) -> (r: String)
    ensures
        r@ == base64_of(b@),
{
    base64::Engine::encode(&base64::engine::general_purpose::STANDARD, b.as_slice())
}

// ------------------------------------------------------------------
// The invariant the parser guarantees of a whole project.
// ------------------------------------------------------------------

pub open spec fn function_wf(f: Function) -> bool {
    stmts_wf(f.stmts@)
}

pub open spec fn script_wf(s: Script) -> bool {
    (match s.hat {
        Option::Some(h) => hat_wf(h),
        Option::None => true,
    }) && stmts_wf(s.stmts@)
}

pub open spec fn inits_ok(defs: Seq<VariableDefInit>) -> bool {
    forall|i: int| 0 <= i < defs.len() ==> value_ok(#[trigger] defs[i].init)
}

pub open spec fn entity_wf(e: Entity) -> bool {
    &&& inits_ok(e.fields@)
    &&& (forall|i: int| 0 <= i < e.funcs@.len() ==> function_wf(#[trigger] e.funcs@[i]))
    &&& (forall|i: int| 0 <= i < e.scripts@.len() ==> script_wf(#[trigger] e.scripts@[i]))
    &&& (match e.active_costume {
        Option::Some(idx) => idx < e.costumes@.len(),
        Option::None => true,
    })
}

pub open spec fn role_wf(r: Role) -> bool {
    &&& r.entities@.len() > 0
    &&& inits_ok(r.globals@)
    &&& (forall|i: int| 0 <= i < r.funcs@.len() ==> function_wf(#[trigger] r.funcs@[i]))
    &&& (forall|i: int| 0 <= i < r.entities@.len() ==> entity_wf(#[trigger] r.entities@[i]))
}

/// The invariant the parser guarantees of every project it hands over.
pub open spec fn project_wf(p: Project) -> bool {
    forall|i: int| 0 <= i < p.roles@.len() ==> role_wf(#[trigger] p.roles@[i])
}

// ------------------------------------------------------------------
// The assembled texts.
// ------------------------------------------------------------------

/// The `name = value` lines of declared variables with their wrapped
/// initializers, from index `i` on.
pub open spec fn init_lines(defs: Seq<VariableDefInit>, i: int) -> Seq<char>
    decreases defs.len() - i,
{
    if i < 0 || i >= defs.len() {
        Seq::empty()
    } else {
        defs[i].def.trans_name@ + " = "@ + wrapped(lower_value(defs[i].init)) + "\n"@
            + init_lines(defs, i + 1)
    }
}

/// The parameter list of an emitted function definition, with the receiver
/// prepended for methods.
pub open spec fn fn_params(params_names: Seq<Seq<char>>, with_self: bool) -> Seq<char> {
    if with_self {
        joined(seq!["self"@] + params_names, ", "@)
    } else {
        joined(params_names, ", "@)
    }
}

/// The emitted definitions of the given functions, each a `def` header
/// and an indented body followed by a blank line.
pub open spec fn funcs_code(stage: Seq<char>, funcs: Seq<Function>, with_self: bool) -> Result<
    Seq<char>,
    TranslateError,
>
    decreases funcs.len(),
{
    if funcs.len() == 0 {
        Result::Ok(Seq::empty())
    } else {
        match stmts_code(stage, funcs[0].stmts@) {
            Result::Err(e) => Result::Err(e),
            Result::Ok(body) => match funcs_code(stage, funcs.skip(1), with_self) {
                Result::Err(e) => Result::Err(e),
                Result::Ok(rest) => Result::Ok(
                    "def "@ + funcs[0].trans_name@ + "("@ + fn_params(
                        param_names(funcs[0].params@, 0),
                        with_self,
                    ) + "):\n"@ + indented(body) + "\n\n"@ + rest,
                ),
            },
        }
    }
}

/// The formatted source fragments of the given scripts; a script without
/// an event binding is dropped, `emitted` counts those already kept.
pub open spec fn script_frags(stage: Seq<char>, scripts: Seq<Script>, emitted: nat) -> Result<
    Seq<Seq<char>>,
    TranslateError,
>
    decreases scripts.len(),
{
    if scripts.len() == 0 {
        Result::Ok(Seq::empty())
    } else {
        match scripts[0].hat {
            Option::None => script_frags(stage, scripts.skip(1), emitted),
            Option::Some(h) => match lower_hat(stage, h, emitted + 1) {
                Result::Err(e) => Result::Err(e),
                Result::Ok(hd) => match stmts_code(stage, scripts[0].stmts@) {
                    Result::Err(e) => Result::Err(e),
                    Result::Ok(body) => match script_frags(stage, scripts.skip(1), emitted + 1) {
                        Result::Err(e) => Result::Err(e),
                        Result::Ok(rest) => Result::Ok(seq![hd + indented(body)] + rest),
                    },
                },
            },
        }
    }
}

/// The script fragments from index `i` on, each closed with a blank line.
pub open spec fn frags_text(frags: Seq<Seq<char>>, i: int) -> Seq<char>
    decreases frags.len() - i,
{
    if i < 0 || i >= frags.len() {
        Seq::empty()
    } else {
        frags[i] + "\n\n"@ + frags_text(frags, i + 1)
    }
}

/// The costume registrations of a sprite constructor, from index `i` on.
pub open spec fn costume_lines(ename: Seq<char>, costumes: Seq<Costume>, i: int) -> Seq<char>
    decreases costumes.len() - i,
{
    if i < 0 || i >= costumes.len() {
        Seq::empty()
    } else {
        "    self.costumes.add('"@ + escaped(costumes[i].img.name@) + "', images."@ + ename
            + "_cst_"@ + costumes[i].trans_name@ + ")\n"@ + costume_lines(ename, costumes, i + 1)
    }
}

/// The active-costume line of a constructor: the costume's display name
/// when an index is set, else the target's `None`.
pub open spec fn active_costume_line(e: Entity) -> Seq<char> {
    match e.active_costume {
        Option::Some(idx) => "    self.costume = '"@ + escaped(e.costumes@[idx as int].img.name@)
            + "'\n"@,
        Option::None => "    self.costume = None\n"@,
    }
}

/// The globals editor's source: the import line, the wrapped globals, and
/// the role-level function definitions.
pub open spec fn globals_value(stage: Seq<char>, r: Role) -> Result<Seq<char>, TranslateError> {
    match funcs_code(stage, r.funcs@, false) {
        Result::Err(e) => Result::Err(e),
        Result::Ok(fc) => Result::Ok(
            "from netsblox import snap\n\n"@ + init_lines(r.globals@, 0) + (if r.globals@.len()
                > 0 {
                "\n"@
            } else {
                Seq::<char>::empty()
            }) + fc,
        ),
    }
}

/// One editor object of the envelope.
pub open spec fn editor_json(ty: Seq<char>, name: Seq<char>, value: Seq<char>) -> Seq<char> {
    "{\"type\":"@ + jstr(ty) + ",\"name\":"@ + jstr(name) + ",\"value\":"@ + jstr(value) + "}"@
}

/// The rotation-center number texts of a costume, or the error for an
/// image in no recognised format.
pub open spec fn center_texts(c: ImageCenter) -> Result<(Seq<char>, Seq<char>), TranslateError> {
    match c {
        ImageCenter::Absent => Result::Ok(("0.0"@, "0.0"@)),
        ImageCenter::At(x, y) => Result::Ok((x@, y@)),
        ImageCenter::Undecodable => Result::Err(TranslateError::UnknownImageFormat),
    }
}

/// The image-map members of one entity's costumes, from index `i` on.
pub open spec fn entity_images(ename: Seq<char>, costumes: Seq<Costume>, i: int) -> Result<
    Seq<Seq<char>>,
    TranslateError,
>
    decreases costumes.len() - i,
{
    if i < 0 || i >= costumes.len() {
        Result::Ok(Seq::empty())
    } else {
        match center_texts(costumes[i].img.center) {
            Result::Err(e) => Result::Err(e),
            Result::Ok(ct) => match entity_images(ename, costumes, i + 1) {
                Result::Err(e) => Result::Err(e),
                Result::Ok(rest) => Result::Ok(
                    seq![jstr(ename + "_cst_"@ + costumes[i].trans_name@) + ":{\"img\":"@ + jstr(
                        base64_of(costumes[i].img.bytes@),
                    ) + ",\"center\":["@ + ct.0 + ","@ + ct.1 + "]}"@] + rest,
                ),
            },
        }
    }
}

/// An entity's editor source: fields, the stage's answer slot, the
/// constructor, the methods, and the formatted script fragments.
pub open spec fn entity_value(stage: Seq<char>, e: Entity, is_stage: bool) -> Result<
    Seq<char>,
    TranslateError,
> {
    match script_frags(stage, e.scripts@, 0) {
        Result::Err(err) => Result::Err(err),
        Result::Ok(frags) => match funcs_code(stage, e.funcs@, true) {
            Result::Err(err) => Result::Err(err),
            Result::Ok(fc) => Result::Ok(
                init_lines(e.fields@, 0) + (if e.fields@.len() > 0 {
                    "\n"@
                } else {
                    Seq::<char>::empty()
                }) + (if is_stage {
                    "last_answer = snap.wrap('')\n\n"@
                } else {
                    Seq::<char>::empty()
                }) + "def __init__(self):\n"@ + (if !is_stage {
                    "    self.pos = ("@ + e.pos.0@ + ", "@ + e.pos.1@ + ")\n"@
                        + "    self.heading = "@ + e.heading@ + "\n"@ + "    self.pen_color = ("@
                        + dec_of(e.color.0 as nat) + ", "@ + dec_of(e.color.1 as nat) + ", "@
                        + dec_of(e.color.2 as nat) + ")\n"@ + "    self.scale = "@ + e.scale@
                        + "\n"@ + "    self.visible = "@ + (if e.visible {
                        "True"@
                    } else {
                        "False"@
                    }) + "\n"@ + costume_lines(e.trans_name@, e.costumes@, 0)
                } else {
                    Seq::<char>::empty()
                }) + active_costume_line(e) + "\n"@ + fc + frags_text(frags, 0),
            ),
        },
    }
}

/// The editor objects and image-map members of the given entities: for
/// each entity its editor, then its costume images. `is_first` marks the
/// role's stage, which heads the entity list.
pub open spec fn entity_blocks(stage: Seq<char>, entities: Seq<Entity>, is_first: bool) -> Result<
    (Seq<Seq<char>>, Seq<Seq<char>>),
    TranslateError,
>
    decreases entities.len(),
{
    if entities.len() == 0 {
        Result::Ok((Seq::empty(), Seq::empty()))
    } else {
        match entity_value(stage, entities[0], is_first) {
            Result::Err(e) => Result::Err(e),
            Result::Ok(v) => match entity_images(entities[0].trans_name@, entities[0].costumes@, 0) {
                Result::Err(e) => Result::Err(e),
                Result::Ok(imgs) => match entity_blocks(stage, entities.skip(1), false) {
                    Result::Err(e) => Result::Err(e),
                    Result::Ok(rest) => Result::Ok(
                        (
                            seq![editor_json(
                                if is_first {
                                    "stage"@
                                } else {
                                    "sprite"@
                                },
                                entities[0].trans_name@,
                                v,
                            )] + rest.0,
                            imgs + rest.1,
                        ),
                    ),
                },
            },
        }
    }
}

/// One role's envelope object: name, stage size, the preset block sources,
/// the imports, the ordered editors (globals, stage, sprites), and the
/// costume image map.
pub open spec fn role_text(r: Role) -> Result<Seq<char>, TranslateError> {
    let stage = r.entities@[0].trans_name@;
    match globals_value(stage, r) {
        Result::Err(e) => Result::Err(e),
        Result::Ok(gv) => match entity_blocks(stage, r.entities@, true) {
            Result::Err(e) => Result::Err(e),
            Result::Ok(blocks) => Result::Ok(
                "{\"name\":"@ + jstr(r.name@) + ",\"stage_size\":["@ + dec_of(
                    r.stage_size.0 as nat,
                ) + ","@ + dec_of(r.stage_size.1 as nat)
                    + "],\"block_sources\":[\"netsblox://assets/default-blocks.json\"],\"blocks\":[],\"imports\":[\"time\",\"math\"],\"editors\":["@
                    + joined(seq![editor_json("global"@, "global"@, gv)] + blocks.0, ","@)
                    + "],\"images\":{"@ + joined(blocks.1, ","@) + "}}"@,
            ),
        },
    }
}

/// The envelope objects of the given roles, in order.
pub open spec fn roles_texts(roles: Seq<Role>) -> Result<Seq<Seq<char>>, TranslateError>
    decreases roles.len(),
{
    if roles.len() == 0 {
        Result::Ok(Seq::empty())
    } else {
        match role_text(roles[0]) {
            Result::Err(e) => Result::Err(e),
            Result::Ok(t) => match roles_texts(roles.skip(1)) {
                Result::Err(e) => Result::Err(e),
                Result::Ok(rest) => Result::Ok(seq![t] + rest),
            },
        }
    }
}

/// The whole translation: the project name and the compact JSON envelope,
/// or the first error met walking the roles in order; a project with no
/// role is rejected.
pub open spec fn translate_spec(p: Project) -> Result<(Seq<char>, Seq<char>), TranslateError> {
    if p.roles@.len() == 0 {
        Result::Err(TranslateError::NoRoles)
    } else {
        match roles_texts(p.roles@) {
            Result::Err(e) => Result::Err(e),
            Result::Ok(rs) => Result::Ok(
                (p.name@, "{\"roles\":["@ + joined(rs, ","@) + "]}"@),
            ),
        }
    }
}

} // verus!
verus! {

/// The `name = value` initializer lines.
#[verifier::loop_isolation(false)]
fn init_lines_exec(defs: &Vec<VariableDefInit>) -> (res: String)
    requires
        inits_ok(defs@),
    ensures
        res@ == init_lines(defs@, 0),
{
    let n = defs.len();
    let mut res = String::new();
    let mut i: usize = 0;
    while i < n
        invariant
            i <= n,
            res@ + init_lines(defs@, i as int) == init_lines(defs@, 0),
        decreases n - i,
    {
        let p = lower_value_exec(&defs[i].init);
        let w = wrap(p);
        let ghost prev = res@;
        res.append(defs[i].def.trans_name.as_str());
        res.append(" = ");
        res.append(w.as_str());
        res.append("\n");
        proof {
            assert(res@ + init_lines(defs@, i + 1 as int) =~= prev + init_lines(
                defs@,
                i as int,
            ));
        }
        i = i + 1;
    }
    proof {
        assert(init_lines(defs@, n as int) =~= Seq::<char>::empty());
        assert(res@ =~= res@ + init_lines(defs@, n as int));
    }
    res
}

/// The parameter list of an emitted function definition.
#[verifier::loop_isolation(false)]
fn fn_params_exec(params: &Vec<crate::ast::VariableDef>, with_self: bool) -> (res: String)
    ensures
        res@ == fn_params(param_names(params@, 0), with_self),
{
    let n = params.len();
    let mut names: Vec<String> = Vec::new();
    if with_self {
        names.push(String::from_str("self"));
    }
    let mut i: usize = 0;
    while i < n
        invariant
            i <= n,
            views_of(names@) == (if with_self {
                seq!["self"@]
            } else {
                Seq::<Seq<char>>::empty()
            }) + param_names(params@, 0).take(i as int),
        decreases n - i,
    {
        let name = String::from_str(params[i].trans_name.as_str());
        let ghost prev = names@;
        names.push(name);
        proof {
            lemma_param_names_index(params@, i as int);
            assert(param_names(params@, 0).take(i + 1 as int) =~= param_names(
                params@,
                0,
            ).take(i as int).push(params@[i as int].trans_name@));
            assert(views_of(names@) =~= views_of(prev).push(params@[i as int].trans_name@));
            assert(views_of(names@) =~= (if with_self {
                seq!["self"@]
            } else {
                Seq::<Seq<char>>::empty()
            }) + param_names(params@, 0).take(i + 1 as int));
        }
        i = i + 1;
    }
    proof {
        assert(param_names(params@, 0).take(n as int) =~= param_names(params@, 0)) by {
            lemma_param_names_len(params@);
        }
        if with_self {
            assert(views_of(names@) =~= seq!["self"@] + param_names(params@, 0));
        } else {
            assert(views_of(names@) =~= param_names(params@, 0));
        }
    }
    join_strs(&names, ", ")
}

proof fn lemma_param_names_index(params: Seq<crate::ast::VariableDef>, i: int)
    requires
        0 <= i < params.len(),
    ensures
        param_names(params, 0).len() == params.len(),
        param_names(params, 0)[i] == params[i].trans_name@,
{
    lemma_param_names_from(params, 0, i);
}

proof fn lemma_param_names_len(params: Seq<crate::ast::VariableDef>)
    ensures
        param_names(params, 0).len() == params.len(),
{
    lemma_param_names_len_from(params, 0);
}

proof fn lemma_param_names_len_from(params: Seq<crate::ast::VariableDef>, j: int)
    requires
        0 <= j <= params.len(),
    ensures
        param_names(params, j).len() == params.len() - j,
    decreases params.len() - j,
{
    if j < params.len() {
        lemma_param_names_len_from(params, j + 1);
    }
}

proof fn lemma_param_names_from(params: Seq<crate::ast::VariableDef>, j: int, i: int)
    requires
        0 <= j <= i < params.len(),
    ensures
        param_names(params, j).len() == params.len() - j,
        param_names(params, j)[i - j] == params[i].trans_name@,
    decreases i - j,
{
    lemma_param_names_len_from(params, j);
    if j < i {
        lemma_param_names_from(params, j + 1, i);
    }
}

/// The emitted function definitions.
#[verifier::loop_isolation(false)]
#[verifier::rlimit(100)]
#[verifier::spinoff_prover]
fn funcs_code_exec(stage: &str, funcs: Vec<Function>, with_self: bool) -> (r: Result<
    String,
    TranslateError,
>)
    requires
        forall|i: int| 0 <= i < funcs@.len() ==> function_wf(#[trigger] funcs@[i]),
    ensures
        crate::lower::sview(r) == funcs_code(stage@, funcs@, with_self),
    decreases funcs@.len(),
{
    let ghost gfuncs = funcs@;
    let mut funcs = funcs;
    if funcs.len() == 0 {
        let res = String::new();
        proof {
            assert(res@ =~= Seq::<char>::empty());
        }
        return Result::Ok(res);
    }
    let f = funcs.remove(0);
    proof {
        assert(f == gfuncs[0]);
        assert(funcs@ =~= gfuncs.skip(1));
        assert(forall|j: int| 0 <= j < funcs@.len() ==> funcs@[j] == gfuncs[j + 1]);
    }
    let params = fn_params_exec(&f.params, with_self);
    match stmts_code_exec(stage, f.stmts) {
        Result::Err(e) => Result::Err(e),
        Result::Ok(body) => {
            let ind = indent(body.as_str());
            match funcs_code_exec(stage, funcs, with_self) {
                Result::Err(e) => Result::Err(e),
                Result::Ok(rest) => {
                    let mut res = String::from_str("def ");
                    res.append(f.trans_name.as_str());
                    res.append("(");
                    res.append(params.as_str());
                    res.append("):\n");
                    res.append(ind.as_str());
                    res.append("\n\n");
                    res.append(rest.as_str());
                    proof {
                        assert(res@ =~= "def "@ + gfuncs[0].trans_name@ + "("@ + fn_params(
                            param_names(gfuncs[0].params@, 0),
                            with_self,
                        ) + "):\n"@ + indented(body@) + "\n\n"@ + rest@);
                    }
                    Result::Ok(res)
                },
            }
        },
    }
}

/// The formatted source fragments of an entity's scripts; `emitted` counts
/// the fragments already produced for the entity.
#[verifier::loop_isolation(false)]
#[verifier::rlimit(100)]
#[verifier::spinoff_prover]
fn script_frags_exec(stage: &str, scripts: Vec<Script>, emitted: u64) -> (r: Result<
    Vec<String>,
    TranslateError,
>)
    requires
        forall|i: int| 0 <= i < scripts@.len() ==> script_wf(#[trigger] scripts@[i]),
        emitted + scripts@.len() <= u64::MAX,
    ensures
        crate::expr::vres_view(r) == script_frags(stage@, scripts@, emitted as nat),
    decreases scripts@.len(),
{
    let ghost gscripts = scripts@;
    let mut scripts = scripts;
    if scripts.len() == 0 {
        let out: Vec<String> = Vec::new();
        proof {
            assert(views_of(out@) =~= Seq::<Seq<char>>::empty());
        }
        return Result::Ok(out);
    }
    let sc = scripts.remove(0);
    proof {
        assert(sc == gscripts[0]);
        assert(scripts@ =~= gscripts.skip(1));
        assert(forall|j: int| 0 <= j < scripts@.len() ==> scripts@[j] == gscripts[j + 1]);
    }
    match sc.hat {
        Option::None => script_frags_exec(stage, scripts, emitted),
        Option::Some(h) => {
            match lower_hat_exec(stage, h, emitted + 1) {
                Result::Err(e) => Result::Err(e),
                Result::Ok(hd) => {
                    match stmts_code_exec(stage, sc.stmts) {
                        Result::Err(e) => Result::Err(e),
                        Result::Ok(body) => {
                            match script_frags_exec(stage, scripts, emitted + 1) {
                                Result::Err(e) => Result::Err(e),
                                Result::Ok(rest) => {
                                    let ind = indent(body.as_str());
                                    let frag = cat2(hd.as_str(), ind.as_str());
                                    let ghost grest = rest@;
                                    let mut out = rest;
                                    out.insert(0, frag);
                                    proof {
                                        assert(out@ =~= seq![frag].add(grest));
                                        assert(views_of(out@) =~= seq![frag@] + views_of(grest));
                                    }
                                    Result::Ok(out)
                                },
                            }
                        },
                    }
                },
            }
        },
    }
}

/// The script fragments, each closed with a blank line.
#[verifier::loop_isolation(false)]
fn frags_text_exec(frags: &Vec<String>) -> (res: String)
    ensures
        res@ == frags_text(views_of(frags@), 0),
{
    let n = frags.len();
    let mut res = String::new();
    let mut i: usize = 0;
    while i < n
        invariant
            i <= n,
            res@ + frags_text(views_of(frags@), i as int) == frags_text(views_of(frags@), 0),
        decreases n - i,
    {
        let ghost prev = res@;
        res.append(frags[i].as_str());
        res.append("\n\n");
        proof {
            assert(res@ + frags_text(views_of(frags@), i + 1 as int) =~= prev + frags_text(
                views_of(frags@),
                i as int,
            ));
        }
        i = i + 1;
    }
    proof {
        assert(frags_text(views_of(frags@), n as int) =~= Seq::<char>::empty());
        assert(res@ =~= res@ + frags_text(views_of(frags@), n as int));
    }
    res
}

/// The costume registrations of a sprite constructor.
#[verifier::loop_isolation(false)]
fn costume_lines_exec(ename: &str, costumes: &Vec<Costume>) -> (res: String)
    ensures
        res@ == costume_lines(ename@, costumes@, 0),
{
    let n = costumes.len();
    let mut res = String::new();
    let mut i: usize = 0;
    while i < n
        invariant
            i <= n,
            res@ + costume_lines(ename@, costumes@, i as int) == costume_lines(
                ename@,
                costumes@,
                0,
            ),
        decreases n - i,
    {
        let esc = escape(costumes[i].img.name.as_str());
        let ghost prev = res@;
        res.append("    self.costumes.add('");
        res.append(esc.as_str());
        res.append("', images.");
        res.append(ename);
        res.append("_cst_");
        res.append(costumes[i].trans_name.as_str());
        res.append(")\n");
        proof {
            assert(res@ + costume_lines(ename@, costumes@, i + 1 as int) =~= prev + costume_lines(
                ename@,
                costumes@,
                i as int,
            ));
        }
        i = i + 1;
    }
    proof {
        assert(costume_lines(ename@, costumes@, n as int) =~= Seq::<char>::empty());
        assert(res@ =~= res@ + costume_lines(ename@, costumes@, n as int));
    }
    res
}

/// The image-map members of an entity's costumes.
#[verifier::loop_isolation(false)]
fn entity_images_exec(ename: &str, costumes: &Vec<Costume>) -> (r: Result<
    Vec<String>,
    TranslateError,
>)
    ensures
        crate::expr::vres_view(r) == entity_images(ename@, costumes@, 0),
{
    let n = costumes.len();
    let mut out: Vec<String> = Vec::new();
    let mut i: usize = 0;
    while i < n
        invariant
            i <= n,
            (match entity_images(ename@, costumes@, i as int) {
                Result::Ok(rest) => entity_images(ename@, costumes@, 0) == Result::<
                    Seq<Seq<char>>,
                    TranslateError,
                >::Ok(views_of(out@) + rest),
                Result::Err(e) => entity_images(ename@, costumes@, 0) == Result::<
                    Seq<Seq<char>>,
                    TranslateError,
                >::Err(e),
            }),
        decreases n - i,
    {
        let (cx, cy): (String, String) = match &costumes[i].img.center {
            ImageCenter::Absent => (String::from_str("0.0"), String::from_str("0.0")),
            ImageCenter::At(x, y) => (
                String::from_str(x.as_str()),
                String::from_str(y.as_str()),
            ),
            ImageCenter::Undecodable => {
                proof {
                    assert(entity_images(ename@, costumes@, i as int) == Result::<
                        Seq<Seq<char>>,
                        TranslateError,
                    >::Err(TranslateError::UnknownImageFormat));
                }
                return Result::Err(TranslateError::UnknownImageFormat);
            },
        };
        let key = cat3(ename, "_cst_", costumes[i].trans_name.as_str());
        let jk = jstr_exec(key.as_str());
        let b64 = b64_encode(&costumes[i].img.bytes);
        let jb = jstr_exec(b64.as_str());
        let entry = cat8(
            jk.as_str(),
            ":{\"img\":",
            jb.as_str(),
            ",\"center\":[",
            cx.as_str(),
            ",",
            cy.as_str(),
            "]}",
        );
        let ghost prev = out@;
        out.push(entry);
        proof {
            assert(views_of(out@) =~= views_of(prev).push(entry@));
            match entity_images(ename@, costumes@, i + 1 as int) {
                Result::Ok(rest2) => {
                    assert(entry@ =~= jstr(ename@ + "_cst_"@ + costumes@[i as int].trans_name@)
                        + ":{\"img\":"@ + jstr(base64_of(costumes@[i as int].img.bytes@))
                        + ",\"center\":["@ + cx@ + ","@ + cy@ + "]}"@);
                    assert(views_of(out@) + rest2 =~= views_of(prev) + (seq![entry@] + rest2));
                },
                Result::Err(_) => {},
            }
        }
        i = i + 1;
    }
    proof {
        assert(entity_images(ename@, costumes@, n as int) =~= Result::<
            Seq<Seq<char>>,
            TranslateError,
        >::Ok(Seq::empty()));
        assert(views_of(out@) =~= views_of(out@) + Seq::<Seq<char>>::empty());
    }
    Result::Ok(out)
}

} // verus!
verus! {

/// The sprite-only constructor lines: position, heading, pen color,
/// scale, visibility and the costume registrations.
#[verifier::loop_isolation(false)]
#[verifier::rlimit(100)]
#[verifier::spinoff_prover]
fn sprite_ctor_exec(
    trans_name: &str,
    costumes: &Vec<Costume>,
    visible: bool,
    color: (u8, u8, u8, u8),
    pos0: &str,
    pos1: &str,
    heading: &str,
    scale: &str,
) -> (res: String)
    ensures
        res@ == "    self.pos = ("@ + pos0@ + ", "@ + pos1@ + ")\n"@ + "    self.heading = "@
            + heading@ + "\n"@ + "    self.pen_color = ("@ + dec_of(color.0 as nat) + ", "@
            + dec_of(color.1 as nat) + ", "@ + dec_of(color.2 as nat) + ")\n"@
            + "    self.scale = "@ + scale@ + "\n"@ + "    self.visible = "@ + (if visible {
            "True"@
        } else {
            "False"@
        }) + "\n"@ + costume_lines(trans_name@, costumes@, 0),
{
    let clines = costume_lines_exec(trans_name, costumes);
    let c0 = crate::text::fmt_u64(color.0 as u64);
    let c1 = crate::text::fmt_u64(color.1 as u64);
    let c2 = crate::text::fmt_u64(color.2 as u64);
    let mut res = String::from_str("    self.pos = (");
    res.append(pos0);
    res.append(", ");
    res.append(pos1);
    res.append(")\n");
    res.append("    self.heading = ");
    res.append(heading);
    res.append("\n");
    res.append("    self.pen_color = (");
    res.append(c0.as_str());
    res.append(", ");
    res.append(c1.as_str());
    res.append(", ");
    res.append(c2.as_str());
    res.append(")\n");
    res.append("    self.scale = ");
    res.append(scale);
    res.append("\n");
    res.append("    self.visible = ");
    res.append(
        if visible {
            "True"
        } else {
            "False"
        },
    );
    res.append("\n");
    res.append(clines.as_str());
    proof {
        assert(res@ =~= "    self.pos = ("@ + pos0@ + ", "@ + pos1@ + ")\n"@
            + "    self.heading = "@ + heading@ + "\n"@ + "    self.pen_color = ("@ + dec_of(
            color.0 as nat,
        ) + ", "@ + dec_of(color.1 as nat) + ", "@ + dec_of(color.2 as nat) + ")\n"@
            + "    self.scale = "@ + scale@ + "\n"@ + "    self.visible = "@ + (if visible {
            "True"@
        } else {
            "False"@
        }) + "\n"@ + costume_lines(trans_name@, costumes@, 0));
    }
    res
}

/// The editor objects and image-map members of the given entities.
#[verifier::loop_isolation(false)]
#[verifier::rlimit(100)]
#[verifier::spinoff_prover]
fn entity_blocks_exec(stage: &str, entities: Vec<Entity>, is_first: bool) -> (r: Result<
    (Vec<String>, Vec<String>),
    TranslateError,
>)
    requires
        forall|i: int| 0 <= i < entities@.len() ==> entity_wf(#[trigger] entities@[i]),
    ensures
        (match r {
            Result::Ok(pair) => entity_blocks(stage@, entities@, is_first) == Result::<
                (Seq<Seq<char>>, Seq<Seq<char>>),
                TranslateError,
            >::Ok((views_of(pair.0@), views_of(pair.1@))),
            Result::Err(e) => entity_blocks(stage@, entities@, is_first) == Result::<
                (Seq<Seq<char>>, Seq<Seq<char>>),
                TranslateError,
            >::Err(e),
        }),
    decreases entities@.len(),
{
    let ghost gents = entities@;
    let mut entities = entities;
    if entities.len() == 0 {
        let eds: Vec<String> = Vec::new();
        let imgs: Vec<String> = Vec::new();
        proof {
            assert(views_of(eds@) =~= Seq::<Seq<char>>::empty());
            assert(views_of(imgs@) =~= Seq::<Seq<char>>::empty());
        }
        return Result::Ok((eds, imgs));
    }
    let e = entities.remove(0);
    let ghost ge = gents[0];
    proof {
        assert(e == ge);
        assert(entities@ =~= gents.skip(1));
        assert(forall|j: int| 0 <= j < entities@.len() ==> entities@[j] == gents[j + 1]);
        assert(entity_wf(ge));
    }
    let Entity {
        trans_name,
        fields,
        costumes,
        funcs,
        scripts,
        active_costume,
        visible,
        color,
        pos,
        heading,
        scale,
    } = e;
    let imgs_r = entity_images_exec(trans_name.as_str(), &costumes);
    let flines = init_lines_exec(&fields);
    let aline: String = match &active_costume {
        Option::Some(idx) => {
            let esc = escape(costumes[*idx].img.name.as_str());
            cat3("    self.costume = '", esc.as_str(), "'\n")
        },
        Option::None => String::from_str("    self.costume = None\n"),
    };
    proof {
        assert(aline@ == active_costume_line(ge));
    }
    let nscripts = scripts.len();
    proof {
        assert(scripts@.len() == nscripts);
    }
    let frags = match script_frags_exec(stage, scripts, 0) {
        Result::Err(err) => {
            return Result::Err(err);
        },
        Result::Ok(fs) => fs,
    };
    let fc = match funcs_code_exec(stage, funcs, true) {
        Result::Err(err) => {
            return Result::Err(err);
        },
        Result::Ok(t) => t,
    };
    let ftext = frags_text_exec(&frags);
    let mut ev = String::new();
    ev.append(flines.as_str());
    if fields.len() > 0 {
        ev.append("\n");
    }
    if is_first {
        ev.append("last_answer = snap.wrap('')\n\n");
    }
    ev.append("def __init__(self):\n");
    if !is_first {
        let ctor = sprite_ctor_exec(
            trans_name.as_str(),
            &costumes,
            visible,
            color,
            pos.0.as_str(),
            pos.1.as_str(),
            heading.as_str(),
            scale.as_str(),
        );
        ev.append(ctor.as_str());
    }
    ev.append(aline.as_str());
    ev.append("\n");
    ev.append(fc.as_str());
    ev.append(ftext.as_str());
    proof {
        assert(ev@ =~= init_lines(ge.fields@, 0) + (if ge.fields@.len() > 0 {
            "\n"@
        } else {
            Seq::<char>::empty()
        }) + (if is_first {
            "last_answer = snap.wrap('')\n\n"@
        } else {
            Seq::<char>::empty()
        }) + "def __init__(self):\n"@ + (if !is_first {
            "    self.pos = ("@ + ge.pos.0@ + ", "@ + ge.pos.1@ + ")\n"@ + "    self.heading = "@
                + ge.heading@ + "\n"@ + "    self.pen_color = ("@ + dec_of(ge.color.0 as nat)
                + ", "@ + dec_of(ge.color.1 as nat) + ", "@ + dec_of(ge.color.2 as nat) + ")\n"@
                + "    self.scale = "@ + ge.scale@ + "\n"@ + "    self.visible = "@ + (
            if ge.visible {
                "True"@
            } else {
                "False"@
            }) + "\n"@ + costume_lines(ge.trans_name@, ge.costumes@, 0)
        } else {
            Seq::<char>::empty()
        }) + active_costume_line(ge) + "\n"@ + fc@ + frags_text(views_of(frags@), 0));
        assert(entity_value(stage@, ge, is_first) == Result::<Seq<char>, TranslateError>::Ok(
            ev@,
        ));
    }
    let jty = jstr_exec(
        if is_first {
            "stage"
        } else {
            "sprite"
        },
    );
    let jn = jstr_exec(trans_name.as_str());
    let jv = jstr_exec(ev.as_str());
    let ed = cat7(
        "{\"type\":",
        jty.as_str(),
        ",\"name\":",
        jn.as_str(),
        ",\"value\":",
        jv.as_str(),
        "}",
    );
    proof {
        assert(ed@ == editor_json(
            if is_first {
                "stage"@
            } else {
                "sprite"@
            },
            ge.trans_name@,
            ev@,
        ));
    }
    let imgs = match imgs_r {
        Result::Err(err) => {
            return Result::Err(err);
        },
        Result::Ok(v) => v,
    };
    match entity_blocks_exec(stage, entities, false) {
        Result::Err(err) => Result::Err(err),
        Result::Ok((rest_eds, rest_imgs)) => {
            let ghost geds = rest_eds@;
            let mut eds = rest_eds;
            eds.insert(0, ed);
            let ghost gimgs = imgs@;
            let ghost grest_imgs = rest_imgs@;
            let mut imgs_all = imgs;
            let mut ri = rest_imgs;
            imgs_all.append(&mut ri);
            proof {
                assert(eds@ =~= seq![ed].add(geds));
                assert(views_of(eds@) =~= seq![ed@] + views_of(geds));
                assert(views_of(imgs_all@) =~= views_of(gimgs) + views_of(grest_imgs));
            }
            Result::Ok((eds, imgs_all))
        },
    }
}

/// One role's envelope object.
#[verifier::loop_isolation(false)]
#[verifier::rlimit(100)]
#[verifier::spinoff_prover]
fn role_text_exec(r: Role) -> (res: Result<String, TranslateError>)
    requires
        role_wf(r),
    ensures
        crate::lower::sview(res) == role_text(r),
{
    let ghost gr = r;
    let Role { name, stage_size, globals, funcs, entities } = r;
    let stage = String::from_str(entities[0].trans_name.as_str());
    proof {
        assert(stage@ == gr.entities@[0].trans_name@);
    }
    let glines = init_lines_exec(&globals);
    let gfc = match funcs_code_exec(stage.as_str(), funcs, false) {
        Result::Err(err) => {
            return Result::Err(err);
        },
        Result::Ok(t) => t,
    };
    let mut gv = String::from_str("from netsblox import snap\n\n");
    gv.append(glines.as_str());
    if globals.len() > 0 {
        gv.append("\n");
    }
    gv.append(gfc.as_str());
    proof {
        assert(gv@ =~= "from netsblox import snap\n\n"@ + init_lines(gr.globals@, 0) + (
        if gr.globals@.len() > 0 {
            "\n"@
        } else {
            Seq::<char>::empty()
        }) + gfc@);
        assert(globals_value(stage@, gr) == Result::<Seq<char>, TranslateError>::Ok(gv@));
    }
    let (eds0, imgs) = match entity_blocks_exec(stage.as_str(), entities, true) {
        Result::Err(err) => {
            return Result::Err(err);
        },
        Result::Ok(pair) => pair,
    };
    let jg = jstr_exec("global");
    let jgv = jstr_exec(gv.as_str());
    let ed0 = cat7(
        "{\"type\":",
        jg.as_str(),
        ",\"name\":",
        jg.as_str(),
        ",\"value\":",
        jgv.as_str(),
        "}",
    );
    proof {
        assert(ed0@ == editor_json("global"@, "global"@, gv@));
    }
    let ghost geds0 = eds0@;
    let mut eds = eds0;
    eds.insert(0, ed0);
    proof {
        assert(eds@ =~= seq![ed0].add(geds0));
        assert(views_of(eds@) =~= seq![ed0@] + views_of(geds0));
    }
    let edsj = crate::text::join_strs(&eds, ",");
    let imgsj = crate::text::join_strs(&imgs, ",");
    let jn = jstr_exec(name.as_str());
    let w = crate::text::fmt_u64(stage_size.0);
    let h = crate::text::fmt_u64(stage_size.1);
    let mut out = String::from_str("{\"name\":");
    out.append(jn.as_str());
    out.append(",\"stage_size\":[");
    out.append(w.as_str());
    out.append(",");
    out.append(h.as_str());
    out.append(
        "],\"block_sources\":[\"netsblox://assets/default-blocks.json\"],\"blocks\":[],\"imports\":[\"time\",\"math\"],\"editors\":[",
    );
    out.append(edsj.as_str());
    out.append("],\"images\":{");
    out.append(imgsj.as_str());
    out.append("}}");
    proof {
        assert(out@ =~= "{\"name\":"@ + jstr(gr.name@) + ",\"stage_size\":["@ + dec_of(
            gr.stage_size.0 as nat,
        ) + ","@ + dec_of(gr.stage_size.1 as nat)
            + "],\"block_sources\":[\"netsblox://assets/default-blocks.json\"],\"blocks\":[],\"imports\":[\"time\",\"math\"],\"editors\":["@
            + joined(seq![editor_json("global"@, "global"@, gv@)] + views_of(geds0), ","@)
            + "],\"images\":{"@ + joined(views_of(imgs@), ","@) + "}}"@);
    }
    Result::Ok(out)
}

/// The envelope objects of the given roles.
#[verifier::loop_isolation(false)]
#[verifier::rlimit(100)]
fn roles_texts_exec(roles: Vec<Role>) -> (r: Result<Vec<String>, TranslateError>)
    requires
        forall|i: int| 0 <= i < roles@.len() ==> role_wf(#[trigger] roles@[i]),
    ensures
        crate::expr::vres_view(r) == roles_texts(roles@),
    decreases roles@.len(),
{
    let ghost groles = roles@;
    let mut roles = roles;
    if roles.len() == 0 {
        let out: Vec<String> = Vec::new();
        proof {
            assert(views_of(out@) =~= Seq::<Seq<char>>::empty());
        }
        return Result::Ok(out);
    }
    let role = roles.remove(0);
    proof {
        assert(role == groles[0]);
        assert(roles@ =~= groles.skip(1));
        assert(forall|j: int| 0 <= j < roles@.len() ==> roles@[j] == groles[j + 1]);
    }
    match role_text_exec(role) {
        Result::Err(e) => Result::Err(e),
        Result::Ok(t) => {
            match roles_texts_exec(roles) {
                Result::Err(e) => Result::Err(e),
                Result::Ok(rest) => {
                    let ghost grest = rest@;
                    let mut out = rest;
                    out.insert(0, t);
                    proof {
                        assert(out@ =~= seq![t].add(grest));
                        assert(views_of(out@) =~= seq![t@] + views_of(grest));
                    }
                    Result::Ok(out)
                },
            }
        },
    }
}

/// Translates a whole parsed project into its name and the compact JSON
/// envelope, or reports the first failure met walking the roles in order.
#[verifier::loop_isolation(false)]
pub fn translate_project(p: Project) -> (r: Result<(String, String), TranslateError>)
    requires
        project_wf(p),
    ensures
        (match r {
            Result::Ok(pair) => translate_spec(p) == Result::<
                (Seq<char>, Seq<char>),
                TranslateError,
            >::Ok((pair.0@, pair.1@)),
            Result::Err(e) => translate_spec(p) == Result::<
                (Seq<char>, Seq<char>),
                TranslateError,
            >::Err(e),
        }),
{
    let ghost gp = p;
    let Project { name, roles } = p;
    if roles.len() == 0 {
        return Result::Err(TranslateError::NoRoles);
    }
    match roles_texts_exec(roles) {
        Result::Err(e) => Result::Err(e),
        Result::Ok(rs) => {
            let rj = crate::text::join_strs(&rs, ",");
            let body = cat3("{\"roles\":[", rj.as_str(), "]}");
            proof {
                assert(body@ =~= "{\"roles\":["@ + joined(views_of(rs@), ","@) + "]}"@);
            }
            Result::Ok((name, body))
        },
    }
}

} // verus!
