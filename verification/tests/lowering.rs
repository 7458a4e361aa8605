use nb2pb::assemble::translate_project;
use nb2pb::ast::{Costume, Entity, Expr, FnLocation, FnRef, ImageCenter, ImageData, Project, Role,
    Stmt, StmtKind, TranslateError, Value, VarLocation, VariableDef, VariableRef, WrapKind};
use nb2pb::expr::lower_expr_exec;
use nb2pb::stmt::{lower_stmt_exec, stmts_code_exec};
use nb2pb::text::is_py_ident;

fn entity(trans_name: &str, costumes: Vec<Costume>, active_costume: Option<usize>) -> Entity {
    Entity {
        trans_name: trans_name.to_string(),
        fields: vec![],
        costumes,
        funcs: vec![],
        scripts: vec![],
        active_costume,
        visible: true,
        color: (80, 80, 80, 255),
        pos: ("0".to_string(), "0".to_string()),
        heading: "90".to_string(),
        scale: "1".to_string(),
    }
}

fn one_role_project(entities: Vec<Entity>) -> Project {
    Project {
        name: "untitled".to_string(),
        roles: vec![Role {
            name: "myRole".to_string(),
            stage_size: (480, 360),
            globals: vec![],
            funcs: vec![],
            entities,
        }],
    }
}

fn var(name: &str, location: VarLocation) -> VariableRef {
    VariableRef { name: name.to_string(), trans_name: name.to_string(), location }
}

fn num(text: &str) -> Expr {
    Expr::Value(Value::Number(text.to_string()))
}

fn strv(text: &str) -> Expr {
    Expr::Value(Value::String(text.to_string()))
}

fn bare(kind: StmtKind) -> Stmt {
    Stmt { kind, comment: None }
}

fn assign(name: &str, value: Expr) -> Stmt {
    bare(StmtKind::Assign { var: var(name, VarLocation::Local), value: Box::new(value) })
}

fn say(text: &str) -> Stmt {
    bare(StmtKind::Say { content: Box::new(strv(text)), duration: None })
}

fn expr_text(e: Expr) -> (String, WrapKind) {
    lower_expr_exec("Stage", e).unwrap()
}

fn stmt_lines(s: Stmt) -> Vec<String> {
    lower_stmt_exec("Stage", s).unwrap()
}

fn code(stmts: Vec<Stmt>) -> String {
    stmts_code_exec("Stage", stmts).unwrap()
}

#[test]
fn test_py_ident() {
    assert!(is_py_ident("fooBar_23"));
    assert!(!is_py_ident("34hello"));
    assert!(!is_py_ident("hello world"));
}

#[test]
fn test_operators() {
    let sum3 = Expr::Add {
        values: Box::new(Expr::Value(Value::List(vec![
            Value::String("2".to_string()),
            Value::String("4".to_string()),
            Value::String("7".to_string()),
        ]))),
    };
    let (text, kind) = expr_text(sum3);
    assert_eq!(text, "(snap.wrap('2') + snap.wrap('4') + snap.wrap('7'))");
    assert!(matches!(kind, WrapKind::Wrapped));

    let empty_mul = Expr::Mul { values: Box::new(Expr::Value(Value::List(vec![]))) };
    let (text, kind) = expr_text(empty_mul);
    assert_eq!(text, "1");
    assert!(matches!(kind, WrapKind::Unknown));

    let empty_add = Expr::Add { values: Box::new(Expr::Value(Value::List(vec![]))) };
    assert_eq!(expr_text(empty_add).0, "0");

    let empty_cat = Expr::StrCat { values: Box::new(Expr::Value(Value::List(vec![]))) };
    assert_eq!(expr_text(empty_cat).0, "''");

    let empty_lists = Expr::ListCat { lists: Box::new(Expr::Value(Value::List(vec![]))) };
    assert_eq!(expr_text(empty_lists).0, "[]");

    let empty_ctor = Expr::ListCat {
        lists: Box::new(Expr::MakeList { values: vec![] }),
    };
    let (text, kind) = expr_text(empty_ctor);
    assert_eq!(text, "[]");
    assert!(matches!(kind, WrapKind::Unknown));

    let sub = Expr::Sub { left: Box::new(strv("6")), right: Box::new(strv("3")) };
    assert_eq!(expr_text(sub).0, "(snap.wrap('6') - snap.wrap('3'))");

    let sign = Expr::Sign { value: Box::new(strv("10")) };
    assert_eq!(expr_text(sign).0, "snap.sign('10')");

    let ring = Expr::TypeQuery {
        value: Box::new(strv("5")),
        ty: nb2pb::ast::ValueType::Command,
    };
    assert!(matches!(
        lower_expr_exec("Stage", ring),
        Err(TranslateError::RingTypeQuery)
    ));
}

#[test]
fn test_variables() {
    let g = Expr::Variable { var: var("g", VarLocation::Global) };
    let (text, kind) = expr_text(g);
    assert_eq!(text, "globals()['g']");
    assert!(matches!(kind, WrapKind::Wrapped));

    let f = Expr::Variable { var: var("f", VarLocation::Field) };
    assert_eq!(expr_text(f).0, "self.f");

    let l = Expr::Variable { var: var("l", VarLocation::Local) };
    assert_eq!(expr_text(l).0, "l");

    let lines = stmt_lines(assign("a", num("5")));
    assert_eq!(lines, vec!["a = snap.wrap(5)".to_string()]);

    let get = Expr::ListGet {
        list: Box::new(Expr::Variable { var: var("a", VarLocation::Local) }),
        index: Box::new(strv("1")),
    };
    assert_eq!(expr_text(get).0, "a[snap.wrap('1') - snap.wrap(1)]");
}

#[test]
fn test_invalid_c_idents() {
    let call = Expr::CallFn {
        function: FnRef {
            trans_name: "some_blocks_stuff".to_string(),
            location: FnLocation::Global,
        },
        args: vec![],
        upvars: vec![],
    };
    assert_eq!(expr_text(call).0, "some_blocks_stuff()");
}

#[test]
fn test_looks() {
    let lines = stmt_lines(bare(StmtKind::SetCostume { costume: Box::new(strv("marcus")) }));
    assert_eq!(lines, vec!["self.costume = 'marcus'".to_string()]);
    let lines = stmt_lines(bare(StmtKind::NextCostume));
    assert_eq!(
        lines,
        vec!["self.costume = (self.costumes.index(self.costume, -1) + 1) % len(self.costumes)"
            .to_string()]
    );
    let lines = stmt_lines(bare(StmtKind::SetSize { value: Box::new(num("165")) }));
    assert_eq!(lines, vec!["self.scale = snap.wrap(165) / 100".to_string()]);
    let lines = stmt_lines(bare(StmtKind::SetVisible { value: true }));
    assert_eq!(lines, vec!["self.visible = True".to_string()]);
}

#[test]
fn test_sounds() {
    let play = bare(StmtKind::PlaySound { sound: Box::new(strv("Cat")), blocking: false });
    assert!(matches!(
        lower_stmt_exec("Stage", play),
        Err(TranslateError::UnsupportedStmt(_))
    ));
    let stop = bare(StmtKind::StopSounds);
    assert!(matches!(
        lower_stmt_exec("Stage", stop),
        Err(TranslateError::UnsupportedStmt(_))
    ));
}

#[test]
fn test_sensing() {
    let ask = bare(StmtKind::Ask { prompt: Box::new(strv("hello world?")) });
    assert_eq!(
        stmt_lines(ask),
        vec!["Stage.last_answer = snap.wrap(input('hello world?'))".to_string()]
    );
    assert_eq!(expr_text(Expr::Answer).0, "Stage.last_answer");
    assert_eq!(expr_text(Expr::MouseX).0, "Stage.mouse_pos[0]");
    assert_eq!(expr_text(Expr::StageWidth).0, "Stage.width");
    let key = Expr::KeyDown { key: Box::new(strv("space")) };
    assert_eq!(expr_text(key).0, "Stage.is_key_down('space')");
}

#[test]
fn test_motion() {
    assert_eq!(
        stmt_lines(bare(StmtKind::Forward { distance: Box::new(num("7")) })),
        vec!["self.forward(snap.wrap(7))".to_string()]
    );
    assert_eq!(
        stmt_lines(bare(StmtKind::SetHeading { value: Box::new(num("22")) })),
        vec!["self.heading = snap.wrap(22)".to_string()]
    );
    assert_eq!(
        stmt_lines(bare(StmtKind::ChangeX { delta: Box::new(num("8")) })),
        vec!["self.x_pos += snap.wrap(8)".to_string()]
    );
    assert_eq!(
        stmt_lines(bare(StmtKind::BounceOffEdge)),
        vec!["self.keep_on_stage(bounce = True)".to_string()]
    );
}

#[test]
fn test_pen() {
    assert_eq!(
        stmt_lines(bare(StmtKind::PenClear)),
        vec!["Stage.clear_drawings()".to_string()]
    );
    assert_eq!(
        stmt_lines(bare(StmtKind::SetPenColor { color: (145, 26, 68, 255) })),
        vec!["self.pen_color = '#911a44'".to_string()]
    );
    assert_eq!(
        stmt_lines(bare(StmtKind::SetPenDown { value: true })),
        vec!["self.drawing = True".to_string()]
    );
    assert_eq!(
        stmt_lines(bare(StmtKind::Stamp)),
        vec!["self.stamp()".to_string()]
    );
}

#[test]
fn test_join() {
    let cat = Expr::StrCat {
        values: Box::new(Expr::Value(Value::List(vec![
            Value::String("hello".to_string()),
            Value::String("world".to_string()),
        ]))),
    };
    let (text, kind) = expr_text(cat);
    assert_eq!(text, "(str(snap.wrap('hello')) + str(snap.wrap('world')))");
    assert!(matches!(kind, WrapKind::Unknown));
}

#[test]
fn test_control() {
    let warp = bare(StmtKind::Warp { stmts: vec![say("hi")] });
    assert_eq!(
        stmt_lines(warp),
        vec!["with NoYield():\n    self.say('hi')".to_string()]
    );
    let wait = bare(StmtKind::WaitUntil { condition: Box::new(strv("go")) });
    assert_eq!(
        stmt_lines(wait),
        vec!["while not snap.wrap('go'):\n    time.sleep(0.05)".to_string()]
    );
    let throw = bare(StmtKind::Throw { error: Box::new(strv("oopsie!")) });
    assert_eq!(
        stmt_lines(throw),
        vec!["raise RuntimeError(str(snap.wrap('oopsie!')))".to_string()]
    );
}

#[test]
fn test_lambdas() {
    let body = Expr::Add {
        values: Box::new(Expr::MakeList {
            values: vec![Expr::Variable { var: var("x", VarLocation::Local) }, num("1")],
        }),
    };
    let closure = Expr::Closure {
        kind: nb2pb::ast::ClosureKind::Reporter,
        params: vec![VariableDef { trans_name: "x".to_string() }],
        stmts: vec![bare(StmtKind::Return { value: Box::new(body) })],
    };
    let (text, kind) = expr_text(closure);
    assert_eq!(text, "(lambda x: (x + snap.wrap(1)))");
    assert!(matches!(kind, WrapKind::Wrapped));

    let bad = Expr::Closure {
        kind: nb2pb::ast::ClosureKind::Command,
        params: vec![],
        stmts: vec![say("a"), say("b")],
    };
    assert!(matches!(
        lower_expr_exec("Stage", bad),
        Err(TranslateError::CommandRing)
    ));
}

#[test]
fn test_empty_blocks() {
    assert_eq!(code(vec![]), "pass");
    let empty_if = bare(StmtKind::If { condition: Box::new(strv("x")), then: vec![] });
    assert_eq!(
        stmt_lines(empty_if),
        vec!["if snap.wrap('x'):\n    pass".to_string()]
    );
    let empty_loop = bare(StmtKind::InfLoop { stmts: vec![] });
    assert_eq!(
        stmt_lines(empty_loop),
        vec!["while True:\n    pass".to_string()]
    );
}

#[test]
fn test_elif_opt() {
    let a = || Expr::Variable { var: var("a", VarLocation::Local) };
    let b = || Expr::Variable { var: var("b", VarLocation::Local) };
    let inner = bare(StmtKind::IfElse {
        condition: Box::new(b()),
        then: vec![say("2")],
        otherwise: vec![say("3")],
    });
    let outer = bare(StmtKind::IfElse {
        condition: Box::new(a()),
        then: vec![say("1")],
        otherwise: vec![inner],
    });
    let text = code(vec![outer]);
    assert_eq!(
        text,
        "if a:\n    self.say('1')\nelif b:\n    self.say('2')\nelse:\n    self.say('3')"
    );
    assert!(!text.contains("else:\n    if"));
}

#[test]
fn test_timer() {
    let reset = bare(StmtKind::ResetTimer);
    assert!(matches!(
        lower_stmt_exec("Stage", reset),
        Err(TranslateError::UnsupportedStmt(_))
    ));
    let timer = Expr::Timer;
    assert!(matches!(
        lower_expr_exec("Stage", timer),
        Err(TranslateError::UnsupportedExpr(_))
    ));
}

#[test]
fn test_cloning() {
    let clone_self = bare(StmtKind::Clone { target: Box::new(Expr::This) });
    assert_eq!(stmt_lines(clone_self), vec!["self.clone()".to_string()]);
    let clone_other = bare(StmtKind::Clone {
        target: Box::new(Expr::Entity { trans_name: "Sprite_2".to_string() }),
    });
    assert_eq!(stmt_lines(clone_other), vec!["Sprite_2.clone()".to_string()]);
}

#[test]
fn test_media() {
    let costume = Costume {
        trans_name: "untitled".to_string(),
        img: ImageData {
            bytes: vec![0, 0, 0],
            center: ImageCenter::At("13.0".to_string(), "38.125".to_string()),
            name: "untitled".to_string(),
        },
    };
    let project = one_role_project(vec![
        entity("Stage", vec![], None),
        entity("Sprite", vec![costume], Some(0)),
    ]);
    let (name, json) = translate_project(project).unwrap();
    assert_eq!(name, "untitled");
    let doc: serde_json::Value = serde_json::from_str(&json).unwrap();
    let role = &doc["roles"][0];
    assert_eq!(role["name"], "myRole");
    assert_eq!(role["stage_size"][0], 480);
    assert_eq!(role["stage_size"][1], 360);
    assert_eq!(role["block_sources"][0], "netsblox://assets/default-blocks.json");
    assert_eq!(role["imports"][0], "time");
    assert_eq!(role["imports"][1], "math");
    let editors = role["editors"].as_array().unwrap();
    assert_eq!(editors.len(), 3);
    assert_eq!(editors[2]["type"], "sprite");
    assert_eq!(
        editors[2]["value"].as_str().unwrap(),
        "def __init__(self):\n    self.pos = (0, 0)\n    self.heading = 90\n    self.pen_color = (80, 80, 80)\n    self.scale = 1\n    self.visible = True\n    self.costumes.add('untitled', images.Sprite_cst_untitled)\n    self.costume = 'untitled'\n\n"
    );
    let img = &role["images"]["Sprite_cst_untitled"];
    assert_eq!(img["img"], "AAAA");
    assert_eq!(img["center"][0].as_f64().unwrap(), 13.0);
    assert_eq!(img["center"][1].as_f64().unwrap(), 38.125);

    let bad = Costume {
        trans_name: "broken".to_string(),
        img: ImageData {
            bytes: vec![1, 2, 3],
            center: ImageCenter::Undecodable,
            name: "broken".to_string(),
        },
    };
    let project = one_role_project(vec![
        entity("Stage", vec![], None),
        entity("Sprite", vec![bad], None),
    ]);
    assert!(matches!(
        translate_project(project),
        Err(TranslateError::UnknownImageFormat)
    ));
}

#[test]
fn envelope_editor_order() {
    let project = one_role_project(vec![
        entity("Stage", vec![], None),
        entity("Sprite", vec![], None),
        entity("Sprite_2", vec![], None),
    ]);
    let (_, json) = translate_project(project).unwrap();
    let doc: serde_json::Value = serde_json::from_str(&json).unwrap();
    assert!(doc.is_object());
    let editors = doc["roles"][0]["editors"].as_array().unwrap();
    assert_eq!(editors.len(), 4);
    assert_eq!(editors[0]["type"], "global");
    assert_eq!(editors[0]["name"], "global");
    assert_eq!(
        editors[0]["value"].as_str().unwrap(),
        "from netsblox import snap\n\n"
    );
    assert_eq!(editors[1]["type"], "stage");
    assert_eq!(editors[1]["name"], "Stage");
    assert_eq!(
        editors[1]["value"].as_str().unwrap(),
        "last_answer = snap.wrap('')\n\ndef __init__(self):\n    self.costume = None\n\n"
    );
    assert_eq!(editors[2]["type"], "sprite");
    assert_eq!(editors[2]["name"], "Sprite");
    assert_eq!(editors[3]["type"], "sprite");
    assert_eq!(editors[3]["name"], "Sprite_2");

    let empty = Project { name: "untitled".to_string(), roles: vec![] };
    assert!(matches!(translate_project(empty), Err(TranslateError::NoRoles)));

    let again = one_role_project(vec![entity("Stage", vec![], None)]);
    let first = translate_project(again).unwrap();
    let again = one_role_project(vec![entity("Stage", vec![], None)]);
    let second = translate_project(again).unwrap();
    assert_eq!(first, second);
}

#[test]
fn network_message_kwargs() {
    let send = bare(StmtKind::SendNetworkMessage {
        target: Box::new(Expr::Variable { var: var("target", VarLocation::Local) }),
        msg_type: "m".to_string(),
        values: vec![
            ("x".to_string(), num("1")),
            ("bad name".to_string(), num("2")),
        ],
    });
    assert_eq!(
        stmt_lines(send),
        vec!["nb.send_message('m', target, x = 1, **{ 'bad name': 2 })".to_string()]
    );

    let kwargs = nb2pb::expr::kwargs_text_exec(
        "Stage",
        vec![
            ("x".to_string(), num("1")),
            ("bad name".to_string(), num("2")),
        ],
        ", ",
        false,
    )
    .unwrap();
    assert_eq!(kwargs, ", x = 1, **{ 'bad name': 2 }");
}
