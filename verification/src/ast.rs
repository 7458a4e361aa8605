//! The project tree that the lowering engine consumes: roles, entities,
//! scripts, statements, expressions and literal values, with identifiers
//! already translated to valid target names and variable references already
//! resolved to a scope. Numeric fields that the emitter only ever prints
//! (literal numbers, positions, headings, scales, image centers) are carried
//! as their canonical decimal text.

use vstd::prelude::*;

verus! {

/// Wrap-type tag carried by every lowered expression: `Wrapped` means the
/// text already denotes a runtime-wrapped value, `Unknown` means a caller
/// that needs wrapped semantics must pass it through the runtime wrapper.
#[derive(Clone, Copy, Debug, PartialEq, Eq, Structural)]
pub enum WrapKind {
    Unknown,
    Wrapped,
}

/// A named mathematical constant literal.
#[derive(Clone, Copy, Debug)]
pub enum Constant {
    E,
    Pi,
}

/// Raw image asset data attached to a costume, together with how the
/// costume's rotation center is to appear in the emitted envelope.
#[derive(Debug)]
pub struct ImageData {
    pub bytes: Vec<u8>,
    pub center: ImageCenter,
    pub name: String,
}

/// The rotation-center entry of a costume image.
#[derive(Debug)]
pub enum ImageCenter {
    /// The costume declared no center; the envelope records a zero offset.
    Absent,
    /// The center offset, already reduced to the two number texts that the
    /// envelope records (center minus half the decoded image size).
    At(String, String),
    /// A center was declared but the image bytes are in no recognised
    /// format, so no offset could be computed; assembly reports this.
    Undecodable,
}

/// Raw audio asset data. Audio payloads never reach value lowering.
#[derive(Debug)]
pub struct AudioData {
    pub bytes: Vec<u8>,
    pub name: String,
}

/// A literal value as the block editor stores it.
#[derive(Debug)]
pub enum Value {
    String(String),
    /// Canonical decimal text of a numeric literal.
    Number(String),
    Bool(bool),
    Constant(Constant),
    List(Vec<Value>),
    Image(ImageData),
    Audio(AudioData),
    /// Back-reference to an earlier value in a cyclic structure.
    Ref(usize),
}

/// The resolved scope of a variable reference.
#[derive(Clone, Copy, Debug)]
pub enum VarLocation {
    Local,
    Field,
    Global,
}

/// The resolved scope of a function reference.
#[derive(Clone, Copy, Debug)]
pub enum FnLocation {
    Global,
    Method,
}

/// A variable reference with its translated name and resolved scope.
#[derive(Debug)]
pub struct VariableRef {
    pub name: String,
    pub trans_name: String,
    pub location: VarLocation,
}

/// A variable or parameter declaration.
#[derive(Debug)]
pub struct VariableDef {
    pub trans_name: String,
}

/// A function reference with its translated name and resolved scope.
#[derive(Debug)]
pub struct FnRef {
    pub trans_name: String,
    pub location: FnLocation,
}

/// How a text-split block divides its input.
#[derive(Debug)]
pub enum TextSplitMode {
    Custom(Box<Expr>),
    LF,
    CR,
    Tab,
    Letter,
    Word,
    Csv,
    Json,
}

/// The runtime kind probed by a type-query block.
#[derive(Clone, Copy, Debug)]
pub enum ValueType {
    Number,
    Text,
    Bool,
    List,
    Sprite,
    Costume,
    Sound,
    Command,
    Reporter,
    Predicate,
}

/// The flavour of a first-class code ring.
#[derive(Clone, Copy, Debug)]
pub enum ClosureKind {
    Command,
    Reporter,
    Predicate,
}

/// An expression tree.
#[derive(Debug)]
pub enum Expr {
    Value(Value),
    Variable { var: VariableRef },
    Closure { kind: ClosureKind, params: Vec<VariableDef>, stmts: Vec<Stmt> },
    This,
    Entity { trans_name: String },
    ImageOfEntity { entity: Box<Expr> },
    ImageOfDrawings,
    IsTouchingEntity { entity: Box<Expr> },
    MakeList { values: Vec<Expr> },
    CopyList { list: Box<Expr> },
    ListCons { item: Box<Expr>, list: Box<Expr> },
    ListCdr { value: Box<Expr> },
    ListGet { list: Box<Expr>, index: Box<Expr> },
    ListGetRandom { list: Box<Expr> },
    ListGetLast { list: Box<Expr> },
    ListFind { list: Box<Expr>, value: Box<Expr> },
    ListContains { list: Box<Expr>, value: Box<Expr> },
    ListLen { value: Box<Expr> },
    StrLen { value: Box<Expr> },
    ListIsEmpty { value: Box<Expr> },
    ListRank { value: Box<Expr> },
    ListDims { value: Box<Expr> },
    ListFlatten { value: Box<Expr> },
    ListColumns { value: Box<Expr> },
    ListRev { value: Box<Expr> },
    ListLines { value: Box<Expr> },
    ListCsv { value: Box<Expr> },
    ListJson { value: Box<Expr> },
    ListReshape { value: Box<Expr>, dims: Box<Expr> },
    ListCombinations { sources: Box<Expr> },
    MapOver { f: Box<Expr>, list: Box<Expr> },
    Keep { f: Box<Expr>, list: Box<Expr> },
    FindFirst { f: Box<Expr>, list: Box<Expr> },
    Combine { f: Box<Expr>, list: Box<Expr> },
    StrGet { string: Box<Expr>, index: Box<Expr> },
    StrGetLast { string: Box<Expr> },
    StrGetRandom { string: Box<Expr> },
    Neg { value: Box<Expr> },
    Not { value: Box<Expr> },
    Abs { value: Box<Expr> },
    Sign { value: Box<Expr> },
    Atan2 { y: Box<Expr>, x: Box<Expr> },
    Add { values: Box<Expr> },
    Mul { values: Box<Expr> },
    Min { values: Box<Expr> },
    Max { values: Box<Expr> },
    Sub { left: Box<Expr>, right: Box<Expr> },
    Div { left: Box<Expr>, right: Box<Expr> },
    Mod { left: Box<Expr>, right: Box<Expr> },
    Pow { base: Box<Expr>, power: Box<Expr> },
    Log { value: Box<Expr>, base: Box<Expr> },
    Sqrt { value: Box<Expr> },
    Round { value: Box<Expr> },
    Floor { value: Box<Expr> },
    Ceil { value: Box<Expr> },
    Sin { value: Box<Expr> },
    Cos { value: Box<Expr> },
    Tan { value: Box<Expr> },
    Asin { value: Box<Expr> },
    Acos { value: Box<Expr> },
    Atan { value: Box<Expr> },
    And { left: Box<Expr>, right: Box<Expr> },
    Or { left: Box<Expr>, right: Box<Expr> },
    Conditional { condition: Box<Expr>, then: Box<Expr>, otherwise: Box<Expr> },
    Identical { left: Box<Expr>, right: Box<Expr> },
    Less { left: Box<Expr>, right: Box<Expr> },
    LessEq { left: Box<Expr>, right: Box<Expr> },
    Eq { left: Box<Expr>, right: Box<Expr> },
    Neq { left: Box<Expr>, right: Box<Expr> },
    Greater { left: Box<Expr>, right: Box<Expr> },
    GreaterEq { left: Box<Expr>, right: Box<Expr> },
    Random { a: Box<Expr>, b: Box<Expr> },
    Range { start: Box<Expr>, stop: Box<Expr> },
    CostumeNumber,
    TextSplit { text: Box<Expr>, mode: TextSplitMode },
    TypeQuery { value: Box<Expr>, ty: ValueType },
    ListCat { lists: Box<Expr> },
    StrCat { values: Box<Expr> },
    UnicodeToChar { value: Box<Expr> },
    CharToUnicode { value: Box<Expr> },
    CallRpc { service: String, rpc: String, args: Vec<(String, Expr)> },
    CallFn { function: FnRef, args: Vec<Expr>, upvars: Vec<VariableRef> },
    CallClosure { new_entity: Option<Box<Expr>>, closure: Box<Expr>, args: Vec<Expr> },
    XPos,
    YPos,
    Heading,
    Answer,
    MouseX,
    MouseY,
    StageWidth,
    StageHeight,
    Latitude,
    Longitude,
    KeyDown { key: Box<Expr> },
    PenDown,
    Size,
    IsVisible,
    RpcError,
    Clone { target: Box<Expr> },
    // Variants below are part of the source block language but have no
    // lowering in the target; presenting one reports the node back.
    Timer,
    Message,
    IsTouchingMouse,
    IsTouchingEdge,
    IsTouchingDrawings,
    CostumeList,
    SoundList,
    SoundDuration { sound: Box<Expr> },
}

/// A statement together with its optional block comment.
#[derive(Debug)]
pub struct Stmt {
    pub kind: StmtKind,
    pub comment: Option<String>,
}

/// A statement tree.
#[derive(Debug)]
pub enum StmtKind {
    DeclareLocals { vars: Vec<VariableDef> },
    Assign { var: VariableRef, value: Box<Expr> },
    AddAssign { var: VariableRef, value: Box<Expr> },
    ListAssign { list: Box<Expr>, index: Box<Expr>, value: Box<Expr> },
    ListAssignLast { list: Box<Expr>, value: Box<Expr> },
    ListAssignRandom { list: Box<Expr>, value: Box<Expr> },
    ListInsert { list: Box<Expr>, index: Box<Expr>, value: Box<Expr> },
    ListInsertLast { list: Box<Expr>, value: Box<Expr> },
    ListInsertRandom { list: Box<Expr>, value: Box<Expr> },
    ListRemove { list: Box<Expr>, index: Box<Expr> },
    ListRemoveLast { list: Box<Expr> },
    ListRemoveAll { list: Box<Expr> },
    Throw { error: Box<Expr> },
    Warp { stmts: Vec<Stmt> },
    If { condition: Box<Expr>, then: Vec<Stmt> },
    IfElse { condition: Box<Expr>, then: Vec<Stmt>, otherwise: Vec<Stmt> },
    TryCatch { code: Vec<Stmt>, var: VariableRef, handler: Vec<Stmt> },
    InfLoop { stmts: Vec<Stmt> },
    ForLoop { var: VariableRef, start: Box<Expr>, stop: Box<Expr>, stmts: Vec<Stmt> },
    ForeachLoop { var: VariableRef, items: Box<Expr>, stmts: Vec<Stmt> },
    Repeat { times: Box<Expr>, stmts: Vec<Stmt> },
    UntilLoop { condition: Box<Expr>, stmts: Vec<Stmt> },
    SetCostume { costume: Box<Expr> },
    NextCostume,
    SetX { value: Box<Expr> },
    SetY { value: Box<Expr> },
    ChangeX { delta: Box<Expr> },
    ChangeY { delta: Box<Expr> },
    Goto { target: Box<Expr> },
    GotoXY { x: Box<Expr>, y: Box<Expr> },
    SendLocalMessage { target: Option<Box<Expr>>, msg_type: Box<Expr>, wait: bool },
    SendNetworkMessage { target: Box<Expr>, msg_type: String, values: Vec<(String, Expr)> },
    Say { content: Box<Expr>, duration: Option<Box<Expr>> },
    Think { content: Box<Expr>, duration: Option<Box<Expr>> },
    CallRpc { service: String, rpc: String, args: Vec<(String, Expr)> },
    CallFn { function: FnRef, args: Vec<Expr>, upvars: Vec<VariableRef> },
    CallClosure { new_entity: Option<Box<Expr>>, closure: Box<Expr>, args: Vec<Expr> },
    ChangePenSize { delta: Box<Expr> },
    SetPenSize { value: Box<Expr> },
    SetVisible { value: bool },
    WaitUntil { condition: Box<Expr> },
    BounceOffEdge,
    Sleep { seconds: Box<Expr> },
    Forward { distance: Box<Expr> },
    TurnRight { angle: Box<Expr> },
    TurnLeft { angle: Box<Expr> },
    SetHeading { value: Box<Expr> },
    Return { value: Box<Expr> },
    Stamp,
    Write { content: Box<Expr>, font_size: Box<Expr> },
    SetPenDown { value: bool },
    PenClear,
    SetPenColor { color: (u8, u8, u8, u8) },
    ChangeSize { delta: Box<Expr> },
    SetSize { value: Box<Expr> },
    Clone { target: Box<Expr> },
    Ask { prompt: Box<Expr> },
    // Variants below are part of the source block language but have no
    // lowering in the target; presenting one reports the node back.
    ShowVar { var: VariableRef },
    HideVar { var: VariableRef },
    PlaySound { sound: Box<Expr>, blocking: bool },
    StopSounds,
    ResetTimer,
    DeleteClone,
    UnknownBlock { name: String, args: Vec<Expr> },
}

/// The event binding atop a script, with its optional block comment.
#[derive(Debug)]
pub struct Hat {
    pub kind: HatKind,
    pub comment: Option<String>,
}

/// The kinds of event bindings.
#[derive(Debug)]
pub enum HatKind {
    OnFlag,
    OnClone,
    OnKey { key: String },
    MouseDown,
    MouseUp,
    ScrollDown,
    ScrollUp,
    When { condition: Box<Expr> },
    LocalMessage { msg_type: Option<String> },
    NetworkMessage { msg_type: String, fields: Vec<VariableRef> },
    // Variants below have no lowering; presenting one reports the node back.
    MouseEnter,
    MouseLeave,
    Dropped,
    Stopped,
}

/// A script: an optional event binding plus a statement sequence.
#[derive(Debug)]
pub struct Script {
    pub hat: Option<Hat>,
    pub stmts: Vec<Stmt>,
}

/// A custom block: a method of an entity or a role-level function.
#[derive(Debug)]
pub struct Function {
    pub trans_name: String,
    pub params: Vec<VariableDef>,
    pub stmts: Vec<Stmt>,
}

/// A declared variable together with its initial value.
#[derive(Debug)]
pub struct VariableDefInit {
    pub def: VariableDef,
    pub init: Value,
}

/// A named costume and its image asset.
#[derive(Debug)]
pub struct Costume {
    pub trans_name: String,
    pub img: ImageData,
}

/// A stage or sprite. The first entity of a role is the stage. The
/// position, heading and scale are carried as the decimal texts the
/// constructor lines print.
#[derive(Debug)]
pub struct Entity {
    pub trans_name: String,
    pub fields: Vec<VariableDefInit>,
    pub costumes: Vec<Costume>,
    pub funcs: Vec<Function>,
    pub scripts: Vec<Script>,
    pub active_costume: Option<usize>,
    pub visible: bool,
    pub color: (u8, u8, u8, u8),
    pub pos: (String, String),
    pub heading: String,
    pub scale: String,
}

/// A self-contained program within a project.
#[derive(Debug)]
pub struct Role {
    pub name: String,
    pub stage_size: (u64, u64),
    pub globals: Vec<VariableDefInit>,
    pub funcs: Vec<Function>,
    pub entities: Vec<Entity>,
}

/// A parsed project: a name and its roles.
#[derive(Debug)]
pub struct Project {
    pub name: String,
    pub roles: Vec<Role>,
}

/// The closed taxonomy of translation failures. Each unsupported-construct
/// variant preserves the offending node.
#[derive(Debug)]
pub enum TranslateError {
    /// The front end rejected the project text before it reached the
    /// lowering engine; the payload is its message.
    Parse(String),
    NoRoles,
    UnsupportedExpr(Box<Expr>),
    UnsupportedStmt(Box<Stmt>),
    UnsupportedHat(Box<Hat>),
    UnknownImageFormat,
    Upvars,
    AnyMessage,
    RingTypeQuery,
    CommandRing,
    TellAskClosure,
}

} // verus!
