use vstd::prelude::*;

use vstd::string::StringExecFns;

verus! {

/// The first parameter of a closure, as far as validation reads it.
pub enum ParamShape {
    /// `pattern: Type`; `ident` is the name when the pattern is a plain
    /// identifier.
    Typed { ident: Option<String> },
    /// A parameter without a type annotation.
    Untyped,
}

/// The initializer of a `let` binding.
pub enum InitShape {
    /// A closure with these parameters.
    Closure(Vec<ParamShape>),
    /// A `let ... else` whose initializer may diverge.
    Diverging,
    /// Any other expression.
    Other,
}

/// One statement of a declaration's body.
pub enum StmtShape {
    /// `let <name> = <init>;` with a plain identifier as its pattern.
    Binding { name: String, init: InitShape },
    /// The bare `..` expression that marks where generated code goes.
    Sentinel,
    /// Any other statement.
    Other,
}

/// A function-shaped declaration of one attribute.
pub struct Declaration {
    /// The accessor's name, which is also the attribute's file name.
    pub name: String,
    /// Whether the signature gives an explicit return type.
    pub has_return_type: bool,
    pub body: Vec<StmtShape>,
}

/// Why a declaration was refused. `at` is the position of the statement at
/// fault.
#[derive(Debug, Clone, Copy, PartialEq, Eq, Structural)]
pub enum DeclError {
    /// The body does not end with the sentinel `..`.
    MissingSentinel,
    /// A `read` transform on a signature without a return type.
    MissingReturnType { at: usize },
    /// `write` bound with `let ... else`.
    WriteDiverges { at: usize },
    /// `write` bound to something other than a closure.
    WriteNotClosure { at: usize },
    /// The `write` closure takes more than one parameter.
    WriteArity { at: usize },
    /// The `write` closure has no parameter, or its parameter has no type
    /// annotation.
    WriteUntyped { at: usize },
    /// The `write` closure's parameter is not a plain identifier.
    WriteNotIdent { at: usize },
}

/// The `write` binding of a validated declaration.
pub struct WriteBinding {
    /// Position of the binding in the body.
    pub at: usize,
    /// Name of the closure's parameter: the setter's new parameter.
    pub param: String,
}

/// A validated declaration.
pub struct Descriptor {
    pub name: String,
    pub has_return_type: bool,
    /// Position of the `read` binding, if any.
    pub read_at: Option<usize>,
    pub write: Option<WriteBinding>,
    /// Positions of the shared prologue statements, in order.
    pub prologue: Vec<usize>,
}

pub open spec fn read_key() -> Seq<char> {
    seq!['r', 'e', 'a', 'd']
}

pub open spec fn write_key() -> Seq<char> {
    seq!['w', 'r', 'i', 't', 'e']
}

pub open spec fn named(s: StmtShape, key: Seq<char>) -> bool {
    match s {
        StmtShape::Binding { name, .. } => name@ == key,
        _ => false,
    }
}

/// Position of the last binding named `key` among the first `n` statements.
pub open spec fn last_named(body: Seq<StmtShape>, n: int, key: Seq<char>) -> Option<usize>
    decreases n,
{
    if n <= 0 {
        None
    } else if named(body[n - 1], key) {
        Some((n - 1) as usize)
    } else {
        last_named(body, n - 1, key)
    }
}

pub open spec fn ends_with_sentinel(body: Seq<StmtShape>) -> bool {
    body.len() > 0 && body.last() is Sentinel
}

pub open spec fn init_of(s: StmtShape) -> InitShape {
    match s {
        StmtShape::Binding { init, .. } => init,
        _ => InitShape::Other,
    }
}

/// The setter's parameter name taken from a `write` initializer at `at`, or
/// why there is none.
pub open spec fn write_param_spec(init: InitShape, at: usize) -> Result<Seq<char>, DeclError> {
    match init {
        InitShape::Diverging => Err(DeclError::WriteDiverges { at }),
        InitShape::Other => Err(DeclError::WriteNotClosure { at }),
        InitShape::Closure(params) => if params@.len() == 0 {
            Err(DeclError::WriteUntyped { at })
        } else if params@.len() != 1 {
            Err(DeclError::WriteArity { at })
        } else {
            match params@[0] {
                ParamShape::Untyped => Err(DeclError::WriteUntyped { at }),
                ParamShape::Typed { ident: None } => Err(DeclError::WriteNotIdent { at }),
                ParamShape::Typed { ident: Some(id) } => Ok(id@),
            }
        },
    }
}

/// The first `k` positions, but for the two bindings taken out.
pub open spec fn kept(k: int, a: Option<usize>, b: Option<usize>) -> Seq<usize>
    decreases k,
{
    if k <= 0 {
        Seq::empty()
    } else if a == Some((k - 1) as usize) || b == Some((k - 1) as usize) {
        kept(k - 1, a, b)
    } else {
        kept(k - 1, a, b).push((k - 1) as usize)
    }
}

pub open spec fn read_of(d: Declaration) -> Option<usize> {
    last_named(d.body@, d.body@.len() - 1, read_key())
}

pub open spec fn write_of(d: Declaration) -> Option<usize> {
    last_named(d.body@, d.body@.len() - 1, write_key())
}

/// What is wrong with a declaration, checked in order: the sentinel, the
/// return type a `read` needs, the shape of `write`.
pub open spec fn decl_fault(d: Declaration) -> Option<DeclError> {
    if !ends_with_sentinel(d.body@) {
        Some(DeclError::MissingSentinel)
    } else if read_of(d) is Some && !d.has_return_type {
        Some(DeclError::MissingReturnType { at: read_of(d)->Some_0 })
    } else {
        match write_of(d) {
            Some(j) => match write_param_spec(init_of(d.body@[j as int]), j) {
                Err(e) => Some(e),
                Ok(_) => None,
            },
            None => None,
        }
    }
}

/// `desc` is the descriptor of the valid declaration `d`.
pub open spec fn describes(desc: Descriptor, d: Declaration) -> bool {
    &&& desc.name@ == d.name@
    &&& desc.has_return_type == d.has_return_type
    &&& desc.read_at == read_of(d)
    &&& match write_of(d) {
        Some(j) => desc.write is Some && desc.write->Some_0.at == j && write_param_spec(
            init_of(d.body@[j as int]),
            j,
        ) == Ok::<Seq<char>, DeclError>(desc.write->Some_0.param@),
        None => desc.write is None,
    }
    &&& desc.prologue@ == kept(d.body@.len() - 1, read_of(d), write_of(d))
}

fn has_name(s: &StmtShape, key: &str) -> (r: bool)
    ensures
        r == named(*s, key@),
{
    match s {
        StmtShape::Binding { name, .. } => *name == String::from_str(key),
        _ => false,
    }
}

fn find_last(body: &Vec<StmtShape>, n: usize, key: &str) -> (r: Option<usize>)
    requires
        n <= body@.len(),
    ensures
        r == last_named(body@, n as int, key@),
        r is Some ==> r->Some_0 < n,
{
    let mut k: usize = n;
    while k > 0
        invariant
            k <= n <= body@.len(),
            last_named(body@, n as int, key@) == last_named(body@, k as int, key@),
        decreases k,
    {
        if has_name(&body[k - 1], key) {
            return Some(k - 1);
        }
        k = k - 1;
    }
    None
}

fn write_param(init: &InitShape, at: usize) -> (r: Result<String, DeclError>)
    ensures
        match write_param_spec(*init, at) {
            Ok(p) => r is Ok && r->Ok_0@ == p,
            Err(e) => r == Err::<String, DeclError>(e),
        },
{
    match init {
        InitShape::Diverging => Err(DeclError::WriteDiverges { at }),
        InitShape::Other => Err(DeclError::WriteNotClosure { at }),
        InitShape::Closure(params) => {
            if params.len() == 0 {
                Err(DeclError::WriteUntyped { at })
            } else if params.len() != 1 {
                Err(DeclError::WriteArity { at })
            } else {
                match &params[0] {
                    ParamShape::Untyped => Err(DeclError::WriteUntyped { at }),
                    ParamShape::Typed { ident: None } => Err(DeclError::WriteNotIdent { at }),
                    ParamShape::Typed { ident: Some(id) } => Ok(id.clone()),
                }
            }
        },
    }
}

fn prologue_positions(n: usize, a: Option<usize>, b: Option<usize>) -> (r: Vec<usize>)
    ensures
        r@ == kept(n as int, a, b),
{
    let mut r: Vec<usize> = Vec::new();
    let mut i: usize = 0;
    while i < n
        invariant
            i <= n,
            r@ == kept(i as int, a, b),
        decreases n - i,
    {
        if a == Some(i) || b == Some(i) {
        } else {
            r.push(i);
        }
        i = i + 1;
    }
    r
}

impl Declaration {
    /// Checks the shape of the declaration and picks out its parts: the
    /// `read` and `write` bindings (the last of each name before the
    /// sentinel) and the prologue (every other statement before it).
    pub fn validate(&self) -> (r: Result<Descriptor, DeclError>)
        ensures
            r is Err <==> decl_fault(*self) is Some,
            r is Err ==> r->Err_0 == decl_fault(*self)->Some_0,
            r is Ok ==> describes(r->Ok_0, *self),
    {
        let n = self.body.len();
        if n == 0 {
            return Err(DeclError::MissingSentinel);
        }
        match &self.body[n - 1] {
            StmtShape::Sentinel => {},
            _ => {
                return Err(DeclError::MissingSentinel);
            },
        }
        proof {
            reveal_strlit("read");
            reveal_strlit("write");
            assert("read"@ =~= read_key());
            assert("write"@ =~= write_key());
        }
        let read_at = find_last(&self.body, n - 1, "read");
        let write_at = find_last(&self.body, n - 1, "write");
        if read_at.is_some() && !self.has_return_type {
            return Err(DeclError::MissingReturnType { at: read_at.unwrap() });
        }
        let write = match write_at {
            Some(j) => {
                let init = match &self.body[j] {
                    StmtShape::Binding { init, .. } => init,
                    _ => &InitShape::Other,
                };
                match write_param(init, j) {
                    Ok(param) => Some(WriteBinding { at: j, param }),
                    Err(e) => {
                        return Err(e);
                    },
                }
            },
            None => None,
        };
        let prologue = prologue_positions(n - 1, read_at, write_at);
        Ok(
            Descriptor {
                name: self.name.clone(),
                has_return_type: self.has_return_type,
                read_at,
                write,
                prologue,
            },
        )
    }
}

} // verus!
